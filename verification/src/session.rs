//! The displays this process has made, the spec the dialog opens with, and
//! the menu that shows them.
//!
//! Every display belongs to the process: Remove or Quit takes it away, and so
//! does a crash. Nothing is saved between runs.

use vstd::prelude::*;

use crate::display::{DisplayPlan, Spec, VirtualDisplay};
use crate::error::SpecError;

verus! {

broadcast use vstd::seq_lib::group_filter_ensures;

/// Every display sits in a slot of at least 1 and has a spec that passes
/// its checks.
pub open spec fn well_placed(displays: Seq<VirtualDisplay>) -> bool {
    forall|i: int|
        0 <= i < displays.len() ==> #[trigger] displays[i].slot >= 1 && displays[i].spec.is_valid()
}

/// The displays left once those with display id `id` are removed.
pub open spec fn without_id(displays: Seq<VirtualDisplay>, id: u32) -> Seq<VirtualDisplay> {
    displays.filter(kept_by(id))
}

/// Whether a display stays when those with display id `id` are removed.
pub open spec fn kept_by(id: u32) -> spec_fn(VirtualDisplay) -> bool {
    |d: VirtualDisplay| d.id != id
}

/// The spec the dialog opens with before any display was made: 1440x900
/// at 2x.
pub open spec fn first_spec() -> Spec {
    Spec { width: 1440, height: 900, hidpi: true }
}

/// The abstract state of a session.
pub struct SessionView {
    /// The live display, if any.
    pub displays: Seq<VirtualDisplay>,
    /// What the dialog opens with: the last spec a display was made of.
    pub last: Spec,
}

/// The display this process has made, if any, and the last spec asked
/// for. Only one display exists at a time; to change its size, remove it
/// and add it again.
pub struct Session {
    displays: Vec<VirtualDisplay>,
    last: Spec,
}

impl Session {
    /// Only one display exists at a time; it sits in a slot of at least 1
    /// and its spec passes its checks.
    #[verifier::type_invariant]
    spec fn inv(self) -> bool {
        &&& self.displays@.len() <= 1
        &&& well_placed(self.displays@)
    }
}

impl View for Session {
    type V = SessionView;

    closed spec fn view(&self) -> SessionView {
        SessionView { displays: self.displays@, last: self.last }
    }
}

impl Session {
    /// No displays, and a dialog that opens with 1440x900 at 2x.
    pub fn new() -> (res: Session)
        ensures
            res@.displays == Seq::<VirtualDisplay>::empty(),
            res@.last == first_spec(),
    {
        Session { displays: Vec::new(), last: Spec { width: 1440, height: 900, hidpi: true } }
    }

    /// The live displays: none or one.
    pub fn displays(&self) -> (res: &Vec<VirtualDisplay>)
        ensures
            res@ == self@.displays,
            res@.len() <= 1,
            well_placed(res@),
    {
        proof {
            use_type_invariant(self);
        }
        &self.displays
    }

    /// What the dialog opens with: the last spec a display was made of.
    pub fn last(&self) -> (res: Spec)
        ensures
            res == self@.last,
    {
        self.last
    }

    /// Plans a display of `spec` in slot 1, the least slot, once the spec
    /// passes its checks. Only one display exists at a time: while one
    /// does, nothing is planned.
    pub fn prepare(&self, spec: Spec) -> (res: Result<DisplayPlan, SpecError>)
        ensures
            self@.displays.len() != 0 ==> res == Err::<DisplayPlan, SpecError>(
                SpecError::DisplayExists,
            ),
            self@.displays.len() == 0 ==> match spec.validation() {
                Err(e) => res == Err::<DisplayPlan, SpecError>(e),
                Ok(_) => res matches Ok(plan) && plan.describes(spec, 1),
            },
    {
        if self.displays.len() != 0 {
            return Err(SpecError::DisplayExists);
        }
        DisplayPlan::new(spec, 1)
    }

    /// Records the display made from `plan`, with display id `id`; the
    /// dialog then opens with its spec.
    pub fn commit(&mut self, plan: &DisplayPlan, id: u32)
        requires
            old(self)@.displays.len() == 0,
            plan.slot >= 1,
            plan.spec.is_valid(),
        ensures
            final(self)@.displays == old(self)@.displays.push(
                VirtualDisplay { id, spec: plan.spec, slot: plan.slot },
            ),
            final(self)@.last == plan.spec,
            final(self)@.displays.len() <= 1,
            well_placed(final(self)@.displays),
    {
        proof {
            use_type_invariant(&*self);
        }
        let mut displays: Vec<VirtualDisplay> = Vec::new();
        std::mem::swap(&mut displays, &mut self.displays);
        displays.push(VirtualDisplay { id, spec: plan.spec, slot: plan.slot });
        self.displays = displays;
        self.last = plan.spec;
    }

    /// Removes the displays with display id `id`; the others keep their
    /// order.
    pub fn remove(&mut self, id: u32)
        ensures
            final(self)@.displays == without_id(old(self)@.displays, id),
            forall|d: VirtualDisplay|
                #[trigger] final(self)@.displays.contains(d) <==> (old(self)@.displays.contains(d)
                    && d.id != id),
            final(self)@.last == old(self)@.last,
            final(self)@.displays.len() <= 1,
            well_placed(final(self)@.displays),
    {
        proof {
            use_type_invariant(&*self);
        }
        let ghost before = self.displays@;
        let mut kept: Vec<VirtualDisplay> = Vec::new();
        let n = self.displays.len();
        let mut i: usize = 0;
        while i < n
            invariant
                n == self.displays@.len(),
                before == self.displays@,
                0 <= i <= n,
                kept@ == without_id(before.take(i as int), id),
            decreases n - i,
        {
            let d = self.displays[i];
            proof {
                assert(before.take(i + 1).drop_last() =~= before.take(i as int));
                reveal(Seq::filter);
            }
            if d.id != id {
                kept.push(d);
            }
            i = i + 1;
        }
        assert(before.take(n as int) =~= before);
        proof {
            lemma_filter_keeps_well_placed(before, id);
            lemma_without_id_keeps_other_ids(before, id);
        }
        self.displays = kept;
    }

    /// Removes every display.
    pub fn remove_all(&mut self)
        ensures
            final(self)@.displays == Seq::<VirtualDisplay>::empty(),
            final(self)@.last == old(self)@.last,
    {
        self.displays = Vec::new();
    }
}

/// Removing displays keeps every remaining one well placed.
proof fn lemma_filter_keeps_well_placed(displays: Seq<VirtualDisplay>, id: u32)
    requires
        well_placed(displays),
    ensures
        well_placed(without_id(displays, id)),
{
    let kept = without_id(displays, id);
    assert forall|k: int| 0 <= k < kept.len() implies #[trigger] kept[k].slot >= 1
        && kept[k].spec.is_valid() by {
        assert(kept.contains(kept[k]));
        displays.lemma_filter_contains_rev(kept_by(id), kept[k]);
        let j = choose|j: int| 0 <= j < displays.len() && displays[j] == kept[k];
        assert(displays[j].slot >= 1);
    }
}

/// Removing by display id keeps a display exactly when its id differs:
/// every display with another id stays, every display with that id goes,
/// and nothing else appears.
pub proof fn lemma_without_id_keeps_other_ids(displays: Seq<VirtualDisplay>, id: u32)
    ensures
        forall|d: VirtualDisplay|
            #[trigger] without_id(displays, id).contains(d) <==> (displays.contains(d) && d.id
                != id),
{
    let kept = without_id(displays, id);
    assert forall|d: VirtualDisplay| #[trigger] kept.contains(d) <==> (displays.contains(d)
        && d.id != id) by {
        if kept.contains(d) {
            displays.lemma_filter_contains_rev(kept_by(id), d);
            let k = choose|k: int| 0 <= k < kept.len() && kept[k] == d;
            displays.lemma_filter_pred(kept_by(id), k);
        }
        if displays.contains(d) && d.id != id {
            let i = choose|i: int| 0 <= i < displays.len() && displays[i] == d;
            displays.lemma_filter_contains(kept_by(id), i);
        }
    }
}

} // verus!
