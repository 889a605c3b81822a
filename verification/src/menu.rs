//! The menu-bar menu, rebuilt each time it opens: the display with its
//! current size and Remove All, or Add Display when there is none, and Quit.

use vstd::prelude::*;

use crate::digits::{decimal_text, push_decimal};
use crate::display::VirtualDisplay;
use crate::session::Session;
use crate::text::push_str;

verus! {

/// What choosing a menu item does.
#[derive(Debug, Clone, Copy, PartialEq, Eq, Structural)]
pub enum MenuAction {
    /// Nothing: the item is disabled.
    Nothing,
    /// Opens the Add Display dialog.
    AddDisplay,
    /// Removes the display whose id is the item's tag.
    RemoveDisplay,
    /// Removes every display.
    RemoveAll,
    /// Quits the tool (key equivalent `q`).
    Quit,
}

/// One entry of the menu.
#[derive(Debug, Clone, PartialEq, Eq)]
pub enum MenuEntry {
    Separator,
    Item { title: String, action: MenuAction, tag: u32 },
}

/// The abstract value of a menu entry.
pub enum EntryView {
    Separator,
    Item { title: Seq<char>, action: MenuAction, tag: u32 },
}

impl View for MenuEntry {
    type V = EntryView;

    open spec fn view(&self) -> EntryView {
        match self {
            MenuEntry::Separator => EntryView::Separator,
            MenuEntry::Item { title, action, tag } => EntryView::Item {
                title: title@,
                action: *action,
                tag: *tag,
            },
        }
    }
}

/// The title of a display's entry: its id, size, scale and status.
pub open spec fn display_title(d: VirtualDisplay, status: Seq<char>) -> Seq<char> {
    "Remove display "@ + decimal_text(d.id as nat) + ": "@ + decimal_text(d.spec.width as nat)
        + "x"@ + decimal_text(d.spec.height as nat) + " pt @"@ + decimal_text(
        d.spec.spec_scale() as nat,
    ) + "x ("@ + status + ")"@
}

/// The entry that removes display `d`, tagged with its id.
pub open spec fn display_entry(d: VirtualDisplay, status: Seq<char>) -> EntryView {
    EntryView::Item { title: display_title(d, status), action: MenuAction::RemoveDisplay, tag: d.id }
}

/// The entries above the displays: a disabled notice when there are none.
pub open spec fn head_entries(n: nat) -> Seq<EntryView> {
    if n == 0 {
        seq![EntryView::Item { title: "No virtual displays"@, action: MenuAction::Nothing, tag: 0 }]
    } else {
        Seq::empty()
    }
}

/// The entries below the displays: Add Display when there is no display,
/// else Remove All, and Quit, with separators.
pub open spec fn tail_entries(n: nat) -> Seq<EntryView> {
    seq![EntryView::Separator] + (if n == 0 {
        seq![
            EntryView::Item {
                title: "Add Display\u{2026}"@,
                action: MenuAction::AddDisplay,
                tag: 0,
            },
        ]
    } else {
        seq![EntryView::Item { title: "Remove All"@, action: MenuAction::RemoveAll, tag: 0 }]
    }) + seq![
        EntryView::Separator,
        EntryView::Item { title: "Quit vdisplay"@, action: MenuAction::Quit, tag: 0 },
    ]
}

/// The whole menu for `displays`, each shown with its status line.
pub open spec fn menu_entries(displays: Seq<VirtualDisplay>, statuses: Seq<Seq<char>>) -> Seq<
    EntryView,
> {
    head_entries(displays.len()) + Seq::new(
        displays.len(),
        |i: int| display_entry(displays[i], statuses[i]),
    ) + tail_entries(displays.len())
}

/// The views of a list of entries.
pub open spec fn entry_views(entries: Seq<MenuEntry>) -> Seq<EntryView> {
    entries.map_values(|e: MenuEntry| e@)
}

/// The views of a list of strings.
pub open spec fn string_views(strings: Seq<String>) -> Seq<Seq<char>> {
    strings.map_values(|s: String| s@)
}

fn push_entry(entries: &mut Vec<MenuEntry>, entry: MenuEntry)
    ensures
        entry_views(final(entries)@) == entry_views(old(entries)@).push(entry@),
{
    entries.push(entry);
    assert(entry_views(final(entries)@) =~= entry_views(old(entries)@).push(entry@));
}

fn item(title: &str, action: MenuAction) -> (res: MenuEntry)
    ensures
        res@ == (EntryView::Item { title: title@, action, tag: 0 }),
{
    let mut t = String::new();
    push_str(&mut t, title);
    assert(t@ =~= title@);
    MenuEntry::Item { title: t, action, tag: 0 }
}

fn display_item(d: VirtualDisplay, status: &String) -> (res: MenuEntry)
    ensures
        res@ == display_entry(d, status@),
{
    let mut t = String::new();
    push_str(&mut t, "Remove display ");
    push_decimal(&mut t, d.id as u64);
    push_str(&mut t, ": ");
    push_decimal(&mut t, d.spec.width as u64);
    push_str(&mut t, "x");
    push_decimal(&mut t, d.spec.height as u64);
    push_str(&mut t, " pt @");
    push_decimal(&mut t, d.spec.scale() as u64);
    push_str(&mut t, "x (");
    push_str(&mut t, status.as_str());
    push_str(&mut t, ")");
    assert(t@ =~= display_title(d, status@));
    MenuEntry::Item { title: t, action: MenuAction::RemoveDisplay, tag: d.id }
}

impl Session {
    /// The menu, with `statuses[i]` the status line of the `i`th display.
    pub fn menu(&self, statuses: &Vec<String>) -> (res: Vec<MenuEntry>)
        requires
            statuses@.len() == self@.displays.len(),
        ensures
            entry_views(res@) == menu_entries(self@.displays, string_views(statuses@)),
    {
        let displays = self.displays();
        let n = displays.len();
        let ghost st = string_views(statuses@);
        let ghost rows = Seq::new(n as nat, |i: int| display_entry(displays@[i], st[i]));
        let mut res: Vec<MenuEntry> = Vec::new();
        if n == 0 {
            push_entry(&mut res, item("No virtual displays", MenuAction::Nothing));
        }
        assert(entry_views(res@) =~= head_entries(n as nat));
        let mut i: usize = 0;
        while i < n
            invariant
                n == displays@.len(),
                displays@ == self@.displays,
                statuses@.len() == n,
                st == string_views(statuses@),
                rows == Seq::new(n as nat, |i: int| display_entry(displays@[i], st[i])),
                0 <= i <= n,
                entry_views(res@) == head_entries(n as nat) + rows.take(i as int),
            decreases n - i,
        {
            let entry = display_item(displays[i], &statuses[i]);
            push_entry(&mut res, entry);
            assert(rows.take(i + 1) =~= rows.take(i as int).push(rows[i as int]));
            assert(head_entries(n as nat) + rows.take(i + 1) =~= (head_entries(n as nat)
                + rows.take(i as int)).push(rows[i as int]));
            i = i + 1;
        }
        assert(rows.take(n as int) =~= rows);
        push_entry(&mut res, MenuEntry::Separator);
        if n == 0 {
            push_entry(&mut res, item("Add Display\u{2026}", MenuAction::AddDisplay));
        } else {
            push_entry(&mut res, item("Remove All", MenuAction::RemoveAll));
        }
        push_entry(&mut res, MenuEntry::Separator);
        push_entry(&mut res, item("Quit vdisplay", MenuAction::Quit));
        assert(entry_views(res@) =~= menu_entries(self@.displays, st));
        res
    }
}

} // verus!
