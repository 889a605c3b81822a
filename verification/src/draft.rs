//! What the Add Display dialog holds, as typed, and how it is read.

use vstd::prelude::*;

use crate::digits::{
    decimal,
    decimal_text,
    is_digit,
    lemma_decimal_text_value,
    lemma_parse_decimal_text,
    parse_u32,
    parse_u32_spec,
};
use crate::display::Spec;
use crate::error::{Field, SpecError};
use crate::text::{chars_of, string_of, trim, trim_bounds, trim_end, trim_start};

verus! {

/// The dialog's fields, as typed.
#[derive(Debug, Clone)]
pub struct Draft {
    pub width: String,
    pub height: String,
    pub hidpi: bool,
}

/// The number a dialog field names: its text, trimmed, read as a `u32`.
pub open spec fn number_field(text: Seq<char>) -> Option<u32> {
    parse_u32_spec(trim(text))
}

impl Draft {
    /// The dialog's fields for `spec`: its width and height in decimal.
    pub fn from(spec: Spec) -> (res: Draft)
        ensures
            res.width@ == decimal_text(spec.width as nat),
            res.height@ == decimal_text(spec.height as nat),
            res.hidpi == spec.hidpi,
    {
        Draft {
            width: decimal(spec.width as u64),
            height: decimal(spec.height as u64),
            hidpi: spec.hidpi,
        }
    }

    /// Reads the fields as a spec and checks it. The width is read first.
    pub fn parse(&self) -> (res: Result<Spec, SpecError>)
        ensures
            match number_field(self.width@) {
                None => res matches Err(SpecError::NotWholeNumber { field: Field::Width, text })
                    && text@ == trim(self.width@),
                Some(w) => match number_field(self.height@) {
                    None => res matches Err(
                        SpecError::NotWholeNumber { field: Field::Height, text },
                    ) && text@ == trim(self.height@),
                    Some(h) => {
                        let spec = Spec { width: w, height: h, hidpi: self.hidpi };
                        match spec.validation() {
                            Ok(_) => res == Ok::<Spec, SpecError>(spec),
                            Err(e) => res == Err::<Spec, SpecError>(e),
                        }
                    },
                },
            },
    {
        let width = match number(Field::Width, &self.width) {
            Ok(w) => w,
            Err(e) => return Err(e),
        };
        let height = match number(Field::Height, &self.height) {
            Ok(h) => h,
            Err(e) => return Err(e),
        };
        let spec = Spec { width, height, hidpi: self.hidpi };
        match spec.validate() {
            Ok(()) => Ok(spec),
            Err(e) => Err(e),
        }
    }
}

/// Reads one field as a whole number of points.
fn number(field: Field, s: &String) -> (res: Result<u32, SpecError>)
    ensures
        match number_field(s@) {
            Some(n) => res == Ok::<u32, SpecError>(n),
            None => res matches Err(SpecError::NotWholeNumber { field: f, text }) && f == field
                && text@ == trim(s@),
        },
{
    let chars = chars_of(s.as_str());
    let n = chars.len();
    assert(chars@.subrange(0, n as int) =~= s@);
    let (a, b) = trim_bounds(&chars, 0, n);
    match parse_u32(&chars, a, b) {
        Ok(v) => Ok(v),
        Err(_) => Err(SpecError::NotWholeNumber { field, text: string_of(&chars, a, b) }),
    }
}

/// Decimal text has no white space to trim.
proof fn lemma_trim_decimal_text(n: nat)
    ensures
        trim(decimal_text(n)) == decimal_text(n),
{
    let t = decimal_text(n);
    lemma_decimal_text_value(n);
    assert(is_digit(t[0]));
    assert(trim_start(t) == t);
    assert(is_digit(t.last()));
    assert(trim_end(t) == t);
}

/// What [`Draft::from`] writes for a spec's width and height,
/// [`Draft::parse`] reads back as that width and height; so the dialog,
/// opened on a spec that passed its checks, gives that spec back.
pub proof fn lemma_draft_roundtrip(spec: Spec)
    ensures
        number_field(decimal_text(spec.width as nat)) == Some(spec.width),
        number_field(decimal_text(spec.height as nat)) == Some(spec.height),
{
    lemma_trim_decimal_text(spec.width as nat);
    lemma_trim_decimal_text(spec.height as nat);
    lemma_parse_decimal_text(spec.width);
    lemma_parse_decimal_text(spec.height);
}

} // verus!
