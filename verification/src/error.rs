//! Why a display spec is refused, and why making a display failed.

use vstd::prelude::*;

use crate::digits::{decimal_text, push_decimal, NumberError};
use crate::text::{debug_string, debug_text, push_str};

verus! {

/// The smallest size accepted, in points: width, then height.
pub const MIN_WIDTH: u32 = 640;

/// See [`MIN_WIDTH`].
pub const MIN_HEIGHT: u32 = 480;

/// Largest framebuffer edge accepted, in pixels.
pub const MAX_PIXELS: u32 = 8192;

/// Which field of the Add Display dialog a number was typed into.
#[derive(Debug, Clone, Copy, PartialEq, Eq, Structural)]
pub enum Field {
    Width,
    Height,
}

impl Field {
    /// The field's name as the dialog's messages call it.
    pub open spec fn name_text(self) -> Seq<char> {
        match self {
            Field::Width => "width"@,
            Field::Height => "height"@,
        }
    }

    /// See [`Field::name_text`].
    pub fn name(self) -> (res: &'static str)
        ensures
            res@ == self.name_text(),
    {
        match self {
            Field::Width => "width",
            Field::Height => "height",
        }
    }
}

/// Why a spec, an argument or a dialog entry is refused.
#[derive(Debug, Clone, PartialEq, Eq)]
pub enum SpecError {
    /// The size is under the minimum, in points.
    UnderMinimum { width: u32, height: u32 },
    /// The framebuffer (points times scale) is over the pixel edge limit.
    OverPixelLimit { pixels_wide: u64, pixels_high: u64, scale: u32 },
    /// The argument is not of the form `WIDTHxHEIGHT@SCALE`; `cause` is why
    /// its width or height was no number, where that was the reason.
    NotSpecArgument { arg: String, cause: Option<NumberError> },
    /// A dialog field does not hold a whole number of points; `text` is what
    /// it holds once trimmed.
    NotWholeNumber { field: Field, text: String },
    /// A display exists already: only one exists at a time.
    DisplayExists,
}

/// Why a display that passed its checks could not be made.
#[derive(Debug, Clone, Copy, PartialEq, Eq, Structural)]
pub enum CreateError {
    /// The new display reported no display id.
    NoDisplayId,
    /// The display refused the one mode it was given.
    SettingsRefused { width: u32, height: u32, scale: u32 },
}

impl SpecError {
    /// The error's message, with the cause after a colon where there is
    /// one.
    pub open spec fn message_text(&self) -> Seq<char> {
        match self {
            SpecError::UnderMinimum { width, height } => decimal_text(*width as nat) + "x"@
                + decimal_text(*height as nat) + " points is under the "@ + decimal_text(
                MIN_WIDTH as nat,
            ) + "x"@ + decimal_text(MIN_HEIGHT as nat) + " minimum"@,
            SpecError::OverPixelLimit { pixels_wide, pixels_high, scale } => decimal_text(
                *pixels_wide as nat,
            ) + "x"@ + decimal_text(*pixels_high as nat) + " pixels at "@ + decimal_text(
                *scale as nat,
            ) + "x is over the "@ + decimal_text(MAX_PIXELS as nat) + " pixel edge limit"@,
            SpecError::NotSpecArgument { arg, cause } => debug_text(arg@)
                + " is not WIDTHxHEIGHT@SCALE, e.g. 1920x1080@2"@ + match cause {
                Some(c) => ": "@ + c.message_text(),
                None => Seq::<char>::empty(),
            },
            SpecError::NotWholeNumber { field, text } => field.name_text() + " "@ + debug_text(
                text@,
            ) + " is not a whole number of points"@,
            SpecError::DisplayExists => "a display exists already; remove it to add another"@,
        }
    }

    /// See [`SpecError::message_text`].
    pub fn message(&self) -> (res: String)
        ensures
            res@ == self.message_text(),
    {
        let mut out = String::new();
        match self {
            SpecError::UnderMinimum { width, height } => {
                push_decimal(&mut out, *width as u64);
                push_str(&mut out, "x");
                push_decimal(&mut out, *height as u64);
                push_str(&mut out, " points is under the ");
                push_decimal(&mut out, MIN_WIDTH as u64);
                push_str(&mut out, "x");
                push_decimal(&mut out, MIN_HEIGHT as u64);
                push_str(&mut out, " minimum");
            },
            SpecError::OverPixelLimit { pixels_wide, pixels_high, scale } => {
                push_decimal(&mut out, *pixels_wide);
                push_str(&mut out, "x");
                push_decimal(&mut out, *pixels_high);
                push_str(&mut out, " pixels at ");
                push_decimal(&mut out, *scale as u64);
                push_str(&mut out, "x is over the ");
                push_decimal(&mut out, MAX_PIXELS as u64);
                push_str(&mut out, " pixel edge limit");
            },
            SpecError::NotSpecArgument { arg, cause } => {
                let quoted = debug_string(arg.as_str());
                push_str(&mut out, quoted.as_str());
                push_str(&mut out, " is not WIDTHxHEIGHT@SCALE, e.g. 1920x1080@2");
                match cause {
                    Some(c) => {
                        push_str(&mut out, ": ");
                        push_str(&mut out, c.message());
                    },
                    None => {},
                }
            },
            SpecError::NotWholeNumber { field, text } => {
                push_str(&mut out, field.name());
                push_str(&mut out, " ");
                let quoted = debug_string(text.as_str());
                push_str(&mut out, quoted.as_str());
                push_str(&mut out, " is not a whole number of points");
            },
            SpecError::DisplayExists => {
                push_str(&mut out, "a display exists already; remove it to add another");
            },
        }
        assert(out@ =~= self.message_text());
        out
    }
}

impl CreateError {
    /// The error's message.
    pub open spec fn message_text(&self) -> Seq<char> {
        match self {
            CreateError::NoDisplayId => "CGVirtualDisplay returned no display id"@,
            CreateError::SettingsRefused { width, height, scale } => "applySettings: refused "@
                + decimal_text(*width as nat) + "x"@ + decimal_text(*height as nat) + " at "@
                + decimal_text(*scale as nat) + "x"@,
        }
    }

    /// See [`CreateError::message_text`].
    pub fn message(&self) -> (res: String)
        ensures
            res@ == self.message_text(),
    {
        let mut out = String::new();
        match self {
            CreateError::NoDisplayId => {
                push_str(&mut out, "CGVirtualDisplay returned no display id");
            },
            CreateError::SettingsRefused { width, height, scale } => {
                push_str(&mut out, "applySettings: refused ");
                push_decimal(&mut out, *width as u64);
                push_str(&mut out, "x");
                push_decimal(&mut out, *height as u64);
                push_str(&mut out, " at ");
                push_decimal(&mut out, *scale as u64);
                push_str(&mut out, "x");
            },
        }
        assert(out@ =~= self.message_text());
        out
    }
}

} // verus!
