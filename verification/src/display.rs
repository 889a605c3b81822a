//! One screen's spec: its size in points and its density, the checks it must
//! pass, the argument form that names it, and the identity a display made
//! from it reports.
//!
//! The mode is always listed in points; `hidpi` decides how many pixels sit
//! behind it. The descriptor's `maxPixels` is set to exactly
//! `points * scale`.

use vstd::prelude::*;

use crate::digits::{
    decimal_text,
    is_digit,
    lemma_decimal_text_value,
    lemma_parse_decimal_text,
    parse_u32,
    parse_u32_error,
    parse_u32_spec,
    NumberError,
    push_decimal,
};
use crate::error::{CreateError, SpecError, MAX_PIXELS, MIN_HEIGHT, MIN_WIDTH};
use crate::text::{
    chars_of,
    find_char,
    lemma_split_absent,
    lemma_split_at_first,
    push_str,
    split_once,
};

verus! {

/// Vendor id every display this tool makes reports ("vd").
pub const VENDOR: u32 = 0x7664;

/// A screen size in points and a density, 1x or 2x.
#[derive(Debug, Clone, Copy, PartialEq, Eq, Structural)]
pub struct Spec {
    pub width: u32,
    pub height: u32,
    pub hidpi: bool,
}

/// What the parts of a `WIDTHxHEIGHT@SCALE` argument name, before any
/// check of the size: the text before the first `@` split at its first
/// `x` into two `u32`s, and after it `1` or `2`.
pub open spec fn arg_fields(arg: Seq<char>) -> Option<Spec> {
    match split_once(arg, '@') {
        None => None,
        Some((size, scale)) => match (size_fields(size), scale_flag(scale)) {
            (Some((width, height)), Some(hidpi)) => Some(Spec { width, height, hidpi }),
            _ => None,
        },
    }
}

/// What `WIDTHxHEIGHT` names: the text split at its first `x` into two
/// `u32`s.
pub open spec fn size_fields(size: Seq<char>) -> Option<(u32, u32)> {
    match split_once(size, 'x') {
        None => None,
        Some((w, h)) => match (parse_u32_spec(w), parse_u32_spec(h)) {
            (Some(width), Some(height)) => Some((width, height)),
            _ => None,
        },
    }
}

/// Why the size in `WIDTHxHEIGHT` is no pair of numbers, where a number
/// is the reason: the width's refusal, else the height's.
pub open spec fn size_cause(size: Seq<char>) -> Option<NumberError> {
    match split_once(size, 'x') {
        None => None,
        Some((w, h)) => if parse_u32_spec(w) is None {
            Some(parse_u32_error(w))
        } else if parse_u32_spec(h) is None {
            Some(parse_u32_error(h))
        } else {
            None
        },
    }
}

/// Why an argument is no `WIDTHxHEIGHT@SCALE`, where a number is the
/// reason.
pub open spec fn arg_cause(arg: Seq<char>) -> Option<NumberError> {
    match split_once(arg, '@') {
        None => None,
        Some((size, _)) => size_cause(size),
    }
}

/// The density that a scale of `1` or `2` names.
pub open spec fn scale_flag(s: Seq<char>) -> Option<bool> {
    if s == seq!['1'] {
        Some(false)
    } else if s == seq!['2'] {
        Some(true)
    } else {
        None
    }
}

/// The canonical argument text of a spec: `WIDTHxHEIGHT@SCALE` in decimal.
pub open spec fn arg_text(spec: Spec) -> Seq<char> {
    decimal_text(spec.width as nat) + seq!['x'] + decimal_text(spec.height as nat) + seq!['@']
        + decimal_text(spec.spec_scale() as nat)
}

impl Spec {
    /// The smallest size accepted, in points: width, then height.
    pub const MIN: (u32, u32) = (MIN_WIDTH, MIN_HEIGHT);

    /// Largest framebuffer edge accepted, in pixels.
    pub const MAX_PIXELS: u32 = MAX_PIXELS;

    /// Pixels per point on each axis: 2 with `hidpi`, else 1.
    pub open spec fn spec_scale(self) -> u32 {
        if self.hidpi {
            2
        } else {
            1
        }
    }

    /// Framebuffer width in pixels, without overflow.
    pub open spec fn pixels_wide(self) -> int {
        self.width * self.spec_scale()
    }

    /// Framebuffer height in pixels, without overflow.
    pub open spec fn pixels_high(self) -> int {
        self.height * self.spec_scale()
    }

    /// The outcome of the checks on a spec: the size must be at least the
    /// minimum in points, and no framebuffer edge may pass the pixel limit.
    pub open spec fn validation(self) -> Result<(), SpecError> {
        if !(self.width >= MIN_WIDTH && self.height >= MIN_HEIGHT) {
            Err(SpecError::UnderMinimum { width: self.width, height: self.height })
        } else if !(self.pixels_wide() <= MAX_PIXELS && self.pixels_high() <= MAX_PIXELS) {
            Err(
                SpecError::OverPixelLimit {
                    pixels_wide: self.pixels_wide() as u64,
                    pixels_high: self.pixels_high() as u64,
                    scale: self.spec_scale(),
                },
            )
        } else {
            Ok(())
        }
    }

    /// The spec passes its checks.
    pub open spec fn is_valid(self) -> bool {
        self.validation() is Ok
    }

    /// The serial number that a display of this spec reports.
    pub open spec fn serial_value(self) -> int {
        self.width * 100_000 + self.height * 10 + self.spec_scale()
    }

    /// Pixels per point: 2 with `hidpi`, else 1.
    pub fn scale(self) -> (res: u32)
        ensures
            res == self.spec_scale(),
    {
        if self.hidpi {
            2
        } else {
            1
        }
    }

    /// The framebuffer size in pixels: points times scale on each axis.
    pub fn pixels(self) -> (res: (u32, u32))
        requires
            self.pixels_wide() <= u32::MAX,
            self.pixels_high() <= u32::MAX,
        ensures
            res.0 == self.pixels_wide(),
            res.1 == self.pixels_high(),
    {
        (self.width * self.scale(), self.height * self.scale())
    }

    /// Checks the spec: at least the minimum size in points, and no
    /// framebuffer edge over the pixel limit.
    pub fn validate(self) -> (res: Result<(), SpecError>)
        ensures
            res == self.validation(),
            res is Ok <==> {
                let scale: int = if self.hidpi { 2 } else { 1 };
                &&& self.width >= 640
                &&& self.height >= 480
                &&& self.width * scale <= 8192
                &&& self.height * scale <= 8192
            },
            self.width >= 640 && self.height >= 480 ==> !(res matches Err(
                SpecError::UnderMinimum { .. },
            )),
    {
        proof {
            lemma_validation_meaning(self);
        }
        if !(self.width >= MIN_WIDTH && self.height >= MIN_HEIGHT) {
            return Err(SpecError::UnderMinimum { width: self.width, height: self.height });
        }
        let scale = self.scale();
        let (wide, high) = if self.hidpi {
            (self.width as u64 * 2, self.height as u64 * 2)
        } else {
            (self.width as u64, self.height as u64)
        };
        if !(wide <= MAX_PIXELS as u64 && high <= MAX_PIXELS as u64) {
            return Err(SpecError::OverPixelLimit { pixels_wide: wide, pixels_high: high, scale });
        }
        Ok(())
    }

    /// Reads `WIDTHxHEIGHT@SCALE`, in points, with a scale of 1 or 2, and
    /// checks the spec it names.
    pub fn from_arg(arg: &str) -> (res: Result<Spec, SpecError>)
        ensures
            match arg_fields(arg@) {
                None => res matches Err(SpecError::NotSpecArgument { arg: a, cause }) && a@ == arg@
                    && cause == arg_cause(arg@),
                Some(spec) => match spec.validation() {
                    Ok(_) => res == Ok::<Spec, SpecError>(spec),
                    Err(e) => res == Err::<Spec, SpecError>(e),
                },
            },
    {
        let chars = chars_of(arg);
        match parse_arg(&chars) {
            Err(cause) => Err(SpecError::NotSpecArgument { arg: arg.to_owned(), cause }),
            Ok(spec) => match spec.validate() {
                Ok(()) => Ok(spec),
                Err(e) => Err(e),
            },
        }
    }

    /// Serial number for this spec.
    ///
    /// macOS files a display's arrangement (position and mode, density
    /// included) against vendor, product and serial, and restores it when
    /// that identity reappears. Deriving the serial from the spec means a
    /// size or density never inherits a mode remembered for a different one,
    /// while the same spec comes back where it was left.
    pub fn serial(self) -> (res: u32)
        requires
            self.serial_value() <= u32::MAX,
        ensures
            res == self.serial_value(),
    {
        self.width * 100_000 + self.height * 10 + self.scale()
    }
}

/// Reads `WIDTHxHEIGHT@SCALE` from `chars`, without checking the spec.
fn parse_arg(chars: &Vec<char>) -> (res: Result<Spec, Option<NumberError>>)
    ensures
        match res {
            Ok(spec) => arg_fields(chars@) == Some(spec),
            Err(cause) => arg_fields(chars@) is None && cause == arg_cause(chars@),
        },
{
    let n = chars.len();
    let ghost a = chars@.subrange(0, n as int);
    assert(a =~= chars@);
    let at = match find_char(chars, 0, n, '@') {
        Some(at) => at,
        None => {
            proof {
                lemma_split_absent(a, '@');
            }
            return Err(None);
        },
    };
    proof {
        lemma_split_at_first(a, '@', at as int);
        assert(a.take(at as int) =~= chars@.subrange(0, at as int));
        assert(a.skip(at + 1) =~= chars@.subrange(at + 1, n as int));
    }
    let (width, height) = match parse_size(chars, 0, at) {
        Ok(size) => size,
        Err(cause) => return Err(cause),
    };
    match parse_scale(chars, at + 1, n) {
        Some(hidpi) => Ok(Spec { width, height, hidpi }),
        None => Err(None),
    }
}

/// Reads `WIDTHxHEIGHT` from `chars[lo..hi]`.
fn parse_size(chars: &Vec<char>, lo: usize, hi: usize) -> (res: Result<(u32, u32), Option<NumberError>>)
    requires
        lo <= hi <= chars.len(),
    ensures
        match res {
            Ok(size) => size_fields(chars@.subrange(lo as int, hi as int)) == Some(size),
            Err(cause) => size_fields(chars@.subrange(lo as int, hi as int)) is None && cause
                == size_cause(chars@.subrange(lo as int, hi as int)),
        },
{
    let ghost size = chars@.subrange(lo as int, hi as int);
    let x = match find_char(chars, lo, hi, 'x') {
        Some(x) => x,
        None => {
            proof {
                lemma_split_absent(size, 'x');
            }
            return Err(None);
        },
    };
    proof {
        lemma_split_at_first(size, 'x', x as int);
        assert(size.take(x as int) =~= chars@.subrange(lo as int, lo + x));
        assert(size.skip(x + 1) =~= chars@.subrange(lo + x + 1, hi as int));
    }
    let width = match parse_u32(chars, lo, lo + x) {
        Ok(w) => w,
        Err(e) => return Err(Some(e)),
    };
    let height = match parse_u32(chars, lo + x + 1, hi) {
        Ok(h) => h,
        Err(e) => return Err(Some(e)),
    };
    Ok((width, height))
}

/// Reads a scale of `1` or `2` from `chars[lo..hi]`: whether it is 2x.
fn parse_scale(chars: &Vec<char>, lo: usize, hi: usize) -> (res: Option<bool>)
    requires
        lo <= hi <= chars.len(),
    ensures
        res == scale_flag(chars@.subrange(lo as int, hi as int)),
{
    let ghost s = chars@.subrange(lo as int, hi as int);
    if hi - lo != 1 {
        assert(s.len() != seq!['1'].len());
        assert(s != seq!['1'] && s != seq!['2']);
        return None;
    }
    let c = chars[lo];
    if c == '1' {
        assert(s =~= seq!['1']);
        Some(false)
    } else if c == '2' {
        assert(s =~= seq!['2']);
        Some(true)
    } else {
        assert(s[0] != seq!['1'][0] && s[0] != seq!['2'][0]);
        None
    }
}

/// The canonical argument text of a spec reads back as that spec, so
/// `from_arg` accepts it exactly when the spec passes its checks.
pub proof fn lemma_arg_text_roundtrip(spec: Spec)
    ensures
        arg_fields(arg_text(spec)) == Some(spec),
{
    let w = decimal_text(spec.width as nat);
    let h = decimal_text(spec.height as nat);
    let sc = decimal_text(spec.spec_scale() as nat);
    lemma_decimal_text_value(spec.width as nat);
    lemma_decimal_text_value(spec.height as nat);
    lemma_parse_decimal_text(spec.width);
    lemma_parse_decimal_text(spec.height);
    let size = w + seq!['x'] + h;
    let arg = arg_text(spec);
    assert(arg =~= size + seq!['@'] + sc);
    let at = size.len() as int;
    assert forall|k: int| 0 <= k < at implies arg[k] != '@' by {
        if k < w.len() {
            assert(is_digit(w[k]));
        } else if k > w.len() {
            assert(is_digit(h[k - w.len() - 1]));
        }
    }
    lemma_split_at_first(arg, '@', at);
    assert(arg.take(at) =~= size);
    if spec.hidpi {
        assert(sc =~= seq!['2']);
    } else {
        assert(sc =~= seq!['1']);
    }
    assert(arg.skip(at + 1) =~= sc);
    assert forall|k: int| 0 <= k < w.len() implies size[k] != 'x' by {
        assert(is_digit(w[k]));
    }
    lemma_split_at_first(size, 'x', w.len() as int);
    assert(size.take(w.len() as int) =~= w);
    assert(size.skip(w.len() as int + 1) =~= h);
    assert(seq!['2'][0] != seq!['1'][0]);
}

/// Two specs that pass their checks have the same serial exactly when they
/// are the same spec: a size or density never shares its identity with
/// another, and the same spec always comes back with the same one.
pub proof fn lemma_serial_identifies_spec(a: Spec, b: Spec)
    requires
        a.is_valid(),
        b.is_valid(),
    ensures
        a.serial_value() == b.serial_value() <==> a == b,
{
    let ra = a.height * 10 + a.spec_scale();
    let rb = b.height * 10 + b.spec_scale();
    assert(0 <= ra < 100_000);
    assert(0 <= rb < 100_000);
    if a.serial_value() == b.serial_value() {
        if a.width < b.width {
            assert(b.width * 100_000 >= a.width * 100_000 + 100_000);
        }
        if b.width < a.width {
            assert(a.width * 100_000 >= b.width * 100_000 + 100_000);
        }
        assert(a.width == b.width);
        assert(ra == rb);
        if a.height < b.height {
            assert(b.height * 10 >= a.height * 10 + 10);
        }
        if b.height < a.height {
            assert(a.height * 10 >= b.height * 10 + 10);
        }
        assert(a.height == b.height);
        assert(a.hidpi == b.hidpi);
    }
}

/// A spec that passes its checks has a serial that fits in a `u32`.
pub proof fn lemma_valid_serial_fits(spec: Spec)
    requires
        spec.is_valid(),
    ensures
        spec.serial_value() <= u32::MAX,
        spec.pixels_wide() <= u32::MAX,
        spec.pixels_high() <= u32::MAX,
{
    assert(spec.pixels_wide() <= MAX_PIXELS && spec.pixels_high() <= MAX_PIXELS);
    if spec.hidpi {
        assert(spec.pixels_wide() == spec.width * 2);
        assert(spec.pixels_high() == spec.height * 2);
    } else {
        assert(spec.pixels_wide() == spec.width * 1);
        assert(spec.pixels_high() == spec.height * 1);
    }
}

/// What a display of a spec in a slot is made with: its descriptor's name,
/// pixel ceiling and identity, and the one mode it lists.
pub struct DisplayPlan {
    pub spec: Spec,
    pub slot: u32,
    /// The descriptor's name: `vdisplay`, whatever the size.
    pub name: String,
    /// The descriptor's `maxPixelsWide`: exactly points times scale.
    pub pixels_wide: u32,
    /// The descriptor's `maxPixelsHigh`: exactly points times scale.
    pub pixels_high: u32,
    /// The vendor id, the same for every display.
    pub vendor: u32,
    /// The product id: the slot, so two displays of one spec are two
    /// identities.
    pub product: u32,
    /// The serial number, derived from the spec.
    pub serial: u32,
}

impl DisplayPlan {
    /// The plan is that of a display of `spec` in `slot`: named `vdisplay`
    /// whatever its size, with a pixel ceiling of exactly points times scale, the fixed
    /// vendor, the slot as product and the spec's serial.
    pub open spec fn describes(self, spec: Spec, slot: u32) -> bool {
        &&& self.spec == spec
        &&& self.slot == slot
        &&& self.name@ == "vdisplay"@
        &&& self.pixels_wide == spec.pixels_wide()
        &&& self.pixels_high == spec.pixels_high()
        &&& self.vendor == VENDOR
        &&& self.product == slot
        &&& self.serial == spec.serial_value()
    }

    /// Plans a display of `spec` in `slot`, once the spec passes its checks.
    pub fn new(spec: Spec, slot: u32) -> (res: Result<DisplayPlan, SpecError>)
        ensures
            match spec.validation() {
                Err(e) => res == Err::<DisplayPlan, SpecError>(e),
                Ok(_) => res matches Ok(plan) && plan.describes(spec, slot),
            },
    {
        match spec.validate() {
            Err(e) => return Err(e),
            Ok(()) => {},
        }
        proof {
            lemma_valid_serial_fits(spec);
        }
        let (pixels_wide, pixels_high) = spec.pixels();
        let name = "vdisplay".to_owned();
        Ok(
            DisplayPlan {
                spec,
                slot,
                name,
                pixels_wide,
                pixels_high,
                vendor: VENDOR,
                product: slot,
                serial: spec.serial(),
            },
        )
    }

    /// What a new display's id means: zero is no display.
    pub fn accept_id(&self, id: u32) -> (res: Result<u32, CreateError>)
        ensures
            res == (if id == 0 {
                Err(CreateError::NoDisplayId)
            } else {
                Ok::<u32, CreateError>(id)
            }),
    {
        if id == 0 {
            Err(CreateError::NoDisplayId)
        } else {
            Ok(id)
        }
    }

    /// What the display's answer to its mode means: a refusal names the
    /// size and scale refused.
    pub fn accept_settings(&self, applied: bool) -> (res: Result<(), CreateError>)
        ensures
            res == (if applied {
                Ok(())
            } else {
                Err(
                    CreateError::SettingsRefused {
                        width: self.spec.width,
                        height: self.spec.height,
                        scale: self.spec.spec_scale(),
                    },
                )
            }),
    {
        if applied {
            Ok(())
        } else {
            Err(
                CreateError::SettingsRefused {
                    width: self.spec.width,
                    height: self.spec.height,
                    scale: self.spec.scale(),
                },
            )
        }
    }
}

/// A live virtual display: its display id, its spec and the slot it was
/// made in.
#[derive(Debug, Clone, Copy, PartialEq, Eq, Structural)]
pub struct VirtualDisplay {
    pub id: u32,
    pub spec: Spec,
    pub slot: u32,
}

/// What the WindowServer reports of a display, as a status line: its point
/// size now, and `offline` unless it is both online and active.
pub open spec fn status_text(width: u32, height: u32, online: bool, active: bool) -> Seq<char> {
    decimal_text(width as nat) + "x"@ + decimal_text(height as nat) + " pt now"@ + if online
        && active {
        Seq::<char>::empty()
    } else {
        ", offline"@
    }
}

impl VirtualDisplay {
    /// The status line for what the WindowServer reports now: the point size,
    /// and whether the display is online and active.
    pub fn status(width: u32, height: u32, online: bool, active: bool) -> (res: String)
        ensures
            res@ == status_text(width, height, online, active),
            (res@.len() >= 9 && res@.subrange(res@.len() - 9, res@.len() as int) == ", offline"@)
                <==> (!online || !active),
    {
        proof {
            lemma_status_offline(width, height, online, active);
        }
        let mut s = String::new();
        push_decimal(&mut s, width as u64);
        push_str(&mut s, "x");
        push_decimal(&mut s, height as u64);
        push_str(&mut s, " pt now");
        if !online || !active {
            push_str(&mut s, ", offline");
        }
        assert(s@ =~= status_text(width, height, online, active));
        s
    }
}

/// What the checks mean: a spec is accepted exactly when it is at least
/// 640 points wide and 480 high and neither framebuffer edge (points times
/// 1, or times 2 at 2x) is over 8192 pixels. Under 640x480 it is refused as
/// under the minimum, and only then: a portrait or landscape size of at least
/// 640x480 never is.
pub proof fn lemma_validation_meaning(spec: Spec)
    ensures
        spec.validation() is Ok <==> {
            let scale: int = if spec.hidpi { 2 } else { 1 };
            &&& spec.width >= 640
            &&& spec.height >= 480
            &&& spec.width * scale <= 8192
            &&& spec.height * scale <= 8192
        },
        spec.width < 640 || spec.height < 480 ==> spec.validation() == Err::<(), SpecError>(
            SpecError::UnderMinimum { width: spec.width, height: spec.height },
        ),
        spec.width >= 640 && spec.height >= 480 ==> !(spec.validation() matches Err(
            SpecError::UnderMinimum { .. },
        )),
        spec.width >= 640 && spec.height >= 480 && !(spec.validation() is Ok) ==> {
            let scale: int = if spec.hidpi { 2 } else { 1 };
            spec.validation() == Err::<(), SpecError>(
                SpecError::OverPixelLimit {
                    pixels_wide: (spec.width * scale) as u64,
                    pixels_high: (spec.height * scale) as u64,
                    scale: scale as u32,
                },
            )
        },
{
    if spec.hidpi {
        assert(spec.pixels_wide() == spec.width * 2);
        assert(spec.pixels_high() == spec.height * 2);
    } else {
        assert(spec.pixels_wide() == spec.width * 1);
        assert(spec.pixels_high() == spec.height * 1);
    }
}

/// A status line ends in `, offline` exactly when the display is not both
/// online and active; then it is the line of an online, active display of
/// the same size with `, offline` after it.
pub proof fn lemma_status_offline(width: u32, height: u32, online: bool, active: bool)
    ensures
        ({
            let t = status_text(width, height, online, active);
            t.len() >= 9 && t.subrange(t.len() - 9, t.len() as int) == ", offline"@
        }) <==> (!online || !active),
        !online || !active ==> status_text(width, height, online, active) == status_text(
            width,
            height,
            true,
            true,
        ) + ", offline"@,
        status_text(width, height, true, true) == decimal_text(width as nat) + "x"@
            + decimal_text(height as nat) + " pt now"@,
{
    reveal_strlit(", offline");
    reveal_strlit(" pt now");
    let on = status_text(width, height, true, true);
    let t = status_text(width, height, online, active);
    assert(on.last() == 'w');
    if !online || !active {
        assert(t =~= on + ", offline"@);
        assert(t.subrange(t.len() - 9, t.len() as int) =~= ", offline"@);
    } else {
        assert(t == on);
        if t.len() >= 9 {
            assert(t.subrange(t.len() - 9, t.len() as int).last() == 'w');
            assert(", offline"@.last() == 'e');
        }
    }
}

} // verus!
