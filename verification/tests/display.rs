use vdisplay::display::{DisplayPlan, Spec, VirtualDisplay, VENDOR};
use vdisplay::digits::NumberError;
use vdisplay::error::{CreateError, SpecError};

#[test]
fn a_spec_under_the_minimum_or_over_the_pixel_limit_is_refused() {
    let ok = Spec { width: 1920, height: 1080, hidpi: true };
    assert!(ok.validate().is_ok());
    assert!(Spec { width: 320, ..ok }.validate().is_err());
    assert!(Spec { width: 4097, ..ok }.validate().is_err());
    assert!(Spec { width: 4097, hidpi: false, ..ok }.validate().is_ok());
}

#[test]
fn an_argument_names_size_and_scale() {
    let spec = Spec::from_arg("1280x800@1").unwrap();
    assert_eq!(spec, Spec { width: 1280, height: 800, hidpi: false });
    assert!(Spec::from_arg("1280x800@3").is_err());
    assert!(Spec::from_arg("1280x800").is_err());
}

#[test]
fn serials_differ_by_size_and_density() {
    let a = Spec { width: 1920, height: 1080, hidpi: true };
    assert_ne!(a.serial(), Spec { hidpi: false, ..a }.serial());
    assert_ne!(a.serial(), Spec { height: 1200, ..a }.serial());
    assert_eq!(a.serial(), 1920 * 100_000 + 1080 * 10 + 2);
}

#[test]
fn limits() {
    assert_eq!(Spec::MIN, (640, 480));
    assert_eq!(Spec::MAX_PIXELS, 8192);
}

#[test]
fn scale_and_pixels_follow_density() {
    let s = Spec { width: 1440, height: 900, hidpi: true };
    assert_eq!(s.scale(), 2);
    assert_eq!(s.pixels(), (2880, 1800));
    let s = Spec { hidpi: false, ..s };
    assert_eq!(s.scale(), 1);
    assert_eq!(s.pixels(), (1440, 900));
}

#[test]
fn validation_names_what_is_wrong() {
    let under = Spec { width: 320, height: 1080, hidpi: true }.validate();
    assert_eq!(under, Err(SpecError::UnderMinimum { width: 320, height: 1080 }));
    assert_eq!(
        under.unwrap_err().message(),
        "320x1080 points is under the 640x480 minimum"
    );
    let over = Spec { width: 4097, height: 1080, hidpi: true }.validate();
    assert_eq!(
        over,
        Err(SpecError::OverPixelLimit { pixels_wide: 8194, pixels_high: 2160, scale: 2 })
    );
    assert_eq!(
        over.unwrap_err().message(),
        "8194x2160 pixels at 2x is over the 8192 pixel edge limit"
    );
    assert!(Spec { width: 640, height: 480, hidpi: false }.validate().is_ok());
    assert!(Spec { width: 639, height: 480, hidpi: false }.validate().is_err());
    assert!(Spec { width: 640, height: 479, hidpi: false }.validate().is_err());
    assert!(Spec { width: 8192, height: 8192, hidpi: false }.validate().is_ok());
    assert!(Spec { width: 8193, height: 8192, hidpi: false }.validate().is_err());
    assert!(Spec { width: 4096, height: 4096, hidpi: true }.validate().is_ok());
    assert!(Spec { width: 4096, height: 4097, hidpi: true }.validate().is_err());
}

#[test]
fn huge_sizes_are_over_the_limit_not_wrapped() {
    let s = Spec { width: 2_147_483_748, height: 900, hidpi: true };
    assert_eq!(
        s.validate(),
        Err(SpecError::OverPixelLimit { pixels_wide: 4_294_967_496, pixels_high: 1800, scale: 2 })
    );
    assert!(Spec::from_arg("2147483748x900@2").is_err());
}

#[test]
fn arguments_that_are_not_specs_are_refused_with_usage() {
    for arg in [
        "", "@", "x@1", "1280x@1", "x800@1", "1280x800@", "1280x800@2x", "1280x800@1@2",
        "1280 x800@1", "1280x800x600@1", "-1280x800@1", "99999999999x800@1", "1280X800@1",
        "1280x800@+1", "++1280x800@1", "+x800@1",
    ] {
        match Spec::from_arg(arg) {
            Err(SpecError::NotSpecArgument { arg: got, .. }) => assert_eq!(got, arg),
            other => panic!("{arg:?} gave {other:?}"),
        }
    }
    let err = Spec::from_arg("abc").unwrap_err();
    assert_eq!(err.message(), "\"abc\" is not WIDTHxHEIGHT@SCALE, e.g. 1920x1080@2");
    let err = Spec::from_arg("1280x80a@1").unwrap_err();
    assert_eq!(
        err.message(),
        "\"1280x80a@1\" is not WIDTHxHEIGHT@SCALE, e.g. 1920x1080@2: invalid digit found in string"
    );
    let err = Spec::from_arg("a\"b").unwrap_err();
    assert_eq!(err.message(), "\"a\\\"b\" is not WIDTHxHEIGHT@SCALE, e.g. 1920x1080@2");
}

#[test]
fn arguments_read_as_from_str_reads_numbers() {
    assert_eq!(
        Spec::from_arg("+1280x+800@2"),
        Ok(Spec { width: 1280, height: 800, hidpi: true })
    );
    assert_eq!(
        Spec::from_arg("001280x0800@1"),
        Ok(Spec { width: 1280, height: 800, hidpi: false })
    );
    assert_eq!(
        Spec::from_arg("320x200@1"),
        Err(SpecError::UnderMinimum { width: 320, height: 200 })
    );
    assert_eq!(
        Spec::from_arg("5000x3000@2"),
        Err(SpecError::OverPixelLimit { pixels_wide: 10000, pixels_high: 6000, scale: 2 })
    );
    assert_eq!(
        Spec::from_arg("4294967295x800@1"),
        Err(SpecError::OverPixelLimit { pixels_wide: 4294967295, pixels_high: 800, scale: 1 })
    );
}

#[test]
fn the_canonical_argument_reads_back() {
    for spec in [
        Spec { width: 1920, height: 1080, hidpi: true },
        Spec { width: 640, height: 480, hidpi: false },
        Spec { width: 8192, height: 8192, hidpi: false },
        Spec { width: 4096, height: 2304, hidpi: true },
    ] {
        let arg = format!("{}x{}@{}", spec.width, spec.height, spec.scale());
        assert_eq!(Spec::from_arg(&arg), Ok(spec));
    }
}

#[test]
fn serials_of_valid_specs_are_distinct() {
    let mut seen = Vec::new();
    for width in [640u32, 641, 1920, 4096, 8192] {
        for height in [480u32, 481, 1080, 4096, 8192] {
            for hidpi in [false, true] {
                let s = Spec { width, height, hidpi };
                if s.validate().is_ok() {
                    assert_eq!(s.serial(), width * 100_000 + height * 10 + s.scale());
                    seen.push(s.serial());
                }
            }
        }
    }
    let n = seen.len();
    seen.sort();
    seen.dedup();
    assert_eq!(seen.len(), n);
}

#[test]
fn a_plan_describes_the_display() {
    let spec = Spec { width: 1920, height: 1080, hidpi: true };
    let plan = DisplayPlan::new(spec, 3).unwrap();
    assert_eq!(plan.spec, spec);
    assert_eq!(plan.slot, 3);
    assert_eq!(plan.name, "vdisplay");
    assert_eq!((plan.pixels_wide, plan.pixels_high), (3840, 2160));
    assert_eq!(plan.vendor, 0x7664);
    assert_eq!(VENDOR, 0x7664);
    assert_eq!(plan.product, 3);
    assert_eq!(plan.serial, 192_010_802);
    let plan1 = DisplayPlan::new(Spec { hidpi: false, ..spec }, 1).unwrap();
    assert_eq!(plan1.name, "vdisplay");
    assert_eq!((plan1.pixels_wide, plan1.pixels_high), (1920, 1080));
    assert_eq!(
        DisplayPlan::new(Spec { width: 100, ..spec }, 1).err(),
        Some(SpecError::UnderMinimum { width: 100, height: 1080 })
    );
}

#[test]
fn a_display_needs_an_id_and_its_mode() {
    let spec = Spec { width: 1920, height: 1080, hidpi: true };
    let plan = DisplayPlan::new(spec, 1).unwrap();
    assert_eq!(plan.accept_id(0), Err(CreateError::NoDisplayId));
    assert_eq!(plan.accept_id(7), Ok(7));
    assert_eq!(plan.accept_settings(true), Ok(()));
    let refused = plan.accept_settings(false).unwrap_err();
    assert_eq!(refused, CreateError::SettingsRefused { width: 1920, height: 1080, scale: 2 });
    assert_eq!(refused.message(), "applySettings: refused 1920x1080 at 2x");
    assert_eq!(CreateError::NoDisplayId.message(), "CGVirtualDisplay returned no display id");
}

#[test]
fn status_lines() {
    assert_eq!(VirtualDisplay::status(1920, 1080, true, true), "1920x1080 pt now");
    assert_eq!(VirtualDisplay::status(0, 0, false, true), "0x0 pt now, offline");
    assert_eq!(VirtualDisplay::status(1440, 900, true, false), "1440x900 pt now, offline");
}

#[test]
fn a_refused_number_is_the_cause() {
    fn cause(arg: &str) -> Option<NumberError> {
        match Spec::from_arg(arg) {
            Err(SpecError::NotSpecArgument { cause, .. }) => cause,
            other => panic!("{arg:?} gave {other:?}"),
        }
    }
    assert_eq!(cause("1280x800"), None);
    assert_eq!(cause("1280800@1"), None);
    assert_eq!(cause("1280x800@3"), None);
    assert_eq!(cause("x800@1"), Some(NumberError::Empty));
    assert_eq!(cause("1280x@1"), Some(NumberError::Empty));
    assert_eq!(cause("12a0x800@1"), Some(NumberError::InvalidDigit));
    assert_eq!(cause("+x800@1"), Some(NumberError::InvalidDigit));
    assert_eq!(cause("1280x-800@1"), Some(NumberError::InvalidDigit));
    assert_eq!(cause("99999999999x800@1"), Some(NumberError::PosOverflow));
    assert_eq!(cause("1280x99999999999a@1"), Some(NumberError::PosOverflow));
    assert_eq!(cause("1a280x99999999999@2"), Some(NumberError::InvalidDigit));
    assert_eq!(cause("1280x800x600@1"), Some(NumberError::InvalidDigit));
    let err = Spec::from_arg("1280x99999999999@2").unwrap_err();
    assert_eq!(
        err.message(),
        "\"1280x99999999999@2\" is not WIDTHxHEIGHT@SCALE, e.g. 1920x1080@2: number too large to fit in target type"
    );
    let err = Spec::from_arg("x800@2").unwrap_err();
    assert_eq!(
        err.message(),
        "\"x800@2\" is not WIDTHxHEIGHT@SCALE, e.g. 1920x1080@2: cannot parse integer from empty string"
    );
}
