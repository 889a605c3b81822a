use vdisplay::display::{DisplayPlan, Spec};
use vdisplay::draft::Draft;
use vdisplay::error::{Field, SpecError};
use vdisplay::menu::{MenuAction, MenuEntry};
use vdisplay::session::Session;

fn add(session: &mut Session, spec: Spec, id: u32) -> DisplayPlan {
    let plan = session.prepare(spec).unwrap();
    assert!(session.displays().is_empty());
    session.commit(&plan, id);
    plan
}

fn item(title: &str, action: MenuAction, tag: u32) -> MenuEntry {
    MenuEntry::Item { title: title.to_string(), action, tag }
}

#[test]
fn a_new_session_opens_the_dialog_at_1440x900_2x() {
    let session = Session::new();
    assert!(session.displays().is_empty());
    assert_eq!(session.last(), Spec { width: 1440, height: 900, hidpi: true });
    assert_eq!(session.prepare(Spec { width: 1920, height: 1080, hidpi: true }).unwrap().slot, 1);
}

#[test]
fn one_display_exists_at_a_time() {
    let mut session = Session::new();
    let a = Spec { width: 1920, height: 1080, hidpi: true };
    let b = Spec { width: 1280, height: 800, hidpi: false };
    let plan = add(&mut session, a, 10);
    assert_eq!(plan.slot, 1);
    assert_eq!(plan.product, 1);
    assert_eq!(session.last(), a);
    let refused = session.prepare(b).err();
    assert_eq!(refused, Some(SpecError::DisplayExists));
    assert_eq!(
        refused.unwrap().message(),
        "a display exists already; remove it to add another"
    );
    assert!(session.prepare(Spec { width: 1, height: 1, hidpi: false }).is_err());
    assert_eq!(session.last(), a);
    session.remove(99);
    assert_eq!(session.displays().len(), 1);
    session.remove(10);
    assert!(session.displays().is_empty());
    assert_eq!(session.last(), a);
    let plan = add(&mut session, b, 11);
    assert_eq!(plan.slot, 1);
    assert_eq!(session.last(), b);
    assert_eq!(session.displays()[0].id, 11);
    session.remove_all();
    assert!(session.displays().is_empty());
    assert_eq!(session.last(), b);
}

#[test]
fn a_refused_spec_leaves_the_session_alone() {
    let mut session = Session::new();
    let bad = Spec { width: 100, height: 100, hidpi: false };
    assert_eq!(
        session.prepare(bad).err(),
        Some(SpecError::UnderMinimum { width: 100, height: 100 })
    );
    assert_eq!(session.last(), Spec { width: 1440, height: 900, hidpi: true });
    let _ = add(&mut session, Spec { width: 1280, height: 800, hidpi: true }, 5);
    assert!(session.prepare(bad).is_err());
    assert_eq!(session.last(), Spec { width: 1280, height: 800, hidpi: true });
}

#[test]
fn the_menu_lists_displays_then_actions() {
    let mut session = Session::new();
    assert_eq!(
        session.menu(&vec![]),
        vec![
            item("No virtual displays", MenuAction::Nothing, 0),
            MenuEntry::Separator,
            item("Add Display\u{2026}", MenuAction::AddDisplay, 0),
            MenuEntry::Separator,
            item("Quit vdisplay", MenuAction::Quit, 0),
        ]
    );
    let _ = add(&mut session, Spec { width: 1920, height: 1080, hidpi: true }, 4);
    let statuses = vec!["1920x1080 pt now, offline".to_string()];
    assert_eq!(
        session.menu(&statuses),
        vec![
            item("Remove display 4: 1920x1080 pt @2x (1920x1080 pt now, offline)", MenuAction::RemoveDisplay, 4),
            MenuEntry::Separator,
            item("Remove All", MenuAction::RemoveAll, 0),
            MenuEntry::Separator,
            item("Quit vdisplay", MenuAction::Quit, 0),
        ]
    );
    session.remove_all();
    let _ = add(&mut session, Spec { width: 1280, height: 800, hidpi: false }, 9);
    assert_eq!(
        session.menu(&vec!["1280x800 pt now".to_string()])[0],
        item("Remove display 9: 1280x800 pt @1x (1280x800 pt now)", MenuAction::RemoveDisplay, 9)
    );
}

#[test]
fn the_dialog_opens_with_the_last_spec_and_reads_it_back() {
    let spec = Spec { width: 1920, height: 1080, hidpi: true };
    let draft = Draft::from(spec);
    assert_eq!(draft.width, "1920");
    assert_eq!(draft.height, "1080");
    assert!(draft.hidpi);
    assert_eq!(draft.parse(), Ok(spec));
    for spec in [
        Spec { width: 640, height: 480, hidpi: false },
        Spec { width: 8192, height: 8192, hidpi: false },
        Spec { width: 4096, height: 4096, hidpi: true },
    ] {
        assert_eq!(Draft::from(spec).parse(), Ok(spec));
    }
}

#[test]
fn dialog_fields_are_trimmed_whole_numbers() {
    let draft = Draft { width: " 1280\t".to_string(), height: "\u{3000}800\n".to_string(), hidpi: false };
    assert_eq!(draft.parse(), Ok(Spec { width: 1280, height: 800, hidpi: false }));
    let draft = Draft { width: " 12a ".to_string(), height: "nope".to_string(), hidpi: false };
    let err = draft.parse().unwrap_err();
    assert_eq!(err, SpecError::NotWholeNumber { field: Field::Width, text: "12a".to_string() });
    assert_eq!(err.message(), "width \"12a\" is not a whole number of points");
    let draft = Draft { width: "1280".to_string(), height: " 8.5 ".to_string(), hidpi: false };
    let err = draft.parse().unwrap_err();
    assert_eq!(err, SpecError::NotWholeNumber { field: Field::Height, text: "8.5".to_string() });
    assert_eq!(err.message(), "height \"8.5\" is not a whole number of points");
    let draft = Draft { width: "".to_string(), height: "800".to_string(), hidpi: false };
    assert_eq!(
        draft.parse(),
        Err(SpecError::NotWholeNumber { field: Field::Width, text: String::new() })
    );
    let draft = Draft { width: "4097".to_string(), height: "1000".to_string(), hidpi: true };
    assert_eq!(
        draft.parse(),
        Err(SpecError::OverPixelLimit { pixels_wide: 8194, pixels_high: 2000, scale: 2 })
    );
}
