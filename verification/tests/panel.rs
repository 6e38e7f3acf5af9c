use dile::panel::{
    capture_target, clamp_into_at, remember_position, top_centre_at, window_height_for, Card, Mode, TransferPlan,
    BASE_HEIGHT, CARD_BASE, CARD_MAX, GUTTER, MAX_HEIGHT, WIDTH,
};
use dile::platform::screen::{Monitor, Rect};
use dile::settings::{CleanupLevel, PanelPosition, Settings};

fn monitor(left: i32, top: i32) -> Monitor {
    Monitor {
        device: r"\\.\DISPLAY1".to_owned(),
        bounds: Rect { left, top, right: left + 1_920, bottom: top + 1_080 },
        work: Rect { left, top, right: left + 1_920, bottom: top + 1_032 },
    }
}

#[test]
fn the_card_never_grows_past_three_lines_and_never_shrinks_below_one() {
    for asked in [0u32, 12, 64, 100, 168, 900] {
        let applied = window_height_for(asked);
        assert!((BASE_HEIGHT..=MAX_HEIGHT).contains(&applied), "{asked} became {applied}");
    }
    let third_line = 112.0_f64 + 14.0 * 1.45;
    assert!(f64::from(CARD_MAX) >= third_line, "{CARD_MAX} < {third_line}");
    assert_eq!(BASE_HEIGHT, CARD_BASE + GUTTER * 2);
    assert_eq!(MAX_HEIGHT, CARD_MAX + GUTTER * 2);
}

#[test]
fn the_card_lands_top_centre_of_whichever_monitor_it_was_asked_about() {
    let margin = 24 - GUTTER as i32;
    let primary = top_centre_at(&monitor(0, 0), WIDTH as i32, margin);
    assert_eq!(primary.x, (1_920 - WIDTH as i32) / 2);
    assert_eq!(primary.y + GUTTER as i32, 24);
    let left_hand = top_centre_at(&monitor(-1_920, 0), WIDTH as i32, margin);
    assert_eq!(left_hand.x, -1_920 + (1_920 - WIDTH as i32) / 2);
    let narrow = Monitor { work: Rect { left: 0, top: 0, right: 701, bottom: 600 }, ..monitor(0, 0) };
    assert_eq!(top_centre_at(&narrow, 708, 0).x, (701 - 708) / 2);
}

#[test]
fn a_remembered_position_is_relative_to_its_monitor_and_stays_on_it() {
    let screen = monitor(-1_920, -200);
    let placed = clamp_into_at(&screen, PanelPosition { x: 40, y: 300 }, WIDTH as i32, MAX_HEIGHT as i32);
    assert_eq!(placed.x, -1_920 + 40);
    assert_eq!(placed.y, -200 + 300);
    let pulled = clamp_into_at(&screen, PanelPosition { x: 9_000, y: 9_000 }, WIDTH as i32, MAX_HEIGHT as i32);
    assert!(pulled.x <= screen.bounds.right - WIDTH as i32);
    assert!(pulled.y <= screen.bounds.bottom - MAX_HEIGHT as i32);
}

#[test]
fn a_result_is_pasted_as_edited_into_the_window_it_was_aimed_at() {
    let mut card: Card<u32> = Card::new();
    assert_eq!(card.mode(), Mode::Closed);
    assert!(matches!(card.transfer(None, true), TransferPlan::Ignore));

    let dropped = card.begin(capture_target(Some(7u32), Some(r"C:\bin\Code.exe".to_owned())), CleanupLevel::Medium);
    assert!(!dropped);
    let shown = card.show_result("eee cron", "Cron", CleanupLevel::Medium);
    assert_eq!(shown.target_label.as_deref(), Some("VS Code"));
    assert_eq!(shown.strictness, "medium");

    match card.transfer(Some("Cron job".to_owned()), true) {
        TransferPlan::Paste { handle, exe, body } => {
            assert_eq!(handle, 7);
            assert_eq!(exe, r"C:\bin\Code.exe");
            assert_eq!(body, "Cron job");
        }
        _ => panic!("the edit goes to the window it was aimed at"),
    }
    assert!(matches!(card.transfer(None, false), TransferPlan::TargetGone));
    card.edited("   ".to_owned());
    assert!(matches!(card.transfer(None, true), TransferPlan::CloseEmpty));

    card.close();
    assert_eq!(card.copy(None), None, "a closed card has nothing to copy");
}

#[test]
fn a_new_recording_throws_an_unfinished_result_away() {
    let mut card: Card<u32> = Card::new();
    card.begin(None, CleanupLevel::Light);
    card.show_result("raw", "clean", CleanupLevel::Light);
    assert_eq!(card.copy(None).as_deref(), Some("clean"));
    assert!(card.begin(None, CleanupLevel::Light));
    assert_eq!(card.mode(), Mode::Live);
    card.show_result("raw", "clean", CleanupLevel::Light);
    assert!(matches!(card.transfer(None, true), TransferPlan::TargetGone), "aimed at nothing");
    assert_eq!(card.reclean_source("other"), "raw");
    card.recleaned(CleanupLevel::Strict, "Clean.");
    let context = card.context(&Settings::default());
    assert_eq!(context.strictness, "strict");
    assert!(context.auto_transfer);
    card.set_preview(true);
    assert!(!card.context(&Settings::default()).auto_transfer, "a preview never counts down");
}

#[test]
fn a_drag_is_remembered_relative_to_its_monitor_and_a_placement_is_not_a_drag() {
    let mut card: Card<u32> = Card::new();
    card.placed_at(monitor(-1_920, 0), PanelPosition { x: -1_000, y: 10 });
    card.remember(-1_000, 10);
    assert_eq!(card.take_dragged(), None, "the application's own placement is not a preference");
    card.remember(-1_800, 40);
    let (device, relative) = card.take_dragged().expect("a drag");
    assert_eq!(device, r"\\.\DISPLAY1");
    assert_eq!(relative, PanelPosition { x: 120, y: 40 });
    assert_eq!(card.take_dragged(), None, "written once");

    let mut positions = Vec::new();
    assert!(remember_position(&mut positions, &device, relative));
    assert!(!remember_position(&mut positions, &device, relative));
    assert!(remember_position(&mut positions, "other", PanelPosition { x: 1, y: 1 }));
    assert!(remember_position(&mut positions, &device, PanelPosition { x: 5, y: 5 }));
    assert_eq!(positions.len(), 2);
    assert_eq!(positions[0].1, PanelPosition { x: 5, y: 5 });
}
