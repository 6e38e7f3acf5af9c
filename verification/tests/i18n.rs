use dile::text::trim;
use dile::i18n::{interpolate, locale_from, parse, primary_subtag, source, trigger_label, Strings, EN, TR};
use dile::tray::{Status, StatePayload, TrayIcon, EVENT_ENGINE, EVENT_LEVEL, EVENT_STATE};

fn get<'a>(all: &'a [(String, String)], key: &str) -> Option<&'a str> {
    all.iter().find(|(k, _)| k == key).map(|(_, v)| v.as_str())
}

#[test]
fn a_tag_narrows_to_its_language_and_an_unknown_one_falls_back_to_english() {
    assert_eq!(primary_subtag("tr-TR"), "tr");
    assert_eq!(primary_subtag("EN_gb"), "en");

    let turkish = Strings::for_locale("tr-TR");
    assert_eq!(turkish.text("tray.menu.quit"), "Çık");

    let german = Strings::for_locale("de-DE");
    assert_eq!(german.text("tray.menu.quit"), "Quit");
    assert_eq!(german.locale(), "en");
    assert_eq!(turkish.locale(), "tr");

    assert_eq!(turkish.text("tray.menu.nothing"), "tray.menu.nothing");
}

#[test]
fn the_whole_catalogue_is_english_with_the_chosen_language_on_top() {
    let turkish = Strings::for_locale("tr");
    let all = turkish.all();
    assert_eq!(get(&all, "tray.menu.quit"), Some("Çık"));

    let english = Strings::for_locale("en");
    for (key, _) in english.all() {
        assert!(get(&all, &key).is_some(), "{key} is missing from the merged catalogue");
    }
}

#[test]
fn the_system_language_is_one_this_build_carries() {
    let system = Strings::system();
    assert!(matches!(system.locale(), "en" | "tr"), "{}", system.locale());
}

#[test]
fn placeholders_are_filled_and_the_unfilled_ones_stay_visible() {
    assert_eq!(interpolate("hold {hotkey}", &[("hotkey", "Ctrl+Alt+Space")]), "hold Ctrl+Alt+Space");
    assert_eq!(interpolate("{a} and {b}", &[("a", "one")]), "one and {b}");

    let english = Strings::for_locale("en");
    assert_eq!(
        english.format("tray.tooltip.idle", &[("hotkey", "Ctrl+Alt+Space")]),
        "Dile — hold Ctrl+Alt+Space to dictate"
    );
}

#[test]
fn a_placeholder_filled_twice_is_filled_everywhere_and_a_value_is_not_read_again() {
    assert_eq!(interpolate("{a}{a}", &[("a", "x")]), "xx");
    assert_eq!(interpolate("{a}", &[("a", "{b}"), ("b", "y")]), "y");
    assert_eq!(interpolate("{a}", &[("b", "y"), ("a", "{b}")]), "{b}");
}

#[test]
fn only_english_and_turkish_are_carried_and_both_parse() {
    assert_eq!(source("en"), Some(EN));
    assert_eq!(source("tr"), Some(TR));
    assert_eq!(source("de"), None);
    let english = parse(EN);
    let turkish = parse(TR);
    assert!(english.len() >= 15);
    assert_eq!(english.len(), turkish.len(), "both languages carry the same keys");
    for (key, _) in &english {
        assert!(turkish.iter().any(|(k, _)| k == key), "{key} has no Turkish");
    }
    assert!(parse("{\"nested\": {\"a\": \"b\"}}").is_empty(), "a damaged file is an empty catalogue");
}

#[test]
fn a_machine_that_names_no_language_is_english() {
    assert_eq!(locale_from(None), "en");
    assert_eq!(locale_from(Some("tr-TR".to_owned())), "tr");
    assert_eq!(locale_from(Some("-x".to_owned())), "en");
}

#[test]
fn a_lone_modifier_is_named_in_words_and_a_chord_is_passed_through() {
    let english = Strings::for_locale("en");
    let turkish = Strings::for_locale("tr");
    assert_eq!(trigger_label(&english, "RightCtrl", true), "Right Ctrl");
    assert_eq!(trigger_label(&turkish, "RightCtrl", true), "Sağ Ctrl");
    assert_eq!(trigger_label(&english, "LeftMeta", true), "Left Win");
    assert_eq!(trigger_label(&english, "Ctrl+Alt+Space", false), "Ctrl+Alt+Space");
    assert_eq!(trigger_label(&turkish, "Ctrl+Alt+Space", false), "Ctrl+Alt+Space");

    let nothing = Strings::from_parts("en".to_owned(), Vec::new(), Vec::new());
    assert_eq!(trigger_label(&nothing, "RightCtrl", true), "RightCtrl");
}

const EVERY_STATUS: [Status; 10] = [
    Status::Idle,
    Status::Recording,
    Status::Working,
    Status::NothingHeard,
    Status::NoMicrophone,
    Status::Preparing,
    Status::Downloading(42),
    Status::NoModel,
    Status::CpuTier,
    Status::EngineFailed,
];

#[test]
fn every_state_has_a_tooltip_in_both_languages() {
    for language in ["en", "tr"] {
        let strings = Strings::for_locale(language);
        for status in EVERY_STATUS {
            let tooltip = status.tooltip(&strings, "Ctrl+Alt+Space");
            assert_ne!(tooltip, status.tooltip_key(), "{language}: {} has no tooltip", status.event_state());
            assert!(!tooltip.contains('{'), "{language}: a tooltip kept an unfilled hole: {tooltip}");
        }
    }
}

#[test]
fn the_download_tooltip_carries_the_number_and_the_others_do_not_go_looking_for_one() {
    for language in ["en", "tr"] {
        let strings = Strings::for_locale(language);
        let tooltip = Status::Downloading(42).tooltip(&strings, "Ctrl+Alt+Space");
        assert!(tooltip.contains("42"), "{language}: the download tooltip lost its percentage: {tooltip}");
        assert!(!Status::Idle.tooltip(&strings, "Ctrl+Alt+Space").contains("42"));
    }
}

#[test]
fn the_state_names_the_panel_switches_on_are_unique() {
    let mut names: Vec<&str> = EVERY_STATUS.iter().map(|status| status.event_state()).collect();
    names.sort_unstable();
    let count = names.len();
    names.dedup();
    assert_eq!(names.len(), count);
    assert_eq!(StatePayload::of(Status::CpuTier).state, "cpu-tier");
}

#[test]
fn red_is_only_for_recording_and_amber_for_anything_being_waited_on() {
    assert_eq!(Status::Recording.icon(), TrayIcon::Recording);
    for status in [Status::Working, Status::Preparing, Status::Downloading(3)] {
        assert_eq!(status.icon(), TrayIcon::Working);
    }
    for status in [Status::Idle, Status::NothingHeard, Status::NoMicrophone, Status::NoModel, Status::CpuTier, Status::EngineFailed] {
        assert_eq!(status.icon(), TrayIcon::Idle);
    }
}

#[test]
fn the_three_event_names_are_distinct_and_namespaced() {
    let names = [EVENT_LEVEL, EVENT_STATE, EVENT_ENGINE];
    for name in names {
        assert!(name.starts_with("dile://"), "{name} is not one of ours");
    }
    let mut sorted = names;
    sorted.sort_unstable();
    let count = sorted.len();
    let mut unique = sorted.to_vec();
    unique.dedup();
    assert_eq!(unique.len(), count);
}

#[test]
fn white_space_is_exactly_what_the_standard_library_calls_white_space() {
    let mut one = [0u8; 4];
    for code in 0..=0x10FFFFu32 {
        let Some(c) = char::from_u32(code) else { continue };
        let text: &str = c.encode_utf8(&mut one);
        assert_eq!(trim(text).is_empty(), c.is_whitespace(), "U+{code:04X}");
    }
    assert_eq!(trim("  güzel\u{3000}"), "güzel");
}
