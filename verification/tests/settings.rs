use dile::platform::{Platform, AUTO_PASTE_FAILED};
use dile::settings::commands::{check_dictionary, first_repeated_claim, get_platform, CommandError};
use dile::settings::window::{group_script, PAGE, WINDOW};
use dile::settings::autostart_needs_write;
use dile::settings::{
    Change, CleanupLevel, DictionaryEntry, Language, Settings, SettingsStore, DEFAULT_TRIGGER,
};

#[test]
fn a_listener_is_told_what_moved_and_not_what_did_not() {
    let mut store = SettingsStore::new(None, Settings::default());
    let mut next = store.get();
    next.cleanup.strictness = CleanupLevel::Strict;
    let (stored, change) = store.set(next);
    let change = change.expect("one change, one notification");
    assert!(change.cleanup, "the cleanup level is what moved");
    assert!(!change.hotkey);
    assert!(!change.capture);
    assert!(!change.dictionary);
    assert!(!change.language);
    assert_eq!(change.settings.cleanup.strictness, CleanupLevel::Strict);
    assert_eq!(stored.cleanup.strictness, CleanupLevel::Strict);
    assert_eq!(store.get().cleanup.strictness, CleanupLevel::Strict);
}

#[test]
fn a_document_that_says_the_same_thing_notifies_nobody() {
    let mut store = SettingsStore::new(None, Settings::default());
    let same = store.get();
    assert!(store.set(same).1.is_none());
    assert!(store.set(Settings::default()).1.is_none());
}

#[test]
fn a_value_out_of_range_is_clamped_on_the_way_in_and_the_listener_sees_the_clamped_one() {
    let mut store = SettingsStore::new(None, Settings::default());
    let mut next = store.get();
    next.capture.cap_secs = 6_000;
    let (stored, change) = store.set(next);
    assert_eq!(stored.capture.cap_secs, 300);
    assert_eq!(store.get().capture.cap_secs, 300);
    let change = change.expect("a change arrived");
    assert!(change.capture);
    assert_eq!(change.settings.capture.cap_secs, 300);
    assert_eq!(change.settings.cap_ms(), 300_000);
}

#[test]
fn every_flag_is_raised_by_its_own_field_and_by_nothing_else() {
    let base = Settings::default();

    let mut hotkey = base.clone();
    hotkey.hotkey.second_key = true;
    assert!(Change::between(&base, &hotkey).hotkey);

    let mut capture = base.clone();
    capture.capture.device = Some("a microphone".to_owned());
    assert!(Change::between(&base, &capture).capture);

    let mut dictionary = base.clone();
    dictionary.dictionary.push(DictionaryEntry { canonical: "cron".to_owned(), ..DictionaryEntry::default() });
    let change = Change::between(&base, &dictionary);
    assert!(change.dictionary);
    assert!(!change.capture);

    let mut language = base.clone();
    language.ui.language = Language::Tr;
    assert!(Change::between(&base, &language).language);

    let mut autostart = base.clone();
    autostart.ui.autostart = true;
    assert!(Change::between(&base, &autostart).autostart);

    let mut delay = base.clone();
    delay.cleanup.auto_transfer_ms = 3_000;
    let quiet = Change::between(&base, &delay);
    assert!(!quiet.hotkey);
    assert!(!quiet.capture);
    assert!(!quiet.cleanup);
    assert!(!quiet.dictionary);
    assert!(!quiet.engine);
    assert!(!quiet.language);
    assert!(!quiet.autostart);
}

#[test]
fn the_shipped_document_holds_the_right_ctrl_for_a_minute_at_medium() {
    let shipped = Settings::default();
    assert_eq!(shipped.hotkey.trigger, DEFAULT_TRIGGER);
    assert_eq!(shipped.capture.cap_secs, 60);
    assert_eq!(shipped.capture.pre_roll_ms, 500);
    assert_eq!(shipped.cap_ms(), 60_000);
    assert_eq!(shipped.strictness(), CleanupLevel::Medium);
    assert_eq!(shipped.validated(), shipped);
    assert_eq!(CleanupLevel::named("strict"), CleanupLevel::Strict);
    assert_eq!(CleanupLevel::named("anything"), CleanupLevel::Medium);
    assert_eq!(CleanupLevel::Light.as_str(), "light");
    assert_eq!(Language::Tr.tag(), Some("tr"));
    assert_eq!(Language::Auto.tag(), None);
}

#[test]
fn a_store_remembers_where_it_writes() {
    let store = SettingsStore::new(Some("/tmp/settings.json".to_owned()), Settings::default());
    assert_eq!(store.path(), Some("/tmp/settings.json"));
    assert_eq!(SettingsStore::new(None, Settings::default()).path(), None);
}

#[test]
fn the_same_term_twice_is_refused_where_it_was_typed() {
    let mut settings = Settings {
        dictionary: vec![
            DictionaryEntry { canonical: "cron".to_owned(), ..DictionaryEntry::default() },
            DictionaryEntry { canonical: "CRON".to_owned(), ..DictionaryEntry::default() },
        ],
        ..Settings::default()
    };
    let refused = check_dictionary(&settings).expect_err("two claims on one term");
    assert_eq!(refused.key, "settings.error.dictionary.duplicate");

    settings.dictionary[1].canonical = "keşfet".to_owned();
    assert!(check_dictionary(&settings).is_ok());

    settings.dictionary[1].canonical = "  ".to_owned();
    assert_eq!(check_dictionary(&settings).expect_err("an empty term").key, "settings.error.dictionary.empty");

    settings.dictionary[1].canonical = "  İstanbul ".to_owned();
    settings.dictionary[0].canonical = "istanbul".to_owned();
    assert_eq!(
        check_dictionary(&settings).expect_err("Turkish casing makes these one term").key,
        "settings.error.dictionary.duplicate"
    );
}

#[test]
fn a_refusal_carries_its_key_and_only_sometimes_a_reason() {
    let plain = CommandError::plain("settings.error.chord.timeout");
    assert_eq!(plain.key, "settings.error.chord.timeout");
    assert_eq!(plain.detail, None);
    let detailed = CommandError::detailed("settings.error.save", "disk full");
    assert_eq!(detailed.detail.as_deref(), Some("disk full"));
}

/// The platform this test binary runs on, as the application decides it at start-up.
fn this_platform() -> Platform {
    if std::path::MAIN_SEPARATOR == '\\' {
        Platform::Windows
    } else {
        Platform::Linux
    }
}

#[test]
fn the_settings_window_is_only_offered_a_switch_this_build_can_honour() {
    let platform = get_platform(this_platform());
    assert_eq!(platform.auto_paste, dile::platform::auto_paste_offered(this_platform()));
    assert_eq!(
        platform.delivery,
        if this_platform() == Platform::Windows { "paste" } else { "clipboard" }
    );
    if platform.auto_paste {
        assert_eq!(platform.delivery, "clipboard");
    }
    // Every platform, not only this one: the switch is drawn where the clipboard carries the
    // dictation and nowhere else.
    for other in [Platform::Windows, Platform::Linux, Platform::Other] {
        let payload = get_platform(other);
        assert_eq!(payload.auto_paste, other == Platform::Linux);
        assert_eq!(payload.delivery == "paste", other == Platform::Windows);
    }
    assert!(AUTO_PASTE_FAILED.starts_with("panel.state.autopaste."));
}

#[test]
fn a_group_of_letters_is_quoted_into_the_page_and_anything_else_is_dropped() {
    assert_eq!(
        group_script(Some("engine")).as_deref(),
        Some("window.__DILE_GROUP__=\"engine\";")
    );
    assert_eq!(group_script(Some("Dictionary")).as_deref(), Some("window.__DILE_GROUP__=\"Dictionary\";"));
    // A quote, a space, a digit, a letter outside ASCII: no script at all.
    assert_eq!(group_script(Some("x\";alert(1)//")), None);
    assert_eq!(group_script(Some("engine room")), None);
    assert_eq!(group_script(Some("engine2")), None);
    assert_eq!(group_script(Some("sözlük")), None);
    assert_eq!(group_script(None), None);
    assert_eq!(WINDOW, "settings");
    assert_eq!(PAGE, "settings/index.html");
}

#[test]
fn the_autostart_entry_is_written_only_when_it_says_something_else() {
    assert!(!autostart_needs_write(Some(true), true));
    assert!(!autostart_needs_write(Some(false), false));
    assert!(autostart_needs_write(Some(false), true));
    assert!(autostart_needs_write(Some(true), false));
    // An entry that could not be read is written rather than guessed at.
    assert!(autostart_needs_write(None, true));
    assert!(autostart_needs_write(None, false));
}

#[test]
fn the_countdown_is_held_between_half_a_second_and_five() {
    let mut store = SettingsStore::new(None, Settings::default());
    let mut quick = store.get();
    quick.cleanup.auto_transfer_ms = 10;
    let (stored, change) = store.set(quick);
    assert_eq!(stored.cleanup.auto_transfer_ms, 500);
    assert!(change.is_some());

    let mut slow = store.get();
    slow.cleanup.auto_transfer_ms = 60_000;
    let (stored, _) = store.set(slow);
    assert_eq!(stored.cleanup.auto_transfer_ms, 5_000);

    let mut inside = store.get();
    inside.cleanup.auto_transfer_ms = 3_000;
    let (stored, _) = store.set(inside);
    assert_eq!(stored.cleanup.auto_transfer_ms, 3_000);
    assert_eq!(Settings::default().validated().cleanup.auto_transfer_ms, 2_500);
}

#[test]
fn the_first_claim_that_repeats_an_earlier_one_is_named() {
    let claims = |words: &[&str]| words.iter().map(|w| w.to_string()).collect::<Vec<String>>();
    assert_eq!(first_repeated_claim(&claims(&["cron", "kubectl", "cron", "kubectl"])), Some(2));
    assert_eq!(first_repeated_claim(&claims(&["a", "b", "b"])), Some(2));
    assert_eq!(first_repeated_claim(&claims(&["cron", "Cron"])), None);
    assert_eq!(first_repeated_claim(&claims(&[])), None);
}

#[test]
fn pinning_a_term_is_a_change_to_the_dictionary_and_to_nothing_else() {
    let mut base = Settings::default();
    base.dictionary.push(DictionaryEntry { canonical: "kubectl".to_owned(), ..DictionaryEntry::default() });
    assert!(!base.dictionary[0].pinned, "a new term is not pinned");
    let mut pinned = base.clone();
    pinned.dictionary[0].pinned = true;
    let change = Change::between(&base, &pinned);
    assert!(change.dictionary);
    assert!(!change.hotkey && !change.capture && !change.cleanup && !change.engine);
    assert!(change.settings.dictionary[0].pinned);
    assert!(!base.same(&pinned));
}
