use dile::paste::{
    brand_for_stem, in_shift_family,
    friendly_names, label_for, paste_step, shift_paste, stem_of, wants_shift, Outcome, PasteEvent, PasteStep,
};

#[test]
fn an_executable_becomes_the_name_a_person_would_use() {
    assert_eq!(label_for(r"C:\Users\someone\AppData\Local\Programs\Code\Code.exe"), "VS Code");
    assert_eq!(label_for(r"C:\Program Files\WindowsApps\WindowsTerminal.exe"), "Windows Terminal");
    assert_eq!(label_for(r"C:\Windows\notepad.exe"), "Notepad");
}

#[test]
fn an_application_nobody_named_keeps_its_own_spelling() {
    assert_eq!(label_for(r"D:\tools\SomeEditor.exe"), "SomeEditor");
    assert_eq!(label_for(""), "");
    assert_eq!(stem_of(r"C:\x\Code.exe"), "code");
}

#[test]
fn the_terminal_family_gets_the_chord_a_terminal_understands() {
    for exe in shift_paste() {
        let path = format!(r"C:\bin\{exe}.exe");
        assert!(wants_shift(&path), "{exe} is in the family and must get Ctrl+Shift+V");
    }
    for exe in ["code", "chrome", "msedge", "winword", "notepad", "slack"] {
        let path = format!(r"C:\bin\{exe}.exe");
        assert!(!wants_shift(&path), "{exe} takes Ctrl+V");
    }
}

#[test]
fn every_terminal_in_the_chord_map_can_also_be_named_on_the_panel() {
    let names = friendly_names();
    for exe in shift_paste() {
        assert!(names.iter().any(|(key, _)| *key == exe), "{exe} has a special chord and no name");
    }
}

#[test]
fn the_name_map_has_no_duplicate_keys_and_every_key_is_a_stem() {
    let names = friendly_names();
    let mut keys: Vec<&str> = names.iter().map(|(key, _)| *key).collect();
    let before = keys.len();
    keys.sort_unstable();
    keys.dedup();
    assert_eq!(keys.len(), before, "two entries claim one executable");
    for (key, name) in names {
        assert_eq!(key, key.to_lowercase(), "{key} would never match");
        assert!(!key.ends_with(".exe"), "{key} is a file name, not a stem");
        assert!(!name.is_empty());
    }
}

#[test]
fn a_stem_is_cut_the_way_a_file_stem_is() {
    assert_eq!(stem_of("/usr/bin/Alacritty"), "alacritty");
    assert_eq!(stem_of(r"C:\dir\archive.tar.gz"), "archive.tar");
    assert_eq!(stem_of(r"C:\dir\.hidden"), ".hidden");
    assert_eq!(stem_of(r"C:\dir\sub\"), "sub");
    assert_eq!(stem_of(".."), "");
}

#[test]
fn a_paste_into_a_window_that_is_gone_never_touches_the_clipboard() {
    let exe = r"C:\bin\Code.exe";
    let gone = paste_step(PasteStep::CheckTarget, PasteEvent::Target { exists: false, focused: false }, exe);
    assert_eq!(gone, PasteStep::Done { outcome: Outcome::TargetGone });
    let behind = paste_step(PasteStep::CheckTarget, PasteEvent::Target { exists: true, focused: false }, exe);
    assert_eq!(behind, PasteStep::Done { outcome: Outcome::TargetGone });
}

#[test]
fn a_whole_paste_offers_sends_waits_and_restores_before_it_reports() {
    let exe = r"C:\bin\WindowsTerminal.exe";
    let mut step = PasteStep::CheckTarget;
    step = paste_step(step, PasteEvent::Target { exists: true, focused: true }, exe);
    assert_eq!(step, PasteStep::Offer);
    step = paste_step(step, PasteEvent::Offered { ok: true }, exe);
    assert_eq!(step, PasteStep::SendChord { shift: true });
    step = paste_step(step, PasteEvent::ChordSent { ok: true }, exe);
    assert_eq!(step, PasteStep::AwaitReceipt);
    step = paste_step(step, PasteEvent::Receipt { taken: false }, exe);
    assert_eq!(step, PasteStep::Restore { then: Outcome::Unclaimed });
    step = paste_step(step, PasteEvent::Restored, exe);
    assert_eq!(step, PasteStep::Done { outcome: Outcome::Unclaimed });

    let refused = paste_step(PasteStep::SendChord { shift: false }, PasteEvent::ChordSent { ok: false }, exe);
    assert_eq!(refused, PasteStep::Restore { then: Outcome::Refused });
    let offer_refused = paste_step(PasteStep::Offer, PasteEvent::Offered { ok: false }, exe);
    assert_eq!(offer_refused, PasteStep::Done { outcome: Outcome::Refused });
    let unasked = paste_step(PasteStep::Offer, PasteEvent::Restored, exe);
    assert_eq!(unasked, PasteStep::Offer, "an answer to a question nobody asked changes nothing");
}

#[test]
fn a_lowered_stem_finds_its_brand_and_its_chord() {
    assert_eq!(brand_for_stem("code"), Some("VS Code"));
    assert_eq!(brand_for_stem("windowsterminal"), Some("Windows Terminal"));
    // The key is the lowered stem: a spelling the table does not carry finds nothing.
    assert_eq!(brand_for_stem("Code"), None);
    assert_eq!(brand_for_stem("notepad++"), Some("Notepad++"));
    assert_eq!(brand_for_stem("someeditor"), None);
    assert!(in_shift_family("windowsterminal"));
    assert!(in_shift_family("wezterm-gui"));
    assert!(!in_shift_family("code"));
    assert!(!in_shift_family("WindowsTerminal"));
}
