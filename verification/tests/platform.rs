use dile::platform::linux::{
    receipt, ClipboardError, MAIN_LOOP_DEADLINE_MS, RECEIPT_TICK_MS, RECEIPT_WINDOW_MS,
};
use dile::platform::screen::Rect;
use dile::platform::uinput::{classify, AutoPasteError};
use dile::platform::unported::{self, Hwnd};
use dile::platform::win32;
use dile::platform::win32::{
    chord_strokes, Held, KeyStroke, VK_CONTROL, VK_LMENU, VK_LSHIFT, VK_RWIN, VK_SHIFT, VK_V,
};
use dile::platform::{
    auto_paste_offered, closing, delivery, delivery_name, remembers_position, Closing, Delivery, Platform,
    WindowSystem, AUTO_PASTE_FAILED,
};

const EVERY: [WindowSystem; 4] = [WindowSystem::Windows, WindowSystem::Wayland, WindowSystem::X11, WindowSystem::Other];

/// The platform this test binary runs on, as the application decides it at start-up.
fn this_platform() -> Platform {
    if std::path::MAIN_SEPARATOR == '\\' {
        Platform::Windows
    } else {
        Platform::Linux
    }
}

#[test]
fn a_clipboard_hand_over_and_an_aimed_paste_chord_are_never_both_on() {
    if delivery(this_platform()) == Delivery::Clipboard {
        assert!(!unported::send_paste_chord(false));
        assert!(!unported::send_paste_chord(true));
    }
}

#[test]
fn the_unaimed_chord_is_only_offered_where_the_hand_over_needs_one() {
    for platform in [Platform::Windows, Platform::Linux, Platform::Other] {
        if auto_paste_offered(platform) {
            assert_eq!(delivery(platform), Delivery::Clipboard);
        }
    }
    assert!(auto_paste_offered(Platform::Linux));
    assert!(!auto_paste_offered(Platform::Windows));
}

#[test]
fn each_platform_hands_over_the_way_its_desktop_allows() {
    assert_eq!(delivery(Platform::Linux), Delivery::Clipboard);
    assert_eq!(delivery(Platform::Windows), Delivery::Paste);
    assert_eq!(delivery_name(delivery(Platform::Windows)), "paste");
    assert_eq!(delivery_name(delivery(Platform::Linux)), "clipboard");
}

#[test]
fn every_window_system_answers_both_questions() {
    let table = [
        (WindowSystem::Windows, Closing::Unmap, true),
        (WindowSystem::Wayland, Closing::Unmap, false),
        (WindowSystem::X11, Closing::Minimize, true),
        (WindowSystem::Other, Closing::Unmap, false),
    ];
    assert_eq!(table.len(), EVERY.len());
    for (system, leaves_by, remembers) in table {
        assert_eq!(closing(system), leaves_by, "{system:?} closes the wrong way");
        assert_eq!(remembers_position(system), remembers, "{system:?} remembers the wrong thing");
    }
}

#[test]
fn a_card_is_only_minimized_where_a_minimized_card_was_seen_to_come_back() {
    for system in EVERY {
        if closing(system) == Closing::Minimize {
            assert_eq!(system, WindowSystem::X11);
        }
    }
}

#[test]
fn wayland_unmaps_because_a_minimized_card_never_comes_back_there() {
    assert_eq!(closing(WindowSystem::Wayland), Closing::Unmap);
    assert!(!remembers_position(WindowSystem::Wayland));
}

#[test]
fn x11_still_minimizes_because_there_the_card_does_come_back() {
    assert_eq!(closing(WindowSystem::X11), Closing::Minimize);
    assert!(remembers_position(WindowSystem::X11));
}

#[test]
fn windows_is_untouched_by_all_of_this() {
    assert_eq!(closing(WindowSystem::Windows), Closing::Unmap);
    assert!(remembers_position(WindowSystem::Windows));
}

#[test]
fn a_window_system_with_no_name_is_given_the_old_behaviour_rather_than_a_guess() {
    assert_eq!(closing(WindowSystem::Other), Closing::Unmap);
    assert!(!remembers_position(WindowSystem::Other));
}

#[test]
fn the_two_gdk_display_types_are_the_two_backends() {
    assert_eq!(WindowSystem::named("GdkWaylandDisplay"), WindowSystem::Wayland);
    assert_eq!(WindowSystem::named("GdkX11Display"), WindowSystem::X11);
    assert_eq!(WindowSystem::named("GdkBroadwayDisplay"), WindowSystem::Other);
    assert_eq!(WindowSystem::named(""), WindowSystem::Other);
    assert_eq!(WindowSystem::X11.label(), "x11");
    assert_eq!(WindowSystem::Other.label(), "unknown");
}

#[test]
fn this_machine_knows_which_window_system_it_is_on() {
    let platform = this_platform();
    let system = WindowSystem::current(platform, "");
    if platform == Platform::Windows {
        assert_eq!(system, WindowSystem::Windows);
    } else {
        assert_ne!(system, WindowSystem::Windows);
    }
    assert_eq!(WindowSystem::current(Platform::Windows, "GdkX11Display"), WindowSystem::Windows);
}

#[test]
fn every_reason_carries_a_line_the_card_can_show() {
    for (error, key) in [
        (AutoPasteError::NoDevice, "panel.state.autopaste.nodevice"),
        (AutoPasteError::NoPermission, "panel.state.autopaste.nopermission"),
        (AutoPasteError::Refused("mmap".to_owned()), "panel.state.autopaste.failed"),
        (AutoPasteError::NotWritten("EIO".to_owned()), "panel.state.autopaste.failed"),
        (AutoPasteError::Unusable, "panel.state.autopaste.failed"),
    ] {
        assert_eq!(error.key(), key, "{}", error.message());
        assert!(error.key().starts_with("panel.state.autopaste."));
    }
    assert_eq!(unported::AutoPasteError::Unsupported.key(), AUTO_PASTE_FAILED);
    assert_eq!(unported::open_auto_paste(), Err(unported::AutoPasteError::Unsupported));
}

#[test]
fn a_machine_with_no_uinput_is_not_told_to_install_a_udev_rule() {
    let missing = classify(false, false, "No such file or directory");
    assert!(matches!(missing, AutoPasteError::NoDevice));
    assert!(missing.message().contains("uinput kernel module"));
    let vanished = classify(true, false, "No such file or directory");
    assert!(matches!(vanished, AutoPasteError::Refused(_)));
}

#[test]
fn a_refused_write_names_the_rule_that_opens_it() {
    let refused = classify(true, true, "Permission denied");
    assert!(matches!(refused, AutoPasteError::NoPermission));
    let sentence = refused.message();
    assert!(sentence.contains("70-dile-input.rules"), "{sentence}");
    assert!(sentence.contains("trigger"), "{sentence}");
}

#[test]
fn a_rectangle_measures_itself() {
    let rect = Rect { left: 100, top: 50, right: 1_000, bottom: 650 };
    assert_eq!(rect.width(), 900);
    assert_eq!(rect.height(), 600);
}

#[test]
fn a_build_without_windows_has_none_to_offer() {
    assert_eq!(Hwnd::foreground(), None);
    assert_eq!(unported::primary_monitor(), None);
}

#[test]
fn the_null_handle_is_no_window_and_a_handle_knows_whether_it_is_in_front() {
    assert_eq!(win32::Hwnd::from_isize(0), None);
    let window = win32::Hwnd::from_isize(0x1234).expect("a handle");
    assert_eq!(window.as_isize(), 0x1234);
    assert!(window.is_foreground(Some(window)));
    assert!(!window.is_foreground(win32::Hwnd::from_isize(0x99)));
    assert!(!window.is_foreground(None));
}

#[test]
fn text_reaches_the_clipboard_as_nul_terminated_utf16() {
    let units = win32::utf16_of("güzel");
    assert_eq!(units.last(), Some(&0));
    assert_eq!(String::from_utf16_lossy(&units[..units.len() - 1]), "güzel");
    let pair = win32::utf16_of("🙂");
    assert_eq!(pair.len(), 3, "two surrogates and a terminator");
    assert_eq!(String::from_utf16_lossy(&pair[..2]), "🙂");
}

#[test]
fn a_refused_write_says_which_of_the_two_reasons_it_was() {
    let unfocused = ClipboardError::NotTaken { focused: false }.message();
    assert!(unfocused.ends_with("no"), "{unfocused}");
    assert!(unfocused.contains("keyboard"), "{unfocused}");

    let focused = ClipboardError::NotTaken { focused: true }.message();
    assert!(focused.ends_with("yes"), "{focused}");
    assert_ne!(focused, unfocused);
}

#[test]
fn a_caller_waits_for_longer_than_the_receipt_it_is_waiting_on() {
    assert!(
        MAIN_LOOP_DEADLINE_MS > RECEIPT_WINDOW_MS,
        "the deadline must outlast the receipt it contains"
    );
    assert!(RECEIPT_TICK_MS < RECEIPT_WINDOW_MS);
}

#[test]
fn no_paste_is_not_dressed_up_as_a_clipboard_failure() {
    let message = ClipboardError::NoPaste.message();
    assert!(message.contains("paste"), "{message}");
    assert!(!message.contains("compositor"), "{message}");
}

#[test]
fn a_main_loop_that_never_answered_names_its_deadline() {
    assert_eq!(
        ClipboardError::NoMainLoop.message(),
        "the user interface thread did not answer within 2500 ms"
    );
    assert_eq!(
        ClipboardError::NoDisplay.message(),
        "there is no display to put a clipboard on"
    );
}

#[test]
fn a_write_is_taken_refused_or_still_waiting() {
    // The count moved: taken, even on the deadline's own tick.
    assert_eq!(receipt(3, 4, 900, 900, false), Some(Ok(())));
    // Nothing moved and the window is over: refused, with whether the keyboard was here.
    assert_eq!(
        receipt(3, 3, 900, 900, true),
        Some(Err(ClipboardError::NotTaken { focused: true }))
    );
    // Nothing moved yet and there is time left: look again.
    assert_eq!(receipt(3, 3, 875, 900, false), None);
}

#[test]
fn a_paste_chord_clears_the_users_modifiers_and_releases_everything_it_pressed() {
    let down = |key| KeyStroke { key, up: false };
    let up = |key| KeyStroke { key, up: true };
    let nothing = Held {
        left_alt: false,
        right_alt: false,
        left_win: false,
        right_win: false,
        left_shift: false,
        right_shift: false,
    };
    assert_eq!(
        chord_strokes(nothing, false, VK_V),
        vec![down(VK_CONTROL), down(VK_V), up(VK_V), up(VK_CONTROL)]
    );
    assert_eq!(
        chord_strokes(nothing, true, VK_V),
        vec![down(VK_CONTROL), down(VK_SHIFT), down(VK_V), up(VK_V), up(VK_SHIFT), up(VK_CONTROL)]
    );

    // The trigger's Alt and a Windows key still down: released first, so the target does not
    // see Ctrl+Alt+V.
    let holding = Held {
        left_alt: true,
        right_win: true,
        left_shift: true,
        ..nothing
    };
    assert_eq!(
        chord_strokes(holding, false, VK_V),
        vec![
            up(VK_LMENU),
            up(VK_RWIN),
            up(VK_LSHIFT),
            down(VK_CONTROL),
            down(VK_V),
            up(VK_V),
            up(VK_CONTROL)
        ]
    );
    // A chord that carries Shift leaves the user's Shift alone.
    assert_eq!(
        chord_strokes(holding, true, VK_V),
        vec![
            up(VK_LMENU),
            up(VK_RWIN),
            down(VK_CONTROL),
            down(VK_SHIFT),
            down(VK_V),
            up(VK_V),
            up(VK_SHIFT),
            up(VK_CONTROL)
        ]
    );
}

#[test]
fn a_key_is_down_when_the_top_bit_of_its_state_is_set() {
    assert!(win32::key_is_down(i16::MIN));
    assert!(win32::key_is_down(-32_767));
    assert!(!win32::key_is_down(0));
    assert!(!win32::key_is_down(1));
    assert!(!win32::key_is_down(i16::MAX));
}

#[test]
fn a_non_activating_window_is_read_from_its_extended_style() {
    assert!(win32::is_non_activating(0x0800_0000));
    assert!(win32::is_non_activating(0x0800_0008));
    assert!(!win32::is_non_activating(0x0000_0008));
    assert!(!win32::is_non_activating(0));
}

#[test]
fn focus_joins_input_only_with_another_thread_in_front() {
    assert!(win32::attaches_input(10, 20));
    assert!(!win32::attaches_input(10, 10));
    assert!(!win32::attaches_input(10, 0));
}

#[test]
fn a_handed_out_handle_is_never_null_and_converts_back_to_itself() {
    let window = win32::Hwnd::from_isize(-42).expect("a handle");
    assert_ne!(window.as_isize(), 0);
    assert_eq!(win32::Hwnd::from_isize(window.as_isize()), Some(window));
}
