use dile::session::{Action, Elapsed, Outcome, Session, Step, Taken};
use dile::tray::Status;

#[test]
fn elapsed_is_zero_until_a_recording_starts_and_zero_again_after_it_stops() {
    let mut elapsed = Elapsed::new();
    assert_eq!(elapsed.since_start(5_000), 0);
    elapsed.start(5_000);
    assert_eq!(elapsed.since_start(5_012), 12);
    elapsed.stop();
    assert_eq!(elapsed.since_start(5_020), 0);
}

#[test]
fn a_recording_that_starts_in_the_first_millisecond_is_not_mistaken_for_idle() {
    let mut elapsed = Elapsed::new();
    elapsed.start(0);
    assert!(elapsed.is_running());
    assert_eq!(elapsed.since_start(2), 2);
    assert_eq!(Elapsed::now_ms(u128::MAX), u64::MAX);
}

#[test]
fn a_press_opens_the_panel_before_the_tray_says_recording() {
    let mut session = Session::new();
    let steps = session.react(Action::StartRecording, Outcome::Started { ok: true });
    assert_eq!(steps, vec![Step::StartClock, Step::PanelBegin, Step::Show(Status::Recording)]);
    assert!(session.recording);
    let failed = Session::new().react(Action::StartRecording, Outcome::Started { ok: false });
    assert_eq!(failed, vec![Step::DropMicrophone, Step::Show(Status::NoMicrophone)]);
}

#[test]
fn only_speech_reaches_the_engine() {
    let mut session = Session { recording: true };
    let heard = session.react(Action::StopRecording, Outcome::Stopped { taken: Taken::Recording { has_speech: true } });
    assert_eq!(heard, vec![Step::StopClock, Step::Show(Status::Working), Step::Handoff]);
    assert!(!session.recording);
    let silence = Session { recording: true }
        .react(Action::StopRecording, Outcome::Stopped { taken: Taken::Recording { has_speech: false } });
    assert_eq!(silence, vec![Step::StopClock, Step::Show(Status::NothingHeard)]);
    let empty = Session { recording: false }.react(Action::StopRecording, Outcome::Stopped { taken: Taken::Empty });
    assert_eq!(empty, vec![Step::StopClock, Step::PanelClose, Step::Rest]);
}

#[test]
fn esc_cancels_the_recording_while_it_runs_and_the_panel_after_it() {
    let mut session = Session { recording: true };
    assert!(session.needs_discard(Action::PanelCancel));
    let during = session.react(Action::PanelCancel, Outcome::Discarded { ok: true });
    assert_eq!(during, vec![Step::StopClock, Step::Rest, Step::PanelCancel]);
    assert!(!session.needs_discard(Action::PanelCancel));
    let after = session.react(Action::PanelCancel, Outcome::Nothing);
    assert_eq!(after, vec![Step::PanelCancel]);
    let broken = Session { recording: false }.react(Action::DiscardRecording, Outcome::Discarded { ok: false });
    assert_eq!(broken, vec![Step::StopClock, Step::DropMicrophone, Step::PanelClose, Step::Rest]);
}
