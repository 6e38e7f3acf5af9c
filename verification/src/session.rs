//! The session between the hotkey and the engine: how long a recording has run, and what
//! each key action and its outcome set going.

use vstd::prelude::*;

use crate::tray::Status;

verus! {

/// How long a recording has been running: 0 means nothing is being recorded, anything else
/// is the moment it began, in milliseconds since the session's clock started, offset by one
/// so that the very first millisecond is not mistaken for idle.
#[derive(Clone, Copy, Debug, PartialEq, Eq, Structural)]
pub struct Elapsed {
    started_ms: u64,
}

/// Milliseconds since a recording began, or 0 when there is none.
pub open spec fn since_start_spec(started_ms: u64, now_ms: u64) -> u64 {
    if started_ms == 0 {
        0
    } else if now_ms >= started_ms - 1 {
        (now_ms - (started_ms - 1)) as u64
    } else {
        0
    }
}

impl Elapsed {
    /// The stored start, offset by one; 0 when nothing is recorded.
    pub closed spec fn started_spec(&self) -> u64 {
        self.started_ms
    }

    /// Nothing is being recorded.
    pub fn new() -> (elapsed: Elapsed)
        ensures
            elapsed.started_spec() == 0,
    {
        Elapsed { started_ms: 0 }
    }

    /// A clock reading in whole milliseconds, saturating rather than wrapping.
    pub fn now_ms(millis: u128) -> (ms: u64)
        ensures
            ms == if millis > u64::MAX as u128 { u64::MAX } else { millis as u64 },
    {
        if millis > u64::MAX as u128 {
            u64::MAX
        } else {
            millis as u64
        }
    }

    /// A recording begins at `now_ms`.
    pub fn start(&mut self, now_ms: u64)
        ensures
            final(self).started_spec() == if now_ms == u64::MAX { u64::MAX } else { (now_ms + 1) as u64 },
    {
        self.started_ms = now_ms.saturating_add(1);
    }

    /// The recording ended.
    pub fn stop(&mut self)
        ensures
            final(self).started_spec() == 0,
    {
        self.started_ms = 0;
    }

    /// Whether a recording is running.
    pub fn is_running(&self) -> (running: bool)
        ensures
            running == (self.started_spec() != 0),
    {
        self.started_ms != 0
    }

    /// Milliseconds since the recording began at the clock reading `now_ms`, or 0 when there
    /// is no recording.
    pub fn since_start(&self, now_ms: u64) -> (ms: u64)
        ensures
            ms == since_start_spec(self.started_spec(), now_ms),
    {
        if self.started_ms == 0 {
            0
        } else {
            now_ms.saturating_sub(self.started_ms - 1)
        }
    }
}

/// A recording started at `start` has run exactly `now - start` milliseconds at `now`, even
/// when it started in the very first millisecond; once stopped it has run none.
pub proof fn lemma_elapsed_measures_from_the_start(start: u64, now: u64)
    requires
        start < u64::MAX,
        start <= now,
    ensures
        since_start_spec((start + 1) as u64, now) == now - start,
        (start + 1) as u64 != 0,
        since_start_spec(0, now) == 0,
{
}

/// What the hotkey asked for.
#[derive(Clone, Copy, Debug, PartialEq, Eq, Structural)]
pub enum Action {
    /// The key went down: start recording.
    StartRecording,
    /// The key came up: take what was recorded.
    StopRecording,
    /// A tap too short to be a sentence, or a press withdrawn: throw the recording away.
    DiscardRecording,
    /// After a tap: open the panel with the hint.
    OpenPanelIdle,
    /// Enter while the panel is up.
    PanelTransfer,
    /// Esc while the panel is up.
    PanelCancel,
    /// Ctrl+C while the panel is up.
    PanelCopy,
}

/// What taking a recording gave.
#[derive(Clone, Copy, Debug, PartialEq, Eq, Structural)]
pub enum Taken {
    /// Nothing was recorded behind the release.
    Empty,
    /// A recording, and whether the detector heard speech in it.
    Recording { has_speech: bool },
    /// The microphone failed.
    Failed,
}

/// What the outside work of an action answered.
#[derive(Clone, Copy, Debug, PartialEq, Eq, Structural)]
pub enum Outcome {
    /// No outside work was needed, or there was no microphone to ask.
    Nothing,
    /// Whether the microphone started recording.
    Started { ok: bool },
    /// What stopping the microphone gave.
    Stopped { taken: Taken },
    /// Whether the microphone threw the recording away.
    Discarded { ok: bool },
}

/// One thing the session thread does, in order.
#[derive(Clone, Copy, Debug, PartialEq, Eq, Structural)]
pub enum Step {
    /// Start the recording clock.
    StartClock,
    /// Stop the recording clock.
    StopClock,
    /// The microphone is unusable: drop it, so the next press opens it again.
    DropMicrophone,
    /// Aim the panel at whatever has the focus, and open it live.
    PanelBegin,
    /// Close the panel.
    PanelClose,
    /// Open the panel with the hint.
    PanelOpenIdle,
    /// Transfer what the panel holds, on a thread of its own.
    PanelTransfer,
    /// Cancel the panel.
    PanelCancel,
    /// Copy what the panel holds.
    PanelCopy,
    /// Show a state on the tray.
    Show(Status),
    /// Put the tray back on its resting state.
    Rest,
    /// Hand the recording to the engine.
    Handoff,
}

/// What the session thread does for an action and its outcome, while `recording` says
/// whether audio was being captured.
pub open spec fn steps_for(action: Action, outcome: Outcome, recording: bool) -> (bool, Seq<Step>) {
    match action {
        Action::StartRecording => match outcome {
            Outcome::Started { ok } => if ok {
                (true, seq![Step::StartClock, Step::PanelBegin, Step::Show(Status::Recording)])
            } else {
                (recording, seq![Step::DropMicrophone, Step::Show(Status::NoMicrophone)])
            },
            _ => (recording, Seq::empty()),
        },
        Action::StopRecording => (
            false,
            seq![Step::StopClock] + match outcome {
                Outcome::Stopped { taken } => match taken {
                    Taken::Empty => seq![Step::PanelClose, Step::Rest],
                    Taken::Recording { has_speech } => if has_speech {
                        seq![Step::Show(Status::Working), Step::Handoff]
                    } else {
                        seq![Step::Show(Status::NothingHeard)]
                    },
                    Taken::Failed => seq![Step::DropMicrophone, Step::Show(Status::NoMicrophone)],
                },
                _ => Seq::empty(),
            },
        ),
        Action::DiscardRecording => (
            false,
            seq![Step::StopClock] + (if outcome == (Outcome::Discarded { ok: false }) {
                seq![Step::DropMicrophone]
            } else {
                Seq::empty()
            }) + seq![Step::PanelClose, Step::Rest],
        ),
        Action::OpenPanelIdle => (recording, seq![Step::PanelOpenIdle]),
        Action::PanelTransfer => (recording, seq![Step::PanelTransfer]),
        Action::PanelCancel => if recording {
            (
                false,
                seq![Step::StopClock] + (if outcome == (Outcome::Discarded { ok: false }) {
                    seq![Step::DropMicrophone]
                } else {
                    Seq::empty()
                }) + seq![Step::Rest, Step::PanelCancel],
            )
        } else {
            (false, seq![Step::PanelCancel])
        },
        Action::PanelCopy => (recording, seq![Step::PanelCopy]),
    }
}

/// The session thread's own state: whether audio is being captured right now, which is what
/// tells Esc apart.
#[derive(Clone, Copy, Debug, PartialEq, Eq, Structural)]
pub struct Session {
    /// Whether a recording is running.
    pub recording: bool,
}

/// Append one step.
fn then(steps: &mut Vec<Step>, step: Step)
    ensures
        final(steps)@ == old(steps)@.push(step),
{
    steps.push(step);
}

impl Session {
    /// Nothing is being recorded.
    pub fn new() -> (session: Session)
        ensures
            !session.recording,
    {
        Session { recording: false }
    }

    /// Whether the outside work for `action` includes throwing a recording away: a discard
    /// always does, and Esc does while a recording is running.
    pub fn needs_discard(&self, action: Action) -> (discard: bool)
        ensures
            discard == (action == Action::DiscardRecording || (action == Action::PanelCancel
                && self.recording)),
    {
        match action {
            Action::DiscardRecording => true,
            Action::PanelCancel => self.recording,
            _ => false,
        }
    }

    /// What to do for an action, given what its outside work answered.
    pub fn react(&mut self, action: Action, outcome: Outcome) -> (steps: Vec<Step>)
        ensures
            (final(self).recording, steps@) == steps_for(action, outcome, old(self).recording),
    {
        let mut steps: Vec<Step> = Vec::new();
        match action {
            Action::StartRecording => {
                if let Outcome::Started { ok } = outcome {
                    if ok {
                        self.recording = true;
                        then(&mut steps, Step::StartClock);
                        then(&mut steps, Step::PanelBegin);
                        then(&mut steps, Step::Show(Status::Recording));
                    } else {
                        then(&mut steps, Step::DropMicrophone);
                        then(&mut steps, Step::Show(Status::NoMicrophone));
                    }
                }
            },
            Action::StopRecording => {
                self.recording = false;
                then(&mut steps, Step::StopClock);
                if let Outcome::Stopped { taken } = outcome {
                    match taken {
                        Taken::Empty => {
                            then(&mut steps, Step::PanelClose);
                            then(&mut steps, Step::Rest);
                        },
                        Taken::Recording { has_speech } => {
                            if has_speech {
                                then(&mut steps, Step::Show(Status::Working));
                                then(&mut steps, Step::Handoff);
                            } else {
                                then(&mut steps, Step::Show(Status::NothingHeard));
                            }
                        },
                        Taken::Failed => {
                            then(&mut steps, Step::DropMicrophone);
                            then(&mut steps, Step::Show(Status::NoMicrophone));
                        },
                    }
                }
            },
            Action::DiscardRecording => {
                self.recording = false;
                then(&mut steps, Step::StopClock);
                if outcome == (Outcome::Discarded { ok: false }) {
                    then(&mut steps, Step::DropMicrophone);
                }
                then(&mut steps, Step::PanelClose);
                then(&mut steps, Step::Rest);
            },
            Action::OpenPanelIdle => {
                then(&mut steps, Step::PanelOpenIdle);
            },
            Action::PanelTransfer => {
                then(&mut steps, Step::PanelTransfer);
            },
            Action::PanelCancel => {
                if self.recording {
                    self.recording = false;
                    then(&mut steps, Step::StopClock);
                    if outcome == (Outcome::Discarded { ok: false }) {
                        then(&mut steps, Step::DropMicrophone);
                    }
                    then(&mut steps, Step::Rest);
                }
                self.recording = false;
                then(&mut steps, Step::PanelCancel);
            },
            Action::PanelCopy => {
                then(&mut steps, Step::PanelCopy);
            },
        }
        proof {
            let expected = steps_for(action, outcome, old(self).recording).1;
            assert(steps@ =~= expected);
        }
        steps
    }
}

/// Silence is never sent to the engine: a recording is handed over only when speech was
/// heard in it, and every recording that was taken leaves the session idle.
pub proof fn lemma_only_speech_is_handed_over(taken: Taken, recording: bool)
    ensures
        steps_for(Action::StopRecording, Outcome::Stopped { taken }, recording).1.contains(Step::Handoff)
            <==> taken == (Taken::Recording { has_speech: true }),
        !steps_for(Action::StopRecording, Outcome::Stopped { taken }, recording).0,
{
    let steps = steps_for(Action::StopRecording, Outcome::Stopped { taken }, recording).1;
    if taken == (Taken::Recording { has_speech: true }) {
        assert(steps[2] == Step::Handoff);
    } else {
        assert forall|k: int| 0 <= k < steps.len() implies steps[k] != Step::Handoff by {
        }
    }
}

/// The microphone is dropped exactly when it failed: a discard or an Esc during a recording
/// drops it only when throwing the recording away failed, a press only when starting failed,
/// a release only when taking the recording failed, and nothing else ever drops it.
pub proof fn lemma_microphone_dropped_only_on_failure(outcome: Outcome, recording: bool)
    ensures
        steps_for(Action::DiscardRecording, outcome, recording).1.contains(Step::DropMicrophone)
            <==> outcome == (Outcome::Discarded { ok: false }),
        steps_for(Action::PanelCancel, outcome, recording).1.contains(Step::DropMicrophone)
            <==> (recording && outcome == (Outcome::Discarded { ok: false })),
        steps_for(Action::StartRecording, outcome, recording).1.contains(Step::DropMicrophone)
            <==> outcome == (Outcome::Started { ok: false }),
        steps_for(Action::StopRecording, outcome, recording).1.contains(Step::DropMicrophone)
            <==> outcome == (Outcome::Stopped { taken: Taken::Failed }),
        !steps_for(Action::OpenPanelIdle, outcome, recording).1.contains(Step::DropMicrophone),
        !steps_for(Action::PanelTransfer, outcome, recording).1.contains(Step::DropMicrophone),
        !steps_for(Action::PanelCopy, outcome, recording).1.contains(Step::DropMicrophone),
{
    let failed = outcome == (Outcome::Discarded { ok: false });
    let discard = steps_for(Action::DiscardRecording, outcome, recording).1;
    if failed {
        assert(discard[1] == Step::DropMicrophone);
    } else {
        assert(discard =~= seq![Step::StopClock, Step::PanelClose, Step::Rest]);
        assert(!discard.contains(Step::DropMicrophone)) by {
            assert forall|k: int| 0 <= k < discard.len() implies discard[k] != Step::DropMicrophone by {}
        }
    }
    let cancel = steps_for(Action::PanelCancel, outcome, recording).1;
    if recording {
        if failed {
            assert(cancel[1] == Step::DropMicrophone);
        } else {
            assert(cancel =~= seq![Step::StopClock, Step::Rest, Step::PanelCancel]);
            assert(!cancel.contains(Step::DropMicrophone)) by {
                assert forall|k: int| 0 <= k < cancel.len() implies cancel[k] != Step::DropMicrophone by {}
            }
        }
    } else {
        assert(!cancel.contains(Step::DropMicrophone)) by {
            assert forall|k: int| 0 <= k < cancel.len() implies cancel[k] != Step::DropMicrophone by {}
        }
    }
    let start = steps_for(Action::StartRecording, outcome, recording).1;
    if outcome == (Outcome::Started { ok: false }) {
        assert(start[0] == Step::DropMicrophone);
    } else {
        assert(!start.contains(Step::DropMicrophone)) by {
            assert forall|k: int| 0 <= k < start.len() implies start[k] != Step::DropMicrophone by {}
        }
    }
    let stop = steps_for(Action::StopRecording, outcome, recording).1;
    if outcome == (Outcome::Stopped { taken: Taken::Failed }) {
        assert(stop[1] == Step::DropMicrophone);
    } else {
        assert(!stop.contains(Step::DropMicrophone)) by {
            assert forall|k: int| 0 <= k < stop.len() implies stop[k] != Step::DropMicrophone by {}
        }
    }
    let idle = steps_for(Action::OpenPanelIdle, outcome, recording).1;
    assert(!idle.contains(Step::DropMicrophone)) by {
        assert forall|k: int| 0 <= k < idle.len() implies idle[k] != Step::DropMicrophone by {}
    }
    let transfer = steps_for(Action::PanelTransfer, outcome, recording).1;
    assert(!transfer.contains(Step::DropMicrophone)) by {
        assert forall|k: int| 0 <= k < transfer.len() implies transfer[k] != Step::DropMicrophone by {}
    }
    let copy = steps_for(Action::PanelCopy, outcome, recording).1;
    assert(!copy.contains(Step::DropMicrophone)) by {
        assert forall|k: int| 0 <= k < copy.len() implies copy[k] != Step::DropMicrophone by {}
    }
}

} // verus!
