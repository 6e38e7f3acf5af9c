//! The one thing the tray says about the session: its state, its icon and its tooltip.

use vstd::prelude::*;

use crate::i18n::{interpolated, params_view, template_of, Strings};
use crate::text::{decimal, decimal_of};

verus! {

/// What the tray is saying about the session.
#[derive(Clone, Copy, Debug, PartialEq, Eq, Structural)]
pub enum Status {
    /// Nothing is happening, and the hotkey is armed.
    Idle,
    /// The key is down and audio is being captured.
    Recording,
    /// The key is up and the recording is being transcribed.
    Working,
    /// The recording held no speech, so nothing was sent anywhere.
    NothingHeard,
    /// The microphone could not be opened. The application keeps running.
    NoMicrophone,
    /// The engine is being brought up: the first-run probe, a model load, a respawn.
    Preparing,
    /// Model weights are arriving, with how far along they are.
    Downloading(u8),
    /// There are no weights on this machine, because the download was declined.
    NoModel,
    /// Running on the CPU fallback tier, because the first-run GPU probe did not pass.
    CpuTier,
    /// The engine process went down too many times in a row and is not being restarted.
    EngineFailed,
}

/// Which of the three marks the tray paints.
#[derive(Clone, Copy, Debug, PartialEq, Eq, Structural)]
pub enum TrayIcon {
    /// The accent bar in the idle green.
    Idle,
    /// The accent bar in red.
    Recording,
    /// The accent bar in amber.
    Working,
}

/// The name a state travels under in the `dile://state` event.
pub open spec fn event_state_of(status: Status) -> Seq<char> {
    match status {
        Status::Idle => "idle"@,
        Status::Recording => "recording"@,
        Status::Working => "working"@,
        Status::NothingHeard => "nothing-heard"@,
        Status::NoMicrophone => "no-microphone"@,
        Status::Preparing => "preparing"@,
        Status::Downloading(_) => "downloading"@,
        Status::NoModel => "no-model"@,
        Status::CpuTier => "cpu-tier"@,
        Status::EngineFailed => "engine-failed"@,
    }
}

/// The catalogue key of a state's tooltip.
pub open spec fn tooltip_key_of(status: Status) -> Seq<char> {
    match status {
        Status::Idle => "tray.tooltip.idle"@,
        Status::Recording => "tray.tooltip.recording"@,
        Status::Working => "tray.tooltip.working"@,
        Status::NothingHeard => "tray.tooltip.nothing"@,
        Status::NoMicrophone => "tray.tooltip.nomicrophone"@,
        Status::Preparing => "tray.tooltip.preparing"@,
        Status::Downloading(_) => "tray.tooltip.downloading"@,
        Status::NoModel => "tray.tooltip.nomodel"@,
        Status::CpuTier => "tray.tooltip.cputier"@,
        Status::EngineFailed => "tray.tooltip.enginefailed"@,
    }
}

/// The mark a state paints: red only while recording, amber while anything is being waited
/// for, and green for everything with no dictation behind it.
pub open spec fn icon_of(status: Status) -> TrayIcon {
    match status {
        Status::Recording => TrayIcon::Recording,
        Status::Working | Status::Preparing | Status::Downloading(_) => TrayIcon::Working,
        _ => TrayIcon::Idle,
    }
}

impl Status {
    /// The name this state travels under; stable, because the panel switches on it.
    pub fn event_state(self) -> (name: &'static str)
        ensures
            name@ == event_state_of(self),
    {
        match self {
            Status::Idle => "idle",
            Status::Recording => "recording",
            Status::Working => "working",
            Status::NothingHeard => "nothing-heard",
            Status::NoMicrophone => "no-microphone",
            Status::Preparing => "preparing",
            Status::Downloading(_) => "downloading",
            Status::NoModel => "no-model",
            Status::CpuTier => "cpu-tier",
            Status::EngineFailed => "engine-failed",
        }
    }

    /// The catalogue key of this state's tooltip.
    pub fn tooltip_key(self) -> (key: &'static str)
        ensures
            key@ == tooltip_key_of(self),
    {
        match self {
            Status::Idle => "tray.tooltip.idle",
            Status::Recording => "tray.tooltip.recording",
            Status::Working => "tray.tooltip.working",
            Status::NothingHeard => "tray.tooltip.nothing",
            Status::NoMicrophone => "tray.tooltip.nomicrophone",
            Status::Preparing => "tray.tooltip.preparing",
            Status::Downloading(_) => "tray.tooltip.downloading",
            Status::NoModel => "tray.tooltip.nomodel",
            Status::CpuTier => "tray.tooltip.cputier",
            Status::EngineFailed => "tray.tooltip.enginefailed",
        }
    }

    /// The mark this state paints on the tray.
    pub fn icon(self) -> (icon: TrayIcon)
        ensures
            icon == icon_of(self),
    {
        match self {
            Status::Recording => TrayIcon::Recording,
            Status::Working | Status::Preparing | Status::Downloading(_) => TrayIcon::Working,
            _ => TrayIcon::Idle,
        }
    }
}

/// The number a state's tooltip carries: the download percentage, and nothing otherwise.
pub open spec fn tooltip_number(status: Status) -> Seq<char> {
    match status {
        Status::Downloading(percent) => decimal_of(percent as nat),
        _ => Seq::empty(),
    }
}

/// A state's tooltip in a catalogue, naming the chord the user chose.
pub open spec fn tooltip_of(status: Status, strings: Strings, hotkey: Seq<char>) -> Seq<char> {
    interpolated(
        template_of(strings.messages_spec(), strings.fallback_spec(), tooltip_key_of(status)),
        seq![("hotkey"@, hotkey), ("percent"@, tooltip_number(status))],
    )
}

impl Status {
    /// This state's tooltip, in the catalogue's language, naming the chord the user chose.
    /// Every tooltip is offered both holes; a string without one of them keeps its text.
    pub fn tooltip(self, strings: &Strings, hotkey: &str) -> (tooltip: String)
        ensures
            tooltip@ == tooltip_of(self, *strings, hotkey@),
    {
        let percent = match self {
            Status::Downloading(percent) => decimal(percent as u64),
            _ => String::new(),
        };
        let params = vec![("hotkey", hotkey), ("percent", percent.as_str())];
        proof {
            reveal_strlit("hotkey");
            reveal_strlit("percent");
            assert(params_view(params@) =~= seq![("hotkey"@, hotkey@), ("percent"@, tooltip_number(self))]);
        }
        strings.format(self.tooltip_key(), params.as_slice())
    }
}

/// The event the tray state travels under.
pub const EVENT_STATE: &'static str = "dile://state";

/// The event the level meter travels under.
pub const EVENT_LEVEL: &'static str = "dile://level";

/// The event the engine state travels under.
pub const EVENT_ENGINE: &'static str = "dile://engine";

/// The payload of `dile://state`.
#[derive(Clone, Copy, Debug, PartialEq, Eq)]
pub struct StatePayload {
    /// One of the state names.
    pub state: &'static str,
}

impl StatePayload {
    /// The payload a tray state is announced with.
    pub fn of(status: Status) -> (payload: StatePayload)
        ensures
            payload.state@ == event_state_of(status),
    {
        StatePayload { state: status.event_state() }
    }
}

} // verus!
