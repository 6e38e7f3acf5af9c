//! How the microphone is opened, and where a capture is.

use vstd::prelude::*;

verus! {

/// The rate every buffer leaving the capture stage is at.
pub const SAMPLE_RATE: u32 = 16_000;

/// The shortest recording cap the settings accept, in seconds.
pub const MIN_CAP_SECS: u32 = 1;

/// The longest recording cap the settings accept, in seconds.
pub const MAX_CAP_SECS: u32 = 300;

/// The shortest level-meter interval, in milliseconds.
pub const MIN_LEVEL_INTERVAL_MS: u32 = 5;

/// The longest level-meter interval, in milliseconds.
pub const MAX_LEVEL_INTERVAL_MS: u32 = 1000;

/// The longest pre-roll, in milliseconds.
pub const MAX_PRE_ROLL_MS: u32 = 5_000;

/// `value` held inside `low..=high`.
pub open spec fn clamp_spec(value: u32, low: u32, high: u32) -> u32 {
    if value < low {
        low
    } else if value > high {
        high
    } else {
        value
    }
}

/// How the microphone is opened and how the recording behaves.
#[derive(Clone, Debug, PartialEq, Eq)]
pub struct CaptureConfig {
    /// Which input to open: a device id, a device name, or the host default when `None`.
    pub device: Option<String>,
    /// How much audio from before the key went down is kept in front of the recording.
    pub pre_roll_ms: u32,
    /// How long a single recording may run, in seconds.
    pub cap_secs: u32,
    /// How often a level reading is produced, in milliseconds.
    pub level_interval_ms: u32,
}

impl CaptureConfig {
    /// Whether every knob is inside the range the capture stage runs with.
    pub open spec fn in_range(&self) -> bool {
        &&& MIN_CAP_SECS <= self.cap_secs <= MAX_CAP_SECS
        &&& MIN_LEVEL_INTERVAL_MS <= self.level_interval_ms <= MAX_LEVEL_INTERVAL_MS
        &&& self.pre_roll_ms <= MAX_PRE_ROLL_MS
    }

    /// The host default, half a second of pre-roll, a 60 s cap and a 20 Hz meter.
    pub fn new_default() -> (config: CaptureConfig)
        ensures
            config.device is None,
            config.pre_roll_ms == 500,
            config.cap_secs == 60,
            config.level_interval_ms == 50,
            config.in_range(),
    {
        CaptureConfig { device: None, pre_roll_ms: 500, cap_secs: 60, level_interval_ms: 50 }
    }

    /// The config as it will actually be used, with every out-of-range value clamped.
    pub fn clamped(&self) -> (clamped: CaptureConfig)
        ensures
            clamped.device == self.device,
            clamped.cap_secs == clamp_spec(self.cap_secs, MIN_CAP_SECS, MAX_CAP_SECS),
            clamped.level_interval_ms == clamp_spec(
                self.level_interval_ms,
                MIN_LEVEL_INTERVAL_MS,
                MAX_LEVEL_INTERVAL_MS,
            ),
            clamped.pre_roll_ms == if self.pre_roll_ms > MAX_PRE_ROLL_MS {
                MAX_PRE_ROLL_MS
            } else {
                self.pre_roll_ms
            },
            clamped.in_range(),
    {
        let device = match &self.device {
            Some(name) => Some(name.clone()),
            None => None,
        };
        let cap_secs = if self.cap_secs < MIN_CAP_SECS {
            MIN_CAP_SECS
        } else if self.cap_secs > MAX_CAP_SECS {
            MAX_CAP_SECS
        } else {
            self.cap_secs
        };
        let level_interval_ms = if self.level_interval_ms < MIN_LEVEL_INTERVAL_MS {
            MIN_LEVEL_INTERVAL_MS
        } else if self.level_interval_ms > MAX_LEVEL_INTERVAL_MS {
            MAX_LEVEL_INTERVAL_MS
        } else {
            self.level_interval_ms
        };
        let pre_roll_ms = if self.pre_roll_ms > MAX_PRE_ROLL_MS {
            MAX_PRE_ROLL_MS
        } else {
            self.pre_roll_ms
        };
        CaptureConfig { device, pre_roll_ms, cap_secs, level_interval_ms }
    }
}

impl Default for CaptureConfig {
    fn default() -> (config: CaptureConfig)
        ensures
            config.device is None,
            config.pre_roll_ms == 500,
            config.cap_secs == 60,
            config.level_interval_ms == 50,
    {
        CaptureConfig::new_default()
    }
}

/// Clamping a config that is already clamped changes nothing.
pub proof fn lemma_clamped_is_stable(config: CaptureConfig)
    requires
        config.in_range(),
    ensures
        clamp_spec(config.cap_secs, MIN_CAP_SECS, MAX_CAP_SECS) == config.cap_secs,
        clamp_spec(config.level_interval_ms, MIN_LEVEL_INTERVAL_MS, MAX_LEVEL_INTERVAL_MS)
            == config.level_interval_ms,
{
}

/// Where a capture is.
#[derive(Clone, Copy, Debug, PartialEq, Eq, Structural)]
pub enum State {
    /// The stream is open and the pre-roll ring is filling. Nothing is being recorded.
    Armed,
    /// Recording, and the elapsed time is running against the cap.
    Recording,
    /// The cap stopped the recording by itself; the buffer is waiting to be collected.
    Capped,
}

impl State {
    /// The number a state is published under between threads.
    pub open spec fn code_spec(self) -> u8 {
        match self {
            State::Armed => 0,
            State::Recording => 1,
            State::Capped => 2,
        }
    }

    /// The number a state is published under between threads.
    pub fn code(self) -> (code: u8)
        ensures
            code == self.code_spec(),
    {
        match self {
            State::Armed => 0,
            State::Recording => 1,
            State::Capped => 2,
        }
    }

    /// The state a published number stands for; anything unknown reads as armed.
    pub fn from_u8(value: u8) -> (state: State)
        ensures
            value == 1 ==> state == State::Recording,
            value == 2 ==> state == State::Capped,
            value != 1 && value != 2 ==> state == State::Armed,
    {
        match value {
            1 => State::Recording,
            2 => State::Capped,
            _ => State::Armed,
        }
    }
}

/// Publishing a state and reading it back gives the same state.
pub proof fn lemma_state_code_round_trip(state: State)
    ensures
        state.code_spec() == 1 ==> state == State::Recording,
        state.code_spec() == 2 ==> state == State::Capped,
        state.code_spec() != 1 && state.code_spec() != 2 ==> state == State::Armed,
{
}

/// The shape of the audio a source delivers, before any conversion.
#[derive(Clone, Copy, Debug, PartialEq, Eq, Structural)]
pub struct SourceSpec {
    /// Frames per second, as the device runs.
    pub sample_rate: u32,
    /// Interleaved channel count.
    pub channels: u16,
}

impl SourceSpec {
    /// A spec with the two numbers that matter.
    pub fn new(sample_rate: u32, channels: u16) -> (spec: SourceSpec)
        ensures
            spec.sample_rate == sample_rate,
            spec.channels == channels,
    {
        SourceSpec { sample_rate, channels }
    }
}

} // verus!
