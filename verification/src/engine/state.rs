//! What the engine is doing, how far a download has got, and how often a crashed engine
//! is put back.

use vstd::prelude::*;

use crate::tray::Status;

verus! {

/// The device a model runs on.
#[derive(Clone, Copy, Debug, PartialEq, Eq, Structural)]
pub enum Tier {
    /// The GPU, through Vulkan: the tier the product is designed for.
    Vulkan,
    /// The CPU fallback, with a smaller model.
    Cpu,
}

/// The name a tier travels under.
pub open spec fn tier_name(tier: Tier) -> Seq<char> {
    match tier {
        Tier::Vulkan => "vulkan"@,
        Tier::Cpu => "cpu"@,
    }
}

impl Tier {
    /// The name this tier travels under in payloads and the tier record.
    pub fn as_str(self) -> (name: &'static str)
        ensures
            name@ == tier_name(self),
    {
        match self {
            Tier::Vulkan => "vulkan",
            Tier::Cpu => "cpu",
        }
    }
}

/// What the engine is doing right now.
#[derive(Clone, Copy, Debug, PartialEq, Eq, Structural)]
pub enum EngineState {
    /// No weights on disk, and the person said not now. The hotkey still records.
    NoModel,
    /// Fetching weights; the percentage is of the file.
    Downloading { percent: u8 },
    /// Running the first-run probe transcription.
    Probing,
    /// A model is loaded and a dictation would be transcribed.
    Ready { tier: Tier },
    /// A dictation is being transcribed.
    Busy,
    /// The engine process went down. A respawn is in progress.
    Crashed,
    /// The engine process went down too many times in a row and is not being respawned.
    Failed,
}

/// The name a state travels under in the `dile://engine` event.
pub open spec fn engine_state_name(state: EngineState) -> Seq<char> {
    match state {
        EngineState::NoModel => "no-model"@,
        EngineState::Downloading { .. } => "downloading"@,
        EngineState::Probing => "probing"@,
        EngineState::Ready { .. } => "ready"@,
        EngineState::Busy => "busy"@,
        EngineState::Crashed => "crashed"@,
        EngineState::Failed => "failed"@,
    }
}

impl EngineState {
    /// The name this state travels under; stable, because the panel switches on it.
    pub fn name(self) -> (name: &'static str)
        ensures
            name@ == engine_state_name(self),
    {
        match self {
            EngineState::NoModel => "no-model",
            EngineState::Downloading { .. } => "downloading",
            EngineState::Probing => "probing",
            EngineState::Ready { .. } => "ready",
            EngineState::Busy => "busy",
            EngineState::Crashed => "crashed",
            EngineState::Failed => "failed",
        }
    }

    /// The tier, when this state has one.
    pub fn tier(self) -> (tier: Option<Tier>)
        ensures
            tier == match self {
                EngineState::Ready { tier } => Some(tier),
                _ => None,
            },
    {
        match self {
            EngineState::Ready { tier } => Some(tier),
            _ => None,
        }
    }

    /// The download percentage, when this state has one.
    pub fn percent(self) -> (percent: Option<u8>)
        ensures
            percent == match self {
                EngineState::Downloading { percent } => Some(percent),
                _ => None,
            },
    {
        match self {
            EngineState::Downloading { percent } => Some(percent),
            _ => None,
        }
    }
}

/// The payload of `dile://engine`.
#[derive(Clone, Debug)]
pub struct EnginePayload {
    /// One of the state names.
    pub state: &'static str,
    /// The tier, when the state has one.
    pub tier: Option<&'static str>,
    /// The model file this machine is set up to use, when one has been chosen.
    pub model: Option<String>,
    /// Download progress, 0–100, when something is being downloaded.
    pub progress: Option<u8>,
}

/// The view of an optional name.
pub open spec fn name_view(name: Option<&str>) -> Option<Seq<char>> {
    match name {
        Some(name) => Some(name@),
        None => None,
    }
}

/// The view of an optional owned name.
pub open spec fn owned_view(name: Option<String>) -> Option<Seq<char>> {
    match name {
        Some(name) => Some(name@),
        None => None,
    }
}

/// The view of an optional static name.
pub open spec fn static_view(name: Option<&'static str>) -> Option<Seq<char>> {
    match name {
        Some(name) => Some(name@),
        None => None,
    }
}

impl EnginePayload {
    /// The payload for a state, with the model the machine is set up to use beside it.
    pub fn new(state: EngineState, model: Option<&str>) -> (payload: EnginePayload)
        ensures
            payload.state@ == engine_state_name(state),
            static_view(payload.tier) == match state {
                EngineState::Ready { tier } => Some(tier_name(tier)),
                _ => None,
            },
            owned_view(payload.model) == name_view(model),
            payload.progress == match state {
                EngineState::Downloading { percent } => Some(percent),
                _ => None,
            },
    {
        let tier = match state.tier() {
            Some(tier) => Some(tier.as_str()),
            None => None,
        };
        let model = match model {
            Some(name) => Some(name.to_owned()),
            None => None,
        };
        EnginePayload { state: state.name(), tier, model, progress: state.percent() }
    }
}

/// What the engine is doing, as the settings window reads it.
#[derive(Clone, Debug)]
pub struct EngineSnapshot {
    /// One of the state names, or empty before the first report.
    pub state: &'static str,
    /// The tier the engine is loaded on, when it is loaded.
    pub tier: Option<&'static str>,
    /// The model file this machine is set up to use.
    pub model: Option<String>,
    /// Download progress, 0–100, while something is being downloaded.
    pub progress: Option<u8>,
}

impl EngineSnapshot {
    /// The snapshot a payload leaves for the settings window.
    pub fn of(payload: &EnginePayload) -> (snapshot: EngineSnapshot)
        ensures
            snapshot.state@ == payload.state@,
            static_view(snapshot.tier) == static_view(payload.tier),
            owned_view(snapshot.model) == owned_view(payload.model),
            snapshot.progress == payload.progress,
    {
        let model = match &payload.model {
            Some(name) => Some(name.clone()),
            None => None,
        };
        EngineSnapshot { state: payload.state, tier: payload.tier, model, progress: payload.progress }
    }
}

impl Default for EngineSnapshot {
    fn default() -> (snapshot: EngineSnapshot)
        ensures
            snapshot.state@ == Seq::<char>::empty(),
            snapshot.tier is None,
            snapshot.model is None,
            snapshot.progress is None,
    {
        let state = "";
        proof {
            reveal_strlit("");
        }
        EngineSnapshot { state, tier: None, model: None, progress: None }
    }
}

/// What the tray rests on once the engine is ready: the CPU tier says so.
pub fn resting_for(tier: Tier) -> (status: Status)
    ensures
        status == match tier {
            Tier::Vulkan => Status::Idle,
            Tier::Cpu => Status::CpuTier,
        },
{
    match tier {
        Tier::Vulkan => Status::Idle,
        Tier::Cpu => Status::CpuTier,
    }
}

/// Whole per cent of `total`, as the progress bar draws it: `done` is held to `total`, and an
/// unknown total is 0.
pub open spec fn percent_spec(done: u64, total: u64) -> u8 {
    if total == 0 {
        0
    } else {
        let held = if done < total { done } else { total };
        (held * 100 / (total as int)) as u8
    }
}

/// Whole per cent of `total`, held to 100, and 0 when the total is unknown.
pub fn percent_of(done: u64, total: u64) -> (percent: u8)
    ensures
        percent == percent_spec(done, total),
        percent <= 100,
        total > 0 && done >= total ==> percent == 100,
{
    if total == 0 {
        return 0;
    }
    let held = if done < total { done } else { total };
    let product = held as u128 * 100;
    let percent = product / (total as u128);
    proof {
        assert(held * 100 / (total as int) <= 100) by (nonlinear_arith)
            requires
                held <= total,
                total > 0,
        ;
        assert(total * 100 / (total as int) == 100) by (nonlinear_arith)
            requires
                total > 0,
        ;
    }
    percent as u8
}

/// How many times in a row the engine process may go down before it is left down.
pub const MAX_RESTARTS: u32 = 3;

/// The wait before the first respawn, in milliseconds; the n-th waits n times this.
pub const BACKOFF_MS: u64 = 400;

/// What to do after the engine process went down for the `attempt`-th time in a row.
#[derive(Clone, Copy, Debug, PartialEq, Eq, Structural)]
pub enum Respawn {
    /// Wait this many milliseconds, then start another process.
    After(u64),
    /// Too many in a row: leave it down and say so.
    GiveUp,
}

/// The policy for the `attempt`-th consecutive restart.
pub open spec fn respawn_spec(attempt: u32) -> Respawn {
    if attempt > MAX_RESTARTS {
        Respawn::GiveUp
    } else {
        Respawn::After((BACKOFF_MS * attempt) as u64)
    }
}

/// One more consecutive crash: the new count, and what to do about it.
pub fn after_crash(restarts: u32) -> (answer: (u32, Respawn))
    ensures
        answer.0 == if restarts == u32::MAX { u32::MAX } else { (restarts + 1) as u32 },
        answer.1 == respawn_spec(answer.0),
{
    let attempt = restarts.saturating_add(1);
    if attempt > MAX_RESTARTS {
        (attempt, Respawn::GiveUp)
    } else {
        (attempt, Respawn::After(BACKOFF_MS * attempt as u64))
    }
}

/// The restart policy is bounded and backs off: every try waits longer than the one before,
/// the tries after the limit give up, and all of them together wait under three seconds.
pub proof fn lemma_restart_policy_is_bounded()
    ensures
        forall|a: u32, b: u32|
            1 <= a < b <= MAX_RESTARTS ==> #[trigger] respawn_spec(a)->0 < #[trigger] respawn_spec(b)->0,
        forall|a: u32| a > MAX_RESTARTS ==> #[trigger] respawn_spec(a) == Respawn::GiveUp,
        respawn_spec(1)->0 + respawn_spec(2)->0 + respawn_spec(3)->0 < 3000,
{
}

} // verus!
