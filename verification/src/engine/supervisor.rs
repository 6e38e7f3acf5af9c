//! The decisions the engine's supervisor makes between pieces of outside work: which tier to
//! run, when to load, which crash to answer, whether a tier change needs a restart, and
//! which download percentages are worth announcing.

use vstd::prelude::*;
use vstd::string::*;

use super::queue::Wake;
use super::state::{percent_of, percent_spec, Tier};

verus! {

/// How bringing the engine up gets its tier.
#[derive(Clone, Copy, Debug, PartialEq, Eq, Structural)]
pub enum TierPlan {
    /// Run `tier`; when `rewrite` the tier record is written so the next start agrees.
    Use { tier: Tier, rewrite: bool },
    /// Nothing decided yet: run the first-run probe.
    Probe,
}

/// What the user said outranks what the probe found, and the record is rewritten only when
/// it says something else; with neither, the machine is probed.
pub open spec fn tier_plan_spec(tier_override: Option<Tier>, recorded: Option<Tier>) -> TierPlan {
    match tier_override {
        Some(wanted) => TierPlan::Use { tier: wanted, rewrite: recorded != Some(wanted) },
        None => match recorded {
            Some(decided) => TierPlan::Use { tier: decided, rewrite: false },
            None => TierPlan::Probe,
        },
    }
}

/// Which tier bringing the engine up runs, from the settings' override and the tier record.
pub fn plan_tier(tier_override: Option<Tier>, recorded: Option<Tier>) -> (plan: TierPlan)
    ensures
        plan == tier_plan_spec(tier_override, recorded),
        tier_override is Some && recorded is None ==> plan == (TierPlan::Use {
            tier: tier_override->0,
            rewrite: true,
        }),
        tier_override is Some && recorded == tier_override ==> plan == (TierPlan::Use {
            tier: tier_override->0,
            rewrite: false,
        }),
        tier_override is None && recorded is Some ==> plan == (TierPlan::Use {
            tier: recorded->0,
            rewrite: false,
        }),
        tier_override is None && recorded is None ==> plan == TierPlan::Probe,
{
    match tier_override {
        Some(wanted) => {
            let rewrite = match recorded {
                Some(decided) => decided != wanted,
                None => true,
            };
            TierPlan::Use { tier: wanted, rewrite }
        },
        None => match recorded {
            Some(decided) => TierPlan::Use { tier: decided, rewrite: false },
            None => TierPlan::Probe,
        },
    }
}

/// The tier record once a plan was followed: rewritten to the plan's tier when the plan says
/// so, and otherwise as it was.
pub open spec fn record_after(recorded: Option<Tier>, plan: TierPlan) -> Option<Tier> {
    match plan {
        TierPlan::Use { tier, rewrite } => if rewrite {
            Some(tier)
        } else {
            recorded
        },
        TierPlan::Probe => recorded,
    }
}

/// Whatever the machine had written down, once the plan is followed the record names the tier
/// the engine runs on; an override always wins, and a record that already agrees is never
/// written again. Only a machine with neither an override nor a record is probed.
pub proof fn lemma_record_names_the_tier_run(tier_override: Option<Tier>, recorded: Option<Tier>)
    ensures
        tier_plan_spec(tier_override, recorded) matches TierPlan::Use { tier, rewrite } ==> {
            &&& record_after(recorded, tier_plan_spec(tier_override, recorded)) == Some(tier)
            &&& rewrite ==> recorded != Some(tier)
        },
        tier_override matches Some(wanted) ==> tier_plan_spec(tier_override, recorded) is Use
            && tier_plan_spec(tier_override, recorded)->tier == wanted,
        tier_plan_spec(tier_override, recorded) is Probe <==> (tier_override is None
            && recorded is None),
{
}

/// The tier a probe decides: the GPU when it passed, the CPU fallback when it did not.
pub fn tier_after_probe(passed: bool) -> (tier: Tier)
    ensures
        tier == if passed { Tier::Vulkan } else { Tier::Cpu },
{
    if passed {
        Tier::Vulkan
    } else {
        Tier::Cpu
    }
}

/// Whether `tier`'s model has to be loaded: unless that tier is the one already loaded.
pub fn needs_load(loaded: Option<Tier>, tier: Tier) -> (load: bool)
    ensures
        load == (loaded != Some(tier)),
{
    match loaded {
        Some(current) => current != tier,
        None => true,
    }
}

/// Whether a tier change in the settings needs the engine brought up again: not when the
/// tier asked for is the one already running.
pub fn needs_retier(wanted: Option<Tier>, current: Option<Tier>) -> (restart: bool)
    ensures
        restart == !(wanted is Some && wanted == current),
{
    match (wanted, current) {
        (Some(wanted), Some(current)) => wanted != current,
        _ => true,
    }
}

/// The tier a dictation is transcribed on: none unless a model is loaded.
pub fn dictation_tier(tier: Option<Tier>, loaded: bool) -> (on: Option<Tier>)
    ensures
        on == if loaded { tier } else { None },
{
    if loaded {
        tier
    } else {
        None
    }
}

/// What the supervisor does with what woke it.
#[derive(Clone, Copy, Debug, PartialEq, Eq, Structural)]
pub enum Duty {
    /// Stop the supervisor.
    Stop,
    /// The live engine process went down: put it back or give up.
    Respawn,
    /// An engine process that was already replaced has ended, as expected.
    Ignore,
    /// Bring the engine up again on the tier the settings ask for.
    Retier,
    /// Forget the tier decision and probe again.
    Reprobe,
    /// Transcribe the recording that came with the wake.
    Dictate,
}

/// What a wake asks of a supervisor whose live engine process is of `generation`: a crash
/// signal from an older process is ignored.
pub open spec fn duty_spec<J>(wake: Wake<J>, generation: u64) -> Duty {
    match wake {
        Wake::Stop => Duty::Stop,
        Wake::HostDown(ended) => if ended == generation {
            Duty::Respawn
        } else {
            Duty::Ignore
        },
        Wake::Retier => Duty::Retier,
        Wake::Reprobe => Duty::Reprobe,
        Wake::Job(_) => Duty::Dictate,
    }
}

/// What a wake asks of the supervisor, given the generation of its live engine process.
pub fn duty<J>(wake: &Wake<J>, generation: u64) -> (duty: Duty)
    ensures
        duty == duty_spec(*wake, generation),
{
    match wake {
        Wake::Stop => Duty::Stop,
        Wake::HostDown(ended) => if *ended == generation {
            Duty::Respawn
        } else {
            Duty::Ignore
        },
        Wake::Retier => Duty::Retier,
        Wake::Reprobe => Duty::Reprobe,
        Wake::Job(_) => Duty::Dictate,
    }
}

/// Which download percentages are announced: each one once, as the number changes.
#[derive(Clone, Copy, Debug, PartialEq, Eq, Structural)]
pub struct ProgressGate {
    last: u8,
}

impl ProgressGate {
    /// The percentage announced last; 255 before the first.
    pub closed spec fn last_spec(&self) -> u8 {
        self.last
    }

    /// Nothing announced yet.
    pub fn new() -> (gate: ProgressGate)
        ensures
            gate.last_spec() == u8::MAX,
    {
        ProgressGate { last: u8::MAX }
    }

    /// `done` of `total` bytes have arrived: the percentage to announce, or `None` when it is
    /// the one announced last.
    pub fn advance(&mut self, done: u64, total: u64) -> (announce: Option<u8>)
        ensures
            announce == if percent_spec(done, total) == old(self).last_spec() {
                None
            } else {
                Some(percent_spec(done, total))
            },
            final(self).last_spec() == percent_spec(done, total),
            announce is Some ==> announce->0 <= 100,
    {
        let percent = percent_of(done, total);
        if percent == self.last {
            return None;
        }
        self.last = percent;
        Some(percent)
    }
}

/// Where bringing the engine up stops.
#[derive(Clone, Debug, PartialEq, Eq)]
pub enum Halt {
    /// There are no weights and the person said not now. Recoverable by restarting.
    NoModel,
    /// Something the application cannot work around, as the error that caused it put it.
    Failed(String),
}

impl Halt {
    /// A failure, in the words of the error that caused it.
    pub fn from_error(error: &str) -> (halt: Halt)
        ensures
            halt is Failed && halt->Failed_0@ == error@,
    {
        Halt::Failed(String::from_str(error))
    }
}

/// Elapsed milliseconds as a clock reports them, saturating rather than wrapping.
pub fn millis(elapsed_ms: u128) -> (ms: u64)
    ensures
        ms == if elapsed_ms > u64::MAX as u128 { u64::MAX } else { elapsed_ms as u64 },
{
    if elapsed_ms > u64::MAX as u128 {
        u64::MAX
    } else {
        elapsed_ms as u64
    }
}

} // verus!
