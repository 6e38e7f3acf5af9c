//! The engine at arm's length: what it is doing, what wakes its supervisor, and the probe
//! that decides which tier a machine runs on.

pub mod probe;
pub mod queue;
pub mod state;
pub mod supervisor;

pub use queue::{Pending, Wake};
pub use state::{
    percent_of, resting_for, EnginePayload, EngineSnapshot, EngineState, Tier, BACKOFF_MS,
    MAX_RESTARTS,
};
