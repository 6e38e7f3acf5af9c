//! What a started source hands back, and how much raw audio the ring between the callback
//! and the worker holds.

use vstd::prelude::*;

use super::config::SourceSpec;

verus! {

/// Keeps a started source alive; dropping it stops delivery.
pub trait StreamGuard {}

/// The fewest raw samples the ring holds, whatever the device.
pub const MIN_RING_SAMPLES: usize = 8192;

/// Half a second of raw interleaved audio at the device's rate and channel count (a device
/// that reports no channels counts as one; a product past the largest size saturates), and
/// never less than the minimum.
pub open spec fn ring_capacity_spec(spec: SourceSpec) -> nat {
    let channels: nat = if spec.channels == 0 { 1 } else { spec.channels as nat };
    let product = spec.sample_rate as nat * channels;
    let total: nat = if product > usize::MAX { usize::MAX as nat } else { product };
    let half_second = (total + 1) / 2;
    if half_second > MIN_RING_SAMPLES {
        half_second
    } else {
        MIN_RING_SAMPLES as nat
    }
}

/// How many raw samples the ring between the callback and the worker holds.
pub fn ring_capacity(spec: SourceSpec) -> (capacity: usize)
    ensures
        capacity as nat == ring_capacity_spec(spec),
{
    let channels: usize = if spec.channels == 0 { 1 } else { spec.channels as usize };
    let total: usize = match (spec.sample_rate as usize).checked_mul(channels) {
        Some(total) => total,
        None => usize::MAX,
    };
    let half_second = total / 2 + total % 2;
    proof {
        assert((total + 1) / 2 == total / 2 + total % 2);
    }
    if half_second > MIN_RING_SAMPLES {
        half_second
    } else {
        MIN_RING_SAMPLES
    }
}

/// How a block from the audio callback meets the ring: as much as there is room for goes in,
/// and the rest is counted as an overrun rather than waited for.
pub fn ring_split(offered: usize, room: usize) -> (split: (usize, usize))
    ensures
        split.0 == if offered < room { offered } else { room },
        split.0 + split.1 == offered,
        split.1 > 0 <==> offered > room,
{
    let take = if offered < room { offered } else { room };
    (take, offered - take)
}

} // verus!
