//! Mixer channel numbering and routing decisions.

use vstd::prelude::*;

verus! {

/// Number of mixer channels (and of per-channel synthesizers) in the engine.
pub const NUM_CHANNELS: usize = 4;

/// Whether `channel_id` names one of the mixer channels.
pub open spec fn is_channel(channel_id: int) -> bool {
    0 <= channel_id < NUM_CHANNELS
}

/// The channel a channel ducks against: the configured sidechain source when
/// it names an existing channel, otherwise none (no ducking).
pub fn sidechain_source(source_id: Option<usize>) -> (r: Option<usize>)
    ensures
        r == (match source_id {
            Some(s) => if is_channel(s as int) { Some(s) } else { None },
            None => None,
        }),
{
    match source_id {
        Some(s) => if s < NUM_CHANNELS { Some(s) } else { None },
        None => None,
    }
}

} // verus!
