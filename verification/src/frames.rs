//! Reading interleaved sample data and placing audio clips on the timeline.
//! The sample values themselves (and their interpolation) are handled by the
//! audio code; this module decides which values are read.

use vstd::prelude::*;

verus! {

/// Number of whole frames in `len` interleaved values of `channels` channels.
pub open spec fn frame_count(len: int, channels: int) -> int {
    len / channels
}

/// The index of the value read as the right channel of a frame starting at
/// `base`: the next value for stereo (or wider) data, the same one for mono.
pub open spec fn right_index(base: int, channels: int) -> int {
    if channels >= 2 { base + 1 } else { base }
}

proof fn lemma_frame_in_bounds(len: int, channels: int, frame: int)
    requires
        channels > 0,
        0 <= frame,
        frame < len / channels,
        len >= 0,
    ensures
        frame * channels + channels <= len,
        0 <= frame * channels,
{
    vstd::arithmetic::div_mod::lemma_fundamental_div_mod(len, channels);
    vstd::arithmetic::mul::lemma_mul_inequality(frame + 1, len / channels, channels);
    vstd::arithmetic::mul::lemma_mul_is_distributive_add_other_way(channels, frame, 1);
    vstd::arithmetic::mul::lemma_mul_nonnegative(frame, channels);
    vstd::arithmetic::div_mod::lemma_mod_bound(len, channels);
    vstd::arithmetic::mul::lemma_mul_is_commutative(channels, len / channels);
}

/// The (left, right) values of frame `frame` of interleaved data with
/// `channels` channels; mono data gives its value for both sides. `None`
/// when the data has no channels or no such whole frame.
pub fn frame_pair<T: Copy>(data: &[T], channels: usize, frame: usize) -> (r: Option<(T, T)>)
    ensures
        r is Some <==> (channels > 0 && frame < frame_count(data@.len() as int, channels as int)),
        r matches Some(p) ==> {
            &&& p.0 == data@[frame * channels]
            &&& p.1 == data@[right_index(frame * channels, channels as int)]
            &&& channels >= 2 ==> p.1 == data@[frame * channels + 1]
            &&& channels == 1 ==> p.1 == p.0
        },
{
    if channels == 0 || frame >= data.len() / channels {
        return None;
    }
    proof {
        lemma_frame_in_bounds(data@.len() as int, channels as int, frame as int);
    }
    let base = frame * channels;
    if channels >= 2 {
        Some((data[base], data[base + 1]))
    } else {
        Some((data[base], data[base]))
    }
}

/// The two frames a read at frame `frame` interpolates between: the frame
/// itself and the next one, held at the last frame. `None` past the end.
pub fn interpolation_frames(frame: usize, total_frames: usize) -> (r: Option<(usize, usize)>)
    ensures
        r is Some <==> frame < total_frames,
        r matches Some(p) ==> p.0 == frame && p.1 == (if frame + 1 < total_frames { frame + 1 } else { total_frames - 1 }),
{
    if frame >= total_frames {
        None
    } else if frame + 1 < total_frames {
        Some((frame, frame + 1))
    } else {
        Some((frame, total_frames - 1))
    }
}

/// How far (in ticks) `tick` lies into a clip that starts at `start_tick`
/// and lasts `duration_ticks`; `None` when the clip is not playing then.
/// The clip's end tick must be representable once `tick` has reached its
/// start.
pub fn clip_offset(tick: u64, start_tick: u64, duration_ticks: u64) -> (r: Option<u64>)
    requires
        tick < start_tick || start_tick + duration_ticks <= u64::MAX,
    ensures
        r == (if start_tick <= tick && tick < start_tick + duration_ticks {
            Some((tick - start_tick) as u64)
        } else {
            None::<u64>
        }),
{
    if tick >= start_tick && tick < start_tick + duration_ticks {
        Some(tick - start_tick)
    } else {
        None
    }
}

/// The right value of a frame is the value right after its left value for
/// data of two or more channels, whatever their number, and the left value
/// itself for mono data.
pub proof fn law_right_follows_left(base: int, channels: int)
    requires
        channels >= 1,
    ensures
        channels >= 2 ==> right_index(base, channels) == base + 1,
        channels == 1 ==> right_index(base, channels) == base,
{
}

} // verus!
