//! Policy of the sample loader: how the packet loop reacts to what the
//! container reader and the decoder report, and how the in-memory sample
//! cache is kept bounded. Reading and decoding the file is done by the host
//! application with its codec library.

use vstd::prelude::*;

verus! {

/// Most samples the in-memory bank keeps.
pub const MAX_CACHED_SAMPLES: usize = 256;

/// What reading the next packet of the container gave.
#[derive(Debug, Clone, Copy, PartialEq, Eq, Structural)]
pub enum ReadOutcome {
    /// A packet of the given track.
    Packet { track_id: u32 },
    /// The stream changed and the decoder must be reset.
    ResetRequired,
    /// The end of the file was reached.
    EndOfFile,
    /// Any other read error.
    ReadFailed,
}

/// What decoding a packet gave.
#[derive(Debug, Clone, Copy, PartialEq, Eq, Structural)]
pub enum DecodeOutcome {
    /// Audio was decoded.
    Decoded,
    /// The packet was corrupt; decoding can go on with the next one.
    Corrupt,
    /// Decoding failed for good.
    Failed,
}

/// What the loader does next.
#[derive(Debug, Clone, Copy, PartialEq, Eq, Structural)]
pub enum DecodeStep {
    /// Go on with the next packet.
    Skip,
    /// Reset the decoder, then go on with the next packet.
    ResetDecoder,
    /// Decode this packet.
    Decode,
    /// Append the decoded audio, then go on.
    Append,
    /// Stop reading; the audio gathered so far is the sample.
    Finish,
    /// Stop and report the decoding error.
    Abort,
}

/// The step after reading: decode packets of the chosen track, skip those of
/// other tracks, reset on request, and stop at the end of the file or on any
/// other read error.
pub fn after_read(outcome: ReadOutcome, track_id: u32) -> (r: DecodeStep)
    ensures
        r == (match outcome {
            ReadOutcome::Packet { track_id: t } => if t == track_id { DecodeStep::Decode } else { DecodeStep::Skip },
            ReadOutcome::ResetRequired => DecodeStep::ResetDecoder,
            ReadOutcome::EndOfFile => DecodeStep::Finish,
            ReadOutcome::ReadFailed => DecodeStep::Finish,
        }),
{
    match outcome {
        ReadOutcome::Packet { track_id: t } => if t == track_id { DecodeStep::Decode } else { DecodeStep::Skip },
        ReadOutcome::ResetRequired => DecodeStep::ResetDecoder,
        ReadOutcome::EndOfFile => DecodeStep::Finish,
        ReadOutcome::ReadFailed => DecodeStep::Finish,
    }
}

/// The step after decoding: keep decoded audio, pass over corrupt packets,
/// give up on any other decoding error.
pub fn after_decode(outcome: DecodeOutcome) -> (r: DecodeStep)
    ensures
        r == (match outcome {
            DecodeOutcome::Decoded => DecodeStep::Append,
            DecodeOutcome::Corrupt => DecodeStep::Skip,
            DecodeOutcome::Failed => DecodeStep::Abort,
        }),
{
    match outcome {
        DecodeOutcome::Decoded => DecodeStep::Append,
        DecodeOutcome::Corrupt => DecodeStep::Skip,
        DecodeOutcome::Failed => DecodeStep::Abort,
    }
}

/// How many cached samples are dropped before another is added to a bank of
/// `cached` samples: a fifth of them once the bank is full, none before.
pub open spec fn evictions(cached: int) -> int {
    if cached >= MAX_CACHED_SAMPLES { cached / 5 } else { 0 }
}

/// The number of samples to drop before adding one to a bank of `cached`.
pub fn cache_evictions(cached: usize) -> (r: usize)
    ensures
        r == evictions(cached as int),
{
    if cached >= MAX_CACHED_SAMPLES {
        cached / 5
    } else {
        0
    }
}

/// The bank stays bounded: a bank of at most `MAX_CACHED_SAMPLES` samples
/// still holds at most that many after its evictions and one addition.
pub proof fn law_cache_stays_bounded(cached: usize)
    requires
        cached <= MAX_CACHED_SAMPLES,
    ensures
        cached - evictions(cached as int) + 1 <= MAX_CACHED_SAMPLES,
{
}

} // verus!
