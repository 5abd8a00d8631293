//! Stage machine of the ADSR envelope generator.
//!
//! The level arithmetic of the envelope works on floating-point samples and
//! lives with the audio code; this module decides which stage the envelope is
//! in and when it moves on.

use vstd::prelude::*;

verus! {

/// The stage an ADSR envelope is in.
#[derive(Debug, Clone, Copy, PartialEq, Eq, Structural)]
pub enum EnvelopeStage {
    Idle,
    Attack,
    Decay,
    Sustain,
    Release,
}

/// The stage that follows `stage` once the current segment has reached its
/// target level (`true`) or not (`false`).
pub open spec fn stage_after_sample(stage: EnvelopeStage, target_reached: bool) -> EnvelopeStage {
    if !target_reached {
        stage
    } else {
        match stage {
            EnvelopeStage::Attack => EnvelopeStage::Decay,
            EnvelopeStage::Decay => EnvelopeStage::Sustain,
            EnvelopeStage::Release => EnvelopeStage::Idle,
            other => other,
        }
    }
}

impl EnvelopeStage {
    /// Key pressed: the envelope (re)starts its attack from any stage.
    pub fn on_trigger_on(self) -> (r: EnvelopeStage)
        ensures
            r == EnvelopeStage::Attack,
    {
        EnvelopeStage::Attack
    }

    /// Key released: a sounding envelope enters its release; an idle one stays idle.
    pub fn on_trigger_off(self) -> (r: EnvelopeStage)
        ensures
            r == (if self == EnvelopeStage::Idle { EnvelopeStage::Idle } else { EnvelopeStage::Release }),
    {
        if self == EnvelopeStage::Idle {
            EnvelopeStage::Idle
        } else {
            EnvelopeStage::Release
        }
    }

    /// Whether the envelope is silent and finished.
    pub fn is_idle(self) -> (r: bool)
        ensures
            r == (self == EnvelopeStage::Idle),
    {
        self == EnvelopeStage::Idle
    }

    /// The stage after one sample, given whether the running segment reached
    /// its target level in that sample (peak for the attack, sustain level for
    /// the decay, silence for the release).
    pub fn after_sample(self, target_reached: bool) -> (r: EnvelopeStage)
        ensures
            r == stage_after_sample(self, target_reached),
            !target_reached ==> r == self,
    {
        if !target_reached {
            return self;
        }
        match self {
            EnvelopeStage::Attack => EnvelopeStage::Decay,
            EnvelopeStage::Decay => EnvelopeStage::Sustain,
            EnvelopeStage::Release => EnvelopeStage::Idle,
            other => other,
        }
    }
}

/// What a trigger input asks of an envelope.
#[derive(Debug, Clone, Copy, PartialEq, Eq, Structural)]
pub enum TriggerEdge {
    /// The trigger went high: start the envelope.
    Rise,
    /// The trigger went low: release the envelope.
    Fall,
}

/// Edge detection on a trigger input: `open` is whether the trigger was
/// high before, `high` whether it is now. Returns whether it is high now and
/// the edge crossed, if any; a trigger held at one level crosses no edge.
pub fn trigger_edge(open: bool, high: bool) -> (r: (bool, Option<TriggerEdge>))
    ensures
        r.0 == high,
        r.1 == (if high && !open {
            Some(TriggerEdge::Rise)
        } else if !high && open {
            Some(TriggerEdge::Fall)
        } else {
            None
        }),
{
    if high && !open {
        (true, Some(TriggerEdge::Rise))
    } else if !high && open {
        (false, Some(TriggerEdge::Fall))
    } else {
        (open, None)
    }
}

/// The stage that follows `stage` in the course of one note.
pub open spec fn successor(stage: EnvelopeStage) -> EnvelopeStage {
    match stage {
        EnvelopeStage::Attack => EnvelopeStage::Decay,
        EnvelopeStage::Decay => EnvelopeStage::Sustain,
        EnvelopeStage::Release => EnvelopeStage::Idle,
        other => other,
    }
}

/// Between triggers an envelope only ever moves on to the next stage of its
/// course (attack, decay, sustain; release, idle): an idle envelope stays
/// silent and a sustaining one holds until the key is released.
pub proof fn law_stages_only_advance(stage: EnvelopeStage, target_reached: bool)
    ensures
        stage_after_sample(stage, target_reached) == stage
            || stage_after_sample(stage, target_reached) == successor(stage),
        stage_after_sample(EnvelopeStage::Idle, target_reached) == EnvelopeStage::Idle,
        stage_after_sample(EnvelopeStage::Sustain, target_reached) == EnvelopeStage::Sustain,
{
}

/// A segment that has not reached its target keeps its stage: the attack
/// keeps rising, the decay keeps falling until the sustain level and the
/// release keeps fading until silence; the stage moves on only in the sample
/// that reaches the target, attack to decay, decay to sustain, release to idle.
pub proof fn law_unfinished_segment_keeps_stage(stage: EnvelopeStage)
    ensures
        stage_after_sample(stage, false) == stage,
        stage_after_sample(EnvelopeStage::Attack, true) == EnvelopeStage::Decay,
        stage_after_sample(EnvelopeStage::Decay, true) == EnvelopeStage::Sustain,
        stage_after_sample(EnvelopeStage::Release, true) == EnvelopeStage::Idle,
{
}

} // verus!
