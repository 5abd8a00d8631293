//! Whole-tick position and run state of the master clock (960 ticks per
//! quarter note). The fractional tick accumulation from tempo and sample
//! rate is floating-point work done with the audio code; it hands this clock
//! the whole ticks it has gathered.

use vstd::prelude::*;

verus! {

/// Ticks per quarter note.
pub const PPQ: u64 = 960;

/// Position (in ticks) and run state of the transport.
#[derive(Debug, Clone, Copy, PartialEq, Eq, Structural)]
pub struct TransportClock {
    pub current_tick: u64,
    pub is_playing: bool,
}

impl TransportClock {
    /// A stopped clock at tick 0.
    pub fn new() -> (r: TransportClock)
        ensures
            r.current_tick == 0,
            !r.is_playing,
    {
        TransportClock { current_tick: 0, is_playing: false }
    }

    /// Starts (or resumes) playback from the current position.
    pub fn start(&mut self)
        ensures
            final(self).is_playing,
            final(self).current_tick == old(self).current_tick,
    {
        self.is_playing = true;
    }

    /// Pauses playback; the position is kept.
    pub fn stop(&mut self)
        ensures
            !final(self).is_playing,
            final(self).current_tick == old(self).current_tick,
    {
        self.is_playing = false;
    }

    /// Rewinds to tick 0 without changing the run state.
    pub fn reset(&mut self)
        ensures
            final(self).current_tick == 0,
            final(self).is_playing == old(self).is_playing,
    {
        self.current_tick = 0;
    }

    /// Moves a running clock forward by `whole_ticks` and returns the new
    /// position when it changed; a stopped clock, or a sample that completed
    /// no whole tick, leaves the position as it is and returns `None`.
    pub fn advance(&mut self, whole_ticks: u64) -> (r: Option<u64>)
        requires
            old(self).is_playing ==> old(self).current_tick + whole_ticks <= u64::MAX,
        ensures
            final(self).is_playing == old(self).is_playing,
            old(self).is_playing && whole_ticks > 0 ==> {
                &&& final(self).current_tick == old(self).current_tick + whole_ticks
                &&& r == Some(final(self).current_tick)
            },
            !(old(self).is_playing && whole_ticks > 0) ==> {
                &&& final(self).current_tick == old(self).current_tick
                &&& r == None::<u64>
            },
    {
        if !self.is_playing || whole_ticks == 0 {
            return None;
        }
        self.current_tick = self.current_tick + whole_ticks;
        Some(self.current_tick)
    }
}

} // verus!
