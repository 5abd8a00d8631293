//! MIDI note sequencing: the sorted playlist and the playback cursor that
//! turns clock ticks into note-on / note-off events for the channel synths.

use vstd::prelude::*;
use crate::channels::{NUM_CHANNELS, is_channel};

verus! {

broadcast use {vstd::seq_lib::group_seq_properties, vstd::seq_lib::group_seq_lib_default, vstd::seq::group_seq_axioms};

/// One note of the playlist. Times are in clock ticks (960 per beat). The
/// velocity is carried through unchanged as the bit pattern of the 32-bit
/// float the user interface sent.
#[derive(Debug, Clone, Copy, PartialEq, Eq, Structural)]
pub struct NoteEvent {
    pub channel_id: usize,
    pub pitch: u8,
    pub velocity_bits: u32,
    pub start_tick: u64,
    pub duration_ticks: u64,
}

impl NoteEvent {
    /// The tick at which the note stops sounding.
    pub open spec fn end_tick(self) -> int {
        self.start_tick + self.duration_ticks
    }

    /// The end tick is representable as a tick count.
    pub open spec fn ends_in_range(self) -> bool {
        self.end_tick() <= u64::MAX
    }
}

/// The predicate "starts at tick `t`".
pub open spec fn starts_at(t: u64) -> spec_fn(NoteEvent) -> bool {
    |n: NoteEvent| n.start_tick == t
}

/// Notes in non-decreasing order of their start tick.
pub open spec fn sorted_by_start(s: Seq<NoteEvent>) -> bool {
    forall|i: int, j: int| 0 <= i <= j < s.len() ==> s[i].start_tick <= s[j].start_tick
}

/// `out` is `inp` stably sorted by start tick: sorted, of the same length,
/// and for every start tick the notes starting then appear in `out` in the
/// same order as in `inp`.
pub open spec fn is_stable_sort_by_start(out: Seq<NoteEvent>, inp: Seq<NoteEvent>) -> bool {
    &&& out.len() == inp.len()
    &&& sorted_by_start(out)
    &&& forall|t: u64| #[trigger] out.filter(starts_at(t)) == inp.filter(starts_at(t))
}

/// A filter whose predicate holds for no element gives the empty sequence.
proof fn lemma_filter_none<A>(s: Seq<A>, pred: spec_fn(A) -> bool)
    requires
        forall|k: int| 0 <= k < s.len() ==> !pred(#[trigger] s[k]),
    ensures
        s.filter(pred) =~= Seq::<A>::empty(),
{
    if s.filter(pred).len() > 0 {
        let e = s.filter(pred)[0];
        s.lemma_filter_pred(pred, 0);
        assert(s.filter(pred).contains(e));
        s.lemma_filter_contains_rev(pred, e);
        let k = choose|k: int| 0 <= k < s.len() && s[k] == e;
        assert(!pred(s[k]));
    }
}

/// Filtering a one-element sequence.
proof fn lemma_filter_single<A>(x: A, pred: spec_fn(A) -> bool)
    ensures
        seq![x].filter(pred) == (if pred(x) { seq![x] } else { Seq::<A>::empty() }),
{
    Seq::<A>::empty().lemma_filter_push(x, pred);
    assert(Seq::<A>::empty().push(x) =~= seq![x]);
    lemma_filter_none(Seq::<A>::empty(), pred);
}

/// Inserting `x` into a sorted sequence after every note that does not start
/// later than `x` keeps it sorted and appends `x` to the notes starting at its
/// tick, leaving every other start tick untouched.
proof fn lemma_insert_after_peers(s: Seq<NoteEvent>, p: int, x: NoteEvent)
    requires
        sorted_by_start(s),
        0 <= p <= s.len(),
        forall|k: int| 0 <= k < p ==> #[trigger] s[k].start_tick <= x.start_tick,
        forall|k: int| p <= k < s.len() ==> #[trigger] s[k].start_tick > x.start_tick,
    ensures
        sorted_by_start(s.insert(p, x)),
        forall|t: u64| #[trigger] s.insert(p, x).filter(starts_at(t)) == s.filter(starts_at(t)) + seq![x].filter(starts_at(t)),
{
    let ins = s.insert(p, x);
    let a = s.take(p);
    let b = s.skip(p);
    assert(ins =~= a + seq![x] + b);
    assert(s =~= a + b);
    assert forall|i: int, j: int| 0 <= i <= j < ins.len() implies ins[i].start_tick <= ins[j].start_tick by {
        if i < p {
            if j < p {
                assert(ins[i] == s[i] && ins[j] == s[j]);
            } else if j > p {
                assert(ins[i] == s[i] && ins[j] == s[j - 1]);
            }
        } else if i > p {
            assert(ins[i] == s[i - 1] && ins[j] == s[j - 1]);
        } else if j > p {
            assert(ins[j] == s[j - 1]);
        }
    }
    assert forall|t: u64| #[trigger] ins.filter(starts_at(t)) == s.filter(starts_at(t)) + seq![x].filter(starts_at(t)) by {
        let pr = starts_at(t);
        Seq::filter_distributes_over_add(a + seq![x], b, pr);
        Seq::filter_distributes_over_add(a, seq![x], pr);
        Seq::filter_distributes_over_add(a, b, pr);
        lemma_filter_single(x, pr);
        if t == x.start_tick {
            assert forall|k: int| 0 <= k < b.len() implies !pr(#[trigger] b[k]) by {
                assert(b[k] == s[p + k]);
            }
            lemma_filter_none(b, pr);
            assert(ins.filter(pr) =~= a.filter(pr) + seq![x]);
            assert(s.filter(pr) =~= a.filter(pr));
        } else {
            assert(ins.filter(pr) =~= a.filter(pr) + b.filter(pr));
        }
    }
}

/// The notes stably sorted by start tick (insertion sort: each note goes after
/// every note that does not start later than it).
pub fn sort_by_start(notes: &Vec<NoteEvent>) -> (r: Vec<NoteEvent>)
    ensures
        is_stable_sort_by_start(r@, notes@),
{
    let mut out: Vec<NoteEvent> = Vec::new();
    let mut i: usize = 0;
    while i < notes.len()
        invariant
            i <= notes.len(),
            out.len() == i,
            sorted_by_start(out@),
            forall|t: u64| #[trigger] out@.filter(starts_at(t)) == notes@.take(i as int).filter(starts_at(t)),
        decreases notes.len() - i,
    {
        let x = notes[i];
        let mut p: usize = out.len();
        while p > 0 && out[p - 1].start_tick > x.start_tick
            invariant
                p <= out.len(),
                forall|k: int| p <= k < out.len() ==> #[trigger] out@[k].start_tick > x.start_tick,
            decreases p,
        {
            p = p - 1;
        }
        proof {
            assert forall|k: int| 0 <= k < p implies #[trigger] out@[k].start_tick <= x.start_tick by {
                assert(out@[k].start_tick <= out@[p - 1].start_tick);
            }
            lemma_insert_after_peers(out@, p as int, x);
            assert(notes@.take(i + 1) =~= notes@.take(i as int) + seq![x]);
            assert forall|t: u64| #[trigger] notes@.take(i + 1).filter(starts_at(t)) == notes@.take(i as int).filter(starts_at(t)) + seq![x].filter(starts_at(t)) by {
                Seq::filter_distributes_over_add(notes@.take(i as int), seq![x], starts_at(t));
            }
        }
        out.insert(p, x);
        i = i + 1;
    }
    proof {
        assert(notes@.take(notes.len() as int) =~= notes@);
    }
    out
}


/// The notes of the song, kept sorted by start tick.
pub struct MidiPlaylist {
    pub notes: Vec<NoteEvent>,
}

impl MidiPlaylist {
    /// An empty playlist.
    pub fn new() -> (r: MidiPlaylist)
        ensures
            r.notes@ == Seq::<NoteEvent>::empty(),
    {
        MidiPlaylist { notes: Vec::new() }
    }

    /// Replaces the notes, sorting them stably by start tick.
    pub fn update(&mut self, notes: Vec<NoteEvent>)
        ensures
            is_stable_sort_by_start(final(self).notes@, notes@),
    {
        self.notes = sort_by_start(&notes);
    }
}

/// What the sequencer asks of the synthesizer on a channel.
#[derive(Debug, Clone, Copy, PartialEq, Eq, Structural)]
pub enum SynthEvent {
    NoteOn { channel_id: usize, pitch: u8, velocity_bits: u32 },
    NoteOff { channel_id: usize, pitch: u8 },
}

/// A sounding note together with the tick at which it ends.
pub type ActiveNote = (NoteEvent, u64);

/// The note-on event that starts `n`.
pub open spec fn note_on_event(n: NoteEvent) -> SynthEvent {
    SynthEvent::NoteOn { channel_id: n.channel_id, pitch: n.pitch, velocity_bits: n.velocity_bits }
}

/// The note-off event that ends the sounding note `a`.
pub open spec fn note_off_event(a: ActiveNote) -> SynthEvent {
    SynthEvent::NoteOff { channel_id: a.0.channel_id, pitch: a.0.pitch }
}

/// The sounding-note record of a note that has just started.
pub open spec fn with_end(n: NoteEvent) -> ActiveNote {
    (n, n.end_tick() as u64)
}

/// Notes on a channel that has a synthesizer.
pub open spec fn voiced() -> spec_fn(NoteEvent) -> bool {
    |n: NoteEvent| is_channel(n.channel_id as int)
}

/// Sounding notes that are still sounding at `tick`.
pub open spec fn sounding_at(tick: u64) -> spec_fn(ActiveNote) -> bool {
    |a: ActiveNote| a.1 > tick
}

/// Sounding notes whose end has come at `tick`, on a channel with a synthesizer.
pub open spec fn ending_voiced_at(tick: u64) -> spec_fn(ActiveNote) -> bool {
    |a: ActiveNote| a.1 <= tick && is_channel(a.0.channel_id as int)
}

/// The index of the first note at or after `from` that is not yet due at
/// `tick` (the length of the playlist if all are due).
pub open spec fn due_until(notes: Seq<NoteEvent>, from: int, tick: u64) -> int
    decreases notes.len() - from,
{
    if 0 <= from < notes.len() && notes[from].start_tick <= tick {
        due_until(notes, from + 1, tick)
    } else {
        from
    }
}

/// Abstract state of the sequencer.
pub struct SequencerView {
    pub notes: Seq<NoteEvent>,
    pub next: int,
    pub active: Seq<ActiveNote>,
}

impl SequencerView {
    /// The notes that a step at `tick` starts.
    pub open spec fn started(self, tick: u64) -> Seq<NoteEvent> {
        self.notes.subrange(self.next, due_until(self.notes, self.next, tick))
    }

    /// The sounding notes after the due notes are started, before any ends.
    pub open spec fn pending(self, tick: u64) -> Seq<ActiveNote> {
        self.active + self.started(tick).map_values(|n: NoteEvent| with_end(n))
    }

    /// The state after a step at `tick`.
    pub open spec fn stepped(self, tick: u64) -> SequencerView {
        SequencerView {
            notes: self.notes,
            next: due_until(self.notes, self.next, tick),
            active: self.pending(tick).filter(sounding_at(tick)),
        }
    }

    /// The events a step at `tick` sends: first the note-ons of the notes it
    /// starts, in playlist order, then the note-offs of the notes that end,
    /// in the order they were started; notes on a channel without a
    /// synthesizer send nothing.
    pub open spec fn step_events(self, tick: u64) -> Seq<SynthEvent> {
        self.started(tick).filter(voiced()).map_values(|n: NoteEvent| note_on_event(n))
            + self.pending(tick).filter(ending_voiced_at(tick)).map_values(|a: ActiveNote| note_off_event(a))
    }

    /// Well-formedness: the cursor lies within the playlist, the playlist is
    /// sorted by start tick and every note's end tick is representable.
    pub open spec fn wf(self) -> bool {
        &&& 0 <= self.next <= self.notes.len()
        &&& sorted_by_start(self.notes)
        &&& forall|i: int| 0 <= i < self.notes.len() ==> (#[trigger] self.notes[i]).ends_in_range()
    }
}

/// The playback cursor over the playlist: which notes have been started and
/// which are still sounding.
pub struct Sequencer {
    pub playlist: MidiPlaylist,
    pub next_note_index: usize,
    pub active_notes: Vec<ActiveNote>,
}

impl View for Sequencer {
    type V = SequencerView;

    open spec fn view(&self) -> SequencerView {
        SequencerView {
            notes: self.playlist.notes@,
            next: self.next_note_index as int,
            active: self.active_notes@,
        }
    }
}

/// `due_until` stops at an index whose note is not due.
proof fn lemma_due_until_stop(notes: Seq<NoteEvent>, from: int, tick: u64)
    requires
        0 <= from <= notes.len(),
        from == notes.len() || notes[from].start_tick > tick,
    ensures
        due_until(notes, from, tick) == from,
{
}

/// `due_until` skips a due note.
proof fn lemma_due_until_skip(notes: Seq<NoteEvent>, from: int, tick: u64)
    requires
        0 <= from < notes.len(),
        notes[from].start_tick <= tick,
    ensures
        due_until(notes, from, tick) == due_until(notes, from + 1, tick),
{
}

/// `due_until` lies between `from` and the end, and every note it skips is due.
proof fn lemma_due_until_bounds(notes: Seq<NoteEvent>, from: int, tick: u64)
    requires
        0 <= from <= notes.len(),
    ensures
        from <= due_until(notes, from, tick) <= notes.len(),
        forall|k: int| from <= k < due_until(notes, from, tick) ==> (#[trigger] notes[k]).start_tick <= tick,
        due_until(notes, from, tick) == notes.len() || notes[due_until(notes, from, tick)].start_tick > tick,
    decreases notes.len() - from,
{
    if from < notes.len() && notes[from].start_tick <= tick {
        lemma_due_until_bounds(notes, from + 1, tick);
    }
}

impl Sequencer {
    /// An empty playlist with the cursor at its start.
    pub fn new() -> (r: Sequencer)
        ensures
            r@.notes == Seq::<NoteEvent>::empty(),
            r@.next == 0,
            r@.active == Seq::<ActiveNote>::empty(),
            r@.wf(),
    {
        Sequencer { playlist: MidiPlaylist::new(), next_note_index: 0, active_notes: Vec::new() }
    }

    /// Replaces the song's notes (sorted stably by start tick) and rewinds the
    /// cursor: no note has been started and none is sounding.
    pub fn replace_notes(&mut self, notes: Vec<NoteEvent>)
        requires
            forall|i: int| 0 <= i < notes@.len() ==> (#[trigger] notes@[i]).ends_in_range(),
        ensures
            is_stable_sort_by_start(final(self)@.notes, notes@),
            final(self)@.next == 0,
            final(self)@.active == Seq::<ActiveNote>::empty(),
            final(self)@.wf(),
    {
        self.playlist.update(notes);
        self.next_note_index = 0;
        self.active_notes = Vec::new();
        proof {
            let out = self.playlist.notes@;
            assert forall|i: int| 0 <= i < out.len() implies (#[trigger] out[i]).ends_in_range() by {
                let t = out[i].start_tick;
                out.lemma_filter_contains(starts_at(t), i);
                notes@.lemma_filter_contains_rev(starts_at(t), out[i]);
            }
        }
    }

    /// Rewinds the cursor to the start of the song and forgets the sounding
    /// notes; the playlist is kept.
    pub fn rewind(&mut self)
        ensures
            final(self)@.notes == old(self)@.notes,
            final(self)@.next == 0,
            final(self)@.active == Seq::<ActiveNote>::empty(),
            old(self)@.wf() ==> final(self)@.wf(),
    {
        self.next_note_index = 0;
        self.active_notes = Vec::new();
    }

    /// Advances playback to clock tick `tick`: starts every note that is due
    /// (in playlist order), then ends every sounding note whose end tick has
    /// come. Returns the events for the channel synthesizers.
    pub fn step(&mut self, tick: u64) -> (events: Vec<SynthEvent>)
        requires
            old(self)@.wf(),
        ensures
            final(self)@ == old(self)@.stepped(tick),
            events@ == old(self)@.step_events(tick),
            final(self)@.wf(),
    {
        let ghost s0 = self@;
        let ghost n0 = self.next_note_index as int;
        let ghost notes = self.playlist.notes@;
        let mut events: Vec<SynthEvent> = Vec::new();
        let mut scanning = true;
        while scanning && self.next_note_index < self.playlist.notes.len()
            invariant
                self.playlist.notes@ == notes,
                s0.notes == notes,
                s0.wf(),
                n0 == s0.next,
                n0 <= self.next_note_index <= notes.len(),
                due_until(notes, self.next_note_index as int, tick) == due_until(notes, n0, tick),
                !scanning ==> (self.next_note_index < notes.len()
                    && notes[self.next_note_index as int].start_tick > tick),
                self.active_notes@ == s0.active + notes.subrange(n0, self.next_note_index as int).map_values(|n: NoteEvent| with_end(n)),
                events@ == notes.subrange(n0, self.next_note_index as int).filter(voiced()).map_values(|n: NoteEvent| note_on_event(n)),
            decreases notes.len() - self.next_note_index, (if scanning { 1int } else { 0int }),
        {
            let note = self.playlist.notes[self.next_note_index];
            if note.start_tick <= tick {
                let ghost k = self.next_note_index as int;
                let ghost before = notes.subrange(n0, k);
                proof {
                    assert(notes[k].ends_in_range());
                    lemma_due_until_skip(notes, k, tick);
                    assert(notes.subrange(n0, k + 1) =~= before.push(note));
                    before.lemma_filter_push(note, voiced());
                    assert(before.push(note).map_values(|n: NoteEvent| with_end(n)) =~= before.map_values(|n: NoteEvent| with_end(n)).push(with_end(note)));
                    assert(before.filter(voiced()).push(note).map_values(|n: NoteEvent| note_on_event(n))
                        =~= before.filter(voiced()).map_values(|n: NoteEvent| note_on_event(n)).push(note_on_event(note)));
                }
                if note.channel_id < NUM_CHANNELS {
                    events.push(SynthEvent::NoteOn { channel_id: note.channel_id, pitch: note.pitch, velocity_bits: note.velocity_bits });
                }
                self.active_notes.push((note, note.start_tick + note.duration_ticks));
                self.next_note_index = self.next_note_index + 1;
                proof {
                    assert(self.active_notes@ =~= s0.active + notes.subrange(n0, self.next_note_index as int).map_values(|n: NoteEvent| with_end(n)));
                }
            } else {
                scanning = false;
            }
        }
        proof {
            lemma_due_until_stop(notes, self.next_note_index as int, tick);
            assert(s0.started(tick) == notes.subrange(n0, self.next_note_index as int));
        }
        let ghost ons = events@;
        let ghost pending = self.active_notes@;
        assert(pending == s0.pending(tick));
        let mut kept: Vec<ActiveNote> = Vec::new();
        let mut j: usize = 0;
        while j < self.active_notes.len()
            invariant
                self.active_notes@ == pending,
                j <= pending.len(),
                kept@ == pending.take(j as int).filter(sounding_at(tick)),
                events@ == ons + pending.take(j as int).filter(ending_voiced_at(tick)).map_values(|a: ActiveNote| note_off_event(a)),
            decreases pending.len() - j,
        {
            let a = self.active_notes[j];
            proof {
                let before = pending.take(j as int);
                assert(pending.take(j + 1) =~= before.push(a));
                before.lemma_filter_push(a, sounding_at(tick));
                before.lemma_filter_push(a, ending_voiced_at(tick));
                assert(before.filter(ending_voiced_at(tick)).push(a).map_values(|a: ActiveNote| note_off_event(a))
                    =~= before.filter(ending_voiced_at(tick)).map_values(|a: ActiveNote| note_off_event(a)).push(note_off_event(a)));
            }
            if a.1 <= tick {
                if a.0.channel_id < NUM_CHANNELS {
                    events.push(SynthEvent::NoteOff { channel_id: a.0.channel_id, pitch: a.0.pitch });
                    proof {
                        assert(events@ =~= ons + pending.take(j + 1).filter(ending_voiced_at(tick)).map_values(|a: ActiveNote| note_off_event(a)));
                    }
                }
            } else {
                kept.push(a);
            }
            j = j + 1;
        }
        proof {
            assert(pending.take(pending.len() as int) =~= pending);
        }
        self.active_notes = kept;
        events
    }
}


/// No due note is skipped: after a step at `tick`, every note of the
/// playlist that starts at or before `tick` has been started.
pub proof fn law_due_notes_started(s: SequencerView, tick: u64)
    requires
        s.wf(),
    ensures
        forall|i: int| 0 <= i < s.notes.len() && (#[trigger] s.notes[i]).start_tick <= tick
            ==> i < s.stepped(tick).next,
{
    lemma_due_until_bounds(s.notes, s.next, tick);
    let n1 = due_until(s.notes, s.next, tick);
    assert forall|i: int| 0 <= i < s.notes.len() && (#[trigger] s.notes[i]).start_tick <= tick implies i < n1 by {
        if i >= n1 {
            assert(s.notes[n1].start_tick <= s.notes[i].start_tick);
        }
    }
}

/// The state after steps at each tick of `ticks` in turn.
pub open spec fn run(s: SequencerView, ticks: Seq<u64>) -> SequencerView
    decreases ticks.len(),
{
    if ticks.len() == 0 {
        s
    } else {
        run(s, ticks.drop_last()).stepped(ticks.last())
    }
}

/// The notes started over steps at each tick of `ticks`, in the order started.
pub open spec fn run_started(s: SequencerView, ticks: Seq<u64>) -> Seq<NoteEvent>
    decreases ticks.len(),
{
    if ticks.len() == 0 {
        Seq::empty()
    } else {
        run_started(s, ticks.drop_last()) + run(s, ticks.drop_last()).started(ticks.last())
    }
}

/// Notes start in playlist order and each at most once: over any run of
/// steps, the notes started are exactly the stretch of the playlist between
/// the cursor before and after the run; and no note due by the last step is
/// left unstarted.
pub proof fn law_each_note_started_once_in_order(s: SequencerView, ticks: Seq<u64>)
    requires
        s.wf(),
    ensures
        run(s, ticks).notes == s.notes,
        run(s, ticks).wf(),
        s.next <= run(s, ticks).next,
        run_started(s, ticks) == s.notes.subrange(s.next, run(s, ticks).next),
        ticks.len() > 0 ==> forall|i: int| 0 <= i < s.notes.len() && (#[trigger] s.notes[i]).start_tick <= ticks.last()
            ==> i < run(s, ticks).next,
    decreases ticks.len(),
{
    if ticks.len() > 0 {
        let ys = ticks.drop_last();
        law_each_note_started_once_in_order(s, ys);
        let mid = run(s, ys);
        lemma_due_until_bounds(mid.notes, mid.next, ticks.last());
        law_due_notes_started(mid, ticks.last());
        assert(run(s, ticks) == mid.stepped(ticks.last()));
        assert(run_started(s, ticks) == run_started(s, ys) + mid.started(ticks.last()));
        assert(run_started(s, ticks) =~= s.notes.subrange(s.next, run(s, ticks).next));
    }
}

/// A step never leaves a finished note sounding: every note still sounding
/// after a step at `tick` ends after `tick`.
pub proof fn law_sounding_notes_pending(s: SequencerView, tick: u64)
    ensures
        forall|k: int| 0 <= k < s.stepped(tick).active.len() ==> (#[trigger] s.stepped(tick).active[k]).1 > tick,
{
    let p = s.pending(tick);
    assert forall|k: int| 0 <= k < s.stepped(tick).active.len() implies (#[trigger] s.stepped(tick).active[k]).1 > tick by {
        p.lemma_filter_pred(sounding_at(tick), k);
    }
}

/// Every sounding note is let go once its end has come: a step at `tick`
/// drops each note whose end tick is not after `tick` and, when its channel
/// has a synthesizer, sends its note-off.
pub proof fn law_ended_notes_released(s: SequencerView, tick: u64, k: int)
    requires
        0 <= k < s.active.len(),
        s.active[k].1 <= tick,
    ensures
        !s.stepped(tick).active.contains(s.active[k]),
        is_channel(s.active[k].0.channel_id as int) ==> s.step_events(tick).contains(note_off_event(s.active[k])),
{
    let p = s.pending(tick);
    let a = s.active[k];
    assert(p[k] == a);
    if p.filter(sounding_at(tick)).contains(a) {
        let j = choose|j: int| 0 <= j < p.filter(sounding_at(tick)).len() && p.filter(sounding_at(tick))[j] == a;
        p.lemma_filter_pred(sounding_at(tick), j);
    }
    if is_channel(a.0.channel_id as int) {
        p.lemma_filter_contains(ending_voiced_at(tick), k);
        let offs = p.filter(ending_voiced_at(tick));
        let j = choose|j: int| 0 <= j < offs.len() && offs[j] == a;
        let ons = s.started(tick).filter(voiced()).map_values(|n: NoteEvent| note_on_event(n));
        let evs = s.step_events(tick);
        assert(evs[ons.len() + j] == note_off_event(a));
    }
}

/// A started note sounds until its own end: every note that a step at
/// `tick` starts is recorded as sounding until its start tick plus its
/// duration, and is still sounding after the step when that end lies after
/// `tick`.
pub proof fn law_started_note_sounds_until_end(s: SequencerView, tick: u64)
    requires
        s.wf(),
    ensures
        forall|i: int| s.next <= i < s.stepped(tick).next ==>
            s.pending(tick).contains((#[trigger] s.notes[i], (s.notes[i].start_tick + s.notes[i].duration_ticks) as u64)),
        forall|i: int| s.next <= i < s.stepped(tick).next
            && tick < (#[trigger] s.notes[i]).start_tick + s.notes[i].duration_ticks ==>
            s.stepped(tick).active.contains((s.notes[i], (s.notes[i].start_tick + s.notes[i].duration_ticks) as u64)),
{
    lemma_due_until_bounds(s.notes, s.next, tick);
    let p = s.pending(tick);
    assert forall|i: int| s.next <= i < s.stepped(tick).next implies
        p.contains((#[trigger] s.notes[i], (s.notes[i].start_tick + s.notes[i].duration_ticks) as u64))
        && (tick < s.notes[i].start_tick + s.notes[i].duration_ticks ==>
            s.stepped(tick).active.contains((s.notes[i], (s.notes[i].start_tick + s.notes[i].duration_ticks) as u64))) by {
        let k = s.active.len() + (i - s.next);
        assert(s.started(tick)[i - s.next] == s.notes[i]);
        assert(p[k] == with_end(s.notes[i]));
        assert(p.contains(p[k]));
        if tick < s.notes[i].start_tick + s.notes[i].duration_ticks {
            p.lemma_filter_contains(sounding_at(tick), k);
        }
    }
}

/// No note is released before its end: when every sounding note and every
/// note a step at `tick` starts ends after `tick`, the step sends note-ons
/// only.
pub proof fn law_no_release_before_end(s: SequencerView, tick: u64)
    requires
        s.wf(),
        forall|k: int| 0 <= k < s.active.len() ==> (#[trigger] s.active[k]).1 > tick,
        forall|i: int| s.next <= i < s.stepped(tick).next
            ==> tick < (#[trigger] s.notes[i]).start_tick + s.notes[i].duration_ticks,
    ensures
        forall|j: int| 0 <= j < s.step_events(tick).len() ==> (#[trigger] s.step_events(tick)[j]) is NoteOn,
{
    lemma_due_until_bounds(s.notes, s.next, tick);
    let p = s.pending(tick);
    assert forall|k: int| 0 <= k < p.len() implies !ending_voiced_at(tick)(#[trigger] p[k]) by {
        if k >= s.active.len() {
            let i = s.next + (k - s.active.len());
            assert(s.started(tick)[k - s.active.len()] == s.notes[i]);
            assert(p[k] == with_end(s.notes[i]));
        }
    }
    lemma_filter_none(p, ending_voiced_at(tick));
    let ons = s.started(tick).filter(voiced()).map_values(|n: NoteEvent| note_on_event(n));
    assert(s.step_events(tick) =~= ons);
}

/// Each note a step starts on a channel with a synthesizer sends its note-on,
/// with the note's own channel, pitch and velocity; no event of a step goes to
/// a channel without a synthesizer.
pub proof fn law_started_notes_sound_on_their_channel(s: SequencerView, tick: u64)
    requires
        s.wf(),
    ensures
        forall|i: int| s.next <= i < s.stepped(tick).next && (#[trigger] s.notes[i]).channel_id < NUM_CHANNELS ==>
            s.step_events(tick).contains(SynthEvent::NoteOn {
                channel_id: s.notes[i].channel_id,
                pitch: s.notes[i].pitch,
                velocity_bits: s.notes[i].velocity_bits,
            }),
        forall|j: int| 0 <= j < s.step_events(tick).len() ==> match #[trigger] s.step_events(tick)[j] {
            SynthEvent::NoteOn { channel_id, .. } => channel_id < NUM_CHANNELS,
            SynthEvent::NoteOff { channel_id, .. } => channel_id < NUM_CHANNELS,
        },
{
    lemma_due_until_bounds(s.notes, s.next, tick);
    let st = s.started(tick);
    let on = st.filter(voiced());
    let ons = on.map_values(|n: NoteEvent| note_on_event(n));
    let p = s.pending(tick);
    let off = p.filter(ending_voiced_at(tick));
    let offs = off.map_values(|a: ActiveNote| note_off_event(a));
    assert(s.step_events(tick) == ons + offs);
    assert forall|i: int| s.next <= i < s.stepped(tick).next && (#[trigger] s.notes[i]).channel_id < NUM_CHANNELS implies
        s.step_events(tick).contains(SynthEvent::NoteOn {
            channel_id: s.notes[i].channel_id,
            pitch: s.notes[i].pitch,
            velocity_bits: s.notes[i].velocity_bits,
        }) by {
        assert(st[i - s.next] == s.notes[i]);
        st.lemma_filter_contains(voiced(), i - s.next);
        let j = choose|j: int| 0 <= j < on.len() && on[j] == s.notes[i];
        assert(s.step_events(tick)[j] == note_on_event(s.notes[i]));
    }
    assert forall|j: int| 0 <= j < s.step_events(tick).len() implies match #[trigger] s.step_events(tick)[j] {
        SynthEvent::NoteOn { channel_id, .. } => channel_id < NUM_CHANNELS,
        SynthEvent::NoteOff { channel_id, .. } => channel_id < NUM_CHANNELS,
    } by {
        if j < ons.len() {
            st.lemma_filter_pred(voiced(), j);
        } else {
            p.lemma_filter_pred(ending_voiced_at(tick), j - ons.len());
        }
    }
}

} // verus!
