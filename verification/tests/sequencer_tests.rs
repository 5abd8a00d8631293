use frost_core::sequencer::{sort_by_start, MidiPlaylist, NoteEvent, Sequencer, SynthEvent};

fn note(channel_id: usize, pitch: u8, start_tick: u64, duration_ticks: u64) -> NoteEvent {
    NoteEvent { channel_id, pitch, velocity_bits: 0.5f32.to_bits(), start_tick, duration_ticks }
}

#[test]
fn sort_is_stable_by_start_tick() {
    let notes = vec![note(0, 60, 960, 10), note(1, 61, 0, 10), note(2, 62, 960, 10), note(3, 63, 480, 10)];
    let sorted = sort_by_start(&notes);
    let pitches: Vec<u8> = sorted.iter().map(|n| n.pitch).collect();
    assert_eq!(pitches, vec![61, 63, 60, 62]);
}

#[test]
fn playlist_update_sorts() {
    let mut p = MidiPlaylist::new();
    assert!(p.notes.is_empty());
    p.update(vec![note(0, 70, 5, 1), note(0, 71, 2, 1)]);
    assert_eq!(p.notes[0].pitch, 71);
    assert_eq!(p.notes[1].pitch, 70);
}

#[test]
fn step_starts_due_notes_and_releases_ended_ones() {
    let mut s = Sequencer::new();
    s.replace_notes(vec![note(0, 60, 0, 100), note(1, 64, 50, 10), note(2, 67, 200, 10)]);
    let ev = s.step(0);
    assert_eq!(ev, vec![SynthEvent::NoteOn { channel_id: 0, pitch: 60, velocity_bits: 0.5f32.to_bits() }]);
    assert_eq!(s.next_note_index, 1);

    let ev = s.step(60);
    assert_eq!(
        ev,
        vec![
            SynthEvent::NoteOn { channel_id: 1, pitch: 64, velocity_bits: 0.5f32.to_bits() },
            SynthEvent::NoteOff { channel_id: 1, pitch: 64 },
        ]
    );
    assert_eq!(s.active_notes.len(), 1);

    let ev = s.step(100);
    assert_eq!(ev, vec![SynthEvent::NoteOff { channel_id: 0, pitch: 60 }]);
    assert!(s.active_notes.is_empty());
    assert_eq!(s.next_note_index, 2);
}

#[test]
fn zero_length_note_starts_and_ends_in_one_step() {
    let mut s = Sequencer::new();
    s.replace_notes(vec![note(3, 50, 10, 0)]);
    let ev = s.step(10);
    assert_eq!(
        ev,
        vec![
            SynthEvent::NoteOn { channel_id: 3, pitch: 50, velocity_bits: 0.5f32.to_bits() },
            SynthEvent::NoteOff { channel_id: 3, pitch: 50 },
        ]
    );
}

#[test]
fn notes_on_missing_channels_are_sequenced_silently() {
    let mut s = Sequencer::new();
    s.replace_notes(vec![note(9, 50, 0, 5)]);
    assert!(s.step(0).is_empty());
    assert_eq!(s.active_notes.len(), 1);
    assert!(s.step(5).is_empty());
    assert!(s.active_notes.is_empty());
}

#[test]
fn notes_are_started_once() {
    let mut s = Sequencer::new();
    s.replace_notes(vec![note(0, 60, 0, 1000)]);
    assert_eq!(s.step(0).len(), 1);
    assert!(s.step(1).is_empty());
    assert!(s.step(2).is_empty());
}

#[test]
fn rewind_replays_from_the_start() {
    let mut s = Sequencer::new();
    s.replace_notes(vec![note(0, 60, 0, 1000)]);
    assert_eq!(s.step(0).len(), 1);
    s.rewind();
    assert_eq!(s.next_note_index, 0);
    assert!(s.active_notes.is_empty());
    assert_eq!(s.step(0).len(), 1);
}

#[test]
fn late_step_catches_up_on_all_due_notes() {
    let mut s = Sequencer::new();
    s.replace_notes(vec![note(0, 1, 30, 5), note(0, 2, 10, 5), note(0, 3, 20, 5)]);
    let ev = s.step(1000);
    let ons: Vec<u8> = ev
        .iter()
        .filter_map(|e| match e {
            SynthEvent::NoteOn { pitch, .. } => Some(*pitch),
            _ => None,
        })
        .collect();
    assert_eq!(ons, vec![2, 3, 1]);
    assert_eq!(ev.len(), 6);
    assert!(s.active_notes.is_empty());
}
