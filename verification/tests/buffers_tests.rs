use frost_core::delay_line::DelayLine;
use frost_core::frames::{clip_offset, frame_pair, interpolation_frames};

#[test]
fn delay_line_reads_back_writes() {
    let mut d = DelayLine::new(4, 0i32);
    assert_eq!(d.len(), 4);
    for x in 1..=6 {
        d.push(x);
    }
    // written: 1 2 3 4 5 6 -> slots hold 5 6 3 4, write position 2
    assert_eq!(d.write_pos(), 2);
    assert_eq!(d.tap(1), 6);
    assert_eq!(d.tap(2), 5);
    assert_eq!(d.tap(3), 4);
    assert_eq!(d.tap(4), 3);
    assert_eq!(d.tap(0), 3);
    // a delay longer than the line wraps around once more
    assert_eq!(d.tap(5), 6);
}

#[test]
fn delay_line_fill_and_rewind() {
    let mut d = DelayLine::new(3, 1u8);
    d.push(7);
    d.fill(0);
    assert_eq!(d.tap(1), 0);
    assert_eq!(d.write_pos(), 1);
    d.rewind();
    assert_eq!(d.write_pos(), 0);
}

#[test]
fn stereo_and_mono_frames() {
    let stereo = [1, 2, 3, 4, 5];
    assert_eq!(frame_pair(&stereo, 2, 0), Some((1, 2)));
    assert_eq!(frame_pair(&stereo, 2, 1), Some((3, 4)));
    assert_eq!(frame_pair(&stereo, 2, 2), None);
    let mono = [9, 8];
    assert_eq!(frame_pair(&mono, 1, 1), Some((8, 8)));
    assert_eq!(frame_pair(&mono, 0, 0), None);
    let surround = [1, 2, 3, 4, 5, 6];
    assert_eq!(frame_pair(&surround, 3, 1), Some((4, 5)));
}

#[test]
fn interpolation_neighbours_hold_at_the_end() {
    assert_eq!(interpolation_frames(0, 3), Some((0, 1)));
    assert_eq!(interpolation_frames(2, 3), Some((2, 2)));
    assert_eq!(interpolation_frames(3, 3), None);
}

#[test]
fn clip_window() {
    assert_eq!(clip_offset(960, 0, 3840), Some(960));
    assert_eq!(clip_offset(99, 100, 10), None);
    assert_eq!(clip_offset(100, 100, 10), Some(0));
    assert_eq!(clip_offset(110, 100, 10), None);
}

#[test]
fn clip_before_start_never_overflows() {
    assert_eq!(clip_offset(5, u64::MAX, 10), None);
}
