//! Where MIDI events fall in a block, and what a block tells of keys being played.

use jamodio::clock::Instant;
use jamodio::midi::{
    dispatch_subblock_midi, has_note_on, midi_frame_offset, place_events, CapturedMidiEvent,
    MidiActivity, MidiEvent,
};

const T0: u64 = 5_000_000;

fn at(micros: u64) -> Instant {
    Instant::from_micros(micros)
}

#[test]
fn frame_offset_event_at_block_start_is_zero() {
    let t0 = at(T0);
    assert_eq!(midi_frame_offset(t0, t0, 127), 0);
}

#[test]
fn frame_offset_proportional_to_us_delay() {
    let block_start = at(T0);
    let captured = at(T0 + 1000);
    assert_eq!(midi_frame_offset(captured, block_start, 127), 48);
}

#[test]
fn frame_offset_subsample_precision_truncates_below_sample() {
    let block_start = at(T0);
    let captured = at(T0 + 10);
    assert_eq!(midi_frame_offset(captured, block_start, 127), 0);
}

#[test]
fn frame_offset_event_before_block_start_snaps_to_zero() {
    let block_start = at(T0);
    let captured = at(T0 - 500);
    assert_eq!(midi_frame_offset(captured, block_start, 127), 0);
}

#[test]
fn frame_offset_clamps_to_max_offset() {
    let block_start = Instant::from_millis(5_000);
    let captured = Instant::from_millis(5_000 + 10);
    assert_eq!(midi_frame_offset(captured, block_start, 127), 127);
}

#[test]
fn frame_offset_zero_max_returns_zero() {
    let block_start = Instant::from_millis(5_000);
    let captured = Instant::from_millis(5_000 + 2);
    assert_eq!(midi_frame_offset(captured, block_start, 0), 0);
}

#[test]
fn frame_offset_of_a_very_late_event_stays_in_the_block() {
    // A day late: the offset must not wrap around.
    let captured = Instant::from_millis(24 * 3_600 * 1_000);
    assert_eq!(midi_frame_offset(captured, at(0), 127), 127);
}

fn ev(frame_offset: u32) -> MidiEvent {
    MidiEvent { frame_offset, data: [0x90, 60, 100] }
}

#[test]
fn dispatch_single_subblock_keeps_all_events_unchanged() {
    let events = vec![ev(0), ev(32), ev(64), ev(127)];
    let mut out = Vec::with_capacity(64);
    dispatch_subblock_midi(&events, 0, 128, &mut out);
    assert_eq!(out.len(), 4);
    for (i, e) in events.iter().enumerate() {
        assert_eq!(out[i].frame_offset, e.frame_offset);
        assert_eq!(out[i].data, e.data);
    }
}

#[test]
fn dispatch_multi_subblock_routes_events_to_correct_subblock() {
    let events = vec![ev(10), ev(127), ev(128), ev(130), ev(255)];
    let mut out = Vec::with_capacity(64);

    dispatch_subblock_midi(&events, 0, 128, &mut out);
    assert_eq!(out.len(), 2, "first part: offsets 10 and 127");
    assert_eq!(out[0].frame_offset, 10);
    assert_eq!(out[1].frame_offset, 127);

    dispatch_subblock_midi(&events, 128, 256, &mut out);
    assert_eq!(out.len(), 3, "second part: offsets 128, 130, 255");
    assert_eq!(out[0].frame_offset, 0, "128 - 128 = 0");
    assert_eq!(out[1].frame_offset, 2, "130 - 128 = 2");
    assert_eq!(out[2].frame_offset, 127, "255 - 128 = 127");
}

#[test]
fn dispatch_clears_output_before_filling() {
    let mut out = vec![ev(99), ev(99)];
    dispatch_subblock_midi(&[], 0, 128, &mut out);
    assert!(out.is_empty(), "no events, nothing to play");
}

#[test]
fn dispatch_no_match_yields_empty() {
    let events = vec![ev(100)];
    let mut out = Vec::with_capacity(64);
    dispatch_subblock_midi(&events, 128, 256, &mut out);
    assert!(out.is_empty());
}

#[test]
fn dispatch_boundary_exclusive_on_sub_end() {
    let events = vec![ev(128)];
    let mut out = Vec::with_capacity(64);
    dispatch_subblock_midi(&events, 0, 128, &mut out);
    assert!(out.is_empty(), "an event at the end is not part of it");

    dispatch_subblock_midi(&events, 128, 256, &mut out);
    assert_eq!(out.len(), 1, "an event at the start is");
    assert_eq!(out[0].frame_offset, 0);
}

#[test]
fn two_halves_share_the_events() {
    let events = vec![ev(0), ev(63), ev(64), ev(127), ev(128)];
    let (mut a, mut b, mut whole) = (Vec::new(), Vec::new(), Vec::new());
    dispatch_subblock_midi(&events, 0, 64, &mut a);
    dispatch_subblock_midi(&events, 64, 128, &mut b);
    dispatch_subblock_midi(&events, 0, 128, &mut whole);
    assert_eq!(a.len() + b.len(), whole.len());
    assert_eq!(whole.len(), 4);
    assert!(a.iter().all(|e| e.frame_offset < 64));
    assert!(b.iter().all(|e| e.frame_offset < 64));
}

#[test]
fn a_block_takes_no_more_than_it_can_hold() {
    let queue: Vec<CapturedMidiEvent> = (0..70)
        .map(|i| CapturedMidiEvent { captured_at: at(T0 + i), data: [0x90, 1, 1] })
        .collect();
    assert_eq!(place_events(&queue, at(T0), 128).len(), 64);
    assert_eq!(place_events(&queue, at(T0), 0)[63].frame_offset, 0);
}

#[test]
fn a_note_counts_as_played_for_a_while() {
    let on = MidiEvent { frame_offset: 0, data: [0x93, 60, 1] };
    let silent_on = MidiEvent { frame_offset: 0, data: [0x90, 60, 0] };
    let off = MidiEvent { frame_offset: 0, data: [0x80, 60, 64] };
    assert!(has_note_on(&[off, on]));
    assert!(!has_note_on(&[off, silent_on]));

    let mut activity = MidiActivity::new();
    activity.observe(&[silent_on], 1_000);
    assert!(!activity.active);
    activity.observe(&[on], 1_000);
    assert!(activity.active);
    activity.observe(&[], 1_199);
    assert!(activity.active);
    activity.observe(&[], 1_200);
    assert!(!activity.active);
}
