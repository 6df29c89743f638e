//! MIDI events of an audio block: where in the block each one falls, and which of them a
//! part of the block is handed.

use crate::clock::Instant;
use vstd::prelude::*;

verus! {

/// An event on its way to an instrument plugin: the sample of the block at which it
/// takes effect, and its three bytes.
#[derive(Clone, Copy, Debug, PartialEq, Eq)]
pub struct MidiEvent {
    pub frame_offset: u32,
    pub data: [u8; 3],
}

/// An event as it was captured.
#[derive(Clone, Copy, Debug)]
pub struct CapturedMidiEvent {
    pub captured_at: Instant,
    pub data: [u8; 3],
}

/// Most events that are handed over with one block.
pub const MAX_BLOCK_EVENTS: usize = 64;

/// The sample, at 48 kHz, at which an event captured at `captured_at` falls in the block
/// that begins at `block_start`. One from before the block falls on its first sample, one
/// from after it on its last.
pub open spec fn frame_offset_of(captured_at: Instant, block_start: Instant, max_offset: u32) -> int {
    let samples = (captured_at.nanos_since(block_start) / 1000) as int * 48 / 1000;
    if samples <= max_offset {
        samples
    } else {
        max_offset as int
    }
}

pub fn midi_frame_offset(captured_at: Instant, block_start: Instant, max_offset: u32) -> (r: u32)
    ensures
        r == frame_offset_of(captured_at, block_start, max_offset),
{
    let micros: u64 = captured_at.elapsed_nanos(block_start) / 1000;
    let samples: u64 = micros * 48 / 1000;
    if samples <= max_offset as u64 {
        samples as u32
    } else {
        max_offset
    }
}

/// The events of `events` that fall in `[sub_start, sub_end)`, counted from `sub_start`.
pub open spec fn subblock_events(events: Seq<MidiEvent>, sub_start: u32, sub_end: u32) -> Seq<
    MidiEvent,
>
    decreases events.len(),
{
    if events.len() == 0 {
        Seq::empty()
    } else {
        let rest = subblock_events(events.drop_last(), sub_start, sub_end);
        let ev = events.last();
        if sub_start <= ev.frame_offset < sub_end {
            rest.push(
                MidiEvent { frame_offset: (ev.frame_offset - sub_start) as u32, data: ev.data },
            )
        } else {
            rest
        }
    }
}

/// Fills `out` with the events that fall in `[sub_start, sub_end)`, in their order and
/// counted from `sub_start`. What `out` held before is gone.
pub fn dispatch_subblock_midi(
    events: &[MidiEvent],
    sub_start: u32,
    sub_end: u32,
    out: &mut Vec<MidiEvent>,
)
    ensures
        final(out)@ == subblock_events(events@, sub_start, sub_end),
{
    out.clear();
    let mut i: usize = 0;
    assert(events@.take(0) =~= Seq::empty());
    while i < events.len()
        invariant
            i <= events@.len(),
            out@ == subblock_events(events@.take(i as int), sub_start, sub_end),
        decreases events@.len() - i,
    {
        let ev = events[i];
        proof {
            assert(events@.take(i + 1).drop_last() =~= events@.take(i as int));
            assert(events@.take(i + 1).last() == ev);
        }
        if ev.frame_offset >= sub_start && ev.frame_offset < sub_end {
            out.push(MidiEvent { frame_offset: ev.frame_offset - sub_start, data: ev.data });
        }
        i = i + 1;
    }
    assert(events@.take(i as int) =~= events@);
}

/// How many events of `events` fall in `[lo, hi)`.
pub open spec fn count_between(events: Seq<MidiEvent>, lo: int, hi: int) -> nat
    decreases events.len(),
{
    if events.len() == 0 {
        0
    } else {
        count_between(events.drop_last(), lo, hi) + if lo <= events.last().frame_offset < hi {
            1nat
        } else {
            0nat
        }
    }
}

/// Every event of a block is handed to exactly one of two parts that make it up: none is
/// lost at the border and none is played twice.
pub proof fn parts_share_the_events(events: Seq<MidiEvent>, a: u32, b: u32, c: u32)
    requires
        a <= b <= c,
    ensures
        subblock_events(events, a, b).len() + subblock_events(events, b, c).len()
            == subblock_events(events, a, c).len(),
        subblock_events(events, a, c).len() == count_between(events, a as int, c as int),
    decreases events.len(),
{
    if events.len() > 0 {
        parts_share_the_events(events.drop_last(), a, b, c);
    }
}

/// An event that a part is handed lies inside that part.
pub proof fn subblock_offsets_are_inside(events: Seq<MidiEvent>, sub_start: u32, sub_end: u32)
    ensures
        forall|i: int|
            0 <= i < subblock_events(events, sub_start, sub_end).len() ==> (
            #[trigger] subblock_events(events, sub_start, sub_end)[i]).frame_offset < sub_end
                - sub_start,
    decreases events.len(),
{
    if events.len() > 0 {
        subblock_offsets_are_inside(events.drop_last(), sub_start, sub_end);
        let rest = subblock_events(events.drop_last(), sub_start, sub_end);
        let all = subblock_events(events, sub_start, sub_end);
        assert forall|i: int| 0 <= i < all.len() implies (#[trigger] all[i]).frame_offset < sub_end
            - sub_start by {
            if i < rest.len() {
                assert(all[i] == rest[i]);
            }
        }
    }
}

/// Is the event a key press: status `9x` with a velocity above zero?
pub open spec fn is_note_on(data: [u8; 3]) -> bool {
    data[0] & 0xf0 == 0x90 && data[2] > 0
}

/// Does the batch hold a key press?
pub fn has_note_on(events: &[MidiEvent]) -> (r: bool)
    ensures
        r == exists|i: int| 0 <= i < events@.len() && is_note_on((#[trigger] events@[i]).data),
{
    let mut i: usize = 0;
    while i < events.len()
        invariant
            i <= events@.len(),
            forall|k: int| 0 <= k < i ==> !is_note_on((#[trigger] events@[k]).data),
        decreases events@.len() - i,
    {
        let data = events[i].data;
        if data[0] & 0xf0 == 0x90 && data[2] > 0 {
            assert(is_note_on(events@[i as int].data));
            return true;
        }
        i = i + 1;
    }
    false
}

/// The first events of a queue, placed in the block.
pub open spec fn placed(
    queue: Seq<CapturedMidiEvent>,
    block_start: Instant,
    max_offset: u32,
) -> Seq<MidiEvent> {
    let n = if queue.len() <= MAX_BLOCK_EVENTS {
        queue.len()
    } else {
        MAX_BLOCK_EVENTS as nat
    };
    Seq::new(
        n,
        |i: int|
            MidiEvent {
                frame_offset: frame_offset_of(
                    queue[i].captured_at,
                    block_start,
                    max_offset,
                ) as u32,
                data: queue[i].data,
            },
    )
}

/// Places the events that wait in `queue` in a block of `n_pairs` frames. Those beyond
/// the most that a block takes stay for the next one; the result says how many were taken
/// by its length.
pub fn place_events(
    queue: &[CapturedMidiEvent],
    block_start: Instant,
    n_pairs: usize,
) -> (out: Vec<MidiEvent>)
    requires
        n_pairs <= u32::MAX,
    ensures
        out@ == placed(
            queue@,
            block_start,
            if n_pairs == 0 {
                0
            } else {
                (n_pairs - 1) as u32
            },
        ),
        out@.len() == if queue@.len() <= 64 {
            queue@.len()
        } else {
            64
        },
        forall|i: int| 0 <= i < out@.len() ==> (#[trigger] out@[i]).data == queue@[i].data,
        forall|i: int|
            0 <= i < out@.len() ==> n_pairs > 0 ==> (#[trigger] out@[i]).frame_offset < n_pairs,
{
    let max_offset: u32 = if n_pairs == 0 {
        0
    } else {
        (n_pairs - 1) as u32
    };
    let mut out: Vec<MidiEvent> = Vec::new();
    let mut i: usize = 0;
    while i < queue.len() && i < MAX_BLOCK_EVENTS
        invariant
            i <= queue@.len(),
            i <= MAX_BLOCK_EVENTS,
            out@.len() == i,
            forall|k: int|
                0 <= k < i ==> out@[k] == (MidiEvent {
                    frame_offset: frame_offset_of(
                        queue@[k].captured_at,
                        block_start,
                        max_offset,
                    ) as u32,
                    data: queue@[k].data,
                }),
        decreases queue@.len() - i,
    {
        let cap = queue[i];
        out.push(
            MidiEvent {
                frame_offset: midi_frame_offset(cap.captured_at, block_start, max_offset),
                data: cap.data,
            },
        );
        i = i + 1;
    }
    assert(out@ =~= placed(queue@, block_start, max_offset));
    out
}

/// How long a key press keeps the MIDI activity flag up, in milliseconds.
pub const MIDI_ACTIVE_MS: u64 = 200;

/// Activity of the MIDI input: up from a key press until a while after the last one.
#[derive(Clone, Copy, Debug, PartialEq, Eq, Structural)]
pub struct MidiActivity {
    pub active: bool,
    pub last_note_on_ms: u64,
}

impl MidiActivity {
    pub fn new() -> (r: MidiActivity)
        ensures
            !r.active,
            r.last_note_on_ms == 0,
    {
        MidiActivity { active: false, last_note_on_ms: 0 }
    }

    /// Takes note of a block's events at wall-clock time `now_ms`.
    pub fn observe(&mut self, events: &[MidiEvent], now_ms: u64)
        ensures
            ({
                let pressed = exists|i: int|
                    0 <= i < events@.len() && is_note_on((#[trigger] events@[i]).data);
                let last = if pressed {
                    now_ms
                } else {
                    old(self).last_note_on_ms
                };
                &&& final(self).last_note_on_ms == last
                &&& final(self).active == ((pressed || old(self).active) && now_ms - last
                    < MIDI_ACTIVE_MS)
            }),
            final(self).active ==> now_ms < final(self).last_note_on_ms + 200,
            old(self).active && now_ms < final(self).last_note_on_ms + 200 ==> final(self).active,
            forall|i: int|
                0 <= i < events@.len() && 0x90 <= (#[trigger] events@[i]).data[0] <= 0x9f
                    && events@[i].data[2] > 0 ==> final(self).last_note_on_ms == now_ms
                    && final(self).active,
    {
        proof {
            assert forall|i: int|
                0 <= i < events@.len() && 0x90 <= (#[trigger] events@[i]).data[0] <= 0x9f
                    && events@[i].data[2] > 0 implies is_note_on(events@[i].data) by {
                a_key_press_has_a_velocity(events@[i].data);
            }
        }
        if has_note_on(events) {
            self.last_note_on_ms = now_ms;
            self.active = true;
        }
        if self.active && now_ms.saturating_sub(self.last_note_on_ms) >= MIDI_ACTIVE_MS {
            self.active = false;
        }
    }
}

/// The events of a block are those that were captured first, in their order, each with its own
/// three bytes: no note is played in place of another.
pub proof fn every_note_keeps_its_bytes(
    queue: Seq<CapturedMidiEvent>,
    block_start: Instant,
    max_offset: u32,
)
    ensures
        placed(queue, block_start, max_offset).len() == if queue.len() <= 64 {
            queue.len()
        } else {
            64
        },
        forall|i: int|
            0 <= i < placed(queue, block_start, max_offset).len() ==> {
                let e = #[trigger] placed(queue, block_start, max_offset)[i];
                &&& e.data == queue[i].data
                &&& e.frame_offset <= max_offset
            },
{
}

/// An event that was captured `nanos` after the block began falls on the sample that sounds at
/// that time, a sample being 1/48 of a millisecond, and on the last one where the block is over
/// by then. An event from before the block falls on its first sample.
pub proof fn an_event_falls_on_the_sample_of_its_time(
    captured_at: Instant,
    block_start: Instant,
    max_offset: u32,
)
    ensures
        ({
            let r = frame_offset_of(captured_at, block_start, max_offset);
            let micros = (captured_at.nanos - block_start.nanos) / 1000;
            &&& 0 <= r <= max_offset
            &&& captured_at.nanos <= block_start.nanos ==> r == 0
            &&& captured_at.nanos > block_start.nanos ==> 1000 * r <= 48 * micros
            &&& captured_at.nanos > block_start.nanos && r < max_offset ==> 48 * micros < 1000 * (r
                + 1)
        }),
{
}

/// What was played later does not sound earlier.
pub proof fn events_keep_their_order_in_time(
    first: Instant,
    second: Instant,
    block_start: Instant,
    max_offset: u32,
)
    requires
        first.nanos <= second.nanos,
    ensures
        frame_offset_of(first, block_start, max_offset) <= frame_offset_of(
            second,
            block_start,
            max_offset,
        ),
{
    let a = first.nanos_since(block_start) / 1000;
    let b = second.nanos_since(block_start) / 1000;
    assert(a <= b);
}

/// A part of a block is handed an event exactly if it falls in the part, with its bytes and
/// counted from where the part begins.
pub proof fn a_part_is_handed_what_falls_in_it(e: MidiEvent, sub_start: u32, sub_end: u32)
    ensures
        sub_start <= e.frame_offset < sub_end ==> {
            let out = subblock_events(seq![e], sub_start, sub_end);
            &&& out.len() == 1
            &&& out[0].data == e.data
            &&& sub_start + out[0].frame_offset == e.frame_offset
        },
        !(sub_start <= e.frame_offset < sub_end) ==> subblock_events(
            seq![e],
            sub_start,
            sub_end,
        ).len() == 0,
{
    reveal_with_fuel(subblock_events, 2);
    assert(seq![e].drop_last() =~= Seq::<MidiEvent>::empty());
    assert(seq![e].last() == e);
}

/// Events are handed on in their order: those of two runs are those of the first, then those
/// of the second.
pub proof fn a_part_keeps_the_order(
    a: Seq<MidiEvent>,
    b: Seq<MidiEvent>,
    sub_start: u32,
    sub_end: u32,
)
    ensures
        subblock_events(a + b, sub_start, sub_end) == subblock_events(a, sub_start, sub_end)
            + subblock_events(b, sub_start, sub_end),
    decreases b.len(),
{
    if b.len() == 0 {
        assert(a + b =~= a);
        assert(subblock_events(a, sub_start, sub_end) + subblock_events(b, sub_start, sub_end)
            =~= subblock_events(a, sub_start, sub_end));
    } else {
        a_part_keeps_the_order(a, b.drop_last(), sub_start, sub_end);
        assert((a + b).drop_last() =~= a + b.drop_last());
        assert((a + b).last() == b.last());
        assert(subblock_events(a + b, sub_start, sub_end) =~= subblock_events(
            a,
            sub_start,
            sub_end,
        ) + subblock_events(b, sub_start, sub_end));
    }
}

/// A key press is a message of status 0x90 to 0x9f, one for each MIDI channel, whose velocity
/// is not zero.
pub proof fn a_key_press_has_a_velocity(data: [u8; 3])
    ensures
        is_note_on(data) <==> 0x90 <= data[0] <= 0x9f && data[2] > 0,
{
    let s = data[0];
    assert(s & 0xf0 == 0x90 <==> 0x90 <= s <= 0x9f) by (bit_vector);
}

} // verus!
