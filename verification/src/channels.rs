//! Selection of the input channels, and the moves of samples between interleaved and
//! separate channels. A sample is any copyable value: these functions only move it.

use vstd::prelude::*;

verus! {

/// Channels of the input device that the instrument is taken from.
#[derive(Clone, Copy, Debug, PartialEq, Eq, Structural)]
pub enum ChannelSel {
    /// Channels 0 and 1, or channel 0 on both sides where there is only one.
    Default,
    /// One channel on both sides.
    Mono(u8),
    /// The given channel on the left, the next one on the right.
    StereoPair(u8),
}

/// The two channels that a selection takes on a device of `channels_in` channels. A
/// selection that the device does not have falls back to the default.
pub open spec fn lanes(sel: ChannelSel, channels_in: nat) -> (int, int) {
    let fallback = if channels_in == 1 {
        (0int, 0int)
    } else {
        (0int, 1int)
    };
    match sel {
        ChannelSel::Default => fallback,
        ChannelSel::Mono(i) => if i < channels_in {
            (i as int, i as int)
        } else {
            fallback
        },
        ChannelSel::StereoPair(s) => if s + 1 < channels_in {
            (s as int, s + 1)
        } else {
            fallback
        },
    }
}

/// The selection a request comes to: one channel before a pair, and the default where
/// the device does not have the channels asked for.
pub open spec fn selection(
    channel_index: Option<u8>,
    stereo_start: Option<u8>,
    channels_in: nat,
) -> ChannelSel {
    match (channel_index, stereo_start) {
        (Some(i), _) => if i < channels_in {
            ChannelSel::Mono(i)
        } else {
            ChannelSel::Default
        },
        (None, Some(s)) => if s + 1 < channels_in {
            ChannelSel::StereoPair(s)
        } else {
            ChannelSel::Default
        },
        (None, None) => ChannelSel::Default,
    }
}

pub fn effective_selection(
    channel_index: Option<u8>,
    stereo_start: Option<u8>,
    channels_in: u16,
) -> (r: ChannelSel)
    ensures
        r == selection(channel_index, stereo_start, channels_in as nat),
{
    match channel_index {
        Some(i) => if (i as u16) < channels_in {
            ChannelSel::Mono(i)
        } else {
            ChannelSel::Default
        },
        None => match stereo_start {
            Some(s) => if (s as u16) + 1 < channels_in {
                ChannelSel::StereoPair(s)
            } else {
                ChannelSel::Default
            },
            None => ChannelSel::Default,
        },
    }
}

proof fn lemma_in_frame(len: int, channels: int, f: int, c: int)
    requires
        channels > 0,
        0 <= f < len / channels,
        0 <= c < channels,
    ensures
        0 <= f * channels + c < len,
{
    assert(f * channels + c < len) by (nonlinear_arith)
        requires
            channels > 0,
            0 <= f < len / channels,
            0 <= c < channels,
    ;
    assert(0 <= f * channels + c) by (nonlinear_arith)
        requires
            channels > 0,
            0 <= f,
            0 <= c,
    ;
}

/// The frames of an interleaved block, left and right taken from the channels `l` and `r`.
pub open spec fn stereo_of<T>(src: Seq<T>, channels_in: int, l: int, r: int) -> Seq<T> {
    Seq::new(
        (2 * (src.len() as int / channels_in)) as nat,
        |k: int| src[(k / 2) * channels_in + if k % 2 == 0 { l } else { r }],
    )
}

/// An interleaved block of `channels_in` channels as interleaved stereo. A trailing
/// partial frame is dropped.
pub fn remap_to_stereo<T: Copy>(src: &[T], channels_in: usize, sel: ChannelSel) -> (out: Vec<T>)
    ensures
        channels_in == 0 ==> out@ == Seq::<T>::empty(),
        channels_in > 0 ==> out@ == stereo_of(
            src@,
            channels_in as int,
            lanes(sel, channels_in as nat).0,
            lanes(sel, channels_in as nat).1,
        ),
        channels_in > 0 ==> out@.len() == 2 * (src@.len() as int / channels_in as int),
        forall|f: int|
            0 <= f && 2 * f + 1 < out@.len() ==> {
                let base = f * channels_in;
                &&& sel matches ChannelSel::StereoPair(s) ==> s + 1 < channels_in ==> {
                    &&& #[trigger] out@[2 * f] == src@[base + s]
                    &&& out@[2 * f + 1] == src@[base + s + 1]
                }
                &&& sel matches ChannelSel::Mono(c) ==> c < channels_in ==> {
                    &&& out@[2 * f] == src@[base + c]
                    &&& out@[2 * f + 1] == src@[base + c]
                }
                &&& sel == ChannelSel::Default && channels_in >= 2 ==> {
                    &&& out@[2 * f] == src@[base]
                    &&& out@[2 * f + 1] == src@[base + 1]
                }
            },
{
    if channels_in == 0 {
        return Vec::new();
    }
    let mut l: usize = 0;
    let mut r: usize = if channels_in == 1 {
        0
    } else {
        1
    };
    match sel {
        ChannelSel::Default => {},
        ChannelSel::Mono(i) => if (i as usize) < channels_in {
            l = i as usize;
            r = i as usize;
        },
        ChannelSel::StereoPair(s) => if (s as usize) + 1 < channels_in {
            l = s as usize;
            r = s as usize + 1;
        },
    }
    let len: usize = src.len();
    let frames: usize = len / channels_in;
    let mut out: Vec<T> = Vec::new();
    let mut f: usize = 0;
    while f < frames
        invariant
            channels_in > 0,
            frames == src@.len() as int / channels_in as int,
            src@.len() <= usize::MAX,
            f <= frames,
            l < channels_in,
            r < channels_in,
            (l as int, r as int) == lanes(sel, channels_in as nat),
            out@.len() == 2 * f,
            forall|k: int|
                0 <= k < 2 * f ==> out@[k] == src@[(k / 2) * channels_in + if k % 2 == 0 {
                    l as int
                } else {
                    r as int
                }],
        decreases frames - f,
    {
        proof {
            lemma_in_frame(src@.len() as int, channels_in as int, f as int, l as int);
            lemma_in_frame(src@.len() as int, channels_in as int, f as int, r as int);
        }
        let base: usize = f * channels_in;
        out.push(src[base + l]);
        out.push(src[base + r]);
        f = f + 1;
    }
    assert(out@ =~= stereo_of(src@, channels_in as int, l as int, r as int));
    proof {
        assert forall|f: int| 0 <= f && 2 * f + 1 < out@.len() implies {
            &&& #[trigger] out@[2 * f] == src@[f * channels_in + l]
            &&& out@[2 * f + 1] == src@[f * channels_in + r]
        } by {
            assert((2 * f) / 2 == f && (2 * f + 1) / 2 == f);
        }
    }
    out
}

/// The samples of one channel of an interleaved block.
pub open spec fn channel_of<T>(src: Seq<T>, channels_in: int, channel: int) -> Seq<T> {
    Seq::new(
        (src.len() as int / channels_in) as nat,
        |f: int| src[f * channels_in + channel],
    )
}

/// One sample per frame of the given channel; nothing where the device has no such
/// channel.
pub fn extract_channel_mono<T: Copy>(src: &[T], channels_in: usize, channel: usize) -> (out: Vec<T>)
    ensures
        channel >= channels_in ==> out@ == Seq::<T>::empty(),
        channel < channels_in ==> out@ == channel_of(src@, channels_in as int, channel as int),
        channel < channels_in ==> out@.len() == src@.len() as int / channels_in as int,
        forall|f: int|
            0 <= f < out@.len() ==> #[trigger] out@[f] == src@[f * channels_in + channel],
{
    let mut out: Vec<T> = Vec::new();
    if channels_in == 0 || channel >= channels_in {
        return out;
    }
    let len: usize = src.len();
    let frames: usize = len / channels_in;
    let mut f: usize = 0;
    while f < frames
        invariant
            channels_in > 0,
            frames == src@.len() as int / channels_in as int,
            src@.len() <= usize::MAX,
            f <= frames,
            channel < channels_in,
            out@.len() == f,
            forall|k: int| 0 <= k < f ==> out@[k] == src@[k * channels_in + channel],
        decreases frames - f,
    {
        proof {
            lemma_in_frame(src@.len() as int, channels_in as int, f as int, channel as int);
        }
        out.push(src[f * channels_in + channel]);
        f = f + 1;
    }
    assert(out@ =~= channel_of(src@, channels_in as int, channel as int));
    out
}

/// On a device that has the channel, one channel on both sides is that channel's samples,
/// each of them twice.
pub proof fn mono_is_the_channel_twice<T>(src: Seq<T>, channels_in: int, channel: u8)
    requires
        0 <= channel < channels_in,
    ensures
        ({
            let (l, r) = lanes(ChannelSel::Mono(channel), channels_in as nat);
            let out = stereo_of(src, channels_in, l, r);
            let mono = channel_of(src, channels_in, channel as int);
            &&& out.len() == 2 * mono.len()
            &&& forall|f: int|
                0 <= f < mono.len() ==> out[2 * f] == #[trigger] mono[f] && out[2 * f + 1] == mono[f]
        }),
{
    let out = stereo_of(src, channels_in, channel as int, channel as int);
    let mono = channel_of(src, channels_in, channel as int);
    assert(src.len() as int / channels_in >= 0) by (nonlinear_arith)
        requires
            src.len() >= 0,
            channels_in > 0,
    ;
    assert forall|f: int| 0 <= f < mono.len() implies out[2 * f] == #[trigger] mono[f] && out[2 * f
        + 1] == mono[f] by {
        assert((2 * f) / 2 == f && (2 * f + 1) / 2 == f);
    }
}

/// On a device that has both channels, a pair is the chosen channel on the left and its
/// neighbour on the right, frame by frame: no sample of another input is heard.
pub proof fn a_pair_is_two_neighbours<T>(src: Seq<T>, channels_in: int, start: u8, f: int)
    requires
        start + 1 < channels_in,
        0 <= f < src.len() as int / channels_in,
    ensures
        ({
            let (l, r) = lanes(ChannelSel::StereoPair(start), channels_in as nat);
            let out = stereo_of(src, channels_in, l, r);
            &&& out[2 * f] == src[f * channels_in + start]
            &&& out[2 * f + 1] == src[f * channels_in + start + 1]
        }),
{
    assert((2 * f) / 2 == f && (2 * f + 1) / 2 == f);
}

/// Where nothing is chosen, and where the device does not have what was chosen, the first two
/// channels are left and right, and the only channel of a device is both.
pub proof fn without_a_choice_the_first_channels_are_taken<T>(
    src: Seq<T>,
    channels_in: int,
    sel: ChannelSel,
    f: int,
)
    requires
        channels_in > 0,
        sel matches ChannelSel::Mono(c) ==> c >= channels_in,
        sel matches ChannelSel::StereoPair(s) ==> s + 1 >= channels_in,
        0 <= f < src.len() as int / channels_in,
    ensures
        ({
            let (l, r) = lanes(sel, channels_in as nat);
            let out = stereo_of(src, channels_in, l, r);
            &&& out[2 * f] == src[f * channels_in]
            &&& channels_in >= 2 ==> out[2 * f + 1] == src[f * channels_in + 1]
            &&& channels_in == 1 ==> out[2 * f + 1] == src[f]
        }),
{
    assert((2 * f) / 2 == f && (2 * f + 1) / 2 == f);
    assert(f * 1 == f);
}

/// Every whole frame gives one sample for each side, and no other frame does.
pub proof fn every_frame_is_heard_once<T>(src: Seq<T>, channels_in: int, l: int, r: int)
    requires
        channels_in > 0,
    ensures
        stereo_of(src, channels_in, l, r).len() == 2 * (src.len() as int / channels_in),
        channel_of(src, channels_in, l).len() == src.len() as int / channels_in,
        forall|f: int|
            0 <= f < src.len() as int / channels_in ==> #[trigger] channel_of(src, channels_in, l)[f]
                == src[f * channels_in + l],
{
    assert(src.len() as int / channels_in >= 0) by (nonlinear_arith)
        requires
            src.len() >= 0,
            channels_in > 0,
    ;
}

/// A request comes to what it asks for on a device that has it, one channel before a pair, and
/// to the default on any other; whatever is taken, the device has.
pub proof fn what_is_asked_for_is_selected(
    channel: u8,
    start: u8,
    other: Option<u8>,
    channels_in: u16,
)
    ensures
        channel < channels_in ==> selection(Some(channel), other, channels_in as nat)
            == ChannelSel::Mono(channel),
        channel >= channels_in ==> selection(Some(channel), other, channels_in as nat)
            == ChannelSel::Default,
        start + 1 < channels_in ==> selection(None, Some(start), channels_in as nat)
            == ChannelSel::StereoPair(start),
        start + 1 >= channels_in ==> selection(None, Some(start), channels_in as nat)
            == ChannelSel::Default,
        selection(None, None, channels_in as nat) == ChannelSel::Default,
{
}

} // verus!
