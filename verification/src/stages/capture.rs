//! The capture stage: picks the instrument's channels out of what the device delivers, and
//! taps the voice from the same blocks.
//!
//! The voice never delays the instrument: a block of it that is not taken at once is lost.

use crate::channels::{
    channel_of, extract_channel_mono, lanes, remap_to_stereo, stereo_of, ChannelSel,
};
use crate::frames::{
    append_interleaved, chunks_of, contents, interleaved, lane, rest_of, split_stereo, Chunker,
};
use vstd::prelude::*;

verus! {

/// Frames that the resampler takes at a time.
pub const RESAMPLE_CHUNK: usize = 1024;

/// The rate of the session, in hertz.
pub const SESSION_RATE: u32 = 48_000;

/// Does a device of this rate need resampling?
pub fn needs_resampling(native_sr: u32) -> (r: bool)
    ensures
        r == (native_sr != SESSION_RATE),
        r <==> native_sr != 48_000,
{
    native_sr != SESSION_RATE
}

/// A command to the tap of the voice.
#[derive(Clone, Copy, Debug, PartialEq, Eq, Structural)]
pub enum VoiceControl {
    Add { channel_index: usize },
    Remove,
}

/// What became of a block that was offered to the voice's encoder.
#[derive(Clone, Copy, Debug, PartialEq, Eq, Structural)]
pub enum Delivery {
    Taken,
    /// The encoder is behind. The block is lost.
    Full,
    /// The encoder has ended.
    Gone,
}

/// What the stage makes of a block.
#[derive(Debug)]
pub enum CaptureOut<T> {
    /// The block, ready for the next stage.
    Stereo(Vec<T>),
    /// Chunks of either side for the resampler, in order.
    Resample { left: Vec<Vec<T>>, right: Vec<Vec<T>> },
}

/// What waits for the resampler.
#[derive(Debug)]
pub struct Resampling<T> {
    pub left: Chunker<T>,
    pub right: Chunker<T>,
}

#[derive(Debug)]
pub struct CaptureStage<T> {
    pub channels_in: usize,
    pub sel: ChannelSel,
    /// The channel that the voice is tapped from.
    pub tap: Option<usize>,
    pub resampling: Option<Resampling<T>>,
}

/// The instrument's part of a block.
pub open spec fn stereo_part<T>(samples: Seq<T>, channels_in: usize, sel: ChannelSel) -> Seq<T> {
    if channels_in == 0 {
        Seq::empty()
    } else {
        stereo_of(
            samples,
            channels_in as int,
            lanes(sel, channels_in as nat).0,
            lanes(sel, channels_in as nat).1,
        )
    }
}

/// The voice's part of a block; nothing where no voice is tapped or the channel is not there.
pub open spec fn voice_part<T>(samples: Seq<T>, channels_in: usize, tap: Option<usize>) -> Seq<T> {
    match tap {
        Some(channel) => if channel < channels_in {
            channel_of(samples, channels_in as int, channel as int)
        } else {
            Seq::empty()
        },
        None => Seq::empty(),
    }
}

impl<T: Copy> CaptureStage<T> {
    pub open spec fn wf(self) -> bool {
        self.resampling matches Some(r) ==> {
            &&& r.left.wf()
            &&& r.right.wf()
            &&& r.left.size == RESAMPLE_CHUNK
            &&& r.right.size == RESAMPLE_CHUNK
            &&& r.left.pending@.len() == r.right.pending@.len()
        }
    }

    /// A stage for a device. `resampling` where the rates differ and a resampler could be
    /// made.
    pub fn new(channels_in: u16, sel: ChannelSel, resampling: bool) -> (r: CaptureStage<T>)
        ensures
            r.wf(),
            r.channels_in == channels_in,
            r.sel == sel,
            r.tap is None,
            r.resampling is Some == resampling,
            r.resampling matches Some(s) ==> s.left.pending@.len() == 0,
    {
        CaptureStage {
            channels_in: channels_in as usize,
            sel,
            tap: None,
            resampling: if resampling {
                Some(
                    Resampling {
                        left: Chunker::new(RESAMPLE_CHUNK),
                        right: Chunker::new(RESAMPLE_CHUNK),
                    },
                )
            } else {
                None
            },
        }
    }

    /// Sets up the tap of the voice, or takes it away.
    pub fn control(&mut self, command: VoiceControl)
        ensures
            *final(self) == (CaptureStage {
                tap: match command {
                    VoiceControl::Add { channel_index } => Some(channel_index),
                    VoiceControl::Remove => None,
                },
                ..*old(self)
            }),
    {
        self.tap = match command {
            VoiceControl::Add { channel_index } => Some(channel_index),
            VoiceControl::Remove => None,
        };
    }

    /// The voice's part of a block, if there is any.
    pub fn voice_block(&self, samples: &[T]) -> (r: Option<Vec<T>>)
        ensures
            ({
                let part = voice_part(samples@, self.channels_in, self.tap);
                if part.len() > 0 {
                    r matches Some(v) && v@ == part
                } else {
                    r is None
                }
            }),
    {
        match self.tap {
            Some(channel) => {
                let mono = extract_channel_mono(samples, self.channels_in, channel);
                if mono.len() > 0 {
                    Some(mono)
                } else {
                    None
                }
            },
            None => None,
        }
    }

    /// Takes what became of a block of the voice. An encoder that has ended gets no more.
    pub fn voice_delivered(&mut self, delivery: Delivery)
        ensures
            *final(self) == (CaptureStage {
                tap: if delivery == Delivery::Gone {
                    None
                } else {
                    old(self).tap
                },
                ..*old(self)
            }),
    {
        if delivery == Delivery::Gone {
            self.tap = None;
        }
    }

    /// Takes a block. Without resampling the instrument's part of it goes on as it is. With
    /// resampling it waits until there is enough for the resampler.
    pub fn on_block(&mut self, samples: &[T]) -> (r: CaptureOut<T>)
        requires
            old(self).wf(),
        ensures
            final(self).wf(),
            final(self).channels_in == old(self).channels_in,
            final(self).sel == old(self).sel,
            final(self).tap == old(self).tap,
            ({
                let part = stereo_part(samples@, old(self).channels_in, old(self).sel);
                match old(self).resampling {
                    None => {
                        &&& r matches CaptureOut::Stereo(s)
                        &&& s@ == part
                        &&& final(self).resampling is None
                    },
                    Some(before) => {
                        let all_left = before.left.pending@ + lane(part, 0);
                        let all_right = before.right.pending@ + lane(part, 1);
                        &&& r matches CaptureOut::Resample { left, right }
                        &&& contents(left@) == chunks_of(all_left, RESAMPLE_CHUNK as nat)
                        &&& contents(right@) == chunks_of(all_right, RESAMPLE_CHUNK as nat)
                        &&& final(self).resampling matches Some(after)
                        &&& after.left.pending@ == rest_of(all_left, RESAMPLE_CHUNK as nat)
                        &&& after.right.pending@ == rest_of(all_right, RESAMPLE_CHUNK as nat)
                    },
                }
            }),
    {
        let stereo = remap_to_stereo(samples, self.channels_in, self.sel);
        let resampling = self.resampling.take();
        match resampling {
            None => CaptureOut::Stereo(stereo),
            Some(rs) => {
                let mut rs = rs;
                let (l, r) = split_stereo(stereo.as_slice());
                let ghost before = rs;
                let left = rs.left.push(l.as_slice());
                let right = rs.right.push(r.as_slice());
                proof {
                    lemma_rest_len(before.left.pending@ + l@, RESAMPLE_CHUNK as nat);
                    lemma_rest_len(before.right.pending@ + r@, RESAMPLE_CHUNK as nat);
                }
                self.resampling = Some(rs);
                CaptureOut::Resample { left, right }
            },
        }
    }
}

/// How much is left depends on the length alone.
proof fn lemma_rest_len<T>(s: Seq<T>, size: nat)
    requires
        size > 0,
    ensures
        rest_of(s, size).len() == s.len() % size,
    decreases s.len(),
{
    if s.len() >= size {
        lemma_rest_len(s.skip(size as int), size);
        vstd::arithmetic::div_mod::lemma_mod_multiples_vanish(1, s.len() - size, size as int);
    } else {
        vstd::arithmetic::div_mod::lemma_small_mod(s.len(), size);
    }
}

/// Blocks that came back from the resampler, one behind the other.
pub open spec fn joined_blocks<T>(blocks: Seq<(Vec<T>, Vec<T>)>) -> Seq<T>
    decreases blocks.len(),
{
    if blocks.len() == 0 {
        Seq::empty()
    } else {
        joined_blocks(blocks.drop_last()) + interleaved(blocks.last().0@, blocks.last().1@)
    }
}

/// Puts together what came back from the resampler. Where nothing did, nothing goes on.
pub fn resampled<T: Copy>(blocks: &Vec<(Vec<T>, Vec<T>)>) -> (r: Option<Vec<T>>)
    requires
        forall|i: int|
            0 <= i < blocks@.len() ==> (#[trigger] blocks@[i]).0@.len() == blocks@[i].1@.len(),
    ensures
        if joined_blocks(blocks@).len() > 0 {
            r matches Some(s) && s@ == joined_blocks(blocks@)
        } else {
            r is None
        },
{
    let mut out: Vec<T> = Vec::new();
    let mut i: usize = 0;
    assert(blocks@.take(0) =~= Seq::<(Vec<T>, Vec<T>)>::empty());
    assert(out@ =~= joined_blocks(blocks@.take(0)));
    while i < blocks.len()
        invariant
            i <= blocks@.len(),
            forall|k: int|
                0 <= k < blocks@.len() ==> (#[trigger] blocks@[k]).0@.len() == blocks@[k].1@.len(),
            out@ == joined_blocks(blocks@.take(i as int)),
        decreases blocks@.len() - i,
    {
        proof {
            assert(blocks@.take(i + 1).drop_last() =~= blocks@.take(i as int));
            assert(blocks@.take(i + 1).last() == blocks@[i as int]);
            assert(blocks@[i as int].0@.len() == blocks@[i as int].1@.len());
        }
        append_interleaved(&mut out, blocks[i].0.as_slice(), blocks[i].1.as_slice());
        i = i + 1;
    }
    assert(blocks@.take(i as int) =~= blocks@);
    if out.len() > 0 {
        Some(out)
    } else {
        None
    }
}

/// The tap of the voice has no influence on what becomes of the instrument.
pub proof fn the_voice_leaves_the_instrument_alone<T: Copy>(
    a: CaptureStage<T>,
    b: CaptureStage<T>,
    samples: Seq<T>,
)
    requires
        b == (CaptureStage { tap: b.tap, ..a }),
    ensures
        stereo_part(samples, a.channels_in, a.sel) == stereo_part(samples, b.channels_in, b.sel),
        a.resampling == b.resampling,
{
}

/// The instrument is heard from the channels that were chosen, and the voice from the one that
/// is tapped, frame by frame.
pub proof fn each_is_heard_from_its_own_channels<T>(
    samples: Seq<T>,
    channels_in: usize,
    start: u8,
    tapped: usize,
    f: int,
)
    requires
        start + 1 < channels_in,
        tapped < channels_in,
        0 <= f < samples.len() as int / channels_in as int,
    ensures
        ({
            let pair = stereo_part(samples, channels_in, ChannelSel::StereoPair(start));
            let mono = stereo_part(samples, channels_in, ChannelSel::Mono(start));
            let plain = stereo_part(samples, channels_in, ChannelSel::Default);
            let voice = voice_part(samples, channels_in, Some(tapped));
            let base = f * channels_in;
            &&& pair[2 * f] == samples[base + start] && pair[2 * f + 1] == samples[base + start + 1]
            &&& mono[2 * f] == samples[base + start] && mono[2 * f + 1] == samples[base + start]
            &&& plain[2 * f] == samples[base] && plain[2 * f + 1] == samples[base + 1]
            &&& voice[f] == samples[base + tapped]
            &&& voice.len() == samples.len() as int / channels_in as int
        }),
{
    assert((2 * f) / 2 == f && (2 * f + 1) / 2 == f);
}

/// Without a tap there is no voice, nor from a channel that the device does not have, and
/// without a channel no instrument.
pub proof fn no_channel_no_sound<T>(
    samples: Seq<T>,
    channels_in: usize,
    tapped: usize,
    sel: ChannelSel,
)
    ensures
        voice_part(samples, channels_in, None).len() == 0,
        tapped >= channels_in ==> voice_part(samples, channels_in, Some(tapped)).len() == 0,
        stereo_part(samples, 0, sel).len() == 0,
{
}

/// Blocks that were resampled are joined in their order, left and right in turn.
pub proof fn blocks_are_joined_in_their_order<T>(
    blocks: Seq<(Vec<T>, Vec<T>)>,
    block: (Vec<T>, Vec<T>),
    k: int,
)
    requires
        0 <= k < block.0@.len(),
    ensures
        joined_blocks(Seq::<(Vec<T>, Vec<T>)>::empty()).len() == 0,
        ({
            let before = joined_blocks(blocks);
            let all = joined_blocks(blocks.push(block));
            &&& all.len() == before.len() + 2 * block.0@.len()
            &&& all.take(before.len() as int) == before
            &&& all[before.len() + 2 * k] == block.0@[k]
            &&& all[before.len() + 2 * k + 1] == block.1@[k]
        }),
{
    assert(blocks.push(block).drop_last() =~= blocks);
    assert((2 * k) / 2 == k && (2 * k + 1) / 2 == k);
    let before = joined_blocks(blocks);
    assert(joined_blocks(blocks.push(block)).take(before.len() as int) =~= before);
}

/// Less than a block for the resampler waits, and on both sides as much.
pub proof fn both_sides_wait_alike<T: Copy>(s: CaptureStage<T>)
    requires
        s.wf(),
    ensures
        s.resampling matches Some(r) ==> r.left.pending@.len() < 1024 && r.right.pending@.len()
            == r.left.pending@.len(),
{
}

} // verus!
