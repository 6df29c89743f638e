//! The encode stage: cuts the sound into frames for the codec, and numbers the packets.

use crate::frames::{chunks_of, contents, interleaved, on_both_sides, rest_of, Chunker};
use vstd::prelude::*;

verus! {

/// Samples of a frame, on each side.
pub const FRAME_SIZE: usize = 120;

/// Samples of a frame, both sides in turn.
pub const FRAME_LEN: usize = 240;

/// The payload type of every packet, of the instrument and of the voice: Opus.
pub const PAYLOAD_TYPE: u8 = 111;

/// The head of a packet.
#[derive(Clone, Copy, Debug, PartialEq, Eq, Structural)]
pub struct RtpHeader {
    pub payload_type: u8,
    pub sequence: u16,
    pub timestamp: u32,
    pub ssrc: u32,
    pub marker: bool,
}

/// Numbers the packets of a stream.
#[derive(Clone, Copy, Debug, PartialEq, Eq, Structural)]
pub struct RtpClock {
    pub payload_type: u8,
    pub ssrc: u32,
    pub sequence: u16,
    pub timestamp: u32,
}

impl RtpClock {
    /// The clock after a packet.
    pub open spec fn next(self) -> RtpClock {
        RtpClock {
            sequence: ((self.sequence + 1) % 0x1_0000) as u16,
            timestamp: ((self.timestamp + FRAME_SIZE) % 0x1_0000_0000) as u32,
            ..self
        }
    }

    /// The clock after several packets.
    pub open spec fn after(self, packets: nat) -> RtpClock
        decreases packets,
    {
        if packets == 0 {
            self
        } else {
            self.after((packets - 1) as nat).next()
        }
    }

    pub fn new(ssrc: u32, payload_type: u8) -> (r: RtpClock)
        ensures
            r == (RtpClock { payload_type, ssrc, sequence: 0, timestamp: 0 }),
    {
        RtpClock { payload_type, ssrc, sequence: 0, timestamp: 0 }
    }

    /// The head of the next packet.
    pub fn header(&self) -> (r: RtpHeader)
        ensures
            r == (RtpHeader {
                payload_type: self.payload_type,
                sequence: self.sequence,
                timestamp: self.timestamp,
                ssrc: self.ssrc,
                marker: self.sequence == 0,
            }),
    {
        RtpHeader {
            payload_type: self.payload_type,
            sequence: self.sequence,
            timestamp: self.timestamp,
            ssrc: self.ssrc,
            marker: self.sequence == 0,
        }
    }

    /// Takes whether a frame was encoded. Only then a packet was made, and is counted,
    /// whether or not it could be sent. A frame that was not encoded is gone.
    pub fn frame_done(&mut self, encoded: bool)
        ensures
            *final(self) == if encoded {
                old(self).next()
            } else {
                *old(self)
            },
    {
        if encoded {
            self.sequence = self.sequence.wrapping_add(1);
            self.timestamp = self.timestamp.wrapping_add(FRAME_SIZE as u32);
        }
    }
}

/// The encoder of the instrument.
#[derive(Debug)]
pub struct EncodeStage<T> {
    pub pending: Chunker<T>,
    pub clock: RtpClock,
}

impl<T: Copy> EncodeStage<T> {
    pub open spec fn wf(self) -> bool {
        self.pending.wf() && self.pending.size == FRAME_LEN
    }

    pub fn new(ssrc: u32, payload_type: u8) -> (r: EncodeStage<T>)
        ensures
            r.wf(),
            r.pending.pending@.len() == 0,
            r.clock == (RtpClock { payload_type, ssrc, sequence: 0, timestamp: 0 }),
    {
        EncodeStage { pending: Chunker::new(FRAME_LEN), clock: RtpClock::new(ssrc, payload_type) }
    }

    /// The encoder that a capture starts with.
    pub fn for_capture(ssrc: u32) -> (r: EncodeStage<T>)
        ensures
            r.wf(),
            r.pending.pending@.len() == 0,
            r.clock == (RtpClock { payload_type: 111, ssrc, sequence: 0, timestamp: 0 }),
    {
        EncodeStage::new(ssrc, PAYLOAD_TYPE)
    }

    /// Takes a block, and gives the frames to encode, in order.
    pub fn on_block(&mut self, stereo: &[T]) -> (frames: Vec<Vec<T>>)
        requires
            old(self).wf(),
        ensures
            final(self).wf(),
            final(self).clock == old(self).clock,
            contents(frames@) == chunks_of(old(self).pending.pending@ + stereo@, FRAME_LEN as nat),
            final(self).pending.pending@ == rest_of(
                old(self).pending.pending@ + stereo@,
                FRAME_LEN as nat,
            ),
            forall|i: int|
                0 <= i < frames@.len() ==> (#[trigger] frames@[i])@ == (old(self).pending.pending@
                    + stereo@).subrange(240 * i, 240 * i + 240),
    {
        self.pending.push(stereo)
    }
}

/// The encoder of the voice.
#[derive(Debug)]
pub struct VoiceStage<T> {
    /// What waits for the resampler, where there is one.
    pub resampling: Option<Chunker<T>>,
    pub pending: Chunker<T>,
    pub clock: RtpClock,
}

/// What the voice's encoder makes of a block.
#[derive(Debug)]
pub enum VoiceOut<T> {
    Ready(Vec<T>),
    Resample(Vec<Vec<T>>),
}

/// The frames of a voice: the same on both sides.
pub open spec fn both_sides<T>(chunks: Seq<Seq<T>>) -> Seq<Seq<T>> {
    chunks.map_values(|c: Seq<T>| interleaved(c, c))
}

impl<T: Copy> VoiceStage<T> {
    pub open spec fn wf(self) -> bool {
        &&& self.pending.wf()
        &&& self.pending.size == FRAME_SIZE
        &&& self.resampling matches Some(c) ==> c.wf() && c.size
            == crate::stages::capture::RESAMPLE_CHUNK
    }

    pub fn new(ssrc: u32, payload_type: u8, resampling: bool) -> (r: VoiceStage<T>)
        ensures
            r.wf(),
            r.pending.pending@.len() == 0,
            r.resampling is Some == resampling,
            r.resampling matches Some(c) ==> c.pending@.len() == 0,
            r.clock == (RtpClock { payload_type, ssrc, sequence: 0, timestamp: 0 }),
    {
        VoiceStage {
            resampling: if resampling {
                Some(Chunker::new(crate::stages::capture::RESAMPLE_CHUNK))
            } else {
                None
            },
            pending: Chunker::new(FRAME_SIZE),
            clock: RtpClock::new(ssrc, payload_type),
        }
    }

    /// The encoder that a capture of the voice starts with.
    pub fn for_capture(ssrc: u32, resampling: bool) -> (r: VoiceStage<T>)
        ensures
            r.wf(),
            r.pending.pending@.len() == 0,
            r.resampling is Some == resampling,
            r.resampling matches Some(c) ==> c.pending@.len() == 0,
            r.clock == (RtpClock { payload_type: 111, ssrc, sequence: 0, timestamp: 0 }),
    {
        VoiceStage::new(ssrc, PAYLOAD_TYPE, resampling)
    }

    /// Takes a block of the voice at the device's rate.
    pub fn on_block(&mut self, raw: Vec<T>) -> (r: VoiceOut<T>)
        requires
            old(self).wf(),
        ensures
            final(self).wf(),
            final(self).pending == old(self).pending,
            final(self).clock == old(self).clock,
            match old(self).resampling {
                None => r == VoiceOut::Ready(raw) && final(self).resampling is None,
                Some(c) => {
                    let size = crate::stages::capture::RESAMPLE_CHUNK as nat;
                    &&& r matches VoiceOut::Resample(chunks)
                    &&& contents(chunks@) == chunks_of(c.pending@ + raw@, size)
                    &&& final(self).resampling matches Some(after)
                    &&& after.pending@ == rest_of(c.pending@ + raw@, size)
                },
            },
    {
        let resampling = self.resampling.take();
        match resampling {
            None => VoiceOut::Ready(raw),
            Some(c) => {
                let mut c = c;
                let chunks = c.push(raw.as_slice());
                self.resampling = Some(c);
                VoiceOut::Resample(chunks)
            },
        }
    }

    /// Takes samples of the voice at the rate of the session, their gain applied, and gives
    /// the frames to encode.
    pub fn on_samples(&mut self, mono: &[T]) -> (frames: Vec<Vec<T>>)
        requires
            old(self).wf(),
        ensures
            final(self).wf(),
            final(self).clock == old(self).clock,
            final(self).resampling == old(self).resampling,
            contents(frames@) == both_sides(
                chunks_of(old(self).pending.pending@ + mono@, FRAME_SIZE as nat),
            ),
            final(self).pending.pending@ == rest_of(
                old(self).pending.pending@ + mono@,
                FRAME_SIZE as nat,
            ),
            forall|i: int| 0 <= i < frames@.len() ==> (#[trigger] frames@[i])@.len() == 240,
    {
        let chunks = self.pending.push(mono);
        let ghost cut = contents(chunks@);
        let mut frames: Vec<Vec<T>> = Vec::new();
        let mut i: usize = 0;
        while i < chunks.len()
            invariant
                i <= chunks@.len(),
                cut == contents(chunks@),
                frames@.len() == i,
                forall|k: int|
                    0 <= k < i ==> (#[trigger] frames@[k])@ == interleaved(cut[k], cut[k]),
            decreases chunks@.len() - i,
        {
            assert(cut[i as int] == chunks@[i as int]@);
            frames.push(on_both_sides(chunks[i].as_slice()));
            i = i + 1;
        }
        assert(contents(frames@) =~= both_sides(cut));
        assert forall|k: int| 0 <= k < frames@.len() implies (#[trigger] frames@[k])@.len()
            == 240 by {
            assert(cut[k] == chunks@[k]@);
        }
        frames
    }
}

/// A frame of the voice has the length of a frame of the instrument.
pub proof fn a_voice_frame_is_a_frame<T>(chunk: Seq<T>)
    requires
        chunk.len() == FRAME_SIZE,
    ensures
        interleaved(chunk, chunk).len() == FRAME_LEN,
{
}

proof fn lemma_after(c: RtpClock, packets: nat)
    ensures
        c.after(packets).sequence == (c.sequence + packets) % 0x1_0000,
        c.after(packets).timestamp == (c.timestamp + FRAME_SIZE * packets) % 0x1_0000_0000,
        c.after(packets).ssrc == c.ssrc,
        c.after(packets).payload_type == c.payload_type,
    decreases packets,
{
    if packets > 0 {
        lemma_after(c, (packets - 1) as nat);
    }
}

/// Packets are numbered without a gap, and their time runs with the frames, however long the
/// stream: both begin anew when their range is used up.
pub proof fn packets_are_numbered_in_step(ssrc: u32, payload_type: u8, packets: nat)
    ensures
        ({
            let c = RtpClock { payload_type, ssrc, sequence: 0, timestamp: 0 }.after(packets);
            &&& c.sequence == packets % 0x1_0000
            &&& c.timestamp == (FRAME_SIZE * packets) % 0x1_0000_0000
            &&& c.ssrc == ssrc
            &&& c.payload_type == payload_type
        }),
{
    lemma_after(RtpClock { payload_type, ssrc, sequence: 0, timestamp: 0 }, packets);
}

/// From any packet of a stream to the next the number grows by one and the time by the 120
/// samples of a frame, each in its range; the stream and its codec stay the same.
pub proof fn the_next_packet_follows(c: RtpClock, packets: nat)
    ensures
        c.next().sequence == (c.sequence + 1) % 0x1_0000,
        c.next().timestamp == (c.timestamp + 120) % 0x1_0000_0000,
        c.next().ssrc == c.ssrc,
        c.next().payload_type == c.payload_type,
        c.after(0) == c,
        c.after(packets + 1) == c.after(packets).next(),
{
}

/// A voice has each of its samples on both sides.
pub proof fn a_voice_is_heard_on_both_sides<T>(chunks: Seq<Seq<T>>, i: int, k: int)
    requires
        0 <= i < chunks.len(),
        0 <= k < chunks[i].len(),
    ensures
        both_sides(chunks).len() == chunks.len(),
        both_sides(chunks)[i].len() == 2 * chunks[i].len(),
        both_sides(chunks)[i][2 * k] == chunks[i][k],
        both_sides(chunks)[i][2 * k + 1] == chunks[i][k],
{
    assert((2 * k) / 2 == k && (2 * k + 1) / 2 == k);
}

/// Less than a frame waits: 240 samples of an instrument, 120 of a voice.
pub proof fn less_than_a_frame_waits<T: Copy>(e: EncodeStage<T>, v: VoiceStage<T>)
    requires
        e.wf(),
        v.wf(),
    ensures
        e.pending.pending@.len() < 240,
        v.pending.pending@.len() < 120,
        v.resampling matches Some(c) ==> c.pending@.len() < 1024,
{
}

} // verus!
