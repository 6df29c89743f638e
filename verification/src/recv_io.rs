//! The reception of a stream from the network, up to the decoder.
//!
//! A stream lives until it is removed. A silence does not end it: the sound goes on when
//! packets come again.

use crate::clock::Instant;
use vstd::prelude::*;

verus! {

/// Packets that are sent to open the way for a stream.
pub const PUNCHES: u32 = 30;

/// The time between two of them, in milliseconds.
pub const PUNCH_PERIOD_MS: u64 = 100;

/// How often a silence is looked for.
pub const IDLE_CHECK_MS: u64 = 2_000;

/// The pause after an error of the socket.
pub const ERROR_PAUSE_MS: u64 = 10;

/// What happened.
#[derive(Clone, Copy, Debug, PartialEq, Eq, Structural)]
pub enum IoEvent {
    /// The stream is to end.
    Stop,
    PunchTick,
    /// Time to look for a silence.
    IdleTick,
    /// A packet came in. One without content was filtered out, or could not be decrypted.
    Packet { len: usize, now: Instant },
    SocketError,
    /// The decoder is gone.
    DecoderGone,
}

/// What is done about it.
#[derive(Clone, Copy, Debug, PartialEq, Eq, Structural)]
pub enum IoStep {
    Continue,
    Punch,
    /// Hand the packet to the decoder, with the time of its arrival.
    Deliver { arrived: Instant },
    Pause { ms: u64 },
    /// Tell the decoder that the connection has ended. Nothing follows.
    End,
}

#[derive(Clone, Copy, Debug, PartialEq, Eq, Structural)]
pub struct RecvIo {
    pub punch_remaining: u32,
    pub got_first: bool,
}

impl RecvIo {
    pub fn new() -> (r: RecvIo)
        ensures
            r == (RecvIo { punch_remaining: PUNCHES, got_first: false }),
            r.punch_remaining == 30,
    {
        RecvIo { punch_remaining: PUNCHES, got_first: false }
    }

    /// Takes what happened. Punches stop with the first packet. Only a stop, or a decoder
    /// that is gone, ends the stream.
    pub fn step(&mut self, ev: IoEvent) -> (r: IoStep)
        ensures
            r == IoStep::End <==> ev == IoEvent::Stop || ev == IoEvent::DecoderGone,
            match ev {
                IoEvent::Stop | IoEvent::DecoderGone => r == IoStep::End && *final(self) == *old(
                    self,
                ),
                IoEvent::PunchTick => if old(self).punch_remaining > 0 {
                    r == IoStep::Punch && *final(self) == (RecvIo {
                        punch_remaining: (old(self).punch_remaining - 1) as u32,
                        ..*old(self)
                    })
                } else {
                    r == IoStep::Continue && *final(self) == *old(self)
                },
                IoEvent::IdleTick => r == IoStep::Continue && *final(self) == *old(self),
                IoEvent::Packet { len, now } => if len > 0 {
                    &&& r == (IoStep::Deliver { arrived: now })
                    &&& *final(self) == (RecvIo {
                        punch_remaining: if old(self).got_first {
                            old(self).punch_remaining
                        } else {
                            0
                        },
                        got_first: true,
                    })
                } else {
                    r == IoStep::Continue && *final(self) == *old(self)
                },
                IoEvent::SocketError => r == (IoStep::Pause { ms: ERROR_PAUSE_MS }) && *final(self)
                    == *old(self),
            },
            ev == IoEvent::SocketError ==> r == (IoStep::Pause { ms: 10 }),
    {
        match ev {
            IoEvent::Stop => IoStep::End,
            IoEvent::DecoderGone => IoStep::End,
            IoEvent::PunchTick => if self.punch_remaining > 0 {
                self.punch_remaining = self.punch_remaining - 1;
                IoStep::Punch
            } else {
                IoStep::Continue
            },
            IoEvent::IdleTick => IoStep::Continue,
            IoEvent::Packet { len, now } => if len > 0 {
                if !self.got_first {
                    self.got_first = true;
                    self.punch_remaining = 0;
                }
                IoStep::Deliver { arrived: now }
            } else {
                IoStep::Continue
            },
            IoEvent::SocketError => IoStep::Pause { ms: ERROR_PAUSE_MS },
        }
    }
}

} // verus!
