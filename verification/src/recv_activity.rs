//! Activity of a received stream: for how long no packet has come.
//!
//! A stream is never removed because it is silent: its life belongs to the browser, which adds
//! and removes it. A silence is a state that the browser is told of. It ends with the next
//! packet.

use crate::clock::Instant;
use vstd::prelude::*;

verus! {

/// A silence beyond this is logged, and so is its end.
pub const SILENCE_LOG_AFTER_MS: u64 = 3_000;

/// When the last packet of a stream came, counted from the stream's beginning.
#[derive(Clone, Copy, Debug, PartialEq, Eq, Structural)]
pub struct RecvActivity {
    pub born: Instant,
    /// Milliseconds; zero until a packet came.
    pub last_packet_ms: u64,
    pub recv_errors: u64,
}

impl RecvActivity {
    /// Milliseconds without a packet.
    pub open spec fn silence(self, now: Instant) -> int {
        let elapsed = now.millis_since(self.born);
        if elapsed >= self.last_packet_ms {
            elapsed - self.last_packet_ms
        } else {
            0
        }
    }

    pub fn new(born: Instant) -> (r: RecvActivity)
        ensures
            r == (RecvActivity { born, last_packet_ms: 0, recv_errors: 0 }),
    {
        RecvActivity { born, last_packet_ms: 0, recv_errors: 0 }
    }

    /// A packet came at `at`.
    pub fn mark_packet(&mut self, at: Instant)
        ensures
            *final(self) == (RecvActivity {
                last_packet_ms: at.millis_since(old(self).born) as u64,
                ..*old(self)
            }),
    {
        self.last_packet_ms = at.elapsed_millis(self.born);
    }

    /// The socket gave an error.
    pub fn mark_recv_error(&mut self)
        ensures
            *final(self) == (RecvActivity {
                recv_errors: ((old(self).recv_errors + 1) % 0x1_0000_0000_0000_0000) as u64,
                ..*old(self)
            }),
    {
        self.recv_errors = self.recv_errors.wrapping_add(1);
    }

    /// Errors of the socket since the stream began.
    pub fn recv_errors(&self) -> (r: u64)
        ensures
            r == self.recv_errors,
    {
        self.recv_errors
    }

    /// Milliseconds without a packet, up to `now`.
    pub fn silent_ms(&self, now: Instant) -> (r: u64)
        ensures
            r == self.silence(now),
    {
        let elapsed: u64 = now.elapsed_millis(self.born);
        elapsed.saturating_sub(self.last_packet_ms)
    }
}

/// A packet ends the silence, however long it was, and without a packet the silence counts
/// from the beginning of the stream.
pub proof fn a_packet_ends_the_silence(a: RecvActivity, at: Instant)
    ensures
        (RecvActivity { last_packet_ms: at.millis_since(a.born) as u64, ..a }).silence(at) == 0,
        a.last_packet_ms == 0 ==> a.silence(at) == at.millis_since(a.born),
{
}

/// The silence grows with time until the next packet.
pub proof fn silence_only_grows_until_a_packet(a: RecvActivity, t1: Instant, t2: Instant)
    requires
        t1.nanos <= t2.nanos,
    ensures
        a.silence(t1) <= a.silence(t2),
{
}

/// The silence is the time since the last packet: both times, counted from the beginning of
/// the stream, differ by it.
pub proof fn the_silence_is_the_time_since_the_last_packet(a: RecvActivity, now: Instant)
    requires
        now.nanos >= a.born.nanos + a.last_packet_ms * 1_000_000,
    ensures
        a.born.nanos + (a.last_packet_ms + a.silence(now)) * 1_000_000 <= now.nanos,
        now.nanos < a.born.nanos + (a.last_packet_ms + a.silence(now) + 1) * 1_000_000,
{
}

/// Before the last packet there is no silence.
pub proof fn before_the_last_packet_is_no_silence(a: RecvActivity, now: Instant)
    requires
        now.nanos <= a.born.nanos + a.last_packet_ms * 1_000_000,
    ensures
        a.silence(now) == 0,
{
}

} // verus!
