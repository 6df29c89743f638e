//! Keeps the audio callbacks alive.
//!
//! A driver may ask for a reset, or stop calling without a word. Either way its streams are
//! closed and opened again while the session goes on. Where that keeps failing the session
//! is kept all the same, and attempts go on at a slower pace: plugging the interface in again
//! brings the sound back.

use crate::clock::Instant;
use crate::perfstats::BufferPolicy;
use crate::pipeline::{close_stream_effects, only_driver, AudioDriver, Effect, PipelineState, Session};
use crate::text;
use vstd::prelude::*;
use vstd::string::*;

verus! {

/// How often the callbacks are looked at, in milliseconds.
pub const TICK_MS: u64 = 250;

/// Without a callback for so long, the streams are taken for dead.
pub const FLATLINE_MS: u64 = 800;

/// Shortest time between two repairs.
pub const MIN_REPAIR_MS: u64 = 2_000;

/// The same while repairs fail.
pub const DEGRADED_RETRY_MS: u64 = 8_000;

/// How long a parked driver is kept.
pub const PARK_GRACE_MS: u64 = 30_000;

/// The time to wait after the machine woke up, in milliseconds: what is set, if it is a
/// number, else six seconds.
pub fn resume_reinit_settle(set: Option<&str>) -> (r: u64)
    ensures
        r == match set {
            Some(s) => match text::parsed_number(s@) {
                Some(n) => n,
                None => 6_000,
            },
            None => 6_000,
        },
{
    match set {
        Some(s) => match text::parse_number(s) {
            Some(n) => n,
            None => 6_000,
        },
        None => 6_000,
    }
}

/// What is seen at a look.
#[derive(Clone, Copy, Debug, PartialEq, Eq, Structural)]
pub struct Look {
    pub now: Instant,
    pub capturing: bool,
    /// The input is open.
    pub has_stream: bool,
    /// Callbacks so far, in either direction.
    pub cap: u64,
    pub out: u64,
    /// Resets that the driver has asked for so far.
    pub resets: u64,
    /// Times that the machine woke up so far.
    pub resumes: u64,
}

/// What is to be done.
#[derive(Clone, Copy, Debug, PartialEq, Eq, Structural)]
pub enum LivenessAction {
    Wait,
    /// Open the streams anew at another size of buffers.
    Resize,
    /// Mute, close, wait until the interface is stable, open anew.
    Reinit,
    /// Close and open anew, with several attempts.
    Repair,
}

#[derive(Clone, Copy, Debug, PartialEq, Eq, Structural)]
pub struct Supervisor {
    pub session_active: bool,
    pub prev_cap: u64,
    pub prev_out: u64,
    pub last_progress: Instant,
    pub last_reset_seen: u64,
    pub last_resume_seen: u64,
    /// The last repair failed.
    pub degraded: bool,
    pub last_repair: Option<Instant>,
}

/// Is `ms` over since `t`?
pub open spec fn is_over(t: Instant, now: Instant, ms: u64) -> bool {
    now.nanos_since(t) >= ms * 1_000_000
}

impl Supervisor {
    /// Starts from what is seen; nothing is pending.
    pub open spec fn rebased(self, look: Look) -> Supervisor {
        Supervisor {
            prev_cap: look.cap,
            prev_out: look.out,
            last_progress: look.now,
            last_reset_seen: look.resets,
            last_resume_seen: look.resumes,
            ..self
        }
    }

    /// Are both directions called?
    pub open spec fn advances(self, look: Look) -> bool {
        look.cap > self.prev_cap && look.out > self.prev_out
    }

    /// Does something call for a repair?
    pub open spec fn needs_repair(self, look: Look) -> bool {
        ||| look.resets != self.last_reset_seen
        ||| !self.advances(look) && (!look.has_stream || look.now.millis_since(self.last_progress)
            >= FLATLINE_MS)
    }

    /// Was the last repair too recent for another?
    pub open spec fn is_throttled(self, now: Instant) -> bool {
        match self.last_repair {
            Some(t) => !is_over(
                t,
                now,
                if self.degraded {
                    DEGRADED_RETRY_MS
                } else {
                    MIN_REPAIR_MS
                },
            ),
            None => false,
        }
    }

    /// What a look calls for.
    pub open spec fn verdict(self, look: Look, resize: bool) -> LivenessAction {
        if !look.capturing || !self.session_active {
            LivenessAction::Wait
        } else if resize {
            LivenessAction::Resize
        } else if look.resumes != self.last_resume_seen {
            LivenessAction::Reinit
        } else if self.needs_repair(look) && !self.is_throttled(look.now) {
            LivenessAction::Repair
        } else {
            LivenessAction::Wait
        }
    }

    pub fn new(now: Instant, resets: u64, resumes: u64) -> (r: Supervisor)
        ensures
            r == (Supervisor {
                session_active: false,
                prev_cap: 0,
                prev_out: 0,
                last_progress: now,
                last_reset_seen: resets,
                last_resume_seen: resumes,
                degraded: false,
                last_repair: None,
            }),
    {
        Supervisor {
            session_active: false,
            prev_cap: 0,
            prev_out: 0,
            last_progress: now,
            last_reset_seen: resets,
            last_resume_seen: resumes,
            degraded: false,
            last_repair: None,
        }
    }

    fn rebase(&mut self, look: Look)
        ensures
            *final(self) == old(self).rebased(look),
    {
        self.prev_cap = look.cap;
        self.prev_out = look.out;
        self.last_progress = look.now;
        self.last_reset_seen = look.resets;
        self.last_resume_seen = look.resumes;
    }

    /// Takes a look. Without a session, and at the first look at one, everything is taken
    /// as it is: what came in before is void, a request for other buffers included.
    pub fn observe(&mut self, look: Look, policy: &mut BufferPolicy) -> (r: LivenessAction)
        ensures
            r == old(self).verdict(look, old(policy).rebuild_requested),
            *final(policy) == (BufferPolicy { rebuild_requested: false, ..*old(policy) }),
            ({
                let s = *old(self);
                if !look.capturing || !s.session_active {
                    *final(self) == (Supervisor {
                        session_active: look.capturing,
                        degraded: false,
                        ..s.rebased(look)
                    })
                } else if r == LivenessAction::Resize || r == LivenessAction::Reinit {
                    *final(self) == s
                } else {
                    *final(self) == (Supervisor {
                        prev_cap: look.cap,
                        prev_out: look.out,
                        last_progress: if s.advances(look) && look.resets == s.last_reset_seen {
                            look.now
                        } else {
                            s.last_progress
                        },
                        degraded: s.degraded && !(s.advances(look) && look.resets
                            == s.last_reset_seen),
                        last_repair: if r == LivenessAction::Repair {
                            Some(look.now)
                        } else {
                            s.last_repair
                        },
                        ..s
                    })
                }
            }),
            old(self).session_active && look.capturing && final(self).last_progress != old(
                self,
            ).last_progress ==> {
                &&& look.cap > old(self).prev_cap
                &&& look.out > old(self).prev_out
                &&& final(self).last_progress == look.now
            },
            old(self).session_active && look.capturing && !old(policy).rebuild_requested
                && look.resumes == old(self).last_resume_seen && look.resets == old(
                self,
            ).last_reset_seen && look.cap > old(self).prev_cap && look.out > old(self).prev_out
                ==> {
                &&& r == LivenessAction::Wait
                &&& final(self).last_progress == look.now
                &&& !final(self).degraded
                &&& final(self).prev_cap == look.cap && final(self).prev_out == look.out
            },
    {
        let resize = policy.take_rebuild_request();
        if !look.capturing || !self.session_active {
            self.session_active = look.capturing;
            self.degraded = false;
            self.rebase(look);
            return LivenessAction::Wait;
        }
        if resize {
            return LivenessAction::Resize;
        }
        if look.resumes != self.last_resume_seen {
            return LivenessAction::Reinit;
        }
        let reset_requested = look.resets != self.last_reset_seen;
        let advancing = look.cap > self.prev_cap && look.out > self.prev_out;
        self.prev_cap = look.cap;
        self.prev_out = look.out;
        if advancing && !reset_requested {
            self.last_progress = look.now;
            self.degraded = false;
            return LivenessAction::Wait;
        }
        let flatline = !advancing && look.now.elapsed_millis(self.last_progress) >= FLATLINE_MS;
        if !(reset_requested || !look.has_stream || flatline) {
            return LivenessAction::Wait;
        }
        let gap: u64 = if self.degraded {
            DEGRADED_RETRY_MS
        } else {
            MIN_REPAIR_MS
        };
        match self.last_repair {
            Some(t) => if look.now.elapsed_nanos(t) < gap * 1_000_000 {
                return LivenessAction::Wait;
            },
            None => {},
        }
        self.last_repair = Some(look.now);
        LivenessAction::Repair
    }

    /// The streams were opened anew at another size, or after the machine woke up, with
    /// whatever success. If they were not, the next looks see that.
    pub fn reopened(&mut self, look: Look)
        ensures
            *final(self) == (Supervisor {
                last_repair: Some(look.now),
                ..old(self).rebased(look)
            }),
    {
        self.rebase(look);
        self.last_repair = Some(look.now);
    }

    /// A repair is over.
    pub fn repaired(&mut self, look: Look, succeeded: bool)
        ensures
            *final(self) == (Supervisor { degraded: !succeeded, ..old(self).rebased(look) }),
    {
        self.rebase(look);
        self.degraded = !succeeded;
    }
}

/// Attempts of a repair.
pub const REPAIR_ATTEMPTS: usize = 4;

/// The wait before an attempt, in milliseconds: the driver has to let go of the device
/// first.
pub open spec fn backoff_ms(attempt: int) -> u64 {
    if attempt == 0 {
        350
    } else if attempt == 1 {
        600
    } else if attempt == 2 {
        1_200
    } else {
        2_500
    }
}

/// A repair that is under way.
#[derive(Debug)]
pub struct Repair {
    /// Attempts that have failed.
    pub attempt: usize,
    pub last_error: String,
}

/// What a repair does next.
#[derive(Debug)]
pub enum RepairStep {
    /// Wait, then open the streams.
    Attempt { wait_ms: u64 },
    Over(Result<(), String>),
}

impl Repair {
    pub open spec fn wf(self) -> bool {
        self.attempt < REPAIR_ATTEMPTS
    }

    /// Begins a repair: the streams are closed, so that the driver lets go.
    pub fn begin(pl: &mut PipelineState) -> (r: (Repair, Vec<Effect>, RepairStep))
        requires
            old(pl).wf(),
        ensures
            final(pl).wf(),
            only_driver(*old(pl), *final(pl)),
            final(pl).driver == (AudioDriver {
                capture_open: false,
                playback_open: false,
                asio_host_open: false,
                reset_guard: false,
                input_buffer_samples: None,
                output_buffer_samples: None,
                ..old(pl).driver
            }),
            r.1@ == close_stream_effects(old(pl).driver),
            r.0.wf(),
            r.0.attempt == 0,
            r.0.last_error@ == "inconnu"@,
            r.2 == (RepairStep::Attempt { wait_ms: backoff_ms(0) }),
            r.2 == (RepairStep::Attempt { wait_ms: 350 }),
    {
        let effects = pl.close_audio_streams_for_reset();
        (
            Repair { attempt: 0, last_error: "inconnu".to_owned() },
            effects,
            RepairStep::Attempt { wait_ms: 350 },
        )
    }

    /// Takes what came of an attempt. The error of the last one is the error of the repair.
    pub fn attempted(&mut self, result: Result<(), String>) -> (r: RepairStep)
        requires
            old(self).wf(),
        ensures
            match result {
                Ok(()) => r == RepairStep::Over(Ok(())) && *final(self) == *old(self),
                Err(e) => {
                    &&& final(self).attempt == old(self).attempt + 1
                    &&& final(self).last_error == e
                    &&& if final(self).attempt < REPAIR_ATTEMPTS {
                        final(self).wf() && r == (RepairStep::Attempt {
                            wait_ms: backoff_ms(final(self).attempt as int),
                        })
                    } else {
                        r == RepairStep::Over(Err(e))
                    }
                },
            },
            result matches Err(e) ==> {
                &&& old(self).attempt == 0 ==> r == (RepairStep::Attempt { wait_ms: 600 })
                &&& old(self).attempt == 1 ==> r == (RepairStep::Attempt { wait_ms: 1_200 })
                &&& old(self).attempt == 2 ==> r == (RepairStep::Attempt { wait_ms: 2_500 })
                &&& old(self).attempt == 3 ==> r == RepairStep::Over(Err(e))
            },
    {
        match result {
            Ok(()) => RepairStep::Over(Ok(())),
            Err(e) => {
                self.attempt = self.attempt + 1;
                self.last_error = e.clone();
                if self.attempt < REPAIR_ATTEMPTS {
                    let wait_ms: u64 = if self.attempt == 1 {
                        600
                    } else if self.attempt == 2 {
                        1_200
                    } else {
                        2_500
                    };
                    RepairStep::Attempt { wait_ms }
                } else {
                    RepairStep::Over(Err(e))
                }
            },
        }
    }
}

/// After the machine woke up, first half: nothing is taken from the input any more, and the
/// streams are closed.
pub fn reinit_begin(pl: &mut PipelineState) -> (effects: Vec<Effect>)
    requires
        old(pl).wf(),
    ensures
        final(pl).wf(),
        final(pl).session == (Session {
            capture_feeding: false,
            input_rms: 0,
            ..old(pl).session
        }),
        final(pl).driver == (AudioDriver {
            capture_open: false,
            playback_open: false,
            asio_host_open: false,
            reset_guard: false,
            input_buffer_samples: None,
            output_buffer_samples: None,
            ..old(pl).driver
        }),
        final(pl).reception == old(pl).reception,
        final(pl).state == old(pl).state,
        final(pl).recording == old(pl).recording,
        final(pl).com_recycle_pending == old(pl).com_recycle_pending,
        final(pl).same_settings(*old(pl)),
        effects@ == close_stream_effects(old(pl).driver),
{
    pl.set_capture_feeding(false);
    pl.close_audio_streams_for_reset()
}

/// Second half, once the streams are open again or could not be opened: the player's own
/// sound starts with an empty buffer, and the input is taken again.
pub fn reinit_end(pl: &mut PipelineState) -> (effects: Vec<Effect>)
    ensures
        *final(pl) == (PipelineState {
            session: Session { capture_feeding: true, ..old(pl).session },
            ..*old(pl)
        }),
        effects@ == seq![Effect::ResetSelfMonitor],
{
    pl.set_capture_feeding(true);
    let mut effects: Vec<Effect> = Vec::new();
    effects.push(Effect::ResetSelfMonitor);
    assert(effects@ =~= seq![Effect::ResetSelfMonitor]);
    effects
}

/// A session in which both directions are called, and the driver asks for nothing, is left
/// alone.
pub proof fn a_sound_session_is_left_alone(s: Supervisor, look: Look)
    requires
        s.advances(look),
        look.resets == s.last_reset_seen,
        look.resumes == s.last_resume_seen,
    ensures
        s.verdict(look, false) == LivenessAction::Wait,
{
}

/// Nothing is repaired without a session, and nothing that came in before one is acted on
/// when it begins.
pub proof fn nothing_is_repaired_outside_a_session(s: Supervisor, look: Look, resize: bool)
    requires
        !look.capturing || !s.session_active,
    ensures
        s.verdict(look, resize) == LivenessAction::Wait,
        s.rebased(look).last_reset_seen == look.resets,
        s.rebased(look).last_resume_seen == look.resumes,
{
}

/// Two repairs are never closer than the pause that is due, however often the driver asks.
pub proof fn repairs_keep_their_distance(s: Supervisor, t: Instant, look: Look)
    requires
        s.last_repair == Some(t),
        look.resumes == s.last_resume_seen,
        !is_over(
            t,
            look.now,
            if s.degraded {
                DEGRADED_RETRY_MS
            } else {
                MIN_REPAIR_MS
            },
        ),
    ensures
        s.verdict(look, false) == LivenessAction::Wait,
{
}

/// A driver that asks for a reset gets one, unless the last repair was just now.
pub proof fn a_reset_request_is_honoured(s: Supervisor, look: Look)
    requires
        look.capturing,
        s.session_active,
        look.resets != s.last_reset_seen,
        look.resumes == s.last_resume_seen,
        !s.is_throttled(look.now),
    ensures
        s.verdict(look, false) == LivenessAction::Repair,
{
}

/// A session in which one direction is not called any more is repaired, however well the other
/// one goes on, once 800 milliseconds have passed since both were last seen to advance.
pub proof fn one_dead_direction_is_repaired(s: Supervisor, look: Look)
    requires
        look.capturing,
        s.session_active,
        look.resumes == s.last_resume_seen,
        look.cap <= s.prev_cap || look.out <= s.prev_out,
        look.now.nanos >= s.last_progress.nanos + 800 * 1_000_000,
        s.last_repair matches Some(t) ==> {
            &&& look.now.nanos >= t.nanos + 2_000 * 1_000_000
            &&& s.degraded ==> look.now.nanos >= t.nanos + 8_000 * 1_000_000
        },
    ensures
        s.verdict(look, false) == LivenessAction::Repair,
{
}

/// A session whose input is gone is repaired at once, and a driver that asks for a reset gets
/// it at once, if it is not too soon after the last repair: two seconds, or eight while
/// repairs fail.
pub proof fn a_lost_input_and_a_reset_are_not_waited_for(s: Supervisor, look: Look)
    requires
        look.capturing,
        s.session_active,
        look.resumes == s.last_resume_seen,
        look.resets != s.last_reset_seen || !look.has_stream && (look.cap <= s.prev_cap || look.out
            <= s.prev_out),
    ensures
        s.last_repair is None ==> s.verdict(look, false) == LivenessAction::Repair,
        s.last_repair matches Some(t) ==> look.now.nanos >= t.nanos ==> {
            let pause: int = if s.degraded {
                8_000_000_000
            } else {
                2_000_000_000
            };
            &&& look.now.nanos - t.nanos >= pause ==> s.verdict(look, false)
                == LivenessAction::Repair
            &&& look.now.nanos - t.nanos < pause ==> s.verdict(look, false) == LivenessAction::Wait
        },
{
}

/// As long as both directions advance, or have advanced less than 800 milliseconds ago while
/// the input is open, and the driver asks for nothing, nothing is done.
pub proof fn a_short_pause_is_no_death(s: Supervisor, look: Look)
    requires
        look.resets == s.last_reset_seen,
        look.resumes == s.last_resume_seen,
        look.cap > s.prev_cap && look.out > s.prev_out || look.has_stream && look.now.nanos
            < s.last_progress.nanos + 800 * 1_000_000,
    ensures
        s.verdict(look, false) == LivenessAction::Wait,
{
}

/// Another size of buffers comes before anything else, and a machine that woke up comes before
/// a repair; either only in a session.
pub proof fn the_larger_measure_comes_first(s: Supervisor, look: Look, resize: bool)
    ensures
        look.capturing && s.session_active && resize ==> s.verdict(look, resize)
            == LivenessAction::Resize,
        look.capturing && s.session_active && !resize && look.resumes != s.last_resume_seen
            ==> s.verdict(look, resize) == LivenessAction::Reinit,
        !look.capturing || !s.session_active ==> s.verdict(look, resize) == LivenessAction::Wait,
{
}

/// After streams were opened, counting starts from what is seen then: an old count, an old
/// request and an old silence are void, and nothing else is.
pub proof fn counting_starts_anew(s: Supervisor, look: Look)
    ensures
        ({
            let r = s.rebased(look);
            &&& r.prev_cap == look.cap && r.prev_out == look.out
            &&& r.last_progress == look.now
            &&& r.last_reset_seen == look.resets
            &&& r.last_resume_seen == look.resumes
            &&& r.session_active == s.session_active
            &&& r.degraded == s.degraded
            &&& r.last_repair == s.last_repair
        }),
{
}

/// The waits of a repair: 350, 600, 1200 and 2500 milliseconds. Each is longer than the one
/// before.
pub proof fn each_wait_of_a_repair_is_longer(attempt: int)
    ensures
        backoff_ms(0) == 350,
        backoff_ms(1) == 600,
        backoff_ms(2) == 1_200,
        backoff_ms(3) == 2_500,
        0 <= attempt < 3 ==> backoff_ms(attempt) < backoff_ms(attempt + 1),
{
}

/// A time is over once as many milliseconds have gone by, counted by the clock.
pub proof fn a_time_is_over_by_the_clock(t: Instant, now: Instant, ms: u64)
    requires
        ms > 0,
    ensures
        is_over(t, now, ms) <==> now.nanos >= t.nanos + ms * 1_000_000,
{
}

} // verus!
