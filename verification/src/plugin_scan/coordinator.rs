//! The agent's side of a scan: a worker is started on the items that remain, until none
//! does or starting another would not help.

use crate::plugin::PluginInfo;
use crate::plugin_scan::protocol::WorkerEvent;
use crate::plugin_scan::session::{BlockedItem, CloseCause, Progress, Session, SessionEnd};
use vstd::prelude::*;
use vstd::string::*;

verus! {

/// Longest silence of a worker, in milliseconds. Loading a heavy plugin takes about four
/// seconds.
pub const ITEM_TIMEOUT_MS: u64 = 30_000;

/// Most workers that one scan starts.
pub const MAX_SESSIONS: usize = 256;

/// Result of a scan.
#[derive(Debug)]
pub struct ScanOutcome {
    pub plugins: Vec<PluginInfo>,
    pub blocked: Vec<BlockedItem>,
    /// Items that no worker brought to an end and that are not condemned either. There are
    /// some only if the scan was given up.
    pub unfinished: Vec<String>,
}

/// A scan in progress.
pub struct ScanRun {
    pub outcome: ScanOutcome,
    pub remaining: Vec<String>,
    pub sessions: usize,
    /// No further worker is started.
    pub stopped: bool,
}

impl ScanRun {
    pub open spec fn wf(self) -> bool {
        self.sessions <= MAX_SESSIONS
    }

    /// Is another worker due?
    pub open spec fn goes_on(self) -> bool {
        self.remaining@.len() > 0 && !self.stopped && self.sessions < MAX_SESSIONS
    }

    pub fn new(items: Vec<String>) -> (r: ScanRun)
        ensures
            r.wf(),
            r.remaining == items,
            r.sessions == 0,
            !r.stopped,
            r.outcome.plugins@.len() == 0,
            r.outcome.blocked@.len() == 0,
            r.outcome.unfinished@.len() == 0,
    {
        ScanRun {
            outcome: ScanOutcome {
                plugins: Vec::new(),
                blocked: Vec::new(),
                unfinished: Vec::new(),
            },
            remaining: items,
            sessions: 0,
            stopped: false,
        }
    }

    /// The items for the next worker, where one is due.
    pub fn next_session(&mut self) -> (r: Option<Vec<String>>)
        requires
            old(self).wf(),
        ensures
            final(self).wf(),
            final(self).outcome == old(self).outcome,
            final(self).remaining == old(self).remaining,
            final(self).stopped == old(self).stopped,
            old(self).goes_on() ==> {
                &&& final(self).sessions == old(self).sessions + 1
                &&& r matches Some(items)
                &&& items@ == old(self).remaining@
            },
            !old(self).goes_on() ==> r is None && final(self).sessions == old(self).sessions,
    {
        if self.remaining.len() == 0 || self.stopped || self.sessions >= MAX_SESSIONS {
            return None;
        }
        self.sessions = self.sessions + 1;
        Some(duplicate_items(&self.remaining))
    }

    /// The worker could not be started: the scan ends with what it has.
    pub fn session_failed(&mut self)
        requires
            old(self).wf(),
        ensures
            final(self).wf(),
            final(self).stopped,
            final(self).outcome == old(self).outcome,
            final(self).remaining == old(self).remaining,
            final(self).sessions == old(self).sessions,
    {
        self.stopped = true;
    }

    /// Takes the verdict of a session. A worker that condemned nobody and finished nothing
    /// failed for a reason of its own, and another one would fail as well.
    pub fn session_ended(&mut self, end: SessionEnd)
        requires
            old(self).wf(),
        ensures
            final(self).wf(),
            final(self).sessions == old(self).sessions,
            final(self).outcome.plugins@ == old(self).outcome.plugins@ + end.plugins@,
            final(self).outcome.blocked@ == match end.blocked {
                Some(b) => old(self).outcome.blocked@.push(b),
                None => old(self).outcome.blocked@,
            },
            final(self).outcome.unfinished == old(self).outcome.unfinished,
            end.blocked is None && !end.progressed ==> final(self).stopped
                && final(self).remaining == old(self).remaining,
            end.blocked is Some || end.progressed ==> final(self).stopped == old(self).stopped
                && final(self).remaining == end.remaining,
    {
        let SessionEnd { plugins, blocked, remaining, progressed } = end;
        let mut plugins = plugins;
        self.outcome.plugins.append(&mut plugins);
        let condemned = blocked.is_some();
        match blocked {
            Some(b) => {
                self.outcome.blocked.push(b);
            },
            None => {},
        }
        if !condemned && !progressed {
            self.stopped = true;
        } else {
            self.remaining = remaining;
        }
    }

    /// Ends the scan. What remains is unfinished.
    pub fn finish(self) -> (r: ScanOutcome)
        ensures
            r == (ScanOutcome { unfinished: self.remaining, ..self.outcome }),
    {
        let ScanOutcome { plugins, blocked, unfinished: _ } = self.outcome;
        ScanOutcome { plugins, blocked, unfinished: self.remaining }
    }
}

/// A copy of a list of items.
fn duplicate_items(items: &Vec<String>) -> (r: Vec<String>)
    ensures
        r@ == items@,
{
    let mut r: Vec<String> = Vec::new();
    let mut i: usize = 0;
    while i < items.len()
        invariant
            i <= items@.len(),
            r@ == items@.take(i as int),
        decreases items@.len() - i,
    {
        r.push(items[i].clone());
        assert(items@.take(i + 1) =~= items@.take(i as int).push(items@[i as int]));
        i = i + 1;
    }
    assert(items@.take(i as int) =~= items@);
    r
}

/// What comes from a worker while it is listened to.
#[derive(Debug)]
pub enum WorkerSignal {
    Event(WorkerEvent),
    /// A line that is no event.
    Unreadable,
    /// Its output has ended.
    Gone,
    /// Nothing came for longer than an item may take.
    Silent,
}

/// What to do after a signal.
#[derive(Clone, Copy, Debug, PartialEq, Eq, Structural)]
pub enum PumpStep {
    Listen,
    Close,
    KillAndClose,
}

impl PumpStep {
    /// The cause that a session is closed with.
    pub open spec fn cause(self) -> CloseCause {
        match self {
            PumpStep::KillAndClose => CloseCause::TimedOut,
            _ => CloseCause::Exited,
        }
    }

    pub fn close_cause(self) -> (r: CloseCause)
        ensures
            r == self.cause(),
    {
        match self {
            PumpStep::KillAndClose => CloseCause::TimedOut,
            _ => CloseCause::Exited,
        }
    }
}

/// Takes one signal of a worker.
pub fn pump(session: &mut Session, signal: WorkerSignal) -> (r: PumpStep)
    ensures
        match signal {
            WorkerSignal::Event(e) => r == PumpStep::Listen && final(session)@ == old(
                session,
            )@.after(e),
            WorkerSignal::Unreadable => r == PumpStep::Listen && *final(session) == *old(session),
            WorkerSignal::Gone => r == PumpStep::Close && *final(session) == *old(session),
            WorkerSignal::Silent => r == PumpStep::KillAndClose && *final(session) == *old(session),
        },
{
    match signal {
        WorkerSignal::Event(e) => {
            session.on_event(e);
            PumpStep::Listen
        },
        WorkerSignal::Unreadable => PumpStep::Listen,
        WorkerSignal::Gone => PumpStep::Close,
        WorkerSignal::Silent => PumpStep::KillAndClose,
    }
}

/// A session that condemns an item that it was given, or ends one, leaves fewer items to
/// the next: the scan comes to its end by itself.
pub proof fn sessions_shrink(items: Seq<Seq<char>>, events: Seq<WorkerEvent>)
    requires
        ({
            let p = Progress::start(items).after_all(events);
            ||| p.current is Some && p.pending.contains(p.current->0)
            ||| p.pending.len() < items.len()
        }),
    ensures
        Progress::start(items).after_all(events).remaining().len() < items.len(),
{
    crate::plugin_scan::session::remaining_items_were_asked_for(items, events);
    let p = Progress::start(items).after_all(events);
    if p.current is Some {
        crate::plugin_scan::session::lemma_without_first(p.pending, p.current->0);
    }
}

/// A scan goes on as long as something remains, it was not given up, and fewer than 256 workers
/// were started. A worker that is killed has run out of time; any other has left by itself.
pub proof fn a_scan_goes_on_while_something_remains(run: ScanRun, step: PumpStep)
    ensures
        run.goes_on() <==> run.remaining@.len() > 0 && !run.stopped && run.sessions < 256,
        step is KillAndClose <==> step.cause() == CloseCause::TimedOut,
        !(step is KillAndClose) ==> step.cause() == CloseCause::Exited,
{
}

} // verus!
