//! How the agent restarts when the browser asks for it.
//!
//! A process that starts while the old one still runs takes itself for a second instance and
//! ends. So a helper is left behind that waits until the old process is gone: with it go the
//! lock on the single instance and the port.

use vstd::prelude::*;

verus! {

/// What the helper is started with, so that it waits.
pub const AWAITED_RELAUNCH: &'static str = "--awaited-relaunch";

/// What the browsers are told as the reason.
pub const RELAUNCH_REASON: &'static str = "relaunch";

/// How long the browsers have to hear of it, in milliseconds.
pub const FAREWELL_MS: u64 = 300;

/// How long the helper has to start, in milliseconds.
pub const HELPER_START_MS: u64 = 150;

/// What is done next.
#[derive(Clone, Copy, Debug, PartialEq, Eq, Structural)]
pub enum RelaunchStep {
    /// Tell all browsers that the agent shuts down, and give the reason.
    Announce,
    Sleep { ms: u64 },
    /// Leave a helper behind, where the program can be found.
    StartHelper,
    /// End this process.
    Exit,
    /// There is nothing to be done.
    Nothing,
}

/// Where a restart stands.
#[derive(Clone, Copy, Debug, PartialEq, Eq, Structural)]
pub enum Relaunch {
    Announcing,
    Parting,
    Starting,
    Settling,
    Leaving,
    Over,
}

impl Relaunch {
    /// Begins a restart, if the application is at hand.
    pub fn trigger_relaunch(has_app: bool) -> (r: (Relaunch, RelaunchStep))
        ensures
            r == if has_app {
                (Relaunch::Announcing, RelaunchStep::Announce)
            } else {
                (Relaunch::Over, RelaunchStep::Nothing)
            },
    {
        if has_app {
            (Relaunch::Announcing, RelaunchStep::Announce)
        } else {
            (Relaunch::Over, RelaunchStep::Nothing)
        }
    }

    /// What follows when a step is done. Whether it succeeded makes no difference: an agent
    /// that has said farewell leaves, even if it leaves no helper.
    pub open spec fn followed_by(self) -> (Relaunch, RelaunchStep) {
        match self {
            Relaunch::Announcing => (Relaunch::Parting, RelaunchStep::Sleep { ms: FAREWELL_MS }),
            Relaunch::Parting => (Relaunch::Starting, RelaunchStep::StartHelper),
            Relaunch::Starting => (
                Relaunch::Settling,
                RelaunchStep::Sleep { ms: HELPER_START_MS },
            ),
            Relaunch::Settling => (Relaunch::Leaving, RelaunchStep::Exit),
            Relaunch::Leaving => (Relaunch::Over, RelaunchStep::Nothing),
            Relaunch::Over => (Relaunch::Over, RelaunchStep::Nothing),
        }
    }

    /// Goes on, when a step is done.
    pub fn done(&mut self) -> (r: RelaunchStep)
        ensures
            (*final(self), r) == old(self).followed_by(),
    {
        match *self {
            Relaunch::Announcing => {
                *self = Relaunch::Parting;
                RelaunchStep::Sleep { ms: FAREWELL_MS }
            },
            Relaunch::Parting => {
                *self = Relaunch::Starting;
                RelaunchStep::StartHelper
            },
            Relaunch::Starting => {
                *self = Relaunch::Settling;
                RelaunchStep::Sleep { ms: HELPER_START_MS }
            },
            Relaunch::Settling => {
                *self = Relaunch::Leaving;
                RelaunchStep::Exit
            },
            Relaunch::Leaving => {
                *self = Relaunch::Over;
                RelaunchStep::Nothing
            },
            Relaunch::Over => RelaunchStep::Nothing,
        }
    }
}

/// The steps of a restart, from where it stands, to the last.
pub open spec fn steps_from(r: Relaunch, n: nat) -> Seq<RelaunchStep>
    decreases n,
{
    if n == 0 {
        Seq::empty()
    } else {
        let (next, step) = r.followed_by();
        seq![step] + steps_from(next, (n - 1) as nat)
    }
}

/// A restart always ends with the process gone, and the browsers and the helper have their
/// time before that.
pub proof fn the_agent_leaves_after_farewell()
    ensures
        steps_from(Relaunch::Announcing, 4) == seq![
            RelaunchStep::Sleep { ms: FAREWELL_MS },
            RelaunchStep::StartHelper,
            RelaunchStep::Sleep { ms: HELPER_START_MS },
            RelaunchStep::Exit,
        ],
{
    reveal_with_fuel(steps_from, 5);
}

/// The browsers have 300 milliseconds to read the farewell, and the helper 150 to start; from
/// wherever it stands, a restart comes to the exit, and nothing follows on that.
pub proof fn a_restart_gives_everyone_their_time(r: Relaunch)
    ensures
        Relaunch::Announcing.followed_by() == (
            Relaunch::Parting,
            RelaunchStep::Sleep { ms: 300 },
        ),
        Relaunch::Parting.followed_by() == (Relaunch::Starting, RelaunchStep::StartHelper),
        Relaunch::Starting.followed_by() == (
            Relaunch::Settling,
            RelaunchStep::Sleep { ms: 150 },
        ),
        Relaunch::Settling.followed_by() == (Relaunch::Leaving, RelaunchStep::Exit),
        Relaunch::Leaving.followed_by() == (Relaunch::Over, RelaunchStep::Nothing),
        Relaunch::Over.followed_by() == (Relaunch::Over, RelaunchStep::Nothing),
        r.followed_by().1 == RelaunchStep::Exit ==> steps_from(r.followed_by().0, 2) == seq![
            RelaunchStep::Nothing,
            RelaunchStep::Nothing,
        ],
        r.followed_by().1 == RelaunchStep::StartHelper ==> r == Relaunch::Parting,
        r.followed_by().1 == RelaunchStep::Exit ==> r == Relaunch::Settling,
{
    reveal_with_fuel(steps_from, 3);
    assert(seq![RelaunchStep::Nothing] + (seq![RelaunchStep::Nothing] + Seq::<
        RelaunchStep,
    >::empty()) =~= seq![RelaunchStep::Nothing, RelaunchStep::Nothing]);
}

} // verus!
