//! The stages that sound passes on its way from the input to the network: capture, process
//! and encode, each on a thread of its own, with bounded queues between them.

use vstd::prelude::*;

pub mod capture;
pub mod encode;
pub mod process;

verus! {

/// Most blocks that wait between two stages.
pub const STAGE_CHANNEL_CAPACITY: usize = 32;

/// How long a stage waits for a block before it looks around, in milliseconds.
pub const STAGE_WAIT_MS: u64 = 100;

#[derive(Clone, Copy, Debug, PartialEq, Eq, Structural)]
pub enum Stage {
    Capture,
    Process,
    Encode,
    /// The encoder of the voice, fed by the capture stage.
    Voice,
}

/// What a stage got from its queue.
#[derive(Clone, Copy, Debug, PartialEq, Eq, Structural)]
pub enum Received {
    Block,
    Timeout,
    /// The queue is empty, and the stage before is gone.
    Disconnected,
}

/// What a stage does next.
#[derive(Clone, Copy, Debug, PartialEq, Eq, Structural)]
pub enum StageStep {
    Work,
    Wait,
    End,
}

/// The step of a stage.
pub open spec fn step_of(stage: Stage, stop_requested: bool, received: Received) -> StageStep {
    if stage == Stage::Capture && stop_requested || received == Received::Disconnected {
        StageStep::End
    } else if received == Received::Timeout {
        StageStep::Wait
    } else {
        StageStep::Work
    }
}

/// Gives the step of a stage. A stop ends the capture, and the stages behind it once they
/// have worked off what waits for them, one after the other.
pub fn stage_step(stage: Stage, stop_requested: bool, received: Received) -> (r: StageStep)
    ensures
        r == step_of(stage, stop_requested, received),
{
    if stage == Stage::Capture && stop_requested {
        return StageStep::End;
    }
    match received {
        Received::Block => StageStep::Work,
        Received::Timeout => StageStep::Wait,
        Received::Disconnected => StageStep::End,
    }
}

/// Counts of the sound that leaves the agent, between two readings.
#[derive(Clone, Copy, Debug, PartialEq, Eq, Structural)]
pub struct OutputMeter {
    /// Bits of the highest peak. Peaks are not negative, so their bits are ordered as they
    /// are.
    pub peak: u32,
    pub clip_samples: u64,
    pub total_samples: u64,
}

impl OutputMeter {
    pub fn new() -> (r: OutputMeter)
        ensures
            r == (OutputMeter { peak: 0, clip_samples: 0, total_samples: 0 }),
    {
        OutputMeter { peak: 0, clip_samples: 0, total_samples: 0 }
    }

    /// Adds a block: its peak, the samples beyond full scale, and all its samples.
    pub fn observe(&mut self, peak: u32, overs: u64, samples: u64)
        ensures
            final(self).peak == if peak > old(self).peak {
                peak
            } else {
                old(self).peak
            },
            final(self).clip_samples == (old(self).clip_samples + overs) % 0x1_0000_0000_0000_0000,
            final(self).total_samples == (old(self).total_samples + samples)
                % 0x1_0000_0000_0000_0000,
    {
        if peak > self.peak {
            self.peak = peak;
        }
        self.clip_samples = self.clip_samples.wrapping_add(overs);
        self.total_samples = self.total_samples.wrapping_add(samples);
    }

    /// Reads the counts and begins anew.
    pub fn take(&mut self) -> (r: OutputMeter)
        ensures
            r == *old(self),
            *final(self) == (OutputMeter { peak: 0, clip_samples: 0, total_samples: 0 }),
    {
        let r = *self;
        *self = OutputMeter { peak: 0, clip_samples: 0, total_samples: 0 };
        r
    }
}

/// What waits in a queue is worked off even after a stop: a stage behind the capture ends
/// only when nothing waits for it and nothing more can come.
pub proof fn a_stop_loses_no_block(stage: Stage, stop_requested: bool, received: Received)
    requires
        stage != Stage::Capture,
    ensures
        step_of(stage, stop_requested, received) == StageStep::End <==> received
            == Received::Disconnected,
        received == Received::Block ==> step_of(stage, stop_requested, received)
            == StageStep::Work,
{
}

/// A stage works on what it is handed, waits where nothing came, and ends where nothing more
/// can come; the capture alone ends at once when it is told to.
pub proof fn a_stage_ends_when_nothing_more_can_come(
    stage: Stage,
    stop_requested: bool,
    received: Received,
)
    ensures
        received == Received::Disconnected ==> step_of(stage, stop_requested, received)
            == StageStep::End,
        stage == Stage::Capture && stop_requested ==> step_of(stage, stop_requested, received)
            == StageStep::End,
        received == Received::Timeout && !(stage == Stage::Capture && stop_requested) ==> step_of(
            stage,
            stop_requested,
            received,
        ) == StageStep::Wait,
        received == Received::Block && !(stage == Stage::Capture && stop_requested) ==> step_of(
            stage,
            stop_requested,
            received,
        ) == StageStep::Work,
{
}

} // verus!
