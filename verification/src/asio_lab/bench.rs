//! How the bench handles a driver: which one it takes, in which order it sets things up, and
//! how it lets go of the driver, whatever went wrong.

use crate::asio_lab::modes::OpenOrder;
use vstd::prelude::*;

verus! {

/// What came of loading a driver.
#[derive(Clone, Copy, Debug, PartialEq, Eq, Structural)]
pub enum LoadAttempt {
    Failed,
    /// Loaded, with so many inputs; none where they cannot be counted.
    Loaded { ins: i32 },
}

/// What the search does next.
#[derive(Clone, Copy, Debug, PartialEq, Eq, Structural)]
pub enum SearchStep {
    /// The driver that was just loaded is the one.
    Take { index: usize },
    /// Go on, once the driver that was just loaded is destroyed, where there is one.
    Next { index: usize, destroy: bool },
    NoneLeft { destroy: bool },
}

/// Looks for the first driver that can be loaded and has an input.
#[derive(Clone, Copy, Debug, PartialEq, Eq, Structural)]
pub struct DriverSearch {
    pub total: usize,
    pub index: usize,
}

impl DriverSearch {
    pub open spec fn wf(self) -> bool {
        self.index < self.total
    }

    /// Begins a search; there is none without drivers.
    pub fn new(total: usize) -> (r: Option<DriverSearch>)
        ensures
            r == if total > 0 {
                Some(DriverSearch { total, index: 0 })
            } else {
                None
            },
    {
        if total > 0 {
            Some(DriverSearch { total, index: 0 })
        } else {
            None
        }
    }

    /// Takes what came of loading the driver at the index.
    pub fn attempted(&mut self, a: LoadAttempt) -> (r: SearchStep)
        requires
            old(self).wf(),
        ensures
            final(self).total == old(self).total,
            ({
                let usable = a matches LoadAttempt::Loaded { ins } && ins > 0;
                if usable {
                    r == (SearchStep::Take { index: old(self).index }) && *final(self) == *old(self)
                } else {
                    let destroy = a is Loaded;
                    if old(self).index + 1 < old(self).total {
                        &&& r == (SearchStep::Next {
                            index: (old(self).index + 1) as usize,
                            destroy,
                        })
                        &&& final(self).index == old(self).index + 1
                        &&& final(self).wf()
                    } else {
                        r == (SearchStep::NoneLeft { destroy }) && *final(self) == *old(self)
                    }
                }
            }),
    {
        let destroy = match a {
            LoadAttempt::Failed => false,
            LoadAttempt::Loaded { ins } => {
                if ins > 0 {
                    return SearchStep::Take { index: self.index };
                }
                true
            },
        };
        if self.index + 1 < self.total {
            self.index = self.index + 1;
            SearchStep::Next { index: self.index, destroy }
        } else {
            SearchStep::NoneLeft { destroy }
        }
    }
}

/// Channels of a direction that are opened: one or two, and one where nothing is known.
pub fn channels_opened(available: Option<i32>) -> (r: usize)
    ensures
        r == if available is Some && available->0 >= 2 {
            2usize
        } else {
            1
        },
{
    match available {
        Some(n) => if n >= 2 {
            2
        } else {
            1
        },
        None => 1,
    }
}

/// A step of opening the two directions.
#[derive(Clone, Copy, Debug, PartialEq, Eq, Structural)]
pub enum OpenStep {
    /// Create the buffers of both directions.
    CreateBoth,
    /// Create the buffers of the input alone.
    CreateInput,
    /// Create the buffers of the output alone.
    CreateOutput,
    /// Create the buffers of both directions anew, for those that are there are too few.
    RecreateWithOther,
    Start,
    Done { opened: bool },
}

/// Where an opening stands.
#[derive(Clone, Copy, Debug, PartialEq, Eq, Structural)]
pub enum OpenStage {
    Creating,
    StartingFirst,
    Recreating { started: bool },
    StartingLast,
    Over,
}

/// The opening of the two directions.
#[derive(Clone, Copy, Debug, PartialEq, Eq, Structural)]
pub struct BenchOpening {
    pub order: OpenOrder,
    pub stage: OpenStage,
}

impl BenchOpening {
    pub fn begin(order: OpenOrder) -> (r: (BenchOpening, OpenStep))
        ensures
            r.0 == (BenchOpening { order, stage: OpenStage::Creating }),
            r.1 == match order {
                OpenOrder::Single => OpenStep::CreateBoth,
                OpenOrder::OutFirst => OpenStep::CreateOutput,
                OpenOrder::Agent => OpenStep::CreateInput,
            },
    {
        let first = match order {
            OpenOrder::Single => OpenStep::CreateBoth,
            OpenOrder::OutFirst => OpenStep::CreateOutput,
            OpenOrder::Agent => OpenStep::CreateInput,
        };
        (BenchOpening { order, stage: OpenStage::Creating }, first)
    }

    /// Takes whether the last step succeeded. Where the directions are opened one after the
    /// other, the second is created even if the first did not start; it is only started if
    /// the first did.
    pub fn step(&mut self, succeeded: bool) -> (r: OpenStep)
        requires
            old(self).stage != OpenStage::Over,
        ensures
            final(self).order == old(self).order,
            r is Done <==> final(self).stage == OpenStage::Over,
            match old(self).stage {
                OpenStage::Creating => if !succeeded {
                    r == (OpenStep::Done { opened: false })
                } else if old(self).order == OpenOrder::Single {
                    r == OpenStep::Start && final(self).stage == OpenStage::StartingLast
                } else {
                    r == OpenStep::Start && final(self).stage == OpenStage::StartingFirst
                },
                OpenStage::StartingFirst => r == OpenStep::RecreateWithOther && final(self).stage
                    == (OpenStage::Recreating { started: succeeded }),
                OpenStage::Recreating { started } => if succeeded && started {
                    r == OpenStep::Start && final(self).stage == OpenStage::StartingLast
                } else {
                    r == (OpenStep::Done { opened: false })
                },
                OpenStage::StartingLast => r == (OpenStep::Done { opened: succeeded }),
                OpenStage::Over => true,
            },
    {
        match self.stage {
            OpenStage::Creating => {
                if !succeeded {
                    self.stage = OpenStage::Over;
                    OpenStep::Done { opened: false }
                } else if self.order == OpenOrder::Single {
                    self.stage = OpenStage::StartingLast;
                    OpenStep::Start
                } else {
                    self.stage = OpenStage::StartingFirst;
                    OpenStep::Start
                }
            },
            OpenStage::StartingFirst => {
                self.stage = OpenStage::Recreating { started: succeeded };
                OpenStep::RecreateWithOther
            },
            OpenStage::Recreating { started } => {
                if succeeded && started {
                    self.stage = OpenStage::StartingLast;
                    OpenStep::Start
                } else {
                    self.stage = OpenStage::Over;
                    OpenStep::Done { opened: false }
                }
            },
            OpenStage::StartingLast => {
                self.stage = OpenStage::Over;
                OpenStep::Done { opened: succeeded }
            },
            OpenStage::Over => OpenStep::Done { opened: false },
        }
    }
}

/// A bench that opens a driver.
#[derive(Clone, Copy, Debug, PartialEq, Eq, Structural)]
pub enum Bench {
    Basic { messages: bool },
    Coldstart { set_rate: bool },
    Robust { prime: bool },
    /// `second` where the second instance of the driver runs.
    Dual { set_rate: bool, second: bool },
    Churn,
    Latency,
    Bufinfo,
}

/// Something that is set up.
#[derive(Clone, Copy, Debug, PartialEq, Eq, Structural)]
pub enum Setup {
    SetRate,
    /// Pick a size that the driver takes.
    ChooseSize,
    /// Run the driver for a moment, to wake up the converter.
    Prime,
    AddCallback,
    AddMessages,
    /// Open by the order that is asked for, which includes starting.
    OpenByOrder,
    CreateBoth,
    CreateInput,
    Start,
    AwaitFirstCallback,
    Watch,
}

/// Something that is let go of.
#[derive(Clone, Copy, Debug, PartialEq, Eq, Structural)]
pub enum Release {
    Stop,
    RemoveCallback,
    RemoveMessages,
    StopSecond,
    RemoveSecondCallback,
    DisposeBuffers,
    Destroy,
}

/// How far a bench came.
#[derive(Clone, Copy, Debug, PartialEq, Eq, Structural)]
pub enum Reached {
    CreateFailed,
    StartFailed,
    Finished,
}

/// What a bench sets up, in order.
pub open spec fn setup_of(b: Bench) -> Seq<Setup> {
    match b {
        Bench::Basic { messages } => seq![
            Setup::SetRate,
            Setup::CreateBoth,
            Setup::AddCallback,
        ] + (if messages {
            seq![Setup::AddMessages]
        } else {
            Seq::empty()
        }) + seq![Setup::Start, Setup::Watch],
        Bench::Coldstart { set_rate } => (if set_rate {
            seq![Setup::SetRate]
        } else {
            Seq::empty()
        }) + seq![Setup::AddCallback, Setup::AddMessages, Setup::OpenByOrder, Setup::Watch],
        Bench::Robust { prime } => seq![Setup::SetRate, Setup::ChooseSize] + (if prime {
            seq![Setup::Prime]
        } else {
            Seq::empty()
        }) + seq![
            Setup::CreateBoth,
            Setup::AddCallback,
            Setup::Start,
            Setup::AwaitFirstCallback,
            Setup::Watch,
        ],
        Bench::Dual { set_rate, .. } => (if set_rate {
            seq![Setup::SetRate]
        } else {
            Seq::empty()
        }) + seq![Setup::CreateInput, Setup::AddCallback, Setup::Start, Setup::Watch],
        Bench::Churn | Bench::Latency => seq![
            Setup::SetRate,
            Setup::CreateBoth,
            Setup::AddCallback,
            Setup::Start,
            Setup::Watch,
        ],
        Bench::Bufinfo => seq![Setup::SetRate, Setup::ChooseSize, Setup::CreateBoth],
    }
}

/// What a bench lets go of, in order, when it came so far.
pub open spec fn release_of(b: Bench, reached: Reached) -> Seq<Release> {
    match b {
        Bench::Basic { messages } => {
            let handlers = seq![Release::RemoveCallback] + if messages {
                seq![Release::RemoveMessages]
            } else {
                Seq::empty()
            };
            match reached {
                Reached::CreateFailed => seq![Release::Destroy],
                Reached::StartFailed => handlers + seq![Release::DisposeBuffers, Release::Destroy],
                Reached::Finished => seq![Release::Stop] + handlers + seq![
                    Release::DisposeBuffers,
                    Release::Destroy,
                ],
            }
        },
        Bench::Coldstart { .. } => match reached {
            Reached::Finished => seq![
                Release::Stop,
                Release::RemoveCallback,
                Release::RemoveMessages,
                Release::DisposeBuffers,
                Release::Destroy,
            ],
            _ => seq![
                Release::RemoveCallback,
                Release::RemoveMessages,
                Release::Stop,
                Release::DisposeBuffers,
                Release::Destroy,
            ],
        },
        Bench::Robust { .. } | Bench::Churn => match reached {
            Reached::CreateFailed => seq![Release::Destroy],
            Reached::StartFailed => seq![
                Release::RemoveCallback,
                Release::DisposeBuffers,
                Release::Destroy,
            ],
            Reached::Finished => seq![
                Release::Stop,
                Release::RemoveCallback,
                Release::DisposeBuffers,
                Release::Destroy,
            ],
        },
        Bench::Dual { second, .. } => match reached {
            Reached::CreateFailed => seq![Release::Destroy],
            Reached::StartFailed => seq![Release::RemoveCallback, Release::Destroy],
            Reached::Finished => seq![Release::Stop, Release::RemoveCallback] + (if second {
                seq![Release::StopSecond, Release::RemoveSecondCallback]
            } else {
                Seq::empty()
            }) + seq![Release::DisposeBuffers, Release::Destroy],
        },
        Bench::Latency => match reached {
            Reached::CreateFailed => seq![Release::DisposeBuffers, Release::Destroy],
            _ => seq![
                Release::Stop,
                Release::RemoveCallback,
                Release::DisposeBuffers,
                Release::Destroy,
            ],
        },
        Bench::Bufinfo => match reached {
            Reached::Finished => seq![Release::DisposeBuffers, Release::Destroy],
            _ => seq![Release::Destroy],
        },
    }
}

/// Gives what a bench sets up.
pub fn setup_steps(b: Bench) -> (r: Vec<Setup>)
    ensures
        r@ == setup_of(b),
{
    let mut r: Vec<Setup> = Vec::new();
    match b {
        Bench::Basic { messages } => {
            r.push(Setup::SetRate);
            r.push(Setup::CreateBoth);
            r.push(Setup::AddCallback);
            if messages {
                r.push(Setup::AddMessages);
            }
            r.push(Setup::Start);
            r.push(Setup::Watch);
        },
        Bench::Coldstart { set_rate } => {
            if set_rate {
                r.push(Setup::SetRate);
            }
            r.push(Setup::AddCallback);
            r.push(Setup::AddMessages);
            r.push(Setup::OpenByOrder);
            r.push(Setup::Watch);
        },
        Bench::Robust { prime } => {
            r.push(Setup::SetRate);
            r.push(Setup::ChooseSize);
            if prime {
                r.push(Setup::Prime);
            }
            r.push(Setup::CreateBoth);
            r.push(Setup::AddCallback);
            r.push(Setup::Start);
            r.push(Setup::AwaitFirstCallback);
            r.push(Setup::Watch);
        },
        Bench::Dual { set_rate, .. } => {
            if set_rate {
                r.push(Setup::SetRate);
            }
            r.push(Setup::CreateInput);
            r.push(Setup::AddCallback);
            r.push(Setup::Start);
            r.push(Setup::Watch);
        },
        Bench::Churn | Bench::Latency => {
            r.push(Setup::SetRate);
            r.push(Setup::CreateBoth);
            r.push(Setup::AddCallback);
            r.push(Setup::Start);
            r.push(Setup::Watch);
        },
        Bench::Bufinfo => {
            r.push(Setup::SetRate);
            r.push(Setup::ChooseSize);
            r.push(Setup::CreateBoth);
        },
    }
    assert(r@ =~= setup_of(b));
    r
}

/// Gives what a bench lets go of.
pub fn release_steps(b: Bench, reached: Reached) -> (r: Vec<Release>)
    ensures
        r@ == release_of(b, reached),
{
    let mut r: Vec<Release> = Vec::new();
    let finished = reached == Reached::Finished;
    match b {
        Bench::Basic { messages } => {
            if reached != Reached::CreateFailed {
                if finished {
                    r.push(Release::Stop);
                }
                r.push(Release::RemoveCallback);
                if messages {
                    r.push(Release::RemoveMessages);
                }
                r.push(Release::DisposeBuffers);
            }
        },
        Bench::Coldstart { .. } => {
            if finished {
                r.push(Release::Stop);
            }
            r.push(Release::RemoveCallback);
            r.push(Release::RemoveMessages);
            if !finished {
                r.push(Release::Stop);
            }
            r.push(Release::DisposeBuffers);
        },
        Bench::Robust { .. } | Bench::Churn => {
            if reached != Reached::CreateFailed {
                if finished {
                    r.push(Release::Stop);
                }
                r.push(Release::RemoveCallback);
                r.push(Release::DisposeBuffers);
            }
        },
        Bench::Dual { second, .. } => {
            if finished {
                r.push(Release::Stop);
            }
            if reached != Reached::CreateFailed {
                r.push(Release::RemoveCallback);
            }
            if finished {
                if second {
                    r.push(Release::StopSecond);
                    r.push(Release::RemoveSecondCallback);
                }
                r.push(Release::DisposeBuffers);
            }
        },
        Bench::Latency => {
            if reached != Reached::CreateFailed {
                r.push(Release::Stop);
                r.push(Release::RemoveCallback);
            }
            r.push(Release::DisposeBuffers);
        },
        Bench::Bufinfo => {
            if finished {
                r.push(Release::DisposeBuffers);
            }
        },
    }
    r.push(Release::Destroy);
    assert(r@ =~= release_of(b, reached));
    r
}

/// The second instance of a driver, which plays while the first one records.
#[derive(Clone, Copy, Debug, PartialEq, Eq, Structural)]
pub enum SecondStage {
    Loading,
    Creating,
    Over,
}

/// What is done about it.
#[derive(Clone, Copy, Debug, PartialEq, Eq, Structural)]
pub enum SecondStep {
    /// Create the buffers of the output.
    CreateOutput,
    /// Add a callback that plays silence, and start, with whatever success.
    AddCallbackAndStart,
    /// The second instance does not run; watching goes on all the same.
    Without,
}

/// Takes whether the second instance was loaded, or its buffers created.
pub fn second_step(stage: SecondStage, succeeded: bool) -> (r: (SecondStage, SecondStep))
    requires
        stage != SecondStage::Over,
    ensures
        r == if !succeeded {
            (SecondStage::Over, SecondStep::Without)
        } else if stage == SecondStage::Loading {
            (SecondStage::Creating, SecondStep::CreateOutput)
        } else {
            (SecondStage::Over, SecondStep::AddCallbackAndStart)
        },
{
    if !succeeded {
        (SecondStage::Over, SecondStep::Without)
    } else if stage == SecondStage::Loading {
        (SecondStage::Creating, SecondStep::CreateOutput)
    } else {
        (SecondStage::Over, SecondStep::AddCallbackAndStart)
    }
}

/// What a cycle of opening and closing came to.
#[derive(Clone, Copy, Debug, PartialEq, Eq, Structural)]
pub enum CycleResult {
    NoDriver,
    CreateFailed,
    StartFailed,
    /// Held for its time, with so many callbacks.
    Held { ticks: u64 },
}

/// What follows on a cycle.
#[derive(Clone, Copy, Debug, PartialEq, Eq, Structural)]
pub enum ChurnStep {
    Next { cycle: u64 },
    /// The driver does not work any more.
    Wedged { cycle: u64 },
    /// All cycles went well.
    Survived,
}

/// Takes the result of a cycle, counted from one.
pub fn cycle_over(cycle: u64, cycles: u64, hold_ms: u64, result: CycleResult) -> (r: ChurnStep)
    requires
        1 <= cycle <= cycles,
    ensures
        ({
            let fine = result matches CycleResult::Held { ticks } && 16 * ticks > 3 * hold_ms;
            r == if !fine {
                ChurnStep::Wedged { cycle }
            } else if cycle < cycles {
                ChurnStep::Next { cycle: (cycle + 1) as u64 }
            } else {
                ChurnStep::Survived
            }
        }),
{
    let fine = match result {
        CycleResult::Held { ticks } => crate::asio_lab::measure::cycle_alive(ticks, hold_ms),
        _ => false,
    };
    if !fine {
        ChurnStep::Wedged { cycle }
    } else if cycle < cycles {
        ChurnStep::Next { cycle: cycle + 1 }
    } else {
        ChurnStep::Survived
    }
}

/// Whatever went wrong, the driver is destroyed, last and once, and nothing of it is used
/// after that. A callback is taken away before the buffers that it works on are.
pub proof fn the_driver_is_always_let_go(b: Bench, reached: Reached)
    ensures
        ({
            let r = release_of(b, reached);
            &&& r.len() > 0
            &&& r.last() == Release::Destroy
            &&& forall|i: int| 0 <= i < r.len() - 1 ==> #[trigger] r[i] != Release::Destroy
            &&& forall|i: int, j: int|
                0 <= i < r.len() && 0 <= j < r.len() && #[trigger] r[i] == Release::RemoveCallback
                    && #[trigger] r[j] == Release::DisposeBuffers ==> i < j
        }),
{
}

/// Every bench that adds a callback takes it away again, once it runs.
pub proof fn what_was_added_is_removed(b: Bench)
    ensures
        setup_of(b).contains(Setup::AddCallback) ==> release_of(b, Reached::Finished).contains(
            Release::RemoveCallback,
        ),
        setup_of(b).contains(Setup::AddMessages) ==> release_of(b, Reached::Finished).contains(
            Release::RemoveMessages,
        ),
{
    let r = release_of(b, Reached::Finished);
    match b {
        Bench::Basic { messages } => {
            assert(r[1] == Release::RemoveCallback);
            if messages {
                assert(r[2] == Release::RemoveMessages);
            }
        },
        Bench::Coldstart { .. } => {
            assert(r[1] == Release::RemoveCallback);
            assert(r[2] == Release::RemoveMessages);
        },
        Bench::Bufinfo => {},
        _ => {
            assert(r[1] == Release::RemoveCallback);
        },
    }
}

/// A bench sets up in this order: the rate, the size, the buffers, what is called back, the
/// start, and then it watches. What it was not asked for it leaves out, and a bench that only
/// asks for the sizes starts nothing.
pub proof fn a_bench_sets_up_before_it_watches(b: Bench)
    ensures
        ({
            let s = setup_of(b);
            &&& !(b is Bufinfo) ==> s.last() == Setup::Watch
            &&& b is Bufinfo ==> s == seq![Setup::SetRate, Setup::ChooseSize, Setup::CreateBoth]
            &&& b is Churn || b is Latency ==> s == seq![
                Setup::SetRate,
                Setup::CreateBoth,
                Setup::AddCallback,
                Setup::Start,
                Setup::Watch,
            ]
            &&& b == (Bench::Basic { messages: false }) ==> s == setup_of(Bench::Churn)
            &&& b == (Bench::Basic { messages: true }) ==> s == seq![
                Setup::SetRate,
                Setup::CreateBoth,
                Setup::AddCallback,
                Setup::AddMessages,
                Setup::Start,
                Setup::Watch,
            ]
            &&& b matches Bench::Coldstart { set_rate } ==> s.len() == if set_rate {
                5
            } else {
                4int
            }
            &&& b is Coldstart ==> s.subrange(s.len() - 4, s.len() as int) == seq![
                Setup::AddCallback,
                Setup::AddMessages,
                Setup::OpenByOrder,
                Setup::Watch,
            ]
            &&& b is Dual ==> s.subrange(s.len() - 4, s.len() as int) == seq![
                Setup::CreateInput,
                Setup::AddCallback,
                Setup::Start,
                Setup::Watch,
            ]
            &&& b is Robust ==> s.subrange(s.len() - 5, s.len() as int) == seq![
                Setup::CreateBoth,
                Setup::AddCallback,
                Setup::Start,
                Setup::AwaitFirstCallback,
                Setup::Watch,
            ]
            &&& b is Robust ==> s[0] == Setup::SetRate && s[1] == Setup::ChooseSize
            &&& b matches Bench::Robust { prime } ==> (prime <==> s[2] == Setup::Prime)
        }),
{
    let s = setup_of(b);
    match b {
        Bench::Basic { messages } => {
            if messages {
                assert(s =~= seq![
                    Setup::SetRate,
                    Setup::CreateBoth,
                    Setup::AddCallback,
                    Setup::AddMessages,
                    Setup::Start,
                    Setup::Watch,
                ]);
            } else {
                assert(s =~= setup_of(Bench::Churn));
            }
        },
        Bench::Coldstart { .. } => {
            assert(s.subrange(s.len() - 4, s.len() as int) =~= seq![
                Setup::AddCallback,
                Setup::AddMessages,
                Setup::OpenByOrder,
                Setup::Watch,
            ]);
        },
        Bench::Dual { .. } => {
            assert(s.subrange(s.len() - 4, s.len() as int) =~= seq![
                Setup::CreateInput,
                Setup::AddCallback,
                Setup::Start,
                Setup::Watch,
            ]);
        },
        Bench::Robust { .. } => {
            assert(s.subrange(s.len() - 5, s.len() as int) =~= seq![
                Setup::CreateBoth,
                Setup::AddCallback,
                Setup::Start,
                Setup::AwaitFirstCallback,
                Setup::Watch,
            ]);
        },
        _ => {},
    }
}

/// A driver that ran is stopped before anything of it is taken away; what could not be created
/// is not disposed of, but where the bench opens by an order of its own, or measures latency.
pub proof fn what_ran_is_stopped_first(b: Bench)
    ensures
        !(b is Bufinfo) ==> release_of(b, Reached::Finished)[0] == Release::Stop,
        b is Bufinfo ==> release_of(b, Reached::Finished) == seq![
            Release::DisposeBuffers,
            Release::Destroy,
        ],
        !(b is Coldstart) && !(b is Latency) ==> release_of(b, Reached::CreateFailed) == seq![
            Release::Destroy,
        ],
        b is Latency ==> release_of(b, Reached::CreateFailed) == seq![
            Release::DisposeBuffers,
            Release::Destroy,
        ],
        b is Robust || b is Churn ==> release_of(b, Reached::StartFailed) == seq![
            Release::RemoveCallback,
            Release::DisposeBuffers,
            Release::Destroy,
        ],
        b is Dual ==> release_of(b, Reached::StartFailed) == seq![
            Release::RemoveCallback,
            Release::Destroy,
        ],
        b matches Bench::Dual { second, .. } ==> (second <==> release_of(
            b,
            Reached::Finished,
        ).contains(Release::StopSecond)),
{
    if let Bench::Dual { second, .. } = b {
        let r = release_of(b, Reached::Finished);
        if second {
            assert(r[2] == Release::StopSecond);
        }
    }
}

} // verus!
