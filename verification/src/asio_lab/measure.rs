//! What the bench measures: whether callbacks come, and whether the input is alive.
//!
//! An input that is alive brings another first sample with most blocks. One that is frozen
//! brings the same block again and again.

use vstd::prelude::*;

verus! {

/// The magnitude of a sample.
pub open spec fn magnitude(s: i32) -> int {
    if s < 0 {
        -s
    } else {
        s as int
    }
}

/// How many samples are left from `from` on.
pub open spec fn left_from(block: Seq<i32>, from: int) -> nat {
    if from < block.len() {
        (block.len() - from) as nat
    } else {
        0
    }
}

/// The largest magnitude of every `stride`-th sample from `from` on.
pub open spec fn peak_from(block: Seq<i32>, from: int, stride: int) -> int
    decreases left_from(block, from),
{
    if from >= block.len() || stride <= 0 {
        0
    } else {
        let rest = peak_from(block, from + stride, stride);
        if magnitude(block[from]) > rest {
            magnitude(block[from])
        } else {
            rest
        }
    }
}

/// Are all samples the same?
pub open spec fn is_constant(block: Seq<i32>) -> bool {
    forall|i: int| 0 <= i < block.len() ==> #[trigger] block[i] == block[0]
}

proof fn lemma_peak(block: Seq<i32>, from: int, stride: int)
    requires
        stride > 0,
        from >= 0,
    ensures
        0 <= peak_from(block, from, stride) <= 0x8000_0000,
    decreases left_from(block, from),
{
    if from < block.len() {
        lemma_peak(block, from + stride, stride);
    }
}

/// The larger of two.
pub open spec fn larger(a: int, b: int) -> int {
    if a > b {
        a
    } else {
        b
    }
}

fn peak(block: &[i32], stride: usize) -> (r: i64)
    requires
        stride > 0,
    ensures
        r == peak_from(block@, 0, stride as int),
{
    let mut best: i64 = 0;
    let len: usize = block.len();
    let mut i: usize = 0;
    proof {
        lemma_peak(block@, 0, stride as int);
    }
    while i < len
        invariant
            len == block@.len(),
            stride > 0,
            0 <= best <= 0x8000_0000,
            larger(best as int, peak_from(block@, i as int, stride as int)) == peak_from(
                block@,
                0,
                stride as int,
            ),
        decreases len - i,
    {
        let s: i64 = block[i] as i64;
        let m: i64 = if s < 0 {
            0 - s
        } else {
            s
        };
        proof {
            lemma_peak(block@, i + stride, stride as int);
        }
        if m > best {
            best = m;
        }
        if stride >= len - i {
            assert(peak_from(block@, i + stride, stride as int) == 0);
            return best;
        }
        i = i + stride;
    }
    assert(peak_from(block@, i as int, stride as int) == 0);
    best
}

fn constant(block: &[i32]) -> (r: bool)
    requires
        block@.len() > 0,
    ensures
        r == is_constant(block@),
{
    let mut i: usize = 0;
    while i < block.len()
        invariant
            i <= block@.len(),
            block@.len() > 0,
            forall|k: int| 0 <= k < i ==> #[trigger] block@[k] == block@[0],
        decreases block@.len() - i,
    {
        if block[i] != block[0] {
            return false;
        }
        i = i + 1;
    }
    true
}

/// What is measured of the input, block by block.
#[derive(Clone, Copy, Debug, PartialEq, Eq, Structural)]
pub struct FreshnessMeter {
    /// First sample of the last block.
    pub last: Option<i32>,
    /// Blocks whose first sample differs from the one before.
    pub changes: u64,
    /// Largest magnitude so far.
    pub absmax: i64,
    /// Blocks whose samples are all the same.
    pub const_blocks: u64,
    pub read_blocks: u64,
}

/// One more, beginning anew when the range is used up.
pub open spec fn one_more(n: u64) -> u64 {
    ((n + 1) % 0x1_0000_0000_0000_0000) as u64
}

impl FreshnessMeter {
    pub open spec fn wf(self) -> bool {
        self.absmax >= 0
    }

    pub fn new() -> (r: FreshnessMeter)
        ensures
            r.wf(),
            r == (FreshnessMeter {
                last: None,
                changes: 0,
                absmax: 0,
                const_blocks: 0,
                read_blocks: 0,
            }),
    {
        FreshnessMeter { last: None, changes: 0, absmax: 0, const_blocks: 0, read_blocks: 0 }
    }

    /// Takes a block, of which every `stride`-th sample is of the channel that is watched.
    /// An empty one is no block.
    pub fn observe(&mut self, block: &[i32], stride: usize)
        requires
            old(self).wf(),
            stride > 0,
        ensures
            final(self).wf(),
            block@.len() == 0 ==> *final(self) == *old(self),
            block@.len() > 0 ==> {
                &&& final(self).last == Some(block@[0])
                &&& final(self).changes == if old(self).last is Some && old(self).last
                    != Some(block@[0]) {
                    one_more(old(self).changes)
                } else {
                    old(self).changes
                }
                &&& final(self).absmax == larger(
                    old(self).absmax as int,
                    peak_from(block@, 0, stride as int),
                )
                &&& final(self).const_blocks == if is_constant(block@) {
                    one_more(old(self).const_blocks)
                } else {
                    old(self).const_blocks
                }
                &&& final(self).read_blocks == one_more(old(self).read_blocks)
            },
    {
        if block.len() == 0 {
            return;
        }
        let first: i32 = block[0];
        match self.last {
            Some(l) => if l != first {
                self.changes = self.changes.wrapping_add(1);
            },
            None => {},
        }
        self.last = Some(first);
        let p: i64 = peak(block, stride);
        if p > self.absmax {
            self.absmax = p;
        }
        if constant(block) {
            self.const_blocks = self.const_blocks.wrapping_add(1);
        }
        self.read_blocks = self.read_blocks.wrapping_add(1);
    }
}

/// The sum of samples, beginning anew when the range is used up.
pub open spec fn sum_of(block: Seq<i32>) -> int
    decreases block.len(),
{
    if block.len() == 0 {
        0
    } else {
        (sum_of(block.drop_last()) + block.last()) % 0x1_0000_0000_0000_0000
    }
}

/// Adds up a block, so that it is read for real.
pub fn checksum(block: &[i32]) -> (r: u64)
    ensures
        r == sum_of(block@),
{
    let mut sum: u64 = 0;
    let len: usize = block.len();
    let mut i: usize = 0;
    assert(block@.take(0) =~= Seq::<i32>::empty());
    while i < len
        invariant
            i <= len,
            len == block@.len(),
            sum == sum_of(block@.take(i as int)),
        decreases len - i,
    {
        proof {
            assert(block@.take(i + 1).drop_last() =~= block@.take(i as int));
            assert(block@.take(i + 1).last() == block@[i as int]);
        }
        let s: i64 = block[i] as i64;
        sum = if s < 0 {
            sum.wrapping_sub((0 - s) as u64)
        } else {
            sum.wrapping_add(s as u64)
        };
        i = i + 1;
    }
    assert(block@.take(i as int) =~= block@);
    sum
}

/// What the callback does at a tick.
#[derive(Clone, Copy, Debug, PartialEq, Eq, Structural)]
pub struct TickCounter {
    pub ticks: u64,
    /// Largest index of a buffer that was seen. There are two.
    pub max_index: usize,
}

impl TickCounter {
    pub fn new() -> (r: TickCounter)
        ensures
            r == (TickCounter { ticks: 0, max_index: 0 }),
    {
        TickCounter { ticks: 0, max_index: 0 }
    }

    /// Counts a tick. Says whether its buffers are to be used: there is no third one.
    pub fn tick(&mut self, index: usize) -> (r: bool)
        ensures
            r == (index <= 1),
            final(self).ticks == one_more(old(self).ticks),
            final(self).max_index == if index > old(self).max_index {
                index
            } else {
                old(self).max_index
            },
    {
        self.ticks = self.ticks.wrapping_add(1);
        if index > self.max_index {
            self.max_index = index;
        }
        index <= 1
    }
}

/// The callbacks of a direction, second by second.
#[derive(Clone, Copy, Debug, PartialEq, Eq, Structural)]
pub struct GrowthWatch {
    pub prev: u64,
    pub second: u64,
    /// The last second in which there were any.
    pub last_growth: u64,
}

impl GrowthWatch {
    pub fn new() -> (r: GrowthWatch)
        ensures
            r == (GrowthWatch { prev: 0, second: 0, last_growth: 0 }),
    {
        GrowthWatch { prev: 0, second: 0, last_growth: 0 }
    }

    /// Takes the count at the end of a second, and gives the callbacks of that second.
    pub fn second_over(&mut self, total: u64) -> (r: u64)
        requires
            old(self).second < u64::MAX,
            total >= old(self).prev,
        ensures
            r == total - old(self).prev,
            *final(self) == (GrowthWatch {
                prev: total,
                second: (old(self).second + 1) as u64,
                last_growth: if total > old(self).prev {
                    (old(self).second + 1) as u64
                } else {
                    old(self).last_growth
                },
            }),
    {
        self.second = self.second + 1;
        let delta: u64 = total - self.prev;
        if delta > 0 {
            self.last_growth = self.second;
        }
        self.prev = total;
        delta
    }

    /// Did callbacks come to the end, but for the last second?
    pub fn survived(&self, secs: u64) -> (r: bool)
        ensures
            r == (self.last_growth + 1 >= secs),
    {
        self.last_growth >= secs.saturating_sub(1)
    }
}

/// Is the input alive, with so many changes in so many ticks? More than a quarter must
/// change.
pub open spec fn is_live(ticks: int, changes: int) -> bool {
    4 * changes > ticks
}

fn live(ticks: u64, changes: u64) -> (r: bool)
    ensures
        r == is_live(ticks as int, changes as int),
{
    4 * (changes as u128) > ticks as u128
}

/// The freshness of the input, second by second.
#[derive(Clone, Copy, Debug, PartialEq, Eq, Structural)]
pub struct FreshWatch {
    pub prev_ticks: u64,
    pub prev_changes: u64,
    pub second: u64,
    /// The first second in which the input was alive.
    pub first_live: Option<u64>,
    /// The first second in which it was not.
    pub first_frozen: Option<u64>,
}

/// What a second gave.
#[derive(Clone, Copy, Debug, PartialEq, Eq, Structural)]
pub struct Second {
    pub ticks: u64,
    pub changes: u64,
    pub live: bool,
}

impl FreshWatch {
    /// Watches from these counts on.
    pub fn new(ticks: u64, changes: u64) -> (r: FreshWatch)
        ensures
            r == (FreshWatch {
                prev_ticks: ticks,
                prev_changes: changes,
                second: 0,
                first_live: None,
                first_frozen: None,
            }),
    {
        FreshWatch {
            prev_ticks: ticks,
            prev_changes: changes,
            second: 0,
            first_live: None,
            first_frozen: None,
        }
    }

    /// Takes the counts at the end of a second. Without a tick the input is not alive.
    pub fn second_over(&mut self, ticks: u64, changes: u64) -> (r: Second)
        requires
            old(self).second < u64::MAX,
            ticks >= old(self).prev_ticks,
            changes >= old(self).prev_changes,
        ensures
            ({
                let dt = ticks - old(self).prev_ticks;
                let dc = changes - old(self).prev_changes;
                let alive = dt > 0 && is_live(dt, dc);
                let s = (old(self).second + 1) as u64;
                &&& r == (Second { ticks: dt as u64, changes: dc as u64, live: alive })
                &&& *final(self) == (FreshWatch {
                    prev_ticks: ticks,
                    prev_changes: changes,
                    second: s,
                    first_live: if alive && old(self).first_live is None {
                        Some(s)
                    } else {
                        old(self).first_live
                    },
                    first_frozen: if !alive && old(self).first_frozen is None {
                        Some(s)
                    } else {
                        old(self).first_frozen
                    },
                })
            }),
    {
        self.second = self.second + 1;
        let dt: u64 = ticks - self.prev_ticks;
        let dc: u64 = changes - self.prev_changes;
        let alive = dt > 0 && live(dt, dc);
        if alive && self.first_live.is_none() {
            self.first_live = Some(self.second);
        }
        if !alive && self.first_frozen.is_none() {
            self.first_frozen = Some(self.second);
        }
        self.prev_ticks = ticks;
        self.prev_changes = changes;
        Second { ticks: dt, changes: dc, live: alive }
    }

    /// Was the input alive from the start, or nearly so?
    pub fn live_from_start(&self) -> (r: bool)
        ensures
            r == (self.first_live matches Some(s) && s <= 2),
    {
        match self.first_live {
            Some(s) => s <= 2,
            None => false,
        }
    }
}

/// What a cold start shows.
#[derive(Clone, Copy, Debug, PartialEq, Eq, Structural)]
pub enum ColdVerdict {
    /// Frozen on a value near full scale.
    Railed,
    /// Frozen on silence.
    Silent,
    LiveFromStart,
    LiveLate,
}

/// With fewer changes than this an input is frozen.
pub const FROZEN_CHANGES: u64 = 4;

/// The smallest magnitude above nine tenths of full scale.
pub const NEAR_FULL_SCALE: i64 = 1_932_735_284;

/// The largest magnitude below a hundredth of full scale.
pub const NEAR_SILENCE: i64 = 21_474_836;

/// Judges a cold start.
pub fn cold_verdict(changes: u64, absmax: i64, watch: &FreshWatch) -> (r: ColdVerdict)
    ensures
        r == if changes < FROZEN_CHANGES && absmax >= NEAR_FULL_SCALE {
            ColdVerdict::Railed
        } else if changes < FROZEN_CHANGES && absmax <= NEAR_SILENCE {
            ColdVerdict::Silent
        } else if watch.first_live is Some && watch.first_live->0 <= 2 {
            ColdVerdict::LiveFromStart
        } else {
            ColdVerdict::LiveLate
        },
        r == ColdVerdict::Railed <==> changes < 4 && 10 * absmax >= 9 * 0x8000_0000,
        r == ColdVerdict::Silent <==> changes < 4 && 100 * absmax < 0x8000_0000,
        r == ColdVerdict::LiveFromStart ==> watch.first_live is Some && watch.first_live->0 <= 2,
{
    let frozen = changes < FROZEN_CHANGES;
    if frozen && absmax >= NEAR_FULL_SCALE {
        ColdVerdict::Railed
    } else if frozen && absmax <= NEAR_SILENCE {
        ColdVerdict::Silent
    } else if watch.live_from_start() {
        ColdVerdict::LiveFromStart
    } else {
        ColdVerdict::LiveLate
    }
}

/// How long the input runs before the second instance is loaded, in milliseconds.
pub const BEFORE_SECOND_MS: u64 = 1_500;

/// Is the input alive before the second instance of the driver is loaded?
pub fn live_before(ticks: u64, changes: u64) -> (r: bool)
    ensures
        r == is_live(ticks as int, changes as int),
{
    live(ticks, changes)
}

/// What two instances of a driver show.
#[derive(Clone, Copy, Debug, PartialEq, Eq, Structural)]
pub enum DualVerdict {
    /// The input was alive, and froze with the second instance.
    FrozenBySecond,
    StayedLive,
    /// It was not alive before.
    FrozenBefore,
}

/// With so many changes after all an input counts as alive.
pub const POST_CHANGES: u64 = 50;

/// Is the input frozen after the second instance was loaded?
pub fn frozen_after(watch: &FreshWatch, post_changes: u64) -> (r: bool)
    ensures
        r == (watch.first_frozen is Some && post_changes < POST_CHANGES),
        r ==> post_changes < 50,
        watch.first_frozen is Some && post_changes < 50 ==> r,
{
    watch.first_frozen.is_some() && post_changes < POST_CHANGES
}

/// Judges two instances of a driver.
pub fn dual_verdict(live_before: bool, frozen_after: bool) -> (r: DualVerdict)
    ensures
        r == if !live_before {
            DualVerdict::FrozenBefore
        } else if frozen_after {
            DualVerdict::FrozenBySecond
        } else {
            DualVerdict::StayedLive
        },
{
    if !live_before {
        DualVerdict::FrozenBefore
    } else if frozen_after {
        DualVerdict::FrozenBySecond
    } else {
        DualVerdict::StayedLive
    }
}

/// Has one of two streams stopped?
pub fn streams_wedged(input: &GrowthWatch, output: &GrowthWatch, secs: u64) -> (r: bool)
    ensures
        r == (input.last_growth + 1 < secs || output.last_growth + 1 < secs),
{
    !input.survived(secs) || !output.survived(secs)
}

/// Is the input of two streams frozen? Fewer than one block in twenty changes.
pub fn stream_frozen(changes: u64, callbacks: u64) -> (r: bool)
    ensures
        r == (20 * changes < if callbacks == 0 {
            1
        } else {
            callbacks as int
        }),
{
    let n: u128 = if callbacks == 0 {
        1
    } else {
        callbacks as u128
    };
    20 * (changes as u128) < n
}

/// Did a cycle have callbacks? At least half of the 375 a second that are due.
pub fn cycle_alive(ticks: u64, hold_ms: u64) -> (r: bool)
    ensures
        r == (16 * ticks > 3 * hold_ms),
{
    16 * (ticks as u128) > 3 * (hold_ms as u128)
}

/// The sizes of buffers whose latency is measured.
pub fn latency_candidates() -> (r: Vec<i32>)
    ensures
        r@ == seq![16i32, 32, 48, 64, 96, 128, 256, 512],
{
    let mut r: Vec<i32> = Vec::new();
    r.push(16);
    r.push(32);
    r.push(48);
    r.push(64);
    r.push(96);
    r.push(128);
    r.push(256);
    r.push(512);
    assert(r@ =~= seq![16i32, 32, 48, 64, 96, 128, 256, 512]);
    r
}

/// How long the callbacks of a size are counted, in milliseconds.
pub const SIZE_HOLD_MS: u64 = 300;

/// Is a size stable? At least half of the callbacks must come that are due in 300
/// milliseconds at 48 kHz. None is due with a size below zero, and no number of them is
/// enough with a size of zero.
pub fn size_stable(started: bool, ticks: u64, size: i32) -> (r: bool)
    ensures
        r == (started && (size < 0 || ticks * size > 7_200)),
{
    if size < 0 {
        return started;
    }
    proof {
        assert(0 <= ticks as int * size as int <= u64::MAX * i32::MAX) by (nonlinear_arith)
            requires
                0 <= ticks <= u64::MAX,
                0 <= size <= i32::MAX,
        ;
    }
    started && (ticks as u128) * (size as u128) > 7_200
}

/// How the time through the buffers compares with that of 128 samples, in samples.
pub fn round_trip_gain(size: i32) -> (r: i64)
    ensures
        r == 2 * size - 2 * 128,
{
    2 * (size as i64) - 2 * 128
}

/// What is known after a start, until the first callback.
#[derive(Clone, Copy, Debug, PartialEq, Eq, Structural)]
pub enum FirstCallback {
    Waiting,
    TimedOut,
    Alive,
}

/// How long the first callback is waited for, in milliseconds.
pub const START_TIMEOUT_MS: u64 = 2_000;

pub fn first_callback(ticks: u64, elapsed_ms: u64) -> (r: FirstCallback)
    ensures
        r == if ticks > 0 {
            FirstCallback::Alive
        } else if elapsed_ms < START_TIMEOUT_MS {
            FirstCallback::Waiting
        } else {
            FirstCallback::TimedOut
        },
        r == FirstCallback::TimedOut <==> ticks == 0 && elapsed_ms >= 2_000,
        r == FirstCallback::Alive <==> ticks > 0,
{
    if ticks > 0 {
        FirstCallback::Alive
    } else if elapsed_ms < START_TIMEOUT_MS {
        FirstCallback::Waiting
    } else {
        FirstCallback::TimedOut
    }
}

/// A block that is served again and again never makes an input look alive, and one whose
/// first sample differs every time always does.
pub proof fn repetition_is_no_life(ticks: nat)
    requires
        ticks > 1,
    ensures
        !is_live(ticks as int, 0),
        is_live(ticks as int, ticks - 1),
{
}

/// The magnitude of a sample is its distance from silence, whatever its sign.
pub proof fn a_magnitude_has_no_sign(s: i32)
    ensures
        s >= 0 ==> magnitude(s) == s,
        s < 0 ==> magnitude(s) + s == 0,
{
}

/// The peak of what is looked at is reached by one of the samples and exceeded by none: those
/// at the first place and at every further one by the stride.
pub proof fn a_peak_is_exceeded_by_none(block: Seq<i32>, from: int, stride: int, k: int)
    requires
        0 <= from,
        0 < stride,
        0 <= k,
    ensures
        peak_from(block, from, stride) >= 0,
        from + k * stride < block.len() ==> magnitude(block[from + k * stride]) <= peak_from(
            block,
            from,
            stride,
        ),
        peak_from(block, from, stride) > 0 ==> exists|j: int|
            0 <= j && from + j * stride < block.len() && #[trigger] magnitude(
                block[from + j * stride],
            ) == peak_from(block, from, stride),
    decreases left_from(block, from),
{
    if from < block.len() {
        let rest = peak_from(block, from + stride, stride);
        let more = if k > 0 {
            k - 1
        } else {
            0
        };
        a_peak_is_exceeded_by_none(block, from + stride, stride, more);
        assert(from + stride + more * stride == from + (more + 1) * stride) by (nonlinear_arith);
        assert(0 * stride == 0);
        if magnitude(block[from]) > rest {
            assert(magnitude(block[from + 0 * stride]) == peak_from(block, from, stride));
        } else if rest > 0 {
            let j = choose|j: int|
                0 <= j && from + stride + j * stride < block.len() && #[trigger] magnitude(
                    block[from + stride + j * stride],
                ) == rest;
            assert(from + stride + j * stride == from + (j + 1) * stride) by (nonlinear_arith);
            assert(magnitude(block[from + (j + 1) * stride]) == rest);
        }
    } else {
        assert(k * stride >= 0) by (nonlinear_arith)
            requires
                0 <= k,
                0 < stride,
        ;
    }
}

/// A block is constant exactly if no two of its samples differ; the larger of two is one of
/// them and not less than either; a counter counts by one.
pub proof fn a_constant_block_has_one_value(block: Seq<i32>, i: int, j: int, a: int, b: int, n: u64)
    requires
        0 <= i < block.len(),
        0 <= j < block.len(),
    ensures
        block[i] != block[j] ==> !is_constant(block),
        is_constant(block) ==> block[i] == block[j],
        larger(a, b) >= a && larger(a, b) >= b && (larger(a, b) == a || larger(a, b) == b),
        n < u64::MAX ==> one_more(n) == n + 1,
        one_more(u64::MAX) == 0,
{
}

/// The sum of a block changes with every sample by what the sample is, in its range.
pub proof fn a_sum_adds_every_sample(block: Seq<i32>, s: i32)
    ensures
        sum_of(Seq::empty()) == 0,
        sum_of(block.push(s)) == (sum_of(block) + s) % 0x1_0000_0000_0000_0000,
{
    assert(block.push(s).drop_last() =~= block);
}

/// An input is alive if more than a quarter of its blocks brought something new.
pub proof fn a_quarter_is_the_measure_of_life(ticks: int, changes: int)
    requires
        0 <= changes <= ticks,
    ensures
        is_live(ticks, changes) <==> changes + changes + changes + changes > ticks,
        is_live(ticks, changes) ==> changes > 0,
{
}

} // verus!
