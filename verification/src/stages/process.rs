//! The process stage: runs the sound through the plugin, piece by piece, and fades from the
//! dry to the processed sound when the plugin comes in.
//!
//! The stage never waits for the plugin's host: while a plugin is loaded or unloaded the
//! sound passes dry.

use crate::frames::lane;
use crate::midi::{dispatch_subblock_midi, subblock_events, MidiEvent};
use crate::plugin::Platform;
use crate::plugin_control::{PluginHandle, PLUGIN_BLOCK};
use vstd::prelude::*;

verus! {

/// Frames of a fade: eight milliseconds.
pub const FADE_SAMPLES: usize = 384;

/// What is known when a block comes in.
#[derive(Clone, Copy, Debug, PartialEq, Eq, Structural)]
pub struct BlockState {
    /// Frames of the block.
    pub frames: usize,
    pub input_cut: bool,
    /// The source is a MIDI device.
    pub is_midi: bool,
    pub bypass: bool,
    pub handle: Option<PluginHandle>,
    /// The plugin's host is not being used by anybody else.
    pub host_free: bool,
}

/// Part of a fade: `count` frames from position `first` of the whole fade on.
#[derive(Clone, Copy, Debug, PartialEq, Eq, Structural)]
pub struct FadeWindow {
    pub first: usize,
    pub count: usize,
}

/// The way of a block.
#[derive(Clone, Copy, Debug, PartialEq, Eq, Structural)]
pub enum Route {
    /// Past the plugin.
    Untouched,
    /// Past the plugin, and the MIDI events that wait are void.
    Dry,
    /// Through the plugin, and then faded in.
    Wet { handle: PluginHandle, fade: FadeWindow },
}

/// What is done with a block.
#[derive(Clone, Copy, Debug, PartialEq, Eq, Structural)]
pub struct BlockPlan {
    /// The input is replaced by silence first.
    pub silence: bool,
    pub route: Route,
}

#[derive(Clone, Copy, Debug, PartialEq, Eq, Structural)]
pub struct ProcessStage {
    /// The last block went through the plugin.
    pub wet_was_active: bool,
    /// Frames of the fade that are still to come.
    pub fade_remaining: usize,
}

/// The plugin that a block goes through, if any.
pub open spec fn wet_handle(platform: Platform, b: BlockState) -> Option<PluginHandle> {
    if platform.hosts_plugins() && b.frames > 0 && !b.bypass && b.host_free {
        b.handle
    } else {
        None
    }
}

/// The frames that remain of a fade after a window.
pub open spec fn fade_after(remaining: usize, frames: usize) -> usize {
    if frames >= remaining {
        0
    } else {
        (remaining - frames) as usize
    }
}

impl ProcessStage {
    pub open spec fn wf(self) -> bool {
        self.fade_remaining <= FADE_SAMPLES
    }

    /// Frames of the fade that are to come when a block goes through the plugin.
    pub open spec fn fade_due(self) -> usize {
        if self.wet_was_active {
            self.fade_remaining
        } else {
            FADE_SAMPLES
        }
    }

    pub fn new() -> (r: ProcessStage)
        ensures
            r.wf(),
            r == (ProcessStage { wet_was_active: false, fade_remaining: 0 }),
    {
        ProcessStage { wet_was_active: false, fade_remaining: 0 }
    }

    /// Plans a block. An input that is cut, or that a MIDI device stands in for, is
    /// silenced. The plugin is used if it is there, wanted and free; a fade begins with the
    /// first block that it is used for.
    pub fn begin_block(&mut self, platform: Platform, b: BlockState) -> (r: BlockPlan)
        requires
            old(self).wf(),
        ensures
            final(self).wf(),
            r.silence == (b.input_cut || platform.hosts_plugins() && b.is_midi),
            match wet_handle(platform, b) {
                Some(handle) => {
                    let due = old(self).fade_due();
                    &&& r.route == (Route::Wet {
                        handle,
                        fade: FadeWindow {
                            first: (FADE_SAMPLES - due) as usize,
                            count: (due - fade_after(due, b.frames)) as usize,
                        },
                    })
                    &&& *final(self) == (ProcessStage {
                        wet_was_active: true,
                        fade_remaining: fade_after(due, b.frames),
                    })
                },
                None => {
                    &&& r.route == if platform.hosts_plugins() && b.frames > 0 && !b.bypass {
                        Route::Dry
                    } else {
                        Route::Untouched
                    }
                    &&& *final(self) == (ProcessStage { wet_was_active: false, ..*old(self) })
                },
            },
    {
        let hosts = platform.can_host_plugins();
        let silence = b.input_cut || (hosts && b.is_midi);
        if !hosts || b.frames == 0 || b.bypass {
            self.wet_was_active = false;
            return BlockPlan { silence, route: Route::Untouched };
        }
        match b.handle {
            Some(handle) if b.host_free => {
                if !self.wet_was_active {
                    self.fade_remaining = FADE_SAMPLES;
                }
                let first: usize = FADE_SAMPLES - self.fade_remaining;
                let count: usize = if b.frames >= self.fade_remaining {
                    self.fade_remaining
                } else {
                    b.frames
                };
                self.fade_remaining = self.fade_remaining - count;
                self.wet_was_active = true;
                BlockPlan { silence, route: Route::Wet { handle, fade: FadeWindow { first, count } } }
            },
            _ => {
                self.wet_was_active = false;
                BlockPlan { silence, route: Route::Dry }
            },
        }
    }
}

/// A piece of a block for the plugin.
#[derive(Debug)]
pub struct SubBlock<T> {
    pub left: Vec<T>,
    pub right: Vec<T>,
    pub midi: Vec<MidiEvent>,
}

/// A block on its way through the plugin.
#[derive(Debug)]
pub struct PluginRun<T> {
    pub stereo: Vec<T>,
    pub midi: Vec<MidiEvent>,
    /// Frames that are done.
    pub done: usize,
}

impl<T: Copy> PluginRun<T> {
    pub open spec fn frames(self) -> int {
        self.stereo@.len() as int / 2
    }

    /// End of the piece that is next.
    pub open spec fn piece_end(self) -> int {
        if self.done + PLUGIN_BLOCK <= self.frames() {
            self.done + PLUGIN_BLOCK
        } else {
            self.frames()
        }
    }

    pub open spec fn wf(self) -> bool {
        self.done <= self.frames() && self.frames() <= u32::MAX
    }

    pub fn new(stereo: Vec<T>, midi: Vec<MidiEvent>) -> (r: PluginRun<T>)
        requires
            stereo@.len() / 2 <= u32::MAX,
        ensures
            r.wf(),
            r.stereo == stereo,
            r.midi == midi,
            r.done == 0,
    {
        PluginRun { stereo, midi, done: 0 }
    }

    fn end(&self) -> (r: usize)
        requires
            self.wf(),
        ensures
            r == self.piece_end(),
    {
        let n: usize = self.stereo.len() / 2;
        if n - self.done >= PLUGIN_BLOCK {
            self.done + PLUGIN_BLOCK
        } else {
            n
        }
    }

    /// The piece that is next, with the events that fall in it; nothing at the end.
    pub fn next(&self) -> (r: Option<SubBlock<T>>)
        requires
            self.wf(),
        ensures
            if self.done < self.frames() {
                &&& r matches Some(p)
                &&& p.left@ == lane(self.stereo@, 0).subrange(self.done as int, self.piece_end())
                &&& p.right@ == lane(self.stereo@, 1).subrange(self.done as int, self.piece_end())
                &&& p.midi@ == subblock_events(
                    self.midi@,
                    self.done as u32,
                    self.piece_end() as u32,
                )
            } else {
                r is None
            },
    {
        let len: usize = self.stereo.len();
        if self.done >= len / 2 {
            return None;
        }
        let end: usize = self.end();
        let mut left: Vec<T> = Vec::new();
        let mut right: Vec<T> = Vec::new();
        let mut i: usize = self.done;
        while i < end
            invariant
                self.wf(),
                self.done <= i <= end,
                end == self.piece_end(),
                len == self.stereo@.len(),
                left@ == lane(self.stereo@, 0).subrange(self.done as int, i as int),
                right@ == lane(self.stereo@, 1).subrange(self.done as int, i as int),
            decreases end - i,
        {
            left.push(self.stereo[2 * i]);
            right.push(self.stereo[2 * i + 1]);
            i = i + 1;
            assert(left@ =~= lane(self.stereo@, 0).subrange(self.done as int, i as int));
            assert(right@ =~= lane(self.stereo@, 1).subrange(self.done as int, i as int));
        }
        let mut midi: Vec<MidiEvent> = Vec::new();
        dispatch_subblock_midi(
            self.midi.as_slice(),
            self.done as u32,
            end as u32,
            &mut midi,
        );
        Some(SubBlock { left, right, midi })
    }

    /// Takes what the plugin made of the piece. A piece that it failed on stays dry.
    pub fn processed(&mut self, result: Option<(Vec<T>, Vec<T>)>)
        requires
            old(self).wf(),
            old(self).done < old(self).frames(),
            result matches Some((l, r)) ==> l@.len() == old(self).piece_end() - old(self).done
                && r@.len() == l@.len(),
        ensures
            final(self).wf(),
            final(self).done == old(self).piece_end(),
            final(self).midi == old(self).midi,
            final(self).stereo@.len() == old(self).stereo@.len(),
            forall|k: int|
                #![trigger final(self).stereo@[k]]
                0 <= k < old(self).stereo@.len() ==> final(self).stereo@[k] == (match result {
                    Some((l, r)) => if 2 * old(self).done <= k < 2 * old(self).piece_end() {
                        if k % 2 == 0 {
                            l@[k / 2 - old(self).done]
                        } else {
                            r@[k / 2 - old(self).done]
                        }
                    } else {
                        old(self).stereo@[k]
                    },
                    None => old(self).stereo@[k],
                }),
    {
        let end: usize = self.end();
        match result {
            Some((l, r)) => {
                let start: usize = self.done;
                let len: usize = self.stereo.len();
                let ghost before = self.stereo@;
                let mut i: usize = start;
                while i < end
                    invariant
                        start <= i <= end,
                        end <= before.len() as int / 2,
                        before.len() == len,
                        l@.len() == end - start,
                        r@.len() == end - start,
                        self.stereo@.len() == before.len(),
                        self.done == start,
                        self.midi == old(self).midi,
                        forall|k: int|
                            #![trigger self.stereo@[k]]
                            0 <= k < before.len() ==> self.stereo@[k] == (if 2 * start <= k < 2
                                * i {
                                if k % 2 == 0 {
                                    l@[k / 2 - start]
                                } else {
                                    r@[k / 2 - start]
                                }
                            } else {
                                before[k]
                            }),
                    decreases end - i,
                {
                    self.stereo.set(2 * i, l[i - start]);
                    self.stereo.set(2 * i + 1, r[i - start]);
                    i = i + 1;
                }
            },
            None => {},
        }
        self.done = end;
    }
}

/// What is measured of a block once it is processed.
#[derive(Clone, Copy, Debug, PartialEq, Eq, Structural)]
pub enum Monitor {
    Nothing,
    /// Its level is measured, and the player hears it.
    Hear,
    /// The input is being reset: the level reads zero, and the player hears nothing.
    Mute,
}

pub fn monitor_block(frames: usize, feeding: bool) -> (r: Monitor)
    ensures
        r == if frames == 0 {
            Monitor::Nothing
        } else if feeding {
            Monitor::Hear
        } else {
            Monitor::Mute
        },
{
    if frames == 0 {
        Monitor::Nothing
    } else if feeding {
        Monitor::Hear
    } else {
        Monitor::Mute
    }
}

/// Frames of a block of `len` samples that are still part of a fade.
pub open spec fn fading(len: nat, remaining: usize) -> int {
    if len / 2 < remaining {
        (len / 2) as int
    } else {
        remaining as int
    }
}

/// Is `out` the block `wet`, faded in from `dry`? In each frame that is part of the fade both
/// samples are what `mix` makes of the two at the frame's place in the fade; the others are
/// as they were.
pub open spec fn is_faded<T, F: Fn(T, T, usize) -> T>(
    mix: F,
    wet: Seq<T>,
    dry: Seq<T>,
    remaining: usize,
    total: usize,
    out: Seq<T>,
) -> bool {
    &&& out.len() == wet.len()
    &&& forall|i: int| #![trigger out[i]]
        0 <= i < 2 * fading(wet.len(), remaining) ==> call_ensures(
            mix,
            (dry[i], wet[i], (total - remaining + i / 2) as usize),
            out[i],
        )
    &&& forall|i: int| #![trigger out[i]]
        2 * fading(wet.len(), remaining) <= i < out.len() ==> out[i] == wet[i]
}

/// Fades a block in place from the dry to the processed sound, of which `remaining` frames of
/// `total` are to come, and gives how many remain. `mix` makes a sample of the dry one, the
/// processed one and the place in the fade.
pub fn apply_dry_wet_fade<T: Copy, F: Fn(T, T, usize) -> T>(
    wet: &mut Vec<T>,
    dry: &[T],
    remaining: usize,
    total: usize,
    mix: &F,
) -> (r: usize)
    requires
        old(wet)@.len() == dry@.len(),
        remaining <= total,
        forall|d: T, w: T, at: usize| at < total ==> #[trigger] call_requires(*mix, (d, w, at)),
    ensures
        r == fade_after(remaining, (old(wet)@.len() / 2) as usize),
        is_faded(*mix, old(wet)@, dry@, remaining, total, final(wet)@),
{
    let len: usize = wet.len();
    let frames: usize = len / 2;
    let count: usize = if frames < remaining {
        frames
    } else {
        remaining
    };
    let ghost before = wet@;
    let mut k: usize = 0;
    while k < count
        invariant
            k <= count,
            count == fading(before.len(), remaining),
            2 * count <= len,
            len == before.len(),
            count <= remaining <= total,
            wet@.len() == before.len(),
            dry@.len() == before.len(),
            forall|d: T, w: T, at: usize| at < total ==> #[trigger] call_requires(*mix, (d, w, at)),
            forall|i: int| #![trigger wet@[i]]
                0 <= i < 2 * k ==> call_ensures(
                    *mix,
                    (dry@[i], before[i], (total - remaining + i / 2) as usize),
                    wet@[i],
                ),
            forall|i: int| #![trigger wet@[i]] 2 * k <= i < before.len() ==> wet@[i] == before[i],
        decreases count - k,
    {
        let at: usize = total - remaining + k;
        let left: usize = 2 * k;
        let right: usize = 2 * k + 1;
        assert(left as int / 2 == k && right as int / 2 == k);
        assert(wet@[left as int] == before[left as int]);
        assert(wet@[right as int] == before[right as int]);
        let l: T = mix(dry[left], wet[left], at);
        let r: T = mix(dry[right], wet[right], at);
        wet.set(left, l);
        wet.set(right, r);
        k = k + 1;
    }
    remaining - count
}

/// A fade does not see where blocks begin: two blocks that are faded one after the other are
/// the two in one, faded at once.
pub proof fn a_fade_does_not_see_the_blocks<T, F: Fn(T, T, usize) -> T>(
    mix: F,
    wet1: Seq<T>,
    dry1: Seq<T>,
    out1: Seq<T>,
    wet2: Seq<T>,
    dry2: Seq<T>,
    out2: Seq<T>,
    remaining: usize,
    total: usize,
)
    requires
        remaining <= total,
        wet1.len() == dry1.len(),
        wet2.len() == dry2.len(),
        wet1.len() % 2 == 0,
        wet1.len() <= usize::MAX,
        is_faded(mix, wet1, dry1, remaining, total, out1),
        is_faded(
            mix,
            wet2,
            dry2,
            fade_after(remaining, (wet1.len() / 2) as usize),
            total,
            out2,
        ),
    ensures
        is_faded(mix, wet1 + wet2, dry1 + dry2, remaining, total, out1 + out2),
{
    let n = wet1.len() as int;
    let wet = wet1 + wet2;
    let dry = dry1 + dry2;
    let out = out1 + out2;
    let later = fade_after(remaining, (wet1.len() / 2) as usize);
    assert forall|i: int|
        #![trigger out[i]]
        0 <= i < 2 * fading(wet.len(), remaining) implies call_ensures(
        mix,
        (dry[i], wet[i], (total - remaining + i / 2) as usize),
        out[i],
    ) by {
        if i < n {
            assert(out[i] == out1[i]);
        } else {
            let j = i - n;
            assert(out[i] == out2[j]);
            assert(total - remaining + i / 2 == total - later + j / 2);
        }
    }
    assert forall|i: int|
        #![trigger out[i]]
        2 * fading(wet.len(), remaining) <= i < out.len() implies out[i] == wet[i] by {
        if i < n {
            assert(out[i] == out1[i]);
        } else {
            assert(out[i] == out2[i - n]);
        }
    }
}

/// Where `mix` gives one result, so does the fade.
pub proof fn a_fade_has_one_result<T, F: Fn(T, T, usize) -> T>(
    mix: F,
    wet: Seq<T>,
    dry: Seq<T>,
    remaining: usize,
    total: usize,
    a: Seq<T>,
    b: Seq<T>,
)
    requires
        forall|d: T, w: T, at: usize, x: T, y: T| #[trigger]
            call_ensures(mix, (d, w, at), x) && #[trigger] call_ensures(mix, (d, w, at), y) ==> x
                == y,
        is_faded(mix, wet, dry, remaining, total, a),
        is_faded(mix, wet, dry, remaining, total, b),
    ensures
        a == b,
{
    assert forall|i: int| 0 <= i < a.len() implies #[trigger] a[i] == b[i] by {
        if i < 2 * fading(wet.len(), remaining) {
            let args = (dry[i], wet[i], (total - remaining + i / 2) as usize);
            assert(call_ensures(mix, args, a[i]));
            assert(call_ensures(mix, args, b[i]));
        }
    }
    assert(a =~= b);
}

/// A plugin that comes in is always faded in from the very beginning, and a fade that is
/// under way goes on where it was: the part that is planned for a block is the part that the
/// block is faded by.
pub proof fn fades_join(s: ProcessStage, frames: usize)
    requires
        s.wf(),
    ensures
        !s.wet_was_active ==> s.fade_due() == FADE_SAMPLES,
        ({
            let due = s.fade_due();
            let after = ProcessStage {
                wet_was_active: true,
                fade_remaining: fade_after(due, frames),
            };
            let first = FADE_SAMPLES - due;
            let count = due - fade_after(due, frames);
            &&& FADE_SAMPLES - after.fade_due() == first + count
            &&& count == fading((2 * frames) as nat, due)
        }),
{
}

/// While the plugin's host is in use elsewhere, or there is no plugin, no block waits: it
/// passes dry, and the next one that is processed is faded in.
pub proof fn a_busy_host_costs_no_block(platform: Platform, b: BlockState)
    requires
        !b.host_free || b.handle is None,
    ensures
        wet_handle(platform, b) is None,
        (ProcessStage { wet_was_active: false, fade_remaining: 0 }).fade_due() == FADE_SAMPLES,
{
}

/// A block goes through the plugin that is loaded, unless it is empty, the plugin is bypassed
/// or in use elsewhere, or the platform hosts none.
pub proof fn a_block_goes_through_the_plugin_that_is_loaded(platform: Platform, b: BlockState)
    ensures
        platform == Platform::Other || b.frames == 0 || b.bypass || !b.host_free ==> wet_handle(
            platform,
            b,
        ) is None,
        platform != Platform::Other && b.frames > 0 && !b.bypass && b.host_free ==> wet_handle(
            platform,
            b,
        ) == b.handle,
{
}

/// A fade is 384 frames long. It begins with the first block that goes through the plugin after
/// one that did not, and every block takes its frames off it, until nothing is left.
pub proof fn a_fade_is_used_up_by_its_frames(s: ProcessStage, remaining: usize, frames: usize)
    ensures
        !s.wet_was_active ==> s.fade_due() == 384,
        s.wet_was_active ==> s.fade_due() == s.fade_remaining,
        frames <= remaining ==> fade_after(remaining, frames) + frames == remaining,
        frames > remaining ==> fade_after(remaining, frames) == 0,
{
}

/// The first frames of a block are mixed, each sample with the one of the same place and with
/// the part of the fade that it stands in; behind the end of the fade the block is as the
/// plugin gave it.
pub proof fn each_sample_is_mixed_with_its_own<T, F: Fn(T, T, usize) -> T>(
    mix: F,
    wet: Seq<T>,
    dry: Seq<T>,
    remaining: usize,
    total: usize,
    out: Seq<T>,
    f: int,
)
    requires
        is_faded(mix, wet, dry, remaining, total, out),
        0 <= f,
        2 * f + 1 < wet.len(),
    ensures
        out.len() == wet.len(),
        f < remaining ==> call_ensures(
            mix,
            (dry[2 * f], wet[2 * f], (total - remaining + f) as usize),
            out[2 * f],
        ),
        f < remaining ==> call_ensures(
            mix,
            (dry[2 * f + 1], wet[2 * f + 1], (total - remaining + f) as usize),
            out[2 * f + 1],
        ),
        f >= remaining ==> out[2 * f] == wet[2 * f] && out[2 * f + 1] == wet[2 * f + 1],
{
    assert((2 * f) / 2 == f && (2 * f + 1) / 2 == f);
    let a = out[2 * f];
    let b = out[2 * f + 1];
}

/// A block is handed to the plugin in pieces of 128 frames, one behind the other; only the last
/// one may be shorter, and it ends where the block ends.
pub proof fn a_block_is_handed_over_in_pieces<T: Copy>(run: PluginRun<T>)
    requires
        run.wf(),
    ensures
        run.frames() == run.stereo@.len() as int / 2,
        run.done <= run.piece_end() <= run.frames(),
        run.done < run.frames() ==> run.done < run.piece_end(),
        run.piece_end() <= run.done + 128,
        run.piece_end() < run.frames() ==> run.piece_end() == run.done + 128,
{
}

} // verus!
