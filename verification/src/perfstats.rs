//! Measurements of a second: what is reported, and what is done about an overload.

use crate::clock::Instant;
use crate::float_bits;
use crate::keyed::{find, index_of, lemma_index, lemma_index_is, Keyed};
use crate::messages::{
    AgentMessage, LatencySnapshot, PeerPerf, PerfReport, PipelineLatency, PluginPerf,
};
use crate::pipeline::{AgentState, PipelineState};
use crate::plugin::Platform;
use crate::plugin_control::PluginControl;
use vstd::prelude::*;
use vstd::string::*;

verus! {

/// The smaller of the two sizes of the driver's buffers, in samples.
pub const BUFFER_LOW: u32 = 64;

/// The larger one.
pub const BUFFER_SAFE: u32 = 128;

/// The size of buffers that the driver is asked for. It starts small and grows once, when
/// the machine does not keep up; only a restart of the agent tries the small size again.
#[derive(Clone, Copy, Debug, PartialEq, Eq, Structural)]
pub struct BufferPolicy {
    pub target: u32,
    /// The streams are to be opened anew at another size.
    pub rebuild_requested: bool,
}

impl BufferPolicy {
    pub fn new() -> (r: BufferPolicy)
        ensures
            r == (BufferPolicy { target: BUFFER_LOW, rebuild_requested: false }),
            r.target == 64,
    {
        BufferPolicy { target: BUFFER_LOW, rebuild_requested: false }
    }

    /// Grows the buffers, if they are small. Says whether they were.
    pub fn escalate_to_safe(&mut self) -> (r: bool)
        ensures
            r == (old(self).target == BUFFER_LOW),
            *final(self) == (BufferPolicy {
                target: if r {
                    BUFFER_SAFE
                } else {
                    old(self).target
                },
                ..*old(self)
            }),
            r <==> old(self).target == 64,
            r ==> final(self).target == 128,
    {
        if self.target == BUFFER_LOW {
            self.target = BUFFER_SAFE;
            true
        } else {
            false
        }
    }

    pub fn request_rebuild(&mut self)
        ensures
            *final(self) == (BufferPolicy { rebuild_requested: true, ..*old(self) }),
    {
        self.rebuild_requested = true;
    }

    /// Takes a request to open the streams anew.
    pub fn take_rebuild_request(&mut self) -> (r: bool)
        ensures
            r == old(self).rebuild_requested,
            *final(self) == (BufferPolicy { rebuild_requested: false, ..*old(self) }),
    {
        let r = self.rebuild_requested;
        self.rebuild_requested = false;
        r
    }
}

/// Seconds of load, less seconds without, after which the buffers grow.
pub const ESCALATE_AT: u32 = 4;

/// Blocks of a second that may be lost before it counts as a second of load.
pub const DROP_BAD_PER_SEC: u64 = 10;

/// The pressure after a second.
pub open spec fn pressure_after(pressure: u32, bad: bool) -> u32 {
    if bad {
        if pressure == u32::MAX {
            u32::MAX
        } else {
            (pressure + 1) as u32
        }
    } else if pressure == 0 {
        0
    } else {
        (pressure - 1) as u32
    }
}

/// A second without load takes back a second of load: single peaks never add up.
pub proof fn a_calm_second_takes_back_a_peak(pressure: u32)
    requires
        pressure < u32::MAX,
    ensures
        pressure_after(pressure_after(pressure, true), false) == pressure,
{
}

/// A received stream, as the mixer sees it.
#[derive(Debug)]
pub struct MixerPeer {
    pub producer_id: String,
    pub underruns: u64,
    pub drift_drops: u64,
    pub target_ms: u32,
}

/// A received stream, as the network sees it.
#[derive(Debug)]
pub struct PeerNet {
    pub producer_id: String,
    pub drift_ppm: u32,
    pub jitter_ms: u32,
    pub jitter_tail_ms: u32,
}

/// A peer that sends in bursts.
#[derive(Debug)]
pub struct UnstablePeer {
    pub producer_id: String,
    pub events_window: u64,
    pub drains_total: u64,
}

/// What was measured since the last time.
#[derive(Debug)]
pub struct PerfSample {
    pub pipeline: LatencySnapshot,
    pub plugin: LatencySnapshot,
    /// Callbacks since the streams were opened.
    pub capture_callbacks: u64,
    pub output_callbacks: u64,
    /// Blocks that the capture lost.
    pub capture_drops: u64,
    pub output_peak: u32,
    pub clip_samples: u64,
    pub total_samples: u64,
    pub peers: Vec<MixerPeer>,
    pub net: Vec<PeerNet>,
    pub monitor_buffer_ms: u32,
    /// Since the monitor was set up.
    pub monitor_underruns: u64,
    pub unstable: Vec<UnstablePeer>,
}

impl Keyed for PeerNet {
    open spec fn key(&self) -> Seq<char> {
        self.producer_id@
    }

    fn key_text(&self) -> (r: &str) {
        self.producer_id.as_str()
    }
}

/// What is reported of a peer. What the network does not know yet is zero.
pub open spec fn peer_perf(p: MixerPeer, net: Seq<PeerNet>) -> PeerPerf {
    let i = index_of(net, p.producer_id@);
    let known = i < net.len();
    PeerPerf {
        producer_id: p.producer_id,
        drift_ppm: if known {
            net[i].drift_ppm
        } else {
            0
        },
        jitter_ms: if known {
            net[i].jitter_ms
        } else {
            0
        },
        jitter_tail_ms: if known {
            net[i].jitter_tail_ms
        } else {
            0
        },
        buffer_target_ms: p.target_ms,
        underruns: p.underruns,
        drift_drops: p.drift_drops,
    }
}

fn report_peers(peers: &Vec<MixerPeer>, net: &Vec<PeerNet>) -> (r: Vec<PeerPerf>)
    ensures
        r@.len() == peers@.len(),
        forall|i: int| 0 <= i < r@.len() ==> #[trigger] r@[i] == peer_perf(peers@[i], net@),
{
    let mut r: Vec<PeerPerf> = Vec::new();
    let mut i: usize = 0;
    while i < peers.len()
        invariant
            i <= peers@.len(),
            r@.len() == i,
            forall|k: int| 0 <= k < i ==> #[trigger] r@[k] == peer_perf(peers@[k], net@),
        decreases peers@.len() - i,
    {
        let p = &peers[i];
        let k: usize = find(net, p.producer_id.as_str());
        let known = k < net.len();
        r.push(
            PeerPerf {
                producer_id: p.producer_id.clone(),
                drift_ppm: if known {
                    net[k].drift_ppm
                } else {
                    0
                },
                jitter_ms: if known {
                    net[k].jitter_ms
                } else {
                    0
                },
                jitter_tail_ms: if known {
                    net[k].jitter_tail_ms
                } else {
                    0
                },
                buffer_target_ms: p.target_ms,
                underruns: p.underruns,
                drift_drops: p.drift_drops,
            },
        );
        i = i + 1;
    }
    r
}

/// When a peer was last reported as unstable.
#[derive(Debug)]
pub struct Mark {
    pub producer_id: String,
    pub at: Instant,
}

/// Shortest time between two reports on a peer, in milliseconds.
pub const UNSTABLE_COOLDOWN_MS: u64 = 30_000;

impl Keyed for Mark {
    open spec fn key(&self) -> Seq<char> {
        self.producer_id@
    }

    fn key_text(&self) -> (r: &str) {
        self.producer_id.as_str()
    }
}

/// May a peer be reported again?
pub open spec fn is_due(marks: Seq<Mark>, id: Seq<char>, now: Instant) -> bool {
    let i = index_of(marks, id);
    i < marks.len() ==> now.nanos_since(marks[i].at) >= UNSTABLE_COOLDOWN_MS * 1_000_000
}

/// The marks after a report on a peer.
pub open spec fn marked(marks: Seq<Mark>, id: String, now: Instant) -> Seq<Mark> {
    let i = index_of(marks, id@);
    if i < marks.len() {
        marks.update(i, Mark { producer_id: marks[i].producer_id, at: now })
    } else {
        marks.push(Mark { producer_id: id, at: now })
    }
}

/// The report on a peer.
pub open spec fn unstable_message(p: UnstablePeer, net: Seq<PeerNet>) -> AgentMessage {
    let i = index_of(net, p.producer_id@);
    AgentMessage::PeerUnstable {
        producer_id: p.producer_id,
        drift_drains_window: p.events_window,
        drift_drains_total: p.drains_total,
        drift_ppm: if i < net.len() {
            net[i].drift_ppm
        } else {
            0
        },
    }
}

/// The reports on peers, one after the other, and the marks after them.
pub open spec fn unstable_reports(
    marks: Seq<Mark>,
    peers: Seq<UnstablePeer>,
    net: Seq<PeerNet>,
    now: Instant,
) -> (Seq<AgentMessage>, Seq<Mark>)
    decreases peers.len(),
{
    if peers.len() == 0 {
        (Seq::empty(), marks)
    } else {
        let (sent, known) = unstable_reports(marks, peers.drop_last(), net, now);
        let p = peers.last();
        if is_due(known, p.producer_id@, now) {
            (sent.push(unstable_message(p, net)), marked(known, p.producer_id, now))
        } else {
            (sent, known)
        }
    }
}

/// Blocks of a second beyond which the plugin is to blame, if it takes long.
pub const PLUGIN_OVERLOAD_DROPS: u64 = 20;

/// Fewest blocks that the plugin must have processed to be judged.
pub const PLUGIN_OVERLOAD_COUNT: u64 = 50;

/// Bits of 3.0: the time in milliseconds that a plugin may take.
pub const PLUGIN_OVERLOAD_P99: u32 = 0x4040_0000;

/// Does the plugin overload the agent? Only if sound is lost for real, and only once until
/// the user acts.
pub open spec fn plugin_overloads(slot: PluginControl, s: PerfSample, platform: Platform) -> bool {
    &&& platform.hosts_plugins()
    &&& s.capture_drops > PLUGIN_OVERLOAD_DROPS
    &&& s.plugin.count >= PLUGIN_OVERLOAD_COUNT
    &&& float_bits::above(s.plugin.p99_ms, PLUGIN_OVERLOAD_P99)
    &&& !slot.plugin_auto_bypass_active
}

/// Blocks of a second beyond which the whole pipeline is overloaded.
pub const PIPELINE_OVERLOAD_DROPS: u64 = 100;

/// Time between two reports of that, in milliseconds.
pub const PIPELINE_OVERLOAD_COOLDOWN_MS: u64 = 10_000;

/// Keeps reports of an overloaded pipeline apart.
#[derive(Clone, Copy, Debug, PartialEq, Eq, Structural)]
pub struct OverloadGate {
    pub last_emit_ms: u64,
}

/// Is an overloaded pipeline to be reported? Time that runs backwards does not count.
pub open spec fn pipeline_overloads(gate: OverloadGate, drops: u64, now_ms: u64) -> bool {
    drops > PIPELINE_OVERLOAD_DROPS && now_ms - gate.last_emit_ms > PIPELINE_OVERLOAD_COOLDOWN_MS
}

/// The name of the plugin that is loaded, where plugins are.
pub open spec fn plugin_name(slot: PluginControl, platform: Platform) -> Option<Seq<char>> {
    if platform.hosts_plugins() {
        match slot.instrument_plugin_info {
            Some(info) => Some(info.name@),
            None => None,
        }
    } else {
        None
    }
}

/// The name in a report: a plugin may be gone when its figures come in.
pub open spec fn reported_name(name: Option<Seq<char>>) -> Seq<char> {
    match name {
        Some(n) => n,
        None => "unknown"@,
    }
}

/// Is there nothing to report?
pub open spec fn is_idle(s: PerfSample) -> bool {
    &&& s.plugin.count == 0
    &&& s.pipeline.count == 0
    &&& s.pipeline.drops + s.capture_drops == 0
    &&& s.peers@.len() == 0
}

/// Does the report give the measurements?
pub open spec fn reports(
    m: AgentMessage,
    s: PerfSample,
    name: Option<Seq<char>>,
    now_ms: u64,
) -> bool {
    &&& m matches AgentMessage::PerfStats(r)
    &&& r.timestamp_ms == now_ms
    &&& if s.plugin.count > 0 {
        &&& r.plugin matches Some(p)
        &&& p.name@ == reported_name(name)
        &&& p.count == s.plugin.count
        &&& p.mean_ms == s.plugin.mean_ms
        &&& p.p50_ms == s.plugin.p50_ms
        &&& p.p99_ms == s.plugin.p99_ms
        &&& p.max_ms == s.plugin.max_ms
    } else {
        r.plugin is None
    }
    &&& r.pipeline_latency.count == s.pipeline.count
    &&& r.pipeline_latency.p50_ms == s.pipeline.p50_ms
    &&& r.pipeline_latency.p99_ms == s.pipeline.p99_ms
    &&& r.pipeline_latency.max_ms == s.pipeline.max_ms
    &&& r.pipeline_latency.mean_ms == s.pipeline.mean_ms
    &&& r.pipeline_latency.drops_per_sec == s.pipeline.drops + s.capture_drops
    &&& r.peers@.len() == s.peers@.len()
    &&& forall|i: int|
        0 <= i < r.peers@.len() ==> #[trigger] r.peers@[i] == peer_perf(s.peers@[i], s.net@)
    &&& r.output_peak == s.output_peak
    &&& r.output_clip_samples == s.clip_samples
    &&& r.output_total_samples == s.total_samples
    &&& r.monitor_buffer_ms == s.monitor_buffer_ms
    &&& r.monitor_underruns == s.monitor_underruns
}

/// Does the message tell of a plugin that overloads the agent?
pub open spec fn tells_plugin_overload(
    m: AgentMessage,
    s: PerfSample,
    name: Option<Seq<char>>,
) -> bool {
    m matches AgentMessage::InstrumentPluginOverload { name: n, p99_ms, max_ms, count } && n@
        == reported_name(name) && p99_ms == s.plugin.p99_ms && max_ms == s.plugin.max_ms && count
        == s.plugin.count
}

/// Does the message tell of an overloaded pipeline?
pub open spec fn tells_pipeline_overload(
    m: AgentMessage,
    s: PerfSample,
    name: Option<Seq<char>>,
) -> bool {
    m matches AgentMessage::AgentPipelineOverload {
        drops_per_sec,
        pipeline_p99_ms,
        plugin_name: n,
    } && drops_per_sec == s.capture_drops && pipeline_p99_ms == s.pipeline.p99_ms && n@ == (
    match name {
        Some(c) => c,
        None => Seq::<char>::empty(),
    })
}

/// What is kept from one second to the next.
#[derive(Debug)]
pub struct PerfMonitor {
    pub prev_capture_callbacks: u64,
    pub prev_output_callbacks: u64,
    pub buffer_low_pressure: u32,
    pub prev_monitor_underruns: u64,
    pub unstable_marks: Vec<Mark>,
}

/// What a second gives.
#[derive(Debug)]
pub struct PerfOutcome {
    /// What is sent, in order.
    pub messages: Vec<AgentMessage>,
    /// The buffers were made to grow.
    pub escalated: bool,
    /// Callbacks of this second.
    pub capture_rate: u64,
    pub output_rate: u64,
}

/// The difference to an earlier count; none where the count began anew.
pub open spec fn increase(now: u64, before: u64) -> u64 {
    if now >= before {
        (now - before) as u64
    } else {
        0
    }
}

/// Was it a second of load?
pub open spec fn is_bad(m: PerfMonitor, s: PerfSample) -> bool {
    s.capture_drops > DROP_BAD_PER_SEC || increase(s.monitor_underruns, m.prev_monitor_underruns)
        > 0
}

/// Are small buffers in use, by a capture that runs?
pub open spec fn is_judged(pl: PipelineState, policy: BufferPolicy) -> bool {
    pl.state == AgentState::Capturing && policy.target == BUFFER_LOW
}

/// Do the buffers grow?
pub open spec fn escalates(
    m: PerfMonitor,
    pl: PipelineState,
    policy: BufferPolicy,
    s: PerfSample,
) -> bool {
    is_judged(pl, policy) && pressure_after(m.buffer_low_pressure, is_bad(m, s)) >= ESCALATE_AT
}

impl PerfMonitor {
    pub fn new() -> (r: PerfMonitor)
        ensures
            r.prev_capture_callbacks == 0,
            r.prev_output_callbacks == 0,
            r.buffer_low_pressure == 0,
            r.prev_monitor_underruns == 0,
            r.unstable_marks@.len() == 0,
    {
        PerfMonitor {
            prev_capture_callbacks: 0,
            prev_output_callbacks: 0,
            buffer_low_pressure: 0,
            prev_monitor_underruns: 0,
            unstable_marks: Vec::new(),
        }
    }

    /// Watches the load on small buffers, and makes them grow when it lasts.
    pub fn watch_buffers(
        &mut self,
        pl: &PipelineState,
        policy: &mut BufferPolicy,
        s: &PerfSample,
    ) -> (r: bool)
        ensures
            r == escalates(*old(self), *pl, *old(policy), *s),
            *final(self) == (PerfMonitor {
                prev_monitor_underruns: s.monitor_underruns,
                buffer_low_pressure: if is_judged(*pl, *old(policy)) && !r {
                    pressure_after(old(self).buffer_low_pressure, is_bad(*old(self), *s))
                } else {
                    0
                },
                ..*old(self)
            }),
            *final(policy) == if r {
                BufferPolicy { target: BUFFER_SAFE, rebuild_requested: true }
            } else {
                *old(policy)
            },
            r ==> final(policy).target == 128 && final(policy).rebuild_requested,
    {
        let delta: u64 = s.monitor_underruns.saturating_sub(self.prev_monitor_underruns);
        self.prev_monitor_underruns = s.monitor_underruns;
        if pl.state == AgentState::Capturing && policy.target == BUFFER_LOW {
            let bad = s.capture_drops > DROP_BAD_PER_SEC || delta > 0;
            self.buffer_low_pressure = if bad {
                self.buffer_low_pressure.saturating_add(1)
            } else {
                self.buffer_low_pressure.saturating_sub(1)
            };
            if self.buffer_low_pressure >= ESCALATE_AT {
                let _ = policy.escalate_to_safe();
                policy.request_rebuild();
                self.buffer_low_pressure = 0;
                return true;
            }
        } else {
            self.buffer_low_pressure = 0;
        }
        false
    }

    /// Reports peers that send in bursts, each after a pause.
    pub fn report_unstable(
        &mut self,
        peers: &Vec<UnstablePeer>,
        net: &Vec<PeerNet>,
        now: Instant,
        messages: &mut Vec<AgentMessage>,
    )
        ensures
            ({
                let (sent, marks) = unstable_reports(
                    old(self).unstable_marks@,
                    peers@,
                    net@,
                    now,
                );
                &&& final(messages)@ == old(messages)@ + sent
                &&& final(self).unstable_marks@ == marks
            }),
            final(self).prev_capture_callbacks == old(self).prev_capture_callbacks,
            final(self).prev_output_callbacks == old(self).prev_output_callbacks,
            final(self).buffer_low_pressure == old(self).buffer_low_pressure,
            final(self).prev_monitor_underruns == old(self).prev_monitor_underruns,
    {
        let ghost marks0 = self.unstable_marks@;
        let ghost head = messages@;
        let mut i: usize = 0;
        assert(peers@.take(0) =~= Seq::<UnstablePeer>::empty());
        assert(messages@ =~= head + Seq::<AgentMessage>::empty());
        while i < peers.len()
            invariant
                i <= peers@.len(),
                messages@ == head + unstable_reports(
                    marks0,
                    peers@.take(i as int),
                    net@,
                    now,
                ).0,
                self.unstable_marks@ == unstable_reports(
                    marks0,
                    peers@.take(i as int),
                    net@,
                    now,
                ).1,
                self.prev_capture_callbacks == old(self).prev_capture_callbacks,
                self.prev_output_callbacks == old(self).prev_output_callbacks,
                self.buffer_low_pressure == old(self).buffer_low_pressure,
                self.prev_monitor_underruns == old(self).prev_monitor_underruns,
            decreases peers@.len() - i,
        {
            let p = &peers[i];
            proof {
                assert(peers@.take(i + 1).drop_last() =~= peers@.take(i as int));
                assert(peers@.take(i + 1).last() == peers@[i as int]);
            }
            let ghost before = messages@;
            let k: usize = find(&self.unstable_marks, p.producer_id.as_str());
            let due = k >= self.unstable_marks.len() || now.elapsed_nanos(
                self.unstable_marks[k].at,
            ) >= UNSTABLE_COOLDOWN_MS * 1_000_000;
            if due {
                let n: usize = find(net, p.producer_id.as_str());
                let drift_ppm: u32 = if n < net.len() {
                    net[n].drift_ppm
                } else {
                    0
                };
                messages.push(
                    AgentMessage::PeerUnstable {
                        producer_id: p.producer_id.clone(),
                        drift_drains_window: p.events_window,
                        drift_drains_total: p.drains_total,
                        drift_ppm,
                    },
                );
                if k < self.unstable_marks.len() {
                    let known = self.unstable_marks[k].producer_id.clone();
                    self.unstable_marks.set(k, Mark { producer_id: known, at: now });
                } else {
                    self.unstable_marks.push(Mark { producer_id: p.producer_id.clone(), at: now });
                }
                assert(messages@ =~= head + unstable_reports(
                    marks0,
                    peers@.take(i + 1),
                    net@,
                    now,
                ).0);
            }
            i = i + 1;
        }
        assert(peers@.take(i as int) =~= peers@);
    }

    /// Takes the measurements of a second. The measurements are sent first, then what
    /// follows from them: a plugin that overloads the agent is bypassed and reported, an
    /// overloaded pipeline is reported unless the plugin was to blame, and then unstable
    /// peers. Where there is nothing to report nothing is sent.
    pub fn tick(
        &mut self,
        pl: &mut PipelineState,
        policy: &mut BufferPolicy,
        gate: &mut OverloadGate,
        platform: Platform,
        s: PerfSample,
        now_ms: u64,
        now: Instant,
    ) -> (r: PerfOutcome)
        requires
            s.pipeline.drops + s.capture_drops <= u64::MAX,
        ensures
            r.capture_rate == increase(s.capture_callbacks, old(self).prev_capture_callbacks),
            r.output_rate == increase(s.output_callbacks, old(self).prev_output_callbacks),
            final(self).prev_capture_callbacks == s.capture_callbacks,
            final(self).prev_output_callbacks == s.output_callbacks,
            final(self).prev_monitor_underruns == s.monitor_underruns,
            r.escalated == escalates(*old(self), *old(pl), *old(policy), s),
            final(self).buffer_low_pressure == (if is_judged(*old(pl), *old(policy))
                && !r.escalated {
                pressure_after(old(self).buffer_low_pressure, is_bad(*old(self), s))
            } else {
                0
            }),
            *final(policy) == (if r.escalated {
                BufferPolicy { target: BUFFER_SAFE, rebuild_requested: true }
            } else {
                *old(policy)
            }),
            *final(pl) == (if plugin_overloads(old(pl).plugin, s, platform) {
                PipelineState {
                    plugin: PluginControl {
                        instrument_plugin_bypass: true,
                        plugin_auto_bypass_active: true,
                        ..old(pl).plugin
                    },
                    ..*old(pl)
                }
            } else {
                *old(pl)
            }),
            *final(gate) == (if pipeline_overloads(*old(gate), s.capture_drops, now_ms) {
                OverloadGate { last_emit_ms: now_ms }
            } else {
                *old(gate)
            }),
            is_idle(s) ==> r.messages@.len() == 0 && final(self).unstable_marks@ == old(
                self,
            ).unstable_marks@,
            !is_idle(s) ==> {
                let name = plugin_name(old(pl).plugin, platform);
                let (sent, marks) = unstable_reports(
                    old(self).unstable_marks@,
                    s.unstable@,
                    s.net@,
                    now,
                );
                let blamed = plugin_overloads(old(pl).plugin, s, platform);
                let strained = pipeline_overloads(*old(gate), s.capture_drops, now_ms);
                let head = if blamed || strained {
                    2
                } else {
                    1int
                };
                &&& r.messages@.len() == head + sent.len()
                &&& reports(r.messages@[0], s, name, now_ms)
                &&& blamed ==> tells_plugin_overload(r.messages@[1], s, name)
                &&& !blamed && strained ==> tells_pipeline_overload(r.messages@[1], s, name)
                &&& r.messages@.skip(head) == sent
                &&& final(self).unstable_marks@ == marks
            },
    {
        let capture_rate: u64 = s.capture_callbacks.saturating_sub(self.prev_capture_callbacks);
        let output_rate: u64 = s.output_callbacks.saturating_sub(self.prev_output_callbacks);
        self.prev_capture_callbacks = s.capture_callbacks;
        self.prev_output_callbacks = s.output_callbacks;
        let escalated = self.watch_buffers(pl, policy, &s);
        let hosts = platform.can_host_plugins();
        let name: Option<String> = if hosts {
            match &pl.plugin.instrument_plugin_info {
                Some(info) => Some(info.name.clone()),
                None => None,
            }
        } else {
            None
        };
        let ghost name_chars = plugin_name(old(pl).plugin, platform);
        let strained = s.capture_drops > PIPELINE_OVERLOAD_DROPS && now_ms.saturating_sub(
            gate.last_emit_ms,
        ) > PIPELINE_OVERLOAD_COOLDOWN_MS;
        if strained {
            gate.last_emit_ms = now_ms;
        }
        let blamed = hosts && s.capture_drops > PLUGIN_OVERLOAD_DROPS && s.plugin.count
            >= PLUGIN_OVERLOAD_COUNT && float_bits::is_above(s.plugin.p99_ms, PLUGIN_OVERLOAD_P99)
            && !pl.plugin.plugin_auto_bypass_active;
        if blamed {
            pl.plugin.bypass_overloaded();
        }
        let mut messages: Vec<AgentMessage> = Vec::new();
        let drops_per_sec: u64 = s.pipeline.drops + s.capture_drops;
        if s.plugin.count == 0 && s.pipeline.count == 0 && drops_per_sec == 0 && s.peers.len()
            == 0 {
            return PerfOutcome { messages, escalated, capture_rate, output_rate };
        }
        let shown = match &name {
            Some(n) => n.clone(),
            None => "unknown".to_owned(),
        };
        assert(shown@ == reported_name(name_chars));
        let plugin = if s.plugin.count > 0 {
            Some(
                PluginPerf {
                    name: shown.clone(),
                    count: s.plugin.count,
                    mean_ms: s.plugin.mean_ms,
                    p50_ms: s.plugin.p50_ms,
                    p99_ms: s.plugin.p99_ms,
                    max_ms: s.plugin.max_ms,
                },
            )
        } else {
            None
        };
        messages.push(
            AgentMessage::PerfStats(
                PerfReport {
                    timestamp_ms: now_ms,
                    plugin,
                    pipeline_latency: PipelineLatency {
                        count: s.pipeline.count,
                        p50_ms: s.pipeline.p50_ms,
                        p99_ms: s.pipeline.p99_ms,
                        max_ms: s.pipeline.max_ms,
                        mean_ms: s.pipeline.mean_ms,
                        drops_per_sec,
                    },
                    peers: report_peers(&s.peers, &s.net),
                    output_peak: s.output_peak,
                    output_clip_samples: s.clip_samples,
                    output_total_samples: s.total_samples,
                    monitor_buffer_ms: s.monitor_buffer_ms,
                    monitor_underruns: s.monitor_underruns,
                },
            ),
        );
        if blamed {
            messages.push(
                AgentMessage::InstrumentPluginOverload {
                    name: shown,
                    p99_ms: s.plugin.p99_ms,
                    max_ms: s.plugin.max_ms,
                    count: s.plugin.count,
                },
            );
        } else if strained {
            let plugin_name = match name {
                Some(n) => n,
                None => String::new(),
            };
            messages.push(
                AgentMessage::AgentPipelineOverload {
                    drops_per_sec: s.capture_drops,
                    pipeline_p99_ms: s.pipeline.p99_ms,
                    plugin_name,
                },
            );
        }
        let ghost head = messages@;
        self.report_unstable(&s.unstable, &s.net, now, &mut messages);
        assert(messages@.skip(head.len() as int) =~= unstable_reports(
            old(self).unstable_marks@,
            s.unstable@,
            s.net@,
            now,
        ).0);
        PerfOutcome { messages, escalated, capture_rate, output_rate }
    }
}

/// Buffers that have grown never shrink again.
pub proof fn buffers_grow_once(m: PerfMonitor, pl: PipelineState, policy: BufferPolicy, s: PerfSample)
    requires
        policy.target == BUFFER_SAFE,
    ensures
        !escalates(m, pl, policy, s),
{
}

/// A plugin that was bypassed for an overload is not reported again before the user acts.
pub proof fn an_overload_is_reported_once(
    slot: PluginControl,
    s1: PerfSample,
    s2: PerfSample,
    platform: Platform,
)
    requires
        plugin_overloads(slot, s1, platform),
    ensures
        !plugin_overloads(
            PluginControl {
                instrument_plugin_bypass: true,
                plugin_auto_bypass_active: true,
                ..slot
            },
            s2,
            platform,
        ),
{
}

/// A peer that was just reported is not reported again within the pause.
pub proof fn a_reported_peer_is_left_alone(marks: Seq<Mark>, id: String, t: Instant, later: Instant)
    requires
        later.nanos_since(t) < UNSTABLE_COOLDOWN_MS * 1_000_000,
    ensures
        !is_due(marked(marks, id, t), id@, later),
{
    lemma_index(marks, id@);
    let i = index_of(marks, id@);
    let after = marked(marks, id, t);
    assert forall|k: int| 0 <= k < i implies (#[trigger] after[k]).key() != id@ by {
        assert(after[k] == marks[k]);
    }
    lemma_index_is(after, id@, i);
}

/// A bad second counts up and a calm one down, by one, between nothing and the end of the
/// range.
pub proof fn seconds_are_counted_one_by_one(pressure: u32)
    ensures
        pressure < u32::MAX ==> pressure_after(pressure, true) == pressure + 1,
        pressure_after(u32::MAX, true) == u32::MAX,
        pressure > 0 ==> pressure_after(pressure, false) == pressure - 1,
        pressure_after(0, false) == 0,
{
}

/// A peer is reported with what the mixer knows of it and with what the network knows of the
/// same peer; where the network knows nothing, with nothing.
pub proof fn a_peer_is_reported_under_its_own_name(p: MixerPeer, net: Seq<PeerNet>, at: int)
    requires
        0 <= at <= net.len(),
        at < net.len() ==> net[at].producer_id@ == p.producer_id@,
        forall|k: int| 0 <= k < at ==> (#[trigger] net[k]).producer_id@ != p.producer_id@,
    ensures
        ({
            let r = peer_perf(p, net);
            &&& r.producer_id == p.producer_id
            &&& r.buffer_target_ms == p.target_ms
            &&& r.underruns == p.underruns
            &&& r.drift_drops == p.drift_drops
            &&& at < net.len() ==> r.drift_ppm == net[at].drift_ppm && r.jitter_ms
                == net[at].jitter_ms && r.jitter_tail_ms == net[at].jitter_tail_ms
            &&& at == net.len() ==> r.drift_ppm == 0 && r.jitter_ms == 0 && r.jitter_tail_ms == 0
        }),
{
    assert forall|k: int| 0 <= k < at implies (#[trigger] net[k]).key() != p.producer_id@ by {
        assert(net[k].producer_id@ != p.producer_id@);
    }
    lemma_index_is(net, p.producer_id@, at);
}

/// A peer that sends in bursts is reported unless it was within the last 30 seconds, and the
/// time of the report is kept: for this peer, and for no other.
pub proof fn a_peer_is_reported_every_thirty_seconds(
    marks: Seq<Mark>,
    id: String,
    now: Instant,
    at: int,
)
    requires
        0 <= at <= marks.len(),
        at < marks.len() ==> marks[at].producer_id@ == id@,
        forall|k: int| 0 <= k < at ==> (#[trigger] marks[k]).producer_id@ != id@,
    ensures
        at == marks.len() ==> is_due(marks, id@, now),
        at < marks.len() ==> (is_due(marks, id@, now) <==> now.nanos >= marks[at].at.nanos
            + 30_000_000_000),
        at < marks.len() ==> {
            &&& marked(marks, id, now).len() == marks.len()
            &&& marked(marks, id, now)[at].at == now
            &&& marked(marks, id, now)[at].producer_id@ == id@
        },
        at == marks.len() ==> {
            &&& marked(marks, id, now).len() == marks.len() + 1
            &&& marked(marks, id, now)[at] == (Mark { producer_id: id, at: now })
        },
        forall|k: int|
            0 <= k < marks.len() && k != at ==> #[trigger] marked(marks, id, now)[k] == marks[k],
{
    assert forall|k: int| 0 <= k < at implies (#[trigger] marks[k]).key() != id@ by {
        assert(marks[k].producer_id@ != id@);
    }
    lemma_index_is(marks, id@, at);
}

/// The report on such a peer tells its name, its bursts in the window and in all, and the
/// drift that the network has measured of it.
pub proof fn an_unstable_peer_is_told_with_its_figures(
    p: UnstablePeer,
    net: Seq<PeerNet>,
    at: int,
)
    requires
        0 <= at <= net.len(),
        at < net.len() ==> net[at].producer_id@ == p.producer_id@,
        forall|k: int| 0 <= k < at ==> (#[trigger] net[k]).producer_id@ != p.producer_id@,
    ensures
        unstable_message(p, net) matches AgentMessage::PeerUnstable {
            producer_id,
            drift_drains_window,
            drift_drains_total,
            drift_ppm,
        } && {
            &&& producer_id == p.producer_id
            &&& drift_drains_window == p.events_window
            &&& drift_drains_total == p.drains_total
            &&& at < net.len() ==> drift_ppm == net[at].drift_ppm
            &&& at == net.len() ==> drift_ppm == 0
        },
{
    assert forall|k: int| 0 <= k < at implies (#[trigger] net[k]).key() != p.producer_id@ by {
        assert(net[k].producer_id@ != p.producer_id@);
    }
    lemma_index_is(net, p.producer_id@, at);
}

/// The peers are gone through in their order: one more is reported behind those before it if
/// it is due by then, and is then marked; otherwise nothing changes.
pub proof fn peers_are_reported_in_their_order(
    marks: Seq<Mark>,
    peers: Seq<UnstablePeer>,
    p: UnstablePeer,
    net: Seq<PeerNet>,
    now: Instant,
)
    ensures
        unstable_reports(marks, Seq::empty(), net, now) == (Seq::<AgentMessage>::empty(), marks),
        ({
            let (sent, known) = unstable_reports(marks, peers, net, now);
            let (more, after) = unstable_reports(marks, peers.push(p), net, now);
            &&& is_due(known, p.producer_id@, now) ==> more == sent.push(unstable_message(p, net))
                && after == marked(known, p.producer_id, now)
            &&& !is_due(known, p.producer_id@, now) ==> more == sent && after == known
        }),
{
    assert(peers.push(p).drop_last() =~= peers);
}

/// A plugin is too slow if the capture lost more than 20 blocks in a second in which the plugin
/// ran 50 times at least, and in 99 of 100 runs took more than three milliseconds in the worst
/// case; once it is bypassed for that it is not judged again.
pub proof fn a_plugin_is_too_slow_by_these_figures(
    slot: PluginControl,
    s: PerfSample,
    platform: Platform,
)
    ensures
        plugin_overloads(slot, s, platform) <==> {
            &&& platform == Platform::MacOs || platform == Platform::Windows
            &&& s.capture_drops > 20
            &&& s.plugin.count >= 50
            &&& 0x4040_0000 < s.plugin.p99_ms <= 0x7f80_0000
            &&& !slot.plugin_auto_bypass_active
        },
{
}

/// The way to the network is overloaded if more than 100 blocks were lost in a second. It is
/// told every ten seconds at most.
pub proof fn an_overload_is_told_every_ten_seconds(gate: OverloadGate, drops: u64, now_ms: u64)
    ensures
        pipeline_overloads(gate, drops, now_ms) <==> drops > 100 && now_ms > gate.last_emit_ms
            + 10_000,
{
}

/// A plugin is told by its own name, where plugins are hosted and one is loaded.
pub proof fn a_plugin_is_told_by_its_name(slot: PluginControl, platform: Platform)
    ensures
        platform == Platform::Other ==> plugin_name(slot, platform) is None,
        slot.instrument_plugin_info is None ==> plugin_name(slot, platform) is None,
        platform != Platform::Other && slot.instrument_plugin_info is Some ==> plugin_name(
            slot,
            platform,
        ) == Some(slot.instrument_plugin_info->0.name@),
        plugin_name(slot, platform) matches Some(n) ==> reported_name(
            plugin_name(slot, platform),
        ) == n,
        reported_name(None) == "unknown"@,
{
}

/// A second in which nothing ran, nothing was lost and nobody was heard is not reported.
pub proof fn only_a_second_without_anything_is_idle(s: PerfSample)
    ensures
        is_idle(s) <==> s.plugin.count == 0 && s.pipeline.count == 0 && s.pipeline.drops == 0
            && s.capture_drops == 0 && s.peers@.len() == 0,
{
}

/// A report tells every figure under its own name; blocks that were lost on the way and in the
/// capture are told together.
pub proof fn a_report_tells_each_figure_under_its_name(
    r: crate::messages::PerfReport,
    s: PerfSample,
    name: Option<Seq<char>>,
    now_ms: u64,
)
    requires
        reports(AgentMessage::PerfStats(r), s, name, now_ms),
    ensures
        r.timestamp_ms == now_ms,
        r.pipeline_latency.count == s.pipeline.count,
        r.pipeline_latency.p50_ms == s.pipeline.p50_ms,
        r.pipeline_latency.p99_ms == s.pipeline.p99_ms,
        r.pipeline_latency.max_ms == s.pipeline.max_ms,
        r.pipeline_latency.mean_ms == s.pipeline.mean_ms,
        r.pipeline_latency.drops_per_sec == s.pipeline.drops + s.capture_drops,
        r.output_peak == s.output_peak,
        r.output_clip_samples == s.clip_samples,
        r.output_total_samples == s.total_samples,
        r.monitor_buffer_ms == s.monitor_buffer_ms,
        r.monitor_underruns == s.monitor_underruns,
        r.peers@.len() == s.peers@.len(),
        forall|i: int|
            0 <= i < s.peers@.len() ==> (#[trigger] r.peers@[i]).producer_id
                == s.peers@[i].producer_id && r.peers@[i].underruns == s.peers@[i].underruns,
        s.plugin.count == 0 ==> r.plugin is None,
        s.plugin.count > 0 ==> {
            &&& r.plugin matches Some(p)
            &&& p.count == s.plugin.count && p.mean_ms == s.plugin.mean_ms
            &&& p.p50_ms == s.plugin.p50_ms && p.p99_ms == s.plugin.p99_ms
            &&& p.max_ms == s.plugin.max_ms
            &&& name matches Some(n) ==> p.name@ == n
            &&& name is None ==> p.name@ == "unknown"@
        },
{
}

/// An overload is told with the figures that it was judged by.
pub proof fn an_overload_is_told_with_its_figures(
    m: AgentMessage,
    s: PerfSample,
    name: Option<Seq<char>>,
)
    ensures
        tells_plugin_overload(m, s, name) ==> {
            &&& m matches AgentMessage::InstrumentPluginOverload { name: n, p99_ms, max_ms, count }
            &&& p99_ms == s.plugin.p99_ms && max_ms == s.plugin.max_ms && count == s.plugin.count
            &&& name matches Some(c) ==> n@ == c
            &&& name is None ==> n@ == "unknown"@
        },
        tells_pipeline_overload(m, s, name) ==> {
            &&& m matches AgentMessage::AgentPipelineOverload {
                drops_per_sec,
                pipeline_p99_ms,
                plugin_name: n,
            }
            &&& drops_per_sec == s.capture_drops && pipeline_p99_ms == s.pipeline.p99_ms
            &&& name matches Some(c) ==> n@ == c
            &&& name is None ==> n@.len() == 0
        },
{
}

/// Buffers of 64 samples are judged while sound is captured: a second is bad in which more than
/// ten blocks were lost or the monitor ran dry anew, and at the fourth bad second that no calm
/// one took back the buffers grow.
pub proof fn four_bad_seconds_make_the_buffers_grow(
    m: PerfMonitor,
    pl: PipelineState,
    policy: BufferPolicy,
    s: PerfSample,
)
    ensures
        is_bad(m, s) <==> s.capture_drops > 10 || s.monitor_underruns > m.prev_monitor_underruns,
        is_judged(pl, policy) <==> pl.state == AgentState::Capturing && policy.target == 64,
        escalates(m, pl, policy, s) ==> is_judged(pl, policy),
        is_judged(pl, policy) && is_bad(m, s) ==> (escalates(m, pl, policy, s)
            <==> m.buffer_low_pressure >= 3),
        is_judged(pl, policy) && !is_bad(m, s) ==> (escalates(m, pl, policy, s)
            <==> m.buffer_low_pressure >= 5),
{
}

/// An increase is what has to be added to the earlier count; a count that starts again has
/// none.
pub proof fn an_increase_leads_to_the_later_count(now: u64, before: u64)
    ensures
        now >= before ==> before + increase(now, before) == now,
        now < before ==> increase(now, before) == 0,
{
}

} // verus!
