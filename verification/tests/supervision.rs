//! Supervision: dead callbacks, buffers that are too small, overloads, and Windows.

use jamodio::audio_open::HostKind;
use jamodio::clock::Instant;
use jamodio::liveness::{
    reinit_begin, reinit_end, resume_reinit_settle, LivenessAction, Look, Repair, RepairStep,
    Supervisor,
};
use jamodio::messages::{AgentMessage, LatencySnapshot};
use jamodio::perfstats::{
    BufferPolicy, MixerPeer, OverloadGate, PeerNet, PerfMonitor, PerfOutcome, PerfSample,
    UnstablePeer,
};
use jamodio::pipeline::{AgentState, PipelineState};
use jamodio::plugin::{Platform, PluginRef};
use jamodio::plugin_control::LoadedPluginInfo;
use jamodio::timer_precision::{exempt_process_from_timer_throttling, SessionTimerResolution};
use jamodio::tray_promote::{
    find_entry, plan, read_back, Outcome, PromotionRun, TrayEntry, TrayPlan,
};

fn look(ms: u64, calls: u64) -> Look {
    Look {
        now: Instant::from_millis(ms),
        capturing: true,
        has_stream: true,
        cap: calls,
        out: calls,
        resets: 0,
        resumes: 0,
    }
}

/// A supervisor that has seen a session begin, and its policy.
fn watching() -> (Supervisor, BufferPolicy) {
    let mut s = Supervisor::new(Instant::from_millis(0), 0, 0);
    let mut p = BufferPolicy::new();
    assert_eq!(s.observe(look(0, 10), &mut p), LivenessAction::Wait);
    assert!(s.session_active);
    (s, p)
}

#[test]
fn callbacks_that_come_are_left_alone() {
    let (mut s, mut p) = watching();
    for i in 1..20 {
        assert_eq!(s.observe(look(250 * i, 10 + i), &mut p), LivenessAction::Wait);
    }
}

#[test]
fn a_flatline_is_repaired_and_then_left_for_a_while() {
    let (mut s, mut p) = watching();
    assert_eq!(s.observe(look(250, 11), &mut p), LivenessAction::Wait);
    assert_eq!(s.observe(look(1_000, 11), &mut p), LivenessAction::Wait);
    assert_eq!(s.observe(look(1_049, 11), &mut p), LivenessAction::Wait);
    assert_eq!(s.observe(look(1_050, 11), &mut p), LivenessAction::Repair);
    s.repaired(look(2_000, 11), true);
    assert!(!s.degraded);
    // Still nothing: the next repair keeps its distance.
    assert_eq!(s.observe(look(2_900, 11), &mut p), LivenessAction::Wait);
    assert_eq!(s.observe(look(3_050, 11), &mut p), LivenessAction::Repair);
    s.repaired(look(4_000, 11), false);
    assert!(s.degraded);
    assert_eq!(s.observe(look(10_000, 11), &mut p), LivenessAction::Wait);
    assert_eq!(s.observe(look(11_050, 11), &mut p), LivenessAction::Repair);
    s.repaired(look(11_100, 11), false);
    assert_eq!(s.observe(look(11_200, 12), &mut p), LivenessAction::Wait);
    assert!(!s.degraded, "callbacks end the emergency");
}

#[test]
fn one_direction_alone_is_no_life() {
    let (mut s, mut p) = watching();
    let half = Look { cap: 99, ..look(800, 10) };
    assert_eq!(s.observe(half, &mut p), LivenessAction::Repair);
}

#[test]
fn a_reset_request_and_a_missing_stream_are_repaired_at_once() {
    let (mut s, mut p) = watching();
    assert_eq!(s.observe(Look { resets: 1, ..look(250, 11) }, &mut p), LivenessAction::Repair);
    let (mut s, mut p) = watching();
    let gone = Look { has_stream: false, ..look(250, 10) };
    assert_eq!(s.observe(gone, &mut p), LivenessAction::Repair);
}

#[test]
fn waking_up_comes_before_a_repair_and_a_resize_before_both() {
    let (mut s, mut p) = watching();
    let woken = Look { resumes: 1, resets: 1, ..look(5_000, 10) };
    p.request_rebuild();
    assert_eq!(s.observe(woken, &mut p), LivenessAction::Resize);
    assert_eq!(s.observe(woken, &mut p), LivenessAction::Reinit);
    s.reopened(woken);
    assert_eq!(s.observe(Look { now: Instant::from_millis(5_250), cap: 12, out: 12, ..woken }, &mut p),
        LivenessAction::Wait);
    assert_eq!(s.last_repair, Some(Instant::from_millis(5_000)));
}

#[test]
fn what_came_before_a_session_is_void() {
    let mut s = Supervisor::new(Instant::from_millis(0), 0, 0);
    let mut p = BufferPolicy::new();
    p.request_rebuild();
    let idle = Look { capturing: false, has_stream: false, resets: 3, resumes: 2, ..look(100, 0) };
    assert_eq!(s.observe(idle, &mut p), LivenessAction::Wait);
    assert!(!p.rebuild_requested);
    let first = Look { resets: 4, resumes: 3, ..look(200, 0) };
    assert_eq!(s.observe(first, &mut p), LivenessAction::Wait);
    let next = Look { resets: 4, resumes: 3, ..look(450, 1) };
    assert_eq!(s.observe(next, &mut p), LivenessAction::Wait);
}

#[test]
fn a_repair_tries_four_times() {
    let mut pl = PipelineState::new();
    pl.driver.asio_host_open = true;
    let (mut repair, effects, step) = Repair::begin(&mut pl);
    assert_eq!(format!("{effects:?}"), "[CloseAsioHost]");
    assert!(!pl.has_active_capture_stream());
    let mut waits = vec![];
    let mut step = step;
    let mut n = 0;
    let end = loop {
        match step {
            RepairStep::Attempt { wait_ms } => waits.push(wait_ms),
            RepairStep::Over(r) => break r,
        }
        n += 1;
        step = repair.attempted(Err(format!("attempt {n}")));
    };
    assert_eq!(waits, [350, 600, 1_200, 2_500]);
    assert_eq!(end, Err("attempt 4".to_string()));

    let (mut repair, _, _) = Repair::begin(&mut pl);
    assert!(matches!(repair.attempted(Ok(())), RepairStep::Over(Ok(()))));
}

#[test]
fn a_machine_that_woke_up_mutes_the_input_meanwhile() {
    let mut pl = PipelineState::new();
    pl.driver.asio_host_open = true;
    pl.session.capture_feeding = true;
    pl.session.input_rms = 1;
    let effects = reinit_begin(&mut pl);
    assert_eq!(format!("{effects:?}"), "[CloseAsioHost]");
    assert!(!pl.session.capture_feeding);
    assert_eq!(pl.session.input_rms, 0);
    assert_eq!(format!("{:?}", reinit_end(&mut pl)), "[ResetSelfMonitor]");
    assert!(pl.session.capture_feeding);
    assert_eq!(resume_reinit_settle(None), 6_000);
    assert_eq!(resume_reinit_settle(Some("250")), 250);
    assert_eq!(resume_reinit_settle(Some("soon")), 6_000);
    assert_eq!(resume_reinit_settle(Some("-1")), 6_000);
}

// ---- measurements ----

fn snapshot(count: u64, p99: f32) -> LatencySnapshot {
    LatencySnapshot {
        count,
        mean_ms: 0.5f32.to_bits(),
        p50_ms: 0.25f32.to_bits(),
        p99_ms: p99.to_bits(),
        max_ms: p99.to_bits(),
        drops: 0,
    }
}

fn sample(drops: u64) -> PerfSample {
    PerfSample {
        pipeline: snapshot(400, 1.0),
        plugin: snapshot(0, 0.0),
        capture_callbacks: 1_000,
        output_callbacks: 900,
        capture_drops: drops,
        output_peak: 0.5f32.to_bits(),
        clip_samples: 2,
        total_samples: 96_000,
        peers: vec![],
        net: vec![],
        monitor_buffer_ms: 0,
        monitor_underruns: 0,
        unstable: vec![],
    }
}

struct Bench {
    monitor: PerfMonitor,
    pl: PipelineState,
    policy: BufferPolicy,
    gate: OverloadGate,
}

impl Bench {
    fn new() -> Bench {
        let mut pl = PipelineState::new();
        pl.state = AgentState::Capturing;
        Bench {
            monitor: PerfMonitor::new(),
            pl,
            policy: BufferPolicy::new(),
            gate: OverloadGate { last_emit_ms: 0 },
        }
    }

    fn tick(&mut self, s: PerfSample, ms: u64) -> PerfOutcome {
        let now = Instant::from_millis(ms);
        self.monitor.tick(
            &mut self.pl,
            &mut self.policy,
            &mut self.gate,
            Platform::Windows,
            s,
            ms,
            now,
        )
    }
}

#[test]
fn a_second_is_reported() {
    let mut b = Bench::new();
    let s = PerfSample {
        peers: vec![MixerPeer {
            producer_id: "p".into(),
            underruns: 3,
            drift_drops: 4,
            target_ms: 15,
        }],
        net: vec![PeerNet {
            producer_id: "p".into(),
            drift_ppm: 9,
            jitter_ms: 8,
            jitter_tail_ms: 7,
        }],
        ..sample(5)
    };
    let r = b.tick(s, 20_000);
    assert_eq!((r.capture_rate, r.output_rate), (1_000, 900));
    let [AgentMessage::PerfStats(report)] = &r.messages[..] else { panic!("one report") };
    assert_eq!(report.timestamp_ms, 20_000);
    assert_eq!(report.pipeline_latency.drops_per_sec, 5);
    assert!(report.plugin.is_none());
    let p = &report.peers[0];
    assert_eq!((p.drift_ppm, p.jitter_ms, p.jitter_tail_ms), (9, 8, 7));
    assert_eq!((p.buffer_target_ms, p.underruns, p.drift_drops), (15, 3, 4));
    assert_eq!((report.output_clip_samples, report.output_total_samples), (2, 96_000));
    // The streams were opened anew, and their counts with them.
    let again = PerfSample { capture_callbacks: 10, ..sample(0) };
    assert_eq!(b.tick(again, 21_000).capture_rate, 0);
}

#[test]
fn silence_is_not_reported() {
    let mut b = Bench::new();
    let idle = PerfSample { pipeline: snapshot(0, 0.0), ..sample(0) };
    assert!(b.tick(idle, 1_000).messages.is_empty());
}

#[test]
fn buffers_grow_after_four_seconds_of_load() {
    let mut b = Bench::new();
    for i in 1..4 {
        assert!(!b.tick(sample(11), 1_000 * i).escalated);
    }
    assert!(!b.tick(sample(10), 4_000).escalated, "ten blocks are no load");
    assert!(!b.tick(sample(11), 5_000).escalated, "and take back a second of it");
    assert!(b.tick(sample(11), 6_000).escalated);
    assert_eq!(b.policy, BufferPolicy { target: 128, rebuild_requested: true });
    for i in 7..20 {
        assert!(!b.tick(sample(11), 1_000 * i).escalated, "they grow once");
    }
    assert!(b.policy.take_rebuild_request());
    assert!(!b.policy.take_rebuild_request());
    assert!(!b.policy.escalate_to_safe());
}

#[test]
fn underruns_of_the_monitor_are_load_too() {
    let mut b = Bench::new();
    for i in 1..4 {
        let s = PerfSample { monitor_underruns: i, ..sample(0) };
        assert!(!b.tick(s, 1_000 * i).escalated);
    }
    let s = PerfSample { monitor_underruns: 4, ..sample(0) };
    assert!(b.tick(s, 4_000).escalated);
    let mut idle = Bench::new();
    idle.pl.state = AgentState::Idle;
    for i in 1..9 {
        assert!(!idle.tick(sample(50), 1_000 * i).escalated, "without a capture nothing counts");
    }
}

#[test]
fn a_plugin_that_overloads_is_bypassed_once() {
    let mut b = Bench::new();
    b.pl.plugin.instrument_plugin_info = Some(LoadedPluginInfo {
        plugin_ref: PluginRef::Vst3 { path: "/amp".into(), uid: "0".into() },
        name: "Amp".into(),
        latency_samples: 0,
        has_editor: false,
    });
    let heavy = |p99| PerfSample { plugin: snapshot(50, p99), ..sample(21) };
    assert_eq!(b.tick(heavy(3.0), 1_000).messages.len(), 1, "three milliseconds are fine");
    assert_eq!(
        b.tick(PerfSample { plugin: snapshot(49, 9.0), ..sample(21) }, 1_500).messages.len(),
        1,
        "too few blocks to judge"
    );
    let r = b.tick(heavy(3.5), 2_000);
    assert!(matches!(
        &r.messages[..],
        [
            AgentMessage::PerfStats(report),
            AgentMessage::InstrumentPluginOverload { name, count: 50, .. },
        ] if name == "Amp" && report.plugin.as_ref().map(|p| p.name.as_str()) == Some("Amp")
    ));
    assert!(b.pl.plugin.instrument_plugin_bypass && b.pl.plugin.plugin_auto_bypass_active);
    assert_eq!(b.tick(heavy(3.5), 3_000).messages.len(), 1);
}

#[test]
fn an_overloaded_pipeline_is_reported_now_and_then() {
    let mut b = Bench::new();
    let r = b.tick(sample(101), 20_000);
    assert!(matches!(
        &r.messages[..],
        [
            AgentMessage::PerfStats(_),
            AgentMessage::AgentPipelineOverload { drops_per_sec: 101, plugin_name, .. },
        ] if plugin_name.is_empty()
    ));
    assert_eq!(b.tick(sample(101), 30_000).messages.len(), 1);
    assert_eq!(b.tick(sample(101), 30_001).messages.len(), 2);
    assert_eq!(b.tick(sample(100), 90_000).messages.len(), 1);
}

#[test]
fn an_unstable_peer_is_reported_every_half_minute() {
    let mut b = Bench::new();
    let bursty = || PerfSample {
        unstable: vec![UnstablePeer {
            producer_id: "p".into(),
            events_window: 5,
            drains_total: 50,
        }],
        ..sample(0)
    };
    let r = b.tick(bursty(), 1_000);
    assert!(matches!(
        &r.messages[1..],
        [AgentMessage::PeerUnstable {
            producer_id,
            drift_drains_window: 5,
            drift_drains_total: 50,
            drift_ppm: 0,
        }] if producer_id == "p"
    ));
    assert_eq!(b.tick(bursty(), 30_999).messages.len(), 1);
    assert_eq!(b.tick(bursty(), 31_000).messages.len(), 2);
}

// ---- Windows ----

fn entry(path: Option<&str>) -> TrayEntry {
    TrayEntry { name: "k".into(), path: path.map(|p| p.to_string()), promoted: None }
}

#[test]
fn the_icon_is_found_by_its_program() {
    let exe = "C:\\Program Files\\Jamodio\\Jamodio-Agent.exe";
    let file = "Jamodio-Agent.exe";
    let entries = vec![
        entry(None),
        entry(Some("{6D809377}\\jamodio\\JAMODIO-AGENT.EXE")),
        entry(Some("c:\\PROGRAM FILES\\jamodio\\jamodio-agent.exe")),
        entry(Some("C:\\other.exe")),
    ];
    assert_eq!(find_entry(&entries, exe, file), Some(2), "the whole path, in any case");
    assert_eq!(find_entry(&entries, "D:\\Jamodio-Agent.exe", file), Some(2), "the last by name");
    assert_eq!(find_entry(&entries, "D:\\x.exe", ""), None);
    assert_eq!(plan(&entries, exe, file, false), TrayPlan::Promote { entry: 2 });
    assert_eq!(plan(&entries, exe, file, true), TrayPlan::AlreadyDecided);
    assert_eq!(plan(&entries, "D:\\x.exe", "x.exe", true), TrayPlan::EntryNotFoundYet);
}

#[test]
fn the_icon_is_tried_three_times() {
    let mut run = PromotionRun::new();
    assert_eq!(run.next_delay(), Some(2));
    assert!(run.attempted(Outcome::EntryNotFoundYet));
    assert_eq!(run.next_delay(), Some(3));
    assert!(run.attempted(Outcome::EntryNotFoundYet));
    assert_eq!(run.next_delay(), Some(5));
    assert!(!run.attempted(Outcome::EntryNotFoundYet));
    assert_eq!(run.next_delay(), None);
    assert!(!PromotionRun::new().attempted(Outcome::Promoted));
    assert!(!PromotionRun::new().attempted(Outcome::Inaccessible));
    assert_eq!(read_back(Some(1)), (true, Outcome::Promoted));
    assert_eq!(read_back(Some(0)), (false, Outcome::EntryNotFoundYet));
    assert_eq!(read_back(None), (false, Outcome::EntryNotFoundYet));
}

#[test]
fn the_fine_timer_is_given_back_if_granted() {
    assert!(exempt_process_from_timer_throttling(Platform::Windows));
    assert!(!exempt_process_from_timer_throttling(Platform::MacOs));
    assert!(SessionTimerResolution::acquire(Platform::Windows, 0).release());
    assert!(!SessionTimerResolution::acquire(Platform::Windows, 97).release());
    assert!(!SessionTimerResolution::acquire(Platform::MacOs, 0).release());
}

#[test]
fn the_host_decides_on_the_warm_driver() {
    let mut pl = PipelineState::new();
    pl.driver.capture_open = true;
    let effects = pl.leave_session(HostKind::Asio, Instant::from_millis(0));
    assert_eq!(
        format!("{effects:?}"),
        "[RemoveSelfMonitor, CloseCapture, SetAsioActive(false)]",
        "without a warm driver there is nothing to keep"
    );
}
