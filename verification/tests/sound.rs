//! Sound on its way: blocks and frames, the stages, and what is received.

use jamodio::channels::ChannelSel;
use jamodio::clock::Instant;
use jamodio::decode::{Arrival, Registry, Verdict};
use jamodio::frames::{append_interleaved, on_both_sides, split_stereo, Chunker};
use jamodio::midi::MidiEvent;
use jamodio::plugin::Platform;
use jamodio::plugin_control::PluginHandle;
use jamodio::recv_io::{IoEvent, IoStep, RecvIo};
use jamodio::stages::capture::{
    needs_resampling, resampled, CaptureOut, CaptureStage, Delivery, VoiceControl, RESAMPLE_CHUNK,
};
use jamodio::stages::encode::{
    EncodeStage, RtpClock, RtpHeader, VoiceOut, VoiceStage, FRAME_LEN, PAYLOAD_TYPE,
};
use jamodio::stages::process::{
    apply_dry_wet_fade, monitor_block, BlockState, FadeWindow, Monitor, PluginRun, ProcessStage,
    Route, FADE_SAMPLES,
};
use jamodio::stages::{stage_step, OutputMeter, Received, Stage, StageStep};

#[test]
fn chunks_wait_until_they_are_full() {
    let mut c: Chunker<u8> = Chunker::new(3);
    assert!(c.push(&[1, 2]).is_empty());
    assert_eq!(c.push(&[3, 4, 5, 6, 7]), vec![vec![1, 2, 3], vec![4, 5, 6]]);
    assert_eq!(c.pending, vec![7]);
}

#[test]
fn channels_are_taken_apart_and_put_together() {
    assert_eq!(split_stereo(&[1, 2, 3, 4, 5]), (vec![1, 3], vec![2, 4]));
    let mut out = vec![9];
    append_interleaved(&mut out, &[1, 3], &[2, 4]);
    assert_eq!(out, [9, 1, 2, 3, 4]);
    assert_eq!(on_both_sides(&[7, 8]), [7, 7, 8, 8]);
}

// ---- capture ----

#[test]
fn the_instrument_passes_as_it_is() {
    let mut s: CaptureStage<f32> = CaptureStage::new(3, ChannelSel::StereoPair(1), false);
    let block = [0.0, 0.1, 0.2, 1.0, 1.1, 1.2];
    assert!(s.voice_block(&block).is_none());
    s.control(VoiceControl::Add { channel_index: 0 });
    assert_eq!(s.voice_block(&block), Some(vec![0.0, 1.0]));
    assert!(matches!(s.on_block(&block), CaptureOut::Stereo(v) if v == [0.1, 0.2, 1.1, 1.2]));
    assert!(s.voice_block(&[]).is_none());
    s.voice_delivered(Delivery::Full);
    assert!(s.tap.is_some(), "a slow voice keeps its tap");
    s.voice_delivered(Delivery::Gone);
    assert!(s.tap.is_none());
    s.control(VoiceControl::Add { channel_index: 3 });
    assert!(s.voice_block(&block).is_none(), "the device has no such channel");
    s.control(VoiceControl::Remove);
    assert!(s.tap.is_none());
}

#[test]
fn a_resampler_gets_whole_chunks() {
    assert!(needs_resampling(44_100) && !needs_resampling(48_000));
    let mut s: CaptureStage<u32> = CaptureStage::new(2, ChannelSel::Default, true);
    let block: Vec<u32> = (0..2 * 1_000).collect();
    assert!(matches!(
        s.on_block(&block),
        CaptureOut::Resample { left, right } if left.is_empty() && right.is_empty()
    ));
    let CaptureOut::Resample { left, right } = s.on_block(&block) else { panic!("it resamples") };
    assert_eq!((left.len(), right.len()), (1, 1));
    assert_eq!(left[0].len(), RESAMPLE_CHUNK);
    assert_eq!((left[0][0], right[0][0]), (0, 1));
    assert_eq!((left[0][1_000], right[0][1_000]), (0, 1), "the second block follows on");
    assert_eq!(resampled(&vec![(vec![1, 3], vec![2, 4]), (vec![5], vec![6])]),
        Some(vec![1, 2, 3, 4, 5, 6]));
    assert_eq!(resampled::<u8>(&vec![]), None);
    assert_eq!(resampled::<u8>(&vec![(vec![], vec![])]), None);
}

// ---- process ----

fn block(frames: usize) -> BlockState {
    BlockState {
        frames,
        input_cut: false,
        is_midi: false,
        bypass: false,
        handle: Some(PluginHandle(1)),
        host_free: true,
    }
}

#[test]
fn a_plugin_is_faded_in_once() {
    let mut s = ProcessStage::new();
    let fade = |r: Route| match r {
        Route::Wet { fade, .. } => fade,
        other => panic!("unexpected: {other:?}"),
    };
    let plan = s.begin_block(Platform::MacOs, block(128));
    assert_eq!(fade(plan.route), FadeWindow { first: 0, count: 128 });
    let plan = s.begin_block(Platform::MacOs, block(200));
    assert_eq!(fade(plan.route), FadeWindow { first: 128, count: 200 });
    let plan = s.begin_block(Platform::MacOs, block(128));
    assert_eq!(fade(plan.route), FadeWindow { first: 328, count: 56 });
    let plan = s.begin_block(Platform::MacOs, block(128));
    assert_eq!(fade(plan.route), FadeWindow { first: FADE_SAMPLES, count: 0 });
    // A busy host costs no block, and the plugin is faded in again after it.
    let busy = BlockState { host_free: false, ..block(128) };
    assert_eq!(s.begin_block(Platform::MacOs, busy).route, Route::Dry);
    let plan = s.begin_block(Platform::MacOs, block(64));
    assert_eq!(fade(plan.route), FadeWindow { first: 0, count: 64 });
}

/// Gains of equal power over a fade of `total` frames.
fn equal_power(total: usize) -> impl Fn(f32, f32, usize) -> f32 {
    move |dry, wet, at| {
        let a = at as f32 / total as f32 * std::f32::consts::FRAC_PI_2;
        dry * a.cos() + wet * a.sin()
    }
}

#[test]
fn fade_starts_dry_ends_wet() {
    let total = 4;
    let dry = vec![1.0f32; total * 2];
    let mut wet = vec![-1.0f32; total * 2];
    let rem = apply_dry_wet_fade(&mut wet, &dry, total, total, &equal_power(total));
    assert_eq!(rem, 0, "the fade is used up");
    assert!((wet[0] - 1.0).abs() < 1e-5, "the first sample is dry, got {}", wet[0]);
    assert!((wet[1] - 1.0).abs() < 1e-5);
    assert!(wet[(total - 1) * 2] < 0.0, "the last one is nearly wet");
}

#[test]
fn fade_is_equal_power() {
    let total = 16;
    let mut a = vec![0.0f32; total * 2];
    let dry1 = vec![1.0f32; total * 2];
    apply_dry_wet_fade(&mut a, &dry1, total, total, &equal_power(total));
    let mut b = vec![1.0f32; total * 2];
    let dry0 = vec![0.0f32; total * 2];
    apply_dry_wet_fade(&mut b, &dry0, total, total, &equal_power(total));
    for k in 0..total {
        let g_dry = a[k * 2];
        let g_wet = b[k * 2];
        let power = g_dry * g_dry + g_wet * g_wet;
        assert!((power - 1.0).abs() < 1e-4, "power at {k}: {power}");
    }
}

#[test]
fn fade_partial_then_completes_across_blocks() {
    let total = 8;
    let dry = vec![1.0f32; 4 * 2];
    let mut blk1 = vec![-1.0f32; 4 * 2];
    let rem1 = apply_dry_wet_fade(&mut blk1, &dry, total, total, &equal_power(total));
    assert_eq!(rem1, 4, "the first block takes four frames");
    let mut blk2 = vec![-1.0f32; 4 * 2];
    let rem2 = apply_dry_wet_fade(&mut blk2, &dry, rem1, total, &equal_power(total));
    assert_eq!(rem2, 0, "the second block ends the fade");
}

#[test]
fn a_fade_runs_over_the_blocks() {
    let mix = |dry: usize, wet: usize, at: usize| 1_000 * dry + 100 * wet + at;
    let (dry, wet) = (vec![1; 12], vec![2; 12]);
    let mut whole = wet.clone();
    assert_eq!(apply_dry_wet_fade(&mut whole, &dry, 4, 10, &mix), 0);
    assert_eq!(
        whole,
        [1_206, 1_206, 1_207, 1_207, 1_208, 1_208, 1_209, 1_209, 2, 2, 2, 2]
    );
    let (mut first, mut second) = (wet[..6].to_vec(), wet[6..].to_vec());
    let left = apply_dry_wet_fade(&mut first, &dry[..6], 4, 10, &mix);
    assert_eq!(left, 1);
    assert_eq!(apply_dry_wet_fade(&mut second, &dry[6..], left, 10, &mix), 0);
    first.extend(second);
    assert_eq!(first, whole);
    let mut odd = vec![2; 3];
    assert_eq!(apply_dry_wet_fade(&mut odd, &[1, 1, 1], 4, 4, &mix), 3);
    assert_eq!(odd, [1_200, 1_200, 2], "half a frame is left alone");
}

#[test]
fn blocks_pass_the_plugin_by() {
    let mut s = ProcessStage::new();
    let mut route = |b| s.begin_block(Platform::Windows, b).route;
    assert_eq!(route(BlockState { bypass: true, ..block(8) }), Route::Untouched);
    assert_eq!(route(BlockState { frames: 0, ..block(8) }), Route::Untouched);
    assert_eq!(route(BlockState { handle: None, ..block(8) }), Route::Dry);
    let mut s = ProcessStage::new();
    assert_eq!(s.begin_block(Platform::Other, block(8)).route, Route::Untouched);
}

#[test]
fn an_input_that_is_cut_is_silent() {
    let mut s = ProcessStage::new();
    let mut silent = |p, b| s.begin_block(p, b).silence;
    assert!(!silent(Platform::MacOs, block(8)));
    assert!(silent(Platform::MacOs, BlockState { input_cut: true, ..block(8) }));
    assert!(silent(Platform::MacOs, BlockState { is_midi: true, ..block(8) }));
    assert!(!silent(Platform::Other, BlockState { is_midi: true, ..block(8) }));
    assert_eq!(monitor_block(0, true), Monitor::Nothing);
    assert_eq!(monitor_block(8, true), Monitor::Hear);
    assert_eq!(monitor_block(8, false), Monitor::Mute);
}

#[test]
fn a_block_goes_through_the_plugin_in_pieces() {
    let stereo: Vec<u32> = (0..2 * 200).collect();
    let midi = vec![
        MidiEvent { frame_offset: 5, data: [0x90, 60, 1] },
        MidiEvent { frame_offset: 130, data: [0x80, 60, 0] },
    ];
    let mut run = PluginRun::new(stereo, midi);
    let piece = run.next().expect("a first piece");
    assert_eq!((piece.left.len(), piece.right.len()), (128, 128));
    assert_eq!((piece.left[1], piece.right[1]), (2, 3));
    assert_eq!(piece.midi.len(), 1);
    let louder = |v: &Vec<u32>| v.iter().map(|x| x + 1_000).collect::<Vec<u32>>();
    run.processed(Some((louder(&piece.left), louder(&piece.right))));
    let piece = run.next().expect("a second piece");
    assert_eq!(piece.left.len(), 72);
    assert_eq!(piece.midi, vec![MidiEvent { frame_offset: 2, data: [0x80, 60, 0] }]);
    run.processed(None);
    assert!(run.next().is_none());
    assert_eq!(run.stereo[255], 1_255);
    assert_eq!(run.stereo[256], 256, "a piece that failed stays dry");
    assert_eq!(run.stereo.len(), 400);
}

// ---- encode ----

#[test]
fn frames_are_cut_and_numbered() {
    let mut e: EncodeStage<f32> = EncodeStage::new(0xabcd, 111);
    assert!(e.on_block(&[0.0; 200]).is_empty());
    let frames = e.on_block(&[0.0; 300]);
    assert_eq!(frames.len(), 2);
    assert!(frames.iter().all(|f| f.len() == FRAME_LEN));
    assert_eq!(
        e.clock.header(),
        RtpHeader { payload_type: 111, sequence: 0, timestamp: 0, ssrc: 0xabcd, marker: true }
    );
    e.clock.frame_done(true);
    e.clock.frame_done(false);
    assert_eq!(
        e.clock.header(),
        RtpHeader { payload_type: 111, sequence: 1, timestamp: 120, ssrc: 0xabcd, marker: false }
    );
    let e: EncodeStage<f32> = EncodeStage::for_capture(7);
    assert_eq!((e.clock.header().payload_type, e.clock.header().ssrc), (111, 7));
    let v: VoiceStage<f32> = VoiceStage::for_capture(8, false);
    assert_eq!((v.clock.header().payload_type, v.clock.header().ssrc), (111, 8));
    assert!(v.resampling.is_none());
    assert_eq!(PAYLOAD_TYPE, 111);
    let mut c = RtpClock { sequence: u16::MAX, timestamp: u32::MAX, ..RtpClock::new(1, 2) };
    c.frame_done(true);
    assert_eq!((c.sequence, c.timestamp), (0, 119));
}

#[test]
fn a_voice_is_on_both_sides() {
    let mut v: VoiceStage<u16> = VoiceStage::new(1, 111, false);
    let raw: Vec<u16> = (0..130).collect();
    let VoiceOut::Ready(raw) = v.on_block(raw) else { panic!("the rate is the session's") };
    let frames = v.on_samples(&raw);
    assert_eq!(frames.len(), 1);
    assert_eq!(frames[0].len(), FRAME_LEN);
    assert_eq!(&frames[0][..4], [0, 0, 1, 1]);
    assert_eq!(v.pending.pending.len(), 10);
    let mut v: VoiceStage<u16> = VoiceStage::new(1, 111, true);
    assert!(matches!(v.on_block(vec![0; 1_000]), VoiceOut::Resample(c) if c.is_empty()));
    assert!(matches!(v.on_block(vec![0; 1_048]), VoiceOut::Resample(c) if c.len() == 2));
}

// ---- the stages together ----

#[test]
fn a_stop_runs_through_the_stages() {
    assert_eq!(stage_step(Stage::Capture, true, Received::Block), StageStep::End);
    for stage in [Stage::Process, Stage::Encode, Stage::Voice] {
        assert_eq!(stage_step(stage, true, Received::Block), StageStep::Work);
        assert_eq!(stage_step(stage, true, Received::Timeout), StageStep::Wait);
        assert_eq!(stage_step(stage, true, Received::Disconnected), StageStep::End);
    }
    assert_eq!(stage_step(Stage::Capture, false, Received::Timeout), StageStep::Wait);
}

#[test]
fn the_output_is_metered() {
    let mut m = OutputMeter::new();
    m.observe(0.5f32.to_bits(), 1, 256);
    m.observe(0.25f32.to_bits(), 2, 256);
    let r = m.take();
    assert_eq!(r, OutputMeter { peak: 0.5f32.to_bits(), clip_samples: 3, total_samples: 512 });
    assert_eq!(m, OutputMeter::new());
}

// ---- reception ----

#[test]
fn a_late_connection_is_ignored() {
    let mut r = Registry::new();
    assert_eq!(r.judge("p", 1), Verdict::Create { superseded: false });
    r.created("p".into(), 1);
    assert_eq!(r.judge("p", 1), Verdict::Known);
    assert_eq!(r.judge("p", 2), Verdict::Create { superseded: true });
    r.created("p".into(), 2);
    assert_eq!(r.judge("p", 1), Verdict::Stale);
    assert!(!r.on_remove("p", 1), "the end of the old connection ends nothing");
    assert!(r.on_remove("p", 2));
    assert!(!r.on_remove("p", 2));
    r.created("a".into(), 3);
    r.created("b".into(), 4);
    assert_eq!(r.shut_down(), ["a", "b"]);
    assert!(r.entries.is_empty());
}

#[test]
fn gaps_are_concealed_up_to_a_limit() {
    let mut r = Registry::new();
    r.created("p".into(), 1);
    let mut conceal = |seq| r.arrived("p", 1, Some(seq), false).expect("a packet").conceal;
    assert_eq!(conceal(65_534), 0, "the first packet");
    assert_eq!(conceal(65_535), 0);
    assert_eq!(conceal(0), 0, "the sequence begins anew");
    assert_eq!(conceal(2), 1);
    assert_eq!(conceal(6), 3);
    assert_eq!(conceal(17), 3, "ten are missing");
    assert_eq!(conceal(29), 0, "eleven are missing");
    assert_eq!(conceal(29), 0, "one that comes twice is far ahead");
}

#[test]
fn a_jump_is_logged_once_and_jitter_looked_at_now_and_then() {
    let mut r = Registry::new();
    r.created("p".into(), 1);
    assert_eq!(r.arrived("p", 1, None, true), None);
    let jump = |r: &mut Registry, seq| r.arrived("p", 1, Some(seq), true).expect("a packet");
    assert!(!jump(&mut r, 0).log_jump);
    assert!(jump(&mut r, 500).log_jump);
    assert!(!jump(&mut r, 1_000).log_jump);
    for seq in 1_001..1_036u16 {
        assert!(!jump(&mut r, seq).observe_jitter);
    }
    assert_eq!(
        jump(&mut r, 1_036),
        Arrival { conceal: 0, log_jump: false, observe_jitter: true },
        "the fortieth packet"
    );
}

#[test]
fn punches_stop_with_the_first_packet() {
    let t = Instant::from_millis;
    let mut io = RecvIo::new();
    assert_eq!(io.step(IoEvent::PunchTick), IoStep::Punch);
    assert_eq!(io.step(IoEvent::IdleTick), IoStep::Continue, "not alive yet");
    assert_eq!(io.step(IoEvent::Packet { len: 0, now: t(5) }), IoStep::Continue);
    assert_eq!(io.step(IoEvent::PunchTick), IoStep::Punch);
    assert_eq!(
        io.step(IoEvent::Packet { len: 80, now: t(100) }),
        IoStep::Deliver { arrived: t(100) }
    );
    assert_eq!(io.step(IoEvent::PunchTick), IoStep::Continue);
    assert_eq!(io.step(IoEvent::SocketError), IoStep::Pause { ms: 10 });
    for _ in 0..10 {
        assert_eq!(io.step(IoEvent::IdleTick), IoStep::Continue, "a silence ends nothing");
    }
    assert_eq!(
        io.step(IoEvent::Packet { len: 80, now: t(60_000) }),
        IoStep::Deliver { arrived: t(60_000) }
    );
    assert_eq!(io.step(IoEvent::Stop), IoStep::End);
    assert_eq!(io.step(IoEvent::DecoderGone), IoStep::End);
    let mut io = RecvIo::new();
    for _ in 0..30 {
        assert_eq!(io.step(IoEvent::PunchTick), IoStep::Punch);
    }
    assert_eq!(io.step(IoEvent::PunchTick), IoStep::Continue);
}
