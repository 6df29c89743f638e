//! Sessions: the driver that is kept warm, the start of a capture, and streams.

use jamodio::audio_open::{
    BuiltDuplex, BuiltInput, CaptureStartError, CaptureStartedInfo, HostKind, OutputOpen,
};
use jamodio::capture_start::{
    capture_reply, stream_reply, voice_refusal, voice_reply, AddAction, AddEvent, CaptureChoice,
    CaptureStart, StartAction, StartEvent, StreamAddition,
};
use jamodio::channels::ChannelSel;
use jamodio::clock::Instant;
use jamodio::messages::{
    AgentMessage, CaptureErrorReason, ErrorKey, ErrorText, SrtpParameters, Task,
};
use jamodio::pipeline::{
    close_host_on_com, close_stream_on_com, AgentState, Direction, Effect, InputSource, MidiRoute,
    PipelineState, SourceStep, VoiceRefusal, MAX_RECV_STREAMS,
};
use jamodio::plugin::Platform;

fn shown<T: std::fmt::Debug>(effects: &[T]) -> Vec<String> {
    effects.iter().map(|e| format!("{e:?}")).collect()
}

fn keys() -> SrtpParameters {
    SrtpParameters { crypto_suite: "AEAD_AES_256_GCM".into(), key_base64: "a2V5".into() }
}

fn choice() -> CaptureChoice {
    CaptureChoice { channel_index: None, stereo_start: None, session_continues: false }
}

fn asio_duplex() -> BuiltDuplex {
    BuiltDuplex::Asio {
        name: "Focusrite USB ASIO".into(),
        resolved_id: "0:Focusrite USB ASIO".into(),
        channels_in: 4,
        native_sr: 48_000,
        buffer_size: 64,
    }
}

fn cpal_duplex(output: OutputOpen) -> BuiltDuplex {
    BuiltDuplex::Cpal {
        input: BuiltInput {
            name: "Mic".into(),
            resolved_id: "1:Mic".into(),
            channels: 1,
            native_sr: 44_100,
            input_buf: Some(128),
        },
        output,
    }
}

fn opened_output() -> OutputOpen {
    OutputOpen::Opened { buffer: Some(256), name: "Casque".into(), fallback_from: None }
}

/// Runs a whole start, with the devices that are handed over.
fn run_start(
    pl: &mut PipelineState,
    host: HostKind,
    choice: CaptureChoice,
    built: Option<BuiltDuplex>,
) -> CaptureStartedInfo {
    let (mut start, _, action) = CaptureStart::begin(pl, host, choice);
    let action = match (action, built) {
        (StartAction::Open { .. }, Some(b)) => start.step(pl, StartEvent::Opened(Ok(b))).1,
        (a @ StartAction::Connect, None) => a,
        (a, _) => panic!("unexpected: {a:?}"),
    };
    assert!(matches!(action, StartAction::Connect));
    let (effects, action) = start.step(pl, StartEvent::Connected { port: 40_000, srtp: keys() });
    assert_eq!(shown(&effects), ["AddSelfMonitor"]);
    assert!(matches!(action, StartAction::Spawn { .. }));
    match start.step(pl, StartEvent::Spawned).1 {
        StartAction::Finished(Ok((40_000, _, info))) => info,
        a => panic!("unexpected: {a:?}"),
    }
}

fn capturing(host: HostKind) -> PipelineState {
    let mut pl = PipelineState::new();
    let built = match host {
        HostKind::Asio => asio_duplex(),
        _ => cpal_duplex(opened_output()),
    };
    run_start(&mut pl, host, choice(), Some(built));
    pl
}

fn add_stream(pl: &mut PipelineState, id: &str) -> Vec<Effect> {
    let (mut add, _, action) = StreamAddition::begin(pl, id.to_string());
    assert!(matches!(action, AddAction::Connect));
    let (effects, action) = add.step(pl, AddEvent::Connected { port: 50_000, srtp: keys() });
    if matches!(action, AddAction::OpenOutput { .. }) {
        let (_, action) = add.step(pl, AddEvent::OutputOpened(opened_output()));
        assert!(matches!(action, AddAction::Finished(Ok(_))));
    }
    effects
}

#[test]
fn a_new_pipeline_is_idle() {
    let pl = PipelineState::new();
    assert_eq!(pl.state, AgentState::Idle);
    assert!(!pl.has_active_capture_stream());
    assert_eq!(pl.session.voice_gain, 1.0f32.to_bits());
    assert!(pl.reception.streams.is_empty());
    assert!(pl.can_record());
}

#[test]
fn a_capture_starts_on_separate_streams() {
    let mut pl = PipelineState::new();
    let info = run_start(
        &mut pl,
        HostKind::CoreAudio,
        choice(),
        Some(cpal_duplex(OutputOpen::Opened {
            buffer: Some(256),
            name: "Haut-parleurs".into(),
            fallback_from: Some("3:Casque".into()),
        })),
    );
    assert_eq!(info.device_id, "1:Mic");
    assert_eq!(info.device_name, "Mic");
    assert_eq!(info.channels, 1);
    assert_eq!(info.native_sample_rate, 44_100);
    assert_eq!(info.output_name, "Haut-parleurs");
    assert!(info.output_fallback);
    assert_eq!(pl.state, AgentState::Capturing);
    assert!(pl.session.capture_feeding && pl.session.encoder_running && pl.session.voice_tap);
    assert!(pl.driver.reset_guard && pl.driver.warm.is_none());
    assert_eq!(pl.driver.input_buffer_samples, Some(128));
    assert_eq!(pl.driver.output_buffer_samples, Some(256));
}

#[test]
fn a_capture_runs_without_an_output() {
    let mut pl = PipelineState::new();
    let info = run_start(
        &mut pl,
        HostKind::Wasapi,
        choice(),
        Some(cpal_duplex(OutputOpen::BuildFailed("busy".into()))),
    );
    assert_eq!(info.output_name, "");
    assert!(!info.output_fallback);
    assert!(pl.has_active_capture_stream() && !pl.driver.playback_open);
}

#[test]
fn the_channel_that_is_asked_for_is_used() {
    let mut pl = PipelineState::new();
    let want = CaptureChoice { channel_index: Some(3), stereo_start: Some(0), session_continues: false };
    let (mut start, _, _) = CaptureStart::begin(&mut pl, HostKind::Asio, want);
    let (_, action) = start.step(&mut pl, StartEvent::Opened(Ok(asio_duplex())));
    assert!(matches!(action, StartAction::Connect));
    let (_, action) = start.step(&mut pl, StartEvent::Connected { port: 1, srtp: keys() });
    assert!(matches!(action, StartAction::Spawn { sel: ChannelSel::Mono(3) }));
}

#[test]
fn a_start_that_fails_says_why() {
    let mut pl = PipelineState::new();
    let (mut start, _, _) = CaptureStart::begin(&mut pl, HostKind::Wasapi, choice());
    let (_, action) = start.step(
        &mut pl,
        StartEvent::Opened(Err(CaptureStartError::InputDeviceNotFound {
            requested: Some("2:Scarlett".into()),
        })),
    );
    let StartAction::Finished(Err(e)) = action else { panic!("the start must fail") };
    assert_eq!(e.to_text(), "input device introuvable : Some(\"2:Scarlett\")");

    let mut pl = PipelineState::new();
    let (mut start, _, _) = CaptureStart::begin(&mut pl, HostKind::Wasapi, choice());
    start.step(&mut pl, StartEvent::Opened(Ok(cpal_duplex(opened_output()))));
    let (_, action) = start.step(
        &mut pl,
        StartEvent::Failed { task: Task::UdpBind, detail: "in use".into() },
    );
    let StartAction::Finished(Err(e)) = action else { panic!("the start must fail") };
    assert_eq!(e.to_text(), "UDP bind: in use");
    assert_eq!(pl.state, AgentState::Idle);
}

#[test]
fn the_words_of_an_absent_device() {
    let none = CaptureStartError::OutputDeviceNotFound { requested: None };
    assert_eq!(none.to_text(), "output device introuvable : None");
    let quoted = CaptureStartError::InputDeviceNotFound { requested: Some("a\"b".into()) };
    assert_eq!(quoted.to_text(), "input device introuvable : Some(\"a\\\"b\")");
    assert_eq!(CaptureStartError::Other("x".into()).to_text(), "x");
}

#[test]
fn leaving_parks_a_warm_driver_once() {
    let mut pl = capturing(HostKind::Asio);
    add_stream(&mut pl, "peer");
    let effects = pl.leave_session(HostKind::Asio, Instant::from_millis(1_000));
    assert_eq!(
        shown(&effects),
        [
            "StopEncoder",
            "RemoveSelfMonitor",
            "StopReceive { producer_id: \"peer\" }",
            "StopDecodeThread",
        ]
    );
    assert_eq!(pl.state, AgentState::Idle);
    assert!(pl.has_active_capture_stream(), "the driver stays open");
    assert!(pl.driver.warm.is_some());
    // The browser's stop is often followed by the end of its connection.
    assert!(pl.leave_session(HostKind::Asio, Instant::from_millis(2_000)).is_empty());
    assert_eq!(
        pl.driver.warm.as_ref().and_then(|w| w.parked_since),
        Some(Instant::from_millis(1_000))
    );
}

#[test]
fn rejoining_takes_the_warm_driver() {
    let mut pl = capturing(HostKind::Asio);
    pl.leave_session(HostKind::Asio, Instant::from_millis(1_000));
    let (_, effects, action) = CaptureStart::begin(&mut pl, HostKind::Asio, choice());
    assert!(matches!(action, StartAction::Connect));
    assert_eq!(shown(&effects), ["RemoveSelfMonitor", "DrainCapture"]);
    assert_eq!(pl.driver.warm.as_ref().and_then(|w| w.parked_since), None);
}

#[test]
fn another_device_is_opened_anew() {
    let mut pl = capturing(HostKind::Asio);
    pl.leave_session(HostKind::Asio, Instant::from_millis(1_000));
    pl.set_input_device(Some("1:RME".into()));
    let (_, effects, action) = CaptureStart::begin(&mut pl, HostKind::Asio, choice());
    assert!(matches!(action, StartAction::Open { input_id: Some(id), .. } if id == "1:RME"));
    assert_eq!(
        shown(&effects),
        ["RemoveSelfMonitor", "CloseAsioHost", "SetAsioActive(false)"]
    );
    assert!(!pl.has_active_capture_stream());
}

#[test]
fn a_parked_driver_is_given_up_after_the_grace_period() {
    let mut pl = capturing(HostKind::Asio);
    pl.leave_session(HostKind::Asio, Instant::from_millis(1_000));
    let (closed, effects) = pl.close_warm_if_grace_expired(Instant::from_millis(30_999), 30_000);
    assert!(!closed && effects.is_empty());
    let (closed, effects) = pl.close_warm_if_grace_expired(Instant::from_millis(31_000), 30_000);
    assert!(closed);
    assert_eq!(shown(&effects), ["CloseAsioHost", "SetAsioActive(false)"]);
    assert!(pl.com_recycle_pending);
    // The next opening recycles the apartment first, and only that one.
    let (_, effects, _) = CaptureStart::begin(&mut pl, HostKind::Asio, choice());
    assert_eq!(
        shown(&effects),
        ["RemoveSelfMonitor", "SetAsioActive(false)", "RecycleCom"]
    );
    assert!(!pl.com_recycle_pending);
}

#[test]
fn a_running_session_is_never_given_up() {
    let mut pl = capturing(HostKind::Asio);
    let (closed, _) = pl.close_warm_if_grace_expired(Instant::from_millis(9_000_000), 30_000);
    assert!(!closed);
}

#[test]
fn leaving_elsewhere_closes_all() {
    let mut pl = capturing(HostKind::CoreAudio);
    pl.start_recording().expect("nothing is recorded yet");
    let effects = pl.leave_session(HostKind::CoreAudio, Instant::from_millis(5));
    assert_eq!(
        shown(&effects),
        [
            "DetachRecorder",
            "DiscardRecording",
            "StopEncoder",
            "RemoveSelfMonitor",
            "DropResetGuard",
            "CloseCapture",
            "ClosePlayback",
            "SetAsioActive(false)",
        ]
    );
    assert!(!pl.has_active_capture_stream() && !pl.driver.playback_open && !pl.recording);
    assert_eq!(pl.state, AgentState::Idle);
}

#[test]
fn a_hot_swap_keeps_the_peers_and_a_cut_input() {
    let mut pl = capturing(HostKind::CoreAudio);
    add_stream(&mut pl, "peer");
    pl.set_input_cut(true);
    let swap = CaptureChoice { session_continues: true, ..choice() };
    let (_, effects, _) = CaptureStart::begin(&mut pl, HostKind::CoreAudio, swap);
    assert!(!shown(&effects).iter().any(|e| e.starts_with("StopReceive")));
    assert_eq!(pl.reception.streams.len(), 1);
    assert!(pl.reception.decode_running);

    let mut pl = capturing(HostKind::CoreAudio);
    pl.set_input_cut(true);
    run_start(&mut pl, HostKind::CoreAudio, swap, Some(cpal_duplex(opened_output())));
    assert!(pl.session.input_cut, "a hot swap keeps what the user cut");
    run_start(&mut pl, HostKind::CoreAudio, choice(), Some(cpal_duplex(opened_output())));
    assert!(!pl.session.input_cut, "a new session begins with the input on");
}

#[test]
fn a_reset_closes_and_restores_the_streams() {
    let mut pl = capturing(HostKind::CoreAudio);
    let effects = pl.close_audio_streams_for_reset();
    assert_eq!(shown(&effects), ["DropResetGuard", "CloseCapture", "ClosePlayback"]);
    assert_eq!(pl.state, AgentState::Capturing, "the session stays up");
    pl.set_input_device(Some("1:Mic".into()));
    let devices = pl.rebuild_audio_streams().expect("the channel is there");
    assert_eq!(devices, Some((Some("1:Mic".into()), None)));
    let effects = pl.finish_rebuild(cpal_duplex(opened_output()));
    assert_eq!(shown(&effects), ["ResetStreamsForRecovery"]);
    assert!(pl.has_active_capture_stream() && pl.driver.playback_open);

    let mut idle = PipelineState::new();
    assert!(matches!(idle.rebuild_audio_streams(), Ok(None)));
    idle.state = AgentState::Capturing;
    let e = idle.rebuild_audio_streams().expect_err("there is no channel");
    assert!(matches!(&e, CaptureStartError::Other(_)));
    assert_eq!(e.to_text(), "rebuild_audio_streams: pas de canal capture (incohérent)");
}

#[test]
fn feeding_stops_with_a_silent_meter() {
    let mut pl = capturing(HostKind::Asio);
    pl.session.input_rms = 0.5f32.to_bits();
    pl.set_capture_feeding(true);
    assert_eq!(pl.session.input_rms, 0.5f32.to_bits());
    pl.set_capture_feeding(false);
    assert_eq!(pl.session.input_rms, 0);
    assert!(!pl.session.capture_feeding);
}

#[test]
fn the_gain_of_the_voice_is_kept_in_range() {
    let mut pl = PipelineState::new();
    for (asked, kept) in [(0.25f32, 0.25f32), (-3.0, 0.0), (7.5, 1.0)] {
        pl.set_voice_gain(asked.to_bits());
        assert_eq!(pl.session.voice_gain, kept.to_bits());
    }
}

#[test]
fn a_voice_needs_a_capture_and_a_channel() {
    let idle = PipelineState::new();
    assert_eq!(
        voice_refusal(idle.start_voice_capture(0).expect_err("nothing is captured")).to_text(),
        "no active capture — start voice after instrument capture"
    );
    let mut pl = capturing(HostKind::Asio);
    assert_eq!(
        pl.start_voice_capture(4).err(),
        Some(VoiceRefusal::OutOfRange { channel: 4, channels: 4 })
    );
    assert_eq!(
        voice_refusal(VoiceRefusal::OutOfRange { channel: 4, channels: 4 }).to_text(),
        "voice channel 4 out of range (device has 4 channels)"
    );
    assert!(pl.start_voice_capture(3).expect("the channel is there").is_empty());
    let replies = voice_reply(&mut pl, Ok((41_000, keys())));
    assert!(matches!(
        &replies[..],
        [AgentMessage::LocalPort { key: ErrorKey::Voice, port: 41_000, .. }]
    ));
    // A second voice takes the place of the first.
    assert_eq!(
        shown(&pl.start_voice_capture(2).expect("the channel is there")),
        ["RemoveVoiceTap"]
    );
    let replies = voice_reply(&mut pl, Err(ErrorText::NoActiveCapture));
    assert!(matches!(&replies[..], [AgentMessage::Error { key: ErrorKey::Voice, .. }]));
    assert!(pl.session.voice_active, "a failure leaves the voice as it is");
    assert_eq!(shown(&pl.stop_voice_capture()), ["RemoveVoiceTap"]);
    assert!(pl.stop_voice_capture().is_empty());
}

#[test]
fn streams_are_added_once_and_up_to_a_limit() {
    let mut pl = capturing(HostKind::Asio);
    assert_eq!(
        shown(&add_stream(&mut pl, "a")),
        ["StartDecodeThread", "StartReceive { producer_id: \"a\", epoch: 1 }"]
    );
    // A producer that comes again replaces itself, in a generation of its own.
    let (_, effects, action) = StreamAddition::begin(&mut pl, "a".into());
    assert_eq!(shown(&effects), ["StopReceive { producer_id: \"a\" }"]);
    assert!(matches!(action, AddAction::Connect));
    assert_eq!(
        shown(&add_stream(&mut pl, "a")),
        ["StartReceive { producer_id: \"a\", epoch: 2 }"]
    );
    for i in 1..MAX_RECV_STREAMS {
        add_stream(&mut pl, &format!("p{i}"));
    }
    assert_eq!(pl.reception.streams.len(), MAX_RECV_STREAMS);
    let (_, _, action) = StreamAddition::begin(&mut pl, "one too many".into());
    let AddAction::Finished(Err(e)) = action else { panic!("there is no room") };
    assert_eq!(e.to_text(), "too many streams (max 16)");
    let mut effects = Vec::new();
    pl.remove_stream("p3", &mut effects);
    assert_eq!(shown(&effects), ["StopReceive { producer_id: \"p3\" }"]);
    pl.remove_stream("p3", &mut effects);
    assert_eq!(effects.len(), 1);
}

#[test]
fn the_first_stream_opens_an_output() {
    let mut pl = PipelineState::new();
    pl.output_device_id = Some("2:Casque".into());
    let (mut add, _, _) = StreamAddition::begin(&mut pl, "a".into());
    let (_, action) = add.step(&mut pl, AddEvent::Connected { port: 9, srtp: keys() });
    assert!(matches!(action, AddAction::OpenOutput { id: Some(id) } if id == "2:Casque"));
    let (_, action) = add.step(&mut pl, AddEvent::OutputOpened(OutputOpen::NotFound));
    let AddAction::Finished(Err(e)) = action else { panic!("no output was opened") };
    assert_eq!(e.to_text(), "output device introuvable");
    assert_eq!(pl.reception.streams.len(), 1, "the stream itself is up");

    let (mut add, _, _) = StreamAddition::begin(&mut pl, "b".into());
    add.step(&mut pl, AddEvent::Connected { port: 9, srtp: keys() });
    let (_, action) =
        add.step(&mut pl, AddEvent::OutputOpened(OutputOpen::BuildFailed("busy".into())));
    let AddAction::Finished(Err(e)) = action else { panic!("no output was opened") };
    assert_eq!(e.to_text(), "CPAL output: busy");

    let (mut add, _, _) = StreamAddition::begin(&mut pl, "c".into());
    let (_, action) = add.step(
        &mut pl,
        AddEvent::Failed { task: Task::SfuAddress, detail: "nowhere".into() },
    );
    let AddAction::Finished(Err(e)) = action else { panic!("there is no address") };
    assert_eq!(e.to_text(), "Bad SFU address: nowhere");
}

#[test]
fn answers_to_a_stream() {
    let r = stream_reply("p".into(), Ok((7, keys())));
    assert!(matches!(
        &r[..],
        [AgentMessage::LocalPort { key: ErrorKey::Producer(id), port: 7, .. }] if id == "p"
    ));
    let r = stream_reply("p".into(), Err(ErrorText::TooManyStreams { max: 16 }));
    assert!(matches!(
        &r[..],
        [AgentMessage::Error { key: ErrorKey::Producer(id), .. }] if id == "p"
    ));
}

#[test]
fn answers_to_a_capture() {
    let info = || CaptureStartedInfo {
        device_id: "1:Mic".into(),
        device_name: "Mic".into(),
        channels: 2,
        native_sample_rate: 48_000,
        output_name: "Casque".into(),
        output_fallback: false,
    };
    let r = capture_reply(Ok((5, keys(), info())), HostKind::Asio, None);
    assert!(matches!(
        &r[..],
        [
            AgentMessage::LocalPort { key: ErrorKey::Instrument, port: 5, .. },
            AgentMessage::CaptureStarted { channels: 2, .. },
        ]
    ));
    let absent = || CaptureStartError::OutputDeviceNotFound { requested: Some("x".into()) };
    let r = capture_reply(Err(absent()), HostKind::Asio, None);
    assert!(matches!(
        &r[..],
        [AgentMessage::CaptureError { reason: CaptureErrorReason::OutputDeviceNotFound, .. }]
    ));
    let absent = CaptureStartError::InputDeviceNotFound { requested: None };
    let r = capture_reply(Err(absent), HostKind::Wasapi, None);
    assert!(matches!(
        &r[..],
        [AgentMessage::CaptureError { reason: CaptureErrorReason::InputDeviceNotFound, .. }]
    ));
    let other = || CaptureStartError::Other("ASE_NotPresent".into());
    let r = capture_reply(Err(other()), HostKind::Asio, Some("0:Focusrite".into()));
    assert!(matches!(
        &r[..],
        [AgentMessage::CaptureError {
            reason: CaptureErrorReason::AsioOpenFailed,
            requested_device: Some(d),
            detail: Some(t),
        }] if d == "0:Focusrite" && t == "ASE_NotPresent"
    ));
    let r = capture_reply(Err(other()), HostKind::CoreAudio, None);
    assert!(matches!(
        &r[..],
        [AgentMessage::Error { message: ErrorText::Verbatim(t), key: ErrorKey::Instrument }]
            if t == "ASE_NotPresent"
    ));
    assert_eq!(CaptureErrorReason::AsioOpenFailed.as_wire(), "asio-open-failed");
    assert_eq!(CaptureErrorReason::InputDeviceNotFound.as_wire(), "input-device-not-found");
    assert_eq!(CaptureErrorReason::OutputDeviceNotFound.as_wire(), "output-device-not-found");
}

#[test]
fn playback_moves_to_another_output() {
    let mut pl = capturing(HostKind::CoreAudio);
    let (moves, effects) = pl.select_devices(None, Some("4:Casque".into()));
    assert!(moves);
    assert_eq!(shown(&effects), ["ClosePlayback"]);
    pl.restart_playback(OutputOpen::NotFound);
    assert!(!pl.driver.playback_open);
    assert_eq!(pl.driver.output_buffer_samples, None);
    pl.restart_playback(opened_output());
    assert_eq!(pl.driver.output_buffer_samples, Some(256));
    let (moves, effects) = pl.select_devices(Some("1:Mic".into()), Some("4:Casque".into()));
    assert!(!moves && effects.is_empty());
    assert_eq!(pl.selected_input_id(Some("0:default".into())), Some("1:Mic".into()));
    pl.set_input_device(None);
    assert_eq!(pl.selected_input_id(Some("0:default".into())), Some("0:default".into()));
}

#[test]
fn the_input_source_changes() {
    let mut pl = PipelineState::new();
    let midi = || InputSource::Midi("0:Keystation".into());
    let (step, _) = pl.set_input_source(Platform::MacOs, midi(), false, true);
    assert!(matches!(step, SourceStep::OpenDevice { device_id } if device_id == "0:Keystation"));
    assert!(matches!(pl.current_input_source(), InputSource::Audio), "nothing changes yet");
    pl.midi_device_opened("0:Keystation".into());
    assert_eq!(pl.midi_route, MidiRoute::Device);
    assert!(matches!(pl.current_input_source(), InputSource::Midi(id) if id == "0:Keystation"));

    let (step, effects) = pl.set_input_source(Platform::MacOs, midi(), true, false);
    assert!(matches!(step, SourceStep::NoVirtualPort) && effects.is_empty());
    let (step, effects) = pl.set_input_source(Platform::MacOs, midi(), true, true);
    assert!(matches!(step, SourceStep::Changed));
    assert_eq!(shown(&effects), ["CloseMidiInput"]);
    assert_eq!(pl.midi_route, MidiRoute::VirtualPort);
    let (step, _) = pl.set_input_source(Platform::Windows, midi(), true, false);
    assert!(matches!(step, SourceStep::Changed));
    assert_eq!(pl.midi_route, MidiRoute::Nowhere);
    pl.set_input_source(Platform::Windows, InputSource::Audio, false, false);
    assert!(matches!(pl.current_input_source(), InputSource::Audio));
}

#[test]
fn one_recording_at_a_time() {
    let mut pl = PipelineState::new();
    assert_eq!(shown(&pl.start_recording().expect("none runs")), ["AttachRecorder"]);
    assert!(!pl.can_record());
    assert_eq!(
        pl.start_recording().expect_err("one runs").to_text(),
        "recording already in progress"
    );
    let (was, effects) = pl.take_recorder();
    assert!(was);
    assert_eq!(shown(&effects), ["DetachRecorder"]);
    assert!(!pl.take_recorder().0);
    let mut effects = Vec::new();
    pl.stop_recording(&mut effects);
    assert!(effects.is_empty());
}

#[test]
fn streams_and_hosts_are_closed_if_open() {
    let mut effects = Vec::new();
    close_stream_on_com(false, Direction::Capture, &mut effects);
    close_host_on_com(false, &mut effects);
    assert!(effects.is_empty());
    close_stream_on_com(true, Direction::Capture, &mut effects);
    close_stream_on_com(true, Direction::Playback, &mut effects);
    close_host_on_com(true, &mut effects);
    assert_eq!(shown(&effects), ["CloseCapture", "ClosePlayback", "CloseAsioHost"]);
}
