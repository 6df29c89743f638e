//! Messages of the browser: what is answered at once, what needs the pipeline, and what
//! follows.

use jamodio::access::IpAddress;
use jamodio::audio_open::HostKind;
use jamodio::capture_start::{AddAction, StartAction};
use jamodio::clock::Instant;
use jamodio::dispatch::{
    devices_reply, editor_reply, handle_message, load_reply, logs_reply, midi_devices_reply,
    midi_name, midi_opened, named_source, overloaded, receive, recorder_started,
    recording_finished, stats, CollectedLogs, Context, FreeWork, Handled, LoadOutcome, Lock,
    MixerCommand, NamedSource, Observed, Receipt, Work,
};
use jamodio::media_text::{decode_chunk, samples_from_bytes, InvalidChunk, RecordedFile};
use jamodio::messages::{
    recorded_format, source_wire, AgentIdentity, AgentMessage, BrowserMessage, ErrorKey, ErrorText,
    MidiDevice, SrtpParameters, StemSpec, Task,
};
use jamodio::pipeline::{AgentState, InputSource, MidiRoute, PipelineState};
use jamodio::plugin::{Platform, PluginRef};
use jamodio::plugin_control::{LoadError, LoadedPlugin, PluginHandle};

fn keys() -> SrtpParameters {
    SrtpParameters { crypto_suite: "AEAD_AES_256_GCM".into(), key_base64: "a2V5".into() }
}

fn start_capture() -> BrowserMessage {
    BrowserMessage::StartCapture {
        ssrc: 1,
        sfu_ip: "203.0.113.7".into(),
        sfu_port: 40_000,
        input_device: Some("1:Mic".into()),
        channel_index: None,
        stereo_start: None,
        srtp_parameters: keys(),
        session_continues: false,
    }
}

fn start_voice(channel_index: u8) -> BrowserMessage {
    BrowserMessage::StartVoiceCapture {
        ssrc: 2,
        sfu_ip: "203.0.113.7".into(),
        sfu_port: 40_001,
        channel_index,
        srtp_parameters: keys(),
    }
}

fn add_stream(id: &str) -> BrowserMessage {
    BrowserMessage::AddStream {
        producer_id: id.into(),
        sfu_ip: "203.0.113.7".into(),
        sfu_port: 40_002,
        srtp_parameters: keys(),
    }
}

fn sfu() -> Option<IpAddress> {
    Some(IpAddress::V4 { octets: [203, 0, 113, 7] })
}

fn au() -> PluginRef {
    PluginRef::Au { au_type: "aufx".into(), subtype: "nbeq".into(), manufacturer: "appl".into() }
}

fn context(platform: Platform) -> Context {
    Context {
        platform,
        host: HostKind::CoreAudio,
        identity: AgentIdentity {
            protocol_version: 2,
            version: "0.6.4".into(),
            os: "macos".into(),
            arch: "aarch64".into(),
        },
    }
}

fn observed() -> Observed {
    Observed {
        default_input_id: Some("0:Micro intégré".into()),
        underruns: 7,
        mean_target_ms: 12.5f32.to_bits(),
        anchor_frame: 1_000,
        anchor_mono_ms: 2.5f64.to_bits(),
        agent_mono_ms: 3.5f64.to_bits(),
        midi_is_virtual: false,
        has_virtual_port: true,
    }
}

fn handle(pl: &mut PipelineState, msg: BrowserMessage) -> Handled {
    handle_message(pl, msg, &context(Platform::MacOs), observed(), Instant::from_millis(9))
}

fn error_of(replies: &[AgentMessage]) -> String {
    match replies {
        [AgentMessage::Error { message, .. }]
        | [AgentMessage::InstrumentPluginError { message }]
        | [AgentMessage::InputSourceError { message }]
        | [AgentMessage::RecordingError { message }] => message.to_text(),
        other => panic!("no single error: {other:?}"),
    }
}

#[test]
fn a_destination_is_checked_before_anything_else() {
    for (dest, debug, allowed) in [
        (sfu(), false, true),
        (None, true, false),
        (Some(IpAddress::V4 { octets: [127, 0, 0, 1] }), false, false),
        (Some(IpAddress::V4 { octets: [127, 0, 0, 1] }), true, true),
        (Some(IpAddress::V4 { octets: [224, 0, 0, 1] }), true, false),
    ] {
        let r = receive(start_capture(), Platform::MacOs, dest, debug);
        match r {
            Receipt::Locked { lock: Lock::Patient, .. } => assert!(allowed),
            Receipt::Answer(a) => {
                assert!(!allowed);
                assert_eq!(error_of(&a), "invalid sfu destination");
                assert!(matches!(&a[0], AgentMessage::Error { key: ErrorKey::Instrument, .. }));
            }
            other => panic!("unexpected: {other:?}"),
        }
    }
    let Receipt::Answer(a) = receive(start_voice(0), Platform::MacOs, None, false) else {
        panic!("the voice is refused too")
    };
    assert!(matches!(&a[0], AgentMessage::Error { key: ErrorKey::Voice, .. }));
}

#[test]
fn what_needs_no_pipeline_is_answered_at_once() {
    let get = |m| receive(m, Platform::MacOs, None, false);
    assert!(matches!(get(BrowserMessage::GetDevices), Receipt::Free(FreeWork::ListDevices)));
    assert!(matches!(
        get(BrowserMessage::ListMidiDevices),
        Receipt::Free(FreeWork::ListMidiDevices)
    ));
    assert!(matches!(
        get(BrowserMessage::GetLogsArchive { max_days: Some(3), max_bytes: None }),
        Receipt::Free(FreeWork::CollectLogs { max_days: Some(3), max_bytes: None })
    ));
    assert!(matches!(get(BrowserMessage::Restart), Receipt::Answer(a) if a.is_empty()));
    assert!(matches!(
        get(BrowserMessage::HelloAck { protocol_version: 2, session_id: None }),
        Receipt::Answer(a) if a.is_empty()
    ));
}

#[test]
fn a_platform_without_plugins_says_so() {
    let get = |m| match receive(m, Platform::Other, None, false) {
        Receipt::Answer(a) => a,
        other => panic!("unexpected: {other:?}"),
    };
    assert!(matches!(
        &get(BrowserMessage::ListPlugins)[..],
        [AgentMessage::PluginList { items, blocked, scanning: false }]
            if items.is_empty() && blocked.is_empty()
    ));
    assert_eq!(
        error_of(&get(BrowserMessage::LoadInstrumentPlugin { plugin_ref: au() })),
        "INSERT plugins not supported on this platform"
    );
    assert!(matches!(
        &get(BrowserMessage::UnloadInstrumentPlugin)[..],
        [AgentMessage::InstrumentPluginUnloaded]
    ));
    assert_eq!(
        error_of(&get(BrowserMessage::SetInputSource {
            source: "audio".into(),
            midi_device_id: None,
        })),
        "MIDI input not supported on this platform"
    );
    assert!(get(BrowserMessage::OpenInstrumentPluginEditor).is_empty());
    assert!(get(BrowserMessage::PlayMidiNote { status: 0x90, data1: 60, data2: 1 }).is_empty());
    assert!(matches!(
        &get(BrowserMessage::ListMidiDevices)[..],
        [AgentMessage::MidiDeviceList { devices }] if devices.is_empty()
    ));
}

#[test]
fn setting_up_waits_longer_than_a_fader() {
    let lock = |m| match receive(m, Platform::MacOs, sfu(), false) {
        Receipt::Locked { lock, .. } => lock,
        other => panic!("unexpected: {other:?}"),
    };
    assert_eq!(lock(add_stream("p")).limit_ms(), Some(3_000));
    assert_eq!(lock(BrowserMessage::SetDim { factor: 0 }).limit_ms(), Some(200));
    assert_eq!(lock(BrowserMessage::GetStats), Lock::Brief);
    assert_eq!(lock(BrowserMessage::StopRecording).limit_ms(), None);
    assert_eq!(lock(BrowserMessage::Stop), Lock::Patient);
}

#[test]
fn an_overloaded_agent_answers_what_is_waited_for() {
    for m in [BrowserMessage::GetStats, BrowserMessage::Stop, start_capture(), start_voice(0)] {
        assert_eq!(error_of(&overloaded(m)), "agent overloaded");
    }
    assert!(matches!(
        &overloaded(add_stream("p"))[..],
        [AgentMessage::Error { key: ErrorKey::Producer(id), .. }] if id == "p"
    ));
    assert!(matches!(
        &overloaded(BrowserMessage::ListPlugins)[..],
        [AgentMessage::PluginList { scanning: true, .. }]
    ));
    assert!(matches!(
        &overloaded(BrowserMessage::StartRecording { stems: vec![] })[..],
        [AgentMessage::RecordingError { message: ErrorText::AgentOverloaded }]
    ));
    assert!(matches!(
        &overloaded(BrowserMessage::LoadInstrumentPlugin { plugin_ref: au() })[..],
        [AgentMessage::InstrumentPluginError { .. }]
    ));
    assert!(overloaded(BrowserMessage::SetDim { factor: 0 }).is_empty());
}

#[test]
fn a_capture_remembers_the_device() {
    let mut pl = PipelineState::new();
    let h = handle(&mut pl, start_capture());
    assert_eq!(pl.input_device_id.as_deref(), Some("1:Mic"));
    assert!(matches!(
        h.work,
        Some(Work::StartCapture { action: StartAction::Open { .. }, input_device: Some(d), .. })
            if d == "1:Mic"
    ));
    assert!(h.replies.is_empty());
}

#[test]
fn a_voice_without_a_capture_is_refused() {
    let mut pl = PipelineState::new();
    let h = handle(&mut pl, start_voice(0));
    assert_eq!(error_of(&h.replies), "no active capture — start voice after instrument capture");
    pl.session.voice_tap = true;
    pl.session.capture_channels_in = 2;
    let h = handle(&mut pl, start_voice(1));
    assert!(matches!(h.work, Some(Work::StartVoice { channel_index: 1 })));
    assert!(handle(&mut pl, BrowserMessage::StopVoiceCapture).effects.is_empty());
}

#[test]
fn streams_come_and_go() {
    let mut pl = PipelineState::new();
    let h = handle(&mut pl, add_stream("p"));
    assert!(matches!(h.work, Some(Work::AddStream { action: AddAction::Connect, .. })));
    let h = handle(&mut pl, BrowserMessage::RemoveStream { producer_id: "p".into() });
    assert!(h.effects.is_empty() && h.replies.is_empty() && h.work.is_none());
}

#[test]
fn faders_are_commands_to_the_mixer() {
    let mut pl = PipelineState::new();
    let h = handle(&mut pl, BrowserMessage::SetVolume { producer_id: "p".into(), volume: 5 });
    assert!(matches!(
        h.mixer,
        Some(MixerCommand::SetVolume { producer_id, volume: 5 }) if producer_id == "p"
    ));
    for (sent, used) in [
        (0.5f32, 0.5f32),
        (-0.5, 0.0),
        (f32::NAN, 0.0),
        (f32::INFINITY, 0.0),
        (2.0, 2.0),
    ] {
        let h = handle(&mut pl, BrowserMessage::SetSelfMonitorVolume { volume: sent.to_bits() });
        assert!(matches!(
            h.mixer,
            Some(MixerCommand::SetSelfMonitorVolume { volume }) if volume == used.to_bits()
        ));
    }
    let h = handle(&mut pl, BrowserMessage::ReferenceStop);
    assert!(matches!(h.mixer, Some(MixerCommand::ReferenceStop)));
    let h = handle(
        &mut pl,
        BrowserMessage::ReferenceBackingSeek { anchor_backing_frame: 1, anchor_output_frame: 2 },
    );
    assert!(matches!(
        h.mixer,
        Some(MixerCommand::BackingSeek { anchor_backing_frame: 1, anchor_output_frame: 2 })
    ));
}

#[test]
fn a_backing_track_comes_as_base64() {
    let mut pl = PipelineState::new();
    // 0x0100, 0xffff and 0x8000, the low byte first, and half a sample.
    let data_b64 = "AAH//wCAfw==".to_string();
    let h = handle(&mut pl, BrowserMessage::ReferenceBackingChunk { data_b64 });
    assert!(matches!(
        h.mixer,
        Some(MixerCommand::BackingPush { samples }) if samples == vec![256, -1, -32_768]
    ));
    let bad = BrowserMessage::ReferenceBackingChunk { data_b64: "***".into() };
    let h = handle(&mut pl, bad);
    assert!(h.mixer.is_none() && h.replies.is_empty());
    assert_eq!(decode_chunk("*"), Err(InvalidChunk));
    assert_eq!(decode_chunk(""), Ok(vec![]));
    assert_eq!(samples_from_bytes(&[1, 2, 3]), vec![513]);
}

#[test]
fn recorded_files_travel_as_base64() {
    let spec = || StemSpec { role: "self".into(), peer_id: None, peer_name: None };
    let files = vec![
        RecordedFile { spec: spec(), data: b"OggS".to_vec() },
        RecordedFile { spec: spec(), data: vec![] },
    ];
    let r = recording_finished(Ok(files));
    let [AgentMessage::RecordingDone { files }] = &r[..] else { panic!("the files are sent") };
    assert_eq!(files[0].data_b64, "T2dnUw==");
    assert_eq!(files[1].data_b64, "");
    assert_eq!(recorded_format(), ("audio/ogg", "opus"));
    let r = recording_finished(Err("panicked".into()));
    assert_eq!(error_of(&r), "stop task failed: panicked");
}

#[test]
fn figures_of_the_moment() {
    let mut pl = PipelineState::new();
    let s = stats(&pl, observed());
    assert_eq!(s.device.as_deref(), Some("Micro intégré"));
    assert_eq!((s.capture_latency, s.playback_latency, s.buffer), (0, 0, 0));
    assert_eq!(s.fixed_latency, None);
    assert_eq!(s.underruns, 7);

    pl.state = AgentState::Capturing;
    pl.input_device_id = Some("1:Mic".into());
    pl.driver.input_buffer_samples = Some(64);
    pl.driver.output_frames = 128;
    pl.driver.output_buffer_samples = Some(64);
    let s = stats(&pl, observed());
    assert_eq!(s.device.as_deref(), Some("Mic"));
    assert_eq!(s.capture_latency, 64 + 120);
    assert_eq!(s.playback_latency, 128, "what was seen counts more than what was agreed on");
    assert_eq!(s.fixed_latency, Some(64 + 120 + 120 + 128));
    assert_eq!(s.output_buffer, Some(128));
    pl.driver.input_buffer_samples = None;
    assert_eq!(stats(&pl, observed()).buffer, 480, "ten milliseconds where nothing is known");

    let h = handle(&mut pl, BrowserMessage::GetStats);
    assert!(matches!(
        &h.replies[..],
        [AgentMessage::Status { state: AgentState::Capturing, .. }, AgentMessage::Stats(_)]
    ));
}

#[test]
fn the_clock_is_answered_with_its_anchor() {
    let mut pl = PipelineState::new();
    pl.driver.output_frames = 96;
    let h = handle(&mut pl, BrowserMessage::ReferenceClockPing { ping_id: 4, client_send_ms: 5 });
    assert!(matches!(
        &h.replies[..],
        [AgentMessage::ReferenceClockPong {
            ping_id: 4,
            client_send_ms: 5,
            anchor_frame: 1_000,
            out_samples: 96,
            sample_rate: 48_000,
            ..
        }]
    ));
}

#[test]
fn stopping_leaves_the_studio() {
    let mut pl = PipelineState::new();
    pl.state = AgentState::Capturing;
    let h = handle(&mut pl, BrowserMessage::Stop);
    assert_eq!(pl.state, AgentState::Idle);
    assert!(matches!(
        &h.replies[..],
        [AgentMessage::Status { state: AgentState::Idle, version: Some(v), .. }] if v == "0.6.4"
    ));
}

#[test]
fn choosing_devices_moves_playback() {
    let mut pl = PipelineState::new();
    pl.driver.playback_open = true;
    let choose = || BrowserMessage::SelectDevices {
        input_id: Some("1:Mic".into()),
        output_id: Some("2:Casque".into()),
    };
    let h = handle(&mut pl, choose());
    assert!(matches!(
        h.work,
        Some(Work::MovePlayback { output_id: Some(id) }) if id == "2:Casque"
    ));
    assert_eq!(h.effects.len(), 1);
    pl.driver.playback_open = true;
    assert!(handle(&mut pl, choose()).work.is_none());
}

#[test]
fn switches_change_the_session() {
    let mut pl = PipelineState::new();
    handle(&mut pl, BrowserMessage::SetInputCut { cut: true });
    assert!(pl.session.input_cut);
    handle(&mut pl, BrowserMessage::SetVoiceGain { gain: 3.0f32.to_bits() });
    assert_eq!(pl.session.voice_gain, 1.0f32.to_bits());
    handle(&mut pl, BrowserMessage::SetInstrumentPluginBypass { bypass: true });
    assert!(pl.plugin.instrument_plugin_bypass);
}

#[test]
fn plugins_are_loaded_outside_the_lock() {
    let mut pl = PipelineState::new();
    assert!(matches!(
        &handle(&mut pl, BrowserMessage::ListPlugins).replies[..],
        [AgentMessage::PluginList { scanning: true, .. }]
    ));
    let h = handle(&mut pl, BrowserMessage::LoadInstrumentPlugin { plugin_ref: au() });
    assert!(matches!(h.work, Some(Work::LoadPlugin { plugin_ref }) if plugin_ref == au()));
    let h = handle(&mut pl, BrowserMessage::UnloadInstrumentPlugin);
    assert!(matches!(h.work, Some(Work::UnloadPlugin)));
    assert!(matches!(&h.replies[..], [AgentMessage::InstrumentPluginUnloaded]));

    let h = handle(&mut pl, BrowserMessage::OpenInstrumentPluginEditor);
    assert_eq!(error_of(&h.replies), "no plugin loaded");
    assert!(handle(&mut pl, BrowserMessage::CloseInstrumentPluginEditor).replies.is_empty());
    let note = || BrowserMessage::PlayMidiNote { status: 0x90, data1: 60, data2: 100 };
    assert!(handle(&mut pl, note()).work.is_none());
    pl.plugin.instrument_plugin_handle = Some(PluginHandle(5));
    assert!(matches!(
        handle(&mut pl, BrowserMessage::OpenInstrumentPluginEditor).work,
        Some(Work::OpenEditor { handle: PluginHandle(5) })
    ));
    assert!(matches!(
        handle(&mut pl, BrowserMessage::CloseInstrumentPluginEditor).work,
        Some(Work::CloseEditor { handle: PluginHandle(5) })
    ));
    assert!(matches!(
        handle(&mut pl, note()).work,
        Some(Work::PlayNote { handle: PluginHandle(5), event })
            if event.data == [0x90, 60, 100] && event.frame_offset == 0
    ));
}

#[test]
fn answers_about_plugins() {
    let loaded = LoadedPlugin { name: "EQ".into(), latency_samples: 3, has_editor: true };
    assert!(matches!(
        &load_reply(au(), LoadOutcome::Loaded(loaded))[..],
        [AgentMessage::InstrumentPluginLoaded { latency_samples: 3, bypass: false, .. }]
    ));
    let refused = load_reply(au(), LoadOutcome::Refused(LoadError::Host("boom".into())));
    assert_eq!(error_of(&refused), "boom");
    let broken = load_reply(au(), LoadOutcome::TaskFailed("panicked".into()));
    assert_eq!(error_of(&broken), "plugin load task failed: panicked");
    assert!(editor_reply(Ok(())).is_empty());
    assert_eq!(error_of(&editor_reply(Err("no view".into()))), "no view");
}

#[test]
fn the_source_is_named() {
    assert!(matches!(
        named_source("audio".into(), None),
        NamedSource::Source(InputSource::Audio)
    ));
    assert!(matches!(
        named_source("midi".into(), Some("0:K".into())),
        NamedSource::Source(InputSource::Midi(id)) if id == "0:K"
    ));
    let unclear = |s: &str| match named_source(s.into(), None) {
        NamedSource::Unclear(e) => e.to_text(),
        other => panic!("unexpected: {other:?}"),
    };
    assert_eq!(unclear("midi"), "midiDeviceId required when source=midi");
    assert_eq!(unclear("tape"), "unknown source: tape");
    assert_eq!((source_wire(true), source_wire(false)), ("midi", "audio"));
}

#[test]
fn a_midi_source_is_opened_first() {
    let mut pl = PipelineState::new();
    let midi = || BrowserMessage::SetInputSource {
        source: "midi".into(),
        midi_device_id: Some("0:Keystation".into()),
    };
    let h = handle(&mut pl, midi());
    assert!(matches!(h.work, Some(Work::OpenMidiDevice { .. })));
    let r = midi_opened(&mut pl, "0:Keystation".into(), Err("busy".into()));
    assert_eq!(error_of(&r), "busy");
    assert_eq!(pl.midi_route, MidiRoute::Nowhere);
    let r = midi_opened(&mut pl, "0:Keystation".into(), Ok(Some("Keystation".into())));
    assert!(matches!(
        &r[..],
        [AgentMessage::InputSourceChanged { midi: true, midi_device_name: Some(n), .. }]
            if n == "Keystation"
    ));
    assert_eq!(pl.midi_route, MidiRoute::Device);

    let obs = Observed { midi_is_virtual: true, has_virtual_port: false, ..observed() };
    let ctx = context(Platform::MacOs);
    let h = handle_message(&mut pl, midi(), &ctx, obs, Instant::from_millis(1));
    assert_eq!(
        error_of(&h.replies),
        "virtual MIDI port not available (creation failed at boot)"
    );
    let obs = Observed { midi_is_virtual: true, ..observed() };
    let h = handle_message(&mut pl, midi(), &ctx, obs, Instant::from_millis(1));
    assert!(matches!(h.work, Some(Work::NameMidiDevice { .. })));

    let audio = BrowserMessage::SetInputSource { source: "audio".into(), midi_device_id: None };
    let h = handle(&mut pl, audio);
    assert!(matches!(&h.replies[..], [AgentMessage::InputSourceChanged { midi: false, .. }]));
}

#[test]
fn names_of_midi_devices() {
    let devices = || vec![
        MidiDevice { id: "0:A".into(), name: "A".into(), is_default: true },
        MidiDevice { id: "1:B".into(), name: "B".into(), is_default: false },
    ];
    assert_eq!(midi_name(&devices(), "1:B"), Some("B".into()));
    assert_eq!(midi_name(&devices(), "2:C"), None);
    assert!(matches!(
        &midi_devices_reply(devices())[..],
        [AgentMessage::MidiDeviceList { devices }] if devices.len() == 2
    ));
    assert!(matches!(
        &devices_reply(vec![], vec![], HostKind::Asio)[..],
        [AgentMessage::Devices { audio_host: Some(HostKind::Asio), .. }]
    ));
}

#[test]
fn a_recording_is_started_and_finished() {
    let mut pl = PipelineState::new();
    let record = || BrowserMessage::StartRecording { stems: vec![] };
    assert!(matches!(handle(&mut pl, record()).work, Some(Work::StartRecorder { .. })));
    let (effects, r) = recorder_started(&mut pl, Err("no encoder".into()));
    assert!(effects.is_empty());
    assert_eq!(error_of(&r), "no encoder");
    let (effects, r) = recorder_started(&mut pl, Ok(vec![]));
    assert_eq!(effects.len(), 1);
    assert!(matches!(&r[..], [AgentMessage::RecordingStarted { .. }]));
    assert_eq!(error_of(&handle(&mut pl, record()).replies), "recording already in progress");
    let (_, r) = recorder_started(&mut pl, Ok(vec![]));
    assert_eq!(error_of(&r), "recording already in progress");
    let h = handle(&mut pl, BrowserMessage::StopRecording);
    assert!(matches!(h.work, Some(Work::FinishRecording { running: true })));
    let h = handle(&mut pl, BrowserMessage::StopRecording);
    assert!(matches!(h.work, Some(Work::FinishRecording { running: false })));
}

#[test]
fn the_logs_are_answered() {
    let collected = CollectedLogs {
        content: "line".into(),
        files: vec!["agent.log".into()],
        truncated: true,
        log_dir: "/tmp".into(),
    };
    assert!(matches!(logs_reply(Ok(collected)), AgentMessage::LogsArchive { truncated: true, .. }));
    let AgentMessage::Error { message, .. } = logs_reply(Err("panicked".into())) else {
        panic!("an error")
    };
    assert_eq!(message.to_text(), "logs archive task failed: panicked");
}

#[test]
fn words_and_keys_of_errors() {
    let task = |task| ErrorText::Failed { task, detail: "x".into() }.to_text();
    assert_eq!(task(Task::SpawnEncoder), "Spawn encoder: x");
    assert_eq!(task(Task::SpawnDecoder), "spawn decode thread: x");
    assert_eq!(task(Task::VoiceSfuAddress), "bad SFU address: x");
    assert_eq!(task(Task::VoiceUdpBind), "voice UDP bind: x");
    assert_eq!(task(Task::SpawnVoice), "spawn voice-encode: x");
    assert_eq!(task(Task::AttachVoice), "voice tap attach failed: x");
    assert_eq!(task(Task::Plain), "x");
    assert_eq!(
        ErrorText::LogsOnly.to_text(),
        "logs-only connection: only get-logs-archive is allowed"
    );
    assert_eq!(ErrorKey::General.as_wire(), None);
    assert_eq!(ErrorKey::Instrument.as_wire().as_deref(), Some(""));
    assert_eq!(ErrorKey::Voice.as_wire().as_deref(), Some("voice"));
    assert_eq!(ErrorKey::Producer("p".into()).as_wire().as_deref(), Some("p"));
}
