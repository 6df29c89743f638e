//! What the browser asks of the agent, and what the agent answers.
//!
//! Levels, gains and times that are floats on the wire are carried as their bits.
//! Latencies are carried in samples at 48 kHz.

use crate::audio_open::HostKind;
use crate::pipeline::AgentState;
use crate::plugin::{PluginInfo, PluginRef};
use crate::plugin_scan::session::BlockedItem;
use crate::text;
use vstd::prelude::*;
use vstd::string::*;

verus! {

/// Keys of an encrypted transport.
#[derive(Debug)]
pub struct SrtpParameters {
    pub crypto_suite: String,
    pub key_base64: String,
}

/// A stem to record.
#[derive(Debug)]
pub struct StemSpec {
    pub role: String,
    pub peer_id: Option<String>,
    pub peer_name: Option<String>,
}

/// A MIDI input that can be chosen.
#[derive(Debug)]
pub struct MidiDevice {
    pub id: String,
    pub name: String,
    pub is_default: bool,
}

/// An audio device that can be chosen.
#[derive(Debug)]
pub struct AudioDevice {
    pub id: String,
    pub name: String,
    pub channels: u16,
    pub is_default: bool,
}

/// What the browser asks for.
#[derive(Debug)]
pub enum BrowserMessage {
    HelloAck { protocol_version: u32, session_id: Option<String> },
    GetDevices,
    SelectDevices { input_id: Option<String>, output_id: Option<String> },
    StartCapture {
        ssrc: u32,
        sfu_ip: String,
        sfu_port: u16,
        input_device: Option<String>,
        channel_index: Option<u8>,
        stereo_start: Option<u8>,
        srtp_parameters: SrtpParameters,
        /// Only the input changes: the session goes on.
        session_continues: bool,
    },
    StartVoiceCapture {
        ssrc: u32,
        sfu_ip: String,
        sfu_port: u16,
        channel_index: u8,
        srtp_parameters: SrtpParameters,
    },
    StopVoiceCapture,
    SetVoiceGain { gain: u32 },
    AddStream { producer_id: String, sfu_ip: String, sfu_port: u16, srtp_parameters: SrtpParameters },
    RemoveStream { producer_id: String },
    SetVolume { producer_id: String, volume: u32 },
    SetBuffer { target_ms: u32 },
    SetSelfMonitorVolume { volume: u32 },
    GetStats,
    Stop,
    SetInputCut { cut: bool },
    SetMasterVolume { volume: u32 },
    SetPan { producer_id: String, pan: u32 },
    SetDim { factor: u32 },
    ReferenceClockPing { ping_id: u64, client_send_ms: u64 },
    ReferenceConfig { config: ReferenceConfig },
    ReferenceGrid { anchor_beat_frame: u64, anchor_beat_index: i64 },
    ReferenceStop,
    ReferenceBackingBegin { total_frames: u64 },
    ReferenceBackingChunk { data_b64: String },
    ReferenceBackingEnd,
    ReferenceBackingUnload,
    ReferenceBackingPlay { anchor_backing_frame: u64, anchor_output_frame: u64 },
    ReferenceBackingPause,
    ReferenceBackingSeek { anchor_backing_frame: u64, anchor_output_frame: u64 },
    ReferenceBackingSync { anchor_backing_frame: u64, anchor_output_frame: u64 },
    ListPlugins,
    LoadInstrumentPlugin { plugin_ref: PluginRef },
    UnloadInstrumentPlugin,
    SetInstrumentPluginBypass { bypass: bool },
    OpenInstrumentPluginEditor,
    CloseInstrumentPluginEditor,
    ListMidiDevices,
    SetInputSource { source: String, midi_device_id: Option<String> },
    PlayMidiNote { status: u8, data1: u8, data2: u8 },
    StartRecording { stems: Vec<StemSpec> },
    StopRecording,
    GetLogsArchive { max_days: Option<u32>, max_bytes: Option<u64> },
    Restart,
    RelaunchNow,
}

/// Settings of the metronome.
#[derive(Debug)]
pub struct ReferenceConfig {
    pub enabled: bool,
    pub volume: u32,
    pub pan: u32,
    /// Bits of a double.
    pub bpm: u64,
    pub beats_per_accent: u32,
    pub sound: String,
    pub figure: String,
    pub anchor_beat_frame: u64,
    pub anchor_beat_index: i64,
}

/// A piece of outside work whose failure is reported with its own words behind a prefix.
#[derive(Clone, Copy, Debug, PartialEq, Eq, Structural)]
pub enum Task {
    LogsArchive,
    StopRecording,
    LoadPlugin,
    SfuAddress,
    UdpBind,
    SpawnEncoder,
    SpawnDecoder,
    VoiceSfuAddress,
    VoiceUdpBind,
    SpawnVoice,
    AttachVoice,
    /// Reported in its own words alone.
    Plain,
}

impl Task {
    pub open spec fn prefix_chars(self) -> Seq<char> {
        match self {
            Task::LogsArchive => "logs archive task failed: "@,
            Task::StopRecording => "stop task failed: "@,
            Task::LoadPlugin => "plugin load task failed: "@,
            Task::SfuAddress => "Bad SFU address: "@,
            Task::UdpBind => "UDP bind: "@,
            Task::SpawnEncoder => "Spawn encoder: "@,
            Task::SpawnDecoder => "spawn decode thread: "@,
            Task::VoiceSfuAddress => "bad SFU address: "@,
            Task::VoiceUdpBind => "voice UDP bind: "@,
            Task::SpawnVoice => "spawn voice-encode: "@,
            Task::AttachVoice => "voice tap attach failed: "@,
            Task::Plain => ""@,
        }
    }

    pub fn prefix(self) -> (r: &'static str)
        ensures
            r@ == self.prefix_chars(),
    {
        match self {
            Task::LogsArchive => "logs archive task failed: ",
            Task::StopRecording => "stop task failed: ",
            Task::LoadPlugin => "plugin load task failed: ",
            Task::SfuAddress => "Bad SFU address: ",
            Task::UdpBind => "UDP bind: ",
            Task::SpawnEncoder => "Spawn encoder: ",
            Task::SpawnDecoder => "spawn decode thread: ",
            Task::VoiceSfuAddress => "bad SFU address: ",
            Task::VoiceUdpBind => "voice UDP bind: ",
            Task::SpawnVoice => "spawn voice-encode: ",
            Task::AttachVoice => "voice tap attach failed: ",
            Task::Plain => "",
        }
    }
}

/// Why a request was not met.
#[derive(Debug)]
pub enum ErrorText {
    AgentOverloaded,
    InvalidSfuDestination,
    NoActiveCapture,
    VoiceChannelOutOfRange { channel: u8, channels: u16 },
    TooManyStreams { max: u64 },
    RecordingInProgress,
    NoPluginLoaded,
    PluginsUnsupported,
    MidiUnsupported,
    MidiDeviceRequired,
    UnknownSource { source: String },
    VirtualMidiUnavailable,
    LogsOnly,
    InvalidMessage { payload: String, error: String },
    Failed { task: Task, detail: String },
    /// In the words of the part that failed.
    Verbatim(String),
}

impl ErrorText {
    pub open spec fn text_chars(self) -> Seq<char> {
        match self {
            ErrorText::AgentOverloaded => "agent overloaded"@,
            ErrorText::InvalidSfuDestination => "invalid sfu destination"@,
            ErrorText::NoActiveCapture =>
                "no active capture — start voice after instrument capture"@,
            ErrorText::VoiceChannelOutOfRange { channel, channels } => "voice channel "@
                + text::decimal_chars(channel as nat) + " out of range (device has "@
                + text::decimal_chars(channels as nat) + " channels)"@,
            ErrorText::TooManyStreams { max } => "too many streams (max "@ + text::decimal_chars(
                max as nat,
            ) + ")"@,
            ErrorText::RecordingInProgress => "recording already in progress"@,
            ErrorText::NoPluginLoaded => "no plugin loaded"@,
            ErrorText::PluginsUnsupported => "INSERT plugins not supported on this platform"@,
            ErrorText::MidiUnsupported => "MIDI input not supported on this platform"@,
            ErrorText::MidiDeviceRequired => "midiDeviceId required when source=midi"@,
            ErrorText::UnknownSource { source } => "unknown source: "@ + source@,
            ErrorText::VirtualMidiUnavailable =>
                "virtual MIDI port not available (creation failed at boot)"@,
            ErrorText::LogsOnly => "logs-only connection: only get-logs-archive is allowed"@,
            ErrorText::InvalidMessage { payload, error } => "Invalid message: "@ + payload@
                + " (parse error: "@ + error@ + ")"@,
            ErrorText::Failed { task, detail } => task.prefix_chars() + detail@,
            ErrorText::Verbatim(s) => s@,
        }
    }

    /// The text that the browser is given.
    pub fn to_text(&self) -> (r: String)
        ensures
            r@ == self.text_chars(),
    {
        match self {
            ErrorText::AgentOverloaded => "agent overloaded".to_owned(),
            ErrorText::InvalidSfuDestination => "invalid sfu destination".to_owned(),
            ErrorText::NoActiveCapture =>
                "no active capture — start voice after instrument capture".to_owned(),
            ErrorText::VoiceChannelOutOfRange { channel, channels } => {
                let mut r = text::joined("voice channel ", text::decimal(*channel as u64).as_str());
                r.append(" out of range (device has ");
                r.append(text::decimal(*channels as u64).as_str());
                r.append(" channels)");
                r
            },
            ErrorText::TooManyStreams { max } => {
                let mut r = text::joined("too many streams (max ", text::decimal(*max).as_str());
                r.append(")");
                r
            },
            ErrorText::RecordingInProgress => "recording already in progress".to_owned(),
            ErrorText::NoPluginLoaded => "no plugin loaded".to_owned(),
            ErrorText::PluginsUnsupported =>
                "INSERT plugins not supported on this platform".to_owned(),
            ErrorText::MidiUnsupported => "MIDI input not supported on this platform".to_owned(),
            ErrorText::MidiDeviceRequired => "midiDeviceId required when source=midi".to_owned(),
            ErrorText::UnknownSource { source } => text::joined(
                "unknown source: ",
                source.as_str(),
            ),
            ErrorText::VirtualMidiUnavailable =>
                "virtual MIDI port not available (creation failed at boot)".to_owned(),
            ErrorText::LogsOnly =>
                "logs-only connection: only get-logs-archive is allowed".to_owned(),
            ErrorText::InvalidMessage { payload, error } => {
                let mut r = text::joined("Invalid message: ", payload.as_str());
                r.append(" (parse error: ");
                r.append(error.as_str());
                r.append(")");
                r
            },
            ErrorText::Failed { task, detail } => text::joined(task.prefix(), detail.as_str()),
            ErrorText::Verbatim(s) => s.clone(),
        }
    }
}

/// The request that an error belongs to, so that the browser gives up that one only.
#[derive(Debug)]
pub enum ErrorKey {
    /// No request in particular.
    General,
    /// The capture of the instrument.
    Instrument,
    /// The capture of the voice.
    Voice,
    /// The stream of a producer.
    Producer(String),
}

impl ErrorKey {
    /// The key on the wire, where there is one.
    pub open spec fn wire_chars(self) -> Option<Seq<char>> {
        match self {
            ErrorKey::General => None,
            ErrorKey::Instrument => Some(""@),
            ErrorKey::Voice => Some("voice"@),
            ErrorKey::Producer(id) => Some(id@),
        }
    }

    pub fn as_wire(&self) -> (r: Option<String>)
        ensures
            crate::option_text::chars_of(r) == self.wire_chars(),
    {
        match self {
            ErrorKey::General => None,
            ErrorKey::Instrument => Some("".to_owned()),
            ErrorKey::Voice => Some("voice".to_owned()),
            ErrorKey::Producer(id) => Some(id.clone()),
        }
    }
}

/// Why a capture was refused, as the browser tells them apart.
#[derive(Clone, Copy, Debug, PartialEq, Eq, Structural)]
pub enum CaptureErrorReason {
    InputDeviceNotFound,
    OutputDeviceNotFound,
    AsioOpenFailed,
}

impl CaptureErrorReason {
    pub open spec fn wire_chars(self) -> Seq<char> {
        match self {
            CaptureErrorReason::InputDeviceNotFound => "input-device-not-found"@,
            CaptureErrorReason::OutputDeviceNotFound => "output-device-not-found"@,
            CaptureErrorReason::AsioOpenFailed => "asio-open-failed"@,
        }
    }

    pub fn as_wire(self) -> (r: &'static str)
        ensures
            r@ == self.wire_chars(),
    {
        match self {
            CaptureErrorReason::InputDeviceNotFound => "input-device-not-found",
            CaptureErrorReason::OutputDeviceNotFound => "output-device-not-found",
            CaptureErrorReason::AsioOpenFailed => "asio-open-failed",
        }
    }
}

/// A recorded file on its way to the browser.
#[derive(Debug)]
pub struct RecordedFileWire {
    pub spec: StemSpec,
    pub data_b64: String,
}

/// The media type and the extension of recorded files.
pub fn recorded_format() -> (r: (&'static str, &'static str))
    ensures
        r.0@ == "audio/ogg"@,
        r.1@ == "opus"@,
{
    ("audio/ogg", "opus")
}

/// Latencies and load of the agent. The latencies are in samples.
#[derive(Debug)]
pub struct Stats {
    pub device: Option<String>,
    pub capture_latency: u64,
    pub playback_latency: u64,
    pub buffer: u64,
    pub input_buffer: Option<u32>,
    pub output_buffer: Option<u32>,
    /// Bits of the mean target of the jitter buffers, in milliseconds.
    pub jitter_target_ms: u32,
    /// The whole way but for the jitter buffers; nothing while there is no capture.
    pub fixed_latency: Option<u64>,
    pub streams: usize,
    pub underruns: u64,
}

/// What the agent answers.
#[derive(Debug)]
pub enum AgentMessage {
    Hello {
        protocol_version: u32,
        agent_version: String,
        os: String,
        arch: String,
        capabilities: Vec<String>,
    },
    Status {
        state: AgentState,
        version: Option<String>,
        os: Option<String>,
        arch: Option<String>,
    },
    Devices {
        inputs: Vec<AudioDevice>,
        outputs: Vec<AudioDevice>,
        audio_host: Option<HostKind>,
    },
    LocalPort { key: ErrorKey, port: u16, srtp_parameters: SrtpParameters },
    CaptureStarted {
        device_id: String,
        device_name: String,
        channels: u16,
        native_sample_rate: u32,
        output_name: String,
        output_fallback: bool,
    },
    CaptureError {
        reason: CaptureErrorReason,
        requested_device: Option<String>,
        detail: Option<String>,
    },
    Error { message: ErrorText, key: ErrorKey },
    Stats(Stats),
    ReferenceClockPong {
        ping_id: u64,
        client_send_ms: u64,
        /// Bits of a double.
        agent_mono_ms: u64,
        anchor_frame: u64,
        /// Bits of a double; the sound leaves `out_samples` later.
        anchor_mono_ms: u64,
        out_samples: u32,
        sample_rate: u32,
    },
    PluginList { items: Vec<PluginInfo>, blocked: Vec<BlockedItem>, scanning: bool },
    InstrumentPluginLoaded {
        name: String,
        plugin_ref: PluginRef,
        latency_samples: u32,
        has_editor: bool,
        bypass: bool,
    },
    InstrumentPluginError { message: ErrorText },
    InstrumentPluginUnloaded,
    MidiDeviceList { devices: Vec<MidiDevice> },
    InputSourceChanged {
        midi: bool,
        midi_device_id: Option<String>,
        midi_device_name: Option<String>,
    },
    InputSourceError { message: ErrorText },
    RecordingStarted { stems: Vec<StemSpec> },
    RecordingError { message: ErrorText },
    RecordingDone { files: Vec<RecordedFileWire> },
    LogsArchive { content: String, files: Vec<String>, truncated: bool, log_dir: String },
    Shutdown { reason: String },
    StreamLevels { levels: Vec<StreamLevel>, input_rms: u32, midi_active: bool },
    PerfStats(PerfReport),
    AgentPipelineOverload { drops_per_sec: u64, pipeline_p99_ms: u32, plugin_name: String },
    InstrumentPluginOverload { name: String, p99_ms: u32, max_ms: u32, count: u64 },
    PeerUnstable {
        producer_id: String,
        drift_drains_window: u64,
        drift_drains_total: u64,
        drift_ppm: u32,
    },
}

/// Level of a received stream.
#[derive(Debug)]
pub struct StreamLevel {
    pub producer_id: String,
    pub rms: u32,
    pub rms_l: u32,
    pub rms_r: u32,
}

/// What was measured of a span of time, in milliseconds.
#[derive(Clone, Copy, Debug, PartialEq, Eq, Structural)]
pub struct LatencySnapshot {
    pub count: u64,
    pub mean_ms: u32,
    pub p50_ms: u32,
    pub p99_ms: u32,
    pub max_ms: u32,
    pub drops: u64,
}

/// How long the plugin takes.
#[derive(Debug)]
pub struct PluginPerf {
    pub name: String,
    pub count: u64,
    pub mean_ms: u32,
    pub p50_ms: u32,
    pub p99_ms: u32,
    pub max_ms: u32,
}

/// How long the way from the capture to the network takes.
#[derive(Clone, Copy, Debug, PartialEq, Eq, Structural)]
pub struct PipelineLatency {
    pub count: u64,
    pub p50_ms: u32,
    pub p99_ms: u32,
    pub max_ms: u32,
    pub mean_ms: u32,
    pub drops_per_sec: u64,
}

/// How well a peer is received.
#[derive(Debug)]
pub struct PeerPerf {
    pub producer_id: String,
    pub drift_ppm: u32,
    pub jitter_ms: u32,
    pub jitter_tail_ms: u32,
    pub buffer_target_ms: u32,
    pub underruns: u64,
    pub drift_drops: u64,
}

/// The measurements of a second.
#[derive(Debug)]
pub struct PerfReport {
    pub timestamp_ms: u64,
    pub plugin: Option<PluginPerf>,
    pub pipeline_latency: PipelineLatency,
    pub peers: Vec<PeerPerf>,
    pub output_peak: u32,
    /// Samples beyond full scale, of all samples.
    pub output_clip_samples: u64,
    pub output_total_samples: u64,
    pub monitor_buffer_ms: u32,
    pub monitor_underruns: u64,
}

/// The agent itself: its version and what it was built for.
#[derive(Debug)]
pub struct AgentIdentity {
    pub protocol_version: u32,
    pub version: String,
    pub os: String,
    pub arch: String,
}

/// The status of an agent.
pub open spec fn status_of(state: AgentState, id: AgentIdentity) -> AgentMessage {
    AgentMessage::Status {
        state,
        version: Some(id.version),
        os: Some(id.os),
        arch: Some(id.arch),
    }
}

pub fn make_status(state: AgentState, id: &AgentIdentity) -> (r: AgentMessage)
    ensures
        r == status_of(state, *id),
{
    AgentMessage::Status {
        state,
        version: Some(id.version.clone()),
        os: Some(id.os.clone()),
        arch: Some(id.arch.clone()),
    }
}

/// The first message on a connection. It announces no capabilities.
pub fn make_hello(id: &AgentIdentity) -> (r: AgentMessage)
    ensures
        r matches AgentMessage::Hello { protocol_version, agent_version, os, arch, capabilities }
            && protocol_version == id.protocol_version && agent_version == id.version && os == id.os
            && arch == id.arch && capabilities@.len() == 0,
{
    AgentMessage::Hello {
        protocol_version: id.protocol_version,
        agent_version: id.version.clone(),
        os: id.os.clone(),
        arch: id.arch.clone(),
        capabilities: Vec::new(),
    }
}

/// The message that tells of the input source.
pub open spec fn source_changed(
    source: crate::pipeline::InputSource,
    name: Option<String>,
) -> AgentMessage {
    match source {
        crate::pipeline::InputSource::Audio => AgentMessage::InputSourceChanged {
            midi: false,
            midi_device_id: None,
            midi_device_name: None,
        },
        crate::pipeline::InputSource::Midi(id) => AgentMessage::InputSourceChanged {
            midi: true,
            midi_device_id: Some(id),
            midi_device_name: name,
        },
    }
}

/// Tells of the input source. `name` is the name of the device, as far as it is known.
pub fn source_message(source: crate::pipeline::InputSource, name: Option<String>) -> (r:
    AgentMessage)
    ensures
        r == source_changed(source, name),
{
    match source {
        crate::pipeline::InputSource::Audio => AgentMessage::InputSourceChanged {
            midi: false,
            midi_device_id: None,
            midi_device_name: None,
        },
        crate::pipeline::InputSource::Midi(id) => AgentMessage::InputSourceChanged {
            midi: true,
            midi_device_id: Some(id),
            midi_device_name: name,
        },
    }
}

/// The source of an `InputSourceChanged` as the wire names it.
pub fn source_wire(midi: bool) -> (r: &'static str)
    ensures
        r@ == if midi {
            "midi"@
        } else {
            "audio"@
        },
{
    if midi {
        "midi"
    } else {
        "audio"
    }
}

/// A list of one message.
pub fn one(m: AgentMessage) -> (r: Vec<AgentMessage>)
    ensures
        r@ == seq![m],
{
    let mut r: Vec<AgentMessage> = Vec::new();
    r.push(m);
    assert(r@ =~= seq![m]);
    r
}

/// What the browser reads of an error is fixed word by word: it tells some of them apart by
/// these. Numbers stand in them in the order in which they are given.
pub proof fn every_error_has_its_words(e: ErrorText)
    ensures
        e is AgentOverloaded ==> e.text_chars() == "agent overloaded"@,
        e is InvalidSfuDestination ==> e.text_chars() == "invalid sfu destination"@,
        e is NoActiveCapture ==> e.text_chars()
            == "no active capture — start voice after instrument capture"@,
        e matches ErrorText::VoiceChannelOutOfRange { channel, channels } ==> e.text_chars()
            == "voice channel "@ + text::decimal_chars(channel as nat)
            + " out of range (device has "@ + text::decimal_chars(channels as nat)
            + " channels)"@,
        e matches ErrorText::TooManyStreams { max } ==> e.text_chars() == "too many streams (max "@
            + text::decimal_chars(max as nat) + ")"@,
        e is RecordingInProgress ==> e.text_chars() == "recording already in progress"@,
        e is NoPluginLoaded ==> e.text_chars() == "no plugin loaded"@,
        e is PluginsUnsupported ==> e.text_chars()
            == "INSERT plugins not supported on this platform"@,
        e is MidiUnsupported ==> e.text_chars() == "MIDI input not supported on this platform"@,
        e is MidiDeviceRequired ==> e.text_chars() == "midiDeviceId required when source=midi"@,
        e matches ErrorText::UnknownSource { source } ==> e.text_chars() == "unknown source: "@
            + source@,
        e is VirtualMidiUnavailable ==> e.text_chars()
            == "virtual MIDI port not available (creation failed at boot)"@,
        e is LogsOnly ==> e.text_chars()
            == "logs-only connection: only get-logs-archive is allowed"@,
        e matches ErrorText::InvalidMessage { payload, error } ==> e.text_chars()
            == "Invalid message: "@ + payload@ + " (parse error: "@ + error@ + ")"@,
        e matches ErrorText::Failed { task, detail } ==> e.text_chars() == task.prefix_chars()
            + detail@,
        e matches ErrorText::Verbatim(s) ==> e.text_chars() == s@,
{
}

/// A failure is told behind the name of what failed.
pub proof fn every_task_has_its_words(t: Task)
    ensures
        t is LogsArchive ==> t.prefix_chars() == "logs archive task failed: "@,
        t is StopRecording ==> t.prefix_chars() == "stop task failed: "@,
        t is LoadPlugin ==> t.prefix_chars() == "plugin load task failed: "@,
        t is SfuAddress ==> t.prefix_chars() == "Bad SFU address: "@,
        t is UdpBind ==> t.prefix_chars() == "UDP bind: "@,
        t is SpawnEncoder ==> t.prefix_chars() == "Spawn encoder: "@,
        t is SpawnDecoder ==> t.prefix_chars() == "spawn decode thread: "@,
        t is VoiceSfuAddress ==> t.prefix_chars() == "bad SFU address: "@,
        t is VoiceUdpBind ==> t.prefix_chars() == "voice UDP bind: "@,
        t is SpawnVoice ==> t.prefix_chars() == "spawn voice-encode: "@,
        t is AttachVoice ==> t.prefix_chars() == "voice tap attach failed: "@,
        t is Plain ==> t.prefix_chars() == ""@,
{
}

/// An error says which request it belongs to: none, the instrument, the voice, or the stream
/// of a producer, by its own name.
pub proof fn an_error_names_its_request(k: ErrorKey, r: CaptureErrorReason)
    ensures
        k is General <==> k.wire_chars() is None,
        k is Instrument ==> k.wire_chars() == Some(""@),
        k is Voice ==> k.wire_chars() == Some("voice"@),
        k matches ErrorKey::Producer(id) ==> k.wire_chars() == Some(id@),
        r is InputDeviceNotFound ==> r.wire_chars() == "input-device-not-found"@,
        r is OutputDeviceNotFound ==> r.wire_chars() == "output-device-not-found"@,
        r is AsioOpenFailed ==> r.wire_chars() == "asio-open-failed"@,
{
}

/// A status tells the state that it is given and what the agent is, each in its place; a change
/// of source tells the device, and a name only together with it.
pub proof fn a_status_tells_what_the_agent_is(
    state: AgentState,
    id: AgentIdentity,
    device: String,
    name: Option<String>,
)
    ensures
        status_of(state, id) matches AgentMessage::Status { state: s, version, os, arch } && s
            == state && version == Some(id.version) && os == Some(id.os) && arch == Some(id.arch),
        source_changed(crate::pipeline::InputSource::Midi(device), name) matches
            AgentMessage::InputSourceChanged { midi, midi_device_id, midi_device_name } && midi
            && midi_device_id == Some(device) && midi_device_name == name,
        source_changed(crate::pipeline::InputSource::Audio, name) matches
            AgentMessage::InputSourceChanged { midi, midi_device_id, midi_device_name } && !midi
            && midi_device_id is None && midi_device_name is None,
{
}

} // verus!
