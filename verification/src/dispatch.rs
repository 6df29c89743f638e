//! What becomes of a message of the browser.
//!
//! A message is received first: it is answered at once, or it calls for outside work alone,
//! or it needs the pipeline. In the last case the pipeline is locked, within a time that
//! depends on the message, and the message is handled.

use crate::access::{is_valid_sfu_dest, valid_destination, IpAddress};
use crate::audio_open::{device_name, HostKind};
use crate::capture_start::{
    voice_refusal, AddAction, CaptureChoice, CaptureStart, StartAction, StreamAddition,
};
use crate::clock::Instant;
use crate::float_bits;
use crate::keyed::{find, index_of, Keyed};
use crate::media_text::{self, InvalidChunk, RecordedFile};
use crate::messages::{
    make_status, one, source_message, status_of, AgentIdentity, AgentMessage, AudioDevice,
    BrowserMessage, ErrorKey, ErrorText, MidiDevice, ReferenceConfig, Stats, StemSpec, Task,
};
use crate::midi::MidiEvent;
use crate::pipeline::{
    AgentState, AudioDriver, Effect, InputSource, PipelineState, Session, SourceStep,
};
use crate::plugin::{Platform, PluginRef};
use crate::plugin_control::{LoadError, LoadedPlugin, PluginHandle};
use crate::text;
use vstd::prelude::*;
use vstd::string::*;

verus! {

/// How long a message may wait for the pipeline.
#[derive(Clone, Copy, Debug, PartialEq, Eq, Structural)]
pub enum Lock {
    /// Briefly: the message comes again, or does not matter.
    Brief,
    /// Longer: without it a stream stays silent. Still less than the browser waits.
    Patient,
    /// As long as it takes.
    Unlimited,
}

impl Lock {
    /// The time in milliseconds, where there is a limit.
    pub fn limit_ms(self) -> (r: Option<u64>)
        ensures
            r == match self {
                Lock::Brief => Some(200u64),
                Lock::Patient => Some(3000u64),
                Lock::Unlimited => None,
            },
    {
        match self {
            Lock::Brief => Some(200),
            Lock::Patient => Some(3000),
            Lock::Unlimited => None,
        }
    }
}

/// Work that does not touch the pipeline.
#[derive(Debug)]
pub enum FreeWork {
    ListDevices,
    ListMidiDevices,
    /// Collect the log files, up to the limits that are given.
    CollectLogs { max_days: Option<u32>, max_bytes: Option<u64> },
}

/// What is done with a message first.
#[derive(Debug)]
pub enum Receipt {
    Answer(Vec<AgentMessage>),
    Free(FreeWork),
    Locked { lock: Lock, msg: BrowserMessage },
}

/// The lock that a message is handled under.
pub open spec fn lock_of(msg: BrowserMessage) -> Lock {
    match msg {
        BrowserMessage::SelectDevices { .. } => Lock::Patient,
        BrowserMessage::StartCapture { .. } => Lock::Patient,
        BrowserMessage::StartVoiceCapture { .. } => Lock::Patient,
        BrowserMessage::StopVoiceCapture => Lock::Patient,
        BrowserMessage::AddStream { .. } => Lock::Patient,
        BrowserMessage::RemoveStream { .. } => Lock::Patient,
        BrowserMessage::Stop => Lock::Patient,
        BrowserMessage::ListPlugins => Lock::Patient,
        BrowserMessage::LoadInstrumentPlugin { .. } => Lock::Patient,
        BrowserMessage::UnloadInstrumentPlugin => Lock::Patient,
        BrowserMessage::SetInputSource { .. } => Lock::Patient,
        BrowserMessage::StartRecording { .. } => Lock::Patient,
        BrowserMessage::StopRecording => Lock::Unlimited,
        _ => Lock::Brief,
    }
}

/// Is the message handled under the lock?
pub open spec fn is_locked(msg: BrowserMessage, platform: Platform, dest_valid: bool) -> bool {
    match msg {
        BrowserMessage::HelloAck { .. } => false,
        BrowserMessage::Restart => false,
        BrowserMessage::RelaunchNow => false,
        BrowserMessage::GetDevices => false,
        BrowserMessage::ListMidiDevices => false,
        BrowserMessage::GetLogsArchive { .. } => false,
        BrowserMessage::StartCapture { .. } => dest_valid,
        BrowserMessage::StartVoiceCapture { .. } => dest_valid,
        BrowserMessage::ListPlugins => platform.hosts_plugins(),
        BrowserMessage::LoadInstrumentPlugin { .. } => platform.hosts_plugins(),
        BrowserMessage::UnloadInstrumentPlugin => platform.hosts_plugins(),
        BrowserMessage::SetInstrumentPluginBypass { .. } => platform.hosts_plugins(),
        BrowserMessage::OpenInstrumentPluginEditor => platform.hosts_plugins(),
        BrowserMessage::CloseInstrumentPluginEditor => platform.hosts_plugins(),
        BrowserMessage::SetInputSource { .. } => platform.hosts_plugins(),
        BrowserMessage::PlayMidiNote { .. } => platform.hosts_plugins(),
        _ => true,
    }
}

/// A list of plugins with nothing on it.
pub open spec fn empty_list(m: AgentMessage, still_scanning: bool) -> bool {
    m matches AgentMessage::PluginList { items, blocked, scanning } && items@.len() == 0
        && blocked@.len() == 0 && scanning == still_scanning
}

fn lock_for(msg: &BrowserMessage) -> (r: Lock)
    ensures
        r == lock_of(*msg),
{
    match msg {
        BrowserMessage::SelectDevices { .. } => Lock::Patient,
        BrowserMessage::StartCapture { .. } => Lock::Patient,
        BrowserMessage::StartVoiceCapture { .. } => Lock::Patient,
        BrowserMessage::StopVoiceCapture => Lock::Patient,
        BrowserMessage::AddStream { .. } => Lock::Patient,
        BrowserMessage::RemoveStream { .. } => Lock::Patient,
        BrowserMessage::Stop => Lock::Patient,
        BrowserMessage::ListPlugins => Lock::Patient,
        BrowserMessage::LoadInstrumentPlugin { .. } => Lock::Patient,
        BrowserMessage::UnloadInstrumentPlugin => Lock::Patient,
        BrowserMessage::SetInputSource { .. } => Lock::Patient,
        BrowserMessage::StartRecording { .. } => Lock::Patient,
        BrowserMessage::StopRecording => Lock::Unlimited,
        _ => Lock::Brief,
    }
}

fn no_messages() -> (r: Vec<AgentMessage>)
    ensures
        r@ == Seq::<AgentMessage>::empty(),
{
    Vec::new()
}

fn empty_plugin_list(scanning: bool) -> (r: Vec<AgentMessage>)
    ensures
        r@.len() == 1,
        empty_list(r@[0], scanning),
{
    one(AgentMessage::PluginList { items: Vec::new(), blocked: Vec::new(), scanning })
}

/// Receives a message. `dest` is the address of the destination, as far as it could be read,
/// where the message names one. A destination that sound must not go to is refused before
/// anything else happens, and so is what the platform does not support.
pub fn receive(
    msg: BrowserMessage,
    platform: Platform,
    dest: Option<IpAddress>,
    debug_build: bool,
) -> (r: Receipt)
    ensures
        is_locked(msg, platform, valid_destination(dest, debug_build)) ==> r == (
        Receipt::Locked { lock: lock_of(msg), msg }),
        !is_locked(msg, platform, valid_destination(dest, debug_build)) ==> match msg {
            BrowserMessage::GetDevices => r == Receipt::Free(FreeWork::ListDevices),
            BrowserMessage::GetLogsArchive { max_days, max_bytes } => r == Receipt::Free(
                (FreeWork::CollectLogs { max_days, max_bytes }),
            ),
            BrowserMessage::ListMidiDevices if platform.hosts_plugins() => r == Receipt::Free(
                FreeWork::ListMidiDevices,
            ),
            _ => {
                &&& r matches Receipt::Answer(a)
                &&& match msg {
                    BrowserMessage::StartCapture { .. } => a@ == seq![
                        AgentMessage::Error {
                            message: ErrorText::InvalidSfuDestination,
                            key: ErrorKey::Instrument,
                        },
                    ],
                    BrowserMessage::StartVoiceCapture { .. } => a@ == seq![
                        AgentMessage::Error {
                            message: ErrorText::InvalidSfuDestination,
                            key: ErrorKey::Voice,
                        },
                    ],
                    BrowserMessage::ListPlugins => a@.len() == 1 && empty_list(a@[0], false),
                    BrowserMessage::LoadInstrumentPlugin { .. } => a@ == seq![
                        AgentMessage::InstrumentPluginError {
                            message: ErrorText::PluginsUnsupported,
                        },
                    ],
                    BrowserMessage::UnloadInstrumentPlugin => a@ == seq![
                        AgentMessage::InstrumentPluginUnloaded,
                    ],
                    BrowserMessage::SetInputSource { .. } => a@ == seq![
                        AgentMessage::InputSourceError { message: ErrorText::MidiUnsupported },
                    ],
                    BrowserMessage::ListMidiDevices => {
                        &&& a@.len() == 1
                        &&& a@[0] matches AgentMessage::MidiDeviceList { devices }
                        &&& devices@.len() == 0
                    },
                    _ => a@ == Seq::<AgentMessage>::empty(),
                }
            },
        },
{
    let hosts = platform.can_host_plugins();
    let valid = is_valid_sfu_dest(dest, debug_build);
    match &msg {
        BrowserMessage::HelloAck { .. } => Receipt::Answer(no_messages()),
        BrowserMessage::Restart => Receipt::Answer(no_messages()),
        BrowserMessage::RelaunchNow => Receipt::Answer(no_messages()),
        BrowserMessage::GetDevices => Receipt::Free(FreeWork::ListDevices),
        BrowserMessage::GetLogsArchive { max_days, max_bytes } => Receipt::Free(
            FreeWork::CollectLogs { max_days: *max_days, max_bytes: *max_bytes },
        ),
        BrowserMessage::ListMidiDevices => if hosts {
            Receipt::Free(FreeWork::ListMidiDevices)
        } else {
            Receipt::Answer(one(AgentMessage::MidiDeviceList { devices: Vec::new() }))
        },
        BrowserMessage::StartCapture { .. } if !valid => Receipt::Answer(
            one(
                AgentMessage::Error {
                    message: ErrorText::InvalidSfuDestination,
                    key: ErrorKey::Instrument,
                },
            ),
        ),
        BrowserMessage::StartVoiceCapture { .. } if !valid => Receipt::Answer(
            one(
                AgentMessage::Error {
                    message: ErrorText::InvalidSfuDestination,
                    key: ErrorKey::Voice,
                },
            ),
        ),
        BrowserMessage::ListPlugins if !hosts => Receipt::Answer(empty_plugin_list(false)),
        BrowserMessage::LoadInstrumentPlugin { .. } if !hosts => Receipt::Answer(
            one(
                AgentMessage::InstrumentPluginError { message: ErrorText::PluginsUnsupported },
            ),
        ),
        BrowserMessage::UnloadInstrumentPlugin if !hosts => Receipt::Answer(
            one(AgentMessage::InstrumentPluginUnloaded),
        ),
        BrowserMessage::SetInstrumentPluginBypass { .. } if !hosts => Receipt::Answer(
            no_messages(),
        ),
        BrowserMessage::OpenInstrumentPluginEditor if !hosts => Receipt::Answer(no_messages()),
        BrowserMessage::CloseInstrumentPluginEditor if !hosts => Receipt::Answer(no_messages()),
        BrowserMessage::SetInputSource { .. } if !hosts => Receipt::Answer(
            one(AgentMessage::InputSourceError { message: ErrorText::MidiUnsupported }),
        ),
        BrowserMessage::PlayMidiNote { .. } if !hosts => Receipt::Answer(no_messages()),
        _ => {
            let lock = lock_for(&msg);
            Receipt::Locked { lock, msg }
        },
    }
}

/// The answer where the pipeline could not be locked in time. What the browser waits for
/// is answered with an error that belongs to that request; what comes again anyway is
/// dropped. A list of plugins is always given, so that the browser asks again.
pub fn overloaded(msg: BrowserMessage) -> (r: Vec<AgentMessage>)
    ensures
        match msg {
            BrowserMessage::SelectDevices { .. }
            | BrowserMessage::GetStats
            | BrowserMessage::Stop => r@ == seq![
                AgentMessage::Error { message: ErrorText::AgentOverloaded, key: ErrorKey::General },
            ],
            BrowserMessage::StartCapture { .. } => r@ == seq![
                AgentMessage::Error {
                    message: ErrorText::AgentOverloaded,
                    key: ErrorKey::Instrument,
                },
            ],
            BrowserMessage::StartVoiceCapture { .. } => r@ == seq![
                AgentMessage::Error { message: ErrorText::AgentOverloaded, key: ErrorKey::Voice },
            ],
            BrowserMessage::AddStream { producer_id, .. }
            | BrowserMessage::RemoveStream { producer_id } => r@ == seq![
                AgentMessage::Error {
                    message: ErrorText::AgentOverloaded,
                    key: ErrorKey::Producer(producer_id),
                },
            ],
            BrowserMessage::ListPlugins => r@.len() == 1 && empty_list(r@[0], true),
            BrowserMessage::LoadInstrumentPlugin { .. } => r@ == seq![
                AgentMessage::InstrumentPluginError { message: ErrorText::AgentOverloaded },
            ],
            BrowserMessage::SetInputSource { .. } => r@ == seq![
                AgentMessage::InputSourceError { message: ErrorText::AgentOverloaded },
            ],
            BrowserMessage::StartRecording { .. } => r@ == seq![
                AgentMessage::RecordingError { message: ErrorText::AgentOverloaded },
            ],
            _ => r@ == Seq::<AgentMessage>::empty(),
        },
{
    let message = ErrorText::AgentOverloaded;
    match msg {
        BrowserMessage::SelectDevices { .. } => one(
            AgentMessage::Error { message, key: ErrorKey::General },
        ),
        BrowserMessage::GetStats => one(AgentMessage::Error { message, key: ErrorKey::General }),
        BrowserMessage::Stop => one(AgentMessage::Error { message, key: ErrorKey::General }),
        BrowserMessage::StartCapture { .. } => one(
            AgentMessage::Error { message, key: ErrorKey::Instrument },
        ),
        BrowserMessage::StartVoiceCapture { .. } => one(
            AgentMessage::Error { message, key: ErrorKey::Voice },
        ),
        BrowserMessage::AddStream { producer_id, .. } => one(
            AgentMessage::Error { message, key: ErrorKey::Producer(producer_id) },
        ),
        BrowserMessage::RemoveStream { producer_id } => one(
            AgentMessage::Error { message, key: ErrorKey::Producer(producer_id) },
        ),
        BrowserMessage::ListPlugins => empty_plugin_list(true),
        BrowserMessage::LoadInstrumentPlugin { .. } => one(
            AgentMessage::InstrumentPluginError { message },
        ),
        BrowserMessage::SetInputSource { .. } => one(AgentMessage::InputSourceError { message }),
        BrowserMessage::StartRecording { .. } => one(AgentMessage::RecordingError { message }),
        _ => no_messages(),
    }
}

/// A command to the mixer.
#[derive(Debug)]
pub enum MixerCommand {
    SetVolume { producer_id: String, volume: u32 },
    SetTargetMsAll { target_ms: u32 },
    SetSelfMonitorVolume { volume: u32 },
    SetMasterGain { volume: u32 },
    SetPan { producer_id: String, pan: u32 },
    SetDim { factor: u32 },
    SetReferenceConfig { config: ReferenceConfig },
    SetReferenceGrid { anchor_beat_frame: u64, anchor_beat_index: i64 },
    ReferenceStop,
    BackingBegin { total_frames: u64 },
    BackingPush { samples: Vec<i16> },
    BackingEnd,
    BackingUnload,
    BackingPlay { anchor_backing_frame: u64, anchor_output_frame: u64 },
    BackingPause,
    BackingSeek { anchor_backing_frame: u64, anchor_output_frame: u64 },
    BackingSync { anchor_backing_frame: u64, anchor_output_frame: u64 },
}

/// Work that follows on a message.
#[derive(Debug)]
pub enum Work {
    /// Open the output that playback moves to, then answer.
    MovePlayback { output_id: Option<String> },
    StartCapture { start: CaptureStart, action: StartAction, input_device: Option<String> },
    StartVoice { channel_index: u8 },
    AddStream { addition: StreamAddition, action: AddAction },
    /// Load, one at a time and outside the lock.
    LoadPlugin { plugin_ref: PluginRef },
    /// Unload, one at a time and outside the lock, then answer.
    UnloadPlugin,
    OpenEditor { handle: PluginHandle },
    CloseEditor { handle: PluginHandle },
    /// Find the name of the MIDI device that is in use now.
    NameMidiDevice { device_id: String },
    OpenMidiDevice { device_id: String },
    /// Play the event, unless the plugin is busy.
    PlayNote { handle: PluginHandle, event: MidiEvent },
    StartRecorder { stems: Vec<StemSpec> },
    /// Finalise the recording outside the lock, if there is one.
    FinishRecording { running: bool },
}

/// What is observed of the world for a message.
#[derive(Debug)]
pub struct Observed {
    /// The system's default input, wanted where none was chosen.
    pub default_input_id: Option<String>,
    pub underruns: u64,
    pub mean_target_ms: u32,
    pub anchor_frame: u64,
    pub anchor_mono_ms: u64,
    pub agent_mono_ms: u64,
    /// The MIDI device that the message names is the agent's own port.
    pub midi_is_virtual: bool,
    pub has_virtual_port: bool,
}

/// What handling a message gives: effects in order, a command to the mixer, work, and
/// answers that are sent once the work is done.
#[derive(Debug)]
pub struct Handled {
    pub effects: Vec<Effect>,
    pub mixer: Option<MixerCommand>,
    pub work: Option<Work>,
    pub replies: Vec<AgentMessage>,
}

impl Handled {
    /// Nothing but this command to the mixer.
    pub open spec fn is_command(self, c: MixerCommand) -> bool {
        &&& self.effects@.len() == 0
        &&& self.mixer == Some(c)
        &&& self.work is None
        &&& self.replies@.len() == 0
    }

    /// Nothing but these answers.
    pub open spec fn is_answer(self, replies: Seq<AgentMessage>) -> bool {
        &&& self.effects@.len() == 0
        &&& self.mixer is None
        &&& self.work is None
        &&& self.replies@ == replies
    }

    /// Nothing but these effects and this work.
    pub open spec fn is_work(self, effects: Seq<Effect>, work: Work) -> bool {
        &&& self.effects@ == effects
        &&& self.mixer is None
        &&& self.work == Some(work)
        &&& self.replies@.len() == 0
    }

    fn command(c: MixerCommand) -> (r: Handled)
        ensures
            r.is_command(c),
    {
        Handled { effects: Vec::new(), mixer: Some(c), work: None, replies: Vec::new() }
    }

    fn answer(replies: Vec<AgentMessage>) -> (r: Handled)
        ensures
            r.is_answer(replies@),
    {
        Handled { effects: Vec::new(), mixer: None, work: None, replies }
    }

    fn working(effects: Vec<Effect>, work: Work) -> (r: Handled)
        ensures
            r.is_work(effects@, work),
    {
        Handled { effects, mixer: None, work: Some(work), replies: Vec::new() }
    }
}

/// Size of a buffer: what the callbacks were seen to have, else what was agreed on.
pub open spec fn known_frames(measured: u32, agreed: Option<u32>) -> Option<u32> {
    if measured > 0 {
        Some(measured)
    } else {
        agreed
    }
}

/// The same, with ten milliseconds where nothing is known.
pub open spec fn estimated_frames(measured: u32, agreed: Option<u32>) -> int {
    match known_frames(measured, agreed) {
        Some(n) => n as int,
        None => 480,
    }
}

fn frames_known(measured: u32, agreed: Option<u32>) -> (r: Option<u32>)
    ensures
        r == known_frames(measured, agreed),
{
    if measured > 0 {
        Some(measured)
    } else {
        agreed
    }
}

fn frames_estimated(measured: u32, agreed: Option<u32>) -> (r: u32)
    ensures
        r == estimated_frames(measured, agreed),
{
    match frames_known(measured, agreed) {
        Some(n) => n,
        None => 480,
    }
}

/// Latency of the codec: one frame, in either direction.
pub const CODEC_SAMPLES: u64 = 120;

/// Do the figures describe the pipeline?
pub open spec fn describes(s: Stats, pl: PipelineState, obs: Observed) -> bool {
    let d = pl.driver;
    let capturing = pl.state == AgentState::Capturing;
    let input = estimated_frames(d.input_frames, d.input_buffer_samples);
    let output = estimated_frames(d.output_frames, d.output_buffer_samples);
    let id = match pl.input_device_id {
        Some(id) => Some(id),
        None => obs.default_input_id,
    };
    &&& match id {
        Some(id) => s.device matches Some(name) && name@ == crate::audio_open::device_name_chars(
            id@,
        ),
        None => s.device is None,
    }
    &&& s.capture_latency == if capturing {
        input + CODEC_SAMPLES
    } else {
        0
    }
    &&& s.playback_latency == if capturing {
        output
    } else {
        0
    }
    &&& s.buffer == if capturing {
        input
    } else {
        0
    }
    &&& s.input_buffer == known_frames(d.input_frames, d.input_buffer_samples)
    &&& s.output_buffer == known_frames(d.output_frames, d.output_buffer_samples)
    &&& s.jitter_target_ms == obs.mean_target_ms
    &&& if capturing {
        s.fixed_latency matches Some(n) && n == input + 2 * CODEC_SAMPLES + output
    } else {
        s.fixed_latency is None
    }
    &&& s.streams == pl.reception.streams@.len()
    &&& s.underruns == obs.underruns
}

/// The figures of the moment.
pub fn stats(pl: &PipelineState, obs: Observed) -> (r: Stats)
    ensures
        describes(r, *pl, obs),
{
    let capturing = pl.state == AgentState::Capturing;
    let d = &pl.driver;
    let input: u64 = frames_estimated(d.input_frames, d.input_buffer_samples) as u64;
    let output: u64 = frames_estimated(d.output_frames, d.output_buffer_samples) as u64;
    let device = match pl.selected_input_id(obs.default_input_id) {
        Some(id) => Some(device_name(id.as_str())),
        None => None,
    };
    Stats {
        device,
        capture_latency: if capturing {
            input + CODEC_SAMPLES
        } else {
            0
        },
        playback_latency: if capturing {
            output
        } else {
            0
        },
        buffer: if capturing {
            input
        } else {
            0
        },
        input_buffer: frames_known(d.input_frames, d.input_buffer_samples),
        output_buffer: frames_known(d.output_frames, d.output_buffer_samples),
        jitter_target_ms: obs.mean_target_ms,
        fixed_latency: if capturing {
            Some(input + 2 * CODEC_SAMPLES + output)
        } else {
            None
        },
        streams: pl.reception.streams.len(),
        underruns: obs.underruns,
    }
}

/// What the name of a source and an id stand for.
#[derive(Debug)]
pub enum NamedSource {
    Source(InputSource),
    Unclear(ErrorText),
}

/// Reads the source that a message names.
pub fn named_source(source: String, midi_device_id: Option<String>) -> (r: NamedSource)
    ensures
        r == if source@ == "audio"@ {
            NamedSource::Source(InputSource::Audio)
        } else if source@ == "midi"@ {
            match midi_device_id {
                Some(id) => NamedSource::Source(InputSource::Midi(id)),
                None => NamedSource::Unclear(ErrorText::MidiDeviceRequired),
            }
        } else {
            NamedSource::Unclear((ErrorText::UnknownSource { source }))
        },
{
    proof {
        reveal_strlit("audio");
        reveal_strlit("midi");
        assert("audio"@.len() != "midi"@.len());
    }
    if text::same(source.as_str(), "audio") {
        NamedSource::Source(InputSource::Audio)
    } else if text::same(source.as_str(), "midi") {
        match midi_device_id {
            Some(id) => NamedSource::Source(InputSource::Midi(id)),
            None => NamedSource::Unclear(ErrorText::MidiDeviceRequired),
        }
    } else {
        NamedSource::Unclear(ErrorText::UnknownSource { source })
    }
}

/// What the agent is, for the handling of messages.
#[derive(Debug)]
pub struct Context {
    pub platform: Platform,
    pub host: HostKind,
    pub identity: AgentIdentity,
}

/// The command that a message is to the mixer, where it is nothing else.
pub open spec fn command_of(msg: BrowserMessage) -> Option<MixerCommand> {
    match msg {
        BrowserMessage::SetVolume { producer_id, volume } => Some(
            MixerCommand::SetVolume { producer_id, volume },
        ),
        BrowserMessage::SetBuffer { target_ms } => Some(MixerCommand::SetTargetMsAll { target_ms }),
        BrowserMessage::SetSelfMonitorVolume { volume } => Some(
            MixerCommand::SetSelfMonitorVolume { volume: float_bits::volume(volume) },
        ),
        BrowserMessage::SetMasterVolume { volume } => Some(MixerCommand::SetMasterGain { volume }),
        BrowserMessage::SetPan { producer_id, pan } => Some(
            MixerCommand::SetPan { producer_id, pan },
        ),
        BrowserMessage::SetDim { factor } => Some(MixerCommand::SetDim { factor }),
        BrowserMessage::ReferenceConfig { config } => Some(
            MixerCommand::SetReferenceConfig { config },
        ),
        BrowserMessage::ReferenceGrid { anchor_beat_frame, anchor_beat_index } => Some(
            MixerCommand::SetReferenceGrid { anchor_beat_frame, anchor_beat_index },
        ),
        BrowserMessage::ReferenceStop => Some(MixerCommand::ReferenceStop),
        BrowserMessage::ReferenceBackingBegin { total_frames } => Some(
            MixerCommand::BackingBegin { total_frames },
        ),
        BrowserMessage::ReferenceBackingEnd => Some(MixerCommand::BackingEnd),
        BrowserMessage::ReferenceBackingUnload => Some(MixerCommand::BackingUnload),
        BrowserMessage::ReferenceBackingPlay { anchor_backing_frame, anchor_output_frame } => Some(
            MixerCommand::BackingPlay { anchor_backing_frame, anchor_output_frame },
        ),
        BrowserMessage::ReferenceBackingPause => Some(MixerCommand::BackingPause),
        BrowserMessage::ReferenceBackingSeek { anchor_backing_frame, anchor_output_frame } => Some(
            MixerCommand::BackingSeek { anchor_backing_frame, anchor_output_frame },
        ),
        BrowserMessage::ReferenceBackingSync { anchor_backing_frame, anchor_output_frame } => Some(
            MixerCommand::BackingSync { anchor_backing_frame, anchor_output_frame },
        ),
        _ => None,
    }
}

/// `post` and `r` are what a message on devices and streams makes of `pre`.
pub open spec fn session_handled(
    pre: PipelineState,
    msg: BrowserMessage,
    ctx: Context,
    now: Instant,
    post: PipelineState,
    r: Handled,
) -> bool {
    match msg {
        BrowserMessage::SelectDevices { input_id, output_id } => {
            let moves = crate::option_text::chars_of(pre.output_device_id)
                != crate::option_text::chars_of(output_id) && pre.driver.playback_open;
            &&& post == (PipelineState {
                input_device_id: input_id,
                output_device_id: output_id,
                driver: AudioDriver {
                    playback_open: pre.driver.playback_open && !moves,
                    ..pre.driver
                },
                ..pre
            })
            &&& r.effects@ == if moves {
                seq![Effect::ClosePlayback]
            } else {
                Seq::<Effect>::empty()
            }
            &&& r.work == if moves {
                Some(Work::MovePlayback { output_id })
            } else {
                None
            }
            &&& r.mixer is None
            &&& r.replies@ == seq![status_of(AgentState::Idle, ctx.identity)]
        },
        BrowserMessage::StartCapture {
            input_device,
            channel_index,
            stereo_start,
            session_continues,
            ..
        } => {
            let chosen = match input_device {
                Some(_) => PipelineState { input_device_id: input_device, ..pre },
                None => pre,
            };
            let choice = CaptureChoice { channel_index, stereo_start, session_continues };
            &&& r.work matches Some(Work::StartCapture { start, action, input_device: d })
            &&& d == input_device
            &&& crate::capture_start::begun(
                chosen,
                ctx.host,
                choice,
                post,
                start,
                r.effects@,
                action,
            )
            &&& r.mixer is None
            &&& r.replies@.len() == 0
        },
        BrowserMessage::StartVoiceCapture { channel_index, .. } => {
            &&& post == pre
            &&& if !pre.session.voice_tap {
                r.is_answer(
                    seq![
                        AgentMessage::Error {
                            message: ErrorText::NoActiveCapture,
                            key: ErrorKey::Voice,
                        },
                    ],
                )
            } else if channel_index >= pre.session.capture_channels_in {
                r.is_answer(
                    seq![
                        AgentMessage::Error {
                            message: ErrorText::VoiceChannelOutOfRange {
                                channel: channel_index,
                                channels: pre.session.capture_channels_in,
                            },
                            key: ErrorKey::Voice,
                        },
                    ],
                )
            } else {
                r.is_work(
                    if pre.session.voice_active {
                        seq![Effect::RemoveVoiceTap]
                    } else {
                        Seq::<Effect>::empty()
                    },
                    Work::StartVoice { channel_index },
                )
            }
        },
        BrowserMessage::StopVoiceCapture => {
            &&& post == (PipelineState {
                session: Session { voice_active: false, ..pre.session },
                ..pre
            })
            &&& r.effects@ == if pre.session.voice_active && pre.session.voice_tap {
                seq![Effect::RemoveVoiceTap]
            } else {
                Seq::<Effect>::empty()
            }
            &&& r.mixer is None && r.work is None && r.replies@.len() == 0
        },
        BrowserMessage::AddStream { producer_id, .. } => {
            &&& r.work matches Some(Work::AddStream { addition, action })
            &&& addition.fits(post)
            &&& crate::capture_start::addition_begun(
                pre,
                producer_id,
                post,
                addition,
                r.effects@,
                action,
            )
            &&& r.mixer is None
            &&& r.replies@.len() == 0
        },
        BrowserMessage::RemoveStream { producer_id } => {
            &&& crate::pipeline::only_reception(pre, post)
            &&& post.reception.streams@ == crate::pipeline::without_stream(
                pre.reception.streams@,
                producer_id@,
            )
            &&& post.reception.decode_running == pre.reception.decode_running
            &&& post.reception.epoch == pre.reception.epoch
            &&& r.effects@ == crate::pipeline::removal_effects(
                pre.reception.streams@,
                producer_id@,
            )
            &&& r.mixer is None && r.work is None && r.replies@.len() == 0
        },
        BrowserMessage::Stop => {
            &&& crate::pipeline::left(ctx.host, pre, now, post, r.effects@)
            &&& r.mixer is None
            &&& r.work is None
            &&& r.replies@ == seq![status_of(AgentState::Idle, ctx.identity)]
        },
        _ => true,
    }
}

/// `post` and `r` are what a message on the instrument makes of `pre`.
pub open spec fn instrument_handled(
    pre: PipelineState,
    msg: BrowserMessage,
    ctx: Context,
    obs: Observed,
    post: PipelineState,
    r: Handled,
) -> bool {
    match msg {
        BrowserMessage::SetVoiceGain { gain } => {
            &&& post == (PipelineState {
                session: Session { voice_gain: float_bits::unit_clamped(gain), ..pre.session },
                ..pre
            })
            &&& r.is_answer(Seq::empty())
        },
        BrowserMessage::SetInputCut { cut } => {
            &&& post == (PipelineState {
                session: Session { input_cut: cut, ..pre.session },
                ..pre
            })
            &&& r.is_answer(Seq::empty())
        },
        BrowserMessage::ListPlugins => {
            &&& post == pre
            &&& r.is_answer(r.replies@)
            &&& r.replies@.len() == 1
            &&& r.replies@[0] matches AgentMessage::PluginList { items, blocked, scanning }
            &&& match pre.plugin.plugin_scan_cache {
                crate::plugin_control::PluginScanCache::Scanning => items@.len() == 0
                    && blocked@.len() == 0 && scanning,
                crate::plugin_control::PluginScanCache::Ready(s) => items@ == s.plugins@
                    && blocked@ == s.blocked@ && !scanning,
            }
        },
        BrowserMessage::LoadInstrumentPlugin { plugin_ref } => post == pre && r.is_work(
            Seq::empty(),
            Work::LoadPlugin { plugin_ref },
        ),
        BrowserMessage::UnloadInstrumentPlugin => {
            &&& post == pre
            &&& r.effects@.len() == 0
            &&& r.mixer is None
            &&& r.work == Some(Work::UnloadPlugin)
            &&& r.replies@ == seq![AgentMessage::InstrumentPluginUnloaded]
        },
        BrowserMessage::SetInstrumentPluginBypass { bypass } => {
            &&& post == (PipelineState {
                plugin: crate::plugin_control::PluginControl {
                    instrument_plugin_bypass: bypass,
                    plugin_auto_bypass_active: false,
                    ..pre.plugin
                },
                ..pre
            })
            &&& r.is_answer(Seq::empty())
        },
        BrowserMessage::OpenInstrumentPluginEditor => post == pre
            && match pre.plugin.instrument_plugin_handle {
            Some(handle) => r.is_work(Seq::empty(), Work::OpenEditor { handle }),
            None => r.is_answer(
                seq![
                    AgentMessage::InstrumentPluginError { message: ErrorText::NoPluginLoaded },
                ],
            ),
        },
        BrowserMessage::CloseInstrumentPluginEditor => post == pre
            && match pre.plugin.instrument_plugin_handle {
            Some(handle) => r.is_work(Seq::empty(), Work::CloseEditor { handle }),
            None => r.is_answer(Seq::empty()),
        },
        BrowserMessage::SetInputSource { source, midi_device_id } => source_handled(
            pre,
            source,
            midi_device_id,
            ctx.platform,
            obs,
            post,
            r,
        ),
        BrowserMessage::PlayMidiNote { status, data1, data2 } => {
            &&& post == pre
            &&& match pre.plugin.instrument_plugin_handle {
                Some(handle) => {
                    &&& r.work matches Some(Work::PlayNote { handle: h, event })
                    &&& h == handle
                    &&& event.frame_offset == 0
                    &&& event.data@ == seq![status, data1, data2]
                    &&& r.effects@.len() == 0 && r.mixer is None && r.replies@.len() == 0
                },
                None => r.is_answer(Seq::empty()),
            }
        },
        _ => true,
    }
}

/// `post` and `r` are what naming another source makes of `pre`. An agent's own port is
/// the source at once; a device is opened first.
pub open spec fn source_handled(
    pre: PipelineState,
    source: String,
    midi_device_id: Option<String>,
    platform: Platform,
    obs: Observed,
    post: PipelineState,
    r: Handled,
) -> bool {
    let closing = if pre.midi_route == crate::pipeline::MidiRoute::Device {
        seq![Effect::CloseMidiInput]
    } else {
        Seq::<Effect>::empty()
    };
    if source@ == "audio"@ {
        &&& post == (PipelineState {
            midi_route: crate::pipeline::MidiRoute::Nowhere,
            input_source: InputSource::Audio,
            ..pre
        })
        &&& r.effects@ == closing
        &&& r.mixer is None
        &&& r.work is None
        &&& r.replies@ == seq![crate::messages::source_changed(InputSource::Audio, None)]
    } else if source@ != "midi"@ {
        post == pre && r.is_answer(
            seq![
                AgentMessage::InputSourceError { message: ErrorText::UnknownSource { source } },
            ],
        )
    } else {
        match midi_device_id {
            None => post == pre && r.is_answer(
                seq![AgentMessage::InputSourceError { message: ErrorText::MidiDeviceRequired }],
            ),
            Some(device_id) => if obs.midi_is_virtual && platform == Platform::MacOs
                && !obs.has_virtual_port {
                post == pre && r.is_answer(
                    seq![
                        AgentMessage::InputSourceError {
                            message: ErrorText::VirtualMidiUnavailable,
                        },
                    ],
                )
            } else if obs.midi_is_virtual && platform != Platform::Other {
                &&& post == (PipelineState {
                    midi_route: if platform == Platform::MacOs {
                        crate::pipeline::MidiRoute::VirtualPort
                    } else {
                        crate::pipeline::MidiRoute::Nowhere
                    },
                    input_source: InputSource::Midi(device_id),
                    ..pre
                })
                &&& r.is_work(closing, Work::NameMidiDevice { device_id })
            } else {
                post == pre && r.is_work(Seq::empty(), Work::OpenMidiDevice { device_id })
            },
        }
    }
}

/// `post` and `r` are what a message that only asks, or records, makes of `pre`.
pub open spec fn report_handled(
    pre: PipelineState,
    msg: BrowserMessage,
    ctx: Context,
    obs: Observed,
    post: PipelineState,
    r: Handled,
) -> bool {
    match msg {
        BrowserMessage::GetStats => {
            &&& post == pre
            &&& r.is_answer(r.replies@)
            &&& r.replies@.len() == 2
            &&& r.replies@[0] == status_of(pre.state, ctx.identity)
            &&& r.replies@[1] matches AgentMessage::Stats(s)
            &&& describes(s, pre, obs)
        },
        BrowserMessage::ReferenceClockPing { ping_id, client_send_ms } => {
            &&& post == pre
            &&& r.is_answer(
                seq![
                    AgentMessage::ReferenceClockPong {
                        ping_id,
                        client_send_ms,
                        agent_mono_ms: obs.agent_mono_ms,
                        anchor_frame: obs.anchor_frame,
                        anchor_mono_ms: obs.anchor_mono_ms,
                        out_samples: estimated_frames(
                            pre.driver.output_frames,
                            pre.driver.output_buffer_samples,
                        ) as u32,
                        sample_rate: 48_000,
                    },
                ],
            )
        },
        BrowserMessage::ReferenceBackingChunk { data_b64 } => {
            &&& post == pre
            &&& match media_text::base64_decoded(data_b64@) {
                Some(bytes) => {
                    &&& r.mixer matches Some(MixerCommand::BackingPush { samples })
                    &&& media_text::values(samples@) == media_text::samples_of(bytes)
                    &&& r.effects@.len() == 0 && r.work is None && r.replies@.len() == 0
                },
                None => r.is_answer(Seq::empty()),
            }
        },
        BrowserMessage::StartRecording { stems } => {
            &&& post == pre
            &&& if pre.recording {
                r.is_answer(
                    seq![
                        AgentMessage::RecordingError { message: ErrorText::RecordingInProgress },
                    ],
                )
            } else {
                r.is_work(Seq::empty(), Work::StartRecorder { stems })
            }
        },
        BrowserMessage::StopRecording => {
            &&& post == (PipelineState { recording: false, ..pre })
            &&& r.is_work(
                seq![Effect::DetachRecorder],
                Work::FinishRecording { running: pre.recording },
            )
        },
        _ => true,
    }
}

fn handle_source(
    pl: &mut PipelineState,
    source: String,
    midi_device_id: Option<String>,
    platform: Platform,
    obs: &Observed,
) -> (r: Handled)
    ensures
        source_handled(*old(pl), source, midi_device_id, platform, *obs, *final(pl), r),
        old(pl).wf() ==> final(pl).wf(),
{
    let wanted = match named_source(source, midi_device_id) {
        NamedSource::Unclear(message) => {
            proof {
                reveal_strlit("audio");
                reveal_strlit("midi");
                assert("audio"@.len() != "midi"@.len());
            }
            return Handled::answer(one(AgentMessage::InputSourceError { message }));
        },
        NamedSource::Source(s) => s,
    };
    proof {
        reveal_strlit("audio");
        reveal_strlit("midi");
        assert("audio"@.len() != "midi"@.len());
    }
    let kept = wanted.duplicate();
    let (step, effects) = pl.set_input_source(
        platform,
        wanted,
        obs.midi_is_virtual,
        obs.has_virtual_port,
    );
    assert(effects@.len() == 0 ==> effects@ =~= Seq::<Effect>::empty());
    match step {
        SourceStep::NoVirtualPort => Handled::answer(
            one(AgentMessage::InputSourceError { message: ErrorText::VirtualMidiUnavailable }),
        ),
        SourceStep::OpenDevice { device_id } => Handled::working(
            effects,
            Work::OpenMidiDevice { device_id },
        ),
        SourceStep::Changed => match kept {
            InputSource::Audio => Handled {
                effects,
                mixer: None,
                work: None,
                replies: one(source_message(InputSource::Audio, None)),
            },
            InputSource::Midi(device_id) => Handled::working(
                effects,
                Work::NameMidiDevice { device_id },
            ),
        },
    }
}

/// Handles a message under the lock.
#[verifier::rlimit(60)]
pub fn handle_message(
    pl: &mut PipelineState,
    msg: BrowserMessage,
    ctx: &Context,
    obs: Observed,
    now: Instant,
) -> (r: Handled)
    requires
        old(pl).wf(),
        is_locked(msg, ctx.platform, true),
    ensures
        final(pl).wf(),
        command_of(msg) matches Some(c) ==> *final(pl) == *old(pl) && r.is_command(c),
        session_handled(*old(pl), msg, *ctx, now, *final(pl), r),
        instrument_handled(*old(pl), msg, *ctx, obs, *final(pl), r),
        report_handled(*old(pl), msg, *ctx, obs, *final(pl), r),
        msg matches BrowserMessage::SetVolume { producer_id, volume } ==> r.mixer == Some(
            (MixerCommand::SetVolume { producer_id, volume }),
        ),
        msg matches BrowserMessage::SetPan { producer_id, pan } ==> r.mixer == Some(
            (MixerCommand::SetPan { producer_id, pan }),
        ),
        msg matches BrowserMessage::SetMasterVolume { volume } ==> r.mixer == Some(
            (MixerCommand::SetMasterGain { volume }),
        ),
        msg matches BrowserMessage::SetDim { factor } ==> r.mixer == Some(
            (MixerCommand::SetDim { factor }),
        ),
        msg matches BrowserMessage::SetBuffer { target_ms } ==> r.mixer == Some(
            (MixerCommand::SetTargetMsAll { target_ms }),
        ),
{
    match msg {
        BrowserMessage::SelectDevices { input_id, output_id } => {
            let asked = output_id.clone();
            let (moves, effects) = pl.select_devices(input_id, output_id);
            Handled {
                effects,
                mixer: None,
                work: if moves {
                    Some(Work::MovePlayback { output_id: asked })
                } else {
                    None
                },
                replies: one(make_status(AgentState::Idle, &ctx.identity)),
            }
        },
        BrowserMessage::StartCapture {
            input_device,
            channel_index,
            stereo_start,
            session_continues,
            ..
        } => {
            if input_device.is_some() {
                pl.set_input_device(input_device.clone());
            }
            let choice = CaptureChoice { channel_index, stereo_start, session_continues };
            let (start, effects, action) = CaptureStart::begin(pl, ctx.host, choice);
            Handled::working(effects, Work::StartCapture { start, action, input_device })
        },
        BrowserMessage::StartVoiceCapture { channel_index, .. } => {
            match pl.start_voice_capture(channel_index) {
                Ok(effects) => Handled::working(effects, Work::StartVoice { channel_index }),
                Err(refusal) => Handled::answer(
                    one(
                        AgentMessage::Error {
                            message: voice_refusal(refusal),
                            key: ErrorKey::Voice,
                        },
                    ),
                ),
            }
        },
        BrowserMessage::StopVoiceCapture => {
            let effects = pl.stop_voice_capture();
            Handled { effects, mixer: None, work: None, replies: Vec::new() }
        },
        BrowserMessage::SetVoiceGain { gain } => {
            pl.set_voice_gain(gain);
            Handled::answer(no_messages())
        },
        BrowserMessage::AddStream { producer_id, .. } => {
            let (addition, effects, action) = StreamAddition::begin(pl, producer_id);
            Handled::working(effects, Work::AddStream { addition, action })
        },
        BrowserMessage::RemoveStream { producer_id } => {
            let mut effects: Vec<Effect> = Vec::new();
            pl.remove_stream(producer_id.as_str(), &mut effects);
            assert(effects@ =~= crate::pipeline::removal_effects(
                old(pl).reception.streams@,
                producer_id@,
            ));
            Handled { effects, mixer: None, work: None, replies: Vec::new() }
        },
        BrowserMessage::SetVolume { producer_id, volume } => Handled::command(
            MixerCommand::SetVolume { producer_id, volume },
        ),
        BrowserMessage::SetBuffer { target_ms } => Handled::command(
            MixerCommand::SetTargetMsAll { target_ms },
        ),
        BrowserMessage::SetSelfMonitorVolume { volume } => Handled::command(
            MixerCommand::SetSelfMonitorVolume { volume: float_bits::sanitize_volume(volume) },
        ),
        BrowserMessage::GetStats => {
            let mut replies = one(make_status(pl.state, &ctx.identity));
            replies.push(AgentMessage::Stats(stats(pl, obs)));
            Handled::answer(replies)
        },
        BrowserMessage::Stop => {
            let effects = pl.leave_session(ctx.host, now);
            Handled {
                effects,
                mixer: None,
                work: None,
                replies: one(make_status(AgentState::Idle, &ctx.identity)),
            }
        },
        BrowserMessage::SetInputCut { cut } => {
            pl.set_input_cut(cut);
            Handled::answer(no_messages())
        },
        BrowserMessage::SetMasterVolume { volume } => Handled::command(
            MixerCommand::SetMasterGain { volume },
        ),
        BrowserMessage::SetPan { producer_id, pan } => Handled::command(
            MixerCommand::SetPan { producer_id, pan },
        ),
        BrowserMessage::SetDim { factor } => Handled::command(MixerCommand::SetDim { factor }),
        BrowserMessage::ReferenceClockPing { ping_id, client_send_ms } => {
            let out_samples: u32 = frames_estimated(
                pl.driver.output_frames,
                pl.driver.output_buffer_samples,
            );
            Handled::answer(
                one(
                    AgentMessage::ReferenceClockPong {
                        ping_id,
                        client_send_ms,
                        agent_mono_ms: obs.agent_mono_ms,
                        anchor_frame: obs.anchor_frame,
                        anchor_mono_ms: obs.anchor_mono_ms,
                        out_samples,
                        sample_rate: 48_000,
                    },
                ),
            )
        },
        BrowserMessage::ReferenceConfig { config } => Handled::command(
            MixerCommand::SetReferenceConfig { config },
        ),
        BrowserMessage::ReferenceGrid { anchor_beat_frame, anchor_beat_index } => Handled::command(
            MixerCommand::SetReferenceGrid { anchor_beat_frame, anchor_beat_index },
        ),
        BrowserMessage::ReferenceStop => Handled::command(MixerCommand::ReferenceStop),
        BrowserMessage::ReferenceBackingBegin { total_frames } => Handled::command(
            MixerCommand::BackingBegin { total_frames },
        ),
        BrowserMessage::ReferenceBackingChunk { data_b64 } => {
            match media_text::decode_chunk(data_b64.as_str()) {
                Ok(samples) => Handled::command(MixerCommand::BackingPush { samples }),
                Err(InvalidChunk) => Handled::answer(no_messages()),
            }
        },
        BrowserMessage::ReferenceBackingEnd => Handled::command(MixerCommand::BackingEnd),
        BrowserMessage::ReferenceBackingUnload => Handled::command(MixerCommand::BackingUnload),
        BrowserMessage::ReferenceBackingPlay {
            anchor_backing_frame,
            anchor_output_frame,
        } => Handled::command(
            MixerCommand::BackingPlay { anchor_backing_frame, anchor_output_frame },
        ),
        BrowserMessage::ReferenceBackingPause => Handled::command(MixerCommand::BackingPause),
        BrowserMessage::ReferenceBackingSeek {
            anchor_backing_frame,
            anchor_output_frame,
        } => Handled::command(
            MixerCommand::BackingSeek { anchor_backing_frame, anchor_output_frame },
        ),
        BrowserMessage::ReferenceBackingSync {
            anchor_backing_frame,
            anchor_output_frame,
        } => Handled::command(
            MixerCommand::BackingSync { anchor_backing_frame, anchor_output_frame },
        ),
        BrowserMessage::ListPlugins => {
            let (items, blocked, scanning) = pl.plugin.list_instrument_plugins();
            Handled::answer(one(AgentMessage::PluginList { items, blocked, scanning }))
        },
        BrowserMessage::LoadInstrumentPlugin { plugin_ref } => Handled::working(
            Vec::new(),
            Work::LoadPlugin { plugin_ref },
        ),
        BrowserMessage::UnloadInstrumentPlugin => Handled {
            effects: Vec::new(),
            mixer: None,
            work: Some(Work::UnloadPlugin),
            replies: one(AgentMessage::InstrumentPluginUnloaded),
        },
        BrowserMessage::SetInstrumentPluginBypass { bypass } => {
            pl.plugin.set_instrument_plugin_bypass(bypass);
            Handled::answer(no_messages())
        },
        BrowserMessage::OpenInstrumentPluginEditor => match pl.plugin.instrument_plugin_handle {
            Some(handle) => Handled::working(Vec::new(), Work::OpenEditor { handle }),
            None => Handled::answer(
                one(AgentMessage::InstrumentPluginError { message: ErrorText::NoPluginLoaded }),
            ),
        },
        BrowserMessage::CloseInstrumentPluginEditor => match pl.plugin.instrument_plugin_handle {
            Some(handle) => Handled::working(Vec::new(), Work::CloseEditor { handle }),
            None => Handled::answer(no_messages()),
        },
        BrowserMessage::SetInputSource { source, midi_device_id } => handle_source(
            pl,
            source,
            midi_device_id,
            ctx.platform,
            &obs,
        ),
        BrowserMessage::PlayMidiNote { status, data1, data2 } => {
            match pl.plugin.instrument_plugin_handle {
                Some(handle) => {
                    let event = MidiEvent { frame_offset: 0, data: [status, data1, data2] };
                    assert(event.data@ =~= seq![status, data1, data2]);
                    Handled::working(Vec::new(), Work::PlayNote { handle, event })
                },
                None => Handled::answer(no_messages()),
            }
        },
        BrowserMessage::StartRecording { stems } => {
            if pl.can_record() {
                Handled::working(Vec::new(), Work::StartRecorder { stems })
            } else {
                Handled::answer(
                    one(AgentMessage::RecordingError { message: ErrorText::RecordingInProgress }),
                )
            }
        },
        BrowserMessage::StopRecording => {
            let (running, effects) = pl.take_recorder();
            Handled::working(effects, Work::FinishRecording { running })
        },
        _ => Handled::answer(no_messages()),
    }
}

/// The answer to a request for the devices.
pub fn devices_reply(inputs: Vec<AudioDevice>, outputs: Vec<AudioDevice>, host: HostKind) -> (r: Vec<
    AgentMessage,
>)
    ensures
        r@ == seq![AgentMessage::Devices { inputs, outputs, audio_host: Some(host) }],
{
    one(AgentMessage::Devices { inputs, outputs, audio_host: Some(host) })
}

/// The answer to a request for the MIDI devices.
pub fn midi_devices_reply(devices: Vec<MidiDevice>) -> (r: Vec<AgentMessage>)
    ensures
        r@ == seq![AgentMessage::MidiDeviceList { devices }],
{
    one(AgentMessage::MidiDeviceList { devices })
}

/// Log files that were collected.
#[derive(Debug)]
pub struct CollectedLogs {
    pub content: String,
    pub files: Vec<String>,
    pub truncated: bool,
    pub log_dir: String,
}

/// The answer to a request for the logs. `Err` tells how the task that collects them failed.
pub fn logs_reply(collected: Result<CollectedLogs, String>) -> (r: AgentMessage)
    ensures
        r == match collected {
            Ok(c) => AgentMessage::LogsArchive {
                content: c.content,
                files: c.files,
                truncated: c.truncated,
                log_dir: c.log_dir,
            },
            Err(detail) => AgentMessage::Error {
                message: ErrorText::Failed { task: Task::LogsArchive, detail },
                key: ErrorKey::General,
            },
        },
{
    match collected {
        Ok(c) => {
            let CollectedLogs { content, files, truncated, log_dir } = c;
            AgentMessage::LogsArchive { content, files, truncated, log_dir }
        },
        Err(detail) => AgentMessage::Error {
            message: ErrorText::Failed { task: Task::LogsArchive, detail },
            key: ErrorKey::General,
        },
    }
}

/// What became of loading a plugin.
#[derive(Debug)]
pub enum LoadOutcome {
    Loaded(LoadedPlugin),
    Refused(LoadError),
    /// The task broke off.
    TaskFailed(String),
}

/// The answer to a request to load a plugin. A plugin that was just loaded is not bypassed.
pub fn load_reply(plugin_ref: PluginRef, outcome: LoadOutcome) -> (r: Vec<AgentMessage>)
    ensures
        r@.len() == 1,
        match outcome {
            LoadOutcome::Loaded(p) => r@[0] == (AgentMessage::InstrumentPluginLoaded {
                name: p.name,
                plugin_ref,
                latency_samples: p.latency_samples,
                has_editor: p.has_editor,
                bypass: false,
            }),
            LoadOutcome::Refused(e) => {
                &&& r@[0] matches AgentMessage::InstrumentPluginError { message }
                &&& message.text_chars() == e.text_chars()
            },
            LoadOutcome::TaskFailed(detail) => r@[0] == (AgentMessage::InstrumentPluginError {
                message: ErrorText::Failed { task: Task::LoadPlugin, detail },
            }),
        },
{
    match outcome {
        LoadOutcome::Loaded(p) => {
            let LoadedPlugin { name, latency_samples, has_editor } = p;
            one(
                AgentMessage::InstrumentPluginLoaded {
                    name,
                    plugin_ref,
                    latency_samples,
                    has_editor,
                    bypass: false,
                },
            )
        },
        LoadOutcome::Refused(e) => one(
            AgentMessage::InstrumentPluginError { message: ErrorText::Verbatim(e.to_text()) },
        ),
        LoadOutcome::TaskFailed(detail) => one(
            AgentMessage::InstrumentPluginError {
                message: ErrorText::Failed { task: Task::LoadPlugin, detail },
            },
        ),
    }
}

/// The answer to a request to open the editor: nothing, unless it failed.
pub fn editor_reply(opened: Result<(), String>) -> (r: Vec<AgentMessage>)
    ensures
        r@ == match opened {
            Ok(()) => Seq::<AgentMessage>::empty(),
            Err(e) => seq![
                AgentMessage::InstrumentPluginError { message: ErrorText::Verbatim(e) },
            ],
        },
{
    match opened {
        Ok(()) => no_messages(),
        Err(e) => one(AgentMessage::InstrumentPluginError { message: ErrorText::Verbatim(e) }),
    }
}

impl Keyed for MidiDevice {
    open spec fn key(&self) -> Seq<char> {
        self.id@
    }

    fn key_text(&self) -> (r: &str) {
        self.id.as_str()
    }
}

/// The name of a MIDI device, where it is still there.
pub fn midi_name(devices: &Vec<MidiDevice>, id: &str) -> (r: Option<String>)
    ensures
        ({
            let i = index_of(devices@, id@);
            r == if i < devices@.len() {
                Some(devices@[i].name)
            } else {
                None
            }
        }),
        r matches Some(name) ==> exists|i: int|
            0 <= i < devices@.len() && (#[trigger] devices@[i]).id@ == id@ && devices@[i].name
                == name,
        r is None ==> forall|i: int| 0 <= i < devices@.len() ==> (#[trigger] devices@[i]).id@ != id@,
{
    proof {
        crate::keyed::lemma_index(devices@, id@);
        let i = index_of(devices@, id@);
        if i < devices@.len() {
            assert(devices@[i].key() == id@);
            assert(devices@[i].id@ == id@);
        }
        assert forall|k: int| 0 <= k < i && k < devices@.len() implies (
        #[trigger] devices@[k]).id@ != id@ by {
            assert(devices@[k].key() != id@);
        }
    }
    let i: usize = find(devices, id);
    if i < devices.len() {
        Some(devices[i].name.clone())
    } else {
        None
    }
}

/// The answer once a MIDI device was opened, or was not. One that fails leaves the source
/// as it was.
pub fn midi_opened(
    pl: &mut PipelineState,
    device_id: String,
    opened: Result<Option<String>, String>,
) -> (r: Vec<AgentMessage>)
    ensures
        match opened {
            Ok(name) => {
                &&& *final(pl) == (PipelineState {
                    midi_route: crate::pipeline::MidiRoute::Device,
                    input_source: InputSource::Midi(device_id),
                    ..*old(pl)
                })
                &&& r@ == seq![
                    crate::messages::source_changed(InputSource::Midi(device_id), name),
                ]
            },
            Err(e) => {
                &&& *final(pl) == *old(pl)
                &&& r@ == seq![
                    AgentMessage::InputSourceError { message: ErrorText::Verbatim(e) },
                ]
            },
        },
{
    match opened {
        Ok(name) => {
            pl.midi_device_opened(device_id.clone());
            one(source_message(InputSource::Midi(device_id), name))
        },
        Err(e) => one(AgentMessage::InputSourceError { message: ErrorText::Verbatim(e) }),
    }
}

/// The answer once the recorder was started, or was not.
pub fn recorder_started(
    pl: &mut PipelineState,
    started: Result<Vec<StemSpec>, String>,
) -> (r: (Vec<Effect>, Vec<AgentMessage>))
    ensures
        match started {
            Ok(stems) => if old(pl).recording {
                &&& *final(pl) == *old(pl)
                &&& r.0@.len() == 0
                &&& r.1@ == seq![
                    AgentMessage::RecordingError { message: ErrorText::RecordingInProgress },
                ]
            } else {
                &&& *final(pl) == (PipelineState { recording: true, ..*old(pl) })
                &&& r.0@ == seq![Effect::AttachRecorder]
                &&& r.1@ == seq![AgentMessage::RecordingStarted { stems }]
            },
            Err(e) => {
                &&& *final(pl) == *old(pl)
                &&& r.0@.len() == 0
                &&& r.1@ == seq![
                    AgentMessage::RecordingError { message: ErrorText::Verbatim(e) },
                ]
            },
        },
{
    match started {
        Ok(stems) => match pl.start_recording() {
            Ok(effects) => (effects, one(AgentMessage::RecordingStarted { stems })),
            Err(message) => (Vec::new(), one(AgentMessage::RecordingError { message })),
        },
        Err(e) => (
            Vec::new(),
            one(AgentMessage::RecordingError { message: ErrorText::Verbatim(e) }),
        ),
    }
}

/// The answer once a recording was finalised: every file, as text. `Err` tells how the task
/// that finalises failed.
pub fn recording_finished(files: Result<Vec<RecordedFile>, String>) -> (r: Vec<AgentMessage>)
    requires
        files matches Ok(f) ==> forall|i: int|
            0 <= i < f@.len() ==> media_text::fits_a_string((#[trigger] f@[i]).data@.len()),
    ensures
        r@.len() == 1,
        match files {
            Ok(f) => {
                &&& r@[0] matches AgentMessage::RecordingDone { files: wire }
                &&& wire@.len() == f@.len()
                &&& forall|i: int|
                    0 <= i < wire@.len() ==> media_text::carries(#[trigger] wire@[i], f@[i])
            },
            Err(detail) => r@[0] == (AgentMessage::RecordingError {
                message: ErrorText::Failed { task: Task::StopRecording, detail },
            }),
        },
{
    match files {
        Ok(f) => one(AgentMessage::RecordingDone { files: media_text::encode_files(f) }),
        Err(detail) => one(
            AgentMessage::RecordingError {
                message: ErrorText::Failed { task: Task::StopRecording, detail },
            },
        ),
    }
}

/// A message that asks for a stream, a capture or a source, or ends one, is never dropped for
/// want of a moment's patience: it waits longer than what comes again anyway.
pub proof fn setup_waits_longer(a: BrowserMessage, b: BrowserMessage)
    requires
        command_of(b) is Some || b is GetStats || b is SetVoiceGain || b is SetInputCut,
        a is StartCapture || a is StartVoiceCapture || a is AddStream || a is RemoveStream
            || a is SelectDevices || a is SetInputSource || a is Stop || a is LoadInstrumentPlugin
            || a is UnloadInstrumentPlugin || a is ListPlugins || a is StartRecording
            || a is StopRecording,
    ensures
        lock_of(b) == Lock::Brief,
        lock_of(a) != Lock::Brief,
{
}

/// Each control of the mixer moves the control it is named after, by the value that was sent
/// and, where it belongs to one stream, for that stream.
pub proof fn a_control_moves_what_it_is_named_after(producer_id: String, value: u32)
    ensures
        command_of(BrowserMessage::SetVolume { producer_id, volume: value }) == Some(
            (MixerCommand::SetVolume { producer_id, volume: value }),
        ),
        command_of(BrowserMessage::SetPan { producer_id, pan: value }) == Some(
            (MixerCommand::SetPan { producer_id, pan: value }),
        ),
        command_of(BrowserMessage::SetBuffer { target_ms: value }) == Some(
            (MixerCommand::SetTargetMsAll { target_ms: value }),
        ),
        command_of(BrowserMessage::SetMasterVolume { volume: value }) == Some(
            (MixerCommand::SetMasterGain { volume: value }),
        ),
        command_of(BrowserMessage::SetDim { factor: value }) == Some(
            (MixerCommand::SetDim { factor: value }),
        ),
        command_of(BrowserMessage::SetSelfMonitorVolume { volume: value }) == Some(
            (MixerCommand::SetSelfMonitorVolume { volume: float_bits::volume(value) }),
        ),
{
}

/// The click and the backing track do what they are told, at the frames that were sent.
pub proof fn the_reference_does_what_it_is_told(
    config: ReferenceConfig,
    beat_frame: u64,
    beat_index: i64,
    frames: u64,
    backing: u64,
    output: u64,
)
    ensures
        command_of(BrowserMessage::ReferenceConfig { config }) == Some(
            (MixerCommand::SetReferenceConfig { config }),
        ),
        command_of(
            BrowserMessage::ReferenceGrid {
                anchor_beat_frame: beat_frame,
                anchor_beat_index: beat_index,
            },
        ) == Some(
            (MixerCommand::SetReferenceGrid {
                anchor_beat_frame: beat_frame,
                anchor_beat_index: beat_index,
            }),
        ),
        command_of(BrowserMessage::ReferenceStop) == Some(MixerCommand::ReferenceStop),
        command_of(BrowserMessage::ReferenceBackingBegin { total_frames: frames }) == Some(
            (MixerCommand::BackingBegin { total_frames: frames }),
        ),
        command_of(BrowserMessage::ReferenceBackingEnd) == Some(MixerCommand::BackingEnd),
        command_of(BrowserMessage::ReferenceBackingUnload) == Some(MixerCommand::BackingUnload),
        command_of(BrowserMessage::ReferenceBackingPause) == Some(MixerCommand::BackingPause),
        command_of(
            BrowserMessage::ReferenceBackingPlay {
                anchor_backing_frame: backing,
                anchor_output_frame: output,
            },
        ) == Some(
            (MixerCommand::BackingPlay {
                anchor_backing_frame: backing,
                anchor_output_frame: output,
            }),
        ),
        command_of(
            BrowserMessage::ReferenceBackingSeek {
                anchor_backing_frame: backing,
                anchor_output_frame: output,
            },
        ) == Some(
            (MixerCommand::BackingSeek {
                anchor_backing_frame: backing,
                anchor_output_frame: output,
            }),
        ),
        command_of(
            BrowserMessage::ReferenceBackingSync {
                anchor_backing_frame: backing,
                anchor_output_frame: output,
            },
        ) == Some(
            (MixerCommand::BackingSync {
                anchor_backing_frame: backing,
                anchor_output_frame: output,
            }),
        ),
{
}

/// No two messages come to the same command, but for the volume of one's own monitor, which is
/// brought into range: what the mixer is told says which message it was.
pub proof fn a_command_tells_its_message(a: BrowserMessage, b: BrowserMessage)
    requires
        command_of(a) is Some,
        command_of(a) == command_of(b),
    ensures
        a == b || a is SetSelfMonitorVolume && b is SetSelfMonitorVolume,
        command_of(a) matches Some(MixerCommand::SetVolume { .. }) ==> a is SetVolume,
        command_of(a) matches Some(MixerCommand::SetPan { .. }) ==> a is SetPan,
        command_of(a) matches Some(MixerCommand::SetMasterGain { .. }) ==> a is SetMasterVolume,
        command_of(a) matches Some(MixerCommand::SetDim { .. }) ==> a is SetDim,
{
}

/// A command, an answer and work exclude each other.
pub proof fn a_message_is_handled_in_one_way(
    r: Handled,
    c: MixerCommand,
    replies: Seq<AgentMessage>,
    effects: Seq<Effect>,
    work: Work,
)
    ensures
        r.is_command(c) <==> r.mixer == Some(c) && r.work is None && r.effects@.len() == 0
            && r.replies@.len() == 0,
        r.is_answer(replies) <==> r.mixer is None && r.work is None && r.effects@.len() == 0
            && r.replies@ == replies,
        r.is_work(effects, work) <==> r.mixer is None && r.work == Some(work) && r.effects@
            == effects && r.replies@.len() == 0,
{
}

/// What belongs to a message's lock: the end of a recording has no limit, what sets something
/// up or takes it down has the longer one, and everything else the shorter one.
pub proof fn a_lock_fits_its_message(m: BrowserMessage)
    ensures
        lock_of(m) == Lock::Unlimited <==> m is StopRecording,
        lock_of(m) == Lock::Patient <==> (m is SelectDevices || m is StartCapture
            || m is StartVoiceCapture || m is StopVoiceCapture || m is AddStream
            || m is RemoveStream || m is Stop || m is ListPlugins || m is LoadInstrumentPlugin
            || m is UnloadInstrumentPlugin || m is SetInputSource || m is StartRecording),
{
}

/// The pipeline is left alone by what needs none of it: a greeting, a restart, and the lists
/// and logs that are read elsewhere. Sound that must not be sent is refused before it, and so
/// is what an agent without plugins is asked of them.
pub proof fn what_needs_no_pipeline_waits_for_none(m: BrowserMessage, platform: Platform, ok: bool)
    ensures
        m is HelloAck || m is Restart || m is RelaunchNow || m is GetDevices
            || m is ListMidiDevices || m is GetLogsArchive ==> !is_locked(m, platform, ok),
        m is StartCapture || m is StartVoiceCapture ==> is_locked(m, platform, ok) == ok,
        m is ListPlugins || m is LoadInstrumentPlugin || m is UnloadInstrumentPlugin
            || m is SetInstrumentPluginBypass || m is OpenInstrumentPluginEditor
            || m is CloseInstrumentPluginEditor || m is SetInputSource || m is PlayMidiNote
            ==> is_locked(m, platform, ok) == platform.hosts_plugins(),
        command_of(m) is Some || m is Stop || m is GetStats || m is AddStream || m is RemoveStream
            || m is SelectDevices || m is StopVoiceCapture || m is SetVoiceGain || m is SetInputCut
            || m is StartRecording || m is StopRecording || m is ReferenceClockPing
            || m is ReferenceBackingChunk ==> is_locked(m, platform, ok),
{
}

/// A buffer's size is what was measured, else what was agreed on, and for an estimate else 480.
pub proof fn a_measured_size_comes_first(measured: u32, agreed: u32)
    requires
        measured > 0,
    ensures
        known_frames(measured, Some(agreed)) == Some(measured),
        known_frames(measured, None) == Some(measured),
        known_frames(0, Some(agreed)) == Some(agreed),
        known_frames(0, None) is None,
        estimated_frames(measured, Some(agreed)) == measured,
        estimated_frames(measured, None) == measured,
        estimated_frames(0, Some(agreed)) == agreed,
        estimated_frames(0, None) == 480,
{
}

/// The figures while sound is captured: each direction is counted with its own buffer, and the
/// codec, 120 samples, once on the way in and twice on the whole way.
pub proof fn the_whole_way_is_the_sum_of_its_parts(s: Stats, pl: PipelineState, obs: Observed)
    requires
        describes(s, pl, obs),
        pl.state == AgentState::Capturing,
        pl.driver.input_frames > 0,
        pl.driver.output_frames > 0,
    ensures
        s.capture_latency == pl.driver.input_frames + 120,
        s.playback_latency == pl.driver.output_frames,
        s.buffer == pl.driver.input_frames,
        s.input_buffer == Some(pl.driver.input_frames),
        s.output_buffer == Some(pl.driver.output_frames),
        s.fixed_latency matches Some(n) && n == s.capture_latency + s.playback_latency + 120,
{
}

/// While nothing is captured there is no latency. How many streams are played, how often one
/// ran dry and how long they wait is told either way, and so is the device that was chosen.
pub proof fn the_figures_name_their_subject(s: Stats, pl: PipelineState, obs: Observed)
    requires
        describes(s, pl, obs),
    ensures
        pl.state != AgentState::Capturing ==> s.capture_latency == 0 && s.playback_latency == 0
            && s.buffer == 0 && s.fixed_latency is None,
        s.streams == pl.reception.streams@.len(),
        s.underruns == obs.underruns,
        s.jitter_target_ms == obs.mean_target_ms,
        pl.input_device_id matches Some(id) ==> s.device matches Some(name) && name@
            == crate::audio_open::device_name_chars(id@),
        pl.input_device_id is None ==> (s.device is Some <==> obs.default_input_id is Some),
        pl.input_device_id is None && obs.default_input_id is Some ==> s.device is Some
            && s.device->0@ == crate::audio_open::device_name_chars(obs.default_input_id->0@),
        pl.driver.input_frames == 0 ==> s.input_buffer == pl.driver.input_buffer_samples,
        pl.driver.output_frames == 0 ==> s.output_buffer == pl.driver.output_buffer_samples,
{
}

/// Both devices that are named are chosen, each for its direction. Another output closes the
/// open one and opens the named one; the same output, or none that is open, changes nothing.
pub proof fn devices_are_chosen(
    pre: PipelineState,
    input_id: Option<String>,
    output_id: Option<String>,
    ctx: Context,
    now: Instant,
    post: PipelineState,
    r: Handled,
)
    requires
        session_handled(
            pre,
            (BrowserMessage::SelectDevices { input_id, output_id }),
            ctx,
            now,
            post,
            r,
        ),
    ensures
        post.input_device_id == input_id,
        post.output_device_id == output_id,
        post.state == pre.state && post.session == pre.session && post.plugin == pre.plugin,
        post.reception == pre.reception && post.input_source == pre.input_source,
        r.mixer is None,
        r.replies@.len() == 1,
        r.replies@[0] matches AgentMessage::Status { state, .. } && state == AgentState::Idle,
        pre.output_device_id == output_id || !pre.driver.playback_open ==> {
            &&& post.driver.playback_open == pre.driver.playback_open
            &&& r.effects@.len() == 0
            &&& r.work is None
        },
        pre.driver.playback_open && (pre.output_device_id is Some != output_id is Some) ==> {
            &&& !post.driver.playback_open
            &&& r.effects@ == seq![Effect::ClosePlayback]
            &&& r.work == Some((Work::MovePlayback { output_id }))
        },
        pre.driver.playback_open && pre.output_device_id is Some && output_id is Some
            && pre.output_device_id->0@ != output_id->0@ ==> {
            &&& !post.driver.playback_open
            &&& r.effects@ == seq![Effect::ClosePlayback]
            &&& r.work == Some((Work::MovePlayback { output_id }))
        },
{
}

/// A voice is taken from the channel that is named, where a capture runs that has it; it takes
/// the place of an earlier one. Otherwise the browser learns which channel there is not.
pub proof fn a_voice_comes_from_its_channel(
    pre: PipelineState,
    msg: BrowserMessage,
    ctx: Context,
    now: Instant,
    post: PipelineState,
    r: Handled,
)
    requires
        session_handled(pre, msg, ctx, now, post, r),
        msg is StartVoiceCapture,
    ensures
        post == pre,
        r.mixer is None,
        ({
            let channel = msg->StartVoiceCapture_channel_index;
            let channels = pre.session.capture_channels_in;
            &&& !pre.session.voice_tap ==> r.work is None && r.replies@ == seq![
                AgentMessage::Error {
                    message: ErrorText::NoActiveCapture,
                    key: ErrorKey::Voice,
                },
            ]
            &&& pre.session.voice_tap && channel >= channels ==> r.work is None && r.replies@
                == seq![
                AgentMessage::Error {
                    message: ErrorText::VoiceChannelOutOfRange { channel, channels },
                    key: ErrorKey::Voice,
                },
            ]
            &&& pre.session.voice_tap && channel < channels ==> {
                &&& r.work == Some((Work::StartVoice { channel_index: channel }))
                &&& r.replies@.len() == 0
                &&& r.effects@.len() == 1 <==> pre.session.voice_active
                &&& r.effects@.len() <= 1
                &&& r.effects@.len() == 1 ==> r.effects@[0] == Effect::RemoveVoiceTap
            }
        }),
{
}

/// The end of a voice takes its tap away, once, and leaves the capture running.
pub proof fn a_voice_ends_alone(
    pre: PipelineState,
    ctx: Context,
    now: Instant,
    post: PipelineState,
    r: Handled,
)
    requires
        session_handled(pre, BrowserMessage::StopVoiceCapture, ctx, now, post, r),
    ensures
        !post.session.voice_active,
        post.session.voice_tap == pre.session.voice_tap,
        post.session.capture_channels_in == pre.session.capture_channels_in,
        post.state == pre.state && post.driver == pre.driver && post.reception == pre.reception,
        pre.session.voice_active && pre.session.voice_tap ==> r.effects@ == seq![
            Effect::RemoveVoiceTap,
        ],
        !pre.session.voice_active || !pre.session.voice_tap ==> r.effects@.len() == 0,
        r.mixer is None && r.work is None && r.replies@.len() == 0,
{
}

/// The end of a session is answered with a status that says so, and sends the mixer nothing.
pub proof fn a_stop_is_answered(
    pre: PipelineState,
    ctx: Context,
    now: Instant,
    post: PipelineState,
    r: Handled,
)
    requires
        session_handled(pre, BrowserMessage::Stop, ctx, now, post, r),
    ensures
        r.mixer is None && r.work is None,
        r.replies@.len() == 1,
        r.replies@[0] matches AgentMessage::Status { state, version, os, arch } && state
            == AgentState::Idle && version == Some(ctx.identity.version) && os == Some(
            ctx.identity.os,
        ) && arch == Some(ctx.identity.arch),
        crate::pipeline::left(ctx.host, pre, now, post, r.effects@),
{
}

/// The gain of the voice, the cut of the input and the bypass of the plugin are set to what
/// was sent, each alone, and nobody is told. A bypass by hand ends an automatic one.
pub proof fn a_setting_is_kept(
    pre: PipelineState,
    msg: BrowserMessage,
    ctx: Context,
    obs: Observed,
    post: PipelineState,
    r: Handled,
)
    requires
        instrument_handled(pre, msg, ctx, obs, post, r),
    ensures
        msg matches BrowserMessage::SetVoiceGain { gain } ==> {
            &&& post.session.voice_gain == float_bits::unit_clamped(gain)
            &&& post.session.input_cut == pre.session.input_cut
            &&& post.plugin == pre.plugin
        },
        msg matches BrowserMessage::SetInputCut { cut } ==> {
            &&& post.session.input_cut == cut
            &&& post.session.voice_gain == pre.session.voice_gain
            &&& post.plugin == pre.plugin
        },
        msg matches BrowserMessage::SetInstrumentPluginBypass { bypass } ==> {
            &&& post.plugin.instrument_plugin_bypass == bypass
            &&& !post.plugin.plugin_auto_bypass_active
            &&& post.plugin.instrument_plugin_handle == pre.plugin.instrument_plugin_handle
            &&& post.session == pre.session
        },
        msg is SetVoiceGain || msg is SetInputCut || msg is SetInstrumentPluginBypass ==> {
            &&& post.driver == pre.driver && post.reception == pre.reception
            &&& post.state == pre.state && post.input_source == pre.input_source
            &&& r.mixer is None && r.work is None
            &&& r.effects@.len() == 0 && r.replies@.len() == 0
        },
{
}

/// What a scan found is listed, or, while it runs, nothing and that it runs.
pub proof fn a_list_of_plugins_is_what_the_scan_found(
    pre: PipelineState,
    ctx: Context,
    obs: Observed,
    post: PipelineState,
    r: Handled,
)
    requires
        instrument_handled(pre, BrowserMessage::ListPlugins, ctx, obs, post, r),
    ensures
        post == pre,
        r.mixer is None && r.work is None && r.effects@.len() == 0,
        r.replies@.len() == 1,
        r.replies@[0] matches AgentMessage::PluginList { items, blocked, scanning } && {
            &&& scanning <==> pre.plugin.plugin_scan_cache is Scanning
            &&& scanning ==> items@.len() == 0 && blocked@.len() == 0
            &&& pre.plugin.plugin_scan_cache matches
                crate::plugin_control::PluginScanCache::Ready(s) ==> items@ == s.plugins@
                && blocked@ == s.blocked@
        },
{
}

/// Work on the plugin is work on the one that is named or loaded; where it needs one and none
/// is loaded, opening its window is refused, and the rest does nothing.
pub proof fn work_goes_to_the_plugin_that_is_loaded(
    pre: PipelineState,
    msg: BrowserMessage,
    ctx: Context,
    obs: Observed,
    post: PipelineState,
    r: Handled,
)
    requires
        instrument_handled(pre, msg, ctx, obs, post, r),
        msg is LoadInstrumentPlugin || msg is UnloadInstrumentPlugin
            || msg is OpenInstrumentPluginEditor || msg is CloseInstrumentPluginEditor
            || msg is PlayMidiNote,
    ensures
        post == pre && r.mixer is None && r.effects@.len() == 0,
        msg matches BrowserMessage::LoadInstrumentPlugin { plugin_ref } ==> r.work == Some(
            (Work::LoadPlugin { plugin_ref }),
        ) && r.replies@.len() == 0,
        msg is UnloadInstrumentPlugin ==> r.work == Some(Work::UnloadPlugin) && r.replies@ == seq![
            AgentMessage::InstrumentPluginUnloaded,
        ],
        pre.plugin.instrument_plugin_handle matches Some(handle) ==> {
            &&& msg is OpenInstrumentPluginEditor ==> r.work == Some((Work::OpenEditor { handle }))
            &&& msg is CloseInstrumentPluginEditor ==> r.work == Some(
                (Work::CloseEditor { handle }),
            )
            &&& msg matches BrowserMessage::PlayMidiNote { status, data1, data2 } ==> {
                &&& r.work matches Some(Work::PlayNote { handle: h, event })
                &&& h == handle
                &&& event.frame_offset == 0
                &&& event.data@[0] == status && event.data@[1] == data1 && event.data@[2] == data2
            }
        },
        pre.plugin.instrument_plugin_handle is None ==> {
            &&& msg is OpenInstrumentPluginEditor ==> r.work is None && r.replies@ == seq![
                AgentMessage::InstrumentPluginError { message: ErrorText::NoPluginLoaded },
            ]
            &&& msg is CloseInstrumentPluginEditor || msg is PlayMidiNote ==> r.work is None
                && r.replies@.len() == 0
        },
{
}

/// Back to audio at once: an open MIDI device is closed, and the browser is told.
pub proof fn audio_is_a_source_at_once(
    pre: PipelineState,
    source: String,
    id: Option<String>,
    platform: Platform,
    obs: Observed,
    post: PipelineState,
    r: Handled,
)
    requires
        source_handled(pre, source, id, platform, obs, post, r),
        source@ == "audio"@,
    ensures
        post.input_source == InputSource::Audio,
        post.midi_route == crate::pipeline::MidiRoute::Nowhere,
        post.session == pre.session && post.plugin == pre.plugin && post.driver == pre.driver,
        pre.midi_route == crate::pipeline::MidiRoute::Device ==> r.effects@ == seq![
            Effect::CloseMidiInput,
        ],
        pre.midi_route != crate::pipeline::MidiRoute::Device ==> r.effects@.len() == 0,
        r.work is None && r.mixer is None,
        r.replies@.len() == 1,
        r.replies@[0] matches AgentMessage::InputSourceChanged {
            midi,
            midi_device_id,
            midi_device_name,
        } && !midi && midi_device_id is None && midi_device_name is None,
{
}

/// A MIDI device that is named is opened before it is the source; the agent's own port is the
/// source at once, where there is one. What is named neither way changes nothing.
pub proof fn a_device_is_opened_before_it_is_heard(
    pre: PipelineState,
    source: String,
    id: Option<String>,
    platform: Platform,
    obs: Observed,
    post: PipelineState,
    r: Handled,
)
    requires
        source_handled(pre, source, id, platform, obs, post, r),
        source@ != "audio"@,
    ensures
        source@ == "midi"@ && id is Some && !obs.midi_is_virtual ==> post == pre && r.work == Some(
            (Work::OpenMidiDevice { device_id: id->0 }),
        ) && r.effects@.len() == 0 && r.replies@.len() == 0,
        source@ == "midi"@ && id is Some && obs.midi_is_virtual && platform == Platform::MacOs
            && obs.has_virtual_port ==> {
            &&& post.input_source == InputSource::Midi(id->0)
            &&& post.midi_route == crate::pipeline::MidiRoute::VirtualPort
            &&& r.work == Some((Work::NameMidiDevice { device_id: id->0 }))
            &&& pre.midi_route == crate::pipeline::MidiRoute::Device ==> r.effects@ == seq![
                Effect::CloseMidiInput,
            ]
        },
        source@ == "midi"@ && id is Some && obs.midi_is_virtual && platform == Platform::Windows
            ==> {
            &&& post.input_source == InputSource::Midi(id->0)
            &&& post.midi_route == crate::pipeline::MidiRoute::Nowhere
            &&& r.work == Some((Work::NameMidiDevice { device_id: id->0 }))
            &&& pre.midi_route == crate::pipeline::MidiRoute::Device ==> r.effects@ == seq![
                Effect::CloseMidiInput,
            ]
        },
        source@ == "midi"@ && id is Some && platform == Platform::Other ==> post == pre && r.work
            == Some((Work::OpenMidiDevice { device_id: id->0 })),
        source@ == "midi"@ && id is Some && obs.midi_is_virtual && platform == Platform::MacOs
            && !obs.has_virtual_port ==> post == pre && r.work is None && r.replies@ == seq![
            AgentMessage::InputSourceError { message: ErrorText::VirtualMidiUnavailable },
        ],
        source@ == "midi"@ && id is None ==> post == pre && r.work is None && r.replies@ == seq![
            AgentMessage::InputSourceError { message: ErrorText::MidiDeviceRequired },
        ],
        source@ != "midi"@ ==> post == pre && r.work is None && r.replies@ == seq![
            AgentMessage::InputSourceError { message: ErrorText::UnknownSource { source } },
        ],
        r.mixer is None,
{
}

/// A question for the clock gets its own number and time back, with the reading of the clock
/// and of the output at 48 kHz. Asking changes nothing.
pub proof fn an_answer_carries_its_question(
    pre: PipelineState,
    ctx: Context,
    obs: Observed,
    post: PipelineState,
    r: Handled,
    msg: BrowserMessage,
)
    requires
        report_handled(pre, msg, ctx, obs, post, r),
        msg is ReferenceClockPing,
    ensures
        post == pre && r.mixer is None && r.work is None && r.effects@.len() == 0,
        r.replies@.len() == 1,
        r.replies@[0] matches AgentMessage::ReferenceClockPong {
            ping_id,
            client_send_ms,
            agent_mono_ms,
            anchor_frame,
            anchor_mono_ms,
            out_samples,
            sample_rate,
        } && {
            &&& ping_id == msg->ReferenceClockPing_ping_id
            &&& client_send_ms == msg->ReferenceClockPing_client_send_ms
            &&& agent_mono_ms == obs.agent_mono_ms
            &&& anchor_frame == obs.anchor_frame
            &&& anchor_mono_ms == obs.anchor_mono_ms
            &&& sample_rate == 48_000
            &&& pre.driver.output_frames > 0 ==> out_samples == pre.driver.output_frames
        },
{
}

/// Statistics are a status and the figures; a recording runs once, and its end detaches it.
pub proof fn one_recording_at_a_time(
    pre: PipelineState,
    msg: BrowserMessage,
    ctx: Context,
    obs: Observed,
    post: PipelineState,
    r: Handled,
)
    requires
        report_handled(pre, msg, ctx, obs, post, r),
    ensures
        msg is GetStats ==> {
            &&& post == pre
            &&& r.replies@.len() == 2
            &&& r.replies@[0] matches AgentMessage::Status { state, .. } && state == pre.state
            &&& r.replies@[1] is Stats
            &&& r.mixer is None && r.work is None && r.effects@.len() == 0
        },
        msg matches BrowserMessage::StartRecording { stems } ==> {
            &&& post == pre && r.mixer is None && r.effects@.len() == 0
            &&& pre.recording ==> r.work is None && r.replies@ == seq![
                AgentMessage::RecordingError { message: ErrorText::RecordingInProgress },
            ]
            &&& !pre.recording ==> r.replies@.len() == 0 && r.work == Some(
                (Work::StartRecorder { stems }),
            )
        },
        msg is StopRecording ==> {
            &&& !post.recording
            &&& post.session == pre.session && post.driver == pre.driver
            &&& post.reception == pre.reception
            &&& r.effects@ == seq![Effect::DetachRecorder]
            &&& r.work == Some((Work::FinishRecording { running: pre.recording }))
            &&& r.mixer is None && r.replies@.len() == 0
        },
{
}

/// A piece of the backing track is pushed sample by sample, two bytes each, and a piece that
/// is not text for bytes is dropped.
pub proof fn a_piece_of_the_track_is_pushed_whole(
    pre: PipelineState,
    data_b64: String,
    ctx: Context,
    obs: Observed,
    post: PipelineState,
    r: Handled,
)
    requires
        report_handled(
            pre,
            (BrowserMessage::ReferenceBackingChunk { data_b64 }),
            ctx,
            obs,
            post,
            r,
        ),
    ensures
        post == pre && r.work is None && r.effects@.len() == 0 && r.replies@.len() == 0,
        media_text::base64_decoded(data_b64@) is None ==> r.mixer is None,
        media_text::base64_decoded(data_b64@) matches Some(bytes) ==> {
            &&& r.mixer matches Some(MixerCommand::BackingPush { samples })
            &&& samples@.len() == bytes.len() as int / 2
        },
{
    if let Some(bytes) = media_text::base64_decoded(data_b64@) {
        let samples = r.mixer->Some_0->BackingPush_samples;
        assert(media_text::values(samples@).len() == media_text::samples_of(bytes).len());
    }
}

/// A list with nothing on it says whether a scan still runs.
pub proof fn an_empty_list_says_whether_a_scan_runs(m: AgentMessage, still_scanning: bool)
    requires
        empty_list(m, still_scanning),
    ensures
        m matches AgentMessage::PluginList { items, blocked, scanning } && items@.len() == 0
            && blocked@.len() == 0 && scanning == still_scanning,
{
}

/// A stream that is taken away is stopped, and nobody is told; a stream that is added and a
/// capture that is started are work, and are answered once it is done.
pub proof fn streams_come_and_go_without_a_word(
    pre: PipelineState,
    msg: BrowserMessage,
    ctx: Context,
    now: Instant,
    post: PipelineState,
    r: Handled,
)
    requires
        session_handled(pre, msg, ctx, now, post, r),
        msg is RemoveStream || msg is AddStream || msg is StartCapture,
    ensures
        r.mixer is None,
        r.replies@.len() == 0,
        msg is RemoveStream <==> r.work is None,
        msg matches BrowserMessage::RemoveStream { producer_id } ==> {
            &&& post.reception.streams@ == crate::pipeline::without_stream(
                pre.reception.streams@,
                producer_id@,
            )
            &&& r.effects@ == crate::pipeline::removal_effects(
                pre.reception.streams@,
                producer_id@,
            )
            &&& post.reception.epoch == pre.reception.epoch
            &&& post.reception.decode_running == pre.reception.decode_running
            &&& post.driver == pre.driver && post.session == pre.session
            &&& post.state == pre.state && post.recording == pre.recording
        },
        msg is AddStream ==> {
            &&& r.work matches Some(Work::AddStream { addition, action })
            &&& addition.producer_id == msg->AddStream_producer_id
            &&& post.driver == pre.driver && post.session == pre.session
        },
        msg is StartCapture ==> {
            &&& r.work matches Some(Work::StartCapture { start, action, input_device })
            &&& input_device == msg->StartCapture_input_device
            &&& start.host == ctx.host
            &&& start.choice.channel_index == msg->StartCapture_channel_index
            &&& start.choice.stereo_start == msg->StartCapture_stereo_start
            &&& start.choice.session_continues == msg->StartCapture_session_continues
            &&& input_device is Some ==> post.input_device_id == input_device
            &&& input_device is None ==> post.input_device_id == pre.input_device_id
            &&& post.output_device_id == pre.output_device_id
        },
{
}

} // verus!
