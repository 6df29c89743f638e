//! The start of a capture, of a voice and of a received stream, from the request to the
//! answer. Each is a sequence of steps that outside work comes between.

use crate::audio_open::{BuiltDuplex, CaptureStartError, CaptureStartedInfo, HostKind, OutputOpen};
use crate::channels::{selection, ChannelSel};
use crate::messages::{
    one, AgentMessage, CaptureErrorReason, ErrorKey, ErrorText, SrtpParameters, Task,
};
use crate::pipeline::{
    close_effects, reusable, teardown_effects, with_streams, AcquiredAudio, AgentState,
    AudioAcquisition, AudioDriver, Effect, PipelineState, Session, VoiceRefusal, WarmAudio,
    MAX_RECV_STREAMS,
};
use crate::text;
use vstd::prelude::*;
use vstd::string::*;

verus! {

/// What a capture is asked to be.
#[derive(Clone, Copy, Debug, PartialEq, Eq)]
pub struct CaptureChoice {
    pub channel_index: Option<u8>,
    pub stereo_start: Option<u8>,
    pub session_continues: bool,
}

/// Where the start of a capture stands.
#[derive(Debug)]
pub enum StartPhase {
    /// The devices are being opened.
    Opening,
    /// The transport is being set up.
    Connecting { audio: AcquiredAudio, sel: ChannelSel },
    /// The encoder is being started.
    Spawning { audio: AcquiredAudio, port: u16, srtp: SrtpParameters },
    Over,
}

/// The next step of a start.
#[derive(Debug)]
pub enum StartAction {
    Open { input_id: Option<String>, output_id: Option<String> },
    /// Resolve the address, make the keys and bind the socket.
    Connect,
    /// Start the encoder on the socket.
    Spawn { sel: ChannelSel },
    Finished(Result<(u16, SrtpParameters, CaptureStartedInfo), CaptureStartError>),
}

/// What came of a step.
#[derive(Debug)]
pub enum StartEvent {
    Opened(Result<BuiltDuplex, CaptureStartError>),
    Connected { port: u16, srtp: SrtpParameters },
    Spawned,
    /// A step failed.
    Failed { task: Task, detail: String },
}

#[derive(Debug)]
pub struct CaptureStart {
    pub host: HostKind,
    pub choice: CaptureChoice,
    pub phase: StartPhase,
}

/// `post` is what the beginning of a start makes of `pre`.
pub open spec fn begun(
    pre: PipelineState,
    host: HostKind,
    choice: CaptureChoice,
    post: PipelineState,
    start: CaptureStart,
    effects: Seq<Effect>,
    action: StartAction,
) -> bool {
    &&& start.host == host
    &&& start.choice == choice
    &&& post.state == pre.state
    &&& post.recording == pre.recording
    &&& post.same_settings(pre)
    &&& if choice.session_continues {
        post.reception == pre.reception
    } else {
        post.reception_over(pre)
    }
    &&& if reusable(pre, host) {
        let w = pre.driver.warm->0;
        &&& action is Connect
        &&& start.phase == (StartPhase::Connecting {
            audio: AcquiredAudio {
                channels_in: w.channels_in,
                native_sr: w.native_sr,
                input_buf: w.input_buf,
                in_name: w.in_name,
                resolved_input_id: w.resolved_input_id,
                output_name: w.in_name,
                output_fallback: false,
            },
            sel: selection(choice.channel_index, choice.stereo_start, w.channels_in as nat),
        })
        &&& post.driver == (AudioDriver {
            warm: Some(WarmAudio { parked_since: None, ..w }),
            input_buffer_samples: w.input_buf,
            ..pre.driver
        })
        &&& post.session == (Session {
            capture_channels_in: w.channels_in,
            capture_native_sr: w.native_sr,
            voice_tap: true,
            input_cut: choice.session_continues && pre.session.input_cut,
            ..pre.session.torn_down()
        })
        &&& post.com_recycle_pending == pre.com_recycle_pending
        &&& effects == teardown_effects(pre, choice.session_continues).push(Effect::DrainCapture)
    } else {
        &&& action == (StartAction::Open {
            input_id: pre.input_device_id,
            output_id: pre.output_device_id,
        })
        &&& start.phase is Opening
        &&& post.driver == (AudioDriver { capture_channel: true, ..AudioDriver::closed() })
        &&& post.session == pre.session.torn_down()
        &&& !post.com_recycle_pending
        &&& effects == teardown_effects(pre, choice.session_continues) + close_effects(pre.driver)
            + if pre.com_recycle_pending {
            seq![Effect::RecycleCom]
        } else {
            Seq::empty()
        }
    }
}

/// `post` is what the streams of `built`, once they are open, make of `pre`.
pub open spec fn opened(
    pre: PipelineState,
    host: HostKind,
    choice: CaptureChoice,
    built: BuiltDuplex,
    audio: AcquiredAudio,
    post: PipelineState,
) -> bool {
    &&& post.session == (Session {
        capture_channels_in: audio.channels_in,
        capture_native_sr: audio.native_sr,
        voice_active: false,
        voice_tap: true,
        input_cut: choice.session_continues && pre.session.input_cut,
        ..pre.session
    })
    &&& post.driver == if host == HostKind::Asio {
        AudioDriver {
            warm: Some(
                WarmAudio {
                    input_id: pre.input_device_id,
                    output_id: pre.output_device_id,
                    channels_in: audio.channels_in,
                    native_sr: audio.native_sr,
                    resolved_input_id: audio.resolved_input_id,
                    in_name: audio.in_name,
                    input_buf: audio.input_buf,
                    parked_since: None,
                },
            ),
            ..with_streams(pre.driver, built)
        }
    } else {
        with_streams(pre.driver, built)
    }
    &&& post.reception == pre.reception
    &&& post.state == pre.state
    &&& post.recording == pre.recording
    &&& post.com_recycle_pending == pre.com_recycle_pending
    &&& post.same_settings(pre)
}

/// What the browser is told of the devices of a session.
pub open spec fn started_info(audio: AcquiredAudio) -> CaptureStartedInfo {
    CaptureStartedInfo {
        device_id: audio.resolved_input_id,
        device_name: audio.in_name,
        channels: audio.channels_in,
        native_sample_rate: audio.native_sr,
        output_name: audio.output_name,
        output_fallback: audio.output_fallback,
    }
}

impl CaptureStart {
    pub open spec fn expects(self, ev: StartEvent) -> bool {
        match self.phase {
            StartPhase::Opening => match ev {
                StartEvent::Opened(Ok(built)) => crate::pipeline::output_known(built),
                StartEvent::Opened(Err(_)) => true,
                _ => false,
            },
            StartPhase::Connecting { .. } => ev is Connected || ev is Failed,
            StartPhase::Spawning { .. } => ev is Spawned || ev is Failed,
            StartPhase::Over => false,
        }
    }

    /// Begins a start: tears down what was there, and asks for the devices, unless the warm
    /// driver serves.
    pub fn begin(pl: &mut PipelineState, host: HostKind, choice: CaptureChoice) -> (r: (
        CaptureStart,
        Vec<Effect>,
        StartAction,
    ))
        requires
            old(pl).wf(),
        ensures
            final(pl).wf(),
            begun(*old(pl), host, choice, *final(pl), r.0, r.1@, r.2),
    {
        let (acquisition, effects) = pl.prepare_audio_for_session(host, choice.session_continues);
        match acquisition {
            AudioAcquisition::Reused(audio) => {
                let sel = pl.begin_session(
                    &audio,
                    choice.session_continues,
                    choice.channel_index,
                    choice.stereo_start,
                );
                (
                    CaptureStart { host, choice, phase: StartPhase::Connecting { audio, sel } },
                    effects,
                    StartAction::Connect,
                )
            },
            AudioAcquisition::Open { input_id, output_id } => (
                CaptureStart { host, choice, phase: StartPhase::Opening },
                effects,
                StartAction::Open { input_id, output_id },
            ),
        }
    }

    /// Takes what came of a step.
    pub fn step(&mut self, pl: &mut PipelineState, ev: StartEvent) -> (r: (Vec<Effect>, StartAction))
        requires
            old(pl).wf(),
            old(self).expects(ev),
        ensures
            final(pl).wf(),
            final(self).host == old(self).host,
            final(self).choice == old(self).choice,
            r.1 is Finished <==> final(self).phase is Over,
            final(pl).reception == old(pl).reception,
            match old(self).phase {
                StartPhase::Opening => match ev {
                    StartEvent::Opened(Err(e)) => {
                        &&& r.1 == StartAction::Finished(Err(e))
                        &&& r.0@.len() == 0
                        &&& *final(pl) == *old(pl)
                    },
                    StartEvent::Opened(Ok(built)) => {
                        &&& r.1 is Connect
                        &&& r.0@.len() == 0
                        &&& final(self).phase matches StartPhase::Connecting { audio, sel }
                        &&& crate::pipeline::acquired_from(built, audio)
                        &&& sel == selection(
                            old(self).choice.channel_index,
                            old(self).choice.stereo_start,
                            audio.channels_in as nat,
                        )
                        &&& opened(
                            *old(pl),
                            old(self).host,
                            old(self).choice,
                            built,
                            audio,
                            *final(pl),
                        )
                    },
                    _ => true,
                },
                StartPhase::Connecting { audio, sel } => match ev {
                    StartEvent::Connected { port, srtp } => {
                        &&& r.1 == (StartAction::Spawn { sel })
                        &&& r.0@ == seq![Effect::AddSelfMonitor]
                        &&& final(self).phase == (StartPhase::Spawning { audio, port, srtp })
                        &&& *final(pl) == (PipelineState {
                            session: Session { encoder_running: true, ..old(pl).session },
                            ..*old(pl)
                        })
                    },
                    StartEvent::Failed { task, detail } => {
                        &&& r.1 matches StartAction::Finished(Err(CaptureStartError::Other(t)))
                        &&& t@ == task.prefix_chars() + detail@
                        &&& r.0@.len() == 0
                        &&& *final(pl) == *old(pl)
                    },
                    _ => true,
                },
                StartPhase::Spawning { audio, port, srtp } => match ev {
                    StartEvent::Spawned => {
                        &&& r.1 == StartAction::Finished(Ok((port, srtp, started_info(audio))))
                        &&& r.0@.len() == 0
                        &&& *final(pl) == (PipelineState {
                            session: Session { capture_feeding: true, ..old(pl).session },
                            driver: AudioDriver {
                                input_buffer_samples: audio.input_buf,
                                ..old(pl).driver
                            },
                            state: AgentState::Capturing,
                            ..*old(pl)
                        })
                    },
                    StartEvent::Failed { task, detail } => {
                        &&& r.1 matches StartAction::Finished(Err(CaptureStartError::Other(t)))
                        &&& t@ == task.prefix_chars() + detail@
                        &&& r.0@.len() == 0
                        &&& *final(pl) == *old(pl)
                    },
                    _ => true,
                },
                StartPhase::Over => true,
            },
    {
        let mut phase = StartPhase::Over;
        std::mem::swap(&mut phase, &mut self.phase);
        let none: Vec<Effect> = Vec::new();
        match phase {
            StartPhase::Opening => match ev {
                StartEvent::Opened(Ok(built)) => {
                    let audio = pl.finish_open(self.host, built);
                    let sel = pl.begin_session(
                        &audio,
                        self.choice.session_continues,
                        self.choice.channel_index,
                        self.choice.stereo_start,
                    );
                    self.phase = StartPhase::Connecting { audio, sel };
                    (none, StartAction::Connect)
                },
                StartEvent::Opened(Err(e)) => (none, StartAction::Finished(Err(e))),
                _ => (none, StartAction::Finished(Err(CaptureStartError::Other(String::new())))),
            },
            StartPhase::Connecting { audio, sel } => match ev {
                StartEvent::Connected { port, srtp } => {
                    let effects = pl.arm_encoder();
                    self.phase = StartPhase::Spawning { audio, port, srtp };
                    (effects, StartAction::Spawn { sel })
                },
                StartEvent::Failed { task, detail } => (
                    none,
                    StartAction::Finished(
                        Err(CaptureStartError::Other(text::joined(task.prefix(), detail.as_str()))),
                    ),
                ),
                _ => (none, StartAction::Finished(Err(CaptureStartError::Other(String::new())))),
            },
            StartPhase::Spawning { audio, port, srtp } => match ev {
                StartEvent::Failed { task, detail } => (
                    none,
                    StartAction::Finished(
                        Err(CaptureStartError::Other(text::joined(task.prefix(), detail.as_str()))),
                    ),
                ),
                _ => {
                    let info = pl.session_running(audio);
                    (none, StartAction::Finished(Ok((port, srtp, info))))
                },
            },
            StartPhase::Over => (
                none,
                StartAction::Finished(Err(CaptureStartError::Other(String::new()))),
            ),
        }
    }
}

/// The answer to a request to capture. A driver that is held by another program is named
/// as such on ASIO; elsewhere the error's own words are passed on.
pub fn capture_reply(
    result: Result<(u16, SrtpParameters, CaptureStartedInfo), CaptureStartError>,
    host: HostKind,
    input_device: Option<String>,
) -> (r: Vec<AgentMessage>)
    ensures
        r@ == match result {
            Ok((port, srtp_parameters, info)) => seq![
                AgentMessage::LocalPort { key: ErrorKey::Instrument, port, srtp_parameters },
                AgentMessage::CaptureStarted {
                    device_id: info.device_id,
                    device_name: info.device_name,
                    channels: info.channels,
                    native_sample_rate: info.native_sample_rate,
                    output_name: info.output_name,
                    output_fallback: info.output_fallback,
                },
            ],
            Err(CaptureStartError::InputDeviceNotFound { requested }) => seq![
                AgentMessage::CaptureError {
                    reason: CaptureErrorReason::InputDeviceNotFound,
                    requested_device: requested,
                    detail: None,
                },
            ],
            Err(CaptureStartError::OutputDeviceNotFound { requested }) => seq![
                AgentMessage::CaptureError {
                    reason: CaptureErrorReason::OutputDeviceNotFound,
                    requested_device: requested,
                    detail: None,
                },
            ],
            Err(CaptureStartError::Other(msg)) => if host == HostKind::Asio {
                seq![
                    AgentMessage::CaptureError {
                        reason: CaptureErrorReason::AsioOpenFailed,
                        requested_device: input_device,
                        detail: Some(msg),
                    },
                ]
            } else {
                seq![
                    AgentMessage::Error {
                        message: ErrorText::Verbatim(msg),
                        key: ErrorKey::Instrument,
                    },
                ]
            },
        },
{
    match result {
        Ok((port, srtp_parameters, info)) => {
            let mut r: Vec<AgentMessage> = one(
                AgentMessage::LocalPort { key: ErrorKey::Instrument, port, srtp_parameters },
            );
            let CaptureStartedInfo {
                device_id,
                device_name,
                channels,
                native_sample_rate,
                output_name,
                output_fallback,
            } = info;
            r.push(
                AgentMessage::CaptureStarted {
                    device_id,
                    device_name,
                    channels,
                    native_sample_rate,
                    output_name,
                    output_fallback,
                },
            );
            assert(r@ =~= seq![r@[0], r@[1]]);
            r
        },
        Err(CaptureStartError::InputDeviceNotFound { requested }) => one(
            AgentMessage::CaptureError {
                reason: CaptureErrorReason::InputDeviceNotFound,
                requested_device: requested,
                detail: None,
            },
        ),
        Err(CaptureStartError::OutputDeviceNotFound { requested }) => one(
            AgentMessage::CaptureError {
                reason: CaptureErrorReason::OutputDeviceNotFound,
                requested_device: requested,
                detail: None,
            },
        ),
        Err(CaptureStartError::Other(msg)) => if host == HostKind::Asio {
            one(
                AgentMessage::CaptureError {
                    reason: CaptureErrorReason::AsioOpenFailed,
                    requested_device: input_device,
                    detail: Some(msg),
                },
            )
        } else {
            one(
                AgentMessage::Error {
                    message: ErrorText::Verbatim(msg),
                    key: ErrorKey::Instrument,
                },
            )
        },
    }
}

/// The error that a refused voice is answered with.
pub fn voice_refusal(refusal: VoiceRefusal) -> (r: ErrorText)
    ensures
        r == match refusal {
            VoiceRefusal::NoCapture => ErrorText::NoActiveCapture,
            VoiceRefusal::OutOfRange { channel, channels } => ErrorText::VoiceChannelOutOfRange {
                channel,
                channels,
            },
        },
{
    match refusal {
        VoiceRefusal::NoCapture => ErrorText::NoActiveCapture,
        VoiceRefusal::OutOfRange { channel, channels } => ErrorText::VoiceChannelOutOfRange {
            channel,
            channels,
        },
    }
}

/// The answer to a request to tap the voice, once its transport and its thread are up or
/// have failed.
pub fn voice_reply(
    pl: &mut PipelineState,
    result: Result<(u16, SrtpParameters), ErrorText>,
) -> (r: Vec<AgentMessage>)
    ensures
        match result {
            Ok((port, srtp_parameters)) => {
                &&& r@ == seq![
                    AgentMessage::LocalPort { key: ErrorKey::Voice, port, srtp_parameters },
                ]
                &&& final(pl).session.voice_active
                &&& *final(pl) == (PipelineState {
                    session: crate::pipeline::Session {
                        voice_active: true,
                        ..old(pl).session
                    },
                    ..*old(pl)
                })
            },
            Err(message) => {
                &&& r@ == seq![AgentMessage::Error { message, key: ErrorKey::Voice }]
                &&& *final(pl) == *old(pl)
            },
        },
{
    match result {
        Ok((port, srtp_parameters)) => {
            pl.voice_attached();
            one(AgentMessage::LocalPort { key: ErrorKey::Voice, port, srtp_parameters })
        },
        Err(message) => one(AgentMessage::Error { message, key: ErrorKey::Voice }),
    }
}

/// Where the addition of a stream stands.
#[derive(Debug)]
pub enum AddPhase {
    Connecting,
    /// The output is being opened; the stream itself is up.
    OpeningOutput { port: u16, srtp: SrtpParameters },
    Over,
}

/// The next step of an addition.
#[derive(Debug)]
pub enum AddAction {
    Connect,
    OpenOutput { id: Option<String> },
    Finished(Result<(u16, SrtpParameters), ErrorText>),
}

#[derive(Debug)]
pub enum AddEvent {
    Connected { port: u16, srtp: SrtpParameters },
    OutputOpened(OutputOpen),
    Failed { task: Task, detail: String },
}

/// The addition of a received stream.
#[derive(Debug)]
pub struct StreamAddition {
    pub producer_id: String,
    pub phase: AddPhase,
}

/// `post` is what the beginning of an addition makes of `pre`.
pub open spec fn addition_begun(
    pre: PipelineState,
    producer_id: String,
    post: PipelineState,
    addition: StreamAddition,
    effects: Seq<Effect>,
    action: AddAction,
) -> bool {
    &&& crate::pipeline::only_reception(pre, post)
    &&& addition.producer_id == producer_id
    &&& post.reception.streams@ == crate::pipeline::without_stream(
        pre.reception.streams@,
        producer_id@,
    )
    &&& post.reception.epoch == pre.reception.epoch
    &&& post.reception.decode_running == pre.reception.decode_running
    &&& effects == crate::pipeline::removal_effects(pre.reception.streams@, producer_id@)
    &&& if post.reception.streams@.len() < MAX_RECV_STREAMS {
        addition.phase is Connecting && action is Connect
    } else {
        &&& addition.phase is Over
        &&& action == AddAction::Finished(
            Err((ErrorText::TooManyStreams { max: MAX_RECV_STREAMS as u64 })),
        )
    }
}

impl StreamAddition {
    /// Can the addition be taken up again, with nothing else changed since?
    pub open spec fn fits(self, pl: PipelineState) -> bool {
        self.phase is Connecting ==> {
            &&& pl.reception.streams@.len() < MAX_RECV_STREAMS
            &&& crate::keyed::index_of(pl.reception.streams@, self.producer_id@)
                == pl.reception.streams@.len()
        }
    }

    pub open spec fn expects(self, ev: AddEvent) -> bool {
        match self.phase {
            AddPhase::Connecting => ev is Connected || ev is Failed,
            AddPhase::OpeningOutput { .. } => match ev {
                AddEvent::OutputOpened(o) => !(o is Skipped),
                _ => false,
            },
            AddPhase::Over => false,
        }
    }

    /// Begins an addition. An earlier stream of the producer ends; without room for
    /// another the request is refused.
    pub fn begin(pl: &mut PipelineState, producer_id: String) -> (r: (
        StreamAddition,
        Vec<Effect>,
        AddAction,
    ))
        requires
            old(pl).wf(),
        ensures
            final(pl).wf(),
            r.0.fits(*final(pl)),
            addition_begun(*old(pl), producer_id, *final(pl), r.0, r.1@, r.2),
    {
        let (room, effects) = pl.add_stream(producer_id.as_str());
        if room {
            (
                StreamAddition { producer_id, phase: AddPhase::Connecting },
                effects,
                AddAction::Connect,
            )
        } else {
            (
                StreamAddition { producer_id, phase: AddPhase::Over },
                effects,
                AddAction::Finished(
                    Err(ErrorText::TooManyStreams { max: MAX_RECV_STREAMS as u64 }),
                ),
            )
        }
    }

    /// Takes what came of a step. A stream whose output cannot be opened is reported as an
    /// error and stays up: an output that is chosen later plays it.
    pub fn step(&mut self, pl: &mut PipelineState, ev: AddEvent) -> (r: (Vec<Effect>, AddAction))
        requires
            old(pl).wf(),
            old(self).fits(*old(pl)),
            old(self).expects(ev),
        ensures
            final(pl).wf(),
            final(self).producer_id == old(self).producer_id,
            final(self).fits(*final(pl)),
            r.1 is Finished <==> final(self).phase is Over,
            match old(self).phase {
                AddPhase::Connecting => match ev {
                    AddEvent::Connected { port, srtp } => {
                        let epoch = crate::pipeline::epoch_after(old(pl).reception.epoch, 1);
                        &&& crate::pipeline::only_reception(*old(pl), *final(pl))
                        &&& final(pl).reception.epoch == epoch
                        &&& final(pl).reception.decode_running
                        &&& final(pl).reception.streams@ == old(pl).reception.streams@.push(
                            crate::pipeline::RecvStream {
                                producer_id: old(self).producer_id,
                                epoch,
                            },
                        )
                        &&& r.0@ == (if old(pl).reception.decode_running {
                            Seq::<Effect>::empty()
                        } else {
                            seq![Effect::StartDecodeThread]
                        }) + seq![
                            Effect::StartReceive { producer_id: old(self).producer_id, epoch },
                        ]
                        &&& if !old(pl).driver.playback_open && !old(pl).driver.asio_host_open {
                            &&& r.1 == (AddAction::OpenOutput { id: old(pl).output_device_id })
                            &&& final(self).phase == (AddPhase::OpeningOutput { port, srtp })
                        } else {
                            r.1 == AddAction::Finished(Ok((port, srtp)))
                        }
                    },
                    AddEvent::Failed { task, detail } => {
                        &&& r.1 == AddAction::Finished(Err((ErrorText::Failed { task, detail })))
                        &&& r.0@.len() == 0
                        &&& *final(pl) == *old(pl)
                    },
                    _ => true,
                },
                AddPhase::OpeningOutput { port, srtp } => match ev {
                    AddEvent::OutputOpened(o) => {
                        &&& r.0@.len() == 0
                        &&& crate::pipeline::only_driver(*old(pl), *final(pl))
                        &&& match o {
                            OutputOpen::Opened { buffer, .. } => {
                                &&& r.1 == AddAction::Finished(Ok((port, srtp)))
                                &&& final(pl).driver == (AudioDriver {
                                    playback_open: true,
                                    output_buffer_samples: buffer,
                                    ..old(pl).driver
                                })
                            },
                            OutputOpen::BuildFailed(e) => {
                                &&& r.1 matches AddAction::Finished(Err(t))
                                &&& t.text_chars() == "CPAL output: "@ + e@
                                &&& final(pl).driver == old(pl).driver
                            },
                            _ => {
                                &&& r.1 matches AddAction::Finished(Err(t))
                                &&& t.text_chars() == "output device introuvable"@
                                &&& final(pl).driver == old(pl).driver
                            },
                        }
                    },
                    _ => true,
                },
                AddPhase::Over => true,
            },
    {
        let mut phase = AddPhase::Over;
        std::mem::swap(&mut phase, &mut self.phase);
        let none: Vec<Effect> = Vec::new();
        match phase {
            AddPhase::Connecting => match ev {
                AddEvent::Connected { port, srtp } => {
                    let (effects, needs_output) = pl.stream_bound(self.producer_id.clone());
                    if needs_output {
                        self.phase = AddPhase::OpeningOutput { port, srtp };
                        (effects, AddAction::OpenOutput { id: pl.output_device_id.clone() })
                    } else {
                        (effects, AddAction::Finished(Ok((port, srtp))))
                    }
                },
                AddEvent::Failed { task, detail } => (
                    none,
                    AddAction::Finished(Err(ErrorText::Failed { task, detail })),
                ),
                _ => (none, AddAction::Finished(Err(ErrorText::AgentOverloaded))),
            },
            AddPhase::OpeningOutput { port, srtp } => match ev {
                AddEvent::OutputOpened(o) => match pl.output_opened(o) {
                    Ok(()) => (none, AddAction::Finished(Ok((port, srtp)))),
                    Err(t) => (none, AddAction::Finished(Err(ErrorText::Verbatim(t)))),
                },
                _ => (none, AddAction::Finished(Err(ErrorText::AgentOverloaded))),
            },
            AddPhase::Over => (none, AddAction::Finished(Err(ErrorText::AgentOverloaded))),
        }
    }
}

/// Where only the input changes, what is received goes on untouched.
pub proof fn a_hot_swap_keeps_the_peers(
    pre: PipelineState,
    host: HostKind,
    choice: CaptureChoice,
    post: PipelineState,
    start: CaptureStart,
    effects: Seq<Effect>,
    action: StartAction,
)
    requires
        begun(pre, host, choice, post, start, effects, action),
        choice.session_continues,
    ensures
        post.reception == pre.reception,
        forall|i: int|
            0 <= i < effects.len() ==> !(#[trigger] effects[i] is StopReceive) && !(effects[i]
                is StopDecodeThread),
{
}

/// A new session takes the input, whatever was cut in the one before; where the session goes
/// on an input that is cut stays cut.
pub proof fn a_new_session_takes_the_input(
    pre: PipelineState,
    host: HostKind,
    choice: CaptureChoice,
    built: BuiltDuplex,
    audio: AcquiredAudio,
    post: PipelineState,
)
    requires
        opened(pre, host, choice, built, audio, post),
    ensures
        !choice.session_continues ==> !post.session.input_cut,
        choice.session_continues ==> post.session.input_cut == pre.session.input_cut,
{
}

/// An ASIO driver that a session has opened serves the next one, as long as the same devices
/// are wanted.
pub proof fn an_opened_driver_serves_again(
    pre: PipelineState,
    choice: CaptureChoice,
    built: BuiltDuplex,
    audio: AcquiredAudio,
    post: PipelineState,
)
    requires
        opened(pre, HostKind::Asio, choice, built, audio, post),
    ensures
        reusable(post, HostKind::Asio),
{
}

/// The answer to a request to add a stream.
pub fn stream_reply(producer_id: String, result: Result<(u16, SrtpParameters), ErrorText>) -> (r:
    Vec<AgentMessage>)
    ensures
        r@ == match result {
            Ok((port, srtp_parameters)) => seq![
                AgentMessage::LocalPort {
                    key: ErrorKey::Producer(producer_id),
                    port,
                    srtp_parameters,
                },
            ],
            Err(message) => seq![
                AgentMessage::Error { message, key: ErrorKey::Producer(producer_id) },
            ],
        },
{
    match result {
        Ok((port, srtp_parameters)) => one(
            AgentMessage::LocalPort {
                key: ErrorKey::Producer(producer_id),
                port,
                srtp_parameters,
            },
        ),
        Err(message) => one(AgentMessage::Error { message, key: ErrorKey::Producer(producer_id) }),
    }
}

/// A warm ASIO driver that is open for the same devices is taken over: nothing is opened or
/// closed, the session has its channels and its rate, and what piled up meanwhile is drained.
pub proof fn a_warm_driver_is_taken_over(
    pre: PipelineState,
    choice: CaptureChoice,
    post: PipelineState,
    start: CaptureStart,
    effects: Seq<Effect>,
    action: StartAction,
)
    requires
        begun(pre, HostKind::Asio, choice, post, start, effects, action),
        pre.driver.capture_open || pre.driver.asio_host_open,
        pre.driver.warm is Some,
        pre.driver.warm->0.input_id == pre.input_device_id,
        pre.driver.warm->0.output_id == pre.output_device_id,
    ensures
        ({
            let w = pre.driver.warm->0;
            &&& action is Connect
            &&& start.phase matches StartPhase::Connecting { audio, sel } && {
                &&& choice.channel_index is Some && choice.channel_index->0 < w.channels_in
                    ==> sel == ChannelSel::Mono(choice.channel_index->0)
                &&& choice.channel_index is None && choice.stereo_start is Some
                    && choice.stereo_start->0 + 1 < w.channels_in ==> sel
                    == ChannelSel::StereoPair(choice.stereo_start->0)
                &&& choice.channel_index is None && choice.stereo_start is None ==> sel
                    == ChannelSel::Default
                &&& audio.channels_in == w.channels_in
                &&& audio.native_sr == w.native_sr
                &&& audio.input_buf == w.input_buf
                &&& audio.in_name == w.in_name && audio.output_name == w.in_name
                &&& audio.resolved_input_id == w.resolved_input_id
                &&& !audio.output_fallback
            }
            &&& post.session.capture_channels_in == w.channels_in
            &&& post.session.capture_native_sr == w.native_sr
            &&& post.session.voice_tap && !post.session.voice_active
            &&& choice.session_continues ==> post.session.input_cut == pre.session.input_cut
            &&& !choice.session_continues ==> !post.session.input_cut
            &&& post.driver.playback_open == pre.driver.playback_open
            &&& post.driver.input_buffer_samples == w.input_buf
            &&& post.driver.capture_open == pre.driver.capture_open
            &&& post.driver.asio_host_open == pre.driver.asio_host_open
            &&& post.driver.warm is Some && post.driver.warm->0.parked_since is None
            &&& effects.len() > 0 && effects.last() == Effect::DrainCapture
            &&& !effects.contains(Effect::CloseAsioHost)
        }),
{
    let t = teardown_effects(pre, choice.session_continues);
    assert(effects == t.push(Effect::DrainCapture));
    assert forall|i: int| 0 <= i < effects.len() implies effects[i] != Effect::CloseAsioHost by {
        if i < t.len() {
            assert(effects[i] == t[i]);
        }
    }
}

/// Otherwise what is open is closed and the chosen devices are opened anew, each for its own
/// direction; an apartment that is due for it is recycled first.
pub proof fn other_devices_are_opened_anew(
    pre: PipelineState,
    host: HostKind,
    choice: CaptureChoice,
    post: PipelineState,
    start: CaptureStart,
    effects: Seq<Effect>,
    action: StartAction,
)
    requires
        begun(pre, host, choice, post, start, effects, action),
        host != HostKind::Asio || pre.driver.warm is None || !pre.driver.capture_open
            && !pre.driver.asio_host_open || pre.driver.warm->0.input_id is Some
            != pre.input_device_id is Some || pre.driver.warm->0.output_id is Some
            != pre.output_device_id is Some || pre.input_device_id is Some
            && pre.driver.warm->0.input_id->0@ != pre.input_device_id->0@
            || pre.output_device_id is Some && pre.driver.warm->0.output_id->0@
            != pre.output_device_id->0@,
    ensures
        action == (StartAction::Open {
            input_id: pre.input_device_id,
            output_id: pre.output_device_id,
        }),
        start.phase is Opening,
        start.host == host && start.choice == choice,
        !post.driver.capture_open && !post.driver.playback_open && !post.driver.asio_host_open,
        post.driver.capture_channel && post.driver.warm is None,
        !post.com_recycle_pending,
        pre.com_recycle_pending <==> effects.last() == Effect::RecycleCom,
{
    let tail = teardown_effects(pre, choice.session_continues) + close_effects(pre.driver);
    assert(tail.last() == Effect::SetAsioActive(false));
    if pre.com_recycle_pending {
        assert(effects == tail + seq![Effect::RecycleCom]);
        assert(effects.last() == Effect::RecycleCom);
    } else {
        assert(effects =~= tail);
    }
}

/// Whatever is opened, the session before it is over: nothing is encoded and no voice taken,
/// and, unless the session goes on, nothing received. What was chosen stays chosen.
pub proof fn a_start_ends_what_ran_before(
    pre: PipelineState,
    host: HostKind,
    choice: CaptureChoice,
    post: PipelineState,
    start: CaptureStart,
    effects: Seq<Effect>,
    action: StartAction,
)
    requires
        begun(pre, host, choice, post, start, effects, action),
    ensures
        !post.session.encoder_running && !post.session.capture_feeding,
        !post.session.voice_active,
        post.session.voice_gain == pre.session.voice_gain,
        !choice.session_continues ==> post.reception.streams@.len() == 0
            && !post.reception.decode_running,
        post.reception.epoch == pre.reception.epoch,
        post.input_device_id == pre.input_device_id,
        post.output_device_id == pre.output_device_id,
        post.plugin == pre.plugin && post.input_source == pre.input_source,
        post.state == pre.state && post.recording == pre.recording,
{
}

/// What was opened is kept: the session has its channels and its rate, the streams are open,
/// and an ASIO driver stays warm under the devices that it was opened for.
pub proof fn what_was_opened_is_kept(
    pre: PipelineState,
    host: HostKind,
    choice: CaptureChoice,
    built: BuiltDuplex,
    audio: AcquiredAudio,
    post: PipelineState,
)
    requires
        opened(pre, host, choice, built, audio, post),
    ensures
        post.session.capture_channels_in == audio.channels_in,
        post.session.capture_native_sr == audio.native_sr,
        post.session.voice_tap && !post.session.voice_active,
        post.session.voice_gain == pre.session.voice_gain,
        post.driver.capture_open || post.driver.asio_host_open,
        host == HostKind::Asio ==> {
            &&& post.driver.warm matches Some(w)
            &&& w.input_id == pre.input_device_id && w.output_id == pre.output_device_id
            &&& w.channels_in == audio.channels_in && w.native_sr == audio.native_sr
            &&& w.input_buf == audio.input_buf && w.in_name == audio.in_name
            &&& w.resolved_input_id == audio.resolved_input_id
            &&& w.parked_since is None
        },
        host != HostKind::Asio ==> post.driver.warm == pre.driver.warm,
        post.reception == pre.reception && post.state == pre.state,
        post.recording == pre.recording && post.com_recycle_pending == pre.com_recycle_pending,
        post.output_device_id == pre.output_device_id && post.input_source == pre.input_source,
        post.session.encoder_running == pre.session.encoder_running,
        post.input_device_id == pre.input_device_id && post.plugin == pre.plugin,
{
}

/// The browser learns of the device that was opened, not of the one that was asked for.
pub proof fn the_browser_learns_what_was_opened(audio: AcquiredAudio)
    ensures
        started_info(audio).device_id == audio.resolved_input_id,
        started_info(audio).device_name == audio.in_name,
        started_info(audio).channels == audio.channels_in,
        started_info(audio).native_sample_rate == audio.native_sr,
        started_info(audio).output_name == audio.output_name,
        started_info(audio).output_fallback == audio.output_fallback,
{
}

/// A stream that is added takes the place of an earlier one of its producer, and of no other;
/// sixteen are received at most.
pub proof fn an_added_stream_replaces_its_own(
    pre: PipelineState,
    producer_id: String,
    post: PipelineState,
    addition: StreamAddition,
    effects: Seq<Effect>,
    action: AddAction,
    at: int,
)
    requires
        addition_begun(pre, producer_id, post, addition, effects, action),
        0 <= at <= pre.reception.streams@.len(),
        at < pre.reception.streams@.len() ==> pre.reception.streams@[at].producer_id@
            == producer_id@,
        forall|k: int|
            0 <= k < at ==> (#[trigger] pre.reception.streams@[k]).producer_id@ != producer_id@,
    ensures
        addition.producer_id == producer_id,
        at < pre.reception.streams@.len() ==> {
            &&& post.reception.streams@ == pre.reception.streams@.remove(at)
            &&& effects.len() == 1
            &&& effects[0] is StopReceive
            &&& effects[0]->StopReceive_producer_id@ == producer_id@
        },
        at == pre.reception.streams@.len() ==> post.reception.streams@ == pre.reception.streams@
            && effects.len() == 0,
        post.reception.streams@.len() < 16 ==> action is Connect,
        post.reception.streams@.len() >= 16 ==> action == AddAction::Finished(
            Err((ErrorText::TooManyStreams { max: 16 })),
        ),
        post.driver == pre.driver && post.session == pre.session && post.state == pre.state,
        post.reception.epoch == pre.reception.epoch,
{
    assert forall|k: int| 0 <= k < at implies crate::keyed::Keyed::key(
        &(#[trigger] pre.reception.streams@[k]),
    ) != producer_id@ by {
        assert(pre.reception.streams@[k].producer_id@ != producer_id@);
    }
    crate::keyed::lemma_index_is(pre.reception.streams@, producer_id@, at);
}

} // verus!
