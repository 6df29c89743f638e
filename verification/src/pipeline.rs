//! The agent's audio pipeline: which streams, threads and sessions are up, and what every
//! command changes.
//!
//! A command changes the state and gives the effects to carry out, in order. Where the
//! outcome of outside work decides, the command comes in two halves, and the second one
//! takes the outcome.
//!
//! On ASIO the driver is kept warm when a studio is left: tearing it down and bringing it
//! up again in quick succession makes some drivers freeze, or run in silence.

use crate::audio_open::{BuiltDuplex, CaptureStartError, CaptureStartedInfo, HostKind, OutputOpen};
use crate::channels::{effective_selection, selection, ChannelSel};
use crate::clock::Instant;
use crate::keyed::{distinct, find, index_of, lemma_index, lemma_removed, Keyed};
use crate::messages::ErrorText;
use crate::option_text::{chars_of, same_option};
use crate::plugin::Platform;
use crate::plugin_control::PluginControl;
use crate::text;
use vstd::prelude::*;
use vstd::string::*;

verus! {

#[derive(Clone, Copy, Debug, PartialEq, Eq, Structural)]
pub enum AgentState {
    Idle,
    Capturing,
}

/// Where the instrument's signal comes from.
#[derive(Debug)]
pub enum InputSource {
    Audio,
    /// A MIDI device, by its id.
    Midi(String),
}

impl InputSource {
    pub fn duplicate(&self) -> (r: InputSource)
        ensures
            r == *self,
    {
        match self {
            InputSource::Audio => InputSource::Audio,
            InputSource::Midi(id) => InputSource::Midi(id.clone()),
        }
    }
}

/// Where MIDI events come from.
#[derive(Clone, Copy, Debug, PartialEq, Eq, Structural)]
pub enum MidiRoute {
    Nowhere,
    /// The virtual port that the agent offers.
    VirtualPort,
    /// A device that is held open.
    Device,
}

/// What a change of the input source still needs.
#[derive(Debug)]
pub enum SourceStep {
    /// Nothing: the source has changed.
    Changed,
    /// The device is to be opened.
    OpenDevice { device_id: String },
    /// The virtual port does not exist.
    NoVirtualPort,
}

/// Outside work that a command calls for.
#[derive(Debug)]
pub enum Effect {
    StopEncoder,
    AddSelfMonitor,
    RemoveSelfMonitor,
    ResetSelfMonitor,
    /// Empty the jitter buffers of what piled up while the output stood still.
    ResetStreamsForRecovery,
    StartReceive { producer_id: String, epoch: u64 },
    StopReceive { producer_id: String },
    StartDecodeThread,
    StopDecodeThread,
    DropResetGuard,
    CloseCapture,
    ClosePlayback,
    CloseAsioHost,
    /// Allow or forbid enumeration of the ASIO driver.
    SetAsioActive(bool),
    /// Leave and enter the COM apartment anew.
    RecycleCom,
    /// Discard what the warm driver captured while nobody listened.
    DrainCapture,
    AttachRecorder,
    DetachRecorder,
    /// Finalise the recording and discard its files.
    DiscardRecording,
    RemoveVoiceTap,
    CloseMidiInput,
}

/// A driver that is kept open across sessions.
#[derive(Debug)]
pub struct WarmAudio {
    pub input_id: Option<String>,
    pub output_id: Option<String>,
    pub channels_in: u16,
    pub native_sr: u32,
    pub resolved_input_id: String,
    pub in_name: String,
    pub input_buf: Option<u32>,
    /// When the studio was left; nothing while a session uses the driver.
    pub parked_since: Option<Instant>,
}

/// The streams that are open, and what is known of them.
#[derive(Debug)]
pub struct AudioDriver {
    pub capture_open: bool,
    pub playback_open: bool,
    pub asio_host_open: bool,
    /// The channel from capture to encoder exists.
    pub capture_channel: bool,
    pub reset_guard: bool,
    pub warm: Option<WarmAudio>,
    /// Size of the buffers that was agreed on, in samples.
    pub input_buffer_samples: Option<u32>,
    pub output_buffer_samples: Option<u32>,
    /// Size that the callbacks were seen to have; 0 until one was seen.
    pub input_frames: u32,
    pub output_frames: u32,
}

impl AudioDriver {
    /// A driver that is closed.
    pub open spec fn closed() -> AudioDriver {
        AudioDriver {
            capture_open: false,
            playback_open: false,
            asio_host_open: false,
            capture_channel: false,
            reset_guard: false,
            warm: None,
            input_buffer_samples: None,
            output_buffer_samples: None,
            input_frames: 0,
            output_frames: 0,
        }
    }

    /// Is the input open, on either path?
    pub open spec fn streams_open(self) -> bool {
        self.capture_open || self.asio_host_open
    }
}

/// The session: encoder, voice and what is captured.
#[derive(Debug)]
pub struct Session {
    pub encoder_running: bool,
    /// The encoder takes what is captured; otherwise it is thrown away.
    pub capture_feeding: bool,
    /// The running capture can be tapped for the voice.
    pub voice_tap: bool,
    pub voice_active: bool,
    pub capture_channels_in: u16,
    pub capture_native_sr: u32,
    pub input_cut: bool,
    /// Bits of the voice's gain.
    pub voice_gain: u32,
    /// Bits of the input's level.
    pub input_rms: u32,
}

impl Session {
    /// The session after it was torn down.
    pub open spec fn torn_down(self) -> Session {
        Session {
            encoder_running: false,
            capture_feeding: false,
            voice_tap: false,
            voice_active: false,
            ..self
        }
    }
}

/// A stream that is received.
#[derive(Debug)]
pub struct RecvStream {
    pub producer_id: String,
    pub epoch: u64,
}

/// Most streams that are received at a time.
pub const MAX_RECV_STREAMS: usize = 16;

#[derive(Debug)]
pub struct Reception {
    pub streams: Vec<RecvStream>,
    pub decode_running: bool,
    /// Generation of the youngest stream.
    pub epoch: u64,
}

impl Keyed for RecvStream {
    open spec fn key(&self) -> Seq<char> {
        self.producer_id@
    }

    fn key_text(&self) -> (r: &str) {
        self.producer_id.as_str()
    }
}

/// The generation that is reached from another with so many streams. It begins anew when the
/// range is used up.
pub open spec fn epoch_after(epoch: u64, streams: nat) -> u64 {
    ((epoch + streams) % 0x1_0000_0000_0000_0000) as u64
}

/// The streams without the one of a producer.
pub open spec fn without_stream(streams: Seq<RecvStream>, id: Seq<char>) -> Seq<RecvStream> {
    let i = index_of(streams, id);
    if i < streams.len() {
        streams.remove(i)
    } else {
        streams
    }
}

/// The effects that end the stream of a producer.
pub open spec fn removal_effects(streams: Seq<RecvStream>, id: Seq<char>) -> Seq<Effect> {
    let i = index_of(streams, id);
    if i < streams.len() {
        seq![Effect::StopReceive { producer_id: streams[i].producer_id }]
    } else {
        Seq::empty()
    }
}

/// The effects that end every stream.
pub open spec fn stop_effects(streams: Seq<RecvStream>) -> Seq<Effect> {
    Seq::new(
        streams.len(),
        |i: int| Effect::StopReceive { producer_id: streams[i].producer_id },
    )
}

/// Where the audio devices of a session come from.
#[derive(Debug)]
pub enum AudioAcquisition {
    /// The warm driver serves again.
    Reused(AcquiredAudio),
    /// The devices are to be opened.
    Open { input_id: Option<String>, output_id: Option<String> },
}

/// The devices that a session runs on.
#[derive(Debug)]
pub struct AcquiredAudio {
    pub channels_in: u16,
    pub native_sr: u32,
    pub input_buf: Option<u32>,
    pub in_name: String,
    pub resolved_input_id: String,
    pub output_name: String,
    pub output_fallback: bool,
}

/// The whole state.
#[derive(Debug)]
pub struct PipelineState {
    pub driver: AudioDriver,
    pub session: Session,
    pub reception: Reception,
    pub input_device_id: Option<String>,
    pub output_device_id: Option<String>,
    pub state: AgentState,
    pub recording: bool,
    /// The driver was given up while idle: the apartment is recycled before it is opened
    /// again.
    pub com_recycle_pending: bool,
    pub plugin: PluginControl,
    pub input_source: InputSource,
    pub midi_route: MidiRoute,
}

/// The effects of tearing a session down.
pub open spec fn teardown_effects(s: PipelineState, preserve_peers: bool) -> Seq<Effect> {
    let encoder = if s.session.encoder_running {
        seq![Effect::StopEncoder]
    } else {
        Seq::empty()
    };
    let peers = if preserve_peers {
        Seq::empty()
    } else {
        stop_effects(s.reception.streams@) + if s.reception.decode_running {
            seq![Effect::StopDecodeThread]
        } else {
            Seq::empty()
        }
    };
    encoder + seq![Effect::RemoveSelfMonitor] + peers
}

/// The effects of closing the streams: the reset guard goes while the driver is still
/// held.
pub open spec fn close_stream_effects(d: AudioDriver) -> Seq<Effect> {
    let guard = if d.reset_guard {
        seq![Effect::DropResetGuard]
    } else {
        Seq::empty()
    };
    let capture = if d.capture_open {
        seq![Effect::CloseCapture]
    } else {
        Seq::empty()
    };
    let playback = if d.playback_open {
        seq![Effect::ClosePlayback]
    } else {
        Seq::empty()
    };
    let host = if d.asio_host_open {
        seq![Effect::CloseAsioHost]
    } else {
        Seq::empty()
    };
    guard + capture + playback + host
}

/// A stream of its own, where there is no host for both.
#[derive(Clone, Copy, Debug, PartialEq, Eq, Structural)]
pub enum Direction {
    Capture,
    Playback,
}

/// Closes a stream, if it is open. Like the host, it is dropped on the thread that made it.
pub fn close_stream_on_com(open: bool, direction: Direction, effects: &mut Vec<Effect>)
    ensures
        final(effects)@ == if !open {
            old(effects)@
        } else {
            match direction {
                Direction::Capture => old(effects)@.push(Effect::CloseCapture),
                Direction::Playback => old(effects)@.push(Effect::ClosePlayback),
            }
        },
{
    if open {
        match direction {
            Direction::Capture => effects.push(Effect::CloseCapture),
            Direction::Playback => effects.push(Effect::ClosePlayback),
        }
    }
}

/// Closes the host, if it is open. It is dropped on the thread that made it: a driver does
/// not bear to be stopped from another one.
pub fn close_host_on_com(open: bool, effects: &mut Vec<Effect>)
    ensures
        final(effects)@ == if open {
            old(effects)@.push(Effect::CloseAsioHost)
        } else {
            old(effects)@
        },
{
    if open {
        effects.push(Effect::CloseAsioHost);
    }
}

/// The effects of closing the driver.
pub open spec fn close_effects(d: AudioDriver) -> Seq<Effect> {
    close_stream_effects(d) + seq![Effect::SetAsioActive(false)]
}

/// The effects of ending a recording whose files nobody waits for.
pub open spec fn discard_effects(recording: bool) -> Seq<Effect> {
    if recording {
        seq![Effect::DetachRecorder, Effect::DiscardRecording]
    } else {
        Seq::empty()
    }
}

impl PipelineState {
    pub open spec fn wf(self) -> bool {
        &&& self.reception.streams@.len() <= MAX_RECV_STREAMS
        &&& distinct(self.reception.streams@)
    }

    /// Everything but the driver, the session, the reception, the state, the recording and
    /// the mark for recycling is the same.
    pub open spec fn same_settings(self, other: PipelineState) -> bool {
        &&& self.input_device_id == other.input_device_id
        &&& self.output_device_id == other.output_device_id
        &&& self.plugin == other.plugin
        &&& self.input_source == other.input_source
        &&& self.midi_route == other.midi_route
    }

    /// Nothing is received.
    pub open spec fn reception_over(self, before: PipelineState) -> bool {
        &&& self.reception.streams@.len() == 0
        &&& !self.reception.decode_running
        &&& self.reception.epoch == before.reception.epoch
    }

    pub fn new() -> (r: PipelineState)
        ensures
            r.wf(),
            r.driver == AudioDriver::closed(),
            r.session == (Session {
                encoder_running: false,
                capture_feeding: false,
                voice_tap: false,
                voice_active: false,
                capture_channels_in: 0,
                capture_native_sr: 0,
                input_cut: false,
                voice_gain: 0x3f80_0000,
                input_rms: 0,
            }),
            r.reception.streams@.len() == 0,
            !r.reception.decode_running,
            r.reception.epoch == 0,
            r.input_device_id is None,
            r.output_device_id is None,
            r.state == AgentState::Idle,
            !r.recording,
            !r.com_recycle_pending,
            r.plugin.instrument_plugin_handle is None,
            r.plugin.instrument_plugin_info is None,
            !r.plugin.instrument_plugin_bypass,
            !r.plugin.plugin_auto_bypass_active,
            r.plugin.plugin_scan_cache is Scanning,
            r.input_source is Audio,
            r.midi_route == MidiRoute::Nowhere,
    {
        PipelineState {
            driver: AudioDriver {
                capture_open: false,
                playback_open: false,
                asio_host_open: false,
                capture_channel: false,
                reset_guard: false,
                warm: None,
                input_buffer_samples: None,
                output_buffer_samples: None,
                input_frames: 0,
                output_frames: 0,
            },
            session: Session {
                encoder_running: false,
                capture_feeding: false,
                voice_tap: false,
                voice_active: false,
                capture_channels_in: 0,
                capture_native_sr: 0,
                input_cut: false,
                voice_gain: 0x3f80_0000,
                input_rms: 0,
            },
            reception: Reception { streams: Vec::new(), decode_running: false, epoch: 0 },
            input_device_id: None,
            output_device_id: None,
            state: AgentState::Idle,
            recording: false,
            com_recycle_pending: false,
            plugin: PluginControl::new(),
            input_source: InputSource::Audio,
            midi_route: MidiRoute::Nowhere,
        }
    }

    /// Is the input open?
    pub fn has_active_capture_stream(&self) -> (r: bool)
        ensures
            r == self.driver.streams_open(),
    {
        self.driver.capture_open || self.driver.asio_host_open
    }

    /// Ends the stream of a producer, if there is one. Its task sends the last word of it
    /// to the decoder.
    pub fn remove_stream(&mut self, producer_id: &str, effects: &mut Vec<Effect>)
        requires
            old(self).wf(),
        ensures
            final(self).wf(),
            final(self).reception.streams@ == without_stream(
                old(self).reception.streams@,
                producer_id@,
            ),
            final(self).reception.decode_running == old(self).reception.decode_running,
            final(self).reception.epoch == old(self).reception.epoch,
            final(self).driver == old(self).driver,
            final(self).session == old(self).session,
            final(self).state == old(self).state,
            final(self).recording == old(self).recording,
            final(self).com_recycle_pending == old(self).com_recycle_pending,
            final(self).same_settings(*old(self)),
            final(effects)@ == old(effects)@ + removal_effects(
                old(self).reception.streams@,
                producer_id@,
            ),
    {
        let i: usize = find(&self.reception.streams, producer_id);
        if i < self.reception.streams.len() {
            let gone = self.reception.streams.remove(i);
            effects.push(Effect::StopReceive { producer_id: gone.producer_id });
            proof {
                lemma_removed(old(self).reception.streams@, producer_id@);
            }
        }
        assert(effects@ =~= old(effects)@ + removal_effects(
            old(self).reception.streams@,
            producer_id@,
        ));
    }

    /// Tears the session down and leaves the driver alone. What is received from others
    /// is kept where `preserve_peers`: it does not depend on what is captured.
    fn teardown_session(&mut self, preserve_peers: bool, effects: &mut Vec<Effect>)
        requires
            old(self).wf(),
        ensures
            final(self).wf(),
            final(self).session == old(self).session.torn_down(),
            preserve_peers ==> final(self).reception == old(self).reception,
            !preserve_peers ==> final(self).reception_over(*old(self)),
            final(self).driver == old(self).driver,
            final(self).state == old(self).state,
            final(self).recording == old(self).recording,
            final(self).com_recycle_pending == old(self).com_recycle_pending,
            final(self).same_settings(*old(self)),
            final(effects)@ == old(effects)@ + teardown_effects(*old(self), preserve_peers),
    {
        self.session.capture_feeding = false;
        if self.session.encoder_running {
            effects.push(Effect::StopEncoder);
        }
        self.session.encoder_running = false;
        self.session.voice_tap = false;
        self.session.voice_active = false;
        effects.push(Effect::RemoveSelfMonitor);
        if !preserve_peers {
            let ghost head = effects@;
            let ghost all = self.reception.streams@;
            let mut i: usize = 0;
            while i < self.reception.streams.len()
                invariant
                    i <= self.reception.streams@.len(),
                    self.reception.streams@ == all,
                    effects@ == head + stop_effects(all).take(i as int),
                decreases self.reception.streams@.len() - i,
            {
                let producer_id = self.reception.streams[i].producer_id.clone();
                effects.push(Effect::StopReceive { producer_id });
                assert(effects@ =~= head + stop_effects(all).take(i + 1));
                i = i + 1;
            }
            assert(stop_effects(all).take(i as int) =~= stop_effects(all));
            self.reception.streams.clear();
            if self.reception.decode_running {
                effects.push(Effect::StopDecodeThread);
                self.reception.decode_running = false;
            }
        }
        assert(effects@ =~= old(effects)@ + teardown_effects(*old(self), preserve_peers));
    }

    /// Closes the streams for good or for a reset.
    fn close_streams(&mut self, effects: &mut Vec<Effect>)
        ensures
            final(self).driver == (AudioDriver {
                capture_open: false,
                playback_open: false,
                asio_host_open: false,
                reset_guard: false,
                input_buffer_samples: None,
                output_buffer_samples: None,
                ..old(self).driver
            }),
            final(self).session == old(self).session,
            final(self).reception == old(self).reception,
            final(self).state == old(self).state,
            final(self).recording == old(self).recording,
            final(self).com_recycle_pending == old(self).com_recycle_pending,
            final(self).same_settings(*old(self)),
            final(effects)@ == old(effects)@ + close_stream_effects(old(self).driver),
    {
        if self.driver.reset_guard {
            effects.push(Effect::DropResetGuard);
        }
        self.driver.reset_guard = false;
        close_stream_on_com(self.driver.capture_open, Direction::Capture, effects);
        self.driver.capture_open = false;
        close_stream_on_com(self.driver.playback_open, Direction::Playback, effects);
        self.driver.playback_open = false;
        close_host_on_com(self.driver.asio_host_open, effects);
        self.driver.asio_host_open = false;
        self.driver.input_buffer_samples = None;
        self.driver.output_buffer_samples = None;
        assert(effects@ =~= old(effects)@ + close_stream_effects(old(self).driver));
    }

    /// Closes the driver and gives the device free. The session is no part of this.
    fn close_audio_driver(&mut self, effects: &mut Vec<Effect>)
        ensures
            final(self).driver == AudioDriver::closed(),
            final(self).session == old(self).session,
            final(self).reception == old(self).reception,
            final(self).state == old(self).state,
            final(self).recording == old(self).recording,
            final(self).com_recycle_pending == old(self).com_recycle_pending,
            final(self).same_settings(*old(self)),
            final(effects)@ == old(effects)@ + close_effects(old(self).driver),
    {
        self.driver.input_frames = 0;
        self.driver.output_frames = 0;
        let ghost d = self.driver;
        self.close_streams(effects);
        effects.push(Effect::SetAsioActive(false));
        self.driver.capture_channel = false;
        self.driver.warm = None;
        assert(effects@ =~= old(effects)@ + close_effects(old(self).driver));
    }

    /// Ends a recording whose files nobody waits for.
    pub fn stop_recording(&mut self, effects: &mut Vec<Effect>)
        ensures
            *final(self) == (PipelineState { recording: false, ..*old(self) }),
            final(effects)@ == old(effects)@ + discard_effects(old(self).recording),
    {
        if self.recording {
            effects.push(Effect::DetachRecorder);
            effects.push(Effect::DiscardRecording);
            self.recording = false;
        }
        assert(effects@ =~= old(effects)@ + discard_effects(old(self).recording));
    }
}

/// The driver as it is left when a studio is left with the driver warm.
pub open spec fn parked_driver(d: AudioDriver, now: Instant) -> AudioDriver {
    AudioDriver {
        warm: match d.warm {
            Some(w) => Some(WarmAudio { parked_since: Some(now), ..w }),
            None => None,
        },
        input_buffer_samples: None,
        ..d
    }
}

/// `post` is what leaving the studio makes of `pre` where the driver stays warm.
pub open spec fn parked(
    pre: PipelineState,
    now: Instant,
    post: PipelineState,
    effects: Seq<Effect>,
) -> bool {
    &&& post.driver == parked_driver(pre.driver, now)
    &&& post.session == pre.session.torn_down()
    &&& post.reception_over(pre)
    &&& post.state == AgentState::Idle
    &&& !post.recording
    &&& post.com_recycle_pending == pre.com_recycle_pending
    &&& post.same_settings(pre)
    &&& effects == discard_effects(pre.recording) + teardown_effects(pre, false)
}

/// `post` is what a full stop makes of `pre`: session first, then the driver.
pub open spec fn stopped(pre: PipelineState, post: PipelineState, effects: Seq<Effect>) -> bool {
    &&& post.driver == AudioDriver::closed()
    &&& post.session == pre.session.torn_down()
    &&& post.reception_over(pre)
    &&& post.state == AgentState::Idle
    &&& !post.recording
    &&& post.com_recycle_pending == pre.com_recycle_pending
    &&& post.same_settings(pre)
    &&& effects == discard_effects(pre.recording) + teardown_effects(pre, false) + close_effects(
        pre.driver,
    )
}

/// `post` is what leaving the studio makes of `pre`.
pub open spec fn left(
    host: HostKind,
    pre: PipelineState,
    now: Instant,
    post: PipelineState,
    effects: Seq<Effect>,
) -> bool {
    if host == HostKind::Asio && pre.driver.warm is Some {
        if pre.state == AgentState::Capturing {
            parked(pre, now, post, effects)
        } else {
            post == pre && effects == Seq::<Effect>::empty()
        }
    } else {
        stopped(pre, post, effects)
    }
}

/// Has the driver been parked for the grace period?
pub open spec fn grace_expired(d: AudioDriver, now: Instant, grace_ms: u64) -> bool {
    match d.warm {
        Some(w) => match w.parked_since {
            Some(t) => now.nanos_since(t) >= grace_ms * 1_000_000,
            None => false,
        },
        None => false,
    }
}

/// Is the warm driver open, and for these devices?
pub open spec fn reusable(s: PipelineState, host: HostKind) -> bool {
    &&& host == HostKind::Asio
    &&& s.driver.streams_open()
    &&& s.driver.warm matches Some(w)
    &&& chars_of(w.input_id) == chars_of(s.input_device_id)
    &&& chars_of(w.output_id) == chars_of(s.output_device_id)
}

impl PipelineState {
    fn park(&mut self, now: Instant, effects: &mut Vec<Effect>)
        requires
            old(self).wf(),
            old(effects)@.len() == 0,
        ensures
            final(self).wf(),
            parked(*old(self), now, *final(self), final(effects)@),
    {
        self.stop_recording(effects);
        self.teardown_session(false, effects);
        let warm = self.driver.warm.take();
        self.driver.warm = match warm {
            Some(w) => {
                let mut w = w;
                w.parked_since = Some(now);
                Some(w)
            },
            None => None,
        };
        self.driver.input_buffer_samples = None;
        self.state = AgentState::Idle;
        assert(effects@ =~= discard_effects(old(self).recording) + teardown_effects(
            *old(self),
            false,
        ));
    }

    /// Stops everything and gives the device free.
    pub fn stop_all(&mut self) -> (effects: Vec<Effect>)
        requires
            old(self).wf(),
        ensures
            final(self).wf(),
            stopped(*old(self), *final(self), effects@),
    {
        let mut effects: Vec<Effect> = Vec::new();
        self.stop_recording(&mut effects);
        self.teardown_session(false, &mut effects);
        self.close_audio_driver(&mut effects);
        self.state = AgentState::Idle;
        assert(effects@ =~= discard_effects(old(self).recording) + teardown_effects(
            *old(self),
            false,
        ) + close_effects(old(self).driver));
        effects
    }

    /// Leaves the studio. A warm ASIO driver is parked if a capture runs, and left alone if
    /// it is parked already: leaving is often asked for twice. Otherwise everything stops.
    pub fn leave_session(&mut self, host: HostKind, now: Instant) -> (effects: Vec<Effect>)
        requires
            old(self).wf(),
        ensures
            final(self).wf(),
            left(host, *old(self), now, *final(self), effects@),
    {
        if host == HostKind::Asio && self.driver.warm.is_some() {
            let mut effects: Vec<Effect> = Vec::new();
            if self.state == AgentState::Capturing {
                self.park(now, &mut effects);
            }
            effects
        } else {
            self.stop_all()
        }
    }

    /// Gives a parked driver free once the grace period is over.
    pub fn close_warm_if_grace_expired(&mut self, now: Instant, grace_ms: u64) -> (r: (
        bool,
        Vec<Effect>,
    ))
        requires
            old(self).wf(),
            grace_ms * 1_000_000 <= u64::MAX,
        ensures
            final(self).wf(),
            r.0 == grace_expired(old(self).driver, now, grace_ms),
            !r.0 ==> *final(self) == *old(self) && r.1@.len() == 0,
            r.0 ==> {
                &&& final(self).driver == AudioDriver::closed()
                &&& final(self).com_recycle_pending
                &&& final(self).session == old(self).session
                &&& final(self).reception == old(self).reception
                &&& final(self).state == old(self).state
                &&& final(self).recording == old(self).recording
                &&& final(self).same_settings(*old(self))
                &&& r.1@ == close_effects(old(self).driver)
            },
    {
        let expired = match &self.driver.warm {
            Some(w) => match w.parked_since {
                Some(t) => now.elapsed_nanos(t) >= grace_ms * 1_000_000,
                None => false,
            },
            None => false,
        };
        let mut effects: Vec<Effect> = Vec::new();
        if expired {
            self.close_audio_driver(&mut effects);
            self.com_recycle_pending = true;
        }
        (expired, effects)
    }

    /// Acquires the devices for a session, first half. A warm driver that is open for the
    /// same devices serves again and is not opened anew. Otherwise everything is closed,
    /// and the devices are to be opened.
    pub fn prepare_audio_for_session(&mut self, host: HostKind, preserve_peers: bool) -> (r: (
        AudioAcquisition,
        Vec<Effect>,
    ))
        requires
            old(self).wf(),
        ensures
            final(self).wf(),
            final(self).session == old(self).session.torn_down(),
            preserve_peers ==> final(self).reception == old(self).reception,
            !preserve_peers ==> final(self).reception_over(*old(self)),
            final(self).state == old(self).state,
            final(self).recording == old(self).recording,
            final(self).same_settings(*old(self)),
            reusable(*old(self), host) ==> {
                let w = old(self).driver.warm->0;
                &&& final(self).driver == (AudioDriver {
                    warm: Some(WarmAudio { parked_since: None, ..w }),
                    input_buffer_samples: w.input_buf,
                    ..old(self).driver
                })
                &&& final(self).com_recycle_pending == old(self).com_recycle_pending
                &&& r.0 == AudioAcquisition::Reused(
                    (AcquiredAudio {
                        channels_in: w.channels_in,
                        native_sr: w.native_sr,
                        input_buf: w.input_buf,
                        in_name: w.in_name,
                        resolved_input_id: w.resolved_input_id,
                        output_name: w.in_name,
                        output_fallback: false,
                    }),
                )
                &&& r.1@ == teardown_effects(*old(self), preserve_peers).push(Effect::DrainCapture)
            },
            !reusable(*old(self), host) ==> {
                &&& final(self).driver == (AudioDriver {
                    capture_channel: true,
                    ..AudioDriver::closed()
                })
                &&& !final(self).com_recycle_pending
                &&& r.0 == (AudioAcquisition::Open {
                    input_id: old(self).input_device_id,
                    output_id: old(self).output_device_id,
                })
                &&& r.1@ == teardown_effects(*old(self), preserve_peers) + close_effects(
                    old(self).driver,
                ) + if old(self).com_recycle_pending {
                    seq![Effect::RecycleCom]
                } else {
                    Seq::empty()
                }
            },
    {
        let mut effects: Vec<Effect> = Vec::new();
        let fits = match &self.driver.warm {
            Some(w) => same_option(&w.input_id, &self.input_device_id) && same_option(
                &w.output_id,
                &self.output_device_id,
            ),
            None => false,
        };
        let reuse = host == HostKind::Asio && self.has_active_capture_stream() && fits;
        self.teardown_session(preserve_peers, &mut effects);
        assert(effects@ =~= teardown_effects(*old(self), preserve_peers));
        if reuse {
            let warm = self.driver.warm.take();
            match warm {
                Some(w) => {
                    let mut w = w;
                    w.parked_since = None;
                    effects.push(Effect::DrainCapture);
                    let a = AcquiredAudio {
                        channels_in: w.channels_in,
                        native_sr: w.native_sr,
                        input_buf: w.input_buf,
                        in_name: w.in_name.clone(),
                        resolved_input_id: w.resolved_input_id.clone(),
                        output_name: w.in_name.clone(),
                        output_fallback: false,
                    };
                    self.driver.input_buffer_samples = w.input_buf;
                    self.driver.warm = Some(w);
                    return (AudioAcquisition::Reused(a), effects);
                },
                None => {},
            }
        }
        self.close_audio_driver(&mut effects);
        if self.com_recycle_pending {
            effects.push(Effect::RecycleCom);
        }
        self.com_recycle_pending = false;
        self.driver.capture_channel = true;
        assert(effects@ =~= teardown_effects(*old(self), preserve_peers) + close_effects(
            old(self).driver,
        ) + if old(self).com_recycle_pending {
            seq![Effect::RecycleCom]
        } else {
            Seq::empty()
        });
        (
            AudioAcquisition::Open {
                input_id: self.input_device_id.clone(),
                output_id: self.output_device_id.clone(),
            },
            effects,
        )
    }
}

/// An opening for capture always builds the output, so its outcome is known.
pub open spec fn output_known(built: BuiltDuplex) -> bool {
    match built {
        BuiltDuplex::Cpal { output, .. } => output is Opened || output is BuildFailed,
        BuiltDuplex::Asio { .. } => true,
    }
}

/// The driver once the streams of `built` are held.
pub open spec fn with_streams(d: AudioDriver, built: BuiltDuplex) -> AudioDriver {
    match built {
        BuiltDuplex::Cpal { input, output } => {
            let d = AudioDriver {
                reset_guard: true,
                capture_open: true,
                input_buffer_samples: input.input_buf,
                ..d
            };
            match output {
                OutputOpen::Opened { buffer, .. } => AudioDriver {
                    playback_open: true,
                    output_buffer_samples: buffer,
                    ..d
                },
                _ => d,
            }
        },
        BuiltDuplex::Asio { buffer_size, .. } => AudioDriver {
            reset_guard: false,
            asio_host_open: true,
            input_buffer_samples: Some(buffer_size),
            output_buffer_samples: Some(buffer_size),
            ..d
        },
    }
}

/// What a session is told of the devices that were opened.
pub open spec fn acquired_from(built: BuiltDuplex, a: AcquiredAudio) -> bool {
    match built {
        BuiltDuplex::Cpal { input, output } => {
            &&& a.channels_in == input.channels
            &&& a.native_sr == input.native_sr
            &&& a.input_buf == input.input_buf
            &&& a.in_name == input.name
            &&& a.resolved_input_id == input.resolved_id
            &&& match output {
                OutputOpen::Opened { name, fallback_from, .. } => a.output_name == name
                    && a.output_fallback == (fallback_from is Some),
                _ => a.output_name@.len() == 0 && !a.output_fallback,
            }
        },
        BuiltDuplex::Asio { name, resolved_id, channels_in, native_sr, buffer_size } => {
            &&& a.channels_in == channels_in
            &&& a.native_sr == native_sr
            &&& a.input_buf == Some(buffer_size)
            &&& a.in_name == name
            &&& a.resolved_input_id == resolved_id
            &&& a.output_name == name
            &&& !a.output_fallback
        },
    }
}

/// The state but for the driver.
pub open spec fn only_driver(pre: PipelineState, post: PipelineState) -> bool {
    &&& post.session == pre.session
    &&& post.reception == pre.reception
    &&& post.state == pre.state
    &&& post.recording == pre.recording
    &&& post.com_recycle_pending == pre.com_recycle_pending
    &&& post.same_settings(pre)
}

impl PipelineState {
    fn hold_streams(&mut self, built: BuiltDuplex) -> (a: AcquiredAudio)
        requires
            output_known(built),
        ensures
            final(self).driver == with_streams(old(self).driver, built),
            only_driver(*old(self), *final(self)),
            acquired_from(built, a),
    {
        match built {
            BuiltDuplex::Cpal { input, output } => {
                self.driver.reset_guard = true;
                self.driver.capture_open = true;
                self.driver.input_buffer_samples = input.input_buf;
                let (output_name, output_fallback) = match output {
                    OutputOpen::Opened { buffer, name, fallback_from } => {
                        self.driver.playback_open = true;
                        self.driver.output_buffer_samples = buffer;
                        (name, fallback_from.is_some())
                    },
                    _ => (String::new(), false),
                };
                AcquiredAudio {
                    channels_in: input.channels,
                    native_sr: input.native_sr,
                    input_buf: input.input_buf,
                    in_name: input.name,
                    resolved_input_id: input.resolved_id,
                    output_name,
                    output_fallback,
                }
            },
            BuiltDuplex::Asio { name, resolved_id, channels_in, native_sr, buffer_size } => {
                self.driver.reset_guard = false;
                self.driver.asio_host_open = true;
                self.driver.input_buffer_samples = Some(buffer_size);
                self.driver.output_buffer_samples = Some(buffer_size);
                AcquiredAudio {
                    channels_in,
                    native_sr,
                    input_buf: Some(buffer_size),
                    in_name: name.clone(),
                    resolved_input_id: resolved_id,
                    output_name: name,
                    output_fallback: false,
                }
            },
        }
    }

    /// Acquires the devices for a session, second half: takes the streams that were
    /// opened. On ASIO what they are is remembered, so that the driver can serve again.
    pub fn finish_open(&mut self, host: HostKind, built: BuiltDuplex) -> (a: AcquiredAudio)
        requires
            old(self).wf(),
            output_known(built),
        ensures
            final(self).wf(),
            only_driver(*old(self), *final(self)),
            acquired_from(built, a),
            host != HostKind::Asio ==> final(self).driver == with_streams(old(self).driver, built),
            host == HostKind::Asio ==> final(self).driver == (AudioDriver {
                warm: Some(
                    WarmAudio {
                        input_id: old(self).input_device_id,
                        output_id: old(self).output_device_id,
                        channels_in: a.channels_in,
                        native_sr: a.native_sr,
                        resolved_input_id: a.resolved_input_id,
                        in_name: a.in_name,
                        input_buf: a.input_buf,
                        parked_since: None,
                    },
                ),
                ..with_streams(old(self).driver, built)
            }),
    {
        let a = self.hold_streams(built);
        if host == HostKind::Asio {
            self.driver.warm = Some(
                WarmAudio {
                    input_id: self.input_device_id.clone(),
                    output_id: self.output_device_id.clone(),
                    channels_in: a.channels_in,
                    native_sr: a.native_sr,
                    resolved_input_id: a.resolved_input_id.clone(),
                    in_name: a.in_name.clone(),
                    input_buf: a.input_buf,
                    parked_since: None,
                },
            );
        }
        a
    }

    /// The session on its devices, before the network is up: the voice can be tapped from
    /// now on, and a new session begins with the input on. A session that continues keeps
    /// an input that the user has cut.
    pub fn begin_session(
        &mut self,
        a: &AcquiredAudio,
        session_continues: bool,
        channel_index: Option<u8>,
        stereo_start: Option<u8>,
    ) -> (sel: ChannelSel)
        requires
            old(self).wf(),
        ensures
            final(self).wf(),
            sel == selection(channel_index, stereo_start, a.channels_in as nat),
            final(self).session == (Session {
                capture_channels_in: a.channels_in,
                capture_native_sr: a.native_sr,
                voice_active: false,
                voice_tap: true,
                input_cut: session_continues && old(self).session.input_cut,
                ..old(self).session
            }),
            *final(self) == (PipelineState { session: final(self).session, ..*old(self) }),
    {
        self.session.capture_channels_in = a.channels_in;
        self.session.capture_native_sr = a.native_sr;
        self.session.voice_active = false;
        if !session_continues {
            self.session.input_cut = false;
        }
        self.session.voice_tap = true;
        effective_selection(channel_index, stereo_start, a.channels_in)
    }

    /// The encoder is about to start: it can be stopped from now on, and the player's own
    /// sound is added to the mix.
    pub fn arm_encoder(&mut self) -> (effects: Vec<Effect>)
        requires
            old(self).wf(),
        ensures
            final(self).wf(),
            *final(self) == (PipelineState {
                session: Session { encoder_running: true, ..old(self).session },
                ..*old(self)
            }),
            effects@ == seq![Effect::AddSelfMonitor],
    {
        self.session.encoder_running = true;
        let mut effects: Vec<Effect> = Vec::new();
        effects.push(Effect::AddSelfMonitor);
        assert(effects@ =~= seq![Effect::AddSelfMonitor]);
        effects
    }

    /// The encoder runs: the capture has started.
    pub fn session_running(&mut self, a: AcquiredAudio) -> (info: CaptureStartedInfo)
        requires
            old(self).wf(),
        ensures
            final(self).wf(),
            *final(self) == (PipelineState {
                session: Session { capture_feeding: true, ..old(self).session },
                driver: AudioDriver { input_buffer_samples: a.input_buf, ..old(self).driver },
                state: AgentState::Capturing,
                ..*old(self)
            }),
            info == (CaptureStartedInfo {
                device_id: a.resolved_input_id,
                device_name: a.in_name,
                channels: a.channels_in,
                native_sample_rate: a.native_sr,
                output_name: a.output_name,
                output_fallback: a.output_fallback,
            }),
    {
        self.session.capture_feeding = true;
        self.state = AgentState::Capturing;
        self.driver.input_buffer_samples = a.input_buf;
        CaptureStartedInfo {
            device_id: a.resolved_input_id,
            device_name: a.in_name,
            channels: a.channels_in,
            native_sample_rate: a.native_sr,
            output_name: a.output_name,
            output_fallback: a.output_fallback,
        }
    }
}

/// Why the voice was not tapped.
#[derive(Clone, Copy, Debug, PartialEq, Eq, Structural)]
pub enum VoiceRefusal {
    /// No instrument is being captured.
    NoCapture,
    /// The device has no such channel.
    OutOfRange { channel: u8, channels: u16 },
}

impl PipelineState {
    /// May the voice be tapped on this channel? It needs a running capture and a channel
    /// that the device has. A tap that is in place is removed first.
    pub fn start_voice_capture(&self, channel_index: u8) -> (r: Result<Vec<Effect>, VoiceRefusal>)
        ensures
            !self.session.voice_tap ==> r == Err::<Vec<Effect>, VoiceRefusal>(
                VoiceRefusal::NoCapture,
            ),
            self.session.voice_tap && channel_index >= self.session.capture_channels_in ==> r
                == Err::<Vec<Effect>, VoiceRefusal>(
                (VoiceRefusal::OutOfRange {
                    channel: channel_index,
                    channels: self.session.capture_channels_in,
                }),
            ),
            self.session.voice_tap && channel_index < self.session.capture_channels_in ==> {
                &&& r matches Ok(effects)
                &&& effects@ == if self.session.voice_active {
                    seq![Effect::RemoveVoiceTap]
                } else {
                    Seq::<Effect>::empty()
                }
            },
    {
        if !self.session.voice_tap {
            return Err(VoiceRefusal::NoCapture);
        }
        if channel_index as u16 >= self.session.capture_channels_in {
            return Err(
                VoiceRefusal::OutOfRange {
                    channel: channel_index,
                    channels: self.session.capture_channels_in,
                },
            );
        }
        let mut effects: Vec<Effect> = Vec::new();
        if self.session.voice_active {
            effects.push(Effect::RemoveVoiceTap);
        }
        assert(effects@ =~= if self.session.voice_active {
            seq![Effect::RemoveVoiceTap]
        } else {
            Seq::<Effect>::empty()
        });
        Ok(effects)
    }

    /// The voice is tapped.
    pub fn voice_attached(&mut self)
        ensures
            *final(self) == (PipelineState {
                session: Session { voice_active: true, ..old(self).session },
                ..*old(self)
            }),
    {
        self.session.voice_active = true;
    }

    /// Takes the voice away; the instrument is not touched.
    pub fn stop_voice_capture(&mut self) -> (effects: Vec<Effect>)
        ensures
            *final(self) == (PipelineState {
                session: Session { voice_active: false, ..old(self).session },
                ..*old(self)
            }),
            effects@ == if old(self).session.voice_active && old(self).session.voice_tap {
                seq![Effect::RemoveVoiceTap]
            } else {
                Seq::<Effect>::empty()
            },
    {
        let mut effects: Vec<Effect> = Vec::new();
        if self.session.voice_active {
            if self.session.voice_tap {
                effects.push(Effect::RemoveVoiceTap);
            }
            self.session.voice_active = false;
        }
        assert(effects@ =~= if old(self).session.voice_active && old(self).session.voice_tap {
            seq![Effect::RemoveVoiceTap]
        } else {
            Seq::<Effect>::empty()
        });
        effects
    }

    /// Sets the gain of the voice, kept between 0 and 1.
    pub fn set_voice_gain(&mut self, gain: u32)
        ensures
            *final(self) == (PipelineState {
                session: Session {
                    voice_gain: crate::float_bits::unit_clamped(gain),
                    ..old(self).session
                },
                ..*old(self)
            }),
    {
        self.session.voice_gain = crate::float_bits::clamp_unit(gain);
    }

    pub fn set_input_cut(&mut self, cut: bool)
        ensures
            *final(self) == (PipelineState {
                session: Session { input_cut: cut, ..old(self).session },
                ..*old(self)
            }),
    {
        self.session.input_cut = cut;
    }

    /// Lets the encoder take what is captured, or throws it away. While it is thrown away
    /// the input's level reads zero.
    pub fn set_capture_feeding(&mut self, on: bool)
        ensures
            *final(self) == (PipelineState {
                session: Session {
                    capture_feeding: on,
                    input_rms: if on {
                        old(self).session.input_rms
                    } else {
                        0
                    },
                    ..old(self).session
                },
                ..*old(self)
            }),
    {
        self.session.capture_feeding = on;
        if !on {
            self.session.input_rms = 0;
        }
    }

    /// First half of a reset of the driver: closes the streams, so that the driver lets
    /// go of the device. The session stays up.
    pub fn close_audio_streams_for_reset(&mut self) -> (effects: Vec<Effect>)
        requires
            old(self).wf(),
        ensures
            final(self).wf(),
            only_driver(*old(self), *final(self)),
            final(self).driver == (AudioDriver {
                capture_open: false,
                playback_open: false,
                asio_host_open: false,
                reset_guard: false,
                input_buffer_samples: None,
                output_buffer_samples: None,
                ..old(self).driver
            }),
            effects@ == close_stream_effects(old(self).driver),
    {
        let mut effects: Vec<Effect> = Vec::new();
        self.close_streams(&mut effects);
        assert(effects@ =~= close_stream_effects(old(self).driver));
        effects
    }

    /// Second half of a reset, before the streams are opened again: `None` where there is
    /// no capture to restore, else the devices to open.
    pub fn rebuild_audio_streams(&self) -> (r: Result<
        Option<(Option<String>, Option<String>)>,
        CaptureStartError,
    >)
        ensures
            self.state != AgentState::Capturing ==> r == Ok::<
                Option<(Option<String>, Option<String>)>,
                CaptureStartError,
            >(None),
            self.state == AgentState::Capturing && !self.driver.capture_channel ==> {
                &&& r matches Err(CaptureStartError::Other(t))
                &&& t@ == "rebuild_audio_streams: pas de canal capture (incohérent)"@
            },
            self.state == AgentState::Capturing && self.driver.capture_channel ==> r == Ok::<
                Option<(Option<String>, Option<String>)>,
                CaptureStartError,
            >(Some((self.input_device_id, self.output_device_id))),
    {
        if self.state != AgentState::Capturing {
            return Ok(None);
        }
        if !self.driver.capture_channel {
            return Err(
                CaptureStartError::Other(
                    "rebuild_audio_streams: pas de canal capture (incohérent)".to_owned(),
                ),
            );
        }
        Ok(Some((self.input_device_id.clone(), self.output_device_id.clone())))
    }

    /// End of a reset: takes the streams that were opened, on the channel that the encoder
    /// still reads from.
    pub fn finish_rebuild(&mut self, built: BuiltDuplex) -> (effects: Vec<Effect>)
        requires
            old(self).wf(),
            output_known(built),
        ensures
            final(self).wf(),
            only_driver(*old(self), *final(self)),
            final(self).driver == with_streams(old(self).driver, built),
            effects@ == seq![Effect::ResetStreamsForRecovery],
    {
        let _ = self.hold_streams(built);
        let mut effects: Vec<Effect> = Vec::new();
        effects.push(Effect::ResetStreamsForRecovery);
        assert(effects@ =~= seq![Effect::ResetStreamsForRecovery]);
        effects
    }
}

/// The state but for what is received.
pub open spec fn only_reception(pre: PipelineState, post: PipelineState) -> bool {
    &&& post.driver == pre.driver
    &&& post.session == pre.session
    &&& post.state == pre.state
    &&& post.recording == pre.recording
    &&& post.com_recycle_pending == pre.com_recycle_pending
    &&& post.same_settings(pre)
}

impl PipelineState {
    /// First half of adding a stream: an earlier one of the same producer ends, and there
    /// must be room for another. `false` where there is none.
    pub fn add_stream(&mut self, producer_id: &str) -> (r: (bool, Vec<Effect>))
        requires
            old(self).wf(),
        ensures
            final(self).wf(),
            only_reception(*old(self), *final(self)),
            final(self).reception.streams@ == without_stream(
                old(self).reception.streams@,
                producer_id@,
            ),
            final(self).reception.decode_running == old(self).reception.decode_running,
            final(self).reception.epoch == old(self).reception.epoch,
            r.0 == (final(self).reception.streams@.len() < MAX_RECV_STREAMS),
            index_of(final(self).reception.streams@, producer_id@)
                == final(self).reception.streams@.len(),
            r.1@ == removal_effects(old(self).reception.streams@, producer_id@),
    {
        let mut effects: Vec<Effect> = Vec::new();
        self.remove_stream(producer_id, &mut effects);
        proof {
            let before = old(self).reception.streams@;
            lemma_index(before, producer_id@);
            if index_of(before, producer_id@) < before.len() {
                lemma_removed(before, producer_id@);
            }
            assert(effects@ =~= removal_effects(before, producer_id@));
        }
        (self.reception.streams.len() < MAX_RECV_STREAMS, effects)
    }

    /// Second half of adding a stream, once its socket is bound: it gets a generation of
    /// its own, and the decoder runs from the first stream on. Where no output is open yet
    /// one is to be opened.
    pub fn stream_bound(&mut self, producer_id: String) -> (r: (Vec<Effect>, bool))
        requires
            old(self).wf(),
            old(self).reception.streams@.len() < MAX_RECV_STREAMS,
            index_of(old(self).reception.streams@, producer_id@)
                == old(self).reception.streams@.len(),
        ensures
            final(self).wf(),
            only_reception(*old(self), *final(self)),
            ({
                let epoch = epoch_after(old(self).reception.epoch, 1);
                &&& final(self).reception.epoch == epoch
                &&& final(self).reception.decode_running
                &&& final(self).reception.streams@ == old(self).reception.streams@.push(
                    RecvStream { producer_id, epoch },
                )
                &&& r.0@ == (if old(self).reception.decode_running {
                    Seq::<Effect>::empty()
                } else {
                    seq![Effect::StartDecodeThread]
                }) + seq![Effect::StartReceive { producer_id, epoch }]
            }),
            r.1 == (!old(self).driver.playback_open && !old(self).driver.asio_host_open),
    {
        let mut effects: Vec<Effect> = Vec::new();
        if !self.reception.decode_running {
            effects.push(Effect::StartDecodeThread);
            self.reception.decode_running = true;
        }
        let epoch: u64 = self.reception.epoch.wrapping_add(1);
        self.reception.epoch = epoch;
        let id = producer_id.clone();
        proof {
            lemma_index(old(self).reception.streams@, producer_id@);
        }
        self.reception.streams.push(RecvStream { producer_id, epoch });
        effects.push(Effect::StartReceive { producer_id: id, epoch });
        assert(effects@ =~= (if old(self).reception.decode_running {
            Seq::<Effect>::empty()
        } else {
            seq![Effect::StartDecodeThread]
        }) + seq![Effect::StartReceive { producer_id, epoch }]);
        (effects, !self.driver.playback_open && !self.driver.asio_host_open)
    }

    /// Takes the output that was opened for a stream. The error, where there is one, is
    /// the text for the browser.
    pub fn output_opened(&mut self, opened: OutputOpen) -> (r: Result<(), String>)
        requires
            old(self).wf(),
            !(opened is Skipped),
        ensures
            final(self).wf(),
            only_driver(*old(self), *final(self)),
            match opened {
                OutputOpen::Opened { buffer, .. } => {
                    &&& r is Ok
                    &&& final(self).driver == (AudioDriver {
                        playback_open: true,
                        output_buffer_samples: buffer,
                        ..old(self).driver
                    })
                },
                OutputOpen::BuildFailed(e) => {
                    &&& r matches Err(t)
                    &&& t@ == "CPAL output: "@ + e@
                    &&& final(self).driver == old(self).driver
                },
                _ => {
                    &&& r matches Err(t)
                    &&& t@ == "output device introuvable"@
                    &&& final(self).driver == old(self).driver
                },
            },
    {
        match opened {
            OutputOpen::Opened { buffer, .. } => {
                self.driver.playback_open = true;
                self.driver.output_buffer_samples = buffer;
                Ok(())
            },
            OutputOpen::BuildFailed(e) => Err(text::joined("CPAL output: ", e.as_str())),
            _ => Err("output device introuvable".to_owned()),
        }
    }

    pub fn set_input_device(&mut self, input: Option<String>)
        ensures
            *final(self) == (PipelineState { input_device_id: input, ..*old(self) }),
    {
        self.input_device_id = input;
    }

    /// Chooses the devices. `true` where the playback that is open has to move to another
    /// output: it is closed at once, and the new one is to be opened.
    pub fn select_devices(&mut self, input: Option<String>, output: Option<String>) -> (r: (
        bool,
        Vec<Effect>,
    ))
        requires
            old(self).wf(),
        ensures
            final(self).wf(),
            r.0 == (chars_of(old(self).output_device_id) != chars_of(output)
                && old(self).driver.playback_open),
            *final(self) == (PipelineState {
                input_device_id: input,
                output_device_id: output,
                driver: AudioDriver {
                    playback_open: old(self).driver.playback_open && !r.0,
                    ..old(self).driver
                },
                ..*old(self)
            }),
            r.1@ == if r.0 {
                seq![Effect::ClosePlayback]
            } else {
                Seq::<Effect>::empty()
            },
    {
        let changed = !same_option(&self.output_device_id, &output);
        self.input_device_id = input;
        self.output_device_id = output;
        let mut effects: Vec<Effect> = Vec::new();
        let restart = changed && self.driver.playback_open;
        if restart {
            close_stream_on_com(true, Direction::Playback, &mut effects);
            self.driver.playback_open = false;
        }
        assert(effects@ =~= if restart {
            seq![Effect::ClosePlayback]
        } else {
            Seq::<Effect>::empty()
        });
        (restart, effects)
    }

    /// Takes the output that playback has moved to. Without one there is no playback until
    /// another choice.
    pub fn restart_playback(&mut self, opened: OutputOpen)
        requires
            old(self).wf(),
            !(opened is Skipped),
        ensures
            final(self).wf(),
            only_driver(*old(self), *final(self)),
            final(self).driver == match opened {
                OutputOpen::Opened { buffer, .. } => AudioDriver {
                    playback_open: true,
                    output_buffer_samples: buffer,
                    ..old(self).driver
                },
                _ => AudioDriver { output_buffer_samples: None, ..old(self).driver },
            },
    {
        match opened {
            OutputOpen::Opened { buffer, .. } => {
                self.driver.playback_open = true;
                self.driver.output_buffer_samples = buffer;
            },
            _ => {
                self.driver.output_buffer_samples = None;
            },
        }
    }

    /// The input that was chosen, else the system's default.
    pub fn selected_input_id(&self, default_input_id: Option<String>) -> (r: Option<String>)
        ensures
            r == match self.input_device_id {
                Some(id) => Some(id),
                None => default_input_id,
            },
    {
        match &self.input_device_id {
            Some(id) => Some(id.clone()),
            None => default_input_id,
        }
    }

    /// Changes the input source. Capture goes on: in MIDI mode what is captured is silenced
    /// further down. A device has to be opened first, and until it is nothing changes. On
    /// Windows the virtual port is a name only, played by the keyboard on the page.
    pub fn set_input_source(
        &mut self,
        platform: Platform,
        source: InputSource,
        is_virtual: bool,
        has_virtual_port: bool,
    ) -> (r: (SourceStep, Vec<Effect>))
        ensures
            ({
                let closing = if old(self).midi_route == MidiRoute::Device {
                    seq![Effect::CloseMidiInput]
                } else {
                    Seq::<Effect>::empty()
                };
                match source {
                    InputSource::Audio => {
                        &&& r.0 == SourceStep::Changed
                        &&& r.1@ == closing
                        &&& *final(self) == (PipelineState {
                            midi_route: MidiRoute::Nowhere,
                            input_source: source,
                            ..*old(self)
                        })
                    },
                    InputSource::Midi(device_id) => if is_virtual && platform == Platform::MacOs {
                        if has_virtual_port {
                            &&& r.0 == SourceStep::Changed
                            &&& r.1@ == closing
                            &&& *final(self) == (PipelineState {
                                midi_route: MidiRoute::VirtualPort,
                                input_source: source,
                                ..*old(self)
                            })
                        } else {
                            &&& r.0 == SourceStep::NoVirtualPort
                            &&& r.1@.len() == 0
                            &&& *final(self) == *old(self)
                        }
                    } else if is_virtual && platform == Platform::Windows {
                        &&& r.0 == SourceStep::Changed
                        &&& r.1@ == closing
                        &&& *final(self) == (PipelineState {
                            midi_route: MidiRoute::Nowhere,
                            input_source: source,
                            ..*old(self)
                        })
                    } else {
                        &&& r.0 == (SourceStep::OpenDevice { device_id })
                        &&& r.1@.len() == 0
                        &&& *final(self) == *old(self)
                    },
                }
            }),
    {
        let mut effects: Vec<Effect> = Vec::new();
        let route = match &source {
            InputSource::Audio => MidiRoute::Nowhere,
            InputSource::Midi(device_id) => {
                if is_virtual && platform == Platform::MacOs {
                    if !has_virtual_port {
                        return (SourceStep::NoVirtualPort, effects);
                    }
                    MidiRoute::VirtualPort
                } else if is_virtual && platform == Platform::Windows {
                    MidiRoute::Nowhere
                } else {
                    return (SourceStep::OpenDevice { device_id: device_id.clone() }, effects);
                }
            },
        };
        if self.midi_route == MidiRoute::Device {
            effects.push(Effect::CloseMidiInput);
        }
        assert(effects@ =~= if old(self).midi_route == MidiRoute::Device {
            seq![Effect::CloseMidiInput]
        } else {
            Seq::<Effect>::empty()
        });
        self.midi_route = route;
        self.input_source = source;
        (SourceStep::Changed, effects)
    }

    /// The MIDI device is open; one that was open before is closed by that.
    pub fn midi_device_opened(&mut self, device_id: String)
        ensures
            *final(self) == (PipelineState {
                midi_route: MidiRoute::Device,
                input_source: InputSource::Midi(device_id),
                ..*old(self)
            }),
    {
        self.midi_route = MidiRoute::Device;
        self.input_source = InputSource::Midi(device_id);
    }

    pub fn current_input_source(&self) -> (r: InputSource)
        ensures
            r == self.input_source,
    {
        self.input_source.duplicate()
    }

    /// Whether a recording can be armed.
    pub fn can_record(&self) -> (r: bool)
        ensures
            r == !self.recording,
    {
        !self.recording
    }

    /// Takes on a recorder that was started, unless there is one already.
    pub fn start_recording(&mut self) -> (r: Result<Vec<Effect>, ErrorText>)
        ensures
            match r {
                Ok(effects) => {
                    &&& !old(self).recording
                    &&& *final(self) == (PipelineState { recording: true, ..*old(self) })
                    &&& effects@ == seq![Effect::AttachRecorder]
                },
                Err(e) => {
                    &&& old(self).recording
                    &&& *final(self) == *old(self)
                    &&& e == ErrorText::RecordingInProgress
                },
            },
    {
        if self.recording {
            return Err(ErrorText::RecordingInProgress);
        }
        self.recording = true;
        let mut effects: Vec<Effect> = Vec::new();
        effects.push(Effect::AttachRecorder);
        assert(effects@ =~= seq![Effect::AttachRecorder]);
        Ok(effects)
    }

    /// Takes the recorder out, to be finalised outside. Says whether there was one.
    pub fn take_recorder(&mut self) -> (r: (bool, Vec<Effect>))
        ensures
            *final(self) == (PipelineState { recording: false, ..*old(self) }),
            r.0 == old(self).recording,
            r.1@ == seq![Effect::DetachRecorder],
    {
        let was = self.recording;
        self.recording = false;
        let mut effects: Vec<Effect> = Vec::new();
        effects.push(Effect::DetachRecorder);
        assert(effects@ =~= seq![Effect::DetachRecorder]);
        (was, effects)
    }
}

/// No two streams share a generation, unless so many lie between them that the range is used
/// up; until it is, a later one has the greater number.
pub proof fn generations_differ(epoch: u64, m: nat, n: nat)
    requires
        m < n < m + 0x1_0000_0000_0000_0000,
    ensures
        epoch_after(epoch, m) != epoch_after(epoch, n),
        epoch + n <= u64::MAX ==> epoch_after(epoch, m) < epoch_after(epoch, n),
        epoch_after(epoch_after(epoch, m), 1) == epoch_after(epoch, m + 1),
{
    let range: int = 0x1_0000_0000_0000_0000;
    let a = epoch + m;
    let b = epoch + n;
    vstd::arithmetic::div_mod::lemma_fundamental_div_mod(a, range);
    vstd::arithmetic::div_mod::lemma_fundamental_div_mod(b, range);
    vstd::arithmetic::div_mod::lemma_add_mod_noop(a, 1, range);
}

/// Leaving the studio a second time does nothing where the driver is kept warm.
pub proof fn a_second_leave_is_inert(
    host: HostKind,
    a: PipelineState,
    t1: Instant,
    b: PipelineState,
    e1: Seq<Effect>,
    t2: Instant,
    c: PipelineState,
    e2: Seq<Effect>,
)
    requires
        host == HostKind::Asio,
        a.driver.warm is Some,
        left(host, a, t1, b, e1),
        left(host, b, t2, c, e2),
    ensures
        c == b,
        e2 == Seq::<Effect>::empty(),
{
}

/// Leaving the studio with a warm driver closes no stream: the driver stays open, and so do
/// the devices that it was opened for.
pub proof fn leaving_keeps_the_driver_warm(
    host: HostKind,
    a: PipelineState,
    now: Instant,
    b: PipelineState,
    effects: Seq<Effect>,
)
    requires
        host == HostKind::Asio,
        a.driver.warm is Some,
        left(host, a, now, b, effects),
    ensures
        b.driver.warm is Some,
        b.driver.streams_open() == a.driver.streams_open(),
        b.driver.playback_open == a.driver.playback_open,
        !effects.contains(Effect::CloseCapture),
        !effects.contains(Effect::ClosePlayback),
        !effects.contains(Effect::CloseAsioHost),
{
    if a.state == AgentState::Capturing {
        let parts = discard_effects(a.recording) + teardown_effects(a, false);
        assert forall|i: int| 0 <= i < parts.len() implies parts[i] != Effect::CloseCapture
            && parts[i] != Effect::ClosePlayback && parts[i] != Effect::CloseAsioHost by {
            let n = discard_effects(a.recording).len();
            if i >= n {
                let t = teardown_effects(a, false);
                assert(parts[i] == t[i - n]);
            }
        }
    }
}

/// A session that comes back to the same devices while the driver is warm and open does not
/// open it anew.
pub proof fn rejoining_reuses_the_warm_driver(
    host: HostKind,
    a: PipelineState,
    now: Instant,
    b: PipelineState,
    effects: Seq<Effect>,
)
    requires
        reusable(a, host),
        left(host, a, now, b, effects),
    ensures
        reusable(b, host),
{
}

/// Leaving a studio on any other host ends idle, with no stream open and nothing received.
pub proof fn leaving_elsewhere_closes_everything(
    host: HostKind,
    a: PipelineState,
    now: Instant,
    b: PipelineState,
    effects: Seq<Effect>,
)
    requires
        host != HostKind::Asio,
        left(host, a, now, b, effects),
    ensures
        b.state == AgentState::Idle,
        !b.driver.streams_open(),
        !b.driver.playback_open,
        b.reception.streams@.len() == 0,
        !b.session.encoder_running,
        !b.recording,
{
}

/// The reset guard is dropped before any stream is closed: only then is the driver still
/// there to be told.
pub proof fn the_guard_goes_first(d: AudioDriver)
    requires
        d.reset_guard,
    ensures
        close_effects(d)[0] == Effect::DropResetGuard,
        close_stream_effects(d)[0] == Effect::DropResetGuard,
{
}

/// Of a closed driver nothing is left: no stream, no channel, no size.
pub proof fn a_closed_driver_has_nothing_open()
    ensures
        ({
            let d = AudioDriver::closed();
            &&& !d.capture_open && !d.playback_open && !d.asio_host_open
            &&& !d.capture_channel && !d.reset_guard && d.warm is None
            &&& d.input_buffer_samples is None && d.output_buffer_samples is None
            &&& d.input_frames == 0 && d.output_frames == 0
        }),
{
}

/// A session that was torn down encodes nothing and taps nothing; its settings stay.
pub proof fn a_torn_down_session_keeps_its_settings(s: Session)
    ensures
        ({
            let t = s.torn_down();
            &&& !t.encoder_running && !t.capture_feeding && !t.voice_tap && !t.voice_active
            &&& t.capture_channels_in == s.capture_channels_in
            &&& t.capture_native_sr == s.capture_native_sr
            &&& t.input_cut == s.input_cut
            &&& t.voice_gain == s.voice_gain
            &&& t.input_rms == s.input_rms
        }),
{
}

/// A stream that is taken away is stopped, and it alone: those before and behind it stay, in
/// their order. Where there is none of that producer nothing happens.
pub proof fn one_stream_is_taken_away(streams: Seq<RecvStream>, id: Seq<char>, at: int)
    requires
        0 <= at <= streams.len(),
        at < streams.len() ==> streams[at].producer_id@ == id,
        forall|k: int| 0 <= k < at ==> (#[trigger] streams[k]).producer_id@ != id,
    ensures
        at < streams.len() ==> {
            &&& without_stream(streams, id) == streams.take(at) + streams.skip(at + 1)
            &&& removal_effects(streams, id).len() == 1
            &&& removal_effects(streams, id)[0] == (Effect::StopReceive {
                producer_id: streams[at].producer_id,
            })
        },
        at == streams.len() ==> without_stream(streams, id) == streams && removal_effects(
            streams,
            id,
        ).len() == 0,
{
    assert forall|k: int| 0 <= k < at implies (#[trigger] streams[k]).key() != id by {
        assert(streams[k].producer_id@ != id);
    }
    crate::keyed::lemma_index_is(streams, id, at);
    if at < streams.len() {
        assert(streams.remove(at) =~= streams.take(at) + streams.skip(at + 1));
    }
}

/// A session is torn down from the encoder on: it stops if it runs, one's own monitor goes,
/// and then, unless the peers are to stay, every stream stops in its order and the thread that
/// decoded them last.
pub proof fn a_session_is_torn_down_in_order(s: PipelineState, preserve_peers: bool, i: int)
    ensures
        ({
            let e = teardown_effects(s, preserve_peers);
            let first: int = if s.session.encoder_running {
                1
            } else {
                0
            };
            let n = s.reception.streams@.len();
            &&& s.session.encoder_running ==> e[0] == Effect::StopEncoder
            &&& e[first] == Effect::RemoveSelfMonitor
            &&& preserve_peers ==> e.len() == first + 1
            &&& !preserve_peers && s.reception.decode_running ==> e.len() == first + n + 2
                && e.last() == Effect::StopDecodeThread
            &&& !preserve_peers && !s.reception.decode_running ==> e.len() == first + n + 1
            &&& !preserve_peers && 0 <= i < n ==> e[first + 1 + i] == (Effect::StopReceive {
                producer_id: s.reception.streams@[i].producer_id,
            })
        }),
{
}

/// A driver is closed by what is open of it, each once: the guard, the capture, the playback,
/// the ASIO host, in this order. Then its driver may be asked for again.
pub proof fn what_is_open_is_closed(d: AudioDriver)
    ensures
        ({
            let e = close_stream_effects(d);
            let n = |open: bool|
                if open {
                    1int
                } else {
                    0
                };
            let a = n(d.reset_guard);
            let b = a + n(d.capture_open);
            let c = b + n(d.playback_open);
            &&& e.len() == c + n(d.asio_host_open)
            &&& d.reset_guard ==> e[0] == Effect::DropResetGuard
            &&& d.capture_open ==> e[a] == Effect::CloseCapture
            &&& d.playback_open ==> e[b] == Effect::ClosePlayback
            &&& d.asio_host_open ==> e[c] == Effect::CloseAsioHost
            &&& close_effects(d) == e.push(Effect::SetAsioActive(false))
        }),
{
    assert(close_effects(d) =~= close_stream_effects(d).push(Effect::SetAsioActive(false)));
}

/// A recording that runs is detached before it is discarded; where none runs, nothing is.
pub proof fn a_recording_is_detached_first(recording: bool)
    ensures
        recording ==> discard_effects(recording) == seq![
            Effect::DetachRecorder,
            Effect::DiscardRecording,
        ],
        !recording ==> discard_effects(recording).len() == 0,
{
}

/// A session that is left on ASIO is parked: the driver stays as it is and remembers when, and
/// everything that ran on it ends.
pub proof fn a_parked_driver_remembers_when(
    pre: PipelineState,
    now: Instant,
    post: PipelineState,
    effects: Seq<Effect>,
)
    requires
        left(HostKind::Asio, pre, now, post, effects),
        pre.driver.warm is Some,
        pre.state == AgentState::Capturing,
    ensures
        post.driver.warm matches Some(w) && {
            let v = pre.driver.warm->0;
            &&& w.parked_since == Some(now)
            &&& w.input_id == v.input_id && w.output_id == v.output_id
            &&& w.channels_in == v.channels_in && w.native_sr == v.native_sr
            &&& w.resolved_input_id == v.resolved_input_id && w.in_name == v.in_name
            &&& w.input_buf == v.input_buf
        },
        post.driver.capture_open == pre.driver.capture_open,
        post.driver.asio_host_open == pre.driver.asio_host_open,
        post.driver.playback_open == pre.driver.playback_open,
        post.driver.input_buffer_samples is None,
        post.state == AgentState::Idle && !post.recording,
        !post.session.encoder_running && !post.session.voice_active && !post.session.voice_tap,
        post.reception.streams@.len() == 0 && !post.reception.decode_running,
        post.reception.epoch == pre.reception.epoch,
        post.input_device_id == pre.input_device_id && post.plugin == pre.plugin,
        post.com_recycle_pending == pre.com_recycle_pending,
        effects == discard_effects(pre.recording) + teardown_effects(pre, false),
{
}

/// A session that is left on any other host, or with no warm driver, closes all that is open,
/// after it was torn down. What was chosen stays chosen.
pub proof fn a_left_session_closes_what_is_open(
    host: HostKind,
    pre: PipelineState,
    now: Instant,
    post: PipelineState,
    effects: Seq<Effect>,
)
    requires
        left(host, pre, now, post, effects),
        host != HostKind::Asio || pre.driver.warm is None,
    ensures
        !post.driver.capture_open && !post.driver.asio_host_open && !post.driver.playback_open,
        post.driver.warm is None && !post.driver.reset_guard,
        post.state == AgentState::Idle && !post.recording,
        !post.session.encoder_running && !post.session.voice_active,
        post.reception.streams@.len() == 0 && !post.reception.decode_running,
        post.reception.epoch == pre.reception.epoch,
        post.input_device_id == pre.input_device_id,
        post.output_device_id == pre.output_device_id,
        post.plugin == pre.plugin && post.input_source == pre.input_source && post.midi_route
            == pre.midi_route,
        post.com_recycle_pending == pre.com_recycle_pending,
        effects == discard_effects(pre.recording) + teardown_effects(pre, false) + close_effects(
            pre.driver,
        ),
{
}

/// A parked driver is given up once it was parked for the time that is granted, and never one
/// that is in use.
pub proof fn a_parked_driver_has_its_time(d: AudioDriver, now: Instant, grace_ms: u64)
    requires
        grace_ms > 0,
    ensures
        grace_expired(d, now, grace_ms) <==> {
            &&& d.warm matches Some(w)
            &&& w.parked_since matches Some(t)
            &&& now.nanos >= t.nanos + grace_ms * 1_000_000
        },
{
}

/// A driver is reused exactly if it is an ASIO one, open, and was opened for the devices that
/// are chosen now.
pub proof fn a_driver_is_reused_for_its_own_devices(s: PipelineState, host: HostKind)
    ensures
        reusable(s, host) ==> host == HostKind::Asio && s.driver.warm is Some && (
        s.driver.capture_open || s.driver.asio_host_open),
        host == HostKind::Asio && s.driver.warm is Some && (s.driver.capture_open
            || s.driver.asio_host_open) && s.driver.warm->0.input_id == s.input_device_id
            && s.driver.warm->0.output_id == s.output_device_id ==> reusable(s, host),
        reusable(s, host) && s.input_device_id is Some ==> s.driver.warm->0.input_id is Some
            && s.driver.warm->0.input_id->0@ == s.input_device_id->0@,
        reusable(s, host) && s.output_device_id is Some ==> s.driver.warm->0.output_id is Some
            && s.driver.warm->0.output_id->0@ == s.output_device_id->0@,
        reusable(s, host) && s.input_device_id is None ==> s.driver.warm->0.input_id is None,
        reusable(s, host) && s.output_device_id is None ==> s.driver.warm->0.output_id is None,
{
}

/// Streams that were built are open, with the sizes that were agreed on for each direction.
pub proof fn built_streams_are_open(d: AudioDriver, built: BuiltDuplex)
    ensures
        ({
            let r = with_streams(d, built);
            &&& r.warm == d.warm && r.capture_channel == d.capture_channel
            &&& r.input_frames == d.input_frames && r.output_frames == d.output_frames
            &&& built matches BuiltDuplex::Asio { buffer_size, .. } ==> {
                &&& r.asio_host_open && !r.reset_guard
                &&& r.input_buffer_samples == Some(buffer_size)
                &&& r.output_buffer_samples == Some(buffer_size)
                &&& r.capture_open == d.capture_open && r.playback_open == d.playback_open
            }
            &&& built matches BuiltDuplex::Cpal { input, output } ==> {
                &&& r.capture_open && r.reset_guard
                &&& r.asio_host_open == d.asio_host_open
                &&& r.input_buffer_samples == input.input_buf
                &&& output matches OutputOpen::Opened { buffer, .. } ==> r.playback_open
                    && r.output_buffer_samples == buffer
                &&& !(output is Opened) ==> r.playback_open == d.playback_open
                    && r.output_buffer_samples == d.output_buffer_samples
            }
        }),
{
}

/// What a session gets is what was opened: the input's own figures, and the output's name,
/// where one was opened.
pub proof fn a_session_gets_what_was_opened(built: BuiltDuplex, a: AcquiredAudio)
    requires
        acquired_from(built, a),
    ensures
        built matches BuiltDuplex::Asio { name, resolved_id, channels_in, native_sr, buffer_size }
            ==> a.channels_in == channels_in && a.native_sr == native_sr && a.input_buf == Some(
            buffer_size,
        ) && a.in_name == name && a.output_name == name && a.resolved_input_id == resolved_id
            && !a.output_fallback,
        built matches BuiltDuplex::Cpal { input, output } ==> {
            &&& a.channels_in == input.channels && a.native_sr == input.native_sr
            &&& a.input_buf == input.input_buf && a.in_name == input.name
            &&& a.resolved_input_id == input.resolved_id
            &&& output matches OutputOpen::Opened { name, fallback_from, .. } ==> a.output_name
                == name && (a.output_fallback <==> fallback_from is Some)
            &&& !(output is Opened) ==> a.output_name@.len() == 0 && !a.output_fallback
        },
        built matches BuiltDuplex::Cpal { output, .. } ==> (output_known(built) <==> output
            is Opened || output is BuildFailed),
        built is Asio ==> output_known(built),
{
}

/// What concerns the driver alone, or the reception alone, leaves everything else as it was.
pub proof fn one_part_changes_alone(pre: PipelineState, post: PipelineState)
    ensures
        only_driver(pre, post) <==> (PipelineState { driver: post.driver, ..pre }) == post,
        only_reception(pre, post) <==> (PipelineState { reception: post.reception, ..pre }) == post,
{
}

/// A generation counts the streams, one by one, and starts again at the end of its range.
pub proof fn a_generation_counts_the_streams(epoch: u64)
    ensures
        epoch_after(epoch, 0) == epoch,
        epoch < u64::MAX ==> epoch_after(epoch, 1) == epoch + 1,
        epoch_after(u64::MAX, 1) == 0,
{
}

/// In every state at most sixteen streams are received, no two of one producer.
pub proof fn no_producer_is_received_twice(s: PipelineState, i: int, j: int)
    requires
        s.wf(),
        0 <= i < j < s.reception.streams@.len(),
    ensures
        s.reception.streams@.len() <= 16,
        s.reception.streams@[i].producer_id@ != s.reception.streams@[j].producer_id@,
{
    assert(s.reception.streams@[i].key() != s.reception.streams@[j].key());
}

/// Settings are the same exactly if each of them is.
pub proof fn settings_are_the_same_one_by_one(a: PipelineState, b: PipelineState)
    ensures
        a.same_settings(b) <==> a.input_device_id == b.input_device_id && a.output_device_id
            == b.output_device_id && a.plugin == b.plugin && a.input_source == b.input_source
            && a.midi_route == b.midi_route,
        a.reception_over(b) <==> a.reception.streams@.len() == 0 && !a.reception.decode_running
            && a.reception.epoch == b.reception.epoch,
{
}

} // verus!
