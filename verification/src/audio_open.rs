//! Opening of the audio devices: which device is opened, in which order the streams are
//! built and started, and what is reported of it.
//!
//! The input stream is built first and started last: building the output after the input
//! has started would recreate the driver's buffers under a running stream and leave both
//! callbacks silent.

use crate::option_text::{chars_of, debug_chars, debug_option};
use crate::text;
use vstd::prelude::*;
use vstd::string::*;

verus! {

/// Kind of the audio host that the agent runs on.
#[derive(Clone, Copy, Debug, PartialEq, Eq, Structural)]
pub enum HostKind {
    CoreAudio,
    Wasapi,
    Asio,
}

/// Why a capture could not be started.
#[derive(Debug)]
pub enum CaptureStartError {
    /// The requested device, or the default one where none was requested, is absent.
    InputDeviceNotFound { requested: Option<String> },
    OutputDeviceNotFound { requested: Option<String> },
    /// A technical failure, in the words of the layer that met it.
    Other(String),
}

impl CaptureStartError {
    /// The text shown for the error.
    pub open spec fn text_chars(self) -> Seq<char> {
        match self {
            CaptureStartError::InputDeviceNotFound { requested } => "input device introuvable : "@
                + debug_chars(chars_of(requested)),
            CaptureStartError::OutputDeviceNotFound { requested } => "output device introuvable : "@
                + debug_chars(chars_of(requested)),
            CaptureStartError::Other(s) => s@,
        }
    }

    pub fn to_text(&self) -> (r: String)
        ensures
            r@ == self.text_chars(),
    {
        match self {
            CaptureStartError::InputDeviceNotFound { requested } => text::joined(
                "input device introuvable : ",
                debug_option(requested).as_str(),
            ),
            CaptureStartError::OutputDeviceNotFound { requested } => text::joined(
                "output device introuvable : ",
                debug_option(requested).as_str(),
            ),
            CaptureStartError::Other(s) => s.clone(),
        }
    }
}

/// The device that capture was opened on, as reported to the browser.
#[derive(Debug)]
pub struct CaptureStartedInfo {
    pub device_id: String,
    pub device_name: String,
    pub channels: u16,
    /// Native rate of the device, in hertz. Anything but 48 000 means that the signal is
    /// resampled.
    pub native_sample_rate: u32,
    /// Name of the output that was opened; empty where there is no playback.
    pub output_name: String,
    /// The requested output was absent, and the system's default was opened instead.
    pub output_fallback: bool,
}

/// An input stream that was opened.
#[derive(Debug)]
pub struct BuiltInput {
    pub name: String,
    pub resolved_id: String,
    pub channels: u16,
    pub native_sr: u32,
    pub input_buf: Option<u32>,
}

/// Outcome of opening an output stream.
#[derive(Debug)]
pub enum OutputOpen {
    Opened {
        buffer: Option<u32>,
        name: String,
        /// The id that was asked for and is absent, where the default took its place.
        fallback_from: Option<String>,
    },
    NotFound,
    BuildFailed(String),
    /// A playback stream was already running and was left alone.
    Skipped,
}

/// A duplex that was opened.
#[derive(Debug)]
pub enum BuiltDuplex {
    /// Two separate streams.
    Cpal { input: BuiltInput, output: OutputOpen },
    /// One ASIO object that owns both directions.
    Asio { name: String, resolved_id: String, channels_in: u16, native_sr: u32, buffer_size: u32 },
}

/// The name part of a device id `{index}:{name}`; an id without a colon is a name.
pub open spec fn device_name_chars(id: Seq<char>) -> Seq<char> {
    match text::split_at_first(id, ':') {
        Some((_, name)) => name,
        None => id,
    }
}

pub fn device_name(id: &str) -> (r: String)
    ensures
        r@ == device_name_chars(id@),
{
    match text::split_once(id, ':') {
        Some((_, name)) => name,
        None => id.to_owned(),
    }
}

/// The name part of an id that has one.
pub fn device_name_option(id: &Option<String>) -> (r: Option<String>)
    ensures
        chars_of(r) == match chars_of(*id) {
            Some(s) => match text::split_at_first(s, ':') {
                Some((_, name)) => Some(name),
                None => None,
            },
            None => None,
        },
{
    match id {
        Some(s) => match text::split_once(s.as_str(), ':') {
            Some((_, name)) => Some(name),
            None => None,
        },
        None => None,
    }
}

/// Whether the ASIO path is used: one object that owns both directions of the driver.
pub fn asio_host_enabled(kind: HostKind) -> (r: bool)
    ensures
        r == (kind == HostKind::Asio),
{
    kind == HostKind::Asio
}

/// The id reported as a fallback: an output that was asked for by id and is absent. A
/// default that was asked for as such is never a fallback.
pub fn output_fallback_from(output_id: Option<&str>, requested_found: bool) -> (r: Option<String>)
    ensures
        r is Some <==> output_id is Some && !requested_found,
        r is Some ==> r->0@ == output_id->0@,
{
    match output_id {
        Some(id) => if requested_found {
            None
        } else {
            Some(id.to_owned())
        },
        None => None,
    }
}

/// What is asked of the audio layer next.
#[derive(Debug)]
pub enum OpenAction {
    /// Open the ASIO duplex `driver_name`, with buffers of about `desired_frames`.
    OpenAsio { driver_name: String, desired_frames: u32 },
    /// Look the input device up by id.
    FindInput { id: String },
    /// Build the input stream, without starting it.
    BuildInput,
    /// Look the requested output device up by id.
    FindOutput { id: String },
    /// Look the system's default output up.
    FindDefaultOutput,
    /// Build the output stream on the device found, without starting it.
    BuildOutput,
    StartOutput,
    StartInput,
    /// Register the driver's reset callback on the input device, and forbid enumeration
    /// of the driver where `asio`.
    Settle { asio: bool },
    /// The opening is over.
    Finished(Result<BuiltDuplex, CaptureStartError>),
}

/// What came back from the audio layer.
#[derive(Debug)]
pub enum OpenEvent {
    AsioOpened { channels_in: u16, native_sr: u32, buffer_size: u32 },
    InputFound { name: String },
    InputBuilt { channels: u16, native_sr: u32, input_buf: Option<u32> },
    OutputFound { name: String },
    OutputBuilt { buffer: Option<u32> },
    /// The last action was carried out, and there is nothing more to tell.
    Done,
    /// The device that was looked for is absent.
    Missing,
    Failed(String),
}

/// Where an opening stands: which answer it is waiting for.
#[derive(Debug)]
pub enum OpenPhase {
    AsioPending { driver_name: String, resolved_id: String },
    FindingInput,
    BuildingInput { name: String },
    FindingOutput { id: String },
    FindingDefaultOutput { fallback_from: Option<String> },
    BuildingOutput { name: String, fallback_from: Option<String> },
    StartingOutput { name: String, fallback_from: Option<String>, buffer: Option<u32> },
    StartingInput { output: OutputOpen },
    Settling { output: OutputOpen },
    Over,
}

impl OpenPhase {
    /// Is an answer on the output awaited?
    pub open spec fn is_about_output(self) -> bool {
        ||| self is FindingOutput
        ||| self is FindingDefaultOutput
        ||| self is BuildingOutput
        ||| self is StartingOutput
    }

    /// Steps are taken in this order; none is taken twice.
    pub open spec fn rank(self) -> nat {
        match self {
            OpenPhase::AsioPending { .. } => 1,
            OpenPhase::FindingInput => 1,
            OpenPhase::BuildingInput { .. } => 2,
            OpenPhase::FindingOutput { .. } => 3,
            OpenPhase::FindingDefaultOutput { .. } => 4,
            OpenPhase::BuildingOutput { .. } => 5,
            OpenPhase::StartingOutput { .. } => 6,
            OpenPhase::StartingInput { .. } => 7,
            OpenPhase::Settling { .. } => 8,
            OpenPhase::Over => 9,
        }
    }
}

/// The opening of an input and, where wanted, an output.
#[derive(Debug)]
pub struct DuplexOpening {
    pub host: HostKind,
    pub input_id: Option<String>,
    pub output_id: Option<String>,
    pub build_output: bool,
    /// The system's default input at the time of the opening.
    pub default_input_id: Option<String>,
    /// What is known of the input so far.
    pub channels: u16,
    pub native_sr: u32,
    pub input_buf: Option<u32>,
    pub input_name: String,
    pub phase: OpenPhase,
}

/// Is `out` an output that was not looked for at all?
pub open spec fn output_reported(build_output: bool, out: OutputOpen) -> bool {
    &&& !(out is NotFound)
    &&& out is Skipped <==> !build_output
}

impl DuplexOpening {
    pub open spec fn wf(self) -> bool {
        match self.phase {
            OpenPhase::FindingOutput { id } => self.build_output && chars_of(self.output_id) == Some(
                id@,
            ),
            OpenPhase::FindingDefaultOutput { .. } => self.build_output,
            OpenPhase::BuildingOutput { .. } => self.build_output,
            OpenPhase::StartingOutput { .. } => self.build_output,
            OpenPhase::StartingInput { output } => output_reported(self.build_output, output),
            OpenPhase::Settling { output } => output_reported(self.build_output, output),
            _ => true,
        }
    }

    /// What is asked for and fixed for the whole opening.
    pub open spec fn same_request(self, other: DuplexOpening) -> bool {
        &&& self.host == other.host
        &&& self.input_id == other.input_id
        &&& self.output_id == other.output_id
        &&& self.build_output == other.build_output
        &&& self.default_input_id == other.default_input_id
    }

    /// The id of the input that is opened: the requested one, else the system's default.
    pub open spec fn wanted_input(self) -> Option<Seq<char>> {
        match chars_of(self.input_id) {
            Some(s) => Some(s),
            None => chars_of(self.default_input_id),
        }
    }

    /// Is `ev` an answer to what was last asked?
    pub open spec fn expects(self, ev: OpenEvent) -> bool {
        match self.phase {
            OpenPhase::AsioPending { .. } => ev is AsioOpened || ev is Failed,
            OpenPhase::FindingInput => ev is InputFound || ev is Missing,
            OpenPhase::BuildingInput { .. } => ev is InputBuilt || ev is Failed,
            OpenPhase::FindingOutput { .. } => ev is OutputFound || ev is Missing,
            OpenPhase::FindingDefaultOutput { .. } => ev is OutputFound || ev is Missing,
            OpenPhase::BuildingOutput { .. } => ev is OutputBuilt || ev is Failed,
            OpenPhase::StartingOutput { .. } => ev is Done || ev is Failed,
            OpenPhase::StartingInput { .. } => ev is Done || ev is Failed,
            OpenPhase::Settling { .. } => ev is Done,
            OpenPhase::Over => false,
        }
    }

    /// Begins an opening.
    pub fn start(
        host: HostKind,
        input_id: Option<String>,
        output_id: Option<String>,
        build_output: bool,
        default_input_id: Option<String>,
        desired_frames: u32,
    ) -> (r: (DuplexOpening, OpenAction))
        ensures
            r.0.wf(),
            r.0.host == host,
            r.0.input_id == input_id,
            r.0.output_id == output_id,
            r.0.build_output == build_output,
            r.0.default_input_id == default_input_id,
            match r.0.wanted_input() {
                None => {
                    &&& r.0.phase is Over
                    &&& r.1 == (OpenAction::Finished(
                        Err(CaptureStartError::InputDeviceNotFound { requested: input_id }),
                    ))
                },
                Some(id) => if host == HostKind::Asio {
                    &&& r.0.phase matches OpenPhase::AsioPending { driver_name, resolved_id }
                    &&& driver_name@ == device_name_chars(id)
                    &&& resolved_id@ == id
                    &&& r.1 matches OpenAction::OpenAsio { driver_name: d, desired_frames: f }
                    &&& d@ == device_name_chars(id)
                    &&& f == desired_frames
                } else {
                    &&& r.0.phase is FindingInput
                    &&& r.1 matches OpenAction::FindInput { id: asked }
                    &&& asked@ == id
                },
            },
    {
        let wanted: Option<String> = match &input_id {
            Some(s) => Some(s.clone()),
            None => default_input_id.clone(),
        };
        let empty = String::new();
        match wanted {
            None => {
                let requested = input_id.clone();
                (
                    DuplexOpening {
                        host,
                        input_id,
                        output_id,
                        build_output,
                        default_input_id,
                        channels: 0,
                        native_sr: 0,
                        input_buf: None,
                        input_name: empty,
                        phase: OpenPhase::Over,
                    },
                    OpenAction::Finished(
                        Err(CaptureStartError::InputDeviceNotFound { requested }),
                    ),
                )
            },
            Some(id) => {
                let (phase, action) = if asio_host_enabled(host) {
                    let driver_name = device_name(id.as_str());
                    let asked = driver_name.clone();
                    (
                        OpenPhase::AsioPending { driver_name, resolved_id: id },
                        OpenAction::OpenAsio { driver_name: asked, desired_frames },
                    )
                } else {
                    (OpenPhase::FindingInput, OpenAction::FindInput { id })
                };
                (
                    DuplexOpening {
                        host,
                        input_id,
                        output_id,
                        build_output,
                        default_input_id,
                        channels: 0,
                        native_sr: 0,
                        input_buf: None,
                        input_name: empty,
                        phase,
                    },
                    action,
                )
            },
        }
    }

    /// The result once input and output are both settled.
    pub open spec fn is_result(self, output: OutputOpen, r: BuiltDuplex) -> bool {
        &&& r matches BuiltDuplex::Cpal { input, output: o }
        &&& o == output
        &&& input.name == self.input_name
        &&& input.channels == self.channels
        &&& input.native_sr == self.native_sr
        &&& input.input_buf == self.input_buf
        &&& input.resolved_id@ == match self.wanted_input() {
            Some(id) => id,
            None => self.input_name@,
        }
    }

    /// Takes the answer to the last action and gives the next one.
    pub fn step(&mut self, ev: OpenEvent) -> (action: OpenAction)
        requires
            old(self).wf(),
            old(self).expects(ev),
        ensures
            final(self).wf(),
            final(self).same_request(*old(self)),
            final(self).phase.rank() > old(self).phase.rank(),
            action is Finished <==> final(self).phase is Over,
            // Whatever becomes of the output, the opening goes on.
            old(self).phase.is_about_output() ==> !(action is Finished),
            // The input is started when the output is settled, and nothing is built after.
            action is StartInput <==> final(self).phase is StartingInput,
            old(self).phase is StartingInput || old(self).phase is Settling ==> action is Settle
                || action is Finished,
            match old(self).phase {
                OpenPhase::AsioPending { driver_name, resolved_id } => match ev {
                    OpenEvent::AsioOpened { channels_in, native_sr, buffer_size } => action == (
                    OpenAction::Finished(
                        Ok(
                            BuiltDuplex::Asio {
                                name: driver_name,
                                resolved_id,
                                channels_in,
                                native_sr,
                                buffer_size,
                            },
                        ),
                    )),
                    OpenEvent::Failed(e) => action == (OpenAction::Finished(
                        Err(CaptureStartError::Other(e)),
                    )),
                    _ => true,
                },
                OpenPhase::FindingInput => match ev {
                    OpenEvent::InputFound { name } => {
                        &&& final(self).phase == (OpenPhase::BuildingInput { name })
                        &&& action is BuildInput
                    },
                    _ => action == (OpenAction::Finished(
                        Err(
                            CaptureStartError::InputDeviceNotFound {
                                requested: old(self).input_id,
                            },
                        ),
                    )),
                },
                OpenPhase::BuildingInput { name } => match ev {
                    OpenEvent::InputBuilt { channels, native_sr, input_buf } => {
                        &&& final(self).channels == channels
                        &&& final(self).native_sr == native_sr
                        &&& final(self).input_buf == input_buf
                        &&& final(self).input_name == name
                        &&& if !old(self).build_output {
                            &&& final(self).phase == (OpenPhase::StartingInput {
                                output: OutputOpen::Skipped,
                            })
                            &&& action is StartInput
                        } else {
                            match chars_of(old(self).output_id) {
                                Some(id) => {
                                    &&& action matches OpenAction::FindOutput { id: asked }
                                    &&& asked@ == id
                                    &&& final(self).phase is FindingOutput
                                },
                                None => {
                                    &&& action is FindDefaultOutput
                                    &&& final(self).phase == (OpenPhase::FindingDefaultOutput {
                                        fallback_from: None,
                                    })
                                },
                            }
                        }
                    },
                    OpenEvent::Failed(e) => {
                        &&& action matches OpenAction::Finished(Err(err))
                        &&& err matches CaptureStartError::Other(t)
                        &&& t@ == "CPAL input: "@ + e@
                    },
                    _ => true,
                },
                OpenPhase::FindingOutput { id } => match ev {
                    OpenEvent::OutputFound { name } => {
                        &&& final(self).phase == (OpenPhase::BuildingOutput {
                            name,
                            fallback_from: None,
                        })
                        &&& action is BuildOutput
                    },
                    _ => {
                        &&& final(self).phase matches OpenPhase::FindingDefaultOutput {
                            fallback_from,
                        }
                        &&& chars_of(fallback_from) == Some(id@)
                        &&& action is FindDefaultOutput
                    },
                },
                OpenPhase::FindingDefaultOutput { fallback_from } => match ev {
                    OpenEvent::OutputFound { name } => {
                        &&& final(self).phase == (OpenPhase::BuildingOutput { name, fallback_from })
                        &&& action is BuildOutput
                    },
                    _ => {
                        &&& final(self).phase matches OpenPhase::StartingInput { output }
                        &&& output matches OutputOpen::BuildFailed(t)
                        &&& t@ == "aucune sortie disponible (ni demandée ni défaut système)"@
                        &&& action is StartInput
                    },
                },
                OpenPhase::BuildingOutput { name, fallback_from } => match ev {
                    OpenEvent::OutputBuilt { buffer } => {
                        &&& final(self).phase == (OpenPhase::StartingOutput {
                            name,
                            fallback_from,
                            buffer,
                        })
                        &&& action is StartOutput
                    },
                    OpenEvent::Failed(e) => {
                        &&& final(self).phase == (OpenPhase::StartingInput {
                            output: OutputOpen::BuildFailed(e),
                        })
                        &&& action is StartInput
                    },
                    _ => true,
                },
                OpenPhase::StartingOutput { name, fallback_from, buffer } => {
                    &&& action is StartInput
                    &&& final(self).phase matches OpenPhase::StartingInput { output }
                    &&& match ev {
                        OpenEvent::Failed(e) => {
                            &&& output matches OutputOpen::BuildFailed(t)
                            &&& t@ == "play: "@ + e@
                        },
                        _ => output == (OutputOpen::Opened { buffer, name, fallback_from }),
                    }
                },
                OpenPhase::StartingInput { output } => match ev {
                    OpenEvent::Failed(e) => {
                        &&& action matches OpenAction::Finished(Err(err))
                        &&& err matches CaptureStartError::Other(t)
                        &&& t@ == "CPAL input play: "@ + e@
                    },
                    _ => {
                        &&& final(self).phase == (OpenPhase::Settling { output })
                        &&& action == (OpenAction::Settle { asio: old(self).host == HostKind::Asio })
                    },
                },
                OpenPhase::Settling { output } => {
                    &&& action matches OpenAction::Finished(Ok(built))
                    &&& old(self).is_result(output, built)
                },
                OpenPhase::Over => true,
            },
            // The input's geometry is learnt when it is built, and kept.
            !(old(self).phase is BuildingInput) ==> {
                &&& final(self).channels == old(self).channels
                &&& final(self).native_sr == old(self).native_sr
                &&& final(self).input_buf == old(self).input_buf
                &&& final(self).input_name == old(self).input_name
            },
    {
        let mut phase = OpenPhase::Over;
        std::mem::swap(&mut phase, &mut self.phase);
        match phase {
            OpenPhase::AsioPending { driver_name, resolved_id } => match ev {
                OpenEvent::AsioOpened { channels_in, native_sr, buffer_size } => {
                    OpenAction::Finished(
                        Ok(
                            BuiltDuplex::Asio {
                                name: driver_name,
                                resolved_id,
                                channels_in,
                                native_sr,
                                buffer_size,
                            },
                        ),
                    )
                },
                OpenEvent::Failed(e) => OpenAction::Finished(Err(CaptureStartError::Other(e))),
                _ => OpenAction::Finished(Err(CaptureStartError::Other(String::new()))),
            },
            OpenPhase::FindingInput => match ev {
                OpenEvent::InputFound { name } => {
                    self.phase = OpenPhase::BuildingInput { name };
                    OpenAction::BuildInput
                },
                _ => OpenAction::Finished(
                    Err(
                        CaptureStartError::InputDeviceNotFound { requested: self.input_id.clone() },
                    ),
                ),
            },
            OpenPhase::BuildingInput { name } => match ev {
                OpenEvent::InputBuilt { channels, native_sr, input_buf } => {
                    self.channels = channels;
                    self.native_sr = native_sr;
                    self.input_buf = input_buf;
                    self.input_name = name;
                    if !self.build_output {
                        self.phase = OpenPhase::StartingInput { output: OutputOpen::Skipped };
                        return OpenAction::StartInput;
                    }
                    match &self.output_id {
                        Some(id) => {
                            let asked = id.clone();
                            self.phase = OpenPhase::FindingOutput { id: id.clone() };
                            OpenAction::FindOutput { id: asked }
                        },
                        None => {
                            self.phase = OpenPhase::FindingDefaultOutput { fallback_from: None };
                            OpenAction::FindDefaultOutput
                        },
                    }
                },
                OpenEvent::Failed(e) => OpenAction::Finished(
                    Err(CaptureStartError::Other(text::joined("CPAL input: ", e.as_str()))),
                ),
                _ => OpenAction::Finished(Err(CaptureStartError::Other(String::new()))),
            },
            OpenPhase::FindingOutput { id } => match ev {
                OpenEvent::OutputFound { name } => {
                    self.phase = OpenPhase::BuildingOutput { name, fallback_from: None };
                    OpenAction::BuildOutput
                },
                _ => {
                    let fallback_from = output_fallback_from(Some(id.as_str()), false);
                    self.phase = OpenPhase::FindingDefaultOutput { fallback_from };
                    OpenAction::FindDefaultOutput
                },
            },
            OpenPhase::FindingDefaultOutput { fallback_from } => match ev {
                OpenEvent::OutputFound { name } => {
                    self.phase = OpenPhase::BuildingOutput { name, fallback_from };
                    OpenAction::BuildOutput
                },
                _ => {
                    let why = "aucune sortie disponible (ni demandée ni défaut système)".to_owned();
                    self.phase = OpenPhase::StartingInput { output: OutputOpen::BuildFailed(why) };
                    OpenAction::StartInput
                },
            },
            OpenPhase::BuildingOutput { name, fallback_from } => match ev {
                OpenEvent::OutputBuilt { buffer } => {
                    self.phase = OpenPhase::StartingOutput { name, fallback_from, buffer };
                    OpenAction::StartOutput
                },
                OpenEvent::Failed(e) => {
                    self.phase = OpenPhase::StartingInput { output: OutputOpen::BuildFailed(e) };
                    OpenAction::StartInput
                },
                _ => OpenAction::Finished(Err(CaptureStartError::Other(String::new()))),
            },
            OpenPhase::StartingOutput { name, fallback_from, buffer } => {
                let output = match ev {
                    OpenEvent::Failed(e) => OutputOpen::BuildFailed(
                        text::joined("play: ", e.as_str()),
                    ),
                    _ => OutputOpen::Opened { buffer, name, fallback_from },
                };
                self.phase = OpenPhase::StartingInput { output };
                OpenAction::StartInput
            },
            OpenPhase::StartingInput { output } => match ev {
                OpenEvent::Failed(e) => OpenAction::Finished(
                    Err(CaptureStartError::Other(text::joined("CPAL input play: ", e.as_str()))),
                ),
                _ => {
                    self.phase = OpenPhase::Settling { output };
                    OpenAction::Settle { asio: self.host == HostKind::Asio }
                },
            },
            OpenPhase::Settling { output } => {
                let resolved_id = match &self.input_id {
                    Some(id) => id.clone(),
                    None => match &self.default_input_id {
                        Some(id) => id.clone(),
                        None => self.input_name.clone(),
                    },
                };
                OpenAction::Finished(
                    Ok(
                        BuiltDuplex::Cpal {
                            input: BuiltInput {
                                name: self.input_name.clone(),
                                resolved_id,
                                channels: self.channels,
                                native_sr: self.native_sr,
                                input_buf: self.input_buf,
                            },
                            output,
                        },
                    ),
                )
            },
            OpenPhase::Over => OpenAction::Finished(Err(CaptureStartError::Other(String::new()))),
        }
    }
}

/// What came of an attempt to open an output by itself.
#[derive(Debug)]
pub enum OutputAttempt {
    Missing,
    BuildFailed(String),
    StartFailed(String),
    Started { name: String, buffer: Option<u32> },
}

/// The outcome of such an attempt. An output that was asked for by id has no substitute
/// here.
pub fn output_result(attempt: OutputAttempt) -> (r: OutputOpen)
    ensures
        match attempt {
            OutputAttempt::Missing => r == OutputOpen::NotFound,
            OutputAttempt::BuildFailed(e) => r == OutputOpen::BuildFailed(e),
            OutputAttempt::StartFailed(e) => {
                &&& r matches OutputOpen::BuildFailed(t)
                &&& t@ == "play: "@ + e@
            },
            OutputAttempt::Started { name, buffer } => r == (OutputOpen::Opened {
                buffer,
                name,
                fallback_from: None,
            }),
        },
{
    match attempt {
        OutputAttempt::Missing => OutputOpen::NotFound,
        OutputAttempt::BuildFailed(e) => OutputOpen::BuildFailed(e),
        OutputAttempt::StartFailed(e) => OutputOpen::BuildFailed(text::joined("play: ", e.as_str())),
        OutputAttempt::Started { name, buffer } => OutputOpen::Opened {
            buffer,
            name,
            fallback_from: None,
        },
    }
}

/// The name of a device is what stands behind the first colon of its id, and an id without one
/// is a name.
pub proof fn a_device_is_named_behind_its_index(index: Seq<char>, name: Seq<char>)
    requires
        forall|i: int| 0 <= i < index.len() ==> #[trigger] index[i] != ':',
    ensures
        device_name_chars(index.push(':') + name) == name,
        device_name_chars(index) == index,
{
    text::a_split_puts_together_again(index, ':', name);
}

/// The input that is wanted is the one that was asked for, else the system's; what was opened
/// is reported under its own figures, and under the id that was wanted.
pub proof fn what_was_opened_is_reported(d: DuplexOpening, output: OutputOpen, r: BuiltDuplex)
    requires
        d.is_result(output, r),
    ensures
        d.input_id matches Some(id) ==> d.wanted_input() == Some(id@),
        d.input_id is None && d.default_input_id is Some ==> d.wanted_input() == Some(
            d.default_input_id->0@,
        ),
        d.input_id is None && d.default_input_id is None ==> d.wanted_input() is None,
        r matches BuiltDuplex::Cpal { input, output: o } && {
            &&& o == output
            &&& input.name == d.input_name
            &&& input.channels == d.channels
            &&& input.native_sr == d.native_sr
            &&& input.input_buf == d.input_buf
            &&& d.input_id matches Some(id) ==> input.resolved_id@ == id@
            &&& d.input_id is None && d.default_input_id is Some ==> input.resolved_id@
                == d.default_input_id->0@
            &&& d.input_id is None && d.default_input_id is None ==> input.resolved_id@
                == d.input_name@
        },
{
}

/// A device that is missing is told with the direction it was wanted for and the id that was
/// asked for; any other failure in its own words.
pub proof fn a_missing_device_is_told_by_its_direction(e: CaptureStartError)
    ensures
        e matches CaptureStartError::InputDeviceNotFound { requested } ==> e.text_chars()
            == "input device introuvable : "@ + debug_chars(chars_of(requested)),
        e matches CaptureStartError::OutputDeviceNotFound { requested } ==> e.text_chars()
            == "output device introuvable : "@ + debug_chars(chars_of(requested)),
        e matches CaptureStartError::Other(s) ==> e.text_chars() == s@,
{
}

/// An output is reported as skipped exactly if none was to be opened, and never as missing.
pub proof fn an_output_is_skipped_only_if_not_wanted(build_output: bool, out: OutputOpen)
    requires
        output_reported(build_output, out),
    ensures
        build_output ==> out is Opened || out is BuildFailed,
        !build_output ==> out is Skipped,
{
}

/// An opening keeps to what it was asked for.
pub proof fn an_opening_keeps_to_its_request(a: DuplexOpening, b: DuplexOpening)
    requires
        a.same_request(b),
    ensures
        a.host == b.host,
        a.input_id == b.input_id && a.output_id == b.output_id,
        a.build_output == b.build_output,
        a.default_input_id == b.default_input_id,
        a.wanted_input() == b.wanted_input(),
{
}

} // verus!
