//! The life of a connection to the agent.
//!
//! One page at a time drives the agent. A page takes the slot with its first message that
//! can be read, not by connecting: pages also connect to see whether the agent is there, read
//! its greeting and go. Who takes the slot drives out who had it, which may be a page that is
//! long gone. The agent's own window looks on and never takes the slot.

use crate::float_bits;
use crate::messages::{
    make_hello, make_status, source_changed, source_message, status_of, AgentIdentity,
    AgentMessage, BrowserMessage, ErrorKey, ErrorText, StreamLevel,
};
use crate::pipeline::{AgentState, PipelineState};
use crate::plugin::Platform;
use crate::plugin_control::LoadedPluginInfo;
use crate::text;
use vstd::prelude::*;
use vstd::string::*;

verus! {

/// What came in on a connection.
#[derive(Debug)]
pub enum Incoming {
    /// A frame that is no text: a close, a ping, a pong, or bytes.
    NotText,
    /// A text that is no message.
    Unreadable { payload: String, error: String },
    Message(BrowserMessage),
}

/// What is done with it.
#[derive(Debug)]
pub enum Next {
    Continue,
    Reply(AgentMessage),
    /// Look for an update, and restart if there is one.
    Restart,
    /// Restart at once.
    Relaunch,
    Dispatch(BrowserMessage),
}

/// Most characters of an unreadable message that are quoted.
pub const QUOTED_CHARS: usize = 120;

/// Sorts what came in. An unreadable text is answered with its beginning; a restart is not
/// the pipeline's business.
pub fn handle_one_message(incoming: Incoming) -> (r: Next)
    ensures
        match incoming {
            Incoming::NotText => r == Next::Continue,
            Incoming::Unreadable { payload, error } => {
                &&& r matches Next::Reply(AgentMessage::Error {
                    message: ErrorText::InvalidMessage { payload: p, error: e },
                    key,
                })
                &&& p@ == text::first_chars(payload@, QUOTED_CHARS as nat)
                &&& e == error
                &&& key == ErrorKey::General
            },
            Incoming::Message(BrowserMessage::Restart) => r == Next::Restart,
            Incoming::Message(BrowserMessage::RelaunchNow) => r == Next::Relaunch,
            Incoming::Message(m) => r == Next::Dispatch(m),
        },
        incoming matches Incoming::Unreadable { payload, .. } ==> {
            &&& r matches Next::Reply(AgentMessage::Error {
                message: ErrorText::InvalidMessage { payload: p, .. },
                ..
            })
            &&& p@.len() <= 120
            &&& p@.is_prefix_of(payload@)
            &&& payload@.len() <= 120 ==> p@ == payload@
        },
{
    match incoming {
        Incoming::NotText => Next::Continue,
        Incoming::Unreadable { payload, error } => {
            let quoted = text::take_chars(payload.as_str(), QUOTED_CHARS);
            Next::Reply(
                AgentMessage::Error {
                    message: ErrorText::InvalidMessage { payload: quoted, error },
                    key: ErrorKey::General,
                },
            )
        },
        Incoming::Message(m) => match m {
            BrowserMessage::Restart => Next::Restart,
            BrowserMessage::RelaunchNow => Next::Relaunch,
            other => Next::Dispatch(other),
        },
    }
}

/// Why a connection ended.
#[derive(Clone, Copy, Debug, PartialEq, Eq, Structural)]
pub enum ExitReason {
    ClosedNormally,
    /// Driven out, and the one who did it is gone too.
    Displaced,
    DisplacedByNewClient,
    WatchdogTimeout,
    PrePromotionIdle,
    ReceiveError,
}

impl ExitReason {
    pub open spec fn text_chars(self) -> Seq<char> {
        match self {
            ExitReason::ClosedNormally => "ws-closed-normally"@,
            ExitReason::Displaced => "displaced"@,
            ExitReason::DisplacedByNewClient => "displaced-by-new-client"@,
            ExitReason::WatchdogTimeout => "watchdog-timeout"@,
            ExitReason::PrePromotionIdle => "pre-promotion-idle"@,
            ExitReason::ReceiveError => "ws-error"@,
        }
    }

    pub fn to_text(self) -> (r: &'static str)
        ensures
            r@ == self.text_chars(),
    {
        match self {
            ExitReason::ClosedNormally => "ws-closed-normally",
            ExitReason::Displaced => "displaced",
            ExitReason::DisplacedByNewClient => "displaced-by-new-client",
            ExitReason::WatchdogTimeout => "watchdog-timeout",
            ExitReason::PrePromotionIdle => "pre-promotion-idle",
            ExitReason::ReceiveError => "ws-error",
        }
    }
}

/// What ends a connection.
#[derive(Clone, Copy, Debug, PartialEq, Eq, Structural)]
pub enum Ending {
    /// Another client took the slot. `reason_given` is false where its word was lost.
    Kicked { reason_given: bool },
    /// Nothing came in for as long as is allowed.
    Silence,
    Closed,
    ReceiveError,
    /// An answer could not be sent.
    SendBroken,
}

/// Longest silence of a client that has not taken the slot, in milliseconds.
pub const IDLE_TIMEOUT_MS: u64 = 60_000;

/// Longest silence of the client that has the slot. Its heartbeat comes three times in it.
pub const WATCHDOG_MS: u64 = 5_000;

/// How long the pipeline is waited for when a client leaves.
pub const CLEANUP_LOCK_MS: u64 = 500;

/// How long the client that was driven out is given to clean up.
pub const DISPLACEMENT_PAUSE_MS: u64 = 50;

/// A connection.
#[derive(Clone, Copy, Debug, PartialEq, Eq, Structural)]
pub struct Connection {
    /// The agent's own window.
    pub internal: bool,
    pub slot_taken: bool,
}

impl Connection {
    /// Does this message take the slot?
    pub open spec fn promotes(self, incoming: Incoming) -> bool {
        incoming is Message && !self.slot_taken && !self.internal
    }

    /// The connection after the message.
    pub open spec fn after(self, incoming: Incoming) -> Connection {
        Connection { slot_taken: self.slot_taken || self.promotes(incoming), ..self }
    }

    pub fn new(internal: bool) -> (r: Connection)
        ensures
            r == (Connection { internal, slot_taken: false }),
    {
        Connection { internal, slot_taken: false }
    }

    /// How long the connection may be silent from now on.
    pub fn timeout_ms(&self) -> (r: u64)
        ensures
            r == if self.slot_taken {
                WATCHDOG_MS
            } else {
                IDLE_TIMEOUT_MS
            },
            self.slot_taken ==> r == 5_000,
            !self.slot_taken ==> r == 60_000,
    {
        if self.slot_taken {
            WATCHDOG_MS
        } else {
            IDLE_TIMEOUT_MS
        }
    }

    /// Does the connection get levels and measurements? Measuring starts the next window,
    /// so only one may do it.
    pub fn is_served(&self) -> (r: bool)
        ensures
            r == !self.internal,
    {
        !self.internal
    }

    /// Takes what came in: whether the slot is to be taken first, and what is done then.
    pub fn on_incoming(&mut self, incoming: Incoming) -> (r: (bool, Next))
        ensures
            r.0 == old(self).promotes(incoming),
            *final(self) == old(self).after(incoming),
            match incoming {
                Incoming::NotText => r.1 == Next::Continue,
                Incoming::Unreadable { payload, error } => {
                    &&& r.1 matches Next::Reply(AgentMessage::Error {
                        message: ErrorText::InvalidMessage { payload: p, error: e },
                        key,
                    })
                    &&& p@ == text::first_chars(payload@, QUOTED_CHARS as nat)
                    &&& e == error
                    &&& key == ErrorKey::General
                },
                Incoming::Message(BrowserMessage::Restart) => r.1 == Next::Restart,
                Incoming::Message(BrowserMessage::RelaunchNow) => r.1 == Next::Relaunch,
                Incoming::Message(m) => r.1 == Next::Dispatch(m),
            },
    {
        let readable = match &incoming {
            Incoming::Message(_) => true,
            _ => false,
        };
        let promote = readable && !self.slot_taken && !self.internal;
        if promote {
            self.slot_taken = true;
        }
        (promote, handle_one_message(incoming))
    }

    /// Why the connection ended, for the log.
    pub fn exit_reason(&self, ending: Ending) -> (r: ExitReason)
        ensures
            r == match ending {
                Ending::Kicked { reason_given } => if reason_given {
                    ExitReason::DisplacedByNewClient
                } else {
                    ExitReason::Displaced
                },
                Ending::Silence => if self.slot_taken {
                    ExitReason::WatchdogTimeout
                } else {
                    ExitReason::PrePromotionIdle
                },
                Ending::Closed | Ending::SendBroken => ExitReason::ClosedNormally,
                Ending::ReceiveError => ExitReason::ReceiveError,
            },
    {
        match ending {
            Ending::Kicked { reason_given } => if reason_given {
                ExitReason::DisplacedByNewClient
            } else {
                ExitReason::Displaced
            },
            Ending::Silence => if self.slot_taken {
                ExitReason::WatchdogTimeout
            } else {
                ExitReason::PrePromotionIdle
            },
            Ending::Closed => ExitReason::ClosedNormally,
            Ending::SendBroken => ExitReason::ClosedNormally,
            Ending::ReceiveError => ExitReason::ReceiveError,
        }
    }

    /// Is the studio left when the connection ends?
    pub fn leaves_studio(&self) -> (r: bool)
        ensures
            r == (!self.internal && self.slot_taken),
    {
        !self.internal && self.slot_taken
    }
}

/// The slot, shared by all connections.
#[derive(Clone, Copy, Debug, PartialEq, Eq, Structural)]
pub struct Slot {
    /// The connection that took the slot last. It may have ended since.
    pub holder: Option<u64>,
    /// A client is being served, as far as is known.
    pub client_active: bool,
}

impl Slot {
    pub fn new() -> (r: Slot)
        ensures
            r == (Slot { holder: None, client_active: false }),
    {
        Slot { holder: None, client_active: false }
    }

    /// Takes the slot, and gives who is to be driven out.
    pub fn take(&mut self, connection: u64) -> (r: Option<u64>)
        ensures
            r == old(self).holder,
            *final(self) == (Slot { holder: Some(connection), ..*old(self) }),
    {
        let previous = self.holder;
        self.holder = Some(connection);
        previous
    }

    /// Who had the slot was given the time to go: the new holder is served.
    pub fn settled(&mut self)
        ensures
            *final(self) == (Slot { client_active: true, ..*old(self) }),
    {
        self.client_active = true;
    }

    /// The slot after a client that had it is gone.
    pub open spec fn after_release(self, connection: u64) -> Slot {
        if self.holder == Some(connection) {
            Slot { client_active: false, ..self }
        } else {
            self
        }
    }

    /// A client that had the slot is gone. The slot may be another's by now, who goes on
    /// being served.
    pub fn released(&mut self, connection: u64)
        ensures
            *final(self) == old(self).after_release(connection),
    {
        match self.holder {
            Some(holder) => if holder == connection {
                self.client_active = false;
            },
            None => {},
        }
    }
}

/// Does the message tell of the plugin that is loaded?
pub open spec fn tells_plugin(m: AgentMessage, info: LoadedPluginInfo, bypassed: bool) -> bool {
    m == (AgentMessage::InstrumentPluginLoaded {
        name: info.name,
        plugin_ref: info.plugin_ref,
        latency_samples: info.latency_samples,
        has_editor: info.has_editor,
        bypass: bypassed,
    })
}

/// What a client is greeted with, in order: the agent, its status, and what a page that was
/// loaded anew cannot know, the plugin and the input source. `midi_name` is the name of the
/// MIDI device that is the source, as far as it is known.
pub fn greeting(
    pl: &PipelineState,
    platform: Platform,
    identity: &AgentIdentity,
    midi_name: Option<String>,
) -> (r: Vec<AgentMessage>)
    ensures
        r@.len() >= 2,
        r@[0] matches AgentMessage::Hello { protocol_version, agent_version, os, arch, capabilities }
            && protocol_version == identity.protocol_version && agent_version == identity.version
            && os == identity.os && arch == identity.arch && capabilities@.len() == 0,
        r@[1] == status_of(AgentState::Idle, *identity),
        !platform.hosts_plugins() ==> r@.len() == 2,
        platform.hosts_plugins() ==> match pl.plugin.instrument_plugin_info {
            Some(info) => {
                &&& r@.len() == 4
                &&& tells_plugin(r@[2], info, pl.plugin.instrument_plugin_bypass)
                &&& r@[3] == source_changed(pl.input_source, midi_name)
            },
            None => r@.len() == 3 && r@[2] == source_changed(pl.input_source, midi_name),
        },
{
    let mut r: Vec<AgentMessage> = Vec::new();
    r.push(make_hello(identity));
    r.push(make_status(AgentState::Idle, identity));
    if platform.can_host_plugins() {
        match pl.plugin.get_instrument_plugin_snapshot() {
            Some((info, bypass)) => {
                let LoadedPluginInfo { plugin_ref, name, latency_samples, has_editor } = info;
                r.push(
                    AgentMessage::InstrumentPluginLoaded {
                        name,
                        plugin_ref,
                        latency_samples,
                        has_editor,
                        bypass,
                    },
                );
            },
            None => {},
        }
        r.push(source_message(pl.current_input_source(), midi_name));
    }
    r
}

/// The level of the input as it is shown: zero while nothing is taken from the input.
pub open spec fn shown_rms(pl: PipelineState) -> u32 {
    if pl.session.capture_feeding {
        pl.session.input_rms
    } else {
        0
    }
}

/// The levels of the moment, if there is any sound to show.
pub fn levels_message(pl: &PipelineState, levels: Vec<StreamLevel>, midi_active: bool) -> (r: Option<
    AgentMessage,
>)
    ensures
        r == if levels@.len() > 0 || float_bits::above(shown_rms(*pl), 0) || midi_active {
            Some(AgentMessage::StreamLevels { levels, input_rms: shown_rms(*pl), midi_active })
        } else {
            None
        },
{
    let input_rms: u32 = if pl.session.capture_feeding {
        pl.session.input_rms
    } else {
        0
    };
    if levels.len() > 0 || float_bits::is_above(input_rms, 0) || midi_active {
        Some(AgentMessage::StreamLevels { levels, input_rms, midi_active })
    } else {
        None
    }
}

/// How long a connection for the logs may take, in milliseconds.
pub const LOGS_TIMEOUT_MS: u64 = 10_000;

/// What is done on a connection for the logs.
#[derive(Debug)]
pub enum LogsNext {
    Continue,
    /// Collect the logs, answer and end.
    Collect { max_days: Option<u32>, max_bytes: Option<u64> },
    /// Answer and end.
    Refuse(AgentMessage),
}

/// Sorts what came in on a connection for the logs. It serves the logs and nothing else, and
/// has no part in the slot.
pub fn handle_logs_message(incoming: Incoming) -> (r: LogsNext)
    ensures
        r == match incoming {
            Incoming::Message(BrowserMessage::GetLogsArchive { max_days, max_bytes }) =>
                LogsNext::Collect { max_days, max_bytes },
            Incoming::Message(BrowserMessage::HelloAck { .. }) => LogsNext::Continue,
            Incoming::Message(_) => LogsNext::Refuse(
                AgentMessage::Error { message: ErrorText::LogsOnly, key: ErrorKey::General },
            ),
            _ => LogsNext::Continue,
        },
{
    match incoming {
        Incoming::Message(m) => match m {
            BrowserMessage::GetLogsArchive { max_days, max_bytes } => LogsNext::Collect {
                max_days,
                max_bytes,
            },
            BrowserMessage::HelloAck { .. } => LogsNext::Continue,
            _ => LogsNext::Refuse(
                AgentMessage::Error { message: ErrorText::LogsOnly, key: ErrorKey::General },
            ),
        },
        _ => LogsNext::Continue,
    }
}

/// Most attempts to bind the port of the agent.
pub const BIND_ATTEMPTS: u32 = 5;

/// The pause after a failed attempt, in milliseconds.
pub const BIND_PAUSE_MS: u64 = 300;

/// Attempts to bind the port, which a process that is just ending may still hold.
#[derive(Clone, Copy, Debug, PartialEq, Eq, Structural)]
pub struct Binding {
    pub failed: u32,
}

impl Binding {
    pub fn new() -> (r: Binding)
        ensures
            r.failed == 0,
    {
        Binding { failed: 0 }
    }

    /// An attempt failed: the pause before the next, or nothing where it was the last.
    pub fn attempt_failed(&mut self) -> (r: Option<u64>)
        requires
            old(self).failed < BIND_ATTEMPTS,
        ensures
            final(self).failed == old(self).failed + 1,
            r == if final(self).failed < BIND_ATTEMPTS {
                Some(BIND_PAUSE_MS)
            } else {
                None
            },
            r is Some <==> final(self).failed < 5,
            r matches Some(pause) ==> pause == 300,
    {
        self.failed = self.failed + 1;
        if self.failed < BIND_ATTEMPTS {
            Some(BIND_PAUSE_MS)
        } else {
            None
        }
    }
}

/// How often the slot is taken in the course of a connection.
pub open spec fn promotions(c: Connection, incoming: Seq<Incoming>) -> nat
    decreases incoming.len(),
{
    if incoming.len() == 0 {
        0
    } else {
        let here: nat = if c.promotes(incoming[0]) {
            1
        } else {
            0
        };
        here + promotions(c.after(incoming[0]), incoming.skip(1))
    }
}

/// The connection once all that came in was taken.
pub open spec fn outcome(c: Connection, incoming: Seq<Incoming>) -> Connection
    decreases incoming.len(),
{
    if incoming.len() == 0 {
        c
    } else {
        outcome(c.after(incoming[0]), incoming.skip(1))
    }
}

/// A connection takes the slot at most once, and has it in the end exactly if it took it.
pub proof fn the_slot_is_taken_once(internal: bool, incoming: Seq<Incoming>)
    ensures
        promotions(Connection { internal, slot_taken: false }, incoming) <= 1,
        outcome(Connection { internal, slot_taken: false }, incoming).slot_taken == (promotions(
            Connection { internal, slot_taken: false },
            incoming,
        ) == 1),
{
    lemma_promotions(Connection { internal, slot_taken: false }, incoming);
}

proof fn lemma_promotions(c: Connection, incoming: Seq<Incoming>)
    ensures
        c.slot_taken ==> promotions(c, incoming) == 0 && outcome(c, incoming).slot_taken,
        !c.slot_taken ==> promotions(c, incoming) <= 1 && outcome(c, incoming).slot_taken == (
        promotions(c, incoming) == 1),
    decreases incoming.len(),
{
    if incoming.len() > 0 {
        lemma_promotions(c.after(incoming[0]), incoming.skip(1));
    }
}

/// Whoever holds the slot and is served counts as active, however late those go that were
/// driven out; when the holder goes, nobody does.
pub proof fn the_holder_is_active(slot: Slot, holder: u64, other: u64)
    requires
        slot.holder == Some(holder),
        slot.client_active,
        other != holder,
    ensures
        slot.after_release(other) == slot,
        !slot.after_release(holder).client_active,
{
}

/// A client that only looks on drives nobody out and stops nothing when it goes: the agent's
/// own window, and a page that sends nothing that can be read.
pub proof fn lookers_on_disturb_nobody(internal: bool, incoming: Seq<Incoming>)
    requires
        internal || forall|i: int| 0 <= i < incoming.len() ==> !(#[trigger] incoming[i] is Message),
    ensures
        promotions(Connection { internal, slot_taken: false }, incoming) == 0,
        !outcome(Connection { internal, slot_taken: false }, incoming).slot_taken,
    decreases incoming.len(),
{
    if incoming.len() > 0 {
        let rest = incoming.skip(1);
        assert forall|i: int| !internal && 0 <= i < rest.len() implies !(
        #[trigger] rest[i] is Message) by {
            assert(rest[i] == incoming[i + 1]);
        }
        lookers_on_disturb_nobody(internal, rest);
    }
}

/// The words for why a connection ended.
pub proof fn every_end_has_its_words(r: ExitReason)
    ensures
        r is ClosedNormally ==> r.text_chars() == "ws-closed-normally"@,
        r is Displaced ==> r.text_chars() == "displaced"@,
        r is DisplacedByNewClient ==> r.text_chars() == "displaced-by-new-client"@,
        r is WatchdogTimeout ==> r.text_chars() == "watchdog-timeout"@,
        r is PrePromotionIdle ==> r.text_chars() == "pre-promotion-idle"@,
        r is ReceiveError ==> r.text_chars() == "ws-error"@,
{
}

/// The first message of a browser takes the slot, and nothing else does: no frame without a
/// message, none after the first, and no message of the agent's own window.
pub proof fn a_message_takes_the_slot(c: Connection, incoming: Incoming)
    ensures
        c.promotes(incoming) ==> incoming is Message && !c.slot_taken && !c.internal,
        incoming is Message && !c.slot_taken && !c.internal ==> c.promotes(incoming) && c.after(
            incoming,
        ).slot_taken,
        c.slot_taken ==> c.after(incoming) == c,
        c.internal ==> c.after(incoming) == c,
        c.after(incoming).internal == c.internal,
        !(incoming is Message) ==> c.after(incoming) == c,
{
}

/// A connection that ends frees the slot only if it still holds it.
pub proof fn only_the_holder_frees_the_slot(slot: Slot, connection: u64)
    ensures
        slot.holder == Some(connection) ==> !slot.after_release(connection).client_active,
        slot.holder != Some(connection) ==> slot.after_release(connection) == slot,
        slot.after_release(connection).holder == slot.holder,
{
}

/// A browser that connects is told of the plugin that is loaded, as it is loaded.
pub proof fn a_loaded_plugin_is_told_as_it_is(
    m: AgentMessage,
    info: LoadedPluginInfo,
    bypassed: bool,
)
    requires
        tells_plugin(m, info, bypassed),
    ensures
        m matches AgentMessage::InstrumentPluginLoaded {
            name,
            plugin_ref,
            latency_samples,
            has_editor,
            bypass,
        } && name == info.name && plugin_ref == info.plugin_ref && latency_samples
            == info.latency_samples && has_editor == info.has_editor && bypass == bypassed,
{
}

/// The level of the input is shown while it is sent, and nothing otherwise.
pub proof fn a_level_is_shown_while_it_is_sent(pl: PipelineState)
    ensures
        pl.session.capture_feeding ==> shown_rms(pl) == pl.session.input_rms,
        !pl.session.capture_feeding ==> shown_rms(pl) == 0,
{
}

} // verus!
