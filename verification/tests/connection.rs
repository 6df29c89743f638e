//! Connections: who may connect, who drives the agent, and what is sent unasked.

use jamodio::access::{
    is_internal_client_origin, is_logs_only, is_valid_sfu_dest, origin_allowed, IpAddress,
};
use jamodio::connection::{
    greeting, handle_logs_message, handle_one_message, levels_message, Binding, Connection, Ending,
    ExitReason, Incoming, LogsNext, Next, Slot,
};
use jamodio::float_bits::{clamp_unit, is_above, sanitize_volume};
use jamodio::messages::{
    AgentIdentity, AgentMessage, BrowserMessage, ErrorText, StreamLevel,
};
use jamodio::pipeline::{AgentState, InputSource, PipelineState};
use jamodio::plugin::{Platform, PluginRef};
use jamodio::plugin_control::LoadedPluginInfo;
use jamodio::relaunch::{Relaunch, RelaunchStep};

fn identity() -> AgentIdentity {
    AgentIdentity {
        protocol_version: 2,
        version: "0.6.4".into(),
        os: "windows".into(),
        arch: "x86_64".into(),
    }
}

#[test]
fn origins_of_pages() {
    for origin in [
        "https://jamodio.com",
        "https://www.jamodio.com",
        "https://jamodio-git-main-bengo82-9540s-projects.vercel.app",
        "tauri://localhost",
        "http://tauri.localhost",
        "file://",
    ] {
        assert!(origin_allowed(Some(origin), false), "{origin}");
    }
    for origin in [
        "https://jamodio.com.evil.example",
        "https://jamodio-evil.vercel.app",
        "https://evil-bengo82-9540s-projects.vercel.app",
        "http://tauri.localhost.evil.example",
        "http://localhost:3000",
        "",
    ] {
        assert!(!origin_allowed(Some(origin), false), "{origin}");
    }
    assert!(origin_allowed(Some("http://localhost:3000"), true));
    assert!(origin_allowed(Some("http://127.0.0.1:3000"), true));
    assert!(!origin_allowed(None, false));
    assert!(origin_allowed(None, true));
    assert!(is_internal_client_origin("tauri://localhost"));
    assert!(!is_internal_client_origin("https://jamodio.com"));
}

#[test]
fn queries_for_the_logs() {
    assert!(is_logs_only("op=logs"));
    assert!(is_logs_only("a=1&op=logs&b=2"));
    assert!(!is_logs_only("op=logsx"));
    assert!(!is_logs_only("xop=logs"));
    assert!(!is_logs_only(""));
}

#[test]
fn destinations_of_sound() {
    let v6 = |segments| Some(IpAddress::V6 { segments });
    assert!(is_valid_sfu_dest(v6([0x2001, 0xdb8, 0, 0, 0, 0, 0, 1]), false));
    assert!(!is_valid_sfu_dest(v6([0, 0, 0, 0, 0, 0, 0, 1]), false));
    assert!(is_valid_sfu_dest(v6([0, 0, 0, 0, 0, 0, 0, 1]), true));
    assert!(!is_valid_sfu_dest(v6([0, 0, 0, 0, 0, 0, 0, 0]), true));
    assert!(!is_valid_sfu_dest(v6([0xff02, 0, 0, 0, 0, 0, 0, 1]), true));
    let v4 = |octets| Some(IpAddress::V4 { octets });
    assert!(!is_valid_sfu_dest(v4([0, 0, 0, 0]), true));
    assert!(is_valid_sfu_dest(v4([223, 255, 255, 255]), false));
    assert!(!is_valid_sfu_dest(v4([239, 255, 255, 255]), false));
}

#[test]
fn what_came_in_is_sorted() {
    assert!(matches!(handle_one_message(Incoming::NotText), Next::Continue));
    assert!(matches!(
        handle_one_message(Incoming::Message(BrowserMessage::Restart)),
        Next::Restart
    ));
    assert!(matches!(
        handle_one_message(Incoming::Message(BrowserMessage::RelaunchNow)),
        Next::Relaunch
    ));
    assert!(matches!(
        handle_one_message(Incoming::Message(BrowserMessage::Stop)),
        Next::Dispatch(BrowserMessage::Stop)
    ));
    let long = Incoming::Unreadable { payload: "é".repeat(130), error: "no json".into() };
    let Next::Reply(AgentMessage::Error { message, .. }) = handle_one_message(long) else {
        panic!("an unreadable text is answered")
    };
    assert_eq!(
        message.to_text(),
        format!("Invalid message: {} (parse error: no json)", "é".repeat(120))
    );
}

#[test]
fn a_page_takes_the_slot_with_its_first_message() {
    let mut c = Connection::new(false);
    assert_eq!(c.timeout_ms(), 60_000);
    assert!(!c.on_incoming(Incoming::NotText).0);
    let junk = Incoming::Unreadable { payload: "x".into(), error: "e".into() };
    assert!(!c.on_incoming(junk).0);
    assert!(!c.leaves_studio());
    assert!(c.on_incoming(Incoming::Message(BrowserMessage::GetStats)).0);
    assert!(!c.on_incoming(Incoming::Message(BrowserMessage::GetStats)).0, "once only");
    assert_eq!(c.timeout_ms(), 5_000);
    assert!(c.leaves_studio());

    let mut own = Connection::new(true);
    assert!(!own.on_incoming(Incoming::Message(BrowserMessage::GetStats)).0);
    assert!(!own.leaves_studio() && !own.is_served());
}

#[test]
fn who_takes_the_slot_drives_out_the_last() {
    let mut slot = Slot::new();
    assert_eq!(slot.take(1), None);
    assert!(!slot.client_active, "not yet served");
    slot.settled();
    assert!(slot.client_active);
    assert_eq!(slot.take(2), Some(1));
    slot.settled();
    slot.released(1);
    assert!(slot.client_active, "who was driven out goes late");
    assert_eq!(slot.holder, Some(2));
    slot.released(2);
    assert!(!slot.client_active);
    assert_eq!(slot.take(3), Some(2));
}

#[test]
fn reasons_of_an_end() {
    let fresh = Connection::new(false);
    let mut promoted = Connection::new(false);
    promoted.slot_taken = true;
    for (c, ending, words) in [
        (fresh, Ending::Silence, "pre-promotion-idle"),
        (promoted, Ending::Silence, "watchdog-timeout"),
        (promoted, Ending::Closed, "ws-closed-normally"),
        (promoted, Ending::SendBroken, "ws-closed-normally"),
        (promoted, Ending::ReceiveError, "ws-error"),
        (promoted, Ending::Kicked { reason_given: true }, "displaced-by-new-client"),
        (promoted, Ending::Kicked { reason_given: false }, "displaced"),
    ] {
        assert_eq!(c.exit_reason(ending).to_text(), words);
    }
    assert_eq!(fresh.exit_reason(Ending::Closed), ExitReason::ClosedNormally);
}

#[test]
fn a_page_is_greeted() {
    let mut pl = PipelineState::new();
    pl.state = AgentState::Capturing;
    let r = greeting(&pl, Platform::Other, &identity(), None);
    assert!(matches!(
        &r[..],
        [
            AgentMessage::Hello { protocol_version: 2, .. },
            AgentMessage::Status { state: AgentState::Idle, .. },
        ]
    ));
    pl.plugin.instrument_plugin_info = Some(LoadedPluginInfo {
        plugin_ref: PluginRef::Vst3 { path: "/a".into(), uid: "0".into() },
        name: "Amp".into(),
        latency_samples: 32,
        has_editor: true,
    });
    pl.plugin.instrument_plugin_bypass = true;
    pl.input_source = InputSource::Midi("0:K".into());
    let r = greeting(&pl, Platform::Windows, &identity(), Some("K".into()));
    assert!(matches!(
        &r[2..],
        [
            AgentMessage::InstrumentPluginLoaded { bypass: true, latency_samples: 32, .. },
            AgentMessage::InputSourceChanged { midi: true, midi_device_name: Some(n), .. },
        ] if n == "K"
    ));
}

#[test]
fn levels_are_sent_while_there_is_sound() {
    let mut pl = PipelineState::new();
    assert!(levels_message(&pl, vec![], false).is_none());
    pl.session.input_rms = 0.25f32.to_bits();
    assert!(levels_message(&pl, vec![], false).is_none(), "nothing is taken from the input");
    pl.session.capture_feeding = true;
    assert!(matches!(
        levels_message(&pl, vec![], false),
        Some(AgentMessage::StreamLevels { input_rms, .. }) if input_rms == 0.25f32.to_bits()
    ));
    pl.session.input_rms = 0;
    assert!(levels_message(&pl, vec![], true).is_some());
    let level = StreamLevel { producer_id: "p".into(), rms: 0, rms_l: 0, rms_r: 0 };
    assert!(levels_message(&pl, vec![level], false).is_some());
}

#[test]
fn a_connection_for_the_logs_serves_nothing_else() {
    let ask = BrowserMessage::GetLogsArchive { max_days: None, max_bytes: Some(9) };
    assert!(matches!(
        handle_logs_message(Incoming::Message(ask)),
        LogsNext::Collect { max_days: None, max_bytes: Some(9) }
    ));
    let ack = BrowserMessage::HelloAck { protocol_version: 2, session_id: None };
    assert!(matches!(handle_logs_message(Incoming::Message(ack)), LogsNext::Continue));
    assert!(matches!(handle_logs_message(Incoming::NotText), LogsNext::Continue));
    assert!(matches!(
        handle_logs_message(Incoming::Message(BrowserMessage::Stop)),
        LogsNext::Refuse(AgentMessage::Error { message: ErrorText::LogsOnly, .. })
    ));
}

#[test]
fn the_port_is_tried_five_times() {
    let mut b = Binding::new();
    for _ in 0..4 {
        assert_eq!(b.attempt_failed(), Some(300));
    }
    assert_eq!(b.attempt_failed(), None);
}

#[test]
fn numbers_are_kept_in_range_by_their_bits() {
    for x in [-1.0f32, -0.0, 0.0, 1e-40, 0.5, 1.0, 1.5, f32::INFINITY, f32::NEG_INFINITY] {
        assert_eq!(clamp_unit(x.to_bits()), x.clamp(0.0, 1.0).to_bits(), "{x}");
        assert_eq!(is_above(x.to_bits(), 0), x > 0.0, "{x}");
        assert_eq!(is_above(x.to_bits(), 0.5f32.to_bits()), x > 0.5, "{x}");
    }
    assert!(f32::from_bits(clamp_unit(f32::NAN.to_bits())).is_nan());
    assert!(!is_above(f32::NAN.to_bits(), 0));
    assert_eq!(sanitize_volume((-0.0f32).to_bits()), 0);
    assert_eq!(sanitize_volume(f32::MAX.to_bits()), f32::MAX.to_bits());
}

#[test]
fn a_restart_says_farewell_first() {
    assert_eq!(Relaunch::trigger_relaunch(false), (Relaunch::Over, RelaunchStep::Nothing));
    let (mut r, first) = Relaunch::trigger_relaunch(true);
    let mut steps = vec![first];
    for _ in 0..5 {
        steps.push(r.done());
    }
    assert_eq!(
        steps,
        [
            RelaunchStep::Announce,
            RelaunchStep::Sleep { ms: 300 },
            RelaunchStep::StartHelper,
            RelaunchStep::Sleep { ms: 150 },
            RelaunchStep::Exit,
            RelaunchStep::Nothing,
        ]
    );
}
