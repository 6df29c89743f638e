//! The slot of the instrument's plugin, and the AudioUnit host behind it.

use jamodio::au_host::{
    check_block, component_id, component_name, fourcc_to_u32, latency_exceeds_live_budget,
    load_codes, loaded, pack_midi, process_result, request_result, scan_component, u32_to_fourcc,
    PluginError, Probe,
};
use jamodio::midi::MidiEvent;
use jamodio::plugin::{PluginInfo, PluginRef};
use jamodio::plugin_control::{
    LoadError, LoadedPlugin, PluginControl, PluginHandle, PluginScanCache, ScanResult,
};

fn eq_ref() -> PluginRef {
    PluginRef::Au {
        au_type: "aufx".into(),
        subtype: "nbeq".into(),
        manufacturer: "appl".into(),
    }
}

fn bogus_ref() -> PluginRef {
    PluginRef::Au {
        au_type: "aufx".into(),
        subtype: "zzzz".into(),
        manufacturer: "zzzz".into(),
    }
}

/// A slot whose scan knows both plugins, switched off after an overload.
fn make_control() -> PluginControl {
    let plugins = [eq_ref(), bogus_ref()]
        .into_iter()
        .map(|plugin_ref| PluginInfo {
            name: "test".into(),
            manufacturer: "test".into(),
            plugin_ref,
            latency_samples: 0,
            has_editor: false,
            incompatible: false,
            has_input_bus: true,
            is_instrument: false,
        })
        .collect();
    let mut ctrl = PluginControl::new();
    ctrl.instrument_plugin_bypass = true;
    ctrl.plugin_auto_bypass_active = true;
    ctrl.plugin_scan_cache =
        PluginScanCache::Ready(ScanResult { plugins, blocked: Vec::new() });
    ctrl
}

/// Loads, with what the native host makes of it.
fn load(
    ctrl: &mut PluginControl,
    plugin_ref: &PluginRef,
    host: Result<u32, &str>,
) -> Result<LoadedPlugin, LoadError> {
    ctrl.begin_load(plugin_ref)?;
    let made = host
        .map(|id| (PluginHandle(id as u64), 17))
        .map_err(|e| e.to_string());
    ctrl.finish_load(plugin_ref, made)
}

#[test]
fn load_refused_when_absent_from_scan() {
    let mut ctrl = make_control();
    ctrl.plugin_scan_cache = PluginScanCache::Scanning;
    let err = load(&mut ctrl, &eq_ref(), Ok(1))
        .expect_err("a load is refused while the scan runs")
        .to_text();
    assert!(err.contains("absent du scan"), "unexpected words: {err}");
    assert!(ctrl.instrument_plugin_handle.is_none());
}

#[test]
fn load_sets_handle_and_resets_flags() {
    let mut ctrl = make_control();
    let ack = load(&mut ctrl, &eq_ref(), Ok(1)).expect("load");
    assert_eq!(ack.name, "test");
    assert_eq!(ack.latency_samples, 17);
    assert!(ctrl.instrument_plugin_handle.is_some());
    assert!(ctrl.instrument_plugin_info.is_some());
    assert!(!ctrl.instrument_plugin_bypass);
    assert!(!ctrl.plugin_auto_bypass_active);
    ctrl.unload();
}

#[test]
fn unload_clears_handle_and_info() {
    let mut ctrl = make_control();
    load(&mut ctrl, &eq_ref(), Ok(1)).expect("load");
    assert_eq!(ctrl.unload(), Some(PluginHandle(1)));
    assert!(ctrl.instrument_plugin_handle.is_none());
    assert!(ctrl.instrument_plugin_info.is_none());
}

#[test]
fn reload_swap_keeps_consistent_state() {
    let mut ctrl = make_control();
    load(&mut ctrl, &eq_ref(), Ok(1)).expect("load 1");
    load(&mut ctrl, &eq_ref(), Ok(2)).expect("load 2");
    assert!(ctrl.instrument_plugin_handle.is_some());
    ctrl.unload();
    assert!(ctrl.instrument_plugin_handle.is_none());
}

#[test]
fn failed_load_leaves_handle_none() {
    let mut ctrl = make_control();
    let failed = load(&mut ctrl, &bogus_ref(), Err("no such component"));
    assert!(matches!(failed, Err(LoadError::Host(e)) if e == "no such component"));
    assert!(ctrl.instrument_plugin_handle.is_none());
    assert!(ctrl.instrument_plugin_info.is_none());
}

#[test]
fn a_swap_hands_out_the_old_instance() {
    let mut ctrl = make_control();
    load(&mut ctrl, &eq_ref(), Ok(1)).expect("load");
    assert!(matches!(ctrl.begin_load(&eq_ref()), Ok(Some(PluginHandle(1)))));
    assert!(ctrl.instrument_plugin_handle.is_none(), "nothing is heard of the old one");
}

#[test]
fn an_overload_lasts_until_the_user_acts() {
    let mut ctrl = make_control();
    load(&mut ctrl, &eq_ref(), Ok(1)).expect("load");
    ctrl.bypass_overloaded();
    assert!(ctrl.instrument_plugin_bypass);
    assert!(ctrl.plugin_auto_bypass_active);
    ctrl.set_instrument_plugin_bypass(true);
    assert!(ctrl.instrument_plugin_bypass);
    assert!(!ctrl.plugin_auto_bypass_active);
    let (shown, bypassed) = ctrl.get_instrument_plugin_snapshot().expect("a plugin is loaded");
    assert_eq!(shown.name, "test");
    assert!(bypassed);
}

#[test]
fn the_list_says_whether_the_scan_runs() {
    let mut ctrl = PluginControl::new();
    let (plugins, blocked, scanning) = ctrl.list_instrument_plugins();
    assert!(plugins.is_empty() && blocked.is_empty() && scanning);
    ctrl.scan_finished(Vec::new(), Vec::new());
    assert!(!ctrl.list_instrument_plugins().2);
}

// ---- the AudioUnit host ----

fn probe(raw_name: &str, latency_samples: u32) -> Option<Probe> {
    Some(Probe { raw_name: Some(raw_name.into()), latency_samples, has_input_bus: true })
}

#[test]
fn enumerate_and_probe_finds_apple_natives() {
    for (st, name, raw) in [
        ("mrev", "AUMatrixReverb", "Apple: AUMatrixReverb"),
        ("nbeq", "AUNBandEQ", "Apple: AUNBandEQ"),
    ] {
        let code = |s: &str| fourcc_to_u32(s).expect("four bytes");
        let id = component_id(code("aufx"), code(st), code("appl"));
        assert!(id.au_type == "aufx" && id.subtype == st && id.manufacturer == "appl");
        let info = scan_component("aufx", st, "appl", probe(raw, 0)).expect("a probe");
        assert_eq!(info.name, name);
        assert_eq!(info.manufacturer, "Apple");
        assert!(info.has_input_bus);
        assert!(!info.is_instrument);
        assert!(!info.incompatible);
    }
}

#[test]
fn probe_unknown_component_returns_none() {
    assert_eq!(scan_component("xxxx", "yyyy", "zzzz", None), None);
    assert_eq!(scan_component("au", "mrev", "appl", probe("Apple: X", 0)), None);
}

#[test]
fn scan_flags_apple_dynamics_incompatible() {
    let dcmp = scan_component("aufx", "dcmp", "appl", probe("Apple: AUDynamicsProcessor", 256))
        .expect("a probe");
    assert_eq!(dcmp.name, "AUDynamicsProcessor");
    assert!(dcmp.incompatible);
    assert!(latency_exceeds_live_budget(dcmp.latency_samples));
}

#[test]
fn unknown_au_item_yields_begin_end_no_plugin() {
    assert_eq!(scan_component("aufx", "zzzz", "zzzz", None), None);
    let unnamed = Some(Probe { raw_name: None, latency_samples: 0, has_input_bus: true });
    assert_eq!(scan_component("aufx", "zzzz", "zzzz", unnamed), None);
}

#[test]
fn instruments_and_plain_names() {
    let dls = scan_component("aumu", "dls ", "appl", probe("DLSMusicDevice", 128)).expect("a probe");
    assert!(dls.is_instrument);
    assert_eq!(dls.name, "DLSMusicDevice");
    assert!(!dls.incompatible, "the budget itself is still fine");
}

#[test]
fn codes_read_back_as_text() {
    assert_eq!(fourcc_to_u32("aufx"), Some(0x6175_6678));
    assert_eq!(u32_to_fourcc(0x6175_6678), "aufx");
    assert_eq!(fourcc_to_u32("auf"), None);
    assert_eq!(fourcc_to_u32("éé"), Some(0xc3a9_c3a9), "four bytes count, not four letters");
    // A byte that begins no letter is shown as a replacement.
    assert_eq!(u32_to_fourcc(0x61ff_6262), "a\u{fffd}bb");
}

#[test]
fn what_the_host_answers() {
    assert!(matches!(loaded(7, None), Ok(PluginHandle(7))));
    assert!(matches!(loaded(0, None), Err(PluginError::Init(e)) if e == "unknown"));
    assert!(matches!(loaded(0, Some("x".into())), Err(PluginError::Init(e)) if e == "x"));
    assert!(matches!(request_result(0), Ok(())));
    assert!(matches!(request_result(-1), Err(PluginError::InvalidHandle)));
    assert!(matches!(process_result(0), Ok(())));
    assert!(matches!(process_result(-1), Err(PluginError::InvalidHandle)));
    assert!(matches!(process_result(-50), Err(PluginError::Process(e)) if e == "renderBlock rc=-50"));
    assert!(matches!(check_block(64, 64), Ok(())));
    assert!(
        matches!(check_block(64, 63), Err(PluginError::Process(e)) if e == "L/R length mismatch")
    );
    assert!(matches!(load_codes(&bogus_ref()), Ok((0x6175_6678, _, _))));
    let short = PluginRef::Au {
        au_type: "au".into(),
        subtype: "nbeq".into(),
        manufacturer: "appl".into(),
    };
    assert!(matches!(load_codes(&short), Err(PluginError::NotFound)));
    let vst = PluginRef::Vst3 { path: "/a".into(), uid: "0".into() };
    assert!(matches!(load_codes(&vst), Err(PluginError::Init(_))));
    assert_eq!(component_name(Some(Some("EQ".into()))), Some("EQ".into()));
    assert_eq!(component_name(Some(None)), None);
    assert_eq!(component_name(Some(Some(String::new()))), None);
    assert_eq!(component_name(None), None);
    let events = [
        MidiEvent { frame_offset: 3, data: [0x90, 60, 1] },
        MidiEvent { frame_offset: 4, data: [0x80, 60, 2] },
    ];
    assert_eq!(pack_midi(&events), vec![0x90, 60, 1, 0x80, 60, 2]);
}

#[test]
fn a_plugin_is_named_in_the_log() {
    assert_eq!(eq_ref().label(), "AU aufx/nbeq/appl");
    let vst3 = PluginRef::Vst3 { path: "/p/Synth.vst3".into(), uid: "42".into() };
    assert_eq!(vst3.label(), "VST3 /p/Synth.vst3 (uid=42)");
}
