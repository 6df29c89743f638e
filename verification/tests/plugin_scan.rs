//! A scan for plugins: the worker's words, one worker's life, the whole scan, and what is
//! kept of it.

use jamodio::au_host::AuComponentId;
use jamodio::plugin::{Platform, PluginInfo, PluginRef};
use jamodio::plugin_scan::cache::{
    base_data_dir, build_cache_file, cache_path, fingerprint, fingerprints_match, load, reconcile,
    save_step, temp_path, BlockedRecord, CacheEntry, CacheFile, FileFingerprint, FileMeta, Plan,
    SaveStep, SCANNER_ABI,
};
use jamodio::plugin_scan::coordinator::{pump, PumpStep, ScanOutcome, ScanRun, WorkerSignal};
use jamodio::plugin_scan::discovery::discover_items;
use jamodio::plugin_scan::full_scan::{finish_full_scan, plan_full_scan};
use jamodio::plugin_scan::protocol::{AuItem, AuItemPrefix, WorkerEvent};
use jamodio::plugin_scan::session::{BlockReason, BlockedItem, CloseCause, Session};
use jamodio::plugin_scan::worker::WorkerLoop;

fn named(name: &str, path: &str) -> PluginInfo {
    PluginInfo {
        name: name.into(),
        manufacturer: "T".into(),
        plugin_ref: PluginRef::Vst3 { path: path.into(), uid: "00".into() },
        latency_samples: 0,
        has_editor: false,
        incompatible: false,
        has_input_bus: true,
        is_instrument: false,
    }
}

fn info(name: &str) -> PluginInfo {
    named(name, &format!("/x/{name}.vst3"))
}

fn vst3(path: &str, name: &str) -> PluginInfo {
    named(name, path)
}

// ---- items ----

#[test]
fn au_item_round_trip() {
    let item = AuItem {
        au_type: "aufx".into(),
        subtype: "mrev".into(),
        manufacturer: "appl".into(),
    };
    assert_eq!(item.encode(), "au:aufx/mrev/appl");
    assert_eq!(AuItem::decode("au:aufx/mrev/appl"), Some(item));
    assert_eq!(AuItem::decode("au:aufx/mrev"), None);
    assert_eq!(AuItem::decode("au:a/b/c/d"), None);
    assert_eq!(AuItem::decode("C:\\VST3\\Foo.vst3"), None);
    assert_eq!(AuItem::decode("au://x"), None);
}

#[test]
fn items_are_found_by_platform() {
    let paths = || vec!["C:\\VST3\\Foo.vst3".to_string()];
    let components = || {
        vec![AuComponentId {
            au_type: "aumu".into(),
            subtype: "dls ".into(),
            manufacturer: "appl".into(),
        }]
    };
    assert_eq!(
        discover_items(Platform::Windows, paths(), components()),
        vec!["C:\\VST3\\Foo.vst3".to_string()]
    );
    let items = discover_items(Platform::MacOs, paths(), components());
    assert_eq!(items, vec!["au:aumu/dls /appl".to_string()]);
    assert!(items[0].starts_with(AuItemPrefix::VALUE));
    assert!(discover_items(Platform::Other, paths(), components()).is_empty());
}

// ---- one worker's life ----

fn begin(i: &str) -> WorkerEvent {
    WorkerEvent::Begin { item: i.into() }
}

fn end(i: &str) -> WorkerEvent {
    WorkerEvent::End { item: i.into() }
}

#[test]
fn clean_run_collects_everything() {
    let mut s = Session::new(vec!["a".into(), "b".into()]);
    s.on_event(begin("a"));
    s.on_event(WorkerEvent::Plugin { info: info("A1") });
    s.on_event(end("a"));
    s.on_event(begin("b"));
    s.on_event(end("b"));
    let out = s.close(CloseCause::Exited);
    assert_eq!(out.plugins.len(), 1);
    assert_eq!(out.blocked, None);
    assert!(out.remaining.is_empty());
    assert!(out.progressed);
}

#[test]
fn crash_mid_item_condemns_it_and_keeps_the_rest() {
    let mut s = Session::new(vec!["a".into(), "b".into(), "c".into()]);
    s.on_event(begin("a"));
    s.on_event(WorkerEvent::Plugin { info: info("A1") });
    s.on_event(end("a"));
    s.on_event(begin("b"));
    let out = s.close(CloseCause::Exited);
    assert_eq!(out.plugins.len(), 1);
    assert_eq!(
        out.blocked,
        Some(BlockedItem { item: "b".into(), reason: BlockReason::Crash })
    );
    assert_eq!(out.remaining, vec!["c".to_string()]);
    assert!(out.progressed);
}

#[test]
fn timeout_condemns_with_timeout_reason() {
    let mut s = Session::new(vec!["a".into(), "b".into()]);
    s.on_event(begin("a"));
    let out = s.close(CloseCause::TimedOut);
    assert_eq!(
        out.blocked,
        Some(BlockedItem { item: "a".into(), reason: BlockReason::Timeout })
    );
    assert_eq!(out.remaining, vec!["b".to_string()]);
    assert!(!out.progressed);
}

#[test]
fn death_between_items_condemns_nobody() {
    let mut s = Session::new(vec!["a".into(), "b".into()]);
    s.on_event(begin("a"));
    s.on_event(end("a"));
    let out = s.close(CloseCause::Exited);
    assert_eq!(out.blocked, None);
    assert_eq!(out.remaining, vec!["b".to_string()]);
    assert!(out.progressed);
}

#[test]
fn out_of_order_end_still_removes_item() {
    let mut s = Session::new(vec!["a".into(), "b".into()]);
    s.on_event(begin("b"));
    s.on_event(end("b"));
    let out = s.close(CloseCause::Exited);
    assert_eq!(out.blocked, None);
    assert_eq!(out.remaining, vec!["a".to_string()]);
}

#[test]
fn reasons_have_words() {
    assert_eq!(BlockReason::Crash.as_wire(), "crash");
    assert_eq!(BlockReason::Timeout.as_wire(), "timeout");
}

// ---- the worker's side ----

fn fake_info(name: &str) -> PluginInfo {
    PluginInfo { manufacturer: "Test".into(), ..info(name) }
}

/// Runs the worker over its input. With `broken`, nobody listens to its output.
fn run_loop(
    input: &str,
    broken: bool,
    probe: impl Fn(&str) -> Vec<PluginInfo>,
) -> (i32, Vec<WorkerEvent>) {
    let mut out = Vec::new();
    let mut worker = WorkerLoop::new();
    for line in input.lines() {
        let Some(first) = worker.on_line(line) else {
            continue;
        };
        if broken {
            return (WorkerLoop::exit_code(true), out);
        }
        let item = match &first {
            WorkerEvent::Begin { item } => item.clone(),
            other => panic!("{other:?}"),
        };
        out.push(first);
        out.extend(worker.on_scanned(probe(&item)));
    }
    (WorkerLoop::exit_code(false), out)
}

#[test]
fn run_loop_emits_begin_plugins_end_per_item() {
    let input = "/a.vst3\n/b.vst3\n";
    let (code, ev) = run_loop(input, false, |item| {
        if item == "/a.vst3" {
            vec![fake_info("A1"), fake_info("A2")]
        } else {
            Vec::new()
        }
    });
    assert_eq!(code, 0);
    assert_eq!(ev.len(), 6);
    assert_eq!(ev[0], WorkerEvent::Begin { item: "/a.vst3".into() });
    assert!(matches!(&ev[1], WorkerEvent::Plugin { info } if info.name == "A1"));
    assert!(matches!(&ev[2], WorkerEvent::Plugin { info } if info.name == "A2"));
    assert_eq!(ev[3], WorkerEvent::End { item: "/a.vst3".into() });
    assert_eq!(ev[4], WorkerEvent::Begin { item: "/b.vst3".into() });
    assert_eq!(ev[5], WorkerEvent::End { item: "/b.vst3".into() });
}

#[test]
fn run_loop_skips_blank_lines_and_trims() {
    let input = "\n  /a.vst3  \n\n";
    let (code, ev) = run_loop(input, false, |_| Vec::new());
    assert_eq!(code, 0);
    assert_eq!(
        ev,
        vec![
            WorkerEvent::Begin { item: "/a.vst3".into() },
            WorkerEvent::End { item: "/a.vst3".into() },
        ]
    );
}

#[test]
fn run_loop_stops_with_code_1_when_stdout_closed() {
    let (code, _) = run_loop("/a.vst3\n", true, |_| Vec::new());
    assert_eq!(code, 1);
}

#[test]
fn empty_input_exits_clean() {
    let (code, lines) = run_loop("", false, |_| Vec::new());
    assert_eq!(code, 0);
    assert!(lines.is_empty(), "nothing was to be said: {lines:?}");
}

// ---- the whole scan ----

/// What a worker does with an item.
#[derive(Clone, Copy, PartialEq)]
enum Fate {
    Fine,
    Crash,
    Hang,
}

/// Runs a scan with workers that treat each item as told. `None` where no worker can be
/// started.
fn scan(items: Vec<String>, fate: Option<fn(&str) -> Fate>) -> ScanOutcome {
    let mut run = ScanRun::new(items);
    while let Some(given) = run.next_session() {
        let Some(fate) = fate else {
            run.session_failed();
            continue;
        };
        let mut session = Session::new(given.clone());
        let mut step = PumpStep::Listen;
        for item in &given {
            pump(&mut session, WorkerSignal::Event(begin(item)));
            pump(&mut session, WorkerSignal::Unreadable);
            match fate(item) {
                Fate::Fine => {
                    let plugin = WorkerEvent::Plugin { info: info(&format!("plug-{item}")) };
                    pump(&mut session, WorkerSignal::Event(plugin));
                    pump(&mut session, WorkerSignal::Event(end(item)));
                }
                Fate::Crash => {
                    step = pump(&mut session, WorkerSignal::Gone);
                    break;
                }
                Fate::Hang => {
                    step = pump(&mut session, WorkerSignal::Silent);
                    break;
                }
            }
        }
        if step == PumpStep::Listen {
            step = pump(&mut session, WorkerSignal::Gone);
        }
        run.session_ended(session.close(step.close_cause()));
    }
    run.finish()
}

#[test]
fn all_clean_collects_every_plugin() {
    let out = scan(vec!["a".into(), "b".into(), "c".into()], Some(|_| Fate::Fine));
    assert_eq!(out.plugins.len(), 3);
    assert!(out.blocked.is_empty());
}

#[test]
fn crash_on_item_blocklists_and_rescans_rest() {
    let out = scan(
        vec!["a".into(), "b".into(), "c".into()],
        Some(|i| if i == "b" { Fate::Crash } else { Fate::Fine }),
    );
    let names: Vec<&str> = out.plugins.iter().map(|p| p.name.as_str()).collect();
    assert!(names.contains(&"plug-a"), "a is missing: {names:?}");
    assert!(names.contains(&"plug-c"), "c is missing: {names:?}");
    assert!(!names.contains(&"plug-b"));
    assert_eq!(out.blocked.len(), 1);
    assert_eq!(out.blocked[0].item, "b");
    assert_eq!(out.blocked[0].reason, BlockReason::Crash);
}

#[test]
fn hang_on_item_times_out_and_blocklists() {
    let out = scan(
        vec!["a".into(), "b".into()],
        Some(|i| if i == "b" { Fate::Hang } else { Fate::Fine }),
    );
    let names: Vec<&str> = out.plugins.iter().map(|p| p.name.as_str()).collect();
    assert!(names.contains(&"plug-a"), "a must survive what b did");
    assert_eq!(out.blocked.len(), 1);
    assert_eq!(out.blocked[0].item, "b");
    assert_eq!(out.blocked[0].reason, BlockReason::Timeout);
}

#[test]
fn spawn_failure_is_handled_gracefully() {
    let out = scan(vec!["a".into()], None);
    assert!(out.plugins.is_empty());
    assert!(out.blocked.is_empty());
}

#[test]
fn a_worker_that_does_nothing_is_not_started_again() {
    let mut run = ScanRun::new(vec!["a".into()]);
    let given = run.next_session().expect("a worker is due");
    run.session_ended(Session::new(given).close(CloseCause::Exited));
    assert!(run.next_session().is_none());
    assert_eq!(run.finish().plugins.len(), 0);
}

#[test]
fn a_scan_starts_a_limited_number_of_workers() {
    let items: Vec<String> = (0..300).map(|i| format!("{i}")).collect();
    let out = scan(items, Some(|_| Fate::Crash));
    assert_eq!(out.blocked.len(), 256);
}

// ---- the cache ----

fn fp(mtime: i64, size: u64) -> Option<FileFingerprint> {
    Some(FileFingerprint { mtime, size })
}

fn cache_with(entries: Vec<CacheEntry>, blocked: Vec<BlockedRecord>) -> CacheFile {
    CacheFile { scanner_abi: SCANNER_ABI, entries, blocked }
}

#[test]
fn unchanged_items_are_reused_not_rescanned() {
    let cache = cache_with(
        vec![CacheEntry {
            item: "/a.vst3".into(),
            fingerprint: fp(100, 10),
            plugins: vec![vst3("/a.vst3", "A")],
        }],
        vec![],
    );
    let discovered = vec![("/a.vst3".to_string(), fp(100, 10))];
    let plan = reconcile(&discovered, &cache);
    assert!(plan.to_scan.is_empty(), "an unchanged item is not scanned");
    assert_eq!(plan.reused.len(), 1);
}

#[test]
fn changed_fingerprint_forces_rescan() {
    let cache = cache_with(
        vec![CacheEntry {
            item: "/a.vst3".into(),
            fingerprint: fp(100, 10),
            plugins: vec![vst3("/a.vst3", "A")],
        }],
        vec![],
    );
    let discovered = vec![("/a.vst3".to_string(), fp(200, 99))];
    let plan = reconcile(&discovered, &cache);
    assert_eq!(plan.to_scan, vec!["/a.vst3".to_string()]);
    assert!(plan.reused.is_empty());
}

#[test]
fn blocked_item_stays_blocked_but_retest_on_update() {
    let cache = cache_with(
        vec![],
        vec![BlockedRecord {
            item: "/bad.vst3".into(),
            fingerprint: fp(100, 10),
            reason: BlockReason::Crash,
        }],
    );
    let same = vec![("/bad.vst3".to_string(), fp(100, 10))];
    let plan = reconcile(&same, &cache);
    assert!(plan.to_scan.is_empty());
    assert_eq!(plan.retained_blocked.len(), 1);
    assert_eq!(plan.retained_blocked[0].reason, BlockReason::Crash);

    let updated = vec![("/bad.vst3".to_string(), fp(300, 20))];
    let plan = reconcile(&updated, &cache);
    assert_eq!(plan.to_scan, vec!["/bad.vst3".to_string()]);
    assert!(plan.retained_blocked.is_empty());
}

#[test]
fn new_item_is_scanned() {
    let cache = cache_with(vec![], vec![]);
    let discovered = vec![("/new.vst3".to_string(), fp(1, 1))];
    let plan = reconcile(&discovered, &cache);
    assert_eq!(plan.to_scan, vec!["/new.vst3".to_string()]);
}

#[test]
fn uninstalled_item_is_dropped() {
    let cache = cache_with(
        vec![CacheEntry {
            item: "/gone.vst3".into(),
            fingerprint: fp(1, 1),
            plugins: vec![vst3("/gone.vst3", "Gone")],
        }],
        vec![],
    );
    let plan = reconcile(&[], &cache);
    assert!(plan.to_scan.is_empty());
    assert!(plan.reused.is_empty());
    assert!(plan.retained_blocked.is_empty());
}

#[test]
fn abi_bump_invalidates_everything() {
    let mut cache = cache_with(
        vec![CacheEntry {
            item: "/a.vst3".into(),
            fingerprint: fp(1, 1),
            plugins: vec![vst3("/a.vst3", "A")],
        }],
        vec![],
    );
    cache.scanner_abi = SCANNER_ABI + 1;
    let discovered = vec![("/a.vst3".to_string(), fp(1, 1))];
    let plan = reconcile(&discovered, &cache);
    assert_eq!(plan.to_scan, vec!["/a.vst3".to_string()]);
    assert!(plan.reused.is_empty());
}

#[test]
fn au_items_reused_without_fingerprint() {
    let cache = cache_with(
        vec![CacheEntry {
            item: "au:aufx/mrev/appl".into(),
            fingerprint: None,
            plugins: vec![PluginInfo {
                plugin_ref: PluginRef::Au {
                    au_type: "aufx".into(),
                    subtype: "mrev".into(),
                    manufacturer: "appl".into(),
                },
                ..vst3("x", "MatrixReverb")
            }],
        }],
        vec![],
    );
    let discovered = vec![("au:aufx/mrev/appl".to_string(), None)];
    let plan = reconcile(&discovered, &cache);
    assert!(plan.to_scan.is_empty());
    assert_eq!(plan.reused.len(), 1);
}

#[test]
fn build_cache_file_merges_reused_and_fresh() {
    let fps = vec![("/a.vst3".to_string(), fp(1, 1)), ("/b.vst3".to_string(), fp(2, 2))];
    let plan = Plan {
        to_scan: vec!["/b.vst3".into()],
        reused: vec![vst3("/a.vst3", "A")],
        retained_blocked: vec![],
    };
    let fresh = vec![vst3("/b.vst3", "B")];
    let out = build_cache_file(&fresh, &[], &plan, &fps);
    assert_eq!(out.scanner_abi, SCANNER_ABI);
    assert_eq!(out.entries.len(), 2);
    assert_eq!(out.entries[0].item, "/a.vst3");
    assert_eq!(out.entries[0].fingerprint, fp(1, 1));
    assert_eq!(out.entries[1].item, "/b.vst3");
}

#[test]
fn the_first_condemnation_of_an_item_counts() {
    let plan = Plan {
        to_scan: vec![],
        reused: vec![],
        retained_blocked: vec![BlockedItem { item: "/z".into(), reason: BlockReason::Timeout }],
    };
    let fresh = [
        BlockedItem { item: "/z".into(), reason: BlockReason::Crash },
        BlockedItem { item: "/b".into(), reason: BlockReason::Crash },
    ];
    let out = build_cache_file(&[], &fresh, &plan, &[]);
    assert_eq!(out.blocked.len(), 2);
    assert_eq!(out.blocked[0].item, "/b");
    assert_eq!(out.blocked[1].item, "/z");
    assert_eq!(out.blocked[1].reason, BlockReason::Timeout);
    assert_eq!(out.blocked[1].fingerprint, None);
}

#[test]
fn plugins_of_an_item_stay_together() {
    let plan = Plan {
        to_scan: vec![],
        reused: vec![vst3("/b", "B1"), vst3("/a", "A1")],
        retained_blocked: vec![],
    };
    let out = build_cache_file(&[vst3("/b", "B2")], &[], &plan, &[]);
    let names = |i: usize| -> Vec<&str> {
        out.entries[i].plugins.iter().map(|p| p.name.as_str()).collect()
    };
    assert_eq!(names(0), vec!["A1"]);
    assert_eq!(names(1), vec!["B1", "B2"]);
}

#[test]
fn an_unchanged_boot_scans_nothing_again() {
    let found = vec![
        ("/good.vst3".to_string(), fp(1, 1)),
        ("/bad.vst3".to_string(), fp(2, 2)),
        ("au:aumu/dls /appl".to_string(), None),
        ("/none.vst3".to_string(), fp(3, 3)),
    ];
    let au = PluginInfo {
        plugin_ref: PluginRef::Au {
            au_type: "aumu".into(),
            subtype: "dls ".into(),
            manufacturer: "appl".into(),
        },
        ..info("DLS")
    };
    let empty = CacheFile::empty();
    let plan = plan_full_scan(false, &found, &empty);
    assert_eq!(plan.to_scan.len(), 4);
    let fresh = ScanOutcome {
        plugins: vec![vst3("/good.vst3", "Good"), au],
        blocked: vec![BlockedItem { item: "/bad.vst3".into(), reason: BlockReason::Crash }],
        unfinished: vec![],
    };
    let (mut cache, full) = finish_full_scan(plan, fresh, &found);
    assert_eq!(full.scanned, 4);
    assert_eq!(full.plugins.len(), 2);
    let items: Vec<&str> = cache.entries.iter().map(|e| e.item.as_str()).collect();
    assert_eq!(items, ["/good.vst3", "/none.vst3", "au:aumu/dls /appl"]);
    assert_eq!(cache.entries[1].fingerprint, fp(3, 3));
    assert!(cache.entries[1].plugins.is_empty());

    // Neither the next boot nor the one after it scans anything.
    for _ in 0..2 {
        let plan = plan_full_scan(false, &found, &cache);
        assert!(plan.to_scan.is_empty());
        assert_eq!(plan.reused.len(), 2);
        assert_eq!(plan.retained_blocked.len(), 1);
        assert_eq!(plan.retained_blocked[0].reason, BlockReason::Crash);
        let nothing = ScanOutcome { plugins: vec![], blocked: vec![], unfinished: vec![] };
        cache = finish_full_scan(plan, nothing, &found).0;
    }
    let mut changed = found.clone();
    changed[3].1 = fp(3, 4);
    assert_eq!(plan_full_scan(false, &changed, &cache).to_scan, ["/none.vst3"]);

    let forced = plan_full_scan(true, &found, &cache);
    assert_eq!(forced.to_scan.len(), 4);
    assert!(forced.reused.is_empty());
    assert!(forced.retained_blocked.is_empty());
}

#[test]
fn fingerprints_come_from_files_only() {
    let meta = |modified: Option<i64>| Some(FileMeta { modified, size: 9 });
    assert_eq!(fingerprint("/a.vst3", meta(Some(7))), fp(7, 9));
    assert_eq!(fingerprint("/a.vst3", meta(Some(-7))), fp(0, 9));
    assert_eq!(fingerprint("/a.vst3", meta(None)), None);
    assert_eq!(fingerprint("/a.vst3", None), None);
    assert_eq!(fingerprint("au:aufx/mrev/appl", meta(Some(7))), None);
    assert!(fingerprints_match(None, None));
    assert!(!fingerprints_match(None, fp(0, 0)));
    assert!(!fingerprints_match(fp(1, 0), fp(0, 0)));
}

#[test]
fn a_cache_of_another_version_is_no_cache() {
    assert_eq!(load(None).entries.len(), 0);
    let mut cache = cache_with(
        vec![CacheEntry { item: "/a".into(), fingerprint: None, plugins: vec![] }],
        vec![],
    );
    cache.scanner_abi = SCANNER_ABI - 1;
    assert_eq!(load(Some(cache)).entries.len(), 0);
    let kept = cache_with(
        vec![CacheEntry { item: "/a".into(), fingerprint: None, plugins: vec![] }],
        vec![],
    );
    assert_eq!(load(Some(kept)).entries.len(), 1);
}

#[test]
fn the_cache_has_its_place() {
    assert_eq!(
        base_data_dir(Platform::MacOs, Some("/Users/u")),
        "/Users/u/Library/Application Support/Jamodio"
    );
    assert_eq!(base_data_dir(Platform::Other, None), "/tmp/.local/share/jamodio");
    assert_eq!(base_data_dir(Platform::Windows, None), "C:\\Temp\\Jamodio");
    assert_eq!(base_data_dir(Platform::Windows, Some("D:")), "D:Jamodio");
    assert_eq!(
        cache_path("C:\\Temp\\Jamodio", Platform::Windows),
        "C:\\Temp\\Jamodio\\plugin-scan-cache-v1.json"
    );
    assert_eq!(temp_path("/d/", Platform::Other), "/d/plugin-scan-cache-v1.json.tmp");
}

#[test]
fn the_cache_is_replaced_whole_or_not_at_all() {
    assert_eq!(save_step(SaveStep::WriteTemp, true), SaveStep::RenameTemp);
    assert_eq!(save_step(SaveStep::WriteTemp, false), SaveStep::RemoveTemp);
    assert_eq!(save_step(SaveStep::RenameTemp, true), SaveStep::Done);
    assert_eq!(save_step(SaveStep::RenameTemp, false), SaveStep::RemoveTemp);
    assert_eq!(save_step(SaveStep::RemoveTemp, false), SaveStep::Done);
}

#[test]
fn what_no_worker_ended_is_scanned_again() {
    let found = vec![("/a.vst3".to_string(), fp(1, 1)), ("/b.vst3".to_string(), fp(2, 2))];
    let plan = plan_full_scan(false, &found, &CacheFile::empty());
    let fresh = scan(plan.to_scan.clone(), None);
    assert_eq!(fresh.unfinished, ["/a.vst3", "/b.vst3"]);
    let (cache, full) = finish_full_scan(plan, fresh, &found);
    assert!(cache.entries.is_empty() && full.plugins.is_empty());
    assert_eq!(plan_full_scan(false, &found, &cache).to_scan.len(), 2);

    let plan = plan_full_scan(false, &found, &cache);
    let fresh = ScanOutcome { plugins: vec![], blocked: vec![], unfinished: vec!["/b.vst3".into()] };
    let (cache, _) = finish_full_scan(plan, fresh, &found);
    assert_eq!(plan_full_scan(false, &found, &cache).to_scan, ["/b.vst3"]);
    assert!(scan(vec!["a".into()], Some(|_| Fate::Crash)).unfinished.is_empty());
}
