//! The bench for drivers.

use jamodio::asio_lab::bench::{
    channels_opened, cycle_over, release_steps, second_step, setup_steps, Bench, BenchOpening,
    ChurnStep, CycleResult, DriverSearch, LoadAttempt, OpenStep, Reached, Release, SearchStep,
    SecondStage, SecondStep, Setup,
};
use jamodio::asio_lab::measure::{
    checksum, cold_verdict, cycle_alive, dual_verdict, first_callback, frozen_after,
    latency_candidates, live_before, round_trip_gain, size_stable, stream_frozen, streams_wedged,
    ColdVerdict, DualVerdict, FirstCallback, FreshWatch, FreshnessMeter, GrowthWatch, TickCounter,
};
use jamodio::asio_lab::modes::{
    hold_ms, lab_mode, monitor_secs, open_order, requested_size, stall_settings, stalls_at,
    wanted_size, BasicFlags, Coexist, LabMode, OpenOrder,
};
use jamodio::asio_lab::sizes::{
    granularity_text, legal_buffer_sizes, lists_size, size_to_open, snap_buffer_size, SizeRange,
};
use jamodio::text::{decimal, parse_number, parse_signed, signed_decimal, trim};

#[test]
fn modes_by_their_names() {
    assert_eq!(lab_mode(Some("churn")), LabMode::Churn);
    assert_eq!(lab_mode(Some("dualasio")), LabMode::DualAsio);
    let plain = BasicFlags {
        read_input: false,
        touch_output: true,
        pump: false,
        with_messages: true,
        stall: false,
        coexist: Coexist::No,
        enum_during: false,
    };
    assert_eq!(lab_mode(None), LabMode::Basic(plain));
    for (name, flags) in [
        ("readin", BasicFlags { read_input: true, ..plain }),
        ("nofill", BasicFlags { touch_output: false, ..plain }),
        ("pump", BasicFlags { pump: true, ..plain }),
        ("nomsg", BasicFlags { with_messages: false, ..plain }),
        ("stall", BasicFlags { stall: true, ..plain }),
        ("coexist", BasicFlags { coexist: Coexist::Dropped, ..plain }),
        ("coexist-live", BasicFlags { coexist: Coexist::KeptAlive, ..plain }),
        ("enum-during", BasicFlags { enum_during: true, ..plain }),
    ] {
        assert_eq!(lab_mode(Some(name)), LabMode::Basic(flags), "{name}");
    }
}

#[test]
fn settings_have_defaults() {
    assert_eq!(monitor_secs(None, LabMode::Latency), 12);
    assert_eq!(monitor_secs(Some("0"), LabMode::Latency), 0);
    assert_eq!(monitor_secs(Some("0"), LabMode::Churn), 1);
    assert_eq!(monitor_secs(Some("x"), LabMode::Churn), 12);
    assert_eq!(stall_settings(None, Some("10")), (6, 10));
    assert!(stalls_at(20, 10) && !stalls_at(21, 10) && !stalls_at(5, 0));
    assert_eq!(hold_ms(None), 400);
    assert_eq!(wanted_size(None), 64);
    assert_eq!(wanted_size(Some("-1")), -1);
    assert_eq!(requested_size(-1), None);
    assert_eq!(requested_size(96), Some(96));
    assert_eq!(open_order(Some("single")), OpenOrder::Single);
    assert_eq!(open_order(Some("out-first")), OpenOrder::OutFirst);
    assert_eq!(open_order(None), OpenOrder::Agent);
}

#[test]
fn sizes_that_a_driver_takes() {
    assert_eq!(snap_buffer_size(100, 64, 1_024, 256, -1), 128);
    assert_eq!(snap_buffer_size(96, 64, 1_024, 256, -1), 64, "the smaller one of two");
    assert_eq!(snap_buffer_size(16, 64, 1_024, 256, -1), 256, "out of range");
    assert_eq!(snap_buffer_size(70, 65, 127, 80, -1), 80, "there is no power of two");
    assert_eq!(snap_buffer_size(100, 64, 1_024, 256, 0), 100);
    assert_eq!(snap_buffer_size(71, 64, 1_024, 256, 16), 64);
    assert_eq!(snap_buffer_size(72, 64, 1_024, 256, 16), 80);
    assert_eq!(snap_buffer_size(100, 64, 100, 64, 24), 88, "the last step in the range");
    assert_eq!(snap_buffer_size(64, 0, 0, 0, 1), 1);
    assert_eq!(snap_buffer_size(64, 0, 0, 48, 1), 48);
    assert_eq!(legal_buffer_sizes(48, 300, 100, -1), [64, 128, 256]);
    assert_eq!(legal_buffer_sizes(64, 512, 128, 0), [128], "a fixed size");
    assert!(legal_buffer_sizes(64, 512, 32, 0).is_empty());
    assert_eq!(legal_buffer_sizes(64, 512, 128, -7), [64, 128, 512]);
    assert_eq!(legal_buffer_sizes(64, 512, 32, -7), [64, 512]);
    assert_eq!(legal_buffer_sizes(64, 100, 70, 16), [64, 70, 80, 96]);
    assert_eq!(legal_buffer_sizes(1, 1_000, 1_000, 1).len(), 65);
    assert!(legal_buffer_sizes(0, 10, 5, 1).is_empty());
    assert!(lists_size(&vec![64, 128], 128) && !lists_size(&vec![64], 128));
    let range = SizeRange { min: 64, max: 512, pref: 256, gran: 64 };
    assert_eq!(size_to_open(100, Some(range)), 128);
    assert_eq!(size_to_open(100, None), 100);
    assert!(granularity_text(-1).contains("puissances de 2"));
    assert!(granularity_text(0).contains("FIXE"));
    assert!(granularity_text(-7).starts_with("-7 "));
    assert!(granularity_text(16).contains("16"));
}

#[test]
fn a_frozen_input_does_not_change() {
    let mut m = FreshnessMeter::new();
    for _ in 0..5 {
        m.observe(&[7, 7, 7, 7], 1);
    }
    m.observe(&[], 1);
    assert_eq!((m.changes, m.const_blocks, m.read_blocks, m.absmax), (0, 5, 5, 7));
    m.observe(&[i32::MIN, 1, 2, 3], 1);
    assert_eq!((m.changes, m.const_blocks, m.absmax), (1, 5, 2_147_483_648));
    let mut m = FreshnessMeter::new();
    m.observe(&[1, -100, 2, 100, 3], 2);
    assert_eq!(m.absmax, 3, "only one channel is watched");
    assert_eq!(checksum(&[1, 2, 3]), 6);
    assert_eq!(checksum(&[-1]), u64::MAX);
}

#[test]
fn seconds_are_counted() {
    let mut t = TickCounter::new();
    assert!(t.tick(0) && t.tick(1) && !t.tick(2));
    assert_eq!((t.ticks, t.max_index), (3, 2));
    let mut g = GrowthWatch::new();
    assert_eq!(g.second_over(375), 375);
    assert_eq!(g.second_over(750), 375);
    assert_eq!(g.second_over(750), 0);
    assert!(g.survived(3) && !g.survived(4));
    assert!(streams_wedged(&g, &g, 4) && !streams_wedged(&g, &g, 3));
    let mut f = FreshWatch::new(0, 0);
    assert!(!f.second_over(0, 0).live, "without a tick there is no life");
    assert!(!f.second_over(100, 25).live, "a quarter is not enough");
    assert!(f.second_over(200, 51).live);
    assert_eq!((f.first_live, f.first_frozen), (Some(3), Some(1)));
    assert!(!f.live_from_start());
}

#[test]
fn verdicts() {
    let mut live = FreshWatch::new(0, 0);
    live.second_over(100, 90);
    let frozen = FreshWatch::new(0, 0);
    assert_eq!(cold_verdict(0, 2_000_000_000, &frozen), ColdVerdict::Railed);
    assert_eq!(cold_verdict(0, 1_000, &frozen), ColdVerdict::Silent);
    assert_eq!(cold_verdict(90, 1_000, &live), ColdVerdict::LiveFromStart);
    assert_eq!(cold_verdict(90, 1_000, &frozen), ColdVerdict::LiveLate);
    assert!(live_before(100, 26) && !live_before(100, 25));
    let mut after = FreshWatch::new(100, 26);
    after.second_over(200, 26);
    assert!(frozen_after(&after, 49) && !frozen_after(&after, 50));
    assert!(!frozen_after(&live, 0));
    assert_eq!(dual_verdict(false, true), DualVerdict::FrozenBefore);
    assert_eq!(dual_verdict(true, true), DualVerdict::FrozenBySecond);
    assert_eq!(dual_verdict(true, false), DualVerdict::StayedLive);
    assert!(stream_frozen(0, 0) && stream_frozen(4, 100) && !stream_frozen(5, 100));
    assert!(cycle_alive(76, 400) && !cycle_alive(75, 400));
    assert_eq!(latency_candidates().len(), 8);
    assert!(size_stable(true, 113, 64) && !size_stable(true, 112, 64));
    assert!(!size_stable(false, 9_999, 64));
    assert_eq!(round_trip_gain(64), -128);
    assert_eq!(first_callback(0, 1_999), FirstCallback::Waiting);
    assert_eq!(first_callback(0, 2_000), FirstCallback::TimedOut);
    assert_eq!(first_callback(1, 5_000), FirstCallback::Alive);
}

#[test]
fn the_first_driver_with_an_input_is_taken() {
    assert_eq!(DriverSearch::new(0), None);
    let mut s = DriverSearch::new(3).expect("there are drivers");
    assert_eq!(
        s.attempted(LoadAttempt::Failed),
        SearchStep::Next { index: 1, destroy: false }
    );
    assert_eq!(
        s.attempted(LoadAttempt::Loaded { ins: 0 }),
        SearchStep::Next { index: 2, destroy: true }
    );
    assert_eq!(s.attempted(LoadAttempt::Loaded { ins: 2 }), SearchStep::Take { index: 2 });
    assert_eq!(
        s.attempted(LoadAttempt::Loaded { ins: 0 }),
        SearchStep::NoneLeft { destroy: true }
    );
    assert_eq!(channels_opened(Some(8)), 2);
    assert_eq!(channels_opened(Some(1)), 1);
    assert_eq!(channels_opened(None), 1);
}

#[test]
fn two_directions_are_opened_in_order() {
    let (mut o, first) = BenchOpening::begin(OpenOrder::Agent);
    assert_eq!(first, OpenStep::CreateInput);
    let steps: Vec<OpenStep> = (0..4).map(|_| o.step(true)).collect();
    assert_eq!(
        steps,
        [
            OpenStep::Start,
            OpenStep::RecreateWithOther,
            OpenStep::Start,
            OpenStep::Done { opened: true },
        ]
    );
    let (mut o, first) = BenchOpening::begin(OpenOrder::OutFirst);
    assert_eq!(first, OpenStep::CreateOutput);
    assert_eq!(o.step(true), OpenStep::Start);
    assert_eq!(o.step(false), OpenStep::RecreateWithOther);
    assert_eq!(o.step(true), OpenStep::Done { opened: false });
    let (mut o, first) = BenchOpening::begin(OpenOrder::Single);
    assert_eq!(first, OpenStep::CreateBoth);
    assert_eq!(o.step(true), OpenStep::Start);
    assert_eq!(o.step(true), OpenStep::Done { opened: true });
    assert_eq!(
        second_step(SecondStage::Loading, true),
        (SecondStage::Creating, SecondStep::CreateOutput)
    );
    assert_eq!(
        second_step(SecondStage::Creating, true),
        (SecondStage::Over, SecondStep::AddCallbackAndStart)
    );
    assert_eq!(
        second_step(SecondStage::Creating, false),
        (SecondStage::Over, SecondStep::Without)
    );
}

#[test]
fn a_bench_cleans_up() {
    assert_eq!(
        setup_steps(Bench::Basic { messages: false }),
        [
            Setup::SetRate,
            Setup::CreateBoth,
            Setup::AddCallback,
            Setup::Start,
            Setup::Watch,
        ]
    );
    assert_eq!(
        release_steps(Bench::Basic { messages: true }, Reached::Finished),
        [
            Release::Stop,
            Release::RemoveCallback,
            Release::RemoveMessages,
            Release::DisposeBuffers,
            Release::Destroy,
        ]
    );
    for bench in [
        Bench::Basic { messages: true },
        Bench::Coldstart { set_rate: true },
        Bench::Robust { prime: true },
        Bench::Dual { set_rate: false, second: true },
        Bench::Churn,
        Bench::Latency,
        Bench::Bufinfo,
    ] {
        for reached in [Reached::CreateFailed, Reached::StartFailed, Reached::Finished] {
            assert_eq!(release_steps(bench, reached).last(), Some(&Release::Destroy));
        }
    }
}

#[test]
fn cycles_go_on_until_the_driver_is_wedged() {
    let held = CycleResult::Held { ticks: 150 };
    assert_eq!(cycle_over(1, 3, 400, held), ChurnStep::Next { cycle: 2 });
    assert_eq!(cycle_over(3, 3, 400, held), ChurnStep::Survived);
    assert_eq!(
        cycle_over(2, 3, 400, CycleResult::Held { ticks: 10 }),
        ChurnStep::Wedged { cycle: 2 }
    );
    assert_eq!(cycle_over(2, 3, 400, CycleResult::NoDriver), ChurnStep::Wedged { cycle: 2 });
}

#[test]
fn numbers_are_read_and_written() {
    assert_eq!(parse_number("+12"), Some(12));
    assert_eq!(parse_number("18446744073709551615"), Some(u64::MAX));
    assert_eq!(parse_number("18446744073709551616"), None);
    assert_eq!(parse_number("1 "), None);
    assert_eq!(parse_number(""), None);
    assert_eq!(parse_number("+"), None);
    for s in ["-2147483648", "2147483647", "-2147483649", "2147483648", "-+1", "--1", "+7", "-0"] {
        assert_eq!(parse_signed(s), s.parse::<i32>().ok(), "{s}");
    }
    assert_eq!(decimal(u64::MAX), u64::MAX.to_string());
    assert_eq!(signed_decimal(i64::MIN), i64::MIN.to_string());
    assert_eq!(trim("\u{2003} x y\t\n"), "x y");
}
