//! What the bench is asked to do, on its command line and in its environment.

use crate::text;
use vstd::prelude::*;
use vstd::string::*;

verus! {

/// What becomes of the first enumeration of devices.
#[derive(Clone, Copy, Debug, PartialEq, Eq, Structural)]
pub enum Coexist {
    /// There is none.
    No,
    /// Its host is dropped before the driver is opened.
    Dropped,
    /// Its host stays alive meanwhile.
    KeptAlive,
}

/// What the plain bench does beyond opening the driver and counting.
#[derive(Clone, Copy, Debug, PartialEq, Eq, Structural)]
pub struct BasicFlags {
    pub read_input: bool,
    pub touch_output: bool,
    /// The main thread handles window messages while it waits.
    pub pump: bool,
    pub with_messages: bool,
    /// The callback overruns its deadline now and then.
    pub stall: bool,
    pub coexist: Coexist,
    /// Devices are enumerated while the driver runs.
    pub enum_during: bool,
}

#[derive(Clone, Copy, Debug, PartialEq, Eq, Structural)]
pub enum LabMode {
    Cpal2,
    Latency,
    Bufinfo,
    Robust,
    Churn,
    Coldstart,
    DualAsio,
    Basic(BasicFlags),
}

/// The flags of a name that is none of the special modes.
pub open spec fn flags_of(name: Seq<char>) -> BasicFlags {
    BasicFlags {
        read_input: name == "readin"@,
        touch_output: name != "nofill"@,
        pump: name == "pump"@,
        with_messages: name != "nomsg"@,
        stall: name == "stall"@,
        coexist: if !"coexist"@.is_prefix_of(name) {
            Coexist::No
        } else if name == "coexist-live"@ {
            Coexist::KeptAlive
        } else {
            Coexist::Dropped
        },
        enum_during: name == "enum-during"@,
    }
}

/// The mode of a name.
pub open spec fn mode_of(name: Seq<char>) -> LabMode {
    if name == "cpal2"@ {
        LabMode::Cpal2
    } else if name == "latency"@ {
        LabMode::Latency
    } else if name == "bufinfo"@ {
        LabMode::Bufinfo
    } else if name == "robust"@ {
        LabMode::Robust
    } else if name == "churn"@ {
        LabMode::Churn
    } else if name == "coldstart"@ {
        LabMode::Coldstart
    } else if name == "dualasio"@ {
        LabMode::DualAsio
    } else {
        LabMode::Basic(flags_of(name))
    }
}

/// Reads the mode. Without an argument it is `baseline`.
pub fn lab_mode(arg: Option<&str>) -> (r: LabMode)
    ensures
        r == mode_of(
            match arg {
                Some(a) => a@,
                None => "baseline"@,
            },
        ),
{
    let name: &str = match arg {
        Some(a) => a,
        None => "baseline",
    };
    if text::same(name, "cpal2") {
        LabMode::Cpal2
    } else if text::same(name, "latency") {
        LabMode::Latency
    } else if text::same(name, "bufinfo") {
        LabMode::Bufinfo
    } else if text::same(name, "robust") {
        LabMode::Robust
    } else if text::same(name, "churn") {
        LabMode::Churn
    } else if text::same(name, "coldstart") {
        LabMode::Coldstart
    } else if text::same(name, "dualasio") {
        LabMode::DualAsio
    } else {
        LabMode::Basic(
            BasicFlags {
                read_input: text::same(name, "readin"),
                touch_output: !text::same(name, "nofill"),
                pump: text::same(name, "pump"),
                with_messages: !text::same(name, "nomsg"),
                stall: text::same(name, "stall"),
                coexist: if !text::starts_with(name, "coexist") {
                    Coexist::No
                } else if text::same(name, "coexist-live") {
                    Coexist::KeptAlive
                } else {
                    Coexist::Dropped
                },
                enum_during: text::same(name, "enum-during"),
            },
        )
    }
}

/// A setting that is a number, or what stands in for it.
pub open spec fn number_or(arg: Option<Seq<char>>, otherwise: u64) -> u64 {
    match arg {
        Some(a) => match text::parsed_number(a) {
            Some(n) => n,
            None => otherwise,
        },
        None => otherwise,
    }
}

fn read_number(arg: Option<&str>, otherwise: u64) -> (r: u64)
    ensures
        r == number_or(
            match arg {
                Some(a) => Some(a@),
                None => None,
            },
            otherwise,
        ),
{
    match arg {
        Some(a) => match text::parse_number(a) {
            Some(n) => n,
            None => otherwise,
        },
        None => otherwise,
    }
}

/// How long the bench watches, in seconds, or how many cycles it runs: twelve where nothing
/// is said, and at least one in the modes that measure freshness or run in cycles.
pub fn monitor_secs(arg: Option<&str>, mode: LabMode) -> (r: u64)
    ensures
        ({
            let n = number_or(
                match arg {
                    Some(a) => Some(a@),
                    None => None,
                },
                12,
            );
            r == match mode {
                LabMode::Robust | LabMode::Churn | LabMode::Coldstart | LabMode::DualAsio => if n
                    == 0 {
                    1
                } else {
                    n
                },
                _ => n,
            }
        }),
{
    let n: u64 = read_number(arg, 12);
    let least: u64 = match mode {
        LabMode::Robust => 1,
        LabMode::Churn => 1,
        LabMode::Coldstart => 1,
        LabMode::DualAsio => 1,
        _ => 0,
    };
    if n < least {
        least
    } else {
        n
    }
}

/// How long a callback overruns, in milliseconds, and every how many ticks.
pub fn stall_settings(ms: Option<&str>, every: Option<&str>) -> (r: (u64, u64))
    ensures
        r.0 == number_or(
            match ms {
                Some(a) => Some(a@),
                None => None,
            },
            6,
        ),
        r.1 == number_or(
            match every {
                Some(a) => Some(a@),
                None => None,
            },
            375,
        ),
{
    (read_number(ms, 6), read_number(every, 375))
}

/// Does the callback overrun at this tick? With no distance only tick zero would count.
pub fn stalls_at(tick: u64, every: u64) -> (r: bool)
    ensures
        r == if every == 0 {
            tick == 0
        } else {
            tick % every == 0
        },
{
    if every == 0 {
        tick == 0
    } else {
        tick % every == 0
    }
}

/// How long a cycle holds the driver, in milliseconds.
pub fn hold_ms(arg: Option<&str>) -> (r: u64)
    ensures
        r == number_or(
            match arg {
                Some(a) => Some(a@),
                None => None,
            },
            400,
        ),
{
    read_number(arg, 400)
}

/// The size of buffers that is wanted: 64 where nothing is said.
pub fn wanted_size(arg: Option<&str>) -> (r: i32)
    ensures
        r == match arg {
            Some(a) => match text::parsed_signed(a@) {
                Some(n) => n,
                None => 64,
            },
            None => 64,
        },
{
    match arg {
        Some(a) => match text::parse_signed(a) {
            Some(n) => n,
            None => 64,
        },
        None => 64,
    }
}

/// The size to ask for: none, which is the driver's own, where the wanted one is not
/// positive.
pub fn requested_size(wanted: i32) -> (r: Option<i32>)
    ensures
        r == if wanted <= 0 {
            None
        } else {
            Some(wanted)
        },
{
    if wanted <= 0 {
        None
    } else {
        Some(wanted)
    }
}

/// In which order the two directions are opened.
#[derive(Clone, Copy, Debug, PartialEq, Eq, Structural)]
pub enum OpenOrder {
    /// The input is created and started, then both are.
    Agent,
    /// The output is created and started, then both are.
    OutFirst,
    /// Both are created and started at once.
    Single,
}

pub fn open_order(arg: Option<&str>) -> (r: OpenOrder)
    ensures
        r == match arg {
            Some(a) => if a@ == "single"@ {
                OpenOrder::Single
            } else if a@ == "out-first"@ {
                OpenOrder::OutFirst
            } else {
                OpenOrder::Agent
            },
            None => OpenOrder::Agent,
        },
{
    match arg {
        Some(a) => if text::same(a, "single") {
            OpenOrder::Single
        } else if text::same(a, "out-first") {
            OpenOrder::OutFirst
        } else {
            OpenOrder::Agent
        },
        None => OpenOrder::Agent,
    }
}

/// Each mode is asked for by its own name; every other name is a plain run.
pub proof fn a_mode_is_asked_for_by_its_name(name: Seq<char>)
    ensures
        name == "cpal2"@ ==> mode_of(name) == LabMode::Cpal2,
        name == "latency"@ ==> mode_of(name) == LabMode::Latency,
        name == "bufinfo"@ ==> mode_of(name) == LabMode::Bufinfo,
        name == "robust"@ ==> mode_of(name) == LabMode::Robust,
        name == "churn"@ ==> mode_of(name) == LabMode::Churn,
        name == "coldstart"@ ==> mode_of(name) == LabMode::Coldstart,
        name == "dualasio"@ ==> mode_of(name) == LabMode::DualAsio,
        name != "cpal2"@ && name != "latency"@ && name != "bufinfo"@ && name != "robust"@ && name
            != "churn"@ && name != "coldstart"@ && name != "dualasio"@ ==> mode_of(name)
            == LabMode::Basic(flags_of(name)),
{
    reveal_strlit("cpal2");
    reveal_strlit("latency");
    reveal_strlit("bufinfo");
    reveal_strlit("robust");
    reveal_strlit("churn");
    reveal_strlit("coldstart");
    reveal_strlit("dualasio");
    assert("cpal2"@[1] == 'p' && "churn"@[1] == 'h');
    assert("latency"@[0] == 'l' && "bufinfo"@[0] == 'b');
}

/// A plain run does everything but what its name takes away, and what its name adds.
pub proof fn a_name_adds_or_takes_away_one_thing(name: Seq<char>)
    ensures
        ({
            let f = flags_of(name);
            &&& f.read_input <==> name == "readin"@
            &&& f.touch_output <==> name != "nofill"@
            &&& f.pump <==> name == "pump"@
            &&& f.with_messages <==> name != "nomsg"@
            &&& f.stall <==> name == "stall"@
            &&& f.enum_during <==> name == "enum-during"@
            &&& f.coexist == Coexist::No <==> !"coexist"@.is_prefix_of(name)
            &&& name == "coexist-live"@ ==> f.coexist == Coexist::KeptAlive
            &&& "coexist"@.is_prefix_of(name) && name != "coexist-live"@ ==> f.coexist
                == Coexist::Dropped
        }),
{
    reveal_strlit("coexist");
    reveal_strlit("coexist-live");
    assert("coexist"@ =~= "coexist-live"@.subrange(0, 7));
    assert("coexist"@.is_prefix_of("coexist-live"@));
}

/// A number that was given is taken, and otherwise the one that is usual.
pub proof fn a_number_that_was_given_is_taken(n: u64, otherwise: u64)
    ensures
        number_or(Some(text::decimal_chars(n as nat)), otherwise) == n,
        number_or(None, otherwise) == otherwise,
        number_or(Some(Seq::empty()), otherwise) == otherwise,
{
    text::a_written_number_reads_back(n);
}

} // verus!
