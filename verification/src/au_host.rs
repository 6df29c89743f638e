//! AudioUnits: their codes, what is known of a component, and what the native host says.

use crate::midi::MidiEvent;
use crate::plugin::{PluginInfo, PluginRef};
use crate::plugin_control::PluginHandle;
use crate::text;
use vstd::prelude::*;
use vstd::string::*;
use vstd::utf8::{decode_utf8, encode_utf8, valid_utf8};

verus! {

/// A code from its four bytes, the most significant first.
pub open spec fn code_of(b: Seq<u8>) -> int {
    0x100_0000 * b[0] + 0x1_0000 * b[1] + 0x100 * b[2] + b[3]
}

/// The four bytes of a code.
pub open spec fn code_bytes(v: u32) -> Seq<u8> {
    seq![
        (v / 0x100_0000) as u8,
        (v / 0x1_0000 % 0x100) as u8,
        (v / 0x100 % 0x100) as u8,
        (v % 0x100) as u8,
    ]
}

/// The code that a text of four bytes spells.
pub fn fourcc_to_u32(s: &str) -> (r: Option<u32>)
    ensures
        ({
            let b = encode_utf8(s@);
            if b.len() == 4 {
                r matches Some(v) && v == code_of(b)
            } else {
                r is None
            }
        }),
{
    let b = s.as_bytes();
    if b.len() != 4 {
        return None;
    }
    Some(
        0x100_0000 * (b[0] as u32) + 0x1_0000 * (b[1] as u32) + 0x100 * (b[2] as u32) + b[3] as u32,
    )
}

/// What std makes of bytes that need not be text: what is no text is replaced by a mark.
pub uninterp spec fn lossy_text(bytes: Seq<u8>) -> Seq<char>;

/// Calls `String::from_utf8_lossy` of std. The text depends on the bytes alone, and bytes
/// that are text are that text. What stands for other bytes is not stated.
#[verifier::external_body]
fn read_lossy(bytes: &[u8]) -> (r: String)
    ensures
        r@ == lossy_text(bytes@),
        valid_utf8(bytes@) ==> r@ == decode_utf8(bytes@),
{
    String::from_utf8_lossy(bytes).into_owned()
}

/// The text that a code spells.
pub fn u32_to_fourcc(v: u32) -> (r: String)
    ensures
        r@ == lossy_text(code_bytes(v)),
        valid_utf8(code_bytes(v)) ==> r@ == decode_utf8(code_bytes(v)),
{
    let mut b: Vec<u8> = Vec::new();
    b.push((v / 0x100_0000) as u8);
    b.push((v / 0x1_0000 % 0x100) as u8);
    b.push((v / 0x100 % 0x100) as u8);
    b.push((v % 0x100) as u8);
    assert(b@ =~= code_bytes(v));
    read_lossy(b.as_slice())
}

/// A text of four bytes survives the way to a code and back.
pub proof fn codes_read_back(s: Seq<char>, v: u32)
    requires
        encode_utf8(s).len() == 4,
        v == code_of(encode_utf8(s)),
    ensures
        code_bytes(v) == encode_utf8(s),
        valid_utf8(code_bytes(v)),
        decode_utf8(code_bytes(v)) == s,
{
    let b = encode_utf8(s);
    assert(v / 0x100_0000 == b[0]);
    assert(v / 0x1_0000 == 0x100 * b[0] + b[1]);
    assert(v / 0x100 == 0x1_0000 * b[0] + 0x100 * b[1] + b[2]);
    assert(code_bytes(v) =~= b);
    vstd::utf8::encode_utf8_valid_utf8(s);
    vstd::utf8::encode_utf8_decode_utf8(s);
}

/// A component of the registry, by its three codes.
#[derive(Clone, Debug, PartialEq, Eq)]
pub struct AuComponentId {
    pub au_type: String,
    pub subtype: String,
    pub manufacturer: String,
}

/// The component that the registry lists under three codes.
pub fn component_id(au_type: u32, subtype: u32, manufacturer: u32) -> (r: AuComponentId)
    ensures
        r.au_type@ == lossy_text(code_bytes(au_type)),
        r.subtype@ == lossy_text(code_bytes(subtype)),
        r.manufacturer@ == lossy_text(code_bytes(manufacturer)),
{
    AuComponentId {
        au_type: u32_to_fourcc(au_type),
        subtype: u32_to_fourcc(subtype),
        manufacturer: u32_to_fourcc(manufacturer),
    }
}

/// Latency beyond which a plugin cannot be played live, in samples.
pub const LIVE_BUDGET_SAMPLES: u32 = 128;

/// Is the latency beyond what playing live allows?
pub fn latency_exceeds_live_budget(latency_samples: u32) -> (r: bool)
    ensures
        r == (latency_samples > LIVE_BUDGET_SAMPLES),
        r <==> latency_samples > 128,
{
    latency_samples > LIVE_BUDGET_SAMPLES
}

/// Does the description fit the component? Its raw name is `Vendor: Name`, or a name alone.
/// An instrument is a component of the type `aumu`.
pub open spec fn describes(
    info: PluginInfo,
    au_type: u32,
    subtype: u32,
    manufacturer: u32,
    raw_name: Seq<char>,
    latency_samples: u32,
    has_editor: bool,
    has_input_bus: bool,
) -> bool {
    &&& match text::split_at_pattern(raw_name, ": "@) {
        Some((vendor, name)) => info.manufacturer@ == vendor && info.name@ == name,
        None => info.manufacturer@.len() == 0 && info.name@ == raw_name,
    }
    &&& info.plugin_ref matches PluginRef::Au { au_type: t, subtype: s, manufacturer: m }
    &&& t@ == lossy_text(code_bytes(au_type))
    &&& s@ == lossy_text(code_bytes(subtype))
    &&& m@ == lossy_text(code_bytes(manufacturer))
    &&& info.latency_samples == latency_samples
    &&& info.has_editor == has_editor
    &&& info.incompatible == (latency_samples > LIVE_BUDGET_SAMPLES)
    &&& info.has_input_bus == has_input_bus
    &&& info.is_instrument == (lossy_text(code_bytes(au_type)) == "aumu"@)
}

/// Describes a component.
pub fn build_plugin_info(
    au_type: u32,
    subtype: u32,
    manufacturer: u32,
    raw_name: &str,
    latency_samples: u32,
    has_editor: bool,
    has_input_bus: bool,
) -> (r: PluginInfo)
    ensures
        describes(
            r,
            au_type,
            subtype,
            manufacturer,
            raw_name@,
            latency_samples,
            has_editor,
            has_input_bus,
        ),
{
    proof {
        reveal_strlit(": ");
    }
    let (vendor, name) = match text::split_once_at(raw_name, ": ") {
        Some((v, n)) => (v, n),
        None => (String::new(), raw_name.to_owned()),
    };
    let au_type_text = u32_to_fourcc(au_type);
    let is_instrument = text::same(au_type_text.as_str(), "aumu");
    PluginInfo {
        name,
        manufacturer: vendor,
        plugin_ref: PluginRef::Au {
            au_type: au_type_text,
            subtype: u32_to_fourcc(subtype),
            manufacturer: u32_to_fourcc(manufacturer),
        },
        latency_samples,
        has_editor,
        incompatible: latency_exceeds_live_budget(latency_samples),
        has_input_bus,
        is_instrument,
    }
}

/// The three codes of a component, if all of them are codes.
pub open spec fn codes(t: Seq<char>, s: Seq<char>, m: Seq<char>) -> Option<(int, int, int)> {
    if encode_utf8(t).len() == 4 && encode_utf8(s).len() == 4 && encode_utf8(m).len() == 4 {
        Some((code_of(encode_utf8(t)), code_of(encode_utf8(s)), code_of(encode_utf8(m))))
    } else {
        None
    }
}

/// Reads the three codes of a component.
pub fn component_codes(au_type: &str, subtype: &str, manufacturer: &str) -> (r: Option<
    (u32, u32, u32),
>)
    ensures
        match codes(au_type@, subtype@, manufacturer@) {
            Some((t, s, m)) => r matches Some((a, b, c)) && a == t && b == s && c == m,
            None => r is None,
        },
{
    match (fourcc_to_u32(au_type), fourcc_to_u32(subtype), fourcc_to_u32(manufacturer)) {
        (Some(t), Some(s), Some(m)) => Some((t, s, m)),
        _ => None,
    }
}

/// What the native host found out about a component.
#[derive(Debug)]
pub struct Probe {
    /// Nothing where it is no text.
    pub raw_name: Option<String>,
    pub latency_samples: u32,
    pub has_input_bus: bool,
}

/// What a scan gives for a component. `probe` is what the native host made of its codes,
/// nothing where it knows no such component. A component without a readable name is left
/// out; every component has an editor, if only a generic one.
pub fn scan_component(
    au_type: &str,
    subtype: &str,
    manufacturer: &str,
    probe: Option<Probe>,
) -> (r: Option<PluginInfo>)
    ensures
        ({
            let known = match probe {
                Some(p) => p.raw_name is Some && p.raw_name->0@.len() > 0,
                None => false,
            };
            match codes(au_type@, subtype@, manufacturer@) {
                Some((t, s, m)) => if known {
                    &&& r matches Some(info)
                    &&& describes(
                        info,
                        t as u32,
                        s as u32,
                        m as u32,
                        probe->0.raw_name->0@,
                        probe->0.latency_samples,
                        true,
                        probe->0.has_input_bus,
                    )
                } else {
                    r is None
                },
                None => r is None,
            }
        }),
{
    let (t, s, m) = match component_codes(au_type, subtype, manufacturer) {
        Some(c) => c,
        None => {
            return None;
        },
    };
    match probe {
        Some(p) => match p.raw_name {
            Some(name) => if name.as_str().is_empty() {
                None
            } else {
                Some(
                    build_plugin_info(
                        t,
                        s,
                        m,
                        name.as_str(),
                        p.latency_samples,
                        true,
                        p.has_input_bus,
                    ),
                )
            },
            None => None,
        },
        None => None,
    }
}

/// The name of a component, as the registry gives it: nothing where it is not there, is no
/// text or is empty.
pub fn component_name(found: Option<Option<String>>) -> (r: Option<String>)
    ensures
        r == match found {
            Some(Some(name)) => if name@.len() > 0 {
                Some(name)
            } else {
                None
            },
            _ => None,
        },
{
    match found {
        Some(Some(name)) => if name.as_str().is_empty() {
            None
        } else {
            Some(name)
        },
        _ => None,
    }
}

/// Why a plugin did not do what it was asked for.
#[derive(Debug)]
pub enum PluginError {
    NotFound,
    Init(String),
    InvalidHandle,
    Process(String),
}

/// The codes under which a plugin is loaded.
pub fn load_codes(plugin_ref: &PluginRef) -> (r: Result<(u32, u32, u32), PluginError>)
    ensures
        match *plugin_ref {
            PluginRef::Au { au_type, subtype, manufacturer } => match codes(
                au_type@,
                subtype@,
                manufacturer@,
            ) {
                Some((t, s, m)) => r matches Ok((a, b, c)) && a == t && b == s && c == m,
                None => r == Err::<(u32, u32, u32), PluginError>(PluginError::NotFound),
            },
            PluginRef::Vst3 { .. } => r matches Err(PluginError::Init(e)) && e@
                == "VST3 not supported by AuHost"@,
        },
{
    match plugin_ref {
        PluginRef::Au { au_type, subtype, manufacturer } => match component_codes(
            au_type.as_str(),
            subtype.as_str(),
            manufacturer.as_str(),
        ) {
            Some(c) => Ok(c),
            None => Err(PluginError::NotFound),
        },
        PluginRef::Vst3 { .. } => Err(PluginError::Init("VST3 not supported by AuHost".to_owned())),
    }
}

/// What came of loading: an instance, or zero and the host's words, where they can be read.
pub fn loaded(id: u32, words: Option<String>) -> (r: Result<PluginHandle, PluginError>)
    ensures
        id != 0 ==> r == Ok::<PluginHandle, PluginError>(PluginHandle(id as u64)),
        id == 0 ==> {
            &&& r matches Err(PluginError::Init(e))
            &&& e@ == match words {
                Some(w) => w@,
                None => "unknown"@,
            }
        },
{
    if id != 0 {
        return Ok(PluginHandle(id as u64));
    }
    match words {
        Some(w) => Err(PluginError::Init(w)),
        None => Err(PluginError::Init("unknown".to_owned())),
    }
}

/// What the host's answer to a request means: anything but zero is an unknown instance.
pub fn request_result(rc: i32) -> (r: Result<(), PluginError>)
    ensures
        r == if rc == 0 {
            Ok::<(), PluginError>(())
        } else {
            Err(PluginError::InvalidHandle)
        },
{
    if rc == 0 {
        Ok(())
    } else {
        Err(PluginError::InvalidHandle)
    }
}

/// The bytes of events, one event behind the other.
pub open spec fn packed(events: Seq<MidiEvent>) -> Seq<u8> {
    Seq::new(3 * events.len(), |i: int| events[i / 3].data@[i % 3])
}

/// The bytes of events, as the native host takes them.
pub fn pack_midi(events: &[MidiEvent]) -> (r: Vec<u8>)
    ensures
        r@ == packed(events@),
{
    let mut r: Vec<u8> = Vec::new();
    let n: usize = events.len();
    let mut i: usize = 0;
    while i < n
        invariant
            i <= n,
            n == events@.len(),
            r@ == packed(events@).take(3 * i),
        decreases n - i,
    {
        r.push(events[i].data[0]);
        r.push(events[i].data[1]);
        r.push(events[i].data[2]);
        assert(r@ =~= packed(events@).take(3 * (i + 1))) by {
            assert forall|k: int| 3 * i <= k < 3 * (i + 1) implies #[trigger] packed(events@)[k]
                == events@[i as int].data@[k - 3 * i] by {
                assert(k / 3 == i && k % 3 == k - 3 * i);
            }
        }
        i = i + 1;
    }
    assert(packed(events@).take(3 * n) =~= packed(events@));
    r
}

/// Can a block be processed? Both sides must have the same length.
pub fn check_block(left: usize, right: usize) -> (r: Result<(), PluginError>)
    ensures
        left == right ==> r == Ok::<(), PluginError>(()),
        left != right ==> (r matches Err(PluginError::Process(e)) && e@ == "L/R length mismatch"@),
{
    if left == right {
        Ok(())
    } else {
        Err(PluginError::Process("L/R length mismatch".to_owned()))
    }
}

/// What the host's answer to a block means.
pub fn process_result(rc: i32) -> (r: Result<(), PluginError>)
    ensures
        rc == 0 ==> r == Ok::<(), PluginError>(()),
        rc == -1 ==> r == Err::<(), PluginError>(PluginError::InvalidHandle),
        rc != 0 && rc != -1 ==> (r matches Err(PluginError::Process(e)) && e@ == "renderBlock rc="@
            + text::signed_chars(rc as int)),
{
    if rc == 0 {
        Ok(())
    } else if rc == -1 {
        Err(PluginError::InvalidHandle)
    } else {
        Err(
            PluginError::Process(
                text::joined("renderBlock rc=", text::signed_decimal(rc as i64).as_str()),
            ),
        )
    }
}

/// A code has its first character in its highest byte, in either direction.
pub proof fn the_first_byte_weighs_most(b: Seq<u8>, v: u32)
    requires
        b.len() == 4,
    ensures
        code_of(b) / 0x100_0000 == b[0],
        code_of(b) / 0x1_0000 % 0x100 == b[1],
        code_of(b) / 0x100 % 0x100 == b[2],
        code_of(b) % 0x100 == b[3],
        code_bytes(v).len() == 4,
        code_bytes(v)[0] * 0x100_0000 + code_bytes(v)[1] * 0x1_0000 + code_bytes(v)[2] * 0x100
            + code_bytes(v)[3] == v,
        code_of(code_bytes(v)) == v,
{
}

/// What is told of an AudioUnit: its maker stands before the first colon and blank of its name,
/// its latency, its window and its inputs are what they were measured to be, and beyond 128
/// samples it is too slow to play on.
pub proof fn an_audio_unit_is_told_as_it_is(
    info: PluginInfo,
    au_type: u32,
    subtype: u32,
    manufacturer: u32,
    raw_name: Seq<char>,
    latency_samples: u32,
    has_editor: bool,
    has_input_bus: bool,
    at: int,
)
    requires
        describes(
            info,
            au_type,
            subtype,
            manufacturer,
            raw_name,
            latency_samples,
            has_editor,
            has_input_bus,
        ),
        0 <= at,
        at + 2 <= raw_name.len(),
        raw_name.subrange(at, at + 2) == ": "@,
        forall|k: int| 0 <= k < at ==> #[trigger] raw_name.subrange(k, k + 2) != ": "@,
    ensures
        info.manufacturer@ == raw_name.take(at),
        info.name@ == raw_name.skip(at + 2),
        info.latency_samples == latency_samples,
        info.incompatible <==> latency_samples > 128,
        info.has_editor == has_editor,
        info.has_input_bus == has_input_bus,
        info.is_instrument <==> lossy_text(code_bytes(au_type)) == "aumu"@,
        info.plugin_ref matches PluginRef::Au { au_type: t, subtype: s, manufacturer: m } && t@
            == lossy_text(code_bytes(au_type)) && s@ == lossy_text(code_bytes(subtype)) && m@
            == lossy_text(code_bytes(manufacturer)),
{
    reveal_strlit(": ");
    assert forall|k: int| 0 <= k < at implies #[trigger] raw_name.subrange(k, k + ": "@.len())
        != ": "@ by {
        assert(raw_name.subrange(k, k + 2) != ": "@);
    }
    text::a_pattern_splits_where_it_stands_first(raw_name, ": "@, at);
}

/// Three codes are taken in the order type, subtype, maker, and only where each has four bytes.
pub proof fn codes_are_taken_in_their_order(t: Seq<char>, s: Seq<char>, m: Seq<char>)
    ensures
        codes(t, s, m) is Some <==> encode_utf8(t).len() == 4 && encode_utf8(s).len() == 4
            && encode_utf8(m).len() == 4,
        codes(t, s, m) matches Some(c) ==> c.0 == code_of(encode_utf8(t)) && c.1 == code_of(
            encode_utf8(s),
        ) && c.2 == code_of(encode_utf8(m)),
{
}

/// Events are packed without a gap, three bytes each, in their order.
pub proof fn events_are_packed_without_a_gap(events: Seq<MidiEvent>, i: int)
    requires
        0 <= i < events.len(),
    ensures
        packed(events).len() == 3 * events.len(),
        packed(events)[3 * i] == events[i].data@[0],
        packed(events)[3 * i + 1] == events[i].data@[1],
        packed(events)[3 * i + 2] == events[i].data@[2],
{
    assert((3 * i) / 3 == i && (3 * i + 1) / 3 == i && (3 * i + 2) / 3 == i);
}

/// A name without a colon and a blank is a name alone: the maker is not known.
pub proof fn a_name_alone_has_no_maker(
    info: PluginInfo,
    au_type: u32,
    subtype: u32,
    manufacturer: u32,
    raw_name: Seq<char>,
    latency_samples: u32,
    has_editor: bool,
    has_input_bus: bool,
)
    requires
        describes(
            info,
            au_type,
            subtype,
            manufacturer,
            raw_name,
            latency_samples,
            has_editor,
            has_input_bus,
        ),
        forall|k: int|
            0 <= k && k + 2 <= raw_name.len() ==> #[trigger] raw_name.subrange(k, k + 2) != ": "@,
    ensures
        info.name@ == raw_name,
        info.manufacturer@.len() == 0,
        info.latency_samples == latency_samples,
        info.incompatible <==> latency_samples > 128,
        info.has_editor == has_editor && info.has_input_bus == has_input_bus,
{
    reveal_strlit(": ");
    assert forall|k: int|
        0 <= k && k + ": "@.len() <= raw_name.len() implies #[trigger] raw_name.subrange(
        k,
        k + ": "@.len(),
    ) != ": "@ by {
        assert(raw_name.subrange(k, k + 2) != ": "@);
    }
    text::no_pattern_no_split(raw_name, ": "@);
}

} // verus!
