//! What worker and coordinator say to each other.
//!
//! An item is what is scanned and isolated at a time: the path of a `.vst3`, or an
//! AudioUnit as `au:{type}/{subtype}/{manufacturer}`.

use crate::plugin::PluginInfo;
use crate::text;
use vstd::prelude::*;
use vstd::string::*;

verus! {

/// An event of the worker. Each item gives `Begin`, then any number of `Plugin`, then
/// `End`.
#[derive(Clone, Debug, PartialEq, Eq)]
pub enum WorkerEvent {
    /// The worker is about to load the item. Should it die before the matching `End`, the
    /// item is to blame.
    Begin { item: String },
    /// A plugin of the current item.
    Plugin { info: PluginInfo },
    /// The current item is done.
    End { item: String },
}

/// The prefix of the items that are AudioUnits.
pub struct AuItemPrefix;

impl AuItemPrefix {
    pub const VALUE: &'static str = "au:";
}

/// An AudioUnit by its three codes.
#[derive(Clone, Debug, PartialEq, Eq)]
pub struct AuItem {
    pub au_type: String,
    pub subtype: String,
    pub manufacturer: String,
}

/// A code that an item can hold: not empty, without a slash.
pub open spec fn is_code(s: Seq<char>) -> bool {
    s.len() > 0 && !s.contains('/')
}

/// The item that three codes make.
pub open spec fn au_chars(t: Seq<char>, s: Seq<char>, m: Seq<char>) -> Seq<char> {
    "au:"@ + t + "/"@ + s + "/"@ + m
}

proof fn lemma_slashes(t: Seq<char>, s: Seq<char>, m: Seq<char>)
    requires
        is_code(t),
        is_code(s),
        is_code(m),
    ensures
        ({
            let rest = t + "/"@ + s + "/"@ + m;
            let i = t.len() as int;
            let j = i + 1 + s.len();
            &&& text::index_from(rest, '/', 0) == i
            &&& text::index_from(rest, '/', i + 1) == j
            &&& text::index_from(rest, '/', j + 1) == rest.len()
            &&& rest.take(i) == t
            &&& rest.subrange(i + 1, j) == s
            &&& rest.skip(j + 1) == m
        }),
{
    reveal_strlit("/");
    let rest = t + "/"@ + s + "/"@ + m;
    let i = t.len() as int;
    let j = i + 1 + s.len();
    assert(rest.take(i) =~= t);
    assert(rest.subrange(i + 1, j) =~= s);
    assert(rest.skip(j + 1) =~= m);
    assert forall|k: int| 0 <= k < i implies rest[k] != '/' by {
        assert(rest[k] == t[k]);
    }
    assert forall|k: int| i + 1 <= k < j implies rest[k] != '/' by {
        assert(rest[k] == s[k - i - 1]);
    }
    assert forall|k: int| j + 1 <= k < rest.len() implies rest[k] != '/' by {
        assert(rest[k] == m[k - j - 1]);
    }
    assert(rest[i] == '/' && rest[j] == '/');
    text::lemma_index_from_unique(rest, '/', 0, i);
    text::lemma_index_from_unique(rest, '/', i + 1, j);
    text::lemma_index_from(rest, '/', j + 1);
}

proof fn lemma_tail(t: Seq<char>, s: Seq<char>, m: Seq<char>)
    ensures
        au_chars(t, s, m).skip(3) == t + "/"@ + s + "/"@ + m,
        au_chars(t, s, m) == "au:"@ + (t + "/"@ + s + "/"@ + m),
{
    reveal_strlit("au:");
    let rest = t + "/"@ + s + "/"@ + m;
    assert(au_chars(t, s, m) =~= "au:"@ + rest);
    assert(("au:"@ + rest).skip(3) =~= rest);
}

/// `r` is what the item `item` reads as: the codes that make it, or nothing where no
/// codes do.
pub open spec fn is_decoding(item: Seq<char>, r: Option<AuItem>) -> bool {
    match r {
        Some(a) => a.is_valid() && a.chars() == item,
        None => forall|t: Seq<char>, s: Seq<char>, m: Seq<char>|
            is_code(t) && is_code(s) && is_code(m) ==> item != #[trigger] au_chars(t, s, m),
    }
}

/// An item stands for one AudioUnit only.
pub proof fn codes_of_an_item_are_unique(
    t1: Seq<char>,
    s1: Seq<char>,
    m1: Seq<char>,
    t2: Seq<char>,
    s2: Seq<char>,
    m2: Seq<char>,
)
    requires
        is_code(t1) && is_code(s1) && is_code(m1),
        is_code(t2) && is_code(s2) && is_code(m2),
        au_chars(t1, s1, m1) == au_chars(t2, s2, m2),
    ensures
        t1 == t2,
        s1 == s2,
        m1 == m2,
{
    lemma_slashes(t1, s1, m1);
    lemma_slashes(t2, s2, m2);
    lemma_tail(t1, s1, m1);
    lemma_tail(t2, s2, m2);
}

impl AuItem {
    pub const PREFIX: &'static str = "au:";

    /// The item that stands for this AudioUnit.
    pub open spec fn chars(self) -> Seq<char> {
        au_chars(self.au_type@, self.subtype@, self.manufacturer@)
    }

    /// Can the item be read back?
    pub open spec fn is_valid(self) -> bool {
        is_code(self.au_type@) && is_code(self.subtype@) && is_code(self.manufacturer@)
    }

    pub fn encode(&self) -> (r: String)
        ensures
            r@ == self.chars(),
    {
        let mut r = text::joined("au:", self.au_type.as_str());
        r.append("/");
        r.append(self.subtype.as_str());
        r.append("/");
        r.append(self.manufacturer.as_str());
        r
    }

    /// Reads `au:aufx/mrev/appl`. Nothing where the item is not of that form.
    pub fn decode(item: &str) -> (r: Option<AuItem>)
        ensures
            is_decoding(item@, r),
    {
        proof {
            reveal_strlit("au:");
            reveal_strlit("/");
            assert forall|t: Seq<char>, s: Seq<char>, m: Seq<char>|
                is_code(t) && is_code(s) && is_code(m) && item@ == #[trigger] au_chars(
                    t,
                    s,
                    m,
                ) implies "au:"@.is_prefix_of(item@) && item@.skip(3) == t + "/"@ + s + "/"@ + m by {
                lemma_tail(t, s, m);
            }
        }
        if !text::starts_with(item, "au:") {
            return None;
        }
        let n: usize = item.unicode_len();
        let rest = item.substring_char(3, n);
        let ghost r0 = rest@;
        assert(r0 =~= item@.skip(3));
        proof {
            assert forall|t: Seq<char>, s: Seq<char>, m: Seq<char>|
                is_code(t) && is_code(s) && is_code(m) && item@ == #[trigger] au_chars(
                    t,
                    s,
                    m,
                ) implies ({
                let i = t.len() as int;
                let j = i + 1 + s.len();
                &&& text::index_from(r0, '/', 0) == i
                &&& text::index_from(r0, '/', i + 1) == j
                &&& text::index_from(r0, '/', j + 1) == r0.len()
                &&& r0.take(i) == t
                &&& r0.subrange(i + 1, j) == s
                &&& r0.skip(j + 1) == m
                &&& t.len() > 0 && s.len() > 0 && m.len() > 0
            }) by {
                lemma_slashes(t, s, m);
            }
            text::lemma_index_from(r0, '/', 0);
        }
        let (t, tail) = match text::split_once(rest, '/') {
            Some(p) => p,
            None => {
                return None;
            },
        };
        let ghost i = t@.len() as int;
        proof {
            assert(i == text::index_from(r0, '/', 0));
            assert(tail@ =~= r0.skip(i + 1));
            text::lemma_index_from(r0, '/', i + 1);
            text::lemma_index_from(tail@, '/', 0);
            lemma_index_in_tail(r0, i + 1, 0);
        }
        let (s, m) = match text::split_once(tail.as_str(), '/') {
            Some(p) => p,
            None => {
                return None;
            },
        };
        let ghost j = i + 1 + s@.len();
        proof {
            assert(j == text::index_from(r0, '/', i + 1));
            assert(s@ =~= r0.subrange(i + 1, j));
            assert(m@ =~= r0.skip(j + 1));
            text::lemma_index_from(r0, '/', j + 1);
            text::lemma_index_from(m@, '/', 0);
            lemma_index_in_tail(r0, j + 1, 0);
        }
        match text::split_once(m.as_str(), '/') {
            Some(_) => {
                return None;
            },
            None => {},
        }
        if t.as_str().is_empty() || s.as_str().is_empty() || m.as_str().is_empty() {
            return None;
        }
        let a = AuItem { au_type: t, subtype: s, manufacturer: m };
        proof {
            assert(r0 =~= t@ + "/"@ + s@ + "/"@ + m@);
            assert(item@ =~= "au:"@ + r0);
            assert(a.chars() =~= item@);
            assert(!t@.contains('/')) by {
                assert forall|k: int| 0 <= k < t@.len() implies t@[k] != '/' by {
                    assert(t@[k] == r0[k]);
                }
            }
            assert(!s@.contains('/')) by {
                assert forall|k: int| 0 <= k < s@.len() implies s@[k] != '/' by {
                    assert(s@[k] == r0[i + 1 + k]);
                }
            }
            assert(!m@.contains('/')) by {
                assert forall|k: int| 0 <= k < m@.len() implies m@[k] != '/' by {
                    assert(m@[k] == r0[j + 1 + k]);
                }
            }
        }
        Some(a)
    }
}

/// Looking from `at` on is looking in what follows `at`.
proof fn lemma_index_in_tail(s: Seq<char>, at: int, from: int)
    requires
        0 <= at <= s.len(),
        0 <= from <= s.len() - at,
    ensures
        text::index_from(s.skip(at), '/', from) + at == text::index_from(s, '/', at + from),
    decreases s.len() - at - from,
{
    if from < s.len() - at && s[at + from] != '/' {
        lemma_index_in_tail(s, at, from + 1);
    }
}

/// Reading an item that was written gives the AudioUnit back, spelled the same.
pub proof fn decode_undoes_encode(a: AuItem, decoded: Option<AuItem>)
    requires
        a.is_valid(),
        is_decoding(a.chars(), decoded),
    ensures
        decoded matches Some(b) && b.au_type@ == a.au_type@ && b.subtype@ == a.subtype@
            && b.manufacturer@ == a.manufacturer@,
{
    assert(au_chars(a.au_type@, a.subtype@, a.manufacturer@) == a.chars());
    let b = decoded->0;
    codes_of_an_item_are_unique(
        b.au_type@,
        b.subtype@,
        b.manufacturer@,
        a.au_type@,
        a.subtype@,
        a.manufacturer@,
    );
}

/// The item of an AudioUnit is `au:` and its three codes with a slash between them: type,
/// subtype, maker. A code is not empty and has no slash.
pub proof fn an_item_is_three_codes(t: Seq<char>, s: Seq<char>, m: Seq<char>)
    ensures
        au_chars(t, s, m) == seq!['a', 'u', ':'] + t + seq!['/'] + s + seq!['/'] + m,
        is_code(t) <==> t.len() > 0 && forall|i: int| 0 <= i < t.len() ==> #[trigger] t[i] != '/',
{
    reveal_strlit("au:");
    reveal_strlit("/");
    assert("au:"@ =~= seq!['a', 'u', ':']);
    assert("/"@ =~= seq!['/']);
    if t.contains('/') {
        let i = choose|i: int| 0 <= i < t.len() && t[i] == '/';
        assert(t[i] == '/');
    }
    assert forall|i: int| 0 <= i < t.len() && #[trigger] t[i] == '/' implies t.contains('/') by {}
}

/// What is read from an item are three codes that make it up; what is not read is made up by
/// none.
pub proof fn a_read_item_is_made_up_by_its_codes(
    item: Seq<char>,
    r: Option<AuItem>,
    t: Seq<char>,
    s: Seq<char>,
    m: Seq<char>,
)
    requires
        is_decoding(item, r),
    ensures
        r matches Some(a) ==> {
            &&& is_code(a.au_type@) && is_code(a.subtype@) && is_code(a.manufacturer@)
            &&& item == "au:"@ + a.au_type@ + "/"@ + a.subtype@ + "/"@ + a.manufacturer@
        },
        r is None && is_code(t) && is_code(s) && is_code(m) ==> item != "au:"@ + t + "/"@ + s
            + "/"@ + m,
{
    if r is None && is_code(t) && is_code(s) && is_code(m) {
        assert(item != au_chars(t, s, m));
    }
}

} // verus!
