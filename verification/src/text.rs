//! Operations on strings, specified over the sequence of their characters.

use vstd::prelude::*;
use vstd::string::*;

verus! {

/// The decimal digit `d` as a character.
pub open spec fn digit_char(d: nat) -> char
    recommends
        d < 10,
{
    (48 + d) as char
}

/// The decimal notation of `n`, without leading zeros.
pub open spec fn decimal_chars(n: nat) -> Seq<char>
    decreases n,
{
    if n < 10 {
        seq![digit_char(n)]
    } else {
        decimal_chars(n / 10).push(digit_char(n % 10))
    }
}

/// The decimal notation of a signed number: a minus sign in front of a negative one.
pub open spec fn signed_chars(n: int) -> Seq<char> {
    if n < 0 {
        "-"@ + decimal_chars((-n) as nat)
    } else {
        decimal_chars(n as nat)
    }
}

/// Dictionary order on characters' code points; a proper prefix comes first.
/// It is also the order of the UTF-8 encodings.
pub open spec fn precedes(a: Seq<char>, b: Seq<char>) -> bool
    decreases a.len(),
{
    if b.len() == 0 {
        false
    } else if a.len() == 0 {
        true
    } else if a[0] != b[0] {
        (a[0] as int) < (b[0] as int)
    } else {
        precedes(a.skip(1), b.skip(1))
    }
}

/// The characters with the Unicode property `White_Space`.
pub open spec fn is_white(c: char) -> bool {
    let n = c as u32;
    ||| 0x9 <= n <= 0xd
    ||| n == 0x20
    ||| n == 0x85
    ||| n == 0xa0
    ||| n == 0x1680
    ||| 0x2000 <= n <= 0x200a
    ||| n == 0x2028
    ||| n == 0x2029
    ||| n == 0x202f
    ||| n == 0x205f
    ||| n == 0x3000
}

/// Number of leading characters of `s` that are white space.
pub open spec fn white_prefix(s: Seq<char>) -> nat
    decreases s.len(),
{
    if s.len() == 0 || !is_white(s[0]) {
        0
    } else {
        1 + white_prefix(s.skip(1))
    }
}

/// `s` without its trailing white space.
pub open spec fn trimmed_end(s: Seq<char>) -> Seq<char>
    decreases s.len(),
{
    if s.len() == 0 || !is_white(s.last()) {
        s
    } else {
        trimmed_end(s.drop_last())
    }
}

/// `s` without white space at either end.
pub open spec fn trimmed(s: Seq<char>) -> Seq<char> {
    trimmed_end(s.skip(white_prefix(s) as int))
}

/// The first `n` characters of `s`, or all of them where there are fewer.
pub open spec fn first_chars(s: Seq<char>, n: nat) -> Seq<char> {
    if s.len() <= n {
        s
    } else {
        s.take(n as int)
    }
}

/// Index of the first `c` at or after `from`, or the length of `s` where there is none.
pub open spec fn index_from(s: Seq<char>, c: char, from: int) -> int
    decreases s.len() - from,
{
    if from < 0 || from >= s.len() {
        s.len() as int
    } else if s[from] == c {
        from
    } else {
        index_from(s, c, from + 1)
    }
}

/// The text before and the text after the first `c`.
pub open spec fn split_at_first(s: Seq<char>, c: char) -> Option<(Seq<char>, Seq<char>)> {
    let i = index_from(s, c, 0);
    if i < s.len() {
        Some((s.take(i), s.skip(i + 1)))
    } else {
        None
    }
}

pub proof fn lemma_index_from(s: Seq<char>, c: char, from: int)
    requires
        0 <= from <= s.len(),
    ensures
        from <= index_from(s, c, from) <= s.len(),
        index_from(s, c, from) < s.len() ==> s[index_from(s, c, from)] == c,
        forall|k: int| from <= k < index_from(s, c, from) ==> s[k] != c,
    decreases s.len() - from,
{
    if from < s.len() && s[from] != c {
        lemma_index_from(s, c, from + 1);
    }
}

/// `index_from` is the first index at which `c` stands.
pub proof fn lemma_index_from_unique(s: Seq<char>, c: char, from: int, i: int)
    requires
        0 <= from <= i < s.len(),
        s[i] == c,
        forall|k: int| from <= k < i ==> s[k] != c,
    ensures
        index_from(s, c, from) == i,
    decreases i - from,
{
    if from < i {
        lemma_index_from_unique(s, c, from + 1, i);
    }
}

/// `precedes` is a strict total order.
pub proof fn lemma_precedes_total(a: Seq<char>, b: Seq<char>)
    ensures
        !precedes(a, a),
        a == b || precedes(a, b) || precedes(b, a),
        !(precedes(a, b) && precedes(b, a)),
        a == b ==> !precedes(a, b),
    decreases a.len(),
{
    if a.len() > 0 {
        lemma_precedes_total(a.skip(1), a.skip(1));
    }
    if a.len() > 0 && b.len() > 0 {
        lemma_precedes_total(a.skip(1), b.skip(1));
        if a[0] == b[0] && a.skip(1) == b.skip(1) {
            assert(a =~= seq![a[0]] + a.skip(1));
            assert(b =~= seq![b[0]] + b.skip(1));
            assert(a == b);
        }
        assert(a[0] != b[0] ==> (a[0] as int) < (b[0] as int) || (b[0] as int) < (a[0] as int));
    } else if a.len() == 0 && b.len() == 0 {
        assert(a =~= b);
    }
}

pub proof fn lemma_precedes_transitive(a: Seq<char>, b: Seq<char>, c: Seq<char>)
    requires
        precedes(a, b),
        precedes(b, c),
    ensures
        precedes(a, c),
    decreases a.len(),
{
    if a.len() > 0 && b.len() > 0 && c.len() > 0 && a[0] == b[0] && b[0] == c[0] {
        lemma_precedes_transitive(a.skip(1), b.skip(1), c.skip(1));
    }
}

/// Do the two strings hold the same characters?
pub fn same(a: &str, b: &str) -> (r: bool)
    ensures
        r == (a@ == b@),
{
    a.to_owned() == b.to_owned()
}

/// Does `s` begin with `prefix`?
pub fn starts_with(s: &str, prefix: &str) -> (r: bool)
    ensures
        r == prefix@.is_prefix_of(s@),
{
    let n: usize = prefix.unicode_len();
    if n > s.unicode_len() {
        return false;
    }
    let head = s.substring_char(0, n);
    let r = same(head, prefix);
    assert(prefix@.is_prefix_of(s@) ==> s@.take(n as int) =~= prefix@);
    r
}

/// Does `s` end with `suffix`?
pub fn ends_with(s: &str, suffix: &str) -> (r: bool)
    ensures
        r == suffix@.is_suffix_of(s@),
{
    let n: usize = suffix.unicode_len();
    let m: usize = s.unicode_len();
    if n > m {
        return false;
    }
    let tail = s.substring_char(m - n, m);
    let r = same(tail, suffix);
    assert(suffix@.is_suffix_of(s@) ==> s@.skip(m - n) =~= suffix@);
    r
}

/// Index of the first `c` in `s` at or after `from`.
fn find_from(s: &str, c: char, from: usize) -> (r: usize)
    requires
        from <= s@.len(),
    ensures
        r == index_from(s@, c, from as int),
{
    let n: usize = s.unicode_len();
    let mut i: usize = from;
    while i < n
        invariant
            n == s@.len(),
            from <= i <= n,
            index_from(s@, c, from as int) == index_from(s@, c, i as int),
        decreases n - i,
    {
        if s.get_char(i) == c {
            return i;
        }
        i = i + 1;
    }
    i
}

/// Splits `s` at the first `c`, which stands in neither part.
pub fn split_once(s: &str, c: char) -> (r: Option<(String, String)>)
    ensures
        match split_at_first(s@, c) {
            Some((a, b)) => r matches Some((x, y)) && x@ == a && y@ == b,
            None => r is None,
        },
{
    let n: usize = s.unicode_len();
    let i: usize = find_from(s, c, 0);
    proof {
        lemma_index_from(s@, c, 0);
    }
    if i < n {
        let a = s.substring_char(0, i).to_owned();
        let b = s.substring_char(i + 1, n).to_owned();
        assert(s@.subrange(0, i as int) =~= s@.take(i as int));
        assert(s@.subrange(i + 1, n as int) =~= s@.skip(i + 1));
        Some((a, b))
    } else {
        None
    }
}

/// The first `n` characters of `s`.
pub fn take_chars(s: &str, n: usize) -> (r: String)
    ensures
        r@ == first_chars(s@, n as nat),
{
    let m: usize = s.unicode_len();
    if m <= n {
        s.to_owned()
    } else {
        let r = s.substring_char(0, n).to_owned();
        assert(s@.subrange(0, n as int) =~= s@.take(n as int));
        r
    }
}

/// `a` followed by `b`.
pub fn joined(a: &str, b: &str) -> (r: String)
    ensures
        r@ == a@ + b@,
{
    let mut r = a.to_owned();
    r.append(b);
    r
}

fn digit_str(d: u64) -> (r: &'static str)
    requires
        d < 10,
    ensures
        r@ == seq![digit_char(d as nat)],
{
    proof {
        reveal_strlit("0");
        reveal_strlit("1");
        reveal_strlit("2");
        reveal_strlit("3");
        reveal_strlit("4");
        reveal_strlit("5");
        reveal_strlit("6");
        reveal_strlit("7");
        reveal_strlit("8");
        reveal_strlit("9");
    }
    let r: &'static str = match d {
        0 => "0",
        1 => "1",
        2 => "2",
        3 => "3",
        4 => "4",
        5 => "5",
        6 => "6",
        7 => "7",
        8 => "8",
        _ => "9",
    };
    assert(r@ =~= seq![digit_char(d as nat)]);
    r
}

/// The decimal notation of `n`.
pub fn decimal(n: u64) -> (r: String)
    ensures
        r@ == decimal_chars(n as nat),
    decreases n,
{
    if n < 10 {
        digit_str(n).to_owned()
    } else {
        let mut r = decimal(n / 10);
        let ghost head = r@;
        r.append(digit_str(n % 10));
        assert(r@ =~= head.push(digit_char((n % 10) as nat)));
        r
    }
}

/// The decimal notation of a signed number.
pub fn signed_decimal(n: i64) -> (r: String)
    ensures
        r@ == signed_chars(n as int),
{
    if n < 0 {
        let m: u64 = (-(n as i128)) as u64;
        joined("-", decimal(m).as_str())
    } else {
        decimal(n as u64)
    }
}

/// Does `a` come before `b` in dictionary order?
pub fn less(a: &str, b: &str) -> (r: bool)
    ensures
        r == precedes(a@, b@),
{
    let n: usize = a.unicode_len();
    let m: usize = b.unicode_len();
    let mut i: usize = 0;
    assert(a@.skip(0) =~= a@ && b@.skip(0) =~= b@);
    while i < n && i < m
        invariant
            n == a@.len(),
            m == b@.len(),
            i <= n,
            i <= m,
            precedes(a@, b@) == precedes(a@.skip(i as int), b@.skip(i as int)),
        decreases n - i,
    {
        let x: char = a.get_char(i);
        let y: char = b.get_char(i);
        proof {
            assert(a@.skip(i as int).skip(1) =~= a@.skip(i + 1));
            assert(b@.skip(i as int).skip(1) =~= b@.skip(i + 1));
        }
        if x != y {
            return (x as u32) < (y as u32);
        }
        i = i + 1;
    }
    i < m
}

/// Is `c` white space?
pub fn is_whitespace(c: char) -> (r: bool)
    ensures
        r == is_white(c),
{
    let n: u32 = c as u32;
    (0x9 <= n && n <= 0xd) || n == 0x20 || n == 0x85 || n == 0xa0 || n == 0x1680 || (0x2000 <= n && n
        <= 0x200a) || n == 0x2028 || n == 0x2029 || n == 0x202f || n == 0x205f || n == 0x3000
}

/// `s` without white space at either end.
pub fn trim(s: &str) -> (r: String)
    ensures
        r@ == trimmed(s@),
{
    let n: usize = s.unicode_len();
    let mut i: usize = 0;
    assert(s@.skip(0) =~= s@);
    while i < n && is_whitespace(s.get_char(i))
        invariant
            n == s@.len(),
            i <= n,
            white_prefix(s@) == i + white_prefix(s@.skip(i as int)),
        decreases n - i,
    {
        assert(s@.skip(i as int).skip(1) =~= s@.skip(i + 1));
        i = i + 1;
    }
    let mut j: usize = n;
    let ghost body = s@.skip(i as int);
    assert(s@.subrange(i as int, n as int) =~= body);
    while j > i && is_whitespace(s.get_char(j - 1))
        invariant
            n == s@.len(),
            i <= j <= n,
            body == s@.skip(i as int),
            trimmed_end(body) == trimmed_end(s@.subrange(i as int, j as int)),
        decreases j,
    {
        assert(s@.subrange(i as int, j as int).drop_last() =~= s@.subrange(i as int, j - 1));
        j = j - 1;
    }
    s.substring_char(i, j).to_owned()
}

/// Is the character a decimal digit?
pub open spec fn is_digit(c: char) -> bool {
    '0' <= c <= '9'
}

/// The number that digits stand for, the most significant first.
pub open spec fn digits_value(s: Seq<char>) -> nat
    decreases s.len(),
{
    if s.len() == 0 {
        0
    } else {
        (digits_value(s.drop_last()) * 10 + (s.last() as int - 48)) as nat
    }
}

/// Are all characters digits?
pub open spec fn all_digits(s: Seq<char>) -> bool {
    forall|i: int| 0 <= i < s.len() ==> is_digit(#[trigger] s[i])
}

/// The number that digits stand for, if there are any and nothing else, and no more than 64
/// bits can hold.
pub open spec fn number_of(digits: Seq<char>) -> Option<u64> {
    if digits.len() > 0 && all_digits(digits) && digits_value(digits) <= u64::MAX {
        Some(digits_value(digits) as u64)
    } else {
        None
    }
}

/// The number that a text stands for: digits, with or without a plus sign in front.
pub open spec fn parsed_number(s: Seq<char>) -> Option<u64> {
    if s.len() > 0 && s[0] == '+' {
        number_of(s.skip(1))
    } else {
        number_of(s)
    }
}

proof fn lemma_digits_grow(s: Seq<char>, i: int)
    requires
        0 <= i <= s.len(),
        forall|k: int| 0 <= k < s.len() ==> is_digit(#[trigger] s[k]),
    ensures
        digits_value(s.take(i)) <= digits_value(s),
    decreases s.len(),
{
    if i < s.len() {
        let t = s.drop_last();
        assert(forall|k: int| 0 <= k < t.len() ==> #[trigger] t[k] == s[k]);
        lemma_digits_grow(t, i);
        assert(t.take(i) =~= s.take(i));
        assert(is_digit(s.last()));
    } else {
        assert(s.take(i) =~= s);
    }
}

/// Reads an unsigned number.
pub fn parse_number(s: &str) -> (r: Option<u64>)
    ensures
        r == parsed_number(s@),
{
    let n: usize = s.unicode_len();
    let start: usize = if n > 0 && s.get_char(0) == '+' {
        1
    } else {
        0
    };
    let ghost digits = s@.skip(start as int);
    proof {
        if start == 0 {
            assert(digits =~= s@);
        }
    }
    if start == n {
        return None;
    }
    let mut value: u64 = 0;
    let mut i: usize = start;
    assert(digits.take(0) =~= Seq::<char>::empty());
    while i < n
        invariant
            start <= i <= n,
            n == s@.len(),
            digits == s@.skip(start as int),
            parsed_number(s@) == number_of(digits),
            forall|k: int| 0 <= k < i - start ==> is_digit(#[trigger] digits[k]),
            value == digits_value(digits.take(i - start)),
        decreases n - i,
    {
        let c = s.get_char(i);
        let ghost k = i - start;
        assert(digits[k] == c);
        if c < '0' || c > '9' {
            assert(!is_digit(digits[k]));
            return None;
        }
        let d: u64 = (c as u32 - 48) as u64;
        proof {
            assert(digits.take(k + 1).drop_last() =~= digits.take(k));
            assert(digits.take(k + 1).last() == c);
            if all_digits(digits) {
                lemma_digits_grow(digits, k + 1);
            }
        }
        match value.checked_mul(10) {
            None => {
                return None;
            },
            Some(v) => match v.checked_add(d) {
                None => {
                    return None;
                },
                Some(w) => {
                    value = w;
                },
            },
        }
        i = i + 1;
    }
    assert(digits.take(i - start) =~= digits);
    Some(value)
}

/// Does `pattern` stand in `s` at `i`?
pub open spec fn stands_at(s: Seq<char>, pattern: Seq<char>, i: int) -> bool {
    0 <= i && i + pattern.len() <= s.len() && s.subrange(i, i + pattern.len()) == pattern
}

/// Index of the first `pattern` in `s` at or after `from`, or the length of `s`.
pub open spec fn pattern_from(s: Seq<char>, pattern: Seq<char>, from: int) -> int
    decreases s.len() - from,
{
    if from < 0 || from >= s.len() {
        s.len() as int
    } else if stands_at(s, pattern, from) {
        from
    } else {
        pattern_from(s, pattern, from + 1)
    }
}

/// What stands before and behind the first `pattern`, where there is one.
pub open spec fn split_at_pattern(s: Seq<char>, pattern: Seq<char>) -> Option<
    (Seq<char>, Seq<char>),
> {
    let i = pattern_from(s, pattern, 0);
    if i < s.len() {
        Some((s.take(i), s.skip(i + pattern.len() as int)))
    } else {
        None
    }
}

/// Splits `s` at the first `pattern`, which stands in neither part.
pub fn split_once_at(s: &str, pattern: &str) -> (r: Option<(String, String)>)
    requires
        pattern@.len() > 0,
    ensures
        match split_at_pattern(s@, pattern@) {
            Some((a, b)) => r matches Some((x, y)) && x@ == a && y@ == b,
            None => r is None,
        },
{
    let n: usize = s.unicode_len();
    let m: usize = pattern.unicode_len();
    let mut i: usize = 0;
    while i < n
        invariant
            n == s@.len(),
            m == pattern@.len(),
            m > 0,
            i <= n,
            pattern_from(s@, pattern@, 0) == pattern_from(s@, pattern@, i as int),
        decreases n - i,
    {
        if m <= n - i {
            let part = s.substring_char(i, i + m);
            if same(part, pattern) {
                let a = s.substring_char(0, i).to_owned();
                let b = s.substring_char(i + m, n).to_owned();
                assert(s@.subrange(0, i as int) =~= s@.take(i as int));
                assert(s@.subrange(i + m, n as int) =~= s@.skip(i + m));
                return Some((a, b));
            }
        }
        i = i + 1;
    }
    None
}

/// The signed number that a text stands for: digits, with or without a sign in front, and
/// no more than 32 bits can hold.
pub open spec fn parsed_signed(s: Seq<char>) -> Option<i32> {
    if s.len() > 0 && s[0] == '-' {
        match number_of(s.skip(1)) {
            Some(n) => if n <= 0x8000_0000 {
                Some((-n) as i32)
            } else {
                None
            },
            None => None,
        }
    } else {
        match parsed_number(s) {
            Some(n) => if n <= 0x7fff_ffff {
                Some(n as i32)
            } else {
                None
            },
            None => None,
        }
    }
}

/// Reads a signed number.
pub fn parse_signed(s: &str) -> (r: Option<i32>)
    ensures
        r == parsed_signed(s@),
{
    let n: usize = s.unicode_len();
    if n > 0 && s.get_char(0) == '-' {
        if n > 1 && s.get_char(1) == '+' {
            proof {
                let digits = s@.skip(1);
                assert(digits[0] == '+');
                assert(!is_digit(digits[0]));
            }
            return None;
        }
        let rest = s.substring_char(1, n);
        assert(rest@ =~= s@.skip(1));
        match parse_number(rest) {
            Some(v) => if v <= 0x8000_0000 {
                Some((0 - v as i64) as i32)
            } else {
                None
            },
            None => None,
        }
    } else {
        match parse_number(s) {
            Some(v) => if v <= 0x7fff_ffff {
                Some(v as i32)
            } else {
                None
            },
            None => None,
        }
    }
}

/// One more digit stands behind those of a tenth of the number, and is worth what it shows.
pub proof fn digits_stand_by_their_weight(n: nat, s: Seq<char>, d: nat)
    requires
        d < 10,
        n > 0,
    ensures
        decimal_chars(d) == seq![(48 + d) as char],
        decimal_chars(10 * n + d) == decimal_chars(n).push((48 + d) as char),
        digits_value(s.push((48 + d) as char)) == 10 * digits_value(s) + d,
        digits_value(Seq::empty()) == 0,
        is_digit((48 + d) as char),
{
    assert((10 * n + d) / 10 == n && (10 * n + d) % 10 == d);
    assert(s.push((48 + d) as char).drop_last() =~= s);
}

/// A number that was written reads back, with a sign before it or without, and has no zero in
/// front.
pub proof fn a_written_number_reads_back(n: u64)
    ensures
        parsed_number(decimal_chars(n as nat)) == Some(n),
        parsed_number("+"@ + decimal_chars(n as nat)) == Some(n),
        n > 0 ==> decimal_chars(n as nat)[0] != '0',
{
    reveal_strlit("+");
    lemma_decimal(n as nat);
    let s = decimal_chars(n as nat);
    assert(is_digit(s[0]));
    assert(("+"@ + s).skip(1) =~= s);
    assert(("+"@ + s)[0] == '+');
}

proof fn lemma_decimal(n: nat)
    ensures
        decimal_chars(n).len() > 0,
        all_digits(decimal_chars(n)),
        digits_value(decimal_chars(n)) == n,
        n > 0 ==> decimal_chars(n)[0] != '0',
    decreases n,
{
    let s = decimal_chars(n);
    if n < 10 {
        assert(s.drop_last() =~= Seq::<char>::empty());
        assert(s.last() == digit_char(n));
        assert(digits_value(s.drop_last()) == 0);
    } else {
        lemma_decimal(n / 10);
        let t = decimal_chars(n / 10);
        assert(s.drop_last() =~= t);
        assert(s.last() == digit_char(n % 10));
        assert forall|i: int| 0 <= i < s.len() implies is_digit(#[trigger] s[i]) by {
            if i < t.len() {
                assert(s[i] == t[i]);
            }
        }
        assert(s[0] == t[0]);
    }
}

/// The same of a number with a sign.
pub proof fn a_signed_number_reads_back(n: i32)
    ensures
        parsed_signed(signed_chars(n as int)) == Some(n),
        n < 0 ==> signed_chars(n as int)[0] == '-',
        n >= 0 ==> signed_chars(n as int) == decimal_chars(n as nat),
{
    reveal_strlit("-");
    if n < 0 {
        let m = (-n) as nat;
        lemma_decimal(m);
        let s = signed_chars(n as int);
        assert(s.skip(1) =~= decimal_chars(m));
        assert(s[0] == '-');
    } else {
        lemma_decimal(n as nat);
        let s = decimal_chars(n as nat);
        assert(is_digit(s[0]));
    }
}

/// A number that is too large, an empty text and one with anything but digits is none.
pub proof fn what_is_no_number_is_not_read(s: Seq<char>, i: int)
    ensures
        parsed_number(Seq::empty()) is None,
        0 <= i < s.len() && !('0' <= s[i] <= '9') && !(i == 0 && s[i] == '+') ==> parsed_number(
            s,
        ) is None,
        0 <= i < s.len() && !('0' <= s[i] <= '9') && !(i == 0 && (s[i] == '+' || s[i] == '-'))
            ==> parsed_signed(s) is None,
{
    if 0 <= i < s.len() && !('0' <= s[i] <= '9') {
        assert(!is_digit(s[i]));
        if i > 0 {
            assert(s.skip(1)[i - 1] == s[i]);
        }
    }
}

/// In the order of words the first difference decides, and a word comes before each of its
/// continuations.
pub proof fn the_first_difference_decides(
    p: Seq<char>,
    x: char,
    y: char,
    a: Seq<char>,
    b: Seq<char>,
)
    requires
        x < y,
    ensures
        precedes(p + seq![x] + a, p + seq![y] + b),
        !precedes(p + seq![y] + b, p + seq![x] + a),
        precedes(p, p + seq![x] + a),
        !precedes(p + seq![x] + a, p),
    decreases p.len(),
{
    let s = p + seq![x] + a;
    let t = p + seq![y] + b;
    if p.len() > 0 {
        the_first_difference_decides(p.skip(1), x, y, a, b);
        assert(s.skip(1) =~= p.skip(1) + seq![x] + a);
        assert(t.skip(1) =~= p.skip(1) + seq![y] + b);
    }
}

/// Trimming takes the white space at both ends, and all of it.
pub proof fn trimming_leaves_the_middle(a: Seq<char>, s: Seq<char>, b: Seq<char>)
    requires
        forall|i: int| 0 <= i < a.len() ==> is_white(#[trigger] a[i]),
        forall|i: int| 0 <= i < b.len() ==> is_white(#[trigger] b[i]),
        s.len() > 0,
        !is_white(s[0]),
        !is_white(s.last()),
    ensures
        trimmed(a + s + b) == s,
        trimmed(a).len() == 0,
{
    lemma_white_prefix(a, s + b);
    assert(a + (s + b) =~= a + s + b);
    assert((a + s + b).skip(a.len() as int) =~= s + b);
    lemma_trimmed_end(s, b);
    lemma_all_white(a);
}

proof fn lemma_white_prefix(a: Seq<char>, rest: Seq<char>)
    requires
        forall|i: int| 0 <= i < a.len() ==> is_white(#[trigger] a[i]),
        rest.len() > 0,
        !is_white(rest[0]),
    ensures
        white_prefix(a + rest) == a.len(),
    decreases a.len(),
{
    if a.len() > 0 {
        assert(is_white(a[0]));
        assert forall|i: int| 0 <= i < a.len() - 1 implies is_white(#[trigger] a.skip(1)[i]) by {
            assert(is_white(a[i + 1]));
        }
        lemma_white_prefix(a.skip(1), rest);
        assert((a + rest).skip(1) =~= a.skip(1) + rest);
    } else {
        assert(a + rest =~= rest);
    }
}

proof fn lemma_trimmed_end(s: Seq<char>, b: Seq<char>)
    requires
        s.len() > 0,
        !is_white(s.last()),
        forall|i: int| 0 <= i < b.len() ==> is_white(#[trigger] b[i]),
    ensures
        trimmed_end(s + b) == s,
    decreases b.len(),
{
    if b.len() > 0 {
        assert(is_white(b[b.len() - 1]));
        assert forall|i: int| 0 <= i < b.len() - 1 implies is_white(
            #[trigger] b.drop_last()[i],
        ) by {
            assert(is_white(b[i]));
        }
        lemma_trimmed_end(s, b.drop_last());
        assert((s + b).drop_last() =~= s + b.drop_last());
    } else {
        assert(s + b =~= s);
    }
}

proof fn lemma_all_white(a: Seq<char>)
    requires
        forall|i: int| 0 <= i < a.len() ==> is_white(#[trigger] a[i]),
    ensures
        trimmed(a).len() == 0,
    decreases a.len(),
{
    if a.len() > 0 {
        assert(is_white(a[0]));
        assert forall|i: int| 0 <= i < a.len() - 1 implies is_white(#[trigger] a.skip(1)[i]) by {
            assert(is_white(a[i + 1]));
        }
        lemma_all_white(a.skip(1));
        let n = white_prefix(a.skip(1)) as int;
        lemma_prefix_fits(a.skip(1));
        assert(a.skip(1).skip(n) =~= a.skip(n + 1));
    }
}

proof fn lemma_prefix_fits(a: Seq<char>)
    ensures
        white_prefix(a) <= a.len(),
    decreases a.len(),
{
    if a.len() > 0 && is_white(a[0]) {
        lemma_prefix_fits(a.skip(1));
    }
}

/// White are the blank, what a keyboard makes of it (tab, line feed, carriage return) and the
/// blanks of other scripts; nothing that leaves a mark, and none of the joiners.
pub proof fn white_is_what_leaves_no_mark(c: char)
    ensures
        is_white(' ') && is_white('\t') && is_white('\n') && is_white('\r'),
        c as u32 == 0xa0 || c as u32 == 0x3000 || c as u32 == 0x2003 ==> is_white(c),
        '!' <= c <= '~' ==> !is_white(c),
        (c as u32) < 9 || 0xe <= c as u32 <= 0x1f ==> !is_white(c),
        0xa1 <= c as u32 <= 0x167f ==> !is_white(c),
        c as u32 == 0x200b || c as u32 == 0x200d || c as u32 == 0xfeff ==> !is_white(c),
        c as u32 > 0x3000 ==> !is_white(c),
{
}

/// The first characters are a part of the text from its beginning, as long as asked for, or
/// the whole of a text that is shorter.
pub proof fn first_chars_begin_the_text(s: Seq<char>, n: nat)
    ensures
        first_chars(s, n).len() == if s.len() < n {
            s.len()
        } else {
            n
        },
        forall|i: int| 0 <= i < first_chars(s, n).len() ==> #[trigger] first_chars(s, n)[i] == s[i],
{
}

/// A split puts together again: what stands before the separator does not hold it, and a text
/// without one is not split.
pub proof fn a_split_puts_together_again(head: Seq<char>, c: char, tail: Seq<char>)
    requires
        forall|i: int| 0 <= i < head.len() ==> #[trigger] head[i] != c,
    ensures
        split_at_first(head.push(c) + tail, c) == Some((head, tail)),
        split_at_first(head, c) is None,
{
    let s = head.push(c) + tail;
    assert(s[head.len() as int] == c);
    assert forall|k: int| 0 <= k < head.len() implies s[k] != c by {
        assert(s[k] == head[k]);
    }
    lemma_index_from_unique(s, c, 0, head.len() as int);
    assert(s.take(head.len() as int) =~= head);
    assert(s.skip(head.len() as int + 1) =~= tail);
    lemma_index_from(head, c, 0);
    let i = index_from(head, c, 0);
    if i < head.len() {
        assert(head[i] == c);
    }
}

/// The same of a separator of several characters: the text is split where it stands first.
pub proof fn a_pattern_splits_where_it_stands_first(s: Seq<char>, pattern: Seq<char>, i: int)
    requires
        pattern.len() > 0,
        0 <= i,
        i + pattern.len() <= s.len(),
        s.subrange(i, i + pattern.len()) == pattern,
        forall|k: int|
            0 <= k < i ==> #[trigger] s.subrange(k, k + pattern.len()) != pattern,
    ensures
        split_at_pattern(s, pattern) == Some((s.take(i), s.skip(i + pattern.len()))),
{
    lemma_pattern_from(s, pattern, 0, i);
}

proof fn lemma_pattern_from(s: Seq<char>, pattern: Seq<char>, from: int, i: int)
    requires
        pattern.len() > 0,
        0 <= from <= i,
        i + pattern.len() <= s.len(),
        s.subrange(i, i + pattern.len()) == pattern,
        forall|k: int|
            0 <= k < i ==> #[trigger] s.subrange(k, k + pattern.len()) != pattern,
    ensures
        pattern_from(s, pattern, from) == i,
    decreases i - from,
{
    if from < i {
        assert(s.subrange(from, from + pattern.len()) != pattern);
        lemma_pattern_from(s, pattern, from + 1, i);
    }
}

/// A text in which the separator stands nowhere is not split.
pub proof fn no_pattern_no_split(s: Seq<char>, pattern: Seq<char>)
    requires
        pattern.len() > 0,
        forall|k: int|
            0 <= k && k + pattern.len() <= s.len() ==> #[trigger] s.subrange(k, k + pattern.len())
                != pattern,
    ensures
        split_at_pattern(s, pattern) is None,
{
    lemma_no_pattern(s, pattern, 0);
}

proof fn lemma_no_pattern(s: Seq<char>, pattern: Seq<char>, from: int)
    requires
        pattern.len() > 0,
        0 <= from <= s.len(),
        forall|k: int|
            0 <= k && k + pattern.len() <= s.len() ==> #[trigger] s.subrange(k, k + pattern.len())
                != pattern,
    ensures
        pattern_from(s, pattern, from) == s.len(),
    decreases s.len() - from,
{
    if from < s.len() {
        if from + pattern.len() <= s.len() {
            assert(s.subrange(from, from + pattern.len()) != pattern);
        }
        lemma_no_pattern(s, pattern, from + 1);
    }
}

/// A number beyond the range is not read: neither one too large without a sign, nor one too
/// large or too small with one.
pub proof fn what_does_not_fit_is_not_read(n: int)
    ensures
        n > u64::MAX ==> parsed_number(decimal_chars(n as nat)) is None,
        n > i32::MAX || n < i32::MIN ==> parsed_signed(signed_chars(n)) is None,
{
    reveal_strlit("-");
    if n > u64::MAX {
        lemma_decimal(n as nat);
        assert(is_digit(decimal_chars(n as nat)[0]));
    }
    if n > i32::MAX {
        lemma_decimal(n as nat);
        assert(is_digit(decimal_chars(n as nat)[0]));
    }
    if n < i32::MIN {
        lemma_decimal((-n) as nat);
        let s = signed_chars(n);
        assert(s.skip(1) =~= decimal_chars((-n) as nat));
        assert(s[0] == '-');
    }
}

/// There are twenty-five white characters.
pub proof fn these_characters_are_white(c: char)
    ensures
        is_white(c) <==> {
            let n = c as u32;
            ||| n == 0x9 || n == 0xa || n == 0xb || n == 0xc || n == 0xd || n == 0x20
            ||| n == 0x85 || n == 0xa0 || n == 0x1680
            ||| n == 0x2000 || n == 0x2001 || n == 0x2002 || n == 0x2003 || n == 0x2004
            ||| n == 0x2005 || n == 0x2006 || n == 0x2007 || n == 0x2008 || n == 0x2009
            ||| n == 0x200a || n == 0x2028 || n == 0x2029 || n == 0x202f || n == 0x205f
            ||| n == 0x3000
        },
{
}

} // verus!
