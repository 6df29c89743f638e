//! The sizes of buffers that an ASIO driver takes.
//!
//! A driver gives a smallest, a largest and a preferred size, and a granularity: the sizes
//! are powers of two where it is -1, and steps of it from the smallest one on where it is
//! positive. A size that the driver does not take must not be forced on it.

use crate::text;
use vstd::prelude::*;
use vstd::string::*;

verus! {

/// Is `n` a power of two?
pub open spec fn is_power(n: int) -> bool
    decreases n,
{
    n == 1 || n > 1 && n % 2 == 0 && is_power(n / 2)
}

/// Between a power of two and its double there is no other.
proof fn lemma_powers_apart(s: int, p: int)
    requires
        is_power(s),
        is_power(p),
        s < p,
    ensures
        2 * s <= p,
    decreases p,
{
    if s == 1 {
    } else if p > 1 {
        lemma_powers_apart(s / 2, p / 2);
    }
}

proof fn lemma_double(s: int)
    requires
        is_power(s),
    ensures
        is_power(2 * s),
{
    assert((2 * s) / 2 == s);
    assert((2 * s) % 2 == 0);
    assert(s >= 1);
}

/// The distance between two sizes.
pub open spec fn distance(a: int, b: int) -> int {
    if a >= b {
        a - b
    } else {
        b - a
    }
}

/// Can a driver be asked for sizes between these?
pub open spec fn is_range(min: i32, max: i32) -> bool {
    0 < min <= max
}

/// Does the driver take the size?
pub open spec fn is_legal(size: int, min: i32, max: i32, gran: i32) -> bool {
    &&& min <= size <= max
    &&& gran == -1 ==> is_power(size)
    &&& gran > 0 ==> (size - min) % gran as int == 0
}

/// Is there a power of two in the range?
pub open spec fn has_power(min: i32, max: i32) -> bool {
    exists|p: int| min <= p <= max && #[trigger] is_power(p)
}

/// The number of whole steps to the step nearest to `offset`; halfway goes up.
pub open spec fn nearest_step(offset: int, gran: int) -> int {
    (2 * offset + gran) / (2 * gran)
}

/// The steps that fit between the smallest and the largest size.
pub open spec fn last_step(min: i32, max: i32, gran: i32) -> int {
    (max - min) / gran as int
}

fn nearest_power(desired: i32, min: i32, max: i32) -> (r: Option<i32>)
    requires
        is_range(min, max),
    ensures
        match r {
            Some(b) => {
                &&& min <= b <= max
                &&& is_power(b as int)
                &&& forall|p: int|
                    min <= p <= max && #[trigger] is_power(p) ==> distance(b as int, desired as int)
                        < distance(p, desired as int) || distance(b as int, desired as int)
                        == distance(p, desired as int) && b <= p
            },
            None => !has_power(min, max),
        },
{
    let lo: i64 = min as i64;
    let hi: i64 = max as i64;
    let d: i64 = desired as i64;
    let mut best: Option<i64> = None;
    let mut s: i64 = 1;
    while s <= hi
        invariant
            lo == min,
            hi == max,
            d == desired,
            is_range(min, max),
            is_power(s as int),
            1 <= s <= 2 * hi,
            match best {
                Some(b) => {
                    &&& lo <= b <= hi
                    &&& b < s
                    &&& is_power(b as int)
                    &&& forall|p: int|
                        lo <= p < s && p <= hi && #[trigger] is_power(p) ==> distance(
                            b as int,
                            d as int,
                        ) < distance(p, d as int) || distance(b as int, d as int) == distance(
                            p,
                            d as int,
                        ) && b <= p
                },
                None => forall|p: int| lo <= p < s && p <= hi ==> !#[trigger] is_power(p),
            },
        decreases 2 * hi - s,
    {
        proof {
            lemma_double(s as int);
            assert forall|p: int| s < p < 2 * s implies !#[trigger] is_power(p) by {
                if is_power(p) {
                    lemma_powers_apart(s as int, p);
                }
            }
        }
        if s >= lo {
            let closer = match best {
                Some(b) => {
                    let db: i64 = if b >= d {
                        b - d
                    } else {
                        d - b
                    };
                    let ds: i64 = if s >= d {
                        s - d
                    } else {
                        d - s
                    };
                    ds < db
                },
                None => true,
            };
            if closer {
                best = Some(s);
            }
        }
        s = s * 2;
    }
    match best {
        Some(b) => Some(b as i32),
        None => None,
    }
}

/// Is `r` the size to ask a driver for? Outside the range it is the preferred one. With
/// powers of two it is the nearest one in the range, and the preferred size where there is
/// none. With steps it is the nearest step in the range. Otherwise any size will do.
pub open spec fn is_snapped(desired: i32, min: i32, max: i32, pref: i32, gran: i32, r: i32) -> bool {
    if !is_range(min, max) {
        r == if pref >= 1 {
            pref
        } else {
            1
        }
    } else if !(min <= desired <= max) {
        r == pref
    } else if gran == -1 {
        if has_power(min, max) {
            &&& min <= r <= max
            &&& is_power(r as int)
            &&& forall|p: int|
                min <= p <= max && #[trigger] is_power(p) ==> distance(r as int, desired as int)
                    < distance(p, desired as int) || distance(r as int, desired as int) == distance(
                    p,
                    desired as int,
                ) && r <= p
        } else {
            r == pref
        }
    } else if gran <= 0 {
        r == desired
    } else {
        let k = nearest_step(desired - min, gran as int);
        r == min + gran * if k <= last_step(min, max, gran) {
            k
        } else {
            last_step(min, max, gran)
        }
    }
}

/// Gives the size to ask a driver for, where `desired` is wanted.
pub fn snap_buffer_size(desired: i32, min: i32, max: i32, pref: i32, gran: i32) -> (r: i32)
    ensures
        is_snapped(desired, min, max, pref, gran, r),
{
    if min <= 0 || max < min {
        return if pref >= 1 {
            pref
        } else {
            1
        };
    }
    if desired < min || desired > max {
        return pref;
    }
    if gran == -1 {
        return match nearest_power(desired, min, max) {
            Some(b) => b,
            None => pref,
        };
    }
    if gran <= 0 {
        return desired;
    }
    let g: i64 = gran as i64;
    let nearest: i64 = (2 * (desired as i64 - min as i64) + g) / (2 * g);
    let last: i64 = (max as i64 - min as i64) / g;
    let k: i64 = if nearest <= last {
        nearest
    } else {
        last
    };
    proof {
        let span = max as int - min as int;
        assert(0 <= last as int && g * last <= span) by (nonlinear_arith)
            requires
                last as int == span / g as int,
                g > 0,
                span >= 0,
        ;
        assert(0 <= nearest as int) by (nonlinear_arith)
            requires
                nearest as int == (2 * (desired as int - min as int) + g) / (2 * g as int),
                g > 0,
                desired >= min,
        ;
        assert(0 <= g * k <= span) by (nonlinear_arith)
            requires
                0 <= k <= last,
                g > 0,
                g * last <= span,
        ;
    }
    let step: i64 = g * k;
    (min as i64 + step) as i32
}

/// A size that is asked for is one that the driver takes, or the one it prefers.
pub proof fn no_size_is_forced(desired: i32, min: i32, max: i32, pref: i32, gran: i32, r: i32)
    requires
        is_range(min, max),
        is_snapped(desired, min, max, pref, gran, r),
    ensures
        is_legal(r as int, min, max, gran) || r == pref,
{
    if min <= desired <= max && gran > 0 {
        lemma_step_is_legal(desired, min, max, gran);
    }
}

proof fn lemma_step_is_legal(desired: i32, min: i32, max: i32, gran: i32)
    requires
        is_range(min, max),
        min <= desired <= max,
        gran > 0,
    ensures
        ({
            let k = nearest_step(desired - min, gran as int);
            is_legal(
                min + gran * if k <= last_step(min, max, gran) {
                    k
                } else {
                    last_step(min, max, gran)
                },
                min,
                max,
                gran,
            )
        }),
{
    let g = gran as int;
    let span = max as int - min as int;
    let off = desired as int - min as int;
    let near = nearest_step(off, g);
    let last = last_step(min, max, gran);
    let k = if near <= last {
        near
    } else {
        last
    };
    assert(0 <= last && g * last <= span) by (nonlinear_arith)
        requires
            last == span / g,
            g > 0,
            span >= 0,
    ;
    assert(0 <= near) by (nonlinear_arith)
        requires
            near == (2 * off + g) / (2 * g),
            g > 0,
            off >= 0,
    ;
    assert(0 <= g * k <= span) by (nonlinear_arith)
        requires
            0 <= k <= last,
            g > 0,
            g * last <= span,
    ;
    assert((g * k) % g == 0) by (nonlinear_arith)
        requires
            g > 0,
    ;
}

/// Most sizes that are listed where they come in steps.
pub const MAX_STEPS_LISTED: usize = 64;

/// Is the list in order, without repetition?
pub open spec fn is_increasing(s: Seq<i32>) -> bool {
    forall|i: int, j: int| 0 <= i < j < s.len() ==> #[trigger] s[i] < #[trigger] s[j]
}

/// The sizes in steps, as many as are listed.
pub open spec fn steps_listed(min: i32, max: i32, gran: i32) -> Seq<i32> {
    let n = last_step(min, max, gran) + 1;
    Seq::new(
        (if n <= MAX_STEPS_LISTED {
            n
        } else {
            MAX_STEPS_LISTED as int
        }) as nat,
        |k: int| (min + gran * k) as i32,
    )
}

fn insert_sorted(sizes: &mut Vec<i32>, v: i32)
    requires
        is_increasing(old(sizes)@),
    ensures
        is_increasing(final(sizes)@),
        forall|x: i32| #[trigger]
            final(sizes)@.contains(x) <==> (old(sizes)@.contains(x) || x == v),
{
    let ghost before = sizes@;
    let mut i: usize = 0;
    while i < sizes.len() && sizes[i] < v
        invariant
            i <= sizes@.len(),
            sizes@ == before,
            forall|k: int| 0 <= k < i ==> #[trigger] sizes@[k] < v,
        decreases sizes@.len() - i,
    {
        i = i + 1;
    }
    if i < sizes.len() && sizes[i] == v {
        assert(before[i as int] == v);
        return;
    }
    sizes.insert(i, v);
    proof {
        let after = sizes@;
        assert(after == before.insert(i as int, v));
        assert forall|a: int, b: int| 0 <= a < b < after.len() implies #[trigger] after[a]
            < #[trigger] after[b] by {
            if i < before.len() {
                assert(before[i as int] > v);
                assert forall|k: int| i <= k < before.len() implies #[trigger] before[k] > v by {
                    if k > i {
                        assert(before[i as int] < before[k]);
                    }
                }
            }
            if a < i && b < i {
                assert(before[a] < before[b]);
            } else if a < i && b > i {
                assert(before[a] < v);
                assert(after[b] == before[b - 1]);
            } else if a == i {
                assert(after[b] == before[b - 1]);
            } else if a > i {
                assert(after[a] == before[a - 1] && after[b] == before[b - 1]);
            }
        }
        assert forall|x: i32| #[trigger] after.contains(x) <==> (before.contains(x) || x == v) by {
            if after.contains(x) {
                let k = choose|k: int| 0 <= k < after.len() && after[k] == x;
                if k < i {
                    assert(before[k] == x);
                } else if k > i {
                    assert(before[k - 1] == x);
                }
            }
            if before.contains(x) {
                let k = choose|k: int| 0 <= k < before.len() && before[k] == x;
                if k < i {
                    assert(after[k] == x);
                } else {
                    assert(after[k + 1] == x);
                }
            }
            if x == v {
                assert(after[i as int] == v);
            }
        }
    }
}

fn powers_between(min: i32, max: i32) -> (r: Vec<i32>)
    requires
        is_range(min, max),
    ensures
        is_increasing(r@),
        forall|x: i32| #[trigger]
            r@.contains(x) <==> (min <= x <= max && is_power(x as int)),
{
    let mut r: Vec<i32> = Vec::new();
    let lo: i64 = min as i64;
    let hi: i64 = max as i64;
    let mut s: i64 = 1;
    while s <= hi
        invariant
            lo == min,
            hi == max,
            is_range(min, max),
            is_power(s as int),
            1 <= s <= 2 * hi,
            is_increasing(r@),
            forall|k: int| 0 <= k < r@.len() ==> #[trigger] r@[k] < s,
            forall|x: i32| #[trigger]
                r@.contains(x) <==> (lo <= x <= hi && x < s && is_power(x as int)),
        decreases 2 * hi - s,
    {
        proof {
            lemma_double(s as int);
            assert forall|p: int| s < p < 2 * s implies !#[trigger] is_power(p) by {
                if is_power(p) {
                    lemma_powers_apart(s as int, p);
                }
            }
        }
        let ghost before = r@;
        if s >= lo {
            r.push(s as i32);
            proof {
                let after = r@;
                assert forall|x: i32| #[trigger] after.contains(x) <==> (before.contains(x) || x
                    == s) by {
                    if after.contains(x) {
                        let k = choose|k: int| 0 <= k < after.len() && after[k] == x;
                        if k < before.len() {
                            assert(before[k] == x);
                        }
                    }
                    if before.contains(x) {
                        let k = choose|k: int| 0 <= k < before.len() && before[k] == x;
                        assert(after[k] == x);
                    }
                    if x == s {
                        assert(after[before.len() as int] == x);
                    }
                }
            }
        }
        s = s * 2;
    }
    r
}

fn list_steps(min: i32, max: i32, gran: i32) -> (r: Vec<i32>)
    requires
        is_range(min, max),
        gran > 0,
    ensures
        r@ == steps_listed(min, max, gran),
        is_increasing(r@),
{
    let mut r: Vec<i32> = Vec::new();
    let g: i64 = gran as i64;
    let lo: i64 = min as i64;
    let hi: i64 = max as i64;
    let last: i64 = (hi - lo) / g;
    let mut k: i64 = 0;
    let mut s: i64 = lo;
    proof {
        let span = hi - lo;
        assert(0 <= last as int && g * last <= span && g * (last + 1) > span) by (nonlinear_arith)
            requires
                last as int == span / g as int,
                g > 0,
                span >= 0,
        ;
    }
    while s <= hi && r.len() < MAX_STEPS_LISTED
        invariant
            g == gran,
            lo == min,
            hi == max,
            is_range(min, max),
            gran > 0,
            last == last_step(min, max, gran),
            g * last <= hi - lo < g * (last + 1),
            0 <= last,
            0 <= k <= last + 1,
            k == r@.len(),
            k <= MAX_STEPS_LISTED,
            s == lo + g * k,
            forall|i: int| 0 <= i < k ==> #[trigger] r@[i] == lo + g * i,
            forall|i: int| 0 <= i < k ==> #[trigger] r@[i] < s,
            is_increasing(r@),
        decreases MAX_STEPS_LISTED - k,
    {
        proof {
            assert(k <= last) by (nonlinear_arith)
                requires
                    lo + g * k <= hi,
                    hi - lo < g * (last + 1),
                    g > 0,
            ;
            assert(g * (k + 1) == g * k + g) by (nonlinear_arith);
        }
        r.push(s as i32);
        s = s + g;
        k = k + 1;
    }
    proof {
        assert(k <= MAX_STEPS_LISTED ==> (k == last + 1 || k == MAX_STEPS_LISTED)) by {
            if k < MAX_STEPS_LISTED {
                assert(s > hi);
                assert(k >= last + 1) by (nonlinear_arith)
                    requires
                        lo + g * k > hi,
                        g * last <= hi - lo,
                        g > 0,
                ;
            }
        }
        assert(r@ =~= steps_listed(min, max, gran));
    }
    r
}

/// The sizes that a driver takes: all powers of two in the range; or the steps, as many as
/// are listed, and the preferred size; or the preferred size alone, where the size is fixed;
/// or, where the granularity means nothing and any size will do, the ends of the range and
/// the preferred size. In order, none outside the range, and nothing where there is no range.
pub fn legal_buffer_sizes(min: i32, max: i32, pref: i32, gran: i32) -> (r: Vec<i32>)
    ensures
        is_increasing(r@),
        !is_range(min, max) ==> r@.len() == 0,
        is_range(min, max) && gran == -1 ==> forall|x: i32| #[trigger]
            r@.contains(x) <==> (min <= x <= max && is_power(x as int)),
        is_range(min, max) && gran == 0 ==> forall|x: i32| #[trigger]
            r@.contains(x) <==> (x == pref && min <= pref <= max),
        is_range(min, max) && gran < -1 ==> forall|x: i32| #[trigger]
            r@.contains(x) <==> (min <= x <= max && (x == min || x == pref || x == max)),
        is_range(min, max) && gran > 0 ==> forall|x: i32| #[trigger]
            r@.contains(x) <==> (steps_listed(min, max, gran).contains(x) || x == pref && min
                <= pref <= max),
{
    if min <= 0 || max < min {
        return Vec::new();
    }
    if gran == -1 {
        return powers_between(min, max);
    }
    if gran == 0 {
        let mut r: Vec<i32> = Vec::new();
        if min <= pref && pref <= max {
            insert_sorted(&mut r, pref);
        }
        return r;
    }
    if gran < 0 {
        let mut r: Vec<i32> = Vec::new();
        insert_sorted(&mut r, min);
        if min <= pref && pref <= max {
            insert_sorted(&mut r, pref);
        }
        insert_sorted(&mut r, max);
        return r;
    }
    let mut r = list_steps(min, max, gran);
    if min <= pref && pref <= max {
        insert_sorted(&mut r, pref);
    }
    r
}

/// Is the size on the list?
pub fn lists_size(sizes: &Vec<i32>, size: i32) -> (r: bool)
    ensures
        r == sizes@.contains(size),
{
    let mut i: usize = 0;
    while i < sizes.len()
        invariant
            i <= sizes@.len(),
            forall|k: int| 0 <= k < i ==> #[trigger] sizes@[k] != size,
        decreases sizes@.len() - i,
    {
        if sizes[i] == size {
            assert(sizes@[i as int] == size);
            return true;
        }
        i = i + 1;
    }
    false
}

/// What a granularity means, in words.
pub open spec fn granularity_chars(gran: i32) -> Seq<char> {
    if gran == -1 {
        "puissances de 2 uniquement (min, 2·min, 4·min…)"@
    } else if gran == 0 {
        "0 → taille FIXE : seul `pref` est légal"@
    } else if gran < -1 {
        text::signed_chars(gran as int)
            + " (< -1, non conforme) → traité comme « toute taille ∈ [min,max] »"@
    } else {
        let g = text::signed_chars(gran as int);
        "pas de "@ + g + " samples (min, min+"@ + g + ", min+2·"@ + g + "…)"@
    }
}

pub fn granularity_text(gran: i32) -> (r: String)
    ensures
        r@ == granularity_chars(gran),
{
    if gran == -1 {
        "puissances de 2 uniquement (min, 2·min, 4·min…)".to_owned()
    } else if gran == 0 {
        "0 → taille FIXE : seul `pref` est légal".to_owned()
    } else if gran < -1 {
        text::joined(
            text::signed_decimal(gran as i64).as_str(),
            " (< -1, non conforme) → traité comme « toute taille ∈ [min,max] »",
        )
    } else {
        let g = text::signed_decimal(gran as i64);
        let mut r = text::joined("pas de ", g.as_str());
        r.append(" samples (min, min+");
        r.append(g.as_str());
        r.append(", min+2·");
        r.append(g.as_str());
        r.append("…)");
        r
    }
}

/// What a driver says of its sizes.
#[derive(Clone, Copy, Debug, PartialEq, Eq, Structural)]
pub struct SizeRange {
    pub min: i32,
    pub max: i32,
    pub pref: i32,
    pub gran: i32,
}

/// The size to open with: the wanted one, made to fit what the driver says. Where it says
/// nothing, the wanted one stands.
pub fn size_to_open(wanted: i32, range: Option<SizeRange>) -> (r: i32)
    ensures
        match range {
            Some(g) => is_snapped(wanted, g.min, g.max, g.pref, g.gran, r),
            None => r == wanted,
        },
{
    match range {
        Some(g) => snap_buffer_size(wanted, g.min, g.max, g.pref, g.gran),
        None => wanted,
    }
}

/// Powers of two are one and the doubles of powers of two, and nothing else.
pub proof fn powers_are_one_and_their_doubles(n: int)
    ensures
        is_power(1),
        n >= 1 ==> is_power(2 * n) == is_power(n),
        n >= 1 ==> !is_power(2 * n + 1),
        n <= 0 ==> !is_power(n),
{
    if n >= 1 {
        assert((2 * n) % 2 == 0 && (2 * n) / 2 == n && (2 * n + 1) % 2 == 1);
    }
}

/// A distance is never negative, the same from either side, and added to the smaller gives the
/// larger.
pub proof fn a_distance_leads_from_one_to_the_other(a: int, b: int)
    ensures
        distance(a, b) == distance(b, a),
        a <= b ==> a + distance(a, b) == b,
{
}

/// A size is legal if it lies in the range and, as the driver says, is a power of two, or lies
/// a number of steps above the smallest.
pub proof fn a_size_is_legal_by_the_drivers_own_rule(min: i32, max: i32, gran: i32, steps: int)
    requires
        is_range(min, max),
        steps >= 0,
    ensures
        min > 0,
        gran > 0 && min + gran * steps <= max ==> is_legal(min + gran * steps, min, max, gran),
        gran == -1 ==> (is_legal(steps, min, max, gran) <==> min <= steps <= max && is_power(
            steps,
        )),
        !(min <= steps <= max) ==> !is_legal(steps, min, max, gran),
        gran == 0 || gran < -1 ==> (is_legal(steps, min, max, gran) <==> min <= steps <= max),
{
    if gran > 0 {
        let g = gran as int;
        vstd::arithmetic::div_mod::lemma_mod_multiples_basic(steps, g);
        assert(g * steps == steps * g) by (nonlinear_arith);
        assert(g * steps >= 0) by (nonlinear_arith)
            requires
                g > 0,
                steps >= 0,
        ;
    }
}

/// The nearest step is not farther than half a step away, and the last one is the last within
/// the range.
pub proof fn the_nearest_step_is_half_a_step_away(offset: int, min: i32, max: i32, gran: i32)
    requires
        gran > 0,
        offset >= 0,
        min <= max,
    ensures
        2 * (gran * nearest_step(offset, gran as int)) <= 2 * offset + gran,
        2 * offset < 2 * (gran * nearest_step(offset, gran as int)) + gran,
        min + gran * last_step(min, max, gran) <= max,
        max < min + gran * (last_step(min, max, gran) + 1),
{
    let g = gran as int;
    let k = nearest_step(offset, g);
    let last = last_step(min, max, gran);
    vstd::arithmetic::div_mod::lemma_fundamental_div_mod(2 * offset + g, 2 * g);
    vstd::arithmetic::div_mod::lemma_mod_bound(2 * offset + g, 2 * g);
    vstd::arithmetic::div_mod::lemma_fundamental_div_mod(max - min, g);
    vstd::arithmetic::div_mod::lemma_mod_bound(max - min, g);
    assert((2 * g) * k == 2 * (g * k)) by (nonlinear_arith);
    assert(g * (last + 1) == g * last + g) by (nonlinear_arith);
}

/// Of the sizes that the driver takes, none is nearer to the one that was asked for than the
/// one that is chosen.
pub proof fn no_legal_size_is_nearer(
    desired: i32,
    min: i32,
    max: i32,
    pref: i32,
    gran: i32,
    r: i32,
    steps: int,
)
    requires
        is_range(min, max),
        min <= desired <= max,
        gran > 0,
        steps >= 0,
        min + gran * steps <= max,
        is_snapped(desired, min, max, pref, gran, r),
    ensures
        distance(r as int, desired as int) <= distance(min + gran * steps, desired as int),
{
    let g = gran as int;
    let off = desired - min;
    let k = nearest_step(off, g);
    let last = last_step(min, max, gran);
    the_nearest_step_is_half_a_step_away(off, min, max, gran);
    let c = if k <= last {
        k
    } else {
        last
    };
    assert(r == min + g * c);
    assert(steps <= last) by (nonlinear_arith)
        requires
            g > 0,
            min + g * steps <= max,
            max < min + g * (last + 1),
    ;
    if steps < c {
        assert(g * steps + g <= g * c) by (nonlinear_arith)
            requires
                g > 0,
                steps < c,
        ;
        if k > last {
            assert(g * c + g <= g * k) by (nonlinear_arith)
                requires
                    g > 0,
                    c < k,
            ;
        }
    } else if steps > c {
        assert(g * c + g <= g * steps) by (nonlinear_arith)
            requires
                g > 0,
                c < steps,
        ;
    }
}

/// The sizes by steps are listed from the smallest on, step by step, 64 at most.
pub proof fn steps_are_listed_from_the_smallest(min: i32, max: i32, gran: i32, i: int)
    requires
        min <= max,
        gran > 0,
        0 <= i < steps_listed(min, max, gran).len(),
    ensures
        steps_listed(min, max, gran).len() <= 64,
        steps_listed(min, max, gran)[i] == min + gran * i,
        min <= min + gran * i <= max,
        steps_listed(min, max, gran).len() < 64 ==> min + gran * steps_listed(
            min,
            max,
            gran,
        ).len() > max,
{
    let g = gran as int;
    let last = last_step(min, max, gran);
    the_nearest_step_is_half_a_step_away(0, min, max, gran);
    assert(0 <= g * i <= g * last) by (nonlinear_arith)
        requires
            g > 0,
            0 <= i <= last,
    ;
}

/// What a driver says of its sizes is told in words: powers of two, one size only, steps of so
/// many samples, or a number that means nothing.
pub proof fn a_granularity_is_told_in_words(gran: i32)
    ensures
        gran == -1 ==> granularity_chars(gran)
            == "puissances de 2 uniquement (min, 2·min, 4·min…)"@,
        gran == 0 ==> granularity_chars(gran) == "0 → taille FIXE : seul `pref` est légal"@,
        gran < -1 ==> granularity_chars(gran) == text::signed_chars(gran as int)
            + " (< -1, non conforme) → traité comme « toute taille ∈ [min,max] »"@,
        gran > 0 ==> granularity_chars(gran) == "pas de "@ + text::decimal_chars(gran as nat)
            + " samples (min, min+"@ + text::decimal_chars(gran as nat) + ", min+2·"@
            + text::decimal_chars(gran as nat) + "…)"@,
{
}

/// Where only powers of two are taken, the one that is chosen is a power of two in the range,
/// none is nearer to the one that was asked for, and of two that are as near the smaller one is
/// chosen.
pub proof fn no_power_is_nearer(desired: i32, min: i32, max: i32, pref: i32, r: i32, p: int)
    requires
        is_range(min, max),
        min <= desired <= max,
        min <= p <= max,
        is_power(p),
        is_snapped(desired, min, max, pref, -1i32, r),
    ensures
        min <= r <= max,
        is_power(r as int),
        distance(r as int, desired as int) <= distance(p, desired as int),
        distance(r as int, desired as int) == distance(p, desired as int) ==> r <= p,
{
    assert(has_power(min, max));
}

/// What the driver prefers is chosen where it takes no size in the range, or the one that is
/// asked for lies outside; where it has no rule, the one that is asked for is.
pub proof fn outside_the_range_the_driver_decides(
    desired: i32,
    min: i32,
    max: i32,
    pref: i32,
    gran: i32,
    r: i32,
)
    requires
        is_snapped(desired, min, max, pref, gran, r),
    ensures
        0 < min <= max && (desired < min || desired > max) ==> r == pref,
        0 < min <= max && min <= desired <= max && gran <= 0 && gran != -1 ==> r == desired,
        !(0 < min <= max) && pref >= 1 ==> r == pref,
        !(0 < min <= max) && pref < 1 ==> r == 1,
        0 < min <= max && min <= desired <= max && gran == -1 && (forall|p: int|
            min <= p <= max ==> !#[trigger] is_power(p)) ==> r == pref,
{
}

/// A range is one of sizes above nothing; a list is increasing if every size is larger than
/// those before it, so that none is listed twice.
pub proof fn a_list_of_sizes_goes_up(sizes: Seq<i32>, i: int, j: int, min: i32, max: i32)
    ensures
        is_range(min, max) <==> 0 < min && min <= max,
        is_increasing(sizes) && 0 <= i < j < sizes.len() ==> sizes[i] < sizes[j],
        0 <= i < j < sizes.len() && sizes[i] >= sizes[j] ==> !is_increasing(sizes),
{
}

} // verus!
