//! A whole scan: what the cache answers for, what the workers find, and the cache that is
//! kept of both.

use crate::plugin::PluginInfo;
use crate::plugin_scan::cache::{
    an_unknown_item_is_scanned, blocked_list, build_cache_file, condemned, entries_hold,
    entries_sorted, findings_agree, fingerprint_of, is_condemned, is_found, item_list,
    kept_condemnations_hold, kept_plugins_are_reused, plugins_of, reconcile, records_hold,
    records_sorted, reuse_list, scan_list, verdict, CacheFile, Found, Plan, SCANNER_ABI,
};
use crate::plugin_scan::coordinator::ScanOutcome;
use crate::plugin_scan::session::BlockedItem;
use crate::text;
use vstd::prelude::*;

verus! {

/// Result of a whole scan.
#[derive(Debug)]
pub struct FullScan {
    pub plugins: Vec<PluginInfo>,
    pub blocked: Vec<BlockedItem>,
    /// Items that the workers were given.
    pub scanned: usize,
}

/// The plan of a scan. A forced one takes no notice of the cache: everything is scanned,
/// the condemned items too.
pub fn plan_full_scan(force: bool, discovered: &[Found], cached: &CacheFile) -> (plan: Plan)
    ensures
        !force ==> {
            &&& item_list(plan.to_scan@) == scan_list(discovered@, *cached)
            &&& plan.reused@ == reuse_list(discovered@, *cached)
            &&& condemned(plan.retained_blocked@) == blocked_list(discovered@, *cached)
        },
        force ==> {
            &&& item_list(plan.to_scan@) == Seq::new(
                discovered@.len(),
                |i: int| discovered@[i].0@,
            )
            &&& plan.reused@.len() == 0
            &&& plan.retained_blocked@.len() == 0
        },
{
    if force {
        let none = CacheFile::empty();
        let plan = reconcile(discovered, &none);
        proof {
            crate::plugin_scan::cache::an_outdated_cache_rescans_everything(discovered@, none);
            assert(condemned(plan.retained_blocked@).len() == 0);
        }
        plan
    } else {
        reconcile(discovered, cached)
    }
}

/// What was found, without the items that are unfinished.
pub open spec fn ended(found: Seq<Found>, unfinished: Seq<Seq<char>>) -> Seq<Found>
    decreases found.len(),
{
    if found.len() == 0 {
        Seq::empty()
    } else {
        let rest = ended(found.drop_last(), unfinished);
        if unfinished.contains(found.last().0@) {
            rest
        } else {
            rest.push(found.last())
        }
    }
}

fn mentions(items: &Vec<String>, item: &str) -> (r: bool)
    ensures
        r == item_list(items@).contains(item@),
{
    let mut i: usize = 0;
    while i < items.len()
        invariant
            i <= items@.len(),
            forall|k: int| 0 <= k < i ==> (#[trigger] item_list(items@)[k]) != item@,
        decreases items@.len() - i,
    {
        assert(item_list(items@)[i as int] == items@[i as int]@);
        if text::same(items[i].as_str(), item) {
            return true;
        }
        i = i + 1;
    }
    false
}

fn keep_ended(found: &[Found], unfinished: &Vec<String>) -> (r: Vec<Found>)
    ensures
        r@ == ended(found@, item_list(unfinished@)),
{
    let mut r: Vec<Found> = Vec::new();
    let mut i: usize = 0;
    assert(found@.take(0) =~= Seq::empty());
    while i < found.len()
        invariant
            i <= found@.len(),
            r@ == ended(found@.take(i as int), item_list(unfinished@)),
        decreases found@.len() - i,
    {
        proof {
            assert(found@.take(i + 1).drop_last() =~= found@.take(i as int));
            assert(found@.take(i + 1).last() == found@[i as int]);
        }
        if !mentions(unfinished, found[i].0.as_str()) {
            r.push((found[i].0.clone(), found[i].1));
        }
        i = i + 1;
    }
    assert(found@.take(i as int) =~= found@);
    r
}

/// Puts what the cache answered for and what the workers found together: the cache to keep,
/// and the result to publish. Of an item that no worker brought to an end nothing is kept.
pub fn finish_full_scan(plan: Plan, fresh: ScanOutcome, discovered: &[Found]) -> (r: (
    CacheFile,
    FullScan,
))
    ensures
        r.0.scanner_abi == SCANNER_ABI,
        entries_sorted(r.0.entries@),
        records_sorted(r.0.blocked@),
        entries_hold(
            r.0.entries@,
            plan.reused@ + fresh.plugins@,
            plan.retained_blocked@ + fresh.blocked@,
            ended(discovered@, item_list(fresh.unfinished@)),
        ),
        records_hold(
            r.0.blocked@,
            plan.retained_blocked@ + fresh.blocked@,
            ended(discovered@, item_list(fresh.unfinished@)),
        ),
        r.1.plugins@ == plan.reused@ + fresh.plugins@,
        r.1.blocked@ == plan.retained_blocked@ + fresh.blocked@,
        r.1.scanned == plan.to_scan@.len(),
{
    let known = keep_ended(discovered, &fresh.unfinished);
    let cache = build_cache_file(
        fresh.plugins.as_slice(),
        fresh.blocked.as_slice(),
        &plan,
        known.as_slice(),
    );
    let scanned: usize = plan.to_scan.len();
    let Plan { to_scan: _, reused, retained_blocked } = plan;
    let ScanOutcome { plugins: more_plugins, blocked: more_blocked, unfinished: _ } = fresh;
    let mut plugins = reused;
    let mut more_plugins = more_plugins;
    plugins.append(&mut more_plugins);
    let mut blocked = retained_blocked;
    let mut more_blocked = more_blocked;
    blocked.append(&mut more_blocked);
    (cache, FullScan { plugins, blocked, scanned })
}

proof fn lemma_ended(found: Seq<Found>, unfinished: Seq<Seq<char>>, item: Seq<char>)
    ensures
        is_found(ended(found, unfinished), item) <==> is_found(found, item)
            && !unfinished.contains(item),
        !unfinished.contains(item) ==> fingerprint_of(ended(found, unfinished), item)
            == fingerprint_of(found, item),
    decreases found.len(),
{
    if found.len() > 0 {
        let before = found.drop_last();
        let last = found.last();
        let kept = ended(before, unfinished);
        let now = ended(found, unfinished);
        lemma_ended(before, unfinished, item);
        assert(is_found(found, item) <==> is_found(before, item) || last.0@ == item) by {
            assert(found[found.len() - 1] == last);
            if is_found(found, item) {
                let i = choose|i: int| 0 <= i < found.len() && (#[trigger] found[i]).0@ == item;
                if i < before.len() {
                    assert(before[i] == found[i]);
                }
            }
            if is_found(before, item) {
                let i = choose|i: int| 0 <= i < before.len() && (#[trigger] before[i]).0@ == item;
                assert(found[i] == before[i]);
            }
        }
        if !unfinished.contains(last.0@) {
            assert(now.drop_last() =~= kept);
            assert(now.last() == last);
            assert(is_found(now, item) <==> is_found(kept, item) || last.0@ == item) by {
                assert(now[now.len() - 1] == last);
                if is_found(now, item) {
                    let i = choose|i: int| 0 <= i < now.len() && (#[trigger] now[i]).0@ == item;
                    if i < kept.len() {
                        assert(kept[i] == now[i]);
                    }
                }
                if is_found(kept, item) {
                    let i = choose|i: int| 0 <= i < kept.len() && (#[trigger] kept[i]).0@ == item;
                    assert(now[i] == kept[i]);
                }
            }
        }
    }
}

proof fn lemma_next_boot(
    cache: CacheFile,
    all: Seq<PluginInfo>,
    bad: Seq<BlockedItem>,
    found: Seq<Found>,
    unfinished: Seq<Seq<char>>,
    n: int,
)
    requires
        cache.scanner_abi == SCANNER_ABI,
        entries_hold(cache.entries@, all, bad, ended(found, unfinished)),
        records_hold(cache.blocked@, bad, ended(found, unfinished)),
        findings_agree(found),
        0 <= n <= found.len(),
    ensures
        forall|x: Seq<char>| #[trigger]
            scan_list(found.take(n), cache).contains(x) ==> unfinished.contains(x),
        forall|i: int|
            0 <= i < n && unfinished.contains((#[trigger] found[i]).0@) && !is_condemned(
                bad,
                found[i].0@,
            ) && plugins_of(all, found[i].0@).len() == 0 ==> scan_list(
                found.take(n),
                cache,
            ).contains(found[i].0@),
    decreases n,
{
    if n > 0 {
        lemma_next_boot(cache, all, bad, found, unfinished, n - 1);
        let last = found[n - 1];
        let item = last.0@;
        let known = ended(found, unfinished);
        assert(found.take(n).drop_last() =~= found.take(n - 1));
        assert(found.take(n).last() == last);
        assert(is_found(found, item));
        lemma_ended(found, unfinished, item);
        if !unfinished.contains(item) {
            if is_condemned(bad, item) && plugins_of(all, item).len() == 0 {
                kept_condemnations_hold(cache, all, bad, known, item);
            } else {
                kept_plugins_are_reused(cache, all, bad, known, item);
            }
        } else if !is_condemned(bad, item) && plugins_of(all, item).len() == 0 {
            an_unknown_item_is_scanned(cache, all, bad, known, item, last.1);
        }
        let before = scan_list(found.take(n - 1), cache);
        let now = scan_list(found.take(n), cache);
        assert(forall|x: Seq<char>| #[trigger] before.contains(x) ==> now.contains(x)) by {
            assert forall|x: Seq<char>| #[trigger] before.contains(x) implies now.contains(x) by {
                let k = choose|k: int| 0 <= k < before.len() && before[k] == x;
                assert(now[k] == x);
            }
        }
        if verdict(item, last.1, cache) is Scan {
            assert(now == before.push(item));
            assert(now[before.len() as int] == item);
            assert forall|x: Seq<char>| #[trigger] now.contains(x) implies unfinished.contains(x) by {
                let k = choose|k: int| 0 <= k < now.len() && now[k] == x;
                if k < before.len() {
                    assert(before[k] == x);
                    assert(before.contains(x));
                }
            }
        }
    }
}

/// A boot on which nothing has changed scans again what no worker brought to an end, and
/// nothing else.
pub proof fn only_unfinished_items_are_scanned_again(
    cache: CacheFile,
    all: Seq<PluginInfo>,
    bad: Seq<BlockedItem>,
    found: Seq<Found>,
    unfinished: Seq<Seq<char>>,
)
    requires
        cache.scanner_abi == SCANNER_ABI,
        entries_hold(cache.entries@, all, bad, ended(found, unfinished)),
        records_hold(cache.blocked@, bad, ended(found, unfinished)),
        findings_agree(found),
    ensures
        forall|x: Seq<char>| #[trigger]
            scan_list(found, cache).contains(x) ==> unfinished.contains(x),
        forall|i: int|
            0 <= i < found.len() && unfinished.contains((#[trigger] found[i]).0@)
                && !is_condemned(bad, found[i].0@) && plugins_of(all, found[i].0@).len() == 0
                ==> scan_list(found, cache).contains(found[i].0@),
        unfinished.len() == 0 ==> scan_list(found, cache).len() == 0,
{
    lemma_next_boot(cache, all, bad, found, unfinished, found.len() as int);
    assert(found.take(found.len() as int) =~= found);
    if unfinished.len() == 0 && scan_list(found, cache).len() > 0 {
        assert(scan_list(found, cache).contains(scan_list(found, cache)[0]));
    }
}

/// What is kept of a scan is kept of the items that it brought to an end: all of them, in their
/// order, and no others.
pub proof fn only_what_has_ended_is_kept(found: Seq<Found>, unfinished: Seq<Seq<char>>)
    ensures
        ended(found, unfinished) == found.filter(|x: Found| !unfinished.contains(x.0@)),
    decreases found.len(),
{
    reveal(Seq::filter);
    if found.len() > 0 {
        only_what_has_ended_is_kept(found.drop_last(), unfinished);
    }
}

} // verus!
