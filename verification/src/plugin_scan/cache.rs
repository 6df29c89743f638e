//! The results of earlier scans, and the blocklist.
//!
//! A boot rescans only what has changed. A new scanner version drops everything; a changed
//! file is scanned anew, also if it was condemned; an item that is no longer found is
//! forgotten. AudioUnits have no file: they are kept for as long as they are found.

use crate::plugin::{Platform, PluginInfo, PluginRef};
use crate::plugin_scan::protocol::au_chars;
use crate::plugin_scan::session::{BlockReason, BlockedItem};
use crate::text;
use vstd::prelude::*;
use vstd::string::*;

verus! {

/// Version of the cache, and of what a scan extracts.
pub const SCANNER_ABI: u32 = 2;

pub const CACHE_FILENAME: &'static str = "plugin-scan-cache-v1.json";

/// State of a file by which a change is told.
#[derive(Clone, Copy, Debug, PartialEq, Eq, Structural)]
pub struct FileFingerprint {
    /// Seconds since the epoch.
    pub mtime: i64,
    pub size: u64,
}

/// The plugins of an item that was scanned to its end. It may have none.
#[derive(Debug, PartialEq, Eq)]
pub struct CacheEntry {
    pub item: String,
    pub fingerprint: Option<FileFingerprint>,
    pub plugins: Vec<PluginInfo>,
}

/// A condemned item, as it is kept.
#[derive(Debug, PartialEq, Eq)]
pub struct BlockedRecord {
    pub item: String,
    pub fingerprint: Option<FileFingerprint>,
    pub reason: BlockReason,
}

#[derive(Debug)]
pub struct CacheFile {
    pub scanner_abi: u32,
    pub entries: Vec<CacheEntry>,
    pub blocked: Vec<BlockedRecord>,
}

impl CacheFile {
    /// A cache that holds nothing, of no scanner's version.
    pub fn empty() -> (r: CacheFile)
        ensures
            r.scanner_abi == 0,
            r.entries@.len() == 0,
            r.blocked@.len() == 0,
    {
        CacheFile { scanner_abi: 0, entries: Vec::new(), blocked: Vec::new() }
    }
}

/// What the file system says of a file.
#[derive(Clone, Copy, Debug, PartialEq, Eq, Structural)]
pub struct FileMeta {
    /// Seconds since the epoch, below zero before it; nothing where that is not known.
    pub modified: Option<i64>,
    pub size: u64,
}

/// The fingerprint of an item, of whose file `meta` is known. AudioUnits have none, nor has
/// a file that cannot be read or whose age is unknown. What is older than the epoch counts
/// as of the epoch.
pub fn fingerprint(item: &str, meta: Option<FileMeta>) -> (r: Option<FileFingerprint>)
    ensures
        r == if "au:"@.is_prefix_of(item@) {
            None
        } else {
            match meta {
                Some(FileMeta { modified: Some(m), size }) => Some(
                    FileFingerprint {
                        mtime: if m < 0 {
                            0
                        } else {
                            m
                        },
                        size,
                    },
                ),
                _ => None,
            }
        },
{
    if text::starts_with(item, "au:") {
        return None;
    }
    match meta {
        Some(f) => match f.modified {
            Some(m) => Some(
                FileFingerprint {
                    mtime: if m < 0 {
                        0
                    } else {
                        m
                    },
                    size: f.size,
                },
            ),
            None => None,
        },
        None => None,
    }
}

/// Are both absent, or both present and equal?
pub fn fingerprints_match(a: Option<FileFingerprint>, b: Option<FileFingerprint>) -> (r: bool)
    ensures
        r == (a == b),
{
    match (a, b) {
        (None, None) => true,
        (Some(x), Some(y)) => x == y,
        _ => false,
    }
}

/// An item that was found, with the present state of its file.
pub type Found = (String, Option<FileFingerprint>);

/// What becomes of the items that were found.
#[derive(Debug)]
pub struct Plan {
    /// Items for the worker.
    pub to_scan: Vec<String>,
    /// Plugins that the cache still answers for.
    pub reused: Vec<PluginInfo>,
    /// Condemned items that stay condemned.
    pub retained_blocked: Vec<BlockedItem>,
}

/// Index of the first entry for `item`, or the number of entries.
pub open spec fn entry_index(entries: Seq<CacheEntry>, item: Seq<char>) -> int
    decreases entries.len(),
{
    if entries.len() == 0 {
        0
    } else if entries[0].item@ == item {
        0
    } else {
        1 + entry_index(entries.skip(1), item)
    }
}

/// Index of the first condemnation of `item`, or the number of them.
pub open spec fn blocked_index(blocked: Seq<BlockedRecord>, item: Seq<char>) -> int
    decreases blocked.len(),
{
    if blocked.len() == 0 {
        0
    } else if blocked[0].item@ == item {
        0
    } else {
        1 + blocked_index(blocked.skip(1), item)
    }
}

/// What becomes of one item.
pub enum Verdict {
    /// The cache answers, with the entry of that index.
    Reuse(int),
    /// It stays condemned, by the record of that index.
    Blocked(int),
    Scan,
}

/// What becomes of `item`, whose file is in the state `fp`.
pub open spec fn verdict(item: Seq<char>, fp: Option<FileFingerprint>, cache: CacheFile) -> Verdict {
    let e = entry_index(cache.entries@, item);
    let b = blocked_index(cache.blocked@, item);
    if cache.scanner_abi != SCANNER_ABI {
        Verdict::Scan
    } else if e < cache.entries@.len() && cache.entries@[e].fingerprint == fp {
        Verdict::Reuse(e)
    } else if b < cache.blocked@.len() && cache.blocked@[b].fingerprint == fp {
        Verdict::Blocked(b)
    } else {
        Verdict::Scan
    }
}

/// The items to scan, in the order in which they were found.
pub open spec fn scan_list(found: Seq<Found>, cache: CacheFile) -> Seq<Seq<char>>
    decreases found.len(),
{
    if found.len() == 0 {
        Seq::empty()
    } else {
        let rest = scan_list(found.drop_last(), cache);
        match verdict(found.last().0@, found.last().1, cache) {
            Verdict::Scan => rest.push(found.last().0@),
            _ => rest,
        }
    }
}

/// The plugins that are reused.
pub open spec fn reuse_list(found: Seq<Found>, cache: CacheFile) -> Seq<PluginInfo>
    decreases found.len(),
{
    if found.len() == 0 {
        Seq::empty()
    } else {
        let rest = reuse_list(found.drop_last(), cache);
        match verdict(found.last().0@, found.last().1, cache) {
            Verdict::Reuse(e) => rest + cache.entries@[e].plugins@,
            _ => rest,
        }
    }
}

/// The items that stay condemned, each with its reason.
pub open spec fn blocked_list(found: Seq<Found>, cache: CacheFile) -> Seq<(Seq<char>, BlockReason)>
    decreases found.len(),
{
    if found.len() == 0 {
        Seq::empty()
    } else {
        let rest = blocked_list(found.drop_last(), cache);
        match verdict(found.last().0@, found.last().1, cache) {
            Verdict::Blocked(b) => rest.push((found.last().0@, cache.blocked@[b].reason)),
            _ => rest,
        }
    }
}

pub open spec fn item_list(items: Seq<String>) -> Seq<Seq<char>> {
    crate::plugin_scan::session::item_chars(items)
}

/// Condemned items by their characters.
pub open spec fn condemned(items: Seq<BlockedItem>) -> Seq<(Seq<char>, BlockReason)> {
    Seq::new(items.len(), |i: int| (items[i].item@, items[i].reason))
}

proof fn lemma_entry_index(entries: Seq<CacheEntry>, item: Seq<char>, i: int)
    requires
        0 <= i <= entries.len(),
        forall|k: int| 0 <= k < i ==> entries[k].item@ != item,
        i < entries.len() ==> entries[i].item@ == item,
    ensures
        entry_index(entries, item) == i,
    decreases entries.len(),
{
    if entries.len() > 0 && i > 0 {
        lemma_entry_index(entries.skip(1), item, i - 1);
    }
}

proof fn lemma_blocked_index(blocked: Seq<BlockedRecord>, item: Seq<char>, i: int)
    requires
        0 <= i <= blocked.len(),
        forall|k: int| 0 <= k < i ==> blocked[k].item@ != item,
        i < blocked.len() ==> blocked[i].item@ == item,
    ensures
        blocked_index(blocked, item) == i,
    decreases blocked.len(),
{
    if blocked.len() > 0 && i > 0 {
        lemma_blocked_index(blocked.skip(1), item, i - 1);
    }
}

fn find_entry(entries: &Vec<CacheEntry>, item: &str) -> (r: usize)
    ensures
        r == entry_index(entries@, item@),
        r <= entries@.len(),
{
    let mut i: usize = 0;
    while i < entries.len() && !text::same(entries[i].item.as_str(), item)
        invariant
            i <= entries@.len(),
            forall|k: int| 0 <= k < i ==> entries@[k].item@ != item@,
        decreases entries@.len() - i,
    {
        i = i + 1;
    }
    proof {
        lemma_entry_index(entries@, item@, i as int);
    }
    i
}

fn find_blocked(blocked: &Vec<BlockedRecord>, item: &str) -> (r: usize)
    ensures
        r == blocked_index(blocked@, item@),
        r <= blocked@.len(),
{
    let mut i: usize = 0;
    while i < blocked.len() && !text::same(blocked[i].item.as_str(), item)
        invariant
            i <= blocked@.len(),
            forall|k: int| 0 <= k < i ==> blocked@[k].item@ != item@,
        decreases blocked@.len() - i,
    {
        i = i + 1;
    }
    proof {
        lemma_blocked_index(blocked@, item@, i as int);
    }
    i
}

/// Decides what has to be scanned.
pub fn reconcile(discovered: &[Found], cache: &CacheFile) -> (plan: Plan)
    ensures
        item_list(plan.to_scan@) == scan_list(discovered@, *cache),
        plan.reused@ == reuse_list(discovered@, *cache),
        condemned(plan.retained_blocked@) == blocked_list(discovered@, *cache),
{
    let mut to_scan: Vec<String> = Vec::new();
    let mut reused: Vec<PluginInfo> = Vec::new();
    let mut retained: Vec<BlockedItem> = Vec::new();
    let mut i: usize = 0;
    proof {
        assert(discovered@.take(0) =~= Seq::empty());
        assert(item_list(to_scan@) =~= Seq::empty());
        assert(condemned(retained@) =~= Seq::empty());
    }
    while i < discovered.len()
        invariant
            i <= discovered@.len(),
            item_list(to_scan@) == scan_list(discovered@.take(i as int), *cache),
            reused@ == reuse_list(discovered@.take(i as int), *cache),
            condemned(retained@) == blocked_list(discovered@.take(i as int), *cache),
        decreases discovered@.len() - i,
    {
        let item = &discovered[i].0;
        let fp = discovered[i].1;
        let ghost v = verdict(item@, fp, *cache);
        proof {
            assert(discovered@.take(i + 1).drop_last() =~= discovered@.take(i as int));
            assert(discovered@.take(i + 1).last() == discovered@[i as int]);
        }
        let e: usize = find_entry(&cache.entries, item.as_str());
        let b: usize = find_blocked(&cache.blocked, item.as_str());
        if cache.scanner_abi == SCANNER_ABI && e < cache.entries.len() && fingerprints_match(
            cache.entries[e].fingerprint,
            fp,
        ) {
            let mut more = crate::plugin::duplicate_plugins(&cache.entries[e].plugins);
            reused.append(&mut more);
        } else if cache.scanner_abi == SCANNER_ABI && b < cache.blocked.len()
            && fingerprints_match(cache.blocked[b].fingerprint, fp) {
            let ghost before = retained@;
            retained.push(BlockedItem { item: item.clone(), reason: cache.blocked[b].reason });
            assert(condemned(retained@) =~= condemned(before).push(
                (item@, cache.blocked@[b as int].reason),
            ));
        } else {
            let ghost before = to_scan@;
            to_scan.push(item.clone());
            assert(item_list(to_scan@) =~= item_list(before).push(item@));
        }
        i = i + 1;
    }
    assert(discovered@.take(i as int) =~= discovered@);
    Plan { to_scan, reused, retained_blocked: retained }
}

/// The item that a plugin was found in.
pub open spec fn origin(p: PluginInfo) -> Seq<char> {
    match p.plugin_ref {
        PluginRef::Vst3 { path, .. } => path@,
        PluginRef::Au { au_type, subtype, manufacturer } => au_chars(
            au_type@,
            subtype@,
            manufacturer@,
        ),
    }
}

pub fn item_of(p: &PluginInfo) -> (r: String)
    ensures
        r@ == origin(*p),
{
    match &p.plugin_ref {
        PluginRef::Vst3 { path, .. } => path.clone(),
        PluginRef::Au { au_type, subtype, manufacturer } => {
            let mut r = text::joined("au:", au_type.as_str());
            r.append("/");
            r.append(subtype.as_str());
            r.append("/");
            r.append(manufacturer.as_str());
            r
        },
    }
}

/// The plugins among `all` that were found in `item`, in their order.
pub open spec fn plugins_of(all: Seq<PluginInfo>, item: Seq<char>) -> Seq<PluginInfo>
    decreases all.len(),
{
    if all.len() == 0 {
        Seq::empty()
    } else {
        let rest = plugins_of(all.drop_last(), item);
        if origin(all.last()) == item {
            rest.push(all.last())
        } else {
            rest
        }
    }
}

/// The state of the file of `item`. Of several findings the last one counts.
pub open spec fn fingerprint_of(found: Seq<Found>, item: Seq<char>) -> Option<FileFingerprint>
    decreases found.len(),
{
    if found.len() == 0 {
        None
    } else if found.last().0@ == item {
        found.last().1
    } else {
        fingerprint_of(found.drop_last(), item)
    }
}

fn lookup_fingerprint(found: &[Found], item: &str) -> (r: Option<FileFingerprint>)
    ensures
        r == fingerprint_of(found@, item@),
{
    let mut i: usize = found.len();
    assert(found@.take(i as int) =~= found@);
    while i > 0
        invariant
            i <= found@.len(),
            fingerprint_of(found@, item@) == fingerprint_of(found@.take(i as int), item@),
        decreases i,
    {
        proof {
            assert(found@.take(i as int).drop_last() =~= found@.take(i - 1));
            assert(found@.take(i as int).last() == found@[i - 1]);
        }
        if text::same(found[i - 1].0.as_str(), item) {
            return found[i - 1].1;
        }
        i = i - 1;
    }
    None
}

/// Entries in dictionary order of their items, no item twice.
pub open spec fn entries_sorted(entries: Seq<CacheEntry>) -> bool {
    forall|i: int, j: int|
        0 <= i < j < entries.len() ==> text::precedes(
            (#[trigger] entries[i]).item@,
            (#[trigger] entries[j]).item@,
        )
}

pub open spec fn records_sorted(blocked: Seq<BlockedRecord>) -> bool {
    forall|i: int, j: int|
        0 <= i < j < blocked.len() ==> text::precedes(
            (#[trigger] blocked[i]).item@,
            (#[trigger] blocked[j]).item@,
        )
}

/// The entries hold the plugins of `all`, each under the item that it was found in.
pub open spec fn plugins_filed(
    entries: Seq<CacheEntry>,
    all: Seq<PluginInfo>,
    found: Seq<Found>,
) -> bool {
    &&& forall|i: int|
        0 <= i < entries.len() ==> {
            &&& (#[trigger] entries[i]).plugins@ == plugins_of(all, entries[i].item@)
            &&& entries[i].fingerprint == fingerprint_of(found, entries[i].item@)
        }
    &&& forall|p: int|
        0 <= p < all.len() ==> entry_index(entries, #[trigger] origin(all[p])) < entries.len()
}

/// Is the item among those that were found?
pub open spec fn is_found(found: Seq<Found>, item: Seq<char>) -> bool {
    exists|i: int| 0 <= i < found.len() && (#[trigger] found[i]).0@ == item
}

/// Is the item among the condemned ones?
pub open spec fn is_condemned(bad: Seq<BlockedItem>, item: Seq<char>) -> bool {
    first_condemned(bad, item) < bad.len()
}

/// The entries hold the plugins of `all`, each under the item that it was found in. Every
/// item of `found` that is not condemned has an entry, also without a plugin, and no other
/// item has one without a plugin.
pub open spec fn entries_hold(
    entries: Seq<CacheEntry>,
    all: Seq<PluginInfo>,
    bad: Seq<BlockedItem>,
    found: Seq<Found>,
) -> bool {
    &&& plugins_filed(entries, all, found)
    &&& forall|i: int|
        0 <= i < found.len() ==> is_condemned(bad, (#[trigger] found[i]).0@) || entry_index(
            entries,
            found[i].0@,
        ) < entries.len()
    &&& forall|i: int|
        0 <= i < entries.len() ==> (#[trigger] entries[i]).plugins@.len() > 0 || is_found(
            found,
            entries[i].item@,
        ) && !is_condemned(bad, entries[i].item@)
}

/// The first condemnation of `item` among `all`.
pub open spec fn first_condemned(all: Seq<BlockedItem>, item: Seq<char>) -> int
    decreases all.len(),
{
    if all.len() == 0 {
        0
    } else if all[0].item@ == item {
        0
    } else {
        1 + first_condemned(all.skip(1), item)
    }
}

/// The records hold the condemned items of `all`, each with the reason that was given
/// first.
pub open spec fn records_hold(
    records: Seq<BlockedRecord>,
    all: Seq<BlockedItem>,
    found: Seq<Found>,
) -> bool {
    &&& forall|i: int|
        0 <= i < records.len() ==> {
            let f = first_condemned(all, (#[trigger] records[i]).item@);
            &&& f < all.len()
            &&& records[i].reason == all[f].reason
            &&& records[i].fingerprint == fingerprint_of(found, records[i].item@)
        }
    &&& forall|p: int|
        0 <= p < all.len() ==> blocked_index(records, (#[trigger] all[p]).item@) < records.len()
}

proof fn lemma_entry_found(entries: Seq<CacheEntry>, item: Seq<char>)
    ensures
        0 <= entry_index(entries, item) <= entries.len(),
        entry_index(entries, item) < entries.len() ==> entries[entry_index(entries, item)].item@
            == item,
        entry_index(entries, item) == entries.len() ==> forall|k: int|
            0 <= k < entries.len() ==> (#[trigger] entries[k]).item@ != item,
    decreases entries.len(),
{
    if entries.len() > 0 && entries[0].item@ != item {
        lemma_entry_found(entries.skip(1), item);
        if entry_index(entries, item) == entries.len() {
            assert forall|k: int| 0 <= k < entries.len() implies (#[trigger] entries[k]).item@
                != item by {
                if k > 0 {
                    assert(entries.skip(1)[k - 1] == entries[k]);
                }
            }
        }
    }
}

proof fn lemma_blocked_found(blocked: Seq<BlockedRecord>, item: Seq<char>)
    ensures
        0 <= blocked_index(blocked, item) <= blocked.len(),
        blocked_index(blocked, item) < blocked.len() ==> blocked[blocked_index(
            blocked,
            item,
        )].item@ == item,
        blocked_index(blocked, item) == blocked.len() ==> forall|k: int|
            0 <= k < blocked.len() ==> (#[trigger] blocked[k]).item@ != item,
    decreases blocked.len(),
{
    if blocked.len() > 0 && blocked[0].item@ != item {
        lemma_blocked_found(blocked.skip(1), item);
        if blocked_index(blocked, item) == blocked.len() {
            assert forall|k: int| 0 <= k < blocked.len() implies (#[trigger] blocked[k]).item@
                != item by {
                if k > 0 {
                    assert(blocked.skip(1)[k - 1] == blocked[k]);
                }
            }
        }
    }
}

/// Position at which `item` stands in the sorted list, or at which it belongs.
fn position(entries: &Vec<CacheEntry>, item: &str) -> (r: usize)
    requires
        entries_sorted(entries@),
    ensures
        r <= entries@.len(),
        forall|k: int| 0 <= k < r ==> text::precedes((#[trigger] entries@[k]).item@, item@),
        forall|k: int|
            r <= k < entries@.len() ==> !text::precedes((#[trigger] entries@[k]).item@, item@),
{
    let mut i: usize = 0;
    while i < entries.len() && text::less(entries[i].item.as_str(), item)
        invariant
            i <= entries@.len(),
            forall|k: int| 0 <= k < i ==> text::precedes((#[trigger] entries@[k]).item@, item@),
        decreases entries@.len() - i,
    {
        i = i + 1;
    }
    assert forall|k: int| i <= k < entries@.len() implies !text::precedes(
        (#[trigger] entries@[k]).item@,
        item@,
    ) by {
        if k > i && text::precedes(entries@[k].item@, item@) {
            text::lemma_precedes_transitive(entries@[i as int].item@, entries@[k].item@, item@);
        }
    }
    i
}

fn record_position(records: &Vec<BlockedRecord>, item: &str) -> (r: usize)
    requires
        records_sorted(records@),
    ensures
        r <= records@.len(),
        forall|k: int| 0 <= k < r ==> text::precedes((#[trigger] records@[k]).item@, item@),
        forall|k: int|
            r <= k < records@.len() ==> !text::precedes((#[trigger] records@[k]).item@, item@),
{
    let mut i: usize = 0;
    while i < records.len() && text::less(records[i].item.as_str(), item)
        invariant
            i <= records@.len(),
            forall|k: int| 0 <= k < i ==> text::precedes((#[trigger] records@[k]).item@, item@),
        decreases records@.len() - i,
    {
        i = i + 1;
    }
    assert forall|k: int| i <= k < records@.len() implies !text::precedes(
        (#[trigger] records@[k]).item@,
        item@,
    ) by {
        if k > i && text::precedes(records@[k].item@, item@) {
            text::lemma_precedes_transitive(records@[i as int].item@, records@[k].item@, item@);
        }
    }
    i
}

proof fn lemma_no_plugins(all: Seq<PluginInfo>, item: Seq<char>)
    requires
        forall|p: int| 0 <= p < all.len() ==> origin(#[trigger] all[p]) != item,
    ensures
        plugins_of(all, item) == Seq::<PluginInfo>::empty(),
    decreases all.len(),
{
    if all.len() > 0 {
        assert forall|p: int| 0 <= p < all.drop_last().len() implies origin(
            #[trigger] all.drop_last()[p],
        ) != item by {
            assert(all.drop_last()[p] == all[p]);
        }
        lemma_no_plugins(all.drop_last(), item);
        assert(origin(all[all.len() - 1]) != item);
    }
}

/// Every entry has a plugin.
spec fn none_is_empty(entries: Seq<CacheEntry>) -> bool {
    forall|i: int| 0 <= i < entries.len() ==> (#[trigger] entries[i]).plugins@.len() > 0
}

/// Files one plugin under its item.
fn file_plugin(
    entries: &mut Vec<CacheEntry>,
    p: &PluginInfo,
    found: &[Found],
    Ghost(all): Ghost<Seq<PluginInfo>>,
)
    requires
        entries_sorted(old(entries)@),
        plugins_filed(old(entries)@, all, found@),
        none_is_empty(old(entries)@),
    ensures
        entries_sorted(final(entries)@),
        plugins_filed(final(entries)@, all.push(*p), found@),
        none_is_empty(final(entries)@),
{
    let item = item_of(p);
    let at: usize = position(entries, item.as_str());
    let ghost before = entries@;
    let ghost more = all.push(*p);
    let known = at < entries.len() && text::same(entries[at].item.as_str(), item.as_str());
    proof {
        assert(more.drop_last() =~= all);
        assert(more.last() == *p);
        lemma_entry_found(before, item@);
        if !known {
            assert forall|k: int| 0 <= k < before.len() implies (#[trigger] before[k]).item@
                != item@ by {
                text::lemma_precedes_total(before[k].item@, item@);
                if k >= at {
                    text::lemma_precedes_total(before[at as int].item@, item@);
                    if k > at {
                        if before[k].item@ == item@ {
                            assert(text::precedes(before[at as int].item@, before[k].item@));
                        }
                    }
                }
            }
        }
    }
    if known {
        let mut e = entries.remove(at);
        let ghost shown = e.item;
        e.plugins.push(p.duplicate());
        entries.insert(at, e);
        proof {
            let after = entries@;
            assert forall|k: int| 0 <= k < after.len() implies (#[trigger] after[k]).item == before[k].item
                && after[k].fingerprint == before[k].fingerprint by {
                assert(k == at ==> shown == before[k].item);
            }
            assert(after.len() == before.len());
            assert forall|i: int| 0 <= i < after.len() implies {
                &&& (#[trigger] after[i]).plugins@ == plugins_of(more, after[i].item@)
                &&& after[i].fingerprint == fingerprint_of(found@, after[i].item@)
            } by {
                assert(before[i].plugins@ == plugins_of(all, before[i].item@));
                if i != at {
                    assert(after[i] == before[i]);
                    if i < at {
                        text::lemma_precedes_total(before[i].item@, item@);
                    } else {
                        assert(text::precedes(before[at as int].item@, before[i].item@));
                        text::lemma_precedes_total(before[at as int].item@, before[i].item@);
                    }
                }
            }
            assert forall|q: int| 0 <= q < more.len() implies entry_index(
                after,
                #[trigger] origin(more[q]),
            ) < after.len() by {
                let x = origin(more[q]);
                lemma_entry_found(after, x);
                if q < all.len() {
                    assert(more[q] == all[q]);
                    assert(entry_index(before, origin(all[q])) < before.len());
                    lemma_entry_found(before, x);
                    assert(after[entry_index(before, x)].item@ == x);
                } else {
                    assert(after[at as int].item@ == x);
                }
            }
        }
    } else {
        let mut plugins: Vec<PluginInfo> = Vec::new();
        plugins.push(p.duplicate());
        let fingerprint = lookup_fingerprint(found, item.as_str());
        entries.insert(at, CacheEntry { item, fingerprint, plugins });
        proof {
            let after = entries@;
            let fresh = after[at as int];
            assert forall|q: int| 0 <= q < all.len() implies origin(#[trigger] all[q]) != item@ by {
                if origin(all[q]) == item@ {
                    assert(entry_index(before, origin(all[q])) < before.len());
                }
            }
            lemma_no_plugins(all, item@);
            assert(fresh.plugins@ =~= plugins_of(more, item@));
            assert forall|i: int, j: int| 0 <= i < j < after.len() implies text::precedes(
                (#[trigger] after[i]).item@,
                (#[trigger] after[j]).item@,
            ) by {
                let bi = if i < at {
                    i
                } else {
                    i - 1
                };
                let bj = if j < at {
                    j
                } else {
                    j - 1
                };
                if i == at {
                    text::lemma_precedes_total(before[bj].item@, item@);
                    assert(!text::precedes(before[bj].item@, item@));
                } else if j == at {
                    assert(text::precedes(before[bi].item@, item@));
                }
            }
            assert forall|i: int| 0 <= i < after.len() implies {
                &&& (#[trigger] after[i]).plugins@ == plugins_of(more, after[i].item@)
                &&& after[i].fingerprint == fingerprint_of(found@, after[i].item@)
            } by {
                if i != at {
                    let b = if i < at {
                        i
                    } else {
                        i - 1
                    };
                    assert(after[i] == before[b]);
                    assert(before[b].plugins@ == plugins_of(all, before[b].item@));
                }
            }
            assert forall|q: int| 0 <= q < more.len() implies entry_index(
                after,
                #[trigger] origin(more[q]),
            ) < after.len() by {
                let x = origin(more[q]);
                lemma_entry_found(after, x);
                if q < all.len() {
                    assert(more[q] == all[q]);
                    lemma_entry_found(before, x);
                    let e = entry_index(before, x);
                    assert(entry_index(before, origin(all[q])) < before.len());
                    if e < at {
                        assert(after[e].item@ == x);
                    } else {
                        assert(after[e + 1].item@ == x);
                    }
                } else {
                    assert(after[at as int].item@ == x);
                }
            }
        }
    }
}

proof fn lemma_first_condemned(all: Seq<BlockedItem>, more: Seq<BlockedItem>, item: Seq<char>)
    requires
        more.len() == all.len() + 1,
        more.drop_last() == all,
    ensures
        0 <= first_condemned(all, item) <= all.len(),
        first_condemned(all, item) < all.len() ==> first_condemned(more, item) == first_condemned(
            all,
            item,
        ) && all[first_condemned(all, item)].item@ == item,
        first_condemned(all, item) == all.len() ==> first_condemned(more, item) == if more.last().item@
            == item {
            all.len() as int
        } else {
            more.len() as int
        },
        first_condemned(all, item) == all.len() ==> forall|k: int|
            0 <= k < all.len() ==> (#[trigger] all[k]).item@ != item,
    decreases all.len(),
{
    if all.len() > 0 {
        assert(more[0] == all[0]);
        assert(more.skip(1).drop_last() =~= all.skip(1));
        lemma_first_condemned(all.skip(1), more.skip(1), item);
        assert(more.skip(1).last() == more.last());
        if all[0].item@ != item {
            let f = first_condemned(all.skip(1), item);
            if f == all.skip(1).len() {
                assert forall|k: int| 0 <= k < all.len() implies (#[trigger] all[k]).item@
                    != item by {
                    if k > 0 {
                        assert(all.skip(1)[k - 1] == all[k]);
                    }
                }
            }
        }
    } else {
        reveal_with_fuel(first_condemned, 2);
    }
}

/// Files one condemned item, unless it is filed already.
fn file_blocked(
    records: &mut Vec<BlockedRecord>,
    b: &BlockedItem,
    found: &[Found],
    Ghost(all): Ghost<Seq<BlockedItem>>,
)
    requires
        records_sorted(old(records)@),
        records_hold(old(records)@, all, found@),
    ensures
        records_sorted(final(records)@),
        records_hold(final(records)@, all.push(*b), found@),
{
    let at: usize = record_position(records, b.item.as_str());
    let ghost before = records@;
    let ghost more = all.push(*b);
    let ghost item = b.item@;
    let known = at < records.len() && text::same(records[at].item.as_str(), b.item.as_str());
    proof {
        assert(more.drop_last() =~= all);
        assert(more.last() == *b);
        assert forall|x: Seq<char>| #[trigger] first_condemned(more, x) >= 0 by {
            lemma_first_condemned(all, more, x);
        }
        if !known {
            assert forall|k: int| 0 <= k < before.len() implies (#[trigger] before[k]).item@
                != item by {
                text::lemma_precedes_total(before[k].item@, item);
                if k >= at {
                    text::lemma_precedes_total(before[at as int].item@, item);
                    if k > at {
                        if before[k].item@ == item {
                            assert(text::precedes(before[at as int].item@, before[k].item@));
                        }
                    }
                }
            }
        }
    }
    if !known {
        let fingerprint = lookup_fingerprint(found, b.item.as_str());
        records.insert(at, BlockedRecord { item: b.item.clone(), fingerprint, reason: b.reason });
    }
    proof {
        let after = records@;
        if !known {
            assert forall|i: int, j: int| 0 <= i < j < after.len() implies text::precedes(
                (#[trigger] after[i]).item@,
                (#[trigger] after[j]).item@,
            ) by {
                let bi = if i < at {
                    i
                } else {
                    i - 1
                };
                let bj = if j < at {
                    j
                } else {
                    j - 1
                };
                if i == at {
                    text::lemma_precedes_total(before[bj].item@, item);
                    assert(!text::precedes(before[bj].item@, item));
                } else if j == at {
                    assert(text::precedes(before[bi].item@, item));
                }
            }
        }
        assert forall|i: int| 0 <= i < after.len() implies {
            let f = first_condemned(more, (#[trigger] after[i]).item@);
            &&& f < more.len()
            &&& after[i].reason == more[f].reason
            &&& after[i].fingerprint == fingerprint_of(found@, after[i].item@)
        } by {
            lemma_first_condemned(all, more, after[i].item@);
            if known {
                assert(after[i] == before[i]);
            } else if i < at {
                assert(after[i] == before[i]);
            } else if i > at {
                assert(after[i] == before[i - 1]);
            } else {
                // A new item: it was condemned by nobody before.
                let f = first_condemned(all, item);
                if f < all.len() {
                    assert(blocked_index(before, all[f].item@) < before.len());
                    lemma_blocked_found(before, item);
                }
            }
        }
        assert forall|p: int| 0 <= p < more.len() implies blocked_index(
            after,
            (#[trigger] more[p]).item@,
        ) < after.len() by {
            let x = more[p].item@;
            lemma_blocked_found(after, x);
            if p < all.len() {
                assert(more[p] == all[p]);
                lemma_blocked_found(before, x);
                let e = blocked_index(before, x);
                assert(blocked_index(before, all[p].item@) < before.len());
                if known || e < at {
                    assert(after[e].item@ == x);
                } else {
                    assert(after[e + 1].item@ == x);
                }
            } else {
                assert(after[at as int].item@ == x);
            }
        }
    }
}

/// Of the first `n` items of `found` every one that is not condemned has its entry.
spec fn items_filed(
    entries: Seq<CacheEntry>,
    all: Seq<PluginInfo>,
    bad: Seq<BlockedItem>,
    found: Seq<Found>,
    n: int,
) -> bool {
    &&& plugins_filed(entries, all, found)
    &&& forall|i: int|
        0 <= i < n ==> is_condemned(bad, (#[trigger] found[i]).0@) || entry_index(
            entries,
            found[i].0@,
        ) < entries.len()
    &&& forall|i: int|
        0 <= i < entries.len() ==> (#[trigger] entries[i]).plugins@.len() > 0 || is_found(
            found,
            entries[i].item@,
        ) && !is_condemned(bad, entries[i].item@)
}

proof fn lemma_condemned(bad: Seq<BlockedItem>, item: Seq<char>)
    ensures
        0 <= first_condemned(bad, item) <= bad.len(),
        is_condemned(bad, item) ==> bad[first_condemned(bad, item)].item@ == item,
        !is_condemned(bad, item) ==> forall|k: int|
            0 <= k < bad.len() ==> (#[trigger] bad[k]).item@ != item,
    decreases bad.len(),
{
    if bad.len() > 0 && bad[0].item@ != item {
        lemma_condemned(bad.skip(1), item);
        if !is_condemned(bad, item) {
            assert forall|k: int| 0 <= k < bad.len() implies (#[trigger] bad[k]).item@ != item by {
                if k > 0 {
                    assert(bad.skip(1)[k - 1] == bad[k]);
                }
            }
        }
    }
}

/// The records tell who is condemned.
proof fn lemma_records_tell(
    records: Seq<BlockedRecord>,
    bad: Seq<BlockedItem>,
    found: Seq<Found>,
    item: Seq<char>,
)
    requires
        records_hold(records, bad, found),
    ensures
        blocked_index(records, item) < records.len() <==> is_condemned(bad, item),
{
    lemma_blocked_found(records, item);
    lemma_condemned(bad, item);
    let b = blocked_index(records, item);
    if b < records.len() {
        assert(records[b].item@ == item);
    }
    if is_condemned(bad, item) {
        let f = first_condemned(bad, item);
        assert(blocked_index(records, bad[f].item@) < records.len());
    }
}

/// Files an item that was found, unless it is condemned or filed already. It has no plugin
/// then.
fn file_item(
    entries: &mut Vec<CacheEntry>,
    n: usize,
    blocked: &Vec<BlockedRecord>,
    found: &[Found],
    Ghost(all): Ghost<Seq<PluginInfo>>,
    Ghost(bad): Ghost<Seq<BlockedItem>>,
)
    requires
        n < found@.len(),
        entries_sorted(old(entries)@),
        records_hold(blocked@, bad, found@),
        items_filed(old(entries)@, all, bad, found@, n as int),
    ensures
        entries_sorted(final(entries)@),
        items_filed(final(entries)@, all, bad, found@, n + 1),
{
    let item = found[n].0.as_str();
    let ghost before = entries@;
    let listed: usize = find_blocked(blocked, item);
    proof {
        lemma_records_tell(blocked@, bad, found@, item@);
    }
    if listed < blocked.len() {
        return;
    }
    let at: usize = position(entries, item);
    let known = at < entries.len() && text::same(entries[at].item.as_str(), item);
    if known {
        proof {
            lemma_entry_found(before, item@);
            assert(before[at as int].item@ == item@);
        }
        return;
    }
    proof {
        lemma_entry_found(before, item@);
        assert forall|k: int| 0 <= k < before.len() implies (#[trigger] before[k]).item@
            != item@ by {
            text::lemma_precedes_total(before[k].item@, item@);
            if k >= at {
                text::lemma_precedes_total(before[at as int].item@, item@);
                if k > at {
                    if before[k].item@ == item@ {
                        assert(text::precedes(before[at as int].item@, before[k].item@));
                    }
                }
            }
        }
        assert forall|q: int| 0 <= q < all.len() implies origin(#[trigger] all[q]) != item@ by {
            if origin(all[q]) == item@ {
                assert(entry_index(before, origin(all[q])) < before.len());
            }
        }
        lemma_no_plugins(all, item@);
    }
    let fingerprint = lookup_fingerprint(found, item);
    entries.insert(at, CacheEntry { item: found[n].0.clone(), fingerprint, plugins: Vec::new() });
    proof {
        let after = entries@;
        assert(after[at as int].plugins@ =~= plugins_of(all, item@));
        assert(after[at as int].item@ == item@);
        assert(found@[n as int].0@ == item@);
        assert forall|i: int, j: int| 0 <= i < j < after.len() implies text::precedes(
            (#[trigger] after[i]).item@,
            (#[trigger] after[j]).item@,
        ) by {
            let bi = if i < at {
                i
            } else {
                i - 1
            };
            let bj = if j < at {
                j
            } else {
                j - 1
            };
            if i == at {
                text::lemma_precedes_total(before[bj].item@, item@);
                assert(!text::precedes(before[bj].item@, item@));
            } else if j == at {
                assert(text::precedes(before[bi].item@, item@));
            }
        }
        assert forall|i: int| 0 <= i < after.len() implies {
            &&& (#[trigger] after[i]).plugins@ == plugins_of(all, after[i].item@)
            &&& after[i].fingerprint == fingerprint_of(found@, after[i].item@)
            &&& after[i].plugins@.len() > 0 || is_found(found@, after[i].item@) && !is_condemned(
                bad,
                after[i].item@,
            )
        } by {
            if i != at {
                let b = if i < at {
                    i
                } else {
                    i - 1
                };
                assert(after[i] == before[b]);
            }
        }
        assert forall|x: Seq<char>| entry_index(before, x) < before.len() || x
            == item@ implies #[trigger] entry_index(after, x) < after.len() by {
            lemma_entry_found(after, x);
            lemma_entry_found(before, x);
            let e = entry_index(before, x);
            if x == item@ {
                assert(after[at as int].item@ == x);
            } else if e < at {
                assert(after[e].item@ == x);
            } else {
                assert(after[e + 1].item@ == x);
            }
        }
        assert forall|q: int| 0 <= q < all.len() implies entry_index(
            after,
            #[trigger] origin(all[q]),
        ) < after.len() by {
            assert(entry_index(before, origin(all[q])) < before.len());
        }
        assert forall|i: int| 0 <= i < n + 1 implies is_condemned(
            bad,
            (#[trigger] found@[i]).0@,
        ) || entry_index(after, found@[i].0@) < after.len() by {
            assert(i < n ==> is_condemned(bad, found@[i].0@) || entry_index(before, found@[i].0@)
                < before.len());
        }
    }
}

/// The cache to keep after a scan: the reused and the fresh plugins, each under its item, an
/// entry also for an item in which no plugin was found, and the items that are condemned.
/// `discovered_fp` holds the items that the cache answered for, that were scanned to their
/// end or that are condemned. Both lists are in dictionary order.
pub fn build_cache_file(
    fresh_plugins: &[PluginInfo],
    fresh_blocked: &[BlockedItem],
    plan: &Plan,
    discovered_fp: &[Found],
) -> (r: CacheFile)
    ensures
        r.scanner_abi == SCANNER_ABI,
        entries_sorted(r.entries@),
        records_sorted(r.blocked@),
        entries_hold(
            r.entries@,
            plan.reused@ + fresh_plugins@,
            plan.retained_blocked@ + fresh_blocked@,
            discovered_fp@,
        ),
        records_hold(r.blocked@, plan.retained_blocked@ + fresh_blocked@, discovered_fp@),
{
    let mut entries: Vec<CacheEntry> = Vec::new();
    let ghost mut all: Seq<PluginInfo> = Seq::empty();
    let mut i: usize = 0;
    assert(plan.reused@.take(0) =~= Seq::<PluginInfo>::empty());
    while i < plan.reused.len()
        invariant
            i <= plan.reused@.len(),
            all == plan.reused@.take(i as int),
            entries_sorted(entries@),
            plugins_filed(entries@, all, discovered_fp@),
            none_is_empty(entries@),
        decreases plan.reused@.len() - i,
    {
        file_plugin(&mut entries, &plan.reused[i], discovered_fp, Ghost(all));
        proof {
            all = all.push(plan.reused@[i as int]);
            assert(all =~= plan.reused@.take(i + 1));
        }
        i = i + 1;
    }
    assert(plan.reused@.take(i as int) =~= plan.reused@);
    assert(plan.reused@ + fresh_plugins@.take(0) =~= plan.reused@);
    let mut j: usize = 0;
    while j < fresh_plugins.len()
        invariant
            j <= fresh_plugins@.len(),
            all == plan.reused@ + fresh_plugins@.take(j as int),
            entries_sorted(entries@),
            plugins_filed(entries@, all, discovered_fp@),
            none_is_empty(entries@),
        decreases fresh_plugins@.len() - j,
    {
        file_plugin(&mut entries, &fresh_plugins[j], discovered_fp, Ghost(all));
        proof {
            all = all.push(fresh_plugins@[j as int]);
            assert(all =~= plan.reused@ + fresh_plugins@.take(j + 1));
        }
        j = j + 1;
    }
    assert(fresh_plugins@.take(j as int) =~= fresh_plugins@);
    let mut blocked: Vec<BlockedRecord> = Vec::new();
    let ghost mut bad: Seq<BlockedItem> = Seq::empty();
    let mut k: usize = 0;
    assert(plan.retained_blocked@.take(0) =~= Seq::<BlockedItem>::empty());
    while k < plan.retained_blocked.len()
        invariant
            k <= plan.retained_blocked@.len(),
            bad == plan.retained_blocked@.take(k as int),
            records_sorted(blocked@),
            records_hold(blocked@, bad, discovered_fp@),
        decreases plan.retained_blocked@.len() - k,
    {
        file_blocked(&mut blocked, &plan.retained_blocked[k], discovered_fp, Ghost(bad));
        proof {
            bad = bad.push(plan.retained_blocked@[k as int]);
            assert(bad =~= plan.retained_blocked@.take(k + 1));
        }
        k = k + 1;
    }
    assert(plan.retained_blocked@.take(k as int) =~= plan.retained_blocked@);
    assert(plan.retained_blocked@ + fresh_blocked@.take(0) =~= plan.retained_blocked@);
    let mut l: usize = 0;
    while l < fresh_blocked.len()
        invariant
            l <= fresh_blocked@.len(),
            bad == plan.retained_blocked@ + fresh_blocked@.take(l as int),
            records_sorted(blocked@),
            records_hold(blocked@, bad, discovered_fp@),
        decreases fresh_blocked@.len() - l,
    {
        file_blocked(&mut blocked, &fresh_blocked[l], discovered_fp, Ghost(bad));
        proof {
            bad = bad.push(fresh_blocked@[l as int]);
            assert(bad =~= plan.retained_blocked@ + fresh_blocked@.take(l + 1));
        }
        l = l + 1;
    }
    assert(fresh_blocked@.take(l as int) =~= fresh_blocked@);
    let mut m: usize = 0;
    while m < discovered_fp.len()
        invariant
            m <= discovered_fp@.len(),
            records_hold(blocked@, bad, discovered_fp@),
            entries_sorted(entries@),
            items_filed(entries@, all, bad, discovered_fp@, m as int),
        decreases discovered_fp@.len() - m,
    {
        file_item(&mut entries, m, &blocked, discovered_fp, Ghost(all), Ghost(bad));
        m = m + 1;
    }
    CacheFile { scanner_abi: SCANNER_ABI, entries, blocked }
}

/// A cache that was kept answers for every item that has a plugin, or was found and is not
/// condemned, as long as its file is unchanged, and gives back exactly the plugins that were
/// kept: none, where none was found.
pub proof fn kept_plugins_are_reused(
    cache: CacheFile,
    all: Seq<PluginInfo>,
    bad: Seq<BlockedItem>,
    found: Seq<Found>,
    item: Seq<char>,
)
    requires
        cache.scanner_abi == SCANNER_ABI,
        entries_hold(cache.entries@, all, bad, found),
        plugins_of(all, item).len() > 0 || is_found(found, item) && !is_condemned(bad, item),
    ensures
        verdict(item, fingerprint_of(found, item), cache) matches Verdict::Reuse(e)
            && cache.entries@[e].plugins@ == plugins_of(all, item),
{
    if plugins_of(all, item).len() > 0 {
        assert(exists|p: int| 0 <= p < all.len() && origin(#[trigger] all[p]) == item) by {
            if forall|p: int| 0 <= p < all.len() ==> origin(#[trigger] all[p]) != item {
                lemma_no_plugins(all, item);
            }
        }
        let p = choose|p: int| 0 <= p < all.len() && origin(#[trigger] all[p]) == item;
        assert(entry_index(cache.entries@, origin(all[p])) < cache.entries@.len());
    } else {
        let i = choose|i: int| 0 <= i < found.len() && (#[trigger] found[i]).0@ == item;
        assert(entry_index(cache.entries@, found[i].0@) < cache.entries@.len());
    }
    lemma_entry_found(cache.entries@, item);
}

/// A condemned item without a plugin stays condemned as long as its file is unchanged, for
/// the reason that was given first: it is not scanned again.
pub proof fn kept_condemnations_hold(
    cache: CacheFile,
    all: Seq<PluginInfo>,
    bad: Seq<BlockedItem>,
    found: Seq<Found>,
    item: Seq<char>,
)
    requires
        cache.scanner_abi == SCANNER_ABI,
        entries_hold(cache.entries@, all, bad, found),
        records_hold(cache.blocked@, bad, found),
        is_condemned(bad, item),
        plugins_of(all, item).len() == 0,
    ensures
        verdict(item, fingerprint_of(found, item), cache) matches Verdict::Blocked(b)
            && cache.blocked@[b].reason == bad[first_condemned(bad, item)].reason,
{
    lemma_records_tell(cache.blocked@, bad, found, item);
    lemma_entry_found(cache.entries@, item);
    lemma_blocked_found(cache.blocked@, item);
    let b = blocked_index(cache.blocked@, item);
    assert(cache.blocked@[b].item@ == item);
}

/// An item that nothing is kept of is scanned, whatever the state of its file.
pub proof fn an_unknown_item_is_scanned(
    cache: CacheFile,
    all: Seq<PluginInfo>,
    bad: Seq<BlockedItem>,
    found: Seq<Found>,
    item: Seq<char>,
    fp: Option<FileFingerprint>,
)
    requires
        entries_hold(cache.entries@, all, bad, found),
        records_hold(cache.blocked@, bad, found),
        !is_found(found, item),
        !is_condemned(bad, item),
        plugins_of(all, item).len() == 0,
    ensures
        verdict(item, fp, cache) is Scan,
{
    lemma_records_tell(cache.blocked@, bad, found, item);
    lemma_blocked_found(cache.blocked@, item);
    lemma_entry_found(cache.entries@, item);
    let e = entry_index(cache.entries@, item);
    if e < cache.entries@.len() {
        assert(cache.entries@[e].item@ == item);
    }
}

/// A cache of another version, and the empty one of a forced scan, answers for nothing: every
/// item is scanned, the condemned ones too.
pub proof fn an_outdated_cache_rescans_everything(found: Seq<Found>, cache: CacheFile)
    requires
        cache.scanner_abi != SCANNER_ABI,
    ensures
        scan_list(found, cache) == Seq::new(found.len(), |i: int| found[i].0@),
        reuse_list(found, cache).len() == 0,
        blocked_list(found, cache).len() == 0,
    decreases found.len(),
{
    if found.len() > 0 {
        an_outdated_cache_rescans_everything(found.drop_last(), cache);
        assert(scan_list(found, cache) =~= Seq::new(found.len(), |i: int| found[i].0@));
    } else {
        assert(scan_list(found, cache) =~= Seq::new(found.len(), |i: int| found[i].0@));
    }
}

/// `fingerprint_of` answers with what was found: no item was found in two states.
pub open spec fn findings_agree(found: Seq<Found>) -> bool {
    forall|i: int|
        0 <= i < found.len() ==> (#[trigger] found[i]).1 == fingerprint_of(found, found[i].0@)
}

proof fn lemma_unchanged(
    cache: CacheFile,
    all: Seq<PluginInfo>,
    bad: Seq<BlockedItem>,
    found: Seq<Found>,
    n: int,
)
    requires
        cache.scanner_abi == SCANNER_ABI,
        entries_hold(cache.entries@, all, bad, found),
        records_hold(cache.blocked@, bad, found),
        findings_agree(found),
        0 <= n <= found.len(),
    ensures
        scan_list(found.take(n), cache).len() == 0,
        forall|x: (Seq<char>, BlockReason)| #[trigger]
            blocked_list(found.take(n), cache).contains(x) <==> is_found(found.take(n), x.0)
                && stays_condemned(all, bad, x),
    decreases n,
{
    let part = found.take(n);
    if n > 0 {
        lemma_unchanged(cache, all, bad, found, n - 1);
        let before = found.take(n - 1);
        assert(part.drop_last() =~= before);
        let last = found[n - 1];
        let item = last.0@;
        assert(part.last() == last);
        assert(is_found(found, item));
        if is_condemned(bad, item) && plugins_of(all, item).len() == 0 {
            kept_condemnations_hold(cache, all, bad, found, item);
        } else {
            kept_plugins_are_reused(cache, all, bad, found, item);
        }
        let old_list = blocked_list(before, cache);
        let list = blocked_list(part, cache);
        assert forall|x: (Seq<char>, BlockReason)| #[trigger] list.contains(x) <==> is_found(
            part,
            x.0,
        ) && stays_condemned(all, bad, x) by {
            assert(is_found(part, x.0) <==> is_found(before, x.0) || x.0 == item) by {
                if is_found(part, x.0) {
                    let i = choose|i: int| 0 <= i < part.len() && (#[trigger] part[i]).0@ == x.0;
                    if i < n - 1 {
                        assert(before[i] == part[i]);
                    }
                }
                if is_found(before, x.0) {
                    let i = choose|i: int|
                        0 <= i < before.len() && (#[trigger] before[i]).0@ == x.0;
                    assert(part[i] == before[i]);
                }
                assert(part[n - 1] == last);
            }
            assert(old_list.contains(x) <==> is_found(before, x.0) && stays_condemned(all, bad, x));
            match verdict(item, last.1, cache) {
                Verdict::Blocked(b) => {
                    let y = (item, cache.blocked@[b].reason);
                    assert(list == old_list.push(y));
                    assert(list[old_list.len() as int] == y);
                    if old_list.contains(x) {
                        let i = choose|i: int| 0 <= i < old_list.len() && old_list[i] == x;
                        assert(list[i] == x);
                    }
                    if list.contains(x) && x != y {
                        let i = choose|i: int| 0 <= i < list.len() && list[i] == x;
                        assert(old_list[i] == x);
                    }
                },
                _ => {},
            }
        }
    } else {
        assert forall|x: (Seq<char>, BlockReason)| !is_found(part, x.0) by {}
    }
}

/// Does the item stay condemned, for this reason? It does if it has no plugin; the reason is
/// the one that was given first.
pub open spec fn stays_condemned(
    all: Seq<PluginInfo>,
    bad: Seq<BlockedItem>,
    x: (Seq<char>, BlockReason),
) -> bool {
    &&& is_condemned(bad, x.0)
    &&& plugins_of(all, x.0).len() == 0
    &&& x.1 == bad[first_condemned(bad, x.0)].reason
}

/// A boot on which nothing has changed scans nothing: a cache that was kept answers for every
/// item that it was kept of, whether it had plugins or not, and what was condemned stays
/// condemned.
pub proof fn an_unchanged_boot_scans_nothing(
    cache: CacheFile,
    all: Seq<PluginInfo>,
    bad: Seq<BlockedItem>,
    found: Seq<Found>,
)
    requires
        cache.scanner_abi == SCANNER_ABI,
        entries_hold(cache.entries@, all, bad, found),
        records_hold(cache.blocked@, bad, found),
        findings_agree(found),
    ensures
        scan_list(found, cache).len() == 0,
        forall|x: (Seq<char>, BlockReason)| #[trigger]
            blocked_list(found, cache).contains(x) <==> is_found(found, x.0) && stays_condemned(
                all,
                bad,
                x,
            ),
{
    lemma_unchanged(cache, all, bad, found, found.len() as int);
    assert(found.take(found.len() as int) =~= found);
}

/// A file that has changed since is scanned anew, whether its item had plugins or was
/// condemned.
pub proof fn a_changed_file_is_scanned(
    item: Seq<char>,
    fp: Option<FileFingerprint>,
    cache: CacheFile,
)
    requires
        forall|i: int|
            0 <= i < cache.entries@.len() && (#[trigger] cache.entries@[i]).item@ == item
                ==> cache.entries@[i].fingerprint != fp,
        forall|i: int|
            0 <= i < cache.blocked@.len() && (#[trigger] cache.blocked@[i]).item@ == item
                ==> cache.blocked@[i].fingerprint != fp,
    ensures
        verdict(item, fp, cache) is Scan,
{
    lemma_entry_found(cache.entries@, item);
    lemma_blocked_found(cache.blocked@, item);
}

/// Does a part join on to this directory without a separator?
pub open spec fn joins_on(dir: Seq<char>, platform: Platform) -> bool {
    ||| dir.len() == 0
    ||| dir.last() == '/'
    ||| platform is Windows && dir.last() == '\\'
    ||| platform is Windows && dir.len() == 2 && dir[1] == ':'
}

/// What lies under this name in a directory.
pub open spec fn path_in(dir: Seq<char>, name: Seq<char>, platform: Platform) -> Seq<char> {
    if joins_on(dir, platform) {
        dir + name
    } else if platform is Windows {
        dir + "\\"@ + name
    } else {
        dir + "/"@ + name
    }
}

fn join_path(dir: &str, name: &str, platform: Platform) -> (r: String)
    ensures
        r@ == path_in(dir@, name@, platform),
{
    let n: usize = dir.unicode_len();
    let windows = platform == Platform::Windows;
    let joins = n == 0 || dir.get_char(n - 1) == '/' || (windows && dir.get_char(n - 1) == '\\')
        || (windows && n == 2 && dir.get_char(1) == ':');
    if joins {
        text::joined(dir, name)
    } else {
        let mut r = text::joined(
            dir,
            if windows {
                "\\"
            } else {
                "/"
            },
        );
        r.append(name);
        r
    }
}

/// The directory of a platform in which what the agent knows is kept.
pub open spec fn data_dir_of(platform: Platform, user: Option<Seq<char>>) -> Seq<char> {
    match platform {
        Platform::MacOs => path_in(
            match user {
                Some(u) => u,
                None => "/tmp"@,
            },
            "Library/Application Support/Jamodio"@,
            platform,
        ),
        Platform::Windows => path_in(
            match user {
                Some(u) => u,
                None => "C:\\Temp"@,
            },
            "Jamodio"@,
            platform,
        ),
        Platform::Other => path_in(
            match user {
                Some(u) => u,
                None => "/tmp"@,
            },
            ".local/share/jamodio"@,
            platform,
        ),
    }
}

/// Gives the directory in which what the agent knows is kept, below the user's own, where
/// that is known: `HOME`, or `APPDATA` on Windows.
pub fn base_data_dir(platform: Platform, user: Option<&str>) -> (r: String)
    ensures
        r@ == data_dir_of(
            platform,
            match user {
                Some(u) => Some(u@),
                None => None,
            },
        ),
{
    let instead = match platform {
        Platform::Windows => "C:\\Temp",
        _ => "/tmp",
    };
    let base: &str = match user {
        Some(u) => u,
        None => instead,
    };
    let below = match platform {
        Platform::MacOs => "Library/Application Support/Jamodio",
        Platform::Windows => "Jamodio",
        Platform::Other => ".local/share/jamodio",
    };
    join_path(base, below, platform)
}

/// The file that the cache is kept in.
pub fn cache_path(data_dir: &str, platform: Platform) -> (r: String)
    ensures
        r@ == path_in(data_dir@, CACHE_FILENAME@, platform),
        r@ == path_in(data_dir@, "plugin-scan-cache-v1.json"@, platform),
{
    join_path(data_dir, CACHE_FILENAME, platform)
}

/// The file that the cache is first written to.
pub fn temp_path(data_dir: &str, platform: Platform) -> (r: String)
    ensures
        r@ == path_in(data_dir@, CACHE_FILENAME@ + ".tmp"@, platform),
        r@ == path_in(data_dir@, "plugin-scan-cache-v1.json"@ + ".tmp"@, platform),
{
    let name = text::joined(CACHE_FILENAME, ".tmp");
    join_path(data_dir, name.as_str(), platform)
}

/// The cache to go by: what was read of the file, if it could be read and is of the present
/// version, else an empty one. That is never an error, for a scan must always be possible.
pub fn load(read: Option<CacheFile>) -> (r: CacheFile)
    ensures
        match read {
            Some(c) if c.scanner_abi == SCANNER_ABI => r == c,
            _ => r.scanner_abi == 0 && r.entries@.len() == 0 && r.blocked@.len() == 0,
        },
{
    match read {
        Some(c) => if c.scanner_abi == SCANNER_ABI {
            c
        } else {
            CacheFile::empty()
        },
        None => CacheFile::empty(),
    }
}

/// A step of writing the cache.
#[derive(Clone, Copy, Debug, PartialEq, Eq, Structural)]
pub enum SaveStep {
    /// Write the file beside the cache.
    WriteTemp,
    /// Put that file in the place of the cache.
    RenameTemp,
    /// Do away with that file.
    RemoveTemp,
    Done,
}

/// What follows on a step. The cache is never written itself, only replaced by a file that
/// was written to its end: if the agent dies meanwhile, the old one is still there.
pub fn save_step(last: SaveStep, succeeded: bool) -> (r: SaveStep)
    ensures
        r == match last {
            SaveStep::WriteTemp => if succeeded {
                SaveStep::RenameTemp
            } else {
                SaveStep::RemoveTemp
            },
            SaveStep::RenameTemp => if succeeded {
                SaveStep::Done
            } else {
                SaveStep::RemoveTemp
            },
            _ => SaveStep::Done,
        },
        r == SaveStep::RenameTemp ==> last == SaveStep::WriteTemp && succeeded,
{
    match last {
        SaveStep::WriteTemp => if succeeded {
            SaveStep::RenameTemp
        } else {
            SaveStep::RemoveTemp
        },
        SaveStep::RenameTemp => if succeeded {
            SaveStep::Done
        } else {
            SaveStep::RemoveTemp
        },
        _ => SaveStep::Done,
    }
}

/// What is kept of the item answers for it: it is the first of that item, and the file has not
/// changed since.
pub open spec fn still_holds(e: int, x: Found, cache: CacheFile) -> bool {
    &&& 0 <= e < cache.entries@.len()
    &&& cache.entries@[e].item@ == x.0@
    &&& cache.entries@[e].fingerprint == x.1
    &&& forall|k: int| 0 <= k < e ==> (#[trigger] cache.entries@[k]).item@ != x.0@
}

/// The same of a condemnation.
pub open spec fn still_condemns(b: int, x: Found, cache: CacheFile) -> bool {
    &&& 0 <= b < cache.blocked@.len()
    &&& cache.blocked@[b].item@ == x.0@
    &&& cache.blocked@[b].fingerprint == x.1
    &&& forall|k: int| 0 <= k < b ==> (#[trigger] cache.blocked@[k]).item@ != x.0@
}

proof fn lemma_first_entry(entries: Seq<CacheEntry>, item: Seq<char>)
    ensures
        forall|k: int|
            0 <= k < entry_index(entries, item) && k < entries.len() ==> (
            #[trigger] entries[k]).item@ != item,
    decreases entries.len(),
{
    if entries.len() > 0 && entries[0].item@ != item {
        lemma_first_entry(entries.skip(1), item);
        assert forall|k: int|
            0 <= k < entry_index(entries, item) && k < entries.len() implies (
        #[trigger] entries[k]).item@ != item by {
            if k > 0 {
                assert(entries.skip(1)[k - 1] == entries[k]);
            }
        }
    }
}

proof fn lemma_first_record(blocked: Seq<BlockedRecord>, item: Seq<char>)
    ensures
        forall|k: int|
            0 <= k < blocked_index(blocked, item) && k < blocked.len() ==> (
            #[trigger] blocked[k]).item@ != item,
    decreases blocked.len(),
{
    if blocked.len() > 0 && blocked[0].item@ != item {
        lemma_first_record(blocked.skip(1), item);
        assert forall|k: int|
            0 <= k < blocked_index(blocked, item) && k < blocked.len() implies (
        #[trigger] blocked[k]).item@ != item by {
            if k > 0 {
                assert(blocked.skip(1)[k - 1] == blocked[k]);
            }
        }
    }
}

/// One more item that the cache answers for adds all of its plugins, in their order, behind
/// those of the items before it. It is neither scanned nor condemned.
pub proof fn an_unchanged_item_brings_all_of_its_plugins(
    found: Seq<Found>,
    x: Found,
    cache: CacheFile,
    e: int,
)
    requires
        cache.scanner_abi == 2,
        still_holds(e, x, cache),
    ensures
        reuse_list(found.push(x), cache) == reuse_list(found, cache) + cache.entries@[e].plugins@,
        reuse_list(found.push(x), cache).len() == reuse_list(found, cache).len()
            + cache.entries@[e].plugins@.len(),
        scan_list(found.push(x), cache) == scan_list(found, cache),
        blocked_list(found.push(x), cache) == blocked_list(found, cache),
{
    lemma_entry_index(cache.entries@, x.0@, e);
    assert(found.push(x).drop_last() =~= found);
}

/// One more item that only a condemnation answers for joins the condemned ones, with the
/// reason that is kept of it. It is not scanned.
pub proof fn an_unchanged_condemnation_is_kept(
    found: Seq<Found>,
    x: Found,
    cache: CacheFile,
    b: int,
)
    requires
        cache.scanner_abi == 2,
        forall|e: int| !still_holds(e, x, cache),
        still_condemns(b, x, cache),
    ensures
        blocked_list(found.push(x), cache) == blocked_list(found, cache).push(
            (x.0@, cache.blocked@[b].reason),
        ),
        reuse_list(found.push(x), cache) == reuse_list(found, cache),
        scan_list(found.push(x), cache) == scan_list(found, cache),
{
    let e = entry_index(cache.entries@, x.0@);
    lemma_entry_found(cache.entries@, x.0@);
    lemma_first_entry(cache.entries@, x.0@);
    assert(!still_holds(e, x, cache));
    lemma_blocked_index(cache.blocked@, x.0@, b);
    assert(found.push(x).drop_last() =~= found);
}

/// One more item that nothing answers for joins those that are scanned.
pub proof fn what_nothing_answers_for_is_scanned(found: Seq<Found>, x: Found, cache: CacheFile)
    requires
        cache.scanner_abi == 2 ==> (forall|e: int| !still_holds(e, x, cache)) && (forall|b: int|
            !still_condemns(b, x, cache)),
    ensures
        scan_list(found.push(x), cache) == scan_list(found, cache).push(x.0@),
        reuse_list(found.push(x), cache) == reuse_list(found, cache),
        blocked_list(found.push(x), cache) == blocked_list(found, cache),
{
    let e = entry_index(cache.entries@, x.0@);
    let b = blocked_index(cache.blocked@, x.0@);
    lemma_entry_found(cache.entries@, x.0@);
    lemma_first_entry(cache.entries@, x.0@);
    lemma_blocked_found(cache.blocked@, x.0@);
    lemma_first_record(cache.blocked@, x.0@);
    if cache.scanner_abi == 2 {
        assert(!still_holds(e, x, cache));
        assert(!still_condemns(b, x, cache));
    }
    assert(found.push(x).drop_last() =~= found);
}

/// The reused plugins are those of the entries that still hold, entry after entry in the order
/// in which the items were found, and as many as these have together. `at` names the entry of
/// each item, or a negative number where none holds.
pub proof fn the_reused_plugins_are_those_of_the_entries(
    found: Seq<Found>,
    cache: CacheFile,
    at: Seq<int>,
)
    requires
        cache.scanner_abi == 2,
        at.len() == found.len(),
        forall|i: int|
            0 <= i < found.len() ==> if #[trigger] at[i] >= 0 {
                still_holds(at[i], found[i], cache)
            } else {
                forall|e: int| !still_holds(e, found[i], cache)
            },
    ensures
        ({
            let kept = Seq::new(
                found.len(),
                |i: int|
                    if at[i] >= 0 {
                        cache.entries@[at[i]].plugins@
                    } else {
                        Seq::<PluginInfo>::empty()
                    },
            );
            &&& reuse_list(found, cache) == kept.flatten()
            &&& reuse_list(found, cache).len() == kept.map_values(
                |plugins: Seq<PluginInfo>| plugins.len() as int,
            ).fold_left(0, |total: int, n: int| total + n)
        }),
    decreases found.len(),
{
    let kept = Seq::new(
        found.len(),
        |i: int|
            if at[i] >= 0 {
                cache.entries@[at[i]].plugins@
            } else {
                Seq::<PluginInfo>::empty()
            },
    );
    let count = |plugins: Seq<PluginInfo>| plugins.len() as int;
    let sum = |total: int, n: int| total + n;
    let lens = kept.map_values(count);
    if found.len() == 0 {
        assert(lens.fold_left(0, sum) == 0);
    } else {
        let n = found.len() - 1;
        let x = found[n];
        let before = found.drop_last();
        let part = at.drop_last();
        assert forall|i: int| 0 <= i < before.len() implies if #[trigger] part[i] >= 0 {
            still_holds(part[i], before[i], cache)
        } else {
            forall|e: int| !still_holds(e, before[i], cache)
        } by {
            assert(part[i] == at[i] && before[i] == found[i]);
        }
        the_reused_plugins_are_those_of_the_entries(before, cache, part);
        let kept_before = Seq::new(
            before.len(),
            |i: int|
                if part[i] >= 0 {
                    cache.entries@[part[i]].plugins@
                } else {
                    Seq::<PluginInfo>::empty()
                },
        );
        assert(kept.drop_last() =~= kept_before);
        assert(kept =~= kept_before.push(kept.last()));
        kept_before.lemma_flatten_push(kept.last());
        assert(lens.drop_last() =~= kept_before.map_values(count));
        assert(lens.fold_left(0, sum) == lens.drop_last().fold_left(0, sum) + lens.last());
        assert(found =~= before.push(x));
        assert(at[n] == at.last());
        if at[n] >= 0 {
            an_unchanged_item_brings_all_of_its_plugins(before, x, cache, at[n]);
        } else {
            let e = entry_index(cache.entries@, x.0@);
            lemma_entry_found(cache.entries@, x.0@);
            lemma_first_entry(cache.entries@, x.0@);
            assert(!still_holds(e, x, cache));
            assert(reuse_list(found, cache) == reuse_list(before, cache));
            assert(reuse_list(before, cache) + kept.last() =~= reuse_list(before, cache));
        }
    }
}

/// Every single plugin of an entry that still holds is reused.
pub proof fn no_kept_plugin_is_lost(
    found: Seq<Found>,
    cache: CacheFile,
    i: int,
    e: int,
    k: int,
)
    requires
        cache.scanner_abi == 2,
        0 <= i < found.len(),
        still_holds(e, found[i], cache),
        0 <= k < cache.entries@[e].plugins@.len(),
    ensures
        reuse_list(found, cache).contains(cache.entries@[e].plugins@[k]),
    decreases found.len(),
{
    let p = cache.entries@[e].plugins@[k];
    let before = found.drop_last();
    let rest = reuse_list(before, cache);
    let list = reuse_list(found, cache);
    if i == found.len() - 1 {
        assert(found =~= before.push(found[i]));
        an_unchanged_item_brings_all_of_its_plugins(before, found[i], cache, e);
        assert(list[rest.len() + k] == p);
    } else {
        no_kept_plugin_is_lost(before, cache, i, e, k);
        let j = choose|j: int| 0 <= j < rest.len() && rest[j] == p;
        assert(list[j] == p);
    }
}

/// The plugins of an item are those whose own file, or whose own codes, it names: all of them
/// and no others, in their order.
pub proof fn plugins_are_told_by_their_origin(all: Seq<PluginInfo>, item: Seq<char>)
    ensures
        plugins_of(all, item) == all.filter(
            |p: PluginInfo|
                match p.plugin_ref {
                    PluginRef::Vst3 { path, .. } => path@ == item,
                    PluginRef::Au { au_type, subtype, manufacturer } => "au:"@ + au_type@ + "/"@
                        + subtype@ + "/"@ + manufacturer@ == item,
                },
        ),
    decreases all.len(),
{
    reveal(Seq::filter);
    if all.len() > 0 {
        plugins_are_told_by_their_origin(all.drop_last(), item);
    }
}

proof fn lemma_plugins_joined(a: Seq<PluginInfo>, b: Seq<PluginInfo>, item: Seq<char>)
    ensures
        plugins_of(a + b, item) == plugins_of(a, item) + plugins_of(b, item),
    decreases b.len(),
{
    if b.len() == 0 {
        assert(a + b =~= a);
        assert(plugins_of(a, item) + plugins_of(b, item) =~= plugins_of(a, item));
    } else {
        lemma_plugins_joined(a, b.drop_last(), item);
        assert((a + b).drop_last() =~= a + b.drop_last());
        assert((a + b).last() == b.last());
        assert(plugins_of(a + b, item) =~= plugins_of(a, item) + plugins_of(b, item));
    }
}

proof fn lemma_plugins_of_another(all: Seq<PluginInfo>, one: Seq<char>, item: Seq<char>)
    ensures
        plugins_of(plugins_of(all, one), item) == if one == item {
            plugins_of(all, item)
        } else {
            Seq::empty()
        },
    decreases all.len(),
{
    if all.len() > 0 {
        let rest = plugins_of(all.drop_last(), one);
        lemma_plugins_of_another(all.drop_last(), one, item);
        if origin(all.last()) == one {
            assert(rest.push(all.last()).drop_last() =~= rest);
        }
    }
}

proof fn lemma_given_back(
    cache: CacheFile,
    all: Seq<PluginInfo>,
    bad: Seq<BlockedItem>,
    found: Seq<Found>,
    item: Seq<char>,
    n: int,
)
    requires
        cache.scanner_abi == SCANNER_ABI,
        entries_hold(cache.entries@, all, bad, found),
        findings_agree(found),
        forall|i: int, j: int|
            0 <= i < j < found.len() ==> (#[trigger] found[i]).0@ != (#[trigger] found[j]).0@,
        0 <= n <= found.len(),
    ensures
        plugins_of(reuse_list(found.take(n), cache), item) == if exists|i: int|
            0 <= i < n && (#[trigger] found[i]).0@ == item {
            plugins_of(all, item)
        } else {
            Seq::empty()
        },
    decreases n,
{
    if n > 0 {
        lemma_given_back(cache, all, bad, found, item, n - 1);
        let x = found[n - 1];
        let one = x.0@;
        let before = found.take(n - 1);
        let rest = reuse_list(before, cache);
        assert(found.take(n).drop_last() =~= before);
        assert(found.take(n).last() == x);
        assert(x.1 == fingerprint_of(found, one));
        assert(is_found(found, one));
        if plugins_of(all, one).len() > 0 || !is_condemned(bad, one) {
            kept_plugins_are_reused(cache, all, bad, found, one);
        } else {
            lemma_entry_found(cache.entries@, one);
            let e = entry_index(cache.entries@, one);
            if e < cache.entries@.len() {
                assert(cache.entries@[e].plugins@ == plugins_of(all, one));
            }
            assert(rest + plugins_of(all, one) =~= rest);
        }
        assert(reuse_list(found.take(n), cache) == rest + plugins_of(all, one));
        lemma_plugins_joined(rest, plugins_of(all, one), item);
        lemma_plugins_of_another(all, one, item);
        if one == item {
            assert forall|i: int| 0 <= i < n - 1 implies (#[trigger] found[i]).0@ != item by {
                assert(found[i].0@ != found[n - 1].0@);
            }
            assert(found[n - 1].0@ == item);
            assert(plugins_of(rest, item) =~= Seq::empty());
            assert(plugins_of(rest, item) + plugins_of(all, item) =~= plugins_of(all, item));
        } else {
            assert(plugins_of(rest, item) + Seq::<PluginInfo>::empty() =~= plugins_of(rest, item));
            if exists|i: int| 0 <= i < n - 1 && (#[trigger] found[i]).0@ == item {
                let i = choose|i: int| 0 <= i < n - 1 && (#[trigger] found[i]).0@ == item;
                assert(0 <= i < n && found[i].0@ == item);
            }
            if exists|i: int| 0 <= i < n && (#[trigger] found[i]).0@ == item {
                let i = choose|i: int| 0 <= i < n && (#[trigger] found[i]).0@ == item;
                assert(0 <= i < n - 1 && found[i].0@ == item);
            }
        }
    } else {
        assert(plugins_of(reuse_list(found.take(0), cache), item) =~= Seq::empty());
    }
}

/// A boot on which nothing has changed has every plugin again: of each item that was found, as
/// many as were kept of it, in their order.
pub proof fn an_unchanged_boot_gives_back_every_plugin(
    cache: CacheFile,
    all: Seq<PluginInfo>,
    bad: Seq<BlockedItem>,
    found: Seq<Found>,
    item: Seq<char>,
)
    requires
        cache.scanner_abi == SCANNER_ABI,
        entries_hold(cache.entries@, all, bad, found),
        findings_agree(found),
        forall|i: int, j: int|
            0 <= i < j < found.len() ==> (#[trigger] found[i]).0@ != (#[trigger] found[j]).0@,
        is_found(found, item),
    ensures
        plugins_of(reuse_list(found, cache), item) == plugins_of(all, item),
{
    lemma_given_back(cache, all, bad, found, item, found.len() as int);
    assert(found.take(found.len() as int) =~= found);
    let i = choose|i: int| 0 <= i < found.len() && (#[trigger] found[i]).0@ == item;
    assert(found[i].0@ == item);
}

/// The cache that is written has a place for every plugin: under the item that it was found
/// in, with the state that its file was last seen in.
pub proof fn every_plugin_has_its_entry(
    entries: Seq<CacheEntry>,
    all: Seq<PluginInfo>,
    bad: Seq<BlockedItem>,
    found: Seq<Found>,
    p: int,
)
    requires
        entries_hold(entries, all, bad, found),
        0 <= p < all.len(),
    ensures
        exists|e: int|
            0 <= e < entries.len() && (#[trigger] entries[e]).item@ == origin(all[p])
                && entries[e].plugins@.contains(all[p]) && entries[e].fingerprint
                == fingerprint_of(found, origin(all[p])),
{
    let item = origin(all[p]);
    lemma_entry_found(entries, item);
    let e = entry_index(entries, item);
    assert(entries[e].plugins@ == plugins_of(all, item));
    lemma_among_plugins(all, item, p);
}

proof fn lemma_among_plugins(all: Seq<PluginInfo>, item: Seq<char>, p: int)
    requires
        0 <= p < all.len(),
        origin(all[p]) == item,
    ensures
        plugins_of(all, item).contains(all[p]),
    decreases all.len(),
{
    let rest = plugins_of(all.drop_last(), item);
    let list = plugins_of(all, item);
    if p == all.len() - 1 {
        assert(list[rest.len() as int] == all[p]);
    } else {
        lemma_among_plugins(all.drop_last(), item, p);
        let j = choose|j: int| 0 <= j < rest.len() && rest[j] == all[p];
        assert(list[j] == all[p]);
    }
}

/// Of several findings of one item the last one tells the state of its file, and none tells
/// nothing.
pub proof fn the_last_finding_counts(found: Seq<Found>, item: Seq<char>, i: int)
    requires
        -1 <= i < found.len(),
        i >= 0 ==> found[i].0@ == item,
        forall|k: int| i < k < found.len() ==> (#[trigger] found[k]).0@ != item,
    ensures
        i >= 0 ==> fingerprint_of(found, item) == found[i].1,
        i < 0 ==> fingerprint_of(found, item) is None,
    decreases found.len(),
{
    if found.len() > 0 && i < found.len() - 1 {
        assert(found.last().0@ != item);
        assert forall|k: int| i < k < found.len() - 1 implies (
        #[trigger] found.drop_last()[k]).0@ != item by {
            assert(found[k].0@ != item);
        }
        the_last_finding_counts(found.drop_last(), item, i);
    }
}

/// Of several condemnations of one item the first one counts, and an item is condemned if and
/// only if there is one.
pub proof fn the_first_condemnation_counts(bad: Seq<BlockedItem>, item: Seq<char>, i: int)
    requires
        0 <= i <= bad.len(),
        i < bad.len() ==> bad[i].item@ == item,
        forall|k: int| 0 <= k < i ==> (#[trigger] bad[k]).item@ != item,
    ensures
        first_condemned(bad, item) == i,
        is_condemned(bad, item) <==> i < bad.len(),
    decreases bad.len(),
{
    if bad.len() > 0 && i > 0 {
        assert(bad[0].item@ != item);
        assert forall|k: int| 0 <= k < i - 1 implies (#[trigger] bad.skip(1)[k]).item@ != item by {
            assert(bad[k + 1].item@ != item);
        }
        the_first_condemnation_counts(bad.skip(1), item, i - 1);
    }
}

/// The records that are written tell each condemned item once, with the reason that was given
/// first and the state that its file was last seen in.
pub proof fn every_condemnation_has_its_record(
    records: Seq<BlockedRecord>,
    bad: Seq<BlockedItem>,
    found: Seq<Found>,
    i: int,
)
    requires
        records_hold(records, bad, found),
        0 <= i < bad.len(),
        forall|k: int| 0 <= k < i ==> (#[trigger] bad[k]).item@ != bad[i].item@,
    ensures
        exists|b: int|
            0 <= b < records.len() && (#[trigger] records[b]).item@ == bad[i].item@
                && records[b].reason == bad[i].reason && records[b].fingerprint == fingerprint_of(
                found,
                bad[i].item@,
            ),
{
    the_first_condemnation_counts(bad, bad[i].item@, i);
    lemma_blocked_found(records, bad[i].item@);
    let b = blocked_index(records, bad[i].item@);
    assert(records[b].item@ == bad[i].item@);
}

/// Between a directory and a name stands one separator of the platform: it is put in, unless
/// the directory ends with one, or is empty, or on Windows is a mere drive.
pub proof fn one_separator_stands_between(dir: Seq<char>, name: Seq<char>, platform: Platform)
    ensures
        dir.len() == 0 ==> path_in(dir, name, platform) == name,
        dir.len() > 0 && dir.last() == '/' ==> path_in(dir, name, platform) == dir + name,
        !(platform is Windows) && dir.len() > 0 && dir.last() != '/' ==> path_in(
            dir,
            name,
            platform,
        ) == dir.push('/') + name,
        platform is Windows && dir.len() > 0 && dir.last() == '\\' ==> path_in(
            dir,
            name,
            platform,
        ) == dir + name,
        platform is Windows && dir.len() == 2 && dir[1] == ':' ==> path_in(dir, name, platform)
            == dir + name,
        platform is Windows && dir.len() > 2 && dir.last() != '/' && dir.last() != '\\'
            ==> path_in(dir, name, platform) == dir.push('\\') + name,
{
    reveal_strlit("/");
    reveal_strlit("\\");
    assert("/"@ =~= seq!['/']);
    assert("\\"@ =~= seq!['\\']);
    assert(dir + "/"@ =~= dir.push('/'));
    assert(dir + "\\"@ =~= dir.push('\\'));
    if dir.len() == 0 {
        assert(dir + name =~= name);
    }
}

/// What the agent knows is kept below the user's own directory, where the platform keeps such
/// things, and below a directory for everyone where the user's is not known.
pub proof fn data_is_kept_where_the_platform_keeps_it(user: Seq<char>)
    ensures
        data_dir_of(Platform::MacOs, Some(user)) == path_in(
            user,
            "Library/Application Support/Jamodio"@,
            Platform::MacOs,
        ),
        data_dir_of(Platform::Windows, Some(user)) == path_in(
            user,
            "Jamodio"@,
            Platform::Windows,
        ),
        data_dir_of(Platform::Other, Some(user)) == path_in(
            user,
            ".local/share/jamodio"@,
            Platform::Other,
        ),
        data_dir_of(Platform::MacOs, None) == data_dir_of(Platform::MacOs, Some("/tmp"@)),
        data_dir_of(Platform::Windows, None) == data_dir_of(Platform::Windows, Some("C:\\Temp"@)),
        data_dir_of(Platform::Other, None) == data_dir_of(Platform::Other, Some("/tmp"@)),
{
}

/// A list of items, or of condemned ones, is told by what it holds, one by one.
pub proof fn a_list_is_told_by_what_it_holds(items: Seq<String>, bad: Seq<BlockedItem>, i: int)
    ensures
        item_list(items).len() == items.len(),
        0 <= i < items.len() ==> item_list(items)[i] == items[i]@,
        condemned(bad).len() == bad.len(),
        0 <= i < bad.len() ==> condemned(bad)[i].0 == bad[i].item@ && condemned(bad)[i].1
            == bad[i].reason,
{
}

/// What is kept stands in the order of its items, and no item stands there twice.
pub proof fn every_item_is_kept_once(
    entries: Seq<CacheEntry>,
    records: Seq<BlockedRecord>,
    i: int,
    j: int,
)
    requires
        entries_sorted(entries),
        records_sorted(records),
        0 <= i < j,
    ensures
        j < entries.len() ==> entries[i].item@ != entries[j].item@ && text::precedes(
            entries[i].item@,
            entries[j].item@,
        ),
        j < records.len() ==> records[i].item@ != records[j].item@ && text::precedes(
            records[i].item@,
            records[j].item@,
        ),
{
    if j < entries.len() {
        text::lemma_precedes_total(entries[i].item@, entries[i].item@);
        assert(text::precedes(entries[i].item@, entries[j].item@));
    }
    if j < records.len() {
        text::lemma_precedes_total(records[i].item@, records[i].item@);
        assert(text::precedes(records[i].item@, records[j].item@));
    }
}

/// Every item that was found and is not condemned is kept; an item without a plugin is kept
/// only if it was found.
pub proof fn what_was_found_is_kept(
    entries: Seq<CacheEntry>,
    all: Seq<PluginInfo>,
    bad: Seq<BlockedItem>,
    found: Seq<Found>,
    i: int,
    e: int,
)
    requires
        entries_hold(entries, all, bad, found),
        0 <= i < found.len(),
        forall|k: int| 0 <= k < bad.len() ==> (#[trigger] bad[k]).item@ != found[i].0@,
        0 <= e < entries.len(),
    ensures
        exists|k: int| 0 <= k < entries.len() && (#[trigger] entries[k]).item@ == found[i].0@,
        entries[e].plugins@ == plugins_of(all, entries[e].item@),
        entries[e].fingerprint == fingerprint_of(found, entries[e].item@),
        entries[e].plugins@.len() == 0 ==> exists|k: int|
            0 <= k < found.len() && (#[trigger] found[k]).0@ == entries[e].item@,
{
    the_first_condemnation_counts(bad, found[i].0@, bad.len() as int);
    lemma_entry_found(entries, found[i].0@);
    let k = entry_index(entries, found[i].0@);
    assert(entries[k].item@ == found[i].0@);
}

} // verus!
