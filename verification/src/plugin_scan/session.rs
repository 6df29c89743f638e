//! One life of a worker: what it has done, and whom its death is to be blamed on.

use crate::plugin::PluginInfo;
use crate::plugin_scan::protocol::WorkerEvent;
use crate::text;
use vstd::prelude::*;
use vstd::string::*;

verus! {

/// Why an item was condemned.
#[derive(Clone, Copy, Debug, PartialEq, Eq, Structural)]
pub enum BlockReason {
    /// The worker died while it scanned the item.
    Crash,
    /// Nothing came for too long, and the worker was killed.
    Timeout,
}

impl BlockReason {
    pub open spec fn wire_chars(self) -> Seq<char> {
        match self {
            BlockReason::Crash => "crash"@,
            BlockReason::Timeout => "timeout"@,
        }
    }

    /// The word that the browser is told.
    pub fn as_wire(self) -> (r: &'static str)
        ensures
            r@ == self.wire_chars(),
    {
        match self {
            BlockReason::Crash => "crash",
            BlockReason::Timeout => "timeout",
        }
    }
}

/// A condemned item.
#[derive(Clone, Debug, PartialEq, Eq)]
pub struct BlockedItem {
    pub item: String,
    pub reason: BlockReason,
}

impl BlockedItem {
    pub fn duplicate(&self) -> (r: BlockedItem)
        ensures
            r == *self,
    {
        BlockedItem { item: self.item.clone(), reason: self.reason }
    }
}

/// How a session came to its end.
#[derive(Clone, Copy, Debug, PartialEq, Eq, Structural)]
pub enum CloseCause {
    /// The worker is gone, by itself.
    Exited,
    /// It was silent for too long and was killed.
    TimedOut,
}

/// The verdict of a session.
#[derive(Debug)]
pub struct SessionEnd {
    pub plugins: Vec<PluginInfo>,
    /// The item that the session condemned.
    pub blocked: Option<BlockedItem>,
    /// Items that another session has to take.
    pub remaining: Vec<String>,
    /// At least one item came to its end.
    pub progressed: bool,
}

/// The characters of each item of a list.
pub open spec fn item_chars(items: Seq<String>) -> Seq<Seq<char>> {
    Seq::new(items.len(), |i: int| items[i]@)
}

/// `items` without the first `x`; the same list where there is none.
pub open spec fn without_first(items: Seq<Seq<char>>, x: Seq<char>) -> Seq<Seq<char>>
    decreases items.len(),
{
    if items.len() == 0 {
        items
    } else if items[0] == x {
        items.skip(1)
    } else {
        seq![items[0]] + without_first(items.skip(1), x)
    }
}

/// What a session has come to.
#[verifier::ext_equal]
pub struct Progress {
    /// Items that were sent and have not come to their end.
    pub pending: Seq<Seq<char>>,
    /// The item that was begun and has not come to its end.
    pub current: Option<Seq<char>>,
    pub plugins: Seq<PluginInfo>,
    pub progressed: bool,
}

impl Progress {
    pub open spec fn start(items: Seq<Seq<char>>) -> Progress {
        Progress { pending: items, current: None, plugins: Seq::empty(), progressed: false }
    }

    pub open spec fn after(self, event: WorkerEvent) -> Progress {
        match event {
            WorkerEvent::Begin { item } => Progress { current: Some(item@), ..self },
            WorkerEvent::Plugin { info } => Progress { plugins: self.plugins.push(info), ..self },
            WorkerEvent::End { item } => Progress {
                pending: without_first(self.pending, item@),
                current: None,
                progressed: true,
                ..self
            },
        }
    }

    /// What remains to be scanned if the worker dies now.
    pub open spec fn remaining(self) -> Seq<Seq<char>> {
        match self.current {
            Some(item) => without_first(self.pending, item),
            None => self.pending,
        }
    }

    pub open spec fn after_all(self, events: Seq<WorkerEvent>) -> Progress
        decreases events.len(),
    {
        if events.len() == 0 {
            self
        } else {
            self.after_all(events.drop_last()).after(events.last())
        }
    }
}

/// A session in progress.
pub struct Session {
    pub pending: Vec<String>,
    pub current: Option<String>,
    pub plugins: Vec<PluginInfo>,
    pub progressed: bool,
}

impl View for Session {
    type V = Progress;

    open spec fn view(&self) -> Progress {
        Progress {
            pending: item_chars(self.pending@),
            current: match self.current {
                Some(s) => Some(s@),
                None => None,
            },
            plugins: self.plugins@,
            progressed: self.progressed,
        }
    }
}

pub proof fn lemma_without_first(items: Seq<Seq<char>>, x: Seq<char>)
    ensures
        items.contains(x) ==> without_first(items, x).len() == items.len() - 1,
        !items.contains(x) ==> without_first(items, x) == items,
        forall|i: int|
            0 <= i < without_first(items, x).len() ==> items.contains(
                #[trigger] without_first(items, x)[i],
            ),
    decreases items.len(),
{
    if items.len() > 0 {
        let tail = items.skip(1);
        lemma_without_first(tail, x);
        assert forall|y: Seq<char>| tail.contains(y) implies items.contains(y) by {
            let k = choose|k: int| 0 <= k < tail.len() && tail[k] == y;
            assert(items[k + 1] == y);
        }
        if items[0] == x {
            assert(items.contains(x));
            assert forall|i: int| 0 <= i < tail.len() implies items.contains(#[trigger] tail[i]) by {
                assert(tail.contains(tail[i]));
            }
        } else {
            let w = without_first(items, x);
            assert(items.contains(x) ==> tail.contains(x)) by {
                if items.contains(x) {
                    let k = choose|k: int| 0 <= k < items.len() && items[k] == x;
                    assert(tail[k - 1] == x);
                }
            }
            if !items.contains(x) {
                assert(w =~= items);
            }
            assert forall|i: int| 0 <= i < w.len() implies items.contains(#[trigger] w[i]) by {
                if i == 0 {
                    assert(w[0] == items[0]);
                } else {
                    assert(w[i] == without_first(tail, x)[i - 1]);
                }
            }
        }
    }
}

proof fn lemma_remove_first(items: Seq<Seq<char>>, x: Seq<char>, i: int)
    requires
        0 <= i < items.len(),
        items[i] == x,
        forall|k: int| 0 <= k < i ==> items[k] != x,
    ensures
        without_first(items, x) == items.remove(i),
    decreases i,
{
    if i == 0 {
        assert(items.skip(1) =~= items.remove(0));
    } else {
        lemma_remove_first(items.skip(1), x, i - 1);
        assert(seq![items[0]] + items.skip(1).remove(i - 1) =~= items.remove(i));
    }
}

/// Takes the first `x` out of `items`.
fn remove_item(items: &mut Vec<String>, x: &str)
    ensures
        item_chars(final(items)@) == without_first(item_chars(old(items)@), x@),
{
    let mut i: usize = 0;
    let n: usize = items.len();
    while i < n
        invariant
            n == items@.len(),
            i <= n,
            items@ == old(items)@,
            forall|k: int| 0 <= k < i ==> items@[k]@ != x@,
        decreases n - i,
    {
        if text::same(items[i].as_str(), x) {
            let _ = items.remove(i);
            proof {
                let before = item_chars(old(items)@);
                lemma_remove_first(before, x@, i as int);
                assert(item_chars(items@) =~= before.remove(i as int));
            }
            return;
        }
        i = i + 1;
    }
    proof {
        let before = item_chars(old(items)@);
        lemma_without_first(before, x@);
        assert(!before.contains(x@));
    }
}

impl Session {
    pub fn new(items: Vec<String>) -> (r: Session)
        ensures
            r@ == Progress::start(item_chars(items@)),
    {
        Session { pending: items, current: None, plugins: Vec::new(), progressed: false }
    }

    /// Takes an event of the worker. The stream is taken at its word, also where items
    /// come out of order.
    pub fn on_event(&mut self, event: WorkerEvent)
        ensures
            final(self)@ == old(self)@.after(event),
    {
        match event {
            WorkerEvent::Begin { item } => {
                self.current = Some(item);
            },
            WorkerEvent::Plugin { info } => {
                self.plugins.push(info);
            },
            WorkerEvent::End { item } => {
                self.current = None;
                self.progressed = true;
                remove_item(&mut self.pending, item.as_str());
            },
        }
    }

    /// Ends the session: the item that was begun and not ended is condemned, and leaves
    /// the items that remain.
    pub fn close(self, cause: CloseCause) -> (r: SessionEnd)
        ensures
            r.plugins@ == self@.plugins,
            r.progressed == self@.progressed,
            item_chars(r.remaining@) == self@.remaining(),
            match self@.current {
                Some(item) => r.blocked matches Some(b) && b.item@ == item && b.reason == match cause {
                    CloseCause::Exited => BlockReason::Crash,
                    CloseCause::TimedOut => BlockReason::Timeout,
                },
                None => r.blocked is None,
            },
    {
        let mut pending = self.pending;
        let blocked = match self.current {
            Some(item) => {
                remove_item(&mut pending, item.as_str());
                Some(
                    BlockedItem {
                        item,
                        reason: match cause {
                            CloseCause::Exited => BlockReason::Crash,
                            CloseCause::TimedOut => BlockReason::Timeout,
                        },
                    },
                )
            },
            None => None,
        };
        SessionEnd {
            plugins: self.plugins,
            blocked,
            remaining: pending,
            progressed: self.progressed,
        }
    }
}

/// A death that condemns a pending item leaves exactly one item fewer to scan: this is
/// what brings the scan to its end.
pub proof fn a_condemned_item_leaves(p: Progress)
    requires
        p.current is Some,
        p.pending.contains(p.current->0),
    ensures
        p.remaining().len() == p.pending.len() - 1,
{
    lemma_without_first(p.pending, p.current->0);
}

/// Whatever a worker says, nothing is left to scan that was not asked for, and never more
/// than was asked for.
pub proof fn remaining_items_were_asked_for(items: Seq<Seq<char>>, events: Seq<WorkerEvent>)
    ensures
        ({
            let p = Progress::start(items).after_all(events);
            &&& p.remaining().len() <= p.pending.len() <= items.len()
            &&& forall|i: int| 0 <= i < p.pending.len() ==> items.contains(#[trigger] p.pending[i])
            &&& forall|i: int|
                0 <= i < p.remaining().len() ==> items.contains(#[trigger] p.remaining()[i])
        }),
    decreases events.len(),
{
    let p = Progress::start(items).after_all(events);
    if events.len() > 0 {
        remaining_items_were_asked_for(items, events.drop_last());
        let q = Progress::start(items).after_all(events.drop_last());
        match events.last() {
            WorkerEvent::End { item } => {
                lemma_without_first(q.pending, item@);
                assert forall|i: int| 0 <= i < p.pending.len() implies items.contains(
                    #[trigger] p.pending[i],
                ) by {
                    assert(q.pending.contains(p.pending[i]));
                }
            },
            _ => {},
        }
    } else {
        assert forall|i: int| 0 <= i < p.pending.len() implies items.contains(
            #[trigger] p.pending[i],
        ) by {
            assert(items[i] == p.pending[i]);
        }
    }
    match p.current {
        Some(item) => {
            lemma_without_first(p.pending, item);
            assert forall|i: int| 0 <= i < p.remaining().len() implies items.contains(
                #[trigger] p.remaining()[i],
            ) by {
                assert(p.pending.contains(p.remaining()[i]));
            }
        },
        None => {},
    }
}

/// The words for why an item was condemned.
pub proof fn every_condemnation_has_its_word(r: BlockReason)
    ensures
        r is Crash ==> r.wire_chars() == "crash"@,
        r is Timeout ==> r.wire_chars() == "timeout"@,
{
}

/// An item that leaves a list leaves it once: where it stands first. Those before and behind it
/// stay, in their order.
pub proof fn an_item_leaves_where_it_stands_first(
    before: Seq<Seq<char>>,
    x: Seq<char>,
    behind: Seq<Seq<char>>,
)
    requires
        !before.contains(x),
    ensures
        without_first(before.push(x) + behind, x) == before + behind,
        without_first(before, x) == before,
    decreases before.len(),
{
    let all = before.push(x) + behind;
    if before.len() == 0 {
        assert(all[0] == x);
        assert(all.skip(1) =~= behind);
        assert(before + behind =~= behind);
    } else {
        assert(before[0] != x) by {
            if before[0] == x {
                assert(before.contains(x));
            }
        }
        let rest = before.skip(1);
        assert(!rest.contains(x)) by {
            if rest.contains(x) {
                let k = choose|k: int| 0 <= k < rest.len() && rest[k] == x;
                assert(before[k + 1] == x);
            }
        }
        an_item_leaves_where_it_stands_first(rest, x, behind);
        assert(all.skip(1) =~= rest.push(x) + behind);
        assert(seq![before[0]] + (rest + behind) =~= before + behind);
        assert(seq![before[0]] + rest =~= before);
    }
}

/// A session starts with every item before it and nothing found. A `Begin` names the item that
/// is at work, a plugin is added behind those before it, and an `End` has the item that it
/// names behind it; nothing else changes.
pub proof fn every_event_tells_its_own(p: Progress, event: WorkerEvent, items: Seq<Seq<char>>)
    ensures
        Progress::start(items).pending == items,
        Progress::start(items).current is None,
        Progress::start(items).plugins.len() == 0,
        !Progress::start(items).progressed,
        event matches WorkerEvent::Begin { item } ==> {
            &&& p.after(event).current == Some(item@)
            &&& p.after(event).pending == p.pending
            &&& p.after(event).plugins == p.plugins
            &&& p.after(event).progressed == p.progressed
        },
        event matches WorkerEvent::Plugin { info } ==> {
            &&& p.after(event).plugins == p.plugins.push(info)
            &&& p.after(event).pending == p.pending
            &&& p.after(event).current == p.current
            &&& p.after(event).progressed == p.progressed
        },
        event matches WorkerEvent::End { item } ==> {
            &&& p.after(event).pending == without_first(p.pending, item@)
            &&& p.after(event).current is None
            &&& p.after(event).plugins == p.plugins
            &&& p.after(event).progressed
        },
{
}

/// Events count in the order in which they come; what remains is what no `End` was heard of,
/// but for the item at work.
pub proof fn events_count_in_their_order(p: Progress, events: Seq<WorkerEvent>, event: WorkerEvent)
    ensures
        p.after_all(Seq::empty()) == p,
        p.after_all(events.push(event)) == p.after_all(events).after(event),
        p.current is None ==> p.remaining() == p.pending,
        p.current matches Some(item) ==> p.remaining() == without_first(p.pending, item),
{
    assert(events.push(event).drop_last() =~= events);
}

/// A session is told by what it holds: the items before it and the plugins in their order, the
/// item at work, and whether one came to its end.
pub proof fn a_session_is_told_by_what_it_holds(s: Session, i: int)
    ensures
        s@.pending.len() == s.pending@.len(),
        0 <= i < s.pending@.len() ==> s@.pending[i] == s.pending@[i]@,
        s@.plugins == s.plugins@,
        s@.progressed == s.progressed,
        s@.current is Some <==> s.current is Some,
        s.current matches Some(c) ==> s@.current == Some(c@),
{
}

} // verus!
