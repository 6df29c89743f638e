//! The worker's side of a scan: one item per line in, events out. The `Begin` of an item
//! leaves before the item is loaded, so that a crash can be laid at its door.

use crate::plugin::PluginInfo;
use crate::plugin_scan::protocol::WorkerEvent;
use crate::plugin_scan::session::Progress;
use crate::text;
use vstd::prelude::*;
use vstd::string::*;

verus! {

/// The worker between two lines, or in the middle of an item.
pub struct WorkerLoop {
    pub current: Option<String>,
}

/// The events that a scanned item gives after its `Begin`.
pub open spec fn closing_events(
    events: Seq<WorkerEvent>,
    item: Seq<char>,
    infos: Seq<PluginInfo>,
) -> bool {
    &&& events.len() == infos.len() + 1
    &&& forall|k: int|
        0 <= k < infos.len() ==> #[trigger] events[k] == (WorkerEvent::Plugin { info: infos[k] })
    &&& events[infos.len() as int] matches WorkerEvent::End { item: i }
    &&& i@ == item
}

/// All the events of an item.
pub open spec fn item_run(events: Seq<WorkerEvent>, item: Seq<char>, infos: Seq<PluginInfo>) -> bool {
    &&& events.len() == infos.len() + 2
    &&& events[0] matches WorkerEvent::Begin { item: i }
    &&& i@ == item
    &&& closing_events(events.skip(1), item, infos)
}

impl WorkerLoop {
    pub fn new() -> (r: WorkerLoop)
        ensures
            r.current is None,
    {
        WorkerLoop { current: None }
    }

    /// Takes a line of input. A line of white space is passed over; any other names an
    /// item, which is begun.
    pub fn on_line(&mut self, line: &str) -> (r: Option<WorkerEvent>)
        requires
            old(self).current is None,
        ensures
            text::trimmed(line@).len() == 0 ==> r is None && final(self).current is None,
            text::trimmed(line@).len() > 0 ==> {
                &&& r matches Some(WorkerEvent::Begin { item })
                &&& item@ == text::trimmed(line@)
                &&& final(self).current matches Some(c)
                &&& c@ == text::trimmed(line@)
            },
    {
        let item = text::trim(line);
        if item.as_str().is_empty() {
            return None;
        }
        self.current = Some(item.clone());
        Some(WorkerEvent::Begin { item })
    }

    /// Takes what was found in the item, and ends it.
    pub fn on_scanned(&mut self, infos: Vec<PluginInfo>) -> (r: Vec<WorkerEvent>)
        requires
            old(self).current is Some,
            infos@.len() < usize::MAX,
        ensures
            closing_events(r@, old(self).current->0@, infos@),
            final(self).current is None,
    {
        let mut r: Vec<WorkerEvent> = Vec::new();
        let mut i: usize = 0;
        while i < infos.len()
            invariant
                i <= infos@.len(),
                r@.len() == i,
                forall|k: int|
                    0 <= k < i ==> #[trigger] r@[k] == (WorkerEvent::Plugin { info: infos@[k] }),
            decreases infos@.len() - i,
        {
            r.push(WorkerEvent::Plugin { info: infos[i].duplicate() });
            i = i + 1;
        }
        let item = self.current.take();
        match item {
            Some(item) => {
                r.push(WorkerEvent::End { item });
            },
            None => {},
        }
        r
    }

    /// The worker's exit code: success at the end of the input, failure where the
    /// coordinator no longer listens.
    pub fn exit_code(stdout_closed: bool) -> (r: i32)
        ensures
            r == if stdout_closed {
                1i32
            } else {
                0i32
            },
    {
        if stdout_closed {
            1
        } else {
            0
        }
    }
}

proof fn lemma_run_prefix(
    p: Progress,
    events: Seq<WorkerEvent>,
    item: Seq<char>,
    infos: Seq<PluginInfo>,
    n: int,
)
    requires
        item_run(events, item, infos),
        0 <= n <= infos.len(),
    ensures
        p.after_all(events.take(n + 1)) == (Progress {
            current: Some(item),
            plugins: p.plugins + infos.take(n),
            ..p
        }),
    decreases n,
{
    if n > 0 {
        lemma_run_prefix(p, events, item, infos, n - 1);
        assert(events.take(n + 1).drop_last() =~= events.take(n));
        assert(events.take(n + 1).last() == events.skip(1)[n - 1]);
        assert((p.plugins + infos.take(n - 1)).push(infos[n - 1]) =~= p.plugins + infos.take(n));
    } else {
        reveal_with_fuel(Progress::after_all, 2);
        assert(events.take(1).drop_last() =~= Seq::<WorkerEvent>::empty());
        assert(events.take(1).last() == events[0]);
        assert(p.plugins + infos.take(0) =~= p.plugins);
    }
}

/// A session that hears all the events of the item that is next collects its plugins and
/// has that item behind it; nobody is to blame.
pub proof fn an_item_that_ends_is_done(
    p: Progress,
    events: Seq<WorkerEvent>,
    item: Seq<char>,
    infos: Seq<PluginInfo>,
)
    requires
        item_run(events, item, infos),
        p.pending.len() > 0,
        p.pending[0] == item,
    ensures
        p.after_all(events) == (Progress {
            pending: p.pending.skip(1),
            current: None,
            plugins: p.plugins + infos,
            progressed: true,
        }),
{
    let n = infos.len() as int;
    lemma_run_prefix(p, events, item, infos, n);
    assert(infos.take(n) =~= infos);
    assert(events.drop_last() =~= events.take(n + 1));
    assert(events.last() == events.skip(1)[n]);
}

/// A worker that dies after the `Begin` of the next item and before its `End` has that
/// item condemned, and only that item leaves those that remain. What was collected is
/// kept.
pub proof fn a_crash_is_laid_at_the_items_door(
    p: Progress,
    events: Seq<WorkerEvent>,
    item: Seq<char>,
    infos: Seq<PluginInfo>,
    heard: int,
)
    requires
        item_run(events, item, infos),
        p.pending.len() > 0,
        p.pending[0] == item,
        1 <= heard < events.len(),
    ensures
        ({
            let q = p.after_all(events.take(heard));
            &&& q.current == Some(item)
            &&& q.remaining() == p.pending.skip(1)
            &&& p.plugins.is_prefix_of(q.plugins)
        }),
{
    lemma_run_prefix(p, events, item, infos, heard - 1);
    assert((p.plugins + infos.take(heard - 1)).take(p.plugins.len() as int) =~= p.plugins);
}

/// The events of an item: it begins, its plugins follow in their order, it ends.
pub proof fn an_item_begins_and_ends(
    events: Seq<WorkerEvent>,
    item: Seq<char>,
    infos: Seq<PluginInfo>,
    k: int,
)
    requires
        item_run(events, item, infos),
    ensures
        events.len() == infos.len() + 2,
        events[0] matches WorkerEvent::Begin { item: i } && i@ == item,
        0 <= k < infos.len() ==> events[k + 1] == (WorkerEvent::Plugin { info: infos[k] }),
        events.last() matches WorkerEvent::End { item: i } && i@ == item,
{
    let tail = events.skip(1);
    if 0 <= k < infos.len() {
        assert(tail[k] == events[k + 1]);
    }
    assert(tail[infos.len() as int] == events.last());
}

} // verus!
