//! Streams on their way to the mixer: which connection a packet belongs to, and what is
//! made of gaps in the sequence.
//!
//! Every connection of a producer has a generation of its own. What comes late from an
//! earlier connection neither ends nor feeds the stream of a later one.

use crate::keyed::{distinct, find, index_of, lemma_index, lemma_removed, Keyed};
use vstd::prelude::*;
use vstd::string::*;

verus! {

/// Longest gap in the sequence that is concealed.
pub const MAX_CONCEALED_GAP: u16 = 10;

/// Most frames that are made up for a gap.
pub const MAX_CONCEALED_FRAMES: u16 = 3;

/// How many packets pass between two looks at the jitter.
pub const JITTER_PERIOD: u64 = 40;

/// A stream that is being decoded.
#[derive(Debug)]
pub struct DecodeEntry {
    pub producer_id: String,
    pub epoch: u64,
    pub last_seq: Option<u16>,
    pub pkt_count: u64,
    pub logged_large_jump: bool,
}

impl Keyed for DecodeEntry {
    open spec fn key(&self) -> Seq<char> {
        self.producer_id@
    }

    fn key_text(&self) -> (r: &str) {
        self.producer_id.as_str()
    }
}

/// What a packet means for the streams.
#[derive(Clone, Copy, Debug, PartialEq, Eq, Structural)]
pub enum Verdict {
    /// It belongs to a stream that is there.
    Known,
    /// It comes from an earlier connection, and is thrown away.
    Stale,
    /// A stream is to be made for it. Where `superseded`, the one of an earlier connection
    /// leaves the mixer first.
    Create { superseded: bool },
}

/// What a packet means, for the connection it came on.
pub open spec fn verdict_of(entries: Seq<DecodeEntry>, id: Seq<char>, epoch: u64) -> Verdict {
    let i = index_of(entries, id);
    if i >= entries.len() {
        Verdict::Create { superseded: false }
    } else if entries[i].epoch == epoch {
        Verdict::Known
    } else if entries[i].epoch > epoch {
        Verdict::Stale
    } else {
        Verdict::Create { superseded: true }
    }
}

/// Does the end of a connection end the stream? Only if it is that connection's.
pub open spec fn ends_stream(entries: Seq<DecodeEntry>, id: Seq<char>, epoch: u64) -> bool {
    let i = index_of(entries, id);
    i < entries.len() && entries[i].epoch == epoch
}

/// Is the entry one of a stream that has just begun?
pub open spec fn is_fresh(e: DecodeEntry, id: Seq<char>, epoch: u64) -> bool {
    &&& e.producer_id@ == id
    &&& e.epoch == epoch
    &&& e.last_seq is None
    &&& e.pkt_count == 0
    &&& !e.logged_large_jump
}

/// Packets that are missing between one and the next.
pub open spec fn gap_between(last: u16, seq: u16) -> int {
    (seq - last - 1) % 0x1_0000
}

/// What is made of a packet.
#[derive(Clone, Copy, Debug, PartialEq, Eq, Structural)]
pub struct Arrival {
    /// Frames to make up before it.
    pub conceal: u16,
    /// A gap that is too long to conceal is logged, once a stream.
    pub log_jump: bool,
    /// The jitter is to be looked at.
    pub observe_jitter: bool,
}

/// The streams that are being decoded.
#[derive(Debug)]
pub struct Registry {
    pub entries: Vec<DecodeEntry>,
}

impl Registry {
    pub open spec fn wf(self) -> bool {
        distinct(self.entries@)
    }

    pub fn new() -> (r: Registry)
        ensures
            r.wf(),
            r.entries@.len() == 0,
    {
        Registry { entries: Vec::new() }
    }

    /// A connection has ended. Says whether its stream leaves the mixer.
    pub fn on_remove(&mut self, producer_id: &str, epoch: u64) -> (r: bool)
        requires
            old(self).wf(),
        ensures
            final(self).wf(),
            r == ends_stream(old(self).entries@, producer_id@, epoch),
            final(self).entries@ == if r {
                old(self).entries@.remove(index_of(old(self).entries@, producer_id@))
            } else {
                old(self).entries@
            },
            r ==> index_of(final(self).entries@, producer_id@) == final(self).entries@.len(),
    {
        let i: usize = find(&self.entries, producer_id);
        if i < self.entries.len() && self.entries[i].epoch == epoch {
            proof {
                lemma_removed(self.entries@, producer_id@);
            }
            let _ = self.entries.remove(i);
            true
        } else {
            false
        }
    }

    /// Judges a packet by its connection.
    pub fn judge(&self, producer_id: &str, epoch: u64) -> (r: Verdict)
        ensures
            r == verdict_of(self.entries@, producer_id@, epoch),
    {
        let i: usize = find(&self.entries, producer_id);
        if i >= self.entries.len() {
            Verdict::Create { superseded: false }
        } else if self.entries[i].epoch == epoch {
            Verdict::Known
        } else if self.entries[i].epoch > epoch {
            Verdict::Stale
        } else {
            Verdict::Create { superseded: true }
        }
    }

    /// A stream was made for a connection.
    pub fn created(&mut self, producer_id: String, epoch: u64)
        requires
            old(self).wf(),
            verdict_of(old(self).entries@, producer_id@, epoch) is Create,
        ensures
            final(self).wf(),
            verdict_of(final(self).entries@, producer_id@, epoch) == Verdict::Known,
            ({
                let before = old(self).entries@;
                let now = final(self).entries@;
                let i = index_of(before, producer_id@);
                &&& now.len() == if i < before.len() {
                    before.len()
                } else {
                    before.len() + 1
                }
                &&& is_fresh(now[i], producer_id@, epoch)
                &&& forall|k: int|
                    0 <= k < before.len() && k != i ==> #[trigger] now[k] == before[k]
            }),
    {
        let i: usize = find(&self.entries, producer_id.as_str());
        let ghost before = self.entries@;
        proof {
            lemma_index(before, producer_id@);
        }
        let entry = DecodeEntry {
            producer_id,
            epoch,
            last_seq: None,
            pkt_count: 0,
            logged_large_jump: false,
        };
        if i < self.entries.len() {
            self.entries.set(i, entry);
        } else {
            self.entries.push(entry);
        }
        proof {
            let after = self.entries@;
            assert forall|a: int, b: int| 0 <= a < b < after.len() implies (
            #[trigger] after[a]).key() != (#[trigger] after[b]).key() by {
                if a < before.len() && b < before.len() {
                    assert(before[a].key() != before[b].key());
                    assert(after[a].key() == before[a].key());
                    assert(after[b].key() == before[b].key());
                } else {
                    assert(after[a] == before[a]);
                }
            }
            assert forall|k: int| 0 <= k < i implies (#[trigger] after[k]).key()
                != producer_id@ by {
                assert(after[k] == before[k]);
            }
            crate::keyed::lemma_index_is(after, producer_id@, i as int);
        }
    }

    /// Takes a packet of a stream that is there. `seq` is its place in the sequence,
    /// nothing where its head cannot be read; then it is counted and thrown away.
    /// `jitter_known` where the jitter has been watched for long enough.
    pub fn arrived(
        &mut self,
        producer_id: &str,
        epoch: u64,
        seq: Option<u16>,
        jitter_known: bool,
    ) -> (r: Option<Arrival>)
        requires
            old(self).wf(),
            verdict_of(old(self).entries@, producer_id@, epoch) == Verdict::Known,
        ensures
            final(self).wf(),
            final(self).entries@.len() == old(self).entries@.len(),
            ({
                let before = old(self).entries@;
                let now = final(self).entries@;
                let i = index_of(before, producer_id@);
                let e = before[i];
                let after = now[i];
                let count = (e.pkt_count + 1) % 0x1_0000_0000_0000_0000;
                &&& forall|k: int|
                    0 <= k < before.len() && k != i ==> #[trigger] now[k] == before[k]
                &&& after.producer_id@ == e.producer_id@
                &&& after.epoch == e.epoch
                &&& after.pkt_count == count
                &&& match seq {
                    None => {
                        &&& r is None
                        &&& after.last_seq == e.last_seq
                        &&& after.logged_large_jump == e.logged_large_jump
                    },
                    Some(s) => {
                        let gap = match e.last_seq {
                            Some(last) => gap_between(last, s),
                            None => 0,
                        };
                        &&& r == Some(
                            Arrival {
                                conceal: if gap > MAX_CONCEALED_GAP {
                                    0
                                } else if gap > MAX_CONCEALED_FRAMES {
                                    MAX_CONCEALED_FRAMES
                                } else {
                                    gap as u16
                                },
                                log_jump: gap > MAX_CONCEALED_GAP && !e.logged_large_jump,
                                observe_jitter: jitter_known && count % JITTER_PERIOD as int == 0,
                            },
                        )
                        &&& after.last_seq == Some(s)
                        &&& after.logged_large_jump == (e.logged_large_jump || gap
                            > MAX_CONCEALED_GAP)
                    },
                }
            }),
            ({
                let e = old(self).entries@[index_of(old(self).entries@, producer_id@)];
                let number = final(self).entries@[index_of(
                    old(self).entries@,
                    producer_id@,
                )].pkt_count;
                seq is Some ==> {
                    &&& r matches Some(a)
                    &&& a.observe_jitter <==> jitter_known && number % 40 == 0
                    &&& e.last_seq is None ==> a.conceal == 0 && !a.log_jump
                    &&& e.last_seq matches Some(last) ==> {
                        let missing = (seq->0 - last - 1) % 0x1_0000;
                        &&& missing <= 3 ==> a.conceal == missing
                        &&& 3 < missing <= 10 ==> a.conceal == 3
                        &&& missing > 10 ==> a.conceal == 0
                        &&& a.log_jump <==> missing > 10 && !e.logged_large_jump
                    }
                }
            }),
    {
        let i: usize = find(&self.entries, producer_id);
        let ghost before = self.entries@;
        let count: u64 = self.entries[i].pkt_count.wrapping_add(1);
        let last = self.entries[i].last_seq;
        let logged = self.entries[i].logged_large_jump;
        let id = self.entries[i].producer_id.clone();
        let (r, last_seq, logged_large_jump) = match seq {
            None => (None, last, logged),
            Some(s) => {
                let gap: u16 = match last {
                    Some(p) => s.wrapping_sub(p.wrapping_add(1)),
                    None => 0,
                };
                proof {
                    if let Some(p) = last {
                        lemma_gap(p, s, gap);
                    }
                }
                let conceal: u16 = if gap > MAX_CONCEALED_GAP {
                    0
                } else if gap > MAX_CONCEALED_FRAMES {
                    MAX_CONCEALED_FRAMES
                } else {
                    gap
                };
                let large = gap > MAX_CONCEALED_GAP;
                (
                    Some(
                        Arrival {
                            conceal,
                            log_jump: large && !logged,
                            observe_jitter: jitter_known && count % JITTER_PERIOD == 0,
                        },
                    ),
                    Some(s),
                    logged || large,
                )
            },
        };
        self.entries.set(
            i,
            DecodeEntry { producer_id: id, epoch, last_seq, pkt_count: count, logged_large_jump },
        );
        proof {
            let after = self.entries@;
            assert forall|a: int, b: int| 0 <= a < b < after.len() implies (
            #[trigger] after[a]).key() != (#[trigger] after[b]).key() by {
                assert(before[a].key() != before[b].key());
                assert(after[a].key() == before[a].key());
                assert(after[b].key() == before[b].key());
            }
        }
        r
    }

    /// The decoder ends: every stream leaves the mixer.
    pub fn shut_down(&mut self) -> (gone: Vec<String>)
        ensures
            final(self).entries@.len() == 0,
            gone@.len() == old(self).entries@.len(),
            forall|i: int|
                0 <= i < gone@.len() ==> #[trigger] gone@[i] == old(self).entries@[i].producer_id,
    {
        let mut gone: Vec<String> = Vec::new();
        let mut i: usize = 0;
        while i < self.entries.len()
            invariant
                i <= self.entries@.len(),
                *self == *old(self),
                gone@.len() == i,
                forall|k: int|
                    0 <= k < i ==> #[trigger] gone@[k] == old(self).entries@[k].producer_id,
            decreases self.entries@.len() - i,
        {
            gone.push(self.entries[i].producer_id.clone());
            i = i + 1;
        }
        self.entries.clear();
        gone
    }
}

proof fn lemma_gap(last: u16, seq: u16, gap: u16)
    requires
        gap == (seq - ((last + 1) % 0x1_0000)) % 0x1_0000,
    ensures
        gap == gap_between(last, seq),
{
}

/// A late packet of an earlier connection is thrown away, and its late end is ignored: the
/// stream of the later connection lives on.
pub proof fn an_old_connection_cannot_touch_a_new_one(
    entries: Seq<DecodeEntry>,
    id: Seq<char>,
    old_epoch: u64,
)
    requires
        index_of(entries, id) < entries.len(),
        entries[index_of(entries, id)].epoch > old_epoch,
    ensures
        verdict_of(entries, id, old_epoch) == Verdict::Stale,
        !ends_stream(entries, id, old_epoch),
{
}

/// A packet that comes in order makes nothing up, and so does the first one of a stream.
pub proof fn packets_in_order_conceal_nothing(last: u16)
    ensures
        gap_between(last, ((last + 1) % 0x1_0000) as u16) == 0,
{
}

/// The gap before a packet is the number of those that would have fitted in between, also
/// where the numbers start again.
pub proof fn a_gap_counts_what_is_missing(last: u16, missing: int)
    requires
        0 <= missing < 0x1_0000,
    ensures
        gap_between(last, ((last + 1 + missing) % 0x1_0000) as u16) == missing,
{
}

/// A packet belongs to the stream of its producer: the same connection goes on with it, a later
/// one takes it over, an earlier one is too late. Only the same connection ends it.
pub proof fn a_connection_is_told_by_its_number(
    entries: Seq<DecodeEntry>,
    j: int,
    id: Seq<char>,
    epoch: u64,
)
    requires
        0 <= j <= entries.len(),
        j < entries.len() ==> entries[j].producer_id@ == id,
        forall|k: int| 0 <= k < j ==> (#[trigger] entries[k]).producer_id@ != id,
    ensures
        j == entries.len() ==> verdict_of(entries, id, epoch) == (
        Verdict::Create { superseded: false }) && !ends_stream(entries, id, epoch),
        j < entries.len() && epoch == entries[j].epoch ==> verdict_of(entries, id, epoch)
            == Verdict::Known && ends_stream(entries, id, epoch),
        j < entries.len() && epoch < entries[j].epoch ==> verdict_of(entries, id, epoch)
            == Verdict::Stale && !ends_stream(entries, id, epoch),
        j < entries.len() && epoch > entries[j].epoch ==> verdict_of(entries, id, epoch) == (
        Verdict::Create { superseded: true }) && !ends_stream(entries, id, epoch),
{
    assert forall|k: int| 0 <= k < j implies (#[trigger] entries[k]).key() != id by {
        assert(entries[k].producer_id@ != id);
    }
    crate::keyed::lemma_index_is(entries, id, j);
}

/// A stream that was just made has heard nothing yet.
pub proof fn a_new_stream_has_heard_nothing(e: DecodeEntry, id: Seq<char>, epoch: u64)
    requires
        is_fresh(e, id, epoch),
    ensures
        e.producer_id@ == id && e.epoch == epoch,
        e.last_seq is None && e.pkt_count == 0 && !e.logged_large_jump,
{
}

/// No two streams are decoded of one producer.
pub proof fn no_producer_is_decoded_twice(r: Registry, i: int, j: int)
    requires
        r.wf(),
        0 <= i < j < r.entries@.len(),
    ensures
        r.entries@[i].producer_id@ != r.entries@[j].producer_id@,
{
    assert(r.entries@[i].key() != r.entries@[j].key());
}

} // verus!
