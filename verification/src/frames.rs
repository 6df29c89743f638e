//! Blocks of samples: cut to a fixed size, and with the channels interleaved or apart.
//!
//! What a sample is does not matter here.

use vstd::prelude::*;

verus! {

/// The chunks of `size` that a sequence begins with.
pub open spec fn chunks_of<T>(s: Seq<T>, size: nat) -> Seq<Seq<T>>
    decreases s.len(),
{
    if size == 0 || s.len() < size {
        Seq::empty()
    } else {
        seq![s.take(size as int)] + chunks_of(s.skip(size as int), size)
    }
}

/// What is left behind them.
pub open spec fn rest_of<T>(s: Seq<T>, size: nat) -> Seq<T>
    decreases s.len(),
{
    if size == 0 || s.len() < size {
        s
    } else {
        rest_of(s.skip(size as int), size)
    }
}

/// Chunks, one behind the other.
pub open spec fn joined_chunks<T>(chunks: Seq<Seq<T>>) -> Seq<T>
    decreases chunks.len(),
{
    if chunks.len() == 0 {
        Seq::empty()
    } else {
        chunks[0] + joined_chunks(chunks.skip(1))
    }
}

/// Cutting loses nothing and changes no order: the chunks and what is left are the
/// sequence. What is left is no chunk.
pub proof fn cutting_loses_nothing<T>(s: Seq<T>, size: nat)
    requires
        size > 0,
    ensures
        joined_chunks(chunks_of(s, size)) + rest_of(s, size) == s,
        rest_of(s, size).len() < size,
        forall|i: int|
            0 <= i < chunks_of(s, size).len() ==> (#[trigger] chunks_of(s, size)[i]).len() == size,
    decreases s.len(),
{
    if s.len() >= size {
        let tail = s.skip(size as int);
        cutting_loses_nothing(tail, size);
        let c = chunks_of(s, size);
        assert(c.skip(1) =~= chunks_of(tail, size));
        assert(joined_chunks(c) + rest_of(s, size) =~= s.take(size as int) + (joined_chunks(
            chunks_of(tail, size),
        ) + rest_of(tail, size)));
        assert(s.take(size as int) + tail =~= s);
        assert forall|i: int| 0 <= i < c.len() implies (#[trigger] c[i]).len() == size by {
            if i > 0 {
                assert(c[i] == chunks_of(tail, size)[i - 1]);
            }
        }
    } else {
        assert(joined_chunks(Seq::<Seq<T>>::empty()) + s =~= s);
    }
}

/// One more sample fills the chunk that was left open, or is left with it.
proof fn lemma_one_more<T>(s: Seq<T>, x: T, size: nat)
    requires
        size > 0,
    ensures
        rest_of(s, size).len() < size,
        rest_of(s, size).len() + 1 == size ==> {
            &&& chunks_of(s.push(x), size) == chunks_of(s, size).push(rest_of(s, size).push(x))
            &&& rest_of(s.push(x), size) == Seq::<T>::empty()
        },
        rest_of(s, size).len() + 1 < size ==> {
            &&& chunks_of(s.push(x), size) == chunks_of(s, size)
            &&& rest_of(s.push(x), size) == rest_of(s, size).push(x)
        },
    decreases s.len(),
{
    let t = s.push(x);
    if s.len() >= size {
        let tail = s.skip(size as int);
        lemma_one_more(tail, x, size);
        assert(t.skip(size as int) =~= tail.push(x));
        assert(t.take(size as int) =~= s.take(size as int));
        assert(chunks_of(t, size) =~= seq![s.take(size as int)] + chunks_of(tail.push(x), size));
        if rest_of(s, size).len() + 1 == size {
            assert(chunks_of(t, size) =~= chunks_of(s, size).push(rest_of(s, size).push(x)));
        } else {
            assert(chunks_of(t, size) =~= chunks_of(s, size));
        }
    } else if s.len() + 1 == size {
        assert(t.take(size as int) =~= t);
        assert(t.skip(size as int) =~= Seq::<T>::empty());
        assert(chunks_of(t.skip(size as int), size) =~= Seq::<Seq<T>>::empty());
        assert(rest_of(t.skip(size as int), size) =~= Seq::<T>::empty());
        assert(chunks_of(t, size) =~= seq![t]);
        assert(chunks_of(s, size) =~= Seq::<Seq<T>>::empty());
        assert(chunks_of(s, size).push(s.push(x)) =~= seq![t]);
    }
}

/// The contents of chunks.
pub open spec fn contents<T>(chunks: Seq<Vec<T>>) -> Seq<Seq<T>> {
    chunks.map_values(|c: Vec<T>| c@)
}

/// Samples that wait until there are enough of them for a chunk.
#[derive(Debug)]
pub struct Chunker<T> {
    pub size: usize,
    pub pending: Vec<T>,
}

impl<T: Copy> Chunker<T> {
    pub open spec fn wf(self) -> bool {
        self.pending@.len() < self.size
    }

    pub fn new(size: usize) -> (r: Chunker<T>)
        requires
            size > 0,
        ensures
            r.wf(),
            r.size == size,
            r.pending@ == Seq::<T>::empty(),
    {
        Chunker { size, pending: Vec::new() }
    }

    /// Takes samples, and gives the chunks that are full with them.
    pub fn push(&mut self, more: &[T]) -> (r: Vec<Vec<T>>)
        requires
            old(self).wf(),
        ensures
            final(self).wf(),
            final(self).size == old(self).size,
            contents(r@) == chunks_of(old(self).pending@ + more@, old(self).size as nat),
            final(self).pending@ == rest_of(old(self).pending@ + more@, old(self).size as nat),
            r@.len() == (old(self).pending@ + more@).len() / old(self).size as nat,
            forall|i: int|
                0 <= i < r@.len() ==> (#[trigger] r@[i])@ == (old(self).pending@
                    + more@).subrange(old(self).size * i, old(self).size * i + old(self).size),
            forall|i: int| 0 <= i < r@.len() ==> (#[trigger] r@[i])@.len() == old(self).size,
    {
        let ghost before = self.pending@;
        let ghost size = self.size as nat;
        let mut r: Vec<Vec<T>> = Vec::new();
        let len: usize = more.len();
        let mut i: usize = 0;
        proof {
            assert(before + more@.take(0) =~= before);
            assert(contents(r@) =~= chunks_of(before, size));
        }
        while i < len
            invariant
                i <= len,
                len == more@.len(),
                self.wf(),
                self.size == size,
                size > 0,
                contents(r@) == chunks_of(before + more@.take(i as int), size),
                self.pending@ == rest_of(before + more@.take(i as int), size),
            decreases len - i,
        {
            let ghost so_far = before + more@.take(i as int);
            let ghost got = contents(r@);
            proof {
                lemma_one_more(so_far, more@[i as int], size);
                assert(before + more@.take(i + 1) =~= so_far.push(more@[i as int]));
            }
            self.pending.push(more[i]);
            if self.pending.len() == self.size {
                let mut full: Vec<T> = Vec::new();
                std::mem::swap(&mut full, &mut self.pending);
                let ghost f = full@;
                r.push(full);
                assert(contents(r@) =~= got.push(f));
                assert(self.pending@ =~= Seq::<T>::empty());
            }
            i = i + 1;
        }
        assert(more@.take(i as int) =~= more@);
        proof {
            let all = before + more@;
            pieces_are_cut_one_behind_the_other(all, size);
            assert(contents(r@).len() == r@.len());
            assert forall|k: int| 0 <= k < r@.len() implies (#[trigger] r@[k])@ == all.subrange(
                size * k,
                size * k + size,
            ) && r@[k]@.len() == size by {
                assert(contents(r@)[k] == r@[k]@);
                assert(size * k >= 0 && size * k + size <= all.len()) by (nonlinear_arith)
                    requires
                        size > 0,
                        0 <= k < all.len() / size,
                ;
            }
        }
        r
    }
}

/// The samples of one channel of two.
pub open spec fn lane<T>(stereo: Seq<T>, channel: int) -> Seq<T> {
    Seq::new(stereo.len() / 2, |i: int| stereo[2 * i + channel])
}

/// Two channels in turn.
pub open spec fn interleaved<T>(left: Seq<T>, right: Seq<T>) -> Seq<T> {
    Seq::new(
        2 * left.len(),
        |i: int|
            if i % 2 == 0 {
                left[i / 2]
            } else {
                right[i / 2]
            },
    )
}

/// Takes two channels apart. A sample without its partner is left out.
pub fn split_stereo<T: Copy>(stereo: &[T]) -> (r: (Vec<T>, Vec<T>))
    ensures
        r.0@ == lane(stereo@, 0),
        r.1@ == lane(stereo@, 1),
{
    let mut left: Vec<T> = Vec::new();
    let mut right: Vec<T> = Vec::new();
    let n: usize = stereo.len() / 2;
    let mut i: usize = 0;
    while i < n
        invariant
            i <= n,
            n == stereo@.len() / 2,
            stereo@.len() <= usize::MAX,
            left@ == lane(stereo@, 0).take(i as int),
            right@ == lane(stereo@, 1).take(i as int),
        decreases n - i,
    {
        left.push(stereo[2 * i]);
        right.push(stereo[2 * i + 1]);
        assert(left@ =~= lane(stereo@, 0).take(i + 1));
        assert(right@ =~= lane(stereo@, 1).take(i + 1));
        i = i + 1;
    }
    assert(left@ =~= lane(stereo@, 0));
    assert(right@ =~= lane(stereo@, 1));
    (left, right)
}

/// Appends two channels in turn.
pub fn append_interleaved<T: Copy>(out: &mut Vec<T>, left: &[T], right: &[T])
    requires
        left@.len() == right@.len(),
    ensures
        final(out)@ == old(out)@ + interleaved(left@, right@),
{
    let ghost head = out@;
    let n: usize = left.len();
    let mut i: usize = 0;
    assert(out@ =~= head + interleaved(left@, right@).take(0));
    while i < n
        invariant
            i <= n,
            n == left@.len(),
            n == right@.len(),
            out@ == head + interleaved(left@, right@).take(2 * i),
        decreases n - i,
    {
        out.push(left[i]);
        out.push(right[i]);
        assert(interleaved(left@, right@)[2 * i] == left@[i as int]);
        assert(interleaved(left@, right@)[2 * i + 1] == right@[i as int]);
        assert(out@ =~= head + interleaved(left@, right@).take(2 * (i + 1)));
        i = i + 1;
    }
    assert(interleaved(left@, right@).take(2 * n) =~= interleaved(left@, right@));
}

/// One channel, played on both sides.
pub fn on_both_sides<T: Copy>(mono: &[T]) -> (r: Vec<T>)
    ensures
        r@ == interleaved(mono@, mono@),
{
    let mut r: Vec<T> = Vec::new();
    append_interleaved(&mut r, mono, mono);
    assert(r@ =~= interleaved(mono@, mono@));
    r
}

/// Taking apart undoes putting together.
pub proof fn splitting_undoes_interleaving<T>(left: Seq<T>, right: Seq<T>)
    requires
        left.len() == right.len(),
    ensures
        lane(interleaved(left, right), 0) == left,
        lane(interleaved(left, right), 1) == right,
{
    assert(lane(interleaved(left, right), 0) =~= left);
    assert(lane(interleaved(left, right), 1) =~= right);
}

/// The pieces are cut one behind the other, each as long as asked for; as many as there are
/// whole ones, and the rest is what follows on them.
pub proof fn pieces_are_cut_one_behind_the_other<T>(s: Seq<T>, size: nat)
    requires
        size > 0,
    ensures
        chunks_of(s, size).len() == s.len() / size,
        rest_of(s, size) == s.skip((size * (s.len() / size)) as int),
        forall|i: int|
            0 <= i < s.len() / size ==> #[trigger] chunks_of(s, size)[i] == s.subrange(
                size * i,
                size * i + size,
            ),
    decreases s.len(),
{
    let n = s.len() / size;
    if s.len() < size {
        assert(n == 0) by (nonlinear_arith)
            requires
                n == s.len() / size,
                s.len() < size,
        ;
        assert(size * n == 0) by (nonlinear_arith)
            requires
                n == 0,
        ;
        assert(s.skip(0) =~= s);
    } else {
        let t = s.skip(size as int);
        pieces_are_cut_one_behind_the_other(t, size);
        assert(t.len() / size + 1 == n) by (nonlinear_arith)
            requires
                n == s.len() / size,
                t.len() + size == s.len(),
                size > 0,
        ;
        assert(size * n <= s.len() && size * n == size * (n - 1) + size) by (nonlinear_arith)
            requires
                n == s.len() / size,
                size > 0,
        ;
        assert(t.skip(size * (n - 1)) =~= s.skip((size * n) as int));
        assert forall|i: int| 0 <= i < n implies #[trigger] chunks_of(s, size)[i] == s.subrange(
            size * i,
            size * i + size,
        ) by {
            if i == 0 {
                assert(size * i == 0) by (nonlinear_arith)
                    requires
                        i == 0,
                ;
                assert(s.take(size as int) =~= s.subrange(0, size as int));
            } else {
                assert(chunks_of(s, size)[i] == chunks_of(t, size)[i - 1]);
                assert(size * (i - 1) + size == size * i && size * i + size <= size * n)
                    by (nonlinear_arith)
                    requires
                        0 < i < n,
                ;
                assert(size * (i - 1) >= 0) by (nonlinear_arith)
                    requires
                        0 < i,
                ;
                assert(t.subrange(size * (i - 1), size * (i - 1) + size) =~= s.subrange(
                    size * i,
                    size * i + size,
                ));
            }
        }
    }
}

/// A lane holds every second sample, from its own first one on; interleaved, the left ones
/// stand at the even places and the right ones behind them.
pub proof fn left_stands_before_right<T>(stereo: Seq<T>, left: Seq<T>, right: Seq<T>, i: int)
    requires
        0 <= i,
    ensures
        lane(stereo, 0).len() == stereo.len() / 2,
        lane(stereo, 1).len() == stereo.len() / 2,
        i < stereo.len() / 2 ==> lane(stereo, 0)[i] == stereo[2 * i] && lane(stereo, 1)[i]
            == stereo[2 * i + 1],
        interleaved(left, right).len() == 2 * left.len(),
        i < left.len() ==> interleaved(left, right)[2 * i] == left[i] && interleaved(
            left,
            right,
        )[2 * i + 1] == right[i],
{
    assert((2 * i) / 2 == i && (2 * i + 1) / 2 == i);
}

/// Pieces are told by what they hold, one by one.
pub proof fn pieces_are_told_by_what_they_hold<T>(chunks: Seq<Vec<T>>, i: int)
    requires
        0 <= i < chunks.len(),
    ensures
        contents(chunks).len() == chunks.len(),
        contents(chunks)[i] == chunks[i]@,
{
}

} // verus!
