//! Batching between pipeline stages: items accumulate until a size threshold
//! is reached, and whatever is left is flushed when the upstream closes.
use vstd::prelude::*;

verus! {

/// What pushing `item` onto a pending batch with threshold `t` gives: the
/// batch that is flushed, if any, and what stays pending.
pub open spec fn push_step<T>(t: nat, pending: Seq<T>, item: T) -> (Option<Seq<T>>, Seq<T>) {
    let q = pending.push(item);
    if q.len() >= t {
        (Some(q), Seq::empty())
    } else {
        (None, q)
    }
}

/// Batches flushed, and items left pending, after pushing `items` in order
/// onto an empty batcher with threshold `t`.
pub open spec fn pushed<T>(t: nat, items: Seq<T>) -> (Seq<Seq<T>>, Seq<T>)
    decreases items.len(),
{
    if items.len() == 0 {
        (Seq::empty(), Seq::empty())
    } else {
        let (bs, p) = pushed(t, items.drop_last());
        let (f, q) = push_step(t, p, items.last());
        match f {
            Some(b) => (bs.push(b), q),
            None => (bs, q),
        }
    }
}

/// Concatenation of a sequence of sequences, in order.
pub open spec fn concat_all<T>(s: Seq<Seq<T>>) -> Seq<T>
    decreases s.len(),
{
    if s.len() == 0 {
        Seq::empty()
    } else {
        concat_all(s.drop_last()) + s.last()
    }
}

/// Batching loses and reorders nothing: the flushed batches followed by what
/// is pending are exactly the items pushed, every flushed batch holds exactly
/// `t` items, and fewer than `t` stay pending.
pub proof fn lemma_batches_keep_items<T>(t: nat, items: Seq<T>)
    requires
        t > 0,
    ensures
        concat_all(pushed(t, items).0) + pushed(t, items).1 == items,
        forall|i: int|
            0 <= i < pushed(t, items).0.len() ==> (#[trigger] pushed(t, items).0[i]).len() == t,
        pushed(t, items).1.len() < t,
    decreases items.len(),
{
    if items.len() > 0 {
        let init = items.drop_last();
        lemma_batches_keep_items(t, init);
        let (bs, p) = pushed(t, init);
        let q = p.push(items.last());
        assert(init.push(items.last()) =~= items);
        if q.len() >= t {
            assert(bs.push(q).drop_last() =~= bs);
            assert(concat_all(bs.push(q)) + Seq::<T>::empty() =~= items);
            assert forall|i: int| 0 <= i < bs.push(q).len() implies (#[trigger] bs.push(
                q,
            )[i]).len() == t by {
                if i < bs.len() {
                    assert(bs.push(q)[i] == bs[i]);
                }
            }
        } else {
            assert(concat_all(bs) + q =~= items);
        }
    }
}

/// Fewer than `t` items followed by a close give exactly one batch, which
/// holds all of them in order: nothing was flushed before the close.
pub proof fn lemma_flush_on_close<T>(t: nat, items: Seq<T>)
    requires
        items.len() < t,
    ensures
        pushed(t, items).0.len() == 0,
        pushed(t, items).1 == items,
    decreases items.len(),
{
    if items.len() > 0 {
        lemma_flush_on_close(t, items.drop_last());
        assert(items.drop_last().push(items.last()) =~= items);
    }
}

/// Accumulates items and hands them out in batches of `threshold`.
pub struct Batcher<T> {
    buffer: Vec<T>,
    threshold: usize,
}

impl<T> Batcher<T> {
    /// Items held and not yet flushed, in arrival order.
    pub closed spec fn pending(&self) -> Seq<T> {
        self.buffer@
    }

    /// The batch size that triggers a flush.
    pub closed spec fn limit(&self) -> nat {
        self.threshold as nat
    }

    /// An empty batcher that flushes every `threshold` items.
    pub fn new(threshold: usize) -> (r: Batcher<T>)
        requires
            threshold > 0,
        ensures
            r.pending() == Seq::<T>::empty(),
            r.limit() == threshold,
    {
        Batcher { buffer: Vec::new(), threshold }
    }

    pub fn threshold(&self) -> (r: usize)
        ensures
            r == self.limit(),
    {
        self.threshold
    }

    pub fn len(&self) -> (r: usize)
        ensures
            r == self.pending().len(),
    {
        self.buffer.len()
    }

    /// Adds `item`; when that makes the batch full, hands out the whole batch
    /// and starts an empty one.
    pub fn push(&mut self, item: T) -> (r: Option<Vec<T>>)
        requires
            old(self).pending().len() < old(self).limit(),
        ensures
            final(self).limit() == old(self).limit(),
            final(self).pending().len() < final(self).limit(),
            ({
                let (f, q) = push_step(old(self).limit(), old(self).pending(), item);
                &&& final(self).pending() == q
                &&& match f {
                    Some(b) => r.is_some() && r.unwrap()@ == b,
                    None => r.is_none(),
                }
            }),
    {
        self.buffer.push(item);
        if self.buffer.len() >= self.threshold {
            let mut batch: Vec<T> = Vec::new();
            std::mem::swap(&mut batch, &mut self.buffer);
            Some(batch)
        } else {
            None
        }
    }

    /// Hands out what is pending, if anything: the flush when the upstream
    /// closes. The batcher is empty afterwards.
    pub fn close(&mut self) -> (r: Option<Vec<T>>)
        ensures
            final(self).limit() == old(self).limit(),
            final(self).pending() == Seq::<T>::empty(),
            old(self).pending().len() == 0 ==> r.is_none(),
            old(self).pending().len() > 0 ==> r.is_some() && r.unwrap()@ == old(self).pending(),
    {
        if self.buffer.len() == 0 {
            None
        } else {
            let mut batch: Vec<T> = Vec::new();
            std::mem::swap(&mut batch, &mut self.buffer);
            Some(batch)
        }
    }
}

/// Texts joined with nothing between them.
pub open spec fn joined(texts: Seq<String>) -> Seq<char>
    decreases texts.len(),
{
    if texts.len() == 0 {
        Seq::empty()
    } else {
        joined(texts.drop_last()) + texts.last()@
    }
}

/// The body of one remote write: the formatted batches concatenated in order,
/// with no delimiter.
pub fn concat_texts(texts: &Vec<String>) -> (r: String)
    ensures
        r@ == joined(texts@),
{
    let mut out = String::new();
    let n = texts.len();
    let mut i: usize = 0;
    assert(texts@.take(0) =~= Seq::<String>::empty());
    while i < n
        invariant
            n == texts@.len(),
            i <= n,
            out@ == joined(texts@.take(i as int)),
        decreases n - i,
    {
        out.append(texts[i].as_str());
        proof {
            let p = texts@.take(i as int + 1);
            assert(p.drop_last() =~= texts@.take(i as int));
        }
        i = i + 1;
    }
    assert(texts@.take(n as int) =~= texts@);
    out
}

} // verus!
