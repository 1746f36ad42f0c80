use std::collections::VecDeque;

use vstd::prelude::*;

use crate::HISTORY_LEN;

verus! {

/// The sequence left after appending `v` to `s` and evicting the oldest entry
/// when the capacity would be exceeded.
pub open spec fn bounded_push(s: Seq<i64>, v: i64) -> Seq<i64> {
    if s.len() + 1 > HISTORY_LEN {
        s.push(v).subrange(1, s.len() as int + 1)
    } else {
        s.push(v)
    }
}

/// The history obtained by pushing every element of `xs`, in order, onto `s`.
pub open spec fn push_all(s: Seq<i64>, xs: Seq<i64>) -> Seq<i64>
    decreases xs.len(),
{
    if xs.len() == 0 {
        s
    } else {
        bounded_push(push_all(s, xs.drop_last()), xs.last())
    }
}

/// A fixed-capacity, oldest-first buffer of recent prices.
pub struct PriceHistory {
    buf: VecDeque<i64>,
}

impl View for PriceHistory {
    type V = Seq<i64>;

    closed spec fn view(&self) -> Seq<i64> {
        self.buf@
    }
}

impl PriceHistory {
    /// The buffer never holds more than its capacity.
    pub open spec fn wf(&self) -> bool {
        self@.len() <= HISTORY_LEN
    }

    pub fn new() -> (r: PriceHistory)
        ensures
            r@ == Seq::<i64>::empty(),
            r.wf(),
    {
        PriceHistory { buf: VecDeque::with_capacity(HISTORY_LEN) }
    }

    pub fn len(&self) -> (r: usize)
        ensures
            r == self@.len(),
    {
        self.buf.len()
    }

    pub fn get(&self, i: usize) -> (r: i64)
        requires
            i < self@.len(),
        ensures
            r == self@[i as int],
    {
        self.buf[i]
    }

    /// Appends `v`, evicting the oldest value when the buffer is full.
    pub fn push(&mut self, v: i64)
        requires
            old(self).wf(),
        ensures
            final(self)@ == bounded_push(old(self)@, v),
            final(self).wf(),
    {
        self.buf.push_back(v);
        if self.buf.len() > HISTORY_LEN {
            self.buf.pop_front();
        }
    }

    /// The values, oldest first.
    pub fn to_vec(&self) -> (r: Vec<i64>)
        ensures
            r@ == self@,
    {
        let mut r: Vec<i64> = Vec::new();
        let n = self.buf.len();
        let mut i: usize = 0;
        while i < n
            invariant
                n == self@.len(),
                i <= n,
                r@ == self@.subrange(0, i as int),
            decreases n - i,
        {
            r.push(self.buf[i]);
            i += 1;
            assert(r@ =~= self@.subrange(0, i as int));
        }
        assert(r@ =~= self@);
        r
    }
}

/// Pushing values onto a history within its capacity keeps exactly the most
/// recent `HISTORY_LEN` of the old contents followed by the new values, oldest
/// first; after `HISTORY_LEN` or more pushes, only the pushed values remain.
pub proof fn lemma_push_all_keeps_most_recent(s: Seq<i64>, xs: Seq<i64>)
    requires
        s.len() <= HISTORY_LEN,
    ensures
        push_all(s, xs) == (s + xs).subrange(
            if s.len() + xs.len() > HISTORY_LEN { s.len() + xs.len() - HISTORY_LEN } else { 0 },
            (s.len() + xs.len()) as int,
        ),
        xs.len() >= HISTORY_LEN ==> push_all(s, xs) == xs.subrange(
            xs.len() - HISTORY_LEN,
            xs.len() as int,
        ),
    decreases xs.len(),
{
    let n: int = (s.len() + xs.len()) as int;
    let lo: int = if n > HISTORY_LEN { n - HISTORY_LEN } else { 0 };
    if xs.len() == 0 {
        assert((s + xs).subrange(0, s.len() as int) =~= s);
    } else {
        let p = xs.drop_last();
        lemma_push_all_keeps_most_recent(s, p);
        let prev = push_all(s, p);
        assert(s + xs =~= (s + p).push(xs.last()));
        assert(bounded_push(prev, xs.last()) =~= (s + xs).subrange(lo, n));
    }
    if xs.len() >= HISTORY_LEN {
        assert((s + xs).subrange(lo, n) =~= xs.subrange(xs.len() - HISTORY_LEN, xs.len() as int));
    }
}

} // verus!
