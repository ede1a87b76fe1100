//! A fixed-capacity FIFO buffer of samples.

use std::collections::VecDeque;
use vstd::prelude::*;

verus! {

/// The number of samples a dashboard window keeps by default.
pub const DEFAULT_CAPACITY: usize = 60;

/// What pushing `v` does to the contents `s` of a window of capacity `cap`:
/// nothing when `cap` is zero, otherwise the oldest sample is evicted first
/// when the window is full.
pub open spec fn push_model<T>(s: Seq<T>, cap: nat, v: T) -> Seq<T> {
    if cap == 0 {
        s
    } else if s.len() >= cap {
        s.drop_first().push(v)
    } else {
        s.push(v)
    }
}

/// The contents after pushing every value of `vals`, in order, onto `s`.
pub open spec fn push_all_model<T>(s: Seq<T>, cap: nat, vals: Seq<T>) -> Seq<T>
    decreases vals.len(),
{
    if vals.len() == 0 {
        s
    } else {
        push_model(push_all_model(s, cap, vals.drop_last()), cap, vals.last())
    }
}

/// The last `min(len, cap)` elements of `s`.
pub open spec fn last_at_most<T>(s: Seq<T>, cap: nat) -> Seq<T> {
    if s.len() <= cap {
        s
    } else {
        s.subrange(s.len() - cap, s.len() as int)
    }
}

/// Ordered history of samples, oldest first, never longer than its capacity.
pub struct SlidingWindow<T> {
    items: VecDeque<T>,
    capacity: usize,
}

impl<T> View for SlidingWindow<T> {
    type V = Seq<T>;

    closed spec fn view(&self) -> Seq<T> {
        self.items@
    }
}

impl<T> SlidingWindow<T> {
    pub closed spec fn spec_capacity(&self) -> nat {
        self.capacity as nat
    }

    /// The window never holds more samples than its capacity.
    pub open spec fn wf(&self) -> bool {
        self@.len() <= self.spec_capacity()
    }

    /// An empty window that keeps at most `capacity` samples. With capacity
    /// zero every push is a no-op.
    pub fn new(capacity: usize) -> (r: Self)
        ensures
            r.wf(),
            r@ == Seq::<T>::empty(),
            r.spec_capacity() == capacity,
    {
        SlidingWindow { items: VecDeque::new(), capacity }
    }

    /// An empty window of the default capacity.
    pub fn with_default_capacity() -> (r: Self)
        ensures
            r.wf(),
            r@ == Seq::<T>::empty(),
            r.spec_capacity() == DEFAULT_CAPACITY,
    {
        Self::new(DEFAULT_CAPACITY)
    }

    /// Appends `value`, first evicting the oldest sample if the window is full.
    pub fn push(&mut self, value: T)
        requires
            old(self).wf(),
        ensures
            final(self).wf(),
            final(self).spec_capacity() == old(self).spec_capacity(),
            final(self)@ == push_model(old(self)@, old(self).spec_capacity(), value),
    {
        if self.capacity == 0 {
            return;
        }
        if self.items.len() >= self.capacity {
            let _ = self.items.pop_front();
        }
        self.items.push_back(value);
    }

    pub fn len(&self) -> (r: usize)
        ensures
            r == self@.len(),
    {
        self.items.len()
    }

    pub fn is_empty(&self) -> (r: bool)
        ensures
            r == (self@.len() == 0),
    {
        self.items.len() == 0
    }

    pub fn capacity(&self) -> (r: usize)
        ensures
            r == self.spec_capacity(),
    {
        self.capacity
    }

    /// The sample at position `i`, counted from the oldest retained one.
    pub fn get(&self, i: usize) -> (r: &T)
        requires
            i < self@.len(),
        ensures
            *r == self@[i as int],
    {
        &self.items[i]
    }
}

impl<T: Copy> SlidingWindow<T> {
    /// The contents as `(index, value)` pairs, index 0 being the oldest
    /// retained sample.
    pub fn indexed(&self) -> (r: Vec<(usize, T)>)
        ensures
            r@.len() == self@.len(),
            forall|i: int| 0 <= i < r@.len() ==> r@[i] == (i as usize, self@[i]),
    {
        let n = self.items.len();
        let mut out: Vec<(usize, T)> = Vec::new();
        let mut i: usize = 0;
        while i < n
            invariant
                n == self@.len(),
                i <= n,
                out@.len() == i,
                forall|j: int| 0 <= j < i ==> out@[j] == (j as usize, self@[j]),
            decreases n - i,
        {
            out.push((i, self.items[i]));
            i = i + 1;
        }
        out
    }
}

/// After any pushes, the contents of a well-formed window are the last
/// `min(len, capacity)` values of what it held followed by what was pushed;
/// in particular its length is `min(held + pushed, capacity)` and eviction
/// is first in, first out.
pub proof fn lemma_push_all_keeps_suffix<T>(s: Seq<T>, cap: nat, vals: Seq<T>)
    requires
        s.len() <= cap,
    ensures
        push_all_model(s, cap, vals) == last_at_most(s + vals, cap),
        push_all_model(s, cap, vals).len() == if s.len() + vals.len() <= cap {
            s.len() + vals.len()
        } else {
            cap
        },
    decreases vals.len(),
{
    if vals.len() == 0 {
        assert(s + vals =~= s);
    } else {
        let init = vals.drop_last();
        lemma_push_all_keeps_suffix(s, cap, init);
        let prev = push_all_model(s, cap, init);
        let all = s + vals;
        assert(s + init =~= all.drop_last());
        if cap == 0 {
            assert(last_at_most(all, cap) =~= Seq::<T>::empty());
            assert(last_at_most(s + init, cap) =~= Seq::<T>::empty());
        } else if all.len() <= cap {
            assert(all =~= (s + init).push(vals.last()));
        } else {
            assert(last_at_most(all, cap) =~= last_at_most(s + init, cap).drop_first().push(
                vals.last(),
            ));
        }
    }
}

/// Starting from an empty window of capacity `cap`, pushing the values of
/// `vals` leaves exactly `min(|vals|, cap)` samples: the last ones pushed,
/// in push order.
pub proof fn lemma_fill_from_empty<T>(cap: nat, vals: Seq<T>)
    ensures
        push_all_model(Seq::<T>::empty(), cap, vals).len() == if vals.len() <= cap {
            vals.len()
        } else {
            cap
        },
        push_all_model(Seq::<T>::empty(), cap, vals) == last_at_most(vals, cap),
{
    lemma_push_all_keeps_suffix(Seq::<T>::empty(), cap, vals);
    assert(Seq::<T>::empty() + vals =~= vals);
}

} // verus!
