//! A bounded FIFO of samples: appending to a full ring evicts the oldest one.

use vstd::prelude::*;

verus! {

/// Capacity of the ring that taps the decoded stream, in samples.
pub const CAPTURE_CAPACITY: usize = 8192;

/// What the contents of a ring of capacity `cap` become when `x` is pushed.
pub open spec fn push_spec<T>(s: Seq<T>, cap: nat, x: T) -> Seq<T> {
    if s.len() >= cap {
        s.drop_first().push(x)
    } else {
        s.push(x)
    }
}

/// The contents after pushing every element of `xs`, in order.
pub open spec fn push_all_spec<T>(s: Seq<T>, cap: nat, xs: Seq<T>) -> Seq<T>
    decreases xs.len(),
{
    if xs.len() == 0 {
        s
    } else {
        push_all_spec(push_spec(s, cap, xs[0]), cap, xs.drop_first())
    }
}

/// The `count` most recent elements of `s` (all of them when there are fewer).
pub open spec fn newest<T>(s: Seq<T>, count: nat) -> Seq<T> {
    if count >= s.len() {
        s
    } else {
        s.subrange(s.len() - count, s.len() as int)
    }
}

/// Keeping the newest `cap` of the newest `cap` elements, after appending
/// more, is the same as keeping the newest `cap` of everything.
proof fn lemma_newest_absorbs<T>(a: Seq<T>, b: Seq<T>, cap: nat)
    ensures
        newest(newest(a, cap) + b, cap) == newest(a + b, cap),
{
    let na = newest(a, cap);
    if cap >= a.len() {
        assert(na == a);
    } else {
        let lhs = na + b;
        let rhs = a + b;
        if cap >= lhs.len() {
            assert(newest(rhs, cap) =~= lhs);
        } else {
            assert(newest(lhs, cap) =~= newest(rhs, cap));
        }
    }
}

/// Pushing a sequence of samples into a ring of capacity `cap` leaves
/// exactly its newest `cap` samples of everything pushed, in push order:
/// `min(len, cap)` of them, the last ones pushed.
pub proof fn lemma_pushes_keep_newest<T>(s: Seq<T>, cap: nat, xs: Seq<T>)
    requires
        cap > 0,
        s.len() <= cap,
    ensures
        push_all_spec(s, cap, xs) == newest(s + xs, cap),
        push_all_spec(s, cap, xs).len() == if s.len() + xs.len() <= cap {
            s.len() + xs.len()
        } else {
            cap
        },
    decreases xs.len(),
{
    if xs.len() == 0 {
        assert(s + xs =~= s);
    } else {
        let p = push_spec(s, cap, xs[0]);
        assert(p == newest(s.push(xs[0]), cap)) by {
            if s.len() >= cap {
                assert(s.drop_first().push(xs[0]) =~= newest(s.push(xs[0]), cap));
            }
        }
        lemma_pushes_keep_newest(p, cap, xs.drop_first());
        lemma_newest_absorbs(s.push(xs[0]), xs.drop_first(), cap);
        assert(s.push(xs[0]) + xs.drop_first() =~= s + xs);
    }
}

/// Fixed-capacity ring of samples, stored circularly: `slots[head]` is the
/// oldest element once the ring has filled up.
pub struct SampleRing<T> {
    slots: Vec<T>,
    head: usize,
    capacity: usize,
}

impl<T> View for SampleRing<T> {
    type V = Seq<T>;

    /// The contents, oldest first.
    closed spec fn view(&self) -> Seq<T> {
        self.slots@.subrange(self.head as int, self.slots@.len() as int) + self.slots@.subrange(
            0,
            self.head as int,
        )
    }
}

impl<T> SampleRing<T> {
    /// The ring's own invariant: contents never exceed the capacity.
    pub closed spec fn wf(&self) -> bool {
        &&& 0 < self.capacity
        &&& self.slots@.len() <= self.capacity
        &&& (self.slots@.len() < self.capacity ==> self.head == 0)
        &&& (self.slots@.len() == self.capacity ==> self.head < self.capacity)
    }

    pub closed spec fn cap(&self) -> nat {
        self.capacity as nat
    }
}

impl<T: Copy> SampleRing<T> {
    /// An empty ring holding at most `capacity` samples.
    pub fn new(capacity: usize) -> (r: Self)
        requires
            capacity > 0,
        ensures
            r.wf(),
            r@ == Seq::<T>::empty(),
            r.cap() == capacity,
    {
        let r = SampleRing { slots: Vec::new(), head: 0, capacity };
        assert(r@ =~= Seq::<T>::empty());
        r
    }

    pub fn capacity(&self) -> (r: usize)
        requires
            self.wf(),
        ensures
            r == self.cap(),
            r > 0,
    {
        self.capacity
    }

    pub fn len(&self) -> (r: usize)
        requires
            self.wf(),
        ensures
            r == self@.len(),
            r <= self.cap(),
    {
        self.slots.len()
    }

    /// Appends `x`, first evicting the oldest sample if the ring is full.
    pub fn push(&mut self, x: T)
        requires
            old(self).wf(),
        ensures
            final(self).wf(),
            final(self)@ == push_spec(old(self)@, old(self).cap(), x),
            final(self).cap() == old(self).cap(),
            final(self)@.len() <= final(self).cap(),
    {
        let ghost before = self@;
        if self.slots.len() < self.capacity {
            self.slots.push(x);
            assert(self@ =~= before.push(x));
        } else {
            let h = self.head;
            self.slots.set(h, x);
            self.head = if h + 1 == self.capacity {
                0
            } else {
                h + 1
            };
            assert(self@ =~= before.drop_first().push(x));
        }
    }

    /// The `count` most recent samples, oldest first; fewer when fewer are held.
    pub fn snapshot(&self, count: usize) -> (r: Vec<T>)
        requires
            self.wf(),
        ensures
            r@ == newest(self@, count as nat),
            r@.len() <= count,
            r@.len() <= self@.len(),
    {
        let n = self.slots.len();
        let k: usize = if count < n {
            count
        } else {
            n
        };
        let mut out: Vec<T> = Vec::with_capacity(k);
        let mut j: usize = 0;
        while j < k
            invariant
                self.wf(),
                k <= n,
                self.head <= n,
                n == self.slots@.len(),
                n == self@.len(),
                j <= k,
                out@ =~= self@.subrange(n - k, n - k + j),
            decreases k - j,
        {
            let pos = n - k + j;
            let tail = n - self.head;
            let idx: usize = if pos < tail {
                self.head + pos
            } else {
                pos - tail
            };
            out.push(self.slots[idx]);
            j = j + 1;
        }
        out
    }

    /// Forgets every sample held.
    pub fn clear(&mut self)
        requires
            old(self).wf(),
        ensures
            final(self).wf(),
            final(self)@ == Seq::<T>::empty(),
            final(self).cap() == old(self).cap(),
    {
        self.slots.clear();
        self.head = 0;
        assert(self@ =~= Seq::<T>::empty());
    }
}

} // verus!
