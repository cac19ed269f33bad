use vstd::prelude::*;

verus! {

/// The last `n` elements of `s`, or all of `s` when it holds no more than `n`.
pub open spec fn keep_last<T>(s: Seq<T>, n: nat) -> Seq<T> {
    if s.len() <= n {
        s
    } else {
        s.subrange(s.len() - n, s.len() as int)
    }
}

/// Keeping the last `n` after each append is keeping the last `n` of the whole history:
/// `keep_last(keep_last(s, n).push(x), n) == keep_last(s.push(x), n)`.
pub proof fn lemma_keep_last_push<T>(s: Seq<T>, n: nat, x: T)
    requires
        0 < n,
    ensures
        keep_last(keep_last(s, n).push(x), n) == keep_last(s.push(x), n),
{
    assert(keep_last(keep_last(s, n).push(x), n) =~= keep_last(s.push(x), n));
}

/// The shape of `keep_last`: it holds `min(len, n)` elements, the `i`-th retained one being
/// the element `len - min(len, n) + i` of `s`.
pub proof fn lemma_keep_last_index<T>(s: Seq<T>, n: nat)
    ensures
        keep_last(s, n).len() == if s.len() <= n {
            s.len()
        } else {
            n
        },
        forall|i: int|
            0 <= i < keep_last(s, n).len() ==> #[trigger] keep_last(s, n)[i] == s[s.len()
                - keep_last(s, n).len() + i],
{
}

/// An append-only log bounded by a fixed, non-zero capacity.
///
/// Appending to a full log evicts its oldest entry first and counts the eviction, so the
/// log always holds the last `capacity` entries ever appended, and
/// `dropped + retained == total` holds at all times.
pub struct CappedLog<T> {
    entries: Vec<T>,
    cap: usize,
    total: u64,
    dropped: u64,
    history: Ghost<Seq<T>>,
}

impl<T> CappedLog<T> {
    /// The retained entries, oldest first.
    pub closed spec fn entries_view(&self) -> Seq<T> {
        self.entries@
    }

    /// Every entry ever appended, oldest first, evicted ones included.
    pub closed spec fn history(&self) -> Seq<T> {
        self.history@
    }

    /// The fixed capacity.
    pub closed spec fn capacity(&self) -> nat {
        self.cap as nat
    }

    /// How many entries were ever appended, evicted ones included.
    pub closed spec fn total_count(&self) -> nat {
        self.total as nat
    }

    /// How many entries were evicted.
    pub closed spec fn dropped_count(&self) -> nat {
        self.dropped as nat
    }

    /// Well-formedness: the capacity is non-zero, the log holds exactly the last `capacity`
    /// entries of its history, the total counts the history, and every appended entry is
    /// either retained or counted as dropped.
    pub open spec fn wf(&self) -> bool {
        &&& 0 < self.capacity()
        &&& self.entries_view() == keep_last(self.history(), self.capacity())
        &&& self.history().len() == self.total_count()
        &&& self.dropped_count() + self.entries_view().len() == self.total_count()
    }

    /// A well-formed log never exceeds its capacity, holds `min(total, capacity)` entries,
    /// and drops nothing before it is full.
    pub proof fn lemma_window(&self)
        requires
            self.wf(),
        ensures
            self.entries_view().len() <= self.capacity(),
            self.entries_view().len() == if self.total_count() <= self.capacity() {
                self.total_count()
            } else {
                self.capacity()
            },
            self.dropped_count() > 0 ==> self.entries_view().len() == self.capacity(),
    {
        lemma_keep_last_index(self.history(), self.capacity());
    }

    /// An empty log of capacity `cap`.
    pub fn new(cap: usize) -> (log: Self)
        requires
            0 < cap,
        ensures
            log.wf(),
            log.capacity() == cap,
            log.entries_view() == Seq::<T>::empty(),
            log.history() == Seq::<T>::empty(),
            log.total_count() == 0,
            log.dropped_count() == 0,
    {
        CappedLog { entries: Vec::new(), cap, total: 0, dropped: 0, history: Ghost(Seq::empty()) }
    }

    /// Append `x`, evicting the oldest entry first when the log is full.
    pub fn push(&mut self, x: T)
        requires
            old(self).wf(),
            old(self).total_count() < u64::MAX,
        ensures
            final(self).wf(),
            final(self).capacity() == old(self).capacity(),
            final(self).history() == old(self).history().push(x),
            final(self).entries_view() == keep_last(
                old(self).entries_view().push(x),
                old(self).capacity(),
            ),
            final(self).total_count() == old(self).total_count() + 1,
            final(self).dropped_count() == old(self).dropped_count() + (
            if old(self).entries_view().len() == old(self).capacity() {
                1int
            } else {
                0int
            }),
    {
        proof {
            self.lemma_window();
        }
        let ghost old_entries = self.entries@;
        let ghost old_dropped = self.dropped;
        let ghost cap = self.cap;
        let ghost old_history = self.history@;
        self.total = self.total + 1;
        while self.entries.len() >= self.cap
            invariant
                self.cap == cap,
                0 < self.cap,
                self.entries@.len() <= old_entries.len(),
                self.entries@.len() < old_entries.len() ==> self.entries@.len() + 1 == self.cap,
                self.entries@.len() <= self.cap,
                old_entries.len() <= self.cap,
                self.dropped + self.entries@.len() + 1 == self.total,
                self.total <= u64::MAX,
                self.entries@ == old_entries.subrange(
                    old_entries.len() - self.entries@.len(),
                    old_entries.len() as int,
                ),
                self.dropped == old_dropped + (old_entries.len() - self.entries@.len()),
            decreases self.entries@.len(),
        {
            self.entries.remove(0);
            self.dropped = self.dropped + 1;
            assert(self.entries@ =~= old_entries.subrange(
                old_entries.len() - self.entries@.len(),
                old_entries.len() as int,
            ));
        }
        self.entries.push(x);
        self.history = Ghost(old_history.push(x));
        assert(self.entries@ =~= keep_last(old_entries.push(x), self.cap as nat));
        proof {
            lemma_keep_last_push(old_history, cap as nat, x);
        }
    }

    /// The retained entries, oldest first.
    pub fn entries(&self) -> (s: &[T])
        ensures
            s@ == self.entries_view(),
    {
        self.entries.as_slice()
    }

    /// The most recently appended entry.
    pub fn last(&self) -> (r: &T)
        requires
            self.entries_view().len() > 0,
        ensures
            *r == self.entries_view().last(),
    {
        &self.entries[self.entries.len() - 1]
    }

    /// How many entries were ever appended, evicted ones included.
    pub fn total(&self) -> (n: u64)
        ensures
            n == self.total_count(),
    {
        self.total
    }

    /// How many entries were evicted.
    pub fn dropped(&self) -> (n: u64)
        ensures
            n == self.dropped_count(),
    {
        self.dropped
    }
}

} // verus!
