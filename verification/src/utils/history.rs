//! A history of fixed capacity that forgets its oldest entry first.

use vstd::prelude::*;
use std::collections::VecDeque;

verus! {

/// The newest `capacity` entries of `entries`, oldest first; all of them if there
/// are no more than `capacity`.
pub open spec fn newest<T>(entries: Seq<T>, capacity: nat) -> Seq<T> {
    if entries.len() <= capacity {
        entries
    } else {
        entries.subrange(entries.len() - capacity, entries.len() as int)
    }
}

/// What a history of the given capacity holds after it has remembered `value`.
pub open spec fn remembered<T>(entries: Seq<T>, capacity: nat, value: T) -> Seq<T> {
    newest(entries.push(value), capacity)
}

/// The last entry of `entries`, if there is one.
pub open spec fn last_of<T>(entries: Seq<T>) -> Option<T> {
    if entries.len() > 0 {
        Some(entries.last())
    } else {
        None
    }
}

/// The entry at position `n` of `entries`, counted from the oldest, if there is one.
pub open spec fn entry_at<T>(entries: Seq<T>, n: nat) -> Option<T> {
    if n < entries.len() {
        Some(entries[n as int])
    } else {
        None
    }
}

/// What a history of the given capacity holds after it has remembered `values` one
/// by one, in order.
pub open spec fn remembered_all<T>(entries: Seq<T>, capacity: nat, values: Seq<T>) -> Seq<T>
    decreases values.len(),
{
    if values.len() == 0 {
        entries
    } else {
        remembered(
            remembered_all(entries, capacity, values.drop_last()),
            capacity,
            values.last(),
        )
    }
}

/// Remembering values one by one leaves the newest entries of all that the history
/// held and was given, as many as the capacity allows.
pub proof fn lemma_remembered_all_keeps_newest<T>(entries: Seq<T>, capacity: nat, values: Seq<T>)
    requires
        entries.len() <= capacity,
    ensures
        remembered_all(entries, capacity, values) == newest(entries + values, capacity),
        remembered_all(entries, capacity, values).len() <= capacity,
    decreases values.len(),
{
    if values.len() == 0 {
        assert(entries + values =~= entries);
    } else {
        let front = values.drop_last();
        lemma_remembered_all_keeps_newest(entries, capacity, front);
        assert((entries + front).push(values.last()) =~= entries + values);
        assert(remembered(newest(entries + front, capacity), capacity, values.last()) =~= newest(
            entries + values,
            capacity,
        ));
    }
}

/// A history of positive capacity that starts empty and remembers more values
/// than it can hold ends with exactly the last `capacity` of them, in the order
/// in which they came, and at no point holds more than `capacity` entries.
pub proof fn lemma_bounded_eviction<T>(capacity: nat, values: Seq<T>)
    requires
        capacity > 0,
        values.len() > capacity,
    ensures
        remembered_all(Seq::<T>::empty(), capacity, values) == values.subrange(
            values.len() - capacity,
            values.len() as int,
        ),
        forall|n: int|
            0 <= n <= values.len() ==> (#[trigger] remembered_all(
                Seq::<T>::empty(),
                capacity,
                values.take(n),
            )).len() <= capacity,
{
    lemma_remembered_all_keeps_newest(Seq::<T>::empty(), capacity, values);
    assert(Seq::<T>::empty() + values =~= values);
    assert forall|n: int| 0 <= n <= values.len() implies (#[trigger] remembered_all(
        Seq::<T>::empty(),
        capacity,
        values.take(n),
    )).len() <= capacity by {
        lemma_remembered_all_keeps_newest(Seq::<T>::empty(), capacity, values.take(n));
    }
}

/// A history of capacity zero that starts empty stays empty whatever it is asked
/// to remember, and so has no last entry.
pub proof fn lemma_zero_capacity_stays_empty<T>(values: Seq<T>)
    ensures
        remembered_all(Seq::<T>::empty(), 0, values) == Seq::<T>::empty(),
        last_of(remembered_all(Seq::<T>::empty(), 0, values)) == None::<T>,
{
    lemma_remembered_all_keeps_newest(Seq::<T>::empty(), 0, values);
    assert(newest(Seq::<T>::empty() + values, 0) =~= Seq::<T>::empty());
}

/// Entries in the order in which they were remembered, never more than a capacity
/// that is fixed when the history is made.
pub struct BoundedHistory<T> {
    entries: VecDeque<T>,
    capacity: usize,
}

impl<T> View for BoundedHistory<T> {
    type V = Seq<T>;

    /// The entries that the history holds, oldest first.
    closed spec fn view(&self) -> Seq<T> {
        self.entries@
    }
}

impl<T> BoundedHistory<T> {
    #[verifier::type_invariant]
    spec fn within_capacity(&self) -> bool {
        self.entries@.len() <= self.capacity
    }

    /// The largest number of entries that the history holds.
    pub closed spec fn spec_capacity(&self) -> usize {
        self.capacity
    }

    /// The number of entries that the history holds.
    pub open spec fn spec_len(&self) -> usize {
        self@.len() as usize
    }

    /// The largest number of entries that the history holds.
    #[verifier::when_used_as_spec(spec_capacity)]
    pub fn capacity(&self) -> (capacity: usize)
        ensures
            capacity == self.spec_capacity(),
    {
        self.capacity
    }

    /// The number of entries that the history holds, which is never more than its
    /// capacity.
    #[verifier::when_used_as_spec(spec_len)]
    pub fn len(&self) -> (len: usize)
        ensures
            len == self@.len(),
            len <= self.capacity(),
    {
        proof {
            use_type_invariant(self);
        }
        self.entries.len()
    }
}

impl<T: Copy> BoundedHistory<T> {
    /// An empty history of the given capacity.
    pub fn new(capacity: usize) -> (history: BoundedHistory<T>)
        ensures
            history@ == Seq::<T>::empty(),
            history.capacity() == capacity,
    {
        BoundedHistory { entries: VecDeque::new(), capacity }
    }

    /// Appends `value` as the newest entry. A full history forgets its oldest entry
    /// to make room; a history of capacity zero forgets `value` at once.
    pub fn remember(&mut self, value: T)
        ensures
            final(self)@ == remembered(old(self)@, old(self).capacity() as nat, value),
            final(self).capacity() == old(self).capacity(),
            final(self)@.len() <= final(self).capacity(),
    {
        proof {
            use_type_invariant(&*self);
        }
        if self.capacity == 0 {
            assert(self@ =~= remembered(self@, 0, value));
            return;
        }
        // The entries are taken out while they change and put back when they are
        // within the capacity again.
        let mut entries: VecDeque<T> = VecDeque::new();
        core::mem::swap(&mut self.entries, &mut entries);
        if entries.len() == self.capacity {
            entries.pop_front();
        }
        entries.push_back(value);
        assert(entries@ =~= remembered(old(self)@, old(self).capacity() as nat, value));
        core::mem::swap(&mut self.entries, &mut entries);
    }

    /// The entry remembered last, if the history holds any.
    pub fn last(&self) -> (entry: Option<T>)
        ensures
            entry == last_of(self@),
    {
        let len = self.entries.len();
        if len == 0 {
            None
        } else {
            Some(self.entries[len - 1])
        }
    }

    /// The entry at position `n`, counted from the oldest entry that the history
    /// still holds, which is at position zero; none if `n` is not below the number
    /// of entries.
    pub fn last_n(&self, n: usize) -> (entry: Option<T>)
        ensures
            entry == entry_at(self@, n as nat),
    {
        if n < self.entries.len() {
            Some(self.entries[n])
        } else {
            None
        }
    }
}

/// Something that keeps a bounded history and remembers through it. An
/// implementation says where its history is; remembering and looking up come with
/// the trait.
pub trait Memory<T: Copy> {
    /// The history that `get_memory` gives access to. An implementation that
    /// proves nothing of its history leaves this as it is.
    open spec fn memory(&self) -> BoundedHistory<T> {
        arbitrary()
    }

    /// Access to the history: what is done to the history through the reference
    /// is done to the history of `self`.
    fn get_memory(&mut self) -> (history: &mut BoundedHistory<T>)
        ensures
            *history == old(self).memory(),
            final(self).memory() == *final(history),
    ;

    /// Remembers `data` in the history.
    fn remember(&mut self, data: T)
        ensures
            final(self).memory()@ == remembered(
                old(self).memory()@,
                old(self).memory().capacity() as nat,
                data,
            ),
            final(self).memory().capacity() == old(self).memory().capacity(),
    {
        BoundedHistory::remember(self.get_memory(), data);
    }

    /// The entry remembered last, if there is any.
    fn last(&mut self) -> (entry: Option<T>)
        ensures
            entry == last_of(old(self).memory()@),
            final(self).memory() == old(self).memory(),
    {
        BoundedHistory::last(self.get_memory())
    }

    /// The entry at position `n`, counted from the oldest.
    fn last_n(&mut self, n: usize) -> (entry: Option<T>)
        ensures
            entry == entry_at(old(self).memory()@, n as nat),
            final(self).memory() == old(self).memory(),
    {
        BoundedHistory::last_n(self.get_memory(), n)
    }
}

impl<T: Copy> Memory<T> for BoundedHistory<T> {
    open spec fn memory(&self) -> BoundedHistory<T> {
        *self
    }

    fn get_memory(&mut self) -> (history: &mut BoundedHistory<T>) {
        self
    }
}

} // verus!
