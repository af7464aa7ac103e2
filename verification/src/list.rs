//! Variable-length-list columns: a flat array of per-row (offset, length)
//! entries over a single child vector whose storage grows on demand.
//!
//! The only valid fill sequence is: reserve child capacity, write child
//! data, set each row's entry, then publish the total child-row count with
//! `set_len`. The contracts encode that order: entries may only point into
//! reserved child storage, and the published length may not exceed it.

use vstd::prelude::*;

use crate::error::ColumnError;
use crate::flat::FlatVector;
use crate::logical_type::LogicalTypeHandle;

verus! {

/// One row's entry: a contiguous run of `length` child rows starting at
/// child row `offset`.
#[derive(Clone, Copy, PartialEq, Eq, Structural, Debug)]
pub struct ListEntry {
    pub offset: u64,
    pub length: u64,
}

/// A variable-length-list column over a child vector of `T` cells.
pub struct ListVector<T> {
    entries: FlatVector<ListEntry>,
    child: FlatVector<T>,
    size: usize,
}

impl<T: Copy> ListVector<T> {
    /// The per-row entry storage, with the list's own validity bitmap.
    pub closed spec fn spec_entry_vector(&self) -> FlatVector<ListEntry> {
        self.entries
    }

    /// The child vector the entries point into.
    pub closed spec fn spec_child(&self) -> FlatVector<T> {
        self.child
    }

    /// The published total child-row count.
    pub closed spec fn spec_len(&self) -> nat {
        self.size as nat
    }

    /// The per-row (offset, length) entries.
    pub open spec fn spec_entries(&self) -> Seq<ListEntry> {
        self.spec_entry_vector().spec_data()
    }

    /// The number of list rows this view was constructed for.
    pub open spec fn spec_capacity(&self) -> nat {
        self.spec_entries().len()
    }

    /// Row `row` is valid (non-null) at the list level.
    pub open spec fn spec_is_valid(&self, row: int) -> bool {
        self.spec_entry_vector().spec_is_valid(row)
    }

    /// What a null check reads for list row `row`.
    pub open spec fn spec_row_is_null(&self, row: int) -> bool {
        !self.spec_is_valid(row)
    }

    /// Entry and child storage are well-formed and the published length
    /// lies within the reserved child capacity.
    pub open spec fn wf(&self) -> bool {
        &&& self.spec_entry_vector().wf()
        &&& self.spec_child().wf()
        &&& self.spec_len() <= self.spec_child().spec_capacity()
    }

    /// A fresh list column of `capacity` rows: every entry is (0, 0), every
    /// row valid, no child storage reserved, published length zero.
    pub fn new(logical: LogicalTypeHandle, capacity: usize, fill: T) -> (r: ListVector<T>)
        ensures
            r.wf(),
            r.spec_capacity() == capacity,
            r.spec_entries() == Seq::new(capacity as nat, |i: int| (ListEntry { offset: 0, length: 0 })),
            r.spec_len() == 0,
            r.spec_child().spec_capacity() == 0,
            r.spec_child().spec_fill() == fill,
            r.spec_entry_vector().all_valid(),
            r.spec_entry_vector().spec_logical_type() == logical,
    {
        ListVector {
            entries: FlatVector::with_capacity(logical, ListEntry { offset: 0, length: 0 }, capacity),
            child: FlatVector::with_capacity(LogicalTypeHandle::primitive(), fill, 0),
            size: 0,
        }
    }

    /// Returns the number of child rows in use across all entries, as last
    /// published by `set_len`.
    pub fn len(&self) -> (r: usize)
        ensures
            r == self.spec_len(),
    {
        self.size
    }

    /// Returns true if the list vector is empty.
    pub fn is_empty(&self) -> (r: bool)
        ensures
            r == (self.spec_len() == 0),
    {
        self.len() == 0
    }

    /// Reserve the capacity for its child node: grows the child to at least
    /// `capacity` cells, keeping what was already written there; new cells
    /// show the child's fill value. Entries and the published length stay.
    pub fn reserve(&mut self, capacity: usize)
        requires
            old(self).wf(),
        ensures
            final(self).wf(),
            final(self).spec_entry_vector() == old(self).spec_entry_vector(),
            final(self).spec_len() == old(self).spec_len(),
            final(self).spec_child().spec_capacity() == if capacity <= old(self).spec_child().spec_capacity() {
                old(self).spec_child().spec_capacity()
            } else {
                capacity as nat
            },
            final(self).spec_child().spec_data().subrange(
                0,
                old(self).spec_child().spec_capacity() as int,
            ) == old(self).spec_child().spec_data(),
            forall|k: int|
                old(self).spec_child().spec_capacity() <= k < final(self).spec_child().spec_capacity() ==> final(self).spec_child().spec_data()[k] == old(self).spec_child().spec_fill(),
            final(self).spec_child().spec_fill() == old(self).spec_child().spec_fill(),
            forall|r: int|
                0 <= r < old(self).spec_child().spec_capacity() ==> final(self).spec_child().spec_is_valid(r) == old(self).spec_child().spec_is_valid(r),
            forall|r: int|
                old(self).spec_child().spec_capacity() <= r < final(self).spec_child().spec_capacity() ==> final(self).spec_child().spec_is_valid(r),
    {
        self.child.grow(capacity);
    }

    /// Returns the child vector, reserving at least `capacity` cells in it
    /// first. The child is borrowed from the list: writes through the view
    /// land in the list's child storage.
    pub fn child(&mut self, capacity: usize) -> (r: &mut FlatVector<T>)
        requires
            old(self).wf(),
        ensures
            final(self).spec_entry_vector() == old(self).spec_entry_vector(),
            final(self).spec_len() == old(self).spec_len(),
            final(self).spec_child() == *final(r),
            r.wf(),
            r.spec_capacity() == if capacity <= old(self).spec_child().spec_capacity() {
                old(self).spec_child().spec_capacity()
            } else {
                capacity as nat
            },
            r.spec_data().subrange(0, old(self).spec_child().spec_capacity() as int) == old(self).spec_child().spec_data(),
            forall|k: int|
                old(self).spec_child().spec_capacity() <= k < r.spec_capacity()
                    ==> r.spec_data()[k] == old(self).spec_child().spec_fill(),
            r.spec_fill() == old(self).spec_child().spec_fill(),
            old(self).spec_len() <= r.spec_capacity(),
    {
        self.reserve(capacity);
        &mut self.child
    }

    /// Set primitive data to the child node: reserves exactly `data.len()`
    /// child cells, bulk-copies `data` into them, and publishes the total
    /// length `data.len()`.
    pub fn set_child(&mut self, data: &[T])
        requires
            old(self).wf(),
        ensures
            final(self).wf(),
            final(self).spec_entry_vector() == old(self).spec_entry_vector(),
            final(self).spec_len() == data@.len(),
            final(self).spec_child().spec_data().subrange(0, data@.len() as int) == data@,
            data@.len() >= old(self).spec_child().spec_capacity() ==> final(self).spec_child().spec_data() == data@,
    {
        let n: usize = data.len();
        let child: &mut FlatVector<T> = self.child(n);
        child.copy(data);
        proof {
            assert(final(child).spec_data().subrange(0, data@.len() as int) =~= data@);
            if data@.len() >= old(self).spec_child().spec_capacity() {
                assert(final(child).spec_data() =~= data@);
            }
        }
        self.set_len(n);
    }

    /// Set offset and length to the entry of row `idx`. The run must lie
    /// inside the child capacity reserved beforehand.
    pub fn set_entry(&mut self, idx: usize, offset: usize, length: usize)
        requires
            old(self).wf(),
            idx < old(self).spec_capacity(),
            offset + length <= old(self).spec_child().spec_capacity(),
        ensures
            final(self).wf(),
            final(self).spec_entries() == old(self).spec_entries().update(
                idx as int,
                (ListEntry { offset: offset as u64, length: length as u64 }),
            ),
            final(self).spec_child() == old(self).spec_child(),
            final(self).spec_len() == old(self).spec_len(),
            final(self).spec_entry_vector().spec_validity() == old(self).spec_entry_vector().spec_validity(),
    {
        self.entries.write(idx, ListEntry { offset: offset as u64, length: length as u64 });
    }

    /// Checked entry write: reports a row beyond the list capacity, or a run
    /// that points past the reserved child storage, instead of leaving the
    /// misuse undefined.
    pub fn try_set_entry(&mut self, idx: usize, offset: usize, length: usize) -> (r: Result<
        (),
        ColumnError,
    >)
        requires
            old(self).wf(),
        ensures
            final(self).wf(),
            idx >= old(self).spec_capacity() ==> r == Err::<(), ColumnError>(
                ColumnError::OutOfCapacity,
            ) && *final(self) == *old(self),
            idx < old(self).spec_capacity() && offset + length > old(self).spec_child().spec_capacity() ==> r == Err::<(), ColumnError>(
                ColumnError::NotReserved,
            ) && *final(self) == *old(self),
            idx < old(self).spec_capacity() && offset + length <= old(self).spec_child().spec_capacity() ==> {
                &&& r == Ok::<(), ColumnError>(())
                &&& final(self).spec_entries() == old(self).spec_entries().update(
                    idx as int,
                    (ListEntry { offset: offset as u64, length: length as u64 }),
                )
                &&& final(self).spec_child() == old(self).spec_child()
                &&& final(self).spec_len() == old(self).spec_len()
                &&& final(self).spec_entry_vector().spec_validity() == old(self).spec_entry_vector().spec_validity()
            },
    {
        if idx >= self.entries.capacity() {
            return Err(ColumnError::OutOfCapacity);
        }
        let child_capacity: usize = self.child.capacity();
        if offset > child_capacity || length > child_capacity - offset {
            return Err(ColumnError::NotReserved);
        }
        self.set_entry(idx, offset, length);
        Ok(())
    }

    /// Checked length publication: reports a length past the reserved child
    /// storage.
    pub fn try_set_len(&mut self, new_len: usize) -> (r: Result<(), ColumnError>)
        requires
            old(self).wf(),
        ensures
            final(self).wf(),
            new_len <= old(self).spec_child().spec_capacity() ==> {
                &&& r == Ok::<(), ColumnError>(())
                &&& final(self).spec_len() == new_len
                &&& final(self).spec_entry_vector() == old(self).spec_entry_vector()
                &&& final(self).spec_child() == old(self).spec_child()
            },
            new_len > old(self).spec_child().spec_capacity() ==> r == Err::<(), ColumnError>(
                ColumnError::NotReserved,
            ) && *final(self) == *old(self),
    {
        if new_len > self.child.capacity() {
            return Err(ColumnError::NotReserved);
        }
        self.set_len(new_len);
        Ok(())
    }

    /// Reads row `idx`'s (offset, length) entry.
    pub fn entry(&self, idx: usize) -> (r: ListEntry)
        requires
            self.wf(),
            idx < self.spec_capacity(),
        ensures
            r == self.spec_entries()[idx as int],
    {
        self.entries.as_slice()[idx]
    }

    /// Set the length of the list vector: publishes the total number of
    /// child rows in use. Must not exceed the reserved child capacity.
    pub fn set_len(&mut self, new_len: usize)
        requires
            old(self).wf(),
            new_len <= old(self).spec_child().spec_capacity(),
        ensures
            final(self).wf(),
            final(self).spec_len() == new_len,
            final(self).spec_entry_vector() == old(self).spec_entry_vector(),
            final(self).spec_child() == old(self).spec_child(),
    {
        self.size = new_len;
    }

    /// Marks list row `row` itself null; its entry is left as it was.
    pub fn set_null(&mut self, row: usize)
        requires
            old(self).wf(),
            row < old(self).spec_capacity(),
        ensures
            final(self).wf(),
            final(self).spec_entries() == old(self).spec_entries(),
            final(self).spec_child() == old(self).spec_child(),
            final(self).spec_len() == old(self).spec_len(),
            final(self).spec_row_is_null(row as int),
            forall|r: int|
                0 <= r < old(self).spec_capacity() && r != row ==> final(self).spec_is_valid(r)
                    == old(self).spec_is_valid(r),
    {
        self.entries.set_null(row);
    }

    /// Returns true if the list row at the given index is null.
    pub fn row_is_null(&self, row: u64) -> (r: bool)
        requires
            self.wf(),
            row < self.spec_capacity(),
        ensures
            r == self.spec_row_is_null(row as int),
    {
        self.entries.row_is_null(row)
    }
}

/// Sum of the lengths of all entries.
pub open spec fn entries_total(entries: Seq<ListEntry>) -> int
    decreases entries.len(),
{
    if entries.len() == 0 {
        0
    } else {
        entries_total(entries.drop_last()) + entries.last().length
    }
}

/// Each entry starts where the previous ones end: entry `k`'s offset is the
/// sum of the lengths before it.
pub open spec fn entries_contiguous(entries: Seq<ListEntry>) -> bool {
    forall|k: int|
        0 <= k < entries.len() ==> (#[trigger] entries[k]).offset == entries_total(
            entries.take(k),
        )
}

/// The child rows one entry describes.
pub open spec fn entry_rows<T>(child: Seq<T>, e: ListEntry) -> Seq<T> {
    child.subrange(e.offset as int, e.offset + e.length)
}

/// The child rows of all entries, in entry order.
pub open spec fn entries_rows<T>(entries: Seq<ListEntry>, child: Seq<T>) -> Seq<T>
    decreases entries.len(),
{
    if entries.len() == 0 {
        Seq::empty()
    } else {
        entries_rows(entries.drop_last(), child) + entry_rows(child, entries.last())
    }
}

/// A total of entry lengths is never negative.
pub proof fn lemma_entries_total_nonneg(entries: Seq<ListEntry>)
    ensures
        entries_total(entries) >= 0,
    decreases entries.len(),
{
    if entries.len() > 0 {
        lemma_entries_total_nonneg(entries.drop_last());
    }
}

/// Contiguous entries whose lengths sum to at most the child length cover
/// exactly the child's prefix of that sum: iterating the child rows of the
/// entries in entry order yields the concatenation of what was written.
pub proof fn lemma_entries_cover_prefix<T>(entries: Seq<ListEntry>, child: Seq<T>)
    requires
        entries_contiguous(entries),
        entries_total(entries) <= child.len(),
    ensures
        entries_rows(entries, child) == child.subrange(0, entries_total(entries)),
    decreases entries.len(),
{
    lemma_entries_total_nonneg(entries);
    if entries.len() == 0 {
        assert(entries_rows(entries, child) =~= child.subrange(0, 0));
    } else {
        let front = entries.drop_last();
        let last = entries.last();
        assert forall|k: int| 0 <= k < front.len() implies (#[trigger] front[k]).offset
            == entries_total(front.take(k)) by {
            assert(front[k] == entries[k]);
            assert(front.take(k) =~= entries.take(k));
        }
        lemma_entries_total_nonneg(front);
        assert(entries_total(front) <= child.len());
        lemma_entries_cover_prefix(front, child);
        assert(entries.take(entries.len() - 1) =~= front);
        assert(last.offset == entries_total(front));
        assert(entries_rows(entries, child) =~= child.subrange(0, entries_total(entries)));
    }
}

/// After `reserve`, writing contiguous entries summing to the published
/// length, the child rows `0..len` read back as the concatenation of the
/// written runs in entry order.
pub proof fn lemma_list_rows_concat<T: Copy>(lv: &ListVector<T>, n: int)
    requires
        lv.wf(),
        0 <= n <= lv.spec_capacity(),
        entries_contiguous(lv.spec_entries().take(n)),
        entries_total(lv.spec_entries().take(n)) == lv.spec_len(),
    ensures
        entries_rows(lv.spec_entries().take(n), lv.spec_child().spec_data())
            == lv.spec_child().spec_data().subrange(0, lv.spec_len() as int),
{
    lemma_entries_cover_prefix(lv.spec_entries().take(n), lv.spec_child().spec_data());
}

} // verus!
