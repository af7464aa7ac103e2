//! Fixed-width columns: contiguous element storage of a chosen element type,
//! a validity bitmap, and a capacity.
//!
//! A flat vector owns `capacity` cells of one fixed-width element type. A
//! host engine hands such storage out uninitialized; here every cell shows a
//! fill value chosen at construction until it is written, so reads are
//! always defined. String and blob columns hold one byte row per cell and
//! are written through the [`Inserter`] trait, whose binary-safe byte path
//! stores arbitrary content exactly, while the null-terminated path stores
//! only the bytes before the first zero.

use vstd::prelude::*;
use vstd::slice::slice_to_vec;

use crate::error::ColumnError;
use crate::logical_type::LogicalTypeHandle;
use crate::validity::ValidityMask;

verus! {

/// A fixed-width column of `T` cells with a validity bitmap.
pub struct FlatVector<T> {
    data: Vec<T>,
    fill: T,
    validity: ValidityMask,
    logical: LogicalTypeHandle,
}

impl<T> FlatVector<T> {
    /// The stored cells, one per row, up to the vector's capacity.
    pub closed spec fn spec_data(&self) -> Seq<T> {
        self.data@
    }

    /// The value an unwritten cell shows.
    pub closed spec fn spec_fill(&self) -> T {
        self.fill
    }

    /// The per-row validity bitmap.
    pub closed spec fn spec_validity(&self) -> ValidityMask {
        self.validity
    }

    /// The declared column type this view was constructed for.
    pub closed spec fn spec_logical_type(&self) -> LogicalTypeHandle {
        self.logical
    }

    /// The element count this view was constructed for.
    pub open spec fn spec_capacity(&self) -> nat {
        self.spec_data().len()
    }

    /// Row `row` is valid (non-null).
    pub open spec fn spec_is_valid(&self, row: int) -> bool {
        self.spec_validity().is_valid(row)
    }

    /// What a null check reads for row `row`.
    pub open spec fn spec_row_is_null(&self, row: int) -> bool {
        !self.spec_is_valid(row)
    }

    /// No row is marked null.
    pub open spec fn all_valid(&self) -> bool {
        forall|r: int| 0 <= r < self.spec_capacity() ==> self.spec_is_valid(r)
    }

    /// One cell per row and a well-formed bitmap covering exactly the rows.
    pub open spec fn wf(&self) -> bool {
        &&& self.spec_validity().wf()
        &&& self.spec_validity().spec_capacity() == self.spec_capacity()
    }

    /// Returns the capacity of the vector.
    pub fn capacity(&self) -> (r: usize)
        ensures
            r == self.spec_capacity(),
    {
        self.data.len()
    }

    /// Returns true if the row at the given index is null.
    pub fn row_is_null(&self, row: u64) -> (r: bool)
        requires
            self.wf(),
            row < self.spec_capacity(),
        ensures
            r == self.spec_row_is_null(row as int),
    {
        self.validity.row_is_null(row)
    }

    /// Marks row `row` null; every other row keeps its validity and no cell
    /// content changes.
    pub fn set_null(&mut self, row: usize)
        requires
            old(self).wf(),
            row < old(self).spec_capacity(),
        ensures
            final(self).wf(),
            final(self).spec_data() == old(self).spec_data(),
            final(self).spec_fill() == old(self).spec_fill(),
            final(self).spec_logical_type() == old(self).spec_logical_type(),
            final(self).spec_row_is_null(row as int),
            forall|r: int|
                0 <= r < old(self).spec_capacity() && r != row ==> final(self).spec_is_valid(r)
                    == old(self).spec_is_valid(r),
    {
        self.validity.set_null(row);
    }

    /// Returns a read view of the vector's cells.
    pub fn as_slice(&self) -> (r: &[T])
        ensures
            r@ == self.spec_data(),
    {
        self.data.as_slice()
    }

    /// Returns a read view of the vector's first `len` cells.
    pub fn as_slice_with_len(&self, len: usize) -> (r: &[T])
        requires
            len <= self.spec_capacity(),
        ensures
            r@ == self.spec_data().subrange(0, len as int),
    {
        &self.data.as_slice()[0..len]
    }

    /// Checked null test: reports out-of-capacity rows instead of leaving
    /// them a caller error.
    pub fn try_row_is_null(&self, row: u64) -> (r: Result<bool, ColumnError>)
        requires
            self.wf(),
        ensures
            r == if row < self.spec_capacity() {
                Ok::<bool, ColumnError>(self.spec_row_is_null(row as int))
            } else {
                Err::<bool, ColumnError>(ColumnError::OutOfCapacity)
            },
    {
        if row < self.data.len() as u64 {
            Ok(self.row_is_null(row))
        } else {
            Err(ColumnError::OutOfCapacity)
        }
    }

    /// Checked null write: refuses an out-of-capacity row and reports it.
    pub fn try_set_null(&mut self, row: usize) -> (r: Result<(), ColumnError>)
        requires
            old(self).wf(),
        ensures
            final(self).wf(),
            row < old(self).spec_capacity() ==> {
                &&& r == Ok::<(), ColumnError>(())
                &&& final(self).spec_data() == old(self).spec_data()
                &&& final(self).spec_fill() == old(self).spec_fill()
                &&& final(self).spec_logical_type() == old(self).spec_logical_type()
                &&& final(self).spec_row_is_null(row as int)
                &&& forall|r2: int|
                    0 <= r2 < old(self).spec_capacity() && r2 != row ==> final(self).spec_is_valid(r2) == old(self).spec_is_valid(r2)
            },
            row >= old(self).spec_capacity() ==> r == Err::<(), ColumnError>(
                ColumnError::OutOfCapacity,
            ) && *final(self) == *old(self),
    {
        if row < self.data.len() {
            self.set_null(row);
            Ok(())
        } else {
            Err(ColumnError::OutOfCapacity)
        }
    }

    /// Returns a read-write view of the vector's cells: writes through it
    /// land in the vector's storage. Cell writes keep the view's length, so
    /// a caller that only writes cells hands back a well-formed vector.
    pub fn as_mut_slice(&mut self) -> (r: &mut [T])
        requires
            old(self).wf(),
        ensures
            r@ == old(self).spec_data(),
            final(self).spec_data() == final(r)@,
            final(self).spec_fill() == old(self).spec_fill(),
            final(self).spec_validity() == old(self).spec_validity(),
            final(self).spec_logical_type() == old(self).spec_logical_type(),
            final(r)@.len() == old(self).spec_capacity() ==> final(self).wf(),
    {
        self.data.as_mut_slice()
    }

    /// Returns a read-write view of the vector's first `len` cells; the
    /// cells past `len` stay as they are.
    pub fn as_mut_slice_with_len(&mut self, len: usize) -> (r: &mut [T])
        requires
            old(self).wf(),
            len <= old(self).spec_capacity(),
        ensures
            r@ == old(self).spec_data().subrange(0, len as int),
            final(self).spec_data() == final(r)@ + old(self).spec_data().skip(len as int),
            final(self).spec_fill() == old(self).spec_fill(),
            final(self).spec_validity() == old(self).spec_validity(),
            final(self).spec_logical_type() == old(self).spec_logical_type(),
            final(r)@.len() == len ==> final(self).wf(),
    {
        let cells: &mut [T] = self.data.as_mut_slice();
        let (front, back) = cells.split_at_mut(len);
        proof {
            assert(final(back)@ == old(self).spec_data().skip(len as int));
        }
        front
    }

    /// Returns the logical type of the vector.
    pub fn logical_type(&self) -> (r: &LogicalTypeHandle)
        ensures
            *r == self.spec_logical_type(),
    {
        &self.logical
    }

    /// Overwrites the cell of row `index`; validity is untouched.
    pub fn write(&mut self, index: usize, value: T)
        requires
            old(self).wf(),
            index < old(self).spec_capacity(),
        ensures
            final(self).wf(),
            final(self).spec_data() == old(self).spec_data().update(index as int, value),
            final(self).spec_fill() == old(self).spec_fill(),
            final(self).spec_validity() == old(self).spec_validity(),
            final(self).spec_logical_type() == old(self).spec_logical_type(),
    {
        self.data.set(index, value);
    }
}

impl<T: Copy> FlatVector<T> {
    /// A fresh vector of `capacity` cells, each showing `fill`, with every
    /// row valid.
    pub fn with_capacity(logical: LogicalTypeHandle, fill: T, capacity: usize) -> (r: FlatVector<
        T,
    >)
        ensures
            r.wf(),
            r.spec_capacity() == capacity,
            r.spec_data() == Seq::new(capacity as nat, |i: int| fill),
            r.spec_fill() == fill,
            r.spec_logical_type() == logical,
            r.all_valid(),
    {
        let mut data: Vec<T> = Vec::new();
        while data.len() < capacity
            invariant
                data@.len() <= capacity,
                forall|k: int| 0 <= k < data@.len() ==> data@[k] == fill,
            decreases capacity - data@.len(),
        {
            data.push(fill);
        }
        proof {
            assert(data@ =~= Seq::new(capacity as nat, |i: int| fill));
        }
        FlatVector { data, fill, validity: ValidityMask::new(capacity), logical }
    }

    /// Copy data to the vector: bulk-overwrites the first `data.len()`
    /// cells, leaving the rest of the cells and all validity as they were.
    pub fn copy(&mut self, data: &[T])
        requires
            old(self).wf(),
            data@.len() <= old(self).spec_capacity(),
        ensures
            final(self).wf(),
            final(self).spec_data() == data@ + old(self).spec_data().skip(data@.len() as int),
            final(self).spec_fill() == old(self).spec_fill(),
            final(self).spec_validity() == old(self).spec_validity(),
            final(self).spec_logical_type() == old(self).spec_logical_type(),
    {
        let n: usize = data.len();
        let mut i: usize = 0;
        while i < n
            invariant
                i <= n,
                n == data@.len(),
                n <= self.spec_capacity(),
                self.wf(),
                self.spec_data().len() == old(self).spec_data().len(),
                self.spec_fill() == old(self).spec_fill(),
                self.spec_validity() == old(self).spec_validity(),
                self.spec_logical_type() == old(self).spec_logical_type(),
                forall|k: int| 0 <= k < i ==> self.spec_data()[k] == data@[k],
                forall|k: int|
                    i <= k < self.spec_data().len() ==> self.spec_data()[k] == old(self).spec_data()[k],
            decreases n - i,
        {
            let value: T = data[i];
            self.write(i, value);
            i = i + 1;
        }
        proof {
            assert(self.spec_data() =~= data@ + old(self).spec_data().skip(data@.len() as int));
        }
    }

    /// Checked bulk copy: refuses data longer than the capacity, reporting
    /// it, where the unchecked `copy` states the same bound as its contract.
    pub fn try_copy(&mut self, data: &[T]) -> (r: Result<(), ColumnError>)
        requires
            old(self).wf(),
        ensures
            final(self).wf(),
            final(self).spec_fill() == old(self).spec_fill(),
            final(self).spec_validity() == old(self).spec_validity(),
            final(self).spec_logical_type() == old(self).spec_logical_type(),
            data@.len() <= old(self).spec_capacity() ==> {
                &&& r == Ok::<(), ColumnError>(())
                &&& final(self).spec_data() == data@ + old(self).spec_data().skip(
                    data@.len() as int,
                )
            },
            data@.len() > old(self).spec_capacity() ==> r == Err::<(), ColumnError>(
                ColumnError::OutOfCapacity,
            ) && *final(self) == *old(self),
    {
        if data.len() > self.data.len() {
            return Err(ColumnError::OutOfCapacity);
        }
        self.copy(data);
        Ok(())
    }

    /// Grows the vector to at least `capacity` cells; existing cells and
    /// their validity are kept, new cells show the fill value.
    pub(crate) fn grow(&mut self, capacity: usize)
        requires
            old(self).wf(),
        ensures
            final(self).wf(),
            final(self).spec_capacity() == if capacity <= old(self).spec_capacity() {
                old(self).spec_capacity()
            } else {
                capacity as nat
            },
            final(self).spec_data().subrange(0, old(self).spec_capacity() as int) == old(self).spec_data(),
            forall|k: int|
                old(self).spec_capacity() <= k < final(self).spec_capacity() ==> final(self).spec_data()[k] == old(self).spec_fill(),
            final(self).spec_fill() == old(self).spec_fill(),
            final(self).spec_logical_type() == old(self).spec_logical_type(),
            forall|r: int|
                0 <= r < old(self).spec_capacity() ==> final(self).spec_is_valid(r) == old(self).spec_is_valid(r),
            forall|r: int|
                old(self).spec_capacity() <= r < final(self).spec_capacity() ==> final(self).spec_is_valid(r),
    {
        if capacity <= self.data.len() {
            proof {
                assert(self.spec_data().subrange(0, self.spec_data().len() as int)
                    =~= self.spec_data());
            }
            return ;
        }
        while self.data.len() < capacity
            invariant
                old(self).spec_data().len() <= self.spec_data().len() <= capacity,
                self.spec_data().subrange(0, old(self).spec_capacity() as int) == old(self).spec_data(),
                forall|k: int|
                    old(self).spec_capacity() <= k < self.spec_data().len() ==> self.spec_data()[k]
                        == old(self).spec_fill(),
                self.spec_fill() == old(self).spec_fill(),
                self.spec_validity() == old(self).spec_validity(),
                self.spec_logical_type() == old(self).spec_logical_type(),
            decreases capacity - self.spec_data().len(),
        {
            let fill: T = self.fill;
            self.data.push(fill);
            proof {
                assert(self.spec_data().subrange(0, old(self).spec_capacity() as int) =~= old(self).spec_data());
            }
        }
        self.validity.grow(capacity);
    }
}

/// Length of the longest zero-free prefix of `bytes`: what a null-terminated
/// write can carry.
pub open spec fn zero_free_prefix_len(bytes: Seq<u8>) -> int
    decreases bytes.len(),
{
    if bytes.len() == 0 {
        0
    } else if bytes[0] == 0 {
        0
    } else {
        1 + zero_free_prefix_len(bytes.skip(1))
    }
}

/// The bytes before the first zero byte: what a null-terminated write
/// stores.
pub open spec fn terminated_prefix(bytes: Seq<u8>) -> Seq<u8> {
    bytes.subrange(0, zero_free_prefix_len(bytes))
}

/// The zero-free prefix lies inside `bytes`, holds no zero byte, and stops
/// exactly at a zero byte when one exists.
pub proof fn lemma_zero_free_prefix(bytes: Seq<u8>)
    ensures
        0 <= zero_free_prefix_len(bytes) <= bytes.len(),
        forall|k: int| 0 <= k < zero_free_prefix_len(bytes) ==> bytes[k] != 0,
        zero_free_prefix_len(bytes) < bytes.len() ==> bytes[zero_free_prefix_len(bytes)] == 0,
    decreases bytes.len(),
{
    if bytes.len() > 0 && bytes[0] != 0 {
        lemma_zero_free_prefix(bytes.skip(1));
        assert forall|k: int| 0 <= k < zero_free_prefix_len(bytes) implies bytes[k] != 0 by {
            if k > 0 {
                assert(bytes.skip(1)[k - 1] == bytes[k]);
            }
        }
    }
}

impl FlatVector<Vec<u8>> {
    /// A fresh string or blob column of `capacity` rows, each holding no
    /// bytes yet, with every row valid.
    pub fn new_bytes(logical: LogicalTypeHandle, capacity: usize) -> (r: FlatVector<Vec<u8>>)
        ensures
            r.wf(),
            r.spec_capacity() == capacity,
            forall|i: int| 0 <= i < capacity ==> r.spec_data()[i]@ == Seq::<u8>::empty(),
            r.spec_logical_type() == logical,
            r.all_valid(),
    {
        let mut data: Vec<Vec<u8>> = Vec::new();
        while data.len() < capacity
            invariant
                data@.len() <= capacity,
                forall|k: int| 0 <= k < data@.len() ==> data@[k]@.len() == 0,
            decreases capacity - data@.len(),
        {
            data.push(Vec::new());
        }
        proof {
            assert forall|i: int| 0 <= i < capacity implies data@[i]@ == Seq::<u8>::empty() by {
                assert(data@[i]@ =~= Seq::<u8>::empty());
            }
        }
        FlatVector { data, fill: Vec::new(), validity: ValidityMask::new(capacity), logical }
    }

    /// Stores `value` as row `index`'s content the way a null-terminated
    /// assignment does: only the bytes before the first zero byte are kept.
    pub fn insert_terminated(&mut self, index: usize, value: &[u8])
        requires
            old(self).wf(),
            index < old(self).spec_capacity(),
        ensures
            final(self).wf(),
            final(self).spec_capacity() == old(self).spec_capacity(),
            final(self).spec_data()[index as int]@ == terminated_prefix(value@),
            forall|j: int|
                0 <= j < old(self).spec_capacity() && j != index ==> final(self).spec_data()[j]
                    == old(self).spec_data()[j],
            final(self).spec_validity() == old(self).spec_validity(),
            final(self).spec_logical_type() == old(self).spec_logical_type(),
    {
        let mut end: usize = 0;
        while end < value.len() && value[end] != 0
            invariant
                end <= value@.len(),
                forall|k: int| 0 <= k < end ==> value@[k] != 0,
            decreases value@.len() - end,
        {
            end = end + 1;
        }
        proof {
            lemma_zero_free_prefix(value@);
            let n: int = zero_free_prefix_len(value@);
            if end < n {
                assert(value@[end as int] != 0);
            }
            if n < end {
                assert(value@[n] != 0);
            }
        }
        let prefix: Vec<u8> = slice_to_vec(&value[0..end]);
        self.write(index, prefix);
    }
}

/// A trait for inserting string or blob data into a vector.
pub trait Inserter<T> {
    /// The byte rows the column holds, one per row.
    spec fn rows(&self) -> Seq<Seq<u8>>;

    /// Well-formedness of the receiving vector.
    spec fn inserter_wf(&self) -> bool;

    /// Whether everything besides the stored rows (validity, declared type)
    /// agrees between two states of the vector.
    spec fn rows_aside_eq(&self, other: &Self) -> bool;

    /// The exact bytes stored for `value`.
    spec fn inserted_bytes(value: T) -> Seq<u8>;

    /// The values this insertion path accepts.
    spec fn insert_allowed(value: T) -> bool;

    /// Insert a value into the vector: row `index` afterwards holds exactly
    /// the bytes of `value`, and no other row changes.
    fn insert(&mut self, index: usize, value: T)
        requires
            old(self).inserter_wf(),
            index < old(self).rows().len(),
            Self::insert_allowed(value),
        ensures
            final(self).inserter_wf(),
            final(self).rows() == old(self).rows().update(
                index as int,
                Self::inserted_bytes(value),
            ),
            old(self).rows_aside_eq(final(self)),
    ;
}

/// Updating one row of a byte column updates exactly one element of the
/// column's byte view.
proof fn lemma_rows_update(s: Seq<Vec<u8>>, i: int, v: Vec<u8>)
    requires
        0 <= i < s.len(),
    ensures
        s.update(i, v).map_values(|x: Vec<u8>| x@) == s.map_values(|x: Vec<u8>| x@).update(i, v@),
{
    assert(s.update(i, v).map_values(|x: Vec<u8>| x@) =~= s.map_values(|x: Vec<u8>| x@).update(
        i,
        v@,
    ));
}

impl Inserter<&[u8]> for FlatVector<Vec<u8>> {
    open spec fn rows(&self) -> Seq<Seq<u8>> {
        self.spec_data().map_values(|x: Vec<u8>| x@)
    }

    open spec fn inserter_wf(&self) -> bool {
        self.wf()
    }

    open spec fn rows_aside_eq(&self, other: &Self) -> bool {
        &&& self.spec_validity() == other.spec_validity()
        &&& self.spec_logical_type() == other.spec_logical_type()
    }

    /// The binary-safe path: arbitrary bytes, embedded zero bytes included,
    /// are stored exactly.
    open spec fn inserted_bytes(value: &[u8]) -> Seq<u8> {
        value@
    }

    open spec fn insert_allowed(value: &[u8]) -> bool {
        true
    }

    fn insert(&mut self, index: usize, value: &[u8]) {
        let stored: Vec<u8> = slice_to_vec(value);
        let ghost stored_view: Vec<u8> = stored;
        self.write(index, stored);
        proof {
            lemma_rows_update(old(self).spec_data(), index as int, stored_view);
        }
    }
}

impl Inserter<&Vec<u8>> for FlatVector<Vec<u8>> {
    open spec fn rows(&self) -> Seq<Seq<u8>> {
        self.spec_data().map_values(|x: Vec<u8>| x@)
    }

    open spec fn inserter_wf(&self) -> bool {
        self.wf()
    }

    open spec fn rows_aside_eq(&self, other: &Self) -> bool {
        &&& self.spec_validity() == other.spec_validity()
        &&& self.spec_logical_type() == other.spec_logical_type()
    }

    /// The binary-safe path over an owned buffer: stored exactly.
    open spec fn inserted_bytes(value: &Vec<u8>) -> Seq<u8> {
        value@
    }

    open spec fn insert_allowed(value: &Vec<u8>) -> bool {
        true
    }

    fn insert(&mut self, index: usize, value: &Vec<u8>) {
        <FlatVector<Vec<u8>> as Inserter<&[u8]>>::insert(self, index, value.as_slice());
    }
}

impl<'a> Inserter<&'a str> for FlatVector<Vec<u8>> {
    open spec fn rows(&self) -> Seq<Seq<u8>> {
        self.spec_data().map_values(|x: Vec<u8>| x@)
    }

    open spec fn inserter_wf(&self) -> bool {
        self.wf()
    }

    open spec fn rows_aside_eq(&self, other: &Self) -> bool {
        &&& self.spec_validity() == other.spec_validity()
        &&& self.spec_logical_type() == other.spec_logical_type()
    }

    /// The UTF-8 encoding of the string is stored.
    open spec fn inserted_bytes(value: &'a str) -> Seq<u8> {
        vstd::utf8::encode_utf8(value@)
    }

    /// Text goes through the engine's null-terminated assignment, so content
    /// with an embedded zero byte is not accepted on this path; the
    /// binary-safe byte path takes it.
    open spec fn insert_allowed(value: &'a str) -> bool {
        !vstd::utf8::encode_utf8(value@).contains(0u8)
    }

    fn insert(&mut self, index: usize, value: &'a str) {
        let bytes: &[u8] = value.as_bytes();
        <FlatVector<Vec<u8>> as Inserter<&[u8]>>::insert(self, index, bytes);
    }
}

impl<'a> Inserter<&'a String> for FlatVector<Vec<u8>> {
    open spec fn rows(&self) -> Seq<Seq<u8>> {
        self.spec_data().map_values(|x: Vec<u8>| x@)
    }

    open spec fn inserter_wf(&self) -> bool {
        self.wf()
    }

    open spec fn rows_aside_eq(&self, other: &Self) -> bool {
        &&& self.spec_validity() == other.spec_validity()
        &&& self.spec_logical_type() == other.spec_logical_type()
    }

    /// The UTF-8 encoding of the string is stored.
    open spec fn inserted_bytes(value: &'a String) -> Seq<u8> {
        vstd::utf8::encode_utf8(value@)
    }

    /// As for `&str`: no embedded zero byte on the null-terminated path.
    open spec fn insert_allowed(value: &'a String) -> bool {
        !vstd::utf8::encode_utf8(value@).contains(0u8)
    }

    fn insert(&mut self, index: usize, value: &'a String) {
        <FlatVector<Vec<u8>> as Inserter<&str>>::insert(self, index, value.as_str());
    }
}

/// Bulk-copying a sequence and reading the column back through the typed
/// view yields the identical sequence as its prefix, whatever the cells held
/// before.
pub proof fn lemma_copy_read_back<T>(previous: Seq<T>, written: Seq<T>)
    requires
        written.len() <= previous.len(),
    ensures
        (written + previous.skip(written.len() as int)).subrange(0, written.len() as int)
            == written,
{
    assert((written + previous.skip(written.len() as int)).subrange(0, written.len() as int)
        =~= written);
}

/// For content with an embedded zero byte, what the null-terminated path
/// stores differs from the content itself, which the binary-safe path stores
/// exactly.
pub proof fn lemma_terminated_truncates(bytes: Seq<u8>, k: int)
    requires
        0 <= k < bytes.len(),
        bytes[k] == 0,
    ensures
        terminated_prefix(bytes) != bytes,
        terminated_prefix(bytes).len() < bytes.len(),
{
    lemma_zero_free_prefix(bytes);
}

} // verus!
