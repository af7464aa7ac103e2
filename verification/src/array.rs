//! Fixed-size-list columns: a single child vector whose cells are implicitly
//! grouped in runs of a constant size declared by the logical type.
//!
//! Row `i` of the column corresponds to child rows `[i*s, (i+1)*s)` where
//! `s` is the declared array size; no per-row offset or length is stored.

use vstd::prelude::*;

use crate::flat::FlatVector;
use crate::logical_type::LogicalTypeHandle;
use crate::validity::ValidityMask;

verus! {

/// A fixed-size-list column of `rows` runs, each `array_size` child cells.
pub struct ArrayVector<T> {
    child: FlatVector<T>,
    validity: ValidityMask,
    logical: LogicalTypeHandle,
}

impl<T: Copy> ArrayVector<T> {
    /// The single child vector holding the grouped cells.
    pub closed spec fn spec_child(&self) -> FlatVector<T> {
        self.child
    }

    /// The row-level validity bitmap.
    pub closed spec fn spec_validity(&self) -> ValidityMask {
        self.validity
    }

    /// The declared column type.
    pub closed spec fn spec_logical_type(&self) -> LogicalTypeHandle {
        self.logical
    }

    /// The number of logical rows.
    pub open spec fn spec_rows(&self) -> nat {
        self.spec_validity().spec_capacity()
    }

    /// The declared run length.
    pub open spec fn spec_array_size(&self) -> int {
        self.spec_logical_type().spec_array_size() as int
    }

    /// Row `row` is valid (non-null).
    pub open spec fn spec_is_valid(&self, row: int) -> bool {
        self.spec_validity().is_valid(row)
    }

    /// What a null check reads for row `row`.
    pub open spec fn spec_row_is_null(&self, row: int) -> bool {
        !self.spec_is_valid(row)
    }

    /// The child holds exactly one run of the declared size per logical row.
    pub open spec fn wf(&self) -> bool {
        &&& self.spec_child().wf()
        &&& self.spec_validity().wf()
        &&& self.spec_child().spec_capacity() == self.spec_rows() * self.spec_array_size()
    }

    /// A fresh array column of `rows` logical rows, its child sized to
    /// `rows` runs of the declared array size, every cell showing `fill`,
    /// every row valid.
    pub fn new(logical: LogicalTypeHandle, rows: usize, fill: T) -> (r: ArrayVector<T>)
        requires
            logical.spec_array_size() <= usize::MAX,
            rows * logical.spec_array_size() <= usize::MAX,
        ensures
            r.wf(),
            r.spec_rows() == rows,
            r.spec_logical_type() == logical,
            r.spec_child().spec_data() == Seq::new((rows * logical.spec_array_size()) as nat, |i: int| fill),
            forall|row: int| 0 <= row < rows ==> r.spec_is_valid(row),
    {
        let size: u64 = logical.array_size();
        let cells: usize = rows * (size as usize);
        proof {
            assert(cells == rows * logical.spec_array_size());
        }
        ArrayVector {
            child: FlatVector::with_capacity(LogicalTypeHandle::primitive(), fill, cells),
            validity: ValidityMask::new(rows),
            logical,
        }
    }

    /// Get the logical type of this vector.
    pub fn logical_type(&self) -> (r: &LogicalTypeHandle)
        ensures
            *r == self.spec_logical_type(),
    {
        &self.logical
    }

    /// Returns the size of the array type: the constant run length declared
    /// by the logical type.
    pub fn get_array_size(&self) -> (r: u64)
        ensures
            r == self.spec_array_size(),
    {
        self.logical.array_size()
    }

    /// Returns a read view of the child vector.
    pub fn child(&self) -> (r: &FlatVector<T>)
        ensures
            *r == self.spec_child(),
    {
        &self.child
    }

    /// Set primitive data to the child node: bulk-overwrites the first
    /// `data.len()` child cells.
    pub fn set_child(&mut self, data: &[T])
        requires
            old(self).wf(),
            data@.len() <= old(self).spec_child().spec_capacity(),
        ensures
            final(self).wf(),
            final(self).spec_child().spec_data() == data@ + old(self).spec_child().spec_data().skip(data@.len() as int),
            final(self).spec_validity() == old(self).spec_validity(),
            final(self).spec_logical_type() == old(self).spec_logical_type(),
    {
        self.child.copy(data);
    }

    /// Marks the whole fixed-size row `row` null; the child cells of its run
    /// are left as they were.
    pub fn set_null(&mut self, row: usize)
        requires
            old(self).wf(),
            row < old(self).spec_rows(),
        ensures
            final(self).wf(),
            final(self).spec_child() == old(self).spec_child(),
            final(self).spec_logical_type() == old(self).spec_logical_type(),
            final(self).spec_row_is_null(row as int),
            forall|r: int|
                0 <= r < old(self).spec_rows() && r != row ==> final(self).spec_is_valid(r) == old(
                    self,
                ).spec_is_valid(r),
    {
        self.validity.set_null(row);
    }

    /// Returns true if the row at the given index is null.
    pub fn row_is_null(&self, row: u64) -> (r: bool)
        requires
            self.wf(),
            row < self.spec_rows(),
        ensures
            r == self.spec_row_is_null(row as int),
    {
        self.validity.row_is_null(row)
    }
}

/// Row `i` of an array vector occupies child cells `[i*s, (i+1)*s)`: after
/// populating the child with one value per cell, row `i`'s run reads back as
/// exactly the written values at those indices.
pub proof fn lemma_array_row_runs<T: Copy>(v: &ArrayVector<T>, data: Seq<T>, i: int)
    requires
        v.wf(),
        v.spec_child().spec_data().subrange(0, data.len() as int) == data,
        data.len() == v.spec_rows() * v.spec_array_size(),
        0 <= i < v.spec_rows(),
    ensures
        v.spec_child().spec_data().subrange(i * v.spec_array_size(), (i + 1) * v.spec_array_size())
            == data.subrange(i * v.spec_array_size(), (i + 1) * v.spec_array_size()),
{
    let s = v.spec_array_size();
    let rows = v.spec_rows() as int;
    assert(0 <= i * s && i * s <= (i + 1) * s && (i + 1) * s <= rows * s) by (nonlinear_arith)
        requires
            0 <= i < rows,
            s >= 0,
    ;
    assert(v.spec_child().spec_data().subrange(i * s, (i + 1) * s) =~= data.subrange(
        i * s,
        (i + 1) * s,
    ));
}

} // verus!
