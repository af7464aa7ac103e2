//! Struct columns: a fixed, ordered set of named children, each
//! independently a vector, sharing the parent's row indexing.
//!
//! Child names and count are queried from the logical type, never stored
//! redundantly on the vector; child row `i` corresponds to struct row `i`.
//! Marking a struct row null does not cascade to its children.

use vstd::prelude::*;

use crate::logical_type::LogicalTypeHandle;
use crate::validity::ValidityMask;

verus! {

/// A struct column with `C`-typed children and its own validity bitmap.
pub struct StructVector<C> {
    children: Vec<C>,
    validity: ValidityMask,
    logical: LogicalTypeHandle,
}

impl<C> StructVector<C> {
    /// The child vectors, in ordinal order.
    pub closed spec fn spec_children(&self) -> Seq<C> {
        self.children@
    }

    /// The row-level validity bitmap.
    pub closed spec fn spec_validity(&self) -> ValidityMask {
        self.validity
    }

    /// The declared column type.
    pub closed spec fn spec_logical_type(&self) -> LogicalTypeHandle {
        self.logical
    }

    /// The number of rows this view was constructed for.
    pub open spec fn spec_capacity(&self) -> nat {
        self.spec_validity().spec_capacity()
    }

    /// Row `row` is valid (non-null) at the struct level.
    pub open spec fn spec_is_valid(&self, row: int) -> bool {
        self.spec_validity().is_valid(row)
    }

    /// What a null check reads for struct row `row`.
    pub open spec fn spec_row_is_null(&self, row: int) -> bool {
        !self.spec_is_valid(row)
    }

    /// One child per declared child name, and a well-formed bitmap.
    pub open spec fn wf(&self) -> bool {
        &&& self.spec_validity().wf()
        &&& self.spec_children().len() == self.spec_logical_type().spec_num_children()
    }

    /// A fresh struct column over the given children, one per name the
    /// logical type declares, with every row valid.
    pub fn new(logical: LogicalTypeHandle, capacity: usize, children: Vec<C>) -> (r: StructVector<
        C,
    >)
        requires
            children@.len() == logical.spec_num_children(),
        ensures
            r.wf(),
            r.spec_capacity() == capacity,
            r.spec_children() == children@,
            r.spec_logical_type() == logical,
            forall|row: int| 0 <= row < capacity ==> r.spec_is_valid(row),
    {
        StructVector { children, validity: ValidityMask::new(capacity), logical }
    }

    /// Get the number of children, as the logical type declares it.
    pub fn num_children(&self) -> (r: usize)
        ensures
            r == self.spec_logical_type().spec_num_children(),
    {
        self.logical.num_children()
    }

    /// Get the name of the child by idx, as the logical type declares it.
    pub fn child_name(&self, idx: usize) -> (r: &str)
        requires
            idx < self.spec_logical_type().spec_num_children(),
        ensures
            r@ == self.spec_logical_type().spec_child_names()[idx as int],
    {
        self.logical.child_name(idx)
    }

    /// Returns the child by idx.
    pub fn child(&self, idx: usize) -> (r: &C)
        requires
            self.wf(),
            idx < self.spec_logical_type().spec_num_children(),
        ensures
            *r == self.spec_children()[idx as int],
    {
        &self.children[idx]
    }

    /// Replaces the child at `idx`, returning nothing; the other children,
    /// the validity and the declared type stay.
    pub fn replace_child(&mut self, idx: usize, child: C)
        requires
            old(self).wf(),
            idx < old(self).spec_logical_type().spec_num_children(),
        ensures
            final(self).wf(),
            final(self).spec_children() == old(self).spec_children().update(idx as int, child),
            final(self).spec_validity() == old(self).spec_validity(),
            final(self).spec_logical_type() == old(self).spec_logical_type(),
    {
        self.children.set(idx, child);
    }

    /// Get the logical type of this struct vector.
    pub fn logical_type(&self) -> (r: &LogicalTypeHandle)
        ensures
            *r == self.spec_logical_type(),
    {
        &self.logical
    }

    /// Marks struct row `row` null at this level; children are not touched
    /// and may still hold stale cells at that row.
    pub fn set_null(&mut self, row: usize)
        requires
            old(self).wf(),
            row < old(self).spec_capacity(),
        ensures
            final(self).wf(),
            final(self).spec_children() == old(self).spec_children(),
            final(self).spec_logical_type() == old(self).spec_logical_type(),
            final(self).spec_row_is_null(row as int),
            forall|r: int|
                0 <= r < old(self).spec_capacity() && r != row ==> final(self).spec_is_valid(r)
                    == old(self).spec_is_valid(r),
    {
        self.validity.set_null(row);
    }

    /// Returns true if the struct row at the given index is null.
    pub fn row_is_null(&self, row: u64) -> (r: bool)
        requires
            self.wf(),
            row < self.spec_capacity(),
        ensures
            r == self.spec_row_is_null(row as int),
    {
        self.validity.row_is_null(row)
    }
}

} // verus!
