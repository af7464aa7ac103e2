//! The column type descriptor, as far as the vector layer reads it.
//!
//! Vectors never construct a column's SQL-level type for themselves; a host
//! supplies one descriptor per column and the layer only queries it: the
//! fixed run length of an array column, and the names (hence count) of a
//! struct column's children.

use vstd::prelude::*;

verus! {

/// Declared-type metadata that the vector layer consults: child names for
/// struct columns, the constant run length for array columns.
pub struct LogicalTypeHandle {
    array_size: u64,
    child_names: Vec<String>,
}

impl LogicalTypeHandle {
    /// The constant run length of an array column; 0 for any other column.
    pub closed spec fn spec_array_size(&self) -> u64 {
        self.array_size
    }

    /// The declared names of a struct column's children, in ordinal order.
    pub closed spec fn spec_child_names(&self) -> Seq<Seq<char>> {
        self.child_names@.map_values(|s: String| s@)
    }

    /// The declared child count.
    pub open spec fn spec_num_children(&self) -> nat {
        self.spec_child_names().len()
    }

    /// Descriptor of a column with no nested shape.
    pub fn primitive() -> (r: LogicalTypeHandle)
        ensures
            r.spec_array_size() == 0,
            r.spec_num_children() == 0,
    {
        LogicalTypeHandle { array_size: 0, child_names: Vec::new() }
    }

    /// Descriptor of an array column whose rows are runs of `array_size`
    /// child rows.
    pub fn array(array_size: u64) -> (r: LogicalTypeHandle)
        ensures
            r.spec_array_size() == array_size,
            r.spec_num_children() == 0,
    {
        LogicalTypeHandle { array_size, child_names: Vec::new() }
    }

    /// Descriptor of a struct column with the given child names.
    pub fn with_child_names(child_names: Vec<String>) -> (r: LogicalTypeHandle)
        ensures
            r.spec_array_size() == 0,
            r.spec_child_names() == child_names@.map_values(|s: String| s@),
    {
        LogicalTypeHandle { array_size: 0, child_names }
    }

    /// The fixed run length declared for an array column.
    pub fn array_size(&self) -> (r: u64)
        ensures
            r == self.spec_array_size(),
    {
        self.array_size
    }

    /// The declared child count of a struct column.
    pub fn num_children(&self) -> (r: usize)
        ensures
            r == self.spec_num_children(),
    {
        self.child_names.len()
    }

    /// The declared name of child `idx`.
    pub fn child_name(&self, idx: usize) -> (r: &str)
        requires
            idx < self.spec_num_children(),
        ensures
            r@ == self.spec_child_names()[idx as int],
    {
        self.child_names[idx].as_str()
    }
}

/// A child's name is a function of the handle alone: any two reads of the
/// same child of the same handle see one name.
pub proof fn lemma_child_name_stable(
    t: &LogicalTypeHandle,
    idx: int,
    first: Seq<char>,
    second: Seq<char>,
)
    requires
        first == t.spec_child_names()[idx],
        second == t.spec_child_names()[idx],
    ensures
        first == second,
{
}

} // verus!
