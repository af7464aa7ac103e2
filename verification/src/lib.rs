//! A columnar vector access layer: typed, bounds-checked read/write views
//! over one column of a fixed-capacity chunk, with a bit-per-row validity
//! (null) bitmap and nested container shapes (variable-length lists,
//! fixed-size arrays, structs with named children).
//!
//! Every vector kind owns its backing storage here, so the layout contract
//! that a host engine would otherwise enforce at runtime (row-major
//! fixed-width element storage, 64-bit validity words, offset/length list
//! entries, implicit fixed-size grouping) is stated as contracts and proved.

pub mod array;
pub mod error;
pub mod flat;
pub mod list;
pub mod logical_type;
pub mod struct_vector;
pub mod types;
pub mod validity;

pub use array::ArrayVector;
pub use error::ColumnError;
pub use flat::FlatVector;
pub use flat::Inserter;
pub use list::ListEntry;
pub use list::ListVector;
pub use logical_type::LogicalTypeHandle;
pub use struct_vector::StructVector;
pub use types::DataTypeDesc;
pub use types::Null;
pub use types::Type;
pub use validity::ValidityMask;
