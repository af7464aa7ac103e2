//! SQL-level data types and the mapping from a host's column data type
//! descriptor onto them.

use vstd::prelude::*;

verus! {

/// Empty struct that can be used to fill in a query parameter as `NULL`.
#[derive(Copy, Clone)]
pub struct Null;

/// SQL-level data types.
#[derive(Debug, PartialEq, Eq)]
pub enum Type {
    /// NULL
    Null,
    /// BOOLEAN
    Boolean,
    /// TINYINT
    TinyInt,
    /// SMALLINT
    SmallInt,
    /// INT
    Int,
    /// BIGINT
    BigInt,
    /// HUGEINT
    HugeInt,
    /// UTINYINT
    UTinyInt,
    /// USMALLINT
    USmallInt,
    /// UINT
    UInt,
    /// UBIGINT
    UBigInt,
    /// FLOAT
    Float,
    /// DOUBLE
    Double,
    /// DECIMAL
    Decimal,
    /// TIMESTAMP
    Timestamp,
    /// Text
    Text,
    /// BLOB
    Blob,
    /// DATE32
    Date32,
    /// TIME64
    Time64,
    /// INTERVAL
    Interval,
    /// LIST
    List(Box<Type>),
    /// ENUM
    Enum,
    /// Any
    Any,
}

/// A column's physical data type as a host declares it, reduced to what the
/// type mapping reads: the variant, and for list shapes the element type.
#[derive(Debug, PartialEq, Eq)]
pub enum DataTypeDesc {
    Null,
    Boolean,
    Int8,
    Int16,
    Int32,
    Int64,
    UInt8,
    UInt16,
    UInt32,
    UInt64,
    Float64,
    Timestamp,
    Date32,
    Time64,
    Binary,
    Utf8,
    LargeUtf8,
    List(Box<DataTypeDesc>),
    LargeList(Box<DataTypeDesc>),
    Decimal128,
    Decimal256,
}

/// The declared data type `dt` maps to the SQL-level type `t`: integer
/// widths carry over, both string encodings are text, and both list shapes
/// are lists of whatever their element maps to.
pub open spec fn spec_maps_to(dt: DataTypeDesc, t: Type) -> bool
    decreases dt,
{
    match dt {
        DataTypeDesc::Null => t == Type::Null,
        DataTypeDesc::Boolean => t == Type::Boolean,
        DataTypeDesc::Int8 => t == Type::TinyInt,
        DataTypeDesc::Int16 => t == Type::SmallInt,
        DataTypeDesc::Int32 => t == Type::Int,
        DataTypeDesc::Int64 => t == Type::BigInt,
        DataTypeDesc::UInt8 => t == Type::UTinyInt,
        DataTypeDesc::UInt16 => t == Type::USmallInt,
        DataTypeDesc::UInt32 => t == Type::UInt,
        DataTypeDesc::UInt64 => t == Type::UBigInt,
        DataTypeDesc::Float64 => t == Type::Float,
        DataTypeDesc::Timestamp => t == Type::Timestamp,
        DataTypeDesc::Date32 => t == Type::Date32,
        DataTypeDesc::Time64 => t == Type::Time64,
        DataTypeDesc::Binary => t == Type::Blob,
        DataTypeDesc::Utf8 => t == Type::Text,
        DataTypeDesc::LargeUtf8 => t == Type::Text,
        DataTypeDesc::List(inner) => match t {
            Type::List(telem) => spec_maps_to(*inner, *telem),
            _ => false,
        },
        DataTypeDesc::LargeList(inner) => match t {
            Type::List(telem) => spec_maps_to(*inner, *telem),
            _ => false,
        },
        DataTypeDesc::Decimal128 => t == Type::Decimal,
        DataTypeDesc::Decimal256 => t == Type::Decimal,
    }
}

impl Type {
    /// Maps a declared column data type to its SQL-level type.
    pub fn from_data_type(value: &DataTypeDesc) -> (r: Type)
        ensures
            spec_maps_to(*value, r),
        decreases *value,
    {
        match value {
            DataTypeDesc::Null => Type::Null,
            DataTypeDesc::Boolean => Type::Boolean,
            DataTypeDesc::Int8 => Type::TinyInt,
            DataTypeDesc::Int16 => Type::SmallInt,
            DataTypeDesc::Int32 => Type::Int,
            DataTypeDesc::Int64 => Type::BigInt,
            DataTypeDesc::UInt8 => Type::UTinyInt,
            DataTypeDesc::UInt16 => Type::USmallInt,
            DataTypeDesc::UInt32 => Type::UInt,
            DataTypeDesc::UInt64 => Type::UBigInt,
            DataTypeDesc::Float64 => Type::Float,
            DataTypeDesc::Timestamp => Type::Timestamp,
            DataTypeDesc::Date32 => Type::Date32,
            DataTypeDesc::Time64 => Type::Time64,
            DataTypeDesc::Binary => Type::Blob,
            DataTypeDesc::Utf8 => Type::Text,
            DataTypeDesc::LargeUtf8 => Type::Text,
            DataTypeDesc::List(inner) => Type::List(Box::new(Type::from_data_type(inner))),
            DataTypeDesc::LargeList(inner) => Type::List(Box::new(Type::from_data_type(inner))),
            DataTypeDesc::Decimal128 => Type::Decimal,
            DataTypeDesc::Decimal256 => Type::Decimal,
        }
    }

    /// The type's display name.
    pub open spec fn spec_name(&self) -> Seq<char> {
        match *self {
            Type::Null => "Null"@,
            Type::Boolean => "Boolean"@,
            Type::TinyInt => "TinyInt"@,
            Type::SmallInt => "SmallInt"@,
            Type::Int => "Int"@,
            Type::BigInt => "BigInt"@,
            Type::HugeInt => "HugeInt"@,
            Type::UTinyInt => "UTinyInt"@,
            Type::USmallInt => "USmallInt"@,
            Type::UInt => "UInt"@,
            Type::UBigInt => "UBigInt"@,
            Type::Float => "Float"@,
            Type::Double => "Double"@,
            Type::Decimal => "Decimal"@,
            Type::Timestamp => "Timestamp"@,
            Type::Text => "Text"@,
            Type::Blob => "Blob"@,
            Type::Date32 => "Date32"@,
            Type::Time64 => "Time64"@,
            Type::Interval => "Interval"@,
            Type::List(..) => "List"@,
            Type::Enum => "Enum"@,
            Type::Any => "Any"@,
        }
    }

    /// The type's display name, `"List"` for any list regardless of its
    /// element type.
    pub fn name(&self) -> (r: &'static str)
        ensures
            r@ == self.spec_name(),
    {
        match *self {
            Type::Null => "Null",
            Type::Boolean => "Boolean",
            Type::TinyInt => "TinyInt",
            Type::SmallInt => "SmallInt",
            Type::Int => "Int",
            Type::BigInt => "BigInt",
            Type::HugeInt => "HugeInt",
            Type::UTinyInt => "UTinyInt",
            Type::USmallInt => "USmallInt",
            Type::UInt => "UInt",
            Type::UBigInt => "UBigInt",
            Type::Float => "Float",
            Type::Double => "Double",
            Type::Decimal => "Decimal",
            Type::Timestamp => "Timestamp",
            Type::Text => "Text",
            Type::Blob => "Blob",
            Type::Date32 => "Date32",
            Type::Time64 => "Time64",
            Type::Interval => "Interval",
            Type::List(..) => "List",
            Type::Enum => "Enum",
            Type::Any => "Any",
        }
    }
}

} // verus!
