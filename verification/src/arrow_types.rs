//! The Arrow logical types that a column schema is made of.

use vstd::prelude::*;

verus! {

#[derive(Debug, Clone, Copy, PartialEq, Eq, Structural)]
pub enum TimeUnit {
    Second,
    Millisecond,
    Microsecond,
    Nanosecond,
}

#[derive(Debug, Clone, Copy, PartialEq, Eq, Structural)]
pub enum IntervalUnit {
    YearMonth,
    DayTime,
    MonthDayNano,
}

/// The integer types that index a dictionary.
#[derive(Debug, Clone, Copy, PartialEq, Eq, Structural)]
pub enum IntegerType {
    Int8,
    Int16,
    Int32,
    Int64,
    UInt8,
    UInt16,
    UInt32,
    UInt64,
}

/// A named, typed column.
#[derive(Debug, PartialEq)]
pub struct Field {
    pub name: String,
    pub data_type: DataType,
    pub is_nullable: bool,
}

/// The logical type of an Arrow column.
#[derive(Debug, PartialEq)]
pub enum DataType {
    Null,
    Boolean,
    Int8,
    Int16,
    Int32,
    Int64,
    UInt8,
    UInt16,
    UInt32,
    UInt64,
    Float16,
    Float32,
    Float64,
    /// A timestamp in the given unit, with an optional time zone.
    Timestamp(TimeUnit, Option<String>),
    Date32,
    Date64,
    Time32(TimeUnit),
    Time64(TimeUnit),
    Duration(TimeUnit),
    Interval(IntervalUnit),
    Binary,
    FixedSizeBinary(usize),
    LargeBinary,
    Utf8,
    LargeUtf8,
    List(Box<Field>),
    FixedSizeList(Box<Field>, usize),
    LargeList(Box<Field>),
    Struct(Vec<Field>),
    /// A map whose entries are the given struct field; the flag tells whether the keys are sorted.
    MapType(Box<Field>, bool),
    /// Values of the given type, stored as indices of the given integer type into a dictionary.
    Dictionary(IntegerType, Box<DataType>, bool),
    /// A decimal of the given precision (at most 38) and scale.
    Decimal(usize, usize),
    /// A decimal of the given precision (at most 76) and scale.
    Decimal256(usize, usize),
    /// A named extension of the given storage type.
    Extension(String, Box<DataType>, Option<String>),
}

/// The highest precision of a 128-bit decimal.
pub const DECIMAL_MAX_PRECISION: usize = 38;

/// The highest precision of a 256-bit decimal.
pub const DECIMAL256_MAX_PRECISION: usize = 76;

/// A well-formed type: decimals within their precision, and 64-bit times
/// counted in microseconds or nanoseconds, here and in every nested type.
pub open spec fn data_type_wf(t: DataType) -> bool
    decreases t, 0nat,
{
    match t {
        DataType::Time64(u) => u == TimeUnit::Microsecond || u == TimeUnit::Nanosecond,
        DataType::Decimal(p, _) => p <= DECIMAL_MAX_PRECISION,
        DataType::Decimal256(p, _) => p <= DECIMAL256_MAX_PRECISION,
        DataType::List(f) => data_type_wf(f.data_type),
        DataType::FixedSizeList(f, _) => data_type_wf(f.data_type),
        DataType::LargeList(f) => data_type_wf(f.data_type),
        DataType::Struct(fs) => fields_wf(fs@, fs@.len()),
        DataType::MapType(f, _) => data_type_wf(f.data_type),
        DataType::Dictionary(_, v, _) => data_type_wf(*v),
        DataType::Extension(_, v, _) => data_type_wf(*v),
        _ => true,
    }
}

/// The first `k` fields are well-formed.
pub open spec fn fields_wf(fs: Seq<Field>, k: nat) -> bool
    decreases fs, k,
{
    if k == 0 || k > fs.len() {
        true
    } else {
        fields_wf(fs, (k - 1) as nat) && data_type_wf(fs[k - 1].data_type)
    }
}

/// The type with extensions removed: the storage type of an extension.
pub open spec fn logical_type_of(t: DataType) -> DataType
    decreases t,
{
    match t {
        DataType::Extension(_, inner, _) => logical_type_of(*inner),
        _ => t,
    }
}

impl DataType {
    /// The type with extensions removed.
    pub fn to_logical_type(&self) -> (t: &DataType)
        ensures
            *t == logical_type_of(*self),
        decreases self,
    {
        match self {
            DataType::Extension(_, inner, _) => inner.to_logical_type(),
            _ => self,
        }
    }
}

} // verus!
