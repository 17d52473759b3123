//! Parquet schema nodes: the physical type of each leaf column and the
//! annotations that tell how to read it.

use vstd::prelude::*;

verus! {

#[derive(Debug, Clone, Copy, PartialEq, Eq, Structural)]
pub enum PhysicalType {
    Boolean,
    Int32,
    Int64,
    Int96,
    Float,
    Double,
    ByteArray,
    FixedLenByteArray(usize),
}

#[derive(Debug, Clone, Copy, PartialEq, Eq, Structural)]
pub enum Repetition {
    /// When the field has no null values
    Required,
    /// When the field may have null values
    Optional,
    /// When the field may be repeated (list field)
    Repeated,
}

#[derive(Debug, Clone, Copy, PartialEq, Eq, Structural)]
pub enum PrimitiveConvertedType {
    Utf8,
    Enum,
    /// (precision, scale)
    Decimal(usize, usize),
    Date,
    TimeMillis,
    TimeMicros,
    TimestampMillis,
    TimestampMicros,
    Uint8,
    Uint16,
    Uint32,
    Uint64,
    Int8,
    Int16,
    Int32,
    Int64,
    Json,
    Bson,
    Interval,
}

#[derive(Debug, Clone, Copy, PartialEq, Eq, Structural)]
pub enum ParquetTimeUnit {
    Milliseconds,
    Microseconds,
    Nanoseconds,
}

#[derive(Debug, Clone, Copy, PartialEq, Eq, Structural)]
pub enum ParquetIntegerType {
    Int8,
    Int16,
    Int32,
    Int64,
    UInt8,
    UInt16,
    UInt32,
    UInt64,
}

#[derive(Debug, Clone, Copy, PartialEq, Eq, Structural)]
pub enum PrimitiveLogicalType {
    String,
    Enum,
    Decimal(usize, usize),
    Date,
    Time { unit: ParquetTimeUnit, is_adjusted_to_utc: bool },
    Timestamp { unit: ParquetTimeUnit, is_adjusted_to_utc: bool },
    Integer(ParquetIntegerType),
    Unknown,
    Json,
    Bson,
    Uuid,
}

#[derive(Debug, Clone, Copy, PartialEq, Eq, Structural)]
pub enum GroupConvertedType {
    /// `MAP`
    MapGroup,
    MapKeyValue,
    List,
}

#[derive(Debug, Clone, Copy, PartialEq, Eq, Structural)]
pub enum GroupLogicalType {
    /// `MAP`
    MapGroup,
    List,
}

/// A node of a Parquet schema: a leaf column or a group of nodes.
#[derive(Debug, PartialEq)]
pub enum ParquetType {
    PrimitiveType {
        name: String,
        repetition: Repetition,
        id: Option<i32>,
        converted_type: Option<PrimitiveConvertedType>,
        logical_type: Option<PrimitiveLogicalType>,
        physical_type: PhysicalType,
    },
    GroupType {
        name: String,
        repetition: Repetition,
        id: Option<i32>,
        converted_type: Option<GroupConvertedType>,
        logical_type: Option<GroupLogicalType>,
        fields: Vec<ParquetType>,
    },
}

/// The mathematical value of a schema node.
pub enum ParquetNode {
    Primitive {
        name: Seq<char>,
        repetition: Repetition,
        id: Option<i32>,
        converted_type: Option<PrimitiveConvertedType>,
        logical_type: Option<PrimitiveLogicalType>,
        physical_type: PhysicalType,
    },
    Group {
        name: Seq<char>,
        repetition: Repetition,
        id: Option<i32>,
        converted_type: Option<GroupConvertedType>,
        logical_type: Option<GroupLogicalType>,
        fields: Seq<ParquetNode>,
    },
}

pub open spec fn parquet_node(t: ParquetType) -> ParquetNode
    decreases t, 0nat,
{
    match t {
        ParquetType::PrimitiveType { name, repetition, id, converted_type, logical_type, physical_type } =>
            ParquetNode::Primitive { name: name@, repetition, id, converted_type, logical_type, physical_type },
        ParquetType::GroupType { name, repetition, id, converted_type, logical_type, fields } =>
            ParquetNode::Group {
                name: name@,
                repetition,
                id,
                converted_type,
                logical_type,
                fields: parquet_nodes(fields@, fields@.len()),
            },
    }
}

/// The values of the first `k` nodes.
pub open spec fn parquet_nodes(ts: Seq<ParquetType>, k: nat) -> Seq<ParquetNode>
    decreases ts, k,
{
    if k == 0 || k > ts.len() {
        Seq::empty()
    } else {
        parquet_nodes(ts, (k - 1) as nat).push(parquet_node(ts[k - 1]))
    }
}

impl View for ParquetType {
    type V = ParquetNode;

    open spec fn view(&self) -> ParquetNode {
        parquet_node(*self)
    }
}

} // verus!
