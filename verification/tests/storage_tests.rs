use databend_query_core::arrow_types::{DataType, Field, TimeUnit};
use databend_query_core::error::ErrorKind;
use databend_query_core::parquet_schema::{decimal_length_from_precision, schema_to_metadata_key, to_parquet_type, to_parquet_type_with_options};
use databend_query_core::parquet_types::{ParquetType, PhysicalType, PrimitiveConvertedType, PrimitiveLogicalType, Repetition};
use databend_query_core::serde_meta::{AggregateSerdeMeta, BUCKET_TYPE, SPILLED_TYPE};
use databend_query_core::table_meta::{
    is_possible_non_standard_decimal_block, monotonically_increased_timestamp, trim_timestamp_to_micro_second,
    UtcTimestamp,
};

fn field(name: &str, data_type: DataType, nullable: bool) -> Field {
    Field { name: name.to_string(), data_type, is_nullable: nullable }
}

#[test]
fn decimal_lengths() {
    assert_eq!(decimal_length_from_precision(1), 1);
    assert_eq!(decimal_length_from_precision(2), 1);
    assert_eq!(decimal_length_from_precision(3), 2);
    assert_eq!(decimal_length_from_precision(9), 4);
    assert_eq!(decimal_length_from_precision(10), 5);
    assert_eq!(decimal_length_from_precision(18), 8);
    assert_eq!(decimal_length_from_precision(38), 16);
    assert_eq!(decimal_length_from_precision(39), 17);
    assert_eq!(decimal_length_from_precision(76), 32);
}

#[test]
fn integer_columns_become_int32_leaves() {
    match to_parquet_type(&field("a", DataType::Int16, true)).ok().unwrap() {
        ParquetType::PrimitiveType { name, repetition, converted_type, logical_type, physical_type, .. } => {
            assert_eq!(name, "a");
            assert_eq!(repetition, Repetition::Optional);
            assert_eq!(physical_type, PhysicalType::Int32);
            assert_eq!(converted_type, Some(PrimitiveConvertedType::Int16));
            assert!(matches!(logical_type, Some(PrimitiveLogicalType::Integer(_))));
        },
        _ => panic!("a leaf was expected"),
    }
}

#[test]
fn strings_are_utf8_byte_arrays() {
    match to_parquet_type(&field("s", DataType::Utf8, false)).ok().unwrap() {
        ParquetType::PrimitiveType { repetition, physical_type, logical_type, .. } => {
            assert_eq!(repetition, Repetition::Required);
            assert_eq!(physical_type, PhysicalType::ByteArray);
            assert_eq!(logical_type, Some(PrimitiveLogicalType::String));
        },
        _ => panic!("a leaf was expected"),
    }
}

#[test]
fn decimals_take_the_smallest_physical_type() {
    match to_parquet_type(&field("d", DataType::Decimal(7, 2), false)).ok().unwrap() {
        ParquetType::PrimitiveType { physical_type, converted_type, .. } => {
            assert_eq!(physical_type, PhysicalType::Int32);
            assert_eq!(converted_type, Some(PrimitiveConvertedType::Decimal(7, 2)));
        },
        _ => panic!("a leaf was expected"),
    }
    match to_parquet_type(&field("d", DataType::Decimal(20, 2), false)).ok().unwrap() {
        ParquetType::PrimitiveType { physical_type, .. } => {
            assert_eq!(physical_type, PhysicalType::FixedLenByteArray(9));
        },
        _ => panic!("a leaf was expected"),
    }
    match to_parquet_type(&field("d", DataType::Decimal256(50, 2), false)).ok().unwrap() {
        ParquetType::PrimitiveType { physical_type, .. } => {
            assert_eq!(physical_type, PhysicalType::FixedLenByteArray(32));
        },
        _ => panic!("a leaf was expected"),
    }
    match to_parquet_type_with_options(&field("d", DataType::Decimal256(50, 2), false), false).ok().unwrap() {
        ParquetType::PrimitiveType { physical_type, .. } => {
            assert_eq!(physical_type, PhysicalType::FixedLenByteArray(21));
        },
        _ => panic!("a leaf was expected"),
    }
}

#[test]
fn a_decimal_with_scale_above_precision_is_refused_by_parquet() {
    let e = to_parquet_type(&field("d", DataType::Decimal(5, 6), false)).err().unwrap();
    assert_eq!(e.kind, ErrorKind::ExternalFormat);
    assert!(!e.message.is_empty());
}

#[test]
fn unwritable_types() {
    let e = to_parquet_type(&field("h", DataType::Float16, false)).err().unwrap();
    assert_eq!(e.kind, ErrorKind::NotYetImplemented);
    assert_eq!(e.message, "Writing the data type Float16 is not yet implemented");
    let e = to_parquet_type(&field("e", DataType::Struct(vec![]), false)).err().unwrap();
    assert_eq!(e.kind, ErrorKind::InvalidArgument);
    assert_eq!(e.message, "Parquet does not support writing empty structs");
}

#[test]
fn lists_nest_a_repeated_group() {
    let item = field("item", DataType::Int64, true);
    match to_parquet_type(&field("l", DataType::List(Box::new(item)), true)).ok().unwrap() {
        ParquetType::GroupType { name, repetition, fields, .. } => {
            assert_eq!(name, "l");
            assert_eq!(repetition, Repetition::Optional);
            assert_eq!(fields.len(), 1);
            match &fields[0] {
                ParquetType::GroupType { name, repetition, fields, .. } => {
                    assert_eq!(name, "list");
                    assert_eq!(*repetition, Repetition::Repeated);
                    assert_eq!(fields.len(), 1);
                },
                _ => panic!("the repeated group was expected"),
            }
        },
        _ => panic!("a group was expected"),
    }
}

#[test]
fn timestamps_record_their_unit() {
    let t = field("ts", DataType::Timestamp(TimeUnit::Microsecond, Some("+00:00".to_string())), true);
    match to_parquet_type(&t).ok().unwrap() {
        ParquetType::PrimitiveType { physical_type, logical_type, .. } => {
            assert_eq!(physical_type, PhysicalType::Int64);
            assert!(matches!(logical_type, Some(PrimitiveLogicalType::Timestamp { is_adjusted_to_utc: true, .. })));
        },
        _ => panic!("a leaf was expected"),
    }
}

#[test]
fn schema_metadata_entry() {
    let kv = schema_to_metadata_key(&[1u8, 2, 3]);
    assert_eq!(kv.key, "ARROW:schema");
    // 0xFFFFFFFF, then the length 3 in little endian, then the bytes.
    assert_eq!(kv.value, Some("/////wMAAAABAgM=".to_string()));
}

#[test]
fn timestamps_cut_to_microseconds() {
    let t = trim_timestamp_to_micro_second(UtcTimestamp { secs: 10, nanos: 123_456_789 });
    assert_eq!(t, UtcTimestamp { secs: 10, nanos: 123_456_000 });
    assert_eq!(trim_timestamp_to_micro_second(t), t);
}

#[test]
fn snapshot_timestamps_do_not_go_back() {
    let now = UtcTimestamp { secs: 100, nanos: 0 };
    assert_eq!(monotonically_increased_timestamp(now, &None), now);
    let earlier = UtcTimestamp { secs: 99, nanos: 5 };
    assert_eq!(monotonically_increased_timestamp(now, &Some(earlier)), now);
    let later = UtcTimestamp { secs: 100, nanos: 999_500_000 };
    assert_eq!(monotonically_increased_timestamp(now, &Some(later)), UtcTimestamp { secs: 101, nanos: 500_000 });
    let later = UtcTimestamp { secs: 200, nanos: 7 };
    assert_eq!(monotonically_increased_timestamp(now, &Some(later)), UtcTimestamp { secs: 200, nanos: 1_000_007 });
}

#[test]
fn old_decimal_blocks_by_file_name() {
    assert_eq!(is_possible_non_standard_decimal_block("1/2/_b/abc_v2.parquet").ok().unwrap(), true);
    assert_eq!(is_possible_non_standard_decimal_block("1/2/_b/h0123.parquet").ok().unwrap(), false);
    assert_eq!(is_possible_non_standard_decimal_block("g").ok().unwrap(), false);
    let e = is_possible_non_standard_decimal_block("/").err().unwrap();
    assert_eq!(e.kind, ErrorKind::StorageOther);
    assert_eq!(e.message, "Illegal block path, no file name found: /");
}

#[test]
fn block_file_name_is_the_last_slash_component() {
    // trailing slashes and `.` components are skipped
    assert_eq!(is_possible_non_standard_decimal_block("1/2/abc/").ok().unwrap(), true);
    assert_eq!(is_possible_non_standard_decimal_block("1/2/h/./").ok().unwrap(), false);
    assert_eq!(is_possible_non_standard_decimal_block("a//b").ok().unwrap(), true);
    // a backslash is no separator
    assert_eq!(is_possible_non_standard_decimal_block("x/z\\a").ok().unwrap(), false);
    for bad in ["", ".", "./", "x/..", "//", "/."] {
        let e = is_possible_non_standard_decimal_block(bad).err().unwrap();
        assert_eq!(e.message, format!("Illegal block path, no file name found: {}", bad));
    }
}

#[test]
fn serde_meta_constructors_and_equality() {
    let a = AggregateSerdeMeta::create(3);
    assert_eq!(a.typ, BUCKET_TYPE);
    assert_eq!(a.bucket, 3);
    assert!(a.equals(&AggregateSerdeMeta::create(3)));
    assert!(!a.equals(&AggregateSerdeMeta::create(4)));
    let p = AggregateSerdeMeta::create_agg_payload(3, 8);
    assert!(p.is_agg_payload);
    assert_eq!(p.max_partition_count, 8);
    assert!(!a.equals(&p));
    let s = AggregateSerdeMeta::create_spilled(1, "loc".to_string(), 0..10, vec![1, 2]);
    assert_eq!(s.typ, SPILLED_TYPE);
    assert!(s.equals(&AggregateSerdeMeta::create_spilled(1, "loc".to_string(), 0..10, vec![1, 2])));
    assert!(!s.equals(&AggregateSerdeMeta::create_spilled(1, "loc".to_string(), 0..11, vec![1, 2])));
    assert!(!s.equals(&AggregateSerdeMeta::create_spilled(1, "other".to_string(), 0..10, vec![1, 2])));
    assert!(s.equals(&s));
}

#[test]
fn serde_meta_clone_self_is_equal() {
    let s = AggregateSerdeMeta::create_spilled(2, "spill/0".to_string(), 5..9, vec![3, 4]);
    let c = s.clone_self();
    assert!(c.equals(&s));
    assert_eq!(c, s);
    let p = AggregateSerdeMeta::create_agg_payload(7, 16);
    assert_eq!(p.clone_self(), p);
}

#[test]
fn decimal256_option_only_matters_above_38_digits() {
    for (p, s) in [(5usize, 2usize), (15, 3), (30, 4), (38, 0)] {
        let f = field("d", DataType::Decimal256(p, s), true);
        assert_eq!(to_parquet_type_with_options(&f, true).ok().unwrap(), to_parquet_type_with_options(&f, false).ok().unwrap());
    }
    let nested = field(
        "l",
        DataType::List(Box::new(field("item", DataType::Decimal256(20, 1), true))),
        true,
    );
    assert_eq!(
        to_parquet_type_with_options(&nested, true).ok().unwrap(),
        to_parquet_type_with_options(&nested, false).ok().unwrap()
    );
    let wide = field("d", DataType::Decimal256(40, 1), true);
    assert_ne!(to_parquet_type_with_options(&wide, true).ok().unwrap(), to_parquet_type_with_options(&wide, false).ok().unwrap());
}

#[test]
fn integer_decimals_are_accepted_within_their_digits() {
    for (p, s, physical) in [
        (1usize, 0usize, PhysicalType::Int32),
        (9, 8, PhysicalType::Int32),
        (10, 0, PhysicalType::Int64),
        (18, 17, PhysicalType::Int64),
    ] {
        match to_parquet_type(&field("d", DataType::Decimal(p, s), false)).ok().unwrap() {
            ParquetType::PrimitiveType { physical_type, converted_type, logical_type, .. } => {
                assert_eq!(physical_type, physical);
                assert_eq!(converted_type, Some(PrimitiveConvertedType::Decimal(p, s)));
                assert_eq!(logical_type, Some(PrimitiveLogicalType::Decimal(p, s)));
            },
            _ => panic!("a leaf was expected"),
        }
    }
}
