//! The Parquet schema node that stores an Arrow field.

use vstd::prelude::*;

use parquet2::schema::types::{
    ParquetType as P2Type, PhysicalType as P2Physical, PrimitiveConvertedType as P2Converted,
    PrimitiveLogicalType as P2Logical,
};
use parquet2::schema::Repetition as P2Repetition;
use vstd::arithmetic::power::{pow, lemma_pow_increases, lemma_pow_adds};

use crate::arrow_types::{DataType, Field, TimeUnit, DECIMAL256_MAX_PRECISION, data_type_wf, fields_wf};
use crate::error::{ErrorCode, ErrorKind};
use crate::parquet_types::{ParquetNode, ParquetType, PhysicalType, PrimitiveConvertedType, PrimitiveLogicalType, Repetition, ParquetTimeUnit, ParquetIntegerType, GroupConvertedType, GroupLogicalType, parquet_nodes};

verus! {

// ----- Width of fixed-length decimals -----

/// `n` bytes of two's complement hold every decimal of `precision` digits.
pub open spec fn decimal_fits_bytes(precision: nat, n: nat) -> bool {
    n >= 1 && pow(10, precision) < pow(2, (8 * n - 1) as nat)
}

/// The fewest bytes that hold every decimal of `precision` digits.
pub open spec fn decimal_byte_length(precision: nat) -> nat {
    choose|n: nat| #[trigger] decimal_fits_bytes(precision, n) && (n == 1 || !decimal_fits_bytes(precision, (n - 1) as nat))
}

/// The highest precision that `n` bytes hold, for `1 <= n <= 32`.
spec fn max_precision_of_bytes(n: nat) -> nat {
    if n == 1 { 2 } else if n == 2 { 4 } else if n == 3 { 6 } else if n == 4 { 9 }
    else if n == 5 { 11 } else if n == 6 { 14 } else if n == 7 { 16 } else if n == 8 { 18 }
    else if n == 9 { 21 } else if n == 10 { 23 } else if n == 11 { 26 } else if n == 12 { 28 }
    else if n == 13 { 31 } else if n == 14 { 33 } else if n == 15 { 35 } else if n == 16 { 38 }
    else if n == 17 { 40 } else if n == 18 { 43 } else if n == 19 { 45 } else if n == 20 { 47 }
    else if n == 21 { 50 } else if n == 22 { 52 } else if n == 23 { 55 } else if n == 24 { 57 }
    else if n == 25 { 59 } else if n == 26 { 62 } else if n == 27 { 64 } else if n == 28 { 67 }
    else if n == 29 { 69 } else if n == 30 { 71 } else if n == 31 { 74 } else { 76 }
}

proof fn lemma_powers_of_ten()
    ensures
        pow(10, 0) == 1int,
        pow(10, 1) == 10int,
        pow(10, 2) == 100int,
        pow(10, 3) == 1000int,
        pow(10, 4) == 10000int,
        pow(10, 5) == 100000int,
        pow(10, 6) == 1000000int,
        pow(10, 7) == 10000000int,
        pow(10, 8) == 100000000int,
        pow(10, 9) == 1000000000int,
        pow(10, 10) == 10000000000int,
        pow(10, 11) == 100000000000int,
        pow(10, 12) == 1000000000000int,
        pow(10, 13) == 10000000000000int,
        pow(10, 14) == 100000000000000int,
        pow(10, 15) == 1000000000000000int,
        pow(10, 16) == 10000000000000000int,
        pow(10, 17) == 100000000000000000int,
        pow(10, 18) == 1000000000000000000int,
        pow(10, 19) == 10000000000000000000int,
        pow(10, 20) == 100000000000000000000int,
        pow(10, 21) == 1000000000000000000000int,
        pow(10, 22) == 10000000000000000000000int,
        pow(10, 23) == 100000000000000000000000int,
        pow(10, 24) == 1000000000000000000000000int,
        pow(10, 25) == 10000000000000000000000000int,
        pow(10, 26) == 100000000000000000000000000int,
        pow(10, 27) == 1000000000000000000000000000int,
        pow(10, 28) == 10000000000000000000000000000int,
        pow(10, 29) == 100000000000000000000000000000int,
        pow(10, 30) == 1000000000000000000000000000000int,
        pow(10, 31) == 10000000000000000000000000000000int,
        pow(10, 32) == 100000000000000000000000000000000int,
        pow(10, 33) == 1000000000000000000000000000000000int,
        pow(10, 34) == 10000000000000000000000000000000000int,
        pow(10, 35) == 100000000000000000000000000000000000int,
        pow(10, 36) == 1000000000000000000000000000000000000int,
        pow(10, 37) == 10000000000000000000000000000000000000int,
        pow(10, 38) == 100000000000000000000000000000000000000int,
        pow(10, 39) == 1000000000000000000000000000000000000000int,
        pow(10, 40) == 10000000000000000000000000000000000000000int,
        pow(10, 41) == 100000000000000000000000000000000000000000int,
        pow(10, 42) == 1000000000000000000000000000000000000000000int,
        pow(10, 43) == 10000000000000000000000000000000000000000000int,
        pow(10, 44) == 100000000000000000000000000000000000000000000int,
        pow(10, 45) == 1000000000000000000000000000000000000000000000int,
        pow(10, 46) == 10000000000000000000000000000000000000000000000int,
        pow(10, 47) == 100000000000000000000000000000000000000000000000int,
        pow(10, 48) == 1000000000000000000000000000000000000000000000000int,
        pow(10, 49) == 10000000000000000000000000000000000000000000000000int,
        pow(10, 50) == 100000000000000000000000000000000000000000000000000int,
        pow(10, 51) == 1000000000000000000000000000000000000000000000000000int,
        pow(10, 52) == 10000000000000000000000000000000000000000000000000000int,
        pow(10, 53) == 100000000000000000000000000000000000000000000000000000int,
        pow(10, 54) == 1000000000000000000000000000000000000000000000000000000int,
        pow(10, 55) == 10000000000000000000000000000000000000000000000000000000int,
        pow(10, 56) == 100000000000000000000000000000000000000000000000000000000int,
        pow(10, 57) == 1000000000000000000000000000000000000000000000000000000000int,
        pow(10, 58) == 10000000000000000000000000000000000000000000000000000000000int,
        pow(10, 59) == 100000000000000000000000000000000000000000000000000000000000int,
        pow(10, 60) == 1000000000000000000000000000000000000000000000000000000000000int,
        pow(10, 61) == 10000000000000000000000000000000000000000000000000000000000000int,
        pow(10, 62) == 100000000000000000000000000000000000000000000000000000000000000int,
        pow(10, 63) == 1000000000000000000000000000000000000000000000000000000000000000int,
        pow(10, 64) == 10000000000000000000000000000000000000000000000000000000000000000int,
        pow(10, 65) == 100000000000000000000000000000000000000000000000000000000000000000int,
        pow(10, 66) == 1000000000000000000000000000000000000000000000000000000000000000000int,
        pow(10, 67) == 10000000000000000000000000000000000000000000000000000000000000000000int,
        pow(10, 68) == 100000000000000000000000000000000000000000000000000000000000000000000int,
        pow(10, 69) == 1000000000000000000000000000000000000000000000000000000000000000000000int,
        pow(10, 70) == 10000000000000000000000000000000000000000000000000000000000000000000000int,
        pow(10, 71) == 100000000000000000000000000000000000000000000000000000000000000000000000int,
        pow(10, 72) == 1000000000000000000000000000000000000000000000000000000000000000000000000int,
        pow(10, 73) == 10000000000000000000000000000000000000000000000000000000000000000000000000int,
        pow(10, 74) == 100000000000000000000000000000000000000000000000000000000000000000000000000int,
        pow(10, 75) == 1000000000000000000000000000000000000000000000000000000000000000000000000000int,
        pow(10, 76) == 10000000000000000000000000000000000000000000000000000000000000000000000000000int,
        pow(10, 77) == 100000000000000000000000000000000000000000000000000000000000000000000000000000int,
{
    reveal(pow);
    assert(pow(10, 0) == 1int);
    assert(pow(10, 1) == 10int);
    assert(pow(10, 2) == 100int);
    assert(pow(10, 3) == 1000int);
    assert(pow(10, 4) == 10000int);
    assert(pow(10, 5) == 100000int);
    assert(pow(10, 6) == 1000000int);
    assert(pow(10, 7) == 10000000int);
    assert(pow(10, 8) == 100000000int);
    assert(pow(10, 9) == 1000000000int);
    assert(pow(10, 10) == 10000000000int);
    assert(pow(10, 11) == 100000000000int);
    assert(pow(10, 12) == 1000000000000int);
    assert(pow(10, 13) == 10000000000000int);
    assert(pow(10, 14) == 100000000000000int);
    assert(pow(10, 15) == 1000000000000000int);
    assert(pow(10, 16) == 10000000000000000int);
    assert(pow(10, 17) == 100000000000000000int);
    assert(pow(10, 18) == 1000000000000000000int);
    assert(pow(10, 19) == 10000000000000000000int);
    assert(pow(10, 20) == 100000000000000000000int);
    assert(pow(10, 21) == 1000000000000000000000int);
    assert(pow(10, 22) == 10000000000000000000000int);
    assert(pow(10, 23) == 100000000000000000000000int);
    assert(pow(10, 24) == 1000000000000000000000000int);
    assert(pow(10, 25) == 10000000000000000000000000int);
    assert(pow(10, 26) == 100000000000000000000000000int);
    assert(pow(10, 27) == 1000000000000000000000000000int);
    assert(pow(10, 28) == 10000000000000000000000000000int);
    assert(pow(10, 29) == 100000000000000000000000000000int);
    assert(pow(10, 30) == 1000000000000000000000000000000int);
    assert(pow(10, 31) == 10000000000000000000000000000000int);
    assert(pow(10, 32) == 100000000000000000000000000000000int);
    assert(pow(10, 33) == 1000000000000000000000000000000000int);
    assert(pow(10, 34) == 10000000000000000000000000000000000int);
    assert(pow(10, 35) == 100000000000000000000000000000000000int);
    assert(pow(10, 36) == 1000000000000000000000000000000000000int);
    assert(pow(10, 37) == 10000000000000000000000000000000000000int);
    assert(pow(10, 38) == 100000000000000000000000000000000000000int);
    assert(pow(10, 39) == 1000000000000000000000000000000000000000int);
    assert(pow(10, 40) == 10000000000000000000000000000000000000000int);
    assert(pow(10, 41) == 100000000000000000000000000000000000000000int);
    assert(pow(10, 42) == 1000000000000000000000000000000000000000000int);
    assert(pow(10, 43) == 10000000000000000000000000000000000000000000int);
    assert(pow(10, 44) == 100000000000000000000000000000000000000000000int);
    assert(pow(10, 45) == 1000000000000000000000000000000000000000000000int);
    assert(pow(10, 46) == 10000000000000000000000000000000000000000000000int);
    assert(pow(10, 47) == 100000000000000000000000000000000000000000000000int);
    assert(pow(10, 48) == 1000000000000000000000000000000000000000000000000int);
    assert(pow(10, 49) == 10000000000000000000000000000000000000000000000000int);
    assert(pow(10, 50) == 100000000000000000000000000000000000000000000000000int);
    assert(pow(10, 51) == 1000000000000000000000000000000000000000000000000000int);
    assert(pow(10, 52) == 10000000000000000000000000000000000000000000000000000int);
    assert(pow(10, 53) == 100000000000000000000000000000000000000000000000000000int);
    assert(pow(10, 54) == 1000000000000000000000000000000000000000000000000000000int);
    assert(pow(10, 55) == 10000000000000000000000000000000000000000000000000000000int);
    assert(pow(10, 56) == 100000000000000000000000000000000000000000000000000000000int);
    assert(pow(10, 57) == 1000000000000000000000000000000000000000000000000000000000int);
    assert(pow(10, 58) == 10000000000000000000000000000000000000000000000000000000000int);
    assert(pow(10, 59) == 100000000000000000000000000000000000000000000000000000000000int);
    assert(pow(10, 60) == 1000000000000000000000000000000000000000000000000000000000000int);
    assert(pow(10, 61) == 10000000000000000000000000000000000000000000000000000000000000int);
    assert(pow(10, 62) == 100000000000000000000000000000000000000000000000000000000000000int);
    assert(pow(10, 63) == 1000000000000000000000000000000000000000000000000000000000000000int);
    assert(pow(10, 64) == 10000000000000000000000000000000000000000000000000000000000000000int);
    assert(pow(10, 65) == 100000000000000000000000000000000000000000000000000000000000000000int);
    assert(pow(10, 66) == 1000000000000000000000000000000000000000000000000000000000000000000int);
    assert(pow(10, 67) == 10000000000000000000000000000000000000000000000000000000000000000000int);
    assert(pow(10, 68) == 100000000000000000000000000000000000000000000000000000000000000000000int);
    assert(pow(10, 69) == 1000000000000000000000000000000000000000000000000000000000000000000000int);
    assert(pow(10, 70) == 10000000000000000000000000000000000000000000000000000000000000000000000int);
    assert(pow(10, 71) == 100000000000000000000000000000000000000000000000000000000000000000000000int);
    assert(pow(10, 72) == 1000000000000000000000000000000000000000000000000000000000000000000000000int);
    assert(pow(10, 73) == 10000000000000000000000000000000000000000000000000000000000000000000000000int);
    assert(pow(10, 74) == 100000000000000000000000000000000000000000000000000000000000000000000000000int);
    assert(pow(10, 75) == 1000000000000000000000000000000000000000000000000000000000000000000000000000int);
    assert(pow(10, 76) == 10000000000000000000000000000000000000000000000000000000000000000000000000000int);
    assert(pow(10, 77) == 100000000000000000000000000000000000000000000000000000000000000000000000000000int);
}

proof fn lemma_powers_of_two()
    ensures
        pow(2, 7) == 128int,
        pow(2, 15) == 32768int,
        pow(2, 23) == 8388608int,
        pow(2, 31) == 2147483648int,
        pow(2, 39) == 549755813888int,
        pow(2, 47) == 140737488355328int,
        pow(2, 55) == 36028797018963968int,
        pow(2, 63) == 9223372036854775808int,
        pow(2, 71) == 2361183241434822606848int,
        pow(2, 79) == 604462909807314587353088int,
        pow(2, 87) == 154742504910672534362390528int,
        pow(2, 95) == 39614081257132168796771975168int,
        pow(2, 103) == 10141204801825835211973625643008int,
        pow(2, 111) == 2596148429267413814265248164610048int,
        pow(2, 119) == 664613997892457936451903530140172288int,
        pow(2, 127) == 170141183460469231731687303715884105728int,
        pow(2, 135) == 43556142965880123323311949751266331066368int,
        pow(2, 143) == 11150372599265311570767859136324180752990208int,
        pow(2, 151) == 2854495385411919762116571938898990272765493248int,
        pow(2, 159) == 730750818665451459101842416358141509827966271488int,
        pow(2, 167) == 187072209578355573530071658587684226515959365500928int,
        pow(2, 175) == 47890485652059026823698344598447161988085597568237568int,
        pow(2, 183) == 12259964326927110866866776217202473468949912977468817408int,
        pow(2, 191) == 3138550867693340381917894711603833208051177722232017256448int,
        pow(2, 199) == 803469022129495137770981046170581301261101496891396417650688int,
        pow(2, 207) == 205688069665150755269371147819668813122841983204197482918576128int,
        pow(2, 215) == 52656145834278593348959013841835216159447547700274555627155488768int,
        pow(2, 223) == 13479973333575319897333507543509815336818572211270286240551805124608int,
        pow(2, 231) == 3450873173395281893717377931138512726225554486085193277581262111899648int,
        pow(2, 239) == 883423532389192164791648750371459257913741948437809479060803100646309888int,
        pow(2, 247) == 226156424291633194186662080095093570025917938800079226639565593765455331328int,
        pow(2, 255) == 57896044618658097711785492504343953926634992332820282019728792003956564819968int,
{
    reveal(pow);
    assert(pow(2, 0) == 1int);
    assert(pow(2, 1) == 2int);
    assert(pow(2, 2) == 4int);
    assert(pow(2, 3) == 8int);
    assert(pow(2, 4) == 16int);
    assert(pow(2, 5) == 32int);
    assert(pow(2, 6) == 64int);
    assert(pow(2, 7) == 128int);
    assert(pow(2, 8) == 256int);
    lemma_pow_adds(2, 7, 8);
    assert(pow(2, 15) == 32768int);
    lemma_pow_adds(2, 15, 8);
    assert(pow(2, 23) == 8388608int);
    lemma_pow_adds(2, 23, 8);
    assert(pow(2, 31) == 2147483648int);
    lemma_pow_adds(2, 31, 8);
    assert(pow(2, 39) == 549755813888int);
    lemma_pow_adds(2, 39, 8);
    assert(pow(2, 47) == 140737488355328int);
    lemma_pow_adds(2, 47, 8);
    assert(pow(2, 55) == 36028797018963968int);
    lemma_pow_adds(2, 55, 8);
    assert(pow(2, 63) == 9223372036854775808int);
    lemma_pow_adds(2, 63, 8);
    assert(pow(2, 71) == 2361183241434822606848int);
    lemma_pow_adds(2, 71, 8);
    assert(pow(2, 79) == 604462909807314587353088int);
    lemma_pow_adds(2, 79, 8);
    assert(pow(2, 87) == 154742504910672534362390528int);
    lemma_pow_adds(2, 87, 8);
    assert(pow(2, 95) == 39614081257132168796771975168int);
    lemma_pow_adds(2, 95, 8);
    assert(pow(2, 103) == 10141204801825835211973625643008int);
    lemma_pow_adds(2, 103, 8);
    assert(pow(2, 111) == 2596148429267413814265248164610048int);
    lemma_pow_adds(2, 111, 8);
    assert(pow(2, 119) == 664613997892457936451903530140172288int);
    lemma_pow_adds(2, 119, 8);
    assert(pow(2, 127) == 170141183460469231731687303715884105728int);
    lemma_pow_adds(2, 127, 8);
    assert(pow(2, 135) == 43556142965880123323311949751266331066368int);
    lemma_pow_adds(2, 135, 8);
    assert(pow(2, 143) == 11150372599265311570767859136324180752990208int);
    lemma_pow_adds(2, 143, 8);
    assert(pow(2, 151) == 2854495385411919762116571938898990272765493248int);
    lemma_pow_adds(2, 151, 8);
    assert(pow(2, 159) == 730750818665451459101842416358141509827966271488int);
    lemma_pow_adds(2, 159, 8);
    assert(pow(2, 167) == 187072209578355573530071658587684226515959365500928int);
    lemma_pow_adds(2, 167, 8);
    assert(pow(2, 175) == 47890485652059026823698344598447161988085597568237568int);
    lemma_pow_adds(2, 175, 8);
    assert(pow(2, 183) == 12259964326927110866866776217202473468949912977468817408int);
    lemma_pow_adds(2, 183, 8);
    assert(pow(2, 191) == 3138550867693340381917894711603833208051177722232017256448int);
    lemma_pow_adds(2, 191, 8);
    assert(pow(2, 199) == 803469022129495137770981046170581301261101496891396417650688int);
    lemma_pow_adds(2, 199, 8);
    assert(pow(2, 207) == 205688069665150755269371147819668813122841983204197482918576128int);
    lemma_pow_adds(2, 207, 8);
    assert(pow(2, 215) == 52656145834278593348959013841835216159447547700274555627155488768int);
    lemma_pow_adds(2, 215, 8);
    assert(pow(2, 223) == 13479973333575319897333507543509815336818572211270286240551805124608int);
    lemma_pow_adds(2, 223, 8);
    assert(pow(2, 231) == 3450873173395281893717377931138512726225554486085193277581262111899648int);
    lemma_pow_adds(2, 231, 8);
    assert(pow(2, 239) == 883423532389192164791648750371459257913741948437809479060803100646309888int);
    lemma_pow_adds(2, 239, 8);
    assert(pow(2, 247) == 226156424291633194186662080095093570025917938800079226639565593765455331328int);
    lemma_pow_adds(2, 247, 8);
    assert(pow(2, 255) == 57896044618658097711785492504343953926634992332820282019728792003956564819968int);
}

/// The table is exact: `10^m < 2^(8n-1) <= 10^(m+1)` for its entry `m`.
proof fn lemma_max_precision_of_bytes(n: nat)
    requires
        1 <= n <= 32,
    ensures
        pow(10, max_precision_of_bytes(n)) < pow(2, (8 * n - 1) as nat),
        pow(2, (8 * n - 1) as nat) <= pow(10, max_precision_of_bytes(n) + 1),
{
    lemma_powers_of_ten();
    lemma_powers_of_two();
}

/// `p` fits `n` bytes exactly when `p` is at most the table's entry for `n`.
proof fn lemma_fits_iff_table(p: nat, n: nat)
    requires
        1 <= n <= 32,
    ensures
        decimal_fits_bytes(p, n) <==> p <= max_precision_of_bytes(n),
{
    lemma_max_precision_of_bytes(n);
    let m = max_precision_of_bytes(n);
    if p <= m {
        lemma_pow_increases(10, p, m);
    } else {
        lemma_pow_increases(10, m + 1, p);
    }
}

/// Only one byte count is the fewest.
proof fn lemma_decimal_byte_length_unique(p: nat, n: nat)
    requires
        1 <= n <= 32,
        decimal_fits_bytes(p, n),
        n == 1 || !decimal_fits_bytes(p, (n - 1) as nat),
    ensures
        decimal_byte_length(p) == n,
{
    let c = decimal_byte_length(p);
    assert(decimal_fits_bytes(p, c) && (c == 1 || !decimal_fits_bytes(p, (c - 1) as nat)));
    if c < n {
        // then n - 1 >= c fits as well, since 2^(8k-1) grows with k
        lemma_pow_increases(2, (8 * c - 1) as nat, (8 * (n - 1) - 1) as nat);
    } else if c > n {
        lemma_pow_increases(2, (8 * n - 1) as nat, (8 * (c - 1) - 1) as nat);
    }
}

/// The fewest bytes whose two's complement range holds every decimal of
/// `precision` digits (at most 76).
pub fn decimal_length_from_precision(precision: usize) -> (n: usize)
    requires
        precision <= DECIMAL256_MAX_PRECISION,
    ensures
        n == decimal_byte_length(precision as nat),
        1 <= n <= 32,
{
    let mut n: usize = 1;
    while n < 32 && precision > max_precision_table(n)
        invariant
            1 <= n <= 32,
            precision <= 76,
            n == 1 || precision > max_precision_of_bytes((n - 1) as nat),
        decreases 32 - n,
    {
        n = n + 1;
    }
    proof {
        lemma_fits_iff_table(precision as nat, n as nat);
        if n > 1 {
            lemma_fits_iff_table(precision as nat, (n - 1) as nat);
        }
        lemma_decimal_byte_length_unique(precision as nat, n as nat);
    }
    n
}

fn max_precision_table(n: usize) -> (m: usize)
    requires
        1 <= n <= 32,
    ensures
        m == max_precision_of_bytes(n as nat),
{
    if n == 1 { 2 } else if n == 2 { 4 } else if n == 3 { 6 } else if n == 4 { 9 }
    else if n == 5 { 11 } else if n == 6 { 14 } else if n == 7 { 16 } else if n == 8 { 18 }
    else if n == 9 { 21 } else if n == 10 { 23 } else if n == 11 { 26 } else if n == 12 { 28 }
    else if n == 13 { 31 } else if n == 14 { 33 } else if n == 15 { 35 } else if n == 16 { 38 }
    else if n == 17 { 40 } else if n == 18 { 43 } else if n == 19 { 45 } else if n == 20 { 47 }
    else if n == 21 { 50 } else if n == 22 { 52 } else if n == 23 { 55 } else if n == 24 { 57 }
    else if n == 25 { 59 } else if n == 26 { 62 } else if n == 27 { 64 } else if n == 28 { 67 }
    else if n == 29 { 69 } else if n == 30 { 71 } else if n == 31 { 74 } else { 76 }
}

} // verus!

verus! {

// ----- The annotation check of the Parquet library -----

/// What `parquet2`'s `ParquetType::try_from_primitive` reports for a column
/// of the given physical type annotated as a decimal of the given precision
/// and scale (both as converted and as logical type): `None` when it accepts
/// the column, and the text of its error otherwise.
pub uninterp spec fn parquet_decimal_check(physical: PhysicalType, precision: usize, scale: usize) -> Option<Seq<char>>;

/// Calls `parquet2::schema::types::ParquetType::try_from_primitive` on a
/// decimal column and reports whether the library accepts the annotation,
/// with the text of its error if not. Its source accepts an INT32 column
/// for precisions 1 to 9 and an INT64 column for precisions 1 to 18, always
/// with a scale below the precision; this is stated below. For a
/// FIXED_LEN_BYTE_ARRAY column the highest precision is computed in
/// floating point from the length, and is left unsaid.
#[verifier::external_body]
fn check_decimal_annotation(physical: PhysicalType, precision: usize, scale: usize) -> (r: Result<(), String>)
    ensures
        match r {
            Ok(_) => parquet_decimal_check(physical, precision, scale) is None,
            Err(m) => parquet_decimal_check(physical, precision, scale) == Some(m@),
        },
        r is Ok ==> 1 <= precision && scale < precision,
        r is Ok ==> (physical == PhysicalType::Int32 ==> precision <= 9),
        r is Ok ==> (physical == PhysicalType::Int64 ==> precision <= 18),
        r is Err ==> !(physical == PhysicalType::Int32 && 1 <= precision <= 9 && scale < precision),
        r is Err ==> !(physical == PhysicalType::Int64 && 1 <= precision <= 18 && scale < precision),
{
    let physical = match physical {
        PhysicalType::Boolean => P2Physical::Boolean,
        PhysicalType::Int32 => P2Physical::Int32,
        PhysicalType::Int64 => P2Physical::Int64,
        PhysicalType::Int96 => P2Physical::Int96,
        PhysicalType::Float => P2Physical::Float,
        PhysicalType::Double => P2Physical::Double,
        PhysicalType::ByteArray => P2Physical::ByteArray,
        PhysicalType::FixedLenByteArray(n) => P2Physical::FixedLenByteArray(n),
    };
    let converted = Some(P2Converted::Decimal(precision, scale));
    let logical = Some(P2Logical::Decimal(precision, scale));
    P2Type::try_from_primitive(String::new(), physical, P2Repetition::Required, converted, logical, None)
        .map(|_| ()).map_err(|e| e.to_string())
}

// ----- Arrow field to Parquet node -----

/// A leaf node with the given annotations.
pub open spec fn leaf(
    name: Seq<char>,
    repetition: Repetition,
    physical: PhysicalType,
    converted: Option<PrimitiveConvertedType>,
    logical: Option<PrimitiveLogicalType>,
) -> Result<ParquetNode, (ErrorKind, Seq<char>)> {
    Ok(ParquetNode::Primitive {
        name,
        repetition,
        id: None,
        converted_type: converted,
        logical_type: logical,
        physical_type: physical,
    })
}

/// Whether a decimal of this precision and scale fits an integer column of
/// this physical type: INT32 holds up to 9 digits, INT64 up to 18, and the
/// scale stays below the precision.
pub open spec fn decimal_fits_integer(physical: PhysicalType, precision: usize, scale: usize) -> bool {
    &&& 1 <= precision
    &&& scale < precision
    &&& (physical == PhysicalType::Int32 && precision <= 9 || physical == PhysicalType::Int64 && precision <= 18)
}

/// A decimal leaf. An INT32 or INT64 column within its digits is always
/// accepted; otherwise the Parquet library decides, and its error is returned
/// when it refuses the annotation.
pub open spec fn decimal_leaf(
    name: Seq<char>,
    repetition: Repetition,
    physical: PhysicalType,
    precision: usize,
    scale: usize,
) -> Result<ParquetNode, (ErrorKind, Seq<char>)> {
    let node = leaf(
        name,
        repetition,
        physical,
        Some(PrimitiveConvertedType::Decimal(precision, scale)),
        Some(PrimitiveLogicalType::Decimal(precision, scale)),
    );
    if decimal_fits_integer(physical, precision, scale) {
        node
    } else {
        match parquet_decimal_check(physical, precision, scale) {
            None => node,
            Some(m) => Err((ErrorKind::ExternalFormat, m)),
        }
    }
}

/// A list or map group: the outer group holds one repeated group, named
/// `inner_name`, that holds the element's node.
pub open spec fn nested_group(
    name: Seq<char>,
    repetition: Repetition,
    converted: GroupConvertedType,
    logical: GroupLogicalType,
    inner_name: Seq<char>,
    element: Result<ParquetNode, (ErrorKind, Seq<char>)>,
) -> Result<ParquetNode, (ErrorKind, Seq<char>)> {
    match element {
        Ok(e) => Ok(ParquetNode::Group {
            name,
            repetition,
            id: None,
            converted_type: Some(converted),
            logical_type: Some(logical),
            fields: seq![ParquetNode::Group {
                name: inner_name,
                repetition: Repetition::Repeated,
                id: None,
                converted_type: None,
                logical_type: None,
                fields: seq![e],
            }],
        }),
        Err(err) => Err(err),
    }
}

pub open spec fn parquet_time_unit(u: TimeUnit) -> ParquetTimeUnit {
    match u {
        TimeUnit::Millisecond => ParquetTimeUnit::Milliseconds,
        TimeUnit::Microsecond => ParquetTimeUnit::Microseconds,
        _ => ParquetTimeUnit::Nanoseconds,
    }
}

/// Timestamps keep their unit: a timestamp column in milliseconds,
/// microseconds or nanoseconds is an INT64 leaf whose logical type is a
/// timestamp in that same unit, adjusted to UTC exactly when it has a
/// non-empty time zone. (Seconds have no Parquet unit; they are plain INT64.)
pub proof fn law_timestamp_keeps_its_unit(
    name: Seq<char>,
    unit: TimeUnit,
    zone: Option<String>,
    nullable: bool,
    decimal256_max: bool,
)
    requires
        unit != TimeUnit::Second,
    ensures
        parquet_node_of(name, DataType::Timestamp(unit, zone), nullable, decimal256_max) matches Ok(
            ParquetNode::Primitive {
                physical_type: PhysicalType::Int64,
                logical_type: Some(PrimitiveLogicalType::Timestamp { unit: p, is_adjusted_to_utc: utc }),
                ..
            },
        ) && {
            &&& (unit == TimeUnit::Millisecond <==> p == ParquetTimeUnit::Milliseconds)
            &&& (unit == TimeUnit::Microsecond <==> p == ParquetTimeUnit::Microseconds)
            &&& (unit == TimeUnit::Nanosecond <==> p == ParquetTimeUnit::Nanoseconds)
            &&& (utc <==> (zone matches Some(z) && z@.len() > 0))
        },
{
}

/// 64-bit times keep their unit: a time column in microseconds or
/// nanoseconds is an INT64 leaf whose logical type is a time in that unit,
/// not adjusted to UTC; 32-bit times in milliseconds are INT32 leaves in
/// milliseconds.
pub proof fn law_time_keeps_its_unit(name: Seq<char>, unit: TimeUnit, nullable: bool, decimal256_max: bool)
    ensures
        unit == TimeUnit::Microsecond || unit == TimeUnit::Nanosecond ==> (
            parquet_node_of(name, DataType::Time64(unit), nullable, decimal256_max) matches Ok(
                ParquetNode::Primitive {
                    physical_type: PhysicalType::Int64,
                    logical_type: Some(PrimitiveLogicalType::Time { unit: p, is_adjusted_to_utc: false }),
                    ..
                },
            ) && (unit == TimeUnit::Microsecond <==> p == ParquetTimeUnit::Microseconds)
            && (unit == TimeUnit::Nanosecond <==> p == ParquetTimeUnit::Nanoseconds)),
        parquet_node_of(name, DataType::Time32(TimeUnit::Millisecond), nullable, decimal256_max) matches Ok(
            ParquetNode::Primitive {
                physical_type: PhysicalType::Int32,
                logical_type: Some(PrimitiveLogicalType::Time { unit: ParquetTimeUnit::Milliseconds, is_adjusted_to_utc: false }),
                ..
            },
        ),
{
}

/// The width in bits and the signedness of an Arrow integer type.
pub open spec fn arrow_int_shape(t: DataType) -> Option<(nat, bool)> {
    match t {
        DataType::Int8 => Some((8, true)),
        DataType::Int16 => Some((16, true)),
        DataType::Int32 => Some((32, true)),
        DataType::Int64 => Some((64, true)),
        DataType::UInt8 => Some((8, false)),
        DataType::UInt16 => Some((16, false)),
        DataType::UInt32 => Some((32, false)),
        DataType::UInt64 => Some((64, false)),
        _ => None,
    }
}

/// The width in bits and the signedness a Parquet integer annotation states.
pub open spec fn parquet_int_shape(k: ParquetIntegerType) -> (nat, bool) {
    match k {
        ParquetIntegerType::Int8 => (8, true),
        ParquetIntegerType::Int16 => (16, true),
        ParquetIntegerType::Int32 => (32, true),
        ParquetIntegerType::Int64 => (64, true),
        ParquetIntegerType::UInt8 => (8, false),
        ParquetIntegerType::UInt16 => (16, false),
        ParquetIntegerType::UInt32 => (32, false),
        ParquetIntegerType::UInt64 => (64, false),
    }
}

/// Integer columns keep their width and sign: each is a leaf stored as
/// INT32 when it has at most 32 bits and as INT64 otherwise, and any
/// integer annotation it gets states exactly its width and signedness; only
/// the plain signed 32- and 64-bit types go without one.
pub proof fn law_integer_columns_keep_width_and_sign(name: Seq<char>, t: DataType, nullable: bool, decimal256_max: bool)
    requires
        arrow_int_shape(t) is Some,
    ensures
        parquet_node_of(name, t, nullable, decimal256_max) matches Ok(ParquetNode::Primitive {
            physical_type: pt,
            logical_type: lt,
            ..
        }) && {
            let (bits, signed) = arrow_int_shape(t).unwrap();
            &&& (bits <= 32 ==> pt == PhysicalType::Int32)
            &&& (bits > 32 ==> pt == PhysicalType::Int64)
            &&& (lt matches Some(PrimitiveLogicalType::Integer(k)) ==> parquet_int_shape(k) == (bits, signed))
            &&& (lt is None <==> (signed && (bits == 32 || bits == 64)))
            &&& (lt is None || lt is Some && lt.unwrap() is Integer)
        },
{
}

/// A list column is a three-level group: the column's group, annotated as
/// a list, holds one repeated group named `list`, which holds the node of
/// the element field; a map column is the same with `map` and the map
/// annotation. An element the Parquet mapping refuses makes the column
/// refused with the same error.
pub proof fn law_lists_and_maps_nest_their_element(name: Seq<char>, f: Field, nullable: bool, decimal256_max: bool, sorted: bool)
    ensures
        ({
            let element = parquet_node_of(f.name@, f.data_type, f.is_nullable, decimal256_max);
            let list = parquet_node_of(name, DataType::List(Box::new(f)), nullable, decimal256_max);
            let map = parquet_node_of(name, DataType::MapType(Box::new(f), sorted), nullable, decimal256_max);
            &&& element matches Err(e) ==> list == Err::<ParquetNode, (ErrorKind, Seq<char>)>(e)
                && map == Err::<ParquetNode, (ErrorKind, Seq<char>)>(e)
            &&& element matches Ok(el) ==> list == Ok::<ParquetNode, (ErrorKind, Seq<char>)>(ParquetNode::Group {
                name,
                repetition: if nullable { Repetition::Optional } else { Repetition::Required },
                id: None,
                converted_type: Some(GroupConvertedType::List),
                logical_type: Some(GroupLogicalType::List),
                fields: seq![ParquetNode::Group {
                    name: seq!['l', 'i', 's', 't'],
                    repetition: Repetition::Repeated,
                    id: None,
                    converted_type: None,
                    logical_type: None,
                    fields: seq![el],
                }],
            })
            &&& element matches Ok(el) ==> map == Ok::<ParquetNode, (ErrorKind, Seq<char>)>(ParquetNode::Group {
                name,
                repetition: if nullable { Repetition::Optional } else { Repetition::Required },
                id: None,
                converted_type: Some(GroupConvertedType::MapGroup),
                logical_type: Some(GroupLogicalType::MapGroup),
                fields: seq![ParquetNode::Group {
                    name: seq!['m', 'a', 'p'],
                    repetition: Repetition::Repeated,
                    id: None,
                    converted_type: None,
                    logical_type: None,
                    fields: seq![el],
                }],
            })
        }),
{
    reveal_strlit("list");
    reveal_strlit("map");
    assert("list"@ =~= seq!['l', 'i', 's', 't']);
    assert("map"@ =~= seq!['m', 'a', 'p']);
}

/// The Debug text of the types that have no Parquet form.
pub open spec fn unwritable_type_text(t: DataType) -> Seq<char> {
    match t {
        DataType::Float16 => "Float16"@,
        DataType::Time32(TimeUnit::Microsecond) => "Time32(Microsecond)"@,
        _ => "Time32(Nanosecond)"@,
    }
}

/// The message for a type with no Parquet form.
pub open spec fn unwritable_message(t: DataType) -> Seq<char> {
    "Writing the data type "@ + unwritable_type_text(t) + " is not yet implemented"@
}

pub open spec fn repetition_of(nullable: bool) -> Repetition {
    if nullable { Repetition::Optional } else { Repetition::Required }
}

/// The Parquet node that stores a column of the given name, type and
/// nullability, or the error that refuses it. With `decimal256_max`, a
/// 256-bit decimal of more than 38 digits takes 32 bytes; otherwise it takes
/// the fewest bytes that hold its precision.
pub open spec fn parquet_node_of(name: Seq<char>, t: DataType, nullable: bool, decimal256_max: bool)
    -> Result<ParquetNode, (ErrorKind, Seq<char>)>
    decreases t, 0nat,
{
    let rep = repetition_of(nullable);
    match t {
        DataType::Extension(_, inner, _) => parquet_node_of(name, *inner, nullable, decimal256_max),
        DataType::Null => leaf(name, rep, PhysicalType::Int32, None, Some(PrimitiveLogicalType::Unknown)),
        DataType::Boolean => leaf(name, rep, PhysicalType::Boolean, None, None),
        DataType::Int32 => leaf(name, rep, PhysicalType::Int32, None, None),
        DataType::Int64 | DataType::Duration(_) | DataType::Date64 => leaf(name, rep, PhysicalType::Int64, None, None),
        DataType::Float32 => leaf(name, rep, PhysicalType::Float, None, None),
        DataType::Float64 => leaf(name, rep, PhysicalType::Double, None, None),
        DataType::Binary | DataType::LargeBinary => leaf(name, rep, PhysicalType::ByteArray, None, None),
        DataType::Utf8 | DataType::LargeUtf8 => leaf(name, rep, PhysicalType::ByteArray,
            Some(PrimitiveConvertedType::Utf8), Some(PrimitiveLogicalType::String)),
        DataType::Date32 => leaf(name, rep, PhysicalType::Int32,
            Some(PrimitiveConvertedType::Date), Some(PrimitiveLogicalType::Date)),
        DataType::Int8 => leaf(name, rep, PhysicalType::Int32,
            Some(PrimitiveConvertedType::Int8), Some(PrimitiveLogicalType::Integer(ParquetIntegerType::Int8))),
        DataType::Int16 => leaf(name, rep, PhysicalType::Int32,
            Some(PrimitiveConvertedType::Int16), Some(PrimitiveLogicalType::Integer(ParquetIntegerType::Int16))),
        DataType::UInt8 => leaf(name, rep, PhysicalType::Int32,
            Some(PrimitiveConvertedType::Uint8), Some(PrimitiveLogicalType::Integer(ParquetIntegerType::UInt8))),
        DataType::UInt16 => leaf(name, rep, PhysicalType::Int32,
            Some(PrimitiveConvertedType::Uint16), Some(PrimitiveLogicalType::Integer(ParquetIntegerType::UInt16))),
        DataType::UInt32 => leaf(name, rep, PhysicalType::Int32,
            Some(PrimitiveConvertedType::Uint32), Some(PrimitiveLogicalType::Integer(ParquetIntegerType::UInt32))),
        DataType::UInt64 => leaf(name, rep, PhysicalType::Int64,
            Some(PrimitiveConvertedType::Uint64), Some(PrimitiveLogicalType::Integer(ParquetIntegerType::UInt64))),
        DataType::Timestamp(unit, zone) => if unit == TimeUnit::Second {
            leaf(name, rep, PhysicalType::Int64, None, None)
        } else {
            leaf(name, rep, PhysicalType::Int64, None, Some(PrimitiveLogicalType::Timestamp {
                unit: parquet_time_unit(unit),
                is_adjusted_to_utc: zone matches Some(z) && z@.len() > 0,
            }))
        },
        DataType::Time32(TimeUnit::Second) => leaf(name, rep, PhysicalType::Int32, None, None),
        DataType::Time32(TimeUnit::Millisecond) => leaf(name, rep, PhysicalType::Int32,
            Some(PrimitiveConvertedType::TimeMillis),
            Some(PrimitiveLogicalType::Time { unit: ParquetTimeUnit::Milliseconds, is_adjusted_to_utc: false })),
        DataType::Time64(unit) => leaf(name, rep, PhysicalType::Int64,
            if unit == TimeUnit::Microsecond { Some(PrimitiveConvertedType::TimeMicros) } else { None },
            Some(PrimitiveLogicalType::Time { unit: parquet_time_unit(unit), is_adjusted_to_utc: false })),
        DataType::Struct(fields) => if fields@.len() == 0 {
            Err((ErrorKind::InvalidArgument, "Parquet does not support writing empty structs"@))
        } else {
            match parquet_children_of(fields@, fields@.len(), decimal256_max) {
                Ok(children) => Ok(ParquetNode::Group {
                    name,
                    repetition: rep,
                    id: None,
                    converted_type: None,
                    logical_type: None,
                    fields: children,
                }),
                Err(e) => Err(e),
            }
        },
        DataType::Dictionary(_, value, _) => parquet_node_of(name, *value, nullable, decimal256_max),
        DataType::FixedSizeBinary(size) => leaf(name, rep, PhysicalType::FixedLenByteArray(size), None, None),
        DataType::Decimal(p, s) => {
            let physical = if p <= 9 {
                PhysicalType::Int32
            } else if p <= 18 {
                PhysicalType::Int64
            } else {
                PhysicalType::FixedLenByteArray(decimal_byte_length(p as nat) as usize)
            };
            decimal_leaf(name, rep, physical, p, s)
        },
        DataType::Decimal256(p, s) => {
            let physical = if p <= 9 {
                PhysicalType::Int32
            } else if p <= 18 {
                PhysicalType::Int64
            } else if p <= 38 || !decimal256_max {
                PhysicalType::FixedLenByteArray(decimal_byte_length(p as nat) as usize)
            } else {
                PhysicalType::FixedLenByteArray(32)
            };
            decimal_leaf(name, rep, physical, p, s)
        },
        DataType::Interval(_) => leaf(name, rep, PhysicalType::FixedLenByteArray(12),
            Some(PrimitiveConvertedType::Interval), None),
        DataType::List(f) | DataType::LargeList(f) => nested_group(name, rep, GroupConvertedType::List,
            GroupLogicalType::List, "list"@, parquet_node_of(f.name@, f.data_type, f.is_nullable, decimal256_max)),
        DataType::FixedSizeList(f, _) => nested_group(name, rep, GroupConvertedType::List,
            GroupLogicalType::List, "list"@, parquet_node_of(f.name@, f.data_type, f.is_nullable, decimal256_max)),
        DataType::MapType(f, _) => nested_group(name, rep, GroupConvertedType::MapGroup,
            GroupLogicalType::MapGroup, "map"@, parquet_node_of(f.name@, f.data_type, f.is_nullable, decimal256_max)),
        _ => Err((ErrorKind::NotYetImplemented, unwritable_message(t))),
    }
}

/// The nodes of the first `k` fields of a struct, or the first error among them.
pub open spec fn parquet_children_of(fields: Seq<Field>, k: nat, decimal256_max: bool)
    -> Result<Seq<ParquetNode>, (ErrorKind, Seq<char>)>
    decreases fields, k,
{
    if k == 0 || k > fields.len() {
        Ok(Seq::empty())
    } else {
        match parquet_children_of(fields, (k - 1) as nat, decimal256_max) {
            Ok(prefix) => match parquet_node_of(fields[k - 1].name@, fields[k - 1].data_type,
                fields[k - 1].is_nullable, decimal256_max) {
                Ok(node) => Ok(prefix.push(node)),
                Err(e) => Err(e),
            },
            Err(e) => Err(e),
        }
    }
}

/// No 256-bit decimal of more than 38 digits occurs in the type, at any depth.
pub open spec fn no_wide_decimal256(t: DataType) -> bool
    decreases t, 0nat,
{
    match t {
        DataType::Decimal256(p, _) => p <= 38,
        DataType::List(f) | DataType::LargeList(f) => no_wide_decimal256(f.data_type),
        DataType::FixedSizeList(f, _) => no_wide_decimal256(f.data_type),
        DataType::MapType(f, _) => no_wide_decimal256(f.data_type),
        DataType::Struct(fs) => fields_without_wide_decimal256(fs@, fs@.len()),
        DataType::Dictionary(_, v, _) => no_wide_decimal256(*v),
        DataType::Extension(_, v, _) => no_wide_decimal256(*v),
        _ => true,
    }
}

/// No 256-bit decimal of more than 38 digits occurs in the first `k` fields.
pub open spec fn fields_without_wide_decimal256(fs: Seq<Field>, k: nat) -> bool
    decreases fs, k,
{
    if k == 0 || k > fs.len() {
        true
    } else {
        fields_without_wide_decimal256(fs, (k - 1) as nat) && no_wide_decimal256(fs[k - 1].data_type)
    }
}

proof fn lemma_node_ignores_decimal256_max(name: Seq<char>, t: DataType, nullable: bool)
    requires
        no_wide_decimal256(t),
    ensures
        parquet_node_of(name, t, nullable, true) == parquet_node_of(name, t, nullable, false),
    decreases t, 0nat,
{
    match t {
        DataType::Extension(_, inner, _) => lemma_node_ignores_decimal256_max(name, *inner, nullable),
        DataType::Dictionary(_, v, _) => lemma_node_ignores_decimal256_max(name, *v, nullable),
        DataType::Struct(fs) => lemma_children_ignore_decimal256_max(fs@, fs@.len()),
        DataType::List(f) | DataType::LargeList(f) =>
            lemma_node_ignores_decimal256_max(f.name@, f.data_type, f.is_nullable),
        DataType::FixedSizeList(f, _) => lemma_node_ignores_decimal256_max(f.name@, f.data_type, f.is_nullable),
        DataType::MapType(f, _) => lemma_node_ignores_decimal256_max(f.name@, f.data_type, f.is_nullable),
        _ => {},
    }
}

proof fn lemma_children_ignore_decimal256_max(fs: Seq<Field>, k: nat)
    requires
        fields_without_wide_decimal256(fs, k),
    ensures
        parquet_children_of(fs, k, true) == parquet_children_of(fs, k, false),
    decreases fs, k,
{
    if k == 0 || k > fs.len() {
    } else {
        lemma_children_ignore_decimal256_max(fs, (k - 1) as nat);
        lemma_node_ignores_decimal256_max(fs[k - 1].name@, fs[k - 1].data_type, fs[k - 1].is_nullable);
    }
}

/// The `decimal256_max` option matters only for 256-bit decimals of more
/// than 38 digits: a field whose type holds none, at any depth, maps to the
/// same Parquet node (or the same error) either way.
pub proof fn law_decimal256_max_only_affects_wide_decimals(field: Field)
    requires
        no_wide_decimal256(field.data_type),
    ensures
        parquet_node_of(field.name@, field.data_type, field.is_nullable, true)
            == parquet_node_of(field.name@, field.data_type, field.is_nullable, false),
{
    lemma_node_ignores_decimal256_max(field.name@, field.data_type, field.is_nullable);
}

/// The name of a node.
pub open spec fn node_name(n: ParquetNode) -> Seq<char> {
    match n {
        ParquetNode::Primitive { name, .. } => name,
        ParquetNode::Group { name, .. } => name,
    }
}

/// The repetition of a node.
pub open spec fn node_repetition(n: ParquetNode) -> Repetition {
    match n {
        ParquetNode::Primitive { repetition, .. } => repetition,
        ParquetNode::Group { repetition, .. } => repetition,
    }
}

/// A column's node carries the column's name, and is optional exactly when
/// the column is nullable.
pub proof fn law_node_keeps_name_and_nullability(name: Seq<char>, t: DataType, nullable: bool, decimal256_max: bool)
    ensures
        parquet_node_of(name, t, nullable, decimal256_max) matches Ok(n) ==> node_name(n) == name
            && node_repetition(n) == repetition_of(nullable),
    decreases t,
{
    match t {
        DataType::Extension(_, inner, _) => law_node_keeps_name_and_nullability(name, *inner, nullable, decimal256_max),
        DataType::Dictionary(_, value, _) => law_node_keeps_name_and_nullability(name, *value, nullable, decimal256_max),
        _ => {},
    }
}

/// `r` is the node that `s` describes, or the error that `s` describes.
pub open spec fn matches_node(r: Result<ParquetType, ErrorCode>, s: Result<ParquetNode, (ErrorKind, Seq<char>)>) -> bool {
    match s {
        Ok(n) => r matches Ok(t) && t@ == n,
        Err(e) => r matches Err(x) && x@ == e,
    }
}

} // verus!

verus! {

proof fn lemma_fields_wf_at(fs: Seq<Field>, k: nat, i: int)
    requires
        fields_wf(fs, k),
        k <= fs.len(),
        0 <= i < k,
    ensures
        data_type_wf(fs[i].data_type),
    decreases k,
{
    if i < k - 1 {
        lemma_fields_wf_at(fs, (k - 1) as nat, i);
    }
}

/// Once a field fails, the struct fails with that field's error.
proof fn lemma_children_error_persists(fields: Seq<Field>, k1: nat, k2: nat, decimal256_max: bool)
    requires
        k1 <= k2 <= fields.len(),
        parquet_children_of(fields, k1, decimal256_max) is Err,
    ensures
        parquet_children_of(fields, k2, decimal256_max) == parquet_children_of(fields, k1, decimal256_max),
    decreases k2 - k1,
{
    if k1 < k2 {
        lemma_children_error_persists(fields, k1, (k2 - 1) as nat, decimal256_max);
    }
}

/// `parquet_nodes` reads only the first `k` elements.
proof fn lemma_parquet_nodes_prefix(s1: Seq<ParquetType>, s2: Seq<ParquetType>, k: nat)
    requires
        k <= s1.len(),
        k <= s2.len(),
        forall|i: int| 0 <= i < k ==> s1[i] == s2[i],
    ensures
        parquet_nodes(s1, k) == parquet_nodes(s2, k),
    decreases k,
{
    if k > 0 {
        lemma_parquet_nodes_prefix(s1, s2, (k - 1) as nat);
    }
}

fn leaf_type(
    name: &String,
    repetition: Repetition,
    physical: PhysicalType,
    converted: Option<PrimitiveConvertedType>,
    logical: Option<PrimitiveLogicalType>,
) -> (t: ParquetType)
    ensures
        leaf(name@, repetition, physical, converted, logical) == Ok::<ParquetNode, (ErrorKind, Seq<char>)>(t@),
{
    ParquetType::PrimitiveType {
        name: name.clone(),
        repetition,
        id: None,
        converted_type: converted,
        logical_type: logical,
        physical_type: physical,
    }
}

fn decimal_type(name: &String, repetition: Repetition, physical: PhysicalType, precision: usize, scale: usize)
    -> (r: Result<ParquetType, ErrorCode>)
    ensures
        matches_node(r, decimal_leaf(name@, repetition, physical, precision, scale)),
{
    match check_decimal_annotation(physical, precision, scale) {
        Ok(()) => Ok(leaf_type(
            name,
            repetition,
            physical,
            Some(PrimitiveConvertedType::Decimal(precision, scale)),
            Some(PrimitiveLogicalType::Decimal(precision, scale)),
        )),
        Err(m) => Err(ErrorCode::new(ErrorKind::ExternalFormat, m)),
    }
}

fn nested_group_type(
    name: &String,
    repetition: Repetition,
    converted: GroupConvertedType,
    logical: GroupLogicalType,
    inner_name: &str,
    element: Result<ParquetType, ErrorCode>,
    Ghost(spec_element): Ghost<Result<ParquetNode, (ErrorKind, Seq<char>)>>,
) -> (r: Result<ParquetType, ErrorCode>)
    requires
        matches_node(element, spec_element),
    ensures
        matches_node(r, nested_group(name@, repetition, converted, logical, inner_name@, spec_element)),
{
    match element {
        Ok(e) => {
            let ghost ev = e@;
            let inner_fields = vec![e];
            assert(parquet_nodes(inner_fields@, 1) =~= seq![ev]) by {
                reveal_with_fuel(parquet_nodes, 2);
            }
            let inner = ParquetType::GroupType {
                name: String::from_str(inner_name),
                repetition: Repetition::Repeated,
                id: None,
                converted_type: None,
                logical_type: None,
                fields: inner_fields,
            };
            let ghost iv = inner@;
            let outer_fields = vec![inner];
            assert(parquet_nodes(outer_fields@, 1) =~= seq![iv]) by {
                reveal_with_fuel(parquet_nodes, 2);
            }
            let t = ParquetType::GroupType {
                name: name.clone(),
                repetition,
                id: None,
                converted_type: Some(converted),
                logical_type: Some(logical),
                fields: outer_fields,
            };
            Ok(t)
        },
        Err(e) => Err(e),
    }
}

fn time_unit_to_parquet(u: TimeUnit) -> (p: ParquetTimeUnit)
    ensures
        p == parquet_time_unit(u),
{
    match u {
        TimeUnit::Millisecond => ParquetTimeUnit::Milliseconds,
        TimeUnit::Microsecond => ParquetTimeUnit::Microseconds,
        _ => ParquetTimeUnit::Nanoseconds,
    }
}

} // verus!

verus! {

fn parquet_type_for(name: &String, t: &DataType, nullable: bool, decimal256_max: bool)
    -> (r: Result<ParquetType, ErrorCode>)
    requires
        data_type_wf(*t),
    ensures
        matches_node(r, parquet_node_of(name@, *t, nullable, decimal256_max)),
    decreases t,
{
    let rep = if nullable { Repetition::Optional } else { Repetition::Required };
    match t {
        DataType::Extension(_, inner, _) => parquet_type_for(name, inner, nullable, decimal256_max),
        DataType::Null => Ok(leaf_type(name, rep, PhysicalType::Int32, None, Some(PrimitiveLogicalType::Unknown))),
        DataType::Boolean => Ok(leaf_type(name, rep, PhysicalType::Boolean, None, None)),
        DataType::Int32 => Ok(leaf_type(name, rep, PhysicalType::Int32, None, None)),
        DataType::Int64 | DataType::Duration(_) | DataType::Date64 =>
            Ok(leaf_type(name, rep, PhysicalType::Int64, None, None)),
        DataType::Float32 => Ok(leaf_type(name, rep, PhysicalType::Float, None, None)),
        DataType::Float64 => Ok(leaf_type(name, rep, PhysicalType::Double, None, None)),
        DataType::Binary | DataType::LargeBinary => Ok(leaf_type(name, rep, PhysicalType::ByteArray, None, None)),
        DataType::Utf8 | DataType::LargeUtf8 => Ok(leaf_type(name, rep, PhysicalType::ByteArray,
            Some(PrimitiveConvertedType::Utf8), Some(PrimitiveLogicalType::String))),
        DataType::Date32 => Ok(leaf_type(name, rep, PhysicalType::Int32,
            Some(PrimitiveConvertedType::Date), Some(PrimitiveLogicalType::Date))),
        DataType::Int8 => Ok(leaf_type(name, rep, PhysicalType::Int32,
            Some(PrimitiveConvertedType::Int8), Some(PrimitiveLogicalType::Integer(ParquetIntegerType::Int8)))),
        DataType::Int16 => Ok(leaf_type(name, rep, PhysicalType::Int32,
            Some(PrimitiveConvertedType::Int16), Some(PrimitiveLogicalType::Integer(ParquetIntegerType::Int16)))),
        DataType::UInt8 => Ok(leaf_type(name, rep, PhysicalType::Int32,
            Some(PrimitiveConvertedType::Uint8), Some(PrimitiveLogicalType::Integer(ParquetIntegerType::UInt8)))),
        DataType::UInt16 => Ok(leaf_type(name, rep, PhysicalType::Int32,
            Some(PrimitiveConvertedType::Uint16), Some(PrimitiveLogicalType::Integer(ParquetIntegerType::UInt16)))),
        DataType::UInt32 => Ok(leaf_type(name, rep, PhysicalType::Int32,
            Some(PrimitiveConvertedType::Uint32), Some(PrimitiveLogicalType::Integer(ParquetIntegerType::UInt32)))),
        DataType::UInt64 => Ok(leaf_type(name, rep, PhysicalType::Int64,
            Some(PrimitiveConvertedType::Uint64), Some(PrimitiveLogicalType::Integer(ParquetIntegerType::UInt64)))),
        DataType::Timestamp(unit, zone) => {
            if *unit == TimeUnit::Second {
                Ok(leaf_type(name, rep, PhysicalType::Int64, None, None))
            } else {
                let is_adjusted_to_utc = match zone {
                    Some(z) => !z.as_str().is_empty(),
                    None => false,
                };
                Ok(leaf_type(name, rep, PhysicalType::Int64, None, Some(PrimitiveLogicalType::Timestamp {
                    unit: time_unit_to_parquet(*unit),
                    is_adjusted_to_utc,
                })))
            }
        },
        DataType::Time32(TimeUnit::Second) => Ok(leaf_type(name, rep, PhysicalType::Int32, None, None)),
        DataType::Time32(TimeUnit::Millisecond) => Ok(leaf_type(name, rep, PhysicalType::Int32,
            Some(PrimitiveConvertedType::TimeMillis),
            Some(PrimitiveLogicalType::Time { unit: ParquetTimeUnit::Milliseconds, is_adjusted_to_utc: false }))),
        DataType::Time64(unit) => {
            let converted = if *unit == TimeUnit::Microsecond { Some(PrimitiveConvertedType::TimeMicros) } else { None };
            Ok(leaf_type(name, rep, PhysicalType::Int64, converted,
                Some(PrimitiveLogicalType::Time { unit: time_unit_to_parquet(*unit), is_adjusted_to_utc: false })))
        },
        DataType::Struct(fields) => {
            if fields.len() == 0 {
                let m = String::from_str("Parquet does not support writing empty structs");
                return Err(ErrorCode::new(ErrorKind::InvalidArgument, m));
            }
            let mut children: Vec<ParquetType> = Vec::new();
            let mut i: usize = 0;
            while i < fields.len()
                invariant
                    i <= fields@.len(),
                    *t == DataType::Struct(*fields),
                    fields_wf(fields@, fields@.len()),
                    children@.len() == i,
                    parquet_children_of(fields@, i as nat, decimal256_max)
                        == Ok::<Seq<ParquetNode>, (ErrorKind, Seq<char>)>(parquet_nodes(children@, i as nat)),
                decreases fields@.len() - i,
            {
                proof {
                    lemma_fields_wf_at(fields@, fields@.len(), i as int);
                    assert(decreases_to!(*t => *fields));
                    assert(decreases_to!(*fields => fields@));
                    assert(decreases_to!(fields@ => fields@[i as int]));
                    assert(decreases_to!(fields@[i as int] => fields@[i as int].data_type));
                }
                let f = &fields[i];
                let child = parquet_type_for(&f.name, &f.data_type, f.is_nullable, decimal256_max);
                match child {
                    Ok(c) => {
                        let ghost before = children@;
                        children.push(c);
                        proof {
                            lemma_parquet_nodes_prefix(before, children@, i as nat);
                        }
                    },
                    Err(e) => {
                        proof {
                            lemma_children_error_persists(fields@, (i + 1) as nat, fields@.len(), decimal256_max);
                        }
                        return Err(e);
                    },
                }
                i = i + 1;
            }
            Ok(ParquetType::GroupType {
                name: name.clone(),
                repetition: rep,
                id: None,
                converted_type: None,
                logical_type: None,
                fields: children,
            })
        },
        DataType::Dictionary(_, value, _) => parquet_type_for(name, value, nullable, decimal256_max),
        DataType::FixedSizeBinary(size) =>
            Ok(leaf_type(name, rep, PhysicalType::FixedLenByteArray(*size), None, None)),
        DataType::Decimal(p, s) => {
            let physical = if *p <= 9 {
                PhysicalType::Int32
            } else if *p <= 18 {
                PhysicalType::Int64
            } else {
                PhysicalType::FixedLenByteArray(decimal_length_from_precision(*p))
            };
            decimal_type(name, rep, physical, *p, *s)
        },
        DataType::Decimal256(p, s) => {
            let physical = if *p <= 9 {
                PhysicalType::Int32
            } else if *p <= 18 {
                PhysicalType::Int64
            } else if *p <= 38 {
                PhysicalType::FixedLenByteArray(decimal_length_from_precision(*p))
            } else if decimal256_max {
                PhysicalType::FixedLenByteArray(32)
            } else {
                PhysicalType::FixedLenByteArray(decimal_length_from_precision(*p))
            };
            decimal_type(name, rep, physical, *p, *s)
        },
        DataType::Interval(_) => Ok(leaf_type(name, rep, PhysicalType::FixedLenByteArray(12),
            Some(PrimitiveConvertedType::Interval), None)),
        DataType::List(f) | DataType::LargeList(f) | DataType::FixedSizeList(f, _) => {
            let element = parquet_type_for(&f.name, &f.data_type, f.is_nullable, decimal256_max);
            nested_group_type(name, rep, GroupConvertedType::List, GroupLogicalType::List, "list", element,
                Ghost(parquet_node_of(f.name@, f.data_type, f.is_nullable, decimal256_max)))
        },
        DataType::MapType(f, _) => {
            let element = parquet_type_for(&f.name, &f.data_type, f.is_nullable, decimal256_max);
            nested_group_type(name, rep, GroupConvertedType::MapGroup, GroupLogicalType::MapGroup, "map", element,
                Ghost(parquet_node_of(f.name@, f.data_type, f.is_nullable, decimal256_max)))
        },
        DataType::Float16 => {
            proof {
                reveal_strlit("Writing the data type ");
                reveal_strlit("Float16");
                reveal_strlit(" is not yet implemented");
                reveal_strlit("Writing the data type Float16 is not yet implemented");
            }
            let m = String::from_str("Writing the data type Float16 is not yet implemented");
            assert(m@ =~= unwritable_message(*t));
            Err(ErrorCode::new(ErrorKind::NotYetImplemented, m))
        },
        DataType::Time32(TimeUnit::Microsecond) => {
            proof {
                reveal_strlit("Writing the data type ");
                reveal_strlit("Time32(Microsecond)");
                reveal_strlit(" is not yet implemented");
                reveal_strlit("Writing the data type Time32(Microsecond) is not yet implemented");
            }
            let m = String::from_str("Writing the data type Time32(Microsecond) is not yet implemented");
            assert(m@ =~= unwritable_message(*t));
            Err(ErrorCode::new(ErrorKind::NotYetImplemented, m))
        },
        DataType::Time32(TimeUnit::Nanosecond) => {
            proof {
                reveal_strlit("Writing the data type ");
                reveal_strlit("Time32(Nanosecond)");
                reveal_strlit(" is not yet implemented");
                reveal_strlit("Writing the data type Time32(Nanosecond) is not yet implemented");
            }
            let m = String::from_str("Writing the data type Time32(Nanosecond) is not yet implemented");
            assert(m@ =~= unwritable_message(*t));
            Err(ErrorCode::new(ErrorKind::NotYetImplemented, m))
        },
    }
}

/// The Parquet node that stores `field`: its name, its repetition (optional
/// when nullable, required otherwise) and the physical type and annotations
/// that its Arrow type calls for; or the error that refuses it. With
/// `decimal256_max`, a 256-bit decimal of more than 38 digits takes 32 bytes.
pub fn to_parquet_type_with_options(field: &Field, decimal256_max: bool) -> (r: Result<ParquetType, ErrorCode>)
    requires
        data_type_wf(field.data_type),
    ensures
        matches_node(r, parquet_node_of(field.name@, field.data_type, field.is_nullable, decimal256_max)),
{
    parquet_type_for(&field.name, &field.data_type, field.is_nullable, decimal256_max)
}

/// The Parquet node that stores `field`, with 256-bit decimals of more than
/// 38 digits taking 32 bytes.
pub fn to_parquet_type(field: &Field) -> (r: Result<ParquetType, ErrorCode>)
    requires
        data_type_wf(field.data_type),
    ensures
        matches_node(r, parquet_node_of(field.name@, field.data_type, field.is_nullable, true)),
{
    to_parquet_type_with_options(field, true)
}

} // verus!

verus! {

// ----- The Arrow schema stored in Parquet metadata -----

/// The metadata key under which the Arrow schema is stored.
pub const ARROW_SCHEMA_META_KEY: &'static str = "ARROW:schema";

/// A key-value pair of Parquet file metadata.
#[derive(Debug, Clone, PartialEq, Eq)]
pub struct KeyValue {
    pub key: String,
    pub value: Option<String>,
}

/// The Base64 digit of a six-bit value: `A`-`Z`, `a`-`z`, `0`-`9`, `+`, `/`.
pub open spec fn base64_digit(v: int) -> char {
    if v < 26 {
        (65 + v) as char
    } else if v < 52 {
        (97 + v - 26) as char
    } else if v < 62 {
        (48 + v - 52) as char
    } else if v == 62 {
        '+'
    } else {
        '/'
    }
}

/// The standard (padded) Base64 text of some bytes: each group of three
/// bytes gives four digits of six bits each; a last group of one or two
/// bytes is filled with zero bits and padded with `=` to four characters.
pub open spec fn base64_standard(bytes: Seq<u8>) -> Seq<char>
    decreases bytes.len(),
{
    if bytes.len() == 0 {
        Seq::empty()
    } else if bytes.len() == 1 {
        let b0 = bytes[0] as int;
        seq![base64_digit(b0 / 4), base64_digit((b0 % 4) * 16), '=', '=']
    } else if bytes.len() == 2 {
        let b0 = bytes[0] as int;
        let b1 = bytes[1] as int;
        seq![base64_digit(b0 / 4), base64_digit((b0 % 4) * 16 + b1 / 16), base64_digit((b1 % 16) * 4), '=']
    } else {
        let b0 = bytes[0] as int;
        let b1 = bytes[1] as int;
        let b2 = bytes[2] as int;
        seq![
            base64_digit(b0 / 4),
            base64_digit((b0 % 4) * 16 + b1 / 16),
            base64_digit((b1 % 16) * 4 + b2 / 64),
            base64_digit(b2 % 64),
        ] + base64_standard(bytes.subrange(3, bytes.len() as int))
    }
}

/// Encodes bytes with `base64::engine::general_purpose::STANDARD`, the
/// padded standard alphabet; the text is as `base64_standard` states it.
#[verifier::external_body]
fn base64_encode(bytes: &[u8]) -> (s: String)
    ensures
        s@ == base64_standard(bytes@),
{
    base64::Engine::encode(&base64::engine::general_purpose::STANDARD, bytes)
}

/// The legacy IPC framing of a serialized schema: a continuation marker of
/// four 0xFF bytes, the length as 32-bit little endian, then the schema.
pub open spec fn framed_schema(serialized: Seq<u8>) -> Seq<u8> {
    seq![255u8, 255u8, 255u8, 255u8] + vstd::bytes::spec_u32_to_le_bytes(serialized.len() as u32) + serialized
}

/// The metadata entry that stores an IPC-serialized Arrow schema: the key
/// `ARROW:schema` and, as value, the Base64 text of the framed schema.
pub fn schema_to_metadata_key(serialized_schema: &[u8]) -> (kv: KeyValue)
    ensures
        kv.key@ == ARROW_SCHEMA_META_KEY@,
        kv.value matches Some(v) && v@ == base64_standard(framed_schema(serialized_schema@)),
{
    let schema_len = serialized_schema.len();
    let mut len_prefix_schema: Vec<u8> = Vec::new();
    len_prefix_schema.push(255u8);
    len_prefix_schema.push(255u8);
    len_prefix_schema.push(255u8);
    len_prefix_schema.push(255u8);
    let len_bytes = vstd::bytes::u32_to_le_bytes(schema_len as u32);
    len_prefix_schema.extend_from_slice(len_bytes.as_slice());
    len_prefix_schema.extend_from_slice(serialized_schema);
    assert(len_prefix_schema@ =~= framed_schema(serialized_schema@));
    let encoded = base64_encode(len_prefix_schema.as_slice());
    KeyValue { key: String::from_str(ARROW_SCHEMA_META_KEY), value: Some(encoded) }
}

} // verus!
