//! The well-formed binary encoding of JSONB values, and a check of it.
//!
//! A value starts with a 4-byte big-endian header: `0x20` for a scalar,
//! `0x80` for an array, `0x40` for an object in its first byte, and the
//! number of elements in the other three. Entries (`JEntry`) follow, each
//! 4 bytes big-endian: a type in bits 28 to 30 and a length in bits 0 to 27;
//! then the data of the entries one after another. A scalar has one entry;
//! an array one per element; an object one per key, then one per value, with
//! all key data before all value data. A key is text; a nested array or
//! object is a well-formed value of its own.

use vstd::prelude::*;

verus! {

pub open spec fn type_null() -> int { 0 }
pub open spec fn type_string() -> int { 1 }
pub open spec fn type_number() -> int { 2 }
pub open spec fn type_false() -> int { 3 }
pub open spec fn type_true() -> int { 4 }
pub open spec fn type_container() -> int { 5 }

/// The type of the entry at `o`.
pub open spec fn entry_type(v: Seq<u8>, o: int) -> int {
    (v[o] / 16) as int % 8
}

/// The length of the data of the entry at `o`.
pub open spec fn entry_len(v: Seq<u8>, o: int) -> int {
    (v[o] % 16) * 16777216 + v[o + 1] * 65536 + v[o + 2] * 256 + v[o + 3]
}

/// The number of elements in the header.
pub open spec fn header_len(v: Seq<u8>) -> int {
    v[1] * 65536 + v[2] * 256 + v[3]
}

pub open spec fn is_continuation(b: u8) -> bool {
    0x80 <= b <= 0xBF
}

/// The bytes of `s` from `i` on are UTF-8: sequences of one to four bytes,
/// without overlong forms, surrogates, or code points above U+10FFFF.
pub open spec fn utf8_from(s: Seq<u8>, i: int) -> bool
    decreases s.len() - i,
{
    if i < 0 || i >= s.len() {
        true
    } else {
        let b = s[i];
        if b < 0x80 {
            utf8_from(s, i + 1)
        } else if 0xC2 <= b <= 0xDF {
            i + 2 <= s.len() && is_continuation(s[i + 1]) && utf8_from(s, i + 2)
        } else if b == 0xE0 {
            i + 3 <= s.len() && 0xA0 <= s[i + 1] <= 0xBF && is_continuation(s[i + 2]) && utf8_from(s, i + 3)
        } else if (0xE1 <= b <= 0xEC) || (0xEE <= b <= 0xEF) {
            i + 3 <= s.len() && is_continuation(s[i + 1]) && is_continuation(s[i + 2]) && utf8_from(s, i + 3)
        } else if b == 0xED {
            i + 3 <= s.len() && 0x80 <= s[i + 1] <= 0x9F && is_continuation(s[i + 2]) && utf8_from(s, i + 3)
        } else if b == 0xF0 {
            i + 4 <= s.len() && 0x90 <= s[i + 1] <= 0xBF && is_continuation(s[i + 2]) && is_continuation(s[i + 3])
                && utf8_from(s, i + 4)
        } else if 0xF1 <= b <= 0xF3 {
            i + 4 <= s.len() && is_continuation(s[i + 1]) && is_continuation(s[i + 2]) && is_continuation(s[i + 3])
                && utf8_from(s, i + 4)
        } else if b == 0xF4 {
            i + 4 <= s.len() && 0x80 <= s[i + 1] <= 0x8F && is_continuation(s[i + 2]) && is_continuation(s[i + 3])
                && utf8_from(s, i + 4)
        } else {
            false
        }
    }
}

/// The encoding of a number: a tag byte (zero, NaN, infinities) alone or
/// followed by anything, an integer tag followed by 1, 2, 4 or 8 bytes, or
/// the float tag followed by 8 bytes.
pub open spec fn number_ok(d: Seq<u8>) -> bool {
    d.len() > 0 && {
        let t = d[0];
        let rest = d.len() - 1;
        ||| t == 0x00 || t == 0x10 || t == 0x20 || t == 0x30
        ||| (t == 0x40 || t == 0x50) && (rest == 1 || rest == 2 || rest == 4 || rest == 8)
        ||| t == 0x60 && rest == 8
    }
}

/// The data `v[start .. start + len]` of an entry of type `t` is right for
/// that type.
pub open spec fn entry_ok(v: Seq<u8>, t: int, start: int, len: int) -> bool
    decreases v.len(), 0nat, 0nat,
{
    if !(1 <= start && 0 <= len && start + len <= v.len()) {
        false
    } else if t == type_null() || t == type_false() || t == type_true() {
        true
    } else if t == type_string() {
        utf8_from(v.subrange(start, start + len), 0)
    } else if t == type_number() {
        number_ok(v.subrange(start, start + len))
    } else if t == type_container() {
        jsonb_wf(v.subrange(start, start + len))
    } else {
        false
    }
}

/// Entries `i` to `n - 1`, whose headers sit from `jbase` on four bytes apart
/// and whose data starts at `dpos`, are well-formed and fit in `v`; `keys`
/// makes each a text.
pub open spec fn entries_ok(v: Seq<u8>, n: int, i: int, jbase: int, dpos: int, keys: bool) -> bool
    decreases v.len(), 1nat, n - i,
{
    if i >= n {
        dpos <= v.len()
    } else if dpos < 4 || jbase < 4 || jbase + 4 * i + 4 > v.len() {
        false
    } else {
        let o = jbase + 4 * i;
        let t = entry_type(v, o);
        let l = entry_len(v, o);
        &&& dpos + l <= v.len()
        &&& (keys ==> t == type_string())
        &&& entry_ok(v, t, dpos, l)
        &&& entries_ok(v, n, i + 1, jbase, dpos + l, keys)
    }
}

/// Where the data of entries `i` to `n - 1` ends, when it starts at `dpos`.
pub open spec fn entries_end(v: Seq<u8>, n: int, i: int, jbase: int, dpos: int) -> int
    decreases n - i,
{
    if i >= n || jbase + 4 * i + 4 > v.len() || jbase + 4 * i < 0 {
        dpos
    } else {
        entries_end(v, n, i + 1, jbase, dpos + entry_len(v, jbase + 4 * i))
    }
}

/// A well-formed binary JSONB value.
pub open spec fn jsonb_wf(v: Seq<u8>) -> bool
    decreases v.len(), 2nat, 0nat,
{
    if v.len() < 4 {
        false
    } else if v[0] == 0x20 {
        &&& v.len() >= 8
        &&& header_len(v) == 0 || header_len(v) == 1
        &&& entry_type(v, 4) != type_container()
        &&& entries_ok(v, 1, 0, 4, 8, false)
    } else if v[0] == 0x80 {
        let n = header_len(v);
        4 + 4 * n <= v.len() && entries_ok(v, n, 0, 4, 4 + 4 * n, false)
    } else if v[0] == 0x40 {
        let n = header_len(v);
        &&& 4 + 8 * n <= v.len()
        &&& entries_ok(v, n, 0, 4, 4 + 8 * n, true)
        &&& entries_ok(v, n, 0, 4 + 4 * n, entries_end(v, n, 0, 4, 4 + 8 * n), false)
    } else {
        false
    }
}

fn continuation(b: u8) -> (r: bool)
    ensures
        r == is_continuation(b),
{
    0x80 <= b && b <= 0xBF
}

/// Whether the bytes are UTF-8.
fn utf8_check(s: &[u8]) -> (r: bool)
    ensures
        r == utf8_from(s@, 0),
{
    let mut i: usize = 0;
    while i < s.len()
        invariant
            i <= s@.len(),
            utf8_from(s@, 0) == utf8_from(s@, i as int),
        decreases s@.len() - i,
    {
        let b = s[i];
        let n = s.len();
        let step: usize = if b < 0x80 {
            1
        } else if 0xC2 <= b && b <= 0xDF {
            if n - i >= 2 && continuation(s[i + 1]) { 2 } else { return false; }
        } else if b == 0xE0 {
            if n - i >= 3 && 0xA0 <= s[i + 1] && s[i + 1] <= 0xBF && continuation(s[i + 2]) { 3 } else { return false; }
        } else if (0xE1 <= b && b <= 0xEC) || (0xEE <= b && b <= 0xEF) {
            if n - i >= 3 && continuation(s[i + 1]) && continuation(s[i + 2]) { 3 } else { return false; }
        } else if b == 0xED {
            if n - i >= 3 && 0x80 <= s[i + 1] && s[i + 1] <= 0x9F && continuation(s[i + 2]) { 3 } else { return false; }
        } else if b == 0xF0 {
            if n - i >= 4 && 0x90 <= s[i + 1] && s[i + 1] <= 0xBF && continuation(s[i + 2]) && continuation(s[i + 3]) {
                4
            } else {
                return false;
            }
        } else if 0xF1 <= b && b <= 0xF3 {
            if n - i >= 4 && continuation(s[i + 1]) && continuation(s[i + 2]) && continuation(s[i + 3]) {
                4
            } else {
                return false;
            }
        } else if b == 0xF4 {
            if n - i >= 4 && 0x80 <= s[i + 1] && s[i + 1] <= 0x8F && continuation(s[i + 2]) && continuation(s[i + 3]) {
                4
            } else {
                return false;
            }
        } else {
            return false;
        };
        i = i + step;
    }
    true
}

fn number_check(d: &[u8]) -> (r: bool)
    ensures
        r == number_ok(d@),
{
    if d.len() == 0 {
        return false;
    }
    let t = d[0];
    let rest = d.len() - 1;
    (t == 0x00 || t == 0x10 || t == 0x20 || t == 0x30)
        || ((t == 0x40 || t == 0x50) && (rest == 1 || rest == 2 || rest == 4 || rest == 8))
        || (t == 0x60 && rest == 8)
}

/// The type and length of the entry at `o`.
fn read_entry(v: &[u8], o: usize) -> (r: (usize, usize))
    requires
        o + 4 <= v@.len(),
    ensures
        r.0 == entry_type(v@, o as int),
        r.1 == entry_len(v@, o as int),
        r.1 < 0x10000000,
{
    let t = ((v[o] / 16) % 8) as usize;
    let l = ((v[o] % 16) as usize) * 16777216 + (v[o + 1] as usize) * 65536 + (v[o + 2] as usize) * 256
        + (v[o + 3] as usize);
    (t, l)
}

fn entry_check(v: &[u8], t: usize, start: usize, len: usize) -> (r: bool)
    ensures
        r == entry_ok(v@, t as int, start as int, len as int),
    decreases v@.len(), 0nat,
{
    if !(1 <= start && start <= v.len() && len <= v.len() - start) {
        return false;
    }
    let d = vstd::slice::slice_subrange(v, start, start + len);
    if t == 0 || t == 3 || t == 4 {
        true
    } else if t == 1 {
        utf8_check(d)
    } else if t == 2 {
        number_check(d)
    } else if t == 5 {
        jsonb_check(d)
    } else {
        false
    }
}

/// Checks entries `0 .. n` from `jbase`, data from `dpos`; where they are
/// well-formed, gives where their data ends.
fn entries_check(v: &[u8], n: usize, jbase: usize, dpos: usize, keys: bool) -> (r: Option<usize>)
    requires
        n < 0x1000000,
    ensures
        (r is Some) == entries_ok(v@, n as int, 0, jbase as int, dpos as int, keys),
        r matches Some(e) ==> e == entries_end(v@, n as int, 0, jbase as int, dpos as int),
    decreases v@.len(), 1nat,
{
    let mut i: usize = 0;
    let mut d: usize = dpos;
    while i < n
        invariant
            i <= n,
            n < 0x1000000,
            entries_ok(v@, n as int, 0, jbase as int, dpos as int, keys)
                == entries_ok(v@, n as int, i as int, jbase as int, d as int, keys),
            entries_end(v@, n as int, 0, jbase as int, dpos as int)
                == entries_end(v@, n as int, i as int, jbase as int, d as int),
        decreases n - i,
    {
        if d < 4 || d > v.len() || jbase < 4 || jbase > v.len() || (v.len() - jbase) / 4 < i + 1 {
            return None;
        }
        let o = jbase + 4 * i;
        let (t, l) = read_entry(v, o);
        if l > v.len() - d {
            return None;
        }
        if keys && t != 1 {
            return None;
        }
        if !entry_check(v, t, d, l) {
            return None;
        }
        d = d + l;
        i = i + 1;
    }
    if d > v.len() {
        return None;
    }
    Some(d)
}

/// Whether the bytes are a well-formed binary JSONB value.
pub fn jsonb_check(v: &[u8]) -> (r: bool)
    ensures
        r == jsonb_wf(v@),
    decreases v@.len(), 2nat,
{
    if v.len() < 4 {
        return false;
    }
    let n = (v[1] as usize) * 65536 + (v[2] as usize) * 256 + (v[3] as usize);
    if v[0] == 0x20 {
        if v.len() < 8 || !(n == 0 || n == 1) {
            return false;
        }
        let (t, _) = read_entry(v, 4);
        if t == 5 {
            return false;
        }
        entries_check(v, 1, 4, 8, false).is_some()
    } else if v[0] == 0x80 {
        if (v.len() - 4) / 4 < n {
            return false;
        }
        entries_check(v, n, 4, 4 + 4 * n, false).is_some()
    } else if v[0] == 0x40 {
        if (v.len() - 4) / 8 < n {
            return false;
        }
        match entries_check(v, n, 4, 4 + 8 * n, true) {
            Some(end) => entries_check(v, n, 4 + 4 * n, end, false).is_some(),
            None => false,
        }
    } else {
        false
    }
}

} // verus!
