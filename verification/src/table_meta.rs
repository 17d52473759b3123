//! Helpers of the table snapshot format: timestamps of snapshots and the
//! naming of data blocks.

use vstd::prelude::*;

use crate::error::{ErrorCode, ErrorKind};

verus! {

pub const NANOS_PER_SECOND: u32 = 1_000_000_000;

/// An instant in UTC: whole seconds since the Unix epoch and the nanoseconds
/// past that second.
#[derive(Debug, Clone, Copy, PartialEq, Eq, Structural)]
pub struct UtcTimestamp {
    pub secs: i64,
    pub nanos: u32,
}

impl UtcTimestamp {
    /// The nanoseconds are below one second.
    pub open spec fn wf(self) -> bool {
        self.nanos < NANOS_PER_SECOND
    }

    /// Nanoseconds since the Unix epoch.
    pub open spec fn total_nanos(self) -> int {
        self.secs * 1_000_000_000 + self.nanos
    }

    /// Whether `self` is later than `other`.
    pub fn is_later_than(&self, other: &UtcTimestamp) -> (b: bool)
        ensures
            b == (self.secs > other.secs || (self.secs == other.secs && self.nanos > other.nanos)),
    {
        self.secs > other.secs || (self.secs == other.secs && self.nanos > other.nanos)
    }
}

/// The instant with its fraction of a second cut to whole microseconds.
pub open spec fn trimmed(ts: UtcTimestamp) -> UtcTimestamp {
    UtcTimestamp { secs: ts.secs, nanos: ((ts.nanos / 1000) * 1000) as u32 }
}

/// The instant with its fraction of a second cut to whole microseconds.
pub fn trim_timestamp_to_micro_second(ts: UtcTimestamp) -> (r: UtcTimestamp)
    requires
        ts.wf(),
    ensures
        r.wf(),
        r == trimmed(ts),
{
    let micros = ts.nanos / 1000;
    UtcTimestamp { secs: ts.secs, nanos: micros * 1000 }
}

/// The instant, in nanoseconds, of the next snapshot: the local timestamp,
/// unless the previous snapshot's is later, in which case one millisecond
/// after the previous one.
pub open spec fn next_snapshot_nanos(timestamp: UtcTimestamp, previous: Option<UtcTimestamp>) -> int {
    match previous {
        Some(p) => if p.total_nanos() > timestamp.total_nanos() {
            p.total_nanos() + 1_000_000
        } else {
            timestamp.total_nanos()
        },
        None => timestamp.total_nanos(),
    }
}

/// A snapshot's timestamp that never goes backwards: the local timestamp,
/// unless the previous snapshot's is later, in which case one millisecond
/// after the previous one.
pub fn monotonically_increased_timestamp(timestamp: UtcTimestamp, previous_timestamp: &Option<UtcTimestamp>) -> (r: UtcTimestamp)
    requires
        timestamp.wf(),
        previous_timestamp matches Some(p) ==> p.wf() && p.secs < i64::MAX,
    ensures
        r.wf(),
        r.total_nanos() == next_snapshot_nanos(timestamp, *previous_timestamp),
        !(previous_timestamp matches Some(p) && p.total_nanos() > timestamp.total_nanos()) ==> r == timestamp,
{
    if let Some(prev_instant) = previous_timestamp {
        if prev_instant.is_later_than(&timestamp) {
            proof {
                assert(prev_instant.total_nanos() > timestamp.total_nanos()) by (nonlinear_arith)
                    requires
                        prev_instant.secs > timestamp.secs || (prev_instant.secs == timestamp.secs && prev_instant.nanos > timestamp.nanos),
                        prev_instant.nanos < 1_000_000_000,
                        timestamp.nanos < 1_000_000_000,
                ;
            }
            let nanos = prev_instant.nanos + 1_000_000;
            if nanos >= NANOS_PER_SECOND {
                return UtcTimestamp { secs: prev_instant.secs + 1, nanos: nanos - NANOS_PER_SECOND };
            } else {
                return UtcTimestamp { secs: prev_instant.secs, nanos };
            }
        }
        proof {
            assert(prev_instant.total_nanos() <= timestamp.total_nanos()) by (nonlinear_arith)
                requires
                    !(prev_instant.secs > timestamp.secs || (prev_instant.secs == timestamp.secs && prev_instant.nanos > timestamp.nanos)),
                    prev_instant.nanos < 1_000_000_000,
                    timestamp.nanos < 1_000_000_000,
            ;
        }
    }
    timestamp
}

/// Cutting to microseconds twice is cutting once; the cut instant is no
/// later than the instant and less than a microsecond before it.
pub proof fn law_trim_idempotent(ts: UtcTimestamp)
    requires
        ts.wf(),
    ensures
        trimmed(trimmed(ts)) == trimmed(ts),
        trimmed(ts).total_nanos() <= ts.total_nanos() < trimmed(ts).total_nanos() + 1000,
{
    assert(((ts.nanos / 1000) * 1000) / 1000 == ts.nanos / 1000) by (nonlinear_arith);
    assert((ts.nanos / 1000) * 1000 <= ts.nanos < (ts.nanos / 1000) * 1000 + 1000) by (nonlinear_arith);
}

/// Snapshot timestamps never go backwards: the next one is no earlier than
/// the local clock, and later than the previous snapshot's whenever that
/// one is later than the clock.
pub proof fn law_snapshot_timestamps_increase(timestamp: UtcTimestamp, previous: Option<UtcTimestamp>)
    ensures
        next_snapshot_nanos(timestamp, previous) >= timestamp.total_nanos(),
        previous matches Some(p) ==> next_snapshot_nanos(timestamp, previous) >= p.total_nanos(),
        previous matches Some(p) ==> (p.total_nanos() > timestamp.total_nanos()
            ==> next_snapshot_nanos(timestamp, previous) > p.total_nanos()),
{
}

} // verus!

verus! {

/// `a` sorts before `b`: lexicographically, by code points, a proper prefix
/// first (the order of `str`).
pub open spec fn str_lt(a: Seq<char>, b: Seq<char>) -> bool
    decreases a.len(),
{
    if b.len() == 0 {
        false
    } else if a.len() == 0 {
        true
    } else if a[0] != b[0] {
        (a[0] as u32) < (b[0] as u32)
    } else {
        str_lt(a.drop_first(), b.drop_first())
    }
}

/// The last segment of a text: what follows its last `/` (all of it when
/// there is none).
pub open spec fn last_segment(p: Seq<char>) -> Seq<char>
    decreases p.len(),
{
    if p.len() == 0 || p.last() == '/' {
        Seq::empty()
    } else {
        last_segment(p.drop_last()).push(p.last())
    }
}

/// The file name of a `/`-separated path, as `std::path::Path::file_name`
/// reads a path on Unix: trailing slashes and `.` components are skipped;
/// the last component is the name, unless it is `..` or there is none.
pub open spec fn path_file_name(p: Seq<char>) -> Option<Seq<char>>
    decreases p.len(),
{
    if p.len() == 0 {
        None
    } else if p.last() == '/' {
        path_file_name(p.drop_last())
    } else if last_segment(p) == seq!['.'] {
        path_file_name(p.drop_last())
    } else if last_segment(p) == seq!['.', '.'] {
        None
    } else {
        Some(last_segment(p))
    }
}

proof fn lemma_last_segment(p: Seq<char>, s: int)
    requires
        0 <= s <= p.len(),
        s == 0 || p[s - 1] == '/',
        forall|k: int| s <= k < p.len() ==> p[k] != '/',
    ensures
        last_segment(p) == p.subrange(s, p.len() as int),
    decreases p.len(),
{
    if p.len() == s {
        assert(p.subrange(s, p.len() as int) =~= Seq::<char>::empty());
    } else {
        lemma_last_segment(p.drop_last(), s);
        assert(p.subrange(s, p.len() as int) =~= p.drop_last().subrange(s, p.len() - 1).push(p.last()));
    }
}

proof fn lemma_last_segment_shape(p: Seq<char>)
    ensures
        last_segment(p).len() <= p.len(),
        p == p.subrange(0, p.len() - last_segment(p).len()) + last_segment(p),
        forall|i: int| 0 <= i < last_segment(p).len() ==> #[trigger] last_segment(p)[i] != '/',
        last_segment(p).len() < p.len() ==> p[p.len() - last_segment(p).len() - 1] == '/',
    decreases p.len(),
{
    if p.len() > 0 && p.last() != '/' {
        lemma_last_segment_shape(p.drop_last());
        let s = last_segment(p.drop_last());
        assert(last_segment(p) == s.push(p.last()));
        let d = p.drop_last();
        let m = p.len() - last_segment(p).len();
        let a = d.subrange(0, d.len() - s.len());
        assert(m == d.len() - s.len());
        assert(p.subrange(0, m) =~= a);
        assert(d =~= a + s);
        assert(p =~= d.push(p.last()));
        assert(p =~= a + s.push(p.last()));
    } else {
        assert(p =~= p.subrange(0, p.len() as int) + Seq::<char>::empty());
    }
}

/// The file name of a path is one whole component: it is not empty, holds
/// no `/`, is neither `.` nor `..`, starts the path or follows a `/`, and
/// only slashes and `.` components come after it.
pub proof fn law_file_name_is_last_component(p: Seq<char>)
    ensures
        path_file_name(p) matches Some(n) ==> {
            &&& n.len() > 0
            &&& forall|i: int| 0 <= i < n.len() ==> #[trigger] n[i] != '/'
            &&& n != seq!['.'] && n != seq!['.', '.']
            &&& exists|k: int| 0 <= k && k + n.len() <= p.len() && #[trigger] p.subrange(k, k + n.len()) == n
                && (k == 0 || p[k - 1] == '/')
                && forall|j: int| k + n.len() <= j < p.len() ==> p[j] == '/' || p[j] == '.'
        },
    decreases p.len(),
{
    if p.len() == 0 {
    } else if p.last() == '/' || last_segment(p) == seq!['.'] {
        law_file_name_is_last_component(p.drop_last());
        if let Some(n) = path_file_name(p) {
            let k = choose|k: int| 0 <= k && k + n.len() <= p.drop_last().len()
                && #[trigger] p.drop_last().subrange(k, k + n.len()) == n
                && (k == 0 || p.drop_last()[k - 1] == '/')
                && forall|j: int| k + n.len() <= j < p.drop_last().len() ==> p.drop_last()[j] == '/' || p.drop_last()[j] == '.';
            assert(p.subrange(k, k + n.len()) =~= p.drop_last().subrange(k, k + n.len()));
            if p.last() != '/' {
                lemma_last_segment_shape(p);
                assert(p.last() == last_segment(p)[0]);
            }
            assert forall|j: int| k + n.len() <= j < p.len() implies p[j] == '/' || p[j] == '.' by {
                if j < p.len() - 1 {
                    assert(p[j] == p.drop_last()[j]);
                }
            }
        }
    } else if last_segment(p) == seq!['.', '.'] {
    } else {
        lemma_last_segment_shape(p);
        let n = last_segment(p);
        if n.len() == 0 {
            assert(p.last() == '/');
        }
        let k = p.len() - n.len();
        assert(p.subrange(k, k + n.len()) =~= n);
    }
}

/// The file name of a block path: its last `/`-separated component, as
/// `path_file_name` states it.
fn file_name_of(path: &str) -> (r: Option<String>)
    ensures
        match r {
            Some(s) => path_file_name(path@) == Some(s@),
            None => path_file_name(path@) is None,
        },
{
    let n = path.unicode_len();
    let mut end = n;
    assert(path@.subrange(0, n as int) =~= path@);
    loop
        invariant
            end <= n,
            n == path@.len(),
            path_file_name(path@) == path_file_name(path@.subrange(0, end as int)),
        decreases end,
    {
        if end == 0 {
            return None;
        }
        let ghost p = path@.subrange(0, end as int);
        assert(p.drop_last() =~= path@.subrange(0, end - 1));
        if path.get_char(end - 1) == '/' {
            end = end - 1;
            continue;
        }
        let mut start = end;
        while start > 0 && path.get_char(start - 1) != '/'
            invariant
                start <= end,
                end <= n,
                n == path@.len(),
                forall|k: int| start <= k < end ==> path@[k] != '/',
            decreases start,
        {
            start = start - 1;
        }
        proof {
            lemma_last_segment(p, start as int);
            assert(p.subrange(start as int, end as int) =~= path@.subrange(start as int, end as int));
        }
        let seg = path.substring_char(start, end);
        let len = end - start;
        if len == 1 && seg.get_char(0) == '.' {
            assert(seg@ =~= seq!['.']);
            end = end - 1;
            continue;
        }
        if len == 2 && seg.get_char(0) == '.' && seg.get_char(1) == '.' {
            assert(seg@ =~= seq!['.', '.']);
            return None;
        }
        assert(seg@ != seq!['.']) by {
            if seg@ == seq!['.'] {
                assert(seg@.len() == 1 && seg@[0] == '.');
            }
        }
        assert(seg@ != seq!['.', '.']) by {
            if seg@ == seq!['.', '.'] {
                assert(seg@.len() == 2 && seg@[0] == '.' && seg@[1] == '.');
            }
        }
        return Some(String::from_str(seg));
    }
}

/// The message for a block path without a file name.
pub open spec fn no_file_name_message(path: Seq<char>) -> Seq<char> {
    "Illegal block path, no file name found: "@ + path
}

/// Whether a block may hold decimals in the old, non-standard layout:
/// blocks whose file name sorts before `g` were written before the layout
/// changed. A path without a file name is an error.
pub fn is_possible_non_standard_decimal_block(block_full_path: &str) -> (r: Result<bool, ErrorCode>)
    ensures
        match path_file_name(block_full_path@) {
            Some(name) => r == Ok::<bool, ErrorCode>(str_lt(name, "g"@)),
            None => r matches Err(e) && e@ == (ErrorKind::StorageOther, no_file_name_message(block_full_path@)),
        },
{
    match file_name_of(block_full_path) {
        Some(file_name) => {
            proof { reveal_strlit("g"); }
            let s = file_name.as_str();
            if s.unicode_len() == 0 {
                return Ok(true);
            }
            let c = s.get_char(0);
            proof {
                let a = file_name@;
                let b = "g"@;
                assert(b.len() == 1 && b[0] == 'g');
                if a[0] == 'g' {
                    assert(str_lt(a.drop_first(), b.drop_first()) == false);
                }
            }
            Ok((c as u32) < ('g' as u32))
        },
        None => {
            let m = String::from_str("Illegal block path, no file name found: ");
            let m = m.concat(block_full_path);
            Err(ErrorCode::new(ErrorKind::StorageOther, m))
        },
    }
}

} // verus!
