//! The metadata that an aggregation attaches to each block it exchanges or
//! spills: which hash bucket the block belongs to and, for a spilled block,
//! where its data lies.

use vstd::prelude::*;

use core::ops::Range;

verus! {

/// The block holds the rows of one bucket.
pub const BUCKET_TYPE: usize = 1;

/// The block stands for rows spilled to storage.
pub const SPILLED_TYPE: usize = 2;

/// Kept a struct with a type tag, not an enum, so that the binary
/// serialization of old and new versions agree.
#[derive(Debug, PartialEq)]
pub struct AggregateSerdeMeta {
    pub typ: usize,
    pub bucket: isize,
    pub location: Option<String>,
    pub data_range: Option<Range<u64>>,
    pub columns_layout: Vec<usize>,
    /// Set for the payloads of the new aggregate hash table.
    pub is_agg_payload: bool,
    pub max_partition_count: usize,
}

impl AggregateSerdeMeta {
    /// The metadata of a block of one bucket.
    pub fn create(bucket: isize) -> (m: AggregateSerdeMeta)
        ensures
            m.typ == BUCKET_TYPE,
            m.bucket == bucket,
            m.location is None,
            m.data_range is None,
            m.columns_layout@.len() == 0,
            !m.is_agg_payload,
            m.max_partition_count == 0,
    {
        AggregateSerdeMeta {
            typ: BUCKET_TYPE,
            bucket,
            location: None,
            data_range: None,
            columns_layout: Vec::new(),
            is_agg_payload: false,
            max_partition_count: 0,
        }
    }

    /// The metadata of a bucket payload of the new aggregate hash table.
    pub fn create_agg_payload(bucket: isize, max_partition_count: usize) -> (m: AggregateSerdeMeta)
        ensures
            m.typ == BUCKET_TYPE,
            m.bucket == bucket,
            m.location is None,
            m.data_range is None,
            m.columns_layout@.len() == 0,
            m.is_agg_payload,
            m.max_partition_count == max_partition_count,
    {
        AggregateSerdeMeta {
            typ: BUCKET_TYPE,
            bucket,
            location: None,
            data_range: None,
            columns_layout: Vec::new(),
            is_agg_payload: true,
            max_partition_count,
        }
    }

    /// The metadata of a spilled bucket: the file, the byte range in it and
    /// the sizes of the serialized columns.
    pub fn create_spilled(bucket: isize, location: String, data_range: Range<u64>, columns_layout: Vec<usize>)
        -> (m: AggregateSerdeMeta)
        ensures
            m.typ == SPILLED_TYPE,
            m.bucket == bucket,
            m.location == Some(location),
            m.data_range == Some(data_range),
            m.columns_layout == columns_layout,
            !m.is_agg_payload,
            m.max_partition_count == 0,
    {
        AggregateSerdeMeta {
            typ: SPILLED_TYPE,
            bucket,
            columns_layout,
            location: Some(location),
            data_range: Some(data_range),
            is_agg_payload: false,
            max_partition_count: 0,
        }
    }

    pub open spec fn same_as(&self, other: &AggregateSerdeMeta) -> bool {
        &&& self.typ == other.typ
        &&& self.bucket == other.bucket
        &&& match (self.location, other.location) {
            (Some(a), Some(b)) => a@ == b@,
            (None, None) => true,
            _ => false,
        }
        &&& match (self.data_range, other.data_range) {
            (Some(a), Some(b)) => a.start == b.start && a.end == b.end,
            (None, None) => true,
            _ => false,
        }
        &&& self.columns_layout@ == other.columns_layout@
        &&& self.is_agg_payload == other.is_agg_payload
        &&& self.max_partition_count == other.max_partition_count
    }

    /// Whether two metadata are equal, field by field.
    pub fn equals(&self, other: &AggregateSerdeMeta) -> (b: bool)
        ensures
            b == self.same_as(other),
    {
        let same_location = match (&self.location, &other.location) {
            (Some(a), Some(b)) => a.eq(b),
            (None, None) => true,
            _ => false,
        };
        let same_range = match (&self.data_range, &other.data_range) {
            (Some(a), Some(b)) => a.start == b.start && a.end == b.end,
            (None, None) => true,
            _ => false,
        };
        self.typ == other.typ && self.bucket == other.bucket && same_location && same_range
            && same_usizes(&self.columns_layout, &other.columns_layout)
            && self.is_agg_payload == other.is_agg_payload
            && self.max_partition_count == other.max_partition_count
    }
}

impl AggregateSerdeMeta {
    /// A copy of the metadata, equal to it field by field.
    pub fn clone_self(&self) -> (r: AggregateSerdeMeta)
        ensures
            r.same_as(self),
    {
        let location = match &self.location {
            Some(l) => Some(l.clone()),
            None => None,
        };
        let data_range = match &self.data_range {
            Some(d) => Some(Range { start: d.start, end: d.end }),
            None => None,
        };
        let columns_layout = self.columns_layout.clone();
        assert(columns_layout@ =~= self.columns_layout@);
        AggregateSerdeMeta {
            typ: self.typ,
            bucket: self.bucket,
            location,
            data_range,
            columns_layout,
            is_agg_payload: self.is_agg_payload,
            max_partition_count: self.max_partition_count,
        }
    }
}

fn same_usizes(a: &Vec<usize>, b: &Vec<usize>) -> (r: bool)
    ensures
        r == (a@ == b@),
{
    if a.len() != b.len() {
        return false;
    }
    let mut i: usize = 0;
    while i < a.len()
        invariant
            a@.len() == b@.len(),
            i <= a@.len(),
            forall|k: int| 0 <= k < i ==> a@[k] == b@[k],
        decreases a@.len() - i,
    {
        if a[i] != b[i] {
            return false;
        }
        i = i + 1;
    }
    assert(a@ =~= b@);
    true
}


/// Equality of metadata is an equivalence: every metadata equals itself,
/// in both directions, and through a third.
pub proof fn law_equals_is_equivalence(a: AggregateSerdeMeta, b: AggregateSerdeMeta, c: AggregateSerdeMeta)
    ensures
        a.same_as(&a),
        a.same_as(&b) ==> b.same_as(&a),
        a.same_as(&b) && b.same_as(&c) ==> a.same_as(&c),
{
}

} // verus!
