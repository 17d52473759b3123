//! The set-returning functions over JSONB values: `FLATTEN`, `JSON_EACH`,
//! `JSON_ARRAY_ELEMENTS` and `JSON_PATH_QUERY`.
//!
//! The JSONB encoding itself belongs to the `jsonb` crate: each of its
//! functions that the logic calls has a name for its result below, and the
//! logic here is verified over those names.

use vstd::prelude::*;

use jsonb::jsonpath::{parse_json_path, Mode, Selector};

use crate::jsonb_binary::{jsonb_check, jsonb_wf};
use crate::text::{decimal, lowercase, to_lowercase, u64_to_decimal};

verus! {

/// What `jsonb::array_length` gives for a value: the length of an array.
pub uninterp spec fn jsonb_array_length(value: Seq<u8>) -> Option<usize>;

/// What `jsonb::get_by_index` gives: the element of an array at an index.
pub uninterp spec fn jsonb_get_by_index(value: Seq<u8>, index: usize) -> Option<Seq<u8>>;

/// What `jsonb::object_keys` gives: the keys of an object, as an array.
pub uninterp spec fn jsonb_object_keys(value: Seq<u8>) -> Option<Seq<u8>>;

/// What `jsonb::as_str` gives: the text of a string value.
pub uninterp spec fn jsonb_as_str(value: Seq<u8>) -> Option<Seq<char>>;

/// What `jsonb::get_by_name` gives: the value of an object under a key.
pub uninterp spec fn jsonb_get_by_name(value: Seq<u8>, name: Seq<char>, ignore_case: bool) -> Option<Seq<u8>>;

/// What `jsonb::array_values` gives: the elements of an array.
pub uninterp spec fn jsonb_array_values(value: Seq<u8>) -> Option<Seq<Seq<u8>>>;

/// What `jsonb::object_each` gives: the key and value bytes of each field
/// of an object.
pub uninterp spec fn jsonb_object_each(value: Seq<u8>) -> Option<Seq<(Seq<u8>, Seq<u8>)>>;

/// What `String::from_utf8_lossy` gives for some bytes.
pub uninterp spec fn utf8_lossy(bytes: Seq<u8>) -> Seq<char>;

/// `jsonb::array_length`. Its result is named by `jsonb_array_length`.
/// It reads the binary encoding without checking it, so it is called only on
/// well-formed binary JSONB (`jsonb_wf`), on which it reads within bounds.
#[verifier::external_body]
fn array_length(value: &[u8]) -> (r: Option<usize>)
    requires
        jsonb_wf(value@),
    ensures
        r == jsonb_array_length(value@),
{
    jsonb::array_length(value)
}

/// `jsonb::get_by_index`, named by `jsonb_get_by_index`; called only on
/// well-formed binary JSONB. An index below the length in the array's
/// header finds an element; the element is a well-formed value: the nested
/// value's own bytes, or a scalar value built from its entry and data.
#[verifier::external_body]
fn get_by_index(value: &[u8], index: usize) -> (r: Option<Vec<u8>>)
    requires
        jsonb_wf(value@),
    ensures
        match r {
            Some(v) => jsonb_get_by_index(value@, index) == Some(v@),
            None => jsonb_get_by_index(value@, index) is None,
        },
        (jsonb_array_length(value@) matches Some(n) && index < n) ==> r is Some,
        r matches Some(v) ==> jsonb_wf(v@),
{
    jsonb::get_by_index(value, index)
}

/// `jsonb::object_keys`, named by `jsonb_object_keys`; called only on
/// well-formed binary JSONB. The keys come as a well-formed array: a header
/// for as many elements, the keys' text entries, then their text. So each
/// element that `get_by_index` finds in it is a text, which `as_str` reads.
#[verifier::external_body]
fn object_keys(value: &[u8]) -> (r: Option<Vec<u8>>)
    requires
        jsonb_wf(value@),
    ensures
        match r {
            Some(v) => jsonb_object_keys(value@) == Some(v@),
            None => jsonb_object_keys(value@) is None,
        },
        r matches Some(v) ==> jsonb_wf(v@),
        r matches Some(v) ==> forall|i: usize|
            (#[trigger] jsonb_get_by_index(v@, i)) matches Some(e) ==> jsonb_as_str(e) is Some,
{
    jsonb::object_keys(value)
}

/// `jsonb::as_str`, named by `jsonb_as_str`; called only on well-formed
/// binary JSONB. The borrowed or owned text is handed back as a `String`.
#[verifier::external_body]
fn as_str(value: &[u8]) -> (r: Option<String>)
    requires
        jsonb_wf(value@),
    ensures
        match r {
            Some(s) => jsonb_as_str(value@) == Some(s@),
            None => jsonb_as_str(value@) is None,
        },
{
    jsonb::as_str(value).map(|s| s.into_owned())
}

/// `jsonb::get_by_name`, named by `jsonb_get_by_name`; called only on
/// well-formed binary JSONB. The field found is a well-formed value, as for
/// `get_by_index`. It compares the name with each key of the object in
/// turn, so a name that is the text of one of the keys `object_keys` lists
/// finds a field (exact matching here; with `ignore_case` a field is found
/// all the same, but that is not stated).
#[verifier::external_body]
fn get_by_name(value: &[u8], name: &str, ignore_case: bool) -> (r: Option<Vec<u8>>)
    requires
        jsonb_wf(value@),
    ensures
        match r {
            Some(v) => jsonb_get_by_name(value@, name@, ignore_case) == Some(v@),
            None => jsonb_get_by_name(value@, name@, ignore_case) is None,
        },
        r matches Some(v) ==> jsonb_wf(v@),
        forall|keys: Seq<u8>, i: usize|
            (!ignore_case && jsonb_object_keys(value@) == Some(keys)
            && ((#[trigger] jsonb_get_by_index(keys, i)) matches Some(e) && jsonb_as_str(e) == Some(name@)))
            ==> r is Some,
{
    jsonb::get_by_name(value, name, ignore_case)
}

/// `jsonb::array_values`, named by `jsonb_array_values`; called only on
/// well-formed binary JSONB.
#[verifier::external_body]
fn array_values(value: &[u8]) -> (r: Option<Vec<Vec<u8>>>)
    requires
        jsonb_wf(value@),
    ensures
        r.deep_view() == jsonb_array_values(value@),
{
    jsonb::array_values(value)
}

/// `jsonb::object_each`, named by `jsonb_object_each`; called only on
/// well-formed binary JSONB.
#[verifier::external_body]
fn object_each(value: &[u8]) -> (r: Option<Vec<(Vec<u8>, Vec<u8>)>>)
    requires
        jsonb_wf(value@),
    ensures
        r.deep_view() == jsonb_object_each(value@),
{
    jsonb::object_each(value)
}

/// `String::from_utf8_lossy`, named by `utf8_lossy`.
#[verifier::external_body]
fn from_utf8_lossy(bytes: &[u8]) -> (r: String)
    ensures
        r@ == utf8_lossy(bytes@),
{
    String::from_utf8_lossy(bytes).into_owned()
}

/// Which containers `FLATTEN` expands.
#[derive(Debug, Clone, Copy, PartialEq, Eq, Structural)]
pub enum FlattenMode {
    Both,
    Object,
    Array,
}

/// The settings of one `FLATTEN` call.
#[derive(Debug, Clone, Copy, PartialEq, Eq, Structural)]
pub struct FlattenGenerator {
    /// Whether an input that expands to nothing still gives one row.
    pub outer: bool,
    /// Whether expanded values are expanded in turn.
    pub recursive: bool,
    pub mode: FlattenMode,
}

/// One row of `FLATTEN`: the key (objects) or index (arrays) of the
/// element, its path from the input, its value, and the container it sits in.
pub struct FlattenRow {
    pub key: Option<String>,
    pub path: String,
    pub index: Option<u64>,
    pub value: Vec<u8>,
    pub this: Vec<u8>,
}

/// A row as the contracts speak of it.
pub struct FlattenRowView {
    pub key: Option<Seq<char>>,
    pub path: Seq<char>,
    pub index: Option<u64>,
    pub value: Seq<u8>,
    pub this: Seq<u8>,
}

impl View for FlattenRow {
    type V = FlattenRowView;

    open spec fn view(&self) -> FlattenRowView {
        FlattenRowView {
            key: match self.key {
                Some(k) => Some(k@),
                None => None,
            },
            path: self.path@,
            index: self.index,
            value: self.value@,
            this: self.this@,
        }
    }
}

pub open spec fn rows_view(rows: Seq<FlattenRow>) -> Seq<FlattenRowView> {
    rows.map_values(|r: FlattenRow| r@)
}

/// The path of element `index` of the array at `path`: `path[index]`.
pub open spec fn index_path(path: Seq<char>, index: nat) -> Seq<char> {
    path + "["@ + decimal(index) + "]"@
}

/// The path of field `name` of the object at `path`: `path.name`, or the
/// bare name at the top.
pub open spec fn field_path(path: Seq<char>, name: Seq<char>) -> Seq<char> {
    if path.len() > 0 {
        path + "."@ + name
    } else {
        name
    }
}

/// The path of an object's field joins the object's path and the key with
/// one dot, and is the bare key at the top: the text before the key is the
/// parent path and a single `.`, nothing else.
pub proof fn law_field_path_joins_with_a_dot(path: Seq<char>, name: Seq<char>)
    ensures
        path.len() > 0 ==> field_path(path, name) == path + seq!['.'] + name,
        path.len() > 0 ==> field_path(path, name).len() == path.len() + 1 + name.len(),
        path.len() > 0 ==> field_path(path, name)[path.len() as int] == '.',
        path.len() == 0 ==> field_path(path, name) == name,
        field_path(path, name).subrange(field_path(path, name).len() - name.len(), field_path(path, name).len() as int) == name,
{
    reveal_strlit(".");
    let f = field_path(path, name);
    assert(f.subrange(f.len() - name.len(), f.len() as int) =~= name);
}

/// The path of an array's element is the array's path followed by the
/// index in decimal between square brackets.
pub proof fn law_index_path_brackets_the_index(path: Seq<char>, index: nat)
    ensures
        index_path(path, index) == path + seq!['['] + decimal(index) + seq![']'],
        index_path(path, index)[path.len() as int] == '[',
        index_path(path, index).last() == ']',
{
    reveal_strlit("[");
    reveal_strlit("]");
    assert(index_path(path, index) =~= path + seq!['['] + decimal(index) + seq![']']);
}

/// The rows of `value` at `path`. A value is expanded at most `depth` levels
/// below this one; `generate` allows as many levels as the input has bytes,
/// which no JSON value reaches.
pub open spec fn flatten_rows(g: FlattenGenerator, value: Seq<u8>, path: Seq<char>, depth: nat) -> Seq<FlattenRowView>
    decreases depth, 2nat, 0nat,
{
    match g.mode {
        FlattenMode::Object => object_rows(g, value, path, depth),
        FlattenMode::Array => array_rows(g, value, path, depth),
        FlattenMode::Both => array_rows(g, value, path, depth) + object_rows(g, value, path, depth),
    }
}

/// The rows of an array's elements, with the rows of their own elements
/// after each when the expansion is recursive.
pub open spec fn array_rows(g: FlattenGenerator, value: Seq<u8>, path: Seq<char>, depth: nat) -> Seq<FlattenRowView>
    decreases depth, 1nat, 0nat,
{
    match jsonb_array_length(value) {
        Some(n) => array_rows_upto(g, value, path, depth, n as nat),
        None => Seq::empty(),
    }
}

/// The rows of the first `k` elements of an array.
pub open spec fn array_rows_upto(g: FlattenGenerator, value: Seq<u8>, path: Seq<char>, depth: nat, k: nat) -> Seq<FlattenRowView>
    decreases depth, 0nat, k,
{
    if k == 0 {
        Seq::empty()
    } else {
        let i = (k - 1) as nat;
        let before = array_rows_upto(g, value, path, depth, i);
        let inner = index_path(path, i);
        match jsonb_get_by_index(value, i as usize) {
            Some(elem) => {
                let row = FlattenRowView { key: None, path: inner, index: Some(i as u64), value: elem, this: value };
                before.push(row) + if g.recursive && depth > 0 {
                    flatten_rows(g, elem, inner, (depth - 1) as nat)
                } else {
                    Seq::empty()
                }
            },
            None => before,
        }
    }
}

/// The rows of an object's fields, in the order of its keys, with the rows
/// of their own elements after each when the expansion is recursive.
pub open spec fn object_rows(g: FlattenGenerator, value: Seq<u8>, path: Seq<char>, depth: nat) -> Seq<FlattenRowView>
    decreases depth, 1nat, 0nat,
{
    match jsonb_object_keys(value) {
        Some(keys) => match jsonb_array_length(keys) {
            Some(n) => object_rows_upto(g, value, keys, path, depth, n as nat),
            None => Seq::empty(),
        },
        None => Seq::empty(),
    }
}

/// The rows of the first `k` keys of an object.
pub open spec fn object_rows_upto(
    g: FlattenGenerator,
    value: Seq<u8>,
    keys: Seq<u8>,
    path: Seq<char>,
    depth: nat,
    k: nat,
) -> Seq<FlattenRowView>
    decreases depth, 0nat, k,
{
    if k == 0 {
        Seq::empty()
    } else {
        let i = (k - 1) as nat;
        let before = object_rows_upto(g, value, keys, path, depth, i);
        match jsonb_get_by_index(keys, i as usize) {
            Some(key) => match jsonb_as_str(key) {
                Some(name) => match jsonb_get_by_name(value, name, false) {
                    Some(elem) => {
                        let inner = field_path(path, name);
                        let row = FlattenRowView { key: Some(name), path: inner, index: None, value: elem, this: value };
                        before.push(row) + if g.recursive && depth > 0 {
                            flatten_rows(g, elem, inner, (depth - 1) as nat)
                        } else {
                            Seq::empty()
                        }
                    },
                    None => before,
                },
                None => before,
            },
            None => before,
        }
    }
}

/// Expanding `value` never meets an object whose key is not a text or whose
/// field cannot be found by its key, down to `depth` levels below it.
pub open spec fn flattens(g: FlattenGenerator, value: Seq<u8>, depth: nat) -> bool
    decreases depth, 2nat, 0nat,
{
    match g.mode {
        FlattenMode::Object => object_flattens(g, value, depth),
        FlattenMode::Array => array_flattens(g, value, depth),
        FlattenMode::Both => array_flattens(g, value, depth) && object_flattens(g, value, depth),
    }
}

pub open spec fn array_flattens(g: FlattenGenerator, value: Seq<u8>, depth: nat) -> bool
    decreases depth, 1nat, 0nat,
{
    match jsonb_array_length(value) {
        Some(n) => array_flattens_upto(g, value, depth, n as nat),
        None => true,
    }
}

pub open spec fn array_flattens_upto(g: FlattenGenerator, value: Seq<u8>, depth: nat, k: nat) -> bool
    decreases depth, 0nat, k,
{
    if k == 0 {
        true
    } else {
        &&& array_flattens_upto(g, value, depth, (k - 1) as nat)
        &&& match jsonb_get_by_index(value, (k - 1) as usize) {
            Some(elem) => g.recursive && depth > 0 ==> flattens(g, elem, (depth - 1) as nat),
            None => true,
        }
    }
}

pub open spec fn object_flattens(g: FlattenGenerator, value: Seq<u8>, depth: nat) -> bool
    decreases depth, 1nat, 0nat,
{
    match jsonb_object_keys(value) {
        Some(keys) => match jsonb_array_length(keys) {
            Some(n) => object_flattens_upto(g, value, keys, depth, n as nat),
            None => true,
        },
        None => true,
    }
}

/// The field of key `i`: found when the key is a text naming a field.
pub open spec fn object_field(value: Seq<u8>, keys: Seq<u8>, i: nat) -> Option<Seq<u8>> {
    match jsonb_get_by_index(keys, i as usize) {
        Some(key) => match jsonb_as_str(key) {
            Some(name) => jsonb_get_by_name(value, name, false),
            None => None,
        },
        None => None,
    }
}

pub open spec fn object_flattens_upto(g: FlattenGenerator, value: Seq<u8>, keys: Seq<u8>, depth: nat, k: nat) -> bool
    decreases depth, 0nat, k,
{
    if k == 0 {
        true
    } else {
        &&& object_flattens_upto(g, value, keys, depth, (k - 1) as nat)
        &&& match jsonb_get_by_index(keys, (k - 1) as usize) {
            Some(key) => match jsonb_as_str(key) {
                Some(name) => match jsonb_get_by_name(value, name, false) {
                    Some(elem) => g.recursive && depth > 0 ==> flattens(g, elem, (depth - 1) as nat),
                    None => false,
                },
                None => false,
            },
            None => true,
        }
    }
}

proof fn lemma_array_flattens_upto(g: FlattenGenerator, value: Seq<u8>, depth: nat, k: nat, i: nat)
    requires
        array_flattens_upto(g, value, depth, k),
        i < k,
    ensures
        match jsonb_get_by_index(value, i as usize) {
            Some(elem) => g.recursive && depth > 0 ==> flattens(g, elem, (depth - 1) as nat),
            None => true,
        },
    decreases k,
{
    if i + 1 < k {
        lemma_array_flattens_upto(g, value, depth, (k - 1) as nat, i);
    }
}

proof fn lemma_object_flattens_upto(g: FlattenGenerator, value: Seq<u8>, keys: Seq<u8>, depth: nat, k: nat, i: nat)
    requires
        object_flattens_upto(g, value, keys, depth, k),
        i < k,
    ensures
        match jsonb_get_by_index(keys, i as usize) {
            Some(key) => match jsonb_as_str(key) {
                Some(name) => match jsonb_get_by_name(value, name, false) {
                    Some(elem) => g.recursive && depth > 0 ==> flattens(g, elem, (depth - 1) as nat),
                    None => false,
                },
                None => false,
            },
            None => true,
        },
    decreases k,
{
    if i + 1 < k {
        lemma_object_flattens_upto(g, value, keys, depth, (k - 1) as nat, i);
    }
}

impl FlattenGenerator {
    pub fn create(outer: bool, recursive: bool, mode: FlattenMode) -> (g: FlattenGenerator)
        ensures
            g == (FlattenGenerator { outer, recursive, mode }),
    {
        FlattenGenerator { outer, recursive, mode }
    }
}

/// `path[index]`.
fn index_path_text(path: &str, index: usize) -> (r: String)
    ensures
        r@ == index_path(path@, index as nat),
{
    let digits = u64_to_decimal(index as u64);
    let mut r = String::from_str(path);
    r.append("[");
    r.append(digits.as_str());
    r.append("]");
    r
}

/// `path.name`, or the bare name at the top.
fn field_path_text(path: &str, name: &str) -> (r: String)
    ensures
        r@ == field_path(path@, name@),
{
    if path.unicode_len() > 0 {
        let mut r = String::from_str(path);
        r.append(".");
        r.append(name);
        r
    } else {
        String::from_str(name)
    }
}

proof fn lemma_rows_view_push(rows: Seq<FlattenRow>, row: FlattenRow)
    ensures
        rows_view(rows.push(row)) == rows_view(rows).push(row@),
{
    assert(rows_view(rows.push(row)) =~= rows_view(rows).push(row@));
}

impl FlattenGenerator {
    /// Appends the rows of `input` at `path` to `rows`.
    pub fn flatten(&self, input: &[u8], path: &str, rows: &mut Vec<FlattenRow>, depth: usize)
        requires
            jsonb_wf(input@),
            flattens(*self, input@, depth as nat),
        ensures
            rows_view(final(rows)@) == rows_view(old(rows)@) + flatten_rows(*self, input@, path@, depth as nat),
        decreases depth, 2nat,
    {
        match self.mode {
            FlattenMode::Object => {
                self.flatten_object(input, path, rows, depth);
            },
            FlattenMode::Array => {
                self.flatten_array(input, path, rows, depth);
            },
            FlattenMode::Both => {
                let ghost start = rows_view(rows@);
                self.flatten_array(input, path, rows, depth);
                self.flatten_object(input, path, rows, depth);
                assert(rows_view(rows@) =~= start + (array_rows(*self, input@, path@, depth as nat)
                    + object_rows(*self, input@, path@, depth as nat)));
            },
        }
    }

    /// Appends a row for each element of an array (and, when recursive, the
    /// rows of the element after it).
    pub fn flatten_array(&self, input: &[u8], path: &str, rows: &mut Vec<FlattenRow>, depth: usize)
        requires
            jsonb_wf(input@),
            array_flattens(*self, input@, depth as nat),
        ensures
            rows_view(final(rows)@) == rows_view(old(rows)@) + array_rows(*self, input@, path@, depth as nat),
        decreases depth, 1nat,
    {
        let ghost start = rows_view(rows@);
        match array_length(input) {
            Some(len) => {
                let mut i: usize = 0;
                while i < len
                    invariant
                        i <= len,
                        jsonb_array_length(input@) == Some(len),
                        jsonb_wf(input@),
                        array_flattens(*self, input@, depth as nat),
                        rows_view(rows@) == start + array_rows_upto(*self, input@, path@, depth as nat, i as nat),
                    decreases len - i,
                {
                    proof {
                        lemma_array_flattens_upto(*self, input@, depth as nat, len as nat, i as nat);
                    }
                    let inner = index_path_text(path, i);
                    let ghost before = rows@;
                    match get_by_index(input, i) {
                        Some(val) => {
                            let row = FlattenRow {
                                key: None,
                                path: inner.clone(),
                                index: Some(i as u64),
                                value: vstd::slice::slice_to_vec(val.as_slice()),
                                this: vstd::slice::slice_to_vec(input),
                            };
                            let ghost expected = FlattenRowView {
                                key: None,
                                path: index_path(path@, i as nat),
                                index: Some(i as u64),
                                value: val@,
                                this: input@,
                            };
                            assert(row@ == expected);
                            rows.push(row);
                            proof {
                                lemma_rows_view_push(before, row);
                            }
                            let ghost tail = if self.recursive && depth > 0 {
                                flatten_rows(*self, val@, inner@, (depth - 1) as nat)
                            } else {
                                Seq::<FlattenRowView>::empty()
                            };
                            assert(jsonb_get_by_index(input@, i) == Some(val@));
                            assert(array_rows_upto(*self, input@, path@, depth as nat, (i + 1) as nat)
                                == array_rows_upto(*self, input@, path@, depth as nat, i as nat).push(expected) + tail);
                            if self.recursive && depth > 0 {
                                self.flatten(val.as_slice(), inner.as_str(), rows, depth - 1);
                            }
                            assert(rows_view(rows@) =~= start + array_rows_upto(
                                *self, input@, path@, depth as nat, (i + 1) as nat));
                        },
                        None => {},
                    }
                    i = i + 1;
                }
            },
            None => {},
        }
        assert(rows_view(rows@) =~= start + array_rows(*self, input@, path@, depth as nat));
    }

    /// Appends a row for each field of an object, in the order of its keys
    /// (and, when recursive, the rows of the field's value after it).
    pub fn flatten_object(&self, input: &[u8], path: &str, rows: &mut Vec<FlattenRow>, depth: usize)
        requires
            jsonb_wf(input@),
            object_flattens(*self, input@, depth as nat),
        ensures
            rows_view(final(rows)@) == rows_view(old(rows)@) + object_rows(*self, input@, path@, depth as nat),
        decreases depth, 1nat,
    {
        let ghost start = rows_view(rows@);
        match object_keys(input) {
            Some(keys) => match array_length(keys.as_slice()) {
                Some(len) => {
                    let mut i: usize = 0;
                    while i < len
                        invariant
                            i <= len,
                            jsonb_object_keys(input@) == Some(keys@),
                            jsonb_array_length(keys@) == Some(len),
                            jsonb_wf(input@),
                            jsonb_wf(keys@),
                            object_flattens(*self, input@, depth as nat),
                            rows_view(rows@) == start + object_rows_upto(
                                *self, input@, keys@, path@, depth as nat, i as nat),
                        decreases len - i,
                    {
                        proof {
                            lemma_object_flattens_upto(*self, input@, keys@, depth as nat, len as nat, i as nat);
                        }
                        let ghost before = rows@;
                        match get_by_index(keys.as_slice(), i) {
                            Some(key) => match as_str(key.as_slice()) {
                                Some(name) => match get_by_name(input, name.as_str(), false) {
                                    Some(val) => {
                                        let inner = field_path_text(path, name.as_str());
                                        let row = FlattenRow {
                                            key: Some(name.clone()),
                                            path: inner.clone(),
                                            index: None,
                                            value: vstd::slice::slice_to_vec(val.as_slice()),
                                            this: vstd::slice::slice_to_vec(input),
                                        };
                                        let ghost expected = FlattenRowView {
                                            key: Some(name@),
                                            path: field_path(path@, name@),
                                            index: None,
                                            value: val@,
                                            this: input@,
                                        };
                                        assert(row@ == expected);
                                        rows.push(row);
                                        proof {
                                            lemma_rows_view_push(before, row);
                                        }
                                        let ghost tail = if self.recursive && depth > 0 {
                                            flatten_rows(*self, val@, inner@, (depth - 1) as nat)
                                        } else {
                                            Seq::<FlattenRowView>::empty()
                                        };
                                        assert(object_rows_upto(*self, input@, keys@, path@, depth as nat, (i + 1) as nat)
                                            == object_rows_upto(*self, input@, keys@, path@, depth as nat, i as nat)
                                                .push(expected) + tail);
                                        if self.recursive && depth > 0 {
                                            self.flatten(val.as_slice(), inner.as_str(), rows, depth - 1);
                                        }
                                        assert(rows_view(rows@) =~= start + object_rows_upto(
                                            *self, input@, keys@, path@, depth as nat, (i + 1) as nat));
                                    },
                                    None => {
                                        assert(object_rows_upto(*self, input@, keys@, path@, depth as nat, (i + 1) as nat)
                                            == object_rows_upto(*self, input@, keys@, path@, depth as nat, i as nat));
                                    },
                                },
                                None => {
                                    assert(object_rows_upto(*self, input@, keys@, path@, depth as nat, (i + 1) as nat)
                                        == object_rows_upto(*self, input@, keys@, path@, depth as nat, i as nat));
                                },
                            },
                            None => {
                                assert(object_rows_upto(*self, input@, keys@, path@, depth as nat, (i + 1) as nat)
                                    == object_rows_upto(*self, input@, keys@, path@, depth as nat, i as nat));
                            },
                        }
                        i = i + 1;
                    }
                },
                None => {},
            },
            None => {},
        }
        assert(rows_view(rows@) =~= start + object_rows(*self, input@, path@, depth as nat));
    }
}

impl FlattenGenerator {
    /// Whether expanding `input` down to `depth` levels below it meets only
    /// objects whose keys are texts naming their fields.
    fn check(&self, input: &[u8], depth: usize) -> (b: bool)
        requires
            jsonb_wf(input@),
        ensures
            b == flattens(*self, input@, depth as nat),
            b,
        decreases depth, 2nat,
    {
        match self.mode {
            FlattenMode::Object => self.check_object(input, depth),
            FlattenMode::Array => self.check_array(input, depth),
            FlattenMode::Both => self.check_array(input, depth) && self.check_object(input, depth),
        }
    }

    fn check_array(&self, input: &[u8], depth: usize) -> (b: bool)
        requires
            jsonb_wf(input@),
        ensures
            b == array_flattens(*self, input@, depth as nat),
            b,
        decreases depth, 1nat,
    {
        match array_length(input) {
            Some(len) => {
                let mut i: usize = 0;
                while i < len
                    invariant
                        i <= len,
                        jsonb_array_length(input@) == Some(len),
                        jsonb_wf(input@),
                        array_flattens_upto(*self, input@, depth as nat, i as nat),
                    decreases len - i,
                {
                    match get_by_index(input, i) {
                        Some(val) => {
                            if self.recursive && depth > 0 {
                                if !self.check(val.as_slice(), depth - 1) {
                                    proof {
                                        if array_flattens_upto(*self, input@, depth as nat, len as nat) {
                                            lemma_array_flattens_upto(*self, input@, depth as nat, len as nat, i as nat);
                                        }
                                    }
                                    return false;
                                }
                            }
                        },
                        None => {},
                    }
                    i = i + 1;
                }
                true
            },
            None => true,
        }
    }

    fn check_object(&self, input: &[u8], depth: usize) -> (b: bool)
        requires
            jsonb_wf(input@),
        ensures
            b == object_flattens(*self, input@, depth as nat),
            b,
        decreases depth, 1nat,
    {
        match object_keys(input) {
            Some(keys) => match array_length(keys.as_slice()) {
                Some(len) => {
                    let mut i: usize = 0;
                    while i < len
                        invariant
                            i <= len,
                            jsonb_object_keys(input@) == Some(keys@),
                            jsonb_array_length(keys@) == Some(len),
                            jsonb_wf(input@),
                            jsonb_wf(keys@),
                            object_flattens_upto(*self, input@, keys@, depth as nat, i as nat),
                            forall|k: usize| (#[trigger] jsonb_get_by_index(keys@, k)) matches Some(e)
                                ==> jsonb_as_str(e) is Some,
                        decreases len - i,
                    {
                        let ok = match get_by_index(keys.as_slice(), i) {
                            Some(key) => match as_str(key.as_slice()) {
                                Some(name) => match get_by_name(input, name.as_str(), false) {
                                    Some(val) => !(self.recursive && depth > 0) || self.check(val.as_slice(), depth - 1),
                                    None => false,
                                },
                                None => false,
                            },
                            None => true,
                        };
                        assert(ok);
                        if !ok {
                            proof {
                                if object_flattens_upto(*self, input@, keys@, depth as nat, len as nat) {
                                    lemma_object_flattens_upto(*self, input@, keys@, depth as nat, len as nat, i as nat);
                                }
                            }
                            return false;
                        }
                        i = i + 1;
                    }
                    true
                },
                None => true,
            },
            None => true,
        }
    }
}

/// The six columns `FLATTEN` gives for one input row: `seq`, `key`,
/// `path`, `index`, `value` and `this`, each with one entry per output row.
pub struct FlattenColumns {
    pub seq: Vec<Option<u64>>,
    pub key: Vec<Option<String>>,
    pub path: Vec<Option<String>>,
    pub index: Vec<Option<u64>>,
    pub value: Vec<Option<Vec<u8>>>,
    pub this: Vec<Option<Vec<u8>>>,
}

pub struct FlattenColumnsView {
    pub seq: Seq<Option<u64>>,
    pub key: Seq<Option<Seq<char>>>,
    pub path: Seq<Option<Seq<char>>>,
    pub index: Seq<Option<u64>>,
    pub value: Seq<Option<Seq<u8>>>,
    pub this: Seq<Option<Seq<u8>>>,
}

pub open spec fn opt_text(o: Option<String>) -> Option<Seq<char>> {
    match o {
        Some(s) => Some(s@),
        None => None,
    }
}

pub open spec fn opt_bytes(o: Option<Vec<u8>>) -> Option<Seq<u8>> {
    match o {
        Some(v) => Some(v@),
        None => None,
    }
}

impl View for FlattenColumns {
    type V = FlattenColumnsView;

    open spec fn view(&self) -> FlattenColumnsView {
        FlattenColumnsView {
            seq: self.seq@,
            key: self.key@.map_values(|k: Option<String>| opt_text(k)),
            path: self.path@.map_values(|p: Option<String>| opt_text(p)),
            index: self.index@,
            value: self.value@.map_values(|v: Option<Vec<u8>>| opt_bytes(v)),
            this: self.this@.map_values(|v: Option<Vec<u8>>| opt_bytes(v)),
        }
    }
}

/// Whether the plan reads column `column` (numbered from 1): when it names
/// no column at all, it reads every one.
pub open spec fn column_needed(params: Seq<i64>, column: i64) -> bool {
    params.len() == 0 || params.contains(column)
}

/// An input value (as `generate` expands it) is empty, or is well-formed
/// binary JSONB whose expansion never meets an object whose key is not a
/// text or whose field cannot be found by its key.
pub open spec fn input_flattens(g: FlattenGenerator, input: Seq<u8>) -> bool {
    input.len() > 0 ==> jsonb_wf(input) && flattens(g, input, input.len())
}

/// The rows of one input value: none for an empty input.
pub open spec fn generated_rows(g: FlattenGenerator, input: Seq<u8>, path: Seq<char>) -> Seq<FlattenRowView> {
    if input.len() > 0 {
        flatten_rows(g, input, path, input.len())
    } else {
        Seq::empty()
    }
}

/// The columns of one input row. With `outer`, an input that expands to
/// nothing gives one row that holds only its `seq`. A column the plan does
/// not read holds a placeholder: an empty text or value, or index 0.
pub open spec fn generate_columns(
    g: FlattenGenerator,
    seq: u64,
    input: Seq<u8>,
    path: Seq<char>,
    params: Seq<i64>,
) -> FlattenColumnsView {
    let rows = generated_rows(g, input, path);
    if g.outer && rows.len() == 0 {
        FlattenColumnsView {
            seq: seq![Some(seq)],
            key: seq![None],
            path: seq![None],
            index: seq![None],
            value: seq![None],
            this: seq![None],
        }
    } else {
        FlattenColumnsView {
            seq: Seq::new(rows.len(), |j: int| Some(seq)),
            key: Seq::new(rows.len(), |j: int|
                if column_needed(params, 2) { rows[j].key } else { Some(Seq::<char>::empty()) }),
            path: Seq::new(rows.len(), |j: int|
                if column_needed(params, 3) { Some(rows[j].path) } else { Some(Seq::<char>::empty()) }),
            index: Seq::new(rows.len(), |j: int|
                if column_needed(params, 4) { rows[j].index } else { Some(0u64) }),
            value: Seq::new(rows.len(), |j: int|
                if column_needed(params, 5) { Some(rows[j].value) } else { Some(Seq::<u8>::empty()) }),
            this: Seq::new(rows.len(), |j: int|
                if column_needed(params, 6) { Some(rows[j].this) } else { Some(Seq::<u8>::empty()) }),
        }
    }
}

fn contains_param(params: &[i64], column: i64) -> (r: bool)
    ensures
        r == params@.contains(column),
{
    let mut k: usize = 0;
    while k < params.len()
        invariant
            k <= params@.len(),
            forall|j: int| 0 <= j < k ==> params@[j] != column,
        decreases params@.len() - k,
    {
        if params[k] == column {
            assert(params@[k as int] == column);
            return true;
        }
        k = k + 1;
    }
    false
}

fn needed(params: &[i64], column: i64) -> (r: bool)
    ensures
        r == column_needed(params@, column),
{
    params.len() == 0 || contains_param(params, column)
}

fn opt_string_copy(o: &Option<String>) -> (r: Option<String>)
    ensures
        opt_text(r) == opt_text(*o),
{
    match o {
        Some(s) => Some(s.clone()),
        None => None,
    }
}

impl FlattenGenerator {
    /// The columns of one input row, numbered `seq`; `path` is the JSON path
    /// that picked `input` out of the row's value, or empty.
    pub fn generate(&self, seq: u64, input: &[u8], path: &str, params: &[i64]) -> (c: FlattenColumns)
        requires
            input_flattens(*self, input@),
        ensures
            c@ == generate_columns(*self, seq, input@, path@, params@),
    {
        let mut rows: Vec<FlattenRow> = Vec::new();
        if input.len() > 0 {
            self.flatten(input, path, &mut rows, input.len());
            assert(rows_view(rows@) =~= flatten_rows(*self, input@, path@, input@.len()));
        } else {
            assert(rows_view(rows@) =~= Seq::<FlattenRowView>::empty());
        }
        let ghost expected = generated_rows(*self, input@, path@);
        if self.outer && rows.len() == 0 {
            let c = FlattenColumns {
                seq: vec![Some(seq)],
                key: vec![None],
                path: vec![None],
                index: vec![None],
                value: vec![None],
                this: vec![None],
            };
            assert(rows_view(rows@).len() == 0);
            assert(c@.seq =~= seq![Some(seq)]);
            assert(c@.index =~= seq![None::<u64>]);
            assert(c@.key =~= seq![None::<Seq<char>>]);
            assert(c@.path =~= seq![None::<Seq<char>>]);
            assert(c@.value =~= seq![None::<Seq<u8>>]);
            assert(c@.this =~= seq![None::<Seq<u8>>]);
            return c;
        }
        let need_key = needed(params, 2);
        let need_path = needed(params, 3);
        let need_index = needed(params, 4);
        let need_value = needed(params, 5);
        let need_this = needed(params, 6);
        let mut c = FlattenColumns {
            seq: Vec::new(),
            key: Vec::new(),
            path: Vec::new(),
            index: Vec::new(),
            value: Vec::new(),
            this: Vec::new(),
        };
        let n = rows.len();
        let mut j: usize = 0;
        while j < n
            invariant
                n == rows@.len(),
                j <= n,
                rows_view(rows@) == expected,
                need_key == column_needed(params@, 2),
                need_path == column_needed(params@, 3),
                need_index == column_needed(params@, 4),
                need_value == column_needed(params@, 5),
                need_this == column_needed(params@, 6),
                c.seq@.len() == j,
                c.key@.len() == j,
                c.path@.len() == j,
                c.index@.len() == j,
                c.value@.len() == j,
                c.this@.len() == j,
                forall|i: int| 0 <= i < j ==> #[trigger] c.seq@[i] == Some(seq),
                forall|i: int| 0 <= i < j ==> opt_text(#[trigger] c.key@[i])
                    == (if need_key { expected[i].key } else { Some(Seq::<char>::empty()) }),
                forall|i: int| 0 <= i < j ==> opt_text(#[trigger] c.path@[i])
                    == (if need_path { Some(expected[i].path) } else { Some(Seq::<char>::empty()) }),
                forall|i: int| 0 <= i < j ==> #[trigger] c.index@[i]
                    == (if need_index { expected[i].index } else { Some(0u64) }),
                forall|i: int| 0 <= i < j ==> opt_bytes(#[trigger] c.value@[i])
                    == (if need_value { Some(expected[i].value) } else { Some(Seq::<u8>::empty()) }),
                forall|i: int| 0 <= i < j ==> opt_bytes(#[trigger] c.this@[i])
                    == (if need_this { Some(expected[i].this) } else { Some(Seq::<u8>::empty()) }),
            decreases n - j,
        {
            let row = &rows[j];
            assert(row@ == expected[j as int]);
            c.seq.push(Some(seq));
            if need_key {
                c.key.push(opt_string_copy(&row.key));
            } else {
                c.key.push(Some(String::new()));
            }
            if need_path {
                c.path.push(Some(row.path.clone()));
            } else {
                c.path.push(Some(String::new()));
            }
            if need_index {
                c.index.push(row.index);
            } else {
                c.index.push(Some(0));
            }
            if need_value {
                c.value.push(Some(vstd::slice::slice_to_vec(row.value.as_slice())));
            } else {
                c.value.push(Some(Vec::new()));
            }
            if need_this {
                c.this.push(Some(vstd::slice::slice_to_vec(row.this.as_slice())));
            } else {
                c.this.push(Some(Vec::new()));
            }
            j = j + 1;
        }
        let ghost want = generate_columns(*self, seq, input@, path@, params@);
        assert(c@.seq =~= want.seq);
        assert(c@.key =~= want.key);
        assert(c@.path =~= want.path);
        assert(c@.index =~= want.index);
        assert(c@.value =~= want.value);
        assert(c@.this =~= want.this);
        c
    }
}

/// What `{:?}` gives for a text: the text quoted, with its special
/// characters escaped.
pub uninterp spec fn debug_str(s: Seq<char>) -> Seq<char>;

/// Whether `jsonb::jsonpath::parse_json_path` accepts the text.
pub uninterp spec fn json_path_parses(path: Seq<char>) -> bool;

/// What a `jsonb::jsonpath::Selector` for the parsed path writes for a
/// value: the bytes of the selected values one after another, and the end
/// of each in those bytes. `first` keeps only the first selected value.
pub uninterp spec fn json_path_selection(path: Seq<char>, value: Seq<u8>, first: bool) -> Option<(Seq<u8>, Seq<u64>)>;

/// `format!("{:?}", s)` on a text, named by `debug_str`.
#[verifier::external_body]
fn debug_text(s: &str) -> (r: String)
    ensures
        r@ == debug_str(s@),
{
    format!("{:?}", s)
}

/// How many bytes the JSON path parser takes for the escape that starts
/// with the backslash at `i`: `\uXXXX` six, `\u{XXXX}` eight, any other two;
/// 0 when the text ends before the escape does.
pub open spec fn path_escape_len(b: Seq<u8>, i: int) -> int {
    if i + 1 >= b.len() {
        0
    } else if b[i + 1] == 117u8 {
        if i + 5 >= b.len() {
            0
        } else if b[i + 2] == 123u8 {
            if i + 7 >= b.len() { 0 } else { 8 }
        } else {
            6
        }
    } else {
        2
    }
}

/// Reading the path bytes from `i`, inside a quoted name or not, every
/// quoted name that opens also closes before the end. Reading stops at an
/// escape cut short by the end, where the parser fails anyway.
pub open spec fn path_quotes_close_from(b: Seq<u8>, i: int, in_quote: bool) -> bool
    decreases b.len() - i,
{
    if i < 0 || i >= b.len() {
        !in_quote
    } else if b[i] == 92u8 {
        let n = path_escape_len(b, i);
        if n == 0 { true } else { path_quotes_close_from(b, i + n, in_quote) }
    } else if b[i] == 34u8 {
        path_quotes_close_from(b, i + 1, !in_quote)
    } else {
        path_quotes_close_from(b, i + 1, in_quote)
    }
}

/// Every quoted name (`"..."`) of the path bytes is closed. The parser of
/// the `jsonb` crate reads a quoted name up to its closing quote, and reads
/// past the end of the text when there is none; a text whose quotes do not
/// close is never a valid path.
pub open spec fn path_quotes_closed(b: Seq<u8>) -> bool {
    path_quotes_close_from(b, 0, false)
}

/// A valid JSON path: its quoted names close, and the parser accepts it.
pub open spec fn json_path_valid_text(path: Seq<char>) -> bool {
    path_quotes_closed(vstd::utf8::encode_utf8(path)) && json_path_parses(path)
}

/// Whether every quoted name of the path bytes closes.
pub fn path_quotes_closed_check(b: &[u8]) -> (r: bool)
    ensures
        r == path_quotes_closed(b@),
{
    let mut i: usize = 0;
    let mut in_quote = false;
    while i < b.len()
        invariant
            i <= b@.len(),
            path_quotes_closed(b@) == path_quotes_close_from(b@, i as int, in_quote),
        decreases b@.len() - i,
    {
        let c = b[i];
        if c == 92u8 {
            let left = b.len() - i;
            let n: usize = if left <= 1 {
                0
            } else if b[i + 1] == 117u8 {
                if left <= 5 {
                    0
                } else if b[i + 2] == 123u8 {
                    if left <= 7 { 0 } else { 8 }
                } else {
                    6
                }
            } else {
                2
            };
            assert(n as int == path_escape_len(b@, i as int));
            if n == 0 {
                return true;
            }
            i = i + n;
        } else {
            if c == 34u8 {
                in_quote = !in_quote;
            }
            i = i + 1;
        }
    }
    !in_quote
}

/// `jsonb::jsonpath::parse_json_path` on the bytes of the text: whether it
/// succeeds, named by `json_path_parses`. It is called only on a text whose
/// quoted names close: the parser slices past the end of one that does not.
#[verifier::external_body]
fn json_path_is_valid(path: &str) -> (r: bool)
    requires
        path_quotes_closed(vstd::utf8::encode_utf8(path@)),
    ensures
        r == json_path_parses(path@),
{
    parse_json_path(path.as_bytes()).is_ok()
}

/// Whether a text is a valid JSON path: its quoted names close, and the
/// `jsonb` parser accepts it.
pub fn json_path_valid(path: &str) -> (r: bool)
    ensures
        r == json_path_valid_text(path@),
{
    let bytes = path.as_bytes();
    path_quotes_closed_check(bytes) && json_path_is_valid(path)
}

/// `Selector::select` with the parsed path, in mode `First` or `All`;
/// `None` when the path does not parse. The selector appends each selected
/// value to the bytes and then pushes the length of the bytes, so the ends
/// never decrease and none passes the end of the bytes; in mode `First` it
/// selects at most one value. It is called only on well-formed binary
/// JSONB, whose headers and entries it decodes without checking; each value
/// it selects is a nested value's own bytes, the whole value, or a scalar
/// value built from an entry and its data, so a well-formed value.
#[verifier::external_body]
fn select_by_path(path: &str, value: &[u8], first: bool) -> (r: Option<(Vec<u8>, Vec<u64>)>)
    requires
        jsonb_wf(value@),
        path_quotes_closed(vstd::utf8::encode_utf8(path@)),
    ensures
        match r {
            Some((data, ends)) => {
                &&& json_path_parses(path@)
                &&& json_path_selection(path@, value@, first) == Some((data@, ends@))
                &&& forall|k: int| 0 <= k < ends@.len() ==> ends@[k] <= data@.len()
                &&& forall|j: int, k: int| 0 <= j <= k < ends@.len() ==> ends@[j] <= ends@[k]
                &&& first ==> ends@.len() <= 1
                &&& forall|k: int| 0 <= k < ends@.len() ==> jsonb_wf(#[trigger] selected_value(data@, ends@, k))
            },
            None => !json_path_parses(path@) && json_path_selection(path@, value@, first) is None,
        },
{
    let json_path = parse_json_path(path.as_bytes()).ok()?;
    let selector = Selector::new(json_path, if first { Mode::First } else { Mode::All });
    let (mut data, mut ends) = (Vec::new(), Vec::new());
    selector.select(value, &mut data, &mut ends);
    Some((data, ends))
}

/// Value `k` of a selection: the bytes from the end of the one before it
/// to its own end.
pub open spec fn selected_value(data: Seq<u8>, ends: Seq<u64>, k: int) -> Seq<u8> {
    data.subrange(if k == 0 { 0 } else { ends[k - 1] as int }, ends[k] as int)
}

pub open spec fn selected_values(data: Seq<u8>, ends: Seq<u64>) -> Seq<Seq<u8>> {
    Seq::new(ends.len(), |k: int| selected_value(data, ends, k))
}

/// The values a path selects from a value; none when the path is not valid.
pub open spec fn path_values(path: Seq<char>, value: Seq<u8>, first: bool) -> Seq<Seq<u8>> {
    if !path_quotes_closed(vstd::utf8::encode_utf8(path)) {
        Seq::empty()
    } else {
        match json_path_selection(path, value, first) {
            Some((data, ends)) => selected_values(data, ends),
            None => Seq::empty(),
        }
    }
}

/// The values a path selects, split apart.
fn select_values(path: &str, value: &[u8], first: bool) -> (r: Vec<Vec<u8>>)
    requires
        jsonb_wf(value@),
    ensures
        r.deep_view() == path_values(path@, value@, first),
        first ==> r@.len() <= 1,
        forall|k: int| 0 <= k < r@.len() ==> jsonb_wf(#[trigger] r@[k]@),
{
    if !path_quotes_closed_check(path.as_bytes()) {
        let none: Vec<Vec<u8>> = Vec::new();
        assert(none.deep_view() =~= Seq::<Seq<u8>>::empty());
        return none;
    }
    match select_by_path(path, value, first) {
        Some((data, ends)) => {
            let mut r: Vec<Vec<u8>> = Vec::new();
            let mut k: usize = 0;
            let mut start: usize = 0;
            while k < ends.len()
                invariant
                    k <= ends@.len(),
                    forall|i: int| 0 <= i < ends@.len() ==> ends@[i] <= data@.len(),
                    forall|i: int, j: int| 0 <= i <= j < ends@.len() ==> ends@[i] <= ends@[j],
                    forall|i: int| 0 <= i < ends@.len() ==> jsonb_wf(#[trigger] selected_value(data@, ends@, i)),
                    start == (if k == 0 { 0 } else { ends@[k - 1] as int }),
                    r@.len() == k,
                    forall|i: int| 0 <= i < k ==> (#[trigger] r@[i])@ == selected_value(data@, ends@, i),
                decreases ends@.len() - k,
            {
                let e = ends[k];
                let data_len = data.len();
                assert(e <= data_len);
                let end = e as usize;
                assert(end as int == e as int) by (bit_vector)
                    requires
                        e <= data_len,
                        end == e as usize,
                ;
                let piece = vstd::slice::slice_subrange(data.as_slice(), start, end);
                r.push(vstd::slice::slice_to_vec(piece));
                start = end;
                k = k + 1;
            }
            assert(r.deep_view() =~= selected_values(data@, ends@)) by {
                assert forall|i: int| 0 <= i < r@.len() implies r.deep_view()[i] == selected_values(data@, ends@)[i] by {
                    assert(r@[i].deep_view() =~= r@[i]@);
                }
            }
            r
        },
        None => {
            let r: Vec<Vec<u8>> = Vec::new();
            assert(r.deep_view() =~= Seq::<Seq<u8>>::empty());
            r
        },
    }
}

/// The value of an argument in one row.
pub enum ScalarValue {
    Null,
    Json(Vec<u8>),
    Text(String),
    Bool(bool),
    /// A value of any other type.
    Other,
}

/// An argument of a call: one value for every row, or a column.
pub enum ArgValue {
    Scalar(ScalarValue),
    Column(Vec<ScalarValue>),
}

/// The value of an argument in row `row`.
pub open spec fn arg_row(a: ArgValue, row: int) -> ScalarValue {
    match a {
        ArgValue::Scalar(v) => v,
        ArgValue::Column(c) => c@[row],
    }
}

/// Whether an argument has a value for each of the first `rows` rows.
pub open spec fn arg_covers(a: ArgValue, rows: int) -> bool {
    match a {
        ArgValue::Scalar(_) => true,
        ArgValue::Column(c) => rows <= c@.len(),
    }
}

fn row_value(a: &ArgValue, row: usize) -> (r: &ScalarValue)
    requires
        arg_covers(*a, row + 1),
    ensures
        *r == arg_row(*a, row as int),
{
    match a {
        ArgValue::Scalar(v) => v,
        ArgValue::Column(c) => &c[row],
    }
}

/// An error raised for a row of a call.
pub struct SrfError {
    pub row: usize,
    pub message: String,
}

pub open spec fn path_not_constant() -> Seq<char> {
    "argument `path` to function FLATTEN needs to be constant"@
}

pub open spec fn outer_not_constant() -> Seq<char> {
    "argument `outer` to function FLATTEN needs to be constant"@
}

pub open spec fn recursive_not_constant() -> Seq<char> {
    "argument `recursive` to function FLATTEN needs to be constant"@
}

pub open spec fn mode_not_constant() -> Seq<char> {
    "argument `mode` to function FLATTEN needs to be constant"@
}

/// The JSON path of a `FLATTEN` call: its second argument, which must be a
/// constant path that parses; a `NULL` path is no path.
pub open spec fn path_setting(args: Seq<ArgValue>) -> Result<Option<Seq<char>>, Seq<char>> {
    if args.len() >= 2 {
        match args[1] {
            ArgValue::Scalar(ScalarValue::Text(v)) => if json_path_valid_text(v@) {
                Ok(Some(v@))
            } else {
                Err("Invalid JSON Path "@ + debug_str(v@))
            },
            ArgValue::Column(_) => Err(path_not_constant()),
            _ => Ok(None),
        }
    } else {
        Ok(None)
    }
}

/// A flag of a `FLATTEN` call: argument `i`, which must be constant; false
/// when absent or `NULL`.
pub open spec fn flag_setting(args: Seq<ArgValue>, i: int, not_constant: Seq<char>) -> Result<bool, Seq<char>> {
    if args.len() > i {
        match args[i] {
            ArgValue::Scalar(ScalarValue::Bool(v)) => Ok(v),
            ArgValue::Column(_) => Err(not_constant),
            _ => Ok(false),
        }
    } else {
        Ok(false)
    }
}

/// The mode of a `FLATTEN` call: its fifth argument, `object`, `array` or
/// `both` in any case; `both` when absent or `NULL`.
pub open spec fn mode_setting(args: Seq<ArgValue>) -> Result<FlattenMode, Seq<char>> {
    if args.len() >= 5 {
        match args[4] {
            ArgValue::Scalar(ScalarValue::Text(v)) => {
                let m = lowercase(v@);
                if m == "object"@ {
                    Ok(FlattenMode::Object)
                } else if m == "array"@ {
                    Ok(FlattenMode::Array)
                } else if m == "both"@ {
                    Ok(FlattenMode::Both)
                } else {
                    Err("Invalid mode "@ + debug_str(v@))
                }
            },
            ArgValue::Column(_) => Err(mode_not_constant()),
            _ => Ok(FlattenMode::Both),
        }
    } else {
        Ok(FlattenMode::Both)
    }
}

/// The path and generator of a `FLATTEN` call, or the first error among
/// its arguments, in the order path, outer, recursive, mode.
pub open spec fn flatten_settings(args: Seq<ArgValue>) -> Result<(Option<Seq<char>>, FlattenGenerator), Seq<char>> {
    match path_setting(args) {
        Err(e) => Err(e),
        Ok(path) => match flag_setting(args, 2, outer_not_constant()) {
            Err(e) => Err(e),
            Ok(outer) => match flag_setting(args, 3, recursive_not_constant()) {
                Err(e) => Err(e),
                Ok(recursive) => match mode_setting(args) {
                    Err(e) => Err(e),
                    Ok(mode) => Ok((path, FlattenGenerator { outer, recursive, mode })),
                },
            },
        },
    }
}

fn path_argument(args: &Vec<ArgValue>) -> (r: Result<Option<String>, String>)
    ensures
        match r {
            Ok(p) => path_setting(args@) == Ok::<Option<Seq<char>>, Seq<char>>(opt_text(p)),
            Err(e) => path_setting(args@) == Err::<Option<Seq<char>>, Seq<char>>(e@),
        },
{
    if args.len() >= 2 {
        match &args[1] {
            ArgValue::Scalar(ScalarValue::Text(v)) => {
                if json_path_valid(v.as_str()) {
                    Ok(Some(v.clone()))
                } else {
                    let shown = debug_text(v.as_str());
                    Err(String::from_str("Invalid JSON Path ").concat(shown.as_str()))
                }
            },
            ArgValue::Column(_) => Err(
                String::from_str("argument `path` to function FLATTEN needs to be constant"),
            ),
            _ => Ok(None),
        }
    } else {
        Ok(None)
    }
}

fn flag_argument(args: &Vec<ArgValue>, i: usize, not_constant: &str) -> (r: Result<bool, String>)
    ensures
        match r {
            Ok(b) => flag_setting(args@, i as int, not_constant@) == Ok::<bool, Seq<char>>(b),
            Err(e) => flag_setting(args@, i as int, not_constant@) == Err::<bool, Seq<char>>(e@),
        },
{
    if args.len() > i {
        match &args[i] {
            ArgValue::Scalar(ScalarValue::Bool(v)) => Ok(*v),
            ArgValue::Column(_) => Err(String::from_str(not_constant)),
            _ => Ok(false),
        }
    } else {
        Ok(false)
    }
}

fn mode_argument(args: &Vec<ArgValue>) -> (r: Result<FlattenMode, String>)
    ensures
        match r {
            Ok(m) => mode_setting(args@) == Ok::<FlattenMode, Seq<char>>(m),
            Err(e) => mode_setting(args@) == Err::<FlattenMode, Seq<char>>(e@),
        },
{
    if args.len() >= 5 {
        match &args[4] {
            ArgValue::Scalar(ScalarValue::Text(v)) => {
                let m = to_lowercase(v.as_str());
                let object = String::from_str("object");
                let array = String::from_str("array");
                let both = String::from_str("both");
                if m.eq(&object) {
                    Ok(FlattenMode::Object)
                } else if m.eq(&array) {
                    Ok(FlattenMode::Array)
                } else if m.eq(&both) {
                    Ok(FlattenMode::Both)
                } else {
                    let shown = debug_text(v.as_str());
                    Err(String::from_str("Invalid mode ").concat(shown.as_str()))
                }
            },
            ArgValue::Column(_) => Err(String::from_str("argument `mode` to function FLATTEN needs to be constant")),
            _ => Ok(FlattenMode::Both),
        }
    } else {
        Ok(FlattenMode::Both)
    }
}

/// Reads the settings of a `FLATTEN` call from its arguments.
pub fn flatten_arguments(args: &Vec<ArgValue>) -> (r: Result<(Option<String>, FlattenGenerator), String>)
    ensures
        match r {
            Ok((path, g)) => flatten_settings(args@) == Ok::<(Option<Seq<char>>, FlattenGenerator), Seq<char>>((opt_text(path), g)),
            Err(e) => flatten_settings(args@) == Err::<(Option<Seq<char>>, FlattenGenerator), Seq<char>>(e@),
        },
{
    let path = match path_argument(args) {
        Ok(p) => p,
        Err(e) => return Err(e),
    };
    let outer = match flag_argument(args, 2, "argument `outer` to function FLATTEN needs to be constant") {
        Ok(b) => b,
        Err(e) => return Err(e),
    };
    let recursive = match flag_argument(args, 3, "argument `recursive` to function FLATTEN needs to be constant") {
        Ok(b) => b,
        Err(e) => return Err(e),
    };
    let mode = match mode_argument(args) {
        Ok(m) => m,
        Err(e) => return Err(e),
    };
    Ok((path, FlattenGenerator::create(outer, recursive, mode)))
}

/// The value `FLATTEN` expands for a row: the first value its path
/// selects (nothing when it selects none), or the row's whole value.
pub open spec fn flatten_input(path: Option<Seq<char>>, value: Seq<u8>) -> Seq<u8> {
    match path {
        Some(p) => {
            let vals = path_values(p, value, true);
            if vals.len() > 0 { vals.last() } else { Seq::empty() }
        },
        None => value,
    }
}

/// The columns of `FLATTEN` for row `row`, whose value is `value`.
pub open spec fn flatten_row_columns(
    g: FlattenGenerator,
    path: Option<Seq<char>>,
    params: Seq<i64>,
    row: int,
    value: Seq<u8>,
) -> FlattenColumnsView {
    generate_columns(
        g,
        (row + 1) as u64,
        flatten_input(path, value),
        match path { Some(p) => p, None => Seq::empty() },
        params,
    )
}

/// The rows a set-returning function handles: those that have both an
/// input row and a slot for their output count.
pub open spec fn handled_rows(num_rows: usize, slots: int) -> int {
    if num_rows < slots { num_rows as int } else { slots }
}

/// Each of the first `rows` rows that holds a JSONB value holds well-formed
/// binary JSONB.
pub open spec fn wf_json_rows(a: ArgValue, rows: int) -> bool {
    forall|row: int| 0 <= row < rows ==> (#[trigger] arg_row(a, row) matches ScalarValue::Json(v) ==> jsonb_wf(v@))
}

pub open spec fn json_rows(a: ArgValue, rows: int) -> bool {
    forall|row: int| 0 <= row < rows ==> (#[trigger] arg_row(a, row) is Null || arg_row(a, row) is Json)
}

pub open spec fn max_usize(a: usize, b: usize) -> usize {
    if a < b { b } else { a }
}

/// Row `j` is `NULL`, or its value (well-formed binary JSONB when a path
/// picks from it) can be expanded.
pub open spec fn row_flattens(g: FlattenGenerator, path: Option<Seq<char>>, a: ArgValue, j: int) -> bool {
    match arg_row(a, j) {
        ScalarValue::Json(v) => (path is Some ==> jsonb_wf(v@)) && input_flattens(g, flatten_input(path, v@)),
        _ => true,
    }
}

/// Row `j` is `NULL`, empty, or well-formed binary JSONB: a row `FLATTEN`
/// expands. (With a path, an empty value is no JSONB either.)
pub open spec fn row_readable(path: Option<Seq<char>>, a: ArgValue, j: int) -> bool {
    match arg_row(a, j) {
        ScalarValue::Json(v) => jsonb_wf(v@) || (path is None && v@.len() == 0),
        _ => true,
    }
}

/// The error of a row whose value cannot be expanded: it is not well-formed
/// binary JSONB (every well-formed value expands).
pub open spec fn invalid_value_message() -> Seq<char> {
    "Invalid JSONB value"@
}

impl FlattenGenerator {
    /// Whether the value, picked out by `path` first when there is one, can
    /// be expanded.
    fn expandable(&self, path: &Option<String>, value: &[u8]) -> (b: bool)
        requires
            path is Some ==> jsonb_wf(value@),
        ensures
            b == input_flattens(*self, flatten_input(opt_text(*path), value@)),
            (path is Some || value@.len() == 0 || jsonb_wf(value@)) ==> b,
    {
        match path {
            Some(p) => {
                let vals = select_values(p.as_str(), value, true);
                if vals.len() > 0 {
                    let last = vals.len() - 1;
                    assert(vals.deep_view()[last as int] =~= vals@[last as int]@);
                    assert(flatten_input(opt_text(*path), value@) == vals@[last as int]@);
                    let input = vals[last].as_slice();
                    input.len() == 0 || self.check(input, input.len())
                } else {
                    assert(flatten_input(opt_text(*path), value@).len() == 0);
                    true
                }
            },
            None => value.len() == 0 || (jsonb_check(value) && self.check(value, value.len())),
        }
    }

    /// The columns of one value, picked out by `path` first when there is one.
    fn expand(&self, path: &Option<String>, value: &[u8], row: usize, params: &[i64]) -> (c: FlattenColumns)
        requires
            row < usize::MAX,
            path is Some ==> jsonb_wf(value@),
            input_flattens(*self, flatten_input(opt_text(*path), value@)),
        ensures
            c@ == flatten_row_columns(*self, opt_text(*path), params@, row as int, value@),
    {
        let next = row + 1;
        let seq = next as u64;
        assert(seq as int == row as int + 1);
        match path {
            Some(p) => {
                let vals = select_values(p.as_str(), value, true);
                if vals.len() > 0 {
                    let last = vals.len() - 1;
                    assert(vals.deep_view()[last as int] =~= vals@[last as int]@);
                    assert(flatten_input(opt_text(*path), value@) == vals@[last as int]@);
                    let c = self.generate(seq, vals[last].as_slice(), p.as_str(), params);
                    assert(seq == (row as int + 1) as u64);
                    assert(c@ == generate_columns(*self, seq, vals@[last as int]@, p@, params@));
                    assert(c@ == flatten_row_columns(*self, opt_text(*path), params@, row as int, value@));
                    c
                } else {
                    let empty: Vec<u8> = Vec::new();
                    assert(flatten_input(opt_text(*path), value@) =~= empty@);
                    assert(input_flattens(*self, empty@));
                    let c = self.generate(seq, empty.as_slice(), p.as_str(), params);
                    assert(c@ == flatten_row_columns(*self, opt_text(*path), params@, row as int, value@));
                    c
                }
            },
            None => {
                let c = self.generate(seq, value, "", params);
                proof {
                    reveal_strlit("");
                    assert(""@ =~= Seq::<char>::empty());
                }
                assert(c@ == flatten_row_columns(*self, opt_text(*path), params@, row as int, value@));
                c
            },
        }
    }
}

/// `FLATTEN` over the rows of a call: for each row, `None` and no output
/// row for a `NULL` value, or the columns of its value and their length,
/// which also raises the row's slot in `max_nums_per_row` to at least that
/// length. An argument error is reported for row 0, with no output; so is,
/// for its row, the first value holding an object whose keys do not name
/// its fields.
pub fn flatten_eval(
    args: &Vec<ArgValue>,
    num_rows: usize,
    params: &Vec<i64>,
    max_nums_per_row: &mut Vec<usize>,
) -> (r: Result<Vec<(Option<FlattenColumns>, usize)>, SrfError>)
    requires
        args@.len() >= 1,
        arg_covers(args@[0], handled_rows(num_rows, old(max_nums_per_row)@.len() as int)),
        json_rows(args@[0], handled_rows(num_rows, old(max_nums_per_row)@.len() as int)),
    ensures
        final(max_nums_per_row)@.len() == old(max_nums_per_row)@.len(),
        match r {
            Ok(results) => flatten_settings(args@) matches Ok((path, g)) && {
                let n = handled_rows(num_rows, old(max_nums_per_row)@.len() as int);
                &&& forall|j: int| 0 <= j < n ==> #[trigger] row_flattens(g, path, args@[0], j)
                &&& forall|j: int| 0 <= j < n ==> #[trigger] row_readable(path, args@[0], j)
                &&& results@.len() == n
                &&& forall|j: int| 0 <= j < n ==> match arg_row(args@[0], j) {
                    ScalarValue::Json(v) => {
                        let c = flatten_row_columns(g, path, params@, j, v@);
                        &&& (#[trigger] results@[j]).0 matches Some(cols) && cols@ == c
                        &&& results@[j].1 == c.seq.len()
                        &&& final(max_nums_per_row)@[j] == max_usize(old(max_nums_per_row)@[j], results@[j].1)
                    },
                    _ => results@[j].0 is None && results@[j].1 == 0
                        && final(max_nums_per_row)@[j] == old(max_nums_per_row)@[j],
                }
                &&& forall|j: int| n <= j < old(max_nums_per_row)@.len()
                    ==> #[trigger] final(max_nums_per_row)@[j] == old(max_nums_per_row)@[j]
            },
            Err(e) => final(max_nums_per_row)@ == old(max_nums_per_row)@ && match flatten_settings(args@) {
                Err(message) => e.message@ == message && e.row == 0,
                Ok((path, g)) => {
                    &&& e.row < handled_rows(num_rows, old(max_nums_per_row)@.len() as int)
                    &&& !row_readable(path, args@[0], e.row as int)
                    &&& forall|j: int| 0 <= j < e.row ==> #[trigger] row_readable(path, args@[0], j)
                    &&& e.message@ == invalid_value_message()
                },
            },
        },
{
    let (path, g) = match flatten_arguments(args) {
        Ok(settings) => settings,
        Err(message) => return Err(SrfError { row: 0, message }),
    };
    let n = if num_rows < max_nums_per_row.len() { num_rows } else { max_nums_per_row.len() };
    let mut k: usize = 0;
    while k < n
        invariant
            n == handled_rows(num_rows, max_nums_per_row@.len() as int),
            k <= n,
            args@.len() >= 1,
            arg_covers(args@[0], n as int),
            flatten_settings(args@) == Ok::<(Option<Seq<char>>, FlattenGenerator), Seq<char>>((opt_text(path), g)),
            forall|i: int| 0 <= i < k ==> #[trigger] row_flattens(g, opt_text(path), args@[0], i),
            forall|i: int| 0 <= i < k ==> #[trigger] row_readable(opt_text(path), args@[0], i),
        decreases n - k,
    {
        match row_value(&args[0], k) {
            ScalarValue::Json(v) => {
                let readable = path.is_none() || jsonb_check(v.as_slice());
                if !readable || !g.expandable(&path, v.as_slice()) {
                    return Err(SrfError { row: k, message: String::from_str("Invalid JSONB value") });
                }
            },
            _ => {},
        }
        k = k + 1;
    }
    let ghost old_max = max_nums_per_row@;
    let mut results: Vec<(Option<FlattenColumns>, usize)> = Vec::new();
    let mut j: usize = 0;
    while j < n
        invariant
            n == handled_rows(num_rows, old_max.len() as int),
            n <= old_max.len(),
            j <= n,
            args@.len() >= 1,
            arg_covers(args@[0], n as int),
            json_rows(args@[0], n as int),
            flatten_settings(args@) == Ok::<(Option<Seq<char>>, FlattenGenerator), Seq<char>>((opt_text(path), g)),
            forall|i: int| 0 <= i < n ==> #[trigger] row_flattens(g, opt_text(path), args@[0], i),
            forall|i: int| 0 <= i < n ==> #[trigger] row_readable(opt_text(path), args@[0], i),
            max_nums_per_row@.len() == old_max.len(),
            results@.len() == j,
            forall|i: int| 0 <= i < j ==> match arg_row(args@[0], i) {
                ScalarValue::Json(v) => {
                    let c = flatten_row_columns(g, opt_text(path), params@, i, v@);
                    &&& (#[trigger] results@[i]).0 matches Some(cols) && cols@ == c
                    &&& results@[i].1 == c.seq.len()
                    &&& max_nums_per_row@[i] == max_usize(old_max[i], results@[i].1)
                },
                _ => results@[i].0 is None && results@[i].1 == 0 && max_nums_per_row@[i] == old_max[i],
            },
            forall|i: int| j <= i < old_max.len() ==> #[trigger] max_nums_per_row@[i] == old_max[i],
        decreases n - j,
    {
        let value = row_value(&args[0], j);
        assert(arg_row(args@[0], j as int) is Null || arg_row(args@[0], j as int) is Json);
        assert(row_flattens(g, opt_text(path), args@[0], j as int));
        match value {
            ScalarValue::Json(v) => {
                let c = g.expand(&path, v.as_slice(), j, params.as_slice());
                let len = c.seq.len();
                let slot = max_nums_per_row[j];
                max_nums_per_row.set(j, if slot < len { len } else { slot });
                results.push((Some(c), len));
            },
            _ => {
                results.push((None, 0));
            },
        }
        j = j + 1;
    }
    Ok(results)
}

/// What a set-returning function gives for the rows it handled, and the
/// error that stopped it, if one did.
pub struct SrfOutput<T> {
    pub results: Vec<T>,
    pub error: Option<SrfError>,
}

pub open spec fn invalid_path_message(path: Seq<char>) -> Seq<char> {
    "Invalid JSON Path '"@ + path + "'"@
}

/// The path of a row, when it is a text.
pub open spec fn text_of(v: ScalarValue) -> Option<Seq<char>> {
    match v {
        ScalarValue::Text(t) => Some(t@),
        _ => None,
    }
}

/// The text of a constant text argument.
pub open spec fn constant_text(a: ArgValue) -> Seq<char> {
    match a {
        ArgValue::Scalar(ScalarValue::Text(t)) => t@,
        _ => Seq::empty(),
    }
}

/// Whether an argument is a constant path that does not parse.
pub open spec fn constant_path_fails(a: ArgValue) -> bool {
    match a {
        ArgValue::Scalar(ScalarValue::Text(t)) => !json_path_valid_text(t@),
        _ => false,
    }
}

/// Whether row `j` of `JSON_PATH_QUERY` has a path that does not parse.
pub open spec fn row_path_fails(args: Seq<ArgValue>, j: int) -> bool {
    match text_of(arg_row(args[1], j)) {
        Some(p) => !json_path_valid_text(p),
        None => false,
    }
}

/// The values `JSON_PATH_QUERY` gives for row `j`: those its path selects
/// from its value; none for a `NULL` path or value.
pub open spec fn query_row_values(args: Seq<ArgValue>, j: int) -> Seq<Seq<u8>> {
    match text_of(arg_row(args[1], j)) {
        Some(p) => match arg_row(args[0], j) {
            ScalarValue::Json(v) => path_values(p, v@, false),
            _ => Seq::empty(),
        },
        None => Seq::empty(),
    }
}

/// The results of the first `m` rows of `JSON_PATH_QUERY`, and what they
/// do to the slots of the output counts.
pub open spec fn query_results(
    args: Seq<ArgValue>,
    results: Seq<(Vec<Vec<u8>>, usize)>,
    m: int,
    old_max: Seq<usize>,
    new_max: Seq<usize>,
) -> bool {
    &&& results.len() == m
    &&& new_max.len() == old_max.len()
    &&& forall|j: int| 0 <= j < m ==> !#[trigger] row_path_fails(args, j)
    &&& forall|j: int| 0 <= j < m ==> {
        &&& (#[trigger] results[j]).0.deep_view() =~~= query_row_values(args, j)
        &&& results[j].1 == results[j].0@.len()
    }
    &&& forall|j: int| 0 <= j < m ==> #[trigger] new_max[j] == max_usize(old_max[j], results[j].1)
    &&& forall|j: int| m <= j < old_max.len() ==> #[trigger] new_max[j] == old_max[j]
}

/// `JSON_PATH_QUERY(value, path)`: for each row, the values the path
/// selects. A constant path that does not parse is reported for row 0 with
/// no output; a path column stops at the first row whose path does not
/// parse, which is reported.
pub fn json_path_query_eval(
    args: &Vec<ArgValue>,
    num_rows: usize,
    max_nums_per_row: &mut Vec<usize>,
) -> (r: SrfOutput<(Vec<Vec<u8>>, usize)>)
    requires
        args@.len() >= 2,
        arg_covers(args@[0], handled_rows(num_rows, old(max_nums_per_row)@.len() as int)),
        arg_covers(args@[1], handled_rows(num_rows, old(max_nums_per_row)@.len() as int)),
        wf_json_rows(args@[0], handled_rows(num_rows, old(max_nums_per_row)@.len() as int)),
    ensures
        ({
            let n = handled_rows(num_rows, old(max_nums_per_row)@.len() as int);
            if constant_path_fails(args@[1]) {
                &&& r.results@.len() == 0
                &&& r.error matches Some(e) && e.row == 0
                    && e.message@ == invalid_path_message(constant_text(args@[1]))
                &&& final(max_nums_per_row)@ == old(max_nums_per_row)@
            } else {
                {
                    let m = r.results@.len() as int;
                    &&& m <= n
                    &&& query_results(args@, r.results@, m, old(max_nums_per_row)@, final(max_nums_per_row)@)
                    &&& match r.error {
                        Some(e) => {
                            &&& m < n
                            &&& e.row == m
                            &&& row_path_fails(args@, m)
                            &&& text_of(arg_row(args@[1], m)) matches Some(p) && e.message@ == invalid_path_message(p)
                        },
                        None => m == n,
                    }
                }
            }
        }),
{
    match &args[1] {
        ArgValue::Scalar(ScalarValue::Text(p)) => {
            if !json_path_valid(p.as_str()) {
                let message = String::from_str("Invalid JSON Path '").concat(p.as_str()).concat("'");
                return SrfOutput { results: Vec::new(), error: Some(SrfError { row: 0, message }) };
            }
        },
        _ => {},
    }
    let n = if num_rows < max_nums_per_row.len() { num_rows } else { max_nums_per_row.len() };
    let ghost old_max = max_nums_per_row@;
    let mut results: Vec<(Vec<Vec<u8>>, usize)> = Vec::new();
    let mut j: usize = 0;
    while j < n
        invariant
            n == handled_rows(num_rows, old_max.len() as int),
            n <= old_max.len(),
            j <= n,
            args@.len() >= 2,
            arg_covers(args@[0], n as int),
            arg_covers(args@[1], n as int),
            wf_json_rows(args@[0], n as int),
            query_results(args@, results@, j as int, old_max, max_nums_per_row@),
            old_max == old(max_nums_per_row)@,
            !constant_path_fails(args@[1]),
        decreases n - j,
    {
        let value = row_value(&args[0], j);
        let path = row_value(&args[1], j);
        let vals: Vec<Vec<u8>> = match path {
            ScalarValue::Text(p) => {
                if !json_path_valid(p.as_str()) {
                    let message = String::from_str("Invalid JSON Path '").concat(p.as_str()).concat("'");
                    assert(text_of(arg_row(args@[1], j as int)) == Some(p@));
                    assert(row_path_fails(args@, j as int));
                    assert(message@ == invalid_path_message(p@));
                    assert(!constant_path_fails(args@[1]));
                    return SrfOutput { results, error: Some(SrfError { row: j, message }) };
                }
                match value {
                    ScalarValue::Json(v) => select_values(p.as_str(), v.as_slice(), false),
                    _ => {
                        let none: Vec<Vec<u8>> = Vec::new();
                        assert(none.deep_view() =~= Seq::<Seq<u8>>::empty());
                        none
                    },
                }
            },
            _ => {
                let none: Vec<Vec<u8>> = Vec::new();
                assert(none.deep_view() =~= Seq::<Seq<u8>>::empty());
                none
            },
        };
        let len = vals.len();
        let slot = max_nums_per_row[j];
        let ghost before_results = results@;
        let ghost before_max = max_nums_per_row@;
        assert(vals.deep_view() =~~= query_row_values(args@, j as int));
        assert(!row_path_fails(args@, j as int));
        max_nums_per_row.set(j, if slot < len { len } else { slot });
        results.push((vals, len));
        proof {
            assert forall|i: int| 0 <= i < j + 1 implies !#[trigger] row_path_fails(args@, i) by {}
            assert forall|i: int| 0 <= i < j + 1 implies {
                &&& (#[trigger] results@[i]).0.deep_view() =~~= query_row_values(args@, i)
                &&& results@[i].1 == results@[i].0@.len()
            } by {
                if i < j {
                    assert(results@[i] == before_results[i]);
                }
            }
            assert forall|i: int| 0 <= i < j + 1 implies #[trigger] max_nums_per_row@[i]
                == max_usize(old_max[i], results@[i].1) by {
                if i < j {
                    assert(results@[i] == before_results[i]);
                    assert(max_nums_per_row@[i] == before_max[i]);
                }
            }
            assert forall|i: int| j + 1 <= i < old_max.len() implies #[trigger] max_nums_per_row@[i] == old_max[i] by {
                assert(max_nums_per_row@[i] == before_max[i]);
            }
        }
        j = j + 1;
    }
    SrfOutput { results, error: None }
}

/// The elements of an array value, and their count; `None` and 0 for a
/// value that is not an array or has no elements. A count that is not 0
/// raises the row's slot to at least that count.
pub fn unnest_variant_array(val: &[u8], row: usize, max_nums_per_row: &mut Vec<usize>) -> (r: (Option<Vec<Vec<u8>>>, usize))
    requires
        row < old(max_nums_per_row)@.len(),
        jsonb_wf(val@),
    ensures
        match jsonb_array_values(val@) {
            Some(vals) if vals.len() > 0 => {
                &&& r.0 matches Some(v) && v.deep_view() == vals
                &&& r.1 == vals.len()
                &&& final(max_nums_per_row)@ == old(max_nums_per_row)@.update(
                    row as int, max_usize(old(max_nums_per_row)@[row as int], r.1))
            },
            _ => r.0 is None && r.1 == 0 && final(max_nums_per_row)@ == old(max_nums_per_row)@,
        },
{
    match array_values(val) {
        Some(vals) => {
            if vals.len() > 0 {
                let len = vals.len();
                let slot = max_nums_per_row[row];
                max_nums_per_row.set(row, if slot < len { len } else { slot });
                (Some(vals), len)
            } else {
                (None, 0)
            }
        },
        None => (None, 0),
    }
}

/// The key and value of each field of an object value, and their count;
/// `None` and 0 for a value that is not an object or has no fields. Keys are
/// decoded as UTF-8, with invalid sequences replaced.
pub fn unnest_variant_obj(val: &[u8], row: usize, max_nums_per_row: &mut Vec<usize>) -> (r: (Option<Vec<(String, Vec<u8>)>>, usize))
    requires
        row < old(max_nums_per_row)@.len(),
        jsonb_wf(val@),
    ensures
        match jsonb_object_each(val@) {
            Some(items) if items.len() > 0 => {
                &&& r.0 matches Some(v) && v@.len() == items.len() && (forall|i: int| 0 <= i < items.len() ==> {
                    &&& (#[trigger] v@[i]).0@ == utf8_lossy(items[i].0)
                    &&& v@[i].1@ == items[i].1
                })
                &&& r.1 == items.len()
                &&& final(max_nums_per_row)@ == old(max_nums_per_row)@.update(
                    row as int, max_usize(old(max_nums_per_row)@[row as int], r.1))
            },
            _ => r.0 is None && r.1 == 0 && final(max_nums_per_row)@ == old(max_nums_per_row)@,
        },
{
    match object_each(val) {
        Some(items) => {
            if items.len() > 0 {
                let len = items.len();
                let slot = max_nums_per_row[row];
                max_nums_per_row.set(row, if slot < len { len } else { slot });
                let mut out: Vec<(String, Vec<u8>)> = Vec::new();
                let mut i: usize = 0;
                while i < len
                    invariant
                        len == items@.len(),
                        i <= len,
                        items.deep_view() == jsonb_object_each(val@).unwrap(),
                        jsonb_object_each(val@) is Some,
                        out@.len() == i,
                        forall|k: int| 0 <= k < i ==> {
                            &&& (#[trigger] out@[k]).0@ == utf8_lossy(jsonb_object_each(val@).unwrap()[k].0)
                            &&& out@[k].1@ == jsonb_object_each(val@).unwrap()[k].1
                        },
                    decreases len - i,
                {
                    let (key, value) = &items[i];
                    assert(items.deep_view()[i as int] == (key@, value@)) by {
                        assert(key.deep_view() =~= key@);
                        assert(value.deep_view() =~= value@);
                    }
                    let text = from_utf8_lossy(key.as_slice());
                    out.push((text, vstd::slice::slice_to_vec(value.as_slice())));
                    i = i + 1;
                }
                (Some(out), len)
            } else {
                (None, 0)
            }
        },
        None => (None, 0),
    }
}

/// The elements `JSON_ARRAY_ELEMENTS` gives for a row's value: those of a
/// non-empty array, or nothing.
pub open spec fn array_elements(value: ScalarValue) -> Option<Seq<Seq<u8>>> {
    match value {
        ScalarValue::Json(v) => match jsonb_array_values(v@) {
            Some(vals) => if vals.len() > 0 { Some(vals) } else { None },
            None => None,
        },
        _ => None,
    }
}

/// The fields `JSON_EACH` gives for a row's value: the keys and values of a
/// non-empty object, or nothing.
pub open spec fn object_fields(value: ScalarValue) -> Option<Seq<(Seq<char>, Seq<u8>)>> {
    match value {
        ScalarValue::Json(v) => match jsonb_object_each(v@) {
            Some(items) => if items.len() > 0 {
                Some(items.map_values(|kv: (Seq<u8>, Seq<u8>)| (utf8_lossy(kv.0), kv.1)))
            } else {
                None
            },
            None => None,
        },
        _ => None,
    }
}

pub open spec fn fields_view(v: Vec<(String, Vec<u8>)>) -> Seq<(Seq<char>, Seq<u8>)> {
    v@.map_values(|kv: (String, Vec<u8>)| (kv.0@, kv.1@))
}

/// `JSON_ARRAY_ELEMENTS(value)`: for each row, the elements of its array
/// and their count (`None` and 0 for anything else), raising the row's slot
/// to at least that count.
pub fn json_array_elements_eval(
    args: &Vec<ArgValue>,
    num_rows: usize,
    max_nums_per_row: &mut Vec<usize>,
) -> (r: Vec<(Option<Vec<Vec<u8>>>, usize)>)
    requires
        args@.len() >= 1,
        arg_covers(args@[0], num_rows as int),
        json_rows(args@[0], num_rows as int),
        wf_json_rows(args@[0], num_rows as int),
        num_rows <= old(max_nums_per_row)@.len(),
    ensures
        r@.len() == num_rows,
        final(max_nums_per_row)@.len() == old(max_nums_per_row)@.len(),
        forall|j: int| 0 <= j < num_rows ==> match array_elements(arg_row(args@[0], j)) {
            Some(vals) => (#[trigger] r@[j]).0 matches Some(x) && x.deep_view() =~~= vals && r@[j].1 == vals.len(),
            None => r@[j].0 is None && r@[j].1 == 0,
        },
        forall|j: int| 0 <= j < num_rows ==> #[trigger] final(max_nums_per_row)@[j]
            == max_usize(old(max_nums_per_row)@[j], r@[j].1),
        forall|j: int| num_rows <= j < old(max_nums_per_row)@.len() ==> #[trigger] final(max_nums_per_row)@[j]
            == old(max_nums_per_row)@[j],
{
    let ghost old_max = max_nums_per_row@;
    let mut results: Vec<(Option<Vec<Vec<u8>>>, usize)> = Vec::new();
    let mut j: usize = 0;
    while j < num_rows
        invariant
            j <= num_rows,
            num_rows <= old_max.len(),
            args@.len() >= 1,
            arg_covers(args@[0], num_rows as int),
            json_rows(args@[0], num_rows as int),
            wf_json_rows(args@[0], num_rows as int),
            max_nums_per_row@.len() == old_max.len(),
            results@.len() == j,
            forall|i: int| 0 <= i < j ==> match array_elements(arg_row(args@[0], i)) {
                Some(vals) => (#[trigger] results@[i]).0 matches Some(x) && x.deep_view() =~~= vals
                    && results@[i].1 == vals.len(),
                None => results@[i].0 is None && results@[i].1 == 0,
            },
            forall|i: int| 0 <= i < j ==> #[trigger] max_nums_per_row@[i] == max_usize(old_max[i], results@[i].1),
            forall|i: int| j <= i < old_max.len() ==> #[trigger] max_nums_per_row@[i] == old_max[i],
        decreases num_rows - j,
    {
        let ghost before_results = results@;
        let ghost before_max = max_nums_per_row@;
        let value = row_value(&args[0], j);
        assert(arg_row(args@[0], j as int) is Null || arg_row(args@[0], j as int) is Json);
        assert(arg_row(args@[0], j as int) matches ScalarValue::Json(v) ==> jsonb_wf(v@));
        let out = match value {
            ScalarValue::Json(v) => unnest_variant_array(v.as_slice(), j, max_nums_per_row),
            _ => (None, 0),
        };
        results.push(out);
        proof {
            assert forall|i: int| 0 <= i < j + 1 implies #[trigger] max_nums_per_row@[i]
                == max_usize(old_max[i], results@[i].1) by {
                if i < j {
                    assert(results@[i] == before_results[i]);
                    assert(max_nums_per_row@[i] == before_max[i]);
                }
            }
            assert forall|i: int| j + 1 <= i < old_max.len() implies #[trigger] max_nums_per_row@[i] == old_max[i] by {
                assert(max_nums_per_row@[i] == before_max[i]);
            }
            assert forall|i: int| 0 <= i < j + 1 implies match array_elements(arg_row(args@[0], i)) {
                Some(vals) => (#[trigger] results@[i]).0 matches Some(x) && x.deep_view() =~~= vals
                    && results@[i].1 == vals.len(),
                None => results@[i].0 is None && results@[i].1 == 0,
            } by {
                if i < j {
                    assert(results@[i] == before_results[i]);
                }
            }
        }
        j = j + 1;
    }
    results
}

/// `JSON_EACH(value)`: for each row, the keys and values of its object and
/// their count (`None` and 0 for anything else), raising the row's slot to
/// at least that count.
pub fn json_each_eval(
    args: &Vec<ArgValue>,
    num_rows: usize,
    max_nums_per_row: &mut Vec<usize>,
) -> (r: Vec<(Option<Vec<(String, Vec<u8>)>>, usize)>)
    requires
        args@.len() >= 1,
        arg_covers(args@[0], num_rows as int),
        json_rows(args@[0], num_rows as int),
        wf_json_rows(args@[0], num_rows as int),
        num_rows <= old(max_nums_per_row)@.len(),
    ensures
        r@.len() == num_rows,
        final(max_nums_per_row)@.len() == old(max_nums_per_row)@.len(),
        forall|j: int| 0 <= j < num_rows ==> match object_fields(arg_row(args@[0], j)) {
            Some(fields) => (#[trigger] r@[j]).0 matches Some(x) && fields_view(x) =~= fields && r@[j].1 == fields.len(),
            None => r@[j].0 is None && r@[j].1 == 0,
        },
        forall|j: int| 0 <= j < num_rows ==> #[trigger] final(max_nums_per_row)@[j]
            == max_usize(old(max_nums_per_row)@[j], r@[j].1),
        forall|j: int| num_rows <= j < old(max_nums_per_row)@.len() ==> #[trigger] final(max_nums_per_row)@[j]
            == old(max_nums_per_row)@[j],
{
    let ghost old_max = max_nums_per_row@;
    let mut results: Vec<(Option<Vec<(String, Vec<u8>)>>, usize)> = Vec::new();
    let mut j: usize = 0;
    while j < num_rows
        invariant
            j <= num_rows,
            num_rows <= old_max.len(),
            args@.len() >= 1,
            arg_covers(args@[0], num_rows as int),
            json_rows(args@[0], num_rows as int),
            wf_json_rows(args@[0], num_rows as int),
            max_nums_per_row@.len() == old_max.len(),
            results@.len() == j,
            forall|i: int| 0 <= i < j ==> match object_fields(arg_row(args@[0], i)) {
                Some(fields) => (#[trigger] results@[i]).0 matches Some(x) && fields_view(x) =~= fields
                    && results@[i].1 == fields.len(),
                None => results@[i].0 is None && results@[i].1 == 0,
            },
            forall|i: int| 0 <= i < j ==> #[trigger] max_nums_per_row@[i] == max_usize(old_max[i], results@[i].1),
            forall|i: int| j <= i < old_max.len() ==> #[trigger] max_nums_per_row@[i] == old_max[i],
        decreases num_rows - j,
    {
        let ghost before_results = results@;
        let ghost before_max = max_nums_per_row@;
        let value = row_value(&args[0], j);
        assert(arg_row(args@[0], j as int) is Null || arg_row(args@[0], j as int) is Json);
        assert(arg_row(args@[0], j as int) matches ScalarValue::Json(v) ==> jsonb_wf(v@));
        let out = match value {
            ScalarValue::Json(v) => unnest_variant_obj(v.as_slice(), j, max_nums_per_row),
            _ => (None, 0),
        };
        proof {
            match object_fields(arg_row(args@[0], j as int)) {
                Some(fields) => {
                    let x = out.0.unwrap();
                    assert(fields_view(x) =~= fields);
                },
                None => {},
            }
        }
        results.push(out);
        proof {
            assert forall|i: int| 0 <= i < j + 1 implies #[trigger] max_nums_per_row@[i]
                == max_usize(old_max[i], results@[i].1) by {
                if i < j {
                    assert(results@[i] == before_results[i]);
                    assert(max_nums_per_row@[i] == before_max[i]);
                }
            }
            assert forall|i: int| j + 1 <= i < old_max.len() implies #[trigger] max_nums_per_row@[i] == old_max[i] by {
                assert(max_nums_per_row@[i] == before_max[i]);
            }
            assert forall|i: int| 0 <= i < j + 1 implies match object_fields(arg_row(args@[0], i)) {
                Some(fields) => (#[trigger] results@[i]).0 matches Some(x) && fields_view(x) =~= fields
                    && results@[i].1 == fields.len(),
                None => results@[i].0 is None && results@[i].1 == 0,
            } by {
                if i < j {
                    assert(results@[i] == before_results[i]);
                }
            }
        }
        j = j + 1;
    }
    results
}

/// The type of an argument or a result column, as the signatures of these
/// functions read it.
pub enum SrfType {
    Null,
    Boolean,
    Text,
    Variant,
    UInt64,
    Nullable(Box<SrfType>),
    Tuple(Vec<SrfType>),
    /// Any other type.
    Other,
}

/// The set-returning functions over JSONB values.
#[derive(Debug, Clone, Copy, PartialEq, Eq, Structural)]
pub enum SrfName {
    JsonPathQuery,
    JsonArrayElements,
    JsonEach,
    Flatten,
}

/// The type without one outer `Nullable`.
pub open spec fn remove_nullable(t: SrfType) -> SrfType {
    match t {
        SrfType::Nullable(inner) => *inner,
        _ => t,
    }
}

/// A JSONB argument: a variant, possibly nullable, or `NULL`.
pub open spec fn variant_arg(t: SrfType) -> bool {
    remove_nullable(t) is Variant || t is Null
}

/// A text argument that may be nullable, or `NULL`.
pub open spec fn nullable_text_arg(t: SrfType) -> bool {
    remove_nullable(t) is Text || t is Null
}

/// The type that is `t` or `NULL`, as the optional arguments of `FLATTEN` take it.
pub open spec fn exact_or_null(t: SrfType, want: SrfType) -> bool {
    t == want || t is Null
}

pub open spec fn nullable(t: SrfType) -> SrfType {
    SrfType::Nullable(Box::new(t))
}

/// The column types of the rows a function gives for its argument types
/// (its result is the tuple of them), or `None` when it does not take them.
pub open spec fn srf_return_columns(name: SrfName, args: Seq<SrfType>) -> Option<Seq<SrfType>> {
    match name {
        SrfName::JsonPathQuery => if args.len() == 2 && variant_arg(args[0]) && nullable_text_arg(args[1]) {
            Some(seq![nullable(SrfType::Variant)])
        } else {
            None
        },
        SrfName::JsonArrayElements => if args.len() == 1 && variant_arg(args[0]) {
            Some(seq![nullable(SrfType::Variant)])
        } else {
            None
        },
        SrfName::JsonEach => if args.len() == 1 && variant_arg(args[0]) {
            Some(seq![nullable(SrfType::Text), nullable(SrfType::Variant)])
        } else {
            None
        },
        SrfName::Flatten => if 1 <= args.len() <= 5 && variant_arg(args[0])
            && (args.len() >= 2 ==> exact_or_null(args[1], SrfType::Text))
            && (args.len() >= 3 ==> exact_or_null(args[2], SrfType::Boolean))
            && (args.len() >= 4 ==> exact_or_null(args[3], SrfType::Boolean))
            && (args.len() >= 5 ==> exact_or_null(args[4], SrfType::Text)) {
            Some(seq![
                nullable(SrfType::UInt64),
                nullable(SrfType::Text),
                nullable(SrfType::Text),
                nullable(SrfType::UInt64),
                nullable(SrfType::Variant),
                nullable(SrfType::Variant),
            ])
        } else {
            None
        },
    }
}

fn is_variant_arg(t: &SrfType) -> (r: bool)
    ensures
        r == variant_arg(*t),
{
    match t {
        SrfType::Null => true,
        SrfType::Variant => true,
        SrfType::Nullable(inner) => match &**inner {
            SrfType::Variant => true,
            _ => false,
        },
        _ => false,
    }
}

fn is_nullable_text_arg(t: &SrfType) -> (r: bool)
    ensures
        r == nullable_text_arg(*t),
{
    match t {
        SrfType::Null => true,
        SrfType::Text => true,
        SrfType::Nullable(inner) => match &**inner {
            SrfType::Text => true,
            _ => false,
        },
        _ => false,
    }
}

fn is_text_or_null(t: &SrfType) -> (r: bool)
    ensures
        r == exact_or_null(*t, SrfType::Text),
{
    match t {
        SrfType::Null => true,
        SrfType::Text => true,
        _ => false,
    }
}

fn is_boolean_or_null(t: &SrfType) -> (r: bool)
    ensures
        r == exact_or_null(*t, SrfType::Boolean),
{
    match t {
        SrfType::Null => true,
        SrfType::Boolean => true,
        _ => false,
    }
}

fn nullable_of(t: SrfType) -> (r: SrfType)
    ensures
        r == nullable(t),
{
    SrfType::Nullable(Box::new(t))
}

/// The signature check of a set-returning function: the type of the rows
/// it gives, or `None` when it does not take these argument types.
pub fn srf_signature(name: SrfName, args: &Vec<SrfType>) -> (r: Option<SrfType>)
    ensures
        match r {
            Some(SrfType::Tuple(columns)) => srf_return_columns(name, args@) == Some(columns@),
            Some(_) => false,
            None => srf_return_columns(name, args@) is None,
        },
{
    match name {
        SrfName::JsonPathQuery => {
            if args.len() == 2 && is_variant_arg(&args[0]) && is_nullable_text_arg(&args[1]) {
                Some(SrfType::Tuple(vec![nullable_of(SrfType::Variant)]))
            } else {
                None
            }
        },
        SrfName::JsonArrayElements => {
            if args.len() == 1 && is_variant_arg(&args[0]) {
                Some(SrfType::Tuple(vec![nullable_of(SrfType::Variant)]))
            } else {
                None
            }
        },
        SrfName::JsonEach => {
            if args.len() == 1 && is_variant_arg(&args[0]) {
                Some(SrfType::Tuple(vec![nullable_of(SrfType::Text), nullable_of(SrfType::Variant)]))
            } else {
                None
            }
        },
        SrfName::Flatten => {
            if args.len() == 0 || args.len() > 5 {
                return None;
            }
            if !is_variant_arg(&args[0]) {
                return None;
            }
            if args.len() >= 2 && !is_text_or_null(&args[1]) {
                return None;
            }
            if args.len() >= 3 && !is_boolean_or_null(&args[2]) {
                return None;
            }
            if args.len() >= 4 && !is_boolean_or_null(&args[3]) {
                return None;
            }
            if args.len() >= 5 && !is_text_or_null(&args[4]) {
                return None;
            }
            Some(SrfType::Tuple(vec![
                nullable_of(SrfType::UInt64),
                nullable_of(SrfType::Text),
                nullable_of(SrfType::Text),
                nullable_of(SrfType::UInt64),
                nullable_of(SrfType::Variant),
                nullable_of(SrfType::Variant),
            ]))
        },
    }
}


/// The six columns of a row of `FLATTEN` always have the same length, and
/// with `outer` that length is never 0.
pub proof fn law_generate_columns_aligned(
    g: FlattenGenerator,
    seq: u64,
    input: Seq<u8>,
    path: Seq<char>,
    params: Seq<i64>,
)
    ensures
        ({
            let c = generate_columns(g, seq, input, path, params);
            &&& c.key.len() == c.seq.len()
            &&& c.path.len() == c.seq.len()
            &&& c.index.len() == c.seq.len()
            &&& c.value.len() == c.seq.len()
            &&& c.this.len() == c.seq.len()
            &&& g.outer ==> c.seq.len() >= 1
        }),
{
}

/// An input that expands to no rows gives, with `outer`, exactly one row
/// that holds its sequence number and nulls in every other column, and
/// without `outer` no row at all.
pub proof fn law_outer_keeps_empty_inputs(
    g: FlattenGenerator,
    seq: u64,
    input: Seq<u8>,
    path: Seq<char>,
    params: Seq<i64>,
)
    requires
        generated_rows(g, input, path).len() == 0,
    ensures
        ({
            let c = generate_columns(g, seq, input, path, params);
            &&& g.outer ==> c.seq == seq![Some(seq)] && c.key == seq![None::<Seq<char>>]
                && c.path == seq![None::<Seq<char>>] && c.index == seq![None::<u64>]
                && c.value == seq![None::<Seq<u8>>] && c.this == seq![None::<Seq<u8>>]
            &&& !g.outer ==> c.seq.len() == 0
        }),
{
}

/// The columns a plan names never change how many rows `FLATTEN` gives:
/// with any `params` the six columns have the length they have when every
/// column is read, the `seq` column is the same, and every column the plan
/// reads is the same. A column it does not read holds, row by row, a
/// non-null placeholder (when the input gives rows at all).
pub proof fn law_params_keep_rows(
    g: FlattenGenerator,
    seq: u64,
    input: Seq<u8>,
    path: Seq<char>,
    params: Seq<i64>,
)
    ensures
        ({
            let c = generate_columns(g, seq, input, path, params);
            let all = generate_columns(g, seq, input, path, Seq::<i64>::empty());
            &&& c.seq == all.seq
            &&& c.key.len() == all.key.len()
            &&& c.path.len() == all.path.len()
            &&& c.index.len() == all.index.len()
            &&& c.value.len() == all.value.len()
            &&& c.this.len() == all.this.len()
            &&& (column_needed(params, 2) ==> c.key == all.key)
            &&& (column_needed(params, 3) ==> c.path == all.path)
            &&& (column_needed(params, 4) ==> c.index == all.index)
            &&& (column_needed(params, 5) ==> c.value == all.value)
            &&& (column_needed(params, 6) ==> c.this == all.this)
            &&& (generated_rows(g, input, path).len() > 0 ==> forall|j: int| 0 <= j < c.seq.len() ==> {
                &&& (!column_needed(params, 2) ==> #[trigger] c.key[j] == Some(Seq::<char>::empty()))
                &&& (!column_needed(params, 3) ==> c.path[j] == Some(Seq::<char>::empty()))
                &&& (!column_needed(params, 4) ==> c.index[j] == Some(0u64))
                &&& (!column_needed(params, 5) ==> c.value[j] == Some(Seq::<u8>::empty()))
                &&& (!column_needed(params, 6) ==> c.this[j] == Some(Seq::<u8>::empty()))
            })
        }),
{
    let c = generate_columns(g, seq, input, path, params);
    let all = generate_columns(g, seq, input, path, Seq::<i64>::empty());
    assert(c.seq =~= all.seq);
    if column_needed(params, 2) { assert(c.key =~= all.key); }
    if column_needed(params, 3) { assert(c.path =~= all.path); }
    if column_needed(params, 4) { assert(c.index =~= all.index); }
    if column_needed(params, 5) { assert(c.value =~= all.value); }
    if column_needed(params, 6) { assert(c.this =~= all.this); }
}

/// Without recursion, the rows of an array of `n` elements are its
/// elements in order: row `i` has index `i`, path `path[i]`, the element as
/// its value and the array as its container.
pub proof fn law_array_rows_are_elements(g: FlattenGenerator, value: Seq<u8>, path: Seq<char>, depth: nat, k: nat)
    requires
        !g.recursive,
        forall|i: nat| i < k ==> #[trigger] jsonb_get_by_index(value, i as usize) is Some,
        k <= usize::MAX,
    ensures
        array_rows_upto(g, value, path, depth, k).len() == k,
        forall|i: int| 0 <= i < k ==> {
            let row = #[trigger] array_rows_upto(g, value, path, depth, k)[i];
            &&& row.key is None
            &&& row.index == Some(i as u64)
            &&& row.path == index_path(path, i as nat)
            &&& Some(row.value) == jsonb_get_by_index(value, i as usize)
            &&& row.this == value
        },
    decreases k,
{
    if k > 0 {
        let i = (k - 1) as nat;
        assert(jsonb_get_by_index(value, i as usize) is Some);
        law_array_rows_are_elements(g, value, path, depth, i);
        let before = array_rows_upto(g, value, path, depth, i);
        assert forall|j: int| 0 <= j < k implies {
            let row = #[trigger] array_rows_upto(g, value, path, depth, k)[j];
            &&& row.key is None
            &&& row.index == Some(j as u64)
            &&& row.path == index_path(path, j as nat)
            &&& Some(row.value) == jsonb_get_by_index(value, j as usize)
            &&& row.this == value
        } by {
            if j < i {
                assert(array_rows_upto(g, value, path, depth, k)[j] == before[j]);
            }
        }
    }
}

/// Every row is an array element's: it has an index and no key.
pub open spec fn element_rows(rows: Seq<FlattenRowView>) -> bool {
    forall|i: int| 0 <= i < rows.len() ==> (#[trigger] rows[i]).key is None && rows[i].index is Some
}

/// Every row is an object field's: it has a key and no index.
pub open spec fn field_rows(rows: Seq<FlattenRowView>) -> bool {
    forall|i: int| 0 <= i < rows.len() ==> (#[trigger] rows[i]).key is Some && rows[i].index is None
}

proof fn lemma_element_rows_concat(a: Seq<FlattenRowView>, row: FlattenRowView, b: Seq<FlattenRowView>)
    requires
        element_rows(a),
        row.key is None && row.index is Some,
        element_rows(b),
    ensures
        element_rows(a.push(row) + b),
{
    let c = a.push(row) + b;
    assert forall|i: int| 0 <= i < c.len() implies (#[trigger] c[i]).key is None && c[i].index is Some by {
        if i < a.len() {
            assert(c[i] == a[i]);
        } else if i > a.len() {
            assert(c[i] == b[i - a.len() - 1]);
        }
    }
}

proof fn lemma_field_rows_concat(a: Seq<FlattenRowView>, row: FlattenRowView, b: Seq<FlattenRowView>)
    requires
        field_rows(a),
        row.key is Some && row.index is None,
        field_rows(b),
    ensures
        field_rows(a.push(row) + b),
{
    let c = a.push(row) + b;
    assert forall|i: int| 0 <= i < c.len() implies (#[trigger] c[i]).key is Some && c[i].index is None by {
        if i < a.len() {
            assert(c[i] == a[i]);
        } else if i > a.len() {
            assert(c[i] == b[i - a.len() - 1]);
        }
    }
}

/// In `ARRAY` mode every row, nested ones included, is an array element's:
/// it carries an index and no key.
pub proof fn law_array_mode_gives_elements(g: FlattenGenerator, value: Seq<u8>, path: Seq<char>, depth: nat)
    requires
        g.mode == FlattenMode::Array,
    ensures
        element_rows(flatten_rows(g, value, path, depth)),
    decreases depth, 2nat, 0nat,
{
    match jsonb_array_length(value) {
        Some(n) => lemma_array_rows_upto_elements(g, value, path, depth, n as nat),
        None => {},
    }
}

proof fn lemma_array_rows_upto_elements(g: FlattenGenerator, value: Seq<u8>, path: Seq<char>, depth: nat, k: nat)
    requires
        g.mode == FlattenMode::Array,
    ensures
        element_rows(array_rows_upto(g, value, path, depth, k)),
    decreases depth, 0nat, k,
{
    if k > 0 {
        let i = (k - 1) as nat;
        lemma_array_rows_upto_elements(g, value, path, depth, i);
        let before = array_rows_upto(g, value, path, depth, i);
        let inner = index_path(path, i);
        match jsonb_get_by_index(value, i as usize) {
            Some(elem) => {
                let row = FlattenRowView { key: None, path: inner, index: Some(i as u64), value: elem, this: value };
                if g.recursive && depth > 0 {
                    law_array_mode_gives_elements(g, elem, inner, (depth - 1) as nat);
                    lemma_element_rows_concat(before, row, flatten_rows(g, elem, inner, (depth - 1) as nat));
                } else {
                    lemma_element_rows_concat(before, row, Seq::empty());
                }
            },
            None => {},
        }
    }
}

/// In `OBJECT` mode every row, nested ones included, is an object field's:
/// it carries a key and no index.
pub proof fn law_object_mode_gives_fields(g: FlattenGenerator, value: Seq<u8>, path: Seq<char>, depth: nat)
    requires
        g.mode == FlattenMode::Object,
    ensures
        field_rows(flatten_rows(g, value, path, depth)),
    decreases depth, 2nat, 0nat,
{
    match jsonb_object_keys(value) {
        Some(keys) => match jsonb_array_length(keys) {
            Some(n) => lemma_object_rows_upto_fields(g, value, keys, path, depth, n as nat),
            None => {},
        },
        None => {},
    }
}

proof fn lemma_object_rows_upto_fields(
    g: FlattenGenerator,
    value: Seq<u8>,
    keys: Seq<u8>,
    path: Seq<char>,
    depth: nat,
    k: nat,
)
    requires
        g.mode == FlattenMode::Object,
    ensures
        field_rows(object_rows_upto(g, value, keys, path, depth, k)),
    decreases depth, 0nat, k,
{
    if k > 0 {
        let i = (k - 1) as nat;
        lemma_object_rows_upto_fields(g, value, keys, path, depth, i);
        let before = object_rows_upto(g, value, keys, path, depth, i);
        match jsonb_get_by_index(keys, i as usize) {
            Some(key) => match jsonb_as_str(key) {
                Some(name) => match jsonb_get_by_name(value, name, false) {
                    Some(elem) => {
                        let inner = field_path(path, name);
                        let row = FlattenRowView { key: Some(name), path: inner, index: None, value: elem, this: value };
                        if g.recursive && depth > 0 {
                            law_object_mode_gives_fields(g, elem, inner, (depth - 1) as nat);
                            lemma_field_rows_concat(before, row, flatten_rows(g, elem, inner, (depth - 1) as nat));
                        } else {
                            lemma_field_rows_concat(before, row, Seq::empty());
                        }
                    },
                    None => {},
                },
                None => {},
            },
            None => {},
        }
    }
}

/// Every row `FLATTEN` gives for input row `row` carries the sequence
/// number `row + 1`, whatever the value, path and columns read.
pub proof fn law_seq_numbers_rows(
    g: FlattenGenerator,
    path: Option<Seq<char>>,
    params: Seq<i64>,
    row: int,
    value: Seq<u8>,
)
    requires
        0 <= row < u64::MAX,
    ensures
        forall|i: int| 0 <= i < flatten_row_columns(g, path, params, row, value).seq.len()
            ==> #[trigger] flatten_row_columns(g, path, params, row, value).seq[i] == Some((row + 1) as u64),
{
}

/// The text of key `i` of an object's key array.
pub open spec fn key_name(keys: Seq<u8>, i: nat) -> Seq<char> {
    jsonb_as_str(jsonb_get_by_index(keys, i as usize).unwrap()).unwrap()
}

/// Without recursion, the rows of an object whose `k` keys each name a
/// field are its fields in the order of the keys: row `i` has key `i` as
/// its key, no index, the path of the field, the field's value, and the
/// object as its container.
pub proof fn law_object_rows_are_fields(
    g: FlattenGenerator,
    value: Seq<u8>,
    keys: Seq<u8>,
    path: Seq<char>,
    depth: nat,
    k: nat,
)
    requires
        !g.recursive,
        forall|i: nat| i < k ==> ((#[trigger] jsonb_get_by_index(keys, i as usize)) matches Some(key)
            && jsonb_as_str(key) matches Some(name) && jsonb_get_by_name(value, name, false) is Some),
        k <= usize::MAX,
    ensures
        object_rows_upto(g, value, keys, path, depth, k).len() == k,
        forall|i: int| 0 <= i < k ==> {
            let row = #[trigger] object_rows_upto(g, value, keys, path, depth, k)[i];
            &&& row.key == Some(key_name(keys, i as nat))
            &&& row.index is None
            &&& row.path == field_path(path, key_name(keys, i as nat))
            &&& Some(row.value) == jsonb_get_by_name(value, key_name(keys, i as nat), false)
            &&& row.this == value
        },
    decreases k,
{
    if k > 0 {
        let i = (k - 1) as nat;
        assert(jsonb_get_by_index(keys, i as usize) is Some);
        law_object_rows_are_fields(g, value, keys, path, depth, i);
        let before = object_rows_upto(g, value, keys, path, depth, i);
        assert forall|j: int| 0 <= j < k implies {
            let row = #[trigger] object_rows_upto(g, value, keys, path, depth, k)[j];
            &&& row.key == Some(key_name(keys, j as nat))
            &&& row.index is None
            &&& row.path == field_path(path, key_name(keys, j as nat))
            &&& Some(row.value) == jsonb_get_by_name(value, key_name(keys, j as nat), false)
            &&& row.this == value
        } by {
            if j < i {
                assert(object_rows_upto(g, value, keys, path, depth, k)[j] == before[j]);
            }
        }
    }
}

} // verus!
