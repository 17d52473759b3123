//! `CHECK_JSON(value)`: for each row, `NULL` when the value is valid JSON
//! (or not a text at all), else the message of the parse error.

use vstd::prelude::*;

use crate::error::ErrorCode;
use crate::text::{to_uppercase, uppercase};

verus! {

/// What `serde_json::from_str::<serde_json::Value>` reports for a text: no
/// error, or the text of its error.
pub uninterp spec fn json_parse_error(text: Seq<char>) -> Option<Seq<char>>;

/// What `std::str::from_utf8` gives for some bytes: the decoded text, or
/// the text of its error.
pub uninterp spec fn utf8_decode(bytes: Seq<u8>) -> Result<Seq<char>, Seq<char>>;

/// `serde_json::from_str::<serde_json::Value>`: `None` when the text parses,
/// else the error's text; named by `json_parse_error`.
#[verifier::external_body]
fn parse_error(text: &str) -> (r: Option<String>)
    ensures
        match r {
            Some(m) => json_parse_error(text@) == Some(m@),
            None => json_parse_error(text@) is None,
        },
{
    match serde_json::from_str::<serde_json::Value>(text) {
        Ok(_) => None,
        Err(e) => Some(e.to_string()),
    }
}

/// `std::str::from_utf8`: the text, or the error's text; named by
/// `utf8_decode`.
#[verifier::external_body]
fn decode_utf8(bytes: &[u8]) -> (r: Result<String, String>)
    ensures
        match r {
            Ok(s) => utf8_decode(bytes@) == Ok::<Seq<char>, Seq<char>>(s@),
            Err(m) => utf8_decode(bytes@) == Err::<Seq<char>, Seq<char>>(m@),
        },
{
    match std::str::from_utf8(bytes) {
        Ok(s) => Ok(s.to_string()),
        Err(e) => Err(e.to_string()),
    }
}

/// The kind of the argument's values.
#[derive(Debug, Clone, Copy, PartialEq, Eq, Structural)]
pub enum ValueKind {
    Null,
    Array,
    Struct,
    Text,
    Variant,
    /// Any other type.
    Other,
}

/// The type of the argument: its kind, and whether it is nullable.
#[derive(Debug, Clone, Copy, PartialEq, Eq, Structural)]
pub struct CheckJsonArgType {
    pub kind: ValueKind,
    pub nullable: bool,
}

/// The type of the result.
#[derive(Debug, Clone, Copy, PartialEq, Eq, Structural)]
pub enum CheckJsonReturnType {
    Null,
    NullableVariant,
    Variant,
}

/// A value of a variant column: a JSON string, or any other JSON value.
pub enum VariantValue {
    Text(String),
    NotText,
}

/// The values of the argument column.
pub enum CheckJsonValues {
    Null,
    Array,
    Struct,
    Text(Vec<Vec<u8>>),
    Variant(Vec<VariantValue>),
    Other,
}

/// The argument column: its values and, for a nullable column, which rows
/// hold a value.
pub struct CheckJsonColumn {
    pub validity: Option<Vec<bool>>,
    pub values: CheckJsonValues,
}

/// The result column: all `NULL` of the `NULL` type, or for each row `None`
/// or a message.
pub enum CheckJsonOutput {
    AllNull { rows: usize },
    Messages(Vec<Option<String>>),
}

/// The properties under which the function is registered.
#[derive(Debug, Clone, Copy, PartialEq, Eq, Structural)]
pub struct FunctionFeatures {
    pub deterministic: bool,
    pub monotonicity: bool,
    pub num_arguments: usize,
}

pub struct CheckJsonFunction {
    display_name: String,
}

pub open spec fn invalid_array_message() -> Seq<char> {
    "Invalid argument types for function 'CHECK_JSON': (ARRAY)"@
}

pub open spec fn invalid_struct_message() -> Seq<char> {
    "Invalid argument types for function 'CHECK_JSON': (STRUCT)"@
}

/// The result for a text row: `None` for valid JSON, else the error of
/// the UTF-8 decoding or of the JSON parse.
pub open spec fn text_check(bytes: Seq<u8>) -> Option<Seq<char>> {
    match utf8_decode(bytes) {
        Ok(text) => json_parse_error(text),
        Err(m) => Some(m),
    }
}

/// The result for a variant row: a JSON string is checked as JSON text.
pub open spec fn variant_check(v: VariantValue) -> Option<Seq<char>> {
    match v {
        VariantValue::Text(s) => json_parse_error(s@),
        VariantValue::NotText => None,
    }
}

pub open spec fn message_view(o: Option<String>) -> Option<Seq<char>> {
    match o {
        Some(s) => Some(s@),
        None => None,
    }
}

pub open spec fn messages_view(m: Seq<Option<String>>) -> Seq<Option<Seq<char>>> {
    m.map_values(|o: Option<String>| message_view(o))
}

proof fn lemma_messages_view_push(m: Seq<Option<String>>, o: Option<String>)
    ensures
        messages_view(m.push(o)) == messages_view(m).push(message_view(o)),
{
    assert(messages_view(m.push(o)) =~= messages_view(m).push(message_view(o)));
}

/// A row of a nullable text column that holds no value.
pub open spec fn row_is_null(validity: Option<Vec<bool>>, i: int) -> bool {
    match validity {
        Some(bits) => !bits@[i],
        None => false,
    }
}

/// The result of `CHECK_JSON` over a column with `input_rows` rows.
pub open spec fn check_json_result(column: CheckJsonColumn, input_rows: nat) -> Option<Seq<Option<Seq<char>>>> {
    match column.values {
        CheckJsonValues::Null => None,
        CheckJsonValues::Array => Some(Seq::new(input_rows, |i: int| Some(invalid_array_message()))),
        CheckJsonValues::Struct => Some(Seq::new(input_rows, |i: int| Some(invalid_struct_message()))),
        CheckJsonValues::Text(values) => Some(Seq::new(values@.len(), |i: int|
            if row_is_null(column.validity, i) { None } else { text_check(values@[i]@) })),
        CheckJsonValues::Variant(values) => Some(Seq::new(values@.len(), |i: int| variant_check(values@[i]))),
        CheckJsonValues::Other => Some(Seq::new(input_rows, |i: int| None)),
    }
}

impl CheckJsonFunction {
    pub closed spec fn spec_display_name(&self) -> Seq<char> {
        self.display_name@
    }

    pub fn try_create(display_name: &str) -> (r: Result<CheckJsonFunction, ErrorCode>)
        ensures
            r matches Ok(f) && f.spec_display_name() == display_name@,
    {
        Ok(CheckJsonFunction { display_name: String::from_str(display_name) })
    }

    /// The function is deterministic and monotonic, and takes one argument.
    pub fn desc() -> (r: FunctionFeatures)
        ensures
            r == (FunctionFeatures { deterministic: true, monotonicity: true, num_arguments: 1 }),
    {
        FunctionFeatures { deterministic: true, monotonicity: true, num_arguments: 1 }
    }

    pub fn name(&self) -> (r: &str)
        ensures
            r@ == self.spec_display_name(),
    {
        self.display_name.as_str()
    }

    /// The name in upper case, as the function displays itself.
    pub fn to_string(&self) -> (r: String)
        ensures
            r@ == uppercase(self.spec_display_name()),
    {
        to_uppercase(self.display_name.as_str())
    }

    /// `NULL` for a `NULL` argument, a nullable variant for a nullable one,
    /// else a variant.
    pub fn return_type(arg: CheckJsonArgType) -> (r: CheckJsonReturnType)
        ensures
            r == (if !arg.nullable && arg.kind == ValueKind::Null {
                CheckJsonReturnType::Null
            } else if arg.nullable {
                CheckJsonReturnType::NullableVariant
            } else {
                CheckJsonReturnType::Variant
            }),
    {
        if !arg.nullable && arg.kind == ValueKind::Null {
            CheckJsonReturnType::Null
        } else if arg.nullable {
            CheckJsonReturnType::NullableVariant
        } else {
            CheckJsonReturnType::Variant
        }
    }

    /// The result column for `input_rows` rows of the argument.
    pub fn eval(column: &CheckJsonColumn, input_rows: usize) -> (r: CheckJsonOutput)
        requires
            column.values matches CheckJsonValues::Text(values) ==> (column.validity matches Some(bits)
                ==> values@.len() <= bits@.len()),
        ensures
            match check_json_result(*column, input_rows as nat) {
                None => r == (CheckJsonOutput::AllNull { rows: input_rows }),
                Some(m) => r matches CheckJsonOutput::Messages(out) && messages_view(out@) == m,
            },
    {
        match &column.values {
            CheckJsonValues::Null => CheckJsonOutput::AllNull { rows: input_rows },
            CheckJsonValues::Array => {
                let out = repeat_message(
                    "Invalid argument types for function 'CHECK_JSON': (ARRAY)",
                    input_rows,
                );
                proof {
                    let want = check_json_result(*column, input_rows as nat).unwrap();
                    assert(messages_view(out@) =~= want);
                }
                CheckJsonOutput::Messages(out)
            },
            CheckJsonValues::Struct => {
                let out = repeat_message(
                    "Invalid argument types for function 'CHECK_JSON': (STRUCT)",
                    input_rows,
                );
                proof {
                    let want = check_json_result(*column, input_rows as nat).unwrap();
                    assert(messages_view(out@) =~= want);
                }
                CheckJsonOutput::Messages(out)
            },
            CheckJsonValues::Text(values) => {
                let mut out: Vec<Option<String>> = Vec::new();
                let mut i: usize = 0;
                while i < values.len()
                    invariant
                        i <= values@.len(),
                        column.values == CheckJsonValues::Text(*values),
                        column.validity matches Some(bits) ==> values@.len() <= bits@.len(),
                        out@.len() == i,
                        forall|k: int| 0 <= k < i ==> messages_view(out@)[k]
                            == (if row_is_null(column.validity, k) { None } else { text_check(values@[k]@) }),
                    decreases values@.len() - i,
                {
                    let ghost before = out@;
                    let is_null = match &column.validity {
                        Some(bits) => !bits[i],
                        None => false,
                    };
                    if is_null {
                        out.push(None);
                    } else {
                        match decode_utf8(values[i].as_slice()) {
                            Ok(text) => out.push(parse_error(text.as_str())),
                            Err(m) => out.push(Some(m)),
                        }
                    }
                    proof {
                        lemma_messages_view_push(before, out@[i as int]);
                        assert(out@ == before.push(out@[i as int]));
                        assert(message_view(out@[i as int])
                            == (if row_is_null(column.validity, i as int) { None } else { text_check(values@[i as int]@) }));
                    }
                    i = i + 1;
                }
                proof {
                    let want = check_json_result(*column, input_rows as nat).unwrap();
                    assert(messages_view(out@) =~= want);
                }
                CheckJsonOutput::Messages(out)
            },
            CheckJsonValues::Variant(values) => {
                let mut out: Vec<Option<String>> = Vec::new();
                let mut i: usize = 0;
                while i < values.len()
                    invariant
                        i <= values@.len(),
                        out@.len() == i,
                        forall|k: int| 0 <= k < i ==> messages_view(out@)[k] == variant_check(values@[k]),
                    decreases values@.len() - i,
                {
                    let ghost before = out@;
                    match &values[i] {
                        VariantValue::Text(s) => out.push(parse_error(s.as_str())),
                        VariantValue::NotText => out.push(None),
                    }
                    proof {
                        lemma_messages_view_push(before, out@[i as int]);
                        assert(out@ == before.push(out@[i as int]));
                        assert(message_view(out@[i as int]) == variant_check(values@[i as int]));
                    }
                    i = i + 1;
                }
                proof {
                    let want = check_json_result(*column, input_rows as nat).unwrap();
                    assert(messages_view(out@) =~= want);
                }
                CheckJsonOutput::Messages(out)
            },
            CheckJsonValues::Other => {
                let mut out: Vec<Option<String>> = Vec::new();
                let mut i: usize = 0;
                while i < input_rows
                    invariant
                        i <= input_rows,
                        out@.len() == i,
                        forall|k: int| 0 <= k < i ==> (#[trigger] out@[k]) is None,
                    decreases input_rows - i,
                {
                    out.push(None);
                    i = i + 1;
                }
                proof {
                    let want = check_json_result(*column, input_rows as nat).unwrap();
                    assert(messages_view(out@) =~= want);
                }
                CheckJsonOutput::Messages(out)
            },
        }
    }
}

/// `rows` copies of a message.
fn repeat_message(message: &str, rows: usize) -> (r: Vec<Option<String>>)
    ensures
        r@.len() == rows,
        forall|k: int| 0 <= k < rows ==> ((#[trigger] r@[k]) matches Some(m) && m@ == message@),
{
    let mut out: Vec<Option<String>> = Vec::new();
    let mut i: usize = 0;
    while i < rows
        invariant
            i <= rows,
            out@.len() == i,
            forall|k: int| 0 <= k < i ==> ((#[trigger] out@[k]) matches Some(m) && m@ == message@),
        decreases rows - i,
    {
        out.push(Some(String::from_str(message)));
        i = i + 1;
    }
    out
}

/// `CHECK_JSON` reports per row: a `NULL` row of a text column gives no
/// message, a row that is valid JSON text gives none, and one that is not
/// UTF-8 or not JSON gives the error; every row of an array or struct column
/// is refused with a message naming that kind, and rows of other types are
/// never refused.
pub proof fn law_check_json_rows(column: CheckJsonColumn, input_rows: nat, i: int)
    ensures
        column.values is Null <==> check_json_result(column, input_rows) is None,
        column.values matches CheckJsonValues::Text(values) ==> {
            let m = check_json_result(column, input_rows).unwrap();
            &&& m.len() == values@.len()
            &&& 0 <= i < values@.len() ==> {
                &&& row_is_null(column.validity, i) ==> m[i] is None
                &&& (!row_is_null(column.validity, i) && utf8_decode(values@[i]@) is Ok)
                    ==> m[i] == json_parse_error(utf8_decode(values@[i]@)->Ok_0)
                &&& (!row_is_null(column.validity, i) && utf8_decode(values@[i]@) is Err)
                    ==> m[i] == Some(utf8_decode(values@[i]@)->Err_0)
            }
        },
        column.values is Array || column.values is Struct || column.values is Other ==> {
            let m = check_json_result(column, input_rows).unwrap();
            &&& m.len() == input_rows
            &&& 0 <= i < input_rows ==> (m[i] is Some <==> !(column.values is Other))
        },
        invalid_array_message() != invalid_struct_message(),
{
    reveal_strlit("Invalid argument types for function 'CHECK_JSON': (ARRAY)");
    reveal_strlit("Invalid argument types for function 'CHECK_JSON': (STRUCT)");
    assert(invalid_array_message().len() != invalid_struct_message().len());
}

} // verus!
