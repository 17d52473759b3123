//! The `INFER_SCHEMA(location => ...)` table function: one row per column
//! of the first Parquet file at a location.
//!
//! Reading the stage, the connection and the file is outside work; the
//! checks between those reads, and the rows built from the schema read, are
//! decided here.

use vstd::prelude::*;

use crate::error::{ErrorCode, ErrorKind};

verus! {

/// The types of the columns the table function gives.
#[derive(Debug, Clone, Copy, PartialEq, Eq, Structural)]
pub enum InferColumnType {
    Text,
    Boolean,
    UInt64,
}

/// A column of the table function's own schema.
pub struct InferSchemaField {
    pub name: String,
    pub data_type: InferColumnType,
}

/// What the catalog records of the table function.
pub struct InferSchemaTable {
    pub table_id: u64,
    pub desc: String,
    pub name: String,
    pub engine: String,
    pub schema: Vec<InferSchemaField>,
}

pub open spec fn infer_schema_fields() -> Seq<(Seq<char>, InferColumnType)> {
    seq![
        ("column_name"@, InferColumnType::Text),
        ("type"@, InferColumnType::Text),
        ("nullable"@, InferColumnType::Boolean),
        ("order_id"@, InferColumnType::UInt64),
    ]
}

pub open spec fn fields_view(fields: Seq<InferSchemaField>) -> Seq<(Seq<char>, InferColumnType)> {
    fields.map_values(|f: InferSchemaField| (f.name@, f.data_type))
}

fn field(name: &str, data_type: InferColumnType) -> (f: InferSchemaField)
    ensures
        f.name@ == name@,
        f.data_type == data_type,
{
    InferSchemaField { name: String::from_str(name), data_type }
}

impl InferSchemaTable {
    /// The columns: `column_name` and `type` (texts), `nullable` (a
    /// boolean) and `order_id` (an unsigned integer).
    pub fn schema() -> (r: Vec<InferSchemaField>)
        ensures
            fields_view(r@) == infer_schema_fields(),
    {
        let r = vec![
            field("column_name", InferColumnType::Text),
            field("type", InferColumnType::Text),
            field("nullable", InferColumnType::Boolean),
            field("order_id", InferColumnType::UInt64),
        ];
        assert(fields_view(r@) =~= infer_schema_fields());
        r
    }

    /// The table of a call, described as `'database'.'function'`, under
    /// the `infer_schema` engine.
    pub fn create(database_name: &str, table_func_name: &str, table_id: u64) -> (t: InferSchemaTable)
        ensures
            t.table_id == table_id,
            t.desc@ == "'"@ + database_name@ + "'.'"@ + table_func_name@ + "'"@,
            t.name@ == table_func_name@,
            t.engine@ == "infer_schema"@,
            fields_view(t.schema@) == infer_schema_fields(),
    {
        let mut desc = String::from_str("'");
        desc.append(database_name);
        desc.append("'.'");
        desc.append(table_func_name);
        desc.append("'");
        InferSchemaTable {
            table_id,
            desc,
            name: String::from_str(table_func_name),
            engine: String::from_str("infer_schema"),
            schema: InferSchemaTable::schema(),
        }
    }
}

/// Where the files are, as the first step of `generate` decides it.
pub enum InferLocation {
    /// The source has given its block already: nothing more to read.
    Finished,
    /// A named stage, and the path within it.
    Stage(String),
    /// A URI whose credentials come from the named connection.
    ConnectionUri { connection_name: String, location: String },
    /// A URI without a connection.
    Uri(String),
}

/// The first step of `generate`: a location that starts with `@` names a
/// stage; otherwise it is a URI, read with the connection when one is named.
pub fn infer_location(is_finished: bool, location: &str, connection_name: &Option<String>) -> (r: InferLocation)
    ensures
        is_finished ==> r is Finished,
        !is_finished && location@.len() > 0 && location@[0] == '@' ==> (r matches InferLocation::Stage(s)
            && s@ == location@.subrange(1, location@.len() as int)),
        !is_finished && !(location@.len() > 0 && location@[0] == '@') ==> match connection_name {
            Some(c) => r matches InferLocation::ConnectionUri { connection_name: n, location: l }
                && n@ == c@ && l@ == location@,
            None => r matches InferLocation::Uri(l) && l@ == location@,
        },
{
    if is_finished {
        return InferLocation::Finished;
    }
    let n = location.unicode_len();
    if n > 0 && location.get_char(0) == '@' {
        let rest = location.substring_char(1, n);
        InferLocation::Stage(String::from_str(rest))
    } else {
        match connection_name {
            Some(c) => InferLocation::ConnectionUri {
                connection_name: c.clone(),
                location: String::from_str(location),
            },
            None => InferLocation::Uri(String::from_str(location)),
        }
    }
}

/// The source of the table function's one block: the location and
/// connection it reads, and whether it has given its block already.
pub struct InferSchemaSource {
    is_finished: bool,
    location: String,
    connection_name: Option<String>,
}

/// What a source holds, as the contracts see it.
pub struct InferSchemaSourceView {
    pub is_finished: bool,
    pub location: Seq<char>,
    pub connection_name: Option<Seq<char>>,
}

impl View for InferSchemaSource {
    type V = InferSchemaSourceView;

    closed spec fn view(&self) -> InferSchemaSourceView {
        InferSchemaSourceView {
            is_finished: self.is_finished,
            location: self.location@,
            connection_name: match self.connection_name {
                Some(c) => Some(c@),
                None => None,
            },
        }
    }
}

/// The source after one call of `generate`: finished, whatever it held.
pub open spec fn source_after_generate(s: InferSchemaSourceView) -> InferSchemaSourceView {
    InferSchemaSourceView { is_finished: true, ..s }
}

/// The source after `n` calls of `generate`.
pub open spec fn source_after_calls(s: InferSchemaSourceView, n: nat) -> InferSchemaSourceView
    decreases n,
{
    if n == 0 {
        s
    } else {
        source_after_generate(source_after_calls(s, (n - 1) as nat))
    }
}

/// How many of the first `n` calls of `generate` read a location (each of
/// them gives at most one block); the others give nothing at once.
pub open spec fn reading_calls(s: InferSchemaSourceView, n: nat) -> nat
    decreases n,
{
    if n == 0 {
        0
    } else {
        reading_calls(s, (n - 1) as nat) + if source_after_calls(s, (n - 1) as nat).is_finished { 0nat } else { 1nat }
    }
}

impl InferSchemaSource {
    /// A fresh source for the given location and connection.
    pub fn create(location: String, connection_name: Option<String>) -> (s: InferSchemaSource)
        ensures
            !s@.is_finished,
            s@.location == location@,
            s@.connection_name == (match connection_name {
                Some(c) => Some(c@),
                None => None::<Seq<char>>,
            }),
    {
        InferSchemaSource { is_finished: false, location, connection_name }
    }

    /// Whether the source has given its block already.
    pub fn is_finished(&self) -> (r: bool)
        ensures
            r == self@.is_finished,
    {
        self.is_finished
    }

    /// The first step of `generate`: the source becomes finished, and the
    /// location to read is returned, or `Finished` when an earlier call
    /// read it already (that call's outcome, block or error, is the only one).
    pub fn generate(&mut self) -> (r: InferLocation)
        ensures
            final(self)@ == source_after_generate(old(self)@),
            r is Finished <==> old(self)@.is_finished,
            !old(self)@.is_finished && old(self)@.location.len() > 0 && old(self)@.location[0] == '@' ==> (
                r matches InferLocation::Stage(st)
                && st@ == old(self)@.location.subrange(1, old(self)@.location.len() as int)),
            !old(self)@.is_finished && !(old(self)@.location.len() > 0 && old(self)@.location[0] == '@') ==>
                match old(self)@.connection_name {
                    Some(c) => r matches InferLocation::ConnectionUri { connection_name: n, location: l }
                        && n@ == c && l@ == old(self)@.location,
                    None => r matches InferLocation::Uri(l) && l@ == old(self)@.location,
                },
    {
        let r = infer_location(self.is_finished, self.location.as_str(), &self.connection_name);
        self.is_finished = true;
        r
    }
}

/// A source reads its location at most once over its lifetime, whatever
/// each call returned: of any number of calls of `generate`, exactly one
/// reads when the source was fresh and there was a call, and none otherwise.
pub proof fn law_source_reads_at_most_once(s: InferSchemaSourceView, n: nat)
    ensures
        reading_calls(s, n) <= 1,
        reading_calls(s, n) == (if n > 0 && !s.is_finished { 1nat } else { 0nat }),
        n > 0 ==> source_after_calls(s, n).is_finished,
    decreases n,
{
    if n > 0 {
        law_source_reads_at_most_once(s, (n - 1) as nat);
        if n > 1 {
            assert(source_after_calls(s, (n - 1) as nat).is_finished);
        }
    }
}

pub open spec fn protocol_mismatch_message(connection_name: Seq<char>, proto: Seq<char>, uri_proto: Seq<char>) -> Seq<char> {
    "protocol from connection_name="@ + connection_name + " ("@ + proto + ") not match with uri protocol ("@
        + uri_proto + ")."@
}

/// The URI of a connection must use the connection's own protocol;
/// `same_scheme` tells whether the two parse to the same storage scheme, and
/// `proto` is the connection's scheme as it displays.
pub fn check_connection_protocol(
    connection_name: &str,
    proto: &str,
    uri_protocol: &str,
    same_scheme: bool,
) -> (r: Result<(), ErrorCode>)
    ensures
        same_scheme ==> r is Ok,
        !same_scheme ==> (r matches Err(e) && e@ == (ErrorKind::BadArguments,
            protocol_mismatch_message(connection_name@, proto@, uri_protocol@))),
{
    if same_scheme {
        Ok(())
    } else {
        let mut m = String::from_str("protocol from connection_name=");
        m.append(connection_name);
        m.append(" (");
        m.append(proto);
        m.append(") not match with uri protocol (");
        m.append(uri_protocol);
        m.append(").");
        Err(ErrorCode::new(ErrorKind::BadArguments, m))
    }
}

pub open spec fn permission_denied_message(stage_name: Seq<char>, user: Seq<char>) -> Seq<char> {
    "Permission denied, privilege READ is required on stage "@ + stage_name + " for user "@ + user
}

/// With the role-based access check enabled, reading a stage that is not
/// temporary needs the user to see it.
pub fn check_stage_visibility(
    rbac_check: bool,
    is_temporary: bool,
    visible: bool,
    stage_name: &str,
    user_identity: &str,
) -> (r: Result<(), ErrorCode>)
    ensures
        (rbac_check && !is_temporary && !visible) ==> (r matches Err(e) && e@ == (ErrorKind::PermissionDenied,
            permission_denied_message(stage_name@, user_identity@))),
        !(rbac_check && !is_temporary && !visible) ==> r is Ok,
{
    if rbac_check && !is_temporary && !visible {
        let mut m = String::from_str("Permission denied, privilege READ is required on stage ");
        m.append(stage_name);
        m.append(" for user ");
        m.append(user_identity);
        Err(ErrorCode::new(ErrorKind::PermissionDenied, m))
    } else {
        Ok(())
    }
}

pub open spec fn parquet_only_message() -> Seq<char> {
    "infer_schema is currently limited to format Parquet"@
}

/// Only Parquet files can be read.
pub fn check_file_format(is_parquet: bool) -> (r: Result<(), ErrorCode>)
    ensures
        is_parquet ==> r is Ok,
        !is_parquet ==> (r matches Err(e) && e@ == (ErrorKind::BadArguments, parquet_only_message())),
{
    if is_parquet {
        Ok(())
    } else {
        Err(ErrorCode::new(
            ErrorKind::BadArguments,
            String::from_str("infer_schema is currently limited to format Parquet"),
        ))
    }
}

/// A column of the file's schema: its name, the SQL name of its type with
/// every nullable removed, and whether it is nullable.
pub struct FileColumn {
    pub name: String,
    pub sql_type: String,
    pub nullable: bool,
}

/// The block the table function gives: a row per column of the file.
pub struct InferSchemaBlock {
    pub names: Vec<String>,
    pub types: Vec<String>,
    pub nulls: Vec<bool>,
    pub order_ids: Vec<u64>,
}

/// The rows for the columns of the file's schema, in order, numbered from 0.
pub fn schema_rows(columns: &Vec<FileColumn>) -> (b: InferSchemaBlock)
    ensures
        b.names@.len() == columns@.len(),
        b.types@.len() == columns@.len(),
        b.nulls@.len() == columns@.len(),
        b.order_ids@.len() == columns@.len(),
        forall|i: int| 0 <= i < columns@.len() ==> {
            &&& (#[trigger] b.names@[i])@ == columns@[i].name@
            &&& b.types@[i]@ == columns@[i].sql_type@
            &&& b.nulls@[i] == columns@[i].nullable
            &&& b.order_ids@[i] == i
        },
{
    let mut b = InferSchemaBlock { names: Vec::new(), types: Vec::new(), nulls: Vec::new(), order_ids: Vec::new() };
    let mut i: usize = 0;
    while i < columns.len()
        invariant
            i <= columns@.len(),
            b.names@.len() == i,
            b.types@.len() == i,
            b.nulls@.len() == i,
            b.order_ids@.len() == i,
            forall|k: int| 0 <= k < i ==> {
                &&& (#[trigger] b.names@[k])@ == columns@[k].name@
                &&& b.types@[k]@ == columns@[k].sql_type@
                &&& b.nulls@[k] == columns@[k].nullable
                &&& b.order_ids@[k] == k
            },
        decreases columns@.len() - i,
    {
        b.names.push(columns[i].name.clone());
        b.types.push(columns[i].sql_type.clone());
        b.nulls.push(columns[i].nullable);
        b.order_ids.push(i as u64);
        i = i + 1;
    }
    b
}

} // verus!
