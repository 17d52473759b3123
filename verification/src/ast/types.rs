use vstd::prelude::*;

use crate::text::{decimal, u64_to_decimal};

verus! {

#[derive(Debug, PartialEq)]
pub enum TypeName {
    Boolean,
    UInt8,
    UInt16,
    UInt32,
    UInt64,
    Int8,
    Int16,
    Int32,
    Int64,
    Float32,
    Float64,
    Decimal { precision: u8, scale: u8 },
    Date,
    Timestamp,
    Binary,
    String,
    Array(Box<TypeName>),
    MapType { key_type: Box<TypeName>, val_type: Box<TypeName> },
    Bitmap,
    Tuple { fields_name: Option<Vec<String>>, fields_type: Vec<TypeName> },
    Variant,
    Nullable(Box<TypeName>),
    NotNull(Box<TypeName>),
}

/// The SQL text of a type name.
pub open spec fn type_sql(t: TypeName) -> Seq<char>
    decreases t, 0nat,
{
    match t {
        TypeName::Boolean => "BOOLEAN"@,
        TypeName::UInt8 => "UInt8"@,
        TypeName::UInt16 => "UInt16"@,
        TypeName::UInt32 => "UInt32"@,
        TypeName::UInt64 => "UInt64"@,
        TypeName::Int8 => "Int8"@,
        TypeName::Int16 => "Int16"@,
        TypeName::Int32 => "Int32"@,
        TypeName::Int64 => "Int64"@,
        TypeName::Float32 => "Float32"@,
        TypeName::Float64 => "Float64"@,
        TypeName::Decimal { precision, scale } =>
            "Decimal("@ + decimal(precision as nat) + ", "@ + decimal(scale as nat) + ")"@,
        TypeName::Date => "DATE"@,
        TypeName::Timestamp => "TIMESTAMP"@,
        TypeName::Binary => "BINARY"@,
        TypeName::String => "STRING"@,
        TypeName::Array(ty) => "ARRAY("@ + type_sql(*ty) + ")"@,
        TypeName::MapType { key_type, val_type } =>
            "MAP("@ + type_sql(*key_type) + ", "@ + type_sql(*val_type) + ")"@,
        TypeName::Bitmap => "BITMAP"@,
        TypeName::Tuple { fields_name, fields_type } => {
            let n = match fields_name {
                Some(names) => if names@.len() < fields_type@.len() { names@.len() } else { fields_type@.len() },
                None => fields_type@.len(),
            };
            "TUPLE("@ + tuple_fields_sql(fields_name, fields_type@, n) + ")"@
        },
        TypeName::Variant => "VARIANT"@,
        TypeName::Nullable(ty) => type_sql(*ty) + " NULL"@,
        TypeName::NotNull(ty) => type_sql(*ty) + " NOT NULL"@,
    }
}

/// The first `k` fields of a tuple type, separated by `", "`: each field is
/// `name type` when the tuple names its fields, and `type` when it does not.
pub open spec fn tuple_fields_sql(names: Option<Vec<String>>, types: Seq<TypeName>, k: nat) -> Seq<char>
    decreases types, k,
{
    if k == 0 || k > types.len() {
        Seq::empty()
    } else {
        let field = match names {
            Some(ns) => ns@[k - 1]@ + " "@ + type_sql(types[k - 1]),
            None => type_sql(types[k - 1]),
        };
        if k == 1 {
            field
        } else {
            tuple_fields_sql(names, types, (k - 1) as nat) + ", "@ + field
        }
    }
}

impl TypeName {
    pub open spec fn spec_is_nullable(&self) -> bool {
        self is Nullable
    }

    /// Whether the type is `T NULL`.
    pub fn is_nullable(&self) -> (b: bool)
        ensures
            b == self.spec_is_nullable(),
    {
        match self {
            TypeName::Nullable(_) => true,
            _ => false,
        }
    }

    /// Wraps the type in `Nullable`, unless it is already nullable.
    pub fn wrap_nullable(self) -> (t: TypeName)
        ensures
            t == nullable_of(self),
    {
        if !self.is_nullable() {
            TypeName::Nullable(Box::new(self))
        } else {
            self
        }
    }

    /// Wraps the type in `NotNull`, unless it already is `NotNull`.
    pub fn wrap_not_null(self) -> (t: TypeName)
        ensures
            t == not_null_of(self),
    {
        match self {
            TypeName::NotNull(_) => self,
            _ => TypeName::NotNull(Box::new(self)),
        }
    }

    /// The type as it is written in SQL.
    pub fn to_string(&self) -> (s: String)
        ensures
            s@ == type_sql(*self),
        decreases self,
    {
        match self {
            TypeName::Boolean => String::from_str("BOOLEAN"),
            TypeName::UInt8 => String::from_str("UInt8"),
            TypeName::UInt16 => String::from_str("UInt16"),
            TypeName::UInt32 => String::from_str("UInt32"),
            TypeName::UInt64 => String::from_str("UInt64"),
            TypeName::Int8 => String::from_str("Int8"),
            TypeName::Int16 => String::from_str("Int16"),
            TypeName::Int32 => String::from_str("Int32"),
            TypeName::Int64 => String::from_str("Int64"),
            TypeName::Float32 => String::from_str("Float32"),
            TypeName::Float64 => String::from_str("Float64"),
            TypeName::Decimal { precision, scale } => {
                let s = String::from_str("Decimal(");
                let p = u64_to_decimal(*precision as u64);
                let s = s.concat(p.as_str());
                let s = s.concat(", ");
                let sc = u64_to_decimal(*scale as u64);
                let s = s.concat(sc.as_str());
                s.concat(")")
            },
            TypeName::Date => String::from_str("DATE"),
            TypeName::Timestamp => String::from_str("TIMESTAMP"),
            TypeName::Binary => String::from_str("BINARY"),
            TypeName::String => String::from_str("STRING"),
            TypeName::Array(ty) => {
                let inner = ty.to_string();
                let s = String::from_str("ARRAY(");
                let s = s.concat(inner.as_str());
                s.concat(")")
            },
            TypeName::MapType { key_type, val_type } => {
                let k = key_type.to_string();
                let v = val_type.to_string();
                let s = String::from_str("MAP(");
                let s = s.concat(k.as_str());
                let s = s.concat(", ");
                let s = s.concat(v.as_str());
                s.concat(")")
            },
            TypeName::Bitmap => String::from_str("BITMAP"),
            TypeName::Tuple { fields_name, fields_type } => {
                let n: usize = match fields_name {
                    Some(names) => if names.len() < fields_type.len() { names.len() } else { fields_type.len() },
                    None => fields_type.len(),
                };
                let mut body = String::new();
                let mut i: usize = 0;
                while i < n
                    invariant
                        i <= n,
                        *self == (TypeName::Tuple { fields_name: *fields_name, fields_type: *fields_type }),
                        n <= fields_type@.len(),
                        fields_name matches Some(names) ==> n <= names@.len(),
                        body@ == tuple_fields_sql(*fields_name, fields_type@, i as nat),
                    decreases n - i,
                {
                    if i > 0 {
                        body = body.concat(", ");
                    }
                    match fields_name {
                        Some(names) => {
                            body = body.concat(names[i].as_str());
                            body = body.concat(" ");
                        },
                        None => {},
                    }
                    proof {
                        assert(decreases_to!(*self => self->fields_type));
                        assert(decreases_to!(*fields_type => fields_type@));
                        assert(decreases_to!(fields_type@ => fields_type@[i as int]));
                    }
                    let t = fields_type[i].to_string();
                    body = body.concat(t.as_str());
                    i = i + 1;
                    assert(body@ =~= tuple_fields_sql(*fields_name, fields_type@, i as nat));
                }
                let s = String::from_str("TUPLE(");
                let s = s.concat(body.as_str());
                s.concat(")")
            },
            TypeName::Variant => String::from_str("VARIANT"),
            TypeName::Nullable(ty) => {
                let inner = ty.to_string();
                inner.concat(" NULL")
            },
            TypeName::NotNull(ty) => {
                let inner = ty.to_string();
                inner.concat(" NOT NULL")
            },
        }
    }
}


/// The type that `wrap_nullable` gives.
pub open spec fn nullable_of(t: TypeName) -> TypeName {
    if t is Nullable { t } else { TypeName::Nullable(Box::new(t)) }
}

/// The type that `wrap_not_null` gives.
pub open spec fn not_null_of(t: TypeName) -> TypeName {
    if t is NotNull { t } else { TypeName::NotNull(Box::new(t)) }
}

/// A type without parameters: neither a decimal nor a nested, tuple or
/// nullability type.
pub open spec fn plain_type(t: TypeName) -> bool {
    &&& !(t is Decimal || t is Array || t is MapType || t is Tuple || t is Nullable || t is NotNull)
}

proof fn lemma_plain_type_sql_chars()
    ensures
        type_sql(TypeName::Boolean) == seq!['B', 'O', 'O', 'L', 'E', 'A', 'N'],
        type_sql(TypeName::UInt8) == seq!['U', 'I', 'n', 't', '8'],
        type_sql(TypeName::UInt16) == seq!['U', 'I', 'n', 't', '1', '6'],
        type_sql(TypeName::UInt32) == seq!['U', 'I', 'n', 't', '3', '2'],
        type_sql(TypeName::UInt64) == seq!['U', 'I', 'n', 't', '6', '4'],
        type_sql(TypeName::Int8) == seq!['I', 'n', 't', '8'],
        type_sql(TypeName::Int16) == seq!['I', 'n', 't', '1', '6'],
        type_sql(TypeName::Int32) == seq!['I', 'n', 't', '3', '2'],
        type_sql(TypeName::Int64) == seq!['I', 'n', 't', '6', '4'],
        type_sql(TypeName::Float32) == seq!['F', 'l', 'o', 'a', 't', '3', '2'],
        type_sql(TypeName::Float64) == seq!['F', 'l', 'o', 'a', 't', '6', '4'],
        type_sql(TypeName::Date) == seq!['D', 'A', 'T', 'E'],
        type_sql(TypeName::Timestamp) == seq!['T', 'I', 'M', 'E', 'S', 'T', 'A', 'M', 'P'],
        type_sql(TypeName::Binary) == seq!['B', 'I', 'N', 'A', 'R', 'Y'],
        type_sql(TypeName::String) == seq!['S', 'T', 'R', 'I', 'N', 'G'],
        type_sql(TypeName::Bitmap) == seq!['B', 'I', 'T', 'M', 'A', 'P'],
        type_sql(TypeName::Variant) == seq!['V', 'A', 'R', 'I', 'A', 'N', 'T'],
{
    reveal_strlit("BOOLEAN");
    reveal_strlit("UInt8");
    reveal_strlit("UInt16");
    reveal_strlit("UInt32");
    reveal_strlit("UInt64");
    reveal_strlit("Int8");
    reveal_strlit("Int16");
    reveal_strlit("Int32");
    reveal_strlit("Int64");
    reveal_strlit("Float32");
    reveal_strlit("Float64");
    reveal_strlit("DATE");
    reveal_strlit("TIMESTAMP");
    reveal_strlit("BINARY");
    reveal_strlit("STRING");
    reveal_strlit("BITMAP");
    reveal_strlit("VARIANT");
    assert("BOOLEAN"@ =~= seq!['B', 'O', 'O', 'L', 'E', 'A', 'N']);
    assert("UInt8"@ =~= seq!['U', 'I', 'n', 't', '8']);
    assert("UInt16"@ =~= seq!['U', 'I', 'n', 't', '1', '6']);
    assert("UInt32"@ =~= seq!['U', 'I', 'n', 't', '3', '2']);
    assert("UInt64"@ =~= seq!['U', 'I', 'n', 't', '6', '4']);
    assert("Int8"@ =~= seq!['I', 'n', 't', '8']);
    assert("Int16"@ =~= seq!['I', 'n', 't', '1', '6']);
    assert("Int32"@ =~= seq!['I', 'n', 't', '3', '2']);
    assert("Int64"@ =~= seq!['I', 'n', 't', '6', '4']);
    assert("Float32"@ =~= seq!['F', 'l', 'o', 'a', 't', '3', '2']);
    assert("Float64"@ =~= seq!['F', 'l', 'o', 'a', 't', '6', '4']);
    assert("DATE"@ =~= seq!['D', 'A', 'T', 'E']);
    assert("TIMESTAMP"@ =~= seq!['T', 'I', 'M', 'E', 'S', 'T', 'A', 'M', 'P']);
    assert("BINARY"@ =~= seq!['B', 'I', 'N', 'A', 'R', 'Y']);
    assert("STRING"@ =~= seq!['S', 'T', 'R', 'I', 'N', 'G']);
    assert("BITMAP"@ =~= seq!['B', 'I', 'T', 'M', 'A', 'P']);
    assert("VARIANT"@ =~= seq!['V', 'A', 'R', 'I', 'A', 'N', 'T']);
}

/// Different plain types are written differently.
pub proof fn law_plain_type_names_distinct(a: TypeName, b: TypeName)
    requires
        plain_type(a),
        plain_type(b),
    ensures
        type_sql(a) == type_sql(b) ==> a == b,
{
    lemma_plain_type_sql_chars();
    if type_sql(a) == type_sql(b) {
        let (x, y) = (type_sql(a), type_sql(b));
        assert(x.len() == y.len());
        assert(x[0] == y[0]);
        assert(x[1] == y[1]);
        assert(x[2] == y[2]);
        assert(x[3] == y[3]);
        assert(x[4] == y[4]);
        assert(x[5] == y[5]);
        assert(x[6] == y[6]);
        assert(x[7] == y[7]);
        assert(x[8] == y[8]);
    }
}

/// Wrapped types are written around the inner type: `T NULL`, `T NOT NULL`,
/// `ARRAY(T)` and `MAP(K, V)`.
pub proof fn law_wrapped_type_sql(t: TypeName, k: TypeName)
    ensures
        type_sql(TypeName::Nullable(Box::new(t))) == type_sql(t) + seq![' ', 'N', 'U', 'L', 'L'],
        type_sql(TypeName::NotNull(Box::new(t))) == type_sql(t) + seq![' ', 'N', 'O', 'T', ' ', 'N', 'U', 'L', 'L'],
        type_sql(TypeName::Array(Box::new(t))) == seq!['A', 'R', 'R', 'A', 'Y', '('] + type_sql(t) + seq![')'],
        type_sql(TypeName::MapType { key_type: Box::new(k), val_type: Box::new(t) })
            == seq!['M', 'A', 'P', '('] + type_sql(k) + seq![',', ' '] + type_sql(t) + seq![')'],
{
    reveal_strlit(" NULL");
    reveal_strlit(" NOT NULL");
    reveal_strlit("ARRAY(");
    reveal_strlit(")");
    reveal_strlit("MAP(");
    reveal_strlit(", ");
    assert(type_sql(TypeName::Nullable(Box::new(t))) =~= type_sql(t) + seq![' ', 'N', 'U', 'L', 'L']);
    assert(type_sql(TypeName::NotNull(Box::new(t))) =~= type_sql(t) + seq![' ', 'N', 'O', 'T', ' ', 'N', 'U', 'L', 'L']);
    assert(type_sql(TypeName::Array(Box::new(t))) =~= seq!['A', 'R', 'R', 'A', 'Y', '('] + type_sql(t) + seq![')']);
    assert(type_sql(TypeName::MapType { key_type: Box::new(k), val_type: Box::new(t) })
        =~= seq!['M', 'A', 'P', '('] + type_sql(k) + seq![',', ' '] + type_sql(t) + seq![')']);
}

/// Wrapping a type in `Nullable` makes it nullable, and wrapping it again
/// changes nothing.
pub proof fn law_wrap_nullable(t: TypeName)
    ensures
        nullable_of(t).spec_is_nullable(),
        nullable_of(nullable_of(t)) == nullable_of(t),
{
}

/// Wrapping a type in `NotNull` twice is wrapping it once.
pub proof fn law_wrap_not_null_idempotent(t: TypeName)
    ensures
        not_null_of(not_null_of(t)) == not_null_of(t),
{
}

} // verus!
