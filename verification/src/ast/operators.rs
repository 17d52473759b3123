use vstd::prelude::*;

use crate::error::{ErrorCode, ErrorKind};

verus! {

/// Binary operators of the SQL dialect.
#[derive(Debug, Clone, Copy, PartialEq, Eq, Structural)]
pub enum BinaryOperator {
    Plus,
    Minus,
    Multiply,
    Div,
    Divide,
    IntDiv,
    Modulo,
    StringConcat,
    Gt,
    Lt,
    Gte,
    Lte,
    Eq,
    NotEq,
    Caret,
    And,
    Or,
    Xor,
    Like,
    NotLike,
    Regexp,
    RLike,
    NotRegexp,
    NotRLike,
    SoundsLike,
    BitwiseOr,
    BitwiseAnd,
    BitwiseXor,
    BitwiseShiftLeft,
    BitwiseShiftRight,
    L2Distance,
}

/// The name of the scalar function that evaluates a binary operator.
pub open spec fn binary_func_name(op: BinaryOperator) -> Seq<char> {
    match op {
        BinaryOperator::Plus => "plus"@,
        BinaryOperator::Minus => "minus"@,
        BinaryOperator::Multiply => "multiply"@,
        BinaryOperator::Div => "div"@,
        BinaryOperator::Divide => "divide"@,
        BinaryOperator::IntDiv => "intdiv"@,
        BinaryOperator::Modulo => "modulo"@,
        BinaryOperator::StringConcat => "concat"@,
        BinaryOperator::Gt => "gt"@,
        BinaryOperator::Lt => "lt"@,
        BinaryOperator::Gte => "gte"@,
        BinaryOperator::Lte => "lte"@,
        BinaryOperator::Eq => "eq"@,
        BinaryOperator::NotEq => "noteq"@,
        BinaryOperator::Caret => "pow"@,
        BinaryOperator::And => "and"@,
        BinaryOperator::Or => "or"@,
        BinaryOperator::Xor => "xor"@,
        BinaryOperator::Like => "like"@,
        BinaryOperator::NotLike => "notlike"@,
        BinaryOperator::Regexp => "regexp"@,
        BinaryOperator::RLike => "rlike"@,
        BinaryOperator::NotRegexp => "notregexp"@,
        BinaryOperator::NotRLike => "notrlike"@,
        BinaryOperator::SoundsLike => "soundslike"@,
        BinaryOperator::BitwiseOr => "bit_or"@,
        BinaryOperator::BitwiseAnd => "bit_and"@,
        BinaryOperator::BitwiseXor => "bit_xor"@,
        BinaryOperator::BitwiseShiftLeft => "bit_shift_left"@,
        BinaryOperator::BitwiseShiftRight => "bit_shift_right"@,
        BinaryOperator::L2Distance => "l2_distance"@,
    }
}

impl BinaryOperator {
    /// The scalar function name: the lower-cased variant name, except for
    /// `||` (`concat`), `^` (`pow`), the bitwise operators (`bit_*`) and
    /// `<->` (`l2_distance`).
    pub fn to_func_name(&self) -> (name: String)
        ensures
            name@ == binary_func_name(*self),
    {
        let s = match self {
            BinaryOperator::Plus => "plus",
            BinaryOperator::Minus => "minus",
            BinaryOperator::Multiply => "multiply",
            BinaryOperator::Div => "div",
            BinaryOperator::Divide => "divide",
            BinaryOperator::IntDiv => "intdiv",
            BinaryOperator::Modulo => "modulo",
            BinaryOperator::StringConcat => "concat",
            BinaryOperator::Gt => "gt",
            BinaryOperator::Lt => "lt",
            BinaryOperator::Gte => "gte",
            BinaryOperator::Lte => "lte",
            BinaryOperator::Eq => "eq",
            BinaryOperator::NotEq => "noteq",
            BinaryOperator::Caret => "pow",
            BinaryOperator::And => "and",
            BinaryOperator::Or => "or",
            BinaryOperator::Xor => "xor",
            BinaryOperator::Like => "like",
            BinaryOperator::NotLike => "notlike",
            BinaryOperator::Regexp => "regexp",
            BinaryOperator::RLike => "rlike",
            BinaryOperator::NotRegexp => "notregexp",
            BinaryOperator::NotRLike => "notrlike",
            BinaryOperator::SoundsLike => "soundslike",
            BinaryOperator::BitwiseOr => "bit_or",
            BinaryOperator::BitwiseAnd => "bit_and",
            BinaryOperator::BitwiseXor => "bit_xor",
            BinaryOperator::BitwiseShiftLeft => "bit_shift_left",
            BinaryOperator::BitwiseShiftRight => "bit_shift_right",
            BinaryOperator::L2Distance => "l2_distance",
        };
        String::from_str(s)
    }
}

/// JSON operators of the SQL dialect.
#[derive(Debug, Clone, Copy, PartialEq, Eq, Structural)]
pub enum JsonOperator {
    /// -> keeps the value as json
    Arrow,
    /// ->> keeps the value as text or int.
    LongArrow,
    /// #> Extracts JSON sub-object at the specified path
    HashArrow,
    /// #>> Extracts JSON sub-object at the specified path as text
    HashLongArrow,
    /// ? Checks whether text key exist as top-level key or array element.
    Question,
    /// ?| Checks whether any of the text keys exist as top-level keys or array elements.
    QuestionOr,
    /// ?& Checks whether all of the text keys exist as top-level keys or array elements.
    QuestionAnd,
    /// @> Checks whether left json contains the right json
    AtArrow,
    /// <@ Checks whether right json contains the left json
    ArrowAt,
    /// @? Checks whether JSON path return any item for the specified JSON value
    AtQuestion,
    /// @@ Returns the result of a JSON path predicate check for the specified JSON value.
    AtAt,
}

/// Unary operators of the SQL dialect.
#[derive(Debug, Clone, Copy, PartialEq, Eq, Structural)]
pub enum UnaryOperator {
    Plus,
    Minus,
    Not,
    Factorial,
    SquareRoot,
    CubeRoot,
    Abs,
    BitwiseNot,
}

/// The SQL text of a binary operator.
pub open spec fn binary_sql(op: BinaryOperator) -> Seq<char> {
    match op {
        BinaryOperator::Plus => "+"@,
        BinaryOperator::Minus => "-"@,
        BinaryOperator::Multiply => "*"@,
        BinaryOperator::Div => "DIV"@,
        BinaryOperator::Divide => "/"@,
        BinaryOperator::IntDiv => "//"@,
        BinaryOperator::Modulo => "%"@,
        BinaryOperator::StringConcat => "||"@,
        BinaryOperator::Gt => ">"@,
        BinaryOperator::Lt => "<"@,
        BinaryOperator::Gte => ">="@,
        BinaryOperator::Lte => "<="@,
        BinaryOperator::Eq => "="@,
        BinaryOperator::NotEq => "<>"@,
        BinaryOperator::Caret => "^"@,
        BinaryOperator::And => "AND"@,
        BinaryOperator::Or => "OR"@,
        BinaryOperator::Xor => "XOR"@,
        BinaryOperator::Like => "LIKE"@,
        BinaryOperator::NotLike => "NOT LIKE"@,
        BinaryOperator::Regexp => "REGEXP"@,
        BinaryOperator::RLike => "RLIKE"@,
        BinaryOperator::NotRegexp => "NOT REGEXP"@,
        BinaryOperator::NotRLike => "NOT RLIKE"@,
        BinaryOperator::SoundsLike => "SOUNDS LIKE"@,
        BinaryOperator::BitwiseOr => "|"@,
        BinaryOperator::BitwiseAnd => "&"@,
        BinaryOperator::BitwiseXor => "#"@,
        BinaryOperator::BitwiseShiftLeft => "<<"@,
        BinaryOperator::BitwiseShiftRight => ">>"@,
        BinaryOperator::L2Distance => "<->"@,
    }
}
/// The name of the function that evaluates a JSON operator.
pub open spec fn json_func_name(op: JsonOperator) -> Seq<char> {
    match op {
        JsonOperator::Arrow => "get"@,
        JsonOperator::LongArrow => "get_string"@,
        JsonOperator::HashArrow => "get_by_keypath"@,
        JsonOperator::HashLongArrow => "get_by_keypath_string"@,
        JsonOperator::Question => "json_exists_key"@,
        JsonOperator::QuestionOr => "json_exists_any_keys"@,
        JsonOperator::QuestionAnd => "json_exists_all_keys"@,
        JsonOperator::AtArrow => "json_contains_in_left"@,
        JsonOperator::ArrowAt => "json_contains_in_right"@,
        JsonOperator::AtQuestion => "json_path_exists"@,
        JsonOperator::AtAt => "json_path_match"@,
    }
}
/// The SQL text of a JSON operator.
pub open spec fn json_sql(op: JsonOperator) -> Seq<char> {
    match op {
        JsonOperator::Arrow => "->"@,
        JsonOperator::LongArrow => "->>"@,
        JsonOperator::HashArrow => "#>"@,
        JsonOperator::HashLongArrow => "#>>"@,
        JsonOperator::Question => "?"@,
        JsonOperator::QuestionOr => "?|"@,
        JsonOperator::QuestionAnd => "?&"@,
        JsonOperator::AtArrow => "@>"@,
        JsonOperator::ArrowAt => "<@"@,
        JsonOperator::AtQuestion => "@?"@,
        JsonOperator::AtAt => "@@"@,
    }
}
/// The name of the function that evaluates a unary operator: the lower-cased variant name, except for `|/` (`sqrt`), `||/` (`cbrt`) and `~` (`bit_not`).
pub open spec fn unary_func_name(op: UnaryOperator) -> Seq<char> {
    match op {
        UnaryOperator::Plus => "plus"@,
        UnaryOperator::Minus => "minus"@,
        UnaryOperator::Not => "not"@,
        UnaryOperator::Factorial => "factorial"@,
        UnaryOperator::SquareRoot => "sqrt"@,
        UnaryOperator::CubeRoot => "cbrt"@,
        UnaryOperator::Abs => "abs"@,
        UnaryOperator::BitwiseNot => "bit_not"@,
    }
}
/// The SQL text of a unary operator.
pub open spec fn unary_sql(op: UnaryOperator) -> Seq<char> {
    match op {
        UnaryOperator::Plus => "+"@,
        UnaryOperator::Minus => "-"@,
        UnaryOperator::Not => "NOT"@,
        UnaryOperator::Factorial => "!"@,
        UnaryOperator::SquareRoot => "|/"@,
        UnaryOperator::CubeRoot => "||/"@,
        UnaryOperator::Abs => "@"@,
        UnaryOperator::BitwiseNot => "~"@,
    }
}

/// The comparison that holds exactly when the given one fails, for the six
/// comparisons `>`, `<`, `>=`, `<=`, `=` and `<>`.
pub open spec fn contrary_of(op: BinaryOperator) -> Option<BinaryOperator> {
    match op {
        BinaryOperator::Gt => Some(BinaryOperator::Lte),
        BinaryOperator::Lt => Some(BinaryOperator::Gte),
        BinaryOperator::Gte => Some(BinaryOperator::Lt),
        BinaryOperator::Lte => Some(BinaryOperator::Gt),
        BinaryOperator::Eq => Some(BinaryOperator::NotEq),
        BinaryOperator::NotEq => Some(BinaryOperator::Eq),
        _ => None,
    }
}

/// The message of the error that `to_contrary` reports for `op`.
pub open spec fn no_contrary_message(op: BinaryOperator) -> Seq<char> {
    "Converting "@ + binary_sql(op) + " to its contrary is not currently supported"@
}

impl BinaryOperator {
    /// The operator as it is written in SQL.
    pub fn to_string(&self) -> (s: String)
        ensures
            s@ == binary_sql(*self),
    {
        let s = match self {
            BinaryOperator::Plus => "+",
            BinaryOperator::Minus => "-",
            BinaryOperator::Multiply => "*",
            BinaryOperator::Div => "DIV",
            BinaryOperator::Divide => "/",
            BinaryOperator::IntDiv => "//",
            BinaryOperator::Modulo => "%",
            BinaryOperator::StringConcat => "||",
            BinaryOperator::Gt => ">",
            BinaryOperator::Lt => "<",
            BinaryOperator::Gte => ">=",
            BinaryOperator::Lte => "<=",
            BinaryOperator::Eq => "=",
            BinaryOperator::NotEq => "<>",
            BinaryOperator::Caret => "^",
            BinaryOperator::And => "AND",
            BinaryOperator::Or => "OR",
            BinaryOperator::Xor => "XOR",
            BinaryOperator::Like => "LIKE",
            BinaryOperator::NotLike => "NOT LIKE",
            BinaryOperator::Regexp => "REGEXP",
            BinaryOperator::RLike => "RLIKE",
            BinaryOperator::NotRegexp => "NOT REGEXP",
            BinaryOperator::NotRLike => "NOT RLIKE",
            BinaryOperator::SoundsLike => "SOUNDS LIKE",
            BinaryOperator::BitwiseOr => "|",
            BinaryOperator::BitwiseAnd => "&",
            BinaryOperator::BitwiseXor => "#",
            BinaryOperator::BitwiseShiftLeft => "<<",
            BinaryOperator::BitwiseShiftRight => ">>",
            BinaryOperator::L2Distance => "<->",
        };
        String::from_str(s)
    }

    /// The negated comparison; any operator other than the six comparisons
    /// is reported as `Unimplemented`.
    pub fn to_contrary(&self) -> (r: Result<BinaryOperator, ErrorCode>)
        ensures
            contrary_of(*self) matches Some(c) ==> r == Ok::<BinaryOperator, ErrorCode>(c),
            contrary_of(*self) is None ==> (r matches Err(e) && e@ == (ErrorKind::Unimplemented, no_contrary_message(*self))),
    {
        match self {
            BinaryOperator::Gt => Ok(BinaryOperator::Lte),
            BinaryOperator::Lt => Ok(BinaryOperator::Gte),
            BinaryOperator::Gte => Ok(BinaryOperator::Lt),
            BinaryOperator::Lte => Ok(BinaryOperator::Gt),
            BinaryOperator::Eq => Ok(BinaryOperator::NotEq),
            BinaryOperator::NotEq => Ok(BinaryOperator::Eq),
            _ => {
                let m = String::from_str("Converting ");
                let op = self.to_string();
                let m = m.concat(op.as_str());
                let m = m.concat(" to its contrary is not currently supported");
                Err(ErrorCode::new(ErrorKind::Unimplemented, m))
            },
        }
    }
}

impl JsonOperator {
    /// The name of the function that evaluates the operator.
    pub fn to_func_name(&self) -> (s: String)
        ensures
            s@ == json_func_name(*self),
    {
        let s = match self {
            JsonOperator::Arrow => "get",
            JsonOperator::LongArrow => "get_string",
            JsonOperator::HashArrow => "get_by_keypath",
            JsonOperator::HashLongArrow => "get_by_keypath_string",
            JsonOperator::Question => "json_exists_key",
            JsonOperator::QuestionOr => "json_exists_any_keys",
            JsonOperator::QuestionAnd => "json_exists_all_keys",
            JsonOperator::AtArrow => "json_contains_in_left",
            JsonOperator::ArrowAt => "json_contains_in_right",
            JsonOperator::AtQuestion => "json_path_exists",
            JsonOperator::AtAt => "json_path_match",
        };
        String::from_str(s)
    }
    /// The operator as it is written in SQL.
    pub fn to_string(&self) -> (s: String)
        ensures
            s@ == json_sql(*self),
    {
        let s = match self {
            JsonOperator::Arrow => "->",
            JsonOperator::LongArrow => "->>",
            JsonOperator::HashArrow => "#>",
            JsonOperator::HashLongArrow => "#>>",
            JsonOperator::Question => "?",
            JsonOperator::QuestionOr => "?|",
            JsonOperator::QuestionAnd => "?&",
            JsonOperator::AtArrow => "@>",
            JsonOperator::ArrowAt => "<@",
            JsonOperator::AtQuestion => "@?",
            JsonOperator::AtAt => "@@",
        };
        String::from_str(s)
    }
}

impl UnaryOperator {
    /// The name of the function that evaluates the operator.
    pub fn to_func_name(&self) -> (s: String)
        ensures
            s@ == unary_func_name(*self),
    {
        let s = match self {
            UnaryOperator::Plus => "plus",
            UnaryOperator::Minus => "minus",
            UnaryOperator::Not => "not",
            UnaryOperator::Factorial => "factorial",
            UnaryOperator::SquareRoot => "sqrt",
            UnaryOperator::CubeRoot => "cbrt",
            UnaryOperator::Abs => "abs",
            UnaryOperator::BitwiseNot => "bit_not",
        };
        String::from_str(s)
    }
    /// The operator as it is written in SQL.
    pub fn to_string(&self) -> (s: String)
        ensures
            s@ == unary_sql(*self),
    {
        let s = match self {
            UnaryOperator::Plus => "+",
            UnaryOperator::Minus => "-",
            UnaryOperator::Not => "NOT",
            UnaryOperator::Factorial => "!",
            UnaryOperator::SquareRoot => "|/",
            UnaryOperator::CubeRoot => "||/",
            UnaryOperator::Abs => "@",
            UnaryOperator::BitwiseNot => "~",
        };
        String::from_str(s)
    }
}


proof fn lemma_binary_sql_chars()
    ensures
        binary_sql(BinaryOperator::Plus) == seq!['+'],
        binary_sql(BinaryOperator::Minus) == seq!['-'],
        binary_sql(BinaryOperator::Multiply) == seq!['*'],
        binary_sql(BinaryOperator::Div) == seq!['D', 'I', 'V'],
        binary_sql(BinaryOperator::Divide) == seq!['/'],
        binary_sql(BinaryOperator::IntDiv) == seq!['/', '/'],
        binary_sql(BinaryOperator::Modulo) == seq!['%'],
        binary_sql(BinaryOperator::StringConcat) == seq!['|', '|'],
        binary_sql(BinaryOperator::Gt) == seq!['>'],
        binary_sql(BinaryOperator::Lt) == seq!['<'],
        binary_sql(BinaryOperator::Gte) == seq!['>', '='],
        binary_sql(BinaryOperator::Lte) == seq!['<', '='],
        binary_sql(BinaryOperator::Eq) == seq!['='],
        binary_sql(BinaryOperator::NotEq) == seq!['<', '>'],
        binary_sql(BinaryOperator::Caret) == seq!['^'],
        binary_sql(BinaryOperator::And) == seq!['A', 'N', 'D'],
        binary_sql(BinaryOperator::Or) == seq!['O', 'R'],
        binary_sql(BinaryOperator::Xor) == seq!['X', 'O', 'R'],
        binary_sql(BinaryOperator::Like) == seq!['L', 'I', 'K', 'E'],
        binary_sql(BinaryOperator::NotLike) == seq!['N', 'O', 'T', ' ', 'L', 'I', 'K', 'E'],
        binary_sql(BinaryOperator::Regexp) == seq!['R', 'E', 'G', 'E', 'X', 'P'],
        binary_sql(BinaryOperator::RLike) == seq!['R', 'L', 'I', 'K', 'E'],
        binary_sql(BinaryOperator::NotRegexp) == seq!['N', 'O', 'T', ' ', 'R', 'E', 'G', 'E', 'X', 'P'],
        binary_sql(BinaryOperator::NotRLike) == seq!['N', 'O', 'T', ' ', 'R', 'L', 'I', 'K', 'E'],
        binary_sql(BinaryOperator::SoundsLike) == seq!['S', 'O', 'U', 'N', 'D', 'S', ' ', 'L', 'I', 'K', 'E'],
        binary_sql(BinaryOperator::BitwiseOr) == seq!['|'],
        binary_sql(BinaryOperator::BitwiseAnd) == seq!['&'],
        binary_sql(BinaryOperator::BitwiseXor) == seq!['#'],
        binary_sql(BinaryOperator::BitwiseShiftLeft) == seq!['<', '<'],
        binary_sql(BinaryOperator::BitwiseShiftRight) == seq!['>', '>'],
        binary_sql(BinaryOperator::L2Distance) == seq!['<', '-', '>'],
{
    reveal_strlit("#");
    reveal_strlit("%");
    reveal_strlit("&");
    reveal_strlit("*");
    reveal_strlit("+");
    reveal_strlit("-");
    reveal_strlit("/");
    reveal_strlit("//");
    reveal_strlit("<");
    reveal_strlit("<->");
    reveal_strlit("<<");
    reveal_strlit("<=");
    reveal_strlit("<>");
    reveal_strlit("=");
    reveal_strlit(">");
    reveal_strlit(">=");
    reveal_strlit(">>");
    reveal_strlit("AND");
    reveal_strlit("DIV");
    reveal_strlit("LIKE");
    reveal_strlit("NOT LIKE");
    reveal_strlit("NOT REGEXP");
    reveal_strlit("NOT RLIKE");
    reveal_strlit("OR");
    reveal_strlit("REGEXP");
    reveal_strlit("RLIKE");
    reveal_strlit("SOUNDS LIKE");
    reveal_strlit("XOR");
    reveal_strlit("^");
    reveal_strlit("|");
    reveal_strlit("||");
    assert("#"@ =~= seq!['#']);
    assert("%"@ =~= seq!['%']);
    assert("&"@ =~= seq!['&']);
    assert("*"@ =~= seq!['*']);
    assert("+"@ =~= seq!['+']);
    assert("-"@ =~= seq!['-']);
    assert("/"@ =~= seq!['/']);
    assert("//"@ =~= seq!['/', '/']);
    assert("<"@ =~= seq!['<']);
    assert("<->"@ =~= seq!['<', '-', '>']);
    assert("<<"@ =~= seq!['<', '<']);
    assert("<="@ =~= seq!['<', '=']);
    assert("<>"@ =~= seq!['<', '>']);
    assert("="@ =~= seq!['=']);
    assert(">"@ =~= seq!['>']);
    assert(">="@ =~= seq!['>', '=']);
    assert(">>"@ =~= seq!['>', '>']);
    assert("AND"@ =~= seq!['A', 'N', 'D']);
    assert("DIV"@ =~= seq!['D', 'I', 'V']);
    assert("LIKE"@ =~= seq!['L', 'I', 'K', 'E']);
    assert("NOT LIKE"@ =~= seq!['N', 'O', 'T', ' ', 'L', 'I', 'K', 'E']);
    assert("NOT REGEXP"@ =~= seq!['N', 'O', 'T', ' ', 'R', 'E', 'G', 'E', 'X', 'P']);
    assert("NOT RLIKE"@ =~= seq!['N', 'O', 'T', ' ', 'R', 'L', 'I', 'K', 'E']);
    assert("OR"@ =~= seq!['O', 'R']);
    assert("REGEXP"@ =~= seq!['R', 'E', 'G', 'E', 'X', 'P']);
    assert("RLIKE"@ =~= seq!['R', 'L', 'I', 'K', 'E']);
    assert("SOUNDS LIKE"@ =~= seq!['S', 'O', 'U', 'N', 'D', 'S', ' ', 'L', 'I', 'K', 'E']);
    assert("XOR"@ =~= seq!['X', 'O', 'R']);
    assert("^"@ =~= seq!['^']);
    assert("|"@ =~= seq!['|']);
    assert("||"@ =~= seq!['|', '|']);
}

/// Different binary operators are written differently: the SQL text names
/// the operator.
pub proof fn law_binary_sql_injective(a: BinaryOperator, b: BinaryOperator)
    ensures
        binary_sql(a) == binary_sql(b) ==> a == b,
{
    lemma_binary_sql_chars();
    if binary_sql(a) == binary_sql(b) {
        let (x, y) = (binary_sql(a), binary_sql(b));
        assert(x.len() == y.len());
        assert(x[0] == y[0]);
        assert(x[1] == y[1]);
        assert(x[2] == y[2]);
        assert(x[3] == y[3]);
        assert(x[4] == y[4]);
        assert(x[5] == y[5]);
        assert(x[6] == y[6]);
        assert(x[7] == y[7]);
        assert(x[8] == y[8]);
        assert(x[9] == y[9]);
        assert(x[10] == y[10]);
    }
}

proof fn lemma_unary_sql_chars()
    ensures
        unary_sql(UnaryOperator::Plus) == seq!['+'],
        unary_sql(UnaryOperator::Minus) == seq!['-'],
        unary_sql(UnaryOperator::Not) == seq!['N', 'O', 'T'],
        unary_sql(UnaryOperator::Factorial) == seq!['!'],
        unary_sql(UnaryOperator::SquareRoot) == seq!['|', '/'],
        unary_sql(UnaryOperator::CubeRoot) == seq!['|', '|', '/'],
        unary_sql(UnaryOperator::Abs) == seq!['@'],
        unary_sql(UnaryOperator::BitwiseNot) == seq!['~'],
{
    reveal_strlit("!");
    reveal_strlit("+");
    reveal_strlit("-");
    reveal_strlit("@");
    reveal_strlit("NOT");
    reveal_strlit("|/");
    reveal_strlit("||/");
    reveal_strlit("~");
    assert("!"@ =~= seq!['!']);
    assert("+"@ =~= seq!['+']);
    assert("-"@ =~= seq!['-']);
    assert("@"@ =~= seq!['@']);
    assert("NOT"@ =~= seq!['N', 'O', 'T']);
    assert("|/"@ =~= seq!['|', '/']);
    assert("||/"@ =~= seq!['|', '|', '/']);
    assert("~"@ =~= seq!['~']);
}

/// Different unary operators are written differently.
pub proof fn law_unary_sql_injective(a: UnaryOperator, b: UnaryOperator)
    ensures
        unary_sql(a) == unary_sql(b) ==> a == b,
{
    lemma_unary_sql_chars();
    if unary_sql(a) == unary_sql(b) {
        let (x, y) = (unary_sql(a), unary_sql(b));
        assert(x.len() == y.len());
        assert(x[0] == y[0]);
        assert(x[1] == y[1]);
        assert(x[2] == y[2]);
    }
}

proof fn lemma_json_sql_chars()
    ensures
        json_sql(JsonOperator::Arrow) == seq!['-', '>'],
        json_sql(JsonOperator::LongArrow) == seq!['-', '>', '>'],
        json_sql(JsonOperator::HashArrow) == seq!['#', '>'],
        json_sql(JsonOperator::HashLongArrow) == seq!['#', '>', '>'],
        json_sql(JsonOperator::Question) == seq!['?'],
        json_sql(JsonOperator::QuestionOr) == seq!['?', '|'],
        json_sql(JsonOperator::QuestionAnd) == seq!['?', '&'],
        json_sql(JsonOperator::AtArrow) == seq!['@', '>'],
        json_sql(JsonOperator::ArrowAt) == seq!['<', '@'],
        json_sql(JsonOperator::AtQuestion) == seq!['@', '?'],
        json_sql(JsonOperator::AtAt) == seq!['@', '@'],
{
    reveal_strlit("#>");
    reveal_strlit("#>>");
    reveal_strlit("->");
    reveal_strlit("->>");
    reveal_strlit("<@");
    reveal_strlit("?");
    reveal_strlit("?&");
    reveal_strlit("?|");
    reveal_strlit("@>");
    reveal_strlit("@?");
    reveal_strlit("@@");
    assert("#>"@ =~= seq!['#', '>']);
    assert("#>>"@ =~= seq!['#', '>', '>']);
    assert("->"@ =~= seq!['-', '>']);
    assert("->>"@ =~= seq!['-', '>', '>']);
    assert("<@"@ =~= seq!['<', '@']);
    assert("?"@ =~= seq!['?']);
    assert("?&"@ =~= seq!['?', '&']);
    assert("?|"@ =~= seq!['?', '|']);
    assert("@>"@ =~= seq!['@', '>']);
    assert("@?"@ =~= seq!['@', '?']);
    assert("@@"@ =~= seq!['@', '@']);
}

/// Different JSON operators are written differently.
pub proof fn law_json_sql_injective(a: JsonOperator, b: JsonOperator)
    ensures
        json_sql(a) == json_sql(b) ==> a == b,
{
    lemma_json_sql_chars();
    if json_sql(a) == json_sql(b) {
        let (x, y) = (json_sql(a), json_sql(b));
        assert(x.len() == y.len());
        assert(x[0] == y[0]);
        assert(x[1] == y[1]);
        assert(x[2] == y[2]);
    }
}

proof fn lemma_binary_func_name_chars()
    ensures
        binary_func_name(BinaryOperator::Plus) == seq!['p', 'l', 'u', 's'],
        binary_func_name(BinaryOperator::Minus) == seq!['m', 'i', 'n', 'u', 's'],
        binary_func_name(BinaryOperator::Multiply) == seq!['m', 'u', 'l', 't', 'i', 'p', 'l', 'y'],
        binary_func_name(BinaryOperator::Div) == seq!['d', 'i', 'v'],
        binary_func_name(BinaryOperator::Divide) == seq!['d', 'i', 'v', 'i', 'd', 'e'],
        binary_func_name(BinaryOperator::IntDiv) == seq!['i', 'n', 't', 'd', 'i', 'v'],
        binary_func_name(BinaryOperator::Modulo) == seq!['m', 'o', 'd', 'u', 'l', 'o'],
        binary_func_name(BinaryOperator::StringConcat) == seq!['c', 'o', 'n', 'c', 'a', 't'],
        binary_func_name(BinaryOperator::Gt) == seq!['g', 't'],
        binary_func_name(BinaryOperator::Lt) == seq!['l', 't'],
        binary_func_name(BinaryOperator::Gte) == seq!['g', 't', 'e'],
        binary_func_name(BinaryOperator::Lte) == seq!['l', 't', 'e'],
        binary_func_name(BinaryOperator::Eq) == seq!['e', 'q'],
        binary_func_name(BinaryOperator::NotEq) == seq!['n', 'o', 't', 'e', 'q'],
        binary_func_name(BinaryOperator::Caret) == seq!['p', 'o', 'w'],
        binary_func_name(BinaryOperator::And) == seq!['a', 'n', 'd'],
        binary_func_name(BinaryOperator::Or) == seq!['o', 'r'],
        binary_func_name(BinaryOperator::Xor) == seq!['x', 'o', 'r'],
        binary_func_name(BinaryOperator::Like) == seq!['l', 'i', 'k', 'e'],
        binary_func_name(BinaryOperator::NotLike) == seq!['n', 'o', 't', 'l', 'i', 'k', 'e'],
        binary_func_name(BinaryOperator::Regexp) == seq!['r', 'e', 'g', 'e', 'x', 'p'],
        binary_func_name(BinaryOperator::RLike) == seq!['r', 'l', 'i', 'k', 'e'],
        binary_func_name(BinaryOperator::NotRegexp) == seq!['n', 'o', 't', 'r', 'e', 'g', 'e', 'x', 'p'],
        binary_func_name(BinaryOperator::NotRLike) == seq!['n', 'o', 't', 'r', 'l', 'i', 'k', 'e'],
        binary_func_name(BinaryOperator::SoundsLike) == seq!['s', 'o', 'u', 'n', 'd', 's', 'l', 'i', 'k', 'e'],
        binary_func_name(BinaryOperator::BitwiseOr) == seq!['b', 'i', 't', '_', 'o', 'r'],
        binary_func_name(BinaryOperator::BitwiseAnd) == seq!['b', 'i', 't', '_', 'a', 'n', 'd'],
        binary_func_name(BinaryOperator::BitwiseXor) == seq!['b', 'i', 't', '_', 'x', 'o', 'r'],
        binary_func_name(BinaryOperator::BitwiseShiftLeft) == seq!['b', 'i', 't', '_', 's', 'h', 'i', 'f', 't', '_', 'l', 'e', 'f', 't'],
        binary_func_name(BinaryOperator::BitwiseShiftRight) == seq!['b', 'i', 't', '_', 's', 'h', 'i', 'f', 't', '_', 'r', 'i', 'g', 'h', 't'],
        binary_func_name(BinaryOperator::L2Distance) == seq!['l', '2', '_', 'd', 'i', 's', 't', 'a', 'n', 'c', 'e'],
{
    reveal_strlit("and");
    reveal_strlit("bit_and");
    reveal_strlit("bit_or");
    reveal_strlit("bit_shift_left");
    reveal_strlit("bit_shift_right");
    reveal_strlit("bit_xor");
    reveal_strlit("concat");
    reveal_strlit("div");
    reveal_strlit("divide");
    reveal_strlit("eq");
    reveal_strlit("gt");
    reveal_strlit("gte");
    reveal_strlit("intdiv");
    reveal_strlit("l2_distance");
    reveal_strlit("like");
    reveal_strlit("lt");
    reveal_strlit("lte");
    reveal_strlit("minus");
    reveal_strlit("modulo");
    reveal_strlit("multiply");
    reveal_strlit("noteq");
    reveal_strlit("notlike");
    reveal_strlit("notregexp");
    reveal_strlit("notrlike");
    reveal_strlit("or");
    reveal_strlit("plus");
    reveal_strlit("pow");
    reveal_strlit("regexp");
    reveal_strlit("rlike");
    reveal_strlit("soundslike");
    reveal_strlit("xor");
    assert("and"@ =~= seq!['a', 'n', 'd']);
    assert("bit_and"@ =~= seq!['b', 'i', 't', '_', 'a', 'n', 'd']);
    assert("bit_or"@ =~= seq!['b', 'i', 't', '_', 'o', 'r']);
    assert("bit_shift_left"@ =~= seq!['b', 'i', 't', '_', 's', 'h', 'i', 'f', 't', '_', 'l', 'e', 'f', 't']);
    assert("bit_shift_right"@ =~= seq!['b', 'i', 't', '_', 's', 'h', 'i', 'f', 't', '_', 'r', 'i', 'g', 'h', 't']);
    assert("bit_xor"@ =~= seq!['b', 'i', 't', '_', 'x', 'o', 'r']);
    assert("concat"@ =~= seq!['c', 'o', 'n', 'c', 'a', 't']);
    assert("div"@ =~= seq!['d', 'i', 'v']);
    assert("divide"@ =~= seq!['d', 'i', 'v', 'i', 'd', 'e']);
    assert("eq"@ =~= seq!['e', 'q']);
    assert("gt"@ =~= seq!['g', 't']);
    assert("gte"@ =~= seq!['g', 't', 'e']);
    assert("intdiv"@ =~= seq!['i', 'n', 't', 'd', 'i', 'v']);
    assert("l2_distance"@ =~= seq!['l', '2', '_', 'd', 'i', 's', 't', 'a', 'n', 'c', 'e']);
    assert("like"@ =~= seq!['l', 'i', 'k', 'e']);
    assert("lt"@ =~= seq!['l', 't']);
    assert("lte"@ =~= seq!['l', 't', 'e']);
    assert("minus"@ =~= seq!['m', 'i', 'n', 'u', 's']);
    assert("modulo"@ =~= seq!['m', 'o', 'd', 'u', 'l', 'o']);
    assert("multiply"@ =~= seq!['m', 'u', 'l', 't', 'i', 'p', 'l', 'y']);
    assert("noteq"@ =~= seq!['n', 'o', 't', 'e', 'q']);
    assert("notlike"@ =~= seq!['n', 'o', 't', 'l', 'i', 'k', 'e']);
    assert("notregexp"@ =~= seq!['n', 'o', 't', 'r', 'e', 'g', 'e', 'x', 'p']);
    assert("notrlike"@ =~= seq!['n', 'o', 't', 'r', 'l', 'i', 'k', 'e']);
    assert("or"@ =~= seq!['o', 'r']);
    assert("plus"@ =~= seq!['p', 'l', 'u', 's']);
    assert("pow"@ =~= seq!['p', 'o', 'w']);
    assert("regexp"@ =~= seq!['r', 'e', 'g', 'e', 'x', 'p']);
    assert("rlike"@ =~= seq!['r', 'l', 'i', 'k', 'e']);
    assert("soundslike"@ =~= seq!['s', 'o', 'u', 'n', 'd', 's', 'l', 'i', 'k', 'e']);
    assert("xor"@ =~= seq!['x', 'o', 'r']);
}

/// Different binary operators are evaluated by different functions.
pub proof fn law_binary_func_name_injective(a: BinaryOperator, b: BinaryOperator)
    ensures
        binary_func_name(a) == binary_func_name(b) ==> a == b,
{
    lemma_binary_func_name_chars();
    if binary_func_name(a) == binary_func_name(b) {
        let (x, y) = (binary_func_name(a), binary_func_name(b));
        assert(x.len() == y.len());
        assert(x[0] == y[0]);
        assert(x[1] == y[1]);
        assert(x[2] == y[2]);
        assert(x[3] == y[3]);
        assert(x[4] == y[4]);
        assert(x[5] == y[5]);
        assert(x[6] == y[6]);
        assert(x[7] == y[7]);
        assert(x[8] == y[8]);
        assert(x[9] == y[9]);
        assert(x[10] == y[10]);
        assert(x[11] == y[11]);
        assert(x[12] == y[12]);
        assert(x[13] == y[13]);
        assert(x[14] == y[14]);
    }
}

/// The six comparisons are written with `<`, `>` and `=` alone: the text
/// holds `=` exactly for those that admit equality (`>=`, `<=`, `=`), starts
/// with `>` exactly for the greater-than ones and with `<` exactly for the
/// less-than ones and `<>`, and has at most two characters.
pub proof fn law_comparison_text(op: BinaryOperator)
    requires
        contrary_of(op) is Some,
    ensures
        binary_sql(op).len() >= 1 && binary_sql(op).len() <= 2,
        forall|i: int| 0 <= i < binary_sql(op).len() ==> #[trigger] binary_sql(op)[i] == '<' || binary_sql(op)[i] == '>'
            || binary_sql(op)[i] == '=',
        binary_sql(op).contains('=') <==> (op == BinaryOperator::Gte || op == BinaryOperator::Lte || op == BinaryOperator::Eq),
        binary_sql(op)[0] == '>' <==> (op == BinaryOperator::Gt || op == BinaryOperator::Gte),
        binary_sql(op)[0] == '<' <==> (op == BinaryOperator::Lt || op == BinaryOperator::Lte || op == BinaryOperator::NotEq),
{
    lemma_binary_sql_chars();
    let t = binary_sql(op);
    if op == BinaryOperator::Gte || op == BinaryOperator::Lte || op == BinaryOperator::Eq {
        assert(t[t.len() - 1] == '=');
    } else {
        assert forall|i: int| 0 <= i < t.len() implies t[i] != '=' by {}
    }
}

/// What a comparison says of two numbers; other operators are no
/// comparisons.
pub open spec fn compares(op: BinaryOperator, x: int, y: int) -> Option<bool> {
    match op {
        BinaryOperator::Gt => Some(x > y),
        BinaryOperator::Lt => Some(x < y),
        BinaryOperator::Gte => Some(x >= y),
        BinaryOperator::Lte => Some(x <= y),
        BinaryOperator::Eq => Some(x == y),
        BinaryOperator::NotEq => Some(x != y),
        _ => None,
    }
}

/// The contrary of a comparison holds exactly when the comparison fails,
/// for every pair of values; only the six comparisons have one.
pub proof fn law_contrary_negates(op: BinaryOperator, x: int, y: int)
    ensures
        contrary_of(op) is Some <==> compares(op, x, y) is Some,
        contrary_of(op) matches Some(c) ==> compares(c, x, y) == Some(!compares(op, x, y).unwrap()),
{
}

/// Taking the contrary of a comparison twice gives the comparison back.
pub proof fn law_contrary_involutive(op: BinaryOperator)
    requires
        contrary_of(op) is Some,
    ensures
        contrary_of(contrary_of(op).unwrap()) == Some(op),
{
}

/// The contrary of a comparison is another comparison, never the same one.
pub proof fn law_contrary_differs(op: BinaryOperator)
    requires
        contrary_of(op) is Some,
    ensures
        contrary_of(op).unwrap() != op,
{
}

} // verus!
