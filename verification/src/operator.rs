//! SQL operator types and conversions.
//!
//! An [`Operator`] is either a member of the fixed set of known SQL
//! comparison and membership operators, a caller-supplied custom token, or a
//! free-form string that matched nothing and is only rejected when the query
//! renders. Construction never fails; `validate` is where an unknown
//! operator surfaces.

use vstd::prelude::*;
use crate::error::{Error, ErrorV};
use crate::render::push_char;

verus! {

/// Type-safe SQL operator.
#[derive(Debug, Clone, PartialEq, Eq)]
pub enum Operator {
    /// `=`
    Equal,
    /// `!=`
    NotEqual,
    /// `>`
    GreaterThan,
    /// `<`
    LessThan,
    /// `>=`
    GreaterThanOrEqual,
    /// `<=`
    LessThanOrEqual,
    /// `LIKE`
    Like,
    /// `ILIKE`
    ILike,
    /// `IN`
    In,
    /// `NOT IN`
    NotIn,
    /// `IS NULL`
    IsNull,
    /// `IS NOT NULL`
    IsNotNull,
    /// `EXISTS`
    Exists,
    /// `NOT EXISTS`
    NotExists,
    /// Custom operator for database-specific operations; always valid
    Custom(&'static str),
    /// Unknown operator (rejected at `to_sql()` time)
    Unknown(String),
}

/// The shape of an [`Operator`], with token text as character sequences.
pub enum OpV {
    Equal,
    NotEqual,
    GreaterThan,
    LessThan,
    GreaterThanOrEqual,
    LessThanOrEqual,
    Like,
    ILike,
    In,
    NotIn,
    IsNull,
    IsNotNull,
    Exists,
    NotExists,
    Custom(Seq<char>),
    Unknown(Seq<char>),
}

impl View for Operator {
    type V = OpV;

    open spec fn view(&self) -> OpV {
        match self {
            Operator::Equal => OpV::Equal,
            Operator::NotEqual => OpV::NotEqual,
            Operator::GreaterThan => OpV::GreaterThan,
            Operator::LessThan => OpV::LessThan,
            Operator::GreaterThanOrEqual => OpV::GreaterThanOrEqual,
            Operator::LessThanOrEqual => OpV::LessThanOrEqual,
            Operator::Like => OpV::Like,
            Operator::ILike => OpV::ILike,
            Operator::In => OpV::In,
            Operator::NotIn => OpV::NotIn,
            Operator::IsNull => OpV::IsNull,
            Operator::IsNotNull => OpV::IsNotNull,
            Operator::Exists => OpV::Exists,
            Operator::NotExists => OpV::NotExists,
            Operator::Custom(s) => OpV::Custom(s@),
            Operator::Unknown(s) => OpV::Unknown(s@),
        }
    }
}

/// The SQL token an operator renders to.
pub open spec fn op_text(o: OpV) -> Seq<char> {
    match o {
        OpV::Equal => "="@,
        OpV::NotEqual => "!="@,
        OpV::GreaterThan => ">"@,
        OpV::LessThan => "<"@,
        OpV::GreaterThanOrEqual => ">="@,
        OpV::LessThanOrEqual => "<="@,
        OpV::Like => "LIKE"@,
        OpV::ILike => "ILIKE"@,
        OpV::In => "IN"@,
        OpV::NotIn => "NOT IN"@,
        OpV::IsNull => "IS NULL"@,
        OpV::IsNotNull => "IS NOT NULL"@,
        OpV::Exists => "EXISTS"@,
        OpV::NotExists => "NOT EXISTS"@,
        OpV::Custom(s) => s,
        OpV::Unknown(s) => s,
    }
}

/// Whether an operator validates: every shape but `Unknown` does.
pub open spec fn op_is_known(o: OpV) -> bool {
    !(o is Unknown)
}

/// The operator an arbitrary string converts to: the fixed table of known
/// spellings, upper or lower case, and `Unknown` for everything else.
pub open spec fn op_from_str(s: Seq<char>) -> OpV {
    if s == ">"@ {
        OpV::GreaterThan
    } else if s == "<"@ {
        OpV::LessThan
    } else if s == "="@ {
        OpV::Equal
    } else if s == "!="@ {
        OpV::NotEqual
    } else if s == ">="@ {
        OpV::GreaterThanOrEqual
    } else if s == "<="@ {
        OpV::LessThanOrEqual
    } else if s == "LIKE"@ || s == "like"@ {
        OpV::Like
    } else if s == "ILIKE"@ || s == "ilike"@ {
        OpV::ILike
    } else if s == "IN"@ || s == "in"@ {
        OpV::In
    } else if s == "NOT IN"@ || s == "not in"@ {
        OpV::NotIn
    } else if s == "IS NULL"@ || s == "is null"@ {
        OpV::IsNull
    } else if s == "IS NOT NULL"@ || s == "is not null"@ {
        OpV::IsNotNull
    } else if s == "EXISTS"@ || s == "exists"@ {
        OpV::Exists
    } else if s == "NOT EXISTS"@ || s == "not exists"@ {
        OpV::NotExists
    } else {
        OpV::Unknown(s)
    }
}

/// One character of the operator-constant suggestion: spaces become
/// underscores, `!` becomes `N`, ASCII lower case letters become upper case.
pub open spec fn suggest_char(c: char) -> char {
    if c == ' ' {
        '_'
    } else if c == '!' {
        'N'
    } else if 'a' <= c && c <= 'z' {
        (((c as u32) - 32) as char)
    } else {
        c
    }
}

/// The constant-name suggestion derived from an unknown operator token.
pub open spec fn op_suggestion(s: Seq<char>) -> Seq<char> {
    s.map_values(|c: char| suggest_char(c))
}

/// The full message of the unknown-operator error for token `s`.
pub open spec fn unknown_op_message(s: Seq<char>) -> Seq<char> {
    "Unknown operator '"@ + s + "'. Use Operator::"@ + op_suggestion(s)
        + " constants or Operator::custom(\""@ + s + "\") for custom operators."@
}

/// The error value that rendering an unknown operator produces.
pub open spec fn unknown_op_error(s: Seq<char>) -> ErrorV {
    ErrorV::InvalidQuery { message: unknown_op_message(s) }
}

/// Builds the constant-name suggestion for an operator token.
#[verifier::loop_isolation(false)]
fn build_suggestion(tok: &str) -> (r: String)
    ensures
        r@ == op_suggestion(tok@),
{
    let n = tok.unicode_len();
    let mut out = String::new();
    let mut i: usize = 0;
    while i < n
        invariant
            0 <= i <= n,
            out@ =~= tok@.take(i as int).map_values(|c: char| suggest_char(c)),
        decreases n - i,
    {
        let c = tok.get_char(i);
        let d: char = if c == ' ' {
            '_'
        } else if c == '!' {
            'N'
        } else if 'a' <= c && c <= 'z' {
            (((c as u32) - 32) as u8) as char
        } else {
            c
        };
        proof {
            assert(d == suggest_char(tok@[i as int]));
            assert(tok@.take(i + 1).map_values(|c: char| suggest_char(c)) =~= tok@.take(
                i as int,
            ).map_values(|c: char| suggest_char(c)).push(suggest_char(tok@[i as int])));
        }
        push_char(&mut out, d);
        i = i + 1;
    }
    proof {
        assert(tok@.take(n as int) =~= tok@);
    }
    out
}

impl Operator {
    pub const GT: Operator = Operator::GreaterThan;

    pub const LT: Operator = Operator::LessThan;

    pub const EQ: Operator = Operator::Equal;

    pub const NEQ: Operator = Operator::NotEqual;

    pub const GTE: Operator = Operator::GreaterThanOrEqual;

    pub const LTE: Operator = Operator::LessThanOrEqual;

    pub const LIKE: Operator = Operator::Like;

    pub const ILIKE: Operator = Operator::ILike;

    pub const IN: Operator = Operator::In;

    pub const NOT_IN: Operator = Operator::NotIn;

    pub const IS_NULL: Operator = Operator::IsNull;

    pub const IS_NOT_NULL: Operator = Operator::IsNotNull;

    pub const EXISTS: Operator = Operator::Exists;

    pub const NOT_EXISTS: Operator = Operator::NotExists;

    /// Create a custom operator for database-specific operations.
    /// A custom operator always validates; its token renders as given.
    pub fn custom(op: &'static str) -> (r: Self)
        ensures
            r@ == OpV::Custom(op@),
    {
        Operator::Custom(op)
    }

    /// The string representation of the operator.
    pub fn as_str(&self) -> (r: &str)
        ensures
            r@ == op_text(self@),
    {
        match self {
            Operator::Equal => "=",
            Operator::NotEqual => "!=",
            Operator::GreaterThan => ">",
            Operator::LessThan => "<",
            Operator::GreaterThanOrEqual => ">=",
            Operator::LessThanOrEqual => "<=",
            Operator::Like => "LIKE",
            Operator::ILike => "ILIKE",
            Operator::In => "IN",
            Operator::NotIn => "NOT IN",
            Operator::IsNull => "IS NULL",
            Operator::IsNotNull => "IS NOT NULL",
            Operator::Exists => "EXISTS",
            Operator::NotExists => "NOT EXISTS",
            Operator::Custom(s) => s,
            Operator::Unknown(s) => s.as_str(),
        }
    }

    /// The string representation as an owned `String`.
    pub fn to_string(&self) -> (r: String)
        ensures
            r@ == op_text(self@),
    {
        self.as_str().to_owned()
    }

    /// Validate that this operator is recognized (used at `to_sql()` time):
    /// success if and only if the operator is not the `Unknown` variant, and
    /// the unknown-operator error names the offending token.
    pub fn validate(&self) -> (r: Result<(), Error>)
        ensures
            r is Ok <==> op_is_known(self@),
            r is Err ==> self@ is Unknown && r->Err_0@ == unknown_op_error(self@->Unknown_0),
    {
        match self {
            Operator::Unknown(op) => {
                let mut m = "Unknown operator '".to_owned();
                m.append(op.as_str());
                m.append("'. Use Operator::");
                let sug = build_suggestion(op.as_str());
                m.append(sug.as_str());
                m.append(" constants or Operator::custom(\"");
                m.append(op.as_str());
                m.append("\") for custom operators.");
                Err(Error::InvalidQuery { message: m })
            },
            _ => Ok(()),
        }
    }
}

/// Trait for types that can be converted to SQL operators.
pub trait IntoOperator: Sized {
    /// The shape of the operator this converts to.
    spec fn spec_operator(self) -> OpV;

    fn into_operator(self) -> (r: Operator)
        ensures
            r@ == self.spec_operator(),
    ;
}

impl IntoOperator for Operator {
    open spec fn spec_operator(self) -> OpV {
        self@
    }

    fn into_operator(self) -> (r: Operator) {
        self
    }
}

fn str_eq(a: &str, b: &str) -> (r: bool)
    ensures
        r == (a@ == b@),
{
    let sa = a.to_owned();
    let sb = b.to_owned();
    sa == sb
}

/// String literals convert through the fixed spelling table; anything
/// unrecognized is kept as-is and only rejected at `to_sql()` time.
impl IntoOperator for &str {
    open spec fn spec_operator(self) -> OpV {
        op_from_str(self@)
    }

    fn into_operator(self) -> (r: Operator) {
        if str_eq(self, ">") {
            Operator::GreaterThan
        } else if str_eq(self, "<") {
            Operator::LessThan
        } else if str_eq(self, "=") {
            Operator::Equal
        } else if str_eq(self, "!=") {
            Operator::NotEqual
        } else if str_eq(self, ">=") {
            Operator::GreaterThanOrEqual
        } else if str_eq(self, "<=") {
            Operator::LessThanOrEqual
        } else if str_eq(self, "LIKE") || str_eq(self, "like") {
            Operator::Like
        } else if str_eq(self, "ILIKE") || str_eq(self, "ilike") {
            Operator::ILike
        } else if str_eq(self, "IN") || str_eq(self, "in") {
            Operator::In
        } else if str_eq(self, "NOT IN") || str_eq(self, "not in") {
            Operator::NotIn
        } else if str_eq(self, "IS NULL") || str_eq(self, "is null") {
            Operator::IsNull
        } else if str_eq(self, "IS NOT NULL") || str_eq(self, "is not null") {
            Operator::IsNotNull
        } else if str_eq(self, "EXISTS") || str_eq(self, "exists") {
            Operator::Exists
        } else if str_eq(self, "NOT EXISTS") || str_eq(self, "not exists") {
            Operator::NotExists
        } else {
            Operator::Unknown(self.to_owned())
        }
    }
}

} // verus!
