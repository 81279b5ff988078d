//! Bindable SQL parameter values.
//!
//! A [`Value`] is the tagged union carried by every query parameter. Floating
//! point parameters are held as their IEEE 754 bit patterns and JSON
//! parameters as their serialized text, so the whole union is made of plain
//! data; converting to and from host floats or a JSON tree is the caller's
//! concern, outside this library.

use vstd::prelude::*;

verus! {

/// A SQL value that can be used as a parameter.
#[derive(Debug, PartialEq)]
pub enum Value {
    /// Null value
    Null,
    /// Boolean value
    Bool(bool),
    /// 32-bit integer
    I32(i32),
    /// 64-bit integer
    I64(i64),
    /// 32-bit float, held as its IEEE 754 bit pattern
    F32Bits(u32),
    /// 64-bit float, held as its IEEE 754 bit pattern
    F64Bits(u64),
    /// String value
    String(String),
    /// Bytes value
    Bytes(Vec<u8>),
    /// JSON value, held as its serialized text
    Json(String),
    /// Array of values
    Array(Vec<Value>),
    /// Subquery placeholder (the actual subquery is stored separately)
    SubqueryPlaceholder,
}

/// The mathematical shape of a [`Value`]: strings and byte arrays become
/// sequences, arrays become sequences of shapes.
pub enum ValueV {
    Null,
    Bool(bool),
    I32(i32),
    I64(i64),
    F32Bits(u32),
    F64Bits(u64),
    Str(Seq<char>),
    Bytes(Seq<u8>),
    Json(Seq<char>),
    Array(Seq<ValueV>),
    SubqueryPlaceholder,
}

/// The shape of one value.
pub open spec fn value_view(v: Value) -> ValueV
    decreases v,
{
    match v {
        Value::Null => ValueV::Null,
        Value::Bool(b) => ValueV::Bool(b),
        Value::I32(n) => ValueV::I32(n),
        Value::I64(n) => ValueV::I64(n),
        Value::F32Bits(n) => ValueV::F32Bits(n),
        Value::F64Bits(n) => ValueV::F64Bits(n),
        Value::String(s) => ValueV::Str(s@),
        Value::Bytes(b) => ValueV::Bytes(b@),
        Value::Json(s) => ValueV::Json(s@),
        Value::Array(vs) => ValueV::Array(value_views(vs@)),
        Value::SubqueryPlaceholder => ValueV::SubqueryPlaceholder,
    }
}

/// The shapes of a sequence of values, in order.
pub open spec fn value_views(vs: Seq<Value>) -> Seq<ValueV>
    decreases vs,
{
    if vs.len() == 0 {
        Seq::empty()
    } else {
        value_views(vs.drop_last()).push(value_view(vs.last()))
    }
}

pub broadcast proof fn value_views_props(vs: Seq<Value>)
    ensures
        #[trigger] value_views(vs).len() == vs.len(),
        forall|i: int| 0 <= i < vs.len() ==> value_views(vs)[i] == value_view(vs[i]),
    decreases vs,
{
    if vs.len() > 0 {
        value_views_props(vs.drop_last());
        assert forall|i: int| 0 <= i < vs.len() implies value_views(vs)[i] == value_view(
            vs[i],
        ) by {
            if i < vs.len() - 1 {
                assert(vs.drop_last()[i] == vs[i]);
            }
        }
    }
}

impl View for Value {
    type V = ValueV;

    open spec fn view(&self) -> ValueV {
        value_view(*self)
    }
}

impl Clone for Value {
    /// Cloning keeps the value's shape.
    #[verifier::loop_isolation(false)]
    fn clone(&self) -> (res: Self)
        ensures
            res@ == self@,
        decreases *self,
    {
        match self {
            Value::Null => Value::Null,
            Value::Bool(b) => Value::Bool(*b),
            Value::I32(n) => Value::I32(*n),
            Value::I64(n) => Value::I64(*n),
            Value::F32Bits(n) => Value::F32Bits(*n),
            Value::F64Bits(n) => Value::F64Bits(*n),
            Value::String(s) => Value::String(s.clone()),
            Value::Bytes(b) => Value::Bytes(b.clone()),
            Value::Json(s) => Value::Json(s.clone()),
            Value::Array(vs) => {
                let mut out: Vec<Value> = Vec::new();
                let mut i: usize = 0;
                while i < vs.len()
                    invariant
                        0 <= i <= vs.len(),
                        out@.len() == i,
                        forall|j: int|
                            0 <= j < i ==> value_view(out@[j]) == value_view(vs@[j]),
                    decreases vs.len() - i,
                {
                    proof {
                        assert(decreases_to!(*self => (*self)->Array_0));
                        assert(decreases_to!((*self)->Array_0 => (*self)->Array_0@));
                        assert(decreases_to!(
                            (*self)->Array_0@ => (*self)->Array_0@[i as int]));
                        assert(decreases_to!(*self => vs@[i as int]));
                    }
                    let c = vs[i].clone();
                    out.push(c);
                    i = i + 1;
                }
                proof {
                    value_views_props(out@);
                    value_views_props(vs@);
                    assert(value_views(out@) =~= value_views(vs@));
                }
                Value::Array(out)
            },
            Value::SubqueryPlaceholder => Value::SubqueryPlaceholder,
        }
    }
}

impl Value {
    /// Whether this value is the SQL NULL.
    pub fn is_null(&self) -> (r: bool)
        ensures
            r == (self@ is Null),
    {
        matches!(self, Value::Null)
    }

    /// The SQL type name for this value.
    pub fn sql_type_name(&self) -> (r: &'static str)
        ensures
            r@ == spec_type_name(self@),
    {
        match self {
            Value::Null => "NULL",
            Value::Bool(_) => "BOOLEAN",
            Value::I32(_) => "INTEGER",
            Value::I64(_) => "BIGINT",
            Value::F32Bits(_) => "REAL",
            Value::F64Bits(_) => "DOUBLE PRECISION",
            Value::String(_) => "TEXT",
            Value::Bytes(_) => "BYTEA",
            Value::Json(_) => "JSON",
            Value::Array(_) => "ARRAY",
            Value::SubqueryPlaceholder => "SUBQUERY",
        }
    }

    /// The array elements, if this is an `Array` value.
    pub fn as_array(&self) -> (r: Option<&Vec<Value>>)
        ensures
            self@ is Array ==> r is Some && self@ == ValueV::Array(value_views(r->0@)),
            !(self@ is Array) ==> r is None,
    {
        match self {
            Value::Array(arr) => Some(arr),
            _ => None,
        }
    }
}

/// The SQL type name of a value of the given shape.
pub open spec fn spec_type_name(v: ValueV) -> Seq<char> {
    match v {
        ValueV::Null => "NULL"@,
        ValueV::Bool(_) => "BOOLEAN"@,
        ValueV::I32(_) => "INTEGER"@,
        ValueV::I64(_) => "BIGINT"@,
        ValueV::F32Bits(_) => "REAL"@,
        ValueV::F64Bits(_) => "DOUBLE PRECISION"@,
        ValueV::Str(_) => "TEXT"@,
        ValueV::Bytes(_) => "BYTEA"@,
        ValueV::Json(_) => "JSON"@,
        ValueV::Array(_) => "ARRAY"@,
        ValueV::SubqueryPlaceholder => "SUBQUERY"@,
    }
}

/// Conversion into a [`Value`] with an exact statement of the resulting
/// shape. This is the bound used by the condition and data helpers.
pub trait IntoValue: Sized {
    /// The shape of the value this converts to.
    spec fn spec_value(self) -> ValueV;

    fn into_value(self) -> (r: Value)
        ensures
            r@ == self.spec_value(),
    ;
}

impl IntoValue for Value {
    open spec fn spec_value(self) -> ValueV {
        self@
    }

    fn into_value(self) -> (r: Value) {
        self
    }
}

impl IntoValue for () {
    open spec fn spec_value(self) -> ValueV {
        ValueV::Null
    }

    fn into_value(self) -> (r: Value) {
        Value::Null
    }
}

impl IntoValue for bool {
    open spec fn spec_value(self) -> ValueV {
        ValueV::Bool(self)
    }

    fn into_value(self) -> (r: Value) {
        Value::Bool(self)
    }
}

impl IntoValue for i32 {
    open spec fn spec_value(self) -> ValueV {
        ValueV::I32(self)
    }

    fn into_value(self) -> (r: Value) {
        Value::I32(self)
    }
}

impl IntoValue for i64 {
    open spec fn spec_value(self) -> ValueV {
        ValueV::I64(self)
    }

    fn into_value(self) -> (r: Value) {
        Value::I64(self)
    }
}

impl IntoValue for &str {
    open spec fn spec_value(self) -> ValueV {
        ValueV::Str(self@)
    }

    fn into_value(self) -> (r: Value) {
        Value::String(self.to_owned())
    }
}

impl IntoValue for String {
    open spec fn spec_value(self) -> ValueV {
        ValueV::Str(self@)
    }

    fn into_value(self) -> (r: Value) {
        Value::String(self)
    }
}

impl IntoValue for Vec<u8> {
    open spec fn spec_value(self) -> ValueV {
        ValueV::Bytes(self@)
    }

    fn into_value(self) -> (r: Value) {
        Value::Bytes(self)
    }
}

impl<T: IntoValue> IntoValue for Vec<T> {
    open spec fn spec_value(self) -> ValueV {
        ValueV::Array(self@.map_values(|t: T| t.spec_value()))
    }

    #[verifier::loop_isolation(false)]
    fn into_value(self) -> (r: Value) {
        let mut items = self;
        let mut out: Vec<Value> = Vec::new();
        let ghost all: Seq<T> = items@;
        let n0 = items.len();
        proof {
            assert(all.len() == n0);
        }
        let mut i: usize = 0;
        while items.len() > 0
            invariant
                all.len() <= usize::MAX,
                i + items@.len() == all.len(),
                items@ =~= all.skip(i as int),
                out@.len() == i,
                forall|j: int| 0 <= j < i ==> value_view(out@[j]) == all[j].spec_value(),
            decreases items@.len(),
        {
            let x = items.remove(0);
            let v = x.into_value();
            out.push(v);
            i = i + 1;
        }
        proof {
            value_views_props(out@);
            assert(value_views(out@) =~= all.map_values(|t: T| t.spec_value()));
        }
        Value::Array(out)
    }
}

impl<T: IntoValue> IntoValue for Option<T> {
    open spec fn spec_value(self) -> ValueV {
        match self {
            Some(t) => t.spec_value(),
            None => ValueV::Null,
        }
    }

    fn into_value(self) -> (r: Value) {
        match self {
            Some(t) => t.into_value(),
            None => Value::Null,
        }
    }
}

} // verus!
verus! {

// Conversions from host primitives, mirroring `IntoValue`. These exist so
// that callers can rely on the ordinary `From`/`Into` machinery; the exact
// shape statements live on `IntoValue`.

impl From<()> for Value {
    fn from(_val: ()) -> (r: Value) {
        Value::Null
    }
}

impl vstd::std_specs::convert::FromSpecImpl<()> for Value {
    open spec fn obeys_from_spec() -> bool {
        true
    }

    open spec fn from_spec(v: ()) -> Value {
        Value::Null
    }
}

impl From<bool> for Value {
    fn from(val: bool) -> (r: Value) {
        Value::Bool(val)
    }
}

impl vstd::std_specs::convert::FromSpecImpl<bool> for Value {
    open spec fn obeys_from_spec() -> bool {
        true
    }

    open spec fn from_spec(v: bool) -> Value {
        Value::Bool(v)
    }
}

impl From<i32> for Value {
    fn from(val: i32) -> (r: Value) {
        Value::I32(val)
    }
}

impl vstd::std_specs::convert::FromSpecImpl<i32> for Value {
    open spec fn obeys_from_spec() -> bool {
        true
    }

    open spec fn from_spec(v: i32) -> Value {
        Value::I32(v)
    }
}

impl From<i64> for Value {
    fn from(val: i64) -> (r: Value) {
        Value::I64(val)
    }
}

impl vstd::std_specs::convert::FromSpecImpl<i64> for Value {
    open spec fn obeys_from_spec() -> bool {
        true
    }

    open spec fn from_spec(v: i64) -> Value {
        Value::I64(v)
    }
}

impl From<String> for Value {
    fn from(val: String) -> (r: Value) {
        Value::String(val)
    }
}

impl vstd::std_specs::convert::FromSpecImpl<String> for Value {
    open spec fn obeys_from_spec() -> bool {
        true
    }

    open spec fn from_spec(v: String) -> Value {
        Value::String(v)
    }
}

impl From<&str> for Value {
    fn from(val: &str) -> (r: Value)
        ensures
            r@ == ValueV::Str(val@),
    {
        Value::String(val.to_owned())
    }
}

impl vstd::std_specs::convert::FromSpecImpl<&str> for Value {
    open spec fn obeys_from_spec() -> bool {
        false
    }

    open spec fn from_spec(v: &str) -> Value {
        choose|r: Value| value_view(r) == ValueV::Str(v@)
    }
}

impl From<Vec<u8>> for Value {
    fn from(val: Vec<u8>) -> (r: Value) {
        Value::Bytes(val)
    }
}

impl vstd::std_specs::convert::FromSpecImpl<Vec<u8>> for Value {
    open spec fn obeys_from_spec() -> bool {
        true
    }

    open spec fn from_spec(v: Vec<u8>) -> Value {
        Value::Bytes(v)
    }
}

impl<T> From<Vec<T>> for Value where Value: From<T> {
    fn from(vals: Vec<T>) -> (r: Value) {
        let mut items = vals;
        let mut out: Vec<Value> = Vec::new();
        while items.len() > 0
            decreases items@.len(),
        {
            let x = items.remove(0);
            out.push(Value::from(x));
        }
        Value::Array(out)
    }
}

impl<T> vstd::std_specs::convert::FromSpecImpl<Vec<T>> for Value where Value: From<T> {
    open spec fn obeys_from_spec() -> bool {
        false
    }

    open spec fn from_spec(v: Vec<T>) -> Value {
        choose|r: Value| value_view(r) is Array
    }
}

impl<T> From<&[T]> for Value where T: Clone, Value: From<T> {
    fn from(vals: &[T]) -> (r: Value) {
        let mut out: Vec<Value> = Vec::new();
        let mut i: usize = 0;
        while i < vals.len()
            decreases vals@.len() - i,
        {
            let x = vals[i].clone();
            out.push(Value::from(x));
            i = i + 1;
        }
        Value::Array(out)
    }
}

impl<T> vstd::std_specs::convert::FromSpecImpl<&[T]> for Value where T: Clone, Value: From<T> {
    open spec fn obeys_from_spec() -> bool {
        false
    }

    open spec fn from_spec(v: &[T]) -> Value {
        choose|r: Value| value_view(r) is Array
    }
}

impl<T> From<Option<T>> for Value where Value: From<T> {
    fn from(opt: Option<T>) -> (r: Value) {
        match opt {
            Some(val) => Value::from(val),
            None => Value::Null,
        }
    }
}

impl<T> vstd::std_specs::convert::FromSpecImpl<Option<T>> for Value where Value: From<T> {
    open spec fn obeys_from_spec() -> bool {
        <Value as vstd::std_specs::convert::FromSpec<T>>::obeys_from_spec()
    }

    open spec fn from_spec(v: Option<T>) -> Value {
        match v {
            Some(t) => <Value as vstd::std_specs::convert::FromSpec<T>>::from_spec(t),
            None => Value::Null,
        }
    }
}

} // verus!
