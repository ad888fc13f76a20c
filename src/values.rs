//! Runtime values: one datum of a known kind, with its textual form, equality,
//! ordering and type.
use vstd::prelude::*;
use std::cmp::Ordering;
use crate::syntax::{FunctionDef, FunctionDefView};
use crate::types::{DataType, Kind};

verus! {

/// A handle on a parsed Python function declaration.
#[derive(Clone, Debug)]
pub struct PyFunctionValue {
    pub function: FunctionDef,
}

/// One value of a row.
#[derive(Clone, Debug)]
pub enum Value {
    Integer(i64),
    Text(String),
    Null,
    Function(PyFunctionValue),
}

/// The mathematical content of a value.
pub enum ValueView {
    Integer(i64),
    Text(Seq<char>),
    Null,
    Function(FunctionDefView),
}

impl View for Value {
    type V = ValueView;

    open spec fn view(&self) -> ValueView {
        match self {
            Value::Integer(x) => ValueView::Integer(*x),
            Value::Text(s) => ValueView::Text(s@),
            Value::Null => ValueView::Null,
            Value::Function(f) => ValueView::Function(f.function@),
        }
    }
}

/// The character of a decimal digit.
pub open spec fn digit_char(d: nat) -> char {
    seq!['0', '1', '2', '3', '4', '5', '6', '7', '8', '9'][d as int]
}

/// The decimal digits of `n`, most significant first, without leading zeros.
pub open spec fn digits(n: nat) -> Seq<char>
    decreases n,
{
    if n < 10 {
        seq![digit_char(n)]
    } else {
        digits(n / 10).push(digit_char(n % 10))
    }
}

/// The decimal text of an integer, with a leading `-` when it is negative.
pub open spec fn decimal(v: int) -> Seq<char> {
    if v < 0 {
        seq!['-'] + digits((-v) as nat)
    } else {
        digits(v as nat)
    }
}

/// Lexicographic order of two texts by their characters' code points, a proper
/// prefix coming first.
pub open spec fn text_order(a: Seq<char>, b: Seq<char>) -> Ordering
    decreases a.len(),
{
    if a.len() == 0 {
        if b.len() == 0 {
            Ordering::Equal
        } else {
            Ordering::Less
        }
    } else if b.len() == 0 {
        Ordering::Greater
    } else if (a[0] as u32) < (b[0] as u32) {
        Ordering::Less
    } else if (a[0] as u32) > (b[0] as u32) {
        Ordering::Greater
    } else {
        text_order(a.drop_first(), b.drop_first())
    }
}

/// The numeric order of two integers.
pub open spec fn int_order(a: i64, b: i64) -> Ordering {
    if a < b {
        Ordering::Less
    } else if a > b {
        Ordering::Greater
    } else {
        Ordering::Equal
    }
}

/// Parameter names separated by `", "`.
pub open spec fn joined_params(ps: Seq<Seq<char>>) -> Seq<char>
    decreases ps.len(),
{
    if ps.len() == 0 {
        Seq::empty()
    } else if ps.len() == 1 {
        ps[0]
    } else {
        joined_params(ps.drop_last()) + ", "@ + ps.last()
    }
}

/// The signature line of a function declaration: `def <name>(<params>):`.
pub open spec fn signature(f: FunctionDefView) -> Seq<char> {
    "def "@ + f.name + "("@ + joined_params(f.params) + "):"@
}

/// Equality of values: both of the same kind and with equal contents; a
/// function handle equals another when their declarations are structurally equal.
pub open spec fn value_equals(a: Value, b: Value) -> bool {
    match (a, b) {
        (Value::Integer(x), Value::Integer(y)) => x == y,
        (Value::Text(x), Value::Text(y)) => x@ == y@,
        (Value::Null, Value::Null) => true,
        (Value::Function(f), Value::Function(g)) => f.function@ == g.function@,
        _ => false,
    }
}

/// Order of values: integers by number, texts lexicographically; nulls, function
/// handles and values of different kinds are incomparable.
pub open spec fn value_order(a: Value, b: Value) -> Option<Ordering> {
    match (a, b) {
        (Value::Integer(x), Value::Integer(y)) => Some(int_order(x, y)),
        (Value::Text(x), Value::Text(y)) => Some(text_order(x@, y@)),
        _ => None,
    }
}

/// The kind of a value.
pub open spec fn value_kind(v: Value) -> Kind {
    match v {
        Value::Integer(_) => Kind::Integer,
        Value::Text(_) => Kind::Text,
        Value::Null => Kind::Null,
        Value::Function(_) => Kind::PyFunction,
    }
}

/// The textual form of a value.
pub open spec fn rendered(v: Value) -> Seq<char> {
    match v {
        Value::Integer(x) => decimal(x as int),
        Value::Text(s) => s@,
        Value::Null => "Null"@,
        Value::Function(f) => signature(f.function@),
    }
}

/// Values of different kinds are never equal.
pub proof fn lemma_different_kinds_never_equal(a: Value, b: Value)
    requires
        value_kind(a) != value_kind(b),
    ensures
        !value_equals(a, b),
{
}

/// A function handle is incomparable with every value, itself included.
pub proof fn lemma_function_handles_incomparable(f: PyFunctionValue, other: Value)
    ensures
        value_order(Value::Function(f), other) is None,
        value_order(other, Value::Function(f)) is None,
        value_order(Value::Function(f), Value::Function(f)) is None,
{
}

/// Relies on `i64`'s `to_string` (its `Display`): the decimal text of the number.
#[verifier::external_body]
fn int_text(v: i64) -> (r: String)
    ensures
        r@ == decimal(v as int),
{
    v.to_string()
}

/// Relies on `String`'s `partial_cmp`: strings are ordered lexicographically by
/// their UTF-8 bytes, which orders them as their characters' code points do.
#[verifier::external_body]
fn compare_text(a: &String, b: &String) -> (r: Option<Ordering>)
    ensures
        r == Some(text_order(a@, b@)),
{
    a.partial_cmp(b)
}

impl PyFunctionValue {
    /// The signature line of the declaration, `def <name>(<params>):`.
    pub fn literal(&self) -> (r: String)
        ensures
            r@ == signature(self.function@),
    {
        let f = &self.function;
        let mut r = String::from_str("def ");
        r.append(f.name.as_str());
        r.append("(");
        let ghost ps = f@.params;
        let mut i: usize = 0;
        assert(ps.subrange(0, 0) =~= Seq::<Seq<char>>::empty());
        while i < f.params.len()
            invariant
                0 <= i <= f.params@.len(),
                ps == f@.params,
                r@ == "def "@ + f.name@ + "("@ + joined_params(ps.subrange(0, i as int)),
            decreases f.params@.len() - i,
        {
            proof {
                assert(ps.subrange(0, i as int + 1).drop_last() =~= ps.subrange(0, i as int));
            }
            if i > 0 {
                r.append(", ");
            }
            r.append(f.params[i].as_str());
            i += 1;
        }
        assert(ps.subrange(0, ps.len() as int) =~= ps);
        r.append("):");
        r
    }

    /// Whether `other` is a function handle on a structurally equal declaration.
    pub fn equals(&self, other: &Value) -> (r: bool)
        ensures
            r == value_equals(Value::Function(*self), *other),
    {
        match other {
            Value::Function(o) => same_function(&self.function, &o.function),
            _ => false,
        }
    }

    /// Function handles have no order: always `None`.
    pub fn compare(&self, other: &Value) -> (r: Option<Ordering>)
        ensures
            r == value_order(Value::Function(*self), *other),
            r is None,
    {
        None
    }

    /// The type of every function handle.
    pub fn data_type(&self) -> (r: DataType)
        ensures
            r == DataType::Of(Kind::PyFunction),
    {
        DataType::Of(Kind::PyFunction)
    }
}

/// Whether two sequences of texts are equal.
fn same_texts(a: &Vec<String>, b: &Vec<String>) -> (r: bool)
    ensures
        r == (a@.map_values(|p: String| p@) == b@.map_values(|p: String| p@)),
{
    let ghost va = a@.map_values(|p: String| p@);
    let ghost vb = b@.map_values(|p: String| p@);
    if a.len() != b.len() {
        assert(va.len() != vb.len());
        return false;
    }
    let mut i: usize = 0;
    while i < a.len()
        invariant
            0 <= i <= a@.len(),
            a@.len() == b@.len(),
            va == a@.map_values(|p: String| p@),
            vb == b@.map_values(|p: String| p@),
            forall|k: int| 0 <= k < i ==> va[k] == vb[k],
        decreases a@.len() - i,
    {
        if a[i] != b[i] {
            assert(va[i as int] != vb[i as int]);
            return false;
        }
        i += 1;
    }
    assert(va =~= vb);
    true
}

/// Whether two declarations are structurally equal.
fn same_function(a: &FunctionDef, b: &FunctionDef) -> (r: bool)
    ensures
        r == (a@ == b@),
{
    a.name == b.name && same_texts(&a.params, &b.params) && a.tree == b.tree
}

impl Value {
    /// The textual form: an integer in decimal, a text as it is, `Null`, or a
    /// function's signature line.
    pub fn literal(&self) -> (r: String)
        ensures
            r@ == rendered(*self),
    {
        match self {
            Value::Integer(x) => int_text(*x),
            Value::Text(s) => s.clone(),
            Value::Null => String::from_str("Null"),
            Value::Function(f) => f.literal(),
        }
    }

    /// Whether both values are of the same kind with equal contents; values of
    /// different kinds are never equal.
    pub fn equals(&self, other: &Value) -> (r: bool)
        ensures
            r == value_equals(*self, *other),
    {
        match self {
            Value::Integer(x) => match other {
                Value::Integer(y) => *x == *y,
                _ => false,
            },
            Value::Text(x) => match other {
                Value::Text(y) => *x == *y,
                _ => false,
            },
            Value::Null => match other {
                Value::Null => true,
                _ => false,
            },
            Value::Function(f) => f.equals(other),
        }
    }

    /// The order of two values, or `None` where the kinds have no order or differ.
    pub fn compare(&self, other: &Value) -> (r: Option<Ordering>)
        ensures
            r == value_order(*self, *other),
    {
        match self {
            Value::Integer(x) => match other {
                Value::Integer(y) => {
                    if *x < *y {
                        Some(Ordering::Less)
                    } else if *x > *y {
                        Some(Ordering::Greater)
                    } else {
                        Some(Ordering::Equal)
                    }
                },
                _ => None,
            },
            Value::Text(x) => match other {
                Value::Text(y) => compare_text(x, y),
                _ => None,
            },
            _ => None,
        }
    }

    /// The type of this value.
    pub fn data_type(&self) -> (r: DataType)
        ensures
            r == DataType::Of(value_kind(*self)),
    {
        match self {
            Value::Integer(_) => DataType::Of(Kind::Integer),
            Value::Text(_) => DataType::Of(Kind::Text),
            Value::Null => DataType::Of(Kind::Null),
            Value::Function(_) => DataType::Of(Kind::PyFunction),
        }
    }
}

} // verus!
