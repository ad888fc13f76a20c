//! Type descriptors: what kind of value a column holds, and which kinds are
//! compatible with one another.
use vstd::prelude::*;

verus! {

/// A single kind of value, or the wildcard that every kind is compatible with.
#[derive(Clone, Copy, Debug, PartialEq, Eq, Structural)]
pub enum Kind {
    Integer,
    Text,
    Null,
    /// The wildcard: compatible with every kind.
    Any,
    /// A handle on a Python function declaration.
    PyFunction,
}

/// The type of a column or of a value: one kind, or a fixed set of alternative
/// kinds.
#[derive(Clone, Debug)]
pub enum DataType {
    Of(Kind),
    Variant(Vec<Kind>),
}

/// Two single kinds are compatible when either is the wildcard or both are the same.
pub open spec fn kind_matches(a: Kind, b: Kind) -> bool {
    a == Kind::Any || b == Kind::Any || a == b
}

/// Compatibility of two type descriptors: the wildcard matches everything, a
/// variant matches when one of its alternatives matches the other side, and a
/// variant always matches a variant with the same alternatives.
pub open spec fn compatible(a: DataType, b: DataType) -> bool {
    match (a, b) {
        (DataType::Of(x), DataType::Of(y)) => kind_matches(x, y),
        (DataType::Variant(xs), DataType::Of(y)) => y == Kind::Any || exists|i: int|
            0 <= i < xs@.len() && kind_matches(#[trigger] xs@[i], y),
        (DataType::Of(x), DataType::Variant(ys)) => x == Kind::Any || exists|j: int|
            0 <= j < ys@.len() && kind_matches(x, #[trigger] ys@[j]),
        (DataType::Variant(xs), DataType::Variant(ys)) => xs@ == ys@ || exists|i: int, j: int|
            0 <= i < xs@.len() && 0 <= j < ys@.len() && kind_matches(
                #[trigger] xs@[i],
                #[trigger] ys@[j],
            ),
    }
}

/// The wildcard is compatible with every type, on either side.
pub proof fn lemma_any_matches_everything(t: DataType)
    ensures
        compatible(DataType::Of(Kind::Any), t),
        compatible(t, DataType::Of(Kind::Any)),
{
}

/// Every type is compatible with itself.
pub proof fn lemma_compatible_reflexive(t: DataType)
    ensures
        compatible(t, t),
{
    match t {
        DataType::Of(k) => {},
        DataType::Variant(ks) => {},
    }
}

/// Compatibility does not depend on the order of the two sides.
pub proof fn lemma_compatible_symmetric(a: DataType, b: DataType)
    ensures
        compatible(a, b) == compatible(b, a),
{
    match (a, b) {
        (DataType::Variant(xs), DataType::Variant(ys)) => {
            if compatible(a, b) && xs@ != ys@ {
                let (i, j) = choose|i: int, j: int|
                    0 <= i < xs@.len() && 0 <= j < ys@.len() && kind_matches(
                        #[trigger] xs@[i],
                        #[trigger] ys@[j],
                    );
                assert(kind_matches(ys@[j], xs@[i]));
            }
            if compatible(b, a) && xs@ != ys@ {
                let (j, i) = choose|j: int, i: int|
                    0 <= j < ys@.len() && 0 <= i < xs@.len() && kind_matches(
                        #[trigger] ys@[j],
                        #[trigger] xs@[i],
                    );
                assert(kind_matches(xs@[i], ys@[j]));
            }
        },
        (DataType::Variant(xs), DataType::Of(y)) => {
            if compatible(a, b) && y != Kind::Any {
                let i = choose|i: int| 0 <= i < xs@.len() && kind_matches(#[trigger] xs@[i], y);
                assert(kind_matches(y, xs@[i]));
            }
            if compatible(b, a) && y != Kind::Any {
                let i = choose|i: int| 0 <= i < xs@.len() && kind_matches(y, #[trigger] xs@[i]);
                assert(kind_matches(xs@[i], y));
            }
        },
        (DataType::Of(x), DataType::Variant(ys)) => {
            if compatible(a, b) && x != Kind::Any {
                let j = choose|j: int| 0 <= j < ys@.len() && kind_matches(x, #[trigger] ys@[j]);
                assert(kind_matches(ys@[j], x));
            }
            if compatible(b, a) && x != Kind::Any {
                let j = choose|j: int| 0 <= j < ys@.len() && kind_matches(#[trigger] ys@[j], x);
                assert(kind_matches(x, ys@[j]));
            }
        },
        _ => {},
    }
}

/// The name by which a kind is shown.
pub open spec fn kind_name(k: Kind) -> Seq<char> {
    match k {
        Kind::Integer => "Int"@,
        Kind::Text => "Text"@,
        Kind::Null => "Null"@,
        Kind::Any => "Any"@,
        Kind::PyFunction => "PyFunction"@,
    }
}

/// The names of the alternatives, separated by `" | "`.
pub open spec fn joined_names(ks: Seq<Kind>) -> Seq<char>
    decreases ks.len(),
{
    if ks.len() == 0 {
        Seq::empty()
    } else if ks.len() == 1 {
        kind_name(ks[0])
    } else {
        joined_names(ks.drop_last()) + " | "@ + kind_name(ks.last())
    }
}

/// The name by which a type is shown: a variant lists its alternatives in brackets.
pub open spec fn descriptor_name(t: DataType) -> Seq<char> {
    match t {
        DataType::Of(k) => kind_name(k),
        DataType::Variant(ks) => "["@ + joined_names(ks@) + "]"@,
    }
}

impl Kind {
    /// Whether this kind is compatible with `other`.
    pub fn matches(&self, other: &Kind) -> (r: bool)
        ensures
            r == kind_matches(*self, *other),
    {
        *self == Kind::Any || *other == Kind::Any || *self == *other
    }

    /// The name by which this kind is shown.
    pub fn describe(&self) -> (r: String)
        ensures
            r@ == kind_name(*self),
    {
        let s = match self {
            Kind::Integer => "Int",
            Kind::Text => "Text",
            Kind::Null => "Null",
            Kind::Any => "Any",
            Kind::PyFunction => "PyFunction",
        };
        String::from_str(s)
    }
}

/// Whether some kind of `ks` matches `k`.
fn any_alternative_matches(ks: &Vec<Kind>, k: Kind) -> (r: bool)
    ensures
        r == exists|i: int| 0 <= i < ks@.len() && kind_matches(#[trigger] ks@[i], k),
{
    let mut i: usize = 0;
    while i < ks.len()
        invariant
            0 <= i <= ks@.len(),
            forall|p: int| 0 <= p < i ==> !kind_matches(#[trigger] ks@[p], k),
        decreases ks@.len() - i,
    {
        if ks[i].matches(&k) {
            return true;
        }
        i += 1;
    }
    false
}

/// Whether two sequences of kinds hold the same kinds in the same order.
fn same_kinds(xs: &Vec<Kind>, ys: &Vec<Kind>) -> (r: bool)
    ensures
        r == (xs@ == ys@),
{
    if xs.len() != ys.len() {
        return false;
    }
    let mut i: usize = 0;
    while i < xs.len()
        invariant
            0 <= i <= xs@.len(),
            xs@.len() == ys@.len(),
            forall|p: int| 0 <= p < i ==> xs@[p] == ys@[p],
        decreases xs@.len() - i,
    {
        if xs[i] != ys[i] {
            return false;
        }
        i += 1;
    }
    assert(xs@ =~= ys@);
    true
}

impl DataType {
    /// Whether this type is compatible with `other`.
    pub fn matches(&self, other: &DataType) -> (r: bool)
        ensures
            r == compatible(*self, *other),
    {
        match self {
            DataType::Of(x) => match other {
                DataType::Of(y) => x.matches(y),
                DataType::Variant(ys) => {
                    let r = *x == Kind::Any || any_alternative_matches(ys, *x);
                    proof {
                        if r && *x != Kind::Any {
                            let j = choose|j: int| 0 <= j < ys@.len() && kind_matches(#[trigger] ys@[j], *x);
                            assert(kind_matches(*x, ys@[j]));
                        }
                    }
                    r
                },
            },
            DataType::Variant(xs) => match other {
                DataType::Of(y) => *y == Kind::Any || any_alternative_matches(xs, *y),
                DataType::Variant(ys) => {
                    if same_kinds(xs, ys) {
                        return true;
                    }
                    let mut j: usize = 0;
                    while j < ys.len()
                        invariant
                            0 <= j <= ys@.len(),
                            *self == DataType::Variant(*xs),
                            *other == DataType::Variant(*ys),
                            forall|i: int, q: int|
                                0 <= i < xs@.len() && 0 <= q < j ==> !kind_matches(
                                    #[trigger] xs@[i],
                                    #[trigger] ys@[q],
                                ),
                        decreases ys@.len() - j,
                    {
                        if any_alternative_matches(xs, ys[j]) {
                            let ghost y = ys@[j as int];
                            assert(exists|i: int|
                                0 <= i < xs@.len() && kind_matches(#[trigger] xs@[i], y));
                            return true;
                        }
                        j += 1;
                    }
                    false
                },
            },
        }
    }

    /// The name by which this type is shown.
    pub fn describe(&self) -> (r: String)
        ensures
            r@ == descriptor_name(*self),
    {
        match self {
            DataType::Of(k) => k.describe(),
            DataType::Variant(ks) => {
                let mut names = String::new();
                let mut i: usize = 0;
                assert(ks@.subrange(0, 0) =~= Seq::<Kind>::empty());
                while i < ks.len()
                    invariant
                        0 <= i <= ks@.len(),
                        names@ == joined_names(ks@.subrange(0, i as int)),
                    decreases ks@.len() - i,
                {
                    proof {
                        let prefix = ks@.subrange(0, i as int + 1);
                        assert(prefix.drop_last() =~= ks@.subrange(0, i as int));
                    }
                    if i > 0 {
                        names.append(" | ");
                    }
                    let name = ks[i].describe();
                    names.append(name.as_str());
                    i += 1;
                }
                assert(ks@.subrange(0, ks@.len() as int) =~= ks@);
                let mut r = String::from_str("[");
                r.append(names.as_str());
                r.append("]");
                r
            },
        }
    }
}

/// The descriptor of the Python function kind, as a value of its own.
#[derive(Clone, Copy, Debug)]
pub struct PyFunctionType;

impl PyFunctionType {
    /// The type this descriptor stands for.
    pub open spec fn spec_data_type() -> DataType {
        DataType::Of(Kind::PyFunction)
    }

    /// The name by which the Python function kind is shown.
    pub fn literal(&self) -> (r: String)
        ensures
            r@ == "PyFunction"@,
    {
        String::from_str("PyFunction")
    }

    /// Whether the Python function kind is compatible with `other`: true against
    /// itself, the wildcard, and any variant holding either.
    pub fn equals(&self, other: &DataType) -> (r: bool)
        ensures
            r == compatible(Self::spec_data_type(), *other),
    {
        let me = DataType::Of(Kind::PyFunction);
        me.matches(other)
    }
}

} // verus!
