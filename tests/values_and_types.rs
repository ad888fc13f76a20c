use pyql::syntax::FunctionDef;
use pyql::types::{DataType, Kind, PyFunctionType};
use pyql::values::{PyFunctionValue, Value};
use std::cmp::Ordering;

fn handle(name: &str, params: &[&str], tree: &str) -> Value {
    Value::Function(PyFunctionValue {
        function: FunctionDef {
            name: name.to_string(),
            params: params.iter().map(|p| p.to_string()).collect(),
            tree: tree.to_string(),
        },
    })
}

#[test]
fn any_matches_every_type_on_both_sides() {
    let any = DataType::Of(Kind::Any);
    let all = vec![
        DataType::Of(Kind::Integer),
        DataType::Of(Kind::Text),
        DataType::Of(Kind::Null),
        DataType::Of(Kind::Any),
        DataType::Of(Kind::PyFunction),
        DataType::Variant(vec![Kind::Integer, Kind::Text]),
        DataType::Variant(vec![]),
    ];
    for t in all.iter() {
        assert!(any.matches(t));
        assert!(t.matches(&any));
    }
}

#[test]
fn concrete_kinds_match_only_themselves() {
    let int = DataType::Of(Kind::Integer);
    let text = DataType::Of(Kind::Text);
    assert!(int.matches(&int));
    assert!(!int.matches(&text));
    assert!(!text.matches(&DataType::Of(Kind::PyFunction)));
}

#[test]
fn variant_matches_through_an_alternative() {
    let v = DataType::Variant(vec![Kind::Integer, Kind::PyFunction]);
    assert!(v.matches(&DataType::Of(Kind::PyFunction)));
    assert!(DataType::Of(Kind::Integer).matches(&v));
    assert!(!v.matches(&DataType::Of(Kind::Text)));
    assert!(!DataType::Of(Kind::Null).matches(&v));
    let w = DataType::Variant(vec![Kind::Text, Kind::Integer]);
    assert!(v.matches(&w));
    let u = DataType::Variant(vec![Kind::Text, Kind::Null]);
    assert!(!v.matches(&u));
    let empty = DataType::Variant(vec![]);
    assert!(empty.matches(&DataType::Variant(vec![])));
}

#[test]
fn py_function_type_descriptor() {
    let t = PyFunctionType;
    assert_eq!(t.literal(), "PyFunction");
    assert!(t.equals(&DataType::Of(Kind::PyFunction)));
    assert!(t.equals(&DataType::Of(Kind::Any)));
    assert!(t.equals(&DataType::Variant(vec![Kind::Text, Kind::PyFunction])));
    assert!(t.equals(&DataType::Variant(vec![Kind::Any])));
    assert!(!t.equals(&DataType::Of(Kind::Integer)));
    assert!(!t.equals(&DataType::Variant(vec![Kind::Integer, Kind::Text])));
}

#[test]
fn type_names() {
    assert_eq!(DataType::Of(Kind::Integer).describe(), "Int");
    assert_eq!(DataType::Of(Kind::Any).describe(), "Any");
    assert_eq!(DataType::Variant(vec![Kind::Integer, Kind::Text, Kind::Null]).describe(), "[Int | Text | Null]");
    assert_eq!(DataType::Variant(vec![]).describe(), "[]");
}

#[test]
fn render_of_function_handle_is_its_signature() {
    let h = handle("h", &["x", "y"], "tree");
    assert_eq!(h.literal(), "def h(x, y):");
    assert_eq!(handle("main", &[], "t").literal(), "def main():");
    assert_eq!(handle("one", &["a"], "t").literal(), "def one(a):");
}

#[test]
fn render_of_builtin_values() {
    assert_eq!(Value::Integer(123).literal(), "123");
    assert_eq!(Value::Integer(-42).literal(), "-42");
    assert_eq!(Value::Integer(0).literal(), "0");
    assert_eq!(Value::Integer(i64::MIN).literal(), "-9223372036854775808");
    assert_eq!(Value::Text("abc".to_string()).literal(), "abc");
    assert_eq!(Value::Null.literal(), "Null");
}

#[test]
fn values_of_different_kinds_are_never_equal() {
    let values = vec![
        Value::Integer(1),
        Value::Text("1".to_string()),
        Value::Null,
        handle("f", &["a"], "t"),
    ];
    for (i, a) in values.iter().enumerate() {
        for (j, b) in values.iter().enumerate() {
            assert_eq!(a.equals(b), i == j);
        }
    }
}

#[test]
fn equality_within_a_kind() {
    assert!(Value::Integer(7).equals(&Value::Integer(7)));
    assert!(!Value::Integer(7).equals(&Value::Integer(8)));
    assert!(Value::Text("a".to_string()).equals(&Value::Text("a".to_string())));
    assert!(!Value::Text("a".to_string()).equals(&Value::Text("b".to_string())));
    assert!(handle("f", &["a"], "t").equals(&handle("f", &["a"], "t")));
    assert!(!handle("f", &["a"], "t").equals(&handle("f", &["a"], "u")));
    assert!(!handle("f", &["a"], "t").equals(&handle("f", &["b"], "t")));
}

#[test]
fn function_handles_are_incomparable() {
    let f = handle("f", &["a"], "t");
    assert_eq!(f.compare(&f), None);
    assert_eq!(f.compare(&handle("g", &[], "u")), None);
    assert_eq!(f.compare(&Value::Integer(1)), None);
    assert_eq!(Value::Integer(1).compare(&f), None);
    if let Value::Function(p) = &f {
        assert_eq!(p.compare(&f), None);
        assert!(p.equals(&f));
        assert!(matches!(p.data_type(), DataType::Of(Kind::PyFunction)));
    }
}

#[test]
fn order_of_integers_and_texts() {
    assert_eq!(Value::Integer(1).compare(&Value::Integer(2)), Some(Ordering::Less));
    assert_eq!(Value::Integer(2).compare(&Value::Integer(2)), Some(Ordering::Equal));
    assert_eq!(Value::Integer(3).compare(&Value::Integer(-2)), Some(Ordering::Greater));
    let t = |s: &str| Value::Text(s.to_string());
    assert_eq!(t("abc").compare(&t("abd")), Some(Ordering::Less));
    assert_eq!(t("b").compare(&t("abc")), Some(Ordering::Greater));
    assert_eq!(t("ab").compare(&t("abc")), Some(Ordering::Less));
    assert_eq!(t("").compare(&t("")), Some(Ordering::Equal));
    assert_eq!(Value::Null.compare(&Value::Null), None);
    assert_eq!(t("1").compare(&Value::Integer(1)), None);
}

#[test]
fn types_of_values() {
    assert!(matches!(Value::Integer(1).data_type(), DataType::Of(Kind::Integer)));
    assert!(matches!(Value::Text(String::new()).data_type(), DataType::Of(Kind::Text)));
    assert!(matches!(Value::Null.data_type(), DataType::Of(Kind::Null)));
    assert!(matches!(handle("f", &[], "t").data_type(), DataType::Of(Kind::PyFunction)));
}
