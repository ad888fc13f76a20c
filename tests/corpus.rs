use pyql::loader::parse_python_files;
use pyql::provider::PythonDataProvider;
use pyql::schema::{pyql_tables_fields_names, pyql_tables_fields_types, Schema};
use pyql::session::{classify_input, InputAction, Session};
use pyql::types::{DataType, Kind};
use pyql::values::Value;

const SAMPLE: &str = "def f(a, b):\n    return a + b\n\nclass C:\n    def g(self):\n        pass\n";

fn load(files: &[(&str, Result<&str, &str>)]) -> Result<PythonDataProvider, String> {
    let paths: Vec<String> = files.iter().map(|(p, _)| p.to_string()).collect();
    let sources: Vec<Result<String, String>> = files
        .iter()
        .map(|(_, s)| s.map(|t| t.to_string()).map_err(|e| e.to_string()))
        .collect();
    let modules = parse_python_files(&paths, &sources)?;
    Ok(PythonDataProvider::new(paths, modules))
}

fn columns(names: &[&str]) -> Vec<String> {
    names.iter().map(|n| n.to_string()).collect()
}

fn rendered(provider: &PythonDataProvider, names: &[&str]) -> Vec<Vec<String>> {
    let rows = provider.provide("functions", &columns(names)).unwrap();
    rows.iter().map(|r| r.values.iter().map(|v| v.literal()).collect()).collect()
}

#[test]
fn top_level_function_and_method_in_encounter_order() {
    let provider = load(&[("sample.py", Ok(SAMPLE))]).unwrap();
    let rows = provider
        .provide("functions", &columns(&["function_name", "arguments_count", "file_name"]))
        .unwrap();
    assert_eq!(rows.len(), 2);
    assert!(matches!(&rows[0].values[0], Value::Text(s) if s == "f"));
    assert!(matches!(&rows[0].values[1], Value::Integer(2)));
    assert!(matches!(&rows[0].values[2], Value::Text(s) if s == "sample.py"));
    assert!(matches!(&rows[1].values[0], Value::Text(s) if s == "g"));
    assert!(matches!(&rows[1].values[1], Value::Integer(1)));
    assert!(matches!(&rows[1].values[2], Value::Text(s) if s == "sample.py"));
}

#[test]
fn columns_follow_the_requested_order() {
    let provider = load(&[("sample.py", Ok(SAMPLE))]).unwrap();
    assert_eq!(
        rendered(&provider, &["file_name", "function", "function_name"]),
        vec![
            vec!["sample.py".to_string(), "def f(a, b):".to_string(), "f".to_string()],
            vec!["sample.py".to_string(), "def g(self):".to_string(), "g".to_string()],
        ]
    );
}

#[test]
fn unknown_column_is_null_in_every_row() {
    let provider = load(&[("sample.py", Ok(SAMPLE))]).unwrap();
    let rows = provider.provide("functions", &columns(&["function_name", "nonexistent"])).unwrap();
    assert_eq!(rows.len(), 2);
    for row in rows.iter() {
        assert_eq!(row.values.len(), 2);
        assert!(matches!(row.values[1], Value::Null));
    }
}

#[test]
fn parsed_function_handle_renders_its_signature() {
    let provider = load(&[("h.py", Ok("def h(x, y):\n    return x\n"))]).unwrap();
    assert_eq!(rendered(&provider, &["function"]), vec![vec!["def h(x, y):".to_string()]]);
}

#[test]
fn rows_come_file_after_file() {
    let provider = load(&[
        ("one.py", Ok("def a():\n    pass\n")),
        ("two.py", Ok("x = 1\ndef b(p):\n    pass\ndef c(p, q, r):\n    pass\n")),
    ])
    .unwrap();
    assert_eq!(
        rendered(&provider, &["function_name", "arguments_count", "file_name"]),
        vec![
            vec!["a".to_string(), "0".to_string(), "one.py".to_string()],
            vec!["b".to_string(), "1".to_string(), "two.py".to_string()],
            vec!["c".to_string(), "3".to_string(), "two.py".to_string()],
        ]
    );
}

#[test]
fn only_one_level_of_class_nesting_is_flattened() {
    let source = "class A:\n    class B:\n        def deep(self):\n            pass\n    def m(self):\n        def inner():\n            pass\n        return inner\n";
    let provider = load(&[("n.py", Ok(source))]).unwrap();
    assert_eq!(rendered(&provider, &["function_name"]), vec![vec!["m".to_string()]]);
}

#[test]
fn empty_corpus_and_empty_request() {
    let provider = load(&[]).unwrap();
    assert_eq!(provider.provide("functions", &columns(&["function_name"])).unwrap().len(), 0);
    let provider = load(&[("sample.py", Ok(SAMPLE))]).unwrap();
    let rows = provider.provide("functions", &columns(&[])).unwrap();
    assert_eq!(rows.len(), 2);
    assert!(rows.iter().all(|r| r.values.is_empty()));
}

#[test]
fn unreadable_file_fails_the_whole_load() {
    let result = load(&[
        ("good.py", Ok(SAMPLE)),
        ("missing.py", Err("No such file or directory")),
        ("also_good.py", Ok("def z():\n    pass\n")),
    ]);
    assert_eq!(result.err(), Some("No such file or directory".to_string()));
}

#[test]
fn unparsable_file_fails_the_whole_load() {
    let result = load(&[("good.py", Ok(SAMPLE)), ("bad.py", Ok("def (:\n"))]);
    assert!(result.is_err());
}

#[test]
fn first_failure_is_the_one_reported() {
    let result = load(&[("bad.py", Ok("def (:\n")), ("missing.py", Err("unreadable"))]);
    let message = result.err().unwrap();
    assert_ne!(message, "unreadable");
}

#[test]
fn error_of_a_load_is_that_of_its_first_failing_file() {
    let alone = load(&[("bad.py", Ok("def (:\n"))]).err().unwrap();
    let in_corpus = load(&[
        ("good.py", Ok(SAMPLE)),
        ("bad.py", Ok("def (:\n")),
        ("missing.py", Err("unreadable")),
        ("worse.py", Ok("class :\n")),
    ])
    .err()
    .unwrap();
    assert_eq!(in_corpus, alone);
}

#[test]
fn same_declaration_parsed_twice_is_equal() {
    let a = load(&[("a.py", Ok(SAMPLE))]).unwrap();
    let b = load(&[("b.py", Ok(SAMPLE))]).unwrap();
    let other = load(&[("c.py", Ok("def f(a, b):\n    return a - b\n"))]).unwrap();
    let cols = columns(&["function"]);
    let ra = a.provide("functions", &cols).unwrap();
    let rb = b.provide("functions", &cols).unwrap();
    let rc = other.provide("functions", &cols).unwrap();
    assert!(ra[0].values[0].equals(&rb[0].values[0]));
    assert!(!ra[0].values[0].equals(&ra[1].values[0]));
    assert!(!ra[0].values[0].equals(&rc[0].values[0]));
}

#[test]
fn schema_of_functions_table() {
    let names = pyql_tables_fields_names();
    assert_eq!(names.len(), 1);
    assert_eq!(names[0].0, "functions");
    assert_eq!(names[0].1, vec!["function_name", "arguments_count", "function", "file_name"]);
    let types = pyql_tables_fields_types();
    assert_eq!(types.len(), 4);
    assert_eq!(types[0].0, "function_name");
    assert!(matches!(types[0].1, DataType::Of(Kind::Text)));
    assert!(matches!(types[1].1, DataType::Of(Kind::Integer)));
    assert!(matches!(types[2].1, DataType::Of(Kind::PyFunction)));
    assert_eq!(types[3].0, "file_name");
    assert!(matches!(types[3].1, DataType::Of(Kind::Text)));
    let schema = Schema::pyql();
    for (_, cols) in schema.tables.iter() {
        for c in cols.iter() {
            assert!(schema.columns.iter().any(|(n, _)| n == c));
        }
    }
}

#[test]
fn state_of_one_query_is_not_visible_to_the_next() {
    let mut session = Session::new(Schema::pyql());
    session.define_alias("fns".to_string(), "functions".to_string());
    session.define_binding("n".to_string(), Value::Integer(3));
    assert!(session.has_alias(&"fns".to_string()));
    assert!(session.has_binding(&"n".to_string()));
    assert!(!session.has_alias(&"n".to_string()));
    session.clear_session();
    assert!(!session.has_alias(&"fns".to_string()));
    assert!(!session.has_binding(&"n".to_string()));
    assert_eq!(session.schema.tables.len(), 1);
}

#[test]
fn lines_of_the_interactive_loop() {
    assert_eq!(classify_input(""), InputAction::Skip);
    assert_eq!(classify_input("\n"), InputAction::Skip);
    assert_eq!(classify_input("exit"), InputAction::Exit);
    assert_eq!(classify_input("exit "), InputAction::Run);
    assert_eq!(classify_input("SELECT * FROM functions"), InputAction::Run);
}
