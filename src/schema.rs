//! The schema of the virtual tables: the columns of each table and the type of
//! each column.
use vstd::prelude::*;
use crate::types::{DataType, Kind};

verus! {

/// The column names of the `functions` table, in their declared order.
pub open spec fn function_columns() -> Seq<Seq<char>> {
    seq!["function_name"@, "arguments_count"@, "function"@, "file_name"@]
}

/// The names of a list of static texts.
pub open spec fn names_view(names: Seq<&'static str>) -> Seq<Seq<char>> {
    names.map_values(|s: &'static str| s@)
}

/// The tables and their columns: a single table, `functions`.
pub fn pyql_tables_fields_names() -> (r: Vec<(&'static str, Vec<&'static str>)>)
    ensures
        r@.len() == 1,
        r@[0].0@ == "functions"@,
        names_view(r@[0].1@) == function_columns(),
{
    let columns: Vec<&'static str> = vec!["function_name", "arguments_count", "function", "file_name"];
    assert(names_view(columns@) =~= function_columns());
    vec![("functions", columns)]
}

/// The type of each column. `file_name` is typed as text, which is what the
/// provider puts in it (the path of the file).
pub fn pyql_tables_fields_types() -> (r: Vec<(&'static str, DataType)>)
    ensures
        r@.len() == 4,
        r@[0].0@ == "function_name"@ && r@[0].1 == DataType::Of(Kind::Text),
        r@[1].0@ == "arguments_count"@ && r@[1].1 == DataType::Of(Kind::Integer),
        r@[2].0@ == "function"@ && r@[2].1 == DataType::Of(Kind::PyFunction),
        r@[3].0@ == "file_name"@ && r@[3].1 == DataType::Of(Kind::Text),
{
    vec![
        ("function_name", DataType::Of(Kind::Text)),
        ("arguments_count", DataType::Of(Kind::Integer)),
        ("function", DataType::Of(Kind::PyFunction)),
        ("file_name", DataType::Of(Kind::Text)),
    ]
}

/// The tables with their ordered column names, and the type of each column.
pub struct Schema {
    pub tables: Vec<(&'static str, Vec<&'static str>)>,
    pub columns: Vec<(&'static str, DataType)>,
}

impl Schema {
    /// No two tables share a name, no two column types share a column name, and
    /// every column that a table lists has a type.
    pub open spec fn wf(&self) -> bool {
        &&& forall|a: int, b: int|
            0 <= a < b < self.tables@.len() ==> (#[trigger] self.tables@[a]).0@ != (
            #[trigger] self.tables@[b]).0@
        &&& forall|a: int, b: int|
            0 <= a < b < self.columns@.len() ==> (#[trigger] self.columns@[a]).0@ != (
            #[trigger] self.columns@[b]).0@
        &&& forall|t: int, c: int|
            0 <= t < self.tables@.len() && 0 <= c < self.tables@[t].1@.len() ==> exists|k: int|
                0 <= k < self.columns@.len() && (#[trigger] self.columns@[k]).0@ == (
                #[trigger] self.tables@[t].1@[c])@
    }

    /// The schema of the `functions` table.
    pub fn pyql() -> (r: Schema)
        ensures
            r.wf(),
            r.tables@.len() == 1,
            r.tables@[0].0@ == "functions"@,
            names_view(r.tables@[0].1@) == function_columns(),
    {
        let tables = pyql_tables_fields_names();
        let columns = pyql_tables_fields_types();
        let r = Schema { tables, columns };
        proof {
            reveal_strlit("function_name");
            reveal_strlit("arguments_count");
            reveal_strlit("function");
            reveal_strlit("file_name");
            assert("function_name"@.len() == 13);
            assert("arguments_count"@.len() == 15);
            assert("function"@.len() == 8);
            assert("file_name"@.len() == 9);
        }
        assert forall|t: int, c: int|
            0 <= t < r.tables@.len() && 0 <= c < r.tables@[t].1@.len() implies exists|k: int|
                0 <= k < r.columns@.len() && (#[trigger] r.columns@[k]).0@ == (
                #[trigger] r.tables@[t].1@[c])@ by {
            assert(t == 0);
            assert(names_view(r.tables@[0].1@).len() == 4);
            assert(names_view(r.tables@[0].1@)[c] == r.tables@[t].1@[c]@);
            if c == 0 {
                assert(r.columns@[0].0@ == r.tables@[t].1@[c]@);
            } else if c == 1 {
                assert(r.columns@[1].0@ == r.tables@[t].1@[c]@);
            } else if c == 2 {
                assert(r.columns@[2].0@ == r.tables@[t].1@[c]@);
            } else {
                assert(r.columns@[3].0@ == r.tables@[t].1@[c]@);
            }
        }
        r
    }
}

} // verus!
