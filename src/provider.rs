//! The `functions` table: one row per function declared at the top level of a
//! module or directly in the body of a top-level class.
use vstd::prelude::*;
use crate::syntax::{FunctionDef, FunctionDefView, Statement};
use crate::values::{PyFunctionValue, Value, ValueView};

verus! {

/// One row of a query result: one value per requested column, in request order.
#[derive(Clone, Debug)]
pub struct Row {
    pub values: Vec<Value>,
}

impl View for Row {
    type V = Seq<ValueView>;

    open spec fn view(&self) -> Seq<ValueView> {
        self.values@.map_values(|v: Value| v@)
    }
}

/// The rows of a result, as sequences of values.
pub open spec fn rows_view(rows: Seq<Row>) -> Seq<Seq<ValueView>> {
    rows.map_values(|r: Row| r@)
}

/// The functions declared directly in a class body, in order; deeper
/// declarations are not looked at.
pub open spec fn class_functions(body: Seq<Statement>) -> Seq<FunctionDefView>
    decreases body.len(),
{
    if body.len() == 0 {
        Seq::empty()
    } else {
        class_functions(body.drop_last()) + match body.last() {
            Statement::Function(f) => seq![f@],
            _ => Seq::empty(),
        }
    }
}

/// The functions that one top-level statement contributes: itself if it is a
/// function, the functions directly in its body if it is a class.
pub open spec fn statement_functions(s: Statement) -> Seq<FunctionDefView> {
    match s {
        Statement::Function(f) => seq![f@],
        Statement::Class(c) => class_functions(c.body@),
        Statement::Other => Seq::empty(),
    }
}

/// The functions of a module in the order they are met: each top-level
/// function, and the functions declared directly in each top-level class.
pub open spec fn module_functions(stmts: Seq<Statement>) -> Seq<FunctionDefView>
    decreases stmts.len(),
{
    if stmts.len() == 0 {
        Seq::empty()
    } else {
        module_functions(stmts.drop_last()) + statement_functions(stmts.last())
    }
}

/// Rows come in encounter order. Within a module, the functions of its first
/// `k` statements come first, followed by what statement `k` contributes (a
/// class its methods, in body order, at its own position). Across the corpus,
/// the rows of the first `i` files come before those of file `i`, which come
/// before those of every later file.
pub proof fn lemma_rows_in_encounter_order(
    paths: Seq<String>,
    modules: Seq<Vec<Statement>>,
    columns: Seq<Seq<char>>,
    stmts: Seq<Statement>,
    k: int,
    i: nat,
    n: nat,
)
    requires
        0 <= k < stmts.len(),
        i < n <= paths.len(),
        n <= modules.len(),
    ensures
        module_functions(stmts.subrange(0, k + 1)) == module_functions(stmts.subrange(0, k))
            + statement_functions(stmts[k]),
        module_functions(stmts.subrange(0, k + 1)).is_prefix_of(module_functions(stmts)),
        corpus_rows(paths, modules, columns, i + 1) == corpus_rows(paths, modules, columns, i)
            + module_rows(paths[i as int]@, modules[i as int]@, columns),
        corpus_rows(paths, modules, columns, i + 1).is_prefix_of(
            corpus_rows(paths, modules, columns, n),
        ),
{
    assert(stmts.subrange(0, k + 1).drop_last() =~= stmts.subrange(0, k));
    lemma_module_prefix(stmts, k + 1);
    lemma_corpus_prefix(paths, modules, columns, i + 1, n);
}

/// The functions of a prefix of a module are a prefix of its functions.
proof fn lemma_module_prefix(stmts: Seq<Statement>, k: int)
    requires
        0 <= k <= stmts.len(),
    ensures
        module_functions(stmts.subrange(0, k)).is_prefix_of(module_functions(stmts)),
    decreases stmts.len(),
{
    if k == stmts.len() {
        assert(stmts.subrange(0, k) =~= stmts);
    } else {
        let shorter = stmts.drop_last();
        assert(shorter.subrange(0, k) =~= stmts.subrange(0, k));
        lemma_module_prefix(shorter, k);
        let a = module_functions(stmts.subrange(0, k));
        let b = module_functions(shorter);
        let c = module_functions(stmts);
        assert(c == b + statement_functions(stmts.last()));
        assert(a.len() <= c.len());
        assert forall|j: int| 0 <= j < a.len() implies a[j] == c[j] by {
            assert(a[j] == b[j]);
        }
    }
}

/// The rows of the first `m` files are a prefix of those of the first `n`.
proof fn lemma_corpus_prefix(
    paths: Seq<String>,
    modules: Seq<Vec<Statement>>,
    columns: Seq<Seq<char>>,
    m: nat,
    n: nat,
)
    requires
        m <= n,
    ensures
        corpus_rows(paths, modules, columns, m).is_prefix_of(
            corpus_rows(paths, modules, columns, n),
        ),
    decreases n,
{
    if m < n {
        lemma_corpus_prefix(paths, modules, columns, m, (n - 1) as nat);
        let a = corpus_rows(paths, modules, columns, m);
        let b = corpus_rows(paths, modules, columns, (n - 1) as nat);
        let c = corpus_rows(paths, modules, columns, n);
        assert forall|j: int| 0 <= j < a.len() implies a[j] == c[j] by {
            assert(a[j] == b[j]);
        }
    }
}

/// The value of column `column` for function `f` of the file at `path`; a
/// column the table does not have gives `Null`.
pub open spec fn cell(f: FunctionDefView, path: Seq<char>, column: Seq<char>) -> ValueView {
    if column == "function_name"@ {
        ValueView::Text(f.name)
    } else if column == "arguments_count"@ {
        ValueView::Integer(f.params.len() as i64)
    } else if column == "file_name"@ {
        ValueView::Text(path)
    } else if column == "function"@ {
        ValueView::Function(f)
    } else {
        ValueView::Null
    }
}

/// The row of function `f`: its value for each column, in the order given.
pub open spec fn function_row(f: FunctionDefView, path: Seq<char>, columns: Seq<Seq<char>>) -> Seq<
    ValueView,
> {
    columns.map_values(|c: Seq<char>| cell(f, path, c))
}

/// The rows of one module.
pub open spec fn module_rows(path: Seq<char>, stmts: Seq<Statement>, columns: Seq<Seq<char>>) -> Seq<
    Seq<ValueView>,
> {
    module_functions(stmts).map_values(|f: FunctionDefView| function_row(f, path, columns))
}

/// The rows of the first `n` modules of a corpus, module after module.
pub open spec fn corpus_rows(
    paths: Seq<String>,
    modules: Seq<Vec<Statement>>,
    columns: Seq<Seq<char>>,
    n: nat,
) -> Seq<Seq<ValueView>>
    decreases n,
{
    if n == 0 {
        Seq::empty()
    } else {
        corpus_rows(paths, modules, columns, (n - 1) as nat) + module_rows(
            paths[n - 1]@,
            modules[n - 1]@,
            columns,
        )
    }
}

/// Whether `c` names a column that the provider fills.
pub open spec fn is_known_column(c: Seq<char>) -> bool {
    c == "function_name"@ || c == "arguments_count"@ || c == "file_name"@ || c == "function"@
}

/// Every row of a corpus has one value per requested column, and a requested
/// column that the table does not know is `Null` in every row.
pub proof fn lemma_rows_have_requested_width_and_null_unknowns(
    paths: Seq<String>,
    modules: Seq<Vec<Statement>>,
    columns: Seq<Seq<char>>,
    n: nat,
)
    requires
        n <= paths.len(),
        n <= modules.len(),
    ensures
        forall|k: int|
            0 <= k < corpus_rows(paths, modules, columns, n).len() ==> {
                let row = #[trigger] corpus_rows(paths, modules, columns, n)[k];
                &&& row.len() == columns.len()
                &&& forall|j: int|
                    0 <= j < columns.len() && !is_known_column(#[trigger] columns[j]) ==> row[j]
                        == ValueView::Null
            },
    decreases n,
{
    if n > 0 {
        lemma_rows_have_requested_width_and_null_unknowns(paths, modules, columns, (n - 1) as nat);
        let prev = corpus_rows(paths, modules, columns, (n - 1) as nat);
        let added = module_rows(paths[n - 1]@, modules[n - 1]@, columns);
        let all = corpus_rows(paths, modules, columns, n);
        assert(all == prev + added);
        assert forall|k: int| 0 <= k < all.len() implies {
            let row = #[trigger] all[k];
            &&& row.len() == columns.len()
            &&& forall|j: int|
                0 <= j < columns.len() && !is_known_column(#[trigger] columns[j]) ==> row[j]
                    == ValueView::Null
        } by {
            if k >= prev.len() {
                let f = module_functions(modules[n - 1]@)[k - prev.len()];
                assert(all[k] == function_row(f, paths[n - 1]@, columns));
            } else {
                assert(all[k] == prev[k]);
            }
        }
    }
}

/// The requested column names, as texts.
pub open spec fn columns_view(columns: Seq<String>) -> Seq<Seq<char>> {
    columns.map_values(|c: String| c@)
}

/// Whether `c` is the column name `name`.
fn is_column(c: &String, name: &str) -> (r: bool)
    ensures
        r == (c@ == name@),
{
    let n = String::from_str(name);
    *c == n
}

/// The value of one column for one function.
fn cell_value(f: &FunctionDef, path: &str, column: &String) -> (r: Value)
    ensures
        r@ == cell(f@, path@, column@),
{
    if is_column(column, "function_name") {
        Value::Text(f.name.clone())
    } else if is_column(column, "arguments_count") {
        Value::Integer(f.params.len() as i64)
    } else if is_column(column, "file_name") {
        Value::Text(String::from_str(path))
    } else if is_column(column, "function") {
        Value::Function(PyFunctionValue { function: f.duplicate() })
    } else {
        Value::Null
    }
}

/// Appends the functions declared directly in a class body.
fn collect_class_functions(body: &Vec<Statement>, out: &mut Vec<FunctionDef>)
    ensures
        final(out)@.map_values(|f: FunctionDef| f@) == old(out)@.map_values(|f: FunctionDef| f@)
            + class_functions(body@),
{
    let ghost start = old(out)@.map_values(|f: FunctionDef| f@);
    let mut i: usize = 0;
    assert(body@.subrange(0, 0) =~= Seq::<Statement>::empty());
    assert(start + Seq::<FunctionDefView>::empty() =~= start);
    while i < body.len()
        invariant
            0 <= i <= body@.len(),
            out@.map_values(|f: FunctionDef| f@) == start + class_functions(
                body@.subrange(0, i as int),
            ),
        decreases body@.len() - i,
    {
        let ghost before = out@.map_values(|f: FunctionDef| f@);
        assert(body@.subrange(0, i as int + 1).drop_last() =~= body@.subrange(0, i as int));
        match &body[i] {
            Statement::Function(f) => {
                out.push(f.duplicate());
                assert(out@.map_values(|f: FunctionDef| f@) =~= before.push(f@));
            },
            _ => {
                assert(before + Seq::<FunctionDefView>::empty() =~= before);
            },
        }
        i += 1;
        assert(out@.map_values(|f: FunctionDef| f@) =~= start + class_functions(
            body@.subrange(0, i as int),
        ));
    }
    assert(body@.subrange(0, body@.len() as int) =~= body@);
}

/// The functions of a module in the order they are met.
fn collect_module_functions(stmts: &Vec<Statement>) -> (r: Vec<FunctionDef>)
    ensures
        r@.map_values(|f: FunctionDef| f@) == module_functions(stmts@),
{
    let mut out: Vec<FunctionDef> = Vec::new();
    let mut i: usize = 0;
    assert(stmts@.subrange(0, 0) =~= Seq::<Statement>::empty());
    assert(out@.map_values(|f: FunctionDef| f@) =~= Seq::<FunctionDefView>::empty());
    while i < stmts.len()
        invariant
            0 <= i <= stmts@.len(),
            out@.map_values(|f: FunctionDef| f@) == module_functions(stmts@.subrange(0, i as int)),
        decreases stmts@.len() - i,
    {
        let ghost before = out@.map_values(|f: FunctionDef| f@);
        assert(stmts@.subrange(0, i as int + 1).drop_last() =~= stmts@.subrange(0, i as int));
        match &stmts[i] {
            Statement::Function(f) => {
                out.push(f.duplicate());
                assert(out@.map_values(|f: FunctionDef| f@) =~= before.push(f@));
            },
            Statement::Class(c) => {
                collect_class_functions(&c.body, &mut out);
            },
            Statement::Other => {
                assert(before + Seq::<FunctionDefView>::empty() =~= before);
            },
        }
        i += 1;
    }
    assert(stmts@.subrange(0, stmts@.len() as int) =~= stmts@);
    out
}

/// The row of one function.
fn function_row_of(f: &FunctionDef, path: &str, selected_columns: &Vec<String>) -> (r: Row)
    ensures
        r@ == function_row(f@, path@, columns_view(selected_columns@)),
{
    let mut values: Vec<Value> = Vec::new();
    let mut j: usize = 0;
    while j < selected_columns.len()
        invariant
            0 <= j <= selected_columns@.len(),
            values@.len() == j,
            forall|k: int|
                0 <= k < j ==> (#[trigger] values@[k])@ == cell(
                    f@,
                    path@,
                    selected_columns@[k]@,
                ),
        decreases selected_columns@.len() - j,
    {
        let v = cell_value(f, path, &selected_columns[j]);
        values.push(v);
        j += 1;
    }
    let r = Row { values };
    assert(r@ =~= function_row(f@, path@, columns_view(selected_columns@)));
    r
}

/// The rows of one module of the file at `path`, one per function, each with
/// the requested columns in the requested order.
fn select_python_functions(
    path: &str,
    module_statement: &Vec<Statement>,
    selected_columns: &Vec<String>,
) -> (r: Result<Vec<Row>, String>)
    ensures
        r is Ok,
        rows_view(r->Ok_0@) == module_rows(
            path@,
            module_statement@,
            columns_view(selected_columns@),
        ),
{
    let python_functions = collect_module_functions(module_statement);
    let ghost fs = python_functions@.map_values(|f: FunctionDef| f@);
    let mut rows: Vec<Row> = Vec::new();
    let mut i: usize = 0;
    while i < python_functions.len()
        invariant
            0 <= i <= python_functions@.len(),
            fs == python_functions@.map_values(|f: FunctionDef| f@),
            rows@.len() == i,
            forall|k: int|
                0 <= k < i ==> (#[trigger] rows@[k])@ == function_row(
                    fs[k],
                    path@,
                    columns_view(selected_columns@),
                ),
        decreases python_functions@.len() - i,
    {
        let row = function_row_of(&python_functions[i], path, selected_columns);
        rows.push(row);
        i += 1;
    }
    assert(rows_view(rows@) =~= module_rows(
        path@,
        module_statement@,
        columns_view(selected_columns@),
    ));
    Ok(rows)
}

/// The data provider of the `functions` table over a loaded corpus: module `i`
/// was parsed from the file at `paths[i]`.
pub struct PythonDataProvider {
    pub paths: Vec<String>,
    pub modules: Vec<Vec<Statement>>,
}

impl PythonDataProvider {
    /// One module for each path.
    pub open spec fn wf(&self) -> bool {
        self.paths@.len() == self.modules@.len()
    }

    pub fn new(paths: Vec<String>, modules: Vec<Vec<Statement>>) -> (r: Self)
        requires
            paths@.len() == modules@.len(),
        ensures
            r.paths == paths,
            r.modules == modules,
            r.wf(),
    {
        PythonDataProvider { paths, modules }
    }

    /// The rows of the table: one per function of the corpus, file after file
    /// and in the order the functions are met in each file, each holding the
    /// requested columns in the requested order. Scanning a loaded corpus does
    /// not fail, so the result is always `Ok`.
    pub fn provide(&self, table: &str, selected_columns: &Vec<String>) -> (r: Result<
        Vec<Row>,
        String,
    >)
        requires
            self.wf(),
        ensures
            r is Ok,
            rows_view(r->Ok_0@) == corpus_rows(
                self.paths@,
                self.modules@,
                columns_view(selected_columns@),
                self.paths@.len(),
            ),
    {
        let mut rows: Vec<Row> = Vec::new();
        let mut path_index: usize = 0;
        assert(rows_view(rows@) =~= Seq::<Seq<ValueView>>::empty());
        while path_index < self.paths.len()
            invariant
                self.wf(),
                0 <= path_index <= self.paths@.len(),
                rows_view(rows@) == corpus_rows(
                    self.paths@,
                    self.modules@,
                    columns_view(selected_columns@),
                    path_index as nat,
                ),
            decreases self.paths@.len() - path_index,
        {
            let ghost before = rows@;
            let module = &self.modules[path_index];
            let selected = select_python_functions(
                self.paths[path_index].as_str(),
                module,
                selected_columns,
            );
            let mut selected_rows = match selected {
                Ok(v) => v,
                Err(e) => {
                    return Err(e);
                },
            };
            let ghost added = selected_rows@;
            rows.append(&mut selected_rows);
            assert(rows_view(rows@) =~= rows_view(before) + rows_view(added));
            path_index += 1;
        }
        Ok(rows)
    }
}

} // verus!
