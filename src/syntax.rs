//! The parts of a parsed Python module that queries read: function and class
//! declarations, each function with its name, its parameter names and the full
//! text of its parsed tree.
use vstd::prelude::*;
use rustpython_parser::ast::Stmt;
use rustpython_parser::Parse;

verus! {

/// A function declaration.
#[derive(Clone, Debug)]
pub struct FunctionDef {
    pub name: String,
    /// The names of the positional parameters, in order.
    pub params: Vec<String>,
    /// The debug form of the whole parsed declaration (name, parameters, body,
    /// decorators and source positions); two declarations are structurally
    /// equal exactly when these texts are equal.
    pub tree: String,
}

/// The mathematical content of a function declaration.
pub struct FunctionDefView {
    pub name: Seq<char>,
    pub params: Seq<Seq<char>>,
    pub tree: Seq<char>,
}

impl View for FunctionDef {
    type V = FunctionDefView;

    open spec fn view(&self) -> FunctionDefView {
        FunctionDefView {
            name: self.name@,
            params: self.params@.map_values(|p: String| p@),
            tree: self.tree@,
        }
    }
}

impl FunctionDef {
    /// A copy of this declaration.
    pub fn duplicate(&self) -> (r: FunctionDef)
        ensures
            r@ == self@,
    {
        let params = self.params.clone();
        assert(params@ =~= self.params@);
        FunctionDef { name: self.name.clone(), params, tree: self.tree.clone() }
    }
}

/// A class declaration with the statements of its body.
#[derive(Debug)]
pub struct ClassDef {
    pub name: String,
    pub body: Vec<Statement>,
}

/// A top-level statement of a module, or a statement of a class body.
#[derive(Debug)]
pub enum Statement {
    Function(FunctionDef),
    Class(ClassDef),
    /// Any other statement; queries do not look inside it.
    Other,
}

/// What parsing `source` as a Python module gives, with `path` as the name of
/// the file it came from: the module's statements, or the parser's message.
pub uninterp spec fn parsed_suite(source: Seq<char>, path: Seq<char>) -> Result<
    Seq<Statement>,
    Seq<char>,
>;

#[verifier::external_type_specification]
#[verifier::external_body]
pub struct ExTextRange(rustpython_parser::text_size::TextRange);

#[verifier::external_type_specification]
#[verifier::external_body]
#[verifier::reject_recursive_types(R)]
pub struct ExStmt<R>(rustpython_parser::ast::Stmt<R>);

/// Relies on the variants and fields of rustpython_parser's `Stmt`, on
/// `Identifier`'s `to_string` and on the derived `Debug` of `StmtFunctionDef`:
/// moves a parsed statement into the library's own form, one field for one.
#[verifier::external_body]
fn statement_of(s: &Stmt) -> Statement {
    match s {
        Stmt::FunctionDef(f) => Statement::Function(FunctionDef {
            name: f.name.to_string(),
            params: f.args.args.iter().map(|a| a.def.arg.to_string()).collect(),
            tree: format!("{:?}", f),
        }),
        Stmt::ClassDef(c) => Statement::Class(ClassDef {
            name: c.name.to_string(),
            body: c.body.iter().map(statement_of).collect(),
        }),
        _ => Statement::Other,
    }
}

/// Relies on rustpython_parser's `Suite::parse`: the module's statements, or the
/// message of the parse error; the outcome depends on the two texts alone. The
/// lexer counts byte offsets in 32 bits without checking the length, so the
/// source is kept under 2^32 bytes: at most four bytes for each character.
#[verifier::external_body]
pub(crate) fn parse_suite(source: &str, path: &str) -> (r: Result<Vec<Statement>, String>)
    requires
        source@.len() < 0x4000_0000,
    ensures
        match r {
            Ok(stmts) => parsed_suite(source@, path@) == Ok::<Seq<Statement>, Seq<char>>(stmts@),
            Err(e) => parsed_suite(source@, path@) == Err::<Seq<Statement>, Seq<char>>(e@),
        },
{
    match rustpython_parser::ast::Suite::parse(source, path) {
        Ok(stmts) => Ok(stmts.iter().map(statement_of).collect()),
        Err(e) => Err(e.error.to_string()),
    }
}

} // verus!
