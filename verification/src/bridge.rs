//! The trusted boundary to the external Python parser: parsing the raw
//! source and translating the parser's tree into the engine's own model.
//!
//! Everything behind `parse_located` and the `conv_*` helpers is believed,
//! not proved; each item's doc comment names what it relies on. All logic
//! that reads the translated model is verified elsewhere.

use vstd::prelude::*;
use crate::ast::{Location, PyConstant, PyExpr, PyParam, PyStmt, PyStmtKind};
use rustpython_parser::ast::fold::Fold;
use rustpython_parser::ast::located::Located;

verus! {

#[verifier::external_type_specification]
#[verifier::external_body]
#[verifier::reject_recursive_types(R)]
pub struct ExStmt<R>(rustpython_parser::ast::Stmt<R>);

#[verifier::external_type_specification]
#[verifier::external_body]
#[verifier::reject_recursive_types(R)]
pub struct ExExpr<R>(rustpython_parser::ast::Expr<R>);

#[verifier::external_type_specification]
#[verifier::external_body]
#[verifier::reject_recursive_types(R)]
pub struct ExArgWithDefault<R>(rustpython_parser::ast::ArgWithDefault<R>);

#[verifier::external_type_specification]
#[verifier::external_body]
pub struct ExConstant(rustpython_parser::ast::Constant);

#[verifier::external_type_specification]
#[verifier::external_body]
pub struct ExSourceRange(rustpython_parser::ast::source_code::SourceRange);

#[verifier::external_type_specification]
#[verifier::external_body]
pub struct ExSourceLocation(rustpython_parser::ast::source_code::SourceLocation);

/// A parse failure, surfaced to the caller as a hard failure: the engine
/// performs no recovery and no partial extraction.
#[derive(Debug)]
pub struct ParseError {
    pub message: String,
}

/// What the external parser yields for a source text: its located top-level
/// statements when the text is well-formed Python, nothing otherwise. The
/// parser is pure, so this is a function of the text alone.
pub uninterp spec fn parse_model(source: Seq<char>) -> Option<
    Seq<rustpython_parser::ast::located::Stmt>,
>;

/// The engine's model of one located statement of the parser.
pub uninterp spec fn stmt_model(stmt: rustpython_parser::ast::located::Stmt) -> PyStmt;

/// Relies on `rustpython_parser::parse_program` and on
/// `LinearLocator`: parses the module source and yields its top-level
/// statements with (row, column) source locations, or a parse error. A
/// given source text always parses to the same outcome.
#[verifier::external_body]
fn parse_located(source: &str) -> (r: Result<
    Vec<rustpython_parser::ast::located::Stmt>,
    ParseError,
>)
    ensures
        r is Ok <==> parse_model(source@) is Some,
        r matches Ok(v) ==> parse_model(source@) == Some(v@),
{
    match rustpython_parser::parse_program(source, "<embedded>") {
        Ok(suite) => {
            let mut locator = rustpython_parser::source_code::LinearLocator::new(source);
            let mut located: Vec<rustpython_parser::ast::located::Stmt> = Vec::new();
            for stmt in suite {
                located.push(locator.fold_stmt(stmt).unwrap());
            }
            Ok(located)
        },
        Err(e) => Err(ParseError { message: e.to_string() }),
    }
}

/// Relies on `SourceLocation`: row and column are one-indexed.
#[verifier::external_body]
fn conv_loc(l: rustpython_parser::ast::source_code::SourceLocation) -> Location {
    Location { row: l.row.get() as usize, column: l.column.get() as usize }
}

/// Relies on the shape of the parser's statement nodes: keeps exactly what
/// extraction reads — a function definition's name, arguments, return
/// annotation and body, a bare expression statement's value, and each
/// statement's span — and folds every other statement into the catch-all.
#[verifier::external_body]
fn conv_stmt(s: &rustpython_parser::ast::located::Stmt) -> (r: PyStmt)
    ensures
        r == stmt_model(*s),
{
    let kind = match s {
        rustpython_parser::ast::located::Stmt::FunctionDef(f) => PyStmtKind::FunctionDef {
            name: f.name.as_str().to_owned(),
            params: conv_params(&f.args.args),
            return_ann: f.returns.as_deref().map(conv_expr),
            body: conv_suite(&f.body),
        },
        rustpython_parser::ast::located::Stmt::Expr(e) => PyStmtKind::Expr {
            value: conv_expr(&e.value),
        },
        _ => PyStmtKind::Other,
    };
    PyStmt { location: conv_loc(s.location()), end_location: s.end_location().map(conv_loc), kind }
}

/// Relies on the shape of the parser's argument nodes: an argument's name,
/// annotation and default value.
#[verifier::external_body]
fn conv_param(a: &rustpython_parser::ast::located::ArgWithDefault) -> PyParam {
    PyParam {
        name: a.def.arg.as_str().to_owned(),
        annotation: a.def.annotation.as_deref().map(conv_expr),
        default: a.default.as_deref().map(conv_expr),
    }
}

/// Relies on the shape of the parser's expression nodes: a bare name, a
/// constant, a tuple display, or anything else.
#[verifier::external_body]
fn conv_expr(e: &rustpython_parser::ast::located::Expr) -> PyExpr {
    match e {
        rustpython_parser::ast::located::Expr::Name(n) => PyExpr::Name(n.id.as_str().to_owned()),
        rustpython_parser::ast::located::Expr::Constant(c) => PyExpr::Constant(
            conv_constant(&c.value),
        ),
        rustpython_parser::ast::located::Expr::Tuple(t) => PyExpr::Tuple(conv_exprs(&t.elts)),
        _ => PyExpr::Other,
    }
}

/// Translates an expression list, in order.
fn conv_exprs(v: &Vec<rustpython_parser::ast::located::Expr>) -> Vec<PyExpr> {
    let mut out: Vec<PyExpr> = Vec::new();
    for i in 0..v.len() {
        out.push(conv_expr(&v[i]));
    }
    out
}

/// Relies on the shape of the parser's constant values, one arm per kind;
/// numeric kinds are rendered to their natural decimal text here.
#[verifier::external_body]
fn conv_constant(c: &rustpython_parser::ast::Constant) -> PyConstant {
    match c {
        rustpython_parser::ast::Constant::None => PyConstant::NoneLit,
        rustpython_parser::ast::Constant::Bool(b) => PyConstant::Bool(*b),
        rustpython_parser::ast::Constant::Str(s) => PyConstant::Str(s.clone()),
        rustpython_parser::ast::Constant::Bytes(b) => PyConstant::Bytes(b.clone()),
        rustpython_parser::ast::Constant::Int(i) => PyConstant::Int(format!("{}", i)),
        rustpython_parser::ast::Constant::Tuple(t) => PyConstant::Tuple(conv_constants(t)),
        rustpython_parser::ast::Constant::Float(x) => PyConstant::Float(format!("{}", x)),
        rustpython_parser::ast::Constant::Complex { real: rp, imag: ip } => PyConstant::Complex {
            re: format!("{}", rp),
            im: format!("{}", ip),
        },
        rustpython_parser::ast::Constant::Ellipsis => PyConstant::Ellipsis,
    }
}

/// Translates a list of constants, in order.
fn conv_constants(v: &Vec<rustpython_parser::ast::Constant>) -> Vec<PyConstant> {
    let mut out: Vec<PyConstant> = Vec::new();
    for i in 0..v.len() {
        out.push(conv_constant(&v[i]));
    }
    out
}

/// Translates a parameter list, in order.
fn conv_params(v: &Vec<rustpython_parser::ast::located::ArgWithDefault>) -> Vec<PyParam> {
    let mut out: Vec<PyParam> = Vec::new();
    for i in 0..v.len() {
        out.push(conv_param(&v[i]));
    }
    out
}

/// Translates a statement list, in order: element-wise `stmt_model`.
pub(crate) fn conv_suite(v: &Vec<rustpython_parser::ast::located::Stmt>) -> (r: Vec<PyStmt>)
    ensures
        r@ == v@.map_values(|s: rustpython_parser::ast::located::Stmt| stmt_model(s)),
{
    let mut out: Vec<PyStmt> = Vec::new();
    let n = v.len();
    for i in 0..n
        invariant
            n == v@.len(),
            out@ == v@.take(i as int).map_values(
                |s: rustpython_parser::ast::located::Stmt| stmt_model(s),
            ),
    {
        out.push(conv_stmt(&v[i]));
        proof {
            assert(v@.take(i + 1) =~= v@.take(i as int).push(v@[i as int]));
            assert(v@.take(i + 1).map_values(
                |s: rustpython_parser::ast::located::Stmt| stmt_model(s),
            ) =~= v@.take(i as int).map_values(
                |s: rustpython_parser::ast::located::Stmt| stmt_model(s),
            ).push(stmt_model(v@[i as int])));
        }
    }
    proof {
        assert(v@.take(n as int) =~= v@);
    }
    out
}

/// The engine's model of a whole parsed module: the statement models, when
/// the source parses.
pub open spec fn parsed_module(source: Seq<char>) -> Option<Seq<PyStmt>> {
    match parse_model(source) {
        Some(v) => Some(
            v.map_values(|s: rustpython_parser::ast::located::Stmt| stmt_model(s)),
        ),
        None => None,
    }
}

/// Parses a source text and translates its top-level statements into the
/// engine's model: exactly the statements of `parsed_module(source@)`, or
/// the parse error.
pub(crate) fn parse_module(source: &str) -> (r: Result<Vec<PyStmt>, ParseError>)
    ensures
        r is Ok <==> parsed_module(source@) is Some,
        r matches Ok(v) ==> parsed_module(source@) == Some(v@),
{
    match parse_located(source) {
        Ok(stmts) => Ok(conv_suite(&stmts)),
        Err(e) => Err(e),
    }
}

} // verus!
