//! The parser-independent model of Python statements.
//!
//! Only the shapes that the extraction engine actually reads are
//! distinguished; every other construct falls into an explicit catch-all
//! variant, so "unsupported" is a normal value rather than a missing case.

use vstd::prelude::*;

verus! {

/// A position in the original source text, as a (row, column) pair of raw
/// source coordinates.
#[derive(Clone, Copy, PartialEq, Eq, Structural)]
pub struct Location {
    pub row: usize,
    pub column: usize,
}

/// A value together with the source span of the construct it came from.
pub struct Located<T> {
    pub location: Location,
    pub end_location: Option<Location>,
    pub node: T,
}

/// A literal constant, the closed set of kinds the renderer understands.
///
/// Numeric kinds carry their natural decimal text rather than a machine
/// number: the model records what the literal looks like, which is all the
/// renderer needs.
pub enum PyConstant {
    NoneLit,
    Bool(bool),
    Int(String),
    Float(String),
    Str(String),
    Bytes(Vec<u8>),
    Complex { re: String, im: String },
    Ellipsis,
    Tuple(Vec<PyConstant>),
}

/// An expression, distinguished only as far as annotations and default
/// values require: a bare name, a literal constant, a tuple display, or
/// anything else.
pub enum PyExpr {
    Name(String),
    Constant(PyConstant),
    Tuple(Vec<PyExpr>),
    Other,
}

/// One declared positional parameter: its name and, when present, its
/// annotation expression and its default-value expression.
pub struct PyParam {
    pub name: String,
    pub annotation: Option<PyExpr>,
    pub default: Option<PyExpr>,
}

/// A statement, distinguished only as far as extraction requires: a function
/// definition, a bare expression statement, or anything else.
pub enum PyStmtKind {
    FunctionDef {
        name: String,
        params: Vec<PyParam>,
        return_ann: Option<PyExpr>,
        body: Vec<PyStmt>,
    },
    Expr { value: PyExpr },
    Other,
}

/// A statement with its source span.
pub struct PyStmt {
    pub location: Location,
    pub end_location: Option<Location>,
    pub kind: PyStmtKind,
}

} // verus!
