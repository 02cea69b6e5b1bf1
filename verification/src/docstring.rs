//! The docstring extractor: recognizes a bare string-literal expression
//! statement and returns its trimmed text with the statement's span.

use vstd::prelude::*;
use crate::ast::{Located, PyConstant, PyExpr, PyStmt, PyStmtKind};
use crate::descriptor::{opt_doc_view, DocM};

verus! {

/// The text of a string with leading and trailing whitespace removed, as
/// `str::trim` computes it.
pub uninterp spec fn trim_of(s: Seq<char>) -> Seq<char>;

/// Relies on `str::trim` (std): returns the slice with leading and trailing
/// whitespace removed; the result depends on the characters alone, is never
/// longer than the input, and an empty input stays empty.
#[verifier::external_body]
fn trim(s: &str) -> (r: String)
    ensures
        r@ == trim_of(s@),
        r@.len() <= s@.len(),
        s@.len() == 0 ==> r@.len() == 0,
{
    s.trim().to_owned()
}

/// What the docstring extractor owes for one statement: a docstring exactly
/// when the statement is a bare string-constant expression, carrying the
/// literal's trimmed text and the statement's own span.
pub open spec fn doc_model(stmt: PyStmt) -> Option<DocM> {
    match stmt.kind {
        PyStmtKind::Expr { value } => match value {
            PyExpr::Constant(c) => match c {
                PyConstant::Str(text) => Some(
                    DocM {
                        text: trim_of(text@),
                        location: stmt.location,
                        end_location: stmt.end_location,
                    },
                ),
                _ => None,
            },
            _ => None,
        },
        _ => None,
    }
}

/// Returns the docstring when `stmt` is a bare string-literal expression
/// statement: its trimmed text, located at the statement's own span. Any
/// other statement shape yields `None`; that is a normal outcome, not a
/// failure.
pub fn get_docstring(stmt: &PyStmt) -> (r: Option<Located<String>>)
    ensures
        opt_doc_view(r) == doc_model(*stmt),
{
    match &stmt.kind {
        PyStmtKind::Expr { value } => match value {
            PyExpr::Constant(c) => match c {
                PyConstant::Str(text) => Some(
                    Located {
                        location: stmt.location,
                        end_location: stmt.end_location,
                        node: trim(text.as_str()),
                    },
                ),
                _ => None,
            },
            _ => None,
        },
        _ => None,
    }
}

} // verus!
