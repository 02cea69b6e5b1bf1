//! Extraction of function signatures and docstrings from Python source text,
//! and reconstruction of such signatures as source-like text.
//!
//! The engine works on a small, parser-independent model of the statements it
//! cares about (`ast`). The external parser's tree is translated into that
//! model at a single trusted boundary (`bridge`); everything that reads the
//! model — the constant renderer, the docstring and argument extractors, the
//! function extractor and the signature renderer — is verified against exact
//! contracts.

pub mod args;
pub mod ast;
pub mod bridge;
pub mod constant;
pub mod describe;
pub mod descriptor;
pub mod docstring;
pub mod extract;
pub mod laws;
pub mod parse;
pub mod render;
mod text;

pub use args::get_args;
pub use ast::{Located, Location, PyConstant, PyExpr, PyParam, PyStmt, PyStmtKind};
pub use bridge::ParseError;
pub use constant::AsString;
pub use descriptor::{PyArgument, PyFunction};
pub use docstring::get_docstring;
pub use extract::extract_functions;
pub use parse::{parse_def, parse_defs, PySourceFile};
