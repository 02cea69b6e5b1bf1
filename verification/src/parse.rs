//! The source-file model: owns the raw text and the extracted descriptors,
//! and orchestrates parse → extract.

use vstd::prelude::*;
use crate::bridge::{parse_module, parsed_module, ParseError};
use crate::descriptor::{fns_view, PyFunction};
use crate::extract::{extract_functions, extract_spec};

verus! {

/// One logical source file: the raw text and the function descriptors
/// extracted from it, rebuilt wholesale on every parse.
pub struct PySourceFile {
    pub src: String,
    pub functions: Vec<PyFunction>,
}

/// Parses a source text and extracts one descriptor per top-level function
/// definition, in declaration order; a malformed text yields the parse
/// error instead, and nothing is extracted.
pub fn parse_defs(source: &str) -> (r: Result<Vec<PyFunction>, ParseError>)
    ensures
        r is Ok <==> parsed_module(source@) is Some,
        r matches Ok(fs) ==> parsed_module(source@) matches Some(m) && fns_view(fs@)
            == extract_spec(m),
{
    match parse_module(source) {
        Ok(stmts) => Ok(extract_functions(&stmts)),
        Err(e) => Err(e),
    }
}

impl PySourceFile {
    /// A fresh model owning `source`, with no descriptors yet.
    pub fn new(source: &str) -> (r: Self)
        ensures
            r.src@ == source@,
            r.functions@ == Seq::<PyFunction>::empty(),
    {
        PySourceFile { src: source.to_owned(), functions: Vec::new() }
    }

    /// Rebuilds the descriptor list from the owned text: on success it holds
    /// exactly the extraction of the parsed module; on a parse failure the
    /// old list is kept and the error is returned.
    pub fn parse(&mut self) -> (r: Result<(), ParseError>)
        ensures
            final(self).src == old(self).src,
            r is Ok <==> parsed_module(old(self).src@) is Some,
            r is Ok ==> (parsed_module(old(self).src@) matches Some(m) && fns_view(
                final(self).functions@,
            ) == extract_spec(m)),
            r is Err ==> final(self).functions == old(self).functions,
    {
        match parse_defs(self.src.as_str()) {
            Ok(fs) => {
                self.functions = fs;
                Ok(())
            },
            Err(e) => Err(e),
        }
    }
}

impl PyFunction {
    /// Parses a replacement implementation and reports whether it is
    /// well-formed. How a parsed replacement should be merged into the
    /// descriptor is an open design question, so the descriptor is left
    /// unchanged.
    pub fn set_implementation(&mut self, body: &str) -> (r: Result<(), ParseError>)
        ensures
            *final(self) == *old(self),
            r is Ok <==> parsed_module(body@) is Some,
    {
        match parse_module(body) {
            Ok(_) => Ok(()),
            Err(e) => Err(e),
        }
    }
}

/// Inspects a replacement definition for `old_defn`: the new source is
/// parsed, and nothing more. Splicing the replacement into the descriptor
/// is an open design question, so the descriptor is left unchanged.
pub fn parse_def(old_defn: &mut PyFunction, new_source: &str)
    ensures
        *final(old_defn) == *old(old_defn),
{
    let _parsed = parse_module(new_source);
}

} // verus!
