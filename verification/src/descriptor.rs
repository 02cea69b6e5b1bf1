//! Descriptors: the normalized, parser-independent records of a function
//! definition, together with their mathematical models.

use vstd::prelude::*;
use crate::ast::{Located, Location};

verus! {

/// A parameter descriptor: name, optional declared type, optional rendered
/// default value.
pub struct PyArgument {
    pub ty: Option<String>,
    pub name: String,
    pub default_value: Option<String>,
}

/// A function descriptor: name, parameters in declaration order, optional
/// docstring with its span, optional return type, and the span of the whole
/// definition.
pub struct PyFunction {
    pub name: String,
    pub args: Vec<PyArgument>,
    pub doc_string: Option<Located<String>>,
    pub return_type: Option<String>,
    pub location: Location,
    pub end_location: Option<Location>,
}

/// The model of a parameter descriptor: its fields as plain text.
pub struct ArgM {
    pub name: Seq<char>,
    pub ty: Option<Seq<char>>,
    pub default_value: Option<Seq<char>>,
}

/// The model of a docstring: its trimmed text and the span of the statement
/// it came from.
pub struct DocM {
    pub text: Seq<char>,
    pub location: Location,
    pub end_location: Option<Location>,
}

/// The model of a function descriptor.
pub struct FnM {
    pub name: Seq<char>,
    pub args: Seq<ArgM>,
    pub doc_string: Option<DocM>,
    pub return_type: Option<Seq<char>>,
    pub location: Location,
    pub end_location: Option<Location>,
}

/// The text of an optional string.
pub open spec fn opt_text(o: Option<String>) -> Option<Seq<char>> {
    match o {
        Some(s) => Some(s@),
        None => None,
    }
}

impl View for PyArgument {
    type V = ArgM;

    open spec fn view(&self) -> ArgM {
        ArgM {
            name: self.name@,
            ty: opt_text(self.ty),
            default_value: opt_text(self.default_value),
        }
    }
}

/// The model of a located docstring.
pub open spec fn doc_view(d: Located<String>) -> DocM {
    DocM { text: d.node@, location: d.location, end_location: d.end_location }
}

/// The model of an optional located docstring.
pub open spec fn opt_doc_view(o: Option<Located<String>>) -> Option<DocM> {
    match o {
        Some(d) => Some(doc_view(d)),
        None => None,
    }
}

/// The models of a sequence of parameter descriptors.
pub open spec fn args_view(v: Seq<PyArgument>) -> Seq<ArgM> {
    v.map_values(|a: PyArgument| a@)
}

impl View for PyFunction {
    type V = FnM;

    open spec fn view(&self) -> FnM {
        FnM {
            name: self.name@,
            args: args_view(self.args@),
            doc_string: opt_doc_view(self.doc_string),
            return_type: opt_text(self.return_type),
            location: self.location,
            end_location: self.end_location,
        }
    }
}

/// The models of a sequence of function descriptors.
pub open spec fn fns_view(v: Seq<PyFunction>) -> Seq<FnM> {
    v.map_values(|f: PyFunction| f@)
}

} // verus!
