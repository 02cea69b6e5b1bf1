//! The function extractor: walks top-level statements and assembles one
//! descriptor per function definition, in declaration order.

use vstd::prelude::*;
use crate::args::{args_model, get_args};
use crate::ast::{PyExpr, PyStmt, PyStmtKind};
use crate::descriptor::{fns_view, FnM, PyFunction};
use crate::docstring::{doc_model, get_docstring};

verus! {

/// Whether a statement is a function definition.
pub open spec fn is_def(stmt: PyStmt) -> bool {
    stmt.kind is FunctionDef
}

/// The return-type text: present exactly when the return annotation is a
/// bare name reference.
pub open spec fn ret_text(return_ann: Option<PyExpr>) -> Option<Seq<char>> {
    match return_ann {
        Some(e) => match e {
            PyExpr::Name(id) => Some(id@),
            _ => None,
        },
        None => None,
    }
}

/// The descriptor model of one function-definition statement: its name, its
/// aligned argument descriptors, the docstring taken from the first body
/// statement, the return type, and the definition's own span.
pub open spec fn fn_model(stmt: PyStmt) -> FnM
    recommends
        is_def(stmt),
{
    match stmt.kind {
        PyStmtKind::FunctionDef { name, params, return_ann, body } => FnM {
            name: name@,
            args: args_model(params@),
            doc_string: if body@.len() > 0 {
                doc_model(body@[0])
            } else {
                None
            },
            return_type: ret_text(return_ann),
            location: stmt.location,
            end_location: stmt.end_location,
        },
        _ => arbitrary(),
    }
}

/// The descriptor models of the function definitions among `stmts`, in
/// declaration order; every other statement contributes nothing.
pub open spec fn extract_spec(stmts: Seq<PyStmt>) -> Seq<FnM>
    decreases stmts.len(),
{
    if stmts.len() == 0 {
        Seq::empty()
    } else {
        let rest = extract_spec(stmts.drop_last());
        if is_def(stmts.last()) {
            rest.push(fn_model(stmts.last()))
        } else {
            rest
        }
    }
}

/// One more statement extends the extraction exactly when it is a function
/// definition.
proof fn lemma_extract_push(s: Seq<PyStmt>, x: PyStmt)
    ensures
        extract_spec(s.push(x)) == if is_def(x) {
            extract_spec(s).push(fn_model(x))
        } else {
            extract_spec(s)
        },
{
    assert(s.push(x).drop_last() =~= s);
    assert(s.push(x).last() == x);
}

/// Viewing a pushed descriptor list is pushing the descriptor's model.
proof fn lemma_fns_view_push(v: Seq<PyFunction>, f: PyFunction)
    ensures
        fns_view(v.push(f)) == fns_view(v).push(f@),
{
    assert(fns_view(v.push(f)) =~= fns_view(v).push(f@));
}

/// Builds one descriptor per top-level function definition of `stmts`, in
/// declaration order: exactly `extract_spec(stmts@)`. Non-definition
/// statements are skipped with no effect.
pub fn extract_functions(stmts: &Vec<PyStmt>) -> (r: Vec<PyFunction>)
    ensures
        fns_view(r@) == extract_spec(stmts@),
{
    let n = stmts.len();
    let mut out: Vec<PyFunction> = Vec::new();
    for i in 0..n
        invariant
            n == stmts@.len(),
            fns_view(out@) == extract_spec(stmts@.take(i as int)),
    {
        let stmt = &stmts[i];
        proof {
            assert(stmts@.take(i + 1) =~= stmts@.take(i as int).push(stmts@[i as int]));
            lemma_extract_push(stmts@.take(i as int), stmts@[i as int]);
        }
        match &stmt.kind {
            PyStmtKind::FunctionDef { name, params, return_ann, body } => {
                let doc = if body.len() > 0 {
                    get_docstring(&body[0])
                } else {
                    None
                };
                let rt: Option<String> = match return_ann {
                    Some(PyExpr::Name(id)) => Some(id.clone()),
                    _ => None,
                };
                let f = PyFunction {
                    name: name.clone(),
                    args: get_args(params),
                    doc_string: doc,
                    return_type: rt,
                    location: stmt.location,
                    end_location: stmt.end_location,
                };
                proof {
                    assert(f@.name == fn_model(stmts@[i as int]).name);
                    assert(f@.args == fn_model(stmts@[i as int]).args);
                    assert(f@.doc_string == fn_model(stmts@[i as int]).doc_string);
                    assert(f@.return_type == fn_model(stmts@[i as int]).return_type);
                    assert(f@ == fn_model(stmts@[i as int]));
                    lemma_fns_view_push(out@, f);
                }
                out.push(f);
            },
            _ => {
                proof {
                    assert(!is_def(stmts@[i as int]));
                }
            },
        }
        proof {
            assert(fns_view(out@) == extract_spec(stmts@.take(i + 1)));
        }
    }
    proof {
        assert(stmts@.take(n as int) =~= stmts@);
    }
    out
}

} // verus!
