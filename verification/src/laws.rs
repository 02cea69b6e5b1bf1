//! Laws of the engine, stated and proved over the public models.

use vstd::prelude::*;
use crate::args::{ann_text, args_model, default_exprs, default_text, keeps, kept_params};
use crate::ast::{PyExpr, PyParam, PyStmt};
use crate::constant::const_text;
use crate::descriptor::ArgM;
use crate::extract::{extract_spec, fn_model, is_def};
use crate::render::arg_text;

verus! {

/// When every parameter is kept, filtering changes nothing.
proof fn lemma_all_kept(params: Seq<PyParam>)
    requires
        forall|i: int| 0 <= i < params.len() ==> #[trigger] keeps(params[i]),
    ensures
        kept_params(params) == params,
    decreases params.len(),
{
    if params.len() == 0 {
        assert(kept_params(params) =~= params);
    } else {
        lemma_all_kept(params.drop_last());
        assert(keeps(params.last()));
        assert(params.drop_last().push(params.last()) =~= params);
    }
}

/// When no parameter has a default, the collected default list is empty.
proof fn lemma_no_defaults(params: Seq<PyParam>)
    requires
        forall|i: int| 0 <= i < params.len() ==> #[trigger] (params[i].default) is None,
    ensures
        default_exprs(params) == Seq::<PyExpr>::empty(),
    decreases params.len(),
{
    if params.len() == 0 {
        assert(default_exprs(params) =~= Seq::<PyExpr>::empty());
    } else {
        lemma_no_defaults(params.drop_last());
        assert(params.last().default is None);
    }
}

/// When the defaulted parameters form a trailing run, the collected default
/// list is exactly their defaults, in order.
proof fn lemma_defaults_suffix(params: Seq<PyParam>)
    requires
        forall|i: int, j: int|
            0 <= i < j < params.len() && #[trigger] (params[i].default) is Some ==> #[trigger] (
            params[j].default) is Some,
    ensures
        default_exprs(params).len() <= params.len(),
        forall|i: int|
            0 <= i < params.len() - default_exprs(params).len() ==> #[trigger] (
            params[i].default) is None,
        forall|i: int|
            params.len() - default_exprs(params).len() <= i < params.len() ==> (#[trigger] (
            params[i].default) matches Some(e) && default_exprs(params)[i - (params.len()
                - default_exprs(params).len())] == e),
    decreases params.len(),
{
    if params.len() == 0 {
    } else {
        let pre = params.drop_last();
        assert(forall|i: int|
            0 <= i < pre.len() ==> #[trigger] pre[i] == params[i]);
        lemma_defaults_suffix(pre);
        match params.last().default {
            Some(e) => {
                let d = default_exprs(params);
                let dp = default_exprs(pre);
                let n = params.len() as int;
                assert(d == dp.push(e));
                assert(d.len() == dp.len() + 1);
                assert forall|i: int| 0 <= i < n - d.len() implies #[trigger] (
                params[i].default) is None by {
                    assert(pre[i] == params[i]);
                    assert(pre[i].default is None);
                }
                assert forall|i: int| n - d.len() <= i < n implies (#[trigger] (
                params[i].default) matches Some(e2) && d[i - (n - d.len())] == e2) by {
                    let j = i - (n - d.len());
                    if i == n - 1 {
                        assert(params[i] == params.last());
                        assert(j == d.len() - 1);
                        assert(d[j] == e);
                    } else {
                        assert(pre[i] == params[i]);
                        assert(pre[i].default matches Some(e2) && dp[i - (pre.len()
                            - dp.len())] == e2);
                        assert(j == i - (pre.len() - dp.len()));
                        assert(j < dp.len());
                        assert(d[j] == dp[j]);
                    }
                }
            },
            None => {
                assert forall|i: int| 0 <= i < params.len() implies #[trigger] (
                params[i].default) is None by {
                    if i < params.len() - 1 && params[i].default is Some {
                        assert(params[params.len() - 1].default is Some);
                    }
                }
                lemma_no_defaults(params);
            },
        }
    }
}

/// The round trip of extraction and rendering: for a parameter list whose
/// parameters all carry simple-name annotations and whose defaulted
/// parameters form a trailing run, the extracted descriptors carry, in
/// order, exactly each parameter's own name, declared type and rendered
/// default; the signature renderer then emits exactly those fields.
pub proof fn lemma_roundtrip_params(params: Seq<PyParam>)
    requires
        forall|i: int| 0 <= i < params.len() ==> #[trigger] keeps(params[i]),
        forall|i: int, j: int|
            0 <= i < j < params.len() && #[trigger] (params[i].default) is Some ==> #[trigger] (
            params[j].default) is Some,
    ensures
        args_model(params).len() == params.len(),
        forall|i: int|
            0 <= i < params.len() ==> #[trigger] args_model(params)[i] == (ArgM {
                name: params[i].name@,
                ty: Some(ann_text(params[i])),
                default_value: match params[i].default {
                    Some(e) => default_text(e),
                    None => None,
                },
            }),
        forall|i: int|
            0 <= i < params.len() ==> #[trigger] arg_text(args_model(params)[i]) == params[i].name@
                + ": "@ + ann_text(params[i]) + (match params[i].default {
                Some(e) => match default_text(e) {
                    Some(d) => " = "@ + d,
                    None => Seq::<char>::empty(),
                },
                None => Seq::<char>::empty(),
            }),
{
    lemma_all_kept(params);
    lemma_defaults_suffix(params);
    let d = default_exprs(params);
    let k = d.len() as int;
    let n = params.len() as int;
    assert forall|i: int| 0 <= i < n implies #[trigger] args_model(params)[i] == (ArgM {
        name: params[i].name@,
        ty: Some(ann_text(params[i])),
        default_value: match params[i].default {
            Some(e) => default_text(e),
            None => None,
        },
    }) by {
        if i >= n - k {
            assert(params[i].default matches Some(e) && d[i - (n - k)] == e);
            assert(d[d.len() - n + i] == d[i - (n - k)]);
        } else {
            assert(params[i].default is None);
        }
    }
    assert forall|i: int| 0 <= i < n implies #[trigger] arg_text(args_model(params)[i])
        == params[i].name@ + ": "@ + ann_text(params[i]) + (match params[i].default {
        Some(e) => match default_text(e) {
            Some(dt) => " = "@ + dt,
            None => Seq::<char>::empty(),
        },
        None => Seq::<char>::empty(),
    }) by {
        assert(arg_text(args_model(params)[i]) =~= params[i].name@ + ": "@ + ann_text(params[i]) + (
        match params[i].default {
            Some(e) => match default_text(e) {
                Some(dt) => " = "@ + dt,
                None => Seq::<char>::empty(),
            },
            None => Seq::<char>::empty(),
        }));
    }
}

/// Rendering a constant is total — `const_text` is defined for every kind in
/// the closed set — and deterministic: semantically equal constants render
/// to the same text, and the boolean constants always render to their fixed
/// spellings.
pub proof fn lemma_render_constant_deterministic(a: crate::ast::PyConstant, b: crate::ast::PyConstant)
    requires
        a == b,
    ensures
        const_text(a) == const_text(b),
        const_text(crate::ast::PyConstant::Bool(true)) == "True"@,
        const_text(crate::ast::PyConstant::Bool(false)) == "False"@,
        const_text(crate::ast::PyConstant::NoneLit) == "None"@,
        const_text(crate::ast::PyConstant::Ellipsis) == "..."@,
{
}

/// One statement extends a prefix extraction exactly when it is a function
/// definition.
proof fn lemma_extract_take_step(stmts: Seq<PyStmt>, i: int)
    requires
        0 <= i < stmts.len(),
    ensures
        extract_spec(stmts.take(i + 1)) == if is_def(stmts[i]) {
            extract_spec(stmts.take(i)).push(fn_model(stmts[i]))
        } else {
            extract_spec(stmts.take(i))
        },
{
    assert(stmts.take(i + 1).drop_last() =~= stmts.take(i));
    assert(stmts.take(i + 1).last() == stmts[i]);
}

/// A prefix extraction is a prefix of the whole extraction.
proof fn lemma_extract_take_prefix(stmts: Seq<PyStmt>, i: int)
    requires
        0 <= i <= stmts.len(),
    ensures
        extract_spec(stmts.take(i)).len() <= extract_spec(stmts).len(),
        forall|k: int|
            0 <= k < extract_spec(stmts.take(i)).len() ==> #[trigger] extract_spec(stmts)[k]
                == extract_spec(stmts.take(i))[k],
    decreases stmts.len() - i,
{
    if i == stmts.len() {
        assert(stmts.take(i) =~= stmts);
    } else {
        lemma_extract_take_step(stmts, i);
        lemma_extract_take_prefix(stmts, i + 1);
    }
}

/// Longer prefixes extract at least as much.
proof fn lemma_extract_take_mono(stmts: Seq<PyStmt>, a: int, b: int)
    requires
        0 <= a <= b <= stmts.len(),
    ensures
        extract_spec(stmts.take(a)).len() <= extract_spec(stmts.take(b)).len(),
    decreases b - a,
{
    if a < b {
        lemma_extract_take_step(stmts, b - 1);
        lemma_extract_take_mono(stmts, a, b - 1);
    }
}

/// Extraction order equals declaration order: two function definitions of a
/// module appear in the extraction in the order of their statements, each
/// as its own descriptor model.
pub proof fn lemma_extraction_order(stmts: Seq<PyStmt>, i1: int, i2: int)
    requires
        0 <= i1 < i2 < stmts.len(),
        is_def(stmts[i1]),
        is_def(stmts[i2]),
    ensures
        exists|j1: int, j2: int|
            0 <= j1 < j2 < extract_spec(stmts).len() && extract_spec(stmts)[j1] == fn_model(
                stmts[i1],
            ) && extract_spec(stmts)[j2] == fn_model(stmts[i2]),
{
    let j1 = extract_spec(stmts.take(i1)).len() as int;
    let j2 = extract_spec(stmts.take(i2)).len() as int;
    lemma_extract_take_step(stmts, i1);
    lemma_extract_take_prefix(stmts, i1 + 1);
    lemma_extract_take_step(stmts, i2);
    lemma_extract_take_prefix(stmts, i2 + 1);
    lemma_extract_take_mono(stmts, i1 + 1, i2);
    assert(extract_spec(stmts.take(i1 + 1))[j1] == fn_model(stmts[i1]));
    assert(extract_spec(stmts)[j1] == fn_model(stmts[i1]));
    assert(extract_spec(stmts.take(i2 + 1))[j2] == fn_model(stmts[i2]));
    assert(extract_spec(stmts)[j2] == fn_model(stmts[i2]));
    assert(j1 < j2 < extract_spec(stmts).len());
    assert(0 <= j1 < j2 < extract_spec(stmts).len() && extract_spec(stmts)[j1] == fn_model(
        stmts[i1],
    ) && extract_spec(stmts)[j2] == fn_model(stmts[i2]));
}

} // verus!
