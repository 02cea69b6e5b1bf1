//! The argument extractor: one descriptor per kept parameter, with default
//! values aligned to the trailing parameters.

use vstd::prelude::*;
use crate::ast::{PyExpr, PyParam};
use crate::constant::const_text;
use crate::descriptor::{args_view, opt_text, ArgM, PyArgument};
use crate::text::push_str;

verus! {

/// Whether a parameter is kept: it must carry an annotation that is a bare
/// name reference. Unannotated parameters and parameters with any other
/// annotation shape are dropped from the output entirely.
pub open spec fn keeps(p: PyParam) -> bool {
    match p.annotation {
        Some(e) => e is Name,
        None => false,
    }
}

/// The annotation text of a kept parameter.
pub open spec fn ann_text(p: PyParam) -> Seq<char> {
    match p.annotation {
        Some(e) => match e {
            PyExpr::Name(id) => id@,
            _ => Seq::empty(),
        },
        None => Seq::empty(),
    }
}

/// The parameters that survive the dropping rule, in declaration order.
pub open spec fn kept_params(params: Seq<PyParam>) -> Seq<PyParam>
    decreases params.len(),
{
    if params.len() == 0 {
        Seq::empty()
    } else {
        let rest = kept_params(params.drop_last());
        if keeps(params.last()) {
            rest.push(params.last())
        } else {
            rest
        }
    }
}

/// The default-value expressions of the parameter list, in declaration
/// order: the trailing default list as it appears in the source.
pub open spec fn default_exprs(params: Seq<PyParam>) -> Seq<PyExpr>
    decreases params.len(),
{
    if params.len() == 0 {
        Seq::empty()
    } else {
        let rest = default_exprs(params.drop_last());
        match params.last().default {
            Some(e) => rest.push(e),
            None => rest,
        }
    }
}

/// The comma-joined renderings of a tuple display's members, present
/// exactly when every member is itself constant.
pub open spec fn tuple_elts_text(elts: Seq<PyExpr>) -> Option<Seq<char>>
    decreases elts,
{
    if elts.len() == 0 {
        Some(Seq::empty())
    } else if elts.len() == 1 {
        expr_const_text(elts[0])
    } else {
        match (expr_const_text(elts[0]), tuple_elts_text(elts.drop_first())) {
            (Some(h), Some(t)) => Some(h + ", "@ + t),
            _ => None,
        }
    }
}

/// The constant text of an expression: a literal constant renders through
/// the constant renderer, and a tuple display whose members are all
/// constant renders as a parenthesized tuple; anything else has none.
pub open spec fn expr_const_text(e: PyExpr) -> Option<Seq<char>>
    decreases e,
{
    match e {
        PyExpr::Constant(c) => Some(const_text(c)),
        PyExpr::Tuple(elts) => match tuple_elts_text(elts@) {
            Some(t) => Some("("@ + t + ")"@),
            None => None,
        },
        _ => None,
    }
}

/// The rendered text of one default expression: a bare name renders as its
/// identifier, a constant value through the constant renderer, and any
/// other shape is silently left unset.
pub open spec fn default_text(e: PyExpr) -> Option<Seq<char>> {
    match e {
        PyExpr::Name(id) => Some(id@),
        PyExpr::Other => None,
        _ => expr_const_text(e),
    }
}

/// The kept parameters without any default attached yet.
pub open spec fn base_args(s: Seq<PyParam>) -> Seq<ArgM> {
    Seq::new(s.len(), |i: int| ArgM { name: s[i].name@, ty: Some(ann_text(s[i])), default_value: None })
}

/// The extracted argument descriptors: the kept parameters in declaration
/// order, where the k-th default from the end of the default list is
/// attached to the k-th parameter from the end of the *kept* list.
///
/// The alignment deliberately counts against the already-filtered list, as
/// the engine always has; when a dropped parameter sits among defaulted
/// ones, defaults shift onto the wrong neighbours. Defaults left over when
/// they outnumber the kept parameters are ignored.
pub open spec fn args_model(params: Seq<PyParam>) -> Seq<ArgM> {
    let f = kept_params(params);
    let d = default_exprs(params);
    let m = if d.len() <= f.len() {
        d.len() as int
    } else {
        f.len() as int
    };
    Seq::new(
        f.len(),
        |i: int|
            ArgM {
                name: f[i].name@,
                ty: Some(ann_text(f[i])),
                default_value: if i >= f.len() - m {
                    default_text(d[d.len() - f.len() + i])
                } else {
                    None
                },
            },
    )
}

/// Filtering one more parameter extends the kept list exactly when the
/// parameter is kept.
proof fn lemma_kept_params_push(s: Seq<PyParam>, x: PyParam)
    ensures
        kept_params(s.push(x)) == if keeps(x) {
            kept_params(s).push(x)
        } else {
            kept_params(s)
        },
{
    assert(s.push(x).drop_last() =~= s);
    assert(s.push(x).last() == x);
}

/// Collecting one more parameter's default extends the default list exactly
/// when a default is present.
proof fn lemma_default_exprs_push(s: Seq<PyParam>, x: PyParam)
    ensures
        default_exprs(s.push(x)) == match x.default {
            Some(e) => default_exprs(s).push(e),
            None => default_exprs(s),
        },
{
    assert(s.push(x).drop_last() =~= s);
    assert(s.push(x).last() == x);
}

/// One more all-constant member extends the joined member text by a
/// separator (when the list was non-empty) and the member's own text.
proof fn lemma_tuple_elts_push_some(s: Seq<PyExpr>, x: PyExpr)
    requires
        tuple_elts_text(s) is Some,
        expr_const_text(x) is Some,
    ensures
        tuple_elts_text(s.push(x)) == Some(
            if s.len() == 0 {
                expr_const_text(x)->Some_0
            } else {
                tuple_elts_text(s)->Some_0 + ", "@ + expr_const_text(x)->Some_0
            },
        ),
    decreases s.len(),
{
    if s.len() == 0 {
        assert(s.push(x) =~= seq![x]);
        assert(tuple_elts_text(seq![x]) == expr_const_text(x));
    } else if s.len() == 1 {
        assert(s.push(x).drop_first() =~= seq![x]);
        assert(s.push(x)[0] == s[0]);
        assert(tuple_elts_text(seq![x]) == expr_const_text(x));
        assert(tuple_elts_text(s) == expr_const_text(s[0]));
    } else {
        assert(s.push(x).drop_first() =~= s.drop_first().push(x));
        lemma_tuple_elts_push_some(s.drop_first(), x);
        assert(s.push(x)[0] == s[0]);
        assert(expr_const_text(s[0])->Some_0 + ", "@ + (tuple_elts_text(s.drop_first())->Some_0
            + ", "@ + expr_const_text(x)->Some_0) =~= (expr_const_text(s[0])->Some_0 + ", "@
            + tuple_elts_text(s.drop_first())->Some_0) + ", "@ + expr_const_text(x)->Some_0);
    }
}

/// One member without constant text makes the whole member list unset.
proof fn lemma_tuple_elts_elem_none(s: Seq<PyExpr>, i: int)
    requires
        0 <= i < s.len(),
        expr_const_text(s[i]) is None,
    ensures
        tuple_elts_text(s) is None,
    decreases s.len(),
{
    if s.len() == 1 {
    } else if i == 0 {
    } else {
        assert(s.drop_first()[i - 1] == s[i]);
        lemma_tuple_elts_elem_none(s.drop_first(), i - 1);
    }
}

/// The constant text of an expression, rendered: exactly
/// `expr_const_text(*e)`.
fn expr_const_string(e: &PyExpr) -> (r: Option<String>)
    ensures
        opt_text(r) == expr_const_text(*e),
    decreases *e,
{
    match e {
        PyExpr::Constant(c) => Some(c.rendering()),
        PyExpr::Tuple(elts) => {
            let mut out = String::new();
            push_str(&mut out, "(");
            let mut ok = true;
            let n = elts.len();
            for i in 0..n
                invariant
                    n == elts@.len(),
                    *e == PyExpr::Tuple(*elts),
                    ok ==> (tuple_elts_text(elts@.take(i as int)) matches Some(p) && out@ == "("@
                        + p),
                    !ok ==> tuple_elts_text(elts@) is None,
            {
                proof {
                    assert((*e)->Tuple_0 == *elts);
                    assert(decreases_to!(*e => (*e)->Tuple_0));
                    assert(decreases_to!(*elts => elts@));
                    assert(decreases_to!(elts@ => elts@[i as int]));
                    assert(decreases_to!(*e => elts@[i as int]));
                }
                let elem = expr_const_string(&elts[i]);
                match elem {
                    Some(s) => {
                        if ok {
                            if i > 0 {
                                push_str(&mut out, ", ");
                            }
                            push_str(&mut out, s.as_str());
                            proof {
                                assert(elts@.take(i + 1) =~= elts@.take(i as int).push(
                                    elts@[i as int],
                                ));
                                lemma_tuple_elts_push_some(elts@.take(i as int), elts@[i as int]);
                                assert(out@ =~= "("@ + tuple_elts_text(elts@.take(i + 1))->Some_0);
                            }
                        }
                    },
                    None => {
                        proof {
                            lemma_tuple_elts_elem_none(elts@, i as int);
                        }
                        ok = false;
                    },
                }
            }
            if ok {
                push_str(&mut out, ")");
                proof {
                    assert(elts@.take(n as int) =~= elts@);
                    assert(out@ =~= "("@ + tuple_elts_text(elts@)->Some_0 + ")"@);
                }
                Some(out)
            } else {
                None
            }
        },
        _ => None,
    }
}

/// Builds one descriptor per kept parameter of `params`, in declaration
/// order, with defaults aligned from the end of the kept list: exactly
/// `args_model(params@)`.
pub fn get_args(params: &Vec<PyParam>) -> (r: Vec<PyArgument>)
    ensures
        args_view(r@) == args_model(params@),
{
    let n = params.len();
    let mut kept: Vec<PyArgument> = Vec::new();
    let mut dexprs: Vec<&PyExpr> = Vec::new();
    for j in 0..n
        invariant
            n == params@.len(),
            args_view(kept@) == base_args(kept_params(params@.take(j as int))),
            dexprs@.map_values(|e: &PyExpr| *e) == default_exprs(params@.take(j as int)),
    {
        let p = &params[j];
        proof {
            assert(params@.take(j + 1) =~= params@.take(j as int).push(params@[j as int]));
            lemma_kept_params_push(params@.take(j as int), params@[j as int]);
            lemma_default_exprs_push(params@.take(j as int), params@[j as int]);
        }
        match &p.annotation {
            Some(PyExpr::Name(id)) => {
                let ghost am = ArgM { name: p.name@, ty: Some(id@), default_value: None };
                let ghost kept0 = kept@;
                kept.push(
                    PyArgument { name: p.name.clone(), ty: Some(id.clone()), default_value: None },
                );
                proof {
                    assert(keeps(params@[j as int]));
                    assert(ann_text(params@[j as int]) == id@);
                    assert(kept@.last()@ == am);
                    let ghost goal = base_args(kept_params(params@.take(j + 1)));
                    assert(kept_params(params@.take(j + 1)) == kept_params(
                        params@.take(j as int),
                    ).push(params@[j as int]));
                    assert forall|t: int| 0 <= t < kept@.len() implies #[trigger] args_view(
                        kept@,
                    )[t] == goal[t] by {
                        assert(args_view(kept@)[t] == kept@[t]@);
                        if t < kept0.len() {
                            assert(kept@[t] == kept0[t]);
                            assert(args_view(kept0).len() == kept0.len());
                            assert(base_args(kept_params(params@.take(j as int))).len()
                                == kept_params(params@.take(j as int)).len());
                            assert(args_view(kept0)[t] == kept0[t]@);
                            assert(base_args(kept_params(params@.take(j as int)))[t] == args_view(
                                kept0,
                            )[t]);
                            assert((kept_params(params@.take(j as int)).push(
                                params@[j as int],
                            ))[t] == kept_params(params@.take(j as int))[t]);
                            assert(kept_params(params@.take(j + 1))[t] == kept_params(
                                params@.take(j as int),
                            )[t]);
                        } else {
                            assert(t == kept@.len() - 1);
                            assert(kept@[t]@ == am);
                            assert(args_view(kept0).len() == kept0.len());
                            assert(base_args(kept_params(params@.take(j as int))).len()
                                == kept_params(params@.take(j as int)).len());
                            assert(t == kept_params(params@.take(j as int)).len());
                            assert((kept_params(params@.take(j as int)).push(
                                params@[j as int],
                            ))[t] == params@[j as int]);
                            assert(kept_params(params@.take(j + 1))[t] == params@[j as int]);
                        }
                    }
                    assert(args_view(kept@).len() == kept@.len());
                    assert(args_view(kept0).len() == kept0.len());
                    assert(base_args(kept_params(params@.take(j as int))).len() == kept_params(
                        params@.take(j as int),
                    ).len());
                    assert(goal.len() == kept_params(params@.take(j + 1)).len());
                    assert(kept_params(params@.take(j + 1)).len() == kept_params(
                        params@.take(j as int),
                    ).len() + 1);
                    assert(args_view(kept@).len() == goal.len());
                    assert(args_view(kept@) =~= goal);
                }
            },
            _ => {
                proof {
                    assert(!keeps(params@[j as int]));
                    assert(args_view(kept@) =~= base_args(kept_params(params@.take(j + 1))));
                }
            },
        }
        match &p.default {
            Some(e) => {
                dexprs.push(e);
                proof {
                    assert(dexprs@.map_values(|e: &PyExpr| *e) =~= default_exprs(
                        params@.take(j + 1),
                    ));
                }
            },
            None => {
                proof {
                    assert(dexprs@.map_values(|e: &PyExpr| *e) =~= default_exprs(
                        params@.take(j + 1),
                    ));
                }
            },
        }
    }
    proof {
        assert(params@.take(n as int) =~= params@);
    }
    let fl = kept.len();
    let dl = dexprs.len();
    let m = if dl <= fl {
        dl
    } else {
        fl
    };
    let mut out: Vec<PyArgument> = Vec::new();
    for i in 0..fl
        invariant
            fl == kept@.len(),
            dl == dexprs@.len(),
            m == if dl <= fl {
                dl
            } else {
                fl
            },
            args_view(kept@) == base_args(kept_params(params@)),
            dexprs@.map_values(|e: &PyExpr| *e) == default_exprs(params@),
            args_view(out@) == args_model(params@).take(i as int),
    {
        proof {
            assert(base_args(kept_params(params@)).len() == kept_params(params@).len());
            assert(args_view(kept@).len() == kept@.len());
            assert(args_model(params@).len() == kept_params(params@).len());
            assert(args_view(kept@)[i as int] == kept@[i as int]@);
        }
        let ghost target: ArgM = args_model(params@)[i as int];
        let dv: Option<String> = if i >= fl - m {
            let k = (dl - m) + (i - (fl - m));
            let e: &PyExpr = dexprs[k];
            proof {
                assert(k as int == dl - fl + i);
                assert(dexprs@.map_values(|e: &PyExpr| *e)[k as int] == *dexprs@[k as int]);
                assert(*e == default_exprs(params@)[k as int]);
                assert(target.default_value == default_text(*e));
            }
            match e {
                PyExpr::Name(id) => Some(id.clone()),
                PyExpr::Other => None,
                _ => expr_const_string(e),
            }
        } else {
            proof {
                assert(target.default_value is None);
            }
            None
        };
        let name = kept[i].name.clone();
        let ty = match &kept[i].ty {
            Some(t) => Some(t.clone()),
            None => None,
        };
        out.push(PyArgument { name, ty, default_value: dv });
        proof {
            assert(opt_text(dv) == target.default_value);
            assert(name@ == target.name);
            assert(opt_text(ty) == target.ty);
            assert(args_model(params@).take(i + 1) =~= args_model(params@).take(i as int).push(
                args_model(params@)[i as int],
            ));
            assert(args_view(out@) =~= args_model(params@).take(i + 1));
        }
    }
    proof {
        assert(args_model(params@).take(fl as int) =~= args_model(params@));
        assert(args_view(out@) =~= args_model(params@));
    }
    out
}

} // verus!
