//! The signature renderer: serializes a function descriptor back into a
//! textual signature line, the structural inverse of extraction.

use vstd::prelude::*;
use crate::descriptor::{args_view, ArgM, FnM, PyArgument, PyFunction};
use crate::text::push_str;

verus! {

/// One parameter as it appears in a rendered signature:
/// `<name>[: <type>][ = <default>]`.
pub open spec fn arg_text(a: ArgM) -> Seq<char> {
    a.name + (match a.ty {
        Some(t) => ": "@ + t,
        None => Seq::<char>::empty(),
    }) + (match a.default_value {
        Some(d) => " = "@ + d,
        None => Seq::<char>::empty(),
    })
}

/// The parameter list, comma-space-joined, no trailing comma.
pub open spec fn args_list_text(args: Seq<ArgM>) -> Seq<char>
    decreases args.len(),
{
    if args.len() == 0 {
        Seq::empty()
    } else if args.len() == 1 {
        arg_text(args[0])
    } else {
        arg_text(args[0]) + ", "@ + args_list_text(args.drop_first())
    }
}

/// The rendered signature of a function descriptor: `def <name>(<params>)`,
/// the return-type arrow when one is present, the colon and newline, and an
/// indented triple-quoted docstring block when one is present.
pub open spec fn snippet_text(f: FnM) -> Seq<char> {
    "def "@ + f.name + "("@ + args_list_text(f.args) + ")"@ + (match f.return_type {
        Some(r) => " -> "@ + r,
        None => Seq::<char>::empty(),
    }) + ":\n"@ + (match f.doc_string {
        Some(d) => "    \"\"\"\n    "@ + d.text + "\n    \"\"\""@,
        None => Seq::<char>::empty(),
    })
}

/// One more parameter extends the joined list by a separator (when the list
/// was non-empty) and the parameter's own text.
proof fn lemma_args_list_push(args: Seq<ArgM>, x: ArgM)
    ensures
        args_list_text(args.push(x)) == if args.len() == 0 {
            arg_text(x)
        } else {
            args_list_text(args) + ", "@ + arg_text(x)
        },
    decreases args.len(),
{
    if args.len() == 0 {
        assert(args.push(x) =~= seq![x]);
        assert(args_list_text(seq![x]) == arg_text(x));
    } else if args.len() == 1 {
        assert(args.push(x).drop_first() =~= seq![x]);
        assert(args.push(x)[0] == args[0]);
        assert(args_list_text(seq![x]) == arg_text(x));
        assert(args_list_text(args.push(x)) == arg_text(args.push(x)[0]) + ", "@ + args_list_text(
            args.push(x).drop_first(),
        ));
        assert(args_list_text(args) == arg_text(args[0]));
    } else {
        assert(args.push(x).drop_first() =~= args.drop_first().push(x));
        lemma_args_list_push(args.drop_first(), x);
        assert(args_list_text(args.push(x)) == arg_text(args[0]) + ", "@ + (args_list_text(
            args.drop_first(),
        ) + ", "@ + arg_text(x)));
        assert(arg_text(args[0]) + ", "@ + (args_list_text(args.drop_first()) + ", "@ + arg_text(x))
            =~= (arg_text(args[0]) + ", "@ + args_list_text(args.drop_first())) + ", "@ + arg_text(
            x,
        ));
    }
}

/// Appends one rendered parameter to `out`.
fn push_arg_text(out: &mut String, a: &PyArgument)
    ensures
        final(out)@ == old(out)@ + arg_text(a@),
{
    push_str(out, a.name.as_str());
    match &a.ty {
        Some(t) => {
            push_str(out, ": ");
            push_str(out, t.as_str());
        },
        None => {},
    }
    match &a.default_value {
        Some(d) => {
            push_str(out, " = ");
            push_str(out, d.as_str());
        },
        None => {},
    }
    proof {
        assert(out@ =~= old(out)@ + arg_text(a@));
    }
}

impl PyFunction {
    /// Renders the descriptor back into a textual signature: exactly
    /// `snippet_text(self@)`.
    pub fn as_snippet(&self) -> (r: String)
        ensures
            r@ == snippet_text(self@),
    {
        let mut out = String::new();
        push_str(&mut out, "def ");
        push_str(&mut out, self.name.as_str());
        push_str(&mut out, "(");
        let ghost head = "def "@ + self@.name + "("@;
        proof {
            assert(out@ =~= head);
        }
        let n = self.args.len();
        for i in 0..n
            invariant
                n == self.args@.len(),
                out@ == head + args_list_text(args_view(self.args@).take(
                    i as int,
                )),
        {
            if i > 0 {
                push_str(&mut out, ", ");
            }
            push_arg_text(&mut out, &self.args[i]);
            proof {
                let ghost av = args_view(self.args@);
                assert(av[i as int] == self.args@[i as int]@);
                assert(av.take(i + 1) =~= av.take(i as int).push(av[i as int]));
                lemma_args_list_push(av.take(i as int), av[i as int]);
                assert(out@ =~= head + args_list_text(av.take(i + 1)));
            }
        }
        proof {
            let ghost av = args_view(self.args@);
            assert(av.take(n as int) =~= av);
            assert(self@.args == av);
        }
        push_str(&mut out, ")");
        match &self.return_type {
            Some(r) => {
                push_str(&mut out, " -> ");
                push_str(&mut out, r.as_str());
            },
            None => {},
        }
        push_str(&mut out, ":\n");
        match &self.doc_string {
            Some(d) => {
                push_str(&mut out, "    \"\"\"\n    ");
                push_str(&mut out, d.node.as_str());
                push_str(&mut out, "\n    \"\"\"");
            },
            None => {},
        }
        proof {
            assert(out@ =~= snippet_text(self@));
        }
        out
    }
}

} // verus!
