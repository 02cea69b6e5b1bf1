//! The prompt builder: describes a descriptor as a natural-language request
//! for an implementation.

use vstd::prelude::*;
use crate::descriptor::{args_view, ArgM, PyArgument, PyFunction};
use crate::text::push_str;

verus! {

/// One parameter as prose: its name, then its declared type and default
/// value when present.
pub open spec fn arg_describe_text(a: ArgM) -> Seq<char> {
    "`"@ + a.name + "`"@ + (match a.ty {
        Some(t) => " that is of type `"@ + t + "`"@,
        None => Seq::<char>::empty(),
    }) + (match a.default_value {
        Some(d) => " with a default value of `"@ + d + "`,"@,
        None => Seq::<char>::empty(),
    })
}

/// The parameter descriptions joined as a bulleted block, one `- ` line
/// each.
pub open spec fn arg_block_text(args: Seq<ArgM>) -> Seq<char>
    decreases args.len(),
{
    if args.len() == 0 {
        Seq::empty()
    } else if args.len() == 1 {
        arg_describe_text(args[0])
    } else {
        arg_describe_text(args[0]) + "\n- "@ + arg_block_text(args.drop_first())
    }
}

/// The whole prompt: the fixed request around the function's name, then an
/// arguments section, a return-type section and a docstring section, each
/// present exactly when the descriptor has something to say there, and the
/// fixed closing request.
pub open spec fn describe_text(f: crate::descriptor::FnM) -> Seq<char> {
    "Can you implement exactly one function for me in Python whose name is `"@ + f.name
        + "` that takes in the arguments specified below and returns the type specified below. This function should do exactly as the docstring says which is also described below.\n\n"@
        + (if f.args.len() > 0 {
        "Arguments:\n- "@ + arg_block_text(f.args) + "\n\n\n"@
    } else {
        Seq::<char>::empty()
    }) + (match f.return_type {
        Some(r) => "Return type:\n- `"@ + r + "`\n\n"@,
        None => Seq::<char>::empty(),
    }) + (match f.doc_string {
        Some(d) => "Docstring:\n\""@ + d.text + "\"\n\n"@,
        None => Seq::<char>::empty(),
    })
        + "Can you please only return the function implementation and not return any other text other than that? (Not even the \"Sure, here's the implementation\")"@
}

/// One more parameter extends the bulleted block by a line break and bullet
/// (when the block was non-empty) and the parameter's own description.
proof fn lemma_arg_block_push(args: Seq<ArgM>, x: ArgM)
    ensures
        arg_block_text(args.push(x)) == if args.len() == 0 {
            arg_describe_text(x)
        } else {
            arg_block_text(args) + "\n- "@ + arg_describe_text(x)
        },
    decreases args.len(),
{
    if args.len() == 0 {
        assert(args.push(x) =~= seq![x]);
        assert(arg_block_text(seq![x]) == arg_describe_text(x));
    } else if args.len() == 1 {
        assert(args.push(x).drop_first() =~= seq![x]);
        assert(args.push(x)[0] == args[0]);
        assert(arg_block_text(seq![x]) == arg_describe_text(x));
        assert(arg_block_text(args.push(x)) == arg_describe_text(args.push(x)[0]) + "\n- "@
            + arg_block_text(args.push(x).drop_first()));
        assert(arg_block_text(args) == arg_describe_text(args[0]));
    } else {
        assert(args.push(x).drop_first() =~= args.drop_first().push(x));
        lemma_arg_block_push(args.drop_first(), x);
        assert(arg_block_text(args.push(x)) == arg_describe_text(args[0]) + "\n- "@ + (
        arg_block_text(args.drop_first()) + "\n- "@ + arg_describe_text(x)));
        assert(arg_describe_text(args[0]) + "\n- "@ + (arg_block_text(args.drop_first()) + "\n- "@
            + arg_describe_text(x)) =~= (arg_describe_text(args[0]) + "\n- "@ + arg_block_text(
            args.drop_first(),
        )) + "\n- "@ + arg_describe_text(x));
    }
}

impl PyArgument {
    /// Describes the parameter as prose: exactly
    /// `arg_describe_text(self@)`.
    pub fn describe(&self) -> (r: String)
        ensures
            r@ == arg_describe_text(self@),
    {
        let mut out = String::new();
        push_str(&mut out, "`");
        push_str(&mut out, self.name.as_str());
        push_str(&mut out, "`");
        match &self.ty {
            Some(t) => {
                push_str(&mut out, " that is of type `");
                push_str(&mut out, t.as_str());
                push_str(&mut out, "`");
            },
            None => {},
        }
        match &self.default_value {
            Some(d) => {
                push_str(&mut out, " with a default value of `");
                push_str(&mut out, d.as_str());
                push_str(&mut out, "`,");
            },
            None => {},
        }
        proof {
            assert(out@ =~= arg_describe_text(self@));
        }
        out
    }
}

impl PyFunction {
    /// Describes the whole descriptor as a request for an implementation:
    /// exactly `describe_text(self@)`.
    pub fn describe(&self) -> (r: String)
        ensures
            r@ == describe_text(self@),
    {
        let mut out = String::new();
        push_str(
            &mut out,
            "Can you implement exactly one function for me in Python whose name is `",
        );
        push_str(&mut out, self.name.as_str());
        push_str(
            &mut out,
            "` that takes in the arguments specified below and returns the type specified below. This function should do exactly as the docstring says which is also described below.\n\n",
        );
        let ghost head = out@;
        if self.args.len() > 0 {
            push_str(&mut out, "Arguments:\n- ");
            let ghost head2 = out@;
            let n = self.args.len();
            for i in 0..n
                invariant
                    n == self.args@.len(),
                    head2 == head + "Arguments:\n- "@,
                    out@ == head2 + arg_block_text(args_view(self.args@).take(i as int)),
            {
                if i > 0 {
                    push_str(&mut out, "\n- ");
                }
                let piece = self.args[i].describe();
                push_str(&mut out, piece.as_str());
                proof {
                    let ghost av = args_view(self.args@);
                    assert(av[i as int] == self.args@[i as int]@);
                    assert(av.take(i + 1) =~= av.take(i as int).push(av[i as int]));
                    lemma_arg_block_push(av.take(i as int), av[i as int]);
                    assert(out@ =~= head2 + arg_block_text(av.take(i + 1)));
                }
            }
            push_str(&mut out, "\n\n\n");
            proof {
                let ghost av = args_view(self.args@);
                assert(av.take(n as int) =~= av);
                assert(self@.args == av);
            }
        }
        match &self.return_type {
            Some(r) => {
                push_str(&mut out, "Return type:\n- `");
                push_str(&mut out, r.as_str());
                push_str(&mut out, "`\n\n");
            },
            None => {},
        }
        match &self.doc_string {
            Some(d) => {
                push_str(&mut out, "Docstring:\n\"");
                push_str(&mut out, d.node.as_str());
                push_str(&mut out, "\"\n\n");
            },
            None => {},
        }
        push_str(
            &mut out,
            "Can you please only return the function implementation and not return any other text other than that? (Not even the \"Sure, here's the implementation\")",
        );
        proof {
            assert(out@ =~= describe_text(self@));
        }
        out
    }
}

} // verus!
