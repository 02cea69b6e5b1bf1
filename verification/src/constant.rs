//! The constant renderer: the exact textual form of a literal constant.

use vstd::prelude::*;
use crate::ast::PyConstant;
use crate::text::push_str;

verus! {

/// The decimal digit `d` (which must be below ten) as text.
pub open spec fn digit_text(d: u8) -> Seq<char> {
    if d == 0 {
        "0"@
    } else if d == 1 {
        "1"@
    } else if d == 2 {
        "2"@
    } else if d == 3 {
        "3"@
    } else if d == 4 {
        "4"@
    } else if d == 5 {
        "5"@
    } else if d == 6 {
        "6"@
    } else if d == 7 {
        "7"@
    } else if d == 8 {
        "8"@
    } else {
        "9"@
    }
}

/// The natural decimal text of one byte value, without padding.
pub open spec fn byte_text(b: u8) -> Seq<char> {
    if b < 10 {
        digit_text(b)
    } else if b < 100 {
        digit_text(b / 10) + digit_text(b % 10)
    } else {
        digit_text(b / 100) + digit_text((b / 10) % 10) + digit_text(b % 10)
    }
}

/// The bytes of a bytes literal, comma-joined.
pub open spec fn byte_list_text(bs: Seq<u8>) -> Seq<char>
    decreases bs.len(),
{
    if bs.len() == 0 {
        Seq::empty()
    } else if bs.len() == 1 {
        byte_text(bs[0])
    } else {
        byte_text(bs[0]) + ", "@ + byte_list_text(bs.drop_first())
    }
}

/// The elements of a tuple constant: their renderings, comma-joined.
pub open spec fn tuple_items_text(items: Seq<PyConstant>) -> Seq<char>
    decreases items,
{
    if items.len() == 0 {
        Seq::empty()
    } else if items.len() == 1 {
        const_text(items[0])
    } else {
        const_text(items[0]) + ", "@ + tuple_items_text(items.drop_first())
    }
}

/// The exact textual form a constant has when written back as source-like
/// text. Total over the closed set of kinds: every kind has a rendering.
///
/// Numeric kinds carry their decimal text in the model and render verbatim;
/// strings render as their content, unquoted; bytes render as a debug-style
/// list of decimal byte values in square brackets; a complex value renders
/// as `<real> + <imag>i`; a tuple renders its members' renderings
/// comma-joined in parentheses.
pub open spec fn const_text(c: PyConstant) -> Seq<char>
    decreases c,
{
    match c {
        PyConstant::NoneLit => "None"@,
        PyConstant::Bool(b) => if b {
            "True"@
        } else {
            "False"@
        },
        PyConstant::Int(s) => s@,
        PyConstant::Float(s) => s@,
        PyConstant::Str(s) => s@,
        PyConstant::Bytes(bs) => "["@ + byte_list_text(bs@) + "]"@,
        PyConstant::Complex { re, im } => re@ + " + "@ + im@ + "i"@,
        PyConstant::Ellipsis => "..."@,
        PyConstant::Tuple(items) => "("@ + tuple_items_text(items@) + ")"@,
    }
}

/// Appending one more byte to the list extends its comma-joined text by a
/// separator (when the list was non-empty) and the byte's own text.
proof fn lemma_byte_list_push(bs: Seq<u8>, x: u8)
    ensures
        byte_list_text(bs.push(x)) == if bs.len() == 0 {
            byte_text(x)
        } else {
            byte_list_text(bs) + ", "@ + byte_text(x)
        },
    decreases bs.len(),
{
    if bs.len() == 0 {
        assert(bs.push(x) =~= seq![x]);
        assert(byte_list_text(seq![x]) == byte_text(x));
    } else if bs.len() == 1 {
        assert(bs.push(x).drop_first() =~= seq![x]);
        assert(bs.push(x)[0] == bs[0]);
        assert(byte_list_text(seq![x]) == byte_text(x));
        assert(byte_list_text(bs.push(x)) == byte_text(bs.push(x)[0]) + ", "@ + byte_list_text(
            bs.push(x).drop_first(),
        ));
        assert(byte_list_text(bs) == byte_text(bs[0]));
    } else {
        assert(bs.push(x).drop_first() =~= bs.drop_first().push(x));
        lemma_byte_list_push(bs.drop_first(), x);
        assert(byte_list_text(bs.push(x)) == byte_text(bs[0]) + ", "@ + (byte_list_text(
            bs.drop_first(),
        ) + ", "@ + byte_text(x)));
        assert(byte_text(bs[0]) + ", "@ + (byte_list_text(bs.drop_first()) + ", "@ + byte_text(x))
            =~= (byte_text(bs[0]) + ", "@ + byte_list_text(bs.drop_first())) + ", "@ + byte_text(
            x,
        ));
    }
}

/// The same step, for a tuple's members.
proof fn lemma_tuple_items_push(items: Seq<PyConstant>, x: PyConstant)
    ensures
        tuple_items_text(items.push(x)) == if items.len() == 0 {
            const_text(x)
        } else {
            tuple_items_text(items) + ", "@ + const_text(x)
        },
    decreases items.len(),
{
    if items.len() == 0 {
        assert(items.push(x) =~= seq![x]);
        assert(tuple_items_text(seq![x]) == const_text(x));
    } else if items.len() == 1 {
        assert(items.push(x).drop_first() =~= seq![x]);
        assert(items.push(x)[0] == items[0]);
        assert(tuple_items_text(seq![x]) == const_text(x));
        assert(tuple_items_text(items.push(x)) == const_text(items.push(x)[0]) + ", "@
            + tuple_items_text(items.push(x).drop_first()));
        assert(tuple_items_text(items) == const_text(items[0]));
    } else {
        assert(items.push(x).drop_first() =~= items.drop_first().push(x));
        lemma_tuple_items_push(items.drop_first(), x);
        assert(tuple_items_text(items.push(x)) == const_text(items[0]) + ", "@ + (tuple_items_text(
            items.drop_first(),
        ) + ", "@ + const_text(x)));
        assert(const_text(items[0]) + ", "@ + (tuple_items_text(items.drop_first()) + ", "@
            + const_text(x)) =~= (const_text(items[0]) + ", "@ + tuple_items_text(
            items.drop_first(),
        )) + ", "@ + const_text(x));
    }
}

/// Rendering as the textual form of a source literal.
pub trait AsString {
    /// The rendered text of `self`.
    fn as_string(&self) -> String;
}

/// The digit `d` as a one-character string slice.
fn digit_str(d: u8) -> (r: &'static str)
    requires
        d < 10,
    ensures
        r@ == digit_text(d),
{
    if d == 0 {
        "0"
    } else if d == 1 {
        "1"
    } else if d == 2 {
        "2"
    } else if d == 3 {
        "3"
    } else if d == 4 {
        "4"
    } else if d == 5 {
        "5"
    } else if d == 6 {
        "6"
    } else if d == 7 {
        "7"
    } else if d == 8 {
        "8"
    } else {
        "9"
    }
}

/// Appends the decimal text of one byte to `out`.
fn push_byte_text(out: &mut String, b: u8)
    ensures
        final(out)@ == old(out)@ + byte_text(b),
{
    if b >= 100 {
        push_str(out, digit_str(b / 100));
        push_str(out, digit_str((b / 10) % 10));
        push_str(out, digit_str(b % 10));
    } else if b >= 10 {
        push_str(out, digit_str(b / 10));
        push_str(out, digit_str(b % 10));
    } else {
        push_str(out, digit_str(b));
    }
}

impl PyConstant {
    /// Renders `self`, appending to `out`.
    fn push_rendering(&self, out: &mut String)
        ensures
            final(out)@ == old(out)@ + const_text(*self),
        decreases *self,
    {
        match self {
            PyConstant::NoneLit => push_str(out, "None"),
            PyConstant::Bool(b) => if *b {
                push_str(out, "True")
            } else {
                push_str(out, "False")
            },
            PyConstant::Int(s) => push_str(out, s.as_str()),
            PyConstant::Float(s) => push_str(out, s.as_str()),
            PyConstant::Str(s) => push_str(out, s.as_str()),
            PyConstant::Bytes(bs) => {
                push_str(out, "[");
                let n = bs.len();
                for i in 0..n
                    invariant
                        n == bs@.len(),
                        out@ == old(out)@ + "["@ + byte_list_text(bs@.take(i as int)),
                {
                    if i > 0 {
                        push_str(out, ", ");
                    }
                    push_byte_text(out, bs[i]);
                    proof {
                        assert(bs@.take(i + 1) =~= bs@.take(i as int).push(bs@[i as int]));
                        lemma_byte_list_push(bs@.take(i as int), bs@[i as int]);
                    }
                }
                proof {
                    assert(bs@.take(n as int) =~= bs@);
                }
                push_str(out, "]");
            },
            PyConstant::Complex { re, im } => {
                push_str(out, re.as_str());
                push_str(out, " + ");
                push_str(out, im.as_str());
                push_str(out, "i");
            },
            PyConstant::Ellipsis => push_str(out, "..."),
            PyConstant::Tuple(items) => {
                push_str(out, "(");
                let n = items.len();
                for i in 0..n
                    invariant
                        n == items@.len(),
                        *self == PyConstant::Tuple(*items),
                        out@ == old(out)@ + "("@ + tuple_items_text(items@.take(i as int)),
                {
                    if i > 0 {
                        push_str(out, ", ");
                    }
                    proof {
                        assert((*self)->Tuple_0 == *items);
                        assert(decreases_to!(*self => (*self)->Tuple_0));
                        assert(decreases_to!(*items => items@));
                        assert(decreases_to!(items@ => items@[i as int]));
                        assert(decreases_to!(*self => items@[i as int]));
                    }
                    items[i].push_rendering(out);
                    proof {
                        assert(items@.take(i + 1) =~= items@.take(i as int).push(
                            items@[i as int],
                        ));
                        lemma_tuple_items_push(items@.take(i as int), items@[i as int]);
                    }
                }
                proof {
                    assert(items@.take(n as int) =~= items@);
                }
                push_str(out, ")");
            },
        }
    }
}

impl PyConstant {
    /// The rendered text of the constant: exactly `const_text(*self)`.
    pub fn rendering(&self) -> (r: String)
        ensures
            r@ == const_text(*self),
    {
        let mut out = String::new();
        self.push_rendering(&mut out);
        proof {
            assert(out@ =~= const_text(*self));
        }
        out
    }
}

impl AsString for PyConstant {
    fn as_string(&self) -> String {
        self.rendering()
    }
}

} // verus!
