//! Total, panic-free textual rendering of every expression variant.
//! Lists render as `(e1 e2 ... )`, vectors as `[e1, e2, ]`, lambdas as an
//! opaque placeholder naming their parameter list, never their body.

use crate::exp::{Cons, Exp, ExpV};
use crate::numtext::{num_to_string, spec_i64_chars};
use std::sync::Arc;
use vstd::prelude::*;
use vstd::string::StringExecFns;

verus! {

broadcast use vstd::std_specs::vec::axiom_vec_index_decreases;

/// The text of a value, variant by variant.
pub open spec fn spec_render(e: ExpV) -> Seq<char>
    decreases e, 0int,
{
    match e {
        ExpV::List(l) => "("@ + spec_render_items(l) + ")"@,
        ExpV::Num(n) => spec_i64_chars(n as int),
        ExpV::Symbol(s) => s,
        ExpV::Str(s) => s,
        ExpV::Vector(v) => "["@ + spec_render_elems(v, 0) + "]"@,
        ExpV::Lambda(l) => "Lambda with arguments: ["@ + spec_render_params(l.params, 0) + "]"@,
        ExpV::Func(_) => "Func"@,
        ExpV::Macro(_) => "Macro"@,
        ExpV::Bool(b) => if b {
            "Bool(true)"@
        } else {
            "Bool(false)"@
        },
    }
}

/// The space-terminated run of a cons chain's elements; a chain whose tail
/// is not a list renders a placeholder after the elements seen so far.
pub open spec fn spec_render_items(l: Option<Box<crate::exp::ConsV>>) -> Seq<char>
    decreases l, 0int,
{
    match l {
        None => Seq::empty(),
        Some(c) => spec_render(c.car) + " "@ + match c.cdr {
            ExpV::List(rest) => spec_render_items(rest),
            _ => "PRINTING CONS IS UNIMPLEMENTED"@,
        },
    }
}

/// The comma-terminated run of a vector's elements from position `i` on.
pub open spec fn spec_render_elems(v: Seq<ExpV>, i: int) -> Seq<char>
    decreases v, v.len() - i,
{
    if i < 0 || i >= v.len() {
        Seq::empty()
    } else {
        spec_render(v[i]) + ", "@ + spec_render_elems(v, i + 1)
    }
}

/// The comma-separated, quoted run of parameter names from position `i` on.
pub open spec fn spec_render_params(ps: Seq<Seq<char>>, i: int) -> Seq<char>
    decreases ps.len() - i,
{
    if i < 0 || i >= ps.len() {
        Seq::empty()
    } else {
        "\""@ + ps[i] + "\""@ + (if i + 1 < ps.len() {
            ", "@
        } else {
            Seq::<char>::empty()
        }) + spec_render_params(ps, i + 1)
    }
}

fn render_items(l: &Option<Arc<Cons>>, out: &mut String)
    ensures
        final(out)@ == old(out)@ + spec_render_items(crate::exp::list_view(*l)),
    decreases *l, 0int,
{
    match l {
        None => {
            proof {
                assert(out@ =~= old(out)@ + spec_render_items(crate::exp::list_view(*l)));
            }
        },
        Some(c) => {
            render_into(&c.car, out);
            out.append(" ");
            match &c.cdr {
                Exp::List(rest) => {
                    render_items(rest, out);
                },
                _ => {
                    out.append("PRINTING CONS IS UNIMPLEMENTED");
                },
            }
            proof {
                assert(out@ =~= old(out)@ + spec_render_items(crate::exp::list_view(*l)));
            }
        },
    }
}

fn render_elems(v: &Vec<Exp>, i: usize, out: &mut String)
    requires
        i <= v@.len(),
    ensures
        final(out)@ == old(out)@ + spec_render_elems(crate::exp::exps_view(v@), i as int),
    decreases *v, v@.len() - i,
{
    let ghost vv = crate::exp::exps_view(v@);
    if i < v.len() {
        proof {
            vstd::std_specs::vec::axiom_vec_index_decreases(*v, i as int);
        }
        render_into(&v[i], out);
        out.append(", ");
        render_elems(v, i + 1, out);
        proof {
            assert(out@ =~= old(out)@ + spec_render_elems(vv, i as int));
        }
    } else {
        proof {
            assert(out@ =~= old(out)@ + spec_render_elems(vv, i as int));
        }
    }
}

fn render_params(ps: &Vec<String>, i: usize, out: &mut String)
    requires
        i <= ps@.len(),
    ensures
        final(out)@ == old(out)@ + spec_render_params(
            Seq::new(ps@.len(), |k: int| ps@[k]@),
            i as int,
        ),
    decreases ps@.len() - i,
{
    let ghost pv = Seq::new(ps@.len(), |k: int| ps@[k]@);
    if i < ps.len() {
        out.append("\"");
        out.append(ps[i].as_str());
        out.append("\"");
        if i + 1 < ps.len() {
            out.append(", ");
        }
        render_params(ps, i + 1, out);
        proof {
            assert(out@ =~= old(out)@ + spec_render_params(pv, i as int));
        }
    } else {
        proof {
            assert(out@ =~= old(out)@ + spec_render_params(pv, i as int));
        }
    }
}

fn render_into(e: &Exp, out: &mut String)
    ensures
        final(out)@ == old(out)@ + spec_render(e@),
    decreases *e, 1int,
{
    match e {
        Exp::List(l) => {
            out.append("(");
            render_items(l, out);
            out.append(")");
            proof {
                assert(out@ =~= old(out)@ + spec_render(e@));
            }
        },
        Exp::Num(n) => {
            let t = num_to_string(*n);
            out.append(t.as_str());
        },
        Exp::Symbol(s) => {
            out.append(s.as_str());
        },
        Exp::Str(s) => {
            out.append(s.as_str());
        },
        Exp::Vector(v) => {
            out.append("[");
            render_elems(v, 0, out);
            out.append("]");
            proof {
                crate::exp::lemma_exp_vec_view(*v);
                assert(e@ == ExpV::Vector(crate::exp::exps_view(v@)));
                assert(out@ =~= old(out)@ + spec_render(e@));
            }
        },
        Exp::Lambda(lam) => {
            out.append("Lambda with arguments: [");
            render_params(&lam.args, 0, out);
            out.append("]");
            proof {
                assert(out@ =~= old(out)@ + spec_render(e@));
            }
        },
        Exp::Func(_) => {
            out.append("Func");
        },
        Exp::Macro(_) => {
            out.append("Macro");
        },
        Exp::Bool(b) => {
            if *b {
                out.append("Bool(true)");
            } else {
                out.append("Bool(false)");
            }
        },
    }
}

/// Renders a value as the printer and the REPL report it.
pub fn render(e: &Exp) -> (s: String)
    ensures
        s@ == spec_render(e@),
{
    let mut out = String::new();
    render_into(e, &mut out);
    proof {
        assert(out@ =~= spec_render(e@));
    }
    out
}

} // verus!
