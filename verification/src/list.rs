//! Operations on the shared, immutable cons lists. Cells are never mutated:
//! every operation allocates new cells or shares existing ones.

use crate::err::{ErrV, LispError};
use crate::exp::{exp_view, exps_view, kind_of, list_view, Cons, ConsV, Exp, ExpV, Kind};
use std::sync::Arc;
use vstd::prelude::*;

verus! {

/// A cons list: `None` is the empty list.
pub type List = Option<Arc<Cons>>;

impl Cons {
    /// A fresh cell with the given head and tail.
    pub fn new(car: Exp, cdr: Exp) -> (r: Cons)
        ensures
            r@ == (ConsV { car: exp_view(car), cdr: exp_view(cdr) }),
    {
        Cons { car, cdr }
    }
}

/// The right-nested chain holding the given values in order, ending in the
/// empty list.
pub open spec fn spec_list_of(s: Seq<ExpV>) -> Option<Box<ConsV>>
    decreases s.len(),
{
    if s.len() == 0 {
        None
    } else {
        Some(Box::new(ConsV { car: s[0], cdr: ExpV::List(spec_list_of(s.drop_first())) }))
    }
}

/// Prepends a value: a fresh cell whose tail is the given list, shared.
pub fn push(val: Exp, list: List) -> (r: List)
    ensures
        list_view(r) == Some(
            Box::new(ConsV { car: exp_view(val), cdr: ExpV::List(list_view(list)) }),
        ),
{
    Some(Arc::new(Cons { car: val, cdr: Exp::List(list) }))
}

/// The tail of a list: the list a cell's second slot holds, shared by
/// reference count, never copied. The tail of the empty list is the empty
/// list, and a cell whose second slot is not a list has no tail chain:
/// its tail is the empty list too.
pub fn next(list: &List) -> (r: List)
    ensures
        list_view(r) == (match list_view(*list) {
            None => None::<Box<ConsV>>,
            Some(c) => match c.cdr {
                ExpV::List(t) => t,
                _ => None,
            },
        }),
{
    match list {
        None => None,
        Some(cell) => match &cell.cdr {
            Exp::List(t) => match t {
                None => None,
                Some(inner) => Some(crate::exp::arc_dup(inner)),
            },
            _ => None,
        },
    }
}

/// Builds the right-nested cons chain holding the slice's values in order.
pub fn list_from_slice(vec: &[Exp]) -> (r: List)
    ensures
        list_view(r) == spec_list_of(exps_view(vec@)),
{
    let n = vec.len();
    let mut list: List = None;
    let mut i = n;
    while i > 0
        invariant
            i <= n,
            n == vec@.len(),
            list_view(list) == spec_list_of(exps_view(vec@).skip(i as int)),
        decreases i,
    {
        i = i - 1;
        let item = vstd::slice::slice_index_get(vec, i);
        list = push(item.duplicate(), list);
        proof {
            assert(exps_view(vec@).skip(i as int).drop_first() =~= exps_view(vec@).skip(
                i as int + 1,
            ));
            assert(exps_view(vec@).skip(i as int)[0] == exp_view(vec@[i as int]));
        }
    }
    proof {
        assert(exps_view(vec@).skip(0) =~= exps_view(vec@));
    }
    list
}

/// The elements of a proper list, in order; a chain whose tail is not a
/// list has no element sequence, only the offending tail's kind.
pub open spec fn spec_elements(l: Option<Box<ConsV>>) -> Result<Seq<ExpV>, ErrV>
    decreases l,
{
    match l {
        None => Ok(Seq::empty()),
        Some(c) => match c.cdr {
            ExpV::List(rest) => match spec_elements(rest) {
                Ok(s) => Ok(seq![c.car] + s),
                Err(e) => Err(e),
            },
            _ => Err(ErrV::TypeMismatch(Kind::List, crate::exp::spec_kind(c.cdr))),
        },
    }
}

/// How many cells the leading proper chain of `l` holds.
pub open spec fn spec_chain_len(l: Option<Box<ConsV>>) -> nat
    decreases l,
{
    match l {
        None => 0,
        Some(c) => 1 + match c.cdr {
            ExpV::List(rest) => spec_chain_len(rest),
            _ => 0,
        },
    }
}

/// Walks a list and collects duplicates of its elements in order; reports
/// a type mismatch where some tail is not a list.
pub fn dolist(list: &List) -> (r: Result<Vec<Exp>, LispError>)
    ensures
        match spec_elements(list_view(*list)) {
            Ok(s) => r matches Ok(v) && exps_view(v@) == s,
            Err(e) => r matches Err(le) && le@ == e,
        },
{
    let mut out: Vec<Exp> = Vec::new();
    let mut cur: &List = list;
    loop
        invariant
            match spec_elements(list_view(*cur)) {
                Ok(s) => spec_elements(list_view(*list)) == Ok::<Seq<ExpV>, ErrV>(
                    exps_view(out@) + s,
                ),
                Err(e) => spec_elements(list_view(*list)) == Err::<Seq<ExpV>, ErrV>(e),
            },
        decreases spec_chain_len(list_view(*cur)),
    {
        match cur {
            None => {
                proof {
                    assert(exps_view(out@) + Seq::<ExpV>::empty() =~= exps_view(out@));
                }
                return Ok(out);
            },
            Some(c) => {
                let ghost prev = out@;
                out.push(c.car.duplicate());
                proof {
                    assert(exps_view(out@) =~= exps_view(prev) + seq![exp_view(c.car)]);
                }
                match &c.cdr {
                    Exp::List(rest) => {
                        proof {
                            if spec_elements(list_view(*rest)) is Ok {
                                let s = spec_elements(list_view(*rest))->Ok_0;
                                assert(exps_view(prev) + (seq![exp_view(c.car)] + s) =~= exps_view(
                                    out@,
                                ) + s);
                            }
                        }
                        cur = rest;
                    },
                    other => {
                        return Err(
                            LispError::TypeMismatch(Kind::List, kind_of(other)),
                        );
                    },
                }
            },
        }
    }
}

} // verus!
