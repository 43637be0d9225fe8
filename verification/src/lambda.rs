//! User-defined callables: a parameter list and a body. A lambda does not
//! capture its defining environment; every call binds its parameters in a
//! fresh child of the *calling* environment.

use crate::env::Env;
use crate::err::{ErrV, LispError};
use crate::exp::{exp_view, exps_view, Exp, ExpV, Lambda, LambdaV, MacroKind};
use crate::semantics::{res_view, spec_bind, spec_call, spec_param_names, StateV};
use crate::table::Table;
use std::sync::Arc;
use vstd::prelude::*;

verus! {

/// Collects the parameter names of a lambda list from position `i` on,
/// provided every entry is a symbol.
pub(crate) fn param_names_from(ps: &Vec<Exp>, i: usize) -> (r: Option<Vec<String>>)
    requires
        i <= ps@.len(),
    ensures
        match spec_param_names(exps_view(ps@).skip(i as int)) {
            Some(names) => r matches Some(v) && v.deep_view() == names,
            None => r is None,
        },
    decreases ps@.len() - i,
{
    let ghost s = exps_view(ps@).skip(i as int);
    if i == ps.len() {
        let r: Vec<String> = Vec::new();
        proof {
            assert(r.deep_view() =~= Seq::<Seq<char>>::empty());
        }
        Some(r)
    } else {
        proof {
            assert(s[0] == exp_view(ps@[i as int]));
            assert(s.drop_first() =~= exps_view(ps@).skip(i as int + 1));
        }
        match &ps[i] {
            Exp::Symbol(name) => {
                match param_names_from(ps, i + 1) {
                    Some(rest) => {
                        let mut v: Vec<String> = Vec::new();
                        v.push(name.clone());
                        let mut rest = rest;
                        v.append(&mut rest);
                        proof {
                            let names = spec_param_names(s.drop_first())->Some_0;
                            assert(v.deep_view() =~= seq![name@] + names);
                        }
                        Some(v)
                    },
                    None => None,
                }
            },
            _ => None,
        }
    }
}

impl Lambda {
    /// A lambda from its parameter names and body expressions.
    pub fn new(args: Vec<String>, body: Vec<Exp>) -> (r: Lambda)
        ensures
            r@ == (LambdaV { params: args.deep_view(), body: exps_view(body@) }),
    {
        let r = Lambda { args, body };
        proof {
            crate::exp::lemma_exp_vec_view(r.body);
            assert(r@.params =~= r.args.deep_view());
            assert(r@ =~= (LambdaV { params: r.args.deep_view(), body: exps_view(r.body@) }));
        }
        r
    }

    /// Reads `(params...) body...` out of a macro argument run: the first
    /// entry must be a vector of symbols, the rest become the body.
    pub fn from_list(args: &Vec<Exp>, start: usize) -> (r: Result<Lambda, LispError>)
        requires
            start < args@.len(),
        ensures
            ({
                let s = exps_view(args@).skip(start as int);
                match s[0] {
                    ExpV::Vector(ps) => match spec_param_names(ps) {
                        Some(names) => r matches Ok(lam) && lam@ == (LambdaV {
                            params: names,
                            body: s.drop_first(),
                        }),
                        None => r matches Err(e) && e@ == ErrV::MalformedForm(MacroKind::Lam),
                    },
                    _ => r matches Err(e) && e@ == ErrV::MalformedForm(MacroKind::Lam),
                }
            }),
    {
        let ghost s = exps_view(args@).skip(start as int);
        let n = args.len();
        proof {
            assert(start < n);
            assert(s[0] == exp_view(args@[start as int]));
        }
        match &args[start] {
            Exp::Vector(ps) => {
                proof {
                    crate::exp::lemma_exp_vec_view(*ps);
                    assert(exps_view(ps@).skip(0) =~= exps_view(ps@));
                }
                match param_names_from(ps, 0) {
                    Some(names) => {
                        let body = crate::exp::duplicate_from(args, start + 1);
                        let lam = Lambda::new(names, body);
                        proof {
                            assert(s.drop_first() =~= exps_view(args@).skip(start as int + 1));
                            assert(lam@ =~= (LambdaV {
                                params: spec_param_names(exps_view(ps@))->Some_0,
                                body: s.drop_first(),
                            }));
                        }
                        Ok(lam)
                    },
                    None => Err(LispError::MalformedForm(MacroKind::Lam)),
                }
            },
            _ => Err(LispError::MalformedForm(MacroKind::Lam)),
        }
    }

    /// Calls the lambda on already-evaluated arguments: checks arity,
    /// binds each parameter in a fresh child of the calling environment,
    /// and evaluates the body there as a sequence.
    pub fn call(
        &self,
        args: Vec<Exp>,
        env: &Arc<Env>,
        g: &mut Table,
        out: &mut Vec<String>,
        fuel: u64,
    ) -> (r: Result<Exp, LispError>)
        ensures
            ({
                let (sr, st1) = spec_call(
                    self@,
                    exps_view(args@),
                    (**env)@,
                    StateV { globals: old(g)@, out: old(out).deep_view() },
                    fuel as nat,
                );
                res_view(r) == sr && final(g)@ == st1.globals && final(out).deep_view() == st1.out
            }),
        decreases fuel, 0int, 0int,
    {
        if fuel == 0 {
            return Err(LispError::StackOverflow);
        }
        if self.args.len() != args.len() {
            proof {
                assert(self@.params.len() == self.args@.len());
                assert(exps_view(args@).len() == args@.len());
            }
            return Err(LispError::ArityMismatch);
        }
        let mut inner_env = Env::from_upper(env);
        let n = self.args.len();
        let ghost params = self@.params;
        let ghost vals = exps_view(args@);
        proof {
            assert(spec_bind(params.take(0), vals.take(0)) =~= Map::<Seq<char>, ExpV>::empty());
        }
        for k in 0..n
            invariant
                n == self.args@.len() == args@.len(),
                params == self@.params,
                vals == exps_view(args@),
                inner_env@.len() == 1 + (**env)@.len(),
                inner_env@ =~= seq![spec_bind(params.take(k as int), vals.take(k as int))] + (
                **env)@,
        {
            inner_env.insert(self.args[k].as_str(), args[k].duplicate());
            proof {
                assert(params.take(k + 1).drop_last() =~= params.take(k as int));
                assert(vals.take(k + 1).drop_last() =~= vals.take(k as int));
                assert(params.take(k + 1).last() == self.args@[k as int]@);
                assert(vals.take(k + 1).last() == exp_view(args@[k as int]));
                assert(inner_env@ =~= seq![spec_bind(params.take(k + 1), vals.take(k + 1))] + (
                **env)@);
            }
        }
        proof {
            assert(params.take(n as int) =~= params);
            assert(vals.take(n as int) =~= vals);
            assert(inner_env@ =~= seq![spec_bind(params, vals)] + (**env)@);
        }
        let inner_env = Arc::new(inner_env);
        proof {
            crate::exp::lemma_exp_vec_view(self.body);
            assert(self@.body == crate::exp::exps_view(self.body@));
        }
        crate::eval::eval_many(&self.body, &inner_env, g, out, fuel - 1)
    }
}

} // verus!
