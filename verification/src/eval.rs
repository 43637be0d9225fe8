//! The evaluator: dispatches an expression to a value against a chain of
//! scopes, a global table, and an output log, within a depth budget.

use crate::builtins::apply_native;
use crate::env::Env;
use crate::err::LispError;
use crate::exp::{exp_view, exps_view, Exp, ExpV, Lambda, MacroKind, Native};
use crate::semantics::{
    res_view, spec_eval, spec_eval_args, spec_eval_seq, spec_fun_call, spec_lambda_call,
    spec_macro_call, StateV,
};
use crate::table::Table;
use std::sync::Arc;
use vstd::prelude::*;

verus! {

/// The world as the ghost state sees it.
pub open spec fn st_of(g: Map<Seq<char>, ExpV>, out: Seq<Seq<char>>) -> StateV {
    StateV { globals: g, out }
}

/// Evaluates one expression. Atoms evaluate to themselves, symbols resolve
/// through the environment, and a non-empty vector form calls whatever its
/// head symbol names: a native procedure, a lambda, or a macro.
pub fn eval(exp: &Exp, env: &Arc<Env>, g: &mut Table, out: &mut Vec<String>, fuel: u64) -> (r:
    Result<Exp, LispError>)
    ensures
        ({
            let (sr, st1) = spec_eval(
                exp@,
                (**env)@,
                st_of(old(g)@, old(out).deep_view()),
                fuel as nat,
            );
            res_view(r) == sr && final(g)@ == st1.globals && final(out).deep_view() == st1.out
        }),
    decreases fuel, 0int, 0int,
{
    if fuel == 0 {
        return Err(LispError::StackOverflow);
    }
    match exp {
        Exp::Symbol(s) => env.get(s.as_str(), g),
        Exp::Vector(v) => {
            proof {
                crate::exp::lemma_exp_vec_view(*v);
            }
            if v.len() == 0 {
                // the literal empty form is the canonical falsy nil
                return Ok(Exp::List(None));
            }
            proof {
                assert(exps_view(v@)[0] == exp_view(v@[0]));
                assert(exps_view(v@).skip(1) =~= exps_view(v@).drop_first());
            }
            match &v[0] {
                Exp::Symbol(name) => {
                    match env.get(name.as_str(), g) {
                        Err(e) => Err(e),
                        Ok(head) => match head {
                            Exp::Func(f) => eval_fun_call(f, v, 1, env, g, out, fuel - 1),
                            Exp::Lambda(lam) => eval_lambda_call(
                                &lam,
                                v,
                                1,
                                env,
                                g,
                                out,
                                fuel - 1,
                            ),
                            Exp::Macro(m) => eval_macro(m, v, 1, env, g, out, fuel - 1),
                            _ => Err(LispError::NotCallable),
                        },
                    }
                },
                _ => Err(LispError::NotCallable),
            }
        },
        other => Ok(other.duplicate()),
    }
}

/// Evaluates the argument expressions `form[start..]` left to right,
/// collecting their values; the first failure stops the walk.
fn eval_args(
    form: &Vec<Exp>,
    start: usize,
    env: &Arc<Env>,
    g: &mut Table,
    out: &mut Vec<String>,
    fuel: u64,
) -> (r: Result<Vec<Exp>, LispError>)
    requires
        start <= form@.len(),
    ensures
        ({
            let (sr, st1) = spec_eval_args(
                exps_view(form@).skip(start as int),
                (**env)@,
                st_of(old(g)@, old(out).deep_view()),
                fuel as nat,
            );
            (match r {
                Ok(v) => sr matches Ok(vs) && exps_view(v@) == vs,
                Err(e) => sr matches Err(se) && e@ == se,
            }) && final(g)@ == st1.globals && final(out).deep_view() == st1.out
        }),
    decreases fuel, form@.len() - start, 0int,
{
    let ghost s = exps_view(form@).skip(start as int);
    if fuel == 0 {
        return Err(LispError::StackOverflow);
    }
    if start == form.len() {
        let r: Vec<Exp> = Vec::new();
        proof {
            assert(exps_view(r@) =~= Seq::<ExpV>::empty());
        }
        return Ok(r);
    }
    proof {
        assert(s[0] == exp_view(form@[start as int]));
        assert(s.drop_first() =~= exps_view(form@).skip(start as int + 1));
    }
    match eval(&form[start], env, g, out, fuel - 1) {
        Err(e) => Err(e),
        Ok(v0) => {
            match eval_args(form, start + 1, env, g, out, fuel) {
                Err(e) => Err(e),
                Ok(vs) => {
                    let mut vs = vs;
                    vs.insert(0, v0);
                    proof {
                        let (sr, _) = spec_eval_args(
                            s,
                            (**env)@,
                            st_of(old(g)@, old(out).deep_view()),
                            fuel as nat,
                        );
                        if sr is Ok {
                            assert(exps_view(vs@) =~= sr->Ok_0);
                        }
                    }
                    Ok(vs)
                },
            }
        },
    }
}

/// Evaluates `form[start..]` in order for effect, keeping only the final
/// result; the empty run yields the empty list, nil.
pub(crate) fn eval_many_from(
    form: &Vec<Exp>,
    start: usize,
    env: &Arc<Env>,
    g: &mut Table,
    out: &mut Vec<String>,
    fuel: u64,
) -> (r: Result<Exp, LispError>)
    requires
        start <= form@.len(),
    ensures
        ({
            let (sr, st1) = spec_eval_seq(
                exps_view(form@).skip(start as int),
                (**env)@,
                st_of(old(g)@, old(out).deep_view()),
                fuel as nat,
            );
            res_view(r) == sr && final(g)@ == st1.globals && final(out).deep_view() == st1.out
        }),
    decreases fuel, form@.len() - start, 0int,
{
    let ghost s = exps_view(form@).skip(start as int);
    if fuel == 0 {
        return Err(LispError::StackOverflow);
    }
    if start == form.len() {
        return Ok(Exp::List(None));
    }
    proof {
        assert(s[0] == exp_view(form@[start as int]));
        assert(s.drop_first() =~= exps_view(form@).skip(start as int + 1));
    }
    let r0 = eval(&form[start], env, g, out, fuel - 1);
    if start + 1 == form.len() {
        r0
    } else {
        match r0 {
            Err(e) => Err(e),
            Ok(_) => eval_many_from(form, start + 1, env, g, out, fuel),
        }
    }
}

/// Evaluates a run of expressions in order, keeping only the final result.
/// This is the evaluation rule for lambda bodies and macro expansions.
pub fn eval_many(
    exps: &Vec<Exp>,
    env: &Arc<Env>,
    g: &mut Table,
    out: &mut Vec<String>,
    fuel: u64,
) -> (r: Result<Exp, LispError>)
    ensures
        ({
            let (sr, st1) = spec_eval_seq(
                exps_view(exps@),
                (**env)@,
                st_of(old(g)@, old(out).deep_view()),
                fuel as nat,
            );
            res_view(r) == sr && final(g)@ == st1.globals && final(out).deep_view() == st1.out
        }),
    decreases fuel, exps@.len(), 1int,
{
    proof {
        assert(exps_view(exps@).skip(0) =~= exps_view(exps@));
    }
    eval_many_from(exps, 0, env, g, out, fuel)
}

/// A native-procedure call: evaluates `form[start..]` as arguments, then
/// invokes the procedure on the values.
fn eval_fun_call(
    func: Native,
    form: &Vec<Exp>,
    start: usize,
    env: &Arc<Env>,
    g: &mut Table,
    out: &mut Vec<String>,
    fuel: u64,
) -> (r: Result<Exp, LispError>)
    requires
        start <= form@.len(),
    ensures
        ({
            let (sr, st1) = spec_fun_call(
                func,
                exps_view(form@).skip(start as int),
                (**env)@,
                st_of(old(g)@, old(out).deep_view()),
                fuel as nat,
            );
            res_view(r) == sr && final(g)@ == st1.globals && final(out).deep_view() == st1.out
        }),
    decreases fuel, form@.len() - start, 1int,
{
    if fuel == 0 {
        return Err(LispError::StackOverflow);
    }
    match eval_args(form, start, env, g, out, fuel) {
        Err(e) => Err(e),
        Ok(vals) => apply_native(func, &vals, env, g, out, fuel - 1),
    }
}

/// A lambda call: evaluates `form[start..]` as arguments (call-by-value),
/// then invokes the lambda.
fn eval_lambda_call(
    lambda: &Lambda,
    form: &Vec<Exp>,
    start: usize,
    env: &Arc<Env>,
    g: &mut Table,
    out: &mut Vec<String>,
    fuel: u64,
) -> (r: Result<Exp, LispError>)
    requires
        start <= form@.len(),
    ensures
        ({
            let (sr, st1) = spec_lambda_call(
                lambda@,
                exps_view(form@).skip(start as int),
                (**env)@,
                st_of(old(g)@, old(out).deep_view()),
                fuel as nat,
            );
            res_view(r) == sr && final(g)@ == st1.globals && final(out).deep_view() == st1.out
        }),
    decreases fuel, form@.len() - start, 1int,
{
    if fuel == 0 {
        return Err(LispError::StackOverflow);
    }
    match eval_args(form, start, env, g, out, fuel) {
        Err(e) => Err(e),
        Ok(vals) => lambda.call(vals, env, g, out, fuel - 1),
    }
}

/// A macro call: hands `form[start..]` to the macro unevaluated, then
/// evaluates the returned replacement expressions as a sequence.
fn eval_macro(
    macr: MacroKind,
    form: &Vec<Exp>,
    start: usize,
    env: &Arc<Env>,
    g: &mut Table,
    out: &mut Vec<String>,
    fuel: u64,
) -> (r: Result<Exp, LispError>)
    requires
        start <= form@.len(),
    ensures
        ({
            let (sr, st1) = spec_macro_call(
                macr,
                exps_view(form@).skip(start as int),
                (**env)@,
                st_of(old(g)@, old(out).deep_view()),
                fuel as nat,
            );
            res_view(r) == sr && final(g)@ == st1.globals && final(out).deep_view() == st1.out
        }),
    decreases fuel, 0int, 0int,
{
    if fuel == 0 {
        return Err(LispError::StackOverflow);
    }
    match crate::builtins::macro_expand(macr, form, start, env, g, out, fuel - 1) {
        Err(e) => Err(e),
        Ok(expansion) => eval_many(&expansion, env, g, out, fuel - 1),
    }
}

} // verus!
