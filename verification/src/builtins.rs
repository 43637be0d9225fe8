//! The built-in procedure table: every native procedure and macro the
//! interpreter starts with, and the dispatch that runs them.

use crate::env::Env;
use crate::err::{ErrV, LispError};
use crate::exp::{
    duplicate_from, exp_view, exps_view, kind_of, to_bool, Exp, ExpV, Kind, Lambda, MacroKind,
    Native,
};
use crate::eval::{eval, eval_many_from, st_of};
use crate::lambda::param_names_from;
use crate::semantics::{
    res_view, spec_all_eq, spec_all_truthy, spec_apply, spec_dotimes, spec_fold_add, spec_fold_mul,
    spec_fold_or, spec_fold_sub, spec_init_globals, spec_let_bind, spec_macro_expand,
    spec_render_all, spec_run_in_let, StateV,
};
use crate::table::Table;
use std::sync::Arc;
use vstd::prelude::*;

verus! {

fn fold_add(vals: &Vec<Exp>, i: usize, acc: i64) -> (r: Result<i64, LispError>)
    requires
        i <= vals@.len(),
    ensures
        match spec_fold_add(exps_view(vals@).skip(i as int), acc) {
            Ok(n) => r matches Ok(m) && m == n,
            Err(e) => r matches Err(le) && le@ == e,
        },
    decreases vals@.len() - i,
{
    let ghost s = exps_view(vals@).skip(i as int);
    if i == vals.len() {
        Ok(acc)
    } else {
        proof {
            assert(s[0] == exp_view(vals@[i as int]));
            assert(s.drop_first() =~= exps_view(vals@).skip(i as int + 1));
        }
        match &vals[i] {
            Exp::Num(n) => fold_add(vals, i + 1, acc.wrapping_add(*n)),
            x => Err(LispError::TypeMismatch(Kind::Num, kind_of(x))),
        }
    }
}

fn fold_sub(vals: &Vec<Exp>, i: usize, acc: i64) -> (r: Result<i64, LispError>)
    requires
        i <= vals@.len(),
    ensures
        match spec_fold_sub(exps_view(vals@).skip(i as int), acc) {
            Ok(n) => r matches Ok(m) && m == n,
            Err(e) => r matches Err(le) && le@ == e,
        },
    decreases vals@.len() - i,
{
    let ghost s = exps_view(vals@).skip(i as int);
    if i == vals.len() {
        Ok(acc)
    } else {
        proof {
            assert(s[0] == exp_view(vals@[i as int]));
            assert(s.drop_first() =~= exps_view(vals@).skip(i as int + 1));
        }
        match &vals[i] {
            Exp::Num(n) => fold_sub(vals, i + 1, acc.wrapping_sub(*n)),
            x => Err(LispError::TypeMismatch(Kind::Num, kind_of(x))),
        }
    }
}

fn fold_mul(vals: &Vec<Exp>, i: usize, acc: i64) -> (r: Result<i64, LispError>)
    requires
        i <= vals@.len(),
    ensures
        match spec_fold_mul(exps_view(vals@).skip(i as int), acc) {
            Ok(n) => r matches Ok(m) && m == n,
            Err(e) => r matches Err(le) && le@ == e,
        },
    decreases vals@.len() - i,
{
    let ghost s = exps_view(vals@).skip(i as int);
    if i == vals.len() {
        Ok(acc)
    } else {
        proof {
            assert(s[0] == exp_view(vals@[i as int]));
            assert(s.drop_first() =~= exps_view(vals@).skip(i as int + 1));
        }
        match &vals[i] {
            Exp::Num(n) => fold_mul(vals, i + 1, acc.wrapping_mul(*n)),
            x => Err(LispError::TypeMismatch(Kind::Num, kind_of(x))),
        }
    }
}

fn eq_walk(vals: &Vec<Exp>, i: usize, first: i64) -> (r: Result<bool, LispError>)
    requires
        i <= vals@.len(),
    ensures
        match spec_all_eq(exps_view(vals@).skip(i as int), first) {
            Ok(b) => r matches Ok(rb) && rb == b,
            Err(e) => r matches Err(le) && le@ == e,
        },
    decreases vals@.len() - i,
{
    let ghost s = exps_view(vals@).skip(i as int);
    if i == vals.len() {
        Ok(true)
    } else {
        proof {
            assert(s[0] == exp_view(vals@[i as int]));
            assert(s.drop_first() =~= exps_view(vals@).skip(i as int + 1));
        }
        match &vals[i] {
            Exp::Num(n) => {
                if *n != first {
                    Ok(false)
                } else {
                    eq_walk(vals, i + 1, first)
                }
            },
            x => Err(LispError::TypeMismatch(Kind::Num, kind_of(x))),
        }
    }
}

fn or_walk(vals: &Vec<Exp>, i: usize) -> (r: bool)
    requires
        i <= vals@.len(),
    ensures
        r == spec_fold_or(exps_view(vals@).skip(i as int)),
    decreases vals@.len() - i,
{
    let ghost s = exps_view(vals@).skip(i as int);
    if i == vals.len() {
        false
    } else {
        proof {
            assert(s[0] == exp_view(vals@[i as int]));
            assert(s.drop_first() =~= exps_view(vals@).skip(i as int + 1));
        }
        if to_bool(&vals[i]) {
            true
        } else {
            or_walk(vals, i + 1)
        }
    }
}

fn truthy_walk(vals: &Vec<Exp>, i: usize) -> (r: bool)
    requires
        i <= vals@.len(),
    ensures
        r == spec_all_truthy(exps_view(vals@).skip(i as int)),
    decreases vals@.len() - i,
{
    let ghost s = exps_view(vals@).skip(i as int);
    if i == vals.len() {
        true
    } else {
        proof {
            assert(s[0] == exp_view(vals@[i as int]));
            assert(s.drop_first() =~= exps_view(vals@).skip(i as int + 1));
        }
        if to_bool(&vals[i]) {
            truthy_walk(vals, i + 1)
        } else {
            false
        }
    }
}

/// Runs the lambda once for each count from `i` below `times`, in order.
fn run_dotimes(
    lam: &Lambda,
    i: i64,
    times: i64,
    env: &Arc<Env>,
    g: &mut Table,
    out: &mut Vec<String>,
    fuel: u64,
) -> (r: Result<Exp, LispError>)
    ensures
        ({
            let (sr, st1) = spec_dotimes(
                lam@,
                i as int,
                times as int,
                (**env)@,
                st_of(old(g)@, old(out).deep_view()),
                fuel as nat,
            );
            res_view(r) == sr && final(g)@ == st1.globals && final(out).deep_view() == st1.out
        }),
    decreases fuel, times - i, 0int,
{
    if fuel == 0 {
        return Err(LispError::StackOverflow);
    }
    if i >= times {
        return Ok(Exp::List(None));
    }
    let mut args: Vec<Exp> = Vec::new();
    args.push(Exp::Num(i));
    proof {
        assert(exps_view(args@) =~= seq![ExpV::Num(i)]);
    }
    match lam.call(args, env, g, out, fuel - 1) {
        Err(e) => Err(e),
        Ok(_) => run_dotimes(lam, i + 1, times, env, g, out, fuel),
    }
}

/// Invokes a native procedure on already-evaluated arguments.
pub(crate) fn apply_native(
    f: Native,
    vals: &Vec<Exp>,
    env: &Arc<Env>,
    g: &mut Table,
    out: &mut Vec<String>,
    fuel: u64,
) -> (r: Result<Exp, LispError>)
    ensures
        ({
            let (sr, st1) = spec_apply(
                f,
                exps_view(vals@),
                (**env)@,
                st_of(old(g)@, old(out).deep_view()),
                fuel as nat,
            );
            res_view(r) == sr && final(g)@ == st1.globals && final(out).deep_view() == st1.out
        }),
    decreases fuel, 0int, 0int,
{
    let ghost vv = exps_view(vals@);
    proof {
        assert(vv.skip(0) =~= vv);
        if vals@.len() > 0 {
            assert(vv[0] == exp_view(vals@[0]));
            assert(vv.skip(1) =~= vv.drop_first());
        }
    }
    if fuel == 0 {
        return Err(LispError::StackOverflow);
    }
    match f {
        Native::Add => {
            match fold_add(vals, 0, 0) {
                Ok(n) => Ok(Exp::Num(n)),
                Err(e) => Err(e),
            }
        },
        Native::Sub => {
            if vals.len() == 0 {
                return Err(LispError::ArityMismatch);
            }
            match &vals[0] {
                Exp::Num(first) => {
                    match fold_sub(vals, 1, *first) {
                        Ok(n) => Ok(Exp::Num(n)),
                        Err(e) => Err(e),
                    }
                },
                x => Err(LispError::TypeMismatch(Kind::Num, kind_of(x))),
            }
        },
        Native::Mul => {
            match fold_mul(vals, 0, 1) {
                Ok(n) => Ok(Exp::Num(n)),
                Err(e) => Err(e),
            }
        },
        Native::NumEq => {
            if vals.len() == 0 {
                return Err(LispError::ArityMismatch);
            }
            match &vals[0] {
                Exp::Num(first) => {
                    match eq_walk(vals, 0, *first) {
                        Ok(b) => Ok(Exp::Bool(b)),
                        Err(e) => Err(e),
                    }
                },
                x => Err(LispError::TypeMismatch(Kind::Num, kind_of(x))),
            }
        },
        Native::Or => {
            if vals.len() == 0 {
                return Err(LispError::ArityMismatch);
            }
            Ok(Exp::Bool(or_walk(vals, 0)))
        },
        Native::Car => {
            if vals.len() != 1 {
                return Err(LispError::ArityMismatch);
            }
            match &vals[0] {
                Exp::List(None) => Ok(Exp::List(None)),
                Exp::List(Some(c)) => Ok(c.car.duplicate()),
                x => Err(LispError::TypeMismatch(Kind::List, kind_of(x))),
            }
        },
        Native::Cdr => {
            if vals.len() != 1 {
                return Err(LispError::ArityMismatch);
            }
            match &vals[0] {
                Exp::List(None) => Ok(Exp::List(None)),
                Exp::List(Some(c)) => Ok(c.cdr.duplicate()),
                x => Err(LispError::TypeMismatch(Kind::List, kind_of(x))),
            }
        },
        Native::ConsCells => {
            if vals.len() != 2 {
                return Err(LispError::ArityMismatch);
            }
            let cell = crate::exp::Cons { car: vals[0].duplicate(), cdr: vals[1].duplicate() };
            Ok(Exp::List(Some(Arc::new(cell))))
        },
        Native::ListOf => {
            let r = Exp::List(crate::list::list_from_slice(vals.as_slice()));
            Ok(r)
        },
        Native::Print => {
            let n = vals.len();
            let ghost out0 = out.deep_view();
            for i in 0..n
                invariant
                    n == vals@.len(),
                    vv == exps_view(vals@),
                    out.deep_view() =~= out0 + Seq::new(i as nat, |k: int| crate::render::spec_render(vv[k])),
            {
                let ghost prev_deep = out.deep_view();
                let line = crate::render::render(&vals[i]);
                let ghost linev = line@;
                out.push(line);
                proof {
                    assert(out.deep_view() =~= prev_deep.push(linev));
                    assert(linev == crate::render::spec_render(vv[i as int]));
                    assert(out.deep_view() =~= out0 + Seq::new(
                        (i + 1) as nat,
                        |k: int| crate::render::spec_render(vv[k]),
                    ));
                }
            }
            proof {
                assert(out.deep_view() =~= out0 + spec_render_all(vv));
            }
            let r: Vec<Exp> = Vec::new();
            proof {
                crate::exp::lemma_exp_vec_view(r);
                assert(exps_view(r@) =~= Seq::<ExpV>::empty());
                assert(exp_view(Exp::Vector(r)) =~= ExpV::Vector(Seq::<ExpV>::empty()));
            }
            Ok(Exp::Vector(r))
        },
        Native::Assert => {
            if truthy_walk(vals, 0) {
                Ok(Exp::List(None))
            } else {
                Err(LispError::AssertionFailed)
            }
        },
        Native::Dotimes => {
            if vals.len() != 2 {
                return Err(LispError::ArityMismatch);
            }
            proof {
                assert(vv[1] == exp_view(vals@[1]));
            }
            match &vals[0] {
                Exp::Num(times) => {
                    match &vals[1] {
                        Exp::Lambda(l) => run_dotimes(l, 0, *times, env, g, out, fuel - 1),
                        x => Err(LispError::TypeMismatch(Kind::Lambda, kind_of(x))),
                    }
                },
                x => Err(LispError::TypeMismatch(Kind::Num, kind_of(x))),
            }
        },
    }
}

/// Evaluates `let` initializers left to right in the outer environment,
/// inserting each binding into the one fresh scope they all inhabit.
fn let_bind(
    bs: &Vec<Exp>,
    i: usize,
    outer: &Arc<Env>,
    let_env: &mut Env,
    g: &mut Table,
    out: &mut Vec<String>,
    fuel: u64,
) -> (r: Result<(), LispError>)
    requires
        i <= bs@.len(),
        old(let_env)@.len() >= 1,
    ensures
        ({
            let (sr, st1) = spec_let_bind(
                exps_view(bs@).skip(i as int),
                (**outer)@,
                st_of(old(g)@, old(out).deep_view()),
                fuel as nat,
                old(let_env)@[0],
            );
            (match r {
                Ok(_) => sr matches Ok(frame) && final(let_env)@ == old(let_env)@.update(0, frame),
                Err(e) => sr matches Err(se) && e@ == se,
            }) && final(g)@ == st1.globals && final(out).deep_view() == st1.out
        }),
    decreases fuel, bs@.len() - i, 0int,
{
    let ghost s = exps_view(bs@).skip(i as int);
    if fuel == 0 {
        return Err(LispError::StackOverflow);
    }
    if i == bs.len() {
        proof {
            assert(let_env@.update(0, let_env@[0]) =~= let_env@);
        }
        return Ok(());
    }
    proof {
        assert(s[0] == exp_view(bs@[i as int]));
        assert(s.drop_first() =~= exps_view(bs@).skip(i as int + 1));
    }
    match &bs[i] {
        Exp::Vector(pair) => {
            proof {
                crate::exp::lemma_exp_vec_view(*pair);
                if pair@.len() == 2 {
                    assert(exps_view(pair@)[0] == exp_view(pair@[0]));
                    assert(exps_view(pair@)[1] == exp_view(pair@[1]));
                }
            }
            if pair.len() != 2 {
                return Err(LispError::MalformedForm(MacroKind::Let));
            }
            match &pair[0] {
                Exp::Symbol(name) => {
                    match eval(&pair[1], outer, g, out, fuel - 1) {
                        Err(e) => Err(e),
                        Ok(v) => {
                            let_env.insert(name.as_str(), v);
                            let ghost mid = let_env@;
                            let ghost stmid = st_of(g@, out.deep_view());
                            let r = let_bind(bs, i + 1, outer, let_env, g, out, fuel);
                            proof {
                                let (sr, _) = spec_let_bind(
                                    s.drop_first(),
                                    (**outer)@,
                                    stmid,
                                    fuel as nat,
                                    mid[0],
                                );
                                assert(mid[0] == old(let_env)@[0].insert(name@, exp_view(v)));
                                if r is Ok && sr is Ok {
                                    assert(let_env@ =~= old(let_env)@.update(0, sr->Ok_0));
                                }
                            }
                            r
                        },
                    }
                },
                _ => Err(LispError::MalformedForm(MacroKind::Let)),
            }
        },
        _ => Err(LispError::MalformedForm(MacroKind::Let)),
    }
}

/// The whole of a `let`: checks the binding grammar, evaluates the
/// initializers in the outer environment, then runs the body in the one
/// new scope.
fn run_in_let(
    bindings: &Exp,
    form: &Vec<Exp>,
    bstart: usize,
    env: &Arc<Env>,
    g: &mut Table,
    out: &mut Vec<String>,
    fuel: u64,
) -> (r: Result<Exp, LispError>)
    requires
        bstart <= form@.len(),
    ensures
        ({
            let (sr, st1) = spec_run_in_let(
                bindings@,
                exps_view(form@).skip(bstart as int),
                (**env)@,
                st_of(old(g)@, old(out).deep_view()),
                fuel as nat,
            );
            res_view(r) == sr && final(g)@ == st1.globals && final(out).deep_view() == st1.out
        }),
    decreases fuel, 0int, 0int,
{
    if fuel == 0 {
        return Err(LispError::StackOverflow);
    }
    match bindings {
        Exp::Vector(bs) => {
            proof {
                crate::exp::lemma_exp_vec_view(*bs);
                assert(exps_view(bs@).skip(0) =~= exps_view(bs@));
            }
            let mut let_env = Env::from_upper(env);
            match let_bind(bs, 0, env, &mut let_env, g, out, fuel - 1) {
                Err(e) => Err(e),
                Ok(_) => {
                    proof {
                        let (sr, _) = spec_let_bind(
                            exps_view(bs@),
                            (**env)@,
                            st_of(old(g)@, old(out).deep_view()),
                            (fuel - 1) as nat,
                            Map::empty(),
                        );
                        if sr is Ok {
                            assert(let_env@ =~= seq![sr->Ok_0] + (**env)@);
                        }
                    }
                    let let_env = Arc::new(let_env);
                    eval_many_from(form, bstart, &let_env, g, out, fuel - 1)
                },
            }
        },
        _ => Err(LispError::MalformedForm(MacroKind::Let)),
    }
}

/// Expands one macro call: what the form becomes, with whatever effects
/// expansion itself performs.
pub(crate) fn macro_expand(
    macr: MacroKind,
    form: &Vec<Exp>,
    start: usize,
    env: &Arc<Env>,
    g: &mut Table,
    out: &mut Vec<String>,
    fuel: u64,
) -> (r: Result<Vec<Exp>, LispError>)
    requires
        start <= form@.len(),
    ensures
        ({
            let (sr, st1) = spec_macro_expand(
                macr,
                exps_view(form@).skip(start as int),
                (**env)@,
                st_of(old(g)@, old(out).deep_view()),
                fuel as nat,
            );
            (match r {
                Ok(v) => sr matches Ok(es) && exps_view(v@) == es,
                Err(e) => sr matches Err(se) && e@ == se,
            }) && final(g)@ == st1.globals && final(out).deep_view() == st1.out
        }),
    decreases fuel, 0int, 0int,
{
    let ghost s = exps_view(form@).skip(start as int);
    if fuel == 0 {
        return Err(LispError::StackOverflow);
    }
    let count = form.len() - start;
    proof {
        assert(s.len() == count);
        if count > 0 {
            assert(s[0] == exp_view(form@[start as int]));
        }
        if count > 1 {
            assert(s[1] == exp_view(form@[start as int + 1]));
        }
        if count > 2 {
            assert(s[2] == exp_view(form@[start as int + 2]));
        }
    }
    match macr {
        MacroKind::Progn => {
            let r = duplicate_from(form, start);
            Ok(r)
        },
        MacroKind::If => {
            if count != 3 {
                return Err(LispError::ArityMismatch);
            }
            match eval(&form[start], env, g, out, fuel - 1) {
                Err(e) => Err(e),
                Ok(c) => {
                    if to_bool(&c) {
                        let mut r: Vec<Exp> = Vec::new();
                        r.push(form[start + 1].duplicate());
                        proof {
                            assert(exps_view(r@) =~= seq![s[1]]);
                        }
                        Ok(r)
                    } else {
                        let mut r: Vec<Exp> = Vec::new();
                        r.push(form[start + 2].duplicate());
                        proof {
                            assert(exps_view(r@) =~= seq![s[2]]);
                        }
                        Ok(r)
                    }
                },
            }
        },
        MacroKind::Def => {
            if count != 2 {
                return Err(LispError::ArityMismatch);
            }
            match crate::env::set_global(&form[start], &form[start + 1], g, out, fuel - 1) {
                Err(e) => Err(e),
                Ok(_) => {
                    let r: Vec<Exp> = Vec::new();
                    proof {
                        assert(exps_view(r@) =~= Seq::<ExpV>::empty());
                    }
                    Ok(r)
                },
            }
        },
        MacroKind::Defun => {
            if count < 2 {
                return Err(LispError::MalformedForm(MacroKind::Defun));
            }
            match &form[start + 1] {
                Exp::Vector(ps) => {
                    proof {
                        crate::exp::lemma_exp_vec_view(*ps);
                        assert(exps_view(ps@).skip(0) =~= exps_view(ps@));
                    }
                    match param_names_from(ps, 0) {
                        Some(names) => {
                            let body = duplicate_from(form, start + 2);
                            let lam = Lambda::new(names, body);
                            proof {
                                assert(s.skip(2) =~= exps_view(form@).skip(start as int + 2));
                            }
                            match crate::env::set_global(
                                &form[start],
                                &Exp::Lambda(lam),
                                g,
                                out,
                                fuel - 1,
                            ) {
                                Err(e) => Err(e),
                                Ok(_) => {
                                    let r: Vec<Exp> = Vec::new();
                                    proof {
                                        assert(exps_view(r@) =~= Seq::<ExpV>::empty());
                                    }
                                    Ok(r)
                                },
                            }
                        },
                        None => Err(LispError::MalformedForm(MacroKind::Defun)),
                    }
                },
                _ => Err(LispError::MalformedForm(MacroKind::Defun)),
            }
        },
        MacroKind::Lam => {
            if count < 1 {
                return Err(LispError::MalformedForm(MacroKind::Lam));
            }
            match Lambda::from_list(form, start) {
                Err(e) => Err(e),
                Ok(lam) => {
                    let mut r: Vec<Exp> = Vec::new();
                    r.push(Exp::Lambda(lam));
                    proof {
                        assert(exps_view(r@) =~= seq![exp_view(r@[0])]);
                    }
                    Ok(r)
                },
            }
        },
        MacroKind::Let => {
            if count < 2 {
                return Err(LispError::ArityMismatch);
            }
            proof {
                assert(s.drop_first() =~= exps_view(form@).skip(start as int + 1));
            }
            match run_in_let(&form[start], form, start + 1, env, g, out, fuel - 1) {
                Err(e) => Err(e),
                Ok(res) => {
                    let mut r: Vec<Exp> = Vec::new();
                    r.push(res);
                    proof {
                        assert(exps_view(r@) =~= seq![exp_view(r@[0])]);
                    }
                    Ok(r)
                },
            }
        },
    }
}

/// The global table the interpreter starts with: every built-in procedure
/// and macro under its surface name, with `nil`, `true` and `false`.
pub fn init_toplevel() -> (t: Table)
    ensures
        t@ == spec_init_globals(),
{
    let mut env = Table::new();
    env.insert("+", Exp::Func(Native::Add));
    env.insert("-", Exp::Func(Native::Sub));
    env.insert("nil", Exp::List(None));
    env.insert("false", Exp::Bool(false));
    env.insert("true", Exp::Bool(true));
    env.insert("*", Exp::Func(Native::Mul));
    env.insert("print", Exp::Func(Native::Print));
    env.insert("progn", Exp::Macro(MacroKind::Progn));
    env.insert("dotimes", Exp::Func(Native::Dotimes));
    env.insert("def", Exp::Macro(MacroKind::Def));
    env.insert("let", Exp::Macro(MacroKind::Let));
    env.insert("assert", Exp::Func(Native::Assert));
    env.insert("cons", Exp::Func(Native::ConsCells));
    env.insert("list", Exp::Func(Native::ListOf));
    env.insert("car", Exp::Func(Native::Car));
    env.insert("cdr", Exp::Func(Native::Cdr));
    env.insert("defun", Exp::Macro(MacroKind::Defun));
    env.insert("if", Exp::Macro(MacroKind::If));
    env.insert("or", Exp::Func(Native::Or));
    env.insert("=", Exp::Func(Native::NumEq));
    env.insert("lambda", Exp::Macro(MacroKind::Lam));
    proof {
        assert(env@ =~= spec_init_globals());
    }
    env
}

} // verus!
