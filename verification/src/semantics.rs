//! The meaning of evaluation: a depth-indexed, state-passing definition of
//! the evaluator. Every executable evaluation function is proved to return
//! exactly what these functions say.
//!
//! The `fuel` argument bounds how deeply evaluation may nest; it models the
//! call stack. When it runs out the result is `StackOverflow`, the fatal
//! outcome a non-terminating recursion has on a real stack.

use crate::env::{spec_lookup, EnvV};
use crate::err::ErrV;
use crate::exp::{spec_kind, spec_to_bool, ExpV, Kind, LambdaV, MacroKind, Native};
use crate::list::spec_list_of;
use crate::render::spec_render;
use vstd::prelude::*;

verus! {

/// The mutable world evaluation threads through: the global table and the
/// text printed so far.
#[verifier::ext_equal]
pub struct StateV {
    pub globals: Map<Seq<char>, ExpV>,
    pub out: Seq<Seq<char>>,
}

/// The frame a lambda call binds: parameters zipped with argument values,
/// a later duplicate parameter shadowing an earlier one.
pub open spec fn spec_bind(params: Seq<Seq<char>>, vals: Seq<ExpV>) -> Map<Seq<char>, ExpV>
    decreases params.len(),
{
    if params.len() == 0 || vals.len() == 0 {
        Map::empty()
    } else {
        spec_bind(params.drop_last(), vals.drop_last()).insert(params.last(), vals.last())
    }
}

/// The parameter names of a lambda list, provided every entry is a symbol.
pub open spec fn spec_param_names(ps: Seq<ExpV>) -> Option<Seq<Seq<char>>>
    decreases ps.len(),
{
    if ps.len() == 0 {
        Some(Seq::empty())
    } else {
        match ps[0] {
            ExpV::Symbol(name) => match spec_param_names(ps.drop_first()) {
                Some(rest) => Some(seq![name] + rest),
                None => None,
            },
            _ => None,
        }
    }
}

/// The left fold of wrapping addition over arguments, all of which must be
/// numbers.
pub open spec fn spec_fold_add(vals: Seq<ExpV>, acc: i64) -> Result<i64, ErrV>
    decreases vals.len(),
{
    if vals.len() == 0 {
        Ok(acc)
    } else {
        match vals[0] {
            ExpV::Num(n) => spec_fold_add(
                vals.drop_first(),
                vstd::wrapping::i64_specs::wrapping_add(acc, n),
            ),
            x => Err(ErrV::TypeMismatch(Kind::Num, spec_kind(x))),
        }
    }
}

/// The left fold of wrapping subtraction over arguments.
pub open spec fn spec_fold_sub(vals: Seq<ExpV>, acc: i64) -> Result<i64, ErrV>
    decreases vals.len(),
{
    if vals.len() == 0 {
        Ok(acc)
    } else {
        match vals[0] {
            ExpV::Num(n) => spec_fold_sub(
                vals.drop_first(),
                vstd::wrapping::i64_specs::wrapping_sub(acc, n),
            ),
            x => Err(ErrV::TypeMismatch(Kind::Num, spec_kind(x))),
        }
    }
}

/// The left fold of wrapping multiplication over arguments.
pub open spec fn spec_fold_mul(vals: Seq<ExpV>, acc: i64) -> Result<i64, ErrV>
    decreases vals.len(),
{
    if vals.len() == 0 {
        Ok(acc)
    } else {
        match vals[0] {
            ExpV::Num(n) => spec_fold_mul(
                vals.drop_first(),
                vstd::wrapping::i64_specs::wrapping_mul(acc, n),
            ),
            x => Err(ErrV::TypeMismatch(Kind::Num, spec_kind(x))),
        }
    }
}

/// Whether every argument is the number `first`; walking left to right,
/// the first differing number decides false before a later non-number can
/// be reached.
pub open spec fn spec_all_eq(vals: Seq<ExpV>, first: i64) -> Result<bool, ErrV>
    decreases vals.len(),
{
    if vals.len() == 0 {
        Ok(true)
    } else {
        match vals[0] {
            ExpV::Num(n) => if n != first {
                Ok(false)
            } else {
                spec_all_eq(vals.drop_first(), first)
            },
            x => Err(ErrV::TypeMismatch(Kind::Num, spec_kind(x))),
        }
    }
}

/// Whether some argument is truthy; arguments are already evaluated, so
/// `or` cannot short-circuit any effects.
pub open spec fn spec_fold_or(vals: Seq<ExpV>) -> bool
    decreases vals.len(),
{
    if vals.len() == 0 {
        false
    } else if spec_to_bool(vals[0]) {
        true
    } else {
        spec_fold_or(vals.drop_first())
    }
}

/// The first argument that fails a truthiness check, if any.
pub open spec fn spec_all_truthy(vals: Seq<ExpV>) -> bool
    decreases vals.len(),
{
    if vals.len() == 0 {
        true
    } else {
        spec_to_bool(vals[0]) && spec_all_truthy(vals.drop_first())
    }
}

/// The renderings of a run of values, in order.
pub open spec fn spec_render_all(vals: Seq<ExpV>) -> Seq<Seq<char>> {
    Seq::new(vals.len(), |i: int| spec_render(vals[i]))
}

/// What evaluating an expression yields, and the world it leaves behind.
pub open spec fn spec_eval(e: ExpV, env: EnvV, st: StateV, fuel: nat) -> (Result<ExpV, ErrV>,
    StateV)
    decreases fuel, 0int, 0int,
{
    if fuel == 0 {
        (Err(ErrV::StackOverflow), st)
    } else {
        match e {
            ExpV::Symbol(name) => match spec_lookup(env, st.globals, name) {
                Some(v) => (Ok(v), st),
                None => (Err(ErrV::UnboundSymbol(name)), st),
            },
            ExpV::Vector(v) => if v.len() == 0 {
                // the literal empty form is the canonical falsy nil
                (Ok(ExpV::List(None)), st)
            } else {
                match v[0] {
                    ExpV::Symbol(name) => match spec_lookup(env, st.globals, name) {
                        None => (Err(ErrV::UnboundSymbol(name)), st),
                        Some(ExpV::Func(f)) => spec_fun_call(
                            f,
                            v.drop_first(),
                            env,
                            st,
                            (fuel - 1) as nat,
                        ),
                        Some(ExpV::Lambda(l)) => spec_lambda_call(
                            l,
                            v.drop_first(),
                            env,
                            st,
                            (fuel - 1) as nat,
                        ),
                        Some(ExpV::Macro(m)) => spec_macro_call(
                            m,
                            v.drop_first(),
                            env,
                            st,
                            (fuel - 1) as nat,
                        ),
                        Some(_) => (Err(ErrV::NotCallable), st),
                    },
                    _ => (Err(ErrV::NotCallable), st),
                }
            },
            // Numbers, booleans, strings, lists, lambdas and the two
            // opaque callable kinds evaluate to themselves.
            _ => (Ok(e), st),
        }
    }
}

/// Left-to-right evaluation of a run of argument expressions, stopping at
/// the first failure.
pub open spec fn spec_eval_args(args: Seq<ExpV>, env: EnvV, st: StateV, fuel: nat) -> (Result<
    Seq<ExpV>,
    ErrV,
>, StateV)
    decreases fuel, args.len(), 0int,
{
    if fuel == 0 {
        (Err(ErrV::StackOverflow), st)
    } else if args.len() == 0 {
        (Ok(Seq::empty()), st)
    } else {
        let (r0, st1) = spec_eval(args[0], env, st, (fuel - 1) as nat);
        match r0 {
            Err(e) => (Err(e), st1),
            Ok(v) => {
                let (rr, st2) = spec_eval_args(args.drop_first(), env, st1, fuel);
                match rr {
                    Err(e) => (Err(e), st2),
                    Ok(vs) => (Ok(seq![v] + vs), st2),
                }
            },
        }
    }
}

/// Left-to-right evaluation of a run of expressions for effect, keeping
/// only the final result; the empty run yields the empty list, nil.
pub open spec fn spec_eval_seq(es: Seq<ExpV>, env: EnvV, st: StateV, fuel: nat) -> (Result<
    ExpV,
    ErrV,
>, StateV)
    decreases fuel, es.len(), 0int,
{
    if fuel == 0 {
        (Err(ErrV::StackOverflow), st)
    } else if es.len() == 0 {
        (Ok(ExpV::List(None)), st)
    } else {
        let (r0, st1) = spec_eval(es[0], env, st, (fuel - 1) as nat);
        if es.len() == 1 {
            (r0, st1)
        } else {
            match r0 {
                Err(e) => (Err(e), st1),
                Ok(_) => spec_eval_seq(es.drop_first(), env, st1, fuel),
            }
        }
    }
}

/// A native-procedure call form: arguments evaluate first, then the
/// procedure runs on the values.
pub open spec fn spec_fun_call(f: Native, args: Seq<ExpV>, env: EnvV, st: StateV, fuel: nat) -> (
    Result<ExpV, ErrV>,
    StateV,
)
    decreases fuel, args.len(), 1int,
{
    if fuel == 0 {
        (Err(ErrV::StackOverflow), st)
    } else {
        let (r, st1) = spec_eval_args(args, env, st, fuel);
        match r {
            Err(e) => (Err(e), st1),
            Ok(vals) => spec_apply(f, vals, env, st1, (fuel - 1) as nat),
        }
    }
}

/// A lambda call form: arguments evaluate first, call-by-value.
pub open spec fn spec_lambda_call(l: LambdaV, args: Seq<ExpV>, env: EnvV, st: StateV, fuel: nat) -> (
    Result<ExpV, ErrV>,
    StateV,
)
    decreases fuel, args.len(), 1int,
{
    if fuel == 0 {
        (Err(ErrV::StackOverflow), st)
    } else {
        let (r, st1) = spec_eval_args(args, env, st, fuel);
        match r {
            Err(e) => (Err(e), st1),
            Ok(vals) => spec_call(l, vals, env, st1, (fuel - 1) as nat),
        }
    }
}

/// Invocation of a lambda on already-evaluated arguments: a fresh child of
/// the *calling* environment binds the parameters; the body runs in it.
/// Nothing of any defining environment is consulted.
pub open spec fn spec_call(l: LambdaV, vals: Seq<ExpV>, env: EnvV, st: StateV, fuel: nat) -> (
    Result<ExpV, ErrV>,
    StateV,
)
    decreases fuel, 0int, 0int,
{
    if fuel == 0 {
        (Err(ErrV::StackOverflow), st)
    } else if l.params.len() != vals.len() {
        (Err(ErrV::ArityMismatch), st)
    } else {
        spec_eval_seq(l.body, seq![spec_bind(l.params, vals)] + env, st, (fuel - 1) as nat)
    }
}

/// A macro call form: the macro sees its arguments unevaluated and yields
/// replacement expressions, which then evaluate as a sequence.
pub open spec fn spec_macro_call(m: MacroKind, args: Seq<ExpV>, env: EnvV, st: StateV, fuel: nat) -> (
    Result<ExpV, ErrV>,
    StateV,
)
    decreases fuel, 0int, 1int,
{
    if fuel == 0 {
        (Err(ErrV::StackOverflow), st)
    } else {
        let (r, st1) = spec_macro_expand(m, args, env, st, (fuel - 1) as nat);
        match r {
            Err(e) => (Err(e), st1),
            Ok(exps) => spec_eval_seq(exps, env, st1, (fuel - 1) as nat),
        }
    }
}

/// What each macro expands to, with the effects expansion itself has.
pub open spec fn spec_macro_expand(m: MacroKind, args: Seq<ExpV>, env: EnvV, st: StateV, fuel: nat) -> (
    Result<Seq<ExpV>, ErrV>,
    StateV,
)
    decreases fuel, 0int, 2int,
{
    if fuel == 0 {
        (Err(ErrV::StackOverflow), st)
    } else {
        match m {
            // `progn` hands its arguments back; sequence evaluation runs
            // them in order, keeping the last.
            MacroKind::Progn => (Ok(args), st),
            // `if` evaluates the condition eagerly in the caller's
            // environment and hands back the branch the truthiness of the
            // condition picks; the other branch is never evaluated.
            MacroKind::If => if args.len() != 3 {
                (Err(ErrV::ArityMismatch), st)
            } else {
                let (rc, st1) = spec_eval(args[0], env, st, (fuel - 1) as nat);
                match rc {
                    Err(e) => (Err(e), st1),
                    Ok(c) => if spec_to_bool(c) {
                        (Ok(seq![args[1]]), st1)
                    } else {
                        (Ok(seq![args[2]]), st1)
                    },
                }
            },
            // `def` evaluates its value in a fresh, parent-less
            // environment and writes the global table.
            MacroKind::Def => if args.len() != 2 {
                (Err(ErrV::ArityMismatch), st)
            } else {
                let (r, st1) = spec_set_global(args[0], args[1], st, (fuel - 1) as nat);
                match r {
                    Err(e) => (Err(e), st1),
                    Ok(_) => (Ok(Seq::empty()), st1),
                }
            },
            // `defun` builds a lambda from its parameter vector and body
            // and performs the same global write as `def`.
            MacroKind::Defun => if args.len() < 2 {
                (Err(ErrV::MalformedForm(MacroKind::Defun)), st)
            } else {
                match args[1] {
                    ExpV::Vector(ps) => match spec_param_names(ps) {
                        Some(names) => {
                            let lam = LambdaV { params: names, body: args.skip(2) };
                            let (r, st1) = spec_set_global(
                                args[0],
                                ExpV::Lambda(lam),
                                st,
                                (fuel - 1) as nat,
                            );
                            match r {
                                Err(e) => (Err(e), st1),
                                Ok(_) => (Ok(Seq::empty()), st1),
                            }
                        },
                        None => (Err(ErrV::MalformedForm(MacroKind::Defun)), st),
                    },
                    _ => (Err(ErrV::MalformedForm(MacroKind::Defun)), st),
                }
            },
            // `lambda` constructs and returns a lambda value; no write.
            MacroKind::Lam => if args.len() < 1 {
                (Err(ErrV::MalformedForm(MacroKind::Lam)), st)
            } else {
                match args[0] {
                    ExpV::Vector(ps) => match spec_param_names(ps) {
                        Some(names) => (
                            Ok(
                                seq![
                                    ExpV::Lambda(
                                        LambdaV { params: names, body: args.drop_first() },
                                    ),
                                ],
                            ),
                            st,
                        ),
                        None => (Err(ErrV::MalformedForm(MacroKind::Lam)), st),
                    },
                    _ => (Err(ErrV::MalformedForm(MacroKind::Lam)), st),
                }
            },
            // `let` evaluates every initializer in the outer environment,
            // binds all names in one fresh child scope, and runs its body
            // there; the expansion is the already-computed result.
            MacroKind::Let => if args.len() < 2 {
                (Err(ErrV::ArityMismatch), st)
            } else {
                let (r, st1) = spec_run_in_let(
                    args[0],
                    args.drop_first(),
                    env,
                    st,
                    (fuel - 1) as nat,
                );
                match r {
                    Err(e) => (Err(e), st1),
                    Ok(v) => (Ok(seq![v]), st1),
                }
            },
        }
    }
}

/// The whole of a `let`: a vector of two-element binding vectors, whose
/// initializers evaluate in the outer environment so that no binding sees
/// another, then the body as a sequence in the child scope.
pub open spec fn spec_run_in_let(bindings: ExpV, body: Seq<ExpV>, env: EnvV, st: StateV, fuel: nat) -> (
    Result<ExpV, ErrV>,
    StateV,
)
    decreases fuel, 0int, 0int,
{
    if fuel == 0 {
        (Err(ErrV::StackOverflow), st)
    } else {
        match bindings {
            ExpV::Vector(bs) => {
                let (r, st1) = spec_let_bind(bs, env, st, (fuel - 1) as nat, Map::empty());
                match r {
                    Err(e) => (Err(e), st1),
                    Ok(frame) => spec_eval_seq(body, seq![frame] + env, st1, (fuel - 1) as nat),
                }
            },
            _ => (Err(ErrV::MalformedForm(MacroKind::Let)), st),
        }
    }
}

/// Evaluates `let` initializers left to right in the outer environment,
/// accumulating the one new frame they will all inhabit.
pub open spec fn spec_let_bind(
    bs: Seq<ExpV>,
    env: EnvV,
    st: StateV,
    fuel: nat,
    acc: Map<Seq<char>, ExpV>,
) -> (Result<Map<Seq<char>, ExpV>, ErrV>, StateV)
    decreases fuel, bs.len(), 0int,
{
    if fuel == 0 {
        (Err(ErrV::StackOverflow), st)
    } else if bs.len() == 0 {
        (Ok(acc), st)
    } else {
        match bs[0] {
            ExpV::Vector(pair) => if pair.len() != 2 {
                (Err(ErrV::MalformedForm(MacroKind::Let)), st)
            } else {
                match pair[0] {
                    ExpV::Symbol(name) => {
                        let (rv, st1) = spec_eval(pair[1], env, st, (fuel - 1) as nat);
                        match rv {
                            Err(e) => (Err(e), st1),
                            Ok(v) => spec_let_bind(
                                bs.drop_first(),
                                env,
                                st1,
                                fuel,
                                acc.insert(name, v),
                            ),
                        }
                    },
                    _ => (Err(ErrV::MalformedForm(MacroKind::Let)), st),
                }
            },
            _ => (Err(ErrV::MalformedForm(MacroKind::Let)), st),
        }
    }
}

/// A top-level definition: the name must be a symbol; the value evaluates
/// in a fresh, parent-less environment, so a definition cannot see caller
/// locals; the global table alone is written.
pub open spec fn spec_set_global(sym: ExpV, val: ExpV, st: StateV, fuel: nat) -> (Result<
    (),
    ErrV,
>, StateV)
    decreases fuel, 0int, 1int,
{
    if fuel == 0 {
        (Err(ErrV::StackOverflow), st)
    } else {
        match sym {
            ExpV::Symbol(name) => {
                let (rv, st1) = spec_eval(
                    val,
                    seq![Map::<Seq<char>, ExpV>::empty()],
                    st,
                    (fuel - 1) as nat,
                );
                match rv {
                    Err(e) => (Err(e), st1),
                    Ok(v) => (
                        Ok(()),
                        StateV { globals: st1.globals.insert(name, v), out: st1.out },
                    ),
                }
            },
            _ => (Err(ErrV::TypeMismatch(Kind::Symbol, spec_kind(sym))), st),
        }
    }
}

/// Runs a lambda once for each count below `times`, in order, passing the
/// count; the calling environment is the parent of every call.
pub open spec fn spec_dotimes(l: LambdaV, i: int, times: int, env: EnvV, st: StateV, fuel: nat) -> (
    Result<ExpV, ErrV>,
    StateV,
)
    decreases fuel, times - i, 2int,
{
    if fuel == 0 {
        (Err(ErrV::StackOverflow), st)
    } else if i >= times {
        (Ok(ExpV::List(None)), st)
    } else {
        let (r, st1) = spec_call(l, seq![ExpV::Num(i as i64)], env, st, (fuel - 1) as nat);
        match r {
            Err(e) => (Err(e), st1),
            Ok(_) => spec_dotimes(l, i + 1, times, env, st1, fuel),
        }
    }
}

/// What each native procedure returns on already-evaluated arguments, and
/// what it does to the world.
pub open spec fn spec_apply(f: Native, vals: Seq<ExpV>, env: EnvV, st: StateV, fuel: nat) -> (
    Result<ExpV, ErrV>,
    StateV,
)
    decreases fuel, 0int, 0int,
{
    if fuel == 0 {
        (Err(ErrV::StackOverflow), st)
    } else {
        match f {
            Native::Add => (
                match spec_fold_add(vals, 0) {
                    Ok(n) => Ok(ExpV::Num(n)),
                    Err(e) => Err(e),
                },
                st,
            ),
            Native::Sub => if vals.len() == 0 {
                (Err(ErrV::ArityMismatch), st)
            } else {
                match vals[0] {
                    ExpV::Num(first) => (
                        match spec_fold_sub(vals.drop_first(), first) {
                            Ok(n) => Ok(ExpV::Num(n)),
                            Err(e) => Err(e),
                        },
                        st,
                    ),
                    x => (Err(ErrV::TypeMismatch(Kind::Num, spec_kind(x))), st),
                }
            },
            Native::Mul => (
                match spec_fold_mul(vals, 1) {
                    Ok(n) => Ok(ExpV::Num(n)),
                    Err(e) => Err(e),
                },
                st,
            ),
            Native::NumEq => if vals.len() == 0 {
                (Err(ErrV::ArityMismatch), st)
            } else {
                match vals[0] {
                    ExpV::Num(first) => (
                        match spec_all_eq(vals, first) {
                            Ok(b) => Ok(ExpV::Bool(b)),
                            Err(e) => Err(e),
                        },
                        st,
                    ),
                    x => (Err(ErrV::TypeMismatch(Kind::Num, spec_kind(x))), st),
                }
            },
            Native::Or => if vals.len() == 0 {
                (Err(ErrV::ArityMismatch), st)
            } else {
                (Ok(ExpV::Bool(spec_fold_or(vals))), st)
            },
            Native::Car => if vals.len() != 1 {
                (Err(ErrV::ArityMismatch), st)
            } else {
                match vals[0] {
                    ExpV::List(None) => (Ok(ExpV::List(None)), st),
                    ExpV::List(Some(c)) => (Ok(c.car), st),
                    x => (Err(ErrV::TypeMismatch(Kind::List, spec_kind(x))), st),
                }
            },
            Native::Cdr => if vals.len() != 1 {
                (Err(ErrV::ArityMismatch), st)
            } else {
                match vals[0] {
                    ExpV::List(None) => (Ok(ExpV::List(None)), st),
                    ExpV::List(Some(c)) => (Ok(c.cdr), st),
                    x => (Err(ErrV::TypeMismatch(Kind::List, spec_kind(x))), st),
                }
            },
            Native::ConsCells => if vals.len() != 2 {
                (Err(ErrV::ArityMismatch), st)
            } else {
                (
                    Ok(
                        ExpV::List(
                            Some(Box::new(crate::exp::ConsV { car: vals[0], cdr: vals[1] })),
                        ),
                    ),
                    st,
                )
            },
            Native::ListOf => (Ok(ExpV::List(spec_list_of(vals))), st),
            Native::Print => (
                Ok(ExpV::Vector(Seq::empty())),
                StateV { globals: st.globals, out: st.out + spec_render_all(vals) },
            ),
            Native::Assert => if spec_all_truthy(vals) {
                (Ok(ExpV::List(None)), st)
            } else {
                (Err(ErrV::AssertionFailed), st)
            },
            Native::Dotimes => if vals.len() != 2 {
                (Err(ErrV::ArityMismatch), st)
            } else {
                match vals[0] {
                    ExpV::Num(times) => match vals[1] {
                        ExpV::Lambda(l) => spec_dotimes(
                            l,
                            0,
                            times as int,
                            env,
                            st,
                            (fuel - 1) as nat,
                        ),
                        x => (Err(ErrV::TypeMismatch(Kind::Lambda, spec_kind(x))), st),
                    },
                    x => (Err(ErrV::TypeMismatch(Kind::Num, spec_kind(x))), st),
                }
            },
        }
    }
}

/// The view of a result an evaluation function returns.
pub open spec fn res_view(r: Result<crate::exp::Exp, crate::err::LispError>) -> Result<
    ExpV,
    ErrV,
> {
    match r {
        Ok(e) => Ok(crate::exp::exp_view(e)),
        Err(e) => Err(crate::err::err_view(e)),
    }
}

/// The bindings the interpreter starts with: every native procedure and
/// macro under its surface name, with `nil`, `true` and `false`.
pub open spec fn spec_init_globals() -> Map<Seq<char>, ExpV> {
    Map::empty()
        .insert("+"@, ExpV::Func(Native::Add))
        .insert("-"@, ExpV::Func(Native::Sub))
        .insert("nil"@, ExpV::List(None))
        .insert("false"@, ExpV::Bool(false))
        .insert("true"@, ExpV::Bool(true))
        .insert("*"@, ExpV::Func(Native::Mul))
        .insert("print"@, ExpV::Func(Native::Print))
        .insert("progn"@, ExpV::Macro(MacroKind::Progn))
        .insert("dotimes"@, ExpV::Func(Native::Dotimes))
        .insert("def"@, ExpV::Macro(MacroKind::Def))
        .insert("let"@, ExpV::Macro(MacroKind::Let))
        .insert("assert"@, ExpV::Func(Native::Assert))
        .insert("cons"@, ExpV::Func(Native::ConsCells))
        .insert("list"@, ExpV::Func(Native::ListOf))
        .insert("car"@, ExpV::Func(Native::Car))
        .insert("cdr"@, ExpV::Func(Native::Cdr))
        .insert("defun"@, ExpV::Macro(MacroKind::Defun))
        .insert("if"@, ExpV::Macro(MacroKind::If))
        .insert("or"@, ExpV::Func(Native::Or))
        .insert("="@, ExpV::Func(Native::NumEq))
        .insert("lambda"@, ExpV::Macro(MacroKind::Lam))
}

} // verus!
