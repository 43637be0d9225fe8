//! Laws of the interpreter, stated against the evaluation semantics and
//! proved once for every environment, state and depth budget they name.

use crate::env::{spec_lookup, EnvV};
use crate::err::ErrV;
use crate::exp::{spec_to_bool, ExpV, LambdaV, MacroKind, Native};
use crate::list::{spec_elements, spec_list_of};
use crate::semantics::{
    spec_apply, spec_call, spec_eval, spec_eval_args, spec_eval_seq, spec_fold_add, spec_fold_mul,
    spec_fold_sub, spec_fun_call, spec_macro_expand,
    spec_run_in_let, StateV,
};
use vstd::prelude::*;

verus! {

/// Whether a value evaluates to itself: everything but a symbol or a
/// vector form.
pub open spec fn is_self_eval(e: ExpV) -> bool {
    !(e is Symbol) && !(e is Vector)
}

/// Already-evaluated values pass through argument evaluation unchanged,
/// and leave the world alone.
pub proof fn lemma_eval_args_self(args: Seq<ExpV>, env: EnvV, st: StateV, fuel: nat)
    requires
        fuel >= 2,
        forall|k: int| 0 <= k < args.len() ==> is_self_eval(#[trigger] args[k]),
    ensures
        spec_eval_args(args, env, st, fuel) == (Ok::<Seq<ExpV>, ErrV>(args), st),
    decreases args.len(),
{
    if args.len() == 0 {
        assert(spec_eval_args(args, env, st, fuel) == (Ok::<Seq<ExpV>, ErrV>(Seq::empty()), st));
        assert(args =~= Seq::<ExpV>::empty());
    } else {
        assert(spec_eval(args[0], env, st, (fuel - 1) as nat) == (Ok::<ExpV, ErrV>(args[0]), st));
        lemma_eval_args_self(args.drop_first(), env, st, fuel);
        assert(seq![args[0]] + args.drop_first() =~= args);
    }
}

/// A call form whose head names a native procedure and whose arguments
/// are already values is exactly that procedure applied to those values.
pub proof fn lemma_eval_native_call(
    name: Seq<char>,
    f: Native,
    args: Seq<ExpV>,
    env: EnvV,
    st: StateV,
    fuel: nat,
)
    requires
        fuel >= 3,
        spec_lookup(env, st.globals, name) == Some(ExpV::Func(f)),
        forall|k: int| 0 <= k < args.len() ==> is_self_eval(#[trigger] args[k]),
    ensures
        spec_eval(ExpV::Vector(seq![ExpV::Symbol(name)] + args), env, st, fuel) == spec_apply(
            f,
            args,
            env,
            st,
            (fuel - 2) as nat,
        ),
{
    let form = seq![ExpV::Symbol(name)] + args;
    assert(form[0] == ExpV::Symbol(name));
    assert(form.drop_first() =~= args);
    lemma_eval_args_self(args, env, st, (fuel - 1) as nat);
    assert(spec_fun_call(f, args, env, st, (fuel - 1) as nat) == spec_apply(
        f,
        args,
        env,
        st,
        (fuel - 2) as nat,
    ));
}

/// `(+ a b c)` evaluates to `a + b + c` whenever that sum is in the
/// 64-bit signed range, even where an intermediate sum wraps: addition
/// folds left from zero.
pub proof fn lemma_plus_evaluates(a: i64, b: i64, c: i64, env: EnvV, st: StateV, fuel: nat)
    requires
        fuel >= 3,
        spec_lookup(env, st.globals, "+"@) == Some(ExpV::Func(Native::Add)),
        i64::MIN <= a + b + c <= i64::MAX,
    ensures
        spec_eval(
            ExpV::Vector(
                seq![ExpV::Symbol("+"@), ExpV::Num(a), ExpV::Num(b), ExpV::Num(c)],
            ),
            env,
            st,
            fuel,
        ) == (Ok::<ExpV, ErrV>(ExpV::Num((a + b + c) as i64)), st),
{
    let args = seq![ExpV::Num(a), ExpV::Num(b), ExpV::Num(c)];
    assert(seq![ExpV::Symbol("+"@)] + args =~= seq![
        ExpV::Symbol("+"@),
        ExpV::Num(a),
        ExpV::Num(b),
        ExpV::Num(c),
    ]);
    lemma_eval_native_call("+"@, Native::Add, args, env, st, fuel);
    let t1 = seq![ExpV::Num(b), ExpV::Num(c)];
    let t2 = seq![ExpV::Num(c)];
    assert(args.drop_first() =~= t1);
    assert(t1.drop_first() =~= t2);
    assert(t2.drop_first() =~= Seq::<ExpV>::empty());
    // Intermediate sums may wrap; the unique in-range value congruent to
    // the true sum is the true sum itself.
    let w2 = vstd::wrapping::i64_specs::wrapping_add(a, b);
    let w3 = vstd::wrapping::i64_specs::wrapping_add(w2, c);
    assert(spec_fold_add(args, 0) == spec_fold_add(t1, a));
    assert(spec_fold_add(t1, a) == spec_fold_add(t2, w2));
    assert(spec_fold_add(t2, w2) == spec_fold_add(Seq::<ExpV>::empty(), w3));
    assert(w3 == (a + b + c) as i64);
    assert(spec_fold_add(args, 0) == Ok::<i64, ErrV>((a + b + c) as i64));
}

/// `(* a b c)` evaluates to `a * b * c` whenever that product is in the
/// 64-bit signed range, even where an intermediate product wraps:
/// multiplication folds left from one.
pub proof fn lemma_times_evaluates(a: i64, b: i64, c: i64, env: EnvV, st: StateV, fuel: nat)
    requires
        fuel >= 3,
        spec_lookup(env, st.globals, "*"@) == Some(ExpV::Func(Native::Mul)),
        i64::MIN <= a * b * c <= i64::MAX,
    ensures
        spec_eval(
            ExpV::Vector(
                seq![ExpV::Symbol("*"@), ExpV::Num(a), ExpV::Num(b), ExpV::Num(c)],
            ),
            env,
            st,
            fuel,
        ) == (Ok::<ExpV, ErrV>(ExpV::Num((a * b * c) as i64)), st),
{
    let args = seq![ExpV::Num(a), ExpV::Num(b), ExpV::Num(c)];
    assert(seq![ExpV::Symbol("*"@)] + args =~= seq![
        ExpV::Symbol("*"@),
        ExpV::Num(a),
        ExpV::Num(b),
        ExpV::Num(c),
    ]);
    lemma_eval_native_call("*"@, Native::Mul, args, env, st, fuel);
    let t1 = seq![ExpV::Num(b), ExpV::Num(c)];
    let t2 = seq![ExpV::Num(c)];
    assert(args.drop_first() =~= t1);
    assert(t1.drop_first() =~= t2);
    assert(t2.drop_first() =~= Seq::<ExpV>::empty());
    // An intermediate product may wrap, but wrapping preserves the
    // residue; the unique in-range value congruent to the true product
    // is the true product itself.
    let r = 0x1_0000_0000_0000_0000int;
    let ab = a as int * b as int;
    let abc = ab * c as int;
    lemma_signed_crop_in_range(1 * a);
    let w2 = vstd::wrapping::i64_specs::wrapping_mul(a, b);
    let w3 = vstd::wrapping::i64_specs::wrapping_mul(w2, c);
    assert(spec_fold_mul(args, 1) == spec_fold_mul(t1, a));
    assert(spec_fold_mul(t1, a) == spec_fold_mul(t2, w2));
    assert(spec_fold_mul(t2, w2) == spec_fold_mul(Seq::<ExpV>::empty(), w3));
    lemma_crop_congruent(ab);
    lemma_crop_congruent(w2 as int * c as int);
    vstd::arithmetic::div_mod::lemma_mul_mod_noop_left(w2 as int, c as int, r);
    vstd::arithmetic::div_mod::lemma_mul_mod_noop_left(ab, c as int, r);
    assert((w2 as int * c as int) % r == abc % r);
    assert(w3 as int % r == abc % r);
    vstd::arithmetic::div_mod::lemma_mod_equivalence(w3 as int, abc, r);
    assert((w3 as int - abc) % r == 0);
    assert(w3 == abc as i64);
    assert(spec_fold_mul(args, 1) == Ok::<i64, ErrV>((a * b * c) as i64));
}

/// `(- a b c)` evaluates to `a - b - c` whenever that difference is in
/// the 64-bit signed range, even where an intermediate difference wraps:
/// subtraction folds left from the first argument.
pub proof fn lemma_minus_evaluates(a: i64, b: i64, c: i64, env: EnvV, st: StateV, fuel: nat)
    requires
        fuel >= 3,
        spec_lookup(env, st.globals, "-"@) == Some(ExpV::Func(Native::Sub)),
        i64::MIN <= a - b - c <= i64::MAX,
    ensures
        spec_eval(
            ExpV::Vector(
                seq![ExpV::Symbol("-"@), ExpV::Num(a), ExpV::Num(b), ExpV::Num(c)],
            ),
            env,
            st,
            fuel,
        ) == (Ok::<ExpV, ErrV>(ExpV::Num((a - b - c) as i64)), st),
{
    let args = seq![ExpV::Num(a), ExpV::Num(b), ExpV::Num(c)];
    assert(seq![ExpV::Symbol("-"@)] + args =~= seq![
        ExpV::Symbol("-"@),
        ExpV::Num(a),
        ExpV::Num(b),
        ExpV::Num(c),
    ]);
    lemma_eval_native_call("-"@, Native::Sub, args, env, st, fuel);
    let t1 = seq![ExpV::Num(b), ExpV::Num(c)];
    let t2 = seq![ExpV::Num(c)];
    assert(args.drop_first() =~= t1);
    assert(t1.drop_first() =~= t2);
    assert(t2.drop_first() =~= Seq::<ExpV>::empty());
    // Intermediate differences may wrap; the unique in-range value
    // congruent to the true difference is the true difference itself.
    let w2 = vstd::wrapping::i64_specs::wrapping_sub(a, b);
    let w3 = vstd::wrapping::i64_specs::wrapping_sub(w2, c);
    assert(spec_fold_sub(t1, a) == spec_fold_sub(t2, w2));
    assert(spec_fold_sub(t2, w2) == spec_fold_sub(Seq::<ExpV>::empty(), w3));
    assert(w3 == (a - b - c) as i64);
    assert(spec_fold_sub(args.drop_first(), a) == Ok::<i64, ErrV>((a - b - c) as i64));
}

/// Wrapping preserves the residue modulo two to the sixty-fourth, and
/// lands in the 64-bit signed range.
proof fn lemma_crop_congruent(x: int)
    ensures
        i64::MIN <= vstd::wrapping::i64_specs::signed_crop(x) <= i64::MAX,
        vstd::wrapping::i64_specs::signed_crop(x) as int % 0x1_0000_0000_0000_0000
            == x % 0x1_0000_0000_0000_0000,
{
    let r = 0x1_0000_0000_0000_0000int;
    vstd::arithmetic::div_mod::lemma_mod_bound(x, r);
    vstd::arithmetic::div_mod::lemma_mod_twice(x, r);
    vstd::arithmetic::div_mod::lemma_mod_sub_multiples_vanish(x % r, r);
}

/// A product already within the 64-bit signed range wraps to itself.
proof fn lemma_signed_crop_in_range(x: int)
    requires
        i64::MIN <= x <= i64::MAX,
    ensures
        vstd::wrapping::i64_specs::signed_crop(x) == x as i64,
{
    let r = 0x1_0000_0000_0000_0000int;
    if x >= 0 {
        assert(x % r == x);
    } else {
        assert((x + r) % r == x % r);
        assert(x + r == (x + r) % r + r * ((x + r) / r));
        assert(x % r == x + r);
    }
}

/// `(+)` evaluates to zero, the fold's starting point.
pub proof fn lemma_plus_empty(env: EnvV, st: StateV, fuel: nat)
    requires
        fuel >= 3,
        spec_lookup(env, st.globals, "+"@) == Some(ExpV::Func(Native::Add)),
    ensures
        spec_eval(ExpV::Vector(seq![ExpV::Symbol("+"@)]), env, st, fuel) == (
            Ok::<ExpV, ErrV>(ExpV::Num(0)),
            st,
        ),
{
    let args = Seq::<ExpV>::empty();
    assert(seq![ExpV::Symbol("+"@)] + args =~= seq![ExpV::Symbol("+"@)]);
    lemma_eval_native_call("+"@, Native::Add, args, env, st, fuel);
}

/// `(*)` evaluates to one, the fold's starting point.
pub proof fn lemma_times_empty(env: EnvV, st: StateV, fuel: nat)
    requires
        fuel >= 3,
        spec_lookup(env, st.globals, "*"@) == Some(ExpV::Func(Native::Mul)),
    ensures
        spec_eval(ExpV::Vector(seq![ExpV::Symbol("*"@)]), env, st, fuel) == (
            Ok::<ExpV, ErrV>(ExpV::Num(1)),
            st,
        ),
{
    let args = Seq::<ExpV>::empty();
    assert(seq![ExpV::Symbol("*"@)] + args =~= seq![ExpV::Symbol("*"@)]);
    lemma_eval_native_call("*"@, Native::Mul, args, env, st, fuel);
}

/// `(-)` with no arguments is an arity error.
pub proof fn lemma_minus_empty(env: EnvV, st: StateV, fuel: nat)
    requires
        fuel >= 3,
        spec_lookup(env, st.globals, "-"@) == Some(ExpV::Func(Native::Sub)),
    ensures
        spec_eval(ExpV::Vector(seq![ExpV::Symbol("-"@)]), env, st, fuel) == (
            Err::<ExpV, ErrV>(ErrV::ArityMismatch),
            st,
        ),
{
    let args = Seq::<ExpV>::empty();
    assert(seq![ExpV::Symbol("-"@)] + args =~= seq![ExpV::Symbol("-"@)]);
    lemma_eval_native_call("-"@, Native::Sub, args, env, st, fuel);
}

/// `car` of a freshly consed cell is its first slot, `cdr` its second,
/// for all values `x` and `y`; consing never touches the world.
pub proof fn lemma_car_cdr_cons(x: ExpV, y: ExpV, env: EnvV, st: StateV, fuel: nat)
    requires
        fuel >= 1,
    ensures
        ({
            let (rc, st1) = spec_apply(Native::ConsCells, seq![x, y], env, st, fuel);
            &&& st1 == st
            &&& rc matches Ok(cell)
            &&& spec_apply(Native::Car, seq![rc->Ok_0], env, st, fuel) == (
                Ok::<ExpV, ErrV>(x),
                st,
            )
            &&& spec_apply(Native::Cdr, seq![rc->Ok_0], env, st, fuel) == (
                Ok::<ExpV, ErrV>(y),
                st,
            )
        }),
{
}

/// Evaluating `(car (cons x y))` yields `x`, and `(cdr (cons x y))`
/// yields `y`, for all values `x` and `y`, in any environment that binds
/// `car`, `cdr` and `cons` to their native procedures.
pub proof fn lemma_car_cdr_cons_evaluates(x: ExpV, y: ExpV, env: EnvV, st: StateV, fuel: nat)
    requires
        fuel >= 6,
        spec_lookup(env, st.globals, "car"@) == Some(ExpV::Func(Native::Car)),
        spec_lookup(env, st.globals, "cdr"@) == Some(ExpV::Func(Native::Cdr)),
        spec_lookup(env, st.globals, "cons"@) == Some(ExpV::Func(Native::ConsCells)),
        is_self_eval(x),
        is_self_eval(y),
    ensures
        ({
            let inner = ExpV::Vector(seq![ExpV::Symbol("cons"@), x, y]);
            &&& spec_eval(ExpV::Vector(seq![ExpV::Symbol("car"@), inner]), env, st, fuel) == (
                Ok::<ExpV, ErrV>(x),
                st,
            )
            &&& spec_eval(ExpV::Vector(seq![ExpV::Symbol("cdr"@), inner]), env, st, fuel) == (
                Ok::<ExpV, ErrV>(y),
                st,
            )
        }),
{
    let inner = ExpV::Vector(seq![ExpV::Symbol("cons"@), x, y]);
    let xy = seq![x, y];
    assert(seq![ExpV::Symbol("cons"@)] + xy =~= seq![ExpV::Symbol("cons"@), x, y]);
    lemma_eval_native_call("cons"@, Native::ConsCells, xy, env, st, (fuel - 2) as nat);
    let (rc, stc) = spec_eval(inner, env, st, (fuel - 2) as nat);
    assert(stc == st);
    let cell = rc->Ok_0;
    let car_form = seq![ExpV::Symbol("car"@), inner];
    assert(car_form[0] == ExpV::Symbol("car"@));
    assert(car_form.drop_first() =~= seq![inner]);
    let inner_args = seq![inner];
    assert(inner_args.drop_first() =~= Seq::<ExpV>::empty());
    assert(inner_args[0] == inner);
    assert(rc is Ok && rc->Ok_0 == cell);
    assert(seq![cell] + Seq::<ExpV>::empty() =~= seq![cell]);
    assert(spec_eval_args(Seq::<ExpV>::empty(), env, st, (fuel - 1) as nat) == (
        Ok::<Seq<ExpV>, ErrV>(Seq::<ExpV>::empty()),
        st,
    ));
    assert(spec_eval_args(inner_args, env, st, (fuel - 1) as nat) == (
        Ok::<Seq<ExpV>, ErrV>(seq![cell]),
        st,
    ));
    assert(spec_apply(Native::Car, seq![cell], env, st, (fuel - 2) as nat) == (
        Ok::<ExpV, ErrV>(x),
        st,
    ));
    let cdr_form = seq![ExpV::Symbol("cdr"@), inner];
    assert(cdr_form[0] == ExpV::Symbol("cdr"@));
    assert(cdr_form.drop_first() =~= seq![inner]);
    assert(spec_apply(Native::Cdr, seq![cell], env, st, (fuel - 2) as nat) == (
        Ok::<ExpV, ErrV>(y),
        st,
    ));
}

/// `car` and `cdr` of the empty list are the empty list, never an error.
pub proof fn lemma_car_cdr_nil(env: EnvV, st: StateV, fuel: nat)
    requires
        fuel >= 1,
    ensures
        spec_apply(Native::Car, seq![ExpV::List(None)], env, st, fuel) == (
            Ok::<ExpV, ErrV>(ExpV::List(None)),
            st,
        ),
        spec_apply(Native::Cdr, seq![ExpV::List(None)], env, st, fuel) == (
            Ok::<ExpV, ErrV>(ExpV::List(None)),
            st,
        ),
{
}

/// `(if c a b)` evaluates the condition, then only the branch the
/// condition picks: the result never depends on the other branch, which
/// appears nowhere on the right-hand side.
pub proof fn lemma_if_picks_branch(c: ExpV, a: ExpV, b: ExpV, env: EnvV, st: StateV, fuel: nat)
    requires
        fuel >= 3,
        spec_lookup(env, st.globals, "if"@) == Some(ExpV::Macro(MacroKind::If)),
    ensures
        ({
            let (rc, st1) = spec_eval(c, env, st, (fuel - 3) as nat);
            rc matches Ok(cv) ==> spec_eval(
                ExpV::Vector(seq![ExpV::Symbol("if"@), c, a, b]),
                env,
                st,
                fuel,
            ) == (if spec_to_bool(cv) {
                spec_eval_seq(seq![a], env, st1, (fuel - 2) as nat)
            } else {
                spec_eval_seq(seq![b], env, st1, (fuel - 2) as nat)
            })
        }),
{
    let form = seq![ExpV::Symbol("if"@), c, a, b];
    let args = form.drop_first();
    assert(args =~= seq![c, a, b]);
    assert(args[0] == c && args[1] == a && args[2] == b);
    let (rc, st1) = spec_eval(c, env, st, (fuel - 3) as nat);
    if rc is Ok {
        let cv = rc->Ok_0;
        if spec_to_bool(cv) {
            assert(spec_macro_expand(MacroKind::If, args, env, st, (fuel - 2) as nat) == (
                Ok::<Seq<ExpV>, ErrV>(seq![a]),
                st1,
            ));
        } else {
            assert(spec_macro_expand(MacroKind::If, args, env, st, (fuel - 2) as nat) == (
                Ok::<Seq<ExpV>, ErrV>(seq![b]),
                st1,
            ));
        }
    }
}

/// Whether a `let` binding entry is a two-element vector
/// `[Symbol(name), initializer]` whose initializer is either a value or a
/// symbol the *outer* environment resolves.
pub open spec fn binding_resolves_outside(b: ExpV, env: EnvV, globals: Map<Seq<char>, ExpV>) -> bool {
    &&& b is Vector
    &&& b->Vector_0.len() == 2
    &&& b->Vector_0[0] is Symbol
    &&& (is_self_eval(b->Vector_0[1]) || (b->Vector_0[1] is Symbol && spec_lookup(
        env,
        globals,
        b->Vector_0[1]->Symbol_0,
    ) is Some))
}

/// What such an initializer denotes, read against the outer environment
/// alone.
pub open spec fn outer_value(e: ExpV, env: EnvV, globals: Map<Seq<char>, ExpV>) -> ExpV {
    if e is Symbol {
        spec_lookup(env, globals, e->Symbol_0)->Some_0
    } else {
        e
    }
}

/// The one scope a well-formed run of bindings builds over `acc`: each
/// name mapped to the outer value of its initializer, a later binding of
/// a name shadowing an earlier one.
pub open spec fn spec_outer_frame(
    bs: Seq<ExpV>,
    env: EnvV,
    globals: Map<Seq<char>, ExpV>,
    acc: Map<Seq<char>, ExpV>,
) -> Map<Seq<char>, ExpV>
    decreases bs.len(),
{
    if bs.len() == 0 {
        acc
    } else {
        spec_outer_frame(
            bs.drop_first(),
            env,
            globals,
            acc.insert(
                bs[0]->Vector_0[0]->Symbol_0,
                outer_value(bs[0]->Vector_0[1], env, globals),
            ),
        )
    }
}

proof fn lemma_let_bind_outer(bs: Seq<ExpV>, env: EnvV, st: StateV, fuel: nat, acc: Map<
    Seq<char>,
    ExpV,
>)
    requires
        fuel >= 2,
        forall|k: int|
            0 <= k < bs.len() ==> binding_resolves_outside(#[trigger] bs[k], env, st.globals),
    ensures
        crate::semantics::spec_let_bind(bs, env, st, fuel, acc) == (
            Ok::<Map<Seq<char>, ExpV>, ErrV>(spec_outer_frame(bs, env, st.globals, acc)),
            st,
        ),
    decreases bs.len(),
{
    if bs.len() > 0 {
        let pair = bs[0]->Vector_0;
        assert(binding_resolves_outside(bs[0], env, st.globals));
        assert(spec_eval(pair[1], env, st, (fuel - 1) as nat) == (
            Ok::<ExpV, ErrV>(outer_value(pair[1], env, st.globals)),
            st,
        ));
        assert(forall|k: int|
            0 <= k < bs.drop_first().len() ==> binding_resolves_outside(
                #[trigger] bs.drop_first()[k],
                env,
                st.globals,
            ));
        lemma_let_bind_outer(
            bs.drop_first(),
            env,
            st,
            fuel,
            acc.insert(pair[0]->Symbol_0, outer_value(pair[1], env, st.globals)),
        );
    }
}

/// `let` is simultaneous in general: for any run of bindings whose
/// initializers are values or outer-bound symbols, the body runs as a
/// sequence in one fresh scope over the caller's chain, holding each name
/// mapped to the *outer* environment's value of its initializer. The
/// scope being built is never consulted while the initializers evaluate,
/// so no binding sees another of the same `let`, whatever the names are.
pub proof fn lemma_let_general(bs: Seq<ExpV>, body: Seq<ExpV>, env: EnvV, st: StateV, fuel: nat)
    requires
        fuel >= 3,
        forall|k: int|
            0 <= k < bs.len() ==> binding_resolves_outside(#[trigger] bs[k], env, st.globals),
    ensures
        spec_run_in_let(ExpV::Vector(bs), body, env, st, fuel) == spec_eval_seq(
            body,
            seq![spec_outer_frame(bs, env, st.globals, Map::empty())] + env,
            st,
            (fuel - 1) as nat,
        ),
{
    lemma_let_bind_outer(bs, env, st, (fuel - 1) as nat, Map::empty());
}

/// `let` bindings are simultaneous, not sequential: an initializer is
/// evaluated in the outer environment, so a binding can never see an
/// earlier one of the same `let`. Binding `nb` to the name `na` bound
/// just before it fails with `UnboundSymbol` whenever `na` is not already
/// visible outside the `let`.
pub proof fn lemma_let_simultaneous(
    na: Seq<char>,
    nb: Seq<char>,
    v: ExpV,
    body: Seq<ExpV>,
    env: EnvV,
    st: StateV,
    fuel: nat,
)
    requires
        fuel >= 3,
        spec_lookup(env, st.globals, na) is None,
        is_self_eval(v),
    ensures
        spec_run_in_let(
            ExpV::Vector(
                seq![
                    ExpV::Vector(seq![ExpV::Symbol(na), v]),
                    ExpV::Vector(seq![ExpV::Symbol(nb), ExpV::Symbol(na)]),
                ],
            ),
            body,
            env,
            st,
            fuel,
        ) == (Err::<ExpV, ErrV>(ErrV::UnboundSymbol(na)), st),
{
    let bs = seq![
        ExpV::Vector(seq![ExpV::Symbol(na), v]),
        ExpV::Vector(seq![ExpV::Symbol(nb), ExpV::Symbol(na)]),
    ];
    assert(bs.drop_first() =~= seq![ExpV::Vector(seq![ExpV::Symbol(nb), ExpV::Symbol(na)])]);
    assert(bs.drop_first().drop_first() =~= Seq::<ExpV>::empty());
    assert(spec_eval(v, env, st, (fuel - 2) as nat) == (Ok::<ExpV, ErrV>(v), st));
    assert(spec_eval(ExpV::Symbol(na), env, st, (fuel - 2) as nat) == (
        Err::<ExpV, ErrV>(ErrV::UnboundSymbol(na)),
        st,
    ));
}

/// A lambda holds no environment: calling it binds its parameters in a
/// fresh child of the environment of the *call*, whatever environment
/// surrounded its construction. A body that names a free variable fails
/// with `UnboundSymbol` at any call site where that name is not visible.
pub proof fn lemma_no_capture(x: Seq<char>, env: EnvV, st: StateV, fuel: nat)
    requires
        fuel >= 3,
        spec_lookup(env, st.globals, x) is None,
    ensures
        spec_call(
            LambdaV { params: Seq::empty(), body: seq![ExpV::Symbol(x)] },
            Seq::empty(),
            env,
            st,
            fuel,
        ) == (Err::<ExpV, ErrV>(ErrV::UnboundSymbol(x)), st),
{
    let l = LambdaV { params: Seq::empty(), body: seq![ExpV::Symbol(x)] };
    let child = seq![crate::semantics::spec_bind(l.params, Seq::empty())] + env;
    assert(crate::semantics::spec_bind(l.params, Seq::empty()) =~= Map::<Seq<char>, ExpV>::empty());
    assert(child.drop_first() =~= env);
    assert(spec_lookup(child, st.globals, x) is None);
    assert(spec_eval(ExpV::Symbol(x), child, st, (fuel - 2) as nat) == (
        Err::<ExpV, ErrV>(ErrV::UnboundSymbol(x)),
        st,
    ));
}

/// `(list ...)` builds the right-nested cons chain of its values, ending
/// in the empty list.
pub proof fn lemma_list_builds_chain(vals: Seq<ExpV>, env: EnvV, st: StateV, fuel: nat)
    requires
        fuel >= 1,
    ensures
        spec_apply(Native::ListOf, vals, env, st, fuel) == (
            Ok::<ExpV, ErrV>(ExpV::List(spec_list_of(vals))),
            st,
        ),
{
}

/// The chain `list` builds holds exactly the given values, in order: the
/// structural half of the rendering law.
pub proof fn lemma_list_of_elements(vals: Seq<ExpV>)
    ensures
        spec_elements(spec_list_of(vals)) == Ok::<Seq<ExpV>, ErrV>(vals),
    decreases vals.len(),
{
    if vals.len() == 0 {
        assert(spec_elements(spec_list_of(vals)) == Ok::<Seq<ExpV>, ErrV>(Seq::<ExpV>::empty()));
        assert(vals =~= Seq::<ExpV>::empty());
    } else {
        lemma_list_of_elements(vals.drop_first());
        assert(seq![vals[0]] + vals.drop_first() =~= vals);
    }
}

} // verus!
