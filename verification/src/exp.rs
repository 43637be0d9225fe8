//! The expression data model: the closed set of value/syntax variants that
//! flow through the whole interpreter, together with its mathematical model.

use std::sync::Arc;
use vstd::prelude::*;

verus! {

broadcast use vstd::std_specs::vec::axiom_vec_index_decreases;

/// Names the host-provided native procedures. Native procedures operate on
/// already-evaluated arguments; the set of callable kinds is closed, so each
/// native procedure is one tag with one evaluation rule.
#[derive(Clone, Copy, Debug, PartialEq, Eq, Structural)]
pub enum Native {
    Add,
    Sub,
    Mul,
    NumEq,
    Or,
    Car,
    Cdr,
    ConsCells,
    ListOf,
    Print,
    Assert,
    Dotimes,
}

/// Names the host-provided macros. Macros operate on unevaluated argument
/// expressions and return a sequence of replacement expressions.
#[derive(Clone, Copy, Debug, PartialEq, Eq, Structural)]
pub enum MacroKind {
    If,
    Let,
    Def,
    Defun,
    Lam,
    Progn,
}

/// A two-slot immutable node forming linked lists; once constructed, never
/// mutated. Shared via reference counting: list operations allocate new cells.
#[derive(Debug)]
pub struct Cons {
    pub car: Exp,
    pub cdr: Exp,
}

/// A user-defined callable: a parameter list and a body of expressions.
/// It does not capture its defining environment; free variables are resolved
/// against the chain of the call site.
#[derive(Debug)]
pub struct Lambda {
    pub args: Vec<String>,
    pub body: Vec<Exp>,
}

/// The tagged union of every value/syntax node the interpreter manipulates.
#[derive(Debug)]
pub enum Exp {
    /// A cons list; `None` is the empty list, nil.
    List(Option<Arc<Cons>>),
    Num(i64),
    Symbol(String),
    Str(String),
    /// An ordered, owned sequence: parsed parenthesized forms and parameter
    /// lists before they are consumed.
    Vector(Vec<Exp>),
    Lambda(Lambda),
    Func(Native),
    Macro(MacroKind),
    Bool(bool),
}

/// The mathematical model of a cons cell.
#[verifier::ext_equal]
pub struct ConsV {
    pub car: ExpV,
    pub cdr: ExpV,
}

/// The mathematical model of a lambda value.
#[verifier::ext_equal]
pub struct LambdaV {
    pub params: Seq<Seq<char>>,
    pub body: Seq<ExpV>,
}

/// The mathematical model of an expression: names become character
/// sequences, vectors become sequences, sharing disappears.
#[verifier::ext_equal]
pub enum ExpV {
    List(Option<Box<ConsV>>),
    Num(i64),
    Symbol(Seq<char>),
    Str(Seq<char>),
    Vector(Seq<ExpV>),
    Lambda(LambdaV),
    Func(Native),
    Macro(MacroKind),
    Bool(bool),
}

/// The model of an optional cons cell.
pub open spec fn list_view(l: Option<Arc<Cons>>) -> Option<Box<ConsV>>
    decreases l, 1int,
{
    match l {
        None => None,
        Some(c) => Some(Box::new(ConsV { car: exp_view((*c).car), cdr: exp_view((*c).cdr) })),
    }
}

pub open spec fn exp_view(e: Exp) -> ExpV
    decreases e, 0int,
{
    match e {
        Exp::List(l) => ExpV::List(list_view(l)),
        Exp::Num(n) => ExpV::Num(n),
        Exp::Symbol(s) => ExpV::Symbol(s@),
        Exp::Str(s) => ExpV::Str(s@),
        Exp::Vector(v) => ExpV::Vector(exp_vec_view(v)),
        Exp::Lambda(l) => ExpV::Lambda(lambda_view(l)),
        Exp::Func(f) => ExpV::Func(f),
        Exp::Macro(m) => ExpV::Macro(m),
        Exp::Bool(b) => ExpV::Bool(b),
    }
}

/// The element-wise model of a vector of expressions.
/// The element-wise model of `v` from position `i` on.
pub open spec fn exp_vec_view_from(v: Vec<Exp>, i: int) -> Seq<ExpV>
    decreases v, v@.len() - i,
{
    if i < 0 || i >= v@.len() {
        Seq::empty()
    } else {
        proof {
            vstd::std_specs::vec::axiom_vec_index_decreases(v, i);
        }
        seq![exp_view(v[i])] + exp_vec_view_from(v, i + 1)
    }
}

pub open spec fn exp_vec_view(v: Vec<Exp>) -> Seq<ExpV>
    decreases v, v@.len() + 1,
{
    exp_vec_view_from(v, 0)
}

pub open spec fn lambda_view(l: Lambda) -> LambdaV
    decreases l, 1int,
{
    LambdaV {
        params: Seq::new(l.args@.len(), |i: int| l.args@[i]@),
        body: exp_vec_view(l.body),
    }
}

impl View for Exp {
    type V = ExpV;

    open spec fn view(&self) -> ExpV {
        exp_view(*self)
    }
}

impl View for Lambda {
    type V = LambdaV;

    open spec fn view(&self) -> LambdaV {
        lambda_view(*self)
    }
}

impl View for Cons {
    type V = ConsV;

    open spec fn view(&self) -> ConsV {
        ConsV { car: exp_view(self.car), cdr: exp_view(self.cdr) }
    }
}

/// The model of a sequence of expressions, element by element.
pub open spec fn exps_view(s: Seq<Exp>) -> Seq<ExpV> {
    Seq::new(s.len(), |i: int| exp_view(s[i]))
}

pub proof fn lemma_exp_vec_view_from(v: Vec<Exp>, i: int)
    requires
        0 <= i <= v@.len(),
    ensures
        exp_vec_view_from(v, i) =~= exps_view(v@).skip(i),
    decreases v@.len() - i,
{
    if i < v@.len() {
        lemma_exp_vec_view_from(v, i + 1);
    }
}

/// A vector's model is the element-wise model of its view.
pub broadcast proof fn lemma_exp_vec_view(v: Vec<Exp>)
    ensures
        #[trigger] exp_vec_view(v) == exps_view(v@),
{
    lemma_exp_vec_view_from(v, 0);
    assert(exp_vec_view(v) =~= exps_view(v@));
}

/// The truthiness rule: `Bool(false)` and the empty list are false,
/// everything else is true.
pub open spec fn spec_to_bool(e: ExpV) -> bool {
    match e {
        ExpV::Bool(b) => b,
        ExpV::List(None) => false,
        _ => true,
    }
}

/// Decides truthiness of a value, the rule every conditional form uses.
pub fn to_bool(exp: &Exp) -> (r: bool)
    ensures
        r == spec_to_bool(exp@),
{
    match exp {
        Exp::Bool(b) => *b,
        Exp::List(None) => false,
        _ => true,
    }
}

/// The variant an expression carries, named for error reports.
#[derive(Clone, Copy, Debug, PartialEq, Eq, Structural)]
pub enum Kind {
    List,
    Num,
    Symbol,
    Str,
    Vector,
    Lambda,
    Func,
    Macro,
    Bool,
}

pub open spec fn spec_kind(e: ExpV) -> Kind {
    match e {
        ExpV::List(_) => Kind::List,
        ExpV::Num(_) => Kind::Num,
        ExpV::Symbol(_) => Kind::Symbol,
        ExpV::Str(_) => Kind::Str,
        ExpV::Vector(_) => Kind::Vector,
        ExpV::Lambda(_) => Kind::Lambda,
        ExpV::Func(_) => Kind::Func,
        ExpV::Macro(_) => Kind::Macro,
        ExpV::Bool(_) => Kind::Bool,
    }
}

/// Names the variant of an expression, for `TypeMismatch` reports.
pub fn kind_of(exp: &Exp) -> (k: Kind)
    ensures
        k == spec_kind(exp@),
{
    match exp {
        Exp::List(_) => Kind::List,
        Exp::Num(_) => Kind::Num,
        Exp::Symbol(_) => Kind::Symbol,
        Exp::Str(_) => Kind::Str,
        Exp::Vector(_) => Kind::Vector,
        Exp::Lambda(_) => Kind::Lambda,
        Exp::Func(_) => Kind::Func,
        Exp::Macro(_) => Kind::Macro,
        Exp::Bool(_) => Kind::Bool,
    }
}

/// Relies on `Arc::clone`: the returned handle refers to the same value.
#[verifier::external_body]
pub(crate) fn arc_dup<T>(a: &Arc<T>) -> (r: Arc<T>)
    ensures
        r == *a,
{
    Arc::clone(a)
}

impl Lambda {
    /// Makes a value-identical copy of a lambda: expressions are cheap to
    /// duplicate, and duplication never changes what a value denotes.
    pub fn duplicate(&self) -> (r: Lambda)
        ensures
            r@ == self@,
        decreases *self, 2int,
    {
        let mut params: Vec<String> = Vec::new();
        let n = self.args.len();
        for i in 0..n
            invariant
                params@.len() == i,
                n == self.args@.len(),
                forall|j: int| 0 <= j < i ==> params@[j] == self.args@[j],
        {
            params.push(self.args[i].clone());
        }
        let body = duplicate_vec(&self.body);
        let r = Lambda { args: params, body };
        proof {
            broadcast use lemma_exp_vec_view;

            assert(params@ =~= self.args@);
            assert(exp_vec_view(r.body) == exps_view(r.body@));
            assert(exp_vec_view(self.body) == exps_view(self.body@));
            assert(r@ =~= self@);
        }
        r
    }
}

impl Exp {
    /// Makes a value-identical copy: scalars are copied, cons cells are
    /// shared by reference count, owned sequences are duplicated element
    /// by element.
    pub fn duplicate(&self) -> (r: Exp)
        ensures
            r@ == self@,
        decreases *self, 0int,
    {
        match self {
            Exp::List(None) => Exp::List(None),
            Exp::List(Some(c)) => Exp::List(Some(arc_dup(c))),
            Exp::Num(n) => Exp::Num(*n),
            Exp::Symbol(s) => Exp::Symbol(s.clone()),
            Exp::Str(s) => Exp::Str(s.clone()),
            Exp::Vector(v) => {
                let w = duplicate_vec(v);
                let r = Exp::Vector(w);
                proof {
                    broadcast use lemma_exp_vec_view;

                    assert(exp_vec_view(w) == exps_view(w@));
                    assert(exp_vec_view(*v) == exps_view(v@));
                    assert(r@ =~= self@);
                }
                r
            },
            Exp::Lambda(l) => Exp::Lambda(l.duplicate()),
            Exp::Func(f) => Exp::Func(*f),
            Exp::Macro(m) => Exp::Macro(*m),
            Exp::Bool(b) => Exp::Bool(*b),
        }
    }
}

/// Duplicates the elements of a vector of expressions from `start` on.
pub fn duplicate_from(v: &Vec<Exp>, start: usize) -> (r: Vec<Exp>)
    requires
        start <= v@.len(),
    ensures
        exps_view(r@) == exps_view(v@).skip(start as int),
    decreases *v, 1int,
{
    let mut r: Vec<Exp> = Vec::new();
    let n = v.len();
    let mut i = start;
    while i < n
        invariant
            start <= i <= n,
            n == v@.len(),
            r@.len() == i - start,
            forall|j: int|
                0 <= j < i - start ==> exp_view(#[trigger] r@[j]) == exp_view(v@[start + j]),
        decreases n - i,
    {
        proof {
            vstd::std_specs::vec::axiom_vec_index_decreases(*v, i as int);
        }
        r.push(v[i].duplicate());
        i = i + 1;
    }
    proof {
        assert(exps_view(r@) =~= exps_view(v@).skip(start as int));
    }
    r
}

/// Duplicates every element of a vector of expressions.
pub fn duplicate_vec(v: &Vec<Exp>) -> (r: Vec<Exp>)
    ensures
        exps_view(r@) == exps_view(v@),
    decreases *v, 1int,
{
    let mut r: Vec<Exp> = Vec::new();
    let n = v.len();
    for i in 0..n
        invariant
            r@.len() == i,
            n == v@.len(),
            forall|j: int| 0 <= j < i ==> exp_view(#[trigger] r@[j]) == exp_view(v@[j]),
    {
        proof {
            vstd::std_specs::vec::axiom_vec_index_decreases(*v, i as int);
        }
        r.push(v[i].duplicate());
    }
    proof {
        assert(exps_view(r@) =~= exps_view(v@));
    }
    r
}

} // verus!
