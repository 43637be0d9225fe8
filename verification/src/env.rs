//! The chain of scopes. Local lookups fall through parent scopes and
//! finally to the global table; `insert` writes the innermost scope only.

use crate::err::LispError;
use crate::exp::{Exp, ExpV, Kind};
use crate::semantics::{spec_set_global, StateV};
use crate::table::Table;
use std::sync::Arc;
use vstd::prelude::*;

verus! {

/// One scope with an optional shared parent; a singly-rooted chain.
/// A new environment is created on every lambda invocation and every
/// `let`, and discarded when the last shared reference to it drops.
pub struct Env {
    local: Table,
    upper: Option<Arc<Env>>,
}

/// The model of a chain of scopes: the innermost scope first.
pub type EnvV = Seq<Map<Seq<char>, ExpV>>;

spec fn env_view(e: Env) -> EnvV
    decreases e,
{
    match e.upper {
        None => seq![e.local@],
        Some(u) => seq![e.local@] + env_view(*u),
    }
}

impl View for Env {
    type V = EnvV;

    closed spec fn view(&self) -> EnvV {
        env_view(*self)
    }
}

/// Resolution of a name against a chain of scopes: the innermost binding
/// wins; when the chain is exhausted the global table answers.
pub open spec fn spec_lookup(
    chain: EnvV,
    globals: Map<Seq<char>, ExpV>,
    name: Seq<char>,
) -> Option<ExpV>
    decreases chain.len(),
{
    if chain.len() == 0 {
        if globals.contains_key(name) {
            Some(globals[name])
        } else {
            None
        }
    } else if chain[0].contains_key(name) {
        Some(chain[0][name])
    } else {
        spec_lookup(chain.drop_first(), globals, name)
    }
}

impl Env {
    /// A fresh, parent-less environment of one empty scope.
    pub fn new() -> (r: Env)
        ensures
            r@ =~= seq![Map::<Seq<char>, ExpV>::empty()],
    {
        Env { local: Table::new(), upper: None }
    }

    /// A fresh child scope over `upper`; the parent is shared, not copied.
    pub fn from_upper(upper: &Arc<Env>) -> (r: Env)
        ensures
            r@ =~= seq![Map::<Seq<char>, ExpV>::empty()] + (**upper)@,
    {
        Env { local: Table::new(), upper: Some(crate::exp::arc_dup(upper)) }
    }

    /// Binds `symbol` in the innermost scope only; parents and the global
    /// table are never written through an environment.
    pub fn insert(&mut self, symbol: &str, val: Exp)
        ensures
            final(self)@ =~= old(self)@.update(0, old(self)@[0].insert(symbol@, val@)),
            final(self)@.len() == old(self)@.len(),
    {
        self.local.insert(symbol, val);
    }

    /// Resolves `symbol` through the chain, then through `globals`;
    /// reports `UnboundSymbol` when it is absent everywhere.
    pub fn get(&self, symbol: &str, globals: &Table) -> (r: Result<Exp, LispError>)
        ensures
            match spec_lookup(self@, globals@, symbol@) {
                Some(v) => r matches Ok(e) && e@ == v,
                None => r matches Err(e) && e@ == crate::err::ErrV::UnboundSymbol(symbol@),
            },
        decreases *self,
    {
        match self.local.get(symbol) {
            Some(v) => Ok(v),
            None => {
                match &self.upper {
                    Some(u) => {
                        proof {
                            assert(self@.drop_first() =~= (**u)@);
                        }
                        u.get(symbol, globals)
                    },
                    None => {
                        proof {
                            assert(self@.drop_first() =~= Seq::<Map<Seq<char>, ExpV>>::empty());
                        }
                        match globals.get(symbol) {
                            Some(v) => Ok(v),
                            None => Err(LispError::UnboundSymbol(symbol.to_owned())),
                        }
                    },
                }
            },
        }
    }
}

/// A top-level definition: the name must be a symbol; the value evaluates
/// in a fresh, parent-less environment, so it cannot see caller locals;
/// the result is written to the global table unconditionally.
pub fn set_global(
    sym: &Exp,
    val: &Exp,
    g: &mut Table,
    out: &mut Vec<String>,
    fuel: u64,
) -> (r: Result<(), LispError>)
    ensures
        ({
            let (sr, st1) = spec_set_global(
                sym@,
                val@,
                StateV { globals: old(g)@, out: old(out).deep_view() },
                fuel as nat,
            );
            (match r {
                Ok(_) => sr is Ok,
                Err(e) => sr matches Err(se) && e@ == se,
            }) && final(g)@ == st1.globals && final(out).deep_view() == st1.out
        }),
    decreases fuel, 0int, 1int,
{
    if fuel == 0 {
        return Err(LispError::StackOverflow);
    }
    match sym {
        Exp::Symbol(place) => {
            let fresh = Arc::new(Env::new());
            match crate::eval::eval(val, &fresh, g, out, fuel - 1) {
                Ok(v) => {
                    g.insert(place.as_str(), v);
                    Ok(())
                },
                Err(e) => Err(e),
            }
        },
        other => Err(LispError::TypeMismatch(Kind::Symbol, crate::exp::kind_of(other))),
    }
}

} // verus!
