//! A mapping from names to expressions, used for the local scope of every
//! environment frame and for the process-wide global table.

use crate::exp::{exp_view, Exp, ExpV};
use vstd::prelude::*;

verus! {

/// A name-to-expression mapping. Later insertions shadow earlier ones.
pub struct Table {
    entries: Vec<(String, Exp)>,
}

/// The model of a table: a finite map, built left to right so that the
/// latest binding of a name wins.
spec fn table_view(s: Seq<(String, Exp)>) -> Map<Seq<char>, ExpV>
    decreases s.len(),
{
    if s.len() == 0 {
        Map::empty()
    } else {
        table_view(s.drop_last()).insert(s.last().0@, exp_view(s.last().1))
    }
}

impl View for Table {
    type V = Map<Seq<char>, ExpV>;

    closed spec fn view(&self) -> Map<Seq<char>, ExpV> {
        table_view(self.entries@)
    }
}

proof fn lemma_table_view_find(s: Seq<(String, Exp)>, name: Seq<char>, j: int)
    requires
        0 <= j < s.len(),
        s[j].0@ == name,
        forall|k: int| j < k < s.len() ==> (#[trigger] s[k].0)@ != name,
    ensures
        table_view(s).contains_key(name),
        table_view(s)[name] == exp_view(s[j].1),
    decreases s.len(),
{
    if j < s.len() - 1 {
        assert(s.drop_last()[j] == s[j]);
        assert(forall|k: int|
            j < k < s.drop_last().len() ==> (#[trigger] s.drop_last()[k].0)@ != name);
        lemma_table_view_find(s.drop_last(), name, j);
    }
}

proof fn lemma_table_view_absent(s: Seq<(String, Exp)>, name: Seq<char>)
    requires
        forall|k: int| 0 <= k < s.len() ==> (#[trigger] s[k].0)@ != name,
    ensures
        !table_view(s).contains_key(name),
    decreases s.len(),
{
    if s.len() > 0 {
        assert(forall|k: int|
            0 <= k < s.drop_last().len() ==> (#[trigger] s.drop_last()[k].0)@ != name);
        lemma_table_view_absent(s.drop_last(), name);
    }
}

impl Table {
    /// An empty table.
    pub fn new() -> (r: Table)
        ensures
            r@ == Map::<Seq<char>, ExpV>::empty(),
    {
        Table { entries: Vec::new() }
    }

    /// Inserts or overwrites the binding of `symbol`.
    pub fn insert(&mut self, symbol: &str, val: Exp)
        ensures
            final(self)@ == old(self)@.insert(symbol@, exp_view(val)),
    {
        let ghost old_entries = self.entries@;
        let key: String = symbol.to_owned();
        self.entries.push((key, val));
        proof {
            assert(self.entries@.drop_last() =~= old_entries);
        }
    }

    /// Looks a name up; the latest binding wins. The returned value is a
    /// duplicate of the stored one.
    pub fn get(&self, symbol: &str) -> (r: Option<Exp>)
        ensures
            match r {
                Some(v) => self@.contains_key(symbol@) && v@ == self@[symbol@],
                None => !self@.contains_key(symbol@),
            },
    {
        let key: String = symbol.to_owned();
        let n = self.entries.len();
        let mut j = n;
        while j > 0
            invariant
                j <= n,
                n == self.entries@.len(),
                key@ == symbol@,
                forall|k: int| j <= k < n ==> (#[trigger] self.entries@[k].0)@ != symbol@,
            decreases j,
    {
            j = j - 1;
            if self.entries[j].0 == key {
                proof {
                    lemma_table_view_find(self.entries@, symbol@, j as int);
                }
                return Some(self.entries[j].1.duplicate());
            }
        }
        proof {
            lemma_table_view_absent(self.entries@, symbol@);
        }
        None
    }
}

} // verus!
