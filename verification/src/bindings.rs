//! The constant bindings: an externally built, read-only association
//! from canonical constant name to an already-evaluated expression
//! value.
//!
//! The container is a list of entries whose ghost image is a map;
//! binding a name again shadows the earlier entry, and lookup returns
//! the latest binding, exactly as the map image says.

use vstd::prelude::*;

use crate::ast::TypedExpression;
use crate::model::SpecBindings;

verus! {

/// One name bound to an already-evaluated value.
struct ConstantBinding {
    name: String,
    value: TypedExpression,
}

/// A mapping from constant name to already-evaluated expression
/// value, built by an earlier reduction step and only ever read by
/// the pass.
pub struct ConstantDefinitions {
    entries: Vec<ConstantBinding>,
}

/// The map image of the entry list: entries are added from the front,
/// so a later entry for the same name shadows an earlier one.
spec fn bindings_map(s: Seq<ConstantBinding>) -> SpecBindings
    decreases s.len(),
{
    if s.len() == 0 {
        Map::empty()
    } else {
        bindings_map(s.drop_last()).insert(s.last().name@, s.last().value@)
    }
}

impl View for ConstantDefinitions {
    type V = SpecBindings;

    closed spec fn view(&self) -> SpecBindings {
        bindings_map(self.entries@)
    }
}

/// If position `i` holds the latest entry for `k`, the map image
/// binds `k` to that entry's value.
proof fn lemma_bindings_map_found(s: Seq<ConstantBinding>, k: Seq<char>, i: int)
    requires
        0 <= i < s.len(),
        s[i].name@ == k,
        forall|j: int| i < j < s.len() ==> s[j].name@ != k,
    ensures
        bindings_map(s).dom().contains(k),
        bindings_map(s)[k] == s[i].value@,
    decreases s.len(),
{
    if i < s.len() - 1 {
        lemma_bindings_map_found(s.drop_last(), k, i);
    }
}

/// If no entry carries `k`, the map image does not bind `k`.
proof fn lemma_bindings_map_absent(s: Seq<ConstantBinding>, k: Seq<char>)
    requires
        forall|j: int| 0 <= j < s.len() ==> s[j].name@ != k,
    ensures
        !bindings_map(s).dom().contains(k),
    decreases s.len(),
{
    if s.len() > 0 {
        lemma_bindings_map_absent(s.drop_last(), k);
    }
}

impl ConstantDefinitions {
    /// An empty set of bindings.
    pub fn new() -> (r: Self)
        ensures
            r@ == Map::<Seq<char>, crate::ast::SpecExpression>::empty(),
    {
        ConstantDefinitions { entries: Vec::new() }
    }

    /// Bind `name` to `value`; an earlier binding of the same name is
    /// shadowed.
    pub fn insert(&mut self, name: String, value: TypedExpression)
        ensures
            final(self)@ == old(self)@.insert(name@, value@),
    {
        let ghost prior = self.entries@;
        self.entries.push(ConstantBinding { name, value });
        proof {
            assert(self.entries@.drop_last() =~= prior);
        }
    }

    /// Look a name up; the latest binding for it wins.
    pub fn get(&self, name: &String) -> (r: Option<&TypedExpression>)
        ensures
            match r {
                Some(e) => self@.dom().contains(name@) && e@ == self@[name@],
                None => !self@.dom().contains(name@),
            },
    {
        let n = self.entries.len();
        let mut i: usize = n;
        while i > 0
            invariant
                i <= n,
                n == self.entries@.len(),
                forall|j: int| i <= j < n ==> self.entries@[j].name@ != name@,
            decreases i,
        {
            i = i - 1;
            let entry = &self.entries[i];
            if entry.name == *name {
                proof {
                    lemma_bindings_map_found(self.entries@, name@, i as int);
                }
                return Some(&entry.value);
            }
        }
        proof {
            lemma_bindings_map_absent(self.entries@, name@);
        }
        None
    }
}

} // verus!
