//! A roster of names, each kept in upper case.
use vstd::prelude::*;

use crate::name::{is_upper_fold, CaseFold, NameStr};

verus! {

#[derive(Debug, PartialEq, Eq)]
pub struct Roster<'a> {
    pub names: Vec<CaseFold<'a>>,
}

impl<'a> Roster<'a> {
    /// An empty roster.
    pub fn new() -> (r: Roster<'a>)
        ensures
            r.names@ == Seq::<CaseFold<'a>>::empty(),
    {
        Roster { names: Vec::new() }
    }

    /// A roster of `names`, in order, each upper-cased.
    pub fn with_names(names: Vec<NameStr<'a>>) -> (r: Roster<'a>)
        ensures
            r.names@.len() == names@.len(),
            forall|i: int| 0 <= i < names@.len() ==> is_upper_fold(names@[i], #[trigger] r.names@[i]),
    {
        let mut roster = Roster::new();
        let mut i: usize = 0;
        while i < names.len()
            invariant
                i <= names@.len(),
                roster.names@.len() == i,
                forall|j: int| 0 <= j < i ==> is_upper_fold(names@[j], #[trigger] roster.names@[j]),
            decreases names@.len() - i,
        {
            let ghost prev = roster.names@;
            roster.add_name(names[i]);
            proof {
                assert forall|j: int| 0 <= j < i implies #[trigger] roster.names@[j] == prev[j] by {
                    assert(roster.names@.drop_last()[j] == roster.names@[j]);
                }
            }
            i = i + 1;
        }
        roster
    }

    /// Adds `name`, upper-cased, after the others.
    pub fn add_name(&mut self, name: NameStr<'a>)
        ensures
            final(self).names@.len() == old(self).names@.len() + 1,
            final(self).names@.drop_last() == old(self).names@,
            is_upper_fold(name, final(self).names@.last()),
    {
        self.names.push(name.to_uppercase());
        proof {
            assert(self.names@.drop_last() =~= old(self).names@);
        }
    }
}

} // verus!
