//! A person, known by name.
use vstd::prelude::*;

use crate::name::NameString;

verus! {

#[derive(Debug, PartialEq, Eq)]
pub struct Person {
    pub name: NameString,
}

impl Person {
    /// A person whose name is `n`, converted.
    pub fn new<I: Into<NameString>>(n: I) -> (r: Person)
        ensures
            call_ensures(I::into, (n,), r.name),
    {
        Person { name: n.into() }
    }
}

fn check(s: &str) {
    let p = Person::new(crate::name::NameStr::new(s));
    assert(p.name@ == s@);
}

} // verus!
