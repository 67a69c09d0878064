//! A student in a seat, and the two states a student moves between.
use vstd::prelude::*;

use crate::name::NameString;

verus! {

#[derive(Debug, PartialEq, Eq)]
pub struct Student {
    name: NameString,
    seat: usize,
}

impl View for Student {
    /// The student's name and seat.
    type V = (Seq<char>, usize);

    closed spec fn view(&self) -> (Seq<char>, usize) {
        (self.name@, self.seat)
    }
}

impl Student {
    /// A student named `name`, converted, in seat `seat`.
    pub fn new<I: Into<NameString>>(name: I, seat: usize) -> (r: Student)
        ensures
            exists|n: NameString| #[trigger] call_ensures(I::into, (name,), n) && r@ == (n@, seat),
    {
        let n = name.into();
        let r = Student { name: n, seat };
        assert(call_ensures(I::into, (name,), r.name));
        r
    }

    pub fn name(&self) -> (r: &NameString)
        ensures
            r@ == self@.0,
    {
        &self.name
    }
}

impl core::ops::Deref for Student {
    type Target = NameString;

    fn deref(&self) -> (r: &NameString)
        ensures
            r@ == self@.0,
    {
        &self.name
    }
}

/// Someone in class.
pub struct InClass<T> {
    pub inner: T,
}

/// Someone at recess.
pub struct Recess<T> {
    pub inner: T,
}

impl<T> InClass<T> {
    /// Off to recess.
    pub fn play(self) -> (r: Recess<T>)
        ensures
            r.inner == self.inner,
    {
        Recess { inner: self.inner }
    }
}

impl<T> core::ops::Deref for InClass<T> {
    type Target = T;

    fn deref(&self) -> (r: &T)
        ensures
            *r == self.inner,
    {
        &self.inner
    }
}

impl<T> Recess<T> {
    /// Back to class.
    pub fn learn(self) -> (r: InClass<T>)
        ensures
            r.inner == self.inner,
    {
        InClass { inner: self.inner }
    }

    pub fn shout(&self) -> (r: &str)
        ensures
            r@ == "WOO!"@,
    {
        "WOO!"
    }
}

impl<T> core::ops::Deref for Recess<T> {
    type Target = T;

    fn deref(&self) -> (r: &T)
        ensures
            *r == self.inner,
    {
        &self.inner
    }
}

} // verus!
