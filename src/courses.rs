//! A list of courses.
use vstd::prelude::*;

verus! {

pub struct Courses {
    inner: Vec<String>,
}

impl View for Courses {
    /// The courses, in the order they were added.
    type V = Seq<String>;

    closed spec fn view(&self) -> Seq<String> {
        self.inner@
    }
}

impl Courses {
    /// No courses.
    pub fn new() -> (r: Courses)
        ensures
            r@ == Seq::<String>::empty(),
    {
        Courses { inner: Vec::new() }
    }

    /// Adds `course`, converted, after the others.
    pub fn add_course<I: Into<String>>(&mut self, course: I)
        ensures
            final(self)@.len() == old(self)@.len() + 1,
            final(self)@.drop_last() == old(self)@,
            call_ensures(I::into, (course,), final(self)@.last()),
    {
        self.inner.push(course.into());
        proof {
            assert(self@.drop_last() =~= old(self)@);
        }
    }
}

} // verus!
