//! A classroom with a fixed number of seats.
use vstd::prelude::*;

use crate::student::Student;

verus! {

/// The number of seats in a classroom made by `Classroom::new`.
pub const DEFAULT_SEATS: usize = 32;

#[derive(Debug, PartialEq, Eq)]
pub struct Classroom {
    seats: Vec<Option<Student>>,
}

impl View for Classroom {
    /// The seats, in order: each one empty or taken by a student.
    type V = Seq<Option<Student>>;

    closed spec fn view(&self) -> Seq<Option<Student>> {
        self.seats@
    }
}

/// Seat `seat` is the first empty one of `seats`.
pub open spec fn first_free(seats: Seq<Option<Student>>, seat: int) -> bool {
    &&& 0 <= seat < seats.len()
    &&& seats[seat] is None
    &&& forall|j: int| 0 <= j < seat ==> #[trigger] seats[j] is Some
}

/// Every seat of `seats` is taken.
pub open spec fn all_taken(seats: Seq<Option<Student>>) -> bool {
    forall|j: int| 0 <= j < seats.len() ==> #[trigger] seats[j] is Some
}

impl Classroom {
    /// A classroom of `DEFAULT_SEATS` empty seats.
    pub fn new() -> (r: Classroom)
        ensures
            r@.len() == DEFAULT_SEATS,
            forall|i: int| 0 <= i < r@.len() ==> #[trigger] r@[i] is None,
    {
        Classroom::with_seats(DEFAULT_SEATS)
    }

    /// A classroom of `seat_cnt` empty seats.
    pub fn with_seats(seat_cnt: usize) -> (r: Classroom)
        ensures
            r@.len() == seat_cnt,
            forall|i: int| 0 <= i < r@.len() ==> #[trigger] r@[i] is None,
    {
        let mut seats: Vec<Option<Student>> = Vec::new();
        let mut i: usize = 0;
        while i < seat_cnt
            invariant
                i <= seat_cnt,
                seats@.len() == i,
                forall|j: int| 0 <= j < i ==> #[trigger] seats@[j] is None,
            decreases seat_cnt - i,
        {
            seats.push(None);
            i = i + 1;
        }
        Classroom { seats }
    }

    /// Seats the student that `f` makes for the first empty seat, which `f`
    /// is told, and returns that seat; fails where every seat is taken.
    pub fn add_student<F: FnOnce(usize) -> Student>(&mut self, f: F) -> (r: Result<
        usize,
        &'static str,
    >)
        requires
            forall|seat: usize| call_requires(f, (seat,)),
        ensures
            match r {
                Ok(seat) => {
                    &&& first_free(old(self)@, seat as int)
                    &&& final(self)@ == old(self)@.update(seat as int, final(self)@[seat as int])
                    &&& final(self)@[seat as int] matches Some(s) && call_ensures(f, (seat,), s)
                },
                Err(msg) => {
                    &&& all_taken(old(self)@)
                    &&& final(self)@ == old(self)@
                    &&& msg@ == "No more seats available"@
                },
            },
    {
        let mut i: usize = 0;
        while i < self.seats.len()
            invariant
                i <= self.seats@.len(),
                self@ == old(self)@,
                forall|seat: usize| call_requires(f, (seat,)),
                forall|j: int| 0 <= j < i ==> #[trigger] self.seats@[j] is Some,
            decreases self.seats@.len() - i,
        {
            if self.seats[i].is_none() {
                let student = f(i);
                self.seats[i] = Some(student);
                proof {
                    assert(self@ =~= old(self)@.update(i as int, self@[i as int]));
                }
                return Ok(i);
            }
            i = i + 1;
        }
        Err("No more seats available")
    }
}

} // verus!
