//! People's names: an owned name, a borrowed view of one, and the split of a
//! full name into its given and family parts; with a few holders of names
//! around them (a person, a student, a roster, a classroom, a course list).
pub mod case;
pub mod classroom;
pub mod courses;
pub mod laws;
pub mod name;
pub mod person;
pub mod roster;
pub mod student;
pub mod tokens;

pub use classroom::Classroom;
pub use courses::Courses;
pub use name::{CaseFold, Name, NameError, NameStr, NameString};
pub use person::Person;
pub use roster::Roster;
pub use student::{InClass, Recess, Student};
