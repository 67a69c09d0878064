use names::{Classroom, Courses, InClass, NameStr, NameString, Person, Recess, Roster, Student};

#[test]
fn test_classroom_add_student() {
    let mut c = Classroom::new();
    let seat = c.add_student(|seat| Student::new(NameString::from_str("Name"), seat));

    assert_eq!(Ok(0), seat);
}

#[test]
fn test_classroom_add_student_fails() {
    let mut c = Classroom::with_seats(0);
    let seat = c.add_student(|seat| Student::new(NameString::from_str("Name"), seat));

    assert_eq!(Err("No more seats available"), seat);
}

#[test]
fn test_courses_add_course() {
    let course1 = "Math";
    let course2 = "Literature".to_string();

    let mut courses = Courses::new();
    courses.add_course(course1);
    courses.add_course(course2);
}

#[test]
fn test_person_new() {
    let o_name = NameString::from_str("Name");
    let from_owned = Person::new(o_name);

    let b_name = NameStr::new("Name");
    let from_view = Person::new(b_name);

    assert_eq!(from_owned, from_view);
}

#[test]
fn test_roster_add_name() {
    let b_name = NameStr::new("Name");
    let o_name = NameString::from_str("Name");

    let o_name2 = NameString::from_str("Name");
    let name_view = o_name2.as_name_str();

    let mut r = Roster::new();
    r.add_name(b_name);
    r.add_name(o_name.as_name_str());
    r.add_name(o_name.as_ref());
    r.add_name(name_view);
}

#[test]
fn test_roster_with_names() {
    let owned_name = NameString::from_str("Ada Lovelace");
    let names = vec![NameStr::new("Grace Hopper"), owned_name.as_name_str()];

    let given = Roster::with_names(names);

    let mut expected = Roster::new();
    expected.add_name(NameStr::new("Grace Hopper"));
    expected.add_name(NameStr::new("Ada Lovelace"));

    assert_eq!(expected, given);
}

#[test]
fn test_student_state_changes() {
    let me = Student::new(NameString::from_str("Herman"), 0);
    let me_in_class = InClass { inner: me };
    let me_at_recess = me_in_class.play();
    let _me_back_in_class = me_at_recess.learn();

    let me = Student::new(NameString::from_str("Herman"), 0);
    let me_at_recess = Recess { inner: me };
    assert_eq!("WOO!", me_at_recess.shout());
    let _me_in_class = me_at_recess.learn();
}

#[test]
fn test_student_deref_name_str() {
    let me = Student::new(NameString::from_str("Herman Radtke"), 0);
    assert_eq!(Some("Herman"), me.given());
}

#[test]
fn test_in_class_deref_name_str() {
    let me = Student::new(NameString::from_str("Herman Radtke"), 0);
    let me_in_class = InClass { inner: me };
    assert_eq!(Some("Herman"), me_in_class.given());
}
