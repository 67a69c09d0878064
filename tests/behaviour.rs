use names::{CaseFold, Classroom, Name, NameError, NameStr, NameString, Roster, Student};

#[test]
fn family_is_last_token_of_text() {
    assert_eq!(Some("Family"), NameString::from_str("Given Middle Family").family());
    assert_eq!(Some("Family"), NameString::from_str("  Given   Family  ").family());
    assert_eq!(Some("Family"), NameString::from_str("Given\tMiddle\nFamily\r\n").family());
    assert_eq!(None, NameString::from_str("").family());
    assert_eq!(None, NameString::from_str(" \t\n ").family());
}

#[test]
fn family_and_given_split_on_unicode_whitespace() {
    let name = NameStr::new("Jos\u{e9}\u{3000}Garc\u{ed}a\u{a0}L\u{f3}pez");
    assert_eq!(Some("L\u{f3}pez"), name.family());
    assert_eq!(Some("Jos\u{e9}"), name.given());
    assert_eq!(None, NameStr::new("\u{2003}\u{85}").family());
}

#[test]
fn given_needs_two_tokens() {
    assert_eq!(Some("Given"), NameString::from_str("Given Family").given());
    assert_eq!(Some("Given"), NameString::from_str(" Given  S.  Family ").given());
    assert_eq!(None, NameString::from_str("  Family  ").given());
    assert_eq!(None, NameString::from_str("   ").given());
    assert_eq!(None, NameString::from_str("").given());
}

#[test]
fn view_round_trip_gives_back_the_name() {
    let x = NameString::from_str("  Given S. Family ");
    assert_eq!(x, x.as_name_str().to_owned());
    let empty = NameString::new();
    assert_eq!(empty, empty.as_name_str().to_owned());
}

#[test]
fn uppercase_twice_gives_the_same_text() {
    let view = NameStr::new("Given Family");
    let once = view.to_uppercase();
    assert_eq!(CaseFold::Copied(NameString::from_str("GIVEN FAMILY")), once);
    let twice = once.as_name_str().to_uppercase();
    assert_eq!(once.as_name_str(), twice.as_name_str());

    let upper = NameStr::new("NAME");
    let once = upper.to_uppercase();
    assert!(matches!(once, CaseFold::Unchanged(v) if v == upper));
    let twice = once.as_name_str().to_uppercase();
    assert!(matches!(twice, CaseFold::Unchanged(_)));
}

#[test]
fn uppercase_leaves_non_ascii_letters() {
    let mut name = NameString::from_str("\u{e9}mile zola-1");
    name.uppercase();
    assert_eq!("\u{e9}MILE ZOLA-1", name.as_str());
    assert_eq!(
        CaseFold::Copied(NameString::from_str("\u{e9}MILE")),
        NameStr::new("\u{e9}mile").to_uppercase()
    );
}

#[test]
fn empty_text_is_in_every_case() {
    assert!(matches!(NameStr::new("").to_uppercase(), CaseFold::Unchanged(_)));
    assert!(matches!(NameStr::new("").to_lowercase(), CaseFold::Unchanged(_)));
}

#[test]
fn structured_name_examples() {
    let err = Name::try_from(NameStr::new(""));
    assert_eq!(Err(NameError::MissingFamilyName), err);
    assert_eq!(
        Err(NameError::MissingFamilyName),
        Name::try_from(NameStr::new(" \t "))
    );

    let n = Name::try_from(NameStr::new("Family")).unwrap();
    assert_eq!("", n.given().as_str());
    assert_eq!("Family", n.family().as_str());

    let n = Name::try_from(NameStr::new("Given Family")).unwrap();
    assert_eq!("Given", n.given().as_str());
    assert_eq!("Family", n.family().as_str());

    let n = NameStr::new("Given S. Family").try_into().unwrap();
    assert_eq!("Given", n.given().as_str());
    assert_eq!("Family", n.family().as_str());
}

#[test]
fn append_is_plain_concatenation() {
    let mut name = NameString::new();
    name.push("Given");
    name.push(" Family");
    assert_eq!("Given Family", name.as_str());
    assert_eq!(12, name.as_str().chars().count());
}

#[test]
fn lowercase_of_mixed_case_then_again() {
    let owned = NameString::from_str("Name");
    let lower = owned.to_lowercase();
    assert_eq!(CaseFold::Copied(NameString::from_str("name")), lower);
    let view = lower.as_name_str();
    let again = view.to_lowercase();
    assert!(matches!(again, CaseFold::Unchanged(v) if v == view));
    assert_eq!(NameString::from_str("name"), again.into_owned());
}

#[test]
fn writing_through_as_mut_str_changes_the_name() {
    let mut name = NameString::from_str("Name");
    name.as_mut_str().make_ascii_uppercase();
    assert_eq!("NAME", name.as_str());
}

#[test]
fn classroom_fills_seats_in_order_then_fails() {
    let mut c = Classroom::with_seats(2);
    assert_eq!(Ok(0), c.add_student(|seat| Student::new(NameStr::new("Ada"), seat)));
    assert_eq!(Ok(1), c.add_student(|seat| Student::new(NameStr::new("Grace"), seat)));
    assert_eq!(
        Err("No more seats available"),
        c.add_student(|seat| Student::new(NameStr::new("Alan"), seat))
    );
}

#[test]
fn roster_keeps_names_upper_cased() {
    let mut r = Roster::new();
    r.add_name(NameStr::new("Ada Lovelace"));
    r.add_name(NameStr::new("GRACE"));
    assert_eq!(2, r.names.len());
    assert_eq!(CaseFold::Copied(NameString::from_str("ADA LOVELACE")), r.names[0]);
    assert!(matches!(r.names[1], CaseFold::Unchanged(_)));
}
