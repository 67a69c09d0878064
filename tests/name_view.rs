use names::{NameStr, NameString};

#[test]
fn name_string_push() {
    let expected = NameString::from("Name".to_string());
    let mut given = NameString::new();
    given.push("Name");
    assert_eq!(expected, given);
}

#[test]
fn name_string_from_str() {
    let mut expected = NameString::new();
    expected.push("Name");
    let given = NameString::from_str("Name");
    assert_eq!(expected, given);
}

#[test]
fn name_string_as_name_str() {
    let expected = NameStr::new("Name");
    let mut given = NameString::new();
    given.push("Name");
    assert_eq!(expected, given.as_name_str());
}

#[test]
fn name_string_into_string() {
    let expected = String::from("Name");
    let mut given = NameString::new();
    given.push("Name");
    assert_eq!(expected, given.into_string());
}

#[test]
fn name_string_deref() {
    let given = NameString::from_str("Name");
    let expected = NameStr::new("Name");
    let view: NameStr = given.as_name_str();
    assert_eq!(expected, view);
}

#[test]
fn name_string_as_ref() {
    let given = NameString::from_str("Name");
    let expected = NameStr::new("Name");
    assert_eq!(expected, given.as_ref());
}

#[test]
fn name_str_family() {
    let name = NameStr::new("");
    assert_eq!(None, name.family());

    let name = NameStr::new("Family");
    assert_eq!(Some("Family"), name.family());

    let name = NameStr::new("Given Family");
    assert_eq!(Some("Family"), name.family());
}

#[test]
fn name_str_given() {
    let name = NameStr::new("");
    assert_eq!(None, name.given());

    let name = NameStr::new("Family");
    assert_eq!(None, name.given());

    let name = NameStr::new("Given Family");
    assert_eq!(Some("Given"), name.given());

    let name = NameStr::new("Given S. Family");
    assert_eq!(Some("Given"), name.given());
}

#[test]
fn name_str_to_name_string() {
    let name_str = NameStr::new("Given S. Family");
    let mut name_string = NameString::new();
    name_string.push("Given S. Family");
    assert_eq!(name_string, name_str.to_name_string());
}
