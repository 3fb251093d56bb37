use greeter::dump::render;
use greeter::person::Person;

#[test]
fn nameless_person_renders_the_absence_marker() {
    let person = Person::new();
    assert_eq!(person.describe(), "Person { name: None }");
}

#[test]
fn named_person_renders_the_presence_marker() {
    let mut person = Person::new();
    person.set_name("Parson".to_string());
    assert_eq!(person.describe(), "Person { name: Some(\"Parson\") }");
}

#[test]
fn describe_matches_debug_formatting() {
    let mut person = Person::new();
    assert_eq!(person.describe(), format!("{:?}", person));
    for name in ["Parson", "", "two words", "say \"hi\"", "back\\slash", "line\nbreak", "\u{e9}"] {
        person.set_name(name.to_string());
        assert_eq!(person.describe(), format!("{:?}", person));
    }
}

#[test]
fn describe_escapes_what_needs_it() {
    let mut person = Person::new();
    person.set_name("a\"b".to_string());
    assert_eq!(person.describe(), "Person { name: Some(\"a\\\"b\") }");
}

#[test]
fn render_wraps_the_text_it_is_given() {
    assert_eq!(render(None), "Person { name: None }");
    assert_eq!(render(Some("\"P\"")), "Person { name: Some(\"P\") }");
    assert_eq!(render(Some("")), "Person { name: Some() }");
}
