use greeter::person::{decorate, NameError, Person, FALLBACK, PREFIX};

fn named(name: &str) -> Person {
    let mut person = Person::new();
    person.set_name(name.to_string());
    person
}

#[test]
fn new_person_has_no_name() {
    let person = Person::new();
    assert!(person.name.is_none());
}

#[test]
fn set_name_stores_the_name() {
    let person = named("Parson");
    assert_eq!(person.name, Some("Parson".to_string()));
}

#[test]
fn set_name_replaces_an_earlier_name() {
    let mut person = named("Parson");
    person.set_name("Harry".to_string());
    assert_eq!(person.name, Some("Harry".to_string()));
}

#[test]
fn constants_hold_the_fixed_texts() {
    assert_eq!(FALLBACK, "nobody");
    assert_eq!(PREFIX, "Dj");
}

#[test]
fn present_name_is_returned_by_every_plain_strategy() {
    let person = named("X");
    assert_eq!(person.name_or_fallback(), "X");
    assert_eq!(person.name_by_cases(), "X");
    assert_eq!(person.forced_name(), "X");
    assert_eq!(person.checked_name(), Ok("X".to_string()));
}

#[test]
fn absent_name_gives_the_fallback() {
    let person = Person::new();
    assert_eq!(person.name_or_fallback(), "nobody");
    assert_eq!(person.name_by_cases(), "nobody");
}

#[test]
fn absent_name_is_an_invalid_state_for_forced_extraction() {
    let person = Person::new();
    assert_eq!(person.checked_name(), Err(NameError::InvalidState));
}

#[test]
fn present_name_is_decorated_prefix_first() {
    let person = named("Y");
    assert_eq!(person.decorated_by_map(), "DjY");
    assert_eq!(person.decorated_by_cases(), "DjY");
}

#[test]
fn decorating_ways_agree_on_several_names() {
    for name in ["", "Harry", "Dj", "nobody", "a b", "\u{e9}t\u{e9}"] {
        let person = named(name);
        assert_eq!(person.decorated_by_map(), person.decorated_by_cases());
        assert_eq!(person.decorated_by_map(), format!("Dj{}", name));
    }
}

#[test]
fn absent_name_is_not_decorated() {
    let person = Person::new();
    assert_eq!(person.decorated_by_map(), "nobody");
    assert_eq!(person.decorated_by_cases(), "nobody");
}

#[test]
fn decorate_puts_the_prefix_in_front() {
    assert_eq!(decorate("Harry".to_string()), "DjHarry");
    assert_eq!(decorate(String::new()), "Dj");
}

#[test]
fn empty_name_is_present() {
    let person = named("");
    assert_eq!(person.name_or_fallback(), "");
    assert_eq!(person.name_by_cases(), "");
    assert_eq!(person.forced_name(), "");
    assert_eq!(person.checked_name(), Ok(String::new()));
}

#[test]
fn a_name_equal_to_the_fallback_is_still_decorated() {
    let person = named("nobody");
    assert_eq!(person.name_or_fallback(), "nobody");
    assert_eq!(person.decorated_by_cases(), "Djnobody");
}

#[test]
fn reading_does_not_change_the_person() {
    let person = named("Parson");
    let _ = person.name_or_fallback();
    let _ = person.decorated_by_map();
    let _ = person.forced_name();
    assert_eq!(person.name, Some("Parson".to_string()));
}

#[test]
fn two_people_do_not_interfere() {
    let mut parson = Person::new();
    let mut harry = Person::new();

    parson.set_name("Parson".to_string());
    assert_eq!(harry.name_or_fallback(), "nobody");
    assert_eq!(harry.name_by_cases(), "nobody");
    assert_eq!(harry.decorated_by_map(), "nobody");
    assert_eq!(harry.checked_name(), Err(NameError::InvalidState));

    harry.set_name("Harry".to_string());
    assert_eq!(parson.name_or_fallback(), "Parson");
    assert_eq!(parson.name_by_cases(), "Parson");
    assert_eq!(parson.forced_name(), "Parson");
    assert_eq!(parson.decorated_by_cases(), "DjParson");
    assert_eq!(harry.decorated_by_cases(), "DjHarry");
}
