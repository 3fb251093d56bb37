//! The fixed sequence of greetings: two people, named one after the other,
//! greeted in six lines by the different ways of reading a name.

use vstd::prelude::*;
use crate::dump::{quoted_name, rendering};
use crate::greeting::{greeting_line, numbered};
use crate::person::{decorated, decorated_or_fallback, forced, or_fallback, Person};

verus! {

/// The name that the first person is given.
pub const FIRST_NAME: &'static str = "Parson";

/// The name that the second person is given, after the third line.
pub const SECOND_NAME: &'static str = "Harry";

/// The six lines, in order.
pub open spec fn script_lines() -> Seq<Seq<char>> {
    let first = Some(FIRST_NAME@);
    let second = Some(SECOND_NAME@);
    seq![
        numbered(1, rendering(quoted_name(first))),
        numbered(2, forced(first)),
        numbered(3, or_fallback(None)),
        numbered(4, or_fallback(first)),
        numbered(5, decorated_or_fallback(second)),
        numbered(6, or_fallback(decorated(second))),
    ]
}

/// Runs the sequence and returns its lines, ready to be written out.
///
/// The second person is still nameless when the third line is made, whatever
/// was done to the first person before.
pub fn greeting_script() -> (lines: Vec<String>)
    ensures
        lines@.len() == 6,
        forall|i: int| 0 <= i < 6 ==> (#[trigger] lines@[i])@ == script_lines()[i],
{
    let mut parson = Person::new();
    let mut harry = Person::new();
    let mut lines: Vec<String> = Vec::new();

    parson.set_name(FIRST_NAME.to_string());
    lines.push(greeting_line(1, parson.describe().as_str()));
    lines.push(greeting_line(2, parson.forced_name().as_str()));
    lines.push(greeting_line(3, harry.name_or_fallback().as_str()));
    lines.push(greeting_line(4, parson.name_by_cases().as_str()));

    harry.set_name(SECOND_NAME.to_string());
    lines.push(greeting_line(5, harry.decorated_by_cases().as_str()));
    lines.push(greeting_line(6, harry.decorated_by_map().as_str()));
    lines
}

} // verus!
