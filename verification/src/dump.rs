//! The structural rendering of a person: the type's name, the field's name,
//! and either the marker of absence or the marker of presence around the
//! quoted name.

use vstd::prelude::*;
use crate::person::Person;

verus! {

/// What `Debug` formatting makes of a string: the text between double quotes,
/// with the characters that need it escaped.
pub uninterp spec fn quoted(text: Seq<char>) -> Seq<char>;

/// Calls the `Debug` implementation of `str` through `format!`. The contract
/// claims only that the output is a function of the text; it gives that
/// function the name [`quoted`] and says nothing of what it holds.
#[verifier::external_body]
fn quote(text: &str) -> (out: String)
    ensures
        out@ == quoted(text@),
{
    format!("{:?}", text)
}

/// The rendering, given the name as it stands after quoting.
pub open spec fn rendering(quoted_name: Option<Seq<char>>) -> Seq<char> {
    match quoted_name {
        Some(text) => "Person { name: Some("@ + text + ") }"@,
        None => "Person { name: None }"@,
    }
}

/// The model of a person with the name, if any, quoted.
pub open spec fn quoted_name(name: Option<Seq<char>>) -> Option<Seq<char>> {
    match name {
        Some(text) => Some(quoted(text)),
        None => None,
    }
}

/// Renders a person whose name, if any, has been quoted already.
pub fn render(quoted_name: Option<&str>) -> (out: String)
    ensures
        out@ == rendering(
            match quoted_name {
                Some(text) => Some(text@),
                None => None,
            },
        ),
{
    match quoted_name {
        Some(text) => "Person { name: Some(".to_string().concat(text).concat(") }"),
        None => "Person { name: None }".to_string(),
    }
}

impl Person {
    /// The structural rendering of this person, as `{:?}` gives it.
    pub fn describe(&self) -> (out: String)
        ensures
            out@ == rendering(quoted_name(self@)),
    {
        match &self.name {
            Some(name) => {
                let text = quote(name.as_str());
                render(Some(text.as_str()))
            },
            None => render(None),
        }
    }
}

} // verus!
