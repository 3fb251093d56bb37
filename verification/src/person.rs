//! A person with an optional name, and the ways of reading that name.
//!
//! The model of a person is its name as an `Option<Seq<char>>`. Every way of
//! reading the name is a pure function of that model; the executable methods
//! are proved to compute it.

use vstd::prelude::*;

verus! {

/// The text that stands in for a missing name.
pub const FALLBACK: &'static str = "nobody";

/// The text put in front of a name by the decorating strategies.
pub const PREFIX: &'static str = "Dj";

/// Why a name could not be handed out.
#[derive(Debug, Clone, Copy, PartialEq, Eq, Structural)]
pub enum NameError {
    /// The person has no name.
    InvalidState,
}

/// The model of [`FALLBACK`].
pub open spec fn fallback() -> Seq<char> {
    FALLBACK@
}

/// The model of [`PREFIX`].
pub open spec fn prefix() -> Seq<char> {
    PREFIX@
}

/// The name of a person who has one.
pub open spec fn forced(name: Option<Seq<char>>) -> Seq<char>
    recommends
        name is Some,
{
    name->0
}

/// The name if there is one, the fallback otherwise.
pub open spec fn or_fallback(name: Option<Seq<char>>) -> Seq<char> {
    match name {
        Some(text) => text,
        None => fallback(),
    }
}

/// The name with the prefix in front of it, where there is a name.
pub open spec fn decorated(name: Option<Seq<char>>) -> Option<Seq<char>> {
    match name {
        Some(text) => Some(prefix() + text),
        None => None,
    }
}

/// The prefixed name if there is a name, the bare fallback otherwise.
pub open spec fn decorated_or_fallback(name: Option<Seq<char>>) -> Seq<char> {
    match name {
        Some(text) => prefix() + text,
        None => fallback(),
    }
}

/// The fixed transformation of a name: the prefix, then the name.
pub fn decorate(name: String) -> (text: String)
    ensures
        text@ == prefix() + name@,
{
    PREFIX.to_string().concat(name.as_str())
}

/// A person. The name is optional: nobody checks what a present name holds.
#[derive(Debug)]
pub struct Person {
    pub name: Option<String>,
}

impl View for Person {
    type V = Option<Seq<char>>;

    open spec fn view(&self) -> Option<Seq<char>> {
        match self.name {
            Some(name) => Some(name@),
            None => None,
        }
    }
}

impl Person {
    /// A new person has no name.
    pub fn new() -> (person: Person)
        ensures
            person@ is None,
    {
        Person { name: None }
    }

    /// Gives the person a name, in place of whatever was there.
    pub fn set_name(&mut self, name: String)
        ensures
            final(self)@ == Some(name@),
    {
        self.name = Some(name);
    }

    /// Forced extraction: the name of a person who is known to have one.
    pub fn forced_name(&self) -> (text: String)
        requires
            self@ is Some,
        ensures
            text@ == forced(self@),
    {
        self.name.clone().unwrap()
    }

    /// Forced extraction behind a test: the name, or `InvalidState` for a
    /// person without one.
    pub fn checked_name(&self) -> (outcome: Result<String, NameError>)
        ensures
            self@ is Some ==> outcome is Ok && outcome->Ok_0@ == forced(self@),
            self@ is None ==> outcome == Err::<String, NameError>(NameError::InvalidState),
    {
        if self.name.is_some() {
            Ok(self.forced_name())
        } else {
            Err(NameError::InvalidState)
        }
    }

    /// Default substitution: the name, or the fallback for a person without one.
    pub fn name_or_fallback(&self) -> (text: String)
        ensures
            text@ == or_fallback(self@),
    {
        self.name.clone().unwrap_or(FALLBACK.to_string())
    }

    /// Explicit case analysis: the same result as [`Person::name_or_fallback`],
    /// reached by looking at the two cases in turn.
    pub fn name_by_cases(&self) -> (text: String)
        ensures
            text@ == or_fallback(self@),
    {
        match self.name.clone() {
            Some(name) => name,
            None => FALLBACK.to_string(),
        }
    }

    /// The prefixed name by case analysis; the bare fallback for a person
    /// without a name.
    pub fn decorated_by_cases(&self) -> (text: String)
        ensures
            text@ == decorated_or_fallback(self@),
    {
        match self.name.clone() {
            Some(name) => decorate(name),
            None => FALLBACK.to_string(),
        }
    }

    /// The prefixed name by mapping over the optional name and then
    /// substituting the fallback.
    pub fn decorated_by_map(&self) -> (text: String)
        ensures
            text@ == or_fallback(decorated(self@)),
    {
        self.name.clone().map(decorate).unwrap_or(FALLBACK.to_string())
    }
}

} // verus!
