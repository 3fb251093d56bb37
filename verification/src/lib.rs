//! Greetings for people whose name may be missing.
//!
//! A [`person::Person`] carries an optional name. The `person` module offers
//! several ways of reading that name, each of which says exactly what it
//! yields when the name is there and when it is not; `agreement` proves how
//! those ways relate. `dump` renders a person's structure as text, `greeting`
//! builds numbered lines, and `script` puts the fixed sequence of lines
//! together.

pub mod agreement;
pub mod dump;
pub mod greeting;
pub mod person;
pub mod script;
