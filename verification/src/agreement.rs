//! How the ways of reading a name relate to one another.

use vstd::prelude::*;
use crate::person::{decorated, decorated_or_fallback, fallback, forced, or_fallback, prefix};

verus! {

/// The fallback is the word "nobody", letter by letter.
pub proof fn fallback_is_nobody()
    ensures
        fallback() =~= seq!['n', 'o', 'b', 'o', 'd', 'y'],
{
    reveal_strlit("nobody");
}

/// The prefix is the two letters "Dj".
pub proof fn prefix_is_dj()
    ensures
        prefix() =~= seq!['D', 'j'],
{
    reveal_strlit("Dj");
}

/// Where there is a name, forced extraction, default substitution and case
/// analysis all yield that name, unchanged.
pub proof fn present_name_is_read_unchanged(name: Seq<char>)
    ensures
        forced(Some(name)) == name,
        or_fallback(Some(name)) == name,
{
}

/// Where there is no name, default substitution and case analysis yield the
/// fallback, which is "nobody".
pub proof fn absent_name_reads_as_fallback()
    ensures
        or_fallback(None) == fallback(),
        or_fallback(None) =~= seq!['n', 'o', 'b', 'o', 'd', 'y'],
{
    fallback_is_nobody();
}

/// Decorating by case analysis and decorating by mapping and then
/// substituting the fallback yield the same text for every person.
pub proof fn decorating_ways_agree(name: Option<Seq<char>>)
    ensures
        decorated_or_fallback(name) == or_fallback(decorated(name)),
{
}

/// Where there is a name, both decorating ways yield the prefix "Dj" followed
/// by the name.
pub proof fn present_name_is_decorated(name: Seq<char>)
    ensures
        decorated_or_fallback(Some(name)) == prefix() + name,
        or_fallback(decorated(Some(name))) == prefix() + name,
        decorated_or_fallback(Some(name)) =~= seq!['D', 'j'] + name,
{
    prefix_is_dj();
}

/// Where there is no name, both decorating ways yield the bare fallback: the
/// prefix is not applied to it.
pub proof fn absent_name_is_not_decorated()
    ensures
        decorated(None) is None,
        decorated_or_fallback(None) == fallback(),
        or_fallback(decorated(None)) == fallback(),
{
}

} // verus!
