//! The citation key of a record: the surname of its first author, in lower
//! case, followed by the year.

use crate::number::{decimal, decimal_string};
use crate::text::{before, lowercase, prefix_before, to_lowercase, trim, trimmed};
use vstd::prelude::*;
use vstd::string::StringExecFns;

verus! {

/// The surname of the first author: what stands before the first comma of the
/// author field (all of it, if there is no comma), without surrounding white
/// space.
pub open spec fn first_surname(author: Seq<char>) -> Seq<char> {
    trim(before(author, ','))
}

/// A surname, already in lower case, followed by the year in decimal.
pub open spec fn key_of(lowered: Seq<char>, year: int) -> Seq<char> {
    lowered + decimal(year)
}

/// The citation key for an author field and a year.
pub open spec fn citation_key(author: Seq<char>, year: int) -> Seq<char> {
    key_of(lowercase(first_surname(author)), year)
}

/// The surname of the first author of an author field.
pub fn surname(author: &str) -> (r: String)
    ensures
        r@ == first_surname(author@),
{
    let head = prefix_before(author, ',');
    trimmed(head.as_str())
}

/// The key made of a surname, already in lower case, and a year.
pub fn compose_key(lowered: &str, year: i32) -> (key: String)
    ensures
        key@ == key_of(lowered@, year as int),
{
    let mut key = String::from_str(lowered);
    let digits = decimal_string(year);
    key.append(digits.as_str());
    key
}

/// The citation key for an author field and a year.
pub fn generate(author: &str, year: i32) -> (key: String)
    ensures
        key@ == citation_key(author@, year as int),
{
    let name = surname(author);
    let lowered = to_lowercase(name.as_str());
    compose_key(lowered.as_str(), year)
}

} // verus!
