//! The grammars of the fields, as regular expressions, and the calls into the
//! `regex` crate that decide them.

use regex::Regex;
use vstd::prelude::*;

verus! {

/// One assignment `name = value` on a line of an entry's body.
pub const ENTRY: &'static str = r"(?m)^\s*(\w+)\s*=\s*(\{{0,2}[^{}]*\}{0,2}|[^,]+),?\s*$";

/// A list of authors, each as `Surname, Given`, joined by `and`.
pub const AUTHOR: &'static str =
    r"(?:[A-Za-z\.'-]+(?: [A-Za-z\.'-]+)?, ?[A-Za-z\.'-]+(?: [A-Za-z\.'-]+)?) (?:and [A-Za-z\.'-]+(?: [A-Za-z\.'-]+)?, ?[A-Za-z\.'-]+(?: [A-Za-z\.'-]+)?)*(?: and [A-Za-z\.'-]+(?: [A-Za-z\.'-]+)?, ?[A-Za-z\.'-]+(?: [A-Za-z\.'-]+)?)?|(?:[A-Za-z\.'-]+(?: [A-Za-z\.'-]+)?, ?[A-Za-z\.'-]+(?: [A-Za-z\.'-]+)?)";

/// A title, and every other field of free text.
pub const TITLE: &'static str = r"^[a-zA-Z0-9\s,;?!.:()-_]+$";

/// A place, as `City (Country)` or `City (Region, Country)`.
pub const ADDRESS: &'static str = r"^[A-Za-z\s]+ \([A-Za-z\s]+(?:, [A-Za-z\s]+)?\)$";

/// A range of pages, as two numbers joined by a hyphen.
pub const PAGES: &'static str = r"^\d+-\d+$";

/// A DOI: `10.`, a registrant number, `/` and a suffix.
pub const DOI: &'static str = r"^10\.\d+\/[-._;()\/:A-Za-z0-9\.]+$";

/// A month, as its three-letter abbreviation in lower case.
pub const MONTH: &'static str = r"^(jan|feb|mar|apr|may|jun|jul|aug|sep|oct|nov|dec)$";

/// An ISBN: digits and hyphens.
pub const ISBN: &'static str = r"^[\d-]+$";

/// Whether `Regex::new` accepts the pattern: whether it is a valid regular
/// expression that compiles within the crate's default size limit.
pub uninterp spec fn regex_compiles(pattern: Seq<char>) -> bool;

/// What `Regex::is_match` returns for the haystack, on the regex that
/// `Regex::new` compiles from the pattern.
pub uninterp spec fn regex_is_match(pattern: Seq<char>, haystack: Seq<char>) -> bool;

/// What `Regex::captures_iter` yields for the haystack, on the regex that
/// `Regex::new` compiles from the pattern: one element for each match, in
/// order, and in it one element for each capture group of the pattern, group 0
/// (the whole match) first; a group holds the text it matched, or `None` if it
/// took no part in the match.
pub uninterp spec fn regex_captures(pattern: Seq<char>, haystack: Seq<char>) -> Seq<
    Seq<Option<Seq<char>>>,
>;

/// The groups of one match, each by its view.
pub open spec fn groups_view(groups: Seq<Option<String>>) -> Seq<Option<Seq<char>>> {
    Seq::new(
        groups.len(),
        |i: int|
            match groups[i] {
                Some(text) => Some(text@),
                None => None,
            },
    )
}

/// The matches of one search, each by the views of its groups.
pub open spec fn matches_view(found: Seq<Vec<Option<String>>>) -> Seq<Seq<Option<Seq<char>>>> {
    Seq::new(found.len(), |i: int| groups_view(found[i]@))
}

/// Compiles the pattern with `Regex::new` and asks `Regex::is_match` whether
/// it matches anywhere in the haystack. `None` means that the pattern did not
/// compile.
///
/// Believed, not proved: both answers depend on the two texts alone. The
/// contract gives them their names and claims nothing of what they are.
#[verifier::external_body]
pub(crate) fn is_match(pattern: &str, haystack: &str) -> (found: Option<bool>)
    ensures
        found == if regex_compiles(pattern@) {
            Some(regex_is_match(pattern@, haystack@))
        } else {
            None
        },
{
    match Regex::new(pattern) {
        Ok(re) => Some(re.is_match(haystack)),
        Err(_) => None,
    }
}

/// Compiles the pattern with `Regex::new` and collects what
/// `Regex::captures_iter` yields for the haystack: for each match, in order,
/// what `Captures::iter` yields, each group turned into the text it matched
/// (`Match::as_str`). `None` means that the pattern did not compile.
///
/// Believed, not proved: the matches depend on the two texts alone. The
/// contract gives them their name and claims nothing of what they are.
#[verifier::external_body]
pub(crate) fn captures(pattern: &str, haystack: &str) -> (found: Option<Vec<Vec<Option<String>>>>)
    ensures
        regex_compiles(pattern@) == found.is_some(),
        found matches Some(all) ==> matches_view(all@) == regex_captures(pattern@, haystack@),
{
    let re = match Regex::new(pattern) {
        Ok(re) => re,
        Err(_) => return None,
    };
    let mut all = Vec::new();
    for found in re.captures_iter(haystack) {
        all.push(found.iter().map(|group| group.map(|m| m.as_str().to_string())).collect());
    }
    Some(all)
}

/// Whether the pattern compiles and matches somewhere in the text.
pub open spec fn accepts(pattern: Seq<char>, text: Seq<char>) -> bool {
    regex_compiles(pattern) && regex_is_match(pattern, text)
}

/// Whether the pattern compiles and matches somewhere in the text. A pattern
/// that does not compile accepts nothing.
pub fn conforms(pattern: &str, text: &str) -> (ok: bool)
    ensures
        ok == accepts(pattern@, text@),
{
    match is_match(pattern, text) {
        Some(found) => found,
        None => false,
    }
}

} // verus!
