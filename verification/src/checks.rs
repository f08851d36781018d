//! The steps that the validators of all entry types are made of.

use crate::diagnostic::{Defect, Field, Rejection, Warning, WarningView};
use crate::fields::FieldTable;
use crate::model::{lemma_views_push, views};
use crate::number::{parse_i32, parse_int};
use crate::text::{after, before, chars_of, find, string_of_range};
use vstd::prelude::*;

verus! {

/// What validating an entry comes to: the record or the reason why there is
/// none, and the warnings raised on the way, in order.
pub struct Outcome<R> {
    pub result: Result<R, Rejection>,
    pub warnings: Seq<WarningView>,
}

/// The outcome of an entry that is rejected.
pub open spec fn rejected<R>(reason: Rejection, warnings: Seq<WarningView>) -> Outcome<R> {
    Outcome { result: Err(reason), warnings }
}

impl<R> Outcome<R> {
    /// The same outcome, with `f` applied to the record if there is one.
    pub open spec fn map<S>(self, f: spec_fn(R) -> S) -> Outcome<S> {
        Outcome {
            result: match self.result {
                Ok(record) => Ok(f(record)),
                Err(reason) => Err(reason),
            },
            warnings: self.warnings,
        }
    }
}

/// Whether a result is the expected one: the same rejection, or a record
/// whose view is the expected one.
pub open spec fn agrees<T: View>(
    r: Result<T, Rejection>,
    expected: Result<T::V, Rejection>,
) -> bool {
    match r {
        Ok(record) => expected == Ok::<T::V, Rejection>(record@),
        Err(reason) => expected == Err::<T::V, Rejection>(reason),
    }
}

/// Whether the table holds a value for the field, and not an empty one.
pub open spec fn has_value(table: Map<Seq<char>, Seq<char>>, field: Field) -> bool {
    table.contains_key(field.label()) && table[field.label()].len() > 0
}

/// The value of a required field: rejected if the table lacks the field or
/// holds an empty value for it.
pub open spec fn required_value(table: Map<Seq<char>, Seq<char>>, field: Field) -> Result<
    Seq<char>,
    Rejection,
> {
    if has_value(table, field) {
        Ok(table[field.label()])
    } else {
        Err(Rejection::Missing(field))
    }
}

/// The value of an optional field: empty if the table lacks the field.
pub open spec fn optional_value(table: Map<Seq<char>, Seq<char>>, field: Field) -> Seq<char> {
    if table.contains_key(field.label()) {
        table[field.label()]
    } else {
        Seq::empty()
    }
}

/// The value of a field that must be written but may be empty: rejected only
/// if the table lacks the field.
pub open spec fn present_value(table: Map<Seq<char>, Seq<char>>, field: Field) -> Result<
    Seq<char>,
    Rejection,
> {
    if table.contains_key(field.label()) {
        Ok(table[field.label()])
    } else {
        Err(Rejection::Absent(field))
    }
}

/// The value of a required field.
pub fn required(table: &FieldTable, field: Field) -> (r: Result<String, Rejection>)
    ensures
        agrees(r, required_value(table@, field)),
{
    match table.get(field.name()) {
        Some(text) => {
            if text.as_str().is_empty() {
                Err(Rejection::Missing(field))
            } else {
                Ok(text.clone())
            }
        },
        None => Err(Rejection::Missing(field)),
    }
}

/// The value of an optional field.
pub fn optional(table: &FieldTable, field: Field) -> (r: String)
    ensures
        r@ == optional_value(table@, field),
{
    match table.get(field.name()) {
        Some(text) => text.clone(),
        None => String::new(),
    }
}

/// The value of a field that must be written but may be empty.
pub fn present(table: &FieldTable, field: Field) -> (r: Result<String, Rejection>)
    ensures
        agrees(r, present_value(table@, field)),
{
    match table.get(field.name()) {
        Some(text) => Ok(text.clone()),
        None => Err(Rejection::Absent(field)),
    }
}

/// The two numbers of a page range: what stands before the first hyphen and
/// what stands after it, each read as an integer.
pub open spec fn page_range(pages: Seq<char>) -> Option<(i32, i32)> {
    match (parse_i32(before(pages, '-')), parse_i32(after(pages, '-'))) {
        (Some(first), Some(last)) => Some((first, last)),
        _ => None,
    }
}

/// Whether the pages are two numbers of which the first is not the greater.
pub open spec fn in_order(pages: Seq<char>) -> bool {
    page_range(pages) matches Some((first, last)) && first <= last
}

/// Why a page range that its grammar accepts is rejected all the same: its
/// numbers cannot be read, or the first page lies after the last.
pub open spec fn range_rejection(pages: Seq<char>) -> Option<Rejection> {
    match page_range(pages) {
        None => Some(Rejection::BadFormat(Field::Pages)),
        Some((first, last)) => if first > last {
            Some(Rejection::BadPagesRange)
        } else {
            None
        },
    }
}

/// Why the pages of an entry that must give pages are rejected, if they are.
/// `accepted` says whether the grammar of pages accepts them.
pub open spec fn hard_pages_rejection(pages: Seq<char>, accepted: bool) -> Option<Rejection> {
    if !accepted {
        Some(Rejection::BadFormat(Field::Pages))
    } else {
        range_rejection(pages)
    }
}

/// Why the pages of an entry that may leave them out are rejected, if they
/// are: empty pages pass.
pub open spec fn soft_pages_rejection(pages: Seq<char>, accepted: bool) -> Option<Rejection> {
    if pages.len() == 0 {
        None
    } else {
        hard_pages_rejection(pages, accepted)
    }
}

/// The warning that a defect of the entry with the given title raises, if the
/// defect is there.
pub open spec fn warning_if(present: bool, defect: Defect, title: Seq<char>) -> Seq<WarningView> {
    if present {
        seq![WarningView { defect, title }]
    } else {
        Seq::empty()
    }
}

/// The number that an optional numeric field holds; the sentinel -1 if it
/// holds none.
pub open spec fn number_or_sentinel(text: Seq<char>) -> i32 {
    match parse_i32(text) {
        Some(n) => n,
        None => -1i32,
    }
}

/// A DOI that passes for what it is only if its grammar accepts it; one that
/// does not is cleared.
pub open spec fn doi_or_empty(doi: Seq<char>, accepted: bool) -> Seq<char> {
    if accepted {
        doi
    } else {
        Seq::empty()
    }
}

/// Reads the two numbers of a page range.
pub fn read_page_range(pages: &str) -> (r: Option<(i32, i32)>)
    ensures
        r == page_range(pages@),
{
    let chars = chars_of(pages);
    let hyphen = find(&chars, '-');
    let head = string_of_range(&chars, 0, hyphen);
    let tail = if hyphen < chars.len() {
        string_of_range(&chars, hyphen + 1, chars.len())
    } else {
        String::new()
    };
    match (parse_int(head.as_str()), parse_int(tail.as_str())) {
        (Some(first), Some(last)) => Some((first, last)),
        _ => None,
    }
}

/// Checks a page range that its grammar accepts.
pub fn check_range(pages: &str) -> (r: Option<Rejection>)
    ensures
        r == range_rejection(pages@),
{
    match read_page_range(pages) {
        None => Some(Rejection::BadFormat(Field::Pages)),
        Some((first, last)) => if first > last {
            Some(Rejection::BadPagesRange)
        } else {
            None
        },
    }
}

/// Checks the pages of an entry that must give pages.
pub fn check_hard_pages(pages: &str, accepted: bool) -> (r: Option<Rejection>)
    ensures
        r == hard_pages_rejection(pages@, accepted),
{
    if !accepted {
        Some(Rejection::BadFormat(Field::Pages))
    } else {
        check_range(pages)
    }
}

/// Checks the pages of an entry that may leave them out, and logs a warning
/// if it does.
pub fn check_soft_pages(pages: &str, accepted: bool, title: &str, log: &mut Vec<Warning>) -> (r:
    Option<Rejection>)
    ensures
        r == soft_pages_rejection(pages@, accepted),
        views(final(log)@) == views(old(log)@) + warning_if(
            pages@.len() == 0,
            Defect::NoPages,
            title@,
        ),
{
    if pages.is_empty() {
        warn(log, Defect::NoPages, title);
        None
    } else {
        assert(views(log@) == views(log@) + Seq::<WarningView>::empty());
        check_hard_pages(pages, accepted)
    }
}

/// Logs one warning.
pub fn warn(log: &mut Vec<Warning>, defect: Defect, title: &str)
    ensures
        views(final(log)@) == views(old(log)@) + warning_if(true, defect, title@),
{
    let warning = Warning::new(defect, title);
    proof {
        lemma_views_push(log@, warning);
    }
    log.push(warning);
    assert(views(old(log)@).push(warning@) == views(old(log)@) + seq![warning@]);
}

/// Logs a warning if `present` holds.
pub fn warn_if(present: bool, log: &mut Vec<Warning>, defect: Defect, title: &str)
    ensures
        views(final(log)@) == views(old(log)@) + warning_if(present, defect, title@),
{
    if present {
        warn(log, defect, title);
    } else {
        assert(views(log@) == views(log@) + Seq::<WarningView>::empty());
    }
}

/// Reads an optional numeric field, and logs a warning if it holds no number.
pub fn read_number(text: &str, defect: Defect, title: &str, log: &mut Vec<Warning>) -> (n: i32)
    ensures
        n == number_or_sentinel(text@),
        views(final(log)@) == views(old(log)@) + warning_if(
            parse_i32(text@) is None,
            defect,
            title@,
        ),
{
    let number = parse_int(text);
    warn_if(number.is_none(), log, defect, title);
    match number {
        Some(n) => n,
        None => -1,
    }
}

/// Keeps a DOI that its grammar accepts; clears any other, and logs a warning.
pub fn read_doi(doi: String, accepted: bool, title: &str, log: &mut Vec<Warning>) -> (r: String)
    ensures
        r@ == doi_or_empty(doi@, accepted),
        views(final(log)@) == views(old(log)@) + warning_if(!accepted, Defect::BadDoi, title@),
{
    warn_if(!accepted, log, Defect::BadDoi, title);
    if accepted {
        doi
    } else {
        String::new()
    }
}

} // verus!
