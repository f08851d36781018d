//! The lines that a rendered record is made of.

use crate::number::{decimal, decimal_string};
use vstd::prelude::*;
use vstd::string::StringExecFns;

verus! {

/// One line of a record: what stands before the value, the value, and what
/// stands after it.
pub open spec fn line(prefix: Seq<char>, value: Seq<char>, suffix: Seq<char>) -> Seq<char> {
    prefix + value + suffix
}

/// Appends one line of a record to `out`.
pub fn push_line(out: &mut String, prefix: &str, value: &str, suffix: &str)
    ensures
        final(out)@ == old(out)@ + line(prefix@, value@, suffix@),
{
    let mut text = String::from_str(prefix);
    text.append(value);
    text.append(suffix);
    out.append(text.as_str());
}

/// The line of a numeric field. The sentinel -1 stands for a number that the
/// entry did not give: its line shows an empty value, `empty`.
pub open spec fn number_line(prefix: Seq<char>, n: int, suffix: Seq<char>, empty: Seq<char>) -> Seq<
    char,
> {
    if n != -1 {
        line(prefix, decimal(n), suffix)
    } else {
        empty
    }
}

/// Appends the line of a numeric field to `out`.
pub fn push_number_line(out: &mut String, prefix: &str, n: i32, suffix: &str, empty: &str)
    ensures
        final(out)@ == old(out)@ + number_line(prefix@, n as int, suffix@, empty@),
{
    if n != -1 {
        let digits = decimal_string(n);
        push_line(out, prefix, digits.as_str(), suffix);
    } else {
        out.append(empty);
    }
}

} // verus!
