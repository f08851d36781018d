//! The entry scanner: one pass over the whole text that finds each entry
//! `@type{ body }` by counting braces.

use crate::model::{lemma_views_push, views};
use crate::text::{
    chars_of, lemma_position, lemma_position_bounds, lemma_position_first, position,
    string_of_range,
};
use vstd::prelude::*;

verus! {

/// One entry as the scanner finds it.
#[derive(Clone, Debug, PartialEq, Eq)]
pub struct RawEntry {
    /// What stands between the `@` and the brace that opens the entry.
    pub type_tag: String,
    /// What stands between the outermost braces of the entry.
    pub body: String,
    /// Whether the brace that closes the entry was found before the text ended.
    pub closed: bool,
}

/// An entry, with its texts as sequences of characters.
pub struct RawEntryView {
    pub type_tag: Seq<char>,
    pub body: Seq<char>,
    pub closed: bool,
}

impl View for RawEntry {
    type V = RawEntryView;

    open spec fn view(&self) -> RawEntryView {
        RawEntryView { type_tag: self.type_tag@, body: self.body@, closed: self.closed }
    }
}

/// The brace depth after a character, from the depth before it.
pub open spec fn depth_after(depth: int, c: char) -> int {
    if c == '{' {
        depth + 1
    } else if c == '}' {
        depth - 1
    } else {
        depth
    }
}

/// The length of the body that starts `s`, read at brace depth `depth`: the
/// index of the `}` that brings the depth to zero, or the length of `s` if
/// there is no such brace.
pub open spec fn body_len(s: Seq<char>, depth: int) -> int
    decreases s.len(),
{
    if s.len() == 0 || (s[0] == '}' && depth <= 1) {
        0
    } else {
        1 + body_len(s.skip(1), depth_after(depth, s[0]))
    }
}

/// The entries of a text, in order. Outside an entry every character up to
/// the next `@` is passed over. The type tag runs from the `@` to the next
/// `{`, the body from there to the `}` that matches it, and the scan goes on
/// behind that brace. An entry that the end of the text cuts short is the last
/// one, and not closed.
pub open spec fn scan(s: Seq<char>) -> Seq<RawEntryView>
    decreases s.len(),
    via scan_terminates
{
    if s.len() == 0 {
        Seq::empty()
    } else if s[0] != '@' {
        scan(s.skip(1))
    } else {
        let tail = s.skip(1);
        let tag_len = position(tail, '{');
        if tag_len >= tail.len() {
            seq![RawEntryView { type_tag: tail, body: Seq::empty(), closed: false }]
        } else {
            let inner = tail.skip(tag_len + 1);
            let len = body_len(inner, 1);
            if len >= inner.len() {
                seq![RawEntryView { type_tag: tail.take(tag_len), body: inner, closed: false }]
            } else {
                seq![
                    RawEntryView {
                        type_tag: tail.take(tag_len),
                        body: inner.take(len),
                        closed: true,
                    },
                ] + scan(inner.skip(len + 1))
            }
        }
    }
}

#[via_fn]
proof fn scan_terminates(s: Seq<char>) {
    if s.len() > 0 && s[0] == '@' {
        let tail = s.skip(1);
        lemma_position_bounds(tail, '{');
        let tag_len = position(tail, '{');
        if tag_len < tail.len() {
            lemma_body_len_bounds(tail.skip(tag_len + 1), 1);
        }
    }
}

/// The body that starts `s` is no longer than `s`.
pub proof fn lemma_body_len_bounds(s: Seq<char>, depth: int)
    ensures
        0 <= body_len(s, depth) <= s.len(),
    decreases s.len(),
{
    if !(s.len() == 0 || (s[0] == '}' && depth <= 1)) {
        lemma_body_len_bounds(s.skip(1), depth_after(depth, s[0]));
    }
}

/// The index behind the body that starts at `from`, read at brace depth 1.
fn body_end(chars: &Vec<char>, from: usize) -> (end: usize)
    requires
        from <= chars.len(),
    ensures
        from <= end <= chars.len(),
        end - from == body_len(chars@.skip(from as int), 1),
{
    let mut end: usize = from;
    // The braces that are open inside the body; the depth is one more.
    let mut open: usize = 0;
    while end < chars.len() && !(chars[end] == '}' && open == 0)
        invariant
            from <= end <= chars.len(),
            open <= end - from,
            body_len(chars@.skip(from as int), 1) == (end - from) + body_len(
                chars@.skip(end as int),
                open + 1,
            ),
        decreases chars.len() - end,
    {
        assert(chars@.skip(end as int).skip(1) == chars@.skip(end + 1));
        if chars[end] == '{' {
            open += 1;
        } else if chars[end] == '}' {
            open -= 1;
        }
        end += 1;
    }
    end
}

/// The index of the first `{` at or behind `from`, or the length of the text.
fn tag_end(chars: &Vec<char>, from: usize) -> (end: usize)
    requires
        from <= chars.len(),
    ensures
        from <= end <= chars.len(),
        end - from == position(chars@.skip(from as int), '{'),
{
    let mut end: usize = from;
    while end < chars.len() && chars[end] != '{'
        invariant
            from <= end <= chars.len(),
            forall|i: int| from <= i < end ==> chars@[i] != '{',
        decreases chars.len() - end,
    {
        end += 1;
    }
    proof {
        lemma_position(chars@.skip(from as int), '{', end - from);
    }
    end
}

/// Scans the characters of a text from `at`, where an `@` stands: the entry
/// that starts there and the index at which the scan goes on.
fn scan_entry(chars: &Vec<char>, at: usize) -> (found: (RawEntry, usize))
    requires
        at < chars.len(),
        chars@[at as int] == '@',
    ensures
        at < found.1 <= chars.len(),
        scan(chars@.skip(at as int)) == seq![found.0@] + scan(chars@.skip(found.1 as int)),
{
    let ghost s = chars@.skip(at as int);
    let ghost tail = s.skip(1);
    assert(tail == chars@.skip(at + 1));
    let open = tag_end(chars, at + 1);
    let type_tag = string_of_range(chars, at + 1, open);
    if open >= chars.len() {
        assert(type_tag@ == tail);
        assert(chars@.skip(chars.len() as int).len() == 0);
        let entry = RawEntry { type_tag, body: String::new(), closed: false };
        assert(seq![entry@] + Seq::<RawEntryView>::empty() == seq![entry@]);
        return (entry, chars.len());
    }
    let ghost tag_len = open - (at + 1);
    let ghost inner = tail.skip(tag_len + 1);
    assert(inner == chars@.skip(open + 1));
    assert(type_tag@ == tail.take(tag_len));
    let close = body_end(chars, open + 1);
    let body = string_of_range(chars, open + 1, close);
    if close >= chars.len() {
        assert(body@ == inner);
        assert(chars@.skip(chars.len() as int).len() == 0);
        let entry = RawEntry { type_tag, body, closed: false };
        assert(seq![entry@] + Seq::<RawEntryView>::empty() == seq![entry@]);
        return (entry, chars.len());
    }
    assert(body@ == inner.take(close - (open + 1)));
    assert(inner.skip(close - (open + 1) + 1) == chars@.skip(close + 1));
    (RawEntry { type_tag, body, closed: true }, close + 1)
}

/// Scans the entries of a text.
pub fn scan_entries(input: &str) -> (entries: Vec<RawEntry>)
    ensures
        views(entries@) == scan(input@),
{
    let chars = chars_of(input);
    let mut entries: Vec<RawEntry> = Vec::new();
    let mut i: usize = 0;
    assert(chars@.skip(0) == chars@);
    assert(views(entries@) + scan(chars@) == scan(chars@));
    while i < chars.len()
        invariant
            i <= chars.len(),
            views(entries@) + scan(chars@.skip(i as int)) == scan(chars@),
        decreases chars.len() - i,
    {
        if chars[i] == '@' {
            let (entry, next) = scan_entry(&chars, i);
            proof {
                lemma_views_push(entries@, entry);
                assert(views(entries@).push(entry@) + scan(chars@.skip(next as int)) == views(
                    entries@,
                ) + (seq![entry@] + scan(chars@.skip(next as int))));
            }
            entries.push(entry);
            i = next;
        } else {
            assert(chars@.skip(i as int).skip(1) == chars@.skip(i + 1));
            i += 1;
        }
    }
    assert(views(entries@) + Seq::<RawEntryView>::empty() == views(entries@));
    entries
}

/// The number of braces that are open after a character, from the number
/// open before it. A closing brace that matches none leaves it at zero.
pub open spec fn open_after(open: nat, c: char) -> nat {
    if c == '{' {
        open + 1
    } else if c == '}' && open > 0 {
        (open - 1) as nat
    } else {
        open
    }
}

/// The index of the first comma of `s` that stands outside all braces, with
/// `open` braces open where `s` starts; the length of `s` if there is none.
pub open spec fn top_comma(s: Seq<char>, open: nat) -> int
    decreases s.len(),
{
    if s.len() == 0 || (s[0] == ',' && open == 0) {
        0
    } else {
        1 + top_comma(s.skip(1), open_after(open, s[0]))
    }
}

/// The id of an entry, by which diagnostics call it: its body up to the first
/// comma outside all braces, or all of it if there is no such comma.
pub open spec fn id_of(body: Seq<char>) -> Seq<char> {
    body.take(top_comma(body, 0))
}

/// The id of an entry.
pub fn entry_id(body: &str) -> (id: String)
    ensures
        id@ == id_of(body@),
{
    let chars = chars_of(body);
    let mut end: usize = 0;
    let mut open: usize = 0;
    assert(chars@.skip(0) == chars@);
    while end < chars.len() && !(chars[end] == ',' && open == 0)
        invariant
            end <= chars.len(),
            open <= end,
            top_comma(chars@, 0) == end + top_comma(chars@.skip(end as int), open as nat),
        decreases chars.len() - end,
    {
        assert(chars@.skip(end as int).skip(1) == chars@.skip(end + 1));
        if chars[end] == '{' {
            open += 1;
        } else if chars[end] == '}' && open > 0 {
            open -= 1;
        }
        end += 1;
    }
    string_of_range(&chars, 0, end)
}

/// The brace depth after a text, from the depth before it.
pub open spec fn depth_through(depth: int, s: Seq<char>) -> int
    decreases s.len(),
{
    if s.len() == 0 {
        depth
    } else {
        depth_through(depth_after(depth, s[0]), s.skip(1))
    }
}

/// Whether the braces of a text match: no prefix closes more braces than it
/// opens, and the whole text closes as many as it opens.
pub open spec fn balanced(s: Seq<char>) -> bool {
    &&& depth_through(0, s) == 0
    &&& forall|k: int| 0 <= k <= s.len() ==> depth_through(0, #[trigger] s.take(k)) >= 0
}

/// The depth after a text moves with the depth before it.
pub proof fn lemma_depth_shift(depth: int, s: Seq<char>)
    ensures
        depth_through(depth, s) == depth + depth_through(0, s),
    decreases s.len(),
{
    if s.len() > 0 {
        lemma_depth_shift(depth_after(depth, s[0]), s.skip(1));
        lemma_depth_shift(depth_after(0, s[0]), s.skip(1));
    }
}

/// A body whose braces stay above depth zero and end at depth one stops at
/// the closing brace that follows it.
pub proof fn lemma_body_len_matched(body: Seq<char>, rest: Seq<char>, depth: int)
    requires
        depth_through(depth, body) == 1,
        forall|k: int| 0 <= k <= body.len() ==> depth_through(depth, #[trigger] body.take(k)) >= 1,
    ensures
        body_len(body + seq!['}'] + rest, depth) == body.len(),
    decreases body.len(),
{
    let s = body + seq!['}'] + rest;
    if body.len() == 0 {
        assert(body.take(0) == body);
        assert(s[0] == '}');
    } else {
        let next = depth_after(depth, body[0]);
        let shorter = body.skip(1);
        assert(depth_through(depth, body.take(1)) == next) by {
            assert(body.take(1)[0] == body[0]);
            assert(depth_through(next, body.take(1).skip(1)) == next);
        }
        assert(s[0] == body[0]);
        assert(s.skip(1) == shorter + seq!['}'] + rest);
        assert forall|k: int| 0 <= k <= shorter.len() implies depth_through(
            next,
            #[trigger] shorter.take(k),
        ) >= 1 by {
            assert(body.take(k + 1).skip(1) == shorter.take(k));
            assert(body.take(k + 1)[0] == body[0]);
        }
        lemma_body_len_matched(shorter, rest, next);
    }
}

/// A body that a closing brace ends has matching braces: up to that brace
/// the depth stays above zero, and it is one when the brace comes.
pub proof fn lemma_body_len_closed(s: Seq<char>, depth: int)
    requires
        depth >= 1,
        body_len(s, depth) < s.len(),
    ensures
        s[body_len(s, depth)] == '}',
        depth_through(depth, s.take(body_len(s, depth))) == 1,
        forall|k: int|
            0 <= k <= body_len(s, depth) ==> depth_through(depth, #[trigger] s.take(k)) >= 1,
    decreases s.len(),
{
    let len = body_len(s, depth);
    lemma_body_len_bounds(s, depth);
    if s[0] == '}' && depth <= 1 {
        assert forall|k: int| 0 <= k <= len implies depth_through(depth, #[trigger] s.take(k))
            >= 1 by {
            assert(s.take(k).len() == 0);
        }
    } else {
        let next = depth_after(depth, s[0]);
        let t = s.skip(1);
        assert(len == 1 + body_len(t, next));
        lemma_body_len_bounds(t, next);
        lemma_body_len_closed(t, next);
        assert(s[len] == t[len - 1]);
        assert(s.take(len).skip(1) == t.take(len - 1));
        assert(s.take(len)[0] == s[0]);
        assert forall|k: int| 0 <= k <= len implies depth_through(depth, #[trigger] s.take(k))
            >= 1 by {
            if k > 0 {
                assert(s.take(k).skip(1) == t.take(k - 1));
                assert(s.take(k)[0] == s[0]);
            }
        }
    }
}

/// What holds of an entry that the scanner finds: its type tag holds no `{`,
/// and if it is closed, the braces of its body match.
pub open spec fn well_scanned(entry: RawEntryView) -> bool {
    !entry.type_tag.contains('{') && (entry.closed ==> balanced(entry.body))
}

/// The body of every closed entry that the scanner finds has matching braces,
/// and no type tag holds a `{`.
pub proof fn lemma_scan_finds_balanced(s: Seq<char>)
    ensures
        forall|i: int| 0 <= i < scan(s).len() ==> well_scanned(#[trigger] scan(s)[i]),
    decreases s.len(),
{
    if s.len() == 0 {
        assert(scan(s).len() == 0);
    } else if s[0] != '@' {
        lemma_scan_finds_balanced(s.skip(1));
        assert(scan(s) == scan(s.skip(1)));
    } else {
        let tail = s.skip(1);
        let tag_len = position(tail, '{');
        lemma_position_bounds(tail, '{');
        lemma_position_first(tail, '{');
        let type_tag = tail.take(tag_len);
        assert(!type_tag.contains('{')) by {
            if type_tag.contains('{') {
                let i = choose|i: int| 0 <= i < type_tag.len() && type_tag[i] == '{';
                assert(tail[i] == '{');
            }
        }
        if tag_len >= tail.len() {
            assert(type_tag == tail);
            assert(scan(s) == seq![
                RawEntryView { type_tag: tail, body: Seq::empty(), closed: false },
            ]);
        } else {
            let inner = tail.skip(tag_len + 1);
            let len = body_len(inner, 1);
            lemma_body_len_bounds(inner, 1);
            if len >= inner.len() {
                assert(scan(s) == seq![RawEntryView { type_tag, body: inner, closed: false }]);
            } else {
                let body = inner.take(len);
                lemma_body_len_closed(inner, 1);
                assert(balanced(body)) by {
                    lemma_depth_shift(1, body);
                    assert forall|k: int| 0 <= k <= body.len() implies depth_through(
                        0,
                        #[trigger] body.take(k),
                    ) >= 0 by {
                        assert(body.take(k) == inner.take(k));
                        lemma_depth_shift(1, body.take(k));
                    }
                }
                let first = RawEntryView { type_tag, body, closed: true };
                let later = scan(inner.skip(len + 1));
                lemma_scan_finds_balanced(inner.skip(len + 1));
                assert(scan(s) == seq![first] + later);
                assert forall|i: int| 0 <= i < scan(s).len() implies well_scanned(
                    #[trigger] scan(s)[i],
                ) by {
                    if i > 0 {
                        assert(scan(s)[i] == later[i - 1]);
                    } else {
                        assert(scan(s)[i] == first);
                    }
                }
            }
        }
    }
}

/// An entry put back between its tag and braces.
pub open spec fn wrapped(entry: RawEntryView) -> Seq<char> {
    seq!['@'] + entry.type_tag + seq!['{'] + entry.body + seq!['}']
}

/// Every closed entry that the scanner finds survives a second scan: wrapped
/// again in its tag and braces, it scans as itself and nothing else.
pub proof fn lemma_scan_again(s: Seq<char>, i: int)
    requires
        0 <= i < scan(s).len(),
        scan(s)[i].closed,
    ensures
        scan(wrapped(scan(s)[i])) == seq![scan(s)[i]],
{
    lemma_scan_finds_balanced(s);
    lemma_scan_round_trip(scan(s)[i].type_tag, scan(s)[i].body);
}

/// An entry with a body of matching braces is found as it was written,
/// whatever the braces inside its field values: behind a text without `@`,
/// the text `@`, a type tag without `{`, `{`, the body and `}` scans as that
/// one entry, closed, followed by the entries of what comes after it.
pub proof fn lemma_scan_balanced_entry(
    before: Seq<char>,
    type_tag: Seq<char>,
    body: Seq<char>,
    rest: Seq<char>,
)
    requires
        !before.contains('@'),
        !type_tag.contains('{'),
        balanced(body),
    ensures
        scan(before + seq!['@'] + type_tag + seq!['{'] + body + seq!['}'] + rest) == seq![
            RawEntryView { type_tag, body, closed: true },
        ] + scan(rest),
    decreases before.len(),
{
    let s = before + seq!['@'] + type_tag + seq!['{'] + body + seq!['}'] + rest;
    if before.len() > 0 {
        let shorter = before.skip(1);
        assert(before[0] != '@') by {
            assert(before.contains(before[0]));
        }
        assert(s[0] == before[0]);
        assert(s.skip(1) == shorter + seq!['@'] + type_tag + seq!['{'] + body + seq!['}'] + rest);
        assert(!shorter.contains('@')) by {
            if shorter.contains('@') {
                let i = choose|i: int| 0 <= i < shorter.len() && shorter[i] == '@';
                assert(before[i + 1] == '@');
                assert(before.contains('@'));
            }
        }
        lemma_scan_balanced_entry(shorter, type_tag, body, rest);
    } else {
        assert(s[0] == '@');
        let tail = s.skip(1);
        assert(tail == type_tag + seq!['{'] + body + seq!['}'] + rest);
        assert forall|i: int| 0 <= i < type_tag.len() implies #[trigger] tail[i] != '{' by {
            assert(tail[i] == type_tag[i]);
            assert(type_tag.contains(type_tag[i]));
        }
        assert(tail[type_tag.len() as int] == '{');
        lemma_position(tail, '{', type_tag.len() as int);
        let inner = tail.skip(type_tag.len() as int + 1);
        assert(inner == body + seq!['}'] + rest);
        assert(tail.take(type_tag.len() as int) == type_tag);
        assert forall|k: int| 0 <= k <= body.len() implies depth_through(
            1,
            #[trigger] body.take(k),
        ) >= 1 by {
            lemma_depth_shift(1, body.take(k));
        }
        lemma_depth_shift(1, body);
        lemma_body_len_matched(body, rest, 1);
        assert(inner.take(body.len() as int) == body);
        assert(inner.skip(body.len() as int + 1) == rest);
    }
}

/// Scanning an entry with a body of matching braces, wrapped again in its
/// tag and braces, gives back that entry and nothing else.
pub proof fn lemma_scan_round_trip(type_tag: Seq<char>, body: Seq<char>)
    requires
        !type_tag.contains('{'),
        balanced(body),
    ensures
        scan(seq!['@'] + type_tag + seq!['{'] + body + seq!['}']) == seq![
            RawEntryView { type_tag, body, closed: true },
        ],
{
    let empty = Seq::<char>::empty();
    lemma_scan_balanced_entry(empty, type_tag, body, empty);
    assert(empty + seq!['@'] + type_tag + seq!['{'] + body + seq!['}'] + empty == seq!['@']
        + type_tag + seq!['{'] + body + seq!['}']);
    assert(seq![RawEntryView { type_tag, body, closed: true }] + scan(empty) == seq![
        RawEntryView { type_tag, body, closed: true },
    ]);
}

} // verus!
