//! The field table of an entry: which value its body assigns to which name.

use crate::pattern::{captures, matches_view, regex_captures, regex_compiles, ENTRY};
use crate::text::{chars_of, string_of, strip, strip_chars, CharClass};
use vstd::prelude::*;
use vstd::string::StringExecFns;

verus! {

/// A value without the braces around it: first every `{` at either end is
/// dropped, then every `}` at either end.
pub open spec fn unbraced(value: Seq<char>) -> Seq<char> {
    strip(strip(value, CharClass::Only('{')), CharClass::Only('}'))
}

/// The value without the braces around it.
pub fn strip_braces(value: &str) -> (r: String)
    ensures
        r@ == unbraced(value@),
{
    let chars = chars_of(value);
    let opened = strip_chars(&chars, CharClass::Only('{'));
    let closed = strip_chars(&opened, CharClass::Only('}'));
    string_of(&closed)
}

/// The assignment that one match of the entry pattern stands for: group 1 is
/// the name, group 2 the value, still in its braces. A match in which either
/// group is missing assigns nothing.
pub open spec fn assignment_of(groups: Seq<Option<Seq<char>>>) -> Option<(Seq<char>, Seq<char>)> {
    if groups.len() >= 3 && groups[1] is Some && groups[2] is Some {
        Some((groups[1]->0, unbraced(groups[2]->0)))
    } else {
        None
    }
}

/// The table that a run of matches builds: each assignment in turn, a later
/// one replacing an earlier one of the same name.
pub open spec fn table_of(found: Seq<Seq<Option<Seq<char>>>>) -> Map<Seq<char>, Seq<char>>
    decreases found.len(),
{
    if found.len() == 0 {
        Map::empty()
    } else {
        let earlier = table_of(found.drop_last());
        match assignment_of(found.last()) {
            Some((name, value)) => earlier.insert(name, value),
            None => earlier,
        }
    }
}

/// The table of a body: what the matches of the entry pattern in it assign.
/// Empty if the pattern does not compile.
pub open spec fn field_table(body: Seq<char>) -> Map<Seq<char>, Seq<char>> {
    if regex_compiles(ENTRY@) {
        table_of(regex_captures(ENTRY@, body))
    } else {
        Map::empty()
    }
}

/// The table that a run of assignments builds.
spec fn assigned(pairs: Seq<(Seq<char>, Seq<char>)>) -> Map<Seq<char>, Seq<char>>
    decreases pairs.len(),
{
    if pairs.len() == 0 {
        Map::empty()
    } else {
        assigned(pairs.drop_last()).insert(pairs.last().0, pairs.last().1)
    }
}

/// The assignments of a vector of pairs, by their views.
spec fn pairs_view(pairs: Seq<(String, String)>) -> Seq<(Seq<char>, Seq<char>)> {
    Seq::new(pairs.len(), |i: int| (pairs[i].0@, pairs[i].1@))
}

/// A name is in the table if some assignment has it, and then the table holds
/// the value of the last such assignment.
proof fn lemma_assigned_last(pairs: Seq<(Seq<char>, Seq<char>)>, name: Seq<char>, at: int)
    requires
        0 <= at < pairs.len(),
        pairs[at].0 == name,
        forall|i: int| at < i < pairs.len() ==> (#[trigger] pairs[i]).0 != name,
    ensures
        assigned(pairs).contains_key(name),
        assigned(pairs)[name] == pairs[at].1,
    decreases pairs.len(),
{
    if at < pairs.len() - 1 {
        assert(pairs.last().0 != name);
        lemma_assigned_last(pairs.drop_last(), name, at);
    }
}

/// A name that no assignment has is not in the table.
proof fn lemma_assigned_none(pairs: Seq<(Seq<char>, Seq<char>)>, name: Seq<char>)
    requires
        forall|i: int| 0 <= i < pairs.len() ==> (#[trigger] pairs[i]).0 != name,
    ensures
        !assigned(pairs).contains_key(name),
    decreases pairs.len(),
{
    if pairs.len() > 0 {
        assert(pairs.last().0 != name);
        lemma_assigned_none(pairs.drop_last(), name);
    }
}

/// The fields of one entry: a map from the name of a field to its value, with
/// the braces around the value removed.
#[derive(Clone, Debug)]
pub struct FieldTable {
    pairs: Vec<(String, String)>,
}

impl View for FieldTable {
    type V = Map<Seq<char>, Seq<char>>;

    closed spec fn view(&self) -> Map<Seq<char>, Seq<char>> {
        assigned(pairs_view(self.pairs@))
    }
}

impl FieldTable {
    /// A table without fields.
    pub fn empty() -> (table: FieldTable)
        ensures
            table@ == Map::<Seq<char>, Seq<char>>::empty(),
    {
        FieldTable { pairs: Vec::new() }
    }

    /// Assigns `value` to `name`, in place of what `name` had before.
    pub fn insert(&mut self, name: String, value: String)
        ensures
            final(self)@ == old(self)@.insert(name@, value@),
    {
        let ghost before = pairs_view(self.pairs@);
        self.pairs.push((name, value));
        assert(pairs_view(self.pairs@).drop_last() == before);
    }

    /// The value of the field `name`, if the table has it.
    pub fn get(&self, name: &str) -> (value: Option<&String>)
        ensures
            match value {
                Some(text) => self@.contains_key(name@) && self@[name@] == text@,
                None => !self@.contains_key(name@),
            },
    {
        let key = String::from_str(name);
        let ghost pairs = pairs_view(self.pairs@);
        let mut i: usize = self.pairs.len();
        while i > 0
            invariant
                i <= self.pairs.len(),
                key@ == name@,
                pairs == pairs_view(self.pairs@),
                forall|j: int| i <= j < pairs.len() ==> (#[trigger] pairs[j]).0 != name@,
            decreases i,
        {
            i -= 1;
            if self.pairs[i].0 == key {
                proof {
                    lemma_assigned_last(pairs, name@, i as int);
                }
                return Some(&self.pairs[i].1);
            }
        }
        proof {
            lemma_assigned_none(pairs, name@);
        }
        None
    }

    /// The table that a run of matches of the entry pattern builds.
    pub fn from_captures(found: &Vec<Vec<Option<String>>>) -> (table: FieldTable)
        ensures
            table@ == table_of(matches_view(found@)),
    {
        let mut table = FieldTable::empty();
        let mut i: usize = 0;
        while i < found.len()
            invariant
                i <= found.len(),
                table@ == table_of(matches_view(found@).take(i as int)),
            decreases found.len() - i,
        {
            let groups = &found[i];
            proof {
                let all = matches_view(found@);
                assert(all.take(i + 1).drop_last() == all.take(i as int));
                assert(all.take(i + 1).last() == all[i as int]);
            }
            if groups.len() >= 3 {
                match (&groups[1], &groups[2]) {
                    (Some(name), Some(value)) => {
                        table.insert(name.clone(), strip_braces(value.as_str()));
                    },
                    _ => {},
                }
            }
            i += 1;
        }
        assert(matches_view(found@).take(found.len() as int) == matches_view(found@));
        table
    }

    /// The table of the body of an entry.
    pub fn parse(body: &str) -> (table: FieldTable)
        ensures
            table@ == field_table(body@),
    {
        match captures(ENTRY, body) {
            Some(found) => FieldTable::from_captures(&found),
            None => FieldTable::empty(),
        }
    }
}

} // verus!
