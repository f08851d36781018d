//! Records of every type: what the four types share, and the laws that hold
//! of them all.

use crate::article::{Article, ArticleView};
use crate::book::{Book, BookView};
use crate::checks::{agrees, has_value, rejected, Outcome};
use crate::collection::{Collection, CollectionView};
use crate::diagnostic::{Field, Rejection, Warning, WarningView};
use crate::fields::{field_table, FieldTable};
use crate::key::citation_key;
use crate::model::views;
use crate::proceedings::{Proceedings, ProceedingsView};
use vstd::prelude::*;

verus! {

/// The types of entries that are validated and rendered.
#[derive(Clone, Copy, Debug, PartialEq, Eq, Structural)]
pub enum RecordKind {
    Article,
    Book,
    /// A contribution to a collection.
    Collection,
    /// A contribution to proceedings.
    Proceedings,
}

impl RecordKind {
    /// How a diagnostic calls an entry of this kind.
    pub open spec fn noun(self) -> Seq<char> {
        match self {
            RecordKind::Article => "article"@,
            RecordKind::Book => "book"@,
            RecordKind::Collection => "collection"@,
            RecordKind::Proceedings => "inproceedings"@,
        }
    }

    /// How a diagnostic calls an entry of this kind.
    pub fn name(&self) -> (s: &'static str)
        ensures
            s@ == self.noun(),
    {
        match self {
            RecordKind::Article => "article",
            RecordKind::Book => "book",
            RecordKind::Collection => "collection",
            RecordKind::Proceedings => "inproceedings",
        }
    }
}

impl RecordKind {
    /// The fields that an entry of this kind must give, in the order in
    /// which they are looked for.
    pub open spec fn required(self) -> Seq<Field> {
        match self {
            RecordKind::Article => seq![
                Field::Author,
                Field::Title,
                Field::Journal,
                Field::Month,
                Field::Year,
            ],
            RecordKind::Book => seq![
                Field::Author,
                Field::Title,
                Field::Publisher,
                Field::Month,
                Field::Year,
                Field::Isbn,
            ],
            RecordKind::Collection => seq![
                Field::Author,
                Field::Title,
                Field::Booktitle,
                Field::Editor,
                Field::Publisher,
                Field::Year,
                Field::Isbn,
                Field::Doi,
            ],
            RecordKind::Proceedings => seq![
                Field::Author,
                Field::Title,
                Field::Booktitle,
                Field::Address,
                Field::Year,
                Field::Month,
            ],
        }
    }
}

/// The first of the fields for which the table holds no value, or only an
/// empty one.
pub open spec fn first_missing(table: Map<Seq<char>, Seq<char>>, fields: Seq<Field>) -> Option<
    Field,
>
    decreases fields.len(),
{
    if fields.len() == 0 {
        None
    } else if !has_value(table, fields[0]) {
        Some(fields[0])
    } else {
        first_missing(table, fields.skip(1))
    }
}

/// A validated record of any type.
#[derive(Clone, Debug, PartialEq, Eq)]
pub enum Record {
    Article(Article),
    Book(Book),
    Collection(Collection),
    Proceedings(Proceedings),
}

/// A record of any type, with its texts as sequences of characters.
pub enum RecordView {
    Article(ArticleView),
    Book(BookView),
    Collection(CollectionView),
    Proceedings(ProceedingsView),
}

impl View for Record {
    type V = RecordView;

    open spec fn view(&self) -> RecordView {
        match self {
            Record::Article(record) => RecordView::Article(record@),
            Record::Book(record) => RecordView::Book(record@),
            Record::Collection(record) => RecordView::Collection(record@),
            Record::Proceedings(record) => RecordView::Proceedings(record@),
        }
    }
}

impl RecordView {
    /// The type of the record.
    pub open spec fn kind(self) -> RecordKind {
        match self {
            RecordView::Article(_) => RecordKind::Article,
            RecordView::Book(_) => RecordKind::Book,
            RecordView::Collection(_) => RecordKind::Collection,
            RecordView::Proceedings(_) => RecordKind::Proceedings,
        }
    }

    /// The authors of the record.
    pub open spec fn author(self) -> Seq<char> {
        match self {
            RecordView::Article(record) => record.author,
            RecordView::Book(record) => record.author,
            RecordView::Collection(record) => record.author,
            RecordView::Proceedings(record) => record.author,
        }
    }

    /// The year of the record.
    pub open spec fn year(self) -> int {
        match self {
            RecordView::Article(record) => record.year as int,
            RecordView::Book(record) => record.year as int,
            RecordView::Collection(record) => record.year as int,
            RecordView::Proceedings(record) => record.year as int,
        }
    }

    /// The citation key of the record.
    pub open spec fn key(self) -> Seq<char> {
        match self {
            RecordView::Article(record) => record.key(),
            RecordView::Book(record) => record.key(),
            RecordView::Collection(record) => record.key(),
            RecordView::Proceedings(record) => record.key(),
        }
    }

    /// The rendered record.
    pub open spec fn text(self) -> Seq<char> {
        match self {
            RecordView::Article(record) => record.text(),
            RecordView::Book(record) => record.text(),
            RecordView::Collection(record) => record.text(),
            RecordView::Proceedings(record) => record.text(),
        }
    }

    /// Whether the record has passed the checks of its type.
    pub open spec fn valid(self) -> bool {
        match self {
            RecordView::Article(record) => record.valid(),
            RecordView::Book(record) => record.valid(),
            RecordView::Collection(record) => record.valid(),
            RecordView::Proceedings(record) => record.valid(),
        }
    }
}

impl Record {
    /// What validating the entry of the given kind with the given field table
    /// comes to.
    pub open spec fn from_table(kind: RecordKind, table: Map<Seq<char>, Seq<char>>) -> Outcome<
        RecordView,
    > {
        match kind {
            RecordKind::Article => Article::from_table(table).map(
                |record: ArticleView| RecordView::Article(record),
            ),
            RecordKind::Book => Book::from_table(table).map(
                |record: BookView| RecordView::Book(record),
            ),
            RecordKind::Collection => Collection::from_table(table).map(
                |record: CollectionView| RecordView::Collection(record),
            ),
            RecordKind::Proceedings => Proceedings::from_table(table).map(
                |record: ProceedingsView| RecordView::Proceedings(record),
            ),
        }
    }

    /// What validating the entry of the given kind with the given body comes
    /// to.
    pub open spec fn from_body(kind: RecordKind, body: Seq<char>) -> Outcome<RecordView> {
        Self::from_table(kind, field_table(body))
    }

    /// A record that comes out of a field table is of the kind asked for,
    /// and valid.
    pub proof fn lemma_accepted_is_valid(kind: RecordKind, table: Map<Seq<char>, Seq<char>>)
        ensures
            Self::from_table(kind, table).result matches Ok(record) ==> record.kind() == kind
                && record.valid(),
    {
        Article::lemma_accepted_is_valid(table);
        Book::lemma_accepted_is_valid(table);
        Collection::lemma_accepted_is_valid(table);
        Proceedings::lemma_accepted_is_valid(table);
    }

    /// An entry is rejected for a missing field exactly if one of the fields
    /// that its kind requires is absent or empty, and the rejection names the
    /// first of them. It comes before every other check, so no warning goes
    /// with it.
    pub proof fn lemma_first_missing_field_rejects(
        kind: RecordKind,
        table: Map<Seq<char>, Seq<char>>,
    )
        ensures
            match first_missing(table, kind.required()) {
                Some(field) => Self::from_table(kind, table) == rejected::<RecordView>(
                    Rejection::Missing(field),
                    Seq::empty(),
                ),
                None => !(Self::from_table(kind, table).result matches Err(Rejection::Missing(_))),
            },
    {
        let fields = kind.required();
        reveal_with_fuel(first_missing, 9);
        assert(fields.skip(1).skip(1) == fields.skip(2));
        assert(fields.skip(2).skip(1) == fields.skip(3));
        assert(fields.skip(3).skip(1) == fields.skip(4));
        assert(fields.skip(4).skip(1) == fields.skip(5));
        if fields.len() > 5 {
            assert(fields.skip(5).skip(1) == fields.skip(6));
        }
        if fields.len() > 6 {
            assert(fields.skip(6).skip(1) == fields.skip(7));
            assert(fields.skip(7).skip(1) == fields.skip(8));
        }
    }

    /// The citation key of a record depends on its authors and its year
    /// alone: two records with the same authors and year, of whatever types,
    /// have the same key.
    pub proof fn lemma_key_depends_on_author_and_year(first: RecordView, second: RecordView)
        requires
            first.author() == second.author(),
            first.year() == second.year(),
        ensures
            first.key() == second.key(),
            first.key() == citation_key(first.author(), first.year()),
    {
    }

    /// Rendering is stable: what `print` appends is the text of the record,
    /// whatever the writer held before. So two prints of one record, into
    /// whatever writers, append the same characters.
    pub proof fn lemma_print_is_stable(
        record: RecordView,
        first_before: Seq<char>,
        first_after: Seq<char>,
        second_before: Seq<char>,
        second_after: Seq<char>,
    )
        requires
            first_after == first_before + record.text(),
            second_after == second_before + record.text(),
        ensures
            first_after.skip(first_before.len() as int) == record.text(),
            second_after.skip(second_before.len() as int) == first_after.skip(
                first_before.len() as int,
            ),
    {
        assert(first_after.skip(first_before.len() as int) == record.text());
        assert(second_after.skip(second_before.len() as int) == record.text());
    }

    /// Validates the entry of the given kind with the given field table, and
    /// appends the warnings that this raises to `log`.
    pub fn from_fields(kind: RecordKind, table: &FieldTable, log: &mut Vec<Warning>) -> (r: Result<
        Record,
        Rejection,
    >)
        ensures
            views(final(log)@) == views(old(log)@) + Self::from_table(kind, table@).warnings,
            agrees(r, Self::from_table(kind, table@).result),
    {
        match kind {
            RecordKind::Article => match Article::from_fields(table, log) {
                Ok(record) => Ok(Record::Article(record)),
                Err(reason) => Err(reason),
            },
            RecordKind::Book => {
                assert(views(log@) == views(log@) + Seq::<WarningView>::empty());
                match Book::from_fields(table) {
                    Ok(record) => Ok(Record::Book(record)),
                    Err(reason) => Err(reason),
                }
            },
            RecordKind::Collection => {
                assert(views(log@) == views(log@) + Seq::<WarningView>::empty());
                match Collection::from_fields(table) {
                    Ok(record) => Ok(Record::Collection(record)),
                    Err(reason) => Err(reason),
                }
            },
            RecordKind::Proceedings => match Proceedings::from_fields(table, log) {
                Ok(record) => Ok(Record::Proceedings(record)),
                Err(reason) => Err(reason),
            },
        }
    }

    /// Validates the record of the given kind that the body of an entry
    /// describes, and appends the warnings that this raises to `log`.
    pub fn new(kind: RecordKind, input: &str, log: &mut Vec<Warning>) -> (r: Result<
        Record,
        Rejection,
    >)
        ensures
            views(final(log)@) == views(old(log)@) + Self::from_body(kind, input@).warnings,
            agrees(r, Self::from_body(kind, input@).result),
    {
        let table = FieldTable::parse(input);
        Self::from_fields(kind, &table, log)
    }

    /// The type of the record.
    pub fn kind(&self) -> (kind: RecordKind)
        ensures
            kind == self@.kind(),
    {
        match self {
            Record::Article(_) => RecordKind::Article,
            Record::Book(_) => RecordKind::Book,
            Record::Collection(_) => RecordKind::Collection,
            Record::Proceedings(_) => RecordKind::Proceedings,
        }
    }

    /// The citation key of the record.
    pub fn generate_key(&self) -> (key: String)
        ensures
            key@ == self@.key(),
    {
        match self {
            Record::Article(record) => record.generate_key(),
            Record::Book(record) => record.generate_key(),
            Record::Collection(record) => record.generate_key(),
            Record::Proceedings(record) => record.generate_key(),
        }
    }

    /// Appends the rendered record to `writer`.
    pub fn print(&self, writer: &mut String)
        ensures
            final(writer)@ == old(writer)@ + self@.text(),
    {
        match self {
            Record::Article(record) => record.print(writer),
            Record::Book(record) => record.print(writer),
            Record::Collection(record) => record.print(writer),
            Record::Proceedings(record) => record.print(writer),
        }
    }

    /// The rendered record, as a text of its own.
    pub fn rendered(&self) -> (text: String)
        ensures
            text@ == self@.text(),
    {
        let mut text = String::new();
        self.print(&mut text);
        assert(text@ == self@.text());
        text
    }
}

} // verus!
