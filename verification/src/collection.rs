//! Contributions to a collection: their fields, the checks on them, and their
//! rendering.

use crate::checks::{
    agrees, check_hard_pages, hard_pages_rejection, has_value, in_order, optional,
    optional_value,
    rejected, required, Outcome,
};
use crate::diagnostic::{Field, Rejection};
use crate::fields::{field_table, FieldTable};
use crate::key::{citation_key, generate};
use crate::layout::{line, push_line};
use crate::number::{decimal, decimal_string, parse_i32, parse_int};
use crate::pattern::{accepts, conforms, AUTHOR, DOI, ISBN, PAGES, TITLE};
use vstd::prelude::*;
use vstd::string::StringExecFns;

verus! {

/// The fields of a contribution to a collection as its entry gives them.
#[derive(Clone, Debug, PartialEq, Eq)]
pub struct CollectionFields {
    pub author: String,
    pub title: String,
    pub booktitle: String,
    pub editor: String,
    pub publisher: String,
    pub year: String,
    pub pages: String,
    pub isbn: String,
    pub doi: String,
}

/// The fields of a contribution to a collection, as sequences of characters.
pub struct CollectionFieldsView {
    pub author: Seq<char>,
    pub title: Seq<char>,
    pub booktitle: Seq<char>,
    pub editor: Seq<char>,
    pub publisher: Seq<char>,
    pub year: Seq<char>,
    pub pages: Seq<char>,
    pub isbn: Seq<char>,
    pub doi: Seq<char>,
}

impl View for CollectionFields {
    type V = CollectionFieldsView;

    open spec fn view(&self) -> CollectionFieldsView {
        CollectionFieldsView {
            author: self.author@,
            title: self.title@,
            booktitle: self.booktitle@,
            editor: self.editor@,
            publisher: self.publisher@,
            year: self.year@,
            pages: self.pages@,
            isbn: self.isbn@,
            doi: self.doi@,
        }
    }
}

/// Which fields of a contribution to a collection their grammars accept.
#[derive(Clone, Copy, Debug, PartialEq, Eq, Structural)]
pub struct CollectionVerdicts {
    pub author: bool,
    pub title: bool,
    pub booktitle: bool,
    pub editor: bool,
    pub publisher: bool,
    pub pages: bool,
    pub isbn: bool,
    pub doi: bool,
}

/// A validated contribution to a collection.
#[derive(Clone, Debug, PartialEq, Eq)]
pub struct Collection {
    author: String,
    title: String,
    booktitle: String,
    editor: String,
    publisher: String,
    year: i32,
    pages: String,
    isbn: String,
    doi: String,
}

/// A contribution to a collection, with its texts as sequences of characters.
pub struct CollectionView {
    pub author: Seq<char>,
    pub title: Seq<char>,
    pub booktitle: Seq<char>,
    pub editor: Seq<char>,
    pub publisher: Seq<char>,
    pub year: i32,
    pub pages: Seq<char>,
    pub isbn: Seq<char>,
    pub doi: Seq<char>,
}

impl View for Collection {
    type V = CollectionView;

    closed spec fn view(&self) -> CollectionView {
        CollectionView {
            author: self.author@,
            title: self.title@,
            booktitle: self.booktitle@,
            editor: self.editor@,
            publisher: self.publisher@,
            year: self.year,
            pages: self.pages@,
            isbn: self.isbn@,
            doi: self.doi@,
        }
    }
}

impl CollectionView {
    /// What every contribution that comes out of a field table satisfies:
    /// the required fields are there, each field follows its grammar, and the
    /// pages are a range in order.
    pub open spec fn valid(self) -> bool {
        &&& self.author.len() > 0 && accepts(AUTHOR@, self.author)
        &&& self.title.len() > 0 && accepts(TITLE@, self.title)
        &&& self.booktitle.len() > 0 && accepts(TITLE@, self.booktitle)
        &&& self.editor.len() > 0 && accepts(TITLE@, self.editor)
        &&& self.publisher.len() > 0 && accepts(TITLE@, self.publisher)
        &&& accepts(PAGES@, self.pages) && in_order(self.pages)
        &&& self.isbn.len() > 0 && accepts(ISBN@, self.isbn)
        &&& self.doi.len() > 0 && accepts(DOI@, self.doi)
    }

    /// The rendered contribution, under the given key. Its opening tag is
    /// that of a contribution to proceedings.
    pub open spec fn text_with_key(self, key: Seq<char>) -> Seq<char> {
        line("@inproceedings{"@, key, ",\n"@)
            + line("    author         = {"@, self.author, "},\n"@)
            + line("    title          = {{"@, self.title, "}},\n"@)
            + line("    booktitle      = {{"@, self.booktitle, "}},\n"@)
            + line("    editor         = {"@, self.editor, "},\n"@)
            + line("    publisher      = {"@, self.publisher, "},\n"@)
            + line("    year           = {"@, decimal(self.year as int), "},\n"@)
            + line("    pages          = {"@, self.pages, "},\n"@)
            + line("    isbn           = {"@, self.isbn, "},\n"@)
            + line("    doi            = {"@, self.doi, "}\n"@)
            + "}\n"@
    }

    /// The citation key of the contribution.
    pub open spec fn key(self) -> Seq<char> {
        citation_key(self.author, self.year as int)
    }

    /// The rendered contribution.
    pub open spec fn text(self) -> Seq<char> {
        self.text_with_key(self.key())
    }
}

impl Collection {
    /// The fields of the contribution that a table describes. The required
    /// fields are looked for in the order author, title, booktitle, editor,
    /// publisher, year, isbn, doi; the first that is absent or empty rejects
    /// the entry.
    pub open spec fn fields_of(table: Map<Seq<char>, Seq<char>>) -> Result<
        CollectionFieldsView,
        Rejection,
    > {
        if !has_value(table, Field::Author) {
            Err(Rejection::Missing(Field::Author))
        } else if !has_value(table, Field::Title) {
            Err(Rejection::Missing(Field::Title))
        } else if !has_value(table, Field::Booktitle) {
            Err(Rejection::Missing(Field::Booktitle))
        } else if !has_value(table, Field::Editor) {
            Err(Rejection::Missing(Field::Editor))
        } else if !has_value(table, Field::Publisher) {
            Err(Rejection::Missing(Field::Publisher))
        } else if !has_value(table, Field::Year) {
            Err(Rejection::Missing(Field::Year))
        } else if !has_value(table, Field::Isbn) {
            Err(Rejection::Missing(Field::Isbn))
        } else if !has_value(table, Field::Doi) {
            Err(Rejection::Missing(Field::Doi))
        } else {
            Ok(
                CollectionFieldsView {
                    author: optional_value(table, Field::Author),
                    title: optional_value(table, Field::Title),
                    booktitle: optional_value(table, Field::Booktitle),
                    editor: optional_value(table, Field::Editor),
                    publisher: optional_value(table, Field::Publisher),
                    year: optional_value(table, Field::Year),
                    pages: optional_value(table, Field::Pages),
                    isbn: optional_value(table, Field::Isbn),
                    doi: optional_value(table, Field::Doi),
                },
            )
        }
    }

    /// Which of the fields their grammars accept.
    pub open spec fn verdicts_of(fields: CollectionFieldsView) -> CollectionVerdicts {
        CollectionVerdicts {
            author: accepts(AUTHOR@, fields.author),
            title: accepts(TITLE@, fields.title),
            booktitle: accepts(TITLE@, fields.booktitle),
            editor: accepts(TITLE@, fields.editor),
            publisher: accepts(TITLE@, fields.publisher),
            pages: accepts(PAGES@, fields.pages),
            isbn: accepts(ISBN@, fields.isbn),
            doi: accepts(DOI@, fields.doi),
        }
    }

    /// What validating the fields comes to, given the verdicts of the
    /// grammars. The checks run in this order, and the first that fails
    /// rejects the entry: the formats of author, title, booktitle, editor and
    /// publisher; the pages, which may not be left out; the formats of isbn
    /// and doi; the year.
    pub open spec fn outcome(fields: CollectionFieldsView, verdicts: CollectionVerdicts) -> Result<
        CollectionView,
        Rejection,
    > {
        if !verdicts.author {
            Err(Rejection::BadFormat(Field::Author))
        } else if !verdicts.title {
            Err(Rejection::BadFormat(Field::Title))
        } else if !verdicts.booktitle {
            Err(Rejection::BadFormat(Field::Booktitle))
        } else if !verdicts.editor {
            Err(Rejection::BadFormat(Field::Editor))
        } else if !verdicts.publisher {
            Err(Rejection::BadFormat(Field::Publisher))
        } else if hard_pages_rejection(fields.pages, verdicts.pages) is Some {
            Err(hard_pages_rejection(fields.pages, verdicts.pages)->0)
        } else if !verdicts.isbn {
            Err(Rejection::BadFormat(Field::Isbn))
        } else if !verdicts.doi {
            Err(Rejection::BadFormat(Field::Doi))
        } else if parse_i32(fields.year) is None {
            Err(Rejection::BadYear)
        } else {
            Ok(
                CollectionView {
                    author: fields.author,
                    title: fields.title,
                    booktitle: fields.booktitle,
                    editor: fields.editor,
                    publisher: fields.publisher,
                    year: parse_i32(fields.year)->0,
                    pages: fields.pages,
                    isbn: fields.isbn,
                    doi: fields.doi,
                },
            )
        }
    }

    /// What validating the entry with the given field table comes to. A
    /// contribution to a collection raises no warnings.
    pub open spec fn from_table(table: Map<Seq<char>, Seq<char>>) -> Outcome<CollectionView> {
        match Self::fields_of(table) {
            Err(reason) => rejected(reason, Seq::empty()),
            Ok(fields) => Outcome {
                result: Self::outcome(fields, Self::verdicts_of(fields)),
                warnings: Seq::empty(),
            },
        }
    }

    /// Every contribution that comes out of a field table is valid.
    pub proof fn lemma_accepted_is_valid(table: Map<Seq<char>, Seq<char>>)
        ensures
            Self::from_table(table).result matches Ok(record) ==> record.valid(),
    {
    }

    /// Reads the fields of a contribution to a collection from a table.
    pub fn read(table: &FieldTable) -> (r: Result<CollectionFields, Rejection>)
        ensures
            agrees(r, Self::fields_of(table@)),
    {
        let author = required(table, Field::Author)?;
        let title = required(table, Field::Title)?;
        let booktitle = required(table, Field::Booktitle)?;
        let editor = required(table, Field::Editor)?;
        let publisher = required(table, Field::Publisher)?;
        let year = required(table, Field::Year)?;
        let isbn = required(table, Field::Isbn)?;
        let doi = required(table, Field::Doi)?;
        Ok(
            CollectionFields {
                author,
                title,
                booktitle,
                editor,
                publisher,
                year,
                pages: optional(table, Field::Pages),
                isbn,
                doi,
            },
        )
    }

    /// Asks the grammars which of the fields they accept.
    pub fn check(fields: &CollectionFields) -> (verdicts: CollectionVerdicts)
        ensures
            verdicts == Self::verdicts_of(fields@),
    {
        CollectionVerdicts {
            author: conforms(AUTHOR, fields.author.as_str()),
            title: conforms(TITLE, fields.title.as_str()),
            booktitle: conforms(TITLE, fields.booktitle.as_str()),
            editor: conforms(TITLE, fields.editor.as_str()),
            publisher: conforms(TITLE, fields.publisher.as_str()),
            pages: conforms(PAGES, fields.pages.as_str()),
            isbn: conforms(ISBN, fields.isbn.as_str()),
            doi: conforms(DOI, fields.doi.as_str()),
        }
    }

    /// Validates the fields of a contribution to a collection, given the
    /// verdicts of the grammars.
    pub fn validate(fields: CollectionFields, verdicts: CollectionVerdicts) -> (r: Result<
        Collection,
        Rejection,
    >)
        ensures
            agrees(r, Self::outcome(fields@, verdicts)),
    {
        if !verdicts.author {
            return Err(Rejection::BadFormat(Field::Author));
        }
        if !verdicts.title {
            return Err(Rejection::BadFormat(Field::Title));
        }
        if !verdicts.booktitle {
            return Err(Rejection::BadFormat(Field::Booktitle));
        }
        if !verdicts.editor {
            return Err(Rejection::BadFormat(Field::Editor));
        }
        if !verdicts.publisher {
            return Err(Rejection::BadFormat(Field::Publisher));
        }
        match check_hard_pages(fields.pages.as_str(), verdicts.pages) {
            Some(reason) => {
                return Err(reason);
            },
            None => {},
        }
        if !verdicts.isbn {
            return Err(Rejection::BadFormat(Field::Isbn));
        }
        if !verdicts.doi {
            return Err(Rejection::BadFormat(Field::Doi));
        }
        let year = match parse_int(fields.year.as_str()) {
            Some(year) => year,
            None => {
                return Err(Rejection::BadYear);
            },
        };
        Ok(
            Collection {
                author: fields.author,
                title: fields.title,
                booktitle: fields.booktitle,
                editor: fields.editor,
                publisher: fields.publisher,
                year,
                pages: fields.pages,
                isbn: fields.isbn,
                doi: fields.doi,
            },
        )
    }

    /// Validates the entry with the given field table.
    pub fn from_fields(table: &FieldTable) -> (r: Result<Collection, Rejection>)
        ensures
            agrees(r, Self::from_table(table@).result),
    {
        let fields = Self::read(table)?;
        let verdicts = Self::check(&fields);
        Self::validate(fields, verdicts)
    }

    /// Validates the contribution that the body of an entry describes.
    pub fn new(input: &str) -> (r: Result<Collection, Rejection>)
        ensures
            agrees(r, Self::from_table(field_table(input@)).result),
    {
        let table = FieldTable::parse(input);
        Self::from_fields(&table)
    }

    /// The authors.
    pub fn author(&self) -> (r: &str)
        ensures
            r@ == self@.author,
    {
        self.author.as_str()
    }

    /// The title.
    pub fn title(&self) -> (r: &str)
        ensures
            r@ == self@.title,
    {
        self.title.as_str()
    }

    /// The title of the book.
    pub fn booktitle(&self) -> (r: &str)
        ensures
            r@ == self@.booktitle,
    {
        self.booktitle.as_str()
    }

    /// The editor.
    pub fn editor(&self) -> (r: &str)
        ensures
            r@ == self@.editor,
    {
        self.editor.as_str()
    }

    /// The publisher.
    pub fn publisher(&self) -> (r: &str)
        ensures
            r@ == self@.publisher,
    {
        self.publisher.as_str()
    }

    /// The year.
    pub fn year(&self) -> (r: i32)
        ensures
            r == self@.year,
    {
        self.year
    }

    /// The pages.
    pub fn pages(&self) -> (r: &str)
        ensures
            r@ == self@.pages,
    {
        self.pages.as_str()
    }

    /// The ISBN.
    pub fn isbn(&self) -> (r: &str)
        ensures
            r@ == self@.isbn,
    {
        self.isbn.as_str()
    }

    /// The DOI.
    pub fn doi(&self) -> (r: &str)
        ensures
            r@ == self@.doi,
    {
        self.doi.as_str()
    }

    /// The citation key of the contribution.
    pub fn generate_key(&self) -> (key: String)
        ensures
            key@ == self@.key(),
    {
        generate(self.author.as_str(), self.year)
    }

    /// Appends the rendered contribution, under the given key, to `writer`.
    pub fn render(&self, key: &str, writer: &mut String)
        ensures
            final(writer)@ == old(writer)@ + self@.text_with_key(key@),
    {
        let mut text = String::new();
        push_line(&mut text, "@inproceedings{", key, ",\n");
        push_line(&mut text, "    author         = {", self.author.as_str(), "},\n");
        push_line(&mut text, "    title          = {{", self.title.as_str(), "}},\n");
        push_line(&mut text, "    booktitle      = {{", self.booktitle.as_str(), "}},\n");
        push_line(&mut text, "    editor         = {", self.editor.as_str(), "},\n");
        push_line(&mut text, "    publisher      = {", self.publisher.as_str(), "},\n");
        let year = decimal_string(self.year);
        push_line(&mut text, "    year           = {", year.as_str(), "},\n");
        push_line(&mut text, "    pages          = {", self.pages.as_str(), "},\n");
        push_line(&mut text, "    isbn           = {", self.isbn.as_str(), "},\n");
        push_line(&mut text, "    doi            = {", self.doi.as_str(), "}\n");
        text.append("}\n");
        assert(text@ == self@.text_with_key(key@));
        writer.append(text.as_str());
    }

    /// Appends the rendered contribution to `writer`.
    pub fn print(&self, writer: &mut String)
        ensures
            final(writer)@ == old(writer)@ + self@.text(),
    {
        let key = self.generate_key();
        self.render(key.as_str(), writer);
    }
}

} // verus!
