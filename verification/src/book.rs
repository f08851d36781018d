//! Books: their fields, the checks on them, and their rendering.

use crate::checks::{agrees, has_value, optional_value, rejected, required, Outcome};
use crate::diagnostic::{Field, Rejection};
use crate::fields::{field_table, FieldTable};
use crate::key::{citation_key, generate};
use crate::layout::{line, push_line};
use crate::number::{decimal, decimal_string, parse_i32, parse_int};
use crate::pattern::{accepts, conforms, AUTHOR, ISBN, MONTH, TITLE};
use crate::text::{first_chars, truncated};
use vstd::prelude::*;
use vstd::string::StringExecFns;

verus! {

/// The fields of a book as its entry gives them, the month cut to three
/// characters.
#[derive(Clone, Debug, PartialEq, Eq)]
pub struct BookFields {
    pub author: String,
    pub title: String,
    pub publisher: String,
    pub month: String,
    pub year: String,
    pub isbn: String,
}

/// The fields of a book, as sequences of characters.
pub struct BookFieldsView {
    pub author: Seq<char>,
    pub title: Seq<char>,
    pub publisher: Seq<char>,
    pub month: Seq<char>,
    pub year: Seq<char>,
    pub isbn: Seq<char>,
}

impl View for BookFields {
    type V = BookFieldsView;

    open spec fn view(&self) -> BookFieldsView {
        BookFieldsView {
            author: self.author@,
            title: self.title@,
            publisher: self.publisher@,
            month: self.month@,
            year: self.year@,
            isbn: self.isbn@,
        }
    }
}

/// Which fields of a book their grammars accept.
#[derive(Clone, Copy, Debug, PartialEq, Eq, Structural)]
pub struct BookVerdicts {
    pub author: bool,
    pub title: bool,
    pub publisher: bool,
    pub month: bool,
    pub isbn: bool,
}

/// A validated book.
#[derive(Clone, Debug, PartialEq, Eq)]
pub struct Book {
    author: String,
    title: String,
    publisher: String,
    month: String,
    year: i32,
    isbn: String,
}

/// A book, with its texts as sequences of characters.
pub struct BookView {
    pub author: Seq<char>,
    pub title: Seq<char>,
    pub publisher: Seq<char>,
    pub month: Seq<char>,
    pub year: i32,
    pub isbn: Seq<char>,
}

impl View for Book {
    type V = BookView;

    closed spec fn view(&self) -> BookView {
        BookView {
            author: self.author@,
            title: self.title@,
            publisher: self.publisher@,
            month: self.month@,
            year: self.year,
            isbn: self.isbn@,
        }
    }
}

impl BookView {
    /// What every book that comes out of a field table satisfies: the
    /// required fields are there and each follows its grammar.
    pub open spec fn valid(self) -> bool {
        &&& self.author.len() > 0 && accepts(AUTHOR@, self.author)
        &&& self.title.len() > 0 && accepts(TITLE@, self.title)
        &&& self.publisher.len() > 0 && accepts(TITLE@, self.publisher)
        &&& 0 < self.month.len() <= 3 && accepts(MONTH@, self.month)
        &&& self.isbn.len() > 0 && accepts(ISBN@, self.isbn)
    }

    /// The rendered book, under the given key.
    pub open spec fn text_with_key(self, key: Seq<char>) -> Seq<char> {
        line("@book{"@, key, ",\n"@)
            + line("    author         = {"@, self.author, "},\n"@)
            + line("    title          = {{"@, self.title, "}},\n"@)
            + line("    publisher      = {"@, self.publisher, "},\n"@)
            + line("    month          = {"@, self.month, "},\n"@)
            + line("    year           = {"@, decimal(self.year as int), "},\n"@)
            + line("    isbn           = {"@, self.isbn, "},\n"@)
            + "}\n"@
    }

    /// The citation key of the book.
    pub open spec fn key(self) -> Seq<char> {
        citation_key(self.author, self.year as int)
    }

    /// The rendered book.
    pub open spec fn text(self) -> Seq<char> {
        self.text_with_key(self.key())
    }
}

impl Book {
    /// The fields of the book that a table describes. The required fields
    /// are looked for in the order author, title, publisher, month, year,
    /// isbn; the first that is absent or empty rejects the entry.
    pub open spec fn fields_of(table: Map<Seq<char>, Seq<char>>) -> Result<
        BookFieldsView,
        Rejection,
    > {
        if !has_value(table, Field::Author) {
            Err(Rejection::Missing(Field::Author))
        } else if !has_value(table, Field::Title) {
            Err(Rejection::Missing(Field::Title))
        } else if !has_value(table, Field::Publisher) {
            Err(Rejection::Missing(Field::Publisher))
        } else if !has_value(table, Field::Month) {
            Err(Rejection::Missing(Field::Month))
        } else if !has_value(table, Field::Year) {
            Err(Rejection::Missing(Field::Year))
        } else if !has_value(table, Field::Isbn) {
            Err(Rejection::Missing(Field::Isbn))
        } else {
            Ok(
                BookFieldsView {
                    author: optional_value(table, Field::Author),
                    title: optional_value(table, Field::Title),
                    publisher: optional_value(table, Field::Publisher),
                    month: first_chars(optional_value(table, Field::Month), 3),
                    year: optional_value(table, Field::Year),
                    isbn: optional_value(table, Field::Isbn),
                },
            )
        }
    }

    /// Which of the fields their grammars accept.
    pub open spec fn verdicts_of(fields: BookFieldsView) -> BookVerdicts {
        BookVerdicts {
            author: accepts(AUTHOR@, fields.author),
            title: accepts(TITLE@, fields.title),
            publisher: accepts(TITLE@, fields.publisher),
            month: accepts(MONTH@, fields.month),
            isbn: accepts(ISBN@, fields.isbn),
        }
    }

    /// What validating the fields comes to, given the verdicts of the
    /// grammars. The checks run in this order, and the first that fails
    /// rejects the entry: the formats of author, title, publisher, month and
    /// isbn; the year.
    pub open spec fn outcome(fields: BookFieldsView, verdicts: BookVerdicts) -> Result<
        BookView,
        Rejection,
    > {
        if !verdicts.author {
            Err(Rejection::BadFormat(Field::Author))
        } else if !verdicts.title {
            Err(Rejection::BadFormat(Field::Title))
        } else if !verdicts.publisher {
            Err(Rejection::BadFormat(Field::Publisher))
        } else if !verdicts.month {
            Err(Rejection::BadFormat(Field::Month))
        } else if !verdicts.isbn {
            Err(Rejection::BadFormat(Field::Isbn))
        } else if parse_i32(fields.year) is None {
            Err(Rejection::BadYear)
        } else {
            Ok(
                BookView {
                    author: fields.author,
                    title: fields.title,
                    publisher: fields.publisher,
                    month: fields.month,
                    year: parse_i32(fields.year)->0,
                    isbn: fields.isbn,
                },
            )
        }
    }

    /// What validating the entry with the given field table comes to. A
    /// book raises no warnings.
    pub open spec fn from_table(table: Map<Seq<char>, Seq<char>>) -> Outcome<BookView> {
        match Self::fields_of(table) {
            Err(reason) => rejected(reason, Seq::empty()),
            Ok(fields) => Outcome {
                result: Self::outcome(fields, Self::verdicts_of(fields)),
                warnings: Seq::empty(),
            },
        }
    }

    /// Every book that comes out of a field table is valid.
    pub proof fn lemma_accepted_is_valid(table: Map<Seq<char>, Seq<char>>)
        ensures
            Self::from_table(table).result matches Ok(book) ==> book.valid(),
    {
    }

    /// Reads the fields of a book from a table.
    pub fn read(table: &FieldTable) -> (r: Result<BookFields, Rejection>)
        ensures
            agrees(r, Self::fields_of(table@)),
    {
        let author = required(table, Field::Author)?;
        let title = required(table, Field::Title)?;
        let publisher = required(table, Field::Publisher)?;
        let month = required(table, Field::Month)?;
        let year = required(table, Field::Year)?;
        let isbn = required(table, Field::Isbn)?;
        Ok(
            BookFields {
                author,
                title,
                publisher,
                month: truncated(month.as_str(), 3),
                year,
                isbn,
            },
        )
    }

    /// Asks the grammars which of the fields they accept.
    pub fn check(fields: &BookFields) -> (verdicts: BookVerdicts)
        ensures
            verdicts == Self::verdicts_of(fields@),
    {
        BookVerdicts {
            author: conforms(AUTHOR, fields.author.as_str()),
            title: conforms(TITLE, fields.title.as_str()),
            publisher: conforms(TITLE, fields.publisher.as_str()),
            month: conforms(MONTH, fields.month.as_str()),
            isbn: conforms(ISBN, fields.isbn.as_str()),
        }
    }

    /// Validates the fields of a book, given the verdicts of the grammars.
    pub fn validate(fields: BookFields, verdicts: BookVerdicts) -> (r: Result<Book, Rejection>)
        ensures
            agrees(r, Self::outcome(fields@, verdicts)),
    {
        if !verdicts.author {
            return Err(Rejection::BadFormat(Field::Author));
        }
        if !verdicts.title {
            return Err(Rejection::BadFormat(Field::Title));
        }
        if !verdicts.publisher {
            return Err(Rejection::BadFormat(Field::Publisher));
        }
        if !verdicts.month {
            return Err(Rejection::BadFormat(Field::Month));
        }
        if !verdicts.isbn {
            return Err(Rejection::BadFormat(Field::Isbn));
        }
        let year = match parse_int(fields.year.as_str()) {
            Some(year) => year,
            None => {
                return Err(Rejection::BadYear);
            },
        };
        Ok(
            Book {
                author: fields.author,
                title: fields.title,
                publisher: fields.publisher,
                month: fields.month,
                year,
                isbn: fields.isbn,
            },
        )
    }

    /// Validates the entry with the given field table.
    pub fn from_fields(table: &FieldTable) -> (r: Result<Book, Rejection>)
        ensures
            agrees(r, Self::from_table(table@).result),
    {
        let fields = Self::read(table)?;
        let verdicts = Self::check(&fields);
        Self::validate(fields, verdicts)
    }

    /// Validates the book that the body of an entry describes.
    pub fn new(input: &str) -> (r: Result<Book, Rejection>)
        ensures
            agrees(r, Self::from_table(field_table(input@)).result),
    {
        let table = FieldTable::parse(input);
        Self::from_fields(&table)
    }

    /// The authors.
    pub fn author(&self) -> (r: &str)
        ensures
            r@ == self@.author,
    {
        self.author.as_str()
    }

    /// The title.
    pub fn title(&self) -> (r: &str)
        ensures
            r@ == self@.title,
    {
        self.title.as_str()
    }

    /// The publisher.
    pub fn publisher(&self) -> (r: &str)
        ensures
            r@ == self@.publisher,
    {
        self.publisher.as_str()
    }

    /// The month.
    pub fn month(&self) -> (r: &str)
        ensures
            r@ == self@.month,
    {
        self.month.as_str()
    }

    /// The year.
    pub fn year(&self) -> (r: i32)
        ensures
            r == self@.year,
    {
        self.year
    }

    /// The ISBN.
    pub fn isbn(&self) -> (r: &str)
        ensures
            r@ == self@.isbn,
    {
        self.isbn.as_str()
    }

    /// The citation key of the book.
    pub fn generate_key(&self) -> (key: String)
        ensures
            key@ == self@.key(),
    {
        generate(self.author.as_str(), self.year)
    }

    /// Appends the rendered book, under the given key, to `writer`.
    pub fn render(&self, key: &str, writer: &mut String)
        ensures
            final(writer)@ == old(writer)@ + self@.text_with_key(key@),
    {
        let mut text = String::new();
        push_line(&mut text, "@book{", key, ",\n");
        push_line(&mut text, "    author         = {", self.author.as_str(), "},\n");
        push_line(&mut text, "    title          = {{", self.title.as_str(), "}},\n");
        push_line(&mut text, "    publisher      = {", self.publisher.as_str(), "},\n");
        push_line(&mut text, "    month          = {", self.month.as_str(), "},\n");
        let year = decimal_string(self.year);
        push_line(&mut text, "    year           = {", year.as_str(), "},\n");
        push_line(&mut text, "    isbn           = {", self.isbn.as_str(), "},\n");
        text.append("}\n");
        assert(text@ == self@.text_with_key(key@));
        writer.append(text.as_str());
    }

    /// Appends the rendered book to `writer`.
    pub fn print(&self, writer: &mut String)
        ensures
            final(writer)@ == old(writer)@ + self@.text(),
    {
        let key = self.generate_key();
        self.render(key.as_str(), writer);
    }
}

} // verus!
