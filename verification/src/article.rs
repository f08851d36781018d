//! Articles: their fields, the checks on them, and their rendering.

use crate::checks::{
    agrees, check_soft_pages, doi_or_empty, has_value, number_or_sentinel, optional, optional_value,
    in_order, read_doi, read_number, rejected, required, soft_pages_rejection, warning_if,
    Outcome,
};
use crate::diagnostic::{Defect, Field, Rejection, Warning, WarningView};
use crate::fields::{field_table, FieldTable};
use crate::key::{citation_key, generate};
use crate::layout::{line, number_line, push_line, push_number_line};
use crate::model::views;
use crate::number::{decimal, decimal_string, parse_i32, parse_int};
use crate::pattern::{accepts, conforms, AUTHOR, DOI, MONTH, PAGES, TITLE};
use crate::text::{first_chars, truncated};
use vstd::prelude::*;
use vstd::string::StringExecFns;

verus! {

/// The fields of an article as its entry gives them, the month cut to three
/// characters.
#[derive(Clone, Debug, PartialEq, Eq)]
pub struct ArticleFields {
    pub author: String,
    pub title: String,
    pub journal: String,
    pub volume: String,
    pub number: String,
    pub month: String,
    pub year: String,
    pub pages: String,
    pub doi: String,
}

/// The fields of an article, as sequences of characters.
pub struct ArticleFieldsView {
    pub author: Seq<char>,
    pub title: Seq<char>,
    pub journal: Seq<char>,
    pub volume: Seq<char>,
    pub number: Seq<char>,
    pub month: Seq<char>,
    pub year: Seq<char>,
    pub pages: Seq<char>,
    pub doi: Seq<char>,
}

impl View for ArticleFields {
    type V = ArticleFieldsView;

    open spec fn view(&self) -> ArticleFieldsView {
        ArticleFieldsView {
            author: self.author@,
            title: self.title@,
            journal: self.journal@,
            volume: self.volume@,
            number: self.number@,
            month: self.month@,
            year: self.year@,
            pages: self.pages@,
            doi: self.doi@,
        }
    }
}

/// Which fields of an article their grammars accept.
#[derive(Clone, Copy, Debug, PartialEq, Eq, Structural)]
pub struct ArticleVerdicts {
    pub author: bool,
    pub title: bool,
    pub journal: bool,
    pub month: bool,
    pub pages: bool,
    pub doi: bool,
}

/// A validated article.
#[derive(Clone, Debug, PartialEq, Eq)]
pub struct Article {
    author: String,
    title: String,
    journal: String,
    volume: i32,
    number: i32,
    month: String,
    year: i32,
    pages: String,
    doi: String,
}

/// An article, with its texts as sequences of characters. A volume or number
/// of -1 stands for one that the entry did not give.
pub struct ArticleView {
    pub author: Seq<char>,
    pub title: Seq<char>,
    pub journal: Seq<char>,
    pub volume: i32,
    pub number: i32,
    pub month: Seq<char>,
    pub year: i32,
    pub pages: Seq<char>,
    pub doi: Seq<char>,
}

impl View for Article {
    type V = ArticleView;

    closed spec fn view(&self) -> ArticleView {
        ArticleView {
            author: self.author@,
            title: self.title@,
            journal: self.journal@,
            volume: self.volume,
            number: self.number,
            month: self.month@,
            year: self.year,
            pages: self.pages@,
            doi: self.doi@,
        }
    }
}

impl ArticleView {
    /// What every article that comes out of a field table satisfies: the
    /// required fields are there, each field follows its grammar, the pages
    /// are empty or a range in order, and the DOI is empty or well formed.
    pub open spec fn valid(self) -> bool {
        &&& self.author.len() > 0 && accepts(AUTHOR@, self.author)
        &&& self.title.len() > 0 && accepts(TITLE@, self.title)
        &&& self.journal.len() > 0 && accepts(TITLE@, self.journal)
        &&& 0 < self.month.len() <= 3 && accepts(MONTH@, self.month)
        &&& self.pages.len() == 0 || (accepts(PAGES@, self.pages) && in_order(self.pages))
        &&& self.doi.len() == 0 || accepts(DOI@, self.doi)
    }

    /// The rendered article, under the given key.
    pub open spec fn text_with_key(self, key: Seq<char>) -> Seq<char> {
        line("@article{"@, key, ",\n"@)
            + line("    author         = {"@, self.author, "},\n"@)
            + line("    title          = {{"@, self.title, "}},\n"@)
            + line("    journal        = {{"@, self.journal, "}},\n"@)
            + number_line(
                "    volume         = {"@,
                self.volume as int,
                "},\n"@,
                "    volume         = {}\n"@,
            )
            + number_line(
                "    number         = {"@,
                self.number as int,
                "},\n"@,
                "    number         = {}\n"@,
            )
            + line("    month          = {"@, self.month, "},\n"@)
            + line("    year           = {"@, decimal(self.year as int), "},\n"@)
            + line("    pages          = {"@, self.pages, "}\n"@)
            + line("    doi            = {"@, self.doi, "}\n"@)
            + "}\n"@
    }

    /// The citation key of the article.
    pub open spec fn key(self) -> Seq<char> {
        citation_key(self.author, self.year as int)
    }

    /// The rendered article.
    pub open spec fn text(self) -> Seq<char> {
        self.text_with_key(self.key())
    }
}

impl Article {
    /// The fields of the article that a table describes. The required fields
    /// are looked for in the order author, title, journal, month, year; the
    /// first that is absent or empty rejects the entry.
    pub open spec fn fields_of(table: Map<Seq<char>, Seq<char>>) -> Result<
        ArticleFieldsView,
        Rejection,
    > {
        if !has_value(table, Field::Author) {
            Err(Rejection::Missing(Field::Author))
        } else if !has_value(table, Field::Title) {
            Err(Rejection::Missing(Field::Title))
        } else if !has_value(table, Field::Journal) {
            Err(Rejection::Missing(Field::Journal))
        } else if !has_value(table, Field::Month) {
            Err(Rejection::Missing(Field::Month))
        } else if !has_value(table, Field::Year) {
            Err(Rejection::Missing(Field::Year))
        } else {
            Ok(
                ArticleFieldsView {
                    author: optional_value(table, Field::Author),
                    title: optional_value(table, Field::Title),
                    journal: optional_value(table, Field::Journal),
                    volume: optional_value(table, Field::Volume),
                    number: optional_value(table, Field::Number),
                    month: first_chars(optional_value(table, Field::Month), 3),
                    year: optional_value(table, Field::Year),
                    pages: optional_value(table, Field::Pages),
                    doi: optional_value(table, Field::Doi),
                },
            )
        }
    }

    /// Which of the fields their grammars accept.
    pub open spec fn verdicts_of(fields: ArticleFieldsView) -> ArticleVerdicts {
        ArticleVerdicts {
            author: accepts(AUTHOR@, fields.author),
            title: accepts(TITLE@, fields.title),
            journal: accepts(TITLE@, fields.journal),
            month: accepts(MONTH@, fields.month),
            pages: accepts(PAGES@, fields.pages),
            doi: accepts(DOI@, fields.doi),
        }
    }

    /// What validating the fields comes to, given the verdicts of the
    /// grammars. The checks run in this order, and the first that fails
    /// rejects the entry: the formats of author, title, journal and month;
    /// the pages, which may be left out at the price of a warning; the year.
    /// After that nothing rejects: a volume or number that is no integer
    /// becomes -1, a DOI that its grammar refuses is cleared, each with a
    /// warning.
    pub open spec fn outcome(fields: ArticleFieldsView, verdicts: ArticleVerdicts) -> Outcome<
        ArticleView,
    > {
        let no_pages = warning_if(fields.pages.len() == 0, Defect::NoPages, fields.title);
        if !verdicts.author {
            rejected(Rejection::BadFormat(Field::Author), Seq::empty())
        } else if !verdicts.title {
            rejected(Rejection::BadFormat(Field::Title), Seq::empty())
        } else if !verdicts.journal {
            rejected(Rejection::BadFormat(Field::Journal), Seq::empty())
        } else if !verdicts.month {
            rejected(Rejection::BadFormat(Field::Month), Seq::empty())
        } else if soft_pages_rejection(fields.pages, verdicts.pages) is Some {
            rejected(soft_pages_rejection(fields.pages, verdicts.pages)->0, no_pages)
        } else if parse_i32(fields.year) is None {
            rejected(Rejection::BadYear, no_pages)
        } else {
            Outcome {
                result: Ok(
                    ArticleView {
                        author: fields.author,
                        title: fields.title,
                        journal: fields.journal,
                        volume: number_or_sentinel(fields.volume),
                        number: number_or_sentinel(fields.number),
                        month: fields.month,
                        year: parse_i32(fields.year)->0,
                        pages: fields.pages,
                        doi: doi_or_empty(fields.doi, verdicts.doi),
                    },
                ),
                warnings: no_pages + warning_if(
                    parse_i32(fields.volume) is None,
                    Defect::BadVolume,
                    fields.title,
                ) + warning_if(parse_i32(fields.number) is None, Defect::BadNumber, fields.title)
                    + warning_if(!verdicts.doi, Defect::BadDoi, fields.title),
            }
        }
    }

    /// What validating the entry with the given field table comes to.
    pub open spec fn from_table(table: Map<Seq<char>, Seq<char>>) -> Outcome<ArticleView> {
        match Self::fields_of(table) {
            Err(reason) => rejected(reason, Seq::empty()),
            Ok(fields) => Self::outcome(fields, Self::verdicts_of(fields)),
        }
    }

    /// Every article that comes out of a field table is valid.
    pub proof fn lemma_accepted_is_valid(table: Map<Seq<char>, Seq<char>>)
        ensures
            Self::from_table(table).result matches Ok(article) ==> article.valid(),
    {
    }

    /// A DOI that its grammar refuses never rejects an article. Fields that are
    /// rejected with a well-formed DOI are rejected in the same way with a
    /// malformed one. Fields that pass with a well-formed DOI pass with a
    /// malformed one too: the record is the same but for its DOI, which is
    /// empty, and one warning about the DOI follows the warnings raised
    /// before, none of which is about the DOI.
    pub proof fn lemma_bad_doi_is_repaired(fields: ArticleFieldsView, verdicts: ArticleVerdicts)
        requires
            !verdicts.doi,
        ensures
            ({
                let good = Self::outcome(fields, ArticleVerdicts { doi: true, ..verdicts });
                let bad = Self::outcome(fields, verdicts);
                match good.result {
                    Err(_) => bad == good,
                    Ok(record) => {
                        &&& bad.result == Ok::<ArticleView, Rejection>(
                            ArticleView { doi: Seq::empty(), ..record },
                        )
                        &&& bad.warnings == good.warnings + seq![
                            WarningView { defect: Defect::BadDoi, title: fields.title },
                        ]
                        &&& forall|i: int|
                            0 <= i < good.warnings.len() ==> (#[trigger] good.warnings[i]).defect
                                != Defect::BadDoi
                    },
                }
            }),
    {
    }

    /// Reads the fields of an article from a table.
    pub fn read(table: &FieldTable) -> (r: Result<ArticleFields, Rejection>)
        ensures
            agrees(r, Self::fields_of(table@)),
    {
        let author = required(table, Field::Author)?;
        let title = required(table, Field::Title)?;
        let journal = required(table, Field::Journal)?;
        let month = required(table, Field::Month)?;
        let year = required(table, Field::Year)?;
        Ok(
            ArticleFields {
                author,
                title,
                journal,
                volume: optional(table, Field::Volume),
                number: optional(table, Field::Number),
                month: truncated(month.as_str(), 3),
                year,
                pages: optional(table, Field::Pages),
                doi: optional(table, Field::Doi),
            },
        )
    }

    /// Asks the grammars which of the fields they accept.
    pub fn check(fields: &ArticleFields) -> (verdicts: ArticleVerdicts)
        ensures
            verdicts == Self::verdicts_of(fields@),
    {
        ArticleVerdicts {
            author: conforms(AUTHOR, fields.author.as_str()),
            title: conforms(TITLE, fields.title.as_str()),
            journal: conforms(TITLE, fields.journal.as_str()),
            month: conforms(MONTH, fields.month.as_str()),
            pages: conforms(PAGES, fields.pages.as_str()),
            doi: conforms(DOI, fields.doi.as_str()),
        }
    }

    /// Validates the fields of an article, given the verdicts of the
    /// grammars, and appends the warnings that this raises to `log`.
    pub fn validate(fields: ArticleFields, verdicts: ArticleVerdicts, log: &mut Vec<Warning>) -> (r:
        Result<Article, Rejection>)
        ensures
            views(final(log)@) == views(old(log)@) + Self::outcome(fields@, verdicts).warnings,
            agrees(r, Self::outcome(fields@, verdicts).result),
    {
        let ghost start = views(log@);
        assert(start == start + Seq::<WarningView>::empty());
        if !verdicts.author {
            return Err(Rejection::BadFormat(Field::Author));
        }
        if !verdicts.title {
            return Err(Rejection::BadFormat(Field::Title));
        }
        if !verdicts.journal {
            return Err(Rejection::BadFormat(Field::Journal));
        }
        if !verdicts.month {
            return Err(Rejection::BadFormat(Field::Month));
        }
        let title = fields.title.as_str();
        match check_soft_pages(fields.pages.as_str(), verdicts.pages, title, log) {
            Some(reason) => {
                return Err(reason);
            },
            None => {},
        }
        let year = match parse_int(fields.year.as_str()) {
            Some(year) => year,
            None => {
                return Err(Rejection::BadYear);
            },
        };
        let volume = read_number(fields.volume.as_str(), Defect::BadVolume, title, log);
        let number = read_number(fields.number.as_str(), Defect::BadNumber, title, log);
        let doi = read_doi(fields.doi.clone(), verdicts.doi, title, log);
        assert(views(log@) == start + Self::outcome(fields@, verdicts).warnings);
        Ok(
            Article {
                author: fields.author,
                title: fields.title,
                journal: fields.journal,
                volume,
                number,
                month: fields.month,
                year,
                pages: fields.pages,
                doi,
            },
        )
    }

    /// Validates the entry with the given field table, and appends the
    /// warnings that this raises to `log`.
    pub fn from_fields(table: &FieldTable, log: &mut Vec<Warning>) -> (r: Result<
        Article,
        Rejection,
    >)
        ensures
            views(final(log)@) == views(old(log)@) + Self::from_table(table@).warnings,
            agrees(r, Self::from_table(table@).result),
    {
        match Self::read(table) {
            Err(reason) => {
                assert(views(log@) == views(log@) + Seq::<WarningView>::empty());
                Err(reason)
            },
            Ok(fields) => {
                let verdicts = Self::check(&fields);
                Self::validate(fields, verdicts, log)
            },
        }
    }

    /// Validates the article that the body of an entry describes, and appends
    /// the warnings that this raises to `log`.
    pub fn new(input: &str, log: &mut Vec<Warning>) -> (r: Result<Article, Rejection>)
        ensures
            views(final(log)@) == views(old(log)@) + Self::from_table(
                field_table(input@),
            ).warnings,
            agrees(r, Self::from_table(field_table(input@)).result),
    {
        let table = FieldTable::parse(input);
        Self::from_fields(&table, log)
    }

    /// The authors.
    pub fn author(&self) -> (r: &str)
        ensures
            r@ == self@.author,
    {
        self.author.as_str()
    }

    /// The title.
    pub fn title(&self) -> (r: &str)
        ensures
            r@ == self@.title,
    {
        self.title.as_str()
    }

    /// The journal.
    pub fn journal(&self) -> (r: &str)
        ensures
            r@ == self@.journal,
    {
        self.journal.as_str()
    }

    /// The volume, or -1 if the entry gave none.
    pub fn volume(&self) -> (r: i32)
        ensures
            r == self@.volume,
    {
        self.volume
    }

    /// The number, or -1 if the entry gave none.
    pub fn number(&self) -> (r: i32)
        ensures
            r == self@.number,
    {
        self.number
    }

    /// The month.
    pub fn month(&self) -> (r: &str)
        ensures
            r@ == self@.month,
    {
        self.month.as_str()
    }

    /// The year.
    pub fn year(&self) -> (r: i32)
        ensures
            r == self@.year,
    {
        self.year
    }

    /// The pages, empty if the entry gave none.
    pub fn pages(&self) -> (r: &str)
        ensures
            r@ == self@.pages,
    {
        self.pages.as_str()
    }

    /// The DOI, empty if the entry gave none that is well formed.
    pub fn doi(&self) -> (r: &str)
        ensures
            r@ == self@.doi,
    {
        self.doi.as_str()
    }

    /// The citation key of the article.
    pub fn generate_key(&self) -> (key: String)
        ensures
            key@ == self@.key(),
    {
        generate(self.author.as_str(), self.year)
    }

    /// Appends the rendered article, under the given key, to `writer`.
    pub fn render(&self, key: &str, writer: &mut String)
        ensures
            final(writer)@ == old(writer)@ + self@.text_with_key(key@),
    {
        let mut text = String::new();
        push_line(&mut text, "@article{", key, ",\n");
        push_line(&mut text, "    author         = {", self.author.as_str(), "},\n");
        push_line(&mut text, "    title          = {{", self.title.as_str(), "}},\n");
        push_line(&mut text, "    journal        = {{", self.journal.as_str(), "}},\n");
        push_number_line(
            &mut text,
            "    volume         = {",
            self.volume,
            "},\n",
            "    volume         = {}\n",
        );
        push_number_line(
            &mut text,
            "    number         = {",
            self.number,
            "},\n",
            "    number         = {}\n",
        );
        push_line(&mut text, "    month          = {", self.month.as_str(), "},\n");
        let year = decimal_string(self.year);
        push_line(&mut text, "    year           = {", year.as_str(), "},\n");
        push_line(&mut text, "    pages          = {", self.pages.as_str(), "}\n");
        push_line(&mut text, "    doi            = {", self.doi.as_str(), "}\n");
        text.append("}\n");
        assert(text@ == self@.text_with_key(key@));
        writer.append(text.as_str());
    }

    /// Appends the rendered article to `writer`.
    pub fn print(&self, writer: &mut String)
        ensures
            final(writer)@ == old(writer)@ + self@.text(),
    {
        let key = self.generate_key();
        self.render(key.as_str(), writer);
    }
}

} // verus!
