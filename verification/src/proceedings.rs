//! Contributions to proceedings: their fields, the checks on them, and their
//! rendering.

use crate::checks::{
    agrees, check_soft_pages, doi_or_empty, has_value, in_order, optional, optional_value,
    present, read_doi, rejected, required, soft_pages_rejection, warning_if, Outcome,
};
use crate::diagnostic::{Defect, Field, Rejection, Warning, WarningView};
use crate::fields::{field_table, FieldTable};
use crate::key::{citation_key, generate};
use crate::layout::{line, push_line};
use crate::model::views;
use crate::number::{decimal, decimal_string, parse_i32, parse_int};
use crate::pattern::{accepts, conforms, ADDRESS, AUTHOR, DOI, MONTH, PAGES, TITLE};
use crate::text::{first_chars, truncated};
use vstd::prelude::*;
use vstd::string::StringExecFns;

verus! {

/// The fields of a contribution to proceedings as its entry gives them, the
/// month cut to three characters.
#[derive(Clone, Debug, PartialEq, Eq)]
pub struct ProceedingsFields {
    pub author: String,
    pub title: String,
    pub booktitle: String,
    pub address: String,
    pub year: String,
    pub month: String,
    pub pages: String,
    pub doi: String,
}

/// The fields of a contribution to proceedings, as sequences of characters.
pub struct ProceedingsFieldsView {
    pub author: Seq<char>,
    pub title: Seq<char>,
    pub booktitle: Seq<char>,
    pub address: Seq<char>,
    pub year: Seq<char>,
    pub month: Seq<char>,
    pub pages: Seq<char>,
    pub doi: Seq<char>,
}

impl View for ProceedingsFields {
    type V = ProceedingsFieldsView;

    open spec fn view(&self) -> ProceedingsFieldsView {
        ProceedingsFieldsView {
            author: self.author@,
            title: self.title@,
            booktitle: self.booktitle@,
            address: self.address@,
            year: self.year@,
            month: self.month@,
            pages: self.pages@,
            doi: self.doi@,
        }
    }
}

/// Which fields of a contribution to proceedings their grammars accept.
#[derive(Clone, Copy, Debug, PartialEq, Eq, Structural)]
pub struct ProceedingsVerdicts {
    pub author: bool,
    pub title: bool,
    pub booktitle: bool,
    pub address: bool,
    pub month: bool,
    pub pages: bool,
    pub doi: bool,
}

/// A validated contribution to proceedings.
#[derive(Clone, Debug, PartialEq, Eq)]
pub struct Proceedings {
    author: String,
    title: String,
    booktitle: String,
    address: String,
    year: i32,
    month: String,
    pages: String,
    doi: String,
}

/// A contribution to proceedings, with its texts as sequences of characters.
pub struct ProceedingsView {
    pub author: Seq<char>,
    pub title: Seq<char>,
    pub booktitle: Seq<char>,
    pub address: Seq<char>,
    pub year: i32,
    pub month: Seq<char>,
    pub pages: Seq<char>,
    pub doi: Seq<char>,
}

impl View for Proceedings {
    type V = ProceedingsView;

    closed spec fn view(&self) -> ProceedingsView {
        ProceedingsView {
            author: self.author@,
            title: self.title@,
            booktitle: self.booktitle@,
            address: self.address@,
            year: self.year,
            month: self.month@,
            pages: self.pages@,
            doi: self.doi@,
        }
    }
}

impl ProceedingsView {
    /// What every contribution that comes out of a field table satisfies:
    /// the required fields are there, each field follows its grammar, the
    /// pages are empty or a range in order, and the DOI is empty or well
    /// formed.
    pub open spec fn valid(self) -> bool {
        &&& self.author.len() > 0 && accepts(AUTHOR@, self.author)
        &&& self.title.len() > 0 && accepts(TITLE@, self.title)
        &&& self.booktitle.len() > 0 && accepts(TITLE@, self.booktitle)
        &&& self.address.len() > 0 && accepts(ADDRESS@, self.address)
        &&& 0 < self.month.len() <= 3 && accepts(MONTH@, self.month)
        &&& self.pages.len() == 0 || (accepts(PAGES@, self.pages) && in_order(self.pages))
        &&& self.doi.len() == 0 || accepts(DOI@, self.doi)
    }

    /// The rendered contribution, under the given key.
    pub open spec fn text_with_key(self, key: Seq<char>) -> Seq<char> {
        line("@inproceedings{"@, key, ",\n"@)
            + line("    author         = {"@, self.author, "},\n"@)
            + line("    title          = {{"@, self.title, "}},\n"@)
            + line("    booktitle      = {{"@, self.booktitle, "}},\n"@)
            + line("    address        = {"@, self.address, "},\n"@)
            + line("    year           = {"@, decimal(self.year as int), "},\n"@)
            + line("    month          = {"@, self.month, "},\n"@)
            + line("    pages          = {"@, self.pages, "},\n"@)
            + line("    doi            = {"@, self.doi, "},\n"@)
            + "}\n"@
    }

    /// The citation key of the contribution.
    pub open spec fn key(self) -> Seq<char> {
        citation_key(self.author, self.year as int)
    }

    /// The rendered contribution.
    pub open spec fn text(self) -> Seq<char> {
        self.text_with_key(self.key())
    }
}

impl Proceedings {
    /// The fields of the contribution that a table describes. The required
    /// fields are looked for in the order author, title, booktitle, address,
    /// year, month; the first that is absent or empty rejects the entry. After
    /// them the DOI must be written, if only with an empty value.
    pub open spec fn fields_of(table: Map<Seq<char>, Seq<char>>) -> Result<
        ProceedingsFieldsView,
        Rejection,
    > {
        if !has_value(table, Field::Author) {
            Err(Rejection::Missing(Field::Author))
        } else if !has_value(table, Field::Title) {
            Err(Rejection::Missing(Field::Title))
        } else if !has_value(table, Field::Booktitle) {
            Err(Rejection::Missing(Field::Booktitle))
        } else if !has_value(table, Field::Address) {
            Err(Rejection::Missing(Field::Address))
        } else if !has_value(table, Field::Year) {
            Err(Rejection::Missing(Field::Year))
        } else if !has_value(table, Field::Month) {
            Err(Rejection::Missing(Field::Month))
        } else if !table.contains_key(Field::Doi.label()) {
            Err(Rejection::Absent(Field::Doi))
        } else {
            Ok(
                ProceedingsFieldsView {
                    author: optional_value(table, Field::Author),
                    title: optional_value(table, Field::Title),
                    booktitle: optional_value(table, Field::Booktitle),
                    address: optional_value(table, Field::Address),
                    year: optional_value(table, Field::Year),
                    month: first_chars(optional_value(table, Field::Month), 3),
                    pages: optional_value(table, Field::Pages),
                    doi: optional_value(table, Field::Doi),
                },
            )
        }
    }

    /// Which of the fields their grammars accept.
    pub open spec fn verdicts_of(fields: ProceedingsFieldsView) -> ProceedingsVerdicts {
        ProceedingsVerdicts {
            author: accepts(AUTHOR@, fields.author),
            title: accepts(TITLE@, fields.title),
            booktitle: accepts(TITLE@, fields.booktitle),
            address: accepts(ADDRESS@, fields.address),
            month: accepts(MONTH@, fields.month),
            pages: accepts(PAGES@, fields.pages),
            doi: accepts(DOI@, fields.doi),
        }
    }

    /// What validating the fields comes to, given the verdicts of the
    /// grammars. The checks run in this order, and the first that fails
    /// rejects the entry: the formats of author, title, booktitle, address and
    /// month; the pages, which may be left out at the price of a warning; the
    /// year. After that nothing rejects: a DOI that its grammar refuses is
    /// cleared, with a warning.
    pub open spec fn outcome(
        fields: ProceedingsFieldsView,
        verdicts: ProceedingsVerdicts,
    ) -> Outcome<ProceedingsView> {
        let no_pages = warning_if(fields.pages.len() == 0, Defect::NoPages, fields.title);
        if !verdicts.author {
            rejected(Rejection::BadFormat(Field::Author), Seq::empty())
        } else if !verdicts.title {
            rejected(Rejection::BadFormat(Field::Title), Seq::empty())
        } else if !verdicts.booktitle {
            rejected(Rejection::BadFormat(Field::Booktitle), Seq::empty())
        } else if !verdicts.address {
            rejected(Rejection::BadFormat(Field::Address), Seq::empty())
        } else if !verdicts.month {
            rejected(Rejection::BadFormat(Field::Month), Seq::empty())
        } else if soft_pages_rejection(fields.pages, verdicts.pages) is Some {
            rejected(soft_pages_rejection(fields.pages, verdicts.pages)->0, no_pages)
        } else if parse_i32(fields.year) is None {
            rejected(Rejection::BadYear, no_pages)
        } else {
            Outcome {
                result: Ok(
                    ProceedingsView {
                        author: fields.author,
                        title: fields.title,
                        booktitle: fields.booktitle,
                        address: fields.address,
                        year: parse_i32(fields.year)->0,
                        month: fields.month,
                        pages: fields.pages,
                        doi: doi_or_empty(fields.doi, verdicts.doi),
                    },
                ),
                warnings: no_pages + warning_if(!verdicts.doi, Defect::BadDoi, fields.title),
            }
        }
    }

    /// What validating the entry with the given field table comes to.
    pub open spec fn from_table(table: Map<Seq<char>, Seq<char>>) -> Outcome<ProceedingsView> {
        match Self::fields_of(table) {
            Err(reason) => rejected(reason, Seq::empty()),
            Ok(fields) => Self::outcome(fields, Self::verdicts_of(fields)),
        }
    }

    /// Every contribution that comes out of a field table is valid.
    pub proof fn lemma_accepted_is_valid(table: Map<Seq<char>, Seq<char>>)
        ensures
            Self::from_table(table).result matches Ok(record) ==> record.valid(),
    {
    }

    /// A DOI that its grammar refuses never rejects a contribution. Fields that are
    /// rejected with a well-formed DOI are rejected in the same way with a
    /// malformed one. Fields that pass with a well-formed DOI pass with a
    /// malformed one too: the record is the same but for its DOI, which is
    /// empty, and one warning about the DOI follows the warnings raised
    /// before, none of which is about the DOI.
    pub proof fn lemma_bad_doi_is_repaired(
        fields: ProceedingsFieldsView,
        verdicts: ProceedingsVerdicts,
    )
        requires
            !verdicts.doi,
        ensures
            ({
                let good = Self::outcome(fields, ProceedingsVerdicts { doi: true, ..verdicts });
                let bad = Self::outcome(fields, verdicts);
                match good.result {
                    Err(_) => bad == good,
                    Ok(record) => {
                        &&& bad.result == Ok::<ProceedingsView, Rejection>(
                            ProceedingsView { doi: Seq::empty(), ..record },
                        )
                        &&& bad.warnings == good.warnings + seq![
                            WarningView { defect: Defect::BadDoi, title: fields.title },
                        ]
                        &&& forall|i: int|
                            0 <= i < good.warnings.len() ==> (#[trigger] good.warnings[i]).defect
                                != Defect::BadDoi
                    },
                }
            }),
    {
    }

    /// Reads the fields of a contribution to proceedings from a table.
    pub fn read(table: &FieldTable) -> (r: Result<ProceedingsFields, Rejection>)
        ensures
            agrees(r, Self::fields_of(table@)),
    {
        let author = required(table, Field::Author)?;
        let title = required(table, Field::Title)?;
        let booktitle = required(table, Field::Booktitle)?;
        let address = required(table, Field::Address)?;
        let year = required(table, Field::Year)?;
        let month = required(table, Field::Month)?;
        let pages = optional(table, Field::Pages);
        let doi = present(table, Field::Doi)?;
        Ok(
            ProceedingsFields {
                author,
                title,
                booktitle,
                address,
                year,
                month: truncated(month.as_str(), 3),
                pages,
                doi,
            },
        )
    }

    /// Asks the grammars which of the fields they accept.
    pub fn check(fields: &ProceedingsFields) -> (verdicts: ProceedingsVerdicts)
        ensures
            verdicts == Self::verdicts_of(fields@),
    {
        ProceedingsVerdicts {
            author: conforms(AUTHOR, fields.author.as_str()),
            title: conforms(TITLE, fields.title.as_str()),
            booktitle: conforms(TITLE, fields.booktitle.as_str()),
            address: conforms(ADDRESS, fields.address.as_str()),
            month: conforms(MONTH, fields.month.as_str()),
            pages: conforms(PAGES, fields.pages.as_str()),
            doi: conforms(DOI, fields.doi.as_str()),
        }
    }

    /// Validates the fields of a contribution to proceedings, given the
    /// verdicts of the grammars, and appends the warnings that this raises to
    /// `log`.
    pub fn validate(
        fields: ProceedingsFields,
        verdicts: ProceedingsVerdicts,
        log: &mut Vec<Warning>,
    ) -> (r: Result<Proceedings, Rejection>)
        ensures
            views(final(log)@) == views(old(log)@) + Self::outcome(fields@, verdicts).warnings,
            agrees(r, Self::outcome(fields@, verdicts).result),
    {
        let ghost start = views(log@);
        assert(start == start + Seq::<WarningView>::empty());
        if !verdicts.author {
            return Err(Rejection::BadFormat(Field::Author));
        }
        if !verdicts.title {
            return Err(Rejection::BadFormat(Field::Title));
        }
        if !verdicts.booktitle {
            return Err(Rejection::BadFormat(Field::Booktitle));
        }
        if !verdicts.address {
            return Err(Rejection::BadFormat(Field::Address));
        }
        if !verdicts.month {
            return Err(Rejection::BadFormat(Field::Month));
        }
        let title = fields.title.as_str();
        match check_soft_pages(fields.pages.as_str(), verdicts.pages, title, log) {
            Some(reason) => {
                return Err(reason);
            },
            None => {},
        }
        let year = match parse_int(fields.year.as_str()) {
            Some(year) => year,
            None => {
                return Err(Rejection::BadYear);
            },
        };
        let doi = read_doi(fields.doi.clone(), verdicts.doi, title, log);
        assert(views(log@) == start + Self::outcome(fields@, verdicts).warnings);
        Ok(
            Proceedings {
                author: fields.author,
                title: fields.title,
                booktitle: fields.booktitle,
                address: fields.address,
                year,
                month: fields.month,
                pages: fields.pages,
                doi,
            },
        )
    }

    /// Validates the entry with the given field table, and appends the
    /// warnings that this raises to `log`.
    pub fn from_fields(table: &FieldTable, log: &mut Vec<Warning>) -> (r: Result<
        Proceedings,
        Rejection,
    >)
        ensures
            views(final(log)@) == views(old(log)@) + Self::from_table(table@).warnings,
            agrees(r, Self::from_table(table@).result),
    {
        match Self::read(table) {
            Err(reason) => {
                assert(views(log@) == views(log@) + Seq::<WarningView>::empty());
                Err(reason)
            },
            Ok(fields) => {
                let verdicts = Self::check(&fields);
                Self::validate(fields, verdicts, log)
            },
        }
    }

    /// Validates the contribution that the body of an entry describes, and
    /// appends the warnings that this raises to `log`.
    pub fn new(input: &str, log: &mut Vec<Warning>) -> (r: Result<Proceedings, Rejection>)
        ensures
            views(final(log)@) == views(old(log)@) + Self::from_table(
                field_table(input@),
            ).warnings,
            agrees(r, Self::from_table(field_table(input@)).result),
    {
        let table = FieldTable::parse(input);
        Self::from_fields(&table, log)
    }

    /// The authors.
    pub fn author(&self) -> (r: &str)
        ensures
            r@ == self@.author,
    {
        self.author.as_str()
    }

    /// The title.
    pub fn title(&self) -> (r: &str)
        ensures
            r@ == self@.title,
    {
        self.title.as_str()
    }

    /// The title of the book.
    pub fn booktitle(&self) -> (r: &str)
        ensures
            r@ == self@.booktitle,
    {
        self.booktitle.as_str()
    }

    /// The place.
    pub fn address(&self) -> (r: &str)
        ensures
            r@ == self@.address,
    {
        self.address.as_str()
    }

    /// The year.
    pub fn year(&self) -> (r: i32)
        ensures
            r == self@.year,
    {
        self.year
    }

    /// The month.
    pub fn month(&self) -> (r: &str)
        ensures
            r@ == self@.month,
    {
        self.month.as_str()
    }

    /// The pages, empty if the entry gave none.
    pub fn pages(&self) -> (r: &str)
        ensures
            r@ == self@.pages,
    {
        self.pages.as_str()
    }

    /// The DOI, empty if the entry gave none that is well formed.
    pub fn doi(&self) -> (r: &str)
        ensures
            r@ == self@.doi,
    {
        self.doi.as_str()
    }

    /// The citation key of the contribution.
    pub fn generate_key(&self) -> (key: String)
        ensures
            key@ == self@.key(),
    {
        generate(self.author.as_str(), self.year)
    }

    /// Appends the rendered contribution, under the given key, to `writer`.
    pub fn render(&self, key: &str, writer: &mut String)
        ensures
            final(writer)@ == old(writer)@ + self@.text_with_key(key@),
    {
        let mut text = String::new();
        push_line(&mut text, "@inproceedings{", key, ",\n");
        push_line(&mut text, "    author         = {", self.author.as_str(), "},\n");
        push_line(&mut text, "    title          = {{", self.title.as_str(), "}},\n");
        push_line(&mut text, "    booktitle      = {{", self.booktitle.as_str(), "}},\n");
        push_line(&mut text, "    address        = {", self.address.as_str(), "},\n");
        let year = decimal_string(self.year);
        push_line(&mut text, "    year           = {", year.as_str(), "},\n");
        push_line(&mut text, "    month          = {", self.month.as_str(), "},\n");
        push_line(&mut text, "    pages          = {", self.pages.as_str(), "},\n");
        push_line(&mut text, "    doi            = {", self.doi.as_str(), "},\n");
        text.append("}\n");
        assert(text@ == self@.text_with_key(key@));
        writer.append(text.as_str());
    }

    /// Appends the rendered contribution to `writer`.
    pub fn print(&self, writer: &mut String)
        ensures
            final(writer)@ == old(writer)@ + self@.text(),
    {
        let key = self.generate_key();
        self.render(key.as_str(), writer);
    }
}

} // verus!
