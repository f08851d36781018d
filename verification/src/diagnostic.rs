//! What the library reports about an entry: why it was rejected, which of its
//! defects were repaired, and the lines that say so.

use vstd::prelude::*;
use vstd::string::StringExecFns;

verus! {

/// The fields that an entry can hold.
#[derive(Clone, Copy, Debug, PartialEq, Eq, Structural)]
pub enum Field {
    Author,
    Title,
    Journal,
    Booktitle,
    Editor,
    Publisher,
    Address,
    Month,
    Year,
    Volume,
    Number,
    Pages,
    Isbn,
    Doi,
}

impl Field {
    /// The name of the field, as it is written in an entry.
    pub open spec fn label(self) -> Seq<char> {
        match self {
            Field::Author => "author"@,
            Field::Title => "title"@,
            Field::Journal => "journal"@,
            Field::Booktitle => "booktitle"@,
            Field::Editor => "editor"@,
            Field::Publisher => "publisher"@,
            Field::Address => "address"@,
            Field::Month => "month"@,
            Field::Year => "year"@,
            Field::Volume => "volume"@,
            Field::Number => "number"@,
            Field::Pages => "pages"@,
            Field::Isbn => "isbn"@,
            Field::Doi => "doi"@,
        }
    }

    /// The name of the field, as it is written in an entry.
    pub fn name(&self) -> (s: &'static str)
        ensures
            s@ == self.label(),
    {
        match self {
            Field::Author => "author",
            Field::Title => "title",
            Field::Journal => "journal",
            Field::Booktitle => "booktitle",
            Field::Editor => "editor",
            Field::Publisher => "publisher",
            Field::Address => "address",
            Field::Month => "month",
            Field::Year => "year",
            Field::Volume => "volume",
            Field::Number => "number",
            Field::Pages => "pages",
            Field::Isbn => "isbn",
            Field::Doi => "doi",
        }
    }

    /// How a message about the format of the field calls it.
    pub open spec fn format_label(self) -> Seq<char> {
        match self {
            Field::Author => "authors"@,
            Field::Isbn => "ISBN"@,
            Field::Doi => "DOI"@,
            _ => self.label(),
        }
    }

    /// How a message about the format of the field calls it.
    pub fn format_name(&self) -> (s: &'static str)
        ensures
            s@ == self.format_label(),
    {
        match self {
            Field::Author => "authors",
            Field::Isbn => "ISBN",
            Field::Doi => "DOI",
            _ => self.name(),
        }
    }
}

/// Why an entry was rejected.
#[derive(Clone, Copy, Debug, PartialEq, Eq, Structural)]
pub enum Rejection {
    /// A required field is absent or empty.
    Missing(Field),
    /// A field that must be written, if only with an empty value, is absent.
    Absent(Field),
    /// A field does not follow its grammar.
    BadFormat(Field),
    /// The first page of a range lies after the last.
    BadPagesRange,
    /// The year is not an integer.
    BadYear,
}

impl Rejection {
    /// The reason in words.
    pub open spec fn text(self) -> Seq<char> {
        match self {
            Rejection::Missing(field) => "Missing or empty "@ + field.label() + " field"@,
            Rejection::Absent(field) => "Missing "@ + field.label() + " field"@,
            Rejection::BadFormat(field) => "Invalid "@ + field.format_label() + " format"@,
            Rejection::BadPagesRange => "Invalid pages second page is lower than first"@,
            Rejection::BadYear => "Invalid year format"@,
        }
    }

    /// The reason in words.
    pub fn message(&self) -> (s: String)
        ensures
            s@ == self.text(),
    {
        match self {
            Rejection::Missing(field) => {
                let mut s = String::from_str("Missing or empty ");
                s.append(field.name());
                s.append(" field");
                s
            },
            Rejection::Absent(field) => {
                let mut s = String::from_str("Missing ");
                s.append(field.name());
                s.append(" field");
                s
            },
            Rejection::BadFormat(field) => {
                let mut s = String::from_str("Invalid ");
                s.append(field.format_name());
                s.append(" format");
                s
            },
            Rejection::BadPagesRange => String::from_str(
                "Invalid pages second page is lower than first",
            ),
            Rejection::BadYear => String::from_str("Invalid year format"),
        }
    }
}

/// A defect that is repaired instead of rejecting the entry.
#[derive(Clone, Copy, Debug, PartialEq, Eq, Structural)]
pub enum Defect {
    /// The entry gives no pages.
    NoPages,
    /// The volume is not an integer.
    BadVolume,
    /// The number is not an integer.
    BadNumber,
    /// The DOI does not follow its grammar.
    BadDoi,
}

impl Defect {
    /// The defect in words, up to the title of the entry.
    pub open spec fn text(self) -> Seq<char> {
        match self {
            Defect::NoPages => "Non present page number in entry with title: "@,
            Defect::BadVolume => "Invalid volume format in entry with title: "@,
            Defect::BadNumber => "Invalid number format in entry with title: "@,
            Defect::BadDoi => "Invalid DOI format in entry with title: "@,
        }
    }

    /// The defect in words, up to the title of the entry.
    pub fn phrase(&self) -> (s: &'static str)
        ensures
            s@ == self.text(),
    {
        match self {
            Defect::NoPages => "Non present page number in entry with title: ",
            Defect::BadVolume => "Invalid volume format in entry with title: ",
            Defect::BadNumber => "Invalid number format in entry with title: ",
            Defect::BadDoi => "Invalid DOI format in entry with title: ",
        }
    }
}

/// A repaired defect of the entry with the given title.
#[derive(Clone, Debug, PartialEq, Eq)]
pub struct Warning {
    pub defect: Defect,
    pub title: String,
}

/// A warning, with its title as a sequence of characters.
pub struct WarningView {
    pub defect: Defect,
    pub title: Seq<char>,
}

impl View for Warning {
    type V = WarningView;

    open spec fn view(&self) -> WarningView {
        WarningView { defect: self.defect, title: self.title@ }
    }
}

impl WarningView {
    /// The warning in words.
    pub open spec fn text(self) -> Seq<char> {
        self.defect.text() + self.title
    }
}

impl Warning {
    /// A warning about the entry with the given title.
    pub fn new(defect: Defect, title: &str) -> (w: Warning)
        ensures
            w@ == (WarningView { defect, title: title@ }),
    {
        Warning { defect, title: String::from_str(title) }
    }

    /// The warning in words.
    pub fn message(&self) -> (s: String)
        ensures
            s@ == self@.text(),
    {
        let mut s = String::from_str(self.defect.phrase());
        s.append(self.title.as_str());
        s
    }
}

/// How grave a diagnostic is.
#[derive(Clone, Copy, Debug, PartialEq, Eq, Structural)]
pub enum Severity {
    /// The entry was rejected.
    Error,
    /// The entry was accepted after a repair.
    Warn,
    /// The entry was passed over.
    Info,
}

impl Severity {
    /// The marker that starts a line of this severity.
    pub open spec fn marker(self) -> Seq<char> {
        match self {
            Severity::Error => "[ERR]"@,
            Severity::Warn => "[WARN]"@,
            Severity::Info => "[INFO]"@,
        }
    }

    /// The marker that starts a line of this severity.
    pub fn tag(&self) -> (s: &'static str)
        ensures
            s@ == self.marker(),
    {
        match self {
            Severity::Error => "[ERR]",
            Severity::Warn => "[WARN]",
            Severity::Info => "[INFO]",
        }
    }
}

/// One line for the diagnostic channel.
#[derive(Clone, Debug, PartialEq, Eq)]
pub struct Diagnostic {
    pub severity: Severity,
    pub message: String,
}

/// A diagnostic, with its message as a sequence of characters.
pub struct DiagnosticView {
    pub severity: Severity,
    pub message: Seq<char>,
}

impl View for Diagnostic {
    type V = DiagnosticView;

    open spec fn view(&self) -> DiagnosticView {
        DiagnosticView { severity: self.severity, message: self.message@ }
    }
}

impl DiagnosticView {
    /// The line: the marker, a space and the message.
    pub open spec fn line(self) -> Seq<char> {
        self.severity.marker() + " "@ + self.message
    }
}

impl Diagnostic {
    /// The line: the marker, a space and the message.
    pub fn line(&self) -> (s: String)
        ensures
            s@ == self@.line(),
    {
        let mut s = String::from_str(self.severity.tag());
        s.append(" ");
        s.append(self.message.as_str());
        s
    }
}

} // verus!
