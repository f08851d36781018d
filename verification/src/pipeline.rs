//! The whole run: every entry of a text is scanned, validated by the rules of
//! its type and, if accepted, rendered; what is wrong with an entry becomes a
//! diagnostic, and the run goes on with the next entry.

use crate::checks::Outcome;
use crate::diagnostic::{Diagnostic, DiagnosticView, Rejection, Severity, Warning, WarningView};
use crate::model::{lemma_views_push, views};
use crate::record::{Record, RecordKind, RecordView};
use crate::scanner::{
    balanced, entry_id, id_of, lemma_scan_balanced_entry, scan, scan_entries, RawEntry,
    RawEntryView,
};
use crate::text::{trim, trimmed};
use vstd::prelude::*;
use vstd::string::StringExecFns;

verus! {

/// What the type tag of an entry says the entry is.
#[derive(Clone, Copy, Debug, PartialEq, Eq, Structural)]
pub enum EntryKind {
    /// An entry to validate and render: `article`, `book`, `incollection`
    /// or `inproceedings`.
    Record(RecordKind),
    /// An entry tagged `misc`, which is passed over in silence.
    Misc,
    /// Any other tag.
    Unknown,
}

/// The kind that a type tag stands for, white space around the tag aside.
pub open spec fn kind_of(type_tag: Seq<char>) -> EntryKind {
    let name = trim(type_tag);
    if name == "inproceedings"@ {
        EntryKind::Record(RecordKind::Proceedings)
    } else if name == "article"@ {
        EntryKind::Record(RecordKind::Article)
    } else if name == "book"@ {
        EntryKind::Record(RecordKind::Book)
    } else if name == "incollection"@ {
        EntryKind::Record(RecordKind::Collection)
    } else if name == "misc"@ {
        EntryKind::Misc
    } else {
        EntryKind::Unknown
    }
}

impl EntryKind {
    /// The kind that a type tag stands for.
    pub fn of(type_tag: &str) -> (kind: EntryKind)
        ensures
            kind == kind_of(type_tag@),
    {
        let name = trimmed(type_tag);
        if name == String::from_str("inproceedings") {
            EntryKind::Record(RecordKind::Proceedings)
        } else if name == String::from_str("article") {
            EntryKind::Record(RecordKind::Article)
        } else if name == String::from_str("book") {
            EntryKind::Record(RecordKind::Book)
        } else if name == String::from_str("incollection") {
            EntryKind::Record(RecordKind::Collection)
        } else if name == String::from_str("misc") {
            EntryKind::Misc
        } else {
            EntryKind::Unknown
        }
    }
}

/// The diagnostic for a repaired defect.
pub open spec fn warning_line(warning: WarningView) -> DiagnosticView {
    DiagnosticView { severity: Severity::Warn, message: warning.text() }
}

/// The diagnostics for a run of repaired defects.
pub open spec fn warning_lines(warnings: Seq<WarningView>) -> Seq<DiagnosticView> {
    Seq::new(warnings.len(), |i: int| warning_line(warnings[i]))
}

/// The diagnostic for a rejected entry.
pub open spec fn rejection_line(
    kind: RecordKind,
    id: Seq<char>,
    reason: Rejection,
) -> DiagnosticView {
    DiagnosticView {
        severity: Severity::Error,
        message: "Error processing "@ + kind.noun() + " entry "@ + id + ": "@ + reason.text(),
    }
}

/// The diagnostic for an entry of unknown type.
pub open spec fn unknown_line(type_tag: Seq<char>) -> DiagnosticView {
    DiagnosticView { severity: Severity::Info, message: "Unknown entry type: "@ + type_tag }
}

/// The diagnostic for an entry that the end of the text cuts short.
pub open spec fn unclosed_line(id: Seq<char>) -> DiagnosticView {
    DiagnosticView {
        severity: Severity::Warn,
        message: "Unterminated entry, taken to run to the end of the input: "@ + id,
    }
}

/// What a run has produced: the rendered records, one after the other, and
/// the diagnostics, in the order in which they arose.
#[derive(Clone, Debug, PartialEq, Eq)]
pub struct Report {
    pub output: String,
    pub diagnostics: Vec<Diagnostic>,
}

/// A report, with its texts as sequences of characters.
pub struct ReportView {
    pub output: Seq<char>,
    pub diagnostics: Seq<DiagnosticView>,
}

impl View for Report {
    type V = ReportView;

    open spec fn view(&self) -> ReportView {
        ReportView { output: self.output@, diagnostics: views(self.diagnostics@) }
    }
}

impl ReportView {
    /// The report of a run that has seen nothing yet.
    pub open spec fn empty() -> ReportView {
        ReportView { output: Seq::empty(), diagnostics: Seq::empty() }
    }

    /// The report after one more diagnostic.
    pub open spec fn noting(self, line: DiagnosticView) -> ReportView {
        ReportView { output: self.output, diagnostics: self.diagnostics.push(line) }
    }

    /// The report after an entry has been validated: its warnings follow the
    /// diagnostics so far; then the rendered record follows the output, or
    /// the rejection follows the warnings.
    pub open spec fn recording(
        self,
        kind: RecordKind,
        id: Seq<char>,
        outcome: Outcome<Seq<char>>,
    ) -> ReportView {
        let warned = self.diagnostics + warning_lines(outcome.warnings);
        match outcome.result {
            Ok(text) => ReportView { output: self.output + text, diagnostics: warned },
            Err(reason) => ReportView {
                output: self.output,
                diagnostics: warned.push(rejection_line(kind, id, reason)),
            },
        }
    }

    /// The report after one entry. An entry that is not closed is noted as
    /// such, and handled like any other. An entry tagged `misc` adds nothing
    /// else, one of unknown type a diagnostic that says so, and every other
    /// entry what its validation comes to.
    pub open spec fn processing(self, entry: RawEntryView) -> ReportView {
        let kind = kind_of(entry.type_tag);
        let id = id_of(entry.body);
        let noted = if entry.closed {
            self
        } else {
            self.noting(unclosed_line(id))
        };
        match kind {
            EntryKind::Misc => noted,
            EntryKind::Unknown => noted.noting(unknown_line(entry.type_tag)),
            EntryKind::Record(kind) => noted.recording(kind, id, outcome_of(kind, entry.body)),
        }
    }

    /// The report after a run of entries.
    pub open spec fn processing_all(self, entries: Seq<RawEntryView>) -> ReportView
        decreases entries.len(),
    {
        if entries.len() == 0 {
            self
        } else {
            self.processing_all(entries.drop_last()).processing(entries.last())
        }
    }
}

/// What validating and rendering the body of an entry of the given kind comes
/// to: the rendered record or the rejection, and the warnings.
pub open spec fn outcome_of(kind: RecordKind, body: Seq<char>) -> Outcome<Seq<char>> {
    Record::from_body(kind, body).map(|record: RecordView| record.text())
}

/// The report of a whole text: what its entries, in order, add to an empty
/// report.
pub open spec fn report_of(input: Seq<char>) -> ReportView {
    ReportView::empty().processing_all(scan(input))
}

/// What an entry adds to a report does not depend on what the report holds
/// already: a rejected entry, or any other, changes nothing for those that
/// follow it.
pub proof fn lemma_entries_are_independent(report: ReportView, entry: RawEntryView)
    ensures
        report.processing(entry).output == report.output + ReportView::empty().processing(
            entry,
        ).output,
        report.processing(entry).diagnostics == report.diagnostics
            + ReportView::empty().processing(entry).diagnostics,
{
    let alone = ReportView::empty().processing(entry);
    let added = report.processing(entry);
    assert(added.output =~= report.output + alone.output);
    assert(added.diagnostics =~= report.diagnostics + alone.diagnostics);
}

/// Processing a run of entries and then another is processing the two runs
/// as one.
pub proof fn lemma_processing_in_parts(
    report: ReportView,
    first: Seq<RawEntryView>,
    second: Seq<RawEntryView>,
)
    ensures
        report.processing_all(first + second) == report.processing_all(first).processing_all(
            second,
        ),
    decreases second.len(),
{
    if second.len() == 0 {
        assert(first + second == first);
    } else {
        assert((first + second).drop_last() == first + second.drop_last());
        assert((first + second).last() == second.last());
        lemma_processing_in_parts(report, first, second.drop_last());
    }
}

/// The run goes on behind an entry, accepted or rejected: the report of a
/// text that starts with an entry whose braces match is what that entry adds
/// to an empty report, followed by what the entries of the rest of the text
/// add.
pub proof fn lemma_run_goes_on(
    before: Seq<char>,
    type_tag: Seq<char>,
    body: Seq<char>,
    rest: Seq<char>,
)
    requires
        !before.contains('@'),
        !type_tag.contains('{'),
        balanced(body),
    ensures
        report_of(before + seq!['@'] + type_tag + seq!['{'] + body + seq!['}'] + rest)
            == ReportView::empty().processing(
            RawEntryView { type_tag, body, closed: true },
        ).processing_all(scan(rest)),
{
    let entry = RawEntryView { type_tag, body, closed: true };
    lemma_scan_balanced_entry(before, type_tag, body, rest);
    lemma_processing_in_parts(ReportView::empty(), seq![entry], scan(rest));
    let one = seq![entry];
    assert(one.last() == entry);
    assert(ReportView::empty().processing_all(one.drop_last()) == ReportView::empty());
    assert(ReportView::empty().processing_all(one) == ReportView::empty().processing(entry));
}

/// The rendered records are never taken back: the output after an entry
/// starts with the output before it.
pub proof fn lemma_output_grows(report: ReportView, entry: RawEntryView)
    ensures
        report.output.is_prefix_of(report.processing(entry).output),
        report.diagnostics.is_prefix_of(report.processing(entry).diagnostics),
{
    lemma_entries_are_independent(report, entry);
}

impl Report {
    /// The report of a run that has seen nothing yet.
    pub fn new() -> (report: Report)
        ensures
            report@ == ReportView::empty(),
    {
        let report = Report { output: String::new(), diagnostics: Vec::new() };
        assert(views(report.diagnostics@) == Seq::<DiagnosticView>::empty());
        report
    }

    /// Adds one diagnostic.
    pub fn note(&mut self, severity: Severity, message: String)
        ensures
            final(self)@ == old(self)@.noting(DiagnosticView { severity, message: message@ }),
    {
        let line = Diagnostic { severity, message };
        proof {
            lemma_views_push(self.diagnostics@, line);
        }
        self.diagnostics.push(line);
    }

    /// Notes that an entry was cut short by the end of the text.
    pub fn note_unclosed(&mut self, id: &str)
        ensures
            final(self)@ == old(self)@.noting(unclosed_line(id@)),
    {
        let mut message = String::from_str(
            "Unterminated entry, taken to run to the end of the input: ",
        );
        message.append(id);
        self.note(Severity::Warn, message);
    }

    /// Notes that the type of an entry is unknown.
    pub fn note_unknown(&mut self, type_tag: &str)
        ensures
            final(self)@ == old(self)@.noting(unknown_line(type_tag@)),
    {
        let mut message = String::from_str("Unknown entry type: ");
        message.append(type_tag);
        self.note(Severity::Info, message);
    }

    /// Notes that an entry was rejected.
    pub fn note_rejection(&mut self, kind: RecordKind, id: &str, reason: Rejection)
        ensures
            final(self)@ == old(self)@.noting(rejection_line(kind, id@, reason)),
    {
        let mut message = String::from_str("Error processing ");
        message.append(kind.name());
        message.append(" entry ");
        message.append(id);
        message.append(": ");
        let words = reason.message();
        message.append(words.as_str());
        self.note(Severity::Error, message);
    }

    /// Notes the warnings that the validation of an entry raised.
    pub fn note_warnings(&mut self, warnings: &Vec<Warning>)
        ensures
            final(self)@ == (ReportView {
                output: old(self)@.output,
                diagnostics: old(self)@.diagnostics + warning_lines(views(warnings@)),
            }),
    {
        let ghost lines = warning_lines(views(warnings@));
        let mut i: usize = 0;
        assert(self@.diagnostics == self@.diagnostics + lines.take(0));
        while i < warnings.len()
            invariant
                i <= warnings.len(),
                lines == warning_lines(views(warnings@)),
                self@.output == old(self)@.output,
                self@.diagnostics == old(self)@.diagnostics + lines.take(i as int),
            decreases warnings.len() - i,
        {
            let message = warnings[i].message();
            self.note(Severity::Warn, message);
            assert(lines.take(i + 1) == lines.take(i as int).push(lines[i as int]));
            i += 1;
        }
        assert(lines.take(warnings.len() as int) == lines);
    }

    /// Records what the validation of an entry came to: its warnings, and
    /// then the rendered record or the rejection.
    pub fn record(
        &mut self,
        kind: RecordKind,
        id: &str,
        result: Result<String, Rejection>,
        warnings: &Vec<Warning>,
    )
        ensures
            final(self)@ == old(self)@.recording(
                kind,
                id@,
                Outcome {
                    result: match result {
                        Ok(text) => Ok(text@),
                        Err(reason) => Err(reason),
                    },
                    warnings: views(warnings@),
                },
            ),
    {
        self.note_warnings(warnings);
        match result {
            Ok(text) => {
                self.output.append(text.as_str());
            },
            Err(reason) => {
                self.note_rejection(kind, id, reason);
            },
        }
    }

    /// Validates one entry and records what comes of it.
    pub fn process(&mut self, entry: &RawEntry)
        ensures
            final(self)@ == old(self)@.processing(entry@),
    {
        let kind = EntryKind::of(entry.type_tag.as_str());
        let id = entry_id(entry.body.as_str());
        if !entry.closed {
            self.note_unclosed(id.as_str());
        }
        match kind {
            EntryKind::Misc => {},
            EntryKind::Unknown => {
                self.note_unknown(entry.type_tag.as_str());
            },
            EntryKind::Record(kind) => {
                let mut warnings: Vec<Warning> = Vec::new();
                let ghost outcome = Record::from_body(kind, entry.body@);
                assert(views(warnings@) + outcome.warnings == outcome.warnings);
                let result = match Record::new(kind, entry.body.as_str(), &mut warnings) {
                    Ok(record) => Ok(record.rendered()),
                    Err(reason) => Err(reason),
                };
                self.record(kind, id.as_str(), result, &warnings);
            },
        }
    }
}

/// Scans a whole text and processes each of its entries in turn.
pub fn extract_entries(input: &str) -> (report: Report)
    ensures
        report@ == report_of(input@),
{
    let entries = scan_entries(input);
    let mut report = Report::new();
    let mut i: usize = 0;
    while i < entries.len()
        invariant
            i <= entries.len(),
            views(entries@) == scan(input@),
            report@ == ReportView::empty().processing_all(scan(input@).take(i as int)),
        decreases entries.len() - i,
    {
        proof {
            let all = scan(input@);
            assert(all.take(i + 1).drop_last() == all.take(i as int));
            assert(all.take(i + 1).last() == entries@[i as int]@);
        }
        report.process(&entries[i]);
        i += 1;
    }
    assert(scan(input@).take(entries.len() as int) == scan(input@));
    report
}

} // verus!
