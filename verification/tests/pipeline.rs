use bibtidy::diagnostic::{Defect, Diagnostic, Field, Rejection, Severity, Warning};
use bibtidy::pipeline::{extract_entries, EntryKind, Report};
use bibtidy::record::RecordKind;
use bibtidy::scanner::RawEntry;

const ARTICLE: &str = "@article{k1,\n    author = {Doe, Jane},\n    title = {A Study},\n    journal = {J. Things},\n    month = {jan},\n    year = {2020},\n    pages = {1-10}\n}\n";

const BOOK_WITHOUT_ISBN: &str = "@book{k2,\n    author = {Knuth, Donald},\n    title = {The Art},\n    publisher = {Addison-Wesley},\n    month = {jan},\n    year = {1968}\n}\n";

const ARTICLE_TEXT: &str = "@article{doe2020,\n\
\x20   author         = {Doe, Jane},\n\
\x20   title          = {{A Study}},\n\
\x20   journal        = {{J. Things}},\n\
\x20   volume         = {}\n\
\x20   number         = {}\n\
\x20   month          = {jan},\n\
\x20   year           = {2020},\n\
\x20   pages          = {1-10}\n\
\x20   doi            = {}\n\
}\n";

fn line(severity: Severity, message: &str) -> Diagnostic {
    Diagnostic { severity, message: message.to_string() }
}

#[test]
fn run_renders_the_article_and_reports_the_book_without_isbn() {
    let input = format!("{}{}", ARTICLE, BOOK_WITHOUT_ISBN);
    let report = extract_entries(&input);
    assert_eq!(report.output, ARTICLE_TEXT);
    assert_eq!(report.output.matches("@article{doe2020,").count(), 1);
    assert_eq!(report.output.matches('@').count(), 1);
    let about_isbn: Vec<&Diagnostic> =
        report.diagnostics.iter().filter(|d| d.message.contains("isbn")).collect();
    assert_eq!(
        about_isbn,
        vec![&line(
            Severity::Error,
            "Error processing book entry k2: Missing or empty isbn field",
        )],
    );
    let errors = report.diagnostics.iter().filter(|d| d.severity == Severity::Error).count();
    assert_eq!(errors, 1);
}

#[test]
fn run_goes_on_after_a_rejected_entry() {
    let input = format!("{}{}", BOOK_WITHOUT_ISBN, ARTICLE);
    let report = extract_entries(&input);
    assert_eq!(report.output, ARTICLE_TEXT);
    assert_eq!(
        report.diagnostics,
        vec![
            line(Severity::Error, "Error processing book entry k2: Missing or empty isbn field"),
            line(Severity::Warn, "Invalid volume format in entry with title: A Study"),
            line(Severity::Warn, "Invalid number format in entry with title: A Study"),
            line(Severity::Warn, "Invalid DOI format in entry with title: A Study"),
        ],
    );
}

#[test]
fn run_rejects_an_article_written_on_one_line() {
    let input = "@article{k1, author={Doe, Jane}, title={A Study}, journal={J. Things}, month={January}, year={2020}, pages={1-10}}";
    let report = extract_entries(input);
    assert_eq!(report.output, "");
    assert_eq!(
        report.diagnostics,
        vec![line(
            Severity::Error,
            "Error processing article entry k1: Missing or empty author field",
        )],
    );
}

#[test]
fn run_appends_the_records_in_the_order_of_the_entries() {
    let second = ARTICLE.replace("Doe, Jane", "Roe, Richard").replace("2020", "1999");
    let input = format!("{}junk between\n{}", ARTICLE, second);
    let report = extract_entries(&input);
    let expected = format!(
        "{}{}",
        ARTICLE_TEXT,
        ARTICLE_TEXT.replace("doe2020", "roe1999").replace("Doe, Jane", "Roe, Richard").replace(
            "{2020}",
            "{1999}",
        ),
    );
    assert_eq!(report.output, expected);
}

#[test]
fn run_passes_over_misc_in_silence_and_notes_unknown_types() {
    let report = extract_entries("@misc{m, a = {b}}\n@ thesis {t, a = {b}}\n@MISC{n}");
    assert_eq!(report.output, "");
    assert_eq!(
        report.diagnostics,
        vec![
            line(Severity::Info, "Unknown entry type:  thesis "),
            line(Severity::Info, "Unknown entry type: MISC"),
        ],
    );
}

#[test]
fn run_renders_a_collection_under_the_tag_of_proceedings() {
    let input = "@incollection{c1,\n    author = {Roe, Richard},\n    title = {A Chapter},\n    booktitle = {A Book of Chapters},\n    editor = {Ed Itor},\n    publisher = {Some Press},\n    year = {2001},\n    pages = {11-29},\n    isbn = {978-3-16-148410-0},\n    doi = {10.1000/chapter.1}\n}";
    let report = extract_entries(input);
    assert!(report.diagnostics.is_empty());
    assert!(report.output.starts_with("@inproceedings{roe2001,\n"));
    assert!(report.output.contains("    editor         = {Ed Itor},\n"));
}

#[test]
fn run_renders_proceedings_and_names_rejections_by_kind() {
    let talk = "@inproceedings{talk1,\n    author = {Poe, Edgar},\n    title = {A Talk},\n    booktitle = {Proceedings of Talks},\n    address = {Paris (France)},\n    year = {2010},\n    month = {oct},\n    pages = {5-9},\n    doi = {10.1000/talk}\n}\n";
    let broken = "@incollection{c9,\n    author = {Roe}\n}\n@inproceedings{talk9,\n    title = {T}\n}\n@article{a9, x}\n";
    let report = extract_entries(&format!("{}{}", talk, broken));
    assert!(report.output.starts_with("@inproceedings{poe2010,\n"));
    assert!(report.output.ends_with("    doi            = {10.1000/talk},\n}\n"));
    assert_eq!(
        report.diagnostics,
        vec![
            line(
                Severity::Error,
                "Error processing collection entry c9: Missing or empty title field",
            ),
            line(
                Severity::Error,
                "Error processing inproceedings entry talk9: Missing or empty author field",
            ),
            line(
                Severity::Error,
                "Error processing article entry a9: Missing or empty author field",
            ),
        ],
    );
}

#[test]
fn run_warns_before_it_rejects() {
    let input = ARTICLE.replace("    pages = {1-10}\n", "").replace("{2020},", "{MMXX}");
    let report = extract_entries(&input);
    assert_eq!(report.output, "");
    assert_eq!(
        report.diagnostics,
        vec![
            line(Severity::Warn, "Non present page number in entry with title: A Study"),
            line(Severity::Error, "Error processing article entry k1: Invalid year format"),
        ],
    );
}

#[test]
fn run_notes_an_entry_that_is_not_closed() {
    let input = ARTICLE.trim_end().trim_end_matches('}');
    let report = extract_entries(input);
    assert_eq!(report.output, ARTICLE_TEXT);
    assert_eq!(
        report.diagnostics[0],
        line(Severity::Warn, "Unterminated entry, taken to run to the end of the input: k1"),
    );
    assert_eq!(report.diagnostics.len(), 4);
}

#[test]
fn run_of_the_same_text_gives_the_same_report() {
    let input = format!("{}{}", ARTICLE, BOOK_WITHOUT_ISBN);
    assert_eq!(extract_entries(&input), extract_entries(&input));
}

#[test]
fn kind_is_read_from_the_trimmed_tag() {
    assert_eq!(EntryKind::of("article"), EntryKind::Record(RecordKind::Article));
    assert_eq!(EntryKind::of("  book\n"), EntryKind::Record(RecordKind::Book));
    assert_eq!(EntryKind::of("incollection"), EntryKind::Record(RecordKind::Collection));
    assert_eq!(EntryKind::of("inproceedings"), EntryKind::Record(RecordKind::Proceedings));
    assert_eq!(EntryKind::of("misc"), EntryKind::Misc);
    assert_eq!(EntryKind::of("Article"), EntryKind::Unknown);
    assert_eq!(EntryKind::of("in proceedings"), EntryKind::Unknown);
    assert_eq!(EntryKind::of(""), EntryKind::Unknown);
}

#[test]
fn report_records_warnings_then_text_or_rejection() {
    let mut report = Report::new();
    assert_eq!(report, Report { output: String::new(), diagnostics: vec![] });
    let warnings = vec![Warning { defect: Defect::NoPages, title: "T".to_string() }];
    report.record(RecordKind::Article, "k1", Ok("text one\n".to_string()), &warnings);
    report.record(
        RecordKind::Book,
        "k2",
        Err(Rejection::BadFormat(Field::Isbn)),
        &Vec::new(),
    );
    report.record(RecordKind::Collection, "k3", Err(Rejection::BadYear), &warnings);
    report.record(RecordKind::Proceedings, "k4", Ok("text two\n".to_string()), &Vec::new());
    assert_eq!(report.output, "text one\ntext two\n");
    assert_eq!(
        report.diagnostics,
        vec![
            line(Severity::Warn, "Non present page number in entry with title: T"),
            line(Severity::Error, "Error processing book entry k2: Invalid ISBN format"),
            line(Severity::Warn, "Non present page number in entry with title: T"),
            line(Severity::Error, "Error processing collection entry k3: Invalid year format"),
        ],
    );
}

#[test]
fn report_processes_one_entry() {
    let mut report = Report::new();
    report.process(&RawEntry {
        type_tag: "thesis".to_string(),
        body: "t1, x".to_string(),
        closed: true,
    });
    report.process(&RawEntry { type_tag: "misc".to_string(), body: "m".to_string(), closed: false });
    assert_eq!(report.output, "");
    assert_eq!(
        report.diagnostics,
        vec![
            line(Severity::Info, "Unknown entry type: thesis"),
            line(Severity::Warn, "Unterminated entry, taken to run to the end of the input: m"),
        ],
    );
}
