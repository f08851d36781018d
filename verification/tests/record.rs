use bibtidy::diagnostic::{Defect, Field, Rejection, Warning};
use bibtidy::fields::FieldTable;
use bibtidy::record::{Record, RecordKind};

const FIELDS: &str = "k,\n    author = {Doe, Jane},\n    title = {A Study},\n    journal = {J. Things},\n    booktitle = {A Book},\n    editor = {Ed Itor},\n    publisher = {Some Press},\n    address = {Paris (France)},\n    month = {may},\n    year = {2020},\n    pages = {1-10},\n    isbn = {1-2-3},\n    doi = {10.1000/x}\n";

#[test]
fn record_of_each_kind_comes_from_the_same_fields() {
    let kinds = [
        RecordKind::Article,
        RecordKind::Book,
        RecordKind::Collection,
        RecordKind::Proceedings,
    ];
    for kind in kinds {
        let mut log = Vec::new();
        let record = Record::new(kind, FIELDS, &mut log).unwrap();
        assert_eq!(record.kind(), kind);
        assert_eq!(record.generate_key(), "doe2020");
        let expected: Vec<Warning> = match kind {
            RecordKind::Article => vec![
                Warning { defect: Defect::BadVolume, title: "A Study".to_string() },
                Warning { defect: Defect::BadNumber, title: "A Study".to_string() },
            ],
            _ => vec![],
        };
        assert_eq!(log, expected);
    }
}

#[test]
fn record_is_the_record_of_its_type() {
    let mut log = Vec::new();
    let record = Record::new(RecordKind::Book, FIELDS, &mut log).unwrap();
    let book = bibtidy::book::Book::new(FIELDS).unwrap();
    assert_eq!(record, Record::Book(book.clone()));
    let mut from_record = String::new();
    record.print(&mut from_record);
    let mut from_book = String::new();
    book.print(&mut from_book);
    assert_eq!(from_record, from_book);
    assert!(from_record.starts_with("@book{doe2020,\n"));
}

#[test]
fn record_printed_twice_gives_the_same_bytes() {
    let kinds = [
        RecordKind::Article,
        RecordKind::Book,
        RecordKind::Collection,
        RecordKind::Proceedings,
    ];
    for kind in kinds {
        let mut log = Vec::new();
        let record = Record::new(kind, FIELDS, &mut log).unwrap();
        let mut first = String::new();
        record.print(&mut first);
        let mut second = String::from("something before");
        record.print(&mut second);
        assert_eq!(first.as_bytes(), &second.as_bytes()["something before".len()..]);
        assert_eq!(record.rendered(), first);
        assert_eq!(record.rendered().as_bytes(), record.rendered().as_bytes());
        assert_eq!(record.clone(), record);
    }
}

#[test]
fn record_rejections_depend_on_the_kind() {
    let mut log = Vec::new();
    let input = FIELDS.replace("    isbn = {1-2-3},\n", "").replace("{may}", "{May}");
    assert_eq!(
        Record::new(RecordKind::Article, &input, &mut log),
        Err(Rejection::BadFormat(Field::Month)),
    );
    assert_eq!(
        Record::new(RecordKind::Book, &input, &mut log),
        Err(Rejection::Missing(Field::Isbn)),
    );
    assert_eq!(
        Record::new(RecordKind::Collection, &input, &mut log),
        Err(Rejection::Missing(Field::Isbn)),
    );
    assert_eq!(
        Record::new(RecordKind::Proceedings, &input, &mut log),
        Err(Rejection::BadFormat(Field::Month)),
    );
    assert!(log.is_empty());
}

#[test]
fn record_from_fields_takes_a_table() {
    let table = FieldTable::parse(FIELDS);
    let mut log = Vec::new();
    let record = Record::from_fields(RecordKind::Proceedings, &table, &mut log).unwrap();
    assert_eq!(record.kind(), RecordKind::Proceedings);
    assert!(log.is_empty());
    let empty = FieldTable::empty();
    assert_eq!(
        Record::from_fields(RecordKind::Collection, &empty, &mut log),
        Err(Rejection::Missing(Field::Author)),
    );
}

#[test]
fn record_kinds_have_the_names_that_diagnostics_use() {
    assert_eq!(RecordKind::Article.name(), "article");
    assert_eq!(RecordKind::Book.name(), "book");
    assert_eq!(RecordKind::Collection.name(), "collection");
    assert_eq!(RecordKind::Proceedings.name(), "inproceedings");
}
