use bibtidy::book::{Book, BookFields, BookVerdicts};
use bibtidy::diagnostic::{Field, Rejection};

const BOOK: &str = "b1,\n    author = {Knuth, Donald},\n    title = {{The Art of Computer Programming}},\n    publisher = {Addison-Wesley},\n    month = {jan},\n    year = {1968},\n    isbn = {0-201-03801-3}\n";

fn book_fields() -> BookFields {
    BookFields {
        author: "Knuth, Donald".to_string(),
        title: "The Art".to_string(),
        publisher: "Addison-Wesley".to_string(),
        month: "jan".to_string(),
        year: "1968".to_string(),
        isbn: "0-201-03801-3".to_string(),
    }
}

fn book_accepted() -> BookVerdicts {
    BookVerdicts { author: true, title: true, publisher: true, month: true, isbn: true }
}

#[test]
fn book_with_every_field_is_accepted() {
    let book = Book::new(BOOK).unwrap();
    assert_eq!(book.author(), "Knuth, Donald");
    assert_eq!(book.title(), "The Art of Computer Programming");
    assert_eq!(book.publisher(), "Addison-Wesley");
    assert_eq!(book.month(), "jan");
    assert_eq!(book.year(), 1968);
    assert_eq!(book.isbn(), "0-201-03801-3");
    assert_eq!(book.generate_key(), "knuth1968");
}

#[test]
fn book_without_isbn_is_rejected() {
    let input = BOOK.replace(",\n    isbn = {0-201-03801-3}", "");
    assert_eq!(Book::new(&input), Err(Rejection::Missing(Field::Isbn)));
}

#[test]
fn book_missing_fields_are_reported_in_order() {
    assert_eq!(Book::new(""), Err(Rejection::Missing(Field::Author)));
    let input = BOOK.replace("    title = {{The Art of Computer Programming}},\n", "");
    assert_eq!(Book::new(&input), Err(Rejection::Missing(Field::Title)));
    let input = BOOK.replace("    publisher = {Addison-Wesley},\n", "").replace("    year = {1968},\n", "");
    assert_eq!(Book::new(&input), Err(Rejection::Missing(Field::Publisher)));
    let input = BOOK.replace("    month = {jan},\n", "    month = {},\n");
    assert_eq!(Book::new(&input), Err(Rejection::Missing(Field::Month)));
    let input = BOOK.replace("    year = {1968},\n", "");
    assert_eq!(Book::new(&input), Err(Rejection::Missing(Field::Year)));
}

#[test]
fn book_formats_are_checked_in_order() {
    let input = BOOK.replace("{jan}", "{Mai}").replace("{0-201-03801-3}", "{none}");
    assert_eq!(Book::new(&input), Err(Rejection::BadFormat(Field::Month)));
    let input = BOOK.replace("{0-201-03801-3}", "{none}").replace("{1968}", "{soon}");
    assert_eq!(Book::new(&input), Err(Rejection::BadFormat(Field::Isbn)));
    let input = BOOK.replace("{1968}", "{soon}");
    assert_eq!(Book::new(&input), Err(Rejection::BadYear));
    let input = BOOK.replace("{Knuth, Donald}", "{Knuth}");
    assert_eq!(Book::new(&input), Err(Rejection::BadFormat(Field::Author)));
}

#[test]
fn book_validate_follows_the_verdicts_it_is_given() {
    assert_eq!(Book::validate(book_fields(), book_accepted()).unwrap().year(), 1968);
    let verdicts = BookVerdicts { author: false, title: false, ..book_accepted() };
    assert_eq!(
        Book::validate(book_fields(), verdicts),
        Err(Rejection::BadFormat(Field::Author)),
    );
    let verdicts = BookVerdicts { title: false, publisher: false, ..book_accepted() };
    assert_eq!(Book::validate(book_fields(), verdicts), Err(Rejection::BadFormat(Field::Title)));
    let verdicts = BookVerdicts { publisher: false, isbn: false, ..book_accepted() };
    assert_eq!(
        Book::validate(book_fields(), verdicts),
        Err(Rejection::BadFormat(Field::Publisher)),
    );
    let verdicts = BookVerdicts { isbn: false, ..book_accepted() };
    assert_eq!(Book::validate(book_fields(), verdicts), Err(Rejection::BadFormat(Field::Isbn)));
}

#[test]
fn book_is_printed_in_its_layout() {
    let book = Book::new(BOOK).unwrap();
    let mut out = String::new();
    book.print(&mut out);
    let expected = "@book{knuth1968,\n\
\x20   author         = {Knuth, Donald},\n\
\x20   title          = {{The Art of Computer Programming}},\n\
\x20   publisher      = {Addison-Wesley},\n\
\x20   month          = {jan},\n\
\x20   year           = {1968},\n\
\x20   isbn           = {0-201-03801-3},\n\
}\n";
    assert_eq!(out, expected);
    let mut again = String::new();
    book.print(&mut again);
    assert_eq!(out, again);
}
