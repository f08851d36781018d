use bibtidy::article::{Article, ArticleFields, ArticleVerdicts};
use bibtidy::diagnostic::{Defect, Field, Rejection, Warning};
use bibtidy::fields::FieldTable;

const HEAD: &str = "k1,\n    author = {Doe, Jane},\n    title = {A Study},\n    journal = {J. Things},\n";

fn body(rest: &str) -> String {
    format!("{}{}", HEAD, rest)
}

fn warning(defect: Defect) -> Warning {
    Warning { defect, title: "A Study".to_string() }
}

fn fields() -> ArticleFields {
    ArticleFields {
        author: "Doe, Jane".to_string(),
        title: "A Study".to_string(),
        journal: "J. Things".to_string(),
        volume: "3".to_string(),
        number: "4".to_string(),
        month: "jan".to_string(),
        year: "2020".to_string(),
        pages: "1-10".to_string(),
        doi: "10.1000/x".to_string(),
    }
}

fn all_accepted() -> ArticleVerdicts {
    ArticleVerdicts { author: true, title: true, journal: true, month: true, pages: true, doi: true }
}

#[test]
fn article_with_every_field_is_accepted_without_warning() {
    let mut log = Vec::new();
    let input = body(
        "    volume = {3},\n    number = {4},\n    month = {jan},\n    year = {2020},\n    pages = {1-10},\n    doi = {10.1000/x}\n",
    );
    let article = Article::new(&input, &mut log).unwrap();
    assert!(log.is_empty());
    assert_eq!(article.author(), "Doe, Jane");
    assert_eq!(article.title(), "A Study");
    assert_eq!(article.journal(), "J. Things");
    assert_eq!(article.volume(), 3);
    assert_eq!(article.number(), 4);
    assert_eq!(article.month(), "jan");
    assert_eq!(article.year(), 2020);
    assert_eq!(article.pages(), "1-10");
    assert_eq!(article.doi(), "10.1000/x");
}

#[test]
fn article_pages_in_order_are_accepted() {
    let mut log = Vec::new();
    let input = body("    month = {jan},\n    year = {2020},\n    pages = {10-20}\n");
    let article = Article::new(&input, &mut log).unwrap();
    assert_eq!(article.pages(), "10-20");
    assert!(!log.contains(&warning(Defect::NoPages)));
}

#[test]
fn article_pages_of_one_page_are_accepted() {
    let mut log = Vec::new();
    let input = body("    month = {jan},\n    year = {2020},\n    pages = {7-7}\n");
    assert!(Article::new(&input, &mut log).is_ok());
}

#[test]
fn article_pages_out_of_order_are_rejected() {
    let mut log = Vec::new();
    let input = body("    month = {jan},\n    year = {2020},\n    pages = {20-10}\n");
    assert_eq!(Article::new(&input, &mut log), Err(Rejection::BadPagesRange));
    assert!(log.is_empty());
}

#[test]
fn article_pages_without_hyphen_are_rejected() {
    let mut log = Vec::new();
    let input = body("    month = {jan},\n    year = {2020},\n    pages = {10}\n");
    assert_eq!(Article::new(&input, &mut log), Err(Rejection::BadFormat(Field::Pages)));
    assert!(log.is_empty());
}

#[test]
fn article_pages_too_large_to_read_are_rejected() {
    let mut log = Vec::new();
    let input = body("    month = {jan},\n    year = {2020},\n    pages = {1-99999999999}\n");
    assert_eq!(Article::new(&input, &mut log), Err(Rejection::BadFormat(Field::Pages)));
}

#[test]
fn article_without_pages_is_accepted_with_a_warning() {
    let mut log = Vec::new();
    let input = body("    month = {jan},\n    year = {2020},\n    volume = {1},\n    number = {2},\n    doi = {10.1000/x}\n");
    let article = Article::new(&input, &mut log).unwrap();
    assert_eq!(article.pages(), "");
    assert_eq!(log, vec![warning(Defect::NoPages)]);
    let mut out = String::new();
    article.print(&mut out);
    assert!(out.contains("    pages          = {}\n"));
}

#[test]
fn article_with_empty_pages_is_accepted_with_a_warning() {
    let mut log = Vec::new();
    let input = body("    month = {jan},\n    year = {2020},\n    pages = {},\n    volume = {1},\n    number = {2},\n    doi = {10.1000/x}\n");
    let article = Article::new(&input, &mut log).unwrap();
    assert_eq!(article.pages(), "");
    assert_eq!(log, vec![warning(Defect::NoPages)]);
}

#[test]
fn article_month_in_lower_case_is_accepted() {
    let mut log = Vec::new();
    let input = body("    month = {jan},\n    year = {2020}\n");
    assert_eq!(Article::new(&input, &mut log).unwrap().month(), "jan");
}

#[test]
fn article_month_is_cut_to_three_characters() {
    let mut log = Vec::new();
    let input = body("    month = {january},\n    year = {2020}\n");
    assert_eq!(Article::new(&input, &mut log).unwrap().month(), "jan");
}

#[test]
fn article_month_with_a_capital_is_rejected() {
    let mut log = Vec::new();
    let short = body("    month = {Jan},\n    year = {2020}\n");
    assert_eq!(Article::new(&short, &mut log), Err(Rejection::BadFormat(Field::Month)));
    let long = body("    month = {January},\n    year = {2020}\n");
    assert_eq!(Article::new(&long, &mut log), Err(Rejection::BadFormat(Field::Month)));
    assert!(log.is_empty());
}

#[test]
fn article_with_malformed_doi_is_accepted_with_an_empty_doi() {
    let mut log = Vec::new();
    let input = body("    month = {jan},\n    year = {2020},\n    volume = {1},\n    number = {2},\n    pages = {1-2},\n    doi = {doi:nonsense}\n");
    let article = Article::new(&input, &mut log).unwrap();
    assert_eq!(article.doi(), "");
    assert_eq!(log, vec![warning(Defect::BadDoi)]);
}

#[test]
fn article_without_volume_and_number_gets_the_sentinel() {
    let mut log = Vec::new();
    let input = body("    month = {jan},\n    year = {2020},\n    volume = {iv},\n    pages = {1-2},\n    doi = {10.1000/x}\n");
    let article = Article::new(&input, &mut log).unwrap();
    assert_eq!(article.volume(), -1);
    assert_eq!(article.number(), -1);
    assert_eq!(log, vec![warning(Defect::BadVolume), warning(Defect::BadNumber)]);
}

#[test]
fn article_warnings_come_in_the_order_of_the_checks() {
    let mut log = vec![Warning { defect: Defect::BadDoi, title: "earlier".to_string() }];
    let input = body("    month = {jan},\n    year = {2020}\n");
    assert!(Article::new(&input, &mut log).is_ok());
    assert_eq!(
        log,
        vec![
            Warning { defect: Defect::BadDoi, title: "earlier".to_string() },
            warning(Defect::NoPages),
            warning(Defect::BadVolume),
            warning(Defect::BadNumber),
            warning(Defect::BadDoi),
        ],
    );
}

#[test]
fn article_missing_fields_are_reported_in_order() {
    let mut log = Vec::new();
    assert_eq!(Article::new("k1,\n", &mut log), Err(Rejection::Missing(Field::Author)));
    assert_eq!(
        Article::new("k1,\n    author = {Doe, Jane}\n", &mut log),
        Err(Rejection::Missing(Field::Title)),
    );
    assert_eq!(
        Article::new("k1,\n    author = {Doe, Jane},\n    title = {A Study}\n", &mut log),
        Err(Rejection::Missing(Field::Journal)),
    );
    assert_eq!(
        Article::new(&body("    year = {2020}\n"), &mut log),
        Err(Rejection::Missing(Field::Month)),
    );
    assert_eq!(
        Article::new(&body("    month = {jan}\n"), &mut log),
        Err(Rejection::Missing(Field::Year)),
    );
    assert_eq!(
        Article::new(&body("    month = {jan},\n    year = {}\n"), &mut log),
        Err(Rejection::Missing(Field::Year)),
    );
    assert!(log.is_empty());
}

#[test]
fn article_year_that_is_no_integer_is_rejected_after_the_pages_warning() {
    let mut log = Vec::new();
    let input = body("    month = {jan},\n    year = {MMXX}\n");
    assert_eq!(Article::new(&input, &mut log), Err(Rejection::BadYear));
    assert_eq!(log, vec![warning(Defect::NoPages)]);
}

#[test]
fn article_formats_are_checked_before_pages_and_year() {
    let mut log = Vec::new();
    let input = "k1,\n    author = {Jane},\n    title = {A {Study}},\n    journal = {J},\n    month = {Jan},\n    year = {x},\n    pages = {3}\n";
    assert_eq!(Article::new(input, &mut log), Err(Rejection::BadFormat(Field::Author)));
    let input = "k1,\n    author = {Doe, Jane},\n    title = {A \\ Study {x}},\n    journal = {J},\n    month = {Jan},\n    year = {x},\n    pages = {3}\n";
    assert_eq!(Article::new(input, &mut log), Err(Rejection::BadFormat(Field::Title)));
    assert!(log.is_empty());
}

#[test]
fn article_validate_follows_the_verdicts_it_is_given() {
    let mut log = Vec::new();
    let article = Article::validate(fields(), all_accepted(), &mut log).unwrap();
    assert_eq!(article.year(), 2020);
    assert_eq!(article.volume(), 3);
    assert!(log.is_empty());

    let verdicts = ArticleVerdicts { title: false, journal: false, ..all_accepted() };
    assert_eq!(
        Article::validate(fields(), verdicts, &mut log),
        Err(Rejection::BadFormat(Field::Title)),
    );
    let verdicts = ArticleVerdicts { journal: false, month: false, ..all_accepted() };
    assert_eq!(
        Article::validate(fields(), verdicts, &mut log),
        Err(Rejection::BadFormat(Field::Journal)),
    );
    let verdicts = ArticleVerdicts { month: false, pages: false, ..all_accepted() };
    assert_eq!(
        Article::validate(fields(), verdicts, &mut log),
        Err(Rejection::BadFormat(Field::Month)),
    );
    let verdicts = ArticleVerdicts { pages: false, doi: false, ..all_accepted() };
    assert_eq!(
        Article::validate(fields(), verdicts, &mut log),
        Err(Rejection::BadFormat(Field::Pages)),
    );
    assert!(log.is_empty());

    let verdicts = ArticleVerdicts { doi: false, ..all_accepted() };
    let article = Article::validate(fields(), verdicts, &mut log).unwrap();
    assert_eq!(article.doi(), "");
    assert_eq!(log, vec![warning(Defect::BadDoi)]);
}

#[test]
fn article_read_cuts_the_month_and_defaults_the_optional_fields() {
    let mut table = FieldTable::empty();
    for (name, value) in [
        ("author", "Doe, Jane"),
        ("title", "A Study"),
        ("journal", "J. Things"),
        ("month", "September"),
        ("year", "2020"),
    ] {
        table.insert(name.to_string(), value.to_string());
    }
    let fields = Article::read(&table).unwrap();
    assert_eq!(fields.month, "Sep");
    assert_eq!(fields.volume, "");
    assert_eq!(fields.number, "");
    assert_eq!(fields.pages, "");
    assert_eq!(fields.doi, "");
    let verdicts = Article::check(&fields);
    assert_eq!(
        verdicts,
        ArticleVerdicts {
            author: true,
            title: true,
            journal: true,
            month: false,
            pages: false,
            doi: false,
        },
    );
}

#[test]
fn article_is_printed_in_its_layout() {
    let mut log = Vec::new();
    let input = body(
        "    volume = {3},\n    month = {jan},\n    year = {2020},\n    pages = {1-10},\n    doi = {10.1000/x}\n",
    );
    let article = Article::new(&input, &mut log).unwrap();
    let mut out = String::from("before\n");
    article.print(&mut out);
    let expected = "before\n\
@article{doe2020,\n\
\x20   author         = {Doe, Jane},\n\
\x20   title          = {{A Study}},\n\
\x20   journal        = {{J. Things}},\n\
\x20   volume         = {3},\n\
\x20   number         = {}\n\
\x20   month          = {jan},\n\
\x20   year           = {2020},\n\
\x20   pages          = {1-10}\n\
\x20   doi            = {10.1000/x}\n\
}\n";
    assert_eq!(out, expected);
}

#[test]
fn article_printed_twice_gives_the_same_text() {
    let mut log = Vec::new();
    let input = body("    month = {jan},\n    year = {2020}\n");
    let article = Article::new(&input, &mut log).unwrap();
    let mut first = String::new();
    article.print(&mut first);
    let mut second = String::new();
    article.print(&mut second);
    assert_eq!(first, second);
    assert_eq!(first.as_bytes(), second.as_bytes());
    let mut both = String::new();
    article.print(&mut both);
    article.print(&mut both);
    assert_eq!(both, format!("{}{}", first, second));
}

#[test]
fn article_key_and_render_make_up_print() {
    let mut log = Vec::new();
    let input = body("    month = {jan},\n    year = {2020}\n");
    let article = Article::new(&input, &mut log).unwrap();
    assert_eq!(article.generate_key(), "doe2020");
    let mut printed = String::new();
    article.print(&mut printed);
    let mut rendered = String::new();
    article.render("doe2020", &mut rendered);
    assert_eq!(printed, rendered);
    let mut other = String::new();
    article.render("x", &mut other);
    assert!(other.starts_with("@article{x,\n"));
}
