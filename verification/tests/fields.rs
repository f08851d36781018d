use bibtidy::fields::{strip_braces, FieldTable};
use bibtidy::pattern::{conforms, AUTHOR, DOI, ENTRY, ISBN, MONTH, PAGES, TITLE};

fn text(table: &FieldTable, name: &str) -> Option<String> {
    table.get(name).cloned()
}

#[test]
fn strip_braces_removes_the_braces_around_a_value() {
    assert_eq!(strip_braces("{Doe, Jane}"), "Doe, Jane");
    assert_eq!(strip_braces("{{A Title}}"), "A Title");
    assert_eq!(strip_braces("2020"), "2020");
    assert_eq!(strip_braces("{}"), "");
    assert_eq!(strip_braces(""), "");
    assert_eq!(strip_braces("{a{b}c}"), "a{b}c");
}

#[test]
fn strip_braces_agrees_with_two_calls_of_trim_matches() {
    for value in ["", "{}", "{{}}", "{a}", "{{a}}", "}a{", "{a", "a}", "{{{a}}}", "a{b}c"] {
        assert_eq!(strip_braces(value), value.trim_matches('{').trim_matches('}'), "{:?}", value);
    }
}

#[test]
fn table_holds_each_assignment_of_a_body() {
    let body = "key1,\n    author = {Doe, Jane},\n    title = {{A Study}},\n    year = {2020}\n";
    let table = FieldTable::parse(body);
    assert_eq!(text(&table, "author"), Some("Doe, Jane".to_string()));
    assert_eq!(text(&table, "title"), Some("A Study".to_string()));
    assert_eq!(text(&table, "year"), Some("2020".to_string()));
    assert_eq!(text(&table, "pages"), None);
    assert_eq!(text(&table, "key1"), None);
}

#[test]
fn table_keeps_an_empty_value_apart_from_an_absent_field() {
    let table = FieldTable::parse("k,\n  doi = {},\n  year = {1999}\n");
    assert_eq!(text(&table, "doi"), Some(String::new()));
    assert_eq!(text(&table, "isbn"), None);
}

#[test]
fn table_lets_the_last_assignment_win() {
    let table = FieldTable::parse("k,\n  year = {1999},\n  year = {2001}\n");
    assert_eq!(text(&table, "year"), Some("2001".to_string()));
}

#[test]
fn table_of_a_body_on_one_line_is_empty() {
    let table = FieldTable::parse("k1, author={Doe, Jane}, title={A Study}");
    assert_eq!(text(&table, "author"), None);
    assert_eq!(text(&table, "title"), None);
    assert_eq!(text(&table, "k1"), None);
}

#[test]
fn table_takes_a_bare_value_with_what_ends_its_line() {
    let table = FieldTable::parse("k,\n  year = 2020,\n  month = {jan}\n");
    assert_eq!(text(&table, "year"), Some("2020,".to_string()));
    assert_eq!(text(&table, "month"), Some("jan".to_string()));
    let table = FieldTable::parse("k,\n  year = 2020\n");
    assert_eq!(text(&table, "year"), Some("2020\n".to_string()));
}

#[test]
fn table_from_captures_reads_groups_one_and_two() {
    let some = |s: &str| Some(s.to_string());
    let found = vec![
        vec![some("a = {x},"), some("a"), some("{x}")],
        vec![some("whole"), some("b"), None],
        vec![some("short"), some("c")],
        vec![some("a = {{y}}"), some("a"), some("{{y}}")],
        vec![some("d = z"), some("d"), some("z"), some("extra")],
    ];
    let table = FieldTable::from_captures(&found);
    assert_eq!(text(&table, "a"), Some("y".to_string()));
    assert_eq!(text(&table, "b"), None);
    assert_eq!(text(&table, "c"), None);
    assert_eq!(text(&table, "d"), Some("z".to_string()));
}

#[test]
fn table_insert_replaces_the_value_of_a_name() {
    let mut table = FieldTable::empty();
    assert_eq!(text(&table, "x"), None);
    table.insert("x".to_string(), "1".to_string());
    table.insert("y".to_string(), "2".to_string());
    table.insert("x".to_string(), "3".to_string());
    assert_eq!(text(&table, "x"), Some("3".to_string()));
    assert_eq!(text(&table, "y"), Some("2".to_string()));
}

#[test]
fn every_grammar_compiles_and_decides() {
    assert!(conforms(ENTRY, "  name = {value},"));
    assert!(!conforms(ENTRY, "no assignment"));
    assert!(conforms(AUTHOR, "Doe, Jane"));
    assert!(conforms(AUTHOR, "Doe, Jane and Roe, Richard"));
    assert!(!conforms(AUTHOR, "Jane"));
    assert!(conforms(TITLE, "A Study: of things, 2nd ed."));
    assert!(!conforms(TITLE, "A {Study}"));
    assert!(!conforms(TITLE, ""));
    assert!(conforms(PAGES, "10-20"));
    assert!(!conforms(PAGES, "10"));
    assert!(!conforms(PAGES, "10-"));
    assert!(!conforms(PAGES, ""));
    assert!(conforms(DOI, "10.1000/xyz123"));
    assert!(!conforms(DOI, "11.1000/xyz123"));
    assert!(!conforms(DOI, ""));
    assert!(conforms(MONTH, "jan"));
    assert!(conforms(MONTH, "dec"));
    assert!(!conforms(MONTH, "Jan"));
    assert!(!conforms(MONTH, "january"));
    assert!(conforms(ISBN, "978-3-16-148410-0"));
    assert!(!conforms(ISBN, "978 3"));
}

#[test]
fn a_pattern_that_does_not_compile_accepts_nothing() {
    assert!(!conforms("(unclosed", "(unclosed"));
    assert!(!conforms("a{2,1}", "aa"));
}
