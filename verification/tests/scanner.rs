use bibtidy::scanner::{entry_id, scan_entries, RawEntry};

fn entry(type_tag: &str, body: &str, closed: bool) -> RawEntry {
    RawEntry { type_tag: type_tag.to_string(), body: body.to_string(), closed }
}

#[test]
fn scan_finds_each_entry_in_order() {
    let input = "% a comment\n@article{a1, x = {1}}\n\n@book{b1,\n y = {2}\n}\ntrailing";
    assert_eq!(
        scan_entries(input),
        vec![entry("article", "a1, x = {1}", true), entry("book", "b1,\n y = {2}\n", true)],
    );
}

#[test]
fn scan_of_a_text_without_entries_is_empty() {
    assert_eq!(scan_entries(""), vec![]);
    assert_eq!(scan_entries("no entries { here }"), vec![]);
}

#[test]
fn scan_keeps_nested_braces_in_the_body() {
    let input = "@article{k, title = {{A {Nested} Title}}, note = {a}{b}}";
    assert_eq!(
        scan_entries(input),
        vec![entry("article", "k, title = {{A {Nested} Title}}, note = {a}{b}", true)],
    );
}

#[test]
fn scan_takes_an_at_sign_inside_an_entry_as_text() {
    let input = "@misc{k, email = {a@b.c}, other = @x{y}}@book{z}";
    assert_eq!(
        scan_entries(input),
        vec![entry("misc", "k, email = {a@b.c}, other = @x{y}", true), entry("book", "z", true)],
    );
}

#[test]
fn scan_keeps_the_type_tag_as_written() {
    assert_eq!(scan_entries("@ Article \n{k}"), vec![entry(" Article \n", "k", true)]);
    assert_eq!(scan_entries("@{k}"), vec![entry("", "k", true)]);
    assert_eq!(scan_entries("@a@b{k}"), vec![entry("a@b", "k", true)]);
}

#[test]
fn scan_of_an_empty_body() {
    assert_eq!(scan_entries("@book{}"), vec![entry("book", "", true)]);
}

#[test]
fn scan_ends_an_unclosed_entry_with_the_text() {
    assert_eq!(scan_entries("@book{k, a = {b}"), vec![entry("book", "k, a = {b}", false)]);
    assert_eq!(
        scan_entries("@book{k}@article{x, @misc{y}"),
        vec![entry("book", "k", true), entry("article", "x, @misc{y}", false)],
    );
    assert_eq!(scan_entries("@book"), vec![entry("book", "", false)]);
    assert_eq!(scan_entries("@"), vec![entry("", "", false)]);
    assert_eq!(scan_entries("@book{"), vec![entry("book", "", false)]);
}

#[test]
fn scan_passes_over_a_closing_brace_outside_an_entry() {
    assert_eq!(scan_entries("}}@book{k}}@misc{m}"), vec![
        entry("book", "k", true),
        entry("misc", "m", true),
    ]);
}

#[test]
fn scan_of_a_wrapped_body_gives_the_body_back() {
    let bodies = ["", "k", "k, a = {b}", "{{}}", "a{b{c}d}e{f}", "k,\n t = {{T}},\n u = {v}\n"];
    for body in bodies {
        let wrapped = format!("@tag{{{}}}", body);
        let found = scan_entries(&wrapped);
        assert_eq!(found, vec![entry("tag", body, true)], "{:?}", body);
        let again = format!("@{}{{{}}}", found[0].type_tag, found[0].body);
        assert_eq!(scan_entries(&again), found);
    }
}

#[test]
fn scan_handles_characters_beyond_ascii() {
    let input = "\u{e9}@b\u{fc}ch{k, t = {\u{1F600}}}";
    assert_eq!(scan_entries(input), vec![entry("b\u{fc}ch", "k, t = {\u{1F600}}", true)]);
}

#[test]
fn id_is_the_body_up_to_the_first_comma_outside_braces() {
    assert_eq!(entry_id("k1,\n author = {Doe, Jane}"), "k1");
    assert_eq!(entry_id("k1"), "k1");
    assert_eq!(entry_id(""), "");
    assert_eq!(entry_id(",k"), "");
    assert_eq!(entry_id("{a,b}c, d"), "{a,b}c");
    assert_eq!(entry_id("{a,{b,}},"), "{a,{b,}}");
    assert_eq!(entry_id("{a,b"), "{a,b");
    assert_eq!(entry_id("}a,b"), "}a");
}
