use gq::output_writer::OutputWriter;
use gq::template::Output;
use gq::text::{decimal_string, is_whitespace, to_digit, chars_of, string_from_chars};
use gq::varnames::VarNames;
use std::collections::HashSet;

#[test]
fn var_names_start_with_single_letters() {
    let mut names = VarNames::new();
    let mut all = Vec::new();
    for _ in 0..53 {
        all.push(names.next().unwrap());
    }
    assert_eq!(all[0], "$_a");
    assert_eq!(all[1], "$_b");
    assert_eq!(all[25], "$_z");
    assert_eq!(all[26], "$_A");
    assert_eq!(all[51], "$_Z");
    assert_eq!(all[52], "$_ab");
}

#[test]
fn var_names_are_distinct() {
    let mut names = VarNames::default();
    let mut seen = HashSet::new();
    for _ in 0..5000 {
        let name = names.next().unwrap();
        assert!(seen.insert(name));
    }
}

#[test]
fn var_names_least_significant_letter_first() {
    let mut names = VarNames::new();
    let mut last = String::new();
    for _ in 0..(52 * 52 + 1) {
        last = names.next().unwrap();
    }
    // 52 * 52 = 2704 is written a, a, b: least significant digit first
    assert_eq!(last, "$_aab");
}

#[test]
fn writer_lays_out_lines() {
    let mut w = OutputWriter::new(String::new());
    w.write(Output::str("a"));
    w.write(Output::NewLine);
    w.write(Output::NewLine);
    w.write(Output::Indent);
    w.write(Output::str("b"));
    w.write(Output::Dedent);
    w.write(Output::NewLine);
    w.write(Output::str("c"));
    assert_eq!(w.text(), "a\n    b\nc");
    assert_eq!(w.into_text(), "a\n    b\nc");
}

#[test]
fn writer_dedent_stops_at_zero_and_drops_trailing_newline() {
    let mut w = OutputWriter::new(String::from("x"));
    w.write(Output::Dedent);
    w.write(Output::NewLine);
    w.write(Output::str("y"));
    w.write(Output::NewLine);
    assert_eq!(w.into_text(), "x\ny");
}

#[test]
fn writer_indents_each_level_by_four_spaces() {
    let mut w = OutputWriter::new(String::new());
    w.write(Output::Indent);
    w.write(Output::Indent);
    w.write(Output::NewLine);
    w.write(Output::str("z"));
    assert_eq!(w.into_text(), "\n        z");
}

#[test]
fn decimal_formatting() {
    assert_eq!(decimal_string(0), "0");
    assert_eq!(decimal_string(7), "7");
    assert_eq!(decimal_string(1234567890), "1234567890");
    assert_eq!(decimal_string(usize::MAX), format!("{}", usize::MAX));
}

#[test]
fn character_helpers() {
    assert!(is_whitespace(' '));
    assert!(is_whitespace('\n'));
    assert!(is_whitespace('\u{3000}'));
    assert!(!is_whitespace('a'));
    assert_eq!(to_digit('7'), Some(7));
    assert_eq!(to_digit('x'), None);
    let cs = chars_of("héllo");
    assert_eq!(cs, vec!['h', 'é', 'l', 'l', 'o']);
    assert_eq!(string_from_chars(&cs), "héllo");
}
