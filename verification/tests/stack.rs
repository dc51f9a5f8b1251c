use gq::language::builtin::{BracketContextFlags, MultiOutputBehavior, OutputHandler};
use gq::language::locals::LocalVars;
use gq::language::stack::Stack;
use gq::template::{Output, ProgramFragment, TemplateToken};

#[test]
fn push_then_pop_gives_the_value_back() {
    let mut s = Stack::new();
    let a = s.push().unwrap();
    assert_eq!(a, "$_a");
    assert_eq!(s.pop().unwrap(), "$_a");
    assert_eq!(s.push().unwrap(), "$_b");
}

#[test]
fn popping_an_empty_stack_reads_the_inputs() {
    let mut s = Stack::new();
    assert_eq!(s.pop().unwrap(), "args[0]");
    assert_eq!(s.pop().unwrap(), "args[1]");
}

#[test]
fn groups_open_and_close() {
    let mut s = Stack::new();
    s.push().unwrap();
    assert!(!s.has_group());
    s.push_group(LocalVars::new(), ProgramFragment::default(), None, BracketContextFlags::new());
    assert!(s.has_group());
    assert_eq!(s.push().unwrap(), "$_b");
    // the group below is read once the current one is empty
    assert_eq!(s.pop().unwrap(), "$_b");
    assert_eq!(s.pop().unwrap(), "$_a");
    s.push().unwrap();
    let g = s.pop_group();
    assert_eq!(g.stack, vec!["$_c".to_string()]);
    assert!(!s.has_group());
}

#[test]
fn a_group_that_does_not_pop_reads_below() {
    let mut s = Stack::new();
    s.push().unwrap();
    s.push_group(
        LocalVars::new(),
        ProgramFragment::default(),
        None,
        BracketContextFlags::new().set_no_pop(true),
    );
    assert_eq!(s.pop().unwrap(), "$_a");
    assert_eq!(s.pop().unwrap(), "args[0]");
    let g = s.pop_group();
    assert_eq!(g.no_pop_index, Some(2));
    assert_eq!(s.pop().unwrap(), "$_a");
}

#[test]
fn output_handler_in_force() {
    let mut s = Stack::new();
    let (h, _) = s.get_output_handler().unwrap();
    assert_eq!(h.inner.behavior, MultiOutputBehavior::FlattenAll);
    assert_eq!(h.inner.fragment[0], TemplateToken::str("output("));
    s.push_group(LocalVars::new(), ProgramFragment::default(), None, BracketContextFlags::new());
    let (h, _) = s.get_output_handler().unwrap();
    assert_eq!(h.inner.fragment[0], TemplateToken::str("output("));
    let handler = OutputHandler {
        fragment: vec![TemplateToken::InVar(0), TemplateToken::String(Output::NewLine)],
        behavior: MultiOutputBehavior::Array,
    };
    s.push_group(LocalVars::new(), ProgramFragment::default(), Some(handler), BracketContextFlags::new());
    let (h, _) = s.get_output_handler().unwrap();
    assert_eq!(h.inner.behavior, MultiOutputBehavior::Array);
    let all = s.output_handlers();
    assert_eq!(all.len(), 3);
    assert!(all[0].is_some());
    assert!(all[1].is_some());
    assert!(all[2].is_none());
}

#[test]
fn local_names_are_fresh() {
    let mut s = Stack::new();
    assert_eq!(s.local_var_name().unwrap(), "$_a");
    assert_eq!(s.push().unwrap(), "$_b");
}

#[test]
fn local_vars_latest_insert_wins() {
    let mut l = LocalVars::new();
    let k = "x".to_string();
    assert_eq!(l.get(&k), None);
    l.insert(k.clone(), "$_a".to_string());
    l.insert("y".to_string(), "$_b".to_string());
    l.insert(k.clone(), "$_c".to_string());
    assert_eq!(l.get(&k), Some(&"$_c".to_string()));
    assert_eq!(l.get(&"y".to_string()), Some(&"$_b".to_string()));
    let d = l.duplicate();
    assert_eq!(d.get(&k), Some(&"$_c".to_string()));
}

#[test]
fn unused_values_get_their_destructors_written() {
    let mut s = Stack::new();
    assert!(s.destruct_unused_vars().is_empty());
}

#[test]
fn a_handler_stays_in_force() {
    let mut s = Stack::new();
    assert!(s.get_output_handler().is_some());
    s.pop().unwrap();
    s.push().unwrap();
    s.push_group(LocalVars::new(), ProgramFragment::default(), None, BracketContextFlags::new());
    assert!(s.get_output_handler().is_some());
    s.pop().unwrap();
    s.local_var_name().unwrap();
    s.pop_group();
    assert!(s.get_output_handler().is_some());
}
