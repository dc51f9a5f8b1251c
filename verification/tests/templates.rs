use gq::dsl::{dsl_to_half_tokens, dsl_to_tokens, index_or_new, skip_indents, DslError, Variables};
use gq::template::{HighestVarNumbers, Output, ProgramFragment, TemplateToken};

fn text(s: &str) -> TemplateToken {
    TemplateToken::String(Output::String(s.to_string()))
}

#[test]
fn fragment_splits_at_inner() {
    let f = dsl_to_tokens("\n    const {x:out} = {y:in};\n    {inner}\n").unwrap();
    assert_eq!(
        f.init_tokens,
        vec![
            text("const "),
            TemplateToken::OutVar(0),
            text(" = "),
            TemplateToken::InVar(0),
            text(";"),
            TemplateToken::String(Output::NewLine),
        ]
    );
    assert_eq!(f.destruct_tokens, vec![TemplateToken::String(Output::NewLine)]);
    assert_eq!(f.arguments_popped, 1);
    assert_eq!(f.arguments_pushed, 1);
}

#[test]
fn repeated_variables_share_an_index() {
    let f = dsl_to_tokens("{a:in}{b:in}{a:in}{inner}{c:out}{a:in}").unwrap();
    assert_eq!(
        f.init_tokens,
        vec![TemplateToken::InVar(0), TemplateToken::InVar(1), TemplateToken::InVar(0)]
    );
    assert_eq!(
        f.destruct_tokens,
        vec![TemplateToken::OutVar(0), TemplateToken::InVar(0), TemplateToken::String(Output::NewLine)]
    );
    assert_eq!(f.arguments_popped, 2);
    assert_eq!(f.arguments_pushed, 1);
}

#[test]
fn half_fragment_with_local() {
    let t = dsl_to_half_tokens("a {x:local} b").unwrap();
    assert_eq!(
        t,
        vec![
            text("a "),
            TemplateToken::LocalVar("x".to_string()),
            text(" b"),
            TemplateToken::String(Output::NewLine),
        ]
    );
}

#[test]
fn indentation_changes_become_tokens() {
    let t = dsl_to_half_tokens("a\n    b\nc").unwrap();
    assert_eq!(
        t,
        vec![
            text("a"),
            TemplateToken::String(Output::Indent),
            TemplateToken::String(Output::NewLine),
            text("b"),
            TemplateToken::String(Output::Dedent),
            TemplateToken::String(Output::NewLine),
            text("c"),
            TemplateToken::String(Output::NewLine),
        ]
    );
}

#[test]
fn doubled_braces_are_kept_in_the_text() {
    let t = dsl_to_half_tokens("a {{b}} c").unwrap();
    assert_eq!(
        t,
        vec![text("a "), text("{b"), text("} c"), TemplateToken::String(Output::NewLine)]
    );
}

#[test]
fn template_errors() {
    assert_eq!(dsl_to_half_tokens("{x:bad}"), Err(DslError::UnexpectedVariableName));
    assert_eq!(dsl_to_half_tokens("a } b"), Err(DslError::UnexpectedClosingBrace));
    assert_eq!(dsl_to_half_tokens("{x:in"), Err(DslError::UnterminatedSubstitution));
    assert_eq!(dsl_to_half_tokens("a {inner} b"), Err(DslError::HalfFragmentHasMiddle));
    assert_eq!(dsl_to_tokens("{inner} {inner} x"), Err(DslError::MoreThanOneInner));
}

#[test]
fn fragment_without_inner_has_no_destruct_part() {
    let f = dsl_to_tokens("x").unwrap();
    assert_eq!(f.init_tokens, vec![text("x"), TemplateToken::String(Output::NewLine)]);
    assert_eq!(f.destruct_tokens, Vec::<TemplateToken>::new());
}

#[test]
fn index_or_new_numbers_names_in_order() {
    let mut items = vec!["a".to_string(), "b".to_string()];
    assert_eq!(index_or_new(&mut items, &"b".to_string()), 1);
    assert_eq!(items.len(), 2);
    assert_eq!(index_or_new(&mut items, &"c".to_string()), 2);
    assert_eq!(items, vec!["a".to_string(), "b".to_string(), "c".to_string()]);
    assert_eq!(index_or_new(&mut items, &"c".to_string()), 2);
    assert_eq!(items.len(), 3);
}

#[test]
fn variables_keep_ins_and_outs_apart() {
    let mut v = Variables::default();
    assert_eq!(v.lookup_in(&"x".to_string()), 0);
    assert_eq!(v.lookup_out(&"x".to_string()), 0);
    assert_eq!(v.lookup_in(&"y".to_string()), 1);
    assert_eq!(v.lookup_in(&"x".to_string()), 0);
    assert_eq!(v.ins.len(), 2);
    assert_eq!(v.outs.len(), 1);
}

#[test]
fn skip_indents_counts_spaces_of_last_line() {
    let s: Vec<char> = "  \n   x".chars().collect();
    let mut pos = 0;
    assert_eq!(skip_indents(&s, &mut pos), 3);
    assert_eq!(pos, 6);
}

#[test]
fn token_helpers() {
    assert_eq!(Output::str("q"), Output::String("q".to_string()));
    assert_eq!(TemplateToken::str("q"), text("q"));
    assert_eq!(TemplateToken::LocalVar("n".to_string()).get_local_var_names(), Some("n".to_string()));
    assert_eq!(TemplateToken::InVar(3).get_local_var_names(), None);
    let tokens = vec![TemplateToken::InVar(2), TemplateToken::OutVar(0), TemplateToken::InVar(0)];
    assert_eq!(tokens.get_number_of_input_vars(), 3);
    assert_eq!(tokens.get_number_of_output_vars(), 1);
    let none: Vec<TemplateToken> = Vec::new();
    assert_eq!(none.get_number_of_input_vars(), 0);
}

#[test]
fn fragment_local_names_and_inputs() {
    let f = ProgramFragment {
        init_tokens: vec![TemplateToken::LocalVar("a".to_string()), TemplateToken::InVar(0)],
        destruct_tokens: vec![TemplateToken::LocalVar("b".to_string()), TemplateToken::InVar(1)],
        arguments_popped: 2,
        arguments_pushed: 0,
    };
    assert_eq!(f.get_local_var_names(), vec!["a".to_string(), "b".to_string()]);
    assert!(f.uses_all_ins());
    let g = ProgramFragment {
        init_tokens: vec![TemplateToken::InVar(0)],
        destruct_tokens: vec![],
        arguments_popped: 2,
        arguments_pushed: 0,
    };
    assert!(!g.uses_all_ins());
    assert_eq!(ProgramFragment::default().arguments_popped, 0);
}

#[test]
fn plain_text_is_one_text_token() {
    assert_eq!(dsl_to_half_tokens("abc def;").unwrap(), vec![text("abc def;"), TemplateToken::String(Output::NewLine)]);
}
