use gq::language::builtin::{BracketContextFlags, MultiOutputBehavior, OutputHandler};
use gq::language::error::TranspileError;
use gq::language::fragment::{
    dispose_bracket_handler, handle_group_output, write_comma, write_fragment, write_output_handler, write_tokens,
    write_variadic_fragment,
};
use gq::language::locals::LocalVars;
use gq::language::stack::{OutputHandlerInstance, Stack};
use gq::output_writer::OutputWriter;
use gq::template::{Output, ProgramFragment, TemplateToken};

fn t(s: &str) -> TemplateToken {
    TemplateToken::str(s)
}

fn instance(fragment: Vec<TemplateToken>, behavior: MultiOutputBehavior) -> OutputHandlerInstance {
    OutputHandlerInstance {
        inner: OutputHandler { fragment, behavior },
        max_variadic_outputs: None,
        child_variadic_outputs: None,
    }
}

fn strings(v: &[&str]) -> Vec<String> {
    v.iter().map(|s| s.to_string()).collect()
}

#[test]
fn tokens_take_their_variables() {
    let mut w = OutputWriter::new(String::new());
    let mut locals = LocalVars::new();
    locals.insert("l".to_string(), "$_z".to_string());
    let tokens = vec![
        TemplateToken::OutVar(0),
        t(" = "),
        TemplateToken::InVar(1),
        t(" + "),
        TemplateToken::LocalVar("l".to_string()),
    ];
    write_tokens(&mut w, &tokens, &locals, &strings(&["a", "b"]), &strings(&["o"])).unwrap();
    assert_eq!(w.into_text(), "o = b + $_z");
}

#[test]
fn unknown_variables_are_refused() {
    let mut w = OutputWriter::new(String::from("kept"));
    let locals = LocalVars::new();
    assert_eq!(
        write_tokens(&mut w, &vec![TemplateToken::InVar(1)], &locals, &strings(&["a"]), &vec![]),
        Err(TranspileError::UnknownVariable)
    );
    assert_eq!(
        write_tokens(&mut w, &vec![TemplateToken::LocalVar("q".to_string())], &locals, &vec![], &vec![]),
        Err(TranspileError::UnknownVariable)
    );
    assert_eq!(w.into_text(), "kept");
}

#[test]
fn output_handlers_may_not_define_outputs() {
    let mut w = OutputWriter::new(String::new());
    assert_eq!(
        write_output_handler(&mut w, &vec![TemplateToken::OutVar(0)], &vec![], &LocalVars::new()),
        Err(TranspileError::OutputHandlerOutVar)
    );
}

#[test]
fn handler_behaviours() {
    let locals = LocalVars::new();
    let f = vec![t("f("), TemplateToken::InVar(0), t(");")];

    let mut w = OutputWriter::new(String::new());
    let h = instance(f.clone_tokens(), MultiOutputBehavior::Array);
    assert_eq!(handle_group_output(&mut w, &h, &strings(&["a", "b"]), &locals), Ok(Some(2)));
    assert_eq!(w.into_text(), "f(a, b);");

    let mut w = OutputWriter::new(String::new());
    let h = instance(f.clone_tokens(), MultiOutputBehavior::FlattenAll);
    assert_eq!(handle_group_output(&mut w, &h, &strings(&["a", "b"]), &locals), Ok(None));
    assert_eq!(w.into_text(), "f(a);f(b);");

    let mut w = OutputWriter::new(String::new());
    let two = vec![TemplateToken::InVar(0), TemplateToken::InVar(1)];
    let h = instance(two.clone_tokens(), MultiOutputBehavior::OnlyFirst);
    assert_eq!(handle_group_output(&mut w, &h, &strings(&["a", "b", "c"]), &locals), Ok(None));
    assert_eq!(w.into_text(), "ab");

    let mut w = OutputWriter::new(String::new());
    assert_eq!(
        handle_group_output(&mut w, &h, &strings(&["a"]), &locals),
        Err(TranspileError::NotEnoughValues)
    );
    let h = instance(two.clone_tokens(), MultiOutputBehavior::FlattenAll);
    assert_eq!(handle_group_output(&mut w, &h, &strings(&["a"]), &locals), Err(TranspileError::HandlerArity));
    let h = instance(f.clone_tokens(), MultiOutputBehavior::HalfZip);
    assert_eq!(
        handle_group_output(&mut w, &h, &strings(&["a"]), &locals),
        Err(TranspileError::UnsupportedBehavior)
    );
}

trait CloneTokens {
    fn clone_tokens(&self) -> Vec<TemplateToken>;
}

impl CloneTokens for Vec<TemplateToken> {
    fn clone_tokens(&self) -> Vec<TemplateToken> {
        self.iter().map(|x| x.duplicate()).collect()
    }
}

#[test]
fn fragments_pop_push_and_defer_their_end() {
    let mut w = OutputWriter::new(String::new());
    let mut s = Stack::new();
    s.push_value("x".to_string());
    let f = ProgramFragment {
        init_tokens: vec![t("let "), TemplateToken::OutVar(0), t(" = -"), TemplateToken::InVar(0), t(";")],
        destruct_tokens: vec![t("end "), TemplateToken::OutVar(0)],
        arguments_popped: 1,
        arguments_pushed: 1,
    };
    write_fragment(&mut w, f, &mut s, &LocalVars::new()).unwrap();
    assert_eq!(w.text(), "let $_a = -x;");
    assert_eq!(s.current_group.stack, vec!["$_a".to_string()]);
    assert_eq!(s.current_group.destructors.len(), 1);
    // the value is still used, so the comma writes it and then the end
    write_comma(&mut w, &mut s).unwrap();
    assert_eq!(w.into_text(), "let $_a = -x;\noutput($_a?? null);\nend $_a");
    assert!(s.current_group.destructors.is_empty());
}

#[test]
fn variadic_fragments_push_one_value_per_output() {
    let mut w = OutputWriter::new(String::new());
    let mut s = Stack::new();
    let f = ProgramFragment {
        init_tokens: vec![t("const ["), TemplateToken::OutVar(0), t("] = r;")],
        destruct_tokens: vec![],
        arguments_popped: 0,
        arguments_pushed: 1,
    };
    write_variadic_fragment(&mut w, f, &mut s, &LocalVars::new(), 3).unwrap();
    assert_eq!(w.into_text(), "const [$_a, $_b, $_c] = r;");
    assert_eq!(s.current_group.stack.len(), 3);
    let g = ProgramFragment { init_tokens: vec![], destruct_tokens: vec![], arguments_popped: 0, arguments_pushed: 2 };
    let mut w = OutputWriter::new(String::new());
    assert_eq!(
        write_variadic_fragment(&mut w, g, &mut s, &LocalVars::new(), 1),
        Err(TranspileError::VariadicPushes)
    );
}

#[test]
fn closing_a_group_hands_its_values_on() {
    let mut w = OutputWriter::new(String::new());
    let mut s = Stack::new();
    let handler = OutputHandler {
        fragment: vec![t("h("), TemplateToken::InVar(0), t(")"), TemplateToken::String(Output::NewLine)],
        behavior: MultiOutputBehavior::FlattenAll,
    };
    let end = ProgramFragment {
        init_tokens: vec![t("done "), TemplateToken::OutVar(0)],
        destruct_tokens: vec![],
        arguments_popped: 0,
        arguments_pushed: 1,
    };
    s.push_group(LocalVars::new(), end, Some(handler), BracketContextFlags::new());
    s.push_value("1".to_string());
    s.push_value("2".to_string());
    let g = s.pop_group();
    dispose_bracket_handler(&mut w, g, &mut s).unwrap();
    assert_eq!(w.into_text(), "h(1)\nh(2)\ndone $_a");
    assert_eq!(s.current_group.stack, vec!["$_a".to_string()]);
}
