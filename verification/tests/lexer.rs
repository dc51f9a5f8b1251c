use gq::language::builtins::builtins;
use gq::language::error::TranspileError;
use gq::language::lexer::{parse, LexerValue, Literal, StackMovement};

fn chars(s: &str) -> Vec<char> {
    s.chars().collect()
}

fn token(v: &LexerValue) -> String {
    match v {
        LexerValue::Builtin(b) => b.token.to_string(),
        LexerValue::Comma => ",".to_string(),
        LexerValue::Group(vs) => format!("({})", vs.iter().map(token).collect::<Vec<_>>().join(" ")),
        LexerValue::Literal(Literal::Integer(n)) => n.to_string(),
        LexerValue::Literal(Literal::String(s)) => format!("{:?}", s),
    }
}

fn lex(s: &str) -> Result<String, TranspileError> {
    let table = builtins().unwrap();
    let code = chars(s);
    parse(&code, &table).map(|vs| vs.iter().map(token).collect::<Vec<_>>().join(" "))
}

#[test]
fn lexes_literals_builtins_and_commas() {
    assert_eq!(lex("1 2+").unwrap(), "1 2 +");
    assert_eq!(lex("12+,").unwrap(), "12 + ,");
    assert_eq!(lex("\"a b\":").unwrap(), "\"a b\" :");
}

#[test]
fn lexes_groups() {
    assert_eq!(lex("(1 2)").unwrap(), "(1 2)");
    assert_eq!(lex("(1|2)").unwrap(), "(1) (2)");
    assert_eq!(lex("[(1(2))").unwrap(), "[ (1 (2))");
}

#[test]
fn lexer_errors() {
    assert_eq!(lex(")"), Err(TranspileError::UnbalancedGroup));
    assert_eq!(lex("|"), Err(TranspileError::UnbalancedGroup));
    assert_eq!(lex("(1"), Err(TranspileError::ExpectedClosingParenthesis));
    assert_eq!(lex("1 x"), Err(TranspileError::UnexpectedToken('x')));
    assert_eq!(lex("99999999999"), Err(TranspileError::LiteralOverflow));
}

#[test]
fn stack_movements() {
    let table = builtins().unwrap();
    let code = chars("+,1(1 2+)[(1 2)");
    let vs = parse(&code, &table).unwrap();
    assert_eq!(vs.len(), 6);
    let mut pos = 0;
    assert_eq!(vs[0].get_stack_movement(&vs, &mut pos), Some(StackMovement { pops: 2, pushes: 1 }));
    assert_eq!(vs[1].get_stack_movement(&vs, &mut pos), Some(StackMovement { pops: 1, pushes: 0 }));
    assert_eq!(vs[2].get_stack_movement(&vs, &mut pos), Some(StackMovement { pops: 0, pushes: 1 }));
    assert_eq!(vs[3].get_stack_movement(&vs, &mut pos), Some(StackMovement { pops: 0, pushes: 1 }));
    let mut pos = 5;
    assert_eq!(vs[4].get_stack_movement(&vs, &mut pos), Some(StackMovement { pops: 0, pushes: 1 }));
    assert_eq!(pos, 6);
    assert_eq!(vs[4].get_stack_movement(&vs, &mut pos), None);
    let code = chars("[(1 2)");
    let vs = parse(&code, &table).unwrap();
    let mut pos = 1;
    assert_eq!(vs[0].get_stack_movement(&vs, &mut pos), Some(StackMovement { pops: 0, pushes: 1 }));
    assert_eq!(pos, 2);
}

#[test]
fn largest_final_stack_size_of_brackets() {
    let table = builtins().unwrap();
    let array = &table[1];
    let code = chars("(1+)");
    let vs = parse(&code, &table).unwrap();
    let mut pos = 0;
    assert_eq!(array.get_bracket_largest_final_stack_size(&vs, &mut pos), Some(1));
    assert_eq!(pos, 1);
    let mut pos = 1;
    assert_eq!(array.get_bracket_largest_final_stack_size(&vs, &mut pos), None);
}

#[test]
fn builtin_local_names_and_inputs() {
    let table = builtins().unwrap();
    let group = &table[0];
    assert_eq!(
        group.get_local_var_names(),
        vec!["wrapper".to_string(), "output".to_string(), "wrapper".to_string(), "output".to_string()]
    );
    assert_eq!(
        group.bracket_handlers[0].get_local_var_names(),
        vec!["output".to_string(), "wrapper".to_string(), "output".to_string()]
    );
    assert!(group.uses_all_ins());
    let plus = &table[4];
    assert_eq!(plus.token, '+');
    assert!(plus.uses_all_ins());
    assert_eq!(plus.template.arguments_popped, 2);
    assert_eq!(plus.template.arguments_pushed, 1);
}

#[test]
fn group_movement_composes_from_its_parts() {
    let table = builtins().unwrap();
    let movement_of = |s: &str| {
        let code = chars(s);
        let vs = parse(&code, &table).unwrap();
        let mut pos = 1;
        vs[0].get_stack_movement(&vs, &mut pos).unwrap()
    };
    let a = movement_of("(1 1)");
    let b = movement_of("(, , ,)");
    let c = movement_of("(1 1 , , ,)");
    assert_eq!(a, StackMovement { pops: 0, pushes: 2 });
    assert_eq!(b, StackMovement { pops: 3, pushes: 0 });
    assert_eq!(c, StackMovement { pops: a.pops + b.pops.saturating_sub(a.pushes), pushes: a.pushes.saturating_sub(b.pops) + b.pushes });
    assert_eq!(c, StackMovement { pops: 1, pushes: 0 });
}
