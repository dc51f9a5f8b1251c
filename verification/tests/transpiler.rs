use gq::language::builtins::builtins;
use gq::language::error::TranspileError;
use gq::language::transpile_program;

fn program(body: &[&str]) -> String {
    let mut s = String::from("((output, ...args)=>{");
    for line in body {
        s.push_str("\n    ");
        s.push_str(line);
    }
    s.push_str("\n})");
    s
}

#[test]
fn all_builtin_templates_parse() {
    let table = builtins().unwrap();
    let tokens: String = table.iter().map(|b| b.token).collect();
    assert_eq!(tokens, "([?r+-*/=u:$@");
}

#[test]
fn number_literal_goes_to_output() {
    assert_eq!(transpile_program("1").unwrap(), program(&["output(1?? null);"]));
}

#[test]
fn empty_program_is_an_empty_function() {
    assert_eq!(transpile_program("").unwrap(), "((output, ...args)=>{\n})");
}

#[test]
fn each_value_left_is_output_in_order() {
    assert_eq!(
        transpile_program("12 3").unwrap(),
        program(&["output(12?? null);", "output(3?? null);"])
    );
}

#[test]
fn parentheses_only_group_syntax() {
    assert_eq!(transpile_program("(1 2)").unwrap(), transpile_program("1 2").unwrap());
}

#[test]
fn addition_pops_top_first() {
    assert_eq!(
        transpile_program("1 2+").unwrap(),
        program(&["// ", "const $_a = add(2, 1);", "output($_a?? null);"])
    );
}

#[test]
fn missing_values_are_program_inputs() {
    assert_eq!(
        transpile_program("@").unwrap(),
        program(&[
            "// ",
            "// args[0]",
            "const [$_a,$_b,$_c] = [args[1],args[0],args[1]];",
            "output($_a?? null);",
            "output($_b?? null);",
            "output($_c?? null);",
        ])
    );
}

#[test]
fn array_collects_the_values_of_its_group() {
    assert_eq!(
        transpile_program("[(1 2)").unwrap(),
        program(&[
            "// ",
            "const $_c = [];",
            "$_c.push(1);",
            "$_c.push(2);",
            "const $_d = $_c;",
            "output($_d?? null);",
        ])
    );
}

#[test]
fn comma_outputs_the_top_value() {
    assert_eq!(transpile_program("1,").unwrap(), program(&["output(1?? null);"]));
    assert_eq!(transpile_program(",").unwrap(), program(&["output(args[0]?? null);"]));
}

#[test]
fn string_literals_become_json() {
    assert_eq!(transpile_program("\"hi\"").unwrap(), program(&["output(\"hi\"?? null);"]));
    assert_eq!(
        transpile_program("\"a\\\"b\"").unwrap(),
        program(&["output(\"a\\\"b\"?? null);"])
    );
    assert_eq!(
        transpile_program("\"a\nb\tc\u{1}\\\\\"").unwrap(),
        program(&["output(\"a\\nb\\tc\\u0001\\\\\"?? null);"])
    );
    assert_eq!(transpile_program("\"open").unwrap(), program(&["output(\"open\"?? null);"]));
}

#[test]
fn largest_number_literal() {
    assert_eq!(
        transpile_program("4294967295").unwrap(),
        program(&["output(4294967295?? null);"])
    );
    assert_eq!(transpile_program("4294967296"), Err(TranspileError::LiteralOverflow));
}

#[test]
fn refused_programs() {
    assert_eq!(transpile_program("1 "), Err(TranspileError::ModifierExpectedFunction));
    assert_eq!(transpile_program("x"), Err(TranspileError::UnexpectedToken('x')));
    assert_eq!(transpile_program("(1"), Err(TranspileError::ExpectedClosingParenthesis));
    assert_eq!(transpile_program("((1|2))"), Err(TranspileError::PipeInUnmodifiedContext));
    assert_eq!(transpile_program("(1|2)"), Err(TranspileError::UnexpectedToken(')')));
    assert_eq!(transpile_program("["), Err(TranspileError::ModifierExpectedFunction));
}

#[test]
fn every_program_is_one_arrow_function() {
    for code in ["", "1", "1 2+", "[(1 2)", "@,", "\"x\"", "(1 2 3)"] {
        let js = transpile_program(code).unwrap();
        assert!(js.starts_with("((output, ...args)=>{"));
        assert!(js.ends_with("})"));
    }
}

#[test]
fn conditional_with_two_branches() {
    let js = transpile_program("1?(2|3)").unwrap();
    assert!(js.starts_with("((output, ...args)=>{"));
    assert!(js.contains("to_bool(1)"));
    assert!(js.contains("if ("));
}

#[test]
fn no_program_lacks_an_output_handler() {
    for code in ["", ",", ",,,", "1?(2|3)", "[(,)", "?(,|,)", "(1 2", "x", "[[[,", "u(1,)"] {
        assert_ne!(transpile_program(code), Err(TranspileError::NoOutputHandler));
    }
}

#[test]
fn two_numbers_are_output_in_order() {
    assert_eq!(
        transpile_program("1 2").unwrap(),
        program(&["output(1?? null);", "output(2?? null);"])
    );
}
