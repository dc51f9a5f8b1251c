use gq::language::builtins::builtins;
use gq::language::letters::{builtin_columns, get_builtin_tokens};

#[test]
fn table_of_available_characters() {
    let table = builtins().unwrap();
    assert!(builtin_columns(&table).is_some());
    let text = get_builtin_tokens(&table);
    let lines: Vec<&str> = text.lines().collect();
    assert_eq!(lines[0], "| Upper Case | Lower Case | Symbols |");
    assert_eq!(lines[1], "| ---------- | ---------- | ------- |");
    assert_eq!(lines.len(), 2 + 32);
    assert_eq!(lines[2], "| a | A | \\! |");
    assert_eq!(lines[3], "| b | B | \\\" Start String |");
    assert_eq!(lines[9], "| h | H | \\(  |");
    assert_eq!(lines[13], "| l | L | \\, comma |");
    assert_eq!(lines[19], "| r  | R | \\< |");
    assert_eq!(lines[26], "| y | Y | \\] end group |");
    assert_eq!(lines[33], "|  |  | \\~ |");
}
