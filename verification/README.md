# gq

A transpiler from a small stack-based golfing language to JavaScript,
written in Verus.

A program is a sequence of commands: number and string literals, which are
pushed on a stack of values; builtins, each invoked by one character, which
pop values, push fresh variables and write JavaScript; the comma, which hands
the top value to the output; and parenthesised groups, where `|` ends one
group and opens the next, so that one builtin can take several. The result
is one arrow function `((output, ...args)=>{ ... })`; values missing from the
stack are read from `args`.

The builtins are written in a small template language (`{name:in}`,
`{name:out}`, `{name:local}`, `{inner}`), which is parsed when the table of
builtins is built.

Layout:

- `src/text.rs`, `src/varnames.rs`, `src/output_writer.rs`: characters and
  numbers, fresh variable names, and the writer that lays out the code.
- `src/template.rs`, `src/dsl.rs`: template tokens and the template parser.
- `src/language/`: the builtins and their table, the lexer, the value stack,
  the code generation of fragments, groups and commas, the transpiler itself
  (`mod.rs`), the table of the characters of the language, and
  `template_table.rs`, a proof that every template of the builtins parses.
- `tests/`: tests of each part on concrete programs and templates.
- `app/`: the command-line front end, which writes `available_letters.md`
  and transpiles the programs of `test_cases/test_cases.yaml`.

Every function of `src/` is verified against a specification stated over
mathematical models (`Seq`, `Map` and views of each type), except two
trusted wrappers whose contracts are taken on trust: `text::push_char`,
which calls `String::push`, and `language::json_quote`, which calls
`serde_json::to_string`. The laws of the
library, such as that every command leaves the groups balanced and that the
output only grows, are proof functions next to the code they are about.
