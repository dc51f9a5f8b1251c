//! The transpiler: lexing programs, the builtins, the value stack and the
//! code generator.

pub mod error;
pub mod locals;
pub mod builtin;
pub mod stack;
pub mod fragment;
pub mod lexer;
pub mod builtins;
pub mod letters;
pub mod template_table;

use vstd::prelude::*;
use crate::text::{decimal, decimal_string, is_whitespace, is_whitespace_spec, chars_of};
use crate::language::error::TranspileError;
use crate::language::lexer::{
    literal_at, lemma_literal_at_pos, lemma_literal_at_error, Literal, LiteralModel, find_builtin, table_model,
    find_builtin_index,
};
use crate::template::{Output, OutputModel};
use crate::output_writer::{OutputWriter, WriterModel, write_step, extends, lemma_extends_trans, lemma_write_step_appends};
use crate::text::push_string;
use crate::language::builtin::{Builtin, BuiltinModel, BracketModel, builtin_local_names, copy_handler};
use crate::language::locals::LocalVars;
use crate::language::stack::{Stack, StackModel, GroupModel, output_handler_spec, local_var_name_spec, new_group, new_stack,
    open_group_spec, close_group_spec, has_root_handler, lemma_handlers_kept_root, lemma_open_group_keeps_root,
    lemma_close_group_keeps_root, lemma_handler_in_force, lemma_new_stack_has_root_handler,
};
use crate::language::builtins::{builtins, build_all, builtin_sources_spec};
use crate::language::fragment::{
    dispose_spec, write_comma_spec, write_fragment_spec, dispose_bracket_handler, write_comma, write_fragment,
    lemma_dispose_keeps_groups, lemma_write_comma_keeps_groups, lemma_write_fragment_keeps_groups,
    lemma_dispose_appends, lemma_write_comma_appends, lemma_write_fragment_appends, lemma_dispose_keeps_handlers,
    lemma_write_comma_keeps_handlers, lemma_write_fragment_keeps_handlers, lacks_handler, lemma_dispose_has_handler,
    lemma_write_comma_has_handler, lemma_write_fragment_error,
};

verus! {

// ---------------------------------------------------------------------------
// JSON string literals

/// The lower-case hexadecimal digit of `d`, for `d < 16`.
pub open spec fn hex_digit(d: u32) -> char {
    if d < 10 {
        ((d + 48) as u8) as char
    } else {
        ((d + 87) as u8) as char
    }
}

/// How `serde_json` writes one character inside a string: `"` and `\`
/// behind a backslash, the control characters with a short escape as
/// `\b`, `\t`, `\n`, `\f` and `\r`, the other control characters below
/// `0x20` as `\u00` and two lower-case hexadecimal digits, and every other
/// character as it is.
pub open spec fn json_escape_char(c: char) -> Seq<char> {
    if c == '"' {
        seq!['\\', '"']
    } else if c == '\\' {
        seq!['\\', '\\']
    } else if c == '\u{8}' {
        seq!['\\', 'b']
    } else if c == '\t' {
        seq!['\\', 't']
    } else if c == '\n' {
        seq!['\\', 'n']
    } else if c == '\u{c}' {
        seq!['\\', 'f']
    } else if c == '\r' {
        seq!['\\', 'r']
    } else if (c as u32) < 0x20 {
        seq!['\\', 'u', '0', '0', hex_digit((c as u32) / 16), hex_digit((c as u32) % 16)]
    } else {
        seq![c]
    }
}

/// The escaped characters of `s`, in order.
pub open spec fn json_escape(s: Seq<char>) -> Seq<char>
    decreases s.len(),
{
    if s.len() == 0 {
        Seq::empty()
    } else {
        json_escape(s.drop_last()) + json_escape_char(s.last())
    }
}

/// `s` as a JSON string: its escaped characters between double quotes.
pub open spec fn json_string(s: Seq<char>) -> Seq<char> {
    seq!['"'] + json_escape(s) + seq!['"']
}

/// Calls `serde_json::to_string` on a string. The serialiser writes the
/// string between double quotes with each character escaped as
/// [`json_escape_char`] says; serialising a `String` does not fail.
#[verifier::external_body]
fn json_quote(s: &String) -> (r: String)
    ensures
        r@ == json_string(s@),
{
    serde_json::to_string(s).unwrap()
}

// ---------------------------------------------------------------------------
// Reading the program

/// The JavaScript text of a literal: a string as a JSON string, a number in
/// decimal.
pub open spec fn literal_text(l: LiteralModel) -> Seq<char> {
    match l {
        LiteralModel::Text(s) => json_string(s),
        LiteralModel::Integer(v) => decimal(v as nat),
    }
}

/// The position of the first character at or after `p` that is not
/// whitespace.
pub open spec fn skip_whitespace(code: Seq<char>, p: int) -> int
    decreases code.len() - p,
{
    if 0 <= p < code.len() && is_whitespace_spec(code[p]) {
        skip_whitespace(code, p + 1)
    } else {
        p
    }
}

/// Skipping whitespace moves forward and stays within the program.
pub proof fn lemma_skip_whitespace(code: Seq<char>, p: int)
    ensures
        p <= skip_whitespace(code, p),
        0 <= p <= code.len() ==> skip_whitespace(code, p) <= code.len(),
        skip_whitespace(code, p) > p ==> p >= 0,
    decreases code.len() - p,
{
    if 0 <= p < code.len() && is_whitespace_spec(code[p]) {
        lemma_skip_whitespace(code, p + 1);
    }
}

/// Whether the command at `p` (after whitespace) opens a group, and where
/// it goes on: after a `|` every command does; otherwise a `(` does, and is
/// consumed. A modifier with nothing after it is refused.
pub open spec fn start_group_spec(code: Seq<char>, p: int, previous_was_pipe: bool) -> Result<(bool, int), TranspileError> {
    if previous_was_pipe {
        Ok((true, p))
    } else if p < 0 || p >= code.len() {
        Err(TranspileError::ModifierExpectedFunction)
    } else if code[p] == '(' {
        Ok((true, p + 1))
    } else {
        Ok((false, p))
    }
}

fn skip_whitespace_exec(code: &[char], pos: &mut usize)
    requires
        *old(pos) <= code@.len(),
    ensures
        *final(pos) == skip_whitespace(code@, *old(pos) as int),
{
    while *pos < code.len() && is_whitespace(code[*pos])
        invariant
            *old(pos) <= *pos <= code@.len(),
            skip_whitespace(code@, *pos as int) == skip_whitespace(code@, *old(pos) as int),
        decreases code@.len() - *pos,
    {
        *pos = *pos + 1;
    }
}

/// Decides whether the command at `*pos` opens a group: see
/// [`start_group_spec`].
fn should_start_group(code: &[char], pos: &mut usize, previous_was_pipe: bool) -> (r: Result<bool, TranspileError>)
    requires
        *old(pos) <= code@.len(),
    ensures
        match start_group_spec(code@, *old(pos) as int, previous_was_pipe) {
            Ok((b, p)) => r == Ok::<bool, TranspileError>(b) && *final(pos) == p,
            Err(e) => r == Err::<bool, TranspileError>(e),
        },
{
    if previous_was_pipe {
        return Ok(true);
    }
    if *pos >= code.len() {
        return Err(TranspileError::ModifierExpectedFunction);
    }
    if code[*pos] == '(' {
        *pos = *pos + 1;
        Ok(true)
    } else {
        Ok(false)
    }
}

/// Reads the literal at `*pos`, if one starts there, as JavaScript text.
fn parse_literal(code: &[char], pos: &mut usize) -> (r: Result<Option<String>, TranspileError>)
    requires
        *old(pos) <= code@.len(),
    ensures
        match literal_at(code@, *old(pos) as int) {
            Some(Ok((l, e))) => r matches Ok(Some(t)) && t@ == literal_text(l) && *final(pos) == e,
            Some(Err(e)) => r == Err::<Option<String>, TranspileError>(e),
            None => r matches Ok(None) && *final(pos) == *old(pos),
        },
{
    match lexer::parse_literal(code, pos) {
        Err(e) => Err(e),
        Ok(None) => Ok(None),
        Ok(Some(Literal::String(s))) => Ok(Some(json_quote(&s))),
        Ok(Some(Literal::Integer(v))) => Ok(Some(decimal_string(v as usize))),
    }
}

// ---------------------------------------------------------------------------
// What a command does

/// Where a command leaves the transpiler: the position after it, the writer
/// and the stack, and whether it ended on a `|`.
pub struct CommandEnd {
    pub pos: int,
    pub writer: WriterModel,
    pub stack: StackModel,
    pub pipe: bool,
}

/// Fresh names for the local variables `names`, handed out in order; a name
/// that repeats is mapped to the last one handed out for it.
pub open spec fn fresh_locals(s: StackModel, names: Seq<Seq<char>>) -> Result<(StackModel, Map<Seq<char>, Seq<char>>), TranspileError>
    decreases names.len(),
{
    if names.len() == 0 {
        Ok((s, Map::empty()))
    } else {
        match fresh_locals(s, names.drop_last()) {
            Err(e) => Err(e),
            Ok((s1, m)) => match local_var_name_spec(s1) {
                Err(e) => Err(e),
                Ok((s2, v)) => Ok((s2, m.insert(names.last(), v))),
            },
        }
    }
}

/// The stack with a group opened for bracket handler `b`.
pub open spec fn open_bracket(s: StackModel, locals: Map<Seq<char>, Seq<char>>, b: BracketModel) -> StackModel {
    open_group_spec(s, new_group(locals, b.fragment, b.handler, b.flags))
}

/// The stack with a group opened for each of `bs`, the last first, so that
/// the group of the first is on top.
pub open spec fn open_brackets(s: StackModel, locals: Map<Seq<char>, Seq<char>>, bs: Seq<BracketModel>) -> StackModel
    decreases bs.len(),
{
    if bs.len() == 0 {
        s
    } else {
        open_bracket(open_brackets(s, locals, bs.subrange(1, bs.len() as int)), locals, bs[0])
    }
}

/// Orders the calls of the command functions below on one position: a
/// command after a `|` comes before the group it opens, which comes before
/// the commands in it.
pub open spec fn rank(previous_was_pipe: bool) -> int {
    if previous_was_pipe {
        3
    } else {
        1
    }
}

/// One command at `pos`, after whitespace: a group (opened by `(`, or by the
/// `|` before it), a literal, which is pushed as JavaScript text, a comma,
/// or a builtin. A character that is none of these is refused.
pub open spec fn command_spec(
    code: Seq<char>,
    table: Seq<BuiltinModel>,
    pos: int,
    w: WriterModel,
    s: StackModel,
    previous_was_pipe: bool,
) -> Result<CommandEnd, TranspileError>
    decreases code.len() - pos, rank(previous_was_pipe), 0int,
{
    let p0 = skip_whitespace(code, pos);
    proof {
        lemma_skip_whitespace(code, pos);
    }
    match start_group_spec(code, p0, previous_was_pipe) {
        Err(e) => Err(e),
        Ok((true, p1)) => group_spec(code, table, p1, w, s),
        Ok((false, _)) => match literal_at(code, p0) {
            Some(Err(e)) => Err(e),
            Some(Ok((l, e))) => Ok(CommandEnd {
                pos: e,
                writer: w,
                stack: StackModel { current: GroupModel { stack: s.current.stack.push(literal_text(l)), ..s.current }, ..s },
                pipe: false,
            }),
            None => if code[p0] == ',' {
                match write_comma_spec(w, s) {
                    Err(e) => Err(e),
                    Ok((w1, s1)) => Ok(CommandEnd { pos: p0 + 1, writer: w1, stack: s1, pipe: false }),
                }
            } else {
                match find_builtin(table, code[p0]) {
                    None => Err(TranspileError::UnexpectedToken(code[p0])),
                    Some(i) => builtin_spec(code, table, p0, w, s, table[i]),
                }
            },
        },
    }
}

/// The commands of a group from `p` on, up to the `)` that closes it or the
/// `|` that closes it and opens the next one. A command in it may not end
/// on a `|`, and the program may not end inside it.
pub open spec fn group_spec(
    code: Seq<char>,
    table: Seq<BuiltinModel>,
    p: int,
    w: WriterModel,
    s: StackModel,
) -> Result<CommandEnd, TranspileError>
    decreases code.len() - p, 2int, 0int,
{
    if p < 0 || p >= code.len() {
        Err(TranspileError::ExpectedClosingParenthesis)
    } else if code[p] == '|' {
        Ok(CommandEnd { pos: p + 1, writer: w, stack: s, pipe: true })
    } else if code[p] == ')' {
        Ok(CommandEnd { pos: p + 1, writer: w, stack: s, pipe: false })
    } else {
        match command_spec(code, table, p, w, s, false) {
            Err(e) => Err(e),
            Ok(st) => if st.pipe {
                Err(TranspileError::PipeInUnmodifiedContext)
            } else if st.pos <= p || st.pos > code.len() {
                // never taken: a command always moves forward (lemma_command_balanced)
                Err(TranspileError::ExpectedClosingParenthesis)
            } else {
                group_spec(code, table, st.pos, st.writer, st.stack)
            },
        }
    }
}

/// The builtin `b` at `p`: fresh names for its local variables, a comment
/// with its name, its fragment, then one group per bracket handler, each
/// filled by the command that follows and closed.
pub open spec fn builtin_spec(
    code: Seq<char>,
    table: Seq<BuiltinModel>,
    p: int,
    w: WriterModel,
    s: StackModel,
    b: BuiltinModel,
) -> Result<CommandEnd, TranspileError>
    decreases code.len() - p, 0int, b.brackets.len() + 1,
{
    match fresh_locals(s, builtin_local_names(b)) {
        Err(e) => Err(e),
        Ok((s1, locals)) => {
            let w1 = write_step(write_step(w, OutputModel::Text("// "@ + b.name)), OutputModel::NewLine);
            match write_fragment_spec(w1, b.template, s1, locals) {
                Err(e) => Err(e),
                Ok((w2, s2)) => brackets_spec(
                    code,
                    table,
                    p,
                    p + 1,
                    w2,
                    open_brackets(s2, locals, b.brackets),
                    b.brackets.len(),
                    false,
                ),
            }
        },
    }
}

/// The last `remaining` bracket handlers of the builtin at `floor`, from
/// `pos` on: each takes the next command, which may follow a `|` that ended
/// the one before, and its group is then closed.
pub open spec fn brackets_spec(
    code: Seq<char>,
    table: Seq<BuiltinModel>,
    floor: int,
    pos: int,
    w: WriterModel,
    s: StackModel,
    remaining: nat,
    previous_was_pipe: bool,
) -> Result<CommandEnd, TranspileError>
    decreases code.len() - floor, 0int, remaining,
{
    if remaining == 0 {
        Ok(CommandEnd { pos, writer: w, stack: s, pipe: false })
    } else if pos <= floor || pos > code.len() {
        // never taken: commands always move forward (lemma_command_balanced)
        Err(TranspileError::ExpectedClosingParenthesis)
    } else {
        match command_spec(code, table, pos, w, s, previous_was_pipe) {
            Err(e) => Err(e),
            Ok(st) => match dispose_spec(st.writer, st.stack.current, close_group_spec(st.stack)) {
                Err(e) => Err(e),
                Ok((w1, s1)) => brackets_spec(code, table, floor, st.pos, w1, s1, (remaining - 1) as nat, st.pipe),
            },
        }
    }
}

proof fn lemma_fresh_locals_err(s: StackModel, names: Seq<Seq<char>>, i: int)
    requires
        0 <= i <= names.len(),
        fresh_locals(s, names.take(i)) is Err,
    ensures
        fresh_locals(s, names) == fresh_locals(s, names.take(i)),
    decreases names.len() - i,
{
    if i < names.len() {
        assert(names.take(i + 1).drop_last() == names.take(i));
        lemma_fresh_locals_err(s, names, i + 1);
    } else {
        assert(names.take(i) == names);
    }
}

proof fn lemma_fresh_locals_keeps_groups(s: StackModel, names: Seq<Seq<char>>)
    ensures
        fresh_locals(s, names) matches Ok((s2, _)) ==> s2.frames == s.frames && s2.current == s.current && s.names
            <= s2.names,
    decreases names.len(),
{
    if names.len() > 0 {
        lemma_fresh_locals_keeps_groups(s, names.drop_last());
    }
}

proof fn lemma_fresh_locals_error(s: StackModel, names: Seq<Seq<char>>)
    ensures
        !lacks_handler(fresh_locals(s, names)),
    decreases names.len(),
{
    if names.len() > 0 {
        lemma_fresh_locals_error(s, names.drop_last());
    }
}

proof fn lemma_open_brackets_groups(s: StackModel, locals: Map<Seq<char>, Seq<char>>, bs: Seq<BracketModel>)
    ensures
        open_brackets(s, locals, bs).frames.len() == s.frames.len() + bs.len(),
        open_brackets(s, locals, bs).names == s.names,
        has_root_handler(s) ==> has_root_handler(open_brackets(s, locals, bs)),
    decreases bs.len(),
{
    if bs.len() > 0 {
        let rest = bs.subrange(1, bs.len() as int);
        lemma_open_brackets_groups(s, locals, rest);
        if has_root_handler(s) {
            lemma_open_group_keeps_root(
                open_brackets(s, locals, rest),
                new_group(locals, bs[0].fragment, bs[0].handler, bs[0].flags),
            );
        }
    }
}

/// Reads and writes one command: see [`command_spec`]. A command that
/// succeeds moves forward and leaves as many groups open as it found.
fn parse_single_command(
    code: &[char],
    pos: &mut usize,
    builtins: &Vec<Builtin>,
    stack: &mut Stack,
    output: &mut OutputWriter,
    previous_was_pipe: bool,
) -> (r: Result<bool, TranspileError>)
    requires
        *old(pos) <= code@.len(),
    ensures
        match command_spec(code@, table_model(builtins@), *old(pos) as int, old(output)@, old(stack)@, previous_was_pipe) {
            Ok(st) => r == Ok::<bool, TranspileError>(st.pipe) && *final(pos) == st.pos && final(output)@ == st.writer
                && final(stack)@ == st.stack,
            Err(e) => r == Err::<bool, TranspileError>(e),
        },
        r is Ok ==> *old(pos) < *final(pos) <= code@.len() && final(stack)@.frames.len() == old(stack)@.frames.len(),
    decreases code@.len() - *old(pos), rank(previous_was_pipe), 0int,
{
    let ghost table = table_model(builtins@);
    let ghost start = *pos as int;
    let ghost w0 = output@;
    let ghost s0 = stack@;
    skip_whitespace_exec(code, pos);
    proof {
        lemma_skip_whitespace(code@, start);
    }
    let ghost p0 = *pos as int;
    let opens = match should_start_group(code, pos, previous_was_pipe) {
        Ok(b) => b,
        Err(e) => {
            return Err(e);
        },
    };
    if opens {
        loop
            invariant
                *pos <= code@.len(),
                p0 <= *pos,
                start <= p0,
                start == *old(pos),
                w0 == old(output)@,
                s0 == old(stack)@,
                table == table_model(builtins@),
                previous_was_pipe || p0 < *pos,
                stack@.frames.len() == s0.frames.len(),
                group_spec(code@, table, *pos as int, output@, stack@) == command_spec(
                    code@,
                    table,
                    start,
                    w0,
                    s0,
                    previous_was_pipe,
                ),
            decreases code@.len() - *pos,
        {
            if *pos >= code.len() {
                return Err(TranspileError::ExpectedClosingParenthesis);
            }
            let c = code[*pos];
            if c == '|' {
                *pos = *pos + 1;
                return Ok(true);
            }
            if c == ')' {
                *pos = *pos + 1;
                return Ok(false);
            }
            match parse_single_command(code, pos, builtins, stack, output, false) {
                Err(e) => {
                    return Err(e);
                },
                Ok(true) => {
                    return Err(TranspileError::PipeInUnmodifiedContext);
                },
                Ok(false) => {},
            }
        }
    }
    assert(*pos as int == p0);
    let value = match parse_literal(code, pos) {
        Ok(v) => v,
        Err(e) => {
            return Err(e);
        },
    };
    match value {
        Some(m) => {
            proof {
                lemma_literal_at_pos(code@, p0);
            }
            stack.push_value(m);
            return Ok(false);
        },
        None => {},
    }
    let first_char = code[*pos];
    if first_char == ',' {
        *pos = *pos + 1;
        proof {
            lemma_write_comma_keeps_groups(w0, s0);
        }
        return match write_comma(output, stack) {
            Ok(()) => Ok(false),
            Err(e) => Err(e),
        };
    }
    let i = match find_builtin_index(builtins, first_char) {
        Some(i) => i,
        None => {
            return Err(TranspileError::UnexpectedToken(first_char));
        },
    };
    let builtin = &builtins[i];
    let ghost b = table[i as int];
    assert(builtin@ == b);
    assert(command_spec(code@, table, start, w0, s0, previous_was_pipe) == builtin_spec(code@, table, p0, w0, s0, b));
    *pos = *pos + 1;

    // fresh names for the local variables
    let names = builtin.get_local_var_names();
    let ghost nm = names@.map_values(|t: String| t@);
    let mut locals = LocalVars::new();
    let mut j: usize = 0;
    assert(nm.take(0) =~= Seq::<Seq<char>>::empty());
    while j < names.len()
        invariant
            j <= names@.len(),
            start == *old(pos),
            w0 == old(output)@,
            s0 == old(stack)@,
            table == table_model(builtins@),
            command_spec(code@, table, start, w0, s0, previous_was_pipe) == builtin_spec(code@, table, p0, w0, s0, b),
            nm == names@.map_values(|t: String| t@),
            nm == builtin_local_names(b),
            fresh_locals(s0, nm.take(j as int)) == Ok::<(StackModel, Map<Seq<char>, Seq<char>>), TranspileError>((stack@, locals@)),
        decreases names@.len() - j,
    {
        assert(nm.take(j + 1).drop_last() =~= nm.take(j as int));
        match stack.local_var_name() {
            Ok(v) => {
                locals.insert(names[j].clone(), v);
            },
            Err(e) => {
                proof {
                    lemma_fresh_locals_err(s0, nm, j + 1);
                }
                return Err(e);
            },
        }
        j = j + 1;
    }
    assert(nm.take(names@.len() as int) =~= nm);
    proof {
        lemma_fresh_locals_keeps_groups(s0, nm);
    }
    let ghost s1 = stack@;

    // the comment and the fragment
    let mut header = String::from_str("// ");
    push_string(&mut header, &builtin.name);
    output.write(Output::String(header));
    output.write(Output::NewLine);
    let ghost w1 = output@;
    proof {
        lemma_write_fragment_keeps_groups(w1, b.template, s1, locals@);
    }
    match write_fragment(output, builtin.template.duplicate(), stack, &locals) {
        Ok(()) => {},
        Err(e) => {
            return Err(e);
        },
    }
    let ghost w2 = output@;
    let ghost s2 = stack@;

    // one group per bracket handler, the first on top
    let nb = builtin.bracket_handlers.len();
    let ghost bs = b.brackets;
    let mut k = nb;
    assert(bs.subrange(nb as int, nb as int) =~= Seq::<BracketModel>::empty());
    while k > 0
        invariant
            k <= nb,
            nb == bs.len(),
            bs == b.brackets,
            builtin@ == b,
            stack@ == open_brackets(s2, locals@, bs.subrange(k as int, nb as int)),
        decreases k,
    {
        let h = &builtin.bracket_handlers[k - 1];
        assert(h@ == bs[k - 1]);
        stack.push_group(locals.duplicate(), h.fragment.duplicate(), copy_handler(&h.output_handler), h.flags);
        assert(bs.subrange(k - 1, nb as int).subrange(1, (nb - k + 1) as int) =~= bs.subrange(k as int, nb as int));
        assert(bs.subrange(k - 1, nb as int)[0] == bs[k - 1]);
        k = k - 1;
    }
    assert(bs.subrange(0, nb as int) =~= bs);
    proof {
        lemma_open_brackets_groups(s2, locals@, bs);
    }

    // each bracket handler takes the next command
    let mut last_char_is_pipe = false;
    let mut k: usize = 0;
    while k < nb
        invariant
            k <= nb,
            nb == bs.len(),
            p0 < *pos <= code@.len(),
            start <= p0,
            start == *old(pos),
            w0 == old(output)@,
            s0 == old(stack)@,
            table == table_model(builtins@),
            command_spec(code@, table, start, w0, s0, previous_was_pipe) == builtin_spec(code@, table, p0, w0, s0, b),
            builtin_spec(code@, table, p0, w0, s0, b) == brackets_spec(
                code@,
                table,
                p0,
                p0 + 1,
                w2,
                open_brackets(s2, locals@, bs),
                nb as nat,
                false,
            ),
            stack@.frames.len() == s0.frames.len() + (nb - k),
            brackets_spec(code@, table, p0, *pos as int, output@, stack@, (nb - k) as nat, last_char_is_pipe)
                == brackets_spec(code@, table, p0, p0 + 1, w2, open_brackets(s2, locals@, bs), nb as nat, false),
        decreases nb - k,
    {
        last_char_is_pipe = match parse_single_command(code, pos, builtins, stack, output, last_char_is_pipe) {
            Ok(b) => b,
            Err(e) => {
                return Err(e);
            },
        };
        let ghost sc = stack@;
        let group = stack.pop_group();
        proof {
            lemma_dispose_keeps_groups(output@, sc.current, close_group_spec(sc));
        }
        match dispose_bracket_handler(output, group, stack) {
            Ok(()) => {},
            Err(e) => {
                return Err(e);
            },
        }
        k = k + 1;
    }
    Ok(false)
}

// ---------------------------------------------------------------------------
// Whole programs

/// A writer with nothing written, at depth zero.
pub open spec fn empty_writer() -> WriterModel {
    WriterModel { text: Seq::empty(), indent: 0, pending_newline: false }
}

/// The commands of a program from `pos` to its end, one after the other.
pub open spec fn commands_spec(
    code: Seq<char>,
    table: Seq<BuiltinModel>,
    pos: int,
    w: WriterModel,
    s: StackModel,
) -> Result<(WriterModel, StackModel), TranspileError>
    decreases code.len() - pos,
{
    if pos < 0 || pos >= code.len() {
        Ok((w, s))
    } else {
        match command_spec(code, table, pos, w, s, false) {
            Err(e) => Err(e),
            Ok(st) => if st.pos <= pos || st.pos > code.len() {
                // never taken: a command always moves forward (lemma_command_balanced)
                Err(TranspileError::ExpectedClosingParenthesis)
            } else {
                commands_spec(code, table, st.pos, st.writer, st.stack)
            },
        }
    }
}

/// Closes every group left open above the root, the top one first.
pub open spec fn close_groups(w: WriterModel, s: StackModel) -> Result<(WriterModel, StackModel), TranspileError>
    decreases s.frames.len(),
{
    if s.frames.len() == 0 {
        Ok((w, s))
    } else {
        proof {
            lemma_dispose_keeps_groups(w, s.current, close_group_spec(s));
        }
        match dispose_spec(w, s.current, close_group_spec(s)) {
            Err(e) => Err(e),
            Ok((w1, s1)) => close_groups(w1, s1),
        }
    }
}

/// The JavaScript that a program becomes: an arrow function of `output` and
/// the program's inputs `args`, whose body is the code of the commands,
/// followed by what the groups left open and then the root group write when
/// they close.
pub open spec fn program_spec(code: Seq<char>, table: Seq<BuiltinModel>) -> Result<Seq<char>, TranspileError> {
    let w0 = write_step(
        write_step(write_step(empty_writer(), OutputModel::Text("((output, ...args)=>{"@)), OutputModel::Indent),
        OutputModel::NewLine,
    );
    match commands_spec(code, table, 0, w0, new_stack()) {
        Err(e) => Err(e),
        Ok((w1, s1)) => match close_groups(w1, s1) {
            Err(e) => Err(e),
            Ok((w2, s2)) => match dispose_spec(w2, s2.current, s2) {
                Err(e) => Err(e),
                Ok((w3, _)) => Ok(
                    write_step(
                        write_step(write_step(w3, OutputModel::Dedent), OutputModel::NewLine),
                        OutputModel::Text("})"@),
                    ).text,
                ),
            },
        },
    }
}

/// Transpiles `code` with the builtins `builtins`: see [`program_spec`].
#[verifier::rlimit(40)]
pub fn transpile_with(code: &[char], builtins: &Vec<Builtin>) -> (r: Result<String, TranspileError>)
    ensures
        match program_spec(code@, table_model(builtins@)) {
            Ok(t) => r matches Ok(x) && x@ == t,
            Err(e) => r == Err::<String, TranspileError>(e),
        },
{
    let ghost table = table_model(builtins@);
    let mut output = OutputWriter::new(String::new());
    output.write(Output::str("((output, ...args)=>{"));
    output.write(Output::Indent);
    output.write(Output::NewLine);
    let ghost w0 = output@;
    assert(w0 == write_step(
        write_step(write_step(empty_writer(), OutputModel::Text("((output, ...args)=>{"@)), OutputModel::Indent),
        OutputModel::NewLine,
    ));
    let mut stack = Stack::new();
    let mut pos: usize = 0;
    while pos < code.len()
        invariant
            pos <= code@.len(),
            table == table_model(builtins@),
            stack@.frames.len() == 0,
            w0 == write_step(
                write_step(write_step(empty_writer(), OutputModel::Text("((output, ...args)=>{"@)), OutputModel::Indent),
                OutputModel::NewLine,
            ),
            commands_spec(code@, table, pos as int, output@, stack@) == commands_spec(code@, table, 0, w0, new_stack()),
        decreases code@.len() - pos,
    {
        match parse_single_command(code, &mut pos, builtins, &mut stack, &mut output, false) {
            Ok(_) => {},
            Err(e) => {
                return Err(e);
            },
        }
    }
    let ghost w1 = output@;
    let ghost s1 = stack@;
    while stack.has_group()
        invariant
            close_groups(output@, stack@) == close_groups(w1, s1),
            table == table_model(builtins@),
            commands_spec(code@, table, 0, w0, new_stack()) == Ok::<(WriterModel, StackModel), TranspileError>((w1, s1)),
            w0 == write_step(
                write_step(write_step(empty_writer(), OutputModel::Text("((output, ...args)=>{"@)), OutputModel::Indent),
                OutputModel::NewLine,
            ),
        decreases stack@.frames.len(),
    {
        let ghost sc = stack@;
        proof {
            lemma_dispose_keeps_groups(output@, sc.current, close_group_spec(sc));
        }
        let group = stack.pop_group();
        match dispose_bracket_handler(&mut output, group, &mut stack) {
            Ok(()) => {},
            Err(e) => {
                return Err(e);
            },
        }
    }
    let current = stack.current_group_copy();
    match dispose_bracket_handler(&mut output, current, &mut stack) {
        Ok(()) => {},
        Err(e) => {
            return Err(e);
        },
    }
    output.write(Output::Dedent);
    output.write(Output::NewLine);
    output.write(Output::str("})"));
    Ok(output.into_text())
}

/// Transpiles a program to JavaScript with the builtins of the language:
/// see [`program_spec`]. Refused when a builtin's template is malformed.
pub fn transpile_program(code: &str) -> (r: Result<String, TranspileError>)
    ensures
        match build_all(builtin_sources_spec()) {
            Err(e) => r == Err::<String, TranspileError>(TranspileError::Template(e)),
            Ok(table) => match program_spec(code@, table) {
                Ok(t) => r matches Ok(x) && x@ == t,
                Err(e) => r == Err::<String, TranspileError>(e),
            },
        },
{
    let table = match builtins() {
        Ok(t) => t,
        Err(e) => {
            return Err(TranspileError::Template(e));
        },
    };
    let chars = chars_of(code);
    transpile_with(chars.as_slice(), &table)
}

/// Every command that succeeds moves forward, stays within the program,
/// leaves as many groups open as it found (the groups a builtin opens are
/// all closed by the time it is done), only adds text after what was
/// written, never takes a name back to hand it out again, and keeps the
/// output handler at the bottom of the stack; with that handler there, no
/// command fails for want of an output handler.
pub proof fn lemma_command_balanced(
    code: Seq<char>,
    table: Seq<BuiltinModel>,
    pos: int,
    w: WriterModel,
    s: StackModel,
    previous_was_pipe: bool,
)
    requires
        0 <= pos <= code.len(),
    ensures
        command_spec(code, table, pos, w, s, previous_was_pipe) matches Ok(st) ==> pos < st.pos <= code.len()
            && st.stack.frames.len() == s.frames.len() && extends(w, st.writer) && s.names <= st.stack.names && (
            has_root_handler(s) ==> has_root_handler(st.stack)),
        has_root_handler(s) ==> !lacks_handler(command_spec(code, table, pos, w, s, previous_was_pipe)),
    decreases code.len() - pos, rank(previous_was_pipe), 0int,
{
    let p0 = skip_whitespace(code, pos);
    lemma_skip_whitespace(code, pos);
    match start_group_spec(code, p0, previous_was_pipe) {
        Err(_) => {},
        Ok((true, p1)) => {
            lemma_group_balanced(code, table, p1, w, s);
        },
        Ok((false, _)) => {
            lemma_literal_at_pos(code, p0);
            lemma_literal_at_error(code, p0);
            assert(extends(w, w)) by {
                assert(w.text.subrange(0, w.text.len() as int) =~= w.text);
            }
            if literal_at(code, p0) is None {
                if code[p0] == ',' {
                    lemma_write_comma_keeps_groups(w, s);
                    lemma_write_comma_appends(w, s);
                    lemma_write_comma_keeps_handlers(w, s);
                    if has_root_handler(s) {
                        lemma_write_comma_has_handler(w, s);
                    }
                    if let Ok((_, s1)) = write_comma_spec(w, s) {
                        if has_root_handler(s) {
                            lemma_handlers_kept_root(s, s1);
                        }
                    }
                } else if let Some(i) = find_builtin(table, code[p0]) {
                    lemma_builtin_balanced(code, table, p0, w, s, table[i]);
                }
            }
        },
    }
}

/// A group that succeeds ends after where it starts, within the program,
/// with as many groups open as it found, having only added text.
pub proof fn lemma_group_balanced(code: Seq<char>, table: Seq<BuiltinModel>, p: int, w: WriterModel, s: StackModel)
    requires
        0 <= p <= code.len(),
    ensures
        group_spec(code, table, p, w, s) matches Ok(st) ==> p < st.pos <= code.len() && st.stack.frames.len()
            == s.frames.len() && extends(w, st.writer) && s.names <= st.stack.names && (has_root_handler(s)
            ==> has_root_handler(st.stack)),
        has_root_handler(s) ==> !lacks_handler(group_spec(code, table, p, w, s)),
    decreases code.len() - p, 2int, 0int,
{
    assert(extends(w, w)) by {
        assert(w.text.subrange(0, w.text.len() as int) =~= w.text);
    }
    if 0 <= p < code.len() && code[p] != '|' && code[p] != ')' {
        lemma_command_balanced(code, table, p, w, s, false);
        if let Ok(st) = command_spec(code, table, p, w, s, false) {
            if !st.pipe && p < st.pos <= code.len() {
                lemma_group_balanced(code, table, st.pos, st.writer, st.stack);
                if let Ok(st2) = group_spec(code, table, st.pos, st.writer, st.stack) {
                    lemma_extends_trans(w, st.writer, st2.writer);
                }
            }
        }
    }
}

/// A builtin that succeeds ends after its character, within the program,
/// with as many groups open as it found, having only added text.
pub proof fn lemma_builtin_balanced(
    code: Seq<char>,
    table: Seq<BuiltinModel>,
    p: int,
    w: WriterModel,
    s: StackModel,
    b: BuiltinModel,
)
    requires
        0 <= p < code.len(),
    ensures
        builtin_spec(code, table, p, w, s, b) matches Ok(st) ==> p < st.pos <= code.len() && st.stack.frames.len()
            == s.frames.len() && extends(w, st.writer) && s.names <= st.stack.names && (has_root_handler(s)
            ==> has_root_handler(st.stack)),
        has_root_handler(s) ==> !lacks_handler(builtin_spec(code, table, p, w, s, b)),
    decreases code.len() - p, 0int, b.brackets.len() + 1,
{
    lemma_fresh_locals_keeps_groups(s, builtin_local_names(b));
    lemma_fresh_locals_error(s, builtin_local_names(b));
    if let Ok((s1, locals)) = fresh_locals(s, builtin_local_names(b)) {
        let w0 = write_step(w, OutputModel::Text("// "@ + b.name));
        let w1 = write_step(w0, OutputModel::NewLine);
        lemma_write_step_appends(w, OutputModel::Text("// "@ + b.name));
        lemma_write_step_appends(w0, OutputModel::NewLine);
        lemma_extends_trans(w, w0, w1);
        lemma_write_fragment_keeps_groups(w1, b.template, s1, locals);
        lemma_write_fragment_appends(w1, b.template, s1, locals);
        lemma_write_fragment_keeps_handlers(w1, b.template, s1, locals);
        lemma_write_fragment_error(w1, b.template, s1, locals);
        if let Ok((w2, s2)) = write_fragment_spec(w1, b.template, s1, locals) {
            lemma_extends_trans(w, w1, w2);
            if has_root_handler(s) {
                lemma_handlers_kept_root(s1, s2);
            }
            let s3 = open_brackets(s2, locals, b.brackets);
            lemma_open_brackets_groups(s2, locals, b.brackets);
            lemma_brackets_balanced(code, table, p, p + 1, w2, s3, b.brackets.len(), false);
            if let Ok(st) = brackets_spec(code, table, p, p + 1, w2, s3, b.brackets.len(), false) {
                lemma_extends_trans(w, w2, st.writer);
            }
        }
    }
}

/// The bracket handlers of a builtin, when they succeed, end at or after
/// where they start, within the program, close one group each, and only
/// add text.
pub proof fn lemma_brackets_balanced(
    code: Seq<char>,
    table: Seq<BuiltinModel>,
    floor: int,
    pos: int,
    w: WriterModel,
    s: StackModel,
    remaining: nat,
    previous_was_pipe: bool,
)
    requires
        0 <= floor < pos <= code.len(),
        s.frames.len() >= remaining,
    ensures
        brackets_spec(code, table, floor, pos, w, s, remaining, previous_was_pipe) matches Ok(st) ==> pos <= st.pos
            <= code.len() && st.stack.frames.len() + remaining == s.frames.len() && extends(w, st.writer) && s.names
            <= st.stack.names && (has_root_handler(s) ==> has_root_handler(st.stack)),
        has_root_handler(s) ==> !lacks_handler(brackets_spec(code, table, floor, pos, w, s, remaining, previous_was_pipe)),
    decreases code.len() - floor, 0int, remaining,
{
    assert(extends(w, w)) by {
        assert(w.text.subrange(0, w.text.len() as int) =~= w.text);
    }
    if remaining > 0 {
        lemma_command_balanced(code, table, pos, w, s, previous_was_pipe);
        if let Ok(st) = command_spec(code, table, pos, w, s, previous_was_pipe) {
            lemma_dispose_keeps_groups(st.writer, st.stack.current, close_group_spec(st.stack));
            lemma_dispose_appends(st.writer, st.stack.current, close_group_spec(st.stack));
            lemma_dispose_keeps_handlers(st.writer, st.stack.current, close_group_spec(st.stack));
            if has_root_handler(s) {
                lemma_close_group_keeps_root(st.stack);
                lemma_dispose_has_handler(st.writer, st.stack.current, close_group_spec(st.stack));
            }
            if let Ok((w1, s1)) = dispose_spec(st.writer, st.stack.current, close_group_spec(st.stack)) {
                lemma_extends_trans(w, st.writer, w1);
                if has_root_handler(s) {
                    lemma_handlers_kept_root(close_group_spec(st.stack), s1);
                }
                lemma_brackets_balanced(code, table, floor, st.pos, w1, s1, (remaining - 1) as nat, st.pipe);
                if let Ok(st2) = brackets_spec(code, table, floor, st.pos, w1, s1, (remaining - 1) as nat, st.pipe) {
                    lemma_extends_trans(w, w1, st2.writer);
                }
            }
        }
    }
}

/// The commands of a program leave as many groups open as they found.
pub proof fn lemma_commands_balanced(code: Seq<char>, table: Seq<BuiltinModel>, pos: int, w: WriterModel, s: StackModel)
    requires
        0 <= pos <= code.len(),
    ensures
        commands_spec(code, table, pos, w, s) matches Ok((_, s2)) ==> s2.frames.len() == s.frames.len(),
    decreases code.len() - pos,
{
    if pos < code.len() {
        lemma_command_balanced(code, table, pos, w, s, false);
        if let Ok(st) = command_spec(code, table, pos, w, s, false) {
            lemma_commands_balanced(code, table, st.pos, st.writer, st.stack);
        }
    }
}

/// Every group a program opens is closed by the command that opened it:
/// after the last command only the root group is left.
pub proof fn lemma_program_leaves_root(code: Seq<char>, table: Seq<BuiltinModel>, w: WriterModel)
    ensures
        commands_spec(code, table, 0, w, new_stack()) matches Ok((_, s)) ==> s.frames.len() == 0,
        close_groups(w, new_stack()) == Ok::<(WriterModel, StackModel), TranspileError>((w, new_stack())),
{
    lemma_commands_balanced(code, table, 0, w, new_stack());
}

/// The commands of a program only add text after what was written.
pub proof fn lemma_commands_appends(code: Seq<char>, table: Seq<BuiltinModel>, pos: int, w: WriterModel, s: StackModel)
    requires
        0 <= pos <= code.len(),
    ensures
        commands_spec(code, table, pos, w, s) matches Ok((w2, _)) ==> extends(w, w2),
    decreases code.len() - pos,
{
    assert(extends(w, w)) by {
        assert(w.text.subrange(0, w.text.len() as int) =~= w.text);
    }
    if pos < code.len() {
        lemma_command_balanced(code, table, pos, w, s, false);
        if let Ok(st) = command_spec(code, table, pos, w, s, false) {
            lemma_commands_appends(code, table, st.pos, st.writer, st.stack);
            if let Ok((w2, _)) = commands_spec(code, table, st.pos, st.writer, st.stack) {
                lemma_extends_trans(w, st.writer, w2);
            }
        }
    }
}

/// Closing the groups left open only adds text after what was written.
pub proof fn lemma_close_groups_appends(w: WriterModel, s: StackModel)
    ensures
        close_groups(w, s) matches Ok((w2, _)) ==> extends(w, w2),
    decreases s.frames.len(),
{
    assert(extends(w, w)) by {
        assert(w.text.subrange(0, w.text.len() as int) =~= w.text);
    }
    if s.frames.len() > 0 {
        lemma_dispose_keeps_groups(w, s.current, close_group_spec(s));
        lemma_dispose_appends(w, s.current, close_group_spec(s));
        if let Ok((w1, s1)) = dispose_spec(w, s.current, close_group_spec(s)) {
            lemma_close_groups_appends(w1, s1);
            if let Ok((w2, _)) = close_groups(w1, s1) {
                lemma_extends_trans(w, w1, w2);
            }
        }
    }
}

/// The JavaScript of a program is one arrow function: it begins with
/// `((output, ...args)=>{` and ends with `})`, and what the program's
/// commands write stands between the two.
pub proof fn lemma_program_is_a_function(code: Seq<char>, table: Seq<BuiltinModel>)
    ensures
        program_spec(code, table) matches Ok(t) ==> "((output, ...args)=>{"@.is_prefix_of(t) && t.len() >= 2
            && t.subrange(t.len() - 2, t.len() as int) == "})"@,
{
    reveal_strlit("})");
    let header = "((output, ...args)=>{"@;
    let e = empty_writer();
    let wa = write_step(e, OutputModel::Text(header));
    let wb = write_step(wa, OutputModel::Indent);
    let w0 = write_step(wb, OutputModel::NewLine);
    assert(wa.text =~= header);
    assert(w0.text == header);
    lemma_commands_appends(code, table, 0, w0, new_stack());
    if let Ok((w1, s1)) = commands_spec(code, table, 0, w0, new_stack()) {
        lemma_close_groups_appends(w1, s1);
        if let Ok((w2, s2)) = close_groups(w1, s1) {
            lemma_extends_trans(w0, w1, w2);
            lemma_dispose_appends(w2, s2.current, s2);
            if let Ok((w3, _)) = dispose_spec(w2, s2.current, s2) {
                lemma_extends_trans(w0, w2, w3);
                let w4 = write_step(w3, OutputModel::Dedent);
                let w5 = write_step(w4, OutputModel::NewLine);
                let w6 = write_step(w5, OutputModel::Text("})"@));
                lemma_write_step_appends(w3, OutputModel::Dedent);
                lemma_write_step_appends(w4, OutputModel::NewLine);
                lemma_write_step_appends(w5, OutputModel::Text("})"@));
                lemma_extends_trans(w0, w3, w4);
                lemma_extends_trans(w0, w4, w5);
                lemma_extends_trans(w0, w5, w6);
                assert(w6.text.subrange(w6.text.len() - 2, w6.text.len() as int) =~= "})"@);
            }
        }
    }
}

/// The default output handler at the bottom of the stack stays there
/// through a whole program: after every command an output handler is in
/// force.
pub proof fn lemma_commands_keep_handler(code: Seq<char>, table: Seq<BuiltinModel>, pos: int, w: WriterModel, s: StackModel)
    requires
        0 <= pos <= code.len(),
        has_root_handler(s),
    ensures
        commands_spec(code, table, pos, w, s) matches Ok((_, s2)) ==> has_root_handler(s2) && output_handler_spec(s2)
            is Some,
        !lacks_handler(commands_spec(code, table, pos, w, s)),
    decreases code.len() - pos,
{
    lemma_handler_in_force(s);
    if pos < code.len() {
        lemma_command_balanced(code, table, pos, w, s, false);
        if let Ok(st) = command_spec(code, table, pos, w, s, false) {
            lemma_commands_keep_handler(code, table, st.pos, st.writer, st.stack);
        }
    }
}

/// No program is refused for want of an output handler: one is always in
/// force where values are handed on.
pub proof fn lemma_program_never_lacks_handler(code: Seq<char>, table: Seq<BuiltinModel>)
    ensures
        !lacks_handler(program_spec(code, table)),
{
    let w0 = write_step(
        write_step(write_step(empty_writer(), OutputModel::Text("((output, ...args)=>{"@)), OutputModel::Indent),
        OutputModel::NewLine,
    );
    lemma_new_stack_has_root_handler();
    lemma_commands_keep_handler(code, table, 0, w0, new_stack());
    lemma_program_leaves_root(code, table, w0);
    if let Ok((w1, s1)) = commands_spec(code, table, 0, w0, new_stack()) {
        assert(close_groups(w1, s1) == Ok::<(WriterModel, StackModel), TranspileError>((w1, s1)));
        lemma_dispose_has_handler(w1, s1.current, s1);
    }
}

/// A program starts with the default output handler in force.
pub proof fn lemma_program_starts_with_handler()
    ensures
        has_root_handler(new_stack()),
        output_handler_spec(new_stack()) is Some,
{
    lemma_new_stack_has_root_handler();
    lemma_handler_in_force(new_stack());
}

} // verus!
