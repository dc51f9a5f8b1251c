//! Reading a program into a tree of values: builtins, commas, literals and
//! parenthesised groups.

use vstd::prelude::*;
use crate::text::{is_whitespace, is_whitespace_spec, to_digit, digit_value, push_char};
use crate::language::builtin::{Builtin, BuiltinModel, MultiOutputBehavior, HandlerModel};
use crate::language::error::TranspileError;

verus! {

/// How many values a piece of program takes from the stack and leaves on it.
#[derive(Clone, Copy, Debug, PartialEq, Eq, Structural)]
pub struct StackMovement {
    pub pops: usize,
    pub pushes: usize,
}

/// A literal of the program.
pub enum Literal {
    Integer(u32),
    String(String),
}

/// What a [`Literal`] stands for.
pub enum LiteralModel {
    Integer(u32),
    Text(Seq<char>),
}

impl View for Literal {
    type V = LiteralModel;

    open spec fn view(&self) -> LiteralModel {
        match self {
            Literal::Integer(n) => LiteralModel::Integer(*n),
            Literal::String(s) => LiteralModel::Text(s@),
        }
    }
}

/// One value of a lexed program.
pub enum LexerValue<'a> {
    Builtin(&'a Builtin),
    Comma,
    Group(Vec<LexerValue<'a>>),
    Literal(Literal),
}

/// What a [`LexerValue`] stands for.
pub enum LexModel {
    Builtin(BuiltinModel),
    Comma,
    Group(Seq<LexModel>),
    Literal(LiteralModel),
}

/// The model of a lexed value.
pub open spec fn lex_model<'a>(v: LexerValue<'a>) -> LexModel
    decreases v,
{
    match v {
        LexerValue::Builtin(b) => LexModel::Builtin(b@),
        LexerValue::Comma => LexModel::Comma,
        LexerValue::Group(vs) => LexModel::Group(lex_models(vs@)),
        LexerValue::Literal(l) => LexModel::Literal(l@),
    }
}

/// The models of a list of lexed values.
pub open spec fn lex_models<'a>(vs: Seq<LexerValue<'a>>) -> Seq<LexModel>
    decreases vs,
{
    if vs.len() == 0 {
        Seq::empty()
    } else {
        lex_models(vs.drop_last()).push(lex_model(vs.last()))
    }
}

impl<'a> View for LexerValue<'a> {
    type V = LexModel;

    open spec fn view(&self) -> LexModel {
        lex_model(*self)
    }
}


// ---------------------------------------------------------------------------
// Literals

/// Reading the body of a string literal from `p` on, with `acc` read so far:
/// up to a closing `"`, a backslash taking the next character as it is.
/// Gives the text and the position after the literal.
pub open spec fn string_body(code: Seq<char>, p: int, acc: Seq<char>) -> (Seq<char>, int)
    decreases code.len() - p,
{
    if p < 0 || p >= code.len() {
        (acc, p)
    } else if code[p] == '"' {
        (acc, p + 1)
    } else if code[p] == '\\' {
        if p + 1 < code.len() {
            string_body(code, p + 2, acc.push(code[p + 1]))
        } else {
            (acc, p + 1)
        }
    } else {
        string_body(code, p + 1, acc.push(code[p]))
    }
}

/// Reading the remaining digits of a number from `p` on, with value `v` so
/// far; refused when the value does not fit in 32 bits.
pub open spec fn number_body(code: Seq<char>, p: int, v: nat) -> Result<(u32, int), TranspileError>
    decreases code.len() - p,
{
    if 0 <= p < code.len() && digit_value(code[p]) is Some {
        let nv = (v * 10 + digit_value(code[p])->0) as nat;
        if nv > u32::MAX {
            Err(TranspileError::LiteralOverflow)
        } else {
            number_body(code, p + 1, nv)
        }
    } else if v <= u32::MAX {
        Ok((v as u32, p))
    } else {
        Err(TranspileError::LiteralOverflow)
    }
}

/// The literal at `pos`, if one starts there, and the position after it.
pub open spec fn literal_at(code: Seq<char>, pos: int) -> Option<Result<(LiteralModel, int), TranspileError>> {
    if 0 <= pos < code.len() && code[pos] == '"' {
        let (text, end) = string_body(code, pos + 1, Seq::empty());
        Some(Ok((LiteralModel::Text(text), end)))
    } else if 0 <= pos < code.len() && digit_value(code[pos]) is Some {
        match number_body(code, pos + 1, digit_value(code[pos])->0 as nat) {
            Ok((v, end)) => Some(Ok((LiteralModel::Integer(v), end))),
            Err(e) => Some(Err(e)),
        }
    } else {
        None
    }
}

/// A string body ends at or after where it starts, within the program.
pub proof fn lemma_string_body_pos(code: Seq<char>, p: int, acc: Seq<char>)
    requires
        0 <= p <= code.len(),
    ensures
        p <= string_body(code, p, acc).1 <= code.len(),
    decreases code.len() - p,
{
    if p < code.len() && code[p] != '"' {
        if code[p] == '\\' {
            if p + 1 < code.len() {
                lemma_string_body_pos(code, p + 2, acc.push(code[p + 1]));
            }
        } else {
            lemma_string_body_pos(code, p + 1, acc.push(code[p]));
        }
    }
}

/// A number ends at or after where its digits start, within the program.
pub proof fn lemma_number_body_pos(code: Seq<char>, p: int, v: nat)
    requires
        0 <= p <= code.len(),
    ensures
        number_body(code, p, v) matches Ok((_, e)) ==> p <= e <= code.len(),
    decreases code.len() - p,
{
    if 0 <= p < code.len() && digit_value(code[p]) is Some {
        let nv = (v * 10 + digit_value(code[p])->0) as nat;
        if nv <= u32::MAX {
            lemma_number_body_pos(code, p + 1, nv);
        }
    }
}

/// A literal read at `pos` ends after it, within the program.
pub proof fn lemma_literal_at_pos(code: Seq<char>, pos: int)
    requires
        0 <= pos <= code.len(),
    ensures
        literal_at(code, pos) matches Some(Ok((_, e))) ==> pos < e <= code.len(),
{
    if 0 <= pos < code.len() && code[pos] == '"' {
        lemma_string_body_pos(code, pos + 1, Seq::empty());
    } else if 0 <= pos < code.len() && digit_value(code[pos]) is Some {
        lemma_number_body_pos(code, pos + 1, digit_value(code[pos])->0 as nat);
    }
}

/// A literal is refused only when a number does not fit in 32 bits.
pub proof fn lemma_literal_at_error(code: Seq<char>, pos: int)
    ensures
        literal_at(code, pos) matches Some(Err(e)) ==> e == TranspileError::LiteralOverflow,
{
    if !(0 <= pos < code.len() && code[pos] == '"') && 0 <= pos < code.len() && digit_value(code[pos]) is Some {
        lemma_number_body_error(code, pos + 1, digit_value(code[pos])->0 as nat);
    }
}

proof fn lemma_number_body_error(code: Seq<char>, p: int, v: nat)
    ensures
        number_body(code, p, v) matches Err(e) ==> e == TranspileError::LiteralOverflow,
    decreases code.len() - p,
{
    if 0 <= p < code.len() && digit_value(code[p]) is Some {
        let nv = (v * 10 + digit_value(code[p])->0) as nat;
        if nv <= u32::MAX {
            lemma_number_body_error(code, p + 1, nv);
        }
    }
}

/// Reads the body of a string literal whose opening quote is before `*pos`.
pub fn scan_string(code: &[char], pos: &mut usize) -> (r: String)
    requires
        *old(pos) <= code@.len(),
    ensures
        (r@, *final(pos) as int) == string_body(code@, *old(pos) as int, Seq::empty()),
{
    let mut value = String::new();
    while *pos < code.len()
        invariant
            *pos <= code@.len(),
            string_body(code@, *pos as int, value@) == string_body(code@, *old(pos) as int, Seq::empty()),
        decreases code@.len() - *pos,
    {
        let c = code[*pos];
        if c == '"' {
            *pos = *pos + 1;
            return value;
        }
        if c == '\\' {
            if *pos + 1 < code.len() {
                push_char(&mut value, code[*pos + 1]);
                *pos = *pos + 2;
            } else {
                *pos = *pos + 1;
                return value;
            }
        } else {
            push_char(&mut value, c);
            *pos = *pos + 1;
        }
    }
    value
}

/// Reads the digits of a number whose first digit `first` is before `*pos`.
pub fn scan_number(code: &[char], pos: &mut usize, first: u32) -> (r: Result<u32, TranspileError>)
    requires
        *old(pos) <= code@.len(),
        first <= 9,
    ensures
        match number_body(code@, *old(pos) as int, first as nat) {
            Ok((v, e)) => r == Ok::<u32, TranspileError>(v) && *final(pos) == e,
            Err(e) => r == Err::<u32, TranspileError>(e),
        },
{
    let mut digit_value: u32 = first;
    while *pos < code.len()
        invariant
            *pos <= code@.len(),
            number_body(code@, *pos as int, digit_value as nat) == number_body(code@, *old(pos) as int, first as nat),
        decreases code@.len() - *pos,
    {
        match to_digit(code[*pos]) {
            Some(d) => {
                if digit_value > 429496729 || (digit_value == 429496729 && d > 5) {
                    assert(digit_value * 10 + d > u32::MAX);
                    return Err(TranspileError::LiteralOverflow);
                }
                digit_value = digit_value * 10 + d;
                *pos = *pos + 1;
            },
            None => {
                return Ok(digit_value);
            },
        }
    }
    Ok(digit_value)
}

/// Reads the literal at `*pos`, if one starts there.
pub fn parse_literal(code: &[char], pos: &mut usize) -> (r: Result<Option<Literal>, TranspileError>)
    requires
        *old(pos) <= code@.len(),
    ensures
        match literal_at(code@, *old(pos) as int) {
            Some(Ok((l, e))) => r matches Ok(Some(x)) && x@ == l && *final(pos) == e,
            Some(Err(e)) => r == Err::<Option<Literal>, TranspileError>(e),
            None => r matches Ok(None) && *final(pos) == *old(pos),
        },
{
    if *pos < code.len() && code[*pos] == '"' {
        *pos = *pos + 1;
        let value = scan_string(code, pos);
        return Ok(Some(Literal::String(value)));
    }
    if *pos < code.len() {
        match to_digit(code[*pos]) {
            Some(d) => {
                *pos = *pos + 1;
                return match scan_number(code, pos, d) {
                    Ok(v) => Ok(Some(Literal::Integer(v))),
                    Err(e) => Err(e),
                };
            },
            None => {},
        }
    }
    Ok(None)
}


// ---------------------------------------------------------------------------
// Lexing

/// The position of the first builtin at or after `i` invoked by `c`.
pub open spec fn find_builtin_from(table: Seq<BuiltinModel>, c: char, i: int) -> Option<int>
    decreases table.len() - i,
{
    if i < 0 || i >= table.len() {
        None
    } else if table[i].token == c {
        Some(i)
    } else {
        find_builtin_from(table, c, i + 1)
    }
}

/// The builtin found for `c` is in the table and is invoked by `c`.
pub proof fn lemma_find_builtin_from(table: Seq<BuiltinModel>, c: char, i: int)
    ensures
        find_builtin_from(table, c, i) matches Some(j) ==> 0 <= i <= j < table.len() && table[j].token == c,
    decreases table.len() - i,
{
    if 0 <= i < table.len() && table[i].token != c {
        lemma_find_builtin_from(table, c, i + 1);
    }
}

/// The position of the first builtin invoked by `c`.
pub open spec fn find_builtin(table: Seq<BuiltinModel>, c: char) -> Option<int> {
    find_builtin_from(table, c, 0)
}

/// The models of a list of builtins.
pub open spec fn table_model(table: Seq<Builtin>) -> Seq<BuiltinModel> {
    table.map_values(|b: Builtin| b@)
}

/// Finds the first builtin invoked by `c`.
pub fn find_builtin_index(table: &Vec<Builtin>, c: char) -> (r: Option<usize>)
    ensures
        match find_builtin(table_model(table@), c) {
            Some(i) => r is Some && r->0 as int == i && 0 <= i < table@.len(),
            None => r is None,
        },
{
    proof {
        lemma_find_builtin_from(table_model(table@), c, 0);
    }
    let ghost t = table_model(table@);
    let mut i: usize = 0;
    while i < table.len()
        invariant
            i <= table@.len(),
            t == table_model(table@),
            find_builtin_from(t, c, i as int) == find_builtin(t, c),
        decreases table@.len() - i,
    {
        assert(t[i as int].token == table@[i as int].token);
        if table[i].token == c {
            return Some(i);
        }
        proof {
            lemma_find_builtin_from(t, c, i as int);
        }
        i = i + 1;
    }
    None
}

/// Lexing from `pos` on, with the values `last` of the innermost open group
/// and the values `stack` of the groups around it: first a literal if one
/// starts at `pos`, then one character: whitespace is skipped, `,` is a
/// comma, `(` opens a group, `|` closes a group and opens the next one beside
/// it, `)` closes a group, and any other character is a builtin.
pub open spec fn lex_loop(
    code: Seq<char>,
    pos: int,
    last: Seq<LexModel>,
    stack: Seq<Seq<LexModel>>,
    table: Seq<BuiltinModel>,
) -> Result<Seq<LexModel>, TranspileError>
    decreases code.len() - pos,
{
    if pos < 0 || pos > code.len() {
        Err(TranspileError::UnbalancedGroup)
    } else {
        match literal_at(code, pos) {
            Some(Err(e)) => Err(e),
            lit => {
                let (pos1, last1) = match lit {
                    Some(Ok((l, e))) => (e, last.push(LexModel::Literal(l))),
                    _ => (pos, last),
                };
                proof {
                    lemma_literal_at_pos(code, pos);
                }
                if pos1 >= code.len() {
                    if stack.len() == 0 {
                        Ok(last1)
                    } else {
                        Err(TranspileError::ExpectedClosingParenthesis)
                    }
                } else {
                    let c = code[pos1];
                    let p2 = pos1 + 1;
                    if is_whitespace_spec(c) {
                        lex_loop(code, p2, last1, stack, table)
                    } else if c == ',' {
                        lex_loop(code, p2, last1.push(LexModel::Comma), stack, table)
                    } else if c == '(' {
                        lex_loop(code, p2, Seq::empty(), stack.push(last1), table)
                    } else if c == '|' {
                        if stack.len() == 0 {
                            Err(TranspileError::UnbalancedGroup)
                        } else {
                            lex_loop(
                                code,
                                p2,
                                Seq::empty(),
                                stack.drop_last().push(stack.last().push(LexModel::Group(last1))),
                                table,
                            )
                        }
                    } else if c == ')' {
                        if stack.len() == 0 {
                            Err(TranspileError::UnbalancedGroup)
                        } else {
                            lex_loop(code, p2, stack.last().push(LexModel::Group(last1)), stack.drop_last(), table)
                        }
                    } else {
                        match find_builtin(table, c) {
                            Some(i) => lex_loop(code, p2, last1.push(LexModel::Builtin(table[i])), stack, table),
                            None => Err(TranspileError::UnexpectedToken(c)),
                        }
                    }
                }
            },
        }
    }
}

/// The values of a whole program.
pub open spec fn parse_spec(code: Seq<char>, table: Seq<BuiltinModel>) -> Result<Seq<LexModel>, TranspileError> {
    lex_loop(code, 0, Seq::empty(), Seq::empty(), table)
}

/// The models of a list of lists of lexed values.
pub open spec fn lex_stack_model<'a>(st: Seq<Vec<LexerValue<'a>>>) -> Seq<Seq<LexModel>> {
    st.map_values(|v: Vec<LexerValue<'a>>| lex_models(v@))
}

proof fn lemma_lex_models_push<'a>(v: Seq<LexerValue<'a>>, x: LexerValue<'a>)
    ensures
        lex_models(v.push(x)) == lex_models(v).push(lex_model(x)),
{
    assert(v.push(x).drop_last() == v);
}

fn push_value<'a>(v: &mut Vec<LexerValue<'a>>, x: LexerValue<'a>)
    ensures
        lex_models(final(v)@) == lex_models(old(v)@).push(lex_model(x)),
{
    proof {
        lemma_lex_models_push(v@, x);
    }
    v.push(x);
}

/// Lexes a whole program: see [`parse_spec`].
pub fn parse<'a>(code: &[char], builtins: &'a Vec<Builtin>) -> (r: Result<Vec<LexerValue<'a>>, TranspileError>)
    ensures
        match parse_spec(code@, table_model(builtins@)) {
            Ok(vs) => r is Ok && lex_models(r->Ok_0@) == vs,
            Err(e) => r == Err::<Vec<LexerValue<'a>>, TranspileError>(e),
        },
{
    let ghost table = table_model(builtins@);
    let mut last: Vec<LexerValue<'a>> = Vec::new();
    let mut stack: Vec<Vec<LexerValue<'a>>> = Vec::new();
    let mut pos: usize = 0;
    assert(lex_models(last@) =~= Seq::<LexModel>::empty());
    assert(lex_stack_model(stack@) =~= Seq::<Seq<LexModel>>::empty());
    let ghost target = parse_spec(code@, table);
    loop
        invariant
            pos <= code@.len(),
            table == table_model(builtins@),
            target == parse_spec(code@, table_model(builtins@)),
            lex_loop(code@, pos as int, lex_models(last@), lex_stack_model(stack@), table) == target,
        decreases code@.len() - pos,
    {
        let ghost pos0 = pos;
        let ghost last0 = lex_models(last@);
        let ghost stack0 = lex_stack_model(stack@);
        proof {
            lemma_literal_at_pos(code@, pos as int);
        }
        match parse_literal(code, &mut pos) {
            Ok(Some(l)) => {
                push_value(&mut last, LexerValue::Literal(l));
            },
            Ok(None) => {},
            Err(e) => {
                return Err(e);
            },
        }
        if pos >= code.len() {
            if stack.len() == 0 {
                return Ok(last);
            }
            return Err(TranspileError::ExpectedClosingParenthesis);
        }
        let c = code[pos];
        let ghost last1 = lex_models(last@);
        assert(lex_loop(code@, pos0 as int, last0, stack0, table) == {
            let c = code@[pos as int];
            let p2 = pos + 1;
            if is_whitespace_spec(c) {
                lex_loop(code@, p2, last1, stack0, table)
            } else if c == ',' {
                lex_loop(code@, p2, last1.push(LexModel::Comma), stack0, table)
            } else if c == '(' {
                lex_loop(code@, p2, Seq::empty(), stack0.push(last1), table)
            } else if c == '|' {
                if stack0.len() == 0 {
                    Err(TranspileError::UnbalancedGroup)
                } else {
                    lex_loop(code@, p2, Seq::empty(), stack0.drop_last().push(stack0.last().push(LexModel::Group(last1))), table)
                }
            } else if c == ')' {
                if stack0.len() == 0 {
                    Err(TranspileError::UnbalancedGroup)
                } else {
                    lex_loop(code@, p2, stack0.last().push(LexModel::Group(last1)), stack0.drop_last(), table)
                }
            } else {
                match find_builtin(table, c) {
                    Some(i) => lex_loop(code@, p2, last1.push(LexModel::Builtin(table[i])), stack0, table),
                    None => Err(TranspileError::UnexpectedToken(c)),
                }
            }
        });
        pos = pos + 1;
        if is_whitespace(c) {
        } else if c == ',' {
            push_value(&mut last, LexerValue::Comma);
        } else if c == '(' {
            let ghost before = stack@;
            let mut inner: Vec<LexerValue<'a>> = Vec::new();
            std::mem::swap(&mut inner, &mut last);
            stack.push(inner);
            assert(lex_models(last@) =~= Seq::<LexModel>::empty());
            assert(lex_stack_model(stack@) =~= lex_stack_model(before).push(lex_models(inner@)));
            assert(lex_loop(code@, pos as int, lex_models(last@), lex_stack_model(stack@), table) == target);
        } else if c == '|' || c == ')' {
            let ghost before = stack@;
            match stack.pop() {
                Some(outer) => {
                    assert(lex_models(outer@) == stack0.last());
                    let mut group: Vec<LexerValue<'a>> = Vec::new();
                    std::mem::swap(&mut group, &mut last);
                    last = outer;
                    assert(lex_stack_model(stack@) =~= lex_stack_model(before).drop_last());
                    push_value(&mut last, LexerValue::Group(group));
                    if c == '|' {
                        let ghost before2 = stack@;
                        let mut filled: Vec<LexerValue<'a>> = Vec::new();
                        std::mem::swap(&mut filled, &mut last);
                        stack.push(filled);
                        assert(lex_models(last@) =~= Seq::<LexModel>::empty());
                        assert(lex_stack_model(stack@) =~= lex_stack_model(before2).push(lex_models(filled@)));
                        assert(lex_loop(code@, pos as int, lex_models(last@), lex_stack_model(stack@), table) == target);
                    } else {
                        assert(lex_loop(code@, pos as int, lex_models(last@), lex_stack_model(stack@), table) == target);
                    }
                },
                None => {
                    return Err(TranspileError::UnbalancedGroup);
                },
            }
        } else {
            match find_builtin_index(builtins, c) {
                Some(i) => {
                    assert(table[i as int] == builtins@[i as int]@);
                    let b: &'a Builtin = &builtins[i];
                    assert(b@ == table[i as int]);
                    assert(lex_model(LexerValue::Builtin(b)) == LexModel::Builtin(table[i as int]));
                    assert(find_builtin(table, c) == Some(i as int));
                    push_value(&mut last, LexerValue::Builtin(b));
                    assert(lex_loop(code@, pos as int, lex_models(last@), lex_stack_model(stack@), table) == target);
                },
                None => {
                    return Err(TranspileError::UnexpectedToken(c));
                },
            }
        }
    }
}


// ---------------------------------------------------------------------------
// Stack movement

/// The size of a value: one, plus the sizes of the values of a group.
pub open spec fn lex_size(v: LexModel) -> nat
    decreases v,
{
    match v {
        LexModel::Group(vs) => 1 + seq_size(vs),
        _ => 1,
    }
}

/// The total size of a list of values.
pub open spec fn seq_size(vs: Seq<LexModel>) -> nat
    decreases vs,
{
    if vs.len() == 0 {
        0
    } else {
        lex_size(vs[0]) + seq_size(vs.drop_first())
    }
}

/// Every value has a size of at least one.
pub proof fn lemma_lex_size_positive(v: LexModel)
    ensures
        lex_size(v) >= 1,
{
}

/// The size of the values from `i` on: that of the `i`-th, then the rest.
pub proof fn lemma_seq_size_skip(s: Seq<LexModel>, i: int)
    requires
        0 <= i < s.len(),
    ensures
        seq_size(s.skip(i)) == lex_size(s[i]) + seq_size(s.skip(i + 1)),
{
    assert(s.skip(i)[0] == s[i]);
    assert(s.skip(i).drop_first() =~= s.skip(i + 1));
}

/// Skipping more values leaves at least one less size per value skipped.
pub proof fn lemma_seq_size_skip_mono(s: Seq<LexModel>, a: int, b: int)
    requires
        0 <= a <= b <= s.len(),
    ensures
        seq_size(s.skip(a)) >= seq_size(s.skip(b)) + (b - a),
    decreases b - a,
{
    if a < b {
        lemma_seq_size_skip(s, a);
        lemma_lex_size_positive(s[a]);
        lemma_seq_size_skip_mono(s, a + 1, b);
    }
}

/// The output handler that governs bracket `h` of a builtin: its own, or
/// failing that the last bracket's.
pub open spec fn governing_handler(b: BuiltinModel, h: int) -> Option<HandlerModel> {
    match b.brackets[h].handler {
        Some(x) => Some(x),
        None => if b.brackets.len() > 0 { b.brackets.last().handler } else { None },
    }
}

/// Adding the movement `nm` of the code in bracket `h` of builtin `b` to
/// `acc`; `None` when a count would leave the range of a `usize`.
pub open spec fn combine_bracket(b: BuiltinModel, h: int, acc: StackMovement, nm: StackMovement) -> Option<StackMovement> {
    let bh = b.brackets[h];
    let variadic = governing_handler(b, h) matches Some(l) && l.behavior == MultiOutputBehavior::Variadic;
    let pops1: int = if governing_handler(b, h) is None && bh.flags.no_pop {
        acc.pops as int
    } else if variadic && bh.flags.no_pop {
        acc.pops as int
    } else {
        acc.pops + nm.pops
    };
    let pushes1: int = if variadic { acc.pushes + nm.pushes - 1 } else { acc.pushes as int };
    let pops2 = pops1 - bh.fragment.popped;
    let pushes2 = pushes1 + bh.fragment.pushed;
    if variadic && nm.pushes == 0 {
        None
    } else if pops1 > usize::MAX || pushes1 > usize::MAX || pops2 < 0 || pushes2 > usize::MAX {
        None
    } else {
        Some(StackMovement { pops: pops2 as usize, pushes: pushes2 as usize })
    }
}

/// Following value `nm` after movement `acc` within a group: its pops are
/// taken from the pushes so far first, and only the rest from below.
pub open spec fn combine_group(acc: StackMovement, nm: StackMovement) -> Option<StackMovement> {
    let taken: int = if nm.pops < acc.pushes { nm.pops as int } else { acc.pushes as int };
    let pushes: int = acc.pushes - taken;
    let extra: int = if nm.pops > acc.pushes { nm.pops - acc.pushes } else { 0 };
    let pops: int = acc.pops + extra;
    if pops > usize::MAX || pushes + nm.pushes > usize::MAX {
        None
    } else {
        Some(StackMovement { pops: pops as usize, pushes: (pushes + nm.pushes) as usize })
    }
}

/// The movement of value `v`, which may take the values from `s[pos]` on as
/// the code nested in it: the movement and where the values it took end.
/// `None` when the nested code runs out or a count leaves its range.
pub open spec fn movement(v: LexModel, s: Seq<LexModel>, pos: int) -> Option<(StackMovement, int)>
    decreases lex_size(v) + seq_size(s.skip(pos)), 0int,
{
    if pos < 0 || pos > s.len() {
        None
    } else {
        match v {
            LexModel::Builtin(b) => builtin_movement_loop(
                b,
                0,
                StackMovement { pops: b.template.popped, pushes: b.template.pushed },
                s,
                pos,
            ),
            LexModel::Comma => Some((StackMovement { pops: 1, pushes: 0 }, pos)),
            LexModel::Group(vs) => {
                proof {
                    assert(vs.skip(0) =~= vs);
                }
                match group_movement_loop(vs, 0, StackMovement { pops: 0, pushes: 0 }) {
                    Some(m) => Some((m, pos)),
                    None => None,
                }
            },
            LexModel::Literal(_) => Some((StackMovement { pops: 0, pushes: 1 }, pos)),
        }
    }
}

/// The movement of a builtin from bracket `h` on, with `acc` so far.
pub open spec fn builtin_movement_loop(
    b: BuiltinModel,
    h: int,
    acc: StackMovement,
    s: Seq<LexModel>,
    pos: int,
) -> Option<(StackMovement, int)>
    decreases seq_size(s.skip(pos)), 1int,
{
    if pos < 0 || pos > s.len() || h < 0 {
        None
    } else if h >= b.brackets.len() {
        Some((acc, pos))
    } else if pos == s.len() {
        None
    } else {
        proof {
            lemma_seq_size_skip(s, pos);
        }
        match movement(s[pos], s, pos + 1) {
            None => None,
            Some((nm, p2)) => if p2 <= pos || p2 > s.len() {
                None
            } else {
                proof {
                    lemma_seq_size_skip_mono(s, pos, p2);
                }
                match combine_bracket(b, h, acc, nm) {
                    None => None,
                    Some(acc2) => builtin_movement_loop(b, h + 1, acc2, s, p2),
                }
            },
        }
    }
}

/// The movement of the values of a group from `i` on, with `acc` so far.
pub open spec fn group_movement_loop(vs: Seq<LexModel>, i: int, acc: StackMovement) -> Option<StackMovement>
    decreases seq_size(vs.skip(i)), 1int,
{
    if i < 0 || i > vs.len() {
        None
    } else if i == vs.len() {
        Some(acc)
    } else {
        proof {
            lemma_seq_size_skip(vs, i);
        }
        match movement(vs[i], vs, i + 1) {
            None => None,
            Some((nm, p2)) => if p2 <= i || p2 > vs.len() {
                None
            } else {
                proof {
                    lemma_seq_size_skip_mono(vs, i, p2);
                }
                match combine_group(acc, nm) {
                    None => None,
                    Some(acc2) => group_movement_loop(vs, p2, acc2),
                }
            },
        }
    }
}

/// The model of a list of values, value by value.
pub proof fn lemma_lex_models_index<'a>(vs: Seq<LexerValue<'a>>, i: int)
    requires
        0 <= i < vs.len(),
    ensures
        lex_models(vs).len() == vs.len(),
        lex_models(vs)[i] == lex_model(vs[i]),
    decreases vs.len(),
{
    lemma_lex_models_len(vs);
    if i < vs.len() - 1 {
        lemma_lex_models_index(vs.drop_last(), i);
    }
}

/// The model of a list of values has one model per value.
pub proof fn lemma_lex_models_len<'a>(vs: Seq<LexerValue<'a>>)
    ensures
        lex_models(vs).len() == vs.len(),
    decreases vs.len(),
{
    if vs.len() > 0 {
        lemma_lex_models_len(vs.drop_last());
    }
}

fn combine_bracket_exec(b: &Builtin, h: usize, acc: StackMovement, nm: StackMovement) -> (r: Option<StackMovement>)
    requires
        h < b@.brackets.len(),
    ensures
        r == combine_bracket(b@, h as int, acc, nm),
{
    let bh = &b.bracket_handlers[h];
    let n = b.bracket_handlers.len();
    let handler_behavior: Option<MultiOutputBehavior> = match &bh.output_handler {
        Some(x) => Some(x.behavior),
        None => match &b.bracket_handlers[n - 1].output_handler {
            Some(x) => Some(x.behavior),
            None => None,
        },
    };
    assert(b@.brackets[h as int] == bh@);
    assert(b@.brackets.last() == b.bracket_handlers@[n - 1]@);
    let variadic = match handler_behavior {
        Some(MultiOutputBehavior::Variadic) => true,
        _ => false,
    };
    if variadic && nm.pushes == 0 {
        return None;
    }
    let pops1: usize = if handler_behavior.is_none() && bh.flags.no_pop {
        acc.pops
    } else if variadic && bh.flags.no_pop {
        acc.pops
    } else {
        if nm.pops > usize::MAX - acc.pops {
            return None;
        }
        acc.pops + nm.pops
    };
    let pushes1: usize = if variadic {
        if nm.pushes - 1 > usize::MAX - acc.pushes {
            return None;
        }
        acc.pushes + (nm.pushes - 1)
    } else {
        acc.pushes
    };
    if pops1 < bh.fragment.arguments_popped {
        return None;
    }
    if bh.fragment.arguments_pushed > usize::MAX - pushes1 {
        return None;
    }
    Some(StackMovement { pops: pops1 - bh.fragment.arguments_popped, pushes: pushes1 + bh.fragment.arguments_pushed })
}

fn combine_group_exec(acc: StackMovement, nm: StackMovement) -> (r: Option<StackMovement>)
    ensures
        r == combine_group(acc, nm),
{
    let pushed_before = acc.pushes;
    let taken = if nm.pops < acc.pushes { nm.pops } else { acc.pushes };
    let pushes = acc.pushes - taken;
    let extra = if nm.pops > pushed_before { nm.pops - pushed_before } else { 0 };
    if extra > usize::MAX - acc.pops {
        return None;
    }
    if nm.pushes > usize::MAX - pushes {
        return None;
    }
    Some(StackMovement { pops: acc.pops + extra, pushes: pushes + nm.pushes })
}

impl<'a> LexerValue<'a> {
    /// The movement of this value, taking the code nested in it from
    /// `next[*pos]` on: see [`movement`].
    pub fn get_stack_movement(&self, next: &Vec<LexerValue<'a>>, pos: &mut usize) -> (r: Option<StackMovement>)
        requires
            *old(pos) <= next@.len(),
        ensures
            match movement(self@, lex_models(next@), *old(pos) as int) {
                Some((m, p)) => r == Some(m) && *final(pos) == p,
                None => r is None,
            },
        decreases lex_size(self@) + seq_size(lex_models(next@).skip(*old(pos) as int)), 0int,
    {
        let ghost s = lex_models(next@);
        proof {
            lemma_lex_models_len(next@);
        }
        match self {
            LexerValue::Builtin(b) => {
                let ghost pos0 = *pos as int;
                let mut acc = StackMovement { pops: b.template.arguments_popped, pushes: b.template.arguments_pushed };
                let mut h: usize = 0;
                while h < b.bracket_handlers.len()
                    invariant
                        s == lex_models(next@),
                        s.len() == next@.len(),
                        pos0 <= *pos <= next@.len(),
                        pos0 == *old(pos) as int,
                        h <= b@.brackets.len(),
                        self@ == LexModel::Builtin(b@),
                        movement(self@, s, pos0) == builtin_movement_loop(b@, h as int, acc, s, *pos as int),
                        seq_size(s.skip(*pos as int)) <= seq_size(s.skip(pos0)),
                    decreases b@.brackets.len() - h,
                {
                    if *pos >= next.len() {
                        return None;
                    }
                    let p = *pos;
                    proof {
                        lemma_seq_size_skip(s, p as int);
                        lemma_lex_models_index(next@, p as int);
                    }
                    *pos = p + 1;
                    assert(next@[p as int]@ == s[p as int]);
                    assert(lex_size(next@[p as int]@) + seq_size(s.skip(p + 1)) < lex_size(self@) + seq_size(s.skip(pos0)));
                    let nm = match next[p].get_stack_movement(next, pos) {
                        Some(m) => m,
                        None => {
                            return None;
                        },
                    };
                    if *pos <= p || *pos > next.len() {
                        return None;
                    }
                    proof {
                        lemma_seq_size_skip_mono(s, p as int, *pos as int);
                    }
                    match combine_bracket_exec(b, h, acc, nm) {
                        Some(a) => {
                            acc = a;
                        },
                        None => {
                            return None;
                        },
                    }
                    h = h + 1;
                }
                Some(acc)
            },
            LexerValue::Comma => Some(StackMovement { pops: 1, pushes: 0 }),
            LexerValue::Literal(_) => Some(StackMovement { pops: 0, pushes: 1 }),
            LexerValue::Group(vs) => {
                let ghost g = lex_models(vs@);
                proof {
                    lemma_lex_models_len(vs@);
                    assert(g.skip(0) =~= g);
                }
                let mut acc = StackMovement { pops: 0, pushes: 0 };
                let mut i: usize = 0;
                while i < vs.len()
                    invariant
                        g == lex_models(vs@),
                        g.len() == vs@.len(),
                        i <= vs@.len(),
                        self@ == LexModel::Group(g),
                        group_movement_loop(g, 0, StackMovement { pops: 0, pushes: 0 }) == group_movement_loop(g, i as int, acc),
                        seq_size(g.skip(i as int)) <= seq_size(g),
                    decreases vs@.len() - i,
                {
                    let k = i;
                    proof {
                        lemma_seq_size_skip(g, k as int);
                        lemma_lex_models_index(vs@, k as int);
                    }
                    let mut j = k + 1;
                    assert(vs@[k as int]@ == g[k as int]);
                    let nm = match vs[k].get_stack_movement(vs, &mut j) {
                        Some(m) => m,
                        None => {
                            return None;
                        },
                    };
                    if j <= k || j > vs.len() {
                        return None;
                    }
                    proof {
                        lemma_seq_size_skip_mono(g, k as int, j as int);
                    }
                    match combine_group_exec(acc, nm) {
                        Some(a) => {
                            acc = a;
                        },
                        None => {
                            return None;
                        },
                    }
                    i = j;
                }
                Some(acc)
            },
        }
    }
}

/// The code in a bracket whose governing handler is not variadic and that
/// may read below pops all that it pops from below the builtin: the
/// builtin's pops grow by the code's pops less what the bracket's own
/// fragment takes, and its pushes grow by what that fragment pushes alone.
/// The result is there exactly when these counts stay in range.
pub proof fn lemma_bracket_code_pops_counted(b: BuiltinModel, h: int, acc: StackMovement, nm: StackMovement)
    requires
        0 <= h < b.brackets.len(),
        !(governing_handler(b, h) matches Some(l) && l.behavior == MultiOutputBehavior::Variadic),
        governing_handler(b, h) is Some || !b.brackets[h].flags.no_pop,
    ensures
        combine_bracket(b, h, acc, nm) == (if acc.pops + nm.pops <= usize::MAX && acc.pops + nm.pops
            >= b.brackets[h].fragment.popped && acc.pushes + b.brackets[h].fragment.pushed <= usize::MAX {
            Some(
                StackMovement {
                    pops: (acc.pops + nm.pops - b.brackets[h].fragment.popped) as usize,
                    pushes: (acc.pushes + b.brackets[h].fragment.pushed) as usize,
                },
            )
        } else {
            None
        }),
{
}

/// A bracket with no handler to govern it that reads nothing below leaves
/// the builtin's pops free of the code in it: only its own fragment counts.
pub proof fn lemma_bracket_no_pop_ignores_code(b: BuiltinModel, h: int, acc: StackMovement, nm: StackMovement)
    requires
        0 <= h < b.brackets.len(),
        governing_handler(b, h) is None,
        b.brackets[h].flags.no_pop,
    ensures
        combine_bracket(b, h, acc, nm) matches Some(r) ==> r.pops == acc.pops - b.brackets[h].fragment.popped
            && r.pushes == acc.pushes + b.brackets[h].fragment.pushed,
{
}

/// A builtin with one bracket, not variadic and reading below, moves the
/// stack as its template does plus the code in its bracket (the value that
/// follows it), less what the bracket's fragment takes: e.g. an array
/// builtin around a binary operator pops the operator's two values.
pub proof fn lemma_single_bracket_builtin_movement(b: BuiltinModel, s: Seq<LexModel>, pos: int)
    requires
        b.brackets.len() == 1,
        !(governing_handler(b, 0) matches Some(l) && l.behavior == MultiOutputBehavior::Variadic),
        governing_handler(b, 0) is Some || !b.brackets[0].flags.no_pop,
        0 <= pos < s.len(),
    ensures
        movement(LexModel::Builtin(b), s, pos) matches Some((m, p)) ==> movement(s[pos], s, pos + 1) matches Some(
            (nm, p2),
        ) && p == p2 && m.pops == b.template.popped + nm.pops - b.brackets[0].fragment.popped && m.pushes
            == b.template.pushed + b.brackets[0].fragment.pushed,
{
    let acc0 = StackMovement { pops: b.template.popped, pushes: b.template.pushed };
    assert(movement(LexModel::Builtin(b), s, pos) == builtin_movement_loop(b, 0, acc0, s, pos));
    if let Some((nm, p2)) = movement(s[pos], s, pos + 1) {
        if !(p2 <= pos || p2 > s.len()) {
            lemma_bracket_code_pops_counted(b, 0, acc0, nm);
            if let Some(acc2) = combine_bracket(b, 0, acc0, nm) {
                assert(builtin_movement_loop(b, 1, acc2, s, p2) == Some((acc2, p2)));
            }
        }
    }
}

// ---------------------------------------------------------------------------
// Composing the movements of groups

/// Whether no value at the top of `vs` is a builtin (groups nested in it
/// may hold builtins).
pub open spec fn no_top_builtins(vs: Seq<LexModel>) -> bool {
    forall|i: int| 0 <= i < vs.len() ==> !(#[trigger] vs[i] is Builtin)
}

/// The movement of a value that takes no code after it: a literal pushes
/// one value, a comma pops one, a group moves as its values do.
pub open spec fn value_movement(v: LexModel) -> Option<StackMovement> {
    match v {
        LexModel::Literal(_) => Some(StackMovement { pops: 0, pushes: 1 }),
        LexModel::Comma => Some(StackMovement { pops: 1, pushes: 0 }),
        LexModel::Group(ws) => group_movement_loop(ws, 0, StackMovement { pops: 0, pushes: 0 }),
        LexModel::Builtin(_) => None,
    }
}

/// A movement as a pair of unbounded counts: pops, then pushes.
pub open spec fn counts(m: StackMovement) -> (int, int) {
    (m.pops as int, m.pushes as int)
}

/// Movement `a` followed by movement `b`: `b`'s pops take `a`'s pushes
/// first and only the rest from below, so that the pops are
/// `a.0 + max(b.0 - a.1, 0)` and the pushes `max(a.1 - b.0, 0) + b.1`.
pub open spec fn compose(a: (int, int), b: (int, int)) -> (int, int) {
    let taken = if b.0 < a.1 { b.0 } else { a.1 };
    (a.0 + (b.0 - taken), a.1 - taken + b.1)
}

/// The movement of the values `ws` after movement `acc`, in unbounded
/// counts; `None` when a nested group has no movement.
pub open spec fn counts_after(ws: Seq<LexModel>, acc: (int, int)) -> Option<(int, int)>
    decreases ws.len(),
{
    if ws.len() == 0 {
        Some(acc)
    } else {
        match value_movement(ws[0]) {
            None => None,
            Some(m) => counts_after(ws.drop_first(), compose(acc, counts(m))),
        }
    }
}

proof fn lemma_compose_assoc(a: (int, int), b: (int, int), c: (int, int))
    requires
        a.0 >= 0 && a.1 >= 0 && b.0 >= 0 && b.1 >= 0 && c.0 >= 0 && c.1 >= 0,
    ensures
        compose(compose(a, b), c) == compose(a, compose(b, c)),
        compose(a, b).0 >= 0 && compose(a, b).1 >= 0,
{
}

proof fn lemma_combine_group_counts(acc: StackMovement, nm: StackMovement)
    ensures
        combine_group(acc, nm) matches Some(r) ==> counts(r) == compose(counts(acc), counts(nm)),
{
}

proof fn lemma_loop_counts(vs: Seq<LexModel>, i: int, acc: StackMovement)
    requires
        no_top_builtins(vs),
        0 <= i <= vs.len(),
    ensures
        group_movement_loop(vs, i, acc) matches Some(m) ==> counts_after(vs.skip(i), counts(acc)) == Some(counts(m)),
    decreases vs.len() - i,
{
    if i == vs.len() {
        assert(vs.skip(i).len() == 0);
    } else {
        let v = vs[i];
        assert(!(v is Builtin));
        assert(vs.skip(i)[0] == v);
        assert(vs.skip(i).drop_first() =~= vs.skip(i + 1));
        if let Some((nm, p2)) = movement(v, vs, i + 1) {
            assert(p2 == i + 1);
            assert(value_movement(v) == Some(nm));
            lemma_combine_group_counts(acc, nm);
            if let Some(acc2) = combine_group(acc, nm) {
                lemma_loop_counts(vs, i + 1, acc2);
            }
        }
    }
}

proof fn lemma_counts_concat(xs: Seq<LexModel>, ys: Seq<LexModel>, acc: (int, int))
    ensures
        counts_after(xs + ys, acc) == match counts_after(xs, acc) {
            None => None,
            Some(a) => counts_after(ys, a),
        },
    decreases xs.len(),
{
    if xs.len() == 0 {
        assert(xs + ys =~= ys);
    } else {
        assert((xs + ys)[0] == xs[0]);
        assert((xs + ys).drop_first() =~= xs.drop_first() + ys);
        if let Some(m) = value_movement(xs[0]) {
            lemma_counts_concat(xs.drop_first(), ys, compose(acc, counts(m)));
        }
    }
}

proof fn lemma_counts_shift(ys: Seq<LexModel>, acc: (int, int))
    requires
        acc.0 >= 0 && acc.1 >= 0,
    ensures
        counts_after(ys, acc) == match counts_after(ys, (0int, 0int)) {
            None => None,
            Some(b) => Some(compose(acc, b)),
        },
        counts_after(ys, acc) matches Some(r) ==> r.0 >= 0 && r.1 >= 0,
    decreases ys.len(),
{
    if ys.len() > 0 {
        if let Some(m) = value_movement(ys[0]) {
            let rest = ys.drop_first();
            let mc = counts(m);
            lemma_compose_assoc((0int, 0int), mc, (0int, 0int));
            assert(compose((0int, 0int), mc) == mc);
            lemma_compose_assoc(acc, mc, (0int, 0int));
            lemma_counts_shift(rest, compose(acc, mc));
            lemma_counts_shift(rest, mc);
            if let Some(r) = counts_after(rest, (0int, 0int)) {
                lemma_counts_shift(rest, (0int, 0int));
                lemma_compose_assoc(acc, mc, r);
            }
        }
    }
}

/// The movement of a group whose values are those of `xs` and then those of
/// `ys`, none of them a builtin at the top, is that of `xs` followed by that
/// of `ys`: the pops of `ys` take the pushes of `xs` first, so the group
/// pops `a.pops + max(b.pops - a.pushes, 0)` and pushes
/// `max(a.pushes - b.pops, 0) + b.pushes`. (This is the movement that
/// `get_stack_movement` gives a group, where all three fit in a `usize`.)
pub proof fn lemma_group_movement_concat(xs: Seq<LexModel>, ys: Seq<LexModel>)
    requires
        no_top_builtins(xs),
        no_top_builtins(ys),
    ensures
        ({
            let zero = StackMovement { pops: 0, pushes: 0 };
            let a = group_movement_loop(xs, 0, zero);
            let b = group_movement_loop(ys, 0, zero);
            let c = group_movement_loop(xs + ys, 0, zero);
            a is Some && b is Some && c is Some ==> {
                &&& c->0.pops == a->0.pops + (if b->0.pops > a->0.pushes { b->0.pops - a->0.pushes } else { 0 })
                &&& c->0.pushes == (if a->0.pushes > b->0.pops { a->0.pushes - b->0.pops } else { 0 }) + b->0.pushes
            }
        }),
{
    let zero = StackMovement { pops: 0, pushes: 0 };
    let zs = xs + ys;
    assert(no_top_builtins(zs)) by {
        assert forall|i: int| 0 <= i < zs.len() implies !(#[trigger] zs[i] is Builtin) by {
            if i < xs.len() {
                assert(zs[i] == xs[i]);
            } else {
                assert(zs[i] == ys[i - xs.len()]);
            }
        }
    }
    assert(xs.skip(0) =~= xs);
    assert(ys.skip(0) =~= ys);
    assert(zs.skip(0) =~= zs);
    lemma_loop_counts(xs, 0, zero);
    lemma_loop_counts(ys, 0, zero);
    lemma_loop_counts(zs, 0, zero);
    lemma_counts_concat(xs, ys, (0int, 0int));
    if let Some(a) = group_movement_loop(xs, 0, zero) {
        lemma_counts_shift(ys, counts(a));
    }
}

} // verus!
