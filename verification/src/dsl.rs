//! The template language that builtins are written in.
//!
//! A template is text with substitutions in single braces: `{name:in}` reads
//! an input variable, `{name:out}` defines an output variable, `{name:local}`
//! names a local variable, and `{inner}` marks where nested code goes,
//! splitting the template into an init half and a destruct half. `{{` and
//! `}}` stand for literal braces. Line breaks become newline tokens, and a
//! change of indentation from one line to the next becomes an indent or a
//! dedent token.

use vstd::prelude::*;
use crate::template::{TemplateToken, TokenModel, Output, OutputModel, ProgramFragment, FragmentModel, tokens_model};
use crate::text::{is_whitespace, is_whitespace_spec, push_char, chars_of};

verus! {

/// Why a template was refused.
#[derive(Debug, PartialEq, Eq, Structural)]
pub enum DslError {
    /// A substitution is none of `inner`, `name:in`, `name:out`, `name:local`.
    UnexpectedVariableName,
    /// A `}` outside a substitution that is not followed by another `}`.
    UnexpectedClosingBrace,
    /// The template ends inside a substitution.
    UnterminatedSubstitution,
    /// A half fragment holds an `{inner}`.
    HalfFragmentHasMiddle,
    /// A fragment holds more than one `{inner}`.
    MoreThanOneInner,
}

// ---------------------------------------------------------------------------
// Text helpers

/// `s` without its leading whitespace.
pub open spec fn trim_start(s: Seq<char>) -> Seq<char>
    decreases s.len(),
{
    if s.len() > 0 && is_whitespace_spec(s[0]) {
        trim_start(s.drop_first())
    } else {
        s
    }
}

/// `s` without its trailing whitespace.
pub open spec fn trim_end(s: Seq<char>) -> Seq<char>
    decreases s.len(),
{
    if s.len() > 0 && is_whitespace_spec(s.last()) {
        trim_end(s.drop_last())
    } else {
        s
    }
}

/// `s` without leading or trailing whitespace, as `str::trim` gives it.
pub open spec fn trim(s: Seq<char>) -> Seq<char> {
    trim_end(trim_start(s))
}

/// The pieces of `s` between colons, as `str::split(':')` gives them: always
/// at least one, possibly empty.
pub open spec fn split_colon(s: Seq<char>) -> Seq<Seq<char>>
    decreases s.len(),
{
    if s.len() == 0 {
        seq![Seq::<char>::empty()]
    } else {
        let r = split_colon(s.drop_last());
        if s.last() == ':' {
            r.push(Seq::<char>::empty())
        } else {
            r.update(r.len() - 1, r.last().push(s.last()))
        }
    }
}

proof fn lemma_split_colon_nonempty(s: Seq<char>)
    ensures
        split_colon(s).len() >= 1,
    decreases s.len(),
{
    if s.len() > 0 {
        lemma_split_colon_nonempty(s.drop_last());
    }
}

/// The bounds of `s[lo..hi]` with whitespace trimmed from both ends.
fn trim_bounds(s: &[char], lo: usize, hi: usize) -> (r: (usize, usize))
    requires
        lo <= hi <= s@.len(),
    ensures
        lo <= r.0 <= r.1 <= hi,
        s@.subrange(r.0 as int, r.1 as int) == trim(s@.subrange(lo as int, hi as int)),
{
    let mut a = lo;
    while a < hi && is_whitespace(s[a])
        invariant
            lo <= a <= hi <= s@.len(),
            trim_start(s@.subrange(lo as int, hi as int)) == trim_start(s@.subrange(a as int, hi as int)),
        decreases hi - a,
    {
        assert(s@.subrange(a as int, hi as int).drop_first() == s@.subrange(a + 1, hi as int));
        a = a + 1;
    }
    let mut b = hi;
    while b > a && is_whitespace(s[b - 1])
        invariant
            lo <= a <= b <= hi <= s@.len(),
            trim_end(s@.subrange(a as int, hi as int)) == trim_end(s@.subrange(a as int, b as int)),
        decreases b - a,
    {
        assert(s@.subrange(a as int, b as int).drop_last() == s@.subrange(a as int, b - 1));
        b = b - 1;
    }
    (a, b)
}

/// Whether `a` and `b` hold the same characters.
pub fn chars_equal(a: &[char], b: &[char]) -> (r: bool)
    ensures
        r == (a@ == b@),
{
    if a.len() != b.len() {
        return false;
    }
    let mut i: usize = 0;
    while i < a.len()
        invariant
            a@.len() == b@.len(),
            i <= a@.len(),
            forall|j: int| 0 <= j < i ==> a@[j] == b@[j],
        decreases a@.len() - i,
    {
        if a[i] != b[i] {
            return false;
        }
        i = i + 1;
    }
    assert(a@ == b@);
    true
}

/// A string of the characters `s[lo..hi]`.
pub fn string_of_range(s: &[char], lo: usize, hi: usize) -> (r: String)
    requires
        lo <= hi <= s@.len(),
    ensures
        r@ == s@.subrange(lo as int, hi as int),
{
    let mut r = String::new();
    let mut i = lo;
    while i < hi
        invariant
            lo <= i <= hi <= s@.len(),
            r@ == s@.subrange(lo as int, i as int),
        decreases hi - i,
    {
        push_char(&mut r, s[i]);
        assert(s@.subrange(lo as int, i + 1) == s@.subrange(lo as int, i as int).push(s@[i as int]));
        i = i + 1;
    }
    r
}

/// The characters `s[lo..hi]`.
fn chars_of_range(s: &[char], lo: usize, hi: usize) -> (r: Vec<char>)
    requires
        lo <= hi <= s@.len(),
    ensures
        r@ == s@.subrange(lo as int, hi as int),
{
    let mut r: Vec<char> = Vec::new();
    let mut i = lo;
    while i < hi
        invariant
            lo <= i <= hi <= s@.len(),
            r@ == s@.subrange(lo as int, i as int),
        decreases hi - i,
    {
        r.push(s[i]);
        assert(s@.subrange(lo as int, i + 1) == s@.subrange(lo as int, i as int).push(s@[i as int]));
        i = i + 1;
    }
    r
}

// ---------------------------------------------------------------------------
// Substitutions

/// What a substitution `{...}` asks for.
pub enum Substitution {
    Inner,
    In(Seq<char>),
    Out(Seq<char>),
    Local(Seq<char>),
    Invalid,
}

/// The text `inner`.
pub open spec fn inner_word() -> Seq<char> {
    seq!['i', 'n', 'n', 'e', 'r']
}

/// The text `in`.
pub open spec fn in_word() -> Seq<char> {
    seq!['i', 'n']
}

/// The text `out`.
pub open spec fn out_word() -> Seq<char> {
    seq!['o', 'u', 't']
}

/// The text `local`.
pub open spec fn local_word() -> Seq<char> {
    seq!['l', 'o', 'c', 'a', 'l']
}

/// The pieces of a substitution's text: split at colons and trimmed.
pub open spec fn substitution_parts(text: Seq<char>) -> Seq<Seq<char>> {
    split_colon(trim(text)).map_values(|p: Seq<char>| trim(p))
}

/// How the text between the braces of a substitution is read.
pub open spec fn classify(text: Seq<char>) -> Substitution {
    let parts = substitution_parts(text);
    if parts.len() == 1 && parts[0] == inner_word() {
        Substitution::Inner
    } else if parts.len() == 2 && parts[1] == in_word() {
        Substitution::In(parts[0])
    } else if parts.len() == 2 && parts[1] == out_word() {
        Substitution::Out(parts[0])
    } else if parts.len() == 2 && parts[1] == local_word() {
        Substitution::Local(parts[0])
    } else {
        Substitution::Invalid
    }
}

enum ExecSubstitution {
    Inner,
    In(String),
    Out(String),
    Local(String),
    Invalid,
}

spec fn exec_substitution_model(e: ExecSubstitution) -> Substitution {
    match e {
        ExecSubstitution::Inner => Substitution::Inner,
        ExecSubstitution::In(s) => Substitution::In(s@),
        ExecSubstitution::Out(s) => Substitution::Out(s@),
        ExecSubstitution::Local(s) => Substitution::Local(s@),
        ExecSubstitution::Invalid => Substitution::Invalid,
    }
}

fn classify_substitution(s: &[char], lo: usize, hi: usize) -> (r: ExecSubstitution)
    requires
        lo <= hi <= s@.len(),
    ensures
        exec_substitution_model(r) == classify(s@.subrange(lo as int, hi as int)),
{
    let ghost text = s@.subrange(lo as int, hi as int);
    let (a, b) = trim_bounds(s, lo, hi);
    let ghost t = s@.subrange(a as int, b as int);
    // split at colons
    let mut done: Vec<(usize, usize)> = Vec::new();
    let mut start = a;
    let mut i = a;
    assert(t.subrange(0, 0) =~= Seq::<char>::empty());
    assert(s@.subrange(a as int, a as int) =~= Seq::<char>::empty());
    assert(done@.map_values(|p: (usize, usize)| s@.subrange(p.0 as int, p.1 as int)) =~= Seq::<Seq<char>>::empty());
    while i < b
        invariant
            a <= start <= i <= b <= s@.len(),
            t == s@.subrange(a as int, b as int),
            forall|k: int| 0 <= k < done@.len() ==> a <= #[trigger] done@[k].0 <= done@[k].1 <= b,
            split_colon(t.subrange(0, i - a)) == done@.map_values(
                |p: (usize, usize)| s@.subrange(p.0 as int, p.1 as int),
            ).push(s@.subrange(start as int, i as int)),
        decreases b - i,
    {
        let ghost prefix = t.subrange(0, i - a);
        assert(t.subrange(0, i + 1 - a).drop_last() == prefix);
        assert(t.subrange(0, i + 1 - a).last() == s@[i as int]);
        if s[i] == ':' {
            let ghost old_done = done@;
            done.push((start, i));
            assert(done@.map_values(|p: (usize, usize)| s@.subrange(p.0 as int, p.1 as int))
                == old_done.map_values(|p: (usize, usize)| s@.subrange(p.0 as int, p.1 as int)).push(
                s@.subrange(start as int, i as int),
            ));
            start = i + 1;
            assert(s@.subrange(start as int, (i + 1) as int) == Seq::<char>::empty());
        } else {
            assert(s@.subrange(start as int, i + 1) == s@.subrange(start as int, i as int).push(
                s@[i as int],
            ));
        }
        i = i + 1;
    }
    assert(t.subrange(0, b - a) == t);
    done.push((start, b));
    let ghost parts_raw = done@.map_values(|p: (usize, usize)| s@.subrange(p.0 as int, p.1 as int));
    assert(parts_raw == split_colon(t));
    let ghost parts = substitution_parts(text);
    assert(parts == parts_raw.map_values(|p: Seq<char>| trim(p)));
    let n = done.len();
    if n == 1 {
        let (x, y) = trim_bounds(s, done[0].0, done[0].1);
        assert(s@.subrange(x as int, y as int) == parts[0]);
        let word: Vec<char> = vec!['i', 'n', 'n', 'e', 'r'];
        assert(word@ == inner_word());
        let piece = chars_of_range(s, x, y);
        if chars_equal(piece.as_slice(), word.as_slice()) {
            return ExecSubstitution::Inner;
        }
        return ExecSubstitution::Invalid;
    } else if n == 2 {
        let (x, y) = trim_bounds(s, done[1].0, done[1].1);
        assert(s@.subrange(x as int, y as int) == parts[1]);
        let (nx, ny) = trim_bounds(s, done[0].0, done[0].1);
        assert(s@.subrange(nx as int, ny as int) == parts[0]);
        let piece = chars_of_range(s, x, y);
        let w_in: Vec<char> = vec!['i', 'n'];
        let w_out: Vec<char> = vec!['o', 'u', 't'];
        let w_local: Vec<char> = vec!['l', 'o', 'c', 'a', 'l'];
        assert(w_in@ == in_word());
        assert(w_out@ == out_word());
        assert(w_local@ == local_word());
        if chars_equal(piece.as_slice(), w_in.as_slice()) {
            return ExecSubstitution::In(string_of_range(s, nx, ny));
        } else if chars_equal(piece.as_slice(), w_out.as_slice()) {
            return ExecSubstitution::Out(string_of_range(s, nx, ny));
        } else if chars_equal(piece.as_slice(), w_local.as_slice()) {
            return ExecSubstitution::Local(string_of_range(s, nx, ny));
        }
        return ExecSubstitution::Invalid;
    }
    ExecSubstitution::Invalid
}


// ---------------------------------------------------------------------------
// Variables

/// The texts of a list of strings.
pub open spec fn strings_model(v: Seq<String>) -> Seq<Seq<char>> {
    v.map_values(|s: String| s@)
}

/// The first position of `name` in `items`, if it occurs.
pub open spec fn first_index(items: Seq<Seq<char>>, name: Seq<char>) -> Option<nat>
    decreases items.len(),
{
    if items.len() == 0 {
        None
    } else {
        match first_index(items.drop_last(), name) {
            Some(i) => Some(i),
            None => if items.last() == name { Some((items.len() - 1) as nat) } else { None },
        }
    }
}

/// `items` after looking `name` up in it, adding it at the end if missing,
/// and the position found.
pub open spec fn index_or_new_spec(items: Seq<Seq<char>>, name: Seq<char>) -> (Seq<Seq<char>>, nat) {
    match first_index(items, name) {
        Some(i) => (items, i),
        None => (items.push(name), items.len()),
    }
}

proof fn lemma_first_index_bound(items: Seq<Seq<char>>, name: Seq<char>)
    ensures
        first_index(items, name) matches Some(i) ==> i < items.len() && items[i as int] == name,
    decreases items.len(),
{
    if items.len() > 0 {
        lemma_first_index_bound(items.drop_last(), name);
    }
}

/// The position of `name` in `items`, which gets it appended if missing.
pub fn index_or_new(items: &mut Vec<String>, name: &String) -> (r: usize)
    ensures
        (strings_model(final(items)@), r as nat) == index_or_new_spec(strings_model(old(items)@), name@),
{
    let ghost m = strings_model(items@);
    let mut i: usize = 0;
    while i < items.len()
        invariant
            i <= items@.len(),
            m == strings_model(items@),
            first_index(m.subrange(0, i as int), name@) is None,
        decreases items@.len() - i,
    {
        assert(m.subrange(0, i + 1).drop_last() == m.subrange(0, i as int));
        if items[i] == *name {
            assert(first_index(m.subrange(0, i + 1), name@) == Some(i as nat));
            proof {
                lemma_first_index_prefix(m, name@, i as int);
            }
            return i;
        }
        i = i + 1;
    }
    assert(m.subrange(0, m.len() as int) == m);
    items.push(name.clone());
    assert(strings_model(items@) == m.push(name@));
    items.len() - 1
}

proof fn lemma_first_index_prefix(m: Seq<Seq<char>>, name: Seq<char>, i: int)
    requires
        0 <= i < m.len(),
        first_index(m.subrange(0, i + 1), name) == Some(i as nat),
    ensures
        first_index(m, name) == Some(i as nat),
    decreases m.len(),
{
    if m.len() == i + 1 {
        assert(m.subrange(0, i + 1) == m);
    } else {
        assert(m.drop_last().subrange(0, i + 1) == m.subrange(0, i + 1));
        lemma_first_index_prefix(m.drop_last(), name, i);
    }
}

proof fn lemma_first_index_none(items: Seq<Seq<char>>, name: Seq<char>)
    ensures
        first_index(items, name) is None ==> forall|k: int| 0 <= k < items.len() ==> items[k] != name,
    decreases items.len(),
{
    if items.len() > 0 {
        lemma_first_index_none(items.drop_last(), name);
        if first_index(items, name) is None {
            assert forall|k: int| 0 <= k < items.len() implies items[k] != name by {
                if k < items.len() - 1 {
                    assert(items[k] == items.drop_last()[k]);
                }
            }
        }
    }
}

/// Whether no name occurs twice in `items`.
pub open spec fn no_repeats(items: Seq<Seq<char>>) -> bool {
    forall|i: int, j: int| 0 <= i < j < items.len() ==> items[i] != items[j]
}

/// Looking a name up: afterwards it is at the index given, the names that
/// were there keep their places, a list without repeats stays without
/// repeats, and looking the same name up again gives the same index and
/// adds nothing.
pub proof fn lemma_index_or_new(items: Seq<Seq<char>>, name: Seq<char>)
    ensures
        ({
            let (items2, i) = index_or_new_spec(items, name);
            &&& i < items2.len()
            &&& items2[i as int] == name
            &&& items.is_prefix_of(items2)
            &&& (no_repeats(items) ==> no_repeats(items2))
            &&& index_or_new_spec(items2, name) == (items2, i)
        }),
{
    lemma_first_index_bound(items, name);
    lemma_first_index_none(items, name);
    let (items2, i) = index_or_new_spec(items, name);
    if first_index(items, name) is None {
        assert(items2.drop_last() =~= items);
        assert(items2.subrange(0, items.len() as int) =~= items);
        assert(first_index(items2, name) == Some(items.len() as nat));
    } else {
        assert(items.subrange(0, items.len() as int) =~= items);
    }
}

/// The input and output variable names met so far, in order of first use.
pub struct Variables {
    pub ins: Vec<String>,
    pub outs: Vec<String>,
}

impl Default for Variables {
    fn default() -> (r: Variables)
        ensures
            strings_model(r.ins@) == Seq::<Seq<char>>::empty(),
            strings_model(r.outs@) == Seq::<Seq<char>>::empty(),
    {
        let r = Variables { ins: Vec::new(), outs: Vec::new() };
        assert(strings_model(r.ins@) =~= Seq::<Seq<char>>::empty());
        assert(strings_model(r.outs@) =~= Seq::<Seq<char>>::empty());
        r
    }
}

impl Variables {
    /// The index of input variable `name`, numbering new names in order.
    pub fn lookup_in(&mut self, name: &String) -> (r: usize)
        ensures
            (strings_model(final(self).ins@), r as nat) == index_or_new_spec(strings_model(old(self).ins@), name@),
            final(self).outs@ == old(self).outs@,
    {
        index_or_new(&mut self.ins, name)
    }

    /// The index of output variable `name`, numbering new names in order.
    pub fn lookup_out(&mut self, name: &String) -> (r: usize)
        ensures
            (strings_model(final(self).outs@), r as nat) == index_or_new_spec(strings_model(old(self).outs@), name@),
            final(self).ins@ == old(self).ins@,
    {
        index_or_new(&mut self.outs, name)
    }
}

// ---------------------------------------------------------------------------
// Indentation

/// Skipping the spaces and line breaks from `pos` on, with `count` spaces
/// already seen on the current line: the number of spaces on the last line
/// skipped, and the position after them.
pub open spec fn skip_indents_spec(s: Seq<char>, pos: int, count: nat) -> (nat, int)
    decreases s.len() - pos,
{
    if 0 <= pos < s.len() && s[pos] == ' ' {
        skip_indents_spec(s, pos + 1, count + 1)
    } else if 0 <= pos < s.len() && s[pos] == '\n' {
        skip_indents_spec(s, pos + 1, 0)
    } else {
        (count, pos)
    }
}

/// Skipping indentation stays within the template and moves forward.
pub proof fn lemma_skip_indents_bounds(s: Seq<char>, pos: int, count: nat)
    requires
        0 <= pos <= s.len(),
    ensures
        pos <= skip_indents_spec(s, pos, count).1 <= s.len(),
        skip_indents_spec(s, pos, count).0 <= count + skip_indents_spec(s, pos, count).1 - pos,
    decreases s.len() - pos,
{
    if pos < s.len() && (s[pos] == ' ' || s[pos] == '\n') {
        lemma_skip_indents_bounds(s, pos + 1, if s[pos] == ' ' { count + 1 } else { 0 });
    }
}

/// Skips spaces and line breaks from `pos` on; returns the number of spaces
/// on the last line skipped.
pub fn skip_indents(s: &[char], pos: &mut usize) -> (r: usize)
    requires
        *old(pos) <= s@.len(),
    ensures
        (r as nat, *final(pos) as int) == skip_indents_spec(s@, *old(pos) as int, 0),
        *old(pos) <= *final(pos) <= s@.len(),
{
    let mut number_of_spaces: usize = 0;
    while *pos < s.len() && (s[*pos] == ' ' || s[*pos] == '\n')
        invariant
            *old(pos) <= *pos <= s@.len(),
            number_of_spaces <= *pos - *old(pos),
            skip_indents_spec(s@, *pos as int, number_of_spaces as nat) == skip_indents_spec(s@, *old(pos) as int, 0),
        decreases s@.len() - *pos,
    {
        if s[*pos] == ' ' {
            number_of_spaces = number_of_spaces + 1;
        } else {
            number_of_spaces = 0;
        }
        *pos = *pos + 1;
    }
    number_of_spaces
}

// ---------------------------------------------------------------------------
// Parsing one half of a template

/// A text token for `v`, or nothing when `v` is empty.
pub open spec fn wrap_text(v: Seq<char>) -> Seq<TokenModel> {
    if v.len() > 0 {
        seq![TokenModel::Text(OutputModel::Text(v))]
    } else {
        Seq::empty()
    }
}

/// The state of the parser of one half: the next position, where the
/// pending literal text starts, the tokens so far, whether it is inside a
/// substitution, the current indentation and the variables met so far.
pub struct HalfState {
    pub pos: int,
    pub group_start: int,
    pub tokens: Seq<TokenModel>,
    pub in_sub: bool,
    pub indentation: nat,
    pub ins: Seq<Seq<char>>,
    pub outs: Seq<Seq<char>>,
}

/// What parsing one half gives: its tokens, where it stopped, and the
/// indentation and variables after it.
pub struct HalfResult {
    pub tokens: Seq<TokenModel>,
    pub pos: int,
    pub indentation: nat,
    pub ins: Seq<Seq<char>>,
    pub outs: Seq<Seq<char>>,
}

/// The tokens for a change of line, from indentation `old` to `new`.
pub open spec fn line_break_tokens(old: nat, new: nat) -> Seq<TokenModel> {
    if new > old {
        seq![TokenModel::Text(OutputModel::Indent), TokenModel::Text(OutputModel::NewLine)]
    } else if new < old {
        seq![TokenModel::Text(OutputModel::Dedent), TokenModel::Text(OutputModel::NewLine)]
    } else {
        seq![TokenModel::Text(OutputModel::NewLine)]
    }
}

/// Runs the parser of one half from state `st` to its end.
pub open spec fn half_parse_loop(s: Seq<char>, st: HalfState) -> Result<HalfResult, DslError>
    decreases s.len() - st.pos,
{
    if st.pos < 0 || st.pos >= s.len() {
        if st.in_sub {
            Err(DslError::UnterminatedSubstitution)
        } else {
            Ok(HalfResult {
                tokens: (st.tokens + wrap_text(s.subrange(st.group_start, s.len() as int))).push(
                    TokenModel::Text(OutputModel::NewLine),
                ),
                pos: st.pos,
                indentation: st.indentation,
                ins: st.ins,
                outs: st.outs,
            })
        }
    } else {
        let index = st.pos;
        let c = s[index];
        let text = s.subrange(st.group_start, index);
        if st.in_sub {
            if c == '}' {
                let next = HalfState { pos: index + 1, group_start: index + 1, in_sub: false, ..st };
                match classify(text) {
                    Substitution::Inner => Ok(HalfResult {
                        tokens: st.tokens,
                        pos: index + 1,
                        indentation: st.indentation,
                        ins: st.ins,
                        outs: st.outs,
                    }),
                    Substitution::In(name) => {
                        let (ins, i) = index_or_new_spec(st.ins, name);
                        half_parse_loop(s, HalfState { tokens: st.tokens.push(TokenModel::InVar(i as usize)), ins, ..next })
                    },
                    Substitution::Out(name) => {
                        let (outs, i) = index_or_new_spec(st.outs, name);
                        half_parse_loop(s, HalfState { tokens: st.tokens.push(TokenModel::OutVar(i as usize)), outs, ..next })
                    },
                    Substitution::Local(name) => half_parse_loop(
                        s,
                        HalfState { tokens: st.tokens.push(TokenModel::LocalVar(name)), ..next },
                    ),
                    Substitution::Invalid => Err(DslError::UnexpectedVariableName),
                }
            } else {
                half_parse_loop(s, HalfState { pos: index + 1, ..st })
            }
        } else if c == '}' {
            if index + 1 < s.len() && s[index + 1] == '}' {
                half_parse_loop(
                    s,
                    HalfState {
                        pos: index + 2,
                        group_start: index + 1,
                        tokens: st.tokens + wrap_text(text),
                        ..st
                    },
                )
            } else {
                Err(DslError::UnexpectedClosingBrace)
            }
        } else if c == '{' {
            if index + 1 < s.len() && s[index + 1] == '{' {
                half_parse_loop(
                    s,
                    HalfState {
                        pos: index + 2,
                        group_start: index + 1,
                        tokens: st.tokens + wrap_text(text),
                        ..st
                    },
                )
            } else {
                half_parse_loop(
                    s,
                    HalfState {
                        pos: if index + 1 < s.len() { index + 2 } else { index + 1 },
                        group_start: index + 1,
                        tokens: st.tokens + wrap_text(text),
                        in_sub: true,
                        ..st
                    },
                )
            }
        } else if c == '\n' {
            let (spaces, after) = skip_indents_spec(s, index + 1, 0);
            proof {
                lemma_skip_indents_bounds(s, index + 1, 0);
            }
            let tokens = st.tokens + wrap_text(text);
            if after < s.len() {
                half_parse_loop(
                    s,
                    HalfState {
                        pos: after,
                        group_start: after,
                        tokens: tokens + line_break_tokens(st.indentation, spaces),
                        indentation: spaces,
                        ..st
                    },
                )
            } else {
                half_parse_loop(s, HalfState { pos: after, group_start: after, tokens, ..st })
            }
        } else {
            half_parse_loop(s, HalfState { pos: index + 1, ..st })
        }
    }
}

/// Parses one half of a template from `pos`, with the given indentation and
/// variables: the tokens up to an `{inner}` (not included) or, failing one,
/// to the end followed by a newline; nothing at all at the end of the text.
pub open spec fn half_parse_spec(
    s: Seq<char>,
    pos: int,
    indentation: nat,
    ins: Seq<Seq<char>>,
    outs: Seq<Seq<char>>,
) -> Result<HalfResult, DslError> {
    if pos >= s.len() {
        Ok(HalfResult { tokens: Seq::empty(), pos, indentation, ins, outs })
    } else {
        half_parse_loop(
            s,
            HalfState { pos, group_start: pos, tokens: Seq::empty(), in_sub: false, indentation, ins, outs },
        )
    }
}

proof fn lemma_half_parse_loop_pos(s: Seq<char>, st: HalfState)
    requires
        0 <= st.pos <= s.len(),
    ensures
        half_parse_loop(s, st) matches Ok(r) ==> st.pos <= r.pos <= s.len(),
    decreases s.len() - st.pos,
{
    if st.pos < s.len() {
        let index = st.pos;
        let c = s[index];
        if c == '\n' {
            lemma_skip_indents_bounds(s, index + 1, 0);
        }
        if st.in_sub {
            if c == '}' {
                let text = s.subrange(st.group_start, index);
                let next = HalfState { pos: index + 1, group_start: index + 1, in_sub: false, ..st };
                match classify(text) {
                    Substitution::In(name) => {
                        let (ins, i) = index_or_new_spec(st.ins, name);
                        lemma_half_parse_loop_pos(s, HalfState { tokens: st.tokens.push(TokenModel::InVar(i as usize)), ins, ..next });
                    },
                    Substitution::Out(name) => {
                        let (outs, i) = index_or_new_spec(st.outs, name);
                        lemma_half_parse_loop_pos(s, HalfState { tokens: st.tokens.push(TokenModel::OutVar(i as usize)), outs, ..next });
                    },
                    Substitution::Local(name) => {
                        lemma_half_parse_loop_pos(s, HalfState { tokens: st.tokens.push(TokenModel::LocalVar(name)), ..next });
                    },
                    _ => {},
                }
            } else {
                lemma_half_parse_loop_pos(s, HalfState { pos: index + 1, ..st });
            }
        } else if c == '}' {
            if index + 1 < s.len() && s[index + 1] == '}' {
                lemma_half_parse_loop_pos(s, HalfState { pos: index + 2, group_start: index + 1, tokens: st.tokens + wrap_text(s.subrange(st.group_start, index)), ..st });
            }
        } else if c == '{' {
            let text = s.subrange(st.group_start, index);
            if index + 1 < s.len() && s[index + 1] == '{' {
                lemma_half_parse_loop_pos(s, HalfState { pos: index + 2, group_start: index + 1, tokens: st.tokens + wrap_text(text), ..st });
            } else {
                lemma_half_parse_loop_pos(s, HalfState { pos: if index + 1 < s.len() { index + 2 } else { index + 1 }, group_start: index + 1, tokens: st.tokens + wrap_text(text), in_sub: true, ..st });
            }
        } else if c == '\n' {
            let (spaces, after) = skip_indents_spec(s, index + 1, 0);
            let tokens = st.tokens + wrap_text(s.subrange(st.group_start, index));
            if after < s.len() {
                lemma_half_parse_loop_pos(s, HalfState { pos: after, group_start: after, tokens: tokens + line_break_tokens(st.indentation, spaces), indentation: spaces, ..st });
            } else {
                lemma_half_parse_loop_pos(s, HalfState { pos: after, group_start: after, tokens, ..st });
            }
        } else {
            lemma_half_parse_loop_pos(s, HalfState { pos: index + 1, ..st });
        }
    }
}


proof fn lemma_tokens_model_push(v: Seq<TemplateToken>, t: TemplateToken)
    ensures
        tokens_model(v.push(t)) == tokens_model(v).push(t@),
{
    assert(tokens_model(v.push(t)) =~= tokens_model(v).push(t@));
}

/// Appends a text token for `s[lo..hi]` to `tokens`, unless it is empty.
fn push_text(tokens: &mut Vec<TemplateToken>, s: &[char], lo: usize, hi: usize)
    requires
        lo <= hi <= s@.len(),
    ensures
        tokens_model(final(tokens)@) == tokens_model(old(tokens)@) + wrap_text(s@.subrange(lo as int, hi as int)),
{
    if lo < hi {
        let t = TemplateToken::String(Output::String(string_of_range(s, lo, hi)));
        proof {
            lemma_tokens_model_push(tokens@, t);
        }
        tokens.push(t);
    } else {
        assert(tokens_model(tokens@) + wrap_text(s@.subrange(lo as int, hi as int)) == tokens_model(tokens@));
    }
}

/// Pushes `t` onto `tokens`.
fn push_token(tokens: &mut Vec<TemplateToken>, t: TemplateToken)
    ensures
        tokens_model(final(tokens)@) == tokens_model(old(tokens)@).push(t@),
{
    proof {
        lemma_tokens_model_push(tokens@, t);
    }
    tokens.push(t);
}

/// The parser state that the executable variables stand for.
spec fn exec_state(
    pos: usize,
    group_start: usize,
    tokens: Seq<TemplateToken>,
    in_sub: bool,
    indentation: usize,
    vars: Variables,
) -> HalfState {
    HalfState {
        pos: pos as int,
        group_start: group_start as int,
        tokens: tokens_model(tokens),
        in_sub,
        indentation: indentation as nat,
        ins: strings_model(vars.ins@),
        outs: strings_model(vars.outs@),
    }
}

/// Parses one half of a template, from `*pos` up to an `{inner}` or the end.
pub fn half_parse(
    string: &[char],
    pos: &mut usize,
    indentation: &mut usize,
    variables: &mut Variables,
) -> (r: Result<Vec<TemplateToken>, DslError>)
    requires
        *old(pos) <= string@.len(),
    ensures
        *old(pos) <= *final(pos) <= string@.len(),
        match half_parse_spec(
            string@,
            *old(pos) as int,
            *old(indentation) as nat,
            strings_model(old(variables).ins@),
            strings_model(old(variables).outs@),
        ) {
            Ok(h) => r is Ok && tokens_model(r->Ok_0@) == h.tokens && *final(pos) == h.pos
                && *final(indentation) == h.indentation && strings_model(final(variables).ins@) == h.ins
                && strings_model(final(variables).outs@) == h.outs,
            Err(e) => r == Err::<Vec<TemplateToken>, DslError>(e),
        },
{
    let n = string.len();
    if *pos >= n {
        let r: Vec<TemplateToken> = Vec::new();
        assert(tokens_model(r@) =~= Seq::<TokenModel>::empty());
        return Ok(r);
    }
    let mut group_start: usize = *pos;
    let mut tokens: Vec<TemplateToken> = Vec::new();
    let mut in_substitution = false;
    assert(tokens_model(tokens@) =~= Seq::<TokenModel>::empty());
    let ghost target = half_parse_loop(
        string@,
        exec_state(*pos, group_start, tokens@, in_substitution, *indentation, *variables),
    );
    proof {
        lemma_half_parse_loop_pos(string@, exec_state(*pos, group_start, tokens@, in_substitution, *indentation, *variables));
    }
    while *pos < n
        invariant
            n == string@.len(),
            *old(pos) <= group_start <= *pos <= n,
            half_parse_loop(
                string@,
                exec_state(*pos, group_start, tokens@, in_substitution, *indentation, *variables),
            ) == target,
            target matches Ok(h) ==> *pos <= h.pos <= n,
            *old(pos) < n,
            target == half_parse_spec(
                string@,
                *old(pos) as int,
                *old(indentation) as nat,
                strings_model(old(variables).ins@),
                strings_model(old(variables).outs@),
            ),
        decreases n - *pos,
    {
        let index = *pos;
        let c = string[index];
        let ghost st0 = exec_state(*pos, group_start, tokens@, in_substitution, *indentation, *variables);
        let ghost text = string@.subrange(group_start as int, index as int);
        *pos = index + 1;
        if in_substitution {
            if c == '}' {
                let sub = classify_substitution(string, group_start, index);
                group_start = index + 1;
                match sub {
                    ExecSubstitution::Inner => {
                        assert(classify(text) == Substitution::Inner);
                        assert(half_parse_loop(string@, st0) == Ok::<HalfResult, DslError>(HalfResult {
                            tokens: st0.tokens,
                            pos: index + 1,
                            indentation: st0.indentation,
                            ins: st0.ins,
                            outs: st0.outs,
                        }));
                        return Ok(tokens);
                    },
                    ExecSubstitution::In(name) => {
                        let i = variables.lookup_in(&name);
                        push_token(&mut tokens, TemplateToken::InVar(i));
                        in_substitution = false;
                        assert(classify(text) == Substitution::In(name@));
                        assert(half_parse_loop(string@, st0) == half_parse_loop(string@, exec_state(*pos, group_start, tokens@, in_substitution, *indentation, *variables)));
                    },
                    ExecSubstitution::Out(name) => {
                        let i = variables.lookup_out(&name);
                        push_token(&mut tokens, TemplateToken::OutVar(i));
                        in_substitution = false;
                        assert(classify(text) == Substitution::Out(name@));
                        assert(half_parse_loop(string@, st0) == half_parse_loop(string@, exec_state(*pos, group_start, tokens@, in_substitution, *indentation, *variables)));
                    },
                    ExecSubstitution::Local(name) => {
                        let ghost nm = name@;
                        push_token(&mut tokens, TemplateToken::LocalVar(name));
                        in_substitution = false;
                        assert(classify(text) == Substitution::Local(nm));
                        assert(half_parse_loop(string@, st0) == half_parse_loop(string@, exec_state(*pos, group_start, tokens@, in_substitution, *indentation, *variables)));
                    },
                    ExecSubstitution::Invalid => {
                        assert(classify(text) == Substitution::Invalid);
                        assert(half_parse_loop(string@, st0) == Err::<HalfResult, DslError>(DslError::UnexpectedVariableName));
                        return Err(DslError::UnexpectedVariableName);
                    },
                }
                in_substitution = false;
            }
        } else if c == '}' {
            if *pos < n && string[*pos] == '}' {
                *pos = *pos + 1;
                push_text(&mut tokens, string, group_start, index);
                group_start = index + 1;
                assert(half_parse_loop(string@, st0) == half_parse_loop(string@, exec_state(*pos, group_start, tokens@, in_substitution, *indentation, *variables)));
            } else {
                return Err(DslError::UnexpectedClosingBrace);
            }
        } else if c == '{' {
            if *pos < n && string[*pos] == '{' {
                *pos = *pos + 1;
                push_text(&mut tokens, string, group_start, index);
                group_start = index + 1;
            } else {
                if *pos < n {
                    *pos = *pos + 1;
                }
                in_substitution = true;
                push_text(&mut tokens, string, group_start, index);
                group_start = index + 1;
                assert(half_parse_loop(string@, st0) == half_parse_loop(string@, exec_state(*pos, group_start, tokens@, in_substitution, *indentation, *variables)));
            }
        } else if c == '\n' {
            let ghost tokens0 = tokens@;
            push_text(&mut tokens, string, group_start, index);
            let spaces = skip_indents(string, pos);
            group_start = *pos;
            if *pos < n {
                if spaces > *indentation {
                    push_token(&mut tokens, TemplateToken::String(Output::Indent));
                } else if spaces < *indentation {
                    push_token(&mut tokens, TemplateToken::String(Output::Dedent));
                }
                push_token(&mut tokens, TemplateToken::String(Output::NewLine));
                *indentation = spaces;
                assert(tokens_model(tokens@) == tokens_model(tokens0) + wrap_text(text) + line_break_tokens(st0.indentation, spaces as nat));
            }
            assert(half_parse_loop(string@, st0) == half_parse_loop(string@, exec_state(*pos, group_start, tokens@, in_substitution, *indentation, *variables)));
        }
        proof {
            let st1 = exec_state(*pos, group_start, tokens@, in_substitution, *indentation, *variables);
            assert(half_parse_loop(string@, st0) == half_parse_loop(string@, st1));
            lemma_half_parse_loop_pos(string@, st1);
        }
    }
    if in_substitution {
        return Err(DslError::UnterminatedSubstitution);
    }
    push_text(&mut tokens, string, group_start, n);
    push_token(&mut tokens, TemplateToken::String(Output::NewLine));
    Ok(tokens)
}


/// The tokens of a template that has no `{inner}`.
pub open spec fn dsl_to_half_tokens_spec(s: Seq<char>) -> Result<Seq<TokenModel>, DslError> {
    let (indentation, start) = skip_indents_spec(s, 0, 0);
    match half_parse_spec(s, start, indentation, Seq::empty(), Seq::empty()) {
        Err(e) => Err(e),
        Ok(h) => if h.pos < s.len() {
            Err(DslError::HalfFragmentHasMiddle)
        } else {
            Ok(h.tokens)
        },
    }
}

/// The fragment that a template describes: the tokens before its `{inner}`
/// to be written on entry, those after it to be written on exit, as many
/// pops as distinct input names and as many pushes as distinct output names.
pub open spec fn dsl_to_tokens_spec(s: Seq<char>) -> Result<FragmentModel, DslError> {
    let (indentation, start) = skip_indents_spec(s, 0, 0);
    match half_parse_spec(s, start, indentation, Seq::empty(), Seq::empty()) {
        Err(e) => Err(e),
        Ok(h1) => match half_parse_spec(s, h1.pos, h1.indentation, h1.ins, h1.outs) {
            Err(e) => Err(e),
            Ok(h2) => if h2.pos < s.len() {
                Err(DslError::MoreThanOneInner)
            } else {
                Ok(FragmentModel {
                    init: h1.tokens,
                    destruct: h2.tokens,
                    popped: h2.ins.len() as usize,
                    pushed: h2.outs.len() as usize,
                })
            },
        },
    }
}

/// Parses a template that has no `{inner}` into tokens.
pub fn dsl_to_half_tokens(tokens: &str) -> (r: Result<Vec<TemplateToken>, DslError>)
    ensures
        match dsl_to_half_tokens_spec(tokens@) {
            Ok(t) => r is Ok && tokens_model(r->Ok_0@) == t,
            Err(e) => r == Err::<Vec<TemplateToken>, DslError>(e),
        },
{
    let chars = chars_of(tokens);
    let mut pos: usize = 0;
    let mut indentation = skip_indents(chars.as_slice(), &mut pos);
    proof {
        lemma_skip_indents_bounds(chars@, 0, 0);
    }
    let mut variables = Variables::default();
    let result = half_parse(chars.as_slice(), &mut pos, &mut indentation, &mut variables);
    match result {
        Err(e) => Err(e),
        Ok(t) => {
            if pos < chars.len() {
                Err(DslError::HalfFragmentHasMiddle)
            } else {
                Ok(t)
            }
        },
    }
}

/// Parses a template into a fragment.
pub fn dsl_to_tokens(tokens: &str) -> (r: Result<ProgramFragment, DslError>)
    ensures
        match dsl_to_tokens_spec(tokens@) {
            Ok(f) => r is Ok && r->Ok_0@ == f,
            Err(e) => r is Err && r->Err_0 == e,
        },
{
    let chars = chars_of(tokens);
    let mut pos: usize = 0;
    let mut indentation = skip_indents(chars.as_slice(), &mut pos);
    proof {
        lemma_skip_indents_bounds(chars@, 0, 0);
    }
    let mut variables = Variables::default();
    let first = half_parse(chars.as_slice(), &mut pos, &mut indentation, &mut variables);
    let init_tokens = match first {
        Err(e) => {
            return Err(e);
        },
        Ok(t) => t,
    };
    let second = half_parse(chars.as_slice(), &mut pos, &mut indentation, &mut variables);
    let destruct_tokens = match second {
        Err(e) => {
            return Err(e);
        },
        Ok(t) => t,
    };
    if pos < chars.len() {
        return Err(DslError::MoreThanOneInner);
    }
    Ok(ProgramFragment {
        init_tokens,
        destruct_tokens,
        arguments_popped: variables.ins.len(),
        arguments_pushed: variables.outs.len(),
    })
}

// ---------------------------------------------------------------------------
// When a template parses

/// Where the parser of one half stops, following only its positions: after
/// the `{inner}` that ends the half, or at the end of the text; `None`
/// where it refuses the text.
pub open spec fn scan_half(s: Seq<char>, pos: int, group_start: int, in_sub: bool) -> Option<int>
    decreases s.len() - pos,
{
    if pos < 0 || pos >= s.len() {
        if in_sub {
            None
        } else {
            Some(pos)
        }
    } else {
        let c = s[pos];
        if in_sub {
            if c == '}' {
                match classify(s.subrange(group_start, pos)) {
                    Substitution::Inner => Some(pos + 1),
                    Substitution::Invalid => None,
                    _ => scan_half(s, pos + 1, pos + 1, false),
                }
            } else {
                scan_half(s, pos + 1, group_start, true)
            }
        } else if c == '}' {
            if pos + 1 < s.len() && s[pos + 1] == '}' {
                scan_half(s, pos + 2, pos + 1, false)
            } else {
                None
            }
        } else if c == '{' {
            if pos + 1 < s.len() && s[pos + 1] == '{' {
                scan_half(s, pos + 2, pos + 1, false)
            } else {
                scan_half(s, if pos + 1 < s.len() { pos + 2 } else { pos + 1 }, pos + 1, true)
            }
        } else if c == '\n' {
            let (_, after) = skip_indents_spec(s, pos + 1, 0);
            proof {
                lemma_skip_indents_bounds(s, pos + 1, 0);
            }
            scan_half(s, after, after, false)
        } else {
            scan_half(s, pos + 1, group_start, false)
        }
    }
}

/// The parser of one half succeeds exactly where its positions do, and
/// stops where they stop.
pub proof fn lemma_scan_half(s: Seq<char>, st: HalfState)
    ensures
        (half_parse_loop(s, st) is Ok) == (scan_half(s, st.pos, st.group_start, st.in_sub) is Some),
        half_parse_loop(s, st) matches Ok(h) ==> scan_half(s, st.pos, st.group_start, st.in_sub) == Some(h.pos),
    decreases s.len() - st.pos,
{
    if !(st.pos < 0 || st.pos >= s.len()) {
        let index = st.pos;
        let c = s[index];
        let text = s.subrange(st.group_start, index);
        if st.in_sub {
            if c == '}' {
                let next = HalfState { pos: index + 1, group_start: index + 1, in_sub: false, ..st };
                match classify(text) {
                    Substitution::In(name) => {
                        let (ins, i) = index_or_new_spec(st.ins, name);
                        lemma_scan_half(s, HalfState { tokens: st.tokens.push(TokenModel::InVar(i as usize)), ins, ..next });
                    },
                    Substitution::Out(name) => {
                        let (outs, i) = index_or_new_spec(st.outs, name);
                        lemma_scan_half(s, HalfState { tokens: st.tokens.push(TokenModel::OutVar(i as usize)), outs, ..next });
                    },
                    Substitution::Local(name) => {
                        lemma_scan_half(s, HalfState { tokens: st.tokens.push(TokenModel::LocalVar(name)), ..next });
                    },
                    _ => {},
                }
            } else {
                lemma_scan_half(s, HalfState { pos: index + 1, ..st });
            }
        } else if c == '}' {
            if index + 1 < s.len() && s[index + 1] == '}' {
                lemma_scan_half(s, HalfState { pos: index + 2, group_start: index + 1, tokens: st.tokens + wrap_text(text), ..st });
            }
        } else if c == '{' {
            if index + 1 < s.len() && s[index + 1] == '{' {
                lemma_scan_half(s, HalfState { pos: index + 2, group_start: index + 1, tokens: st.tokens + wrap_text(text), ..st });
            } else {
                lemma_scan_half(
                    s,
                    HalfState {
                        pos: if index + 1 < s.len() { index + 2 } else { index + 1 },
                        group_start: index + 1,
                        tokens: st.tokens + wrap_text(text),
                        in_sub: true,
                        ..st
                    },
                );
            }
        } else if c == '\n' {
            let (spaces, after) = skip_indents_spec(s, index + 1, 0);
            lemma_skip_indents_bounds(s, index + 1, 0);
            let tokens = st.tokens + wrap_text(text);
            if after < s.len() {
                lemma_scan_half(
                    s,
                    HalfState {
                        pos: after,
                        group_start: after,
                        tokens: tokens + line_break_tokens(st.indentation, spaces),
                        indentation: spaces,
                        ..st
                    },
                );
            } else {
                lemma_scan_half(s, HalfState { pos: after, group_start: after, tokens, ..st });
            }
        } else {
            lemma_scan_half(s, HalfState { pos: index + 1, ..st });
        }
    }
}

/// A template parses into a fragment when its positions do: the first half
/// stops at an `{inner}` or at the end, and a second half, if any text is
/// left, runs to the end.
pub open spec fn template_parses(s: Seq<char>) -> bool {
    let start = skip_indents_spec(s, 0, 0).1;
    start >= s.len() || match scan_half(s, start, start, false) {
        None => false,
        Some(p1) => p1 >= s.len() || match scan_half(s, p1, p1, false) {
            None => false,
            Some(p2) => p2 >= s.len(),
        },
    }
}

/// A template that parses by [`template_parses`] gives a fragment.
pub proof fn lemma_template_parses(s: Seq<char>)
    requires
        template_parses(s),
    ensures
        dsl_to_tokens_spec(s) is Ok,
{
    let (indentation, start) = skip_indents_spec(s, 0, 0);
    lemma_skip_indents_bounds(s, 0, 0);
    if start < s.len() {
        let st1 = HalfState { pos: start, group_start: start, tokens: Seq::empty(), in_sub: false, indentation, ins: Seq::empty(), outs: Seq::empty() };
        lemma_scan_half(s, st1);
        if let Ok(h1) = half_parse_loop(s, st1) {
            if h1.pos < s.len() {
                let st2 = HalfState { pos: h1.pos, group_start: h1.pos, tokens: Seq::empty(), in_sub: false, indentation: h1.indentation, ins: h1.ins, outs: h1.outs };
                lemma_scan_half(s, st2);
            }
        }
    }
}

/// Text without braces or line breaks parses, as a half, into one text
/// token and a newline, leaving indentation and variables as they were.
pub proof fn lemma_plain_text_half(s: Seq<char>, indentation: nat, ins: Seq<Seq<char>>, outs: Seq<Seq<char>>)
    requires
        s.len() > 0,
        forall|k: int| 0 <= k < s.len() ==> #[trigger] s[k] != '{' && s[k] != '}' && s[k] != '\n',
    ensures
        half_parse_spec(s, 0, indentation, ins, outs) == Ok::<HalfResult, DslError>(HalfResult {
            tokens: seq![TokenModel::Text(OutputModel::Text(s)), TokenModel::Text(OutputModel::NewLine)],
            pos: s.len() as int,
            indentation,
            ins,
            outs,
        }),
{
    lemma_plain_run(s, 0, indentation, ins, outs);
    assert(s.subrange(0, s.len() as int) =~= s);
    assert(wrap_text(s) == seq![TokenModel::Text(OutputModel::Text(s))]);
    assert((Seq::<TokenModel>::empty() + wrap_text(s)).push(TokenModel::Text(OutputModel::NewLine)) =~= seq![
        TokenModel::Text(OutputModel::Text(s)),
        TokenModel::Text(OutputModel::NewLine),
    ]);
}

proof fn lemma_plain_run(s: Seq<char>, p: int, indentation: nat, ins: Seq<Seq<char>>, outs: Seq<Seq<char>>)
    requires
        0 <= p <= s.len(),
        forall|k: int| 0 <= k < s.len() ==> #[trigger] s[k] != '{' && s[k] != '}' && s[k] != '\n',
    ensures
        half_parse_loop(s, HalfState { pos: p, group_start: 0, tokens: Seq::empty(), in_sub: false, indentation, ins, outs })
            == half_parse_loop(s, HalfState { pos: s.len() as int, group_start: 0, tokens: Seq::empty(), in_sub: false, indentation, ins, outs }),
    decreases s.len() - p,
{
    if p < s.len() {
        assert(s[p] != '{' && s[p] != '}' && s[p] != '\n');
        lemma_plain_run(s, p + 1, indentation, ins, outs);
    }
}

/// Whether `x` can name a variable or a kind: not empty, with no
/// whitespace and no colon.
pub open spec fn is_word(x: Seq<char>) -> bool {
    x.len() > 0 && forall|k: int| 0 <= k < x.len() ==> !is_whitespace_spec(#[trigger] x[k]) && x[k] != ':'
}

proof fn lemma_trim_word(x: Seq<char>)
    requires
        is_word(x),
    ensures
        trim(x) == x,
        trim(seq![' '] + x + seq![' ']) == x,
{
    assert(!is_whitespace_spec(x[0]));
    assert(!is_whitespace_spec(x[x.len() - 1]));
    let y = seq![' '] + x + seq![' '];
    assert(y.drop_first() =~= x + seq![' ']);
    assert(trim_start(y) == trim_start(x + seq![' ']));
    assert((x + seq![' '])[0] == x[0]);
    assert(trim_start(x + seq![' ']) == x + seq![' ']);
    assert((x + seq![' ']).drop_last() =~= x);
    assert(trim_end(x + seq![' ']) == trim_end(x));
}

proof fn lemma_split_no_colon(x: Seq<char>)
    requires
        forall|k: int| 0 <= k < x.len() ==> #[trigger] x[k] != ':',
    ensures
        split_colon(x) == seq![x],
    decreases x.len(),
{
    if x.len() == 0 {
        assert(x =~= Seq::<char>::empty());
    } else {
        let y = x.drop_last();
        assert forall|k: int| 0 <= k < y.len() implies #[trigger] y[k] != ':' by {
            assert(y[k] == x[k]);
        }
        lemma_split_no_colon(y);
        assert(y.push(x.last()) =~= x);
        assert(seq![y].update(0, y.push(x.last())) =~= seq![x]);
    }
}

proof fn lemma_split_one_colon(a: Seq<char>, b: Seq<char>)
    requires
        forall|k: int| 0 <= k < a.len() ==> #[trigger] a[k] != ':',
        forall|k: int| 0 <= k < b.len() ==> #[trigger] b[k] != ':',
    ensures
        split_colon(a + seq![':'] + b) == seq![a, b],
    decreases b.len(),
{
    if b.len() == 0 {
        assert(a + seq![':'] + b =~= a.push(':'));
        assert((a + seq![':'] + b).drop_last() =~= a);
        lemma_split_no_colon(a);
        assert(b =~= Seq::<char>::empty());
        assert(seq![a].push(Seq::<char>::empty()) =~= seq![a, b]);
    } else {
        let c = b.drop_last();
        assert forall|k: int| 0 <= k < c.len() implies #[trigger] c[k] != ':' by {
            assert(c[k] == b[k]);
        }
        lemma_split_one_colon(a, c);
        assert((a + seq![':'] + b).drop_last() =~= a + seq![':'] + c);
        assert((a + seq![':'] + b).last() == b.last());
        assert(c.push(b.last()) =~= b);
        assert(seq![a, c].update(1, c.push(b.last())) =~= seq![a, b]);
    }
}

/// What a substitution `name:kind` asks for, with or without a space on
/// each side.
pub open spec fn word_substitution(name: Seq<char>, kind: Seq<char>) -> Substitution {
    if kind == in_word() {
        Substitution::In(name)
    } else if kind == out_word() {
        Substitution::Out(name)
    } else if kind == local_word() {
        Substitution::Local(name)
    } else {
        Substitution::Invalid
    }
}

/// A substitution `name:kind` is read as the variable `name` of that kind,
/// and spaces around it change nothing.
pub proof fn lemma_classify_variable(name: Seq<char>, kind: Seq<char>)
    requires
        is_word(name),
        is_word(kind),
    ensures
        classify(name + seq![':'] + kind) == word_substitution(name, kind),
        classify(seq![' '] + (name + seq![':'] + kind) + seq![' ']) == word_substitution(name, kind),
{
    let t = name + seq![':'] + kind;
    assert(is_word(name) && is_word(kind));
    assert(t.len() > 0);
    assert(t[0] == name[0]);
    assert(t[t.len() - 1] == kind[kind.len() - 1]);
    assert(trim(t) == t) by {
        assert(!is_whitespace_spec(t[0]));
        assert(!is_whitespace_spec(t.last()));
    }
    let sp = seq![' '] + t + seq![' '];
    assert(trim(sp) == t) by {
        let u = t + seq![' '];
        assert(sp[0] == ' ');
        assert(sp.drop_first() =~= u);
        assert(trim_start(sp) == trim_start(u));
        assert(u[0] == t[0]);
        assert(!is_whitespace_spec(t[0]));
        assert(trim_start(u) == u);
        assert(u.last() == ' ');
        assert(u.drop_last() =~= t);
        assert(trim_end(u) == trim_end(t));
        assert(!is_whitespace_spec(t.last()));
        assert(trim_end(t) == t);
    }
    lemma_split_one_colon(name, kind);
    lemma_trim_word(name);
    lemma_trim_word(kind);
    let parts = split_colon(t).map_values(|p: Seq<char>| trim(p));
    assert(parts =~= seq![name, kind]);
    assert(substitution_parts(t) == seq![name, kind]);
    assert(substitution_parts(sp) == seq![name, kind]);
}

/// A substitution `inner`, with or without a space on each side, is the
/// inner part of a template.
pub proof fn lemma_classify_inner()
    ensures
        classify(inner_word()) == Substitution::Inner,
        classify(seq![' '] + inner_word() + seq![' ']) == Substitution::Inner,
{
    let w = inner_word();
    assert forall|k: int| 0 <= k < w.len() implies !is_whitespace_spec(#[trigger] w[k]) && w[k] != ':' by {
        assert(k == 0 || k == 1 || k == 2 || k == 3 || k == 4);
    }
    lemma_trim_word(w);
    assert forall|k: int| 0 <= k < w.len() implies #[trigger] w[k] != ':' by {
        assert(!is_whitespace_spec(w[k]) && w[k] != ':');
    }
    lemma_split_no_colon(w);
    assert(split_colon(w).map_values(|p: Seq<char>| trim(p)) =~= seq![w]);
}

/// The half of a template that is an output handler parses when its
/// positions run to its end.
pub open spec fn half_template_parses(s: Seq<char>) -> bool {
    let start = skip_indents_spec(s, 0, 0).1;
    start >= s.len() || match scan_half(s, start, start, false) {
        None => false,
        Some(p) => p >= s.len(),
    }
}

/// A handler template that parses by [`half_template_parses`] gives tokens.
pub proof fn lemma_half_template_parses(s: Seq<char>)
    requires
        half_template_parses(s),
    ensures
        dsl_to_half_tokens_spec(s) is Ok,
{
    let (indentation, start) = skip_indents_spec(s, 0, 0);
    lemma_skip_indents_bounds(s, 0, 0);
    if start < s.len() {
        let st1 = HalfState { pos: start, group_start: start, tokens: Seq::empty(), in_sub: false, indentation, ins: Seq::empty(), outs: Seq::empty() };
        lemma_scan_half(s, st1);
    }
}

} // verus!
