//! The table of the characters of the language: which ones invoke a builtin
//! or have another meaning, and which are still free.

use vstd::prelude::*;
use crate::text::{push_char, push_string, chars_of};
use crate::dsl::strings_model;
use crate::language::builtin::{Builtin, BuiltinModel};
use crate::language::lexer::table_model;

verus! {

/// The three columns of the table: lower-case letters, upper-case letters,
/// and the printable ASCII symbols other than the digits. Each cell holds
/// its character, followed by the name of what it stands for once taken.
pub struct Columns {
    pub lower: Seq<Seq<char>>,
    pub upper: Seq<Seq<char>>,
    pub symbols: Seq<Seq<char>>,
}

/// One cell per character of `cs`, holding that character.
pub open spec fn cells(cs: Seq<char>) -> Seq<Seq<char>> {
    cs.map_values(|c: char| seq![c])
}

/// The characters of the lower-case column.
pub open spec fn lower_letters() -> Seq<char> {
    "abcdefghijklmnopqrstuvwxyz"@
}

/// The characters of the upper-case column.
pub open spec fn upper_letters() -> Seq<char> {
    "ABCDEFGHIJKLMNOPQRSTUVWXYZ"@
}

/// The characters of the symbol column: `!` to `/`, `:` to `@`, `[` to
/// `` ` `` and `{` to `~`.
pub open spec fn symbol_chars() -> Seq<char> {
    "!\"#$%&'()*+,-./:;<=>?@[\\]^_`{|}~"@
}

/// The columns before any character is taken.
pub open spec fn initial_columns() -> Columns {
    Columns { lower: cells(lower_letters()), upper: cells(upper_letters()), symbols: cells(symbol_chars()) }
}

/// The first cell at or after `j` that starts with `c`.
pub open spec fn first_cell_from(col: Seq<Seq<char>>, c: char, j: int) -> Option<int>
    decreases col.len() - j,
{
    if j < 0 || j >= col.len() {
        None
    } else if col[j].len() > 0 && col[j][0] == c {
        Some(j)
    } else {
        first_cell_from(col, c, j + 1)
    }
}

/// The column with its first cell for `c` replaced by `c`, a space and
/// `name`; `None` when no cell starts with `c`.
pub open spec fn place_in(col: Seq<Seq<char>>, c: char, name: Seq<char>) -> Option<Seq<Seq<char>>> {
    match first_cell_from(col, c, 0) {
        None => None,
        Some(j) => Some(col.update(j, seq![c, ' '] + name)),
    }
}

/// Whether `c` is a lower-case ASCII letter.
pub open spec fn is_lower(c: char) -> bool {
    'a' <= c <= 'z'
}

/// Whether `c` is an upper-case ASCII letter.
pub open spec fn is_upper(c: char) -> bool {
    'A' <= c <= 'Z'
}

/// The columns with the cell of `c` naming `name`: in the lower-case column
/// for a lower-case letter, the upper-case one for an upper-case letter,
/// the symbol column otherwise.
pub open spec fn place_token(cols: Columns, c: char, name: Seq<char>) -> Option<Columns> {
    if is_lower(c) {
        match place_in(cols.lower, c, name) {
            Some(l) => Some(Columns { lower: l, ..cols }),
            None => None,
        }
    } else if is_upper(c) {
        match place_in(cols.upper, c, name) {
            Some(u) => Some(Columns { upper: u, ..cols }),
            None => None,
        }
    } else {
        match place_in(cols.symbols, c, name) {
            Some(s) => Some(Columns { symbols: s, ..cols }),
            None => None,
        }
    }
}

/// The columns with each of `toks` placed in turn.
pub open spec fn place_tokens(cols: Columns, toks: Seq<(char, Seq<char>)>) -> Option<Columns>
    decreases toks.len(),
{
    if toks.len() == 0 {
        Some(cols)
    } else {
        match place_tokens(cols, toks.drop_last()) {
            None => None,
            Some(c2) => place_token(c2, toks.last().0, toks.last().1),
        }
    }
}

/// The characters the table names: each builtin's with its name, then the
/// comma, the end of a group and the start of a string.
pub open spec fn listed_tokens(table: Seq<BuiltinModel>) -> Seq<(char, Seq<char>)> {
    table.map_values(|b: BuiltinModel| (b.token, b.name)) + seq![
        (',', "comma"@),
        (']', "end group"@),
        ('"', "Start String"@),
    ]
}

/// The columns of the table for the builtins `table`; `None` when one of
/// the characters has no cell.
pub open spec fn table_columns(table: Seq<BuiltinModel>) -> Option<Columns> {
    place_tokens(initial_columns(), listed_tokens(table))
}

/// The `i`-th cell of a column, empty past its end.
pub open spec fn cell_at(col: Seq<Seq<char>>, i: int) -> Seq<char> {
    if 0 <= i < col.len() {
        col[i]
    } else {
        Seq::empty()
    }
}

/// The `i`-th row of the table, as a line of Markdown.
pub open spec fn row_text(cols: Columns, i: int) -> Seq<char> {
    "| "@ + cell_at(cols.lower, i) + " | "@ + cell_at(cols.upper, i) + " | \\"@ + cell_at(cols.symbols, i) + " |\n"@
}

/// The first `n` rows of the table.
pub open spec fn rows_text(cols: Columns, n: nat) -> Seq<char>
    decreases n,
{
    if n == 0 {
        Seq::empty()
    } else {
        rows_text(cols, (n - 1) as nat) + row_text(cols, n - 1)
    }
}

/// The number of rows: the length of the longest column.
pub open spec fn row_count(cols: Columns) -> nat {
    let a = cols.lower.len();
    let b = cols.upper.len();
    let c = cols.symbols.len();
    if a >= b && a >= c {
        a
    } else if b >= c {
        b
    } else {
        c
    }
}

/// The Markdown text of the table: its header and one row per cell of the
/// longest column.
pub open spec fn letters_text(cols: Columns) -> Seq<char> {
    "| Upper Case | Lower Case | Symbols |\n| ---------- | ---------- | ------- |\n"@ + rows_text(cols, row_count(cols))
}

/// The columns of the table.
pub struct TokenColumns {
    pub lower: Vec<String>,
    pub upper: Vec<String>,
    pub symbols: Vec<String>,
}

impl View for TokenColumns {
    type V = Columns;

    open spec fn view(&self) -> Columns {
        Columns {
            lower: strings_model(self.lower@),
            upper: strings_model(self.upper@),
            symbols: strings_model(self.symbols@),
        }
    }
}

/// Whether each cell of `col` starts with the character at its place in
/// `keys`.
pub open spec fn keyed(col: Seq<Seq<char>>, keys: Seq<char>) -> bool {
    &&& col.len() == keys.len()
    &&& forall|j: int| 0 <= j < keys.len() ==> (#[trigger] col[j]).len() > 0 && col[j][0] == keys[j]
}

/// The cells of a column and the characters that start them.
fn column_of(s: &str) -> (r: (Vec<String>, Vec<char>))
    ensures
        strings_model(r.0@) == cells(s@),
        r.1@ == s@,
        keyed(strings_model(r.0@), r.1@),
{
    let keys = chars_of(s);
    let mut col: Vec<String> = Vec::new();
    let mut i: usize = 0;
    while i < keys.len()
        invariant
            keys@ == s@,
            i <= keys@.len(),
            strings_model(col@) == cells(keys@.subrange(0, i as int)),
        decreases keys@.len() - i,
    {
        let mut t = String::new();
        push_char(&mut t, keys[i]);
        assert(t@ == seq![keys@[i as int]]);
        let ghost before = col@;
        col.push(t);
        assert(strings_model(col@) =~= strings_model(before).push(t@));
        assert(strings_model(col@) =~= cells(keys@.subrange(0, i + 1)));
        i = i + 1;
    }
    assert(keys@.subrange(0, keys@.len() as int) == keys@);
    (col, keys)
}

proof fn lemma_first_cell_from(col: Seq<Seq<char>>, c: char, j: int)
    ensures
        first_cell_from(col, c, j) matches Some(k) ==> 0 <= j <= k < col.len() && col[k].len() > 0 && col[k][0] == c,
    decreases col.len() - j,
{
    if 0 <= j < col.len() && !(col[j].len() > 0 && col[j][0] == c) {
        lemma_first_cell_from(col, c, j + 1);
    }
}

/// Places `c` with `name` in a column whose cells start with the characters
/// `keys`: see [`place_in`]. Returns whether a cell was found.
fn place_in_column(col: &mut Vec<String>, keys: &Vec<char>, c: char, name: &String) -> (r: bool)
    requires
        keyed(strings_model(old(col)@), keys@),
    ensures
        match place_in(strings_model(old(col)@), c, name@) {
            Some(n) => r && strings_model(final(col)@) == n,
            None => !r && final(col)@ == old(col)@,
        },
        keyed(strings_model(final(col)@), keys@),
{
    let ghost m = strings_model(col@);
    proof {
        lemma_first_cell_from(m, c, 0);
    }
    let mut j: usize = 0;
    while j < keys.len()
        invariant
            j <= keys@.len(),
            m == strings_model(col@),
            col@ == old(col)@,
            keyed(m, keys@),
            first_cell_from(m, c, j as int) == first_cell_from(m, c, 0),
        decreases keys@.len() - j,
    {
        assert(m[j as int].len() > 0 && m[j as int][0] == keys@[j as int]);
        if keys[j] == c {
            let mut t = String::new();
            push_char(&mut t, c);
            push_char(&mut t, ' ');
            push_string(&mut t, name);
            let ghost tv = t@;
            col.set(j, t);
            assert(tv =~= seq![c, ' '] + name@);
            assert(strings_model(col@) =~= m.update(j as int, seq![c, ' '] + name@));
            assert(keyed(strings_model(col@), keys@));
            return true;
        }
        j = j + 1;
    }
    false
}

/// The characters that start the cells of each column.
struct ColumnKeys {
    lower: Vec<char>,
    upper: Vec<char>,
    symbols: Vec<char>,
}

/// Whether each column of `cols` is keyed by its characters in `keys`.
spec fn all_keyed(cols: Columns, keys: ColumnKeys) -> bool {
    &&& keyed(cols.lower, keys.lower@)
    &&& keyed(cols.upper, keys.upper@)
    &&& keyed(cols.symbols, keys.symbols@)
}

/// Places `c` with `name`: see [`place_token`]. Returns whether a cell was
/// found.
fn place_in_columns(cols: &mut TokenColumns, keys: &ColumnKeys, c: char, name: &String) -> (r: bool)
    requires
        all_keyed(old(cols)@, *keys),
    ensures
        match place_token(old(cols)@, c, name@) {
            Some(n) => r && final(cols)@ == n,
            None => !r,
        },
        all_keyed(final(cols)@, *keys),
{
    if 'a' <= c && c <= 'z' {
        place_in_column(&mut cols.lower, &keys.lower, c, name)
    } else if 'A' <= c && c <= 'Z' {
        place_in_column(&mut cols.upper, &keys.upper, c, name)
    } else {
        place_in_column(&mut cols.symbols, &keys.symbols, c, name)
    }
}

proof fn lemma_place_tokens_none(cols: Columns, toks: Seq<(char, Seq<char>)>, i: int)
    requires
        0 <= i <= toks.len(),
        place_tokens(cols, toks.take(i)) is None,
    ensures
        place_tokens(cols, toks) is None,
    decreases toks.len() - i,
{
    if i < toks.len() {
        assert(toks.take(i + 1).drop_last() =~= toks.take(i));
        lemma_place_tokens_none(cols, toks, i + 1);
    } else {
        assert(toks.take(i) =~= toks);
    }
}

/// Places the characters of the builtins `builtins`, then those of the
/// comma, the end of a group and the start of a string, in the table: see
/// [`table_columns`]. `None` when a character has no cell.
pub fn builtin_columns(builtins: &Vec<Builtin>) -> (r: Option<TokenColumns>)
    ensures
        match table_columns(table_model(builtins@)) {
            Some(c) => r matches Some(t) && t@ == c,
            None => r is None,
        },
{
    let ghost toks = listed_tokens(table_model(builtins@));
    let (lower, lower_keys) = column_of("abcdefghijklmnopqrstuvwxyz");
    let (upper, upper_keys) = column_of("ABCDEFGHIJKLMNOPQRSTUVWXYZ");
    let (symbols, symbol_keys) = column_of("!\"#$%&'()*+,-./:;<=>?@[\\]^_`{|}~");
    let keys = ColumnKeys { lower: lower_keys, upper: upper_keys, symbols: symbol_keys };
    let mut cols = TokenColumns { lower, upper, symbols };
    assert(cols@ == initial_columns());
    let mut names: Vec<(char, String)> = Vec::new();
    let mut i: usize = 0;
    while i < builtins.len()
        invariant
            i <= builtins@.len(),
            names@.len() == i,
            forall|k: int| 0 <= k < i ==> (#[trigger] names@[k]).0 == toks[k].0 && names@[k].1@ == toks[k].1,
            toks == listed_tokens(table_model(builtins@)),
        decreases builtins@.len() - i,
    {
        names.push((builtins[i].token, builtins[i].name.clone()));
        i = i + 1;
    }
    names.push((',', String::from_str("comma")));
    names.push((']', String::from_str("end group")));
    names.push(('"', String::from_str("Start String")));
    assert(names@.len() == toks.len());
    assert(forall|k: int| 0 <= k < toks.len() ==> (#[trigger] names@[k]).0 == toks[k].0 && names@[k].1@ == toks[k].1);
    let mut i: usize = 0;
    assert(toks.take(0) =~= Seq::<(char, Seq<char>)>::empty());
    while i < names.len()
        invariant
            i <= names@.len(),
            names@.len() == toks.len(),
            toks == listed_tokens(table_model(builtins@)),
            forall|k: int| 0 <= k < toks.len() ==> (#[trigger] names@[k]).0 == toks[k].0 && names@[k].1@ == toks[k].1,
            place_tokens(initial_columns(), toks.take(i as int)) == Some(cols@),
            all_keyed(cols@, keys),
        decreases names@.len() - i,
    {
        assert(names@[i as int].0 == toks[i as int].0 && names@[i as int].1@ == toks[i as int].1);
        assert(toks.take(i + 1).drop_last() =~= toks.take(i as int));
        assert(toks.take(i + 1).last() == toks[i as int]);
        let ghost before = cols@;
        if !place_in_columns(&mut cols, &keys, names[i].0, &names[i].1) {
            assert(place_token(before, toks[i as int].0, toks[i as int].1) is None);
            proof {
                lemma_place_tokens_none(initial_columns(), toks, i + 1);
            }
            return None;
        }
        i = i + 1;
    }
    assert(toks.take(toks.len() as int) =~= toks);
    Some(cols)
}

/// Appends the `i`-th cell of a column, nothing past its end.
fn push_cell(text: &mut String, col: &Vec<String>, i: usize)
    ensures
        final(text)@ == old(text)@ + cell_at(strings_model(col@), i as int),
{
    if i < col.len() {
        push_string(text, &col[i]);
    } else {
        assert(old(text)@ + Seq::<char>::empty() =~= old(text)@);
    }
}

/// The Markdown text of the table: see [`letters_text`].
pub fn letters_table(cols: &TokenColumns) -> (r: String)
    ensures
        r@ == letters_text(cols@),
{
    let mut text = String::from_str("| Upper Case | Lower Case | Symbols |\n| ---------- | ---------- | ------- |\n");
    let a = cols.lower.len();
    let b = cols.upper.len();
    let c = cols.symbols.len();
    let count = if a >= b && a >= c {
        a
    } else if b >= c {
        b
    } else {
        c
    };
    assert(count == row_count(cols@));
    let ghost header = text@;
    let mut i: usize = 0;
    while i < count
        invariant
            i <= count,
            count == row_count(cols@),
            text@ == header + rows_text(cols@, i as nat),
        decreases count - i,
    {
        let ghost before = text@;
        text.append("| ");
        push_cell(&mut text, &cols.lower, i);
        text.append(" | ");
        push_cell(&mut text, &cols.upper, i);
        text.append(" | \\");
        push_cell(&mut text, &cols.symbols, i);
        text.append(" |\n");
        assert(text@ =~= before + row_text(cols@, i as int));
        i = i + 1;
    }
    text
}

/// The Markdown table of the characters of the language, for the builtins
/// `builtins`: which character invokes which builtin, the comma, the end
/// of a group and the start of a string, and which are free. Each of these
/// characters must have a cell.
pub fn get_builtin_tokens(builtins: &Vec<Builtin>) -> (r: String)
    requires
        table_columns(table_model(builtins@)) is Some,
    ensures
        r@ == letters_text(table_columns(table_model(builtins@))->0),
{
    match builtin_columns(builtins) {
        Some(cols) => letters_table(&cols),
        None => {
            assert(false);
            String::new()
        },
    }
}

/// The column in which the cell of `c` stands.
pub open spec fn column_for(cols: Columns, c: char) -> Seq<Seq<char>> {
    if is_lower(c) {
        cols.lower
    } else if is_upper(c) {
        cols.upper
    } else {
        cols.symbols
    }
}

/// Whether the column of `c` has a cell holding `c`, a space and `name`.
pub open spec fn has_cell(cols: Columns, c: char, name: Seq<char>) -> bool {
    exists|j: int| 0 <= j < column_for(cols, c).len() && #[trigger] column_for(cols, c)[j] == seq![c, ' '] + name
}

/// The table lists every builtin, in order, with its character and name,
/// and after them the comma, the end of a group and the start of a string.
pub proof fn lemma_listed_tokens_all_builtins(table: Seq<BuiltinModel>)
    ensures
        listed_tokens(table).len() == table.len() + 3,
        forall|i: int| 0 <= i < table.len() ==> #[trigger] listed_tokens(table)[i] == (table[i].token, table[i].name),
        listed_tokens(table)[table.len() as int] == (',', "comma"@),
        listed_tokens(table)[table.len() + 1int] == (']', "end group"@),
        listed_tokens(table)[table.len() + 2int] == ('"', "Start String"@),
{
}

proof fn lemma_place_token_sets(cols: Columns, c: char, name: Seq<char>)
    ensures
        place_token(cols, c, name) matches Some(r) ==> has_cell(r, c, name),
{
    let col = column_for(cols, c);
    lemma_first_cell_from(col, c, 0);
    if let Some(j) = first_cell_from(col, c, 0) {
        assert(column_for(place_token(cols, c, name)->0, c)[j] == seq![c, ' '] + name);
    }
}

proof fn lemma_place_token_keeps(cols: Columns, c: char, name: Seq<char>, c2: char, n2: Seq<char>)
    requires
        has_cell(cols, c, name),
        c != c2,
    ensures
        place_token(cols, c2, n2) matches Some(r) ==> has_cell(r, c, name),
{
    let j = choose|j: int| 0 <= j < column_for(cols, c).len() && #[trigger] column_for(cols, c)[j] == seq![c, ' '] + name;
    let col2 = column_for(cols, c2);
    lemma_first_cell_from(col2, c2, 0);
    if let Some(r) = place_token(cols, c2, n2) {
        let j2 = first_cell_from(col2, c2, 0)->0;
        assert(column_for(cols, c)[j][0] == c);
        assert(column_for(r, c).len() == column_for(cols, c).len());
        assert(column_for(r, c)[j] == column_for(cols, c)[j]);
    }
}

proof fn lemma_place_tokens_cells(cols: Columns, toks: Seq<(char, Seq<char>)>)
    requires
        forall|i: int, k: int| 0 <= i < k < toks.len() ==> #[trigger] toks[i].0 != #[trigger] toks[k].0,
    ensures
        place_tokens(cols, toks) matches Some(r) ==> forall|k: int| 0 <= k < toks.len() ==> has_cell(r, #[trigger] toks[k].0, toks[k].1),
    decreases toks.len(),
{
    if toks.len() > 0 {
        let front = toks.drop_last();
        assert forall|i: int, k: int| 0 <= i < k < front.len() implies #[trigger] front[i].0 != #[trigger] front[k].0 by {
            assert(front[i] == toks[i] && front[k] == toks[k]);
        }
        lemma_place_tokens_cells(cols, front);
        if let Some(c2) = place_tokens(cols, front) {
            let last = toks.last();
            lemma_place_token_sets(c2, last.0, last.1);
            if let Some(r) = place_token(c2, last.0, last.1) {
                assert forall|k: int| 0 <= k < toks.len() implies has_cell(r, #[trigger] toks[k].0, toks[k].1) by {
                    if k < toks.len() - 1 {
                        assert(front[k] == toks[k]);
                        assert(has_cell(c2, front[k].0, front[k].1));
                        lemma_place_token_keeps(c2, toks[k].0, toks[k].1, last.0, last.1);
                    }
                }
            }
        }
    }
}

/// Every builtin of the table has its cell filled: once the table is built,
/// the column of each builtin's character holds that character, a space
/// and the builtin's name (when no two builtins share a character and none
/// takes the comma, the end of a group or the start of a string).
pub proof fn lemma_table_cells_filled(table: Seq<BuiltinModel>)
    requires
        forall|i: int, k: int| 0 <= i < k < table.len() ==> #[trigger] table[i].token != #[trigger] table[k].token,
        forall|i: int|
            0 <= i < table.len() ==> #[trigger] table[i].token != ',' && table[i].token != ']' && table[i].token != '"',
    ensures
        table_columns(table) matches Some(cols) ==> forall|i: int|
            0 <= i < table.len() ==> has_cell(cols, #[trigger] table[i].token, table[i].name),
{
    let toks = listed_tokens(table);
    lemma_listed_tokens_all_builtins(table);
    assert forall|i: int, k: int| 0 <= i < k < toks.len() implies #[trigger] toks[i].0 != #[trigger] toks[k].0 by {
        if k < table.len() {
            assert(toks[i] == (table[i].token, table[i].name));
            assert(toks[k] == (table[k].token, table[k].name));
        } else if i < table.len() {
            assert(toks[i] == (table[i].token, table[i].name));
        }
    }
    lemma_place_tokens_cells(initial_columns(), toks);
    if let Some(cols) = table_columns(table) {
        assert forall|i: int| 0 <= i < table.len() implies has_cell(cols, #[trigger] table[i].token, table[i].name) by {
            assert(toks[i] == (table[i].token, table[i].name));
            assert(has_cell(cols, toks[i].0, toks[i].1));
        }
    }
}

} // verus!
