//! Fresh variable names for the generated code.

use vstd::prelude::*;
use crate::text::push_char;

verus! {

/// The letters that name digits `0` to `51`: `a`..`z`, then `A`..`Z`.
pub open spec fn letter(d: nat) -> char {
    if d < 26 {
        (('a' as u32) + d) as char
    } else {
        (('A' as u32) + (d - 26)) as char
    }
}

/// The base-52 digits of `n`, least significant first, at least one.
pub open spec fn base52_digits(n: nat) -> Seq<char>
    decreases n,
{
    if n < 52 {
        seq![letter(n)]
    } else {
        seq![letter(n % 52)] + base52_digits(n / 52)
    }
}

/// The name given to the `n`-th variable: `$_` and then the base-52 digits.
pub open spec fn var_name(n: nat) -> Seq<char> {
    seq!['$', '_'] + base52_digits(n)
}

/// An endless supply of distinct variable names: `$_a`, `$_b`, ...
pub struct VarNames(usize);

impl View for VarNames {
    type V = usize;

    closed spec fn view(&self) -> usize {
        self.0
    }
}

impl Default for VarNames {
    fn default() -> (r: VarNames)
        ensures
            r@ == 0,
    {
        VarNames(0)
    }
}

fn letter_char(d: usize) -> (c: char)
    requires
        d < 52,
    ensures
        c == letter(d as nat),
{
    if d < 26 {
        let b: u8 = 97u8 + (d as u8);
        assert(b as u32 == 'a' as u32 + d);
        b as char
    } else {
        let b: u8 = 65u8 + ((d - 26) as u8);
        assert(b as u32 == 'A' as u32 + (d - 26));
        b as char
    }
}

proof fn lemma_letter_injective(a: nat, b: nat)
    requires
        a < 52,
        b < 52,
        letter(a) == letter(b),
    ensures
        a == b,
{
    let ca = letter(a) as u32;
    let cb = letter(b) as u32;
    if a < 26 {
        assert(ca == 97 + a);
    } else {
        assert(ca == 65 + (a - 26));
    }
    if b < 26 {
        assert(cb == 97 + b);
    } else {
        assert(cb == 65 + (b - 26));
    }
}

proof fn lemma_base52_len(n: nat)
    ensures
        base52_digits(n).len() >= 1,
        n >= 52 ==> base52_digits(n).len() >= 2,
    decreases n,
{
    if n >= 52 {
        lemma_base52_len(n / 52);
    }
}

proof fn lemma_base52_injective(i: nat, j: nat)
    requires
        base52_digits(i) == base52_digits(j),
    ensures
        i == j,
    decreases i,
{
    lemma_base52_len(i);
    lemma_base52_len(j);
    let di = base52_digits(i);
    let dj = base52_digits(j);
    if i < 52 && j < 52 {
        assert(di == seq![letter(i)]);
        assert(dj == seq![letter(j)]);
        assert(di[0] == letter(i));
        assert(dj[0] == letter(j));
        lemma_letter_injective(i, j);
    } else if i >= 52 && j >= 52 {
        assert(di[0] == letter(i % 52));
        assert(dj[0] == letter(j % 52));
        lemma_letter_injective(i % 52, j % 52);
        assert(di.subrange(1, di.len() as int) == base52_digits(i / 52));
        assert(dj.subrange(1, dj.len() as int) == base52_digits(j / 52));
        lemma_base52_injective(i / 52, j / 52);
    } else {
        assert(di.len() != dj.len());
    }
}

/// Distinct counts give distinct names: no two names the supply hands out
/// are the same.
pub proof fn lemma_var_names_distinct(i: nat, j: nat)
    requires
        i != j,
    ensures
        var_name(i) != var_name(j),
{
    if var_name(i) == var_name(j) {
        assert(base52_digits(i) == var_name(i).subrange(2, var_name(i).len() as int));
        assert(base52_digits(j) == var_name(j).subrange(2, var_name(j).len() as int));
        lemma_base52_injective(i, j);
    }
}

impl VarNames {
    /// A supply that starts at `$_a`.
    pub fn new() -> (r: VarNames)
        ensures
            r@ == 0,
    {
        VarNames(0)
    }

    /// The next fresh name. The supply runs out only after `usize::MAX`
    /// names, where it answers `None` and stays as it is.
    pub fn next(&mut self) -> (r: Option<String>)
        ensures
            old(self)@ < usize::MAX ==> r is Some && r->0@ == var_name(old(self)@ as nat) && final(self)@ == old(self)@ + 1,
            old(self)@ == usize::MAX ==> r is None && final(self)@ == old(self)@,
    {
        if self.0 == usize::MAX {
            return None;
        }
        let mut out = String::from_str("$_");
        proof {
            reveal_strlit("$_");
        }
        let n0: usize = self.0;
        let mut value: usize = n0;
        let mut first = true;
        while value > 0 || first
            invariant
                first ==> value == n0,
                var_name(n0 as nat) == out@ + (if first || value > 0 {
                    base52_digits(value as nat)
                } else {
                    Seq::empty()
                }),
            decreases value, (if first { 1int } else { 0int }),
        {
            let d = value % 52;
            let ghost before = out@;
            push_char(&mut out, letter_char(d));
            proof {
                if value < 52 {
                    assert(base52_digits(value as nat) == seq![letter(value as nat)]);
                    assert(before + base52_digits(value as nat) == out@);
                } else {
                    assert(base52_digits(value as nat) == seq![letter(d as nat)] + base52_digits(
                        (value / 52) as nat,
                    ));
                    assert(before + base52_digits(value as nat) == out@ + base52_digits(
                        (value / 52) as nat,
                    ));
                }
            }
            value = value / 52;
            first = false;
        }
        assert(var_name(n0 as nat) == out@);
        self.0 = self.0 + 1;
        Some(out)
    }
}

} // verus!
