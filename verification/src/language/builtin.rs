//! The builtins of the language: what each one writes, and how the groups
//! of code nested in it hand their values on.

use vstd::prelude::*;
use crate::language::lexer::{LexerValue, LexModel, lex_models, movement, lemma_lex_models_index, lemma_lex_models_len};
use crate::template::{
    TemplateToken, TokenModel, ProgramFragment, FragmentModel, HighestVarNumbers, tokens_model,
    local_names, uses_in_var, copy_tokens,
};

verus! {

/// How an output handler treats the values a group leaves on the stack.
#[derive(Clone, Copy, Debug, PartialEq, Eq, Structural)]
pub enum MultiOutputBehavior {
    /// Only as many values as the handler reads, from the bottom.
    OnlyFirst,
    /// Each value on its own, in order.
    FlattenAll,
    /// All values at once, as one comma separated list.
    Array,
    /// Like `Array`, and the group's end pushes as many values as it saw.
    Variadic,
    /// Values taken in pairs; not supported by the code generator.
    HalfZip,
}

/// What a group does with the values it leaves on the stack.
pub struct OutputHandler {
    pub fragment: Vec<TemplateToken>,
    pub behavior: MultiOutputBehavior,
}

/// What an [`OutputHandler`] stands for.
pub struct HandlerModel {
    pub fragment: Seq<TokenModel>,
    pub behavior: MultiOutputBehavior,
}

impl View for OutputHandler {
    type V = HandlerModel;

    open spec fn view(&self) -> HandlerModel {
        HandlerModel { fragment: tokens_model(self.fragment@), behavior: self.behavior }
    }
}

impl OutputHandler {
    /// A copy of this handler.
    pub fn duplicate(&self) -> (r: OutputHandler)
        ensures
            r@ == self@,
    {
        OutputHandler { fragment: copy_tokens(&self.fragment), behavior: self.behavior }
    }
}

/// The model of an optional handler.
pub open spec fn handler_opt_model(h: Option<OutputHandler>) -> Option<HandlerModel> {
    match h {
        Some(x) => Some(x@),
        None => None,
    }
}

/// A copy of an optional handler.
pub fn copy_handler(h: &Option<OutputHandler>) -> (r: Option<OutputHandler>)
    ensures
        handler_opt_model(r) == handler_opt_model(*h),
{
    match h {
        Some(x) => Some(x.duplicate()),
        None => None,
    }
}

/// Flags of the group that a bracket handler opens.
#[derive(Clone, Copy, Debug, PartialEq, Eq, Structural)]
pub struct BracketContextFlags {
    /// Values below the group are read without being popped.
    pub no_pop: bool,
}

impl BracketContextFlags {
    /// No flag set.
    pub fn new() -> (r: BracketContextFlags)
        ensures
            r == (BracketContextFlags { no_pop: false }),
    {
        BracketContextFlags { no_pop: false }
    }

    /// These flags with `no_pop` set as given.
    pub fn set_no_pop(self, no_pop: bool) -> (r: BracketContextFlags)
        ensures
            r == (BracketContextFlags { no_pop, ..self }),
    {
        let mut s = self;
        s.no_pop = no_pop;
        s
    }
}

/// A group of code nested in a builtin: the fragment written when it
/// closes, and the output handler of its values.
pub struct BracketHandler {
    pub fragment: ProgramFragment,
    pub output_handler: Option<OutputHandler>,
    pub flags: BracketContextFlags,
}

/// What a [`BracketHandler`] stands for.
pub struct BracketModel {
    pub fragment: FragmentModel,
    pub handler: Option<HandlerModel>,
    pub flags: BracketContextFlags,
}

impl View for BracketHandler {
    type V = BracketModel;

    open spec fn view(&self) -> BracketModel {
        BracketModel {
            fragment: self.fragment@,
            handler: handler_opt_model(self.output_handler),
            flags: self.flags,
        }
    }
}

/// The local names of a bracket handler: those of its fragment, then those
/// of its output handler.
pub open spec fn bracket_local_names(b: BracketModel) -> Seq<Seq<char>> {
    local_names(b.fragment.init) + local_names(b.fragment.destruct) + match b.handler {
        Some(h) => local_names(h.fragment),
        None => Seq::empty(),
    }
}

/// The local names of a list of bracket handlers, in order.
pub open spec fn brackets_local_names(bs: Seq<BracketModel>) -> Seq<Seq<char>>
    decreases bs.len(),
{
    if bs.len() == 0 {
        Seq::empty()
    } else {
        brackets_local_names(bs.drop_last()) + bracket_local_names(bs.last())
    }
}

fn append_strings(a: &mut Vec<String>, b: Vec<String>)
    ensures
        final(a)@.map_values(|s: String| s@) == old(a)@.map_values(|s: String| s@) + b@.map_values(|s: String| s@),
{
    let ghost a0 = a@;
    let mut i: usize = 0;
    while i < b.len()
        invariant
            i <= b@.len(),
            a@ == a0 + b@.subrange(0, i as int),
        decreases b@.len() - i,
    {
        a.push(b[i].clone());
        i = i + 1;
    }
    assert(b@.subrange(0, b@.len() as int) == b@);
    assert(a@.map_values(|s: String| s@) =~= a0.map_values(|s: String| s@) + b@.map_values(|s: String| s@));
}

impl BracketHandler {
    /// The local names of the fragment and then of the output handler.
    pub fn get_local_var_names(&self) -> (r: Vec<String>)
        ensures
            r@.map_values(|s: String| s@) == bracket_local_names(self@),
    {
        let mut r = self.fragment.get_local_var_names();
        match &self.output_handler {
            Some(h) => {
                let more = h.fragment.get_local_var_names();
                append_strings(&mut r, more);
            },
            None => {
                assert(r@.map_values(|s: String| s@) =~= r@.map_values(|s: String| s@) + Seq::<Seq<char>>::empty());
            },
        }
        r
    }

    /// A copy of this bracket handler.
    pub fn duplicate(&self) -> (r: BracketHandler)
        ensures
            r@ == self@,
    {
        BracketHandler {
            fragment: self.fragment.duplicate(),
            output_handler: copy_handler(&self.output_handler),
            flags: self.flags,
        }
    }
}

/// A builtin: the character that invokes it, the fragment it writes, and
/// the groups of code nested in it.
pub struct Builtin {
    pub name: String,
    pub description: String,
    pub token: char,
    pub template: ProgramFragment,
    pub bracket_handlers: Vec<BracketHandler>,
}

/// What a [`Builtin`] stands for.
pub struct BuiltinModel {
    pub name: Seq<char>,
    pub description: Seq<char>,
    pub token: char,
    pub template: FragmentModel,
    pub brackets: Seq<BracketModel>,
}

impl View for Builtin {
    type V = BuiltinModel;

    open spec fn view(&self) -> BuiltinModel {
        BuiltinModel {
            name: self.name@,
            description: self.description@,
            token: self.token,
            template: self.template@,
            brackets: self.bracket_handlers@.map_values(|b: BracketHandler| b@),
        }
    }
}

/// The local names of a builtin: those of its template, then those of each
/// bracket handler in order, repeats included.
pub open spec fn builtin_local_names(b: BuiltinModel) -> Seq<Seq<char>> {
    local_names(b.template.init) + local_names(b.template.destruct) + brackets_local_names(b.brackets)
}

/// Whether every input that a fragment pops is read by one of its tokens.
pub open spec fn fragment_uses_all_ins(f: FragmentModel) -> bool {
    forall|i: usize| i < f.popped ==> uses_in_var(f.init + f.destruct, i)
}

impl Builtin {
    /// The local names of the template and of every bracket handler.
    pub fn get_local_var_names(&self) -> (r: Vec<String>)
        ensures
            r@.map_values(|s: String| s@) == builtin_local_names(self@),
    {
        let mut r = self.template.get_local_var_names();
        let ghost base = r@.map_values(|s: String| s@);
        let mut i: usize = 0;
        while i < self.bracket_handlers.len()
            invariant
                i <= self.bracket_handlers@.len(),
                r@.map_values(|s: String| s@) == base + brackets_local_names(
                    self@.brackets.subrange(0, i as int),
                ),
            decreases self.bracket_handlers@.len() - i,
        {
            let more = self.bracket_handlers[i].get_local_var_names();
            append_strings(&mut r, more);
            assert(self@.brackets.subrange(0, i + 1).drop_last() == self@.brackets.subrange(0, i as int));
            i = i + 1;
        }
        assert(self@.brackets.subrange(0, self@.brackets.len() as int) == self@.brackets);
        r
    }

    /// Whether the template, or the fragment of some bracket handler, reads
    /// every input it pops.
    pub fn uses_all_ins(&self) -> (r: bool)
        ensures
            r == (fragment_uses_all_ins(self@.template) || exists|i: int|
                0 <= i < self@.brackets.len() && fragment_uses_all_ins(#[trigger] self@.brackets[i].fragment)),
    {
        if self.template.uses_all_ins() {
            return true;
        }
        let mut i: usize = 0;
        while i < self.bracket_handlers.len()
            invariant
                i <= self.bracket_handlers@.len(),
                forall|j: int| 0 <= j < i ==> !fragment_uses_all_ins(#[trigger] self@.brackets[j].fragment),
            decreases self.bracket_handlers@.len() - i,
        {
            if self.bracket_handlers[i].fragment.uses_all_ins() {
                assert(fragment_uses_all_ins(self@.brackets[i as int].fragment));
                return true;
            }
            i = i + 1;
        }
        false
    }
}


/// The most values any bracket of builtin `b` pops, from bracket `h` on, each
/// bracket taking the next value of `s` from `pos` on as its code.
pub open spec fn largest_loop(b: BuiltinModel, h: int, max: usize, s: Seq<LexModel>, pos: int) -> Option<(usize, int)>
    decreases b.brackets.len() - h,
{
    if h < 0 || h >= b.brackets.len() {
        Some((max, pos))
    } else if pos < 0 || pos >= s.len() {
        None
    } else {
        match movement(s[pos], s, pos + 1) {
            None => None,
            Some((m, p2)) => largest_loop(b, h + 1, if m.pops > max { m.pops } else { max }, s, p2),
        }
    }
}

impl Builtin {
    /// The most values that the code of any of this builtin's brackets pops,
    /// each bracket's code being the next value from `next[*pos]` on.
    pub fn get_bracket_largest_final_stack_size<'a>(
        &self,
        next: &Vec<LexerValue<'a>>,
        pos: &mut usize,
    ) -> (r: Option<usize>)
        requires
            *old(pos) <= next@.len(),
        ensures
            match largest_loop(self@, 0, 0, lex_models(next@), *old(pos) as int) {
                Some((m, p)) => r == Some(m) && *final(pos) == p,
                None => r is None,
            },
    {
        let ghost s = lex_models(next@);
        proof {
            lemma_lex_models_len(next@);
        }
        let mut max: usize = 0;
        let mut h: usize = 0;
        while h < self.bracket_handlers.len()
            invariant
                s == lex_models(next@),
                s.len() == next@.len(),
                h <= self@.brackets.len(),
                largest_loop(self@, 0, 0, s, *old(pos) as int) == largest_loop(self@, h as int, max, s, *pos as int),
            decreases self@.brackets.len() - h,
        {
            if *pos >= next.len() {
                return None;
            }
            let p = *pos;
            proof {
                lemma_lex_models_index(next@, p as int);
            }
            *pos = p + 1;
            let m = match next[p].get_stack_movement(next, pos) {
                Some(m) => m,
                None => {
                    return None;
                },
            };
            if m.pops > max {
                max = m.pops;
            }
            h = h + 1;
        }
        Some(max)
    }
}

} // verus!
