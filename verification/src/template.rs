//! The template tokens that builtins are made of: literal output, input,
//! output and local variables, and the fragments built from them.

use vstd::prelude::*;

verus! {

/// A piece of generated text, or a layout instruction for the writer.
#[derive(Debug, PartialEq, Eq)]
pub enum Output {
    String(String),
    NewLine,
    Indent,
    Dedent,
}

/// What an [`Output`] stands for.
pub enum OutputModel {
    Text(Seq<char>),
    NewLine,
    Indent,
    Dedent,
}

impl View for Output {
    type V = OutputModel;

    open spec fn view(&self) -> OutputModel {
        match self {
            Output::String(s) => OutputModel::Text(s@),
            Output::NewLine => OutputModel::NewLine,
            Output::Indent => OutputModel::Indent,
            Output::Dedent => OutputModel::Dedent,
        }
    }
}

impl Output {
    /// Literal text.
    pub fn str(s: &str) -> (r: Output)
        ensures
            r@ == OutputModel::Text(s@),
    {
        Output::String(String::from_str(s))
    }

    /// A copy of this output.
    pub fn duplicate(&self) -> (r: Output)
        ensures
            r@ == self@,
    {
        match self {
            Output::String(s) => Output::String(s.clone()),
            Output::NewLine => Output::NewLine,
            Output::Indent => Output::Indent,
            Output::Dedent => Output::Dedent,
        }
    }
}


/// A template token: an input variable (popped from the stack), an output
/// variable (pushed onto it), literal output, or a named local variable.
#[derive(Debug, PartialEq, Eq)]
pub enum TemplateToken {
    InVar(usize),
    OutVar(usize),
    String(Output),
    LocalVar(String),
}

/// What a [`TemplateToken`] stands for.
pub enum TokenModel {
    InVar(usize),
    OutVar(usize),
    Text(OutputModel),
    LocalVar(Seq<char>),
}

impl View for TemplateToken {
    type V = TokenModel;

    open spec fn view(&self) -> TokenModel {
        match self {
            TemplateToken::InVar(n) => TokenModel::InVar(*n),
            TemplateToken::OutVar(n) => TokenModel::OutVar(*n),
            TemplateToken::String(o) => TokenModel::Text(o@),
            TemplateToken::LocalVar(s) => TokenModel::LocalVar(s@),
        }
    }
}

/// The models of a list of tokens.
pub open spec fn tokens_model(v: Seq<TemplateToken>) -> Seq<TokenModel> {
    v.map_values(|t: TemplateToken| t@)
}

impl TemplateToken {
    /// A token of literal text.
    pub fn str(s: &str) -> (r: TemplateToken)
        ensures
            r@ == TokenModel::Text(OutputModel::Text(s@)),
    {
        TemplateToken::String(Output::str(s))
    }

    /// A copy of this token.
    pub fn duplicate(&self) -> (r: TemplateToken)
        ensures
            r@ == self@,
    {
        match self {
            TemplateToken::InVar(n) => TemplateToken::InVar(*n),
            TemplateToken::OutVar(n) => TemplateToken::OutVar(*n),
            TemplateToken::String(o) => TemplateToken::String(o.duplicate()),
            TemplateToken::LocalVar(s) => TemplateToken::LocalVar(s.clone()),
        }
    }

    /// The name of the local variable this token stands for, if it is one.
    pub fn get_local_var_names(&self) -> (r: Option<String>)
        ensures
            match self@ {
                TokenModel::LocalVar(k) => r is Some && r->0@ == k,
                _ => r is None,
            },
    {
        match self {
            TemplateToken::LocalVar(k) => Some(k.clone()),
            _ => None,
        }
    }
}

/// A copy of a list of tokens.
pub fn copy_tokens(v: &Vec<TemplateToken>) -> (r: Vec<TemplateToken>)
    ensures
        tokens_model(r@) == tokens_model(v@),
{
    let mut r: Vec<TemplateToken> = Vec::new();
    let mut i: usize = 0;
    while i < v.len()
        invariant
            i <= v@.len(),
            tokens_model(r@) == tokens_model(v@.subrange(0, i as int)),
        decreases v@.len() - i,
    {
        r.push(v[i].duplicate());
        assert(tokens_model(v@.subrange(0, i + 1)) == tokens_model(v@.subrange(0, i as int)).push(
            v@[i as int]@,
        ));
        i = i + 1;
    }
    assert(v@.subrange(0, v@.len() as int) == v@);
    r
}

/// The names of the local variables among `t`, in order, repeats included.
pub open spec fn local_names(t: Seq<TokenModel>) -> Seq<Seq<char>>
    decreases t.len(),
{
    if t.len() == 0 {
        Seq::empty()
    } else {
        let rest = local_names(t.drop_last());
        match t.last() {
            TokenModel::LocalVar(k) => rest.push(k),
            _ => rest,
        }
    }
}

/// One more than the largest input variable index among `t`, or 0 if there
/// is none: the number of inputs the tokens read.
pub open spec fn number_of_input_vars(t: Seq<TokenModel>) -> nat
    decreases t.len(),
{
    if t.len() == 0 {
        0
    } else {
        let rest = number_of_input_vars(t.drop_last());
        match t.last() {
            TokenModel::InVar(n) => if n + 1 > rest { (n + 1) as nat } else { rest },
            _ => rest,
        }
    }
}

/// One more than the largest output variable index among `t`, or 0.
pub open spec fn number_of_output_vars(t: Seq<TokenModel>) -> nat
    decreases t.len(),
{
    if t.len() == 0 {
        0
    } else {
        let rest = number_of_output_vars(t.drop_last());
        match t.last() {
            TokenModel::OutVar(n) => if n + 1 > rest { (n + 1) as nat } else { rest },
            _ => rest,
        }
    }
}

/// No input variable index is `usize::MAX` (whose successor does not fit).
pub open spec fn in_indices_bounded(t: Seq<TokenModel>) -> bool {
    forall|i: int| 0 <= i < t.len() ==> !(#[trigger] t[i] matches TokenModel::InVar(n) && n == usize::MAX)
}

/// No output variable index is `usize::MAX`.
pub open spec fn out_indices_bounded(t: Seq<TokenModel>) -> bool {
    forall|i: int| 0 <= i < t.len() ==> !(#[trigger] t[i] matches TokenModel::OutVar(n) && n == usize::MAX)
}

/// Whether no input variable index in `t` is `usize::MAX`.
pub fn in_indices_are_bounded(t: &Vec<TemplateToken>) -> (r: bool)
    ensures
        r == in_indices_bounded(tokens_model(t@)),
{
    let mut i: usize = 0;
    while i < t.len()
        invariant
            i <= t@.len(),
            forall|j: int| 0 <= j < i ==> !(#[trigger] tokens_model(t@)[j] matches TokenModel::InVar(n) && n == usize::MAX),
        decreases t@.len() - i,
    {
        match &t[i] {
            TemplateToken::InVar(n) => {
                if *n == usize::MAX {
                    assert(tokens_model(t@)[i as int] matches TokenModel::InVar(n) && n == usize::MAX);
                    return false;
                }
            },
            _ => {},
        }
        i = i + 1;
    }
    true
}

/// Counting and naming the variables that a list of tokens uses.
pub trait HighestVarNumbers {
    /// The tokens, as models.
    spec fn token_models(&self) -> Seq<TokenModel>;

    /// One more than the largest input variable index, or 0.
    fn get_number_of_input_vars(&self) -> (r: usize)
        requires
            in_indices_bounded(self.token_models()),
        ensures
            r == number_of_input_vars(self.token_models()),
    ;

    /// One more than the largest output variable index, or 0.
    fn get_number_of_output_vars(&self) -> (r: usize)
        requires
            out_indices_bounded(self.token_models()),
        ensures
            r == number_of_output_vars(self.token_models()),
    ;

    /// The names of the local variables, in order, repeats included.
    fn get_local_var_names(&self) -> (r: Vec<String>)
        ensures
            r@.map_values(|s: String| s@) == local_names(self.token_models()),
    ;
}

impl HighestVarNumbers for Vec<TemplateToken> {
    open spec fn token_models(&self) -> Seq<TokenModel> {
        tokens_model(self@)
    }

    fn get_number_of_input_vars(&self) -> (r: usize) {
        let mut r: usize = 0;
        let mut i: usize = 0;
        while i < self.len()
            invariant
                i <= self@.len(),
                in_indices_bounded(tokens_model(self@)),
                r == number_of_input_vars(tokens_model(self@.subrange(0, i as int))),
            decreases self@.len() - i,
        {
            assert(tokens_model(self@.subrange(0, i + 1)).drop_last() == tokens_model(self@.subrange(0, i as int)));
            match &self[i] {
                TemplateToken::InVar(n) => {
                    assert(tokens_model(self@)[i as int] == TokenModel::InVar(*n));
                    if *n + 1 > r {
                        r = *n + 1;
                    }
                },
                _ => {},
            }
            i = i + 1;
        }
        assert(self@.subrange(0, self@.len() as int) == self@);
        r
    }

    fn get_number_of_output_vars(&self) -> (r: usize) {
        let mut r: usize = 0;
        let mut i: usize = 0;
        while i < self.len()
            invariant
                i <= self@.len(),
                out_indices_bounded(tokens_model(self@)),
                r == number_of_output_vars(tokens_model(self@.subrange(0, i as int))),
            decreases self@.len() - i,
        {
            assert(tokens_model(self@.subrange(0, i + 1)).drop_last() == tokens_model(self@.subrange(0, i as int)));
            match &self[i] {
                TemplateToken::OutVar(n) => {
                    assert(tokens_model(self@)[i as int] == TokenModel::OutVar(*n));
                    if *n + 1 > r {
                        r = *n + 1;
                    }
                },
                _ => {},
            }
            i = i + 1;
        }
        assert(self@.subrange(0, self@.len() as int) == self@);
        r
    }

    fn get_local_var_names(&self) -> (r: Vec<String>) {
        let mut r: Vec<String> = Vec::new();
        let mut i: usize = 0;
        while i < self.len()
            invariant
                i <= self@.len(),
                r@.map_values(|s: String| s@) == local_names(tokens_model(self@.subrange(0, i as int))),
            decreases self@.len() - i,
        {
            assert(tokens_model(self@.subrange(0, i + 1)).drop_last() == tokens_model(self@.subrange(0, i as int)));
            let ghost before = r@;
            match self[i].get_local_var_names() {
                Some(k) => {
                    r.push(k);
                    assert(r@.map_values(|s: String| s@) == before.map_values(|s: String| s@).push(r@.last()@));
                },
                None => {},
            }
            i = i + 1;
        }
        assert(self@.subrange(0, self@.len() as int) == self@);
        r
    }
}


/// A piece of generated program: tokens written when it is reached, tokens
/// written when its scope closes, and how many values it pops from the
/// stack and pushes onto it.
#[derive(Debug, PartialEq, Eq)]
pub struct ProgramFragment {
    pub init_tokens: Vec<TemplateToken>,
    pub destruct_tokens: Vec<TemplateToken>,
    pub arguments_popped: usize,
    pub arguments_pushed: usize,
}

/// What a [`ProgramFragment`] stands for.
pub struct FragmentModel {
    pub init: Seq<TokenModel>,
    pub destruct: Seq<TokenModel>,
    pub popped: usize,
    pub pushed: usize,
}

impl View for ProgramFragment {
    type V = FragmentModel;

    open spec fn view(&self) -> FragmentModel {
        FragmentModel {
            init: tokens_model(self.init_tokens@),
            destruct: tokens_model(self.destruct_tokens@),
            popped: self.arguments_popped,
            pushed: self.arguments_pushed,
        }
    }
}

/// The fragment that writes nothing and moves nothing.
pub open spec fn empty_fragment() -> FragmentModel {
    FragmentModel { init: Seq::empty(), destruct: Seq::empty(), popped: 0, pushed: 0 }
}

impl Default for ProgramFragment {
    fn default() -> (r: ProgramFragment)
        ensures
            r@ == empty_fragment(),
    {
        let r = ProgramFragment {
            init_tokens: Vec::new(),
            destruct_tokens: Vec::new(),
            arguments_popped: 0,
            arguments_pushed: 0,
        };
        assert(r@.init == Seq::<TokenModel>::empty());
        assert(r@.destruct == Seq::<TokenModel>::empty());
        r
    }
}

/// Whether input variable `i` appears among `t`.
pub open spec fn uses_in_var(t: Seq<TokenModel>, i: usize) -> bool {
    exists|j: int| 0 <= j < t.len() && t[j] == TokenModel::InVar(i)
}

fn tokens_use_in_var(t: &Vec<TemplateToken>, i: usize) -> (r: bool)
    ensures
        r == uses_in_var(tokens_model(t@), i),
{
    let mut j: usize = 0;
    while j < t.len()
        invariant
            j <= t@.len(),
            forall|k: int| 0 <= k < j ==> tokens_model(t@)[k] != TokenModel::InVar(i),
        decreases t@.len() - j,
    {
        match &t[j] {
            TemplateToken::InVar(n) => {
                if *n == i {
                    assert(tokens_model(t@)[j as int] == TokenModel::InVar(i));
                    return true;
                }
            },
            _ => {},
        }
        j = j + 1;
    }
    false
}

impl ProgramFragment {
    /// A copy of this fragment.
    pub fn duplicate(&self) -> (r: ProgramFragment)
        ensures
            r@ == self@,
    {
        ProgramFragment {
            init_tokens: copy_tokens(&self.init_tokens),
            destruct_tokens: copy_tokens(&self.destruct_tokens),
            arguments_popped: self.arguments_popped,
            arguments_pushed: self.arguments_pushed,
        }
    }

    /// The names of the local variables of the init tokens and then of the
    /// destruct tokens, in order, repeats included.
    pub fn get_local_var_names(&self) -> (r: Vec<String>)
        ensures
            r@.map_values(|s: String| s@) == local_names(self@.init) + local_names(self@.destruct),
    {
        let mut a = self.init_tokens.get_local_var_names();
        let b = self.destruct_tokens.get_local_var_names();
        let ghost a0 = a@;
        let mut i: usize = 0;
        while i < b.len()
            invariant
                i <= b@.len(),
                a@ == a0 + b@.subrange(0, i as int),
            decreases b@.len() - i,
        {
            a.push(b[i].clone());
            i = i + 1;
        }
        assert(b@.subrange(0, b@.len() as int) == b@);
        assert(a@.map_values(|s: String| s@) == a0.map_values(|s: String| s@) + b@.map_values(
            |s: String| s@,
        ));
        a
    }

    /// Whether every input the fragment pops is read by one of its tokens.
    pub fn uses_all_ins(&self) -> (r: bool)
        ensures
            r == forall|i: usize| i < self@.popped ==> uses_in_var(self@.init + self@.destruct, i),
    {
        let mut i: usize = 0;
        while i < self.arguments_popped
            invariant
                i <= self@.popped,
                forall|k: usize| k < i ==> uses_in_var(self@.init + self@.destruct, k),
            decreases self@.popped - i,
        {
            let a = tokens_use_in_var(&self.init_tokens, i);
            let b = tokens_use_in_var(&self.destruct_tokens, i);
            proof {
                let all = self@.init + self@.destruct;
                if a {
                    let j = choose|j: int| 0 <= j < self@.init.len() && self@.init[j] == TokenModel::InVar(i);
                    assert(all[j] == TokenModel::InVar(i));
                }
                if b {
                    let j = choose|j: int| 0 <= j < self@.destruct.len() && self@.destruct[j] == TokenModel::InVar(i);
                    assert(all[self@.init.len() + j] == TokenModel::InVar(i));
                }
                if !a && !b {
                    assert forall|j: int| 0 <= j < all.len() implies all[j] != TokenModel::InVar(i) by {
                        if j < self@.init.len() {
                            assert(all[j] == self@.init[j]);
                        } else {
                            assert(all[j] == self@.destruct[j - self@.init.len()]);
                        }
                    }
                }
            }
            if !a && !b {
                assert(!uses_in_var(self@.init + self@.destruct, i));
                return false;
            }
            i = i + 1;
        }
        true
    }
}

} // verus!
