//! Writing fragments, output handlers and the ends of groups.

use vstd::prelude::*;
use crate::template::{
    TemplateToken, TokenModel, Output, OutputModel, tokens_model, copy_tokens, number_of_input_vars,
    in_indices_bounded, in_indices_are_bounded, HighestVarNumbers,
};
use crate::dsl::strings_model;
use crate::text::{push_string, push_char};
use crate::output_writer::{OutputWriter, WriterModel, write_all, write_step, extends, lemma_extends_trans, lemma_write_appends};
use crate::language::locals::LocalVars;
use crate::language::error::TranspileError;
use crate::language::builtin::MultiOutputBehavior;
use crate::language::stack::{
    OutputHandlerInstance, HandlerInstanceModel, Stack, StackModel, StackBracketGroup, GroupModel,
    pop_spec, push_spec, output_handler_spec, group_handler, set_handler_max_spec, orphan_count, lemma_pop_keeps_groups,
    lemma_set_handler_max_keeps_groups, handlers_kept, lemma_handlers_kept_trans, lemma_handlers_kept_refl,
    lemma_pop_keeps_handlers, lemma_set_handler_max_keeps_handlers, lemma_pop_error, has_root_handler,
    lemma_handler_in_force, lemma_handlers_kept_root,
};
use crate::template::{ProgramFragment, FragmentModel};

verus! {

/// Tokens to write when the scope of a fragment closes, with the variables
/// they were given.
pub struct Destructor {
    pub fragments: Vec<TemplateToken>,
    pub local_vars: LocalVars,
    pub in_vars: Vec<String>,
    pub out_vars: Vec<String>,
}

/// What a [`Destructor`] stands for.
pub struct DestructorModel {
    pub fragments: Seq<TokenModel>,
    pub locals: Map<Seq<char>, Seq<char>>,
    pub in_vars: Seq<Seq<char>>,
    pub out_vars: Seq<Seq<char>>,
}

impl View for Destructor {
    type V = DestructorModel;

    open spec fn view(&self) -> DestructorModel {
        DestructorModel {
            fragments: tokens_model(self.fragments@),
            locals: self.local_vars@,
            in_vars: strings_model(self.in_vars@),
            out_vars: strings_model(self.out_vars@),
        }
    }
}

/// A copy of a list of strings.
pub fn copy_strings(v: &Vec<String>) -> (r: Vec<String>)
    ensures
        strings_model(r@) == strings_model(v@),
{
    let mut r: Vec<String> = Vec::new();
    let mut i: usize = 0;
    while i < v.len()
        invariant
            i <= v@.len(),
            r@ == v@.subrange(0, i as int),
        decreases v@.len() - i,
    {
        r.push(v[i].clone());
        i = i + 1;
    }
    assert(v@.subrange(0, v@.len() as int) == v@);
    r
}

impl Destructor {
    /// A copy of this destructor.
    pub fn duplicate(&self) -> (r: Destructor)
        ensures
            r@ == self@,
    {
        Destructor {
            fragments: copy_tokens(&self.fragments),
            local_vars: self.local_vars.duplicate(),
            in_vars: copy_strings(&self.in_vars),
            out_vars: copy_strings(&self.out_vars),
        }
    }
}

/// The models of a list of destructors.
pub open spec fn destructors_model(v: Seq<Destructor>) -> Seq<DestructorModel> {
    v.map_values(|d: Destructor| d@)
}

/// A copy of a list of destructors.
pub fn copy_destructors(v: &Vec<Destructor>) -> (r: Vec<Destructor>)
    ensures
        destructors_model(r@) == destructors_model(v@),
{
    let mut r: Vec<Destructor> = Vec::new();
    let mut i: usize = 0;
    while i < v.len()
        invariant
            i <= v@.len(),
            destructors_model(r@) == destructors_model(v@.subrange(0, i as int)),
        decreases v@.len() - i,
    {
        let d = v[i].duplicate();
        let ghost before = r@;
        r.push(d);
        assert(destructors_model(r@) =~= destructors_model(before).push(v@[i as int]@));
        assert(destructors_model(v@.subrange(0, i + 1)) =~= destructors_model(v@.subrange(0, i as int)).push(v@[i as int]@));
        i = i + 1;
    }
    assert(v@.subrange(0, v@.len() as int) == v@);
    r
}


// ---------------------------------------------------------------------------
// Writing tokens

/// What a token writes, given the local, input and output variables; `None`
/// when it names a variable that is not there.
pub open spec fn resolve_token(
    t: TokenModel,
    locals: Map<Seq<char>, Seq<char>>,
    in_vars: Seq<Seq<char>>,
    out_vars: Seq<Seq<char>>,
) -> Option<OutputModel> {
    match t {
        TokenModel::InVar(n) => if n < in_vars.len() { Some(OutputModel::Text(in_vars[n as int])) } else { None },
        TokenModel::OutVar(n) => if n < out_vars.len() { Some(OutputModel::Text(out_vars[n as int])) } else { None },
        TokenModel::Text(o) => Some(o),
        TokenModel::LocalVar(k) => if locals.contains_key(k) { Some(OutputModel::Text(locals[k])) } else { None },
    }
}

/// What a list of tokens writes, or `None` if any names a missing variable.
pub open spec fn resolve_tokens(
    ts: Seq<TokenModel>,
    locals: Map<Seq<char>, Seq<char>>,
    in_vars: Seq<Seq<char>>,
    out_vars: Seq<Seq<char>>,
) -> Option<Seq<OutputModel>>
    decreases ts.len(),
{
    if ts.len() == 0 {
        Some(Seq::empty())
    } else {
        match resolve_tokens(ts.drop_last(), locals, in_vars, out_vars) {
            Some(a) => match resolve_token(ts.last(), locals, in_vars, out_vars) {
                Some(b) => Some(a.push(b)),
                None => None,
            },
            None => None,
        }
    }
}

/// Writing tokens and then a newline.
pub open spec fn write_tokens_spec(
    w: WriterModel,
    ts: Seq<TokenModel>,
    locals: Map<Seq<char>, Seq<char>>,
    in_vars: Seq<Seq<char>>,
    out_vars: Seq<Seq<char>>,
) -> Result<WriterModel, TranspileError> {
    match resolve_tokens(ts.push(TokenModel::Text(OutputModel::NewLine)), locals, in_vars, out_vars) {
        Some(os) => Ok(write_all(w, os)),
        None => Err(TranspileError::UnknownVariable),
    }
}

proof fn lemma_resolve_prefix_none(
    ts: Seq<TokenModel>,
    i: int,
    locals: Map<Seq<char>, Seq<char>>,
    in_vars: Seq<Seq<char>>,
    out_vars: Seq<Seq<char>>,
)
    requires
        0 <= i <= ts.len(),
        resolve_tokens(ts.subrange(0, i), locals, in_vars, out_vars) is None,
    ensures
        resolve_tokens(ts, locals, in_vars, out_vars) is None,
    decreases ts.len(),
{
    if i == ts.len() {
        assert(ts.subrange(0, i) == ts);
    } else {
        assert(ts.drop_last().subrange(0, i) == ts.subrange(0, i));
        lemma_resolve_prefix_none(ts.drop_last(), i, locals, in_vars, out_vars);
    }
}

proof fn lemma_write_all_push(w: WriterModel, os: Seq<OutputModel>, o: OutputModel)
    ensures
        write_all(w, os.push(o)) == write_step(write_all(w, os), o),
{
    assert(os.push(o).drop_last() == os);
}

/// The outputs of `os`, as models.
pub open spec fn outputs_model(os: Seq<Output>) -> Seq<OutputModel> {
    os.map_values(|o: Output| o@)
}

/// Writes each of `os`, in order.
pub fn write_outputs(output: &mut OutputWriter, os: &Vec<Output>)
    ensures
        final(output)@ == write_all(old(output)@, outputs_model(os@)),
{
    let ghost m = outputs_model(os@);
    let mut i: usize = 0;
    assert(m.subrange(0, 0) =~= Seq::<OutputModel>::empty());
    while i < os.len()
        invariant
            i <= os@.len(),
            m == outputs_model(os@),
            output@ == write_all(old(output)@, m.subrange(0, i as int)),
        decreases os@.len() - i,
    {
        let o = os[i].duplicate();
        proof {
            lemma_write_all_push(old(output)@, m.subrange(0, i as int), o@);
            assert(m.subrange(0, i + 1) == m.subrange(0, i as int).push(o@));
        }
        output.write(o);
        i = i + 1;
    }
    assert(m.subrange(0, m.len() as int) == m);
}

/// What one token writes, as an output.
fn resolve_one(
    t: &TemplateToken,
    local_vars: &LocalVars,
    in_vars: &Vec<String>,
    out_vars: &Vec<String>,
) -> (r: Option<Output>)
    ensures
        match resolve_token(t@, local_vars@, strings_model(in_vars@), strings_model(out_vars@)) {
            Some(o) => r is Some && r->0@ == o,
            None => r is None,
        },
{
    match t {
        TemplateToken::InVar(n) => {
            if *n < in_vars.len() {
                Some(Output::String(in_vars[*n].clone()))
            } else {
                None
            }
        },
        TemplateToken::OutVar(n) => {
            if *n < out_vars.len() {
                Some(Output::String(out_vars[*n].clone()))
            } else {
                None
            }
        },
        TemplateToken::String(o) => Some(o.duplicate()),
        TemplateToken::LocalVar(k) => match local_vars.get(k) {
            Some(v) => Some(Output::String(v.clone())),
            None => None,
        },
    }
}

/// Writes `tokens` followed by a newline, with their variables filled in.
/// Nothing is written when a token names a missing variable.
pub fn write_tokens(
    output: &mut OutputWriter,
    tokens: &Vec<TemplateToken>,
    local_vars: &LocalVars,
    in_vars: &Vec<String>,
    out_vars: &Vec<String>,
) -> (r: Result<(), TranspileError>)
    ensures
        match write_tokens_spec(old(output)@, tokens_model(tokens@), local_vars@, strings_model(in_vars@), strings_model(out_vars@)) {
            Ok(w) => r is Ok && final(output)@ == w,
            Err(e) => r == Err::<(), TranspileError>(e) && final(output)@ == old(output)@,
        },
{
    let ghost ts = tokens_model(tokens@).push(TokenModel::Text(OutputModel::NewLine));
    let ghost lm = local_vars@;
    let ghost im = strings_model(in_vars@);
    let ghost om = strings_model(out_vars@);
    let mut outs: Vec<Output> = Vec::new();
    let mut i: usize = 0;
    assert(ts.subrange(0, 0) =~= Seq::<TokenModel>::empty());
    assert(outputs_model(outs@) =~= Seq::<OutputModel>::empty());
    while i < tokens.len()
        invariant
            i <= tokens@.len(),
            ts == tokens_model(tokens@).push(TokenModel::Text(OutputModel::NewLine)),
            lm == local_vars@,
            im == strings_model(in_vars@),
            om == strings_model(out_vars@),
            resolve_tokens(ts.subrange(0, i as int), lm, im, om) == Some(outputs_model(outs@)),
        decreases tokens@.len() - i,
    {
        assert(ts.subrange(0, i + 1).drop_last() == ts.subrange(0, i as int));
        assert(ts.subrange(0, i + 1).last() == tokens@[i as int]@);
        match resolve_one(&tokens[i], local_vars, in_vars, out_vars) {
            Some(o) => {
                let ghost before = outs@;
                outs.push(o);
                assert(outputs_model(outs@) =~= outputs_model(before).push(o@));
            },
            None => {
                proof {
                    lemma_resolve_prefix_none(ts, i + 1, lm, im, om);
                }
                return Err(TranspileError::UnknownVariable);
            },
        }
        i = i + 1;
    }
    let ghost before = outs@;
    outs.push(Output::NewLine);
    assert(outputs_model(outs@) =~= outputs_model(before).push(OutputModel::NewLine));
    assert(ts.subrange(0, i + 1) == ts);
    assert(ts.subrange(0, i + 1).drop_last() == ts.subrange(0, i as int));
    write_outputs(output, &outs);
    Ok(())
}

// ---------------------------------------------------------------------------
// Output handlers

/// What one token of an output handler writes: a missing input writes
/// nothing, an output variable is refused.
pub open spec fn resolve_handler_token(
    t: TokenModel,
    locals: Map<Seq<char>, Seq<char>>,
    inputs: Seq<Seq<char>>,
) -> Result<OutputModel, TranspileError> {
    match t {
        TokenModel::InVar(n) => Ok(OutputModel::Text(if n < inputs.len() { inputs[n as int] } else { Seq::empty() })),
        TokenModel::OutVar(_) => Err(TranspileError::OutputHandlerOutVar),
        TokenModel::Text(o) => Ok(o),
        TokenModel::LocalVar(k) => if locals.contains_key(k) {
            Ok(OutputModel::Text(locals[k]))
        } else {
            Err(TranspileError::UnknownVariable)
        },
    }
}

/// What an output handler writes, or the error of its first bad token.
pub open spec fn resolve_handler_tokens(
    ts: Seq<TokenModel>,
    locals: Map<Seq<char>, Seq<char>>,
    inputs: Seq<Seq<char>>,
) -> Result<Seq<OutputModel>, TranspileError>
    decreases ts.len(),
{
    if ts.len() == 0 {
        Ok(Seq::empty())
    } else {
        match resolve_handler_tokens(ts.drop_last(), locals, inputs) {
            Ok(a) => match resolve_handler_token(ts.last(), locals, inputs) {
                Ok(b) => Ok(a.push(b)),
                Err(e) => Err(e),
            },
            Err(e) => Err(e),
        }
    }
}

/// Writing an output handler with the given inputs.
pub open spec fn write_output_handler_spec(
    w: WriterModel,
    ts: Seq<TokenModel>,
    inputs: Seq<Seq<char>>,
    locals: Map<Seq<char>, Seq<char>>,
) -> Result<WriterModel, TranspileError> {
    match resolve_handler_tokens(ts, locals, inputs) {
        Ok(os) => Ok(write_all(w, os)),
        Err(e) => Err(e),
    }
}

proof fn lemma_resolve_handler_prefix_err(
    ts: Seq<TokenModel>,
    i: int,
    locals: Map<Seq<char>, Seq<char>>,
    inputs: Seq<Seq<char>>,
)
    requires
        0 <= i <= ts.len(),
        resolve_handler_tokens(ts.subrange(0, i), locals, inputs) is Err,
    ensures
        resolve_handler_tokens(ts, locals, inputs) == resolve_handler_tokens(ts.subrange(0, i), locals, inputs),
    decreases ts.len(),
{
    if i == ts.len() {
        assert(ts.subrange(0, i) == ts);
    } else {
        assert(ts.drop_last().subrange(0, i) == ts.subrange(0, i));
        lemma_resolve_handler_prefix_err(ts.drop_last(), i, locals, inputs);
    }
}

/// Writes an output handler's tokens with the given inputs; a missing
/// input writes nothing. Nothing is written when it fails.
pub fn write_output_handler(
    output: &mut OutputWriter,
    handler: &Vec<TemplateToken>,
    input_vars: &Vec<String>,
    local_vars: &LocalVars,
) -> (r: Result<(), TranspileError>)
    ensures
        match write_output_handler_spec(old(output)@, tokens_model(handler@), strings_model(input_vars@), local_vars@) {
            Ok(w) => r is Ok && final(output)@ == w,
            Err(e) => r == Err::<(), TranspileError>(e) && final(output)@ == old(output)@,
        },
{
    let ghost ts = tokens_model(handler@);
    let ghost lm = local_vars@;
    let ghost im = strings_model(input_vars@);
    let mut outs: Vec<Output> = Vec::new();
    let mut i: usize = 0;
    assert(ts.subrange(0, 0) =~= Seq::<TokenModel>::empty());
    assert(outputs_model(outs@) =~= Seq::<OutputModel>::empty());
    while i < handler.len()
        invariant
            i <= handler@.len(),
            ts == tokens_model(handler@),
            lm == local_vars@,
            im == strings_model(input_vars@),
            resolve_handler_tokens(ts.subrange(0, i as int), lm, im) == Ok::<Seq<OutputModel>, TranspileError>(outputs_model(outs@)),
        decreases handler@.len() - i,
    {
        assert(ts.subrange(0, i + 1).drop_last() == ts.subrange(0, i as int));
        assert(ts.subrange(0, i + 1).last() == handler@[i as int]@);
        let o = match &handler[i] {
            TemplateToken::InVar(k) => {
                if *k < input_vars.len() {
                    Output::String(input_vars[*k].clone())
                } else {
                    Output::String(String::new())
                }
            },
            TemplateToken::OutVar(_) => {
                proof {
                    lemma_resolve_handler_prefix_err(ts, i + 1, lm, im);
                }
                return Err(TranspileError::OutputHandlerOutVar);
            },
            TemplateToken::String(s) => s.duplicate(),
            TemplateToken::LocalVar(n) => match local_vars.get(n) {
                Some(v) => Output::String(v.clone()),
                None => {
                    proof {
                        lemma_resolve_handler_prefix_err(ts, i + 1, lm, im);
                    }
                    return Err(TranspileError::UnknownVariable);
                },
            },
        };
        let ghost before = outs@;
        outs.push(o);
        assert(outputs_model(outs@) =~= outputs_model(before).push(o@));
        i = i + 1;
    }
    assert(ts.subrange(0, i as int) == ts);
    write_outputs(output, &outs);
    Ok(())
}

/// The values joined by `, `.
pub open spec fn join_comma(vs: Seq<Seq<char>>) -> Seq<char>
    decreases vs.len(),
{
    if vs.len() == 0 {
        Seq::empty()
    } else if vs.len() == 1 {
        vs[0]
    } else {
        join_comma(vs.drop_last()) + seq![',', ' '] + vs.last()
    }
}

/// Joins the strings with `, ` between them.
pub fn join_strings(vs: &Vec<String>) -> (r: String)
    ensures
        r@ == join_comma(strings_model(vs@)),
{
    let ghost m = strings_model(vs@);
    let mut r = String::new();
    let mut i: usize = 0;
    assert(m.subrange(0, 0) =~= Seq::<Seq<char>>::empty());
    while i < vs.len()
        invariant
            i <= vs@.len(),
            m == strings_model(vs@),
            r@ == join_comma(m.subrange(0, i as int)),
        decreases vs@.len() - i,
    {
        let ghost pre = m.subrange(0, i + 1);
        assert(pre.drop_last() == m.subrange(0, i as int));
        if i > 0 {
            push_char(&mut r, ',');
            push_char(&mut r, ' ');
        } else {
            assert(pre.len() == 1);
        }
        push_string(&mut r, &vs[i]);
        assert(r@ =~= join_comma(pre));
        i = i + 1;
    }
    assert(m.subrange(0, i as int) == m);
    r
}

/// The larger of a recorded maximum and `n`.
pub open spec fn opt_max(a: Option<usize>, n: usize) -> Option<usize> {
    match a {
        Some(x) => Some(if x > n { x } else { n }),
        None => Some(n),
    }
}

/// Handing each of `inputs` on its own to an output handler, in order.
pub open spec fn flatten_all_spec(
    w: WriterModel,
    ts: Seq<TokenModel>,
    inputs: Seq<Seq<char>>,
    locals: Map<Seq<char>, Seq<char>>,
) -> Result<WriterModel, TranspileError>
    decreases inputs.len(),
{
    if inputs.len() == 0 {
        Ok(w)
    } else {
        match flatten_all_spec(w, ts, inputs.drop_last(), locals) {
            Ok(w1) => write_output_handler_spec(w1, ts, seq![inputs.last()], locals),
            Err(e) => Err(e),
        }
    }
}

/// Handing the values a group was left with to an output handler: the
/// writer after it, and the handler's recorded maximum afterwards.
pub open spec fn handle_group_output_spec(
    w: WriterModel,
    h: HandlerInstanceModel,
    inputs: Seq<Seq<char>>,
    locals: Map<Seq<char>, Seq<char>>,
) -> Result<(WriterModel, Option<usize>), TranspileError> {
    let ts = h.handler.fragment;
    if !in_indices_bounded(ts) {
        Err(TranspileError::InputIndexOverflow)
    } else {
        let n = number_of_input_vars(ts);
        match h.handler.behavior {
            MultiOutputBehavior::OnlyFirst => if n > inputs.len() {
                Err(TranspileError::NotEnoughValues)
            } else {
                match write_output_handler_spec(w, ts, inputs.subrange(0, n as int), locals) {
                    Ok(w1) => Ok((w1, h.max_variadic)),
                    Err(e) => Err(e),
                }
            },
            MultiOutputBehavior::FlattenAll => if n != 1 {
                Err(TranspileError::HandlerArity)
            } else {
                match flatten_all_spec(w, ts, inputs, locals) {
                    Ok(w1) => Ok((w1, h.max_variadic)),
                    Err(e) => Err(e),
                }
            },
            MultiOutputBehavior::Array | MultiOutputBehavior::Variadic => if n != 1 {
                Err(TranspileError::HandlerArity)
            } else {
                match write_output_handler_spec(w, ts, seq![join_comma(inputs)], locals) {
                    Ok(w1) => Ok((w1, opt_max(h.max_variadic, inputs.len() as usize))),
                    Err(e) => Err(e),
                }
            },
            MultiOutputBehavior::HalfZip => Err(TranspileError::UnsupportedBehavior),
        }
    }
}

/// The most values a handler that takes them all at once has been handed
/// never goes down, and after a call it is exactly the larger of what it
/// was and the number handed on; the other behaviours leave it as it was. (The values handed on come
/// from a `Vec`, so their number fits in a `usize`.)
pub proof fn lemma_handler_max_grows(
    w: WriterModel,
    h: HandlerInstanceModel,
    inputs: Seq<Seq<char>>,
    locals: Map<Seq<char>, Seq<char>>,
)
    requires
        inputs.len() <= usize::MAX,
    ensures
        handle_group_output_spec(w, h, inputs, locals) matches Ok((_, m)) ==> {
            if h.handler.behavior == MultiOutputBehavior::Array || h.handler.behavior == MultiOutputBehavior::Variadic {
                &&& m is Some
                &&& m->0 >= inputs.len()
                &&& (h.max_variadic matches Some(o) ==> m->0 >= o)
                &&& (m->0 == inputs.len() || h.max_variadic == Some(m->0))
            } else {
                m == h.max_variadic
            }
        },
{
}

/// Handing a handler that takes all values at once no more values than it
/// has recorded leaves its record as it was, and a second call with the
/// same values records the same maximum as the first.
pub proof fn lemma_handler_max_stable(
    w: WriterModel,
    w2: WriterModel,
    h: HandlerInstanceModel,
    inputs: Seq<Seq<char>>,
    locals: Map<Seq<char>, Seq<char>>,
)
    requires
        inputs.len() <= usize::MAX,
        h.handler.behavior == MultiOutputBehavior::Array || h.handler.behavior == MultiOutputBehavior::Variadic,
    ensures
        (h.max_variadic matches Some(o) && inputs.len() <= o) ==> (handle_group_output_spec(w, h, inputs, locals) matches Ok(
            (_, m),
        ) ==> m == h.max_variadic),
        handle_group_output_spec(w, h, inputs, locals) matches Ok((_, m)) ==> (handle_group_output_spec(
            w2,
            HandlerInstanceModel { max_variadic: m, ..h },
            inputs,
            locals,
        ) matches Ok((_, m2)) ==> m2 == m),
{
    lemma_handler_max_grows(w, h, inputs, locals);
    if let Ok((_, m)) = handle_group_output_spec(w, h, inputs, locals) {
        lemma_handler_max_grows(w2, HandlerInstanceModel { max_variadic: m, ..h }, inputs, locals);
    }
}

proof fn lemma_flatten_prefix_err(
    w: WriterModel,
    ts: Seq<TokenModel>,
    inputs: Seq<Seq<char>>,
    i: int,
    locals: Map<Seq<char>, Seq<char>>,
)
    requires
        0 <= i <= inputs.len(),
        flatten_all_spec(w, ts, inputs.subrange(0, i), locals) is Err,
    ensures
        flatten_all_spec(w, ts, inputs, locals) == flatten_all_spec(w, ts, inputs.subrange(0, i), locals),
    decreases inputs.len(),
{
    if i == inputs.len() {
        assert(inputs.subrange(0, i) == inputs);
    } else {
        assert(inputs.drop_last().subrange(0, i) == inputs.subrange(0, i));
        lemma_flatten_prefix_err(w, ts, inputs.drop_last(), i, locals);
    }
}

/// Hands the values a group was left with to an output handler, and returns
/// the handler's recorded maximum afterwards. On failure the output may hold
/// the values handed on before it.
pub fn handle_group_output(
    output: &mut OutputWriter,
    handler: &OutputHandlerInstance,
    input_vars: &Vec<String>,
    local_vars: &LocalVars,
) -> (r: Result<Option<usize>, TranspileError>)
    ensures
        match handle_group_output_spec(old(output)@, handler@, strings_model(input_vars@), local_vars@) {
            Ok((w, m)) => r == Ok::<Option<usize>, TranspileError>(m) && final(output)@ == w,
            Err(e) => r == Err::<Option<usize>, TranspileError>(e),
        },
{
    let ghost im = strings_model(input_vars@);
    if !in_indices_are_bounded(&handler.inner.fragment) {
        return Err(TranspileError::InputIndexOverflow);
    }
    let number_of_input_vars = handler.inner.fragment.get_number_of_input_vars();
    match handler.inner.behavior {
        MultiOutputBehavior::OnlyFirst => {
            if number_of_input_vars > input_vars.len() {
                return Err(TranspileError::NotEnoughValues);
            }
            let mut first: Vec<String> = Vec::new();
            let mut i: usize = 0;
            while i < number_of_input_vars
                invariant
                    i <= number_of_input_vars <= input_vars@.len(),
                    first@ == input_vars@.subrange(0, i as int),
                decreases number_of_input_vars - i,
            {
                first.push(input_vars[i].clone());
                i = i + 1;
            }
            assert(strings_model(first@) =~= im.subrange(0, number_of_input_vars as int));
            match write_output_handler(output, &handler.inner.fragment, &first, local_vars) {
                Ok(()) => Ok(handler.max_variadic_outputs),
                Err(e) => Err(e),
            }
        },
        MultiOutputBehavior::FlattenAll => {
            if number_of_input_vars != 1 {
                return Err(TranspileError::HandlerArity);
            }
            let ghost ts = handler@.handler.fragment;
            let ghost lm = local_vars@;
            let ghost w0 = output@;
            let mut i: usize = 0;
            assert(im.subrange(0, 0) =~= Seq::<Seq<char>>::empty());
            while i < input_vars.len()
                invariant
                    i <= input_vars@.len(),
                    im == strings_model(input_vars@),
                    ts == tokens_model(handler.inner.fragment@),
                    lm == local_vars@,
                    flatten_all_spec(w0, ts, im.subrange(0, i as int), lm) == Ok::<WriterModel, TranspileError>(output@),
                    w0 == old(output)@,
                    ts == handler@.handler.fragment,
                    handler@.handler.behavior == MultiOutputBehavior::FlattenAll,
                    in_indices_bounded(ts),
                    crate::template::number_of_input_vars(ts) == 1,
                decreases input_vars@.len() - i,
            {
                let one: Vec<String> = vec![input_vars[i].clone()];
                assert(strings_model(one@) =~= seq![im[i as int]]);
                assert(im.subrange(0, i + 1).drop_last() == im.subrange(0, i as int));
                assert(im.subrange(0, i + 1).last() == im[i as int]);
                let ghost wcur = output@;
                match write_output_handler(output, &handler.inner.fragment, &one, local_vars) {
                    Ok(()) => {},
                    Err(e) => {
                        proof {
                            assert(write_output_handler_spec(wcur, ts, seq![im[i as int]], lm) == Err::<WriterModel, TranspileError>(e));
                            assert(flatten_all_spec(w0, ts, im.subrange(0, i + 1), lm) == Err::<WriterModel, TranspileError>(e));
                            lemma_flatten_prefix_err(w0, ts, im, i + 1, lm);
                        }
                        return Err(e);
                    },
                }
                i = i + 1;
            }
            assert(im.subrange(0, i as int) == im);
            Ok(handler.max_variadic_outputs)
        },
        MultiOutputBehavior::Array | MultiOutputBehavior::Variadic => {
            if number_of_input_vars != 1 {
                return Err(TranspileError::HandlerArity);
            }
            let new_max = match handler.max_variadic_outputs {
                Some(x) => Some(if x > input_vars.len() { x } else { input_vars.len() }),
                None => Some(input_vars.len()),
            };
            let joined: Vec<String> = vec![join_strings(input_vars)];
            assert(strings_model(joined@) =~= seq![join_comma(im)]);
            match write_output_handler(output, &handler.inner.fragment, &joined, local_vars) {
                Ok(()) => Ok(new_max),
                Err(e) => Err(e),
            }
        },
        MultiOutputBehavior::HalfZip => Err(TranspileError::UnsupportedBehavior),
    }
}


// ---------------------------------------------------------------------------
// Fragments

/// Popping `n` values, in order: the stack after and the values popped.
pub open spec fn pop_n_spec(s: StackModel, n: nat) -> Result<(StackModel, Seq<Seq<char>>), TranspileError>
    decreases n,
{
    if n == 0 {
        Ok((s, Seq::empty()))
    } else {
        match pop_n_spec(s, (n - 1) as nat) {
            Ok((s1, vs)) => match pop_spec(s1) {
                Ok((s2, v)) => Ok((s2, vs.push(v))),
                Err(e) => Err(e),
            },
            Err(e) => Err(e),
        }
    }
}

/// Pushing `n` fresh values, in order: the stack after and the values.
pub open spec fn push_n_spec(s: StackModel, n: nat) -> Result<(StackModel, Seq<Seq<char>>), TranspileError>
    decreases n,
{
    if n == 0 {
        Ok((s, Seq::empty()))
    } else {
        match push_n_spec(s, (n - 1) as nat) {
            Ok((s1, vs)) => match push_spec(s1) {
                Ok((s2, v)) => Ok((s2, vs.push(v))),
                Err(e) => Err(e),
            },
            Err(e) => Err(e),
        }
    }
}

proof fn lemma_pop_n_err(s: StackModel, i: nat, n: nat)
    requires
        i <= n,
        pop_n_spec(s, i) is Err,
    ensures
        pop_n_spec(s, n) == pop_n_spec(s, i),
    decreases n,
{
    if n > i {
        lemma_pop_n_err(s, i, (n - 1) as nat);
    }
}

proof fn lemma_push_n_err(s: StackModel, i: nat, n: nat)
    requires
        i <= n,
        push_n_spec(s, i) is Err,
    ensures
        push_n_spec(s, n) == push_n_spec(s, i),
    decreases n,
{
    if n > i {
        lemma_push_n_err(s, i, (n - 1) as nat);
    }
}

/// Popping values never adds or removes a group, and hands out no name.
pub proof fn lemma_pop_n_keeps_groups(s: StackModel, n: nat)
    ensures
        pop_n_spec(s, n) matches Ok((s2, _)) ==> s2.frames.len() == s.frames.len() && s2.names == s.names,
    decreases n,
{
    if n > 0 {
        lemma_pop_n_keeps_groups(s, (n - 1) as nat);
        if let Ok((s1, _)) = pop_n_spec(s, (n - 1) as nat) {
            lemma_pop_keeps_groups(s1);
        }
    }
}

/// Pushing values never adds or removes a group, and only moves the count
/// of names handed out forward.
pub proof fn lemma_push_n_keeps_groups(s: StackModel, n: nat)
    ensures
        push_n_spec(s, n) matches Ok((s2, _)) ==> s2.frames.len() == s.frames.len() && s.names <= s2.names,
    decreases n,
{
    if n > 0 {
        lemma_push_n_keeps_groups(s, (n - 1) as nat);
    }
}

/// The stack with a destructor recorded in its current group.
pub open spec fn with_destructor(s: StackModel, d: DestructorModel) -> StackModel {
    StackModel { current: GroupModel { destructors: s.current.destructors.push(d), ..s.current }, ..s }
}

/// Writing a fragment: popping its inputs, pushing its outputs, writing its
/// init tokens and recording its destruct tokens in the current group.
pub open spec fn write_fragment_spec(
    w: WriterModel,
    f: FragmentModel,
    s: StackModel,
    locals: Map<Seq<char>, Seq<char>>,
) -> Result<(WriterModel, StackModel), TranspileError> {
    match pop_n_spec(s, f.popped as nat) {
        Err(e) => Err(e),
        Ok((s1, ins)) => match push_n_spec(s1, f.pushed as nat) {
            Err(e) => Err(e),
            Ok((s2, outs)) => match write_tokens_spec(w, f.init, locals, ins, outs) {
                Err(e) => Err(e),
                Ok(w2) => Ok((
                    w2,
                    with_destructor(s2, DestructorModel { fragments: f.destruct, locals, in_vars: ins, out_vars: outs }),
                )),
            },
        },
    }
}

/// Writing a fragment that pushes one value per output its group saw: its
/// single output variable stands for all of them, joined by `, `.
pub open spec fn write_variadic_fragment_spec(
    w: WriterModel,
    f: FragmentModel,
    s: StackModel,
    locals: Map<Seq<char>, Seq<char>>,
    outputs: usize,
) -> Result<(WriterModel, StackModel), TranspileError> {
    match pop_n_spec(s, f.popped as nat) {
        Err(e) => Err(e),
        Ok((s1, ins)) => if f.pushed != 1 {
            Err(TranspileError::VariadicPushes)
        } else {
            match push_n_spec(s1, outputs as nat) {
                Err(e) => Err(e),
                Ok((s2, outs)) => match write_tokens_spec(w, f.init, locals, ins, seq![join_comma(outs)]) {
                    Err(e) => Err(e),
                    Ok(w2) => Ok((
                        w2,
                        with_destructor(s2, DestructorModel { fragments: f.destruct, locals, in_vars: ins, out_vars: outs }),
                    )),
                },
            }
        },
    }
}

fn pop_values(stack: &mut Stack, n: usize) -> (r: Result<Vec<String>, TranspileError>)
    ensures
        match pop_n_spec(old(stack)@, n as nat) {
            Ok((s, vs)) => r is Ok && strings_model(r->Ok_0@) == vs && final(stack)@ == s,
            Err(e) => r == Err::<Vec<String>, TranspileError>(e),
        },
{
    let ghost s0 = stack@;
    let mut vals: Vec<String> = Vec::new();
    let mut i: usize = 0;
    assert(strings_model(vals@) =~= Seq::<Seq<char>>::empty());
    while i < n
        invariant
            i <= n,
            s0 == old(stack)@,
            pop_n_spec(s0, i as nat) == Ok::<(StackModel, Seq<Seq<char>>), TranspileError>((stack@, strings_model(vals@))),
        decreases n - i,
    {
        match stack.pop() {
            Ok(v) => {
                let ghost before = vals@;
                vals.push(v);
                assert(strings_model(vals@) =~= strings_model(before).push(v@));
            },
            Err(e) => {
                proof {
                    lemma_pop_n_err(s0, (i + 1) as nat, n as nat);
                }
                return Err(e);
            },
        }
        i = i + 1;
    }
    Ok(vals)
}

fn push_values(stack: &mut Stack, n: usize) -> (r: Result<Vec<String>, TranspileError>)
    ensures
        match push_n_spec(old(stack)@, n as nat) {
            Ok((s, vs)) => r is Ok && strings_model(r->Ok_0@) == vs && final(stack)@ == s,
            Err(e) => r == Err::<Vec<String>, TranspileError>(e),
        },
{
    let ghost s0 = stack@;
    let mut vals: Vec<String> = Vec::new();
    let mut i: usize = 0;
    assert(strings_model(vals@) =~= Seq::<Seq<char>>::empty());
    while i < n
        invariant
            i <= n,
            s0 == old(stack)@,
            push_n_spec(s0, i as nat) == Ok::<(StackModel, Seq<Seq<char>>), TranspileError>((stack@, strings_model(vals@))),
        decreases n - i,
    {
        match stack.push() {
            Ok(v) => {
                let ghost before = vals@;
                vals.push(v);
                assert(strings_model(vals@) =~= strings_model(before).push(v@));
            },
            Err(e) => {
                proof {
                    lemma_push_n_err(s0, (i + 1) as nat, n as nat);
                }
                return Err(e);
            },
        }
        i = i + 1;
    }
    Ok(vals)
}

/// Writes a fragment: pops its inputs, pushes fresh outputs, writes its init
/// tokens and records its destruct tokens in the current group.
pub fn write_fragment(
    output: &mut OutputWriter,
    fragment: ProgramFragment,
    stack: &mut Stack,
    local_vars: &LocalVars,
) -> (r: Result<(), TranspileError>)
    ensures
        match write_fragment_spec(old(output)@, fragment@, old(stack)@, local_vars@) {
            Ok((w, s)) => r is Ok && final(output)@ == w && final(stack)@ == s,
            Err(e) => r == Err::<(), TranspileError>(e),
        },
{
    let in_vars = match pop_values(stack, fragment.arguments_popped) {
        Ok(v) => v,
        Err(e) => {
            return Err(e);
        },
    };
    let out_vars = match push_values(stack, fragment.arguments_pushed) {
        Ok(v) => v,
        Err(e) => {
            return Err(e);
        },
    };
    match write_tokens(output, &fragment.init_tokens, local_vars, &in_vars, &out_vars) {
        Ok(()) => {},
        Err(e) => {
            return Err(e);
        },
    }
    stack.push_destructor(
        Destructor {
            fragments: fragment.destruct_tokens,
            in_vars,
            out_vars,
            local_vars: local_vars.duplicate(),
        },
    );
    Ok(())
}

/// Writes a fragment whose one output stands for `outputs` fresh values.
pub fn write_variadic_fragment(
    output: &mut OutputWriter,
    fragment: ProgramFragment,
    stack: &mut Stack,
    local_vars: &LocalVars,
    outputs: usize,
) -> (r: Result<(), TranspileError>)
    ensures
        match write_variadic_fragment_spec(old(output)@, fragment@, old(stack)@, local_vars@, outputs) {
            Ok((w, s)) => r is Ok && final(output)@ == w && final(stack)@ == s,
            Err(e) => r == Err::<(), TranspileError>(e),
        },
{
    let in_vars = match pop_values(stack, fragment.arguments_popped) {
        Ok(v) => v,
        Err(e) => {
            return Err(e);
        },
    };
    if fragment.arguments_pushed != 1 {
        return Err(TranspileError::VariadicPushes);
    }
    let out_vars = match push_values(stack, outputs) {
        Ok(v) => v,
        Err(e) => {
            return Err(e);
        },
    };
    let joined: Vec<String> = vec![join_strings(&out_vars)];
    assert(strings_model(joined@) =~= seq![join_comma(strings_model(out_vars@))]);
    match write_tokens(output, &fragment.init_tokens, local_vars, &in_vars, &joined) {
        Ok(()) => {},
        Err(e) => {
            return Err(e);
        },
    }
    stack.push_destructor(
        Destructor {
            fragments: fragment.destruct_tokens,
            in_vars,
            out_vars,
            local_vars: local_vars.duplicate(),
        },
    );
    Ok(())
}

/// Writing destructors, the last first.
pub open spec fn write_destructors_spec(w: WriterModel, ds: Seq<DestructorModel>) -> Result<WriterModel, TranspileError>
    decreases ds.len(),
{
    if ds.len() == 0 {
        Ok(w)
    } else {
        let d = ds.last();
        match write_tokens_spec(w, d.fragments, d.locals, d.in_vars, d.out_vars) {
            Ok(w1) => write_destructors_spec(w1, ds.drop_last()),
            Err(e) => Err(e),
        }
    }
}

/// Writes the destruct tokens of `ds`, the last first.
pub fn write_destructors(output: &mut OutputWriter, ds: &Vec<Destructor>) -> (r: Result<(), TranspileError>)
    ensures
        match write_destructors_spec(old(output)@, destructors_model(ds@)) {
            Ok(w) => r is Ok && final(output)@ == w,
            Err(e) => r == Err::<(), TranspileError>(e),
        },
{
    let ghost dm = destructors_model(ds@);
    let mut i = ds.len();
    assert(dm.subrange(0, i as int) == dm);
    while i > 0
        invariant
            i <= ds@.len(),
            dm == destructors_model(ds@),
            write_destructors_spec(old(output)@, dm) == write_destructors_spec(output@, dm.subrange(0, i as int)),
        decreases i,
    {
        let ghost pre = dm.subrange(0, i as int);
        assert(pre.drop_last() == dm.subrange(0, i - 1));
        assert(pre.last() == ds@[i - 1]@);
        let d = &ds[i - 1];
        match write_tokens(output, &d.fragments, &d.local_vars, &d.in_vars, &d.out_vars) {
            Ok(()) => {},
            Err(e) => {
                return Err(e);
            },
        }
        i = i - 1;
    }
    assert(dm.subrange(0, 0) =~= Seq::<DestructorModel>::empty());
    Ok(())
}

/// Writing a fragment never adds or removes a group, and only moves the
/// count of names handed out forward.
pub proof fn lemma_write_fragment_keeps_groups(
    w: WriterModel,
    f: FragmentModel,
    s: StackModel,
    locals: Map<Seq<char>, Seq<char>>,
)
    ensures
        write_fragment_spec(w, f, s, locals) matches Ok((_, s2)) ==> s2.frames.len() == s.frames.len() && s.names
            <= s2.names,
{
    lemma_pop_n_keeps_groups(s, f.popped as nat);
    if let Ok((s1, _)) = pop_n_spec(s, f.popped as nat) {
        lemma_push_n_keeps_groups(s1, f.pushed as nat);
    }
}

/// Writing a variadic fragment never adds or removes a group, and only
/// moves the count of names handed out forward.
pub proof fn lemma_write_variadic_keeps_groups(
    w: WriterModel,
    f: FragmentModel,
    s: StackModel,
    locals: Map<Seq<char>, Seq<char>>,
    outputs: usize,
)
    ensures
        write_variadic_fragment_spec(w, f, s, locals, outputs) matches Ok((_, s2)) ==> s2.frames.len() == s.frames.len()
            && s.names <= s2.names,
{
    lemma_pop_n_keeps_groups(s, f.popped as nat);
    if let Ok((s1, _)) = pop_n_spec(s, f.popped as nat) {
        lemma_push_n_keeps_groups(s1, outputs as nat);
    }
}

/// Closing a group that was taken off the stack leaves the number of groups
/// that remain as it was, and only moves the count of names handed out
/// forward.
pub proof fn lemma_dispose_keeps_groups(w: WriterModel, g: GroupModel, s: StackModel)
    ensures
        dispose_spec(w, g, s) matches Ok((_, s2)) ==> s2.frames.len() == s.frames.len() && s.names <= s2.names,
{
    let ctx = match group_handler(g) {
        Some(c) => Some(c),
        None => output_handler_spec(s),
    };
    if let Some((h, l)) = ctx {
        if let Ok((w1, max)) = handle_group_output_spec(w, h, g.stack, l) {
            let s1 = if g.handler is Some { s } else { set_handler_max_spec(s, max) };
            lemma_set_handler_max_keeps_groups(s, max);
            if let Ok(w2) = write_destructors_spec(w1, g.destructors) {
                lemma_write_fragment_keeps_groups(w2, g.end_fragment, s1, g.locals);
                lemma_write_variadic_keeps_groups(w2, g.end_fragment, s1, g.locals, match max {
                    Some(m) => m,
                    None => 0,
                });
            }
        }
    }
}

/// Writing tokens only adds text at the end of what was written.
pub proof fn lemma_write_tokens_appends(
    w: WriterModel,
    ts: Seq<TokenModel>,
    locals: Map<Seq<char>, Seq<char>>,
    in_vars: Seq<Seq<char>>,
    out_vars: Seq<Seq<char>>,
)
    ensures
        write_tokens_spec(w, ts, locals, in_vars, out_vars) matches Ok(w2) ==> extends(w, w2),
{
    if let Some(os) = resolve_tokens(ts.push(TokenModel::Text(OutputModel::NewLine)), locals, in_vars, out_vars) {
        lemma_write_appends(w, os);
    }
}

/// Writing an output handler only adds text at the end.
pub proof fn lemma_write_output_handler_appends(
    w: WriterModel,
    ts: Seq<TokenModel>,
    inputs: Seq<Seq<char>>,
    locals: Map<Seq<char>, Seq<char>>,
)
    ensures
        write_output_handler_spec(w, ts, inputs, locals) matches Ok(w2) ==> extends(w, w2),
{
    if let Ok(os) = resolve_handler_tokens(ts, locals, inputs) {
        lemma_write_appends(w, os);
    }
}

/// Handing values one by one to a handler only adds text at the end.
pub proof fn lemma_flatten_all_appends(
    w: WriterModel,
    ts: Seq<TokenModel>,
    inputs: Seq<Seq<char>>,
    locals: Map<Seq<char>, Seq<char>>,
)
    ensures
        flatten_all_spec(w, ts, inputs, locals) matches Ok(w2) ==> extends(w, w2),
    decreases inputs.len(),
{
    if inputs.len() == 0 {
        assert(w.text.subrange(0, w.text.len() as int) =~= w.text);
    } else {
        lemma_flatten_all_appends(w, ts, inputs.drop_last(), locals);
        if let Ok(w1) = flatten_all_spec(w, ts, inputs.drop_last(), locals) {
            lemma_write_output_handler_appends(w1, ts, seq![inputs.last()], locals);
            if let Ok(w2) = write_output_handler_spec(w1, ts, seq![inputs.last()], locals) {
                lemma_extends_trans(w, w1, w2);
            }
        }
    }
}

/// Handing a group's values to its handler only adds text at the end.
pub proof fn lemma_handle_group_output_appends(
    w: WriterModel,
    h: HandlerInstanceModel,
    inputs: Seq<Seq<char>>,
    locals: Map<Seq<char>, Seq<char>>,
)
    ensures
        handle_group_output_spec(w, h, inputs, locals) matches Ok((w2, _)) ==> extends(w, w2),
{
    let ts = h.handler.fragment;
    let n = number_of_input_vars(ts);
    lemma_flatten_all_appends(w, ts, inputs, locals);
    lemma_write_output_handler_appends(w, ts, seq![join_comma(inputs)], locals);
    if n <= inputs.len() {
        lemma_write_output_handler_appends(w, ts, inputs.subrange(0, n as int), locals);
    }
}

/// Writing destructors only adds text at the end.
pub proof fn lemma_write_destructors_appends(w: WriterModel, ds: Seq<DestructorModel>)
    ensures
        write_destructors_spec(w, ds) matches Ok(w2) ==> extends(w, w2),
    decreases ds.len(),
{
    if ds.len() == 0 {
        assert(w.text.subrange(0, w.text.len() as int) =~= w.text);
    } else {
        let d = ds.last();
        lemma_write_tokens_appends(w, d.fragments, d.locals, d.in_vars, d.out_vars);
        if let Ok(w1) = write_tokens_spec(w, d.fragments, d.locals, d.in_vars, d.out_vars) {
            lemma_write_destructors_appends(w1, ds.drop_last());
            if let Ok(w2) = write_destructors_spec(w1, ds.drop_last()) {
                lemma_extends_trans(w, w1, w2);
            }
        }
    }
}

/// Writing a fragment only adds text at the end.
pub proof fn lemma_write_fragment_appends(w: WriterModel, f: FragmentModel, s: StackModel, locals: Map<Seq<char>, Seq<char>>)
    ensures
        write_fragment_spec(w, f, s, locals) matches Ok((w2, _)) ==> extends(w, w2),
{
    if let Ok((s1, ins)) = pop_n_spec(s, f.popped as nat) {
        if let Ok((s2, outs)) = push_n_spec(s1, f.pushed as nat) {
            lemma_write_tokens_appends(w, f.init, locals, ins, outs);
        }
    }
}

/// Writing a variadic fragment only adds text at the end.
pub proof fn lemma_write_variadic_appends(
    w: WriterModel,
    f: FragmentModel,
    s: StackModel,
    locals: Map<Seq<char>, Seq<char>>,
    outputs: usize,
)
    ensures
        write_variadic_fragment_spec(w, f, s, locals, outputs) matches Ok((w2, _)) ==> extends(w, w2),
{
    if let Ok((s1, ins)) = pop_n_spec(s, f.popped as nat) {
        if let Ok((s2, outs)) = push_n_spec(s1, outputs as nat) {
            lemma_write_tokens_appends(w, f.init, locals, ins, seq![join_comma(outs)]);
        }
    }
}

/// Closing a group only adds text at the end.
pub proof fn lemma_dispose_appends(w: WriterModel, g: GroupModel, s: StackModel)
    ensures
        dispose_spec(w, g, s) matches Ok((w2, _)) ==> extends(w, w2),
{
    let ctx = match group_handler(g) {
        Some(c) => Some(c),
        None => output_handler_spec(s),
    };
    if let Some((h, l)) = ctx {
        lemma_handle_group_output_appends(w, h, g.stack, l);
        if let Ok((w1, max)) = handle_group_output_spec(w, h, g.stack, l) {
            let s1 = if g.handler is Some { s } else { set_handler_max_spec(s, max) };
            lemma_write_destructors_appends(w1, g.destructors);
            if let Ok(w2) = write_destructors_spec(w1, g.destructors) {
                lemma_extends_trans(w, w1, w2);
                let m = match max {
                    Some(m) => m,
                    None => 0,
                };
                lemma_write_fragment_appends(w2, g.end_fragment, s1, g.locals);
                lemma_write_variadic_appends(w2, g.end_fragment, s1, g.locals, m);
                if let Ok((w3, _)) = write_fragment_spec(w2, g.end_fragment, s1, g.locals) {
                    lemma_extends_trans(w, w2, w3);
                }
                if let Ok((w3, _)) = write_variadic_fragment_spec(w2, g.end_fragment, s1, g.locals, m) {
                    lemma_extends_trans(w, w2, w3);
                }
            }
        }
    }
}

/// Popping values keeps every group and its handler.
pub proof fn lemma_pop_n_keeps_handlers(s: StackModel, n: nat)
    ensures
        pop_n_spec(s, n) matches Ok((s2, _)) ==> handlers_kept(s, s2),
    decreases n,
{
    if n == 0 {
        lemma_handlers_kept_refl(s);
    } else {
        lemma_pop_n_keeps_handlers(s, (n - 1) as nat);
        if let Ok((s1, _)) = pop_n_spec(s, (n - 1) as nat) {
            lemma_pop_keeps_handlers(s1);
            if let Ok((s2, _)) = pop_spec(s1) {
                lemma_handlers_kept_trans(s, s1, s2);
            }
        }
    }
}

/// Pushing values keeps every group and its handler.
pub proof fn lemma_push_n_keeps_handlers(s: StackModel, n: nat)
    ensures
        push_n_spec(s, n) matches Ok((s2, _)) ==> handlers_kept(s, s2),
    decreases n,
{
    if n == 0 {
        lemma_handlers_kept_refl(s);
    } else {
        lemma_push_n_keeps_handlers(s, (n - 1) as nat);
        if let Ok((s1, _)) = push_n_spec(s, (n - 1) as nat) {
            if let Ok((s2, _)) = push_spec(s1) {
                lemma_handlers_kept_trans(s, s1, s2);
            }
        }
    }
}

/// Writing a fragment keeps every group and its handler.
pub proof fn lemma_write_fragment_keeps_handlers(
    w: WriterModel,
    f: FragmentModel,
    s: StackModel,
    locals: Map<Seq<char>, Seq<char>>,
)
    ensures
        write_fragment_spec(w, f, s, locals) matches Ok((_, s2)) ==> handlers_kept(s, s2),
{
    lemma_pop_n_keeps_handlers(s, f.popped as nat);
    if let Ok((s1, _)) = pop_n_spec(s, f.popped as nat) {
        lemma_push_n_keeps_handlers(s1, f.pushed as nat);
        if let Ok((s2, _)) = push_n_spec(s1, f.pushed as nat) {
            lemma_handlers_kept_trans(s, s1, s2);
        }
    }
}

/// Writing a variadic fragment keeps every group and its handler.
pub proof fn lemma_write_variadic_keeps_handlers(
    w: WriterModel,
    f: FragmentModel,
    s: StackModel,
    locals: Map<Seq<char>, Seq<char>>,
    outputs: usize,
)
    ensures
        write_variadic_fragment_spec(w, f, s, locals, outputs) matches Ok((_, s2)) ==> handlers_kept(s, s2),
{
    lemma_pop_n_keeps_handlers(s, f.popped as nat);
    if let Ok((s1, _)) = pop_n_spec(s, f.popped as nat) {
        lemma_push_n_keeps_handlers(s1, outputs as nat);
        if let Ok((s2, _)) = push_n_spec(s1, outputs as nat) {
            lemma_handlers_kept_trans(s, s1, s2);
        }
    }
}

/// Closing a group that was taken off the stack keeps every remaining
/// group and its handler.
pub proof fn lemma_dispose_keeps_handlers(w: WriterModel, g: GroupModel, s: StackModel)
    ensures
        dispose_spec(w, g, s) matches Ok((_, s2)) ==> handlers_kept(s, s2),
{
    let ctx = match group_handler(g) {
        Some(c) => Some(c),
        None => output_handler_spec(s),
    };
    if let Some((h, l)) = ctx {
        if let Ok((w1, max)) = handle_group_output_spec(w, h, g.stack, l) {
            let s1 = if g.handler is Some { s } else { set_handler_max_spec(s, max) };
            lemma_set_handler_max_keeps_handlers(s, max);
            lemma_handlers_kept_refl(s);
            if let Ok(w2) = write_destructors_spec(w1, g.destructors) {
                let m = match max {
                    Some(m) => m,
                    None => 0,
                };
                lemma_write_fragment_keeps_handlers(w2, g.end_fragment, s1, g.locals);
                lemma_write_variadic_keeps_handlers(w2, g.end_fragment, s1, g.locals, m);
                if let Ok((_, s3)) = write_fragment_spec(w2, g.end_fragment, s1, g.locals) {
                    lemma_handlers_kept_trans(s, s1, s3);
                }
                if let Ok((_, s3)) = write_variadic_fragment_spec(w2, g.end_fragment, s1, g.locals, m) {
                    lemma_handlers_kept_trans(s, s1, s3);
                }
            }
        }
    }
}

/// Closing a group: its values go to its output handler (or, failing one,
/// to the handler in force on the stack, which records the count), its
/// destructors are written last first, and its end fragment is written.
pub open spec fn dispose_spec(w: WriterModel, g: GroupModel, s: StackModel) -> Result<(WriterModel, StackModel), TranspileError> {
    let ctx = match group_handler(g) {
        Some(c) => Some(c),
        None => output_handler_spec(s),
    };
    match ctx {
        None => Err(TranspileError::NoOutputHandler),
        Some((h, l)) => match handle_group_output_spec(w, h, g.stack, l) {
            Err(e) => Err(e),
            Ok((w1, max)) => {
                let s1 = if g.handler is Some { s } else { set_handler_max_spec(s, max) };
                match write_destructors_spec(w1, g.destructors) {
                    Err(e) => Err(e),
                    Ok(w2) => if g.handler matches Some(hi) && hi.handler.behavior == MultiOutputBehavior::Variadic {
                        write_variadic_fragment_spec(w2, g.end_fragment, s1, g.locals, match max {
                            Some(m) => m,
                            None => 0,
                        })
                    } else {
                        write_fragment_spec(w2, g.end_fragment, s1, g.locals)
                    },
                }
            },
        },
    }
}

/// Closes a group: see [`dispose_spec`].
pub fn dispose_bracket_handler(
    output: &mut OutputWriter,
    bracket_handler: StackBracketGroup,
    stack: &mut Stack,
) -> (r: Result<(), TranspileError>)
    ensures
        match dispose_spec(old(output)@, bracket_handler@, old(stack)@) {
            Ok((w, s)) => r is Ok && final(output)@ == w && final(stack)@ == s,
            Err(e) => r == Err::<(), TranspileError>(e),
        },
{
    let ghost g = bracket_handler@;
    let StackBracketGroup {
        brackent_end_fragment,
        local_variables,
        output_handler,
        destructors,
        stack: values,
        no_pop_index: _,
    } = bracket_handler;
    let new_max = match &output_handler {
        Some(h) => match handle_group_output(output, h, &values, &local_variables) {
            Ok(m) => m,
            Err(e) => {
                return Err(e);
            },
        },
        None => {
            let (h, l) = match stack.get_output_handler() {
                Some((h, l)) => (h.duplicate(), l.duplicate()),
                None => {
                    return Err(TranspileError::NoOutputHandler);
                },
            };
            let m = match handle_group_output(output, &h, &values, &l) {
                Ok(m) => m,
                Err(e) => {
                    return Err(e);
                },
            };
            stack.set_output_handler_max(m);
            m
        },
    };
    match write_destructors(output, &destructors) {
        Ok(()) => {},
        Err(e) => {
            return Err(e);
        },
    }
    let variadic = match &output_handler {
        Some(h) => match h.inner.behavior {
            MultiOutputBehavior::Variadic => true,
            _ => false,
        },
        None => false,
    };
    if variadic {
        let outputs = match new_max {
            Some(m) => m,
            None => 0,
        };
        write_variadic_fragment(output, brackent_end_fragment, stack, &local_variables, outputs)
    } else {
        write_fragment(output, brackent_end_fragment, stack, &local_variables)
    }
}

/// What the comma does: the values the handler in force reads are popped
/// and written through it, in stack order; then the destructors that define
/// no value left on the current group are written, the last first.
pub open spec fn write_comma_spec(w: WriterModel, s: StackModel) -> Result<(WriterModel, StackModel), TranspileError> {
    match output_handler_spec(s) {
        None => Err(TranspileError::NoOutputHandler),
        Some((h, _)) => if !in_indices_bounded(h.handler.fragment) {
            Err(TranspileError::InputIndexOverflow)
        } else {
            match pop_n_spec(s, number_of_input_vars(h.handler.fragment)) {
                Err(e) => Err(e),
                Ok((s1, vals)) => match output_handler_spec(s1) {
                    None => Err(TranspileError::NoOutputHandler),
                    Some((h1, l1)) => match write_tokens_spec(w, h1.handler.fragment, l1, vals.reverse(), Seq::empty()) {
                        Err(e) => Err(e),
                        Ok(w1) => {
                            let ds = s1.current.destructors;
                            let cut = ds.len() - orphan_count(ds, s1.current.stack);
                            let s2 = StackModel {
                                current: GroupModel { destructors: ds.subrange(0, cut), ..s1.current },
                                ..s1
                            };
                            match write_destructors_spec(w1, ds.subrange(cut, ds.len() as int)) {
                                Ok(w2) => Ok((w2, s2)),
                                Err(e) => Err(e),
                            }
                        },
                    },
                },
            }
        },
    }
}

/// The comma never adds or removes a group, and hands out no name.
pub proof fn lemma_write_comma_keeps_groups(w: WriterModel, s: StackModel)
    ensures
        write_comma_spec(w, s) matches Ok((_, s2)) ==> s2.frames.len() == s.frames.len() && s2.names == s.names,
{
    if let Some((h, _)) = output_handler_spec(s) {
        lemma_pop_n_keeps_groups(s, number_of_input_vars(h.handler.fragment));
    }
}

/// The comma only adds text at the end.
pub proof fn lemma_write_comma_appends(w: WriterModel, s: StackModel)
    ensures
        write_comma_spec(w, s) matches Ok((w2, _)) ==> extends(w, w2),
{
    if let Some((h, _)) = output_handler_spec(s) {
        if let Ok((s1, vals)) = pop_n_spec(s, number_of_input_vars(h.handler.fragment)) {
            if let Some((h1, l1)) = output_handler_spec(s1) {
                lemma_write_tokens_appends(w, h1.handler.fragment, l1, vals.reverse(), Seq::empty());
                if let Ok(w1) = write_tokens_spec(w, h1.handler.fragment, l1, vals.reverse(), Seq::empty()) {
                    let ds = s1.current.destructors;
                    let cut = ds.len() - orphan_count(ds, s1.current.stack);
                    lemma_write_destructors_appends(w1, ds.subrange(cut, ds.len() as int));
                    if let Ok(w2) = write_destructors_spec(w1, ds.subrange(cut, ds.len() as int)) {
                        lemma_extends_trans(w, w1, w2);
                    }
                }
            }
        }
    }
}

/// The comma keeps every group and its handler.
pub proof fn lemma_write_comma_keeps_handlers(w: WriterModel, s: StackModel)
    ensures
        write_comma_spec(w, s) matches Ok((_, s2)) ==> handlers_kept(s, s2),
{
    if let Some((h, _)) = output_handler_spec(s) {
        lemma_pop_n_keeps_handlers(s, number_of_input_vars(h.handler.fragment));
    }
}

/// Whether a failure is for want of an output handler.
pub open spec fn lacks_handler<T>(r: Result<T, TranspileError>) -> bool {
    r == Err::<T, TranspileError>(TranspileError::NoOutputHandler)
}

proof fn lemma_pop_n_error(s: StackModel, n: nat)
    ensures
        !lacks_handler(pop_n_spec(s, n)),
    decreases n,
{
    if n > 0 {
        lemma_pop_n_error(s, (n - 1) as nat);
        if let Ok((s1, _)) = pop_n_spec(s, (n - 1) as nat) {
            lemma_pop_error(s1);
        }
    }
}

proof fn lemma_push_n_error(s: StackModel, n: nat)
    ensures
        !lacks_handler(push_n_spec(s, n)),
    decreases n,
{
    if n > 0 {
        lemma_push_n_error(s, (n - 1) as nat);
    }
}

proof fn lemma_resolve_handler_error(ts: Seq<TokenModel>, locals: Map<Seq<char>, Seq<char>>, inputs: Seq<Seq<char>>)
    ensures
        !lacks_handler(resolve_handler_tokens(ts, locals, inputs)),
    decreases ts.len(),
{
    if ts.len() > 0 {
        lemma_resolve_handler_error(ts.drop_last(), locals, inputs);
    }
}

proof fn lemma_flatten_all_error(
    w: WriterModel,
    ts: Seq<TokenModel>,
    inputs: Seq<Seq<char>>,
    locals: Map<Seq<char>, Seq<char>>,
)
    ensures
        !lacks_handler(flatten_all_spec(w, ts, inputs, locals)),
    decreases inputs.len(),
{
    if inputs.len() > 0 {
        lemma_flatten_all_error(w, ts, inputs.drop_last(), locals);
        lemma_resolve_handler_error(ts, locals, seq![inputs.last()]);
    }
}

proof fn lemma_write_destructors_error(w: WriterModel, ds: Seq<DestructorModel>)
    ensures
        !lacks_handler(write_destructors_spec(w, ds)),
    decreases ds.len(),
{
    if ds.len() > 0 {
        let d = ds.last();
        if let Ok(w1) = write_tokens_spec(w, d.fragments, d.locals, d.in_vars, d.out_vars) {
            lemma_write_destructors_error(w1, ds.drop_last());
        }
    }
}

/// Writing a fragment never fails for want of an output handler.
pub proof fn lemma_write_fragment_error(w: WriterModel, f: FragmentModel, s: StackModel, locals: Map<Seq<char>, Seq<char>>)
    ensures
        !lacks_handler(write_fragment_spec(w, f, s, locals)),
{
    lemma_pop_n_error(s, f.popped as nat);
    if let Ok((s1, _)) = pop_n_spec(s, f.popped as nat) {
        lemma_push_n_error(s1, f.pushed as nat);
    }
}

proof fn lemma_write_variadic_error(
    w: WriterModel,
    f: FragmentModel,
    s: StackModel,
    locals: Map<Seq<char>, Seq<char>>,
    outputs: usize,
)
    ensures
        !lacks_handler(write_variadic_fragment_spec(w, f, s, locals, outputs)),
{
    lemma_pop_n_error(s, f.popped as nat);
    if let Ok((s1, _)) = pop_n_spec(s, f.popped as nat) {
        lemma_push_n_error(s1, outputs as nat);
    }
}

/// With the output handler at the bottom of the stack, closing a group
/// never fails for want of an output handler.
pub proof fn lemma_dispose_has_handler(w: WriterModel, g: GroupModel, s: StackModel)
    requires
        has_root_handler(s),
    ensures
        !lacks_handler(dispose_spec(w, g, s)),
{
    lemma_handler_in_force(s);
    let ctx = match group_handler(g) {
        Some(c) => Some(c),
        None => output_handler_spec(s),
    };
    if let Some((h, l)) = ctx {
        let ts = h.handler.fragment;
        lemma_flatten_all_error(w, ts, g.stack, l);
        lemma_resolve_handler_error(ts, l, seq![join_comma(g.stack)]);
        if number_of_input_vars(ts) <= g.stack.len() {
            lemma_resolve_handler_error(ts, l, g.stack.subrange(0, number_of_input_vars(ts) as int));
        }
        if let Ok((w1, max)) = handle_group_output_spec(w, h, g.stack, l) {
            let s1 = if g.handler is Some { s } else { set_handler_max_spec(s, max) };
            lemma_write_destructors_error(w1, g.destructors);
            if let Ok(w2) = write_destructors_spec(w1, g.destructors) {
                lemma_write_fragment_error(w2, g.end_fragment, s1, g.locals);
                lemma_write_variadic_error(w2, g.end_fragment, s1, g.locals, match max {
                    Some(m) => m,
                    None => 0,
                });
            }
        }
    }
}

/// With the output handler at the bottom of the stack, the comma never
/// fails for want of an output handler.
pub proof fn lemma_write_comma_has_handler(w: WriterModel, s: StackModel)
    requires
        has_root_handler(s),
    ensures
        !lacks_handler(write_comma_spec(w, s)),
{
    lemma_handler_in_force(s);
    if let Some((h, _)) = output_handler_spec(s) {
        let n = number_of_input_vars(h.handler.fragment);
        lemma_pop_n_error(s, n);
        lemma_pop_n_keeps_handlers(s, n);
        if let Ok((s1, vals)) = pop_n_spec(s, n) {
            lemma_handlers_kept_root(s, s1);
            lemma_handler_in_force(s1);
            if let Some((h1, l1)) = output_handler_spec(s1) {
                if let Ok(w1) = write_tokens_spec(w, h1.handler.fragment, l1, vals.reverse(), Seq::empty()) {
                    let ds = s1.current.destructors;
                    let cut = ds.len() - orphan_count(ds, s1.current.stack);
                    lemma_write_destructors_error(w1, ds.subrange(cut, ds.len() as int));
                }
            }
        }
    }
}

/// Writes the values the output handler in force reads, and the destructors
/// that are no longer needed: see [`write_comma_spec`].
pub fn write_comma(output: &mut OutputWriter, stack: &mut Stack) -> (r: Result<(), TranspileError>)
    ensures
        match write_comma_spec(old(output)@, old(stack)@) {
            Ok((w, s)) => r is Ok && final(output)@ == w && final(stack)@ == s,
            Err(e) => r == Err::<(), TranspileError>(e),
        },
{
    let number_of_inputs = match stack.get_output_handler() {
        Some((h, _)) => {
            if !in_indices_are_bounded(&h.inner.fragment) {
                return Err(TranspileError::InputIndexOverflow);
            }
            h.inner.fragment.get_number_of_input_vars()
        },
        None => {
            return Err(TranspileError::NoOutputHandler);
        },
    };
    let popped = match pop_values(stack, number_of_inputs) {
        Ok(v) => v,
        Err(e) => {
            return Err(e);
        },
    };
    let mut stack_values: Vec<String> = Vec::new();
    let mut i = popped.len();
    let ghost pm = strings_model(popped@);
    while i > 0
        invariant
            i <= popped@.len(),
            pm == strings_model(popped@),
            strings_model(stack_values@) == pm.subrange(i as int, pm.len() as int).reverse(),
        decreases i,
    {
        let ghost before = stack_values@;
        let v = popped[i - 1].clone();
        stack_values.push(v);
        assert(strings_model(stack_values@) =~= strings_model(before).push(v@));
        assert(v@ == pm[i - 1]);
        assert(strings_model(stack_values@) =~= pm.subrange(i - 1, pm.len() as int).reverse());
        i = i - 1;
    }
    assert(pm.subrange(0, pm.len() as int) == pm);
    let empty: Vec<String> = Vec::new();
    assert(strings_model(empty@) =~= Seq::<Seq<char>>::empty());
    match stack.get_output_handler() {
        Some((h, l)) => {
            match write_tokens(output, &h.inner.fragment, l, &stack_values, &empty) {
                Ok(()) => {},
                Err(e) => {
                    return Err(e);
                },
            }
        },
        None => {
            return Err(TranspileError::NoOutputHandler);
        },
    }
    let unused = stack.destruct_unused_vars();
    write_destructors(output, &unused)
}

} // verus!
