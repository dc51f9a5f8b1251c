//! The value stack of a program being transpiled, split into groups: one
//! for the code at top level and one for each open group of nested code.

use vstd::prelude::*;
use crate::template::{
    TemplateToken, TokenModel, OutputModel, ProgramFragment, FragmentModel, tokens_model,
    empty_fragment,
};
use crate::dsl::strings_model;
use crate::text::{decimal, decimal_string, push_string, push_char};
use crate::template::Output;
use crate::varnames::{VarNames, var_name, lemma_var_names_distinct};
use crate::language::builtin::{
    OutputHandler, HandlerModel, BracketContextFlags, MultiOutputBehavior, handler_opt_model,
};
use crate::language::locals::LocalVars;
use crate::language::error::TranspileError;
use crate::language::fragment::{
    Destructor, DestructorModel, destructors_model, copy_destructors, copy_strings,
};

verus! {

/// An output handler in use by a group, with the most values it has been
/// handed at once by a list-taking behaviour.
pub struct OutputHandlerInstance {
    pub inner: OutputHandler,
    pub max_variadic_outputs: Option<usize>,
    pub child_variadic_outputs: Option<usize>,
}

/// What an [`OutputHandlerInstance`] stands for.
pub struct HandlerInstanceModel {
    pub handler: HandlerModel,
    pub max_variadic: Option<usize>,
    pub child_variadic: Option<usize>,
}

impl View for OutputHandlerInstance {
    type V = HandlerInstanceModel;

    open spec fn view(&self) -> HandlerInstanceModel {
        HandlerInstanceModel {
            handler: self.inner@,
            max_variadic: self.max_variadic_outputs,
            child_variadic: self.child_variadic_outputs,
        }
    }
}

/// The model of an optional handler instance.
pub open spec fn instance_opt_model(h: Option<OutputHandlerInstance>) -> Option<HandlerInstanceModel> {
    match h {
        Some(x) => Some(x@),
        None => None,
    }
}

impl OutputHandlerInstance {
    /// A copy of this instance.
    pub fn duplicate(&self) -> (r: OutputHandlerInstance)
        ensures
            r@ == self@,
    {
        OutputHandlerInstance {
            inner: self.inner.duplicate(),
            max_variadic_outputs: self.max_variadic_outputs,
            child_variadic_outputs: self.child_variadic_outputs,
        }
    }
}

fn copy_instance(h: &Option<OutputHandlerInstance>) -> (r: Option<OutputHandlerInstance>)
    ensures
        instance_opt_model(r) == instance_opt_model(*h),
{
    match h {
        Some(x) => Some(x.duplicate()),
        None => None,
    }
}

/// One group of the stack: the fragment written when it closes, its local
/// variables, its output handler, the destructors of the fragments written
/// in it, its values, and, for a group that reads below itself without
/// popping, how deep it has read.
pub struct StackBracketGroup {
    pub brackent_end_fragment: ProgramFragment,
    pub local_variables: LocalVars,
    pub output_handler: Option<OutputHandlerInstance>,
    pub destructors: Vec<Destructor>,
    pub stack: Vec<String>,
    pub no_pop_index: Option<usize>,
}

/// What a [`StackBracketGroup`] stands for.
pub struct GroupModel {
    pub end_fragment: FragmentModel,
    pub locals: Map<Seq<char>, Seq<char>>,
    pub handler: Option<HandlerInstanceModel>,
    pub destructors: Seq<DestructorModel>,
    pub stack: Seq<Seq<char>>,
    pub no_pop_index: Option<usize>,
}

impl View for StackBracketGroup {
    type V = GroupModel;

    open spec fn view(&self) -> GroupModel {
        GroupModel {
            end_fragment: self.brackent_end_fragment@,
            locals: self.local_variables@,
            handler: instance_opt_model(self.output_handler),
            destructors: destructors_model(self.destructors@),
            stack: strings_model(self.stack@),
            no_pop_index: self.no_pop_index,
        }
    }
}

/// The handler of a group with the group's local variables, if it has one.
pub open spec fn group_handler(g: GroupModel) -> Option<(HandlerInstanceModel, Map<Seq<char>, Seq<char>>)> {
    match g.handler {
        Some(h) => Some((h, g.locals)),
        None => None,
    }
}

impl StackBracketGroup {
    /// The group's output handler and local variables, if it has a handler.
    pub fn get_output_handler_context(&self) -> (r: Option<(&OutputHandlerInstance, &LocalVars)>)
        ensures
            match group_handler(self@) {
                Some((h, l)) => r matches Some((a, b)) && a@ == h && b@ == l,
                None => r is None,
            },
    {
        match &self.output_handler {
            Some(h) => Some((h, &self.local_variables)),
            None => None,
        }
    }

    /// A copy of this group.
    pub fn duplicate(&self) -> (r: StackBracketGroup)
        ensures
            r@ == self@,
    {
        StackBracketGroup {
            brackent_end_fragment: self.brackent_end_fragment.duplicate(),
            local_variables: self.local_variables.duplicate(),
            output_handler: copy_instance(&self.output_handler),
            destructors: copy_destructors(&self.destructors),
            stack: copy_strings(&self.stack),
            no_pop_index: self.no_pop_index,
        }
    }
}

/// The state of the whole stack: the groups below the current one, bottom
/// first, the current group, how many fresh names were handed out and how
/// many program inputs were read.
pub struct StackModel {
    pub frames: Seq<GroupModel>,
    pub current: GroupModel,
    pub names: usize,
    pub inputs_used: usize,
}

/// The stack of values, split into groups.
pub struct Stack {
    frames: Vec<StackBracketGroup>,
    pub current_group: StackBracketGroup,
    var_names: VarNames,
    inputs_used: usize,
}

/// The models of a list of groups.
pub open spec fn groups_model(v: Seq<StackBracketGroup>) -> Seq<GroupModel> {
    v.map_values(|g: StackBracketGroup| g@)
}

impl View for Stack {
    type V = StackModel;

    closed spec fn view(&self) -> StackModel {
        StackModel {
            frames: groups_model(self.frames@),
            current: self.current_group@,
            names: self.var_names@,
            inputs_used: self.inputs_used,
        }
    }
}

// ---------------------------------------------------------------------------
// Specification of the stack operations

/// The name of the `n`-th input of the program: `args[n]`.
pub open spec fn args_name(n: nat) -> Seq<char> {
    seq!['a', 'r', 'g', 's', '['] + decimal(n) + seq![']']
}

/// The text `output(`, `?? null);` of the default output handler.
pub open spec fn default_handler_model() -> HandlerModel {
    HandlerModel {
        fragment: seq![
            TokenModel::Text(OutputModel::Text("output("@)),
            TokenModel::InVar(0),
            TokenModel::Text(OutputModel::Text("?? null);"@)),
            TokenModel::Text(OutputModel::NewLine),
        ],
        behavior: MultiOutputBehavior::FlattenAll,
    }
}

/// The group a program starts in: it writes nothing when it ends and hands
/// each value it is left with to the default output handler.
pub open spec fn root_group() -> GroupModel {
    GroupModel {
        end_fragment: empty_fragment(),
        locals: Map::empty(),
        handler: Some(HandlerInstanceModel { handler: default_handler_model(), max_variadic: None, child_variadic: None }),
        destructors: Seq::empty(),
        stack: Seq::empty(),
        no_pop_index: None,
    }
}

/// A new stack: only the root group, no names handed out, no inputs read.
pub open spec fn new_stack() -> StackModel {
    StackModel { frames: Seq::empty(), current: root_group(), names: 0, inputs_used: 0 }
}

/// The value `left` places below the top of the first `count` frames,
/// counting down through their values; past the bottom it is an input of the
/// program. `None` when that input's number does not fit in a `usize`.
pub open spec fn peek_below(frames: Seq<GroupModel>, count: int, left: nat, inputs_used: nat) -> Option<Seq<char>>
    decreases count,
{
    if count <= 0 {
        if left + inputs_used <= usize::MAX {
            Some(args_name(left + inputs_used))
        } else {
            None
        }
    } else {
        let f = frames[count - 1];
        if f.stack.len() > left {
            Some(f.stack[f.stack.len() - 1 - left])
        } else {
            peek_below(frames, count - 1, (left - f.stack.len()) as nat, inputs_used)
        }
    }
}

/// Reading without popping, for a group whose read depth is `k`: the
/// depth after the read and the value read.
pub open spec fn pop_after_spec(k: usize, inputs_used: usize, frames: Seq<GroupModel>, count: int) -> Result<(usize, Seq<char>), TranspileError> {
    if k == usize::MAX {
        Err(TranspileError::CounterOverflow)
    } else {
        match peek_below(frames, count, k as nat, inputs_used as nat) {
            Some(v) => Ok(((k + 1) as usize, v)),
            None => Err(TranspileError::CounterOverflow),
        }
    }
}

/// Popping from the frames, looking at frame `j - 1` and below.
pub open spec fn pop_frames_spec(s: StackModel, j: int) -> Result<(StackModel, Seq<char>), TranspileError>
    decreases j,
{
    if j <= 0 || j > s.frames.len() {
        if s.inputs_used == usize::MAX {
            Err(TranspileError::CounterOverflow)
        } else {
            Ok((StackModel { inputs_used: (s.inputs_used + 1) as usize, ..s }, args_name(s.inputs_used as nat)))
        }
    } else {
        let f = s.frames[j - 1];
        if f.stack.len() > 0 {
            Ok((
                StackModel { frames: s.frames.update(j - 1, GroupModel { stack: f.stack.drop_last(), ..f }), ..s },
                f.stack.last(),
            ))
        } else {
            match f.no_pop_index {
                Some(k) => match pop_after_spec(k, s.inputs_used, s.frames, j - 1) {
                    Ok((k2, v)) => Ok((
                        StackModel { frames: s.frames.update(j - 1, GroupModel { no_pop_index: Some(k2), ..f }), ..s },
                        v,
                    )),
                    Err(e) => Err(e),
                },
                None => pop_frames_spec(s, j - 1),
            }
        }
    }
}

/// Popping a value: the top of the current group; failing that, for a group
/// that reads without popping, the next value below it; failing that, the
/// top of the nearest frame below with a value (or the next value below a
/// frame that reads without popping); failing all, the next unread input of
/// the program.
pub open spec fn pop_spec(s: StackModel) -> Result<(StackModel, Seq<char>), TranspileError> {
    if s.current.stack.len() > 0 {
        Ok((
            StackModel { current: GroupModel { stack: s.current.stack.drop_last(), ..s.current }, ..s },
            s.current.stack.last(),
        ))
    } else {
        match s.current.no_pop_index {
            Some(k) => match pop_after_spec(k, s.inputs_used, s.frames, s.frames.len() as int) {
                Ok((k2, v)) => Ok((StackModel { current: GroupModel { no_pop_index: Some(k2), ..s.current }, ..s }, v)),
                Err(e) => Err(e),
            },
            None => pop_frames_spec(s, s.frames.len() as int),
        }
    }
}

/// The frame found with a handler is below `j` and has one.
pub proof fn lemma_frame_handler_index(frames: Seq<GroupModel>, j: int)
    ensures
        frame_handler_index(frames, j) matches Some(i) ==> 0 <= i < j && frames[i].handler is Some,
    decreases j,
{
    if j > 0 && frames[j - 1].handler is None {
        lemma_frame_handler_index(frames, j - 1);
    }
}

/// Recording the most values handed to the handler in force never adds or
/// removes a group, and hands out no name.
pub proof fn lemma_set_handler_max_keeps_groups(s: StackModel, max: Option<usize>)
    ensures
        set_handler_max_spec(s, max).frames.len() == s.frames.len(),
        set_handler_max_spec(s, max).names == s.names,
{
    lemma_frame_handler_index(s.frames, s.frames.len() as int);
}

/// The bottom group of the stack: the first frame, or the current group
/// when no group is open above it.
pub open spec fn bottom_group(s: StackModel) -> GroupModel {
    if s.frames.len() > 0 {
        s.frames[0]
    } else {
        s.current
    }
}

/// Whether the bottom group of the stack has an output handler.
pub open spec fn has_root_handler(s: StackModel) -> bool {
    bottom_group(s).handler is Some
}

/// Whether `s2` has the same groups as `s`, each with a handler exactly
/// when it had one.
pub open spec fn handlers_kept(s: StackModel, s2: StackModel) -> bool {
    &&& s2.frames.len() == s.frames.len()
    &&& forall|k: int| #![auto] 0 <= k < s.frames.len() ==> (s2.frames[k].handler is Some) == (s.frames[k].handler is Some)
    &&& (s2.current.handler is Some) == (s.current.handler is Some)
}

/// A stack keeps its own handlers.
pub proof fn lemma_handlers_kept_refl(s: StackModel)
    ensures
        handlers_kept(s, s),
{
}

/// Keeping the handlers is transitive.
pub proof fn lemma_handlers_kept_trans(a: StackModel, b: StackModel, c: StackModel)
    requires
        handlers_kept(a, b),
        handlers_kept(b, c),
    ensures
        handlers_kept(a, c),
{
    assert forall|k: int| #![auto] 0 <= k < a.frames.len() implies (c.frames[k].handler is Some) == (a.frames[k].handler
        is Some) by {
        assert((b.frames[k].handler is Some) == (a.frames[k].handler is Some));
        assert((c.frames[k].handler is Some) == (b.frames[k].handler is Some));
    }
}

/// Keeping the handlers keeps the handler at the bottom.
pub proof fn lemma_handlers_kept_root(s: StackModel, s2: StackModel)
    requires
        handlers_kept(s, s2),
        has_root_handler(s),
    ensures
        has_root_handler(s2),
{
    if s.frames.len() > 0 {
        assert((s2.frames[0].handler is Some) == (s.frames[0].handler is Some));
    }
}

proof fn lemma_frame_handler_found(frames: Seq<GroupModel>, j: int, k: int)
    requires
        0 <= k < j <= frames.len(),
        frames[k].handler is Some,
    ensures
        frame_handler_index(frames, j) is Some,
    decreases j,
{
    if frames[j - 1].handler is None {
        lemma_frame_handler_found(frames, j - 1, k);
    }
}

/// With a handler at the bottom of the stack, some output handler is in
/// force.
pub proof fn lemma_handler_in_force(s: StackModel)
    requires
        has_root_handler(s),
    ensures
        output_handler_spec(s) is Some,
{
    if s.current.handler is None {
        lemma_frame_handler_found(s.frames, s.frames.len() as int, 0);
        lemma_frame_handler_index(s.frames, s.frames.len() as int);
    }
}

/// Popping keeps every group and its handler.
pub proof fn lemma_pop_frames_keeps_handlers(s: StackModel, j: int)
    ensures
        pop_frames_spec(s, j) matches Ok((s2, _)) ==> handlers_kept(s, s2),
    decreases j,
{
    if !(j <= 0 || j > s.frames.len()) {
        let f = s.frames[j - 1];
        if f.stack.len() == 0 && f.no_pop_index is None {
            lemma_pop_frames_keeps_handlers(s, j - 1);
        }
    }
}

/// Popping keeps every group and its handler.
pub proof fn lemma_pop_keeps_handlers(s: StackModel)
    ensures
        pop_spec(s) matches Ok((s2, _)) ==> handlers_kept(s, s2),
{
    lemma_pop_frames_keeps_handlers(s, s.frames.len() as int);
}

/// Recording the most values handed to the handler in force keeps every
/// group and its handler.
pub proof fn lemma_set_handler_max_keeps_handlers(s: StackModel, max: Option<usize>)
    ensures
        handlers_kept(s, set_handler_max_spec(s, max)),
{
    lemma_frame_handler_index(s.frames, s.frames.len() as int);
}

/// Opening a group keeps the handler at the bottom.
pub proof fn lemma_open_group_keeps_root(s: StackModel, g: GroupModel)
    requires
        has_root_handler(s),
    ensures
        has_root_handler(open_group_spec(s, g)),
{
}

/// Closing a group above the bottom keeps the handler at the bottom.
pub proof fn lemma_close_group_keeps_root(s: StackModel)
    requires
        has_root_handler(s),
        s.frames.len() > 0,
    ensures
        has_root_handler(close_group_spec(s)),
{
}

/// A new stack has the default handler at its bottom.
pub proof fn lemma_new_stack_has_root_handler()
    ensures
        has_root_handler(new_stack()),
{
}

proof fn lemma_frame_handler_index_nearest(frames: Seq<GroupModel>, i: int, j: int)
    requires
        0 <= i < j <= frames.len(),
        frames[i].handler is Some,
        forall|k: int| i < k < frames.len() ==> (#[trigger] frames[k]).handler is None,
    ensures
        frame_handler_index(frames, j) == Some(i),
    decreases j,
{
    if j - 1 > i {
        assert(frames[j - 1].handler is None);
        lemma_frame_handler_index_nearest(frames, i, j - 1);
    }
}

/// The handler in force is the current group's when it has one; otherwise
/// it is that of the nearest group below that has one (the group opened
/// last among those with a handler), with that group's local variables.
pub proof fn lemma_handler_in_force_is_nearest(s: StackModel, i: int)
    requires
        0 <= i < s.frames.len(),
        s.frames[i].handler is Some,
        forall|k: int| i < k < s.frames.len() ==> (#[trigger] s.frames[k]).handler is None,
    ensures
        s.current.handler matches Some(h) ==> output_handler_spec(s) == Some((h, s.current.locals)),
        s.current.handler is None ==> output_handler_spec(s) == Some((s.frames[i].handler->0, s.frames[i].locals)),
{
    lemma_frame_handler_index_nearest(s.frames, i, s.frames.len() as int);
}

/// Opening a group with a handler and then one without leaves the first
/// group's handler in force, whatever lies below.
pub proof fn lemma_open_groups_handler(s: StackModel, g1: GroupModel, g2: GroupModel)
    requires
        g1.handler is Some,
        g2.handler is None,
    ensures
        output_handler_spec(open_group_spec(open_group_spec(s, g1), g2)) == Some((g1.handler->0, g1.locals)),
{
    let s2 = open_group_spec(open_group_spec(s, g1), g2);
    let i = s.frames.len() as int + 1;
    assert(s2.frames[i] == g1);
    lemma_handler_in_force_is_nearest(s2, i);
}

/// Popping from an empty current group that reads nothing below takes the
/// value pushed last onto the nearest group below that holds values, when
/// the groups between hold none and read nothing below either; that value
/// leaves its group and nothing else changes.
pub proof fn lemma_pop_takes_nearest_top(s: StackModel, i: int)
    requires
        s.current.stack.len() == 0,
        s.current.no_pop_index is None,
        0 <= i < s.frames.len(),
        s.frames[i].stack.len() > 0,
        forall|k: int| i < k < s.frames.len() ==> (#[trigger] s.frames[k]).stack.len() == 0 && s.frames[k].no_pop_index is None,
    ensures
        pop_spec(s) matches Ok((s2, v)) && v == s.frames[i].stack[s.frames[i].stack.len() - 1]
            && s2.frames.len() == s.frames.len()
            && s2.frames[i].stack == s.frames[i].stack.subrange(0, s.frames[i].stack.len() - 1)
            && (forall|k: int| 0 <= k < s.frames.len() && k != i ==> #[trigger] s2.frames[k] == s.frames[k])
            && s2.current == s.current && s2.names == s.names && s2.inputs_used == s.inputs_used,
{
    lemma_pop_frames_nearest(s, i, s.frames.len() as int);
}

proof fn lemma_pop_frames_nearest(s: StackModel, i: int, j: int)
    requires
        0 <= i < j <= s.frames.len(),
        s.frames[i].stack.len() > 0,
        forall|k: int| i < k < s.frames.len() ==> (#[trigger] s.frames[k]).stack.len() == 0 && s.frames[k].no_pop_index is None,
    ensures
        pop_frames_spec(s, j) matches Ok((s2, v)) && v == s.frames[i].stack[s.frames[i].stack.len() - 1]
            && s2.frames.len() == s.frames.len()
            && s2.frames[i].stack == s.frames[i].stack.subrange(0, s.frames[i].stack.len() - 1)
            && (forall|k: int| 0 <= k < s.frames.len() && k != i ==> #[trigger] s2.frames[k] == s.frames[k])
            && s2.current == s.current && s2.names == s.names && s2.inputs_used == s.inputs_used,
    decreases j,
{
    if j - 1 > i {
        assert(s.frames[j - 1].stack.len() == 0 && s.frames[j - 1].no_pop_index is None);
        lemma_pop_frames_nearest(s, i, j - 1);
    } else {
        let f = s.frames[i];
        let s2 = StackModel { frames: s.frames.update(i, GroupModel { stack: f.stack.drop_last(), ..f }), ..s };
        assert(s2.frames[i].stack =~= f.stack.subrange(0, f.stack.len() - 1));
    }
}

/// A value pushed just before a group is opened is the first value popped
/// inside it, when the new group holds no values and reads nothing below:
/// the pop gives back that value and the stack as if it had never been
/// pushed.
pub proof fn lemma_pop_reaches_below(s: StackModel, v: Seq<char>, g: GroupModel)
    requires
        g.stack.len() == 0,
        g.no_pop_index is None,
    ensures
        pop_spec(open_group_spec(StackModel { current: GroupModel { stack: s.current.stack.push(v), ..s.current }, ..s }, g))
            == Ok::<(StackModel, Seq<char>), TranspileError>((open_group_spec(s, g), v)),
{
    let s1 = StackModel { current: GroupModel { stack: s.current.stack.push(v), ..s.current }, ..s };
    let s2 = open_group_spec(s1, g);
    let i = s.frames.len() as int;
    lemma_pop_takes_nearest_top(s2, i);
    let (s3, x) = pop_spec(s2)->Ok_0;
    assert(s.current.stack.push(v).subrange(0, s.current.stack.len() as int) =~= s.current.stack);
    assert(s3.frames =~= open_group_spec(s, g).frames) by {
        assert forall|k: int| 0 <= k < s3.frames.len() implies s3.frames[k] == open_group_spec(s, g).frames[k] by {
            if k == i {
                assert(s3.frames[k].stack == s.current.stack);
            }
        }
    }
}

/// Popping a value from the frames never adds or removes a group, and
/// hands out no name.
pub proof fn lemma_pop_frames_keeps_groups(s: StackModel, j: int)
    ensures
        pop_frames_spec(s, j) matches Ok((s2, _)) ==> s2.frames.len() == s.frames.len() && s2.names == s.names,
    decreases j,
{
    if !(j <= 0 || j > s.frames.len()) {
        let f = s.frames[j - 1];
        if f.stack.len() == 0 && f.no_pop_index is None {
            lemma_pop_frames_keeps_groups(s, j - 1);
        }
    }
}

/// Popping a value never adds or removes a group, and hands out no name.
pub proof fn lemma_pop_keeps_groups(s: StackModel)
    ensures
        pop_spec(s) matches Ok((s2, _)) ==> s2.frames.len() == s.frames.len() && s2.names == s.names,
{
    lemma_pop_frames_keeps_groups(s, s.frames.len() as int);
}

/// Popping fails only when a counter would overflow.
pub proof fn lemma_pop_frames_error(s: StackModel, j: int)
    ensures
        pop_frames_spec(s, j) matches Err(e) ==> e == TranspileError::CounterOverflow,
    decreases j,
{
    if !(j <= 0 || j > s.frames.len()) {
        let f = s.frames[j - 1];
        if f.stack.len() == 0 && f.no_pop_index is None {
            lemma_pop_frames_error(s, j - 1);
        }
    }
}

/// Popping fails only when a counter would overflow.
pub proof fn lemma_pop_error(s: StackModel)
    ensures
        pop_spec(s) matches Err(e) ==> e == TranspileError::CounterOverflow,
{
    lemma_pop_frames_error(s, s.frames.len() as int);
}

/// Handing out a fresh name without pushing it.
pub open spec fn local_var_name_spec(s: StackModel) -> Result<(StackModel, Seq<char>), TranspileError> {
    if s.names == usize::MAX {
        Err(TranspileError::NamesExhausted)
    } else {
        Ok((StackModel { names: (s.names + 1) as usize, ..s }, var_name(s.names as nat)))
    }
}

/// Pushing a fresh name onto the current group.
pub open spec fn push_spec(s: StackModel) -> Result<(StackModel, Seq<char>), TranspileError> {
    if s.names == usize::MAX {
        Err(TranspileError::NamesExhausted)
    } else {
        let v = var_name(s.names as nat);
        Ok((
            StackModel {
                names: (s.names + 1) as usize,
                current: GroupModel { stack: s.current.stack.push(v), ..s.current },
                ..s
            },
            v,
        ))
    }
}

/// A name handed out once the count of names has moved past `n` is never
/// the `n`-th name: since no operation moves the count back, no name is
/// handed out twice.
pub proof fn lemma_later_names_differ(s: StackModel, n: nat)
    requires
        n < s.names,
    ensures
        push_spec(s) matches Ok((_, v)) ==> v != var_name(n),
        local_var_name_spec(s) matches Ok((_, v)) ==> v != var_name(n),
{
    lemma_var_names_distinct(n, s.names as nat);
}

/// The group that a bracket handler opens.
pub open spec fn new_group(
    locals: Map<Seq<char>, Seq<char>>,
    end_fragment: FragmentModel,
    handler: Option<HandlerModel>,
    flags: BracketContextFlags,
) -> GroupModel {
    GroupModel {
        end_fragment,
        locals,
        handler: match handler {
            Some(h) => Some(HandlerInstanceModel { handler: h, max_variadic: None, child_variadic: None }),
            None => None,
        },
        destructors: Seq::empty(),
        stack: Seq::empty(),
        no_pop_index: if flags.no_pop { Some(0usize) } else { None },
    }
}

/// The stack with group `g` opened on top: the current group moves below
/// it.
pub open spec fn open_group_spec(s: StackModel, g: GroupModel) -> StackModel {
    StackModel { frames: s.frames.push(s.current), current: g, ..s }
}

/// The stack with its current group taken off: the group below becomes
/// current.
pub open spec fn close_group_spec(s: StackModel) -> StackModel {
    StackModel { frames: s.frames.drop_last(), current: s.frames.last(), ..s }
}

/// Closing a group just opened gives it back and leaves the stack as it
/// was before.
pub proof fn lemma_open_then_close_group(s: StackModel, g: GroupModel)
    ensures
        open_group_spec(s, g).current == g,
        close_group_spec(open_group_spec(s, g)) == s,
{
    assert(s.frames.push(s.current).drop_last() =~= s.frames);
}

/// Popping right after a push gives back the value pushed, and the stack is
/// as before but for the name handed out.
pub proof fn lemma_push_then_pop(s: StackModel)
    ensures
        push_spec(s) matches Ok((s1, v)) ==> pop_spec(s1) == Ok::<(StackModel, Seq<char>), TranspileError>((
            StackModel { names: s1.names, ..s },
            v,
        )),
{
    if let Ok((s1, v)) = push_spec(s) {
        assert(s.current.stack.push(v).drop_last() =~= s.current.stack);
        assert(GroupModel { stack: s1.current.stack.drop_last(), ..s1.current } == s.current);
    }
}

/// The index of the nearest frame at or below `j - 1` with a handler.
pub open spec fn frame_handler_index(frames: Seq<GroupModel>, j: int) -> Option<int>
    decreases j,
{
    if j <= 0 {
        None
    } else if frames[j - 1].handler is Some {
        Some(j - 1)
    } else {
        frame_handler_index(frames, j - 1)
    }
}

/// The output handler in force: that of the current group, or failing it of
/// the nearest frame below that has one, with that group's local variables.
pub open spec fn output_handler_spec(s: StackModel) -> Option<(HandlerInstanceModel, Map<Seq<char>, Seq<char>>)> {
    match group_handler(s.current) {
        Some(c) => Some(c),
        None => match frame_handler_index(s.frames, s.frames.len() as int) {
            Some(i) => group_handler(s.frames[i]),
            None => None,
        },
    }
}

/// The stack after the handler in force records `max` as the most values it
/// was handed at once.
pub open spec fn set_handler_max_spec(s: StackModel, max: Option<usize>) -> StackModel {
    match s.current.handler {
        Some(h) => StackModel {
            current: GroupModel { handler: Some(HandlerInstanceModel { max_variadic: max, ..h }), ..s.current },
            ..s
        },
        None => match frame_handler_index(s.frames, s.frames.len() as int) {
            Some(i) => StackModel {
                frames: s.frames.update(
                    i,
                    GroupModel {
                        handler: Some(HandlerInstanceModel { max_variadic: max, ..s.frames[i].handler->0 }),
                        ..s.frames[i]
                    },
                ),
                ..s
            },
            None => s,
        },
    }
}

/// Whether one of `out_vars` is among the values `stack`.
pub open spec fn uses_any(out_vars: Seq<Seq<char>>, stack: Seq<Seq<char>>) -> bool {
    exists|i: int| 0 <= i < out_vars.len() && stack.contains(#[trigger] out_vars[i])
}

/// How many destructors at the end of `ds` define no value still on `stack`.
pub open spec fn orphan_count(ds: Seq<DestructorModel>, stack: Seq<Seq<char>>) -> nat
    decreases ds.len(),
{
    if ds.len() == 0 {
        0
    } else if uses_any(ds.last().out_vars, stack) {
        0
    } else {
        1 + orphan_count(ds.drop_last(), stack)
    }
}


// ---------------------------------------------------------------------------
// The operations

/// The default output handler: `output(value?? null);` for each value.
fn default_output_handler() -> (r: OutputHandler)
    ensures
        r@ == default_handler_model(),
{
    let mut f: Vec<TemplateToken> = Vec::new();
    f.push(TemplateToken::str("output("));
    f.push(TemplateToken::InVar(0));
    f.push(TemplateToken::str("?? null);"));
    f.push(TemplateToken::String(Output::NewLine));
    let r = OutputHandler { fragment: f, behavior: MultiOutputBehavior::FlattenAll };
    assert(tokens_model(r.fragment@) =~= default_handler_model().fragment);
    r
}

/// The name of the `n`-th program input: `args[n]`.
pub fn args_string(n: usize) -> (r: String)
    ensures
        r@ == args_name(n as nat),
{
    let mut s = String::from_str("args[");
    proof {
        reveal_strlit("args[");
    }
    let d = decimal_string(n);
    push_string(&mut s, &d);
    push_char(&mut s, ']');
    assert(s@ =~= args_name(n as nat));
    s
}

proof fn lemma_strings_model_drop_last(v: Seq<String>)
    requires
        v.len() > 0,
    ensures
        strings_model(v.drop_last()) == strings_model(v).drop_last(),
        strings_model(v).last() == v.last()@,
{
    assert(strings_model(v.drop_last()) =~= strings_model(v).drop_last());
}

proof fn lemma_strings_model_push(v: Seq<String>, x: String)
    ensures
        strings_model(v.push(x)) == strings_model(v).push(x@),
{
    assert(strings_model(v.push(x)) =~= strings_model(v).push(x@));
}

proof fn lemma_groups_model_update(v: Seq<StackBracketGroup>, i: int, g: StackBracketGroup)
    requires
        0 <= i < v.len(),
    ensures
        groups_model(v.update(i, g)) == groups_model(v).update(i, g@),
{
    assert(groups_model(v.update(i, g)) =~= groups_model(v).update(i, g@));
}

impl Stack {
    /// A stack holding only the root group.
    pub fn new() -> (r: Stack)
        ensures
            r@ == new_stack(),
            has_root_handler(r@),
    {
        let r = Stack {
            frames: Vec::new(),
            var_names: VarNames::new(),
            current_group: StackBracketGroup {
                brackent_end_fragment: ProgramFragment::default(),
                local_variables: LocalVars::new(),
                output_handler: Some(
                    OutputHandlerInstance {
                        inner: default_output_handler(),
                        max_variadic_outputs: None,
                        child_variadic_outputs: None,
                    },
                ),
                destructors: Vec::new(),
                stack: Vec::new(),
                no_pop_index: None,
            },
            inputs_used: 0,
        };
        assert(groups_model(r.frames@) =~= Seq::<GroupModel>::empty());
        assert(destructors_model(r.current_group.destructors@) =~= Seq::<DestructorModel>::empty());
        assert(strings_model(r.current_group.stack@) =~= Seq::<Seq<char>>::empty());
        r
    }

    /// Pushes a fresh name onto the current group and returns it.
    pub fn push(&mut self) -> (r: Result<String, TranspileError>)
        ensures
            match push_spec(old(self)@) {
                Ok((s2, v)) => r is Ok && r->Ok_0@ == v && final(self)@ == s2,
                Err(e) => r == Err::<String, TranspileError>(e) && final(self)@ == old(self)@,
            },
            has_root_handler(old(self)@) ==> has_root_handler(final(self)@),
    {
        match self.var_names.next() {
            None => Err(TranspileError::NamesExhausted),
            Some(name) => {
                proof {
                    lemma_strings_model_push(self.current_group.stack@, name);
                }
                self.current_group.stack.push(name.clone());
                Ok(name)
            },
        }
    }

    /// Reads without popping, `*no_pop_index` places below the top of the
    /// first `count` frames, and moves the read depth one further.
    fn pop_after_no_pop_index(
        no_pop_index: &mut usize,
        inputs_used: usize,
        frames: &Vec<StackBracketGroup>,
        count: usize,
    ) -> (r: Result<String, TranspileError>)
        requires
            count <= frames@.len(),
        ensures
            match pop_after_spec(*old(no_pop_index), inputs_used, groups_model(frames@), count as int) {
                Ok((k2, v)) => r is Ok && r->Ok_0@ == v && *final(no_pop_index) == k2,
                Err(e) => r == Err::<String, TranspileError>(e),
            },
    {
        if *no_pop_index == usize::MAX {
            return Err(TranspileError::CounterOverflow);
        }
        let ghost fm = groups_model(frames@);
        let mut frames_left: usize = *no_pop_index;
        let mut j = count;
        while j > 0
            invariant
                j <= count <= frames@.len(),
                fm == groups_model(frames@),
                *no_pop_index == *old(no_pop_index),
                *no_pop_index < usize::MAX,
                peek_below(fm, count as int, *no_pop_index as nat, inputs_used as nat) == peek_below(
                    fm,
                    j as int,
                    frames_left as nat,
                    inputs_used as nat,
                ),
            decreases j,
        {
            let len = frames[j - 1].stack.len();
            assert(fm[j - 1].stack.len() == len);
            if len > frames_left {
                let v = frames[j - 1].stack[len - 1 - frames_left].clone();
                assert(fm[j - 1].stack[len - 1 - frames_left] == v@);
                *no_pop_index = *no_pop_index + 1;
                return Ok(v);
            }
            frames_left = frames_left - len;
            j = j - 1;
        }
        if frames_left > usize::MAX - inputs_used {
            return Err(TranspileError::CounterOverflow);
        }
        *no_pop_index = *no_pop_index + 1;
        Ok(args_string(frames_left + inputs_used))
    }

    /// Pops a value: see [`pop_spec`].
    pub fn pop(&mut self) -> (r: Result<String, TranspileError>)
        ensures
            match pop_spec(old(self)@) {
                Ok((s2, v)) => r is Ok && r->Ok_0@ == v && final(self)@ == s2,
                Err(e) => r == Err::<String, TranspileError>(e),
            },
            r is Ok && has_root_handler(old(self)@) ==> has_root_handler(final(self)@),
    {
        proof {
            lemma_pop_keeps_handlers(self@);
            if let Ok((s2, _)) = pop_spec(self@) {
                if has_root_handler(self@) {
                    lemma_handlers_kept_root(self@, s2);
                }
            }
            if self.current_group.stack@.len() > 0 {
                lemma_strings_model_drop_last(self.current_group.stack@);
            }
        }
        match self.current_group.stack.pop() {
            Some(v) => {
                return Ok(v);
            },
            None => {},
        }
        match self.current_group.no_pop_index {
            Some(k) => {
                let mut k2 = k;
                let r = Self::pop_after_no_pop_index(&mut k2, self.inputs_used, &self.frames, self.frames.len());
                match r {
                    Ok(v) => {
                        self.current_group.no_pop_index = Some(k2);
                        return Ok(v);
                    },
                    Err(e) => {
                        return Err(e);
                    },
                }
            },
            None => {},
        }
        let ghost s0 = self@;
        let mut j = self.frames.len();
        while j > 0
            invariant
                j <= self.frames@.len(),
                self@ == s0,
                pop_frames_spec(s0, j as int) == pop_frames_spec(s0, s0.frames.len() as int),
                s0 == old(self)@,
                s0.current.stack.len() == 0,
                s0.current.no_pop_index is None,
            decreases j,
        {
            let len = self.frames[j - 1].stack.len();
            if len > 0 {
                let mut g = self.frames[j - 1].duplicate();
                proof {
                    lemma_strings_model_drop_last(g.stack@);
                }
                let popped = g.stack.pop();
                match popped {
                    Some(v) => {
                        proof {
                            lemma_groups_model_update(self.frames@, j - 1, g);
                        }
                        self.frames.set(j - 1, g);
                        return Ok(v);
                    },
                    None => {
                        return Err(TranspileError::CounterOverflow);
                    },
                }
            }
            match self.frames[j - 1].no_pop_index {
                Some(k) => {
                    let mut k2 = k;
                    let r = Self::pop_after_no_pop_index(&mut k2, self.inputs_used, &self.frames, j - 1);
                    match r {
                        Ok(v) => {
                            let mut g = self.frames[j - 1].duplicate();
                            g.no_pop_index = Some(k2);
                            proof {
                                lemma_groups_model_update(self.frames@, j - 1, g);
                            }
                            self.frames.set(j - 1, g);
                            return Ok(v);
                        },
                        Err(e) => {
                            return Err(e);
                        },
                    }
                },
                None => {},
            }
            j = j - 1;
        }
        if self.inputs_used == usize::MAX {
            return Err(TranspileError::CounterOverflow);
        }
        let v = args_string(self.inputs_used);
        self.inputs_used = self.inputs_used + 1;
        Ok(v)
    }

    /// Opens a new group: the current group moves below it.
    pub fn push_group(
        &mut self,
        local_vars: LocalVars,
        end_fragment: ProgramFragment,
        output_handler: Option<OutputHandler>,
        flags: BracketContextFlags,
    )
        ensures
            final(self)@ == open_group_spec(
                old(self)@,
                new_group(local_vars@, end_fragment@, handler_opt_model(output_handler), flags),
            ),
            has_root_handler(old(self)@) ==> has_root_handler(final(self)@),
    {
        let instance = match output_handler {
            Some(h) => Some(OutputHandlerInstance { inner: h, max_variadic_outputs: None, child_variadic_outputs: None }),
            None => None,
        };
        let group = StackBracketGroup {
            brackent_end_fragment: end_fragment,
            local_variables: local_vars,
            destructors: Vec::new(),
            stack: Vec::new(),
            output_handler: instance,
            no_pop_index: if flags.no_pop { Some(0) } else { None },
        };
        assert(destructors_model(group.destructors@) =~= Seq::<DestructorModel>::empty());
        assert(strings_model(group.stack@) =~= Seq::<Seq<char>>::empty());
        let mut old_current = group;
        std::mem::swap(&mut self.current_group, &mut old_current);
        let ghost before = self.frames@;
        self.frames.push(old_current);
        assert(groups_model(self.frames@) =~= groups_model(before).push(old_current@));
    }

    /// Whether a group is open above the root.
    pub fn has_group(&self) -> (r: bool)
        ensures
            r == (self@.frames.len() > 0),
    {
        self.frames.len() > 0
    }

    /// Closes the current group and returns it; the group below becomes
    /// current.
    pub fn pop_group(&mut self) -> (r: StackBracketGroup)
        requires
            old(self)@.frames.len() > 0,
        ensures
            r@ == old(self)@.current,
            final(self)@ == close_group_spec(old(self)@),
            has_root_handler(old(self)@) ==> has_root_handler(final(self)@),
    {
        proof {
            if has_root_handler(self@) {
                lemma_close_group_keeps_root(self@);
            }
        }
        let ghost before = self.frames@;
        let below = self.frames.pop();
        match below {
            Some(g) => {
                assert(groups_model(self.frames@) =~= groups_model(before).drop_last());
                let mut g2 = g;
                std::mem::swap(&mut self.current_group, &mut g2);
                g2
            },
            None => {
                assert(false);
                self.current_group.duplicate()
            },
        }
    }

    /// A fresh name, not pushed anywhere.
    pub fn local_var_name(&mut self) -> (r: Result<String, TranspileError>)
        ensures
            match local_var_name_spec(old(self)@) {
                Ok((s2, v)) => r is Ok && r->Ok_0@ == v && final(self)@ == s2,
                Err(e) => r == Err::<String, TranspileError>(e) && final(self)@ == old(self)@,
            },
            has_root_handler(old(self)@) ==> has_root_handler(final(self)@),
    {
        match self.var_names.next() {
            None => Err(TranspileError::NamesExhausted),
            Some(name) => Ok(name),
        }
    }

    /// The output handler in force and the local variables of its group.
    pub fn get_output_handler(&self) -> (r: Option<(&OutputHandlerInstance, &LocalVars)>)
        ensures
            match output_handler_spec(self@) {
                Some((h, l)) => r matches Some((a, b)) && a@ == h && b@ == l,
                None => r is None,
            },
            has_root_handler(self@) ==> r is Some,
    {
        proof {
            if has_root_handler(self@) {
                lemma_handler_in_force(self@);
            }
        }
        match self.current_group.get_output_handler_context() {
            Some(c) => {
                return Some(c);
            },
            None => {},
        }
        let ghost fm = groups_model(self.frames@);
        let mut j = self.frames.len();
        while j > 0
            invariant
                j <= self.frames@.len(),
                fm == groups_model(self.frames@),
                fm == self@.frames,
                group_handler(self@.current) is None,
                frame_handler_index(fm, j as int) == frame_handler_index(fm, fm.len() as int),
            decreases j,
        {
            let c = self.frames[j - 1].get_output_handler_context();
            assert(fm[j - 1] == self.frames@[j - 1]@);
            match c {
                Some(x) => {
                    return Some(x);
                },
                None => {},
            }
            j = j - 1;
        }
        None
    }

    /// Records `max` as the most values the handler in force was handed at
    /// once.
    pub fn set_output_handler_max(&mut self, max: Option<usize>)
        ensures
            final(self)@ == set_handler_max_spec(old(self)@, max),
            has_root_handler(old(self)@) ==> has_root_handler(final(self)@),
    {
        proof {
            lemma_set_handler_max_keeps_handlers(self@, max);
            if has_root_handler(self@) {
                lemma_handlers_kept_root(self@, set_handler_max_spec(self@, max));
            }
        }
        match &mut self.current_group.output_handler {
            Some(h) => {
                h.max_variadic_outputs = max;
                return;
            },
            None => {},
        }
        let ghost fm = groups_model(self.frames@);
        let mut j = self.frames.len();
        while j > 0
            invariant
                j <= self.frames@.len(),
                fm == groups_model(self.frames@),
                self@ == old(self)@,
                old(self)@.current.handler is None,
                frame_handler_index(fm, j as int) == frame_handler_index(fm, fm.len() as int),
            decreases j,
        {
            assert(fm[j - 1] == self.frames@[j - 1]@);
            if self.frames[j - 1].output_handler.is_some() {
                let mut g = self.frames[j - 1].duplicate();
                match &mut g.output_handler {
                    Some(h) => {
                        h.max_variadic_outputs = max;
                    },
                    None => {},
                }
                proof {
                    lemma_groups_model_update(self.frames@, j - 1, g);
                }
                self.frames.set(j - 1, g);
                return;
            }
            j = j - 1;
        }
    }

    /// Removes and returns the destructors at the end of the current group
    /// that define no value still on its stack.
    pub fn destruct_unused_vars(&mut self) -> (r: Vec<Destructor>)
        ensures
            ({
                let ds = old(self)@.current.destructors;
                let cut = ds.len() - orphan_count(ds, old(self)@.current.stack);
                &&& destructors_model(r@) == ds.subrange(cut, ds.len() as int)
                &&& final(self)@ == (StackModel {
                    current: GroupModel { destructors: ds.subrange(0, cut), ..old(self)@.current },
                    ..old(self)@
                })
            }),
            has_root_handler(old(self)@) ==> has_root_handler(final(self)@),
    {
        let ghost ds = destructors_model(self.current_group.destructors@);
        let ghost st = strings_model(self.current_group.stack@);
        let mut count: usize = 0;
        let mut i = self.current_group.destructors.len();
        let mut done = false;
        assert(ds.subrange(0, i as int) == ds);
        while i > 0 && !done
            invariant
                i <= self.current_group.destructors@.len(),
                count + i == self.current_group.destructors@.len(),
                ds == destructors_model(self.current_group.destructors@),
                st == strings_model(self.current_group.stack@),
                ds == self@.current.destructors,
                st == self@.current.stack,
                orphan_count(ds, st) == count + orphan_count(ds.subrange(0, i as int), st),
                done ==> i > 0 && uses_any(ds[i - 1].out_vars, st),
            decreases i, (if done { 0int } else { 1int }),
        {
            let ghost pre = ds.subrange(0, i as int);
            assert(pre.drop_last() == ds.subrange(0, i - 1));
            assert(pre.last() == ds[i - 1]);
            if self.uses_any_out_var(i - 1) {
                done = true;
            } else {
                i = i - 1;
                count = self.current_group.destructors.len() - i;
            }
        }
        assert(orphan_count(ds, st) == count) by {
            if done {
                assert(ds.subrange(0, i as int).last() == ds[i - 1]);
            } else {
                assert(ds.subrange(0, 0) =~= Seq::<DestructorModel>::empty());
            }
        }
        let at = self.current_group.destructors.len() - count;
        let ghost before = self.current_group.destructors@;
        let r = self.current_group.destructors.split_off(at);
        assert(destructors_model(r@) =~= ds.subrange(at as int, ds.len() as int));
        assert(destructors_model(self.current_group.destructors@) =~= ds.subrange(0, at as int));
        r
    }

    fn uses_any_out_var(&self, d: usize) -> (r: bool)
        requires
            d < self.current_group.destructors@.len(),
        ensures
            r == uses_any(self@.current.destructors[d as int].out_vars, self@.current.stack),
    {
        let dm = self.current_group.destructors[d].out_vars.len();
        let ghost outs = self@.current.destructors[d as int].out_vars;
        let ghost st = self@.current.stack;
        let mut i: usize = 0;
        while i < dm
            invariant
                i <= dm,
                d < self.current_group.destructors@.len(),
                outs == self@.current.destructors[d as int].out_vars,
                st == self@.current.stack,
                dm == outs.len(),
                forall|k: int| 0 <= k < i ==> !st.contains(#[trigger] outs[k]),
            decreases dm - i,
        {
            let mut j: usize = 0;
            while j < self.current_group.stack.len()
                invariant
                    i < dm,
                    d < self.current_group.destructors@.len(),
                    outs == self@.current.destructors[d as int].out_vars,
                    st == self@.current.stack,
                    dm == outs.len(),
                    j <= st.len(),
                    forall|k: int| 0 <= k < j ==> st[k] != outs[i as int],
                decreases st.len() - j,
            {
                if self.current_group.stack[j] == self.current_group.destructors[d].out_vars[i] {
                    assert(st[j as int] == outs[i as int]);
                    assert(st.contains(outs[i as int]));
                    return true;
                }
                j = j + 1;
            }
            i = i + 1;
        }
        false
    }

    /// Pushes a value onto the current group.
    pub fn push_value(&mut self, v: String)
        ensures
            final(self)@ == (StackModel {
                current: GroupModel { stack: old(self)@.current.stack.push(v@), ..old(self)@.current },
                ..old(self)@
            }),
            has_root_handler(old(self)@) ==> has_root_handler(final(self)@),
    {
        proof {
            lemma_strings_model_push(self.current_group.stack@, v);
        }
        self.current_group.stack.push(v);
    }

    /// Records a destructor in the current group.
    pub fn push_destructor(&mut self, d: Destructor)
        ensures
            final(self)@ == (StackModel {
                current: GroupModel { destructors: old(self)@.current.destructors.push(d@), ..old(self)@.current },
                ..old(self)@
            }),
            has_root_handler(old(self)@) ==> has_root_handler(final(self)@),
    {
        let ghost before = self.current_group.destructors@;
        self.current_group.destructors.push(d);
        assert(destructors_model(self.current_group.destructors@) =~= destructors_model(before).push(d@));
    }

    /// The output handler of the current group, then those of the groups
    /// below it, the bottom one first.
    pub fn output_handlers(&self) -> (r: Vec<Option<OutputHandlerInstance>>)
        ensures
            r@.map_values(|h: Option<OutputHandlerInstance>| instance_opt_model(h)) == seq![self@.current.handler]
                + self@.frames.map_values(|g: GroupModel| g.handler),
    {
        let mut r: Vec<Option<OutputHandlerInstance>> = Vec::new();
        r.push(copy_instance(&self.current_group.output_handler));
        let ghost fm = groups_model(self.frames@);
        let mut i: usize = 0;
        while i < self.frames.len()
            invariant
                i <= self.frames@.len(),
                fm == groups_model(self.frames@),
                fm == self@.frames,
                r@.map_values(|h: Option<OutputHandlerInstance>| instance_opt_model(h)) == seq![self@.current.handler]
                    + fm.subrange(0, i as int).map_values(|g: GroupModel| g.handler),
            decreases self.frames@.len() - i,
        {
            let ghost before = r@;
            r.push(copy_instance(&self.frames[i].output_handler));
            assert(fm[i as int] == self.frames@[i as int]@);
            assert(fm.subrange(0, i + 1).map_values(|g: GroupModel| g.handler) =~= fm.subrange(0, i as int).map_values(
                |g: GroupModel| g.handler,
            ).push(fm[i as int].handler));
            assert(r@.map_values(|h: Option<OutputHandlerInstance>| instance_opt_model(h)) =~= before.map_values(
                |h: Option<OutputHandlerInstance>| instance_opt_model(h),
            ).push(instance_opt_model(r@[i + 1])));
            i = i + 1;
        }
        assert(fm.subrange(0, fm.len() as int) =~= fm);
        r
    }

    /// A copy of the current group.
    pub fn current_group_copy(&self) -> (r: StackBracketGroup)
        ensures
            r@ == self@.current,
    {
        self.current_group.duplicate()
    }
}

} // verus!
