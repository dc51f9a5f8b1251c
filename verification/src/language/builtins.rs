//! The builtins of the language, written in the template language.

use vstd::prelude::*;
use crate::language::template_table::lemma_builtins_build;
use crate::dsl::{DslError, dsl_to_tokens, dsl_to_half_tokens, dsl_to_tokens_spec, dsl_to_half_tokens_spec};
use crate::language::builtin::{
    Builtin, BuiltinModel, BracketHandler, BracketModel, OutputHandler, HandlerModel,
    MultiOutputBehavior, BracketContextFlags,
};
use crate::language::lexer::table_model;

verus! {

/// The templates of a bracket handler: its output handler's, if any, with
/// the handler's behaviour, and its fragment's.
pub struct BracketSource {
    pub handler: Option<(&'static str, MultiOutputBehavior)>,
    pub fragment: &'static str,
}

/// What a [`BracketSource`] stands for.
pub struct BracketSourceModel {
    pub handler: Option<(Seq<char>, MultiOutputBehavior)>,
    pub fragment: Seq<char>,
}

impl View for BracketSource {
    type V = BracketSourceModel;

    open spec fn view(&self) -> BracketSourceModel {
        BracketSourceModel {
            handler: match self.handler {
                Some((t, b)) => Some((t@, b)),
                None => None,
            },
            fragment: self.fragment@,
        }
    }
}

/// The character and templates of a builtin.
pub struct BuiltinSource {
    pub token: char,
    pub template: &'static str,
    pub brackets: Vec<BracketSource>,
}

/// What a [`BuiltinSource`] stands for.
pub struct BuiltinSourceModel {
    pub token: char,
    pub template: Seq<char>,
    pub brackets: Seq<BracketSourceModel>,
}

impl View for BuiltinSource {
    type V = BuiltinSourceModel;

    open spec fn view(&self) -> BuiltinSourceModel {
        BuiltinSourceModel {
            token: self.token,
            template: self.template@,
            brackets: self.brackets@.map_values(|b: BracketSource| b@),
        }
    }
}

/// The builtins of the language: grouping `(`, arrays `[`, the conditional
/// `?`, ranges `r`, the arithmetic `+ - * /`, equality `=`, iteration `u`,
/// duplication `:`, swapping `$` and copying over `@`.
pub open spec fn builtin_sources_spec() -> Seq<BuiltinSourceModel> {
    seq![
        BuiltinSourceModel {
            token: '(',
            template: "\n            const {wrapper:local} = () => {{\n                {inner}\n            "@,
            brackets: seq![BracketSourceModel { handler: Some(("\n                        {output:local}({value:in});\n                    "@, MultiOutputBehavior::FlattenAll)), fragment: "\n                        //\n                    }};\n                    const {output:local} = ({out_var:out})=>{{\n                        {inner}\n                    }}\n\n                    {wrapper:local}();\n                "@ }],
        },
        BuiltinSourceModel {
            token: '[',
            template: "\n            const {arr:local} = [];\n            { inner }\n        "@,
            brackets: seq![BracketSourceModel { handler: Some(("\n                        {arr:local}.push({value:in});\n                        "@, MultiOutputBehavior::FlattenAll)), fragment: "\n                    const {out:out} = {arr:local};\n                    {inner}\n                    "@ }],
        },
        BuiltinSourceModel {
            token: '?',
            template: "\n            const { condition:local } = to_bool({condition_var:in});\n\n            const {if_true:local} = ()=>{{\n                {inner}\n            "@,
            brackets: seq![BracketSourceModel { handler: None, fragment: "\n                    //\n                }}\n                const {if_false:local} = ()=>{{\n                    {inner}\n                }}\n                "@ }, BracketSourceModel { handler: Some(("\n                        {inner:local}({value:in})\n                        "@, MultiOutputBehavior::FlattenAll)), fragment: "\n                    const {inner:local} = ({value:out}) => {{\n                        {inner}\n                    }}\n\n                    if ({condition:local}) {{\n                        {if_true:local}();\n                    }} else {{\n                        {if_false:local}();\n                    }}\n                "@ }],
        },
        BuiltinSourceModel {
            token: 'r',
            template: "\n            for (let {i:out}=0;{i:out}<{max:in};{i:out}++) {{\n                {inner}\n            }}\n            "@,
            brackets: seq![],
        },
        BuiltinSourceModel {
            token: '+',
            template: "\n            const {out:out} = add({op1:in}, {op2:in});\n            { inner }\n        "@,
            brackets: seq![],
        },
        BuiltinSourceModel {
            token: '-',
            template: "\n            const {out:out} = sub({op1:in}, {op2:in});\n            { inner }\n        "@,
            brackets: seq![],
        },
        BuiltinSourceModel {
            token: '*',
            template: "\n            const {out:out} = mul({op1:in}, {op2:in});\n            { inner }\n        "@,
            brackets: seq![],
        },
        BuiltinSourceModel {
            token: '/',
            template: "\n            const {out:out} = div({op1:in}, {op2:in});\n            { inner }\n            "@,
            brackets: seq![],
        },
        BuiltinSourceModel {
            token: '=',
            template: "\n            const {out:out} = eq({op1:in}, {op2:in});\n            { inner }\n            "@,
            brackets: seq![],
        },
        BuiltinSourceModel {
            token: 'u',
            template: "\n            for (const {out:out} of iter({op1:in})){{\n                { inner }\n            }}\n            "@,
            brackets: seq![],
        },
        BuiltinSourceModel {
            token: ':',
            template: "\n            const {out1:out} = {value:in}, {out2:out} = {value:in};\n            {inner}\n            "@,
            brackets: seq![],
        },
        BuiltinSourceModel {
            token: '$',
            template: "\n            const [{out1:out},{out2:out}] = [{value1:in},{value2:in}];\n            {inner}\n            "@,
            brackets: seq![],
        },
        BuiltinSourceModel {
            token: '@',
            template: "\n            // {value1:in}\n            const [{out1:out},{out2:out},{out3:out}] = [{value2:in},{value1:in},{value2:in}];\n            {inner}\n            "@,
            brackets: seq![],
        }
    ]
}

/// The templates of the builtins: see [`builtin_sources_spec`].
pub fn builtin_sources() -> (r: Vec<BuiltinSource>)
    ensures
        r@.map_values(|b: BuiltinSource| b@) == builtin_sources_spec(),
{
    let mut r: Vec<BuiltinSource> = Vec::new();
    let mut brackets: Vec<BracketSource> = Vec::new();
    brackets.push(BracketSource { handler: Some(("\n                        {output:local}({value:in});\n                    ", MultiOutputBehavior::FlattenAll)), fragment: "\n                        //\n                    }};\n                    const {output:local} = ({out_var:out})=>{{\n                        {inner}\n                    }}\n\n                    {wrapper:local}();\n                " });
    assert(brackets@.map_values(|b: BracketSource| b@) =~= builtin_sources_spec()[0].brackets);
    r.push(BuiltinSource { token: '(', template: "\n            const {wrapper:local} = () => {{\n                {inner}\n            ", brackets });
    let mut brackets: Vec<BracketSource> = Vec::new();
    brackets.push(BracketSource { handler: Some(("\n                        {arr:local}.push({value:in});\n                        ", MultiOutputBehavior::FlattenAll)), fragment: "\n                    const {out:out} = {arr:local};\n                    {inner}\n                    " });
    assert(brackets@.map_values(|b: BracketSource| b@) =~= builtin_sources_spec()[1].brackets);
    r.push(BuiltinSource { token: '[', template: "\n            const {arr:local} = [];\n            { inner }\n        ", brackets });
    let mut brackets: Vec<BracketSource> = Vec::new();
    brackets.push(BracketSource { handler: None, fragment: "\n                    //\n                }}\n                const {if_false:local} = ()=>{{\n                    {inner}\n                }}\n                " });
    brackets.push(BracketSource { handler: Some(("\n                        {inner:local}({value:in})\n                        ", MultiOutputBehavior::FlattenAll)), fragment: "\n                    const {inner:local} = ({value:out}) => {{\n                        {inner}\n                    }}\n\n                    if ({condition:local}) {{\n                        {if_true:local}();\n                    }} else {{\n                        {if_false:local}();\n                    }}\n                " });
    assert(brackets@.map_values(|b: BracketSource| b@) =~= builtin_sources_spec()[2].brackets);
    r.push(BuiltinSource { token: '?', template: "\n            const { condition:local } = to_bool({condition_var:in});\n\n            const {if_true:local} = ()=>{{\n                {inner}\n            ", brackets });
    let mut brackets: Vec<BracketSource> = Vec::new();
    assert(brackets@.map_values(|b: BracketSource| b@) =~= builtin_sources_spec()[3].brackets);
    r.push(BuiltinSource { token: 'r', template: "\n            for (let {i:out}=0;{i:out}<{max:in};{i:out}++) {{\n                {inner}\n            }}\n            ", brackets });
    let mut brackets: Vec<BracketSource> = Vec::new();
    assert(brackets@.map_values(|b: BracketSource| b@) =~= builtin_sources_spec()[4].brackets);
    r.push(BuiltinSource { token: '+', template: "\n            const {out:out} = add({op1:in}, {op2:in});\n            { inner }\n        ", brackets });
    let mut brackets: Vec<BracketSource> = Vec::new();
    assert(brackets@.map_values(|b: BracketSource| b@) =~= builtin_sources_spec()[5].brackets);
    r.push(BuiltinSource { token: '-', template: "\n            const {out:out} = sub({op1:in}, {op2:in});\n            { inner }\n        ", brackets });
    let mut brackets: Vec<BracketSource> = Vec::new();
    assert(brackets@.map_values(|b: BracketSource| b@) =~= builtin_sources_spec()[6].brackets);
    r.push(BuiltinSource { token: '*', template: "\n            const {out:out} = mul({op1:in}, {op2:in});\n            { inner }\n        ", brackets });
    let mut brackets: Vec<BracketSource> = Vec::new();
    assert(brackets@.map_values(|b: BracketSource| b@) =~= builtin_sources_spec()[7].brackets);
    r.push(BuiltinSource { token: '/', template: "\n            const {out:out} = div({op1:in}, {op2:in});\n            { inner }\n            ", brackets });
    let mut brackets: Vec<BracketSource> = Vec::new();
    assert(brackets@.map_values(|b: BracketSource| b@) =~= builtin_sources_spec()[8].brackets);
    r.push(BuiltinSource { token: '=', template: "\n            const {out:out} = eq({op1:in}, {op2:in});\n            { inner }\n            ", brackets });
    let mut brackets: Vec<BracketSource> = Vec::new();
    assert(brackets@.map_values(|b: BracketSource| b@) =~= builtin_sources_spec()[9].brackets);
    r.push(BuiltinSource { token: 'u', template: "\n            for (const {out:out} of iter({op1:in})){{\n                { inner }\n            }}\n            ", brackets });
    let mut brackets: Vec<BracketSource> = Vec::new();
    assert(brackets@.map_values(|b: BracketSource| b@) =~= builtin_sources_spec()[10].brackets);
    r.push(BuiltinSource { token: ':', template: "\n            const {out1:out} = {value:in}, {out2:out} = {value:in};\n            {inner}\n            ", brackets });
    let mut brackets: Vec<BracketSource> = Vec::new();
    assert(brackets@.map_values(|b: BracketSource| b@) =~= builtin_sources_spec()[11].brackets);
    r.push(BuiltinSource { token: '$', template: "\n            const [{out1:out},{out2:out}] = [{value1:in},{value2:in}];\n            {inner}\n            ", brackets });
    let mut brackets: Vec<BracketSource> = Vec::new();
    assert(brackets@.map_values(|b: BracketSource| b@) =~= builtin_sources_spec()[12].brackets);
    r.push(BuiltinSource { token: '@', template: "\n            // {value1:in}\n            const [{out1:out},{out2:out},{out3:out}] = [{value2:in},{value1:in},{value2:in}];\n            {inner}\n            ", brackets });
    assert(r@.map_values(|b: BuiltinSource| b@) =~= builtin_sources_spec());
    r
}

/// Building a bracket handler from its templates.
pub open spec fn build_bracket(b: BracketSourceModel) -> Result<BracketModel, DslError> {
    let handler: Result<Option<HandlerModel>, DslError> = match b.handler {
        Some((t, beh)) => match dsl_to_half_tokens_spec(t) {
            Ok(ts) => Ok(Some(HandlerModel { fragment: ts, behavior: beh })),
            Err(e) => Err(e),
        },
        None => Ok(None),
    };
    match handler {
        Err(e) => Err(e),
        Ok(h) => match dsl_to_tokens_spec(b.fragment) {
            Ok(f) => Ok(BracketModel { fragment: f, handler: h, flags: BracketContextFlags { no_pop: false } }),
            Err(e) => Err(e),
        },
    }
}

/// Building bracket handlers in order; the first error wins.
pub open spec fn build_brackets(bs: Seq<BracketSourceModel>) -> Result<Seq<BracketModel>, DslError>
    decreases bs.len(),
{
    if bs.len() == 0 {
        Ok(Seq::empty())
    } else {
        match build_brackets(bs.drop_last()) {
            Ok(a) => match build_bracket(bs.last()) {
                Ok(x) => Ok(a.push(x)),
                Err(e) => Err(e),
            },
            Err(e) => Err(e),
        }
    }
}

/// Building a builtin from its templates; its name and description are
/// empty.
pub open spec fn build_builtin(b: BuiltinSourceModel) -> Result<BuiltinModel, DslError> {
    match dsl_to_tokens_spec(b.template) {
        Err(e) => Err(e),
        Ok(t) => match build_brackets(b.brackets) {
            Err(e) => Err(e),
            Ok(bs) => Ok(BuiltinModel {
                name: Seq::empty(),
                description: Seq::empty(),
                token: b.token,
                template: t,
                brackets: bs,
            }),
        },
    }
}

/// Building builtins in order; the first error wins.
pub open spec fn build_all(bs: Seq<BuiltinSourceModel>) -> Result<Seq<BuiltinModel>, DslError>
    decreases bs.len(),
{
    if bs.len() == 0 {
        Ok(Seq::empty())
    } else {
        match build_all(bs.drop_last()) {
            Ok(a) => match build_builtin(bs.last()) {
                Ok(x) => Ok(a.push(x)),
                Err(e) => Err(e),
            },
            Err(e) => Err(e),
        }
    }
}

proof fn lemma_build_brackets_prefix_err(bs: Seq<BracketSourceModel>, i: int)
    requires
        0 <= i <= bs.len(),
        build_brackets(bs.subrange(0, i)) is Err,
    ensures
        build_brackets(bs) == build_brackets(bs.subrange(0, i)),
    decreases bs.len(),
{
    if i == bs.len() {
        assert(bs.subrange(0, i) == bs);
    } else {
        assert(bs.drop_last().subrange(0, i) == bs.subrange(0, i));
        lemma_build_brackets_prefix_err(bs.drop_last(), i);
    }
}

proof fn lemma_build_all_prefix_err(bs: Seq<BuiltinSourceModel>, i: int)
    requires
        0 <= i <= bs.len(),
        build_all(bs.subrange(0, i)) is Err,
    ensures
        build_all(bs) == build_all(bs.subrange(0, i)),
    decreases bs.len(),
{
    if i == bs.len() {
        assert(bs.subrange(0, i) == bs);
    } else {
        assert(bs.drop_last().subrange(0, i) == bs.subrange(0, i));
        lemma_build_all_prefix_err(bs.drop_last(), i);
    }
}

/// Builds a bracket handler from its templates.
pub fn build_bracket_handler(b: &BracketSource) -> (r: Result<BracketHandler, DslError>)
    ensures
        match build_bracket(b@) {
            Ok(m) => r is Ok && r->Ok_0@ == m,
            Err(e) => r is Err && r->Err_0 == e,
        },
{
    let output_handler = match b.handler {
        Some((t, beh)) => match dsl_to_half_tokens(t) {
            Ok(ts) => Some(OutputHandler { fragment: ts, behavior: beh }),
            Err(e) => {
                return Err(e);
            },
        },
        None => None,
    };
    let fragment = match dsl_to_tokens(b.fragment) {
        Ok(f) => f,
        Err(e) => {
            return Err(e);
        },
    };
    Ok(BracketHandler { fragment, output_handler, flags: BracketContextFlags::new() })
}

/// Builds a builtin from its templates, with an empty name and description.
pub fn build_builtin_exec(b: &BuiltinSource) -> (r: Result<Builtin, DslError>)
    ensures
        match build_builtin(b@) {
            Ok(m) => r is Ok && r->Ok_0@ == m,
            Err(e) => r is Err && r->Err_0 == e,
        },
{
    let template = match dsl_to_tokens(b.template) {
        Ok(f) => f,
        Err(e) => {
            return Err(e);
        },
    };
    let ghost srcs = b@.brackets;
    let mut handlers: Vec<BracketHandler> = Vec::new();
    let mut i: usize = 0;
    assert(srcs.subrange(0, 0) =~= Seq::<BracketSourceModel>::empty());
    assert(handlers@.map_values(|h: BracketHandler| h@) =~= Seq::<BracketModel>::empty());
    while i < b.brackets.len()
        invariant
            i <= b.brackets@.len(),
            srcs == b@.brackets,
            dsl_to_tokens_spec(b@.template) == Ok::<crate::template::FragmentModel, DslError>(template@),
            build_brackets(srcs.subrange(0, i as int)) == Ok::<Seq<BracketModel>, DslError>(handlers@.map_values(|h: BracketHandler| h@)),
        decreases b.brackets@.len() - i,
    {
        assert(srcs.subrange(0, i + 1).drop_last() == srcs.subrange(0, i as int));
        assert(srcs.subrange(0, i + 1).last() == b.brackets@[i as int]@);
        match build_bracket_handler(&b.brackets[i]) {
            Ok(h) => {
                let ghost before = handlers@;
                handlers.push(h);
                assert(handlers@.map_values(|h: BracketHandler| h@) =~= before.map_values(|h: BracketHandler| h@).push(h@));
            },
            Err(e) => {
                proof {
                    lemma_build_brackets_prefix_err(srcs, i + 1);
                }
                return Err(e);
            },
        }
        i = i + 1;
    }
    assert(srcs.subrange(0, i as int) == srcs);
    let r = Builtin {
        name: String::new(),
        description: String::new(),
        token: b.token,
        template,
        bracket_handlers: handlers,
    };
    assert(r@.name =~= Seq::<char>::empty());
    assert(r@.description =~= Seq::<char>::empty());
    Ok(r)
}

/// Builds the builtins from their templates, in order.
pub fn build_builtins(sources: &Vec<BuiltinSource>) -> (r: Result<Vec<Builtin>, DslError>)
    ensures
        match build_all(sources@.map_values(|b: BuiltinSource| b@)) {
            Ok(t) => r is Ok && table_model(r->Ok_0@) == t,
            Err(e) => r is Err && r->Err_0 == e,
        },
{
    let ghost srcs = sources@.map_values(|b: BuiltinSource| b@);
    let mut table: Vec<Builtin> = Vec::new();
    let mut i: usize = 0;
    assert(srcs.subrange(0, 0) =~= Seq::<BuiltinSourceModel>::empty());
    assert(table_model(table@) =~= Seq::<BuiltinModel>::empty());
    while i < sources.len()
        invariant
            i <= sources@.len(),
            srcs == sources@.map_values(|b: BuiltinSource| b@),
            build_all(srcs.subrange(0, i as int)) == Ok::<Seq<BuiltinModel>, DslError>(table_model(table@)),
        decreases sources@.len() - i,
    {
        assert(srcs.subrange(0, i + 1).drop_last() == srcs.subrange(0, i as int));
        assert(srcs.subrange(0, i + 1).last() == sources@[i as int]@);
        match build_builtin_exec(&sources[i]) {
            Ok(b) => {
                let ghost before = table@;
                table.push(b);
                assert(table_model(table@) =~= table_model(before).push(b@));
            },
            Err(e) => {
                proof {
                    lemma_build_all_prefix_err(srcs, i + 1);
                }
                return Err(e);
            },
        }
        i = i + 1;
    }
    assert(srcs.subrange(0, i as int) == srcs);
    Ok(table)
}

/// The builtins of the language, built from their templates.
pub fn builtins() -> (r: Result<Vec<Builtin>, DslError>)
    ensures
        match build_all(builtin_sources_spec()) {
            Ok(t) => r is Ok && table_model(r->Ok_0@) == t,
            Err(e) => r is Err && r->Err_0 == e,
        },
        r is Ok,
{
    proof {
        lemma_builtins_build();
    }
    let sources = builtin_sources();
    assert(sources@.map_values(|b: BuiltinSource| b@) == builtin_sources_spec());
    build_builtins(&sources)
}

} // verus!
