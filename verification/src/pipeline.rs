//! The pipeline interpreter: an ordered list of tool calls in which a later step
//! can quote the output of an earlier one as `${id}`.

use crate::context::{
    ascending, has_key, holds, inserted, keys_ascending, lemma_inserted, output_member,
    PipelineContext,
};
use crate::json_text::{error_text, json_text, to_text};
use crate::json::{object, text};
use crate::registry::{
    selected, Tool, ToolEntryView, ToolInvocation, ToolInvocationView, ToolRegistry,
};
use crate::types::{AppError, AppErrorView};
use crate::json::{
    items_view, lemma_array_view, lemma_object_view, members_view, Json, JsonView, Member,
    MemberView,
};
use crate::text::{
    concat3, lemma_replace_all_absent, lemma_replace_all_single, occurs_at, replace, replace_all,
};
use vstd::prelude::*;
use vstd::string::*;

verus! {

/// The tool that runs a pipeline.
#[derive(Debug)]
pub struct PipelineTool;

/// One step of a pipeline: the tool to call and the arguments for it, in which
/// `${id}` quotes the output of the earlier step `id`.
#[derive(Debug)]
pub struct PipelineStep {
    pub id: String,
    pub tool: String,
    pub parameters: Json,
}

pub struct PipelineStepView {
    pub id: Seq<char>,
    pub tool: Seq<char>,
    pub parameters: JsonView,
}

impl View for PipelineStep {
    type V = PipelineStepView;

    open spec fn view(&self) -> PipelineStepView {
        PipelineStepView { id: self.id@, tool: self.tool@, parameters: self.parameters@ }
    }
}

/// The views of `steps`, in order.
pub open spec fn steps_view(steps: Seq<PipelineStep>) -> Seq<PipelineStepView> {
    Seq::new(steps.len(), |i: int| steps[i]@)
}

/// The input of the pipeline tool: the steps, in the order in which they run.
#[derive(Debug)]
pub struct PipelineToolInput {
    pub steps: Vec<PipelineStep>,
}

/// What a pipeline run asks of its caller.
#[derive(Debug)]
pub enum PipelineAction {
    /// Run the tool on the arguments and hand its outcome to `resume`.
    Invoke(ToolInvocation),
    /// The run is over: the result object as JSON text, or the error that stopped it.
    Finished(Result<String, AppError>),
}

pub enum PipelineActionView {
    Invoke(ToolInvocationView),
    Finished(Result<Seq<char>, AppErrorView>),
}

impl View for PipelineAction {
    type V = PipelineActionView;

    open spec fn view(&self) -> PipelineActionView {
        match self {
            PipelineAction::Invoke(inv) => PipelineActionView::Invoke(inv@),
            PipelineAction::Finished(Ok(s)) => PipelineActionView::Finished(Ok(s@)),
            PipelineAction::Finished(Err(e)) => PipelineActionView::Finished(Err(e@)),
        }
    }
}

/// A pipeline in the course of its run.
pub struct PipelineRun {
    steps: Vec<PipelineStep>,
    position: usize,
    context: PipelineContext,
    waiting: bool,
}

/// The mathematical value of a [`PipelineRun`].
pub struct PipelineRunView {
    /// The steps of the pipeline.
    pub steps: Seq<PipelineStepView>,
    /// How many steps have returned their output.
    pub position: nat,
    /// The outputs so far, by ascending step id.
    pub context: Seq<MemberView>,
    /// Whether the run has asked for a tool to be run and not yet heard of it.
    pub waiting: bool,
}

/// The result of a pipeline whose steps have all run: the text of the object
/// that holds each output under its step's id.
pub open spec fn result_text(context: Seq<MemberView>) -> Result<Seq<char>, AppErrorView> {
    match json_text(JsonView::Object(context)) {
        Ok(text) => Ok(text),
        Err(e) => Err(AppErrorView::SerdeJsonError(error_text(e))),
    }
}

/// What a run does next at `position` with the outputs in `context`: it calls
/// the tool of the step there, on the step's parameters with the outputs so far
/// filled in; it stops with the registry's error where the step names no tool;
/// it ends with the result where no step is left.
pub open spec fn action_at(
    steps: Seq<PipelineStepView>,
    position: nat,
    context: Seq<MemberView>,
    registry: Seq<ToolEntryView>,
) -> PipelineActionView {
    if position < steps.len() {
        let step = steps[position as int];
        match selected(registry, step.tool, resolved(step.parameters, JsonView::Object(context))) {
            Ok(inv) => PipelineActionView::Invoke(inv),
            Err(e) => PipelineActionView::Finished(Err(e)),
        }
    } else {
        PipelineActionView::Finished(result_text(context))
    }
}

/// The outputs after the first `n` steps returned `outputs[..n]`.
pub open spec fn context_after(
    steps: Seq<PipelineStepView>,
    outputs: Seq<Seq<char>>,
    n: nat,
) -> Seq<MemberView>
    decreases n,
{
    if n == 0 {
        Seq::empty()
    } else {
        inserted(
            context_after(steps, outputs, (n - 1) as nat),
            output_member(steps[n - 1].id, outputs[n - 1]),
        )
    }
}

impl View for PipelineRun {
    type V = PipelineRunView;

    closed spec fn view(&self) -> PipelineRunView {
        PipelineRunView {
            steps: steps_view(self.steps@),
            position: self.position as nat,
            context: self.context@,
            waiting: self.waiting,
        }
    }
}

impl PipelineRun {
    /// Well-formed: the position is within the steps, a run that waits for
    /// an outcome has a step to wait for, and the outputs stand by ascending
    /// id.
    pub open spec fn wf(&self) -> bool {
        &&& self@.position <= self@.steps.len()
        &&& self@.waiting ==> self@.position < self@.steps.len()
        &&& ascending(self@.context)
    }

    /// Whether the run waits for the outcome of a tool.
    pub fn is_waiting(&self) -> (r: bool)
        ensures
            r == self@.waiting,
    {
        self.waiting
    }

    /// Computes what the run does at its position, and notes whether it waits.
    fn act(&mut self, registry: &ToolRegistry) -> (action: PipelineAction)
        requires
            old(self).position <= old(self).steps@.len(),
            ascending(old(self).context@),
        ensures
            final(self)@.steps == old(self)@.steps,
            final(self)@.position == old(self)@.position,
            final(self)@.context == old(self)@.context,
            action@ == action_at(
                old(self)@.steps,
                old(self)@.position,
                old(self)@.context,
                registry@,
            ),
            final(self)@.waiting == (action@ is Invoke),
            final(self).wf(),
    {
        let context = self.context.to_json();
        if self.position < self.steps.len() {
            let step = &self.steps[self.position];
            let args = PipelineTool::resolve_parameters(&step.parameters, &context);
            match registry.execute_tool(step.tool.as_str(), args) {
                Ok(inv) => {
                    self.waiting = true;
                    PipelineAction::Invoke(inv)
                },
                Err(e) => {
                    self.waiting = false;
                    PipelineAction::Finished(Err(e))
                },
            }
        } else {
            self.waiting = false;
            match to_text(&context) {
                Ok(text) => PipelineAction::Finished(Ok(text)),
                Err(e) => PipelineAction::Finished(Err(AppError::from_json_error(e))),
            }
        }
    }

    /// Takes the outcome of the tool that the run waits for. An output is
    /// stored under the step's id, and the run goes on with the next step; an
    /// error ends the run with that error, whatever steps are left.
    pub fn resume(&mut self, registry: &ToolRegistry, outcome: Result<String, AppError>) -> (action:
        PipelineAction)
        requires
            old(self).wf(),
            old(self)@.waiting,
        ensures
            final(self).wf(),
            final(self)@.steps == old(self)@.steps,
            final(self)@.waiting == (action@ is Invoke),
            match outcome {
                Ok(output) => {
                    &&& final(self)@.position == old(self)@.position + 1
                    &&& final(self)@.context == inserted(
                        old(self)@.context,
                        output_member(old(self)@.steps[old(self)@.position as int].id, output@),
                    )
                    &&& action@ == action_at(
                        final(self)@.steps,
                        final(self)@.position,
                        final(self)@.context,
                        registry@,
                    )
                },
                Err(e) => {
                    &&& final(self)@.position == old(self)@.position
                    &&& final(self)@.context == old(self)@.context
                    &&& action@ == PipelineActionView::Finished(Err(e@))
                },
            },
    {
        match outcome {
            Ok(output) => {
                let count = self.steps.len();
                assert(self.position < count);
                let id = self.steps[self.position].id.clone();
                self.context.insert(id, output);
                self.position = self.position + 1;
                self.act(registry)
            },
            Err(e) => {
                self.waiting = false;
                PipelineAction::Finished(Err(e))
            },
        }
    }
}

/// The text that quotes the output of the step `key`.
pub open spec fn placeholder(key: Seq<char>) -> Seq<char> {
    "${"@ + key + "}"@
}

/// `value` after the members of a context were applied to it one after the
/// other, in their order: a member that holds a string replaces every
/// occurrence of its placeholder by that string, any other member changes
/// nothing.
pub open spec fn substitute(value: Seq<char>, members: Seq<MemberView>) -> Seq<char>
    decreases members.len(),
{
    if members.len() == 0 {
        value
    } else {
        let before = substitute(value, members.drop_last());
        match members.last().value {
            JsonView::String(rep) => replace_all(before, placeholder(members.last().key), rep),
            _ => before,
        }
    }
}

/// `value` with the placeholders of `context` filled in. A context that is no
/// object fills in nothing.
pub open spec fn substituted(value: Seq<char>, context: JsonView) -> Seq<char> {
    match context {
        JsonView::Object(members) => substitute(value, members),
        _ => value,
    }
}

/// `doc` with the placeholders of `context` filled in, in every string that is
/// a value of the document; keys, numbers, booleans and nulls stay as they are.
pub open spec fn resolved(doc: JsonView, context: JsonView) -> JsonView
    decreases doc,
{
    match doc {
        JsonView::String(s) => JsonView::String(substituted(s, context)),
        JsonView::Array(items) => JsonView::Array(
            Seq::new(
                items.len(),
                |i: int|
                    if 0 <= i < items.len() {
                        resolved(items[i], context)
                    } else {
                        JsonView::Null
                    },
            ),
        ),
        JsonView::Object(members) => JsonView::Object(
            Seq::new(
                members.len(),
                |i: int|
                    if 0 <= i < members.len() {
                        MemberView {
                            key: members[i].key,
                            value: resolved(members[i].value, context),
                        }
                    } else {
                        MemberView { key: Seq::empty(), value: JsonView::Null }
                    },
            ),
        ),
        _ => doc,
    }
}

impl PipelineTool {
    /// Begins a run of `input` and says what it does first.
    pub fn execute(&self, input: PipelineToolInput, registry: &ToolRegistry) -> (r: (
        PipelineRun,
        PipelineAction,
    ))
        ensures
            r.0.wf(),
            r.0@.steps == steps_view(input.steps@),
            r.0@.position == 0,
            r.0@.context == Seq::<MemberView>::empty(),
            r.0@.waiting == (r.1@ is Invoke),
            r.1@ == action_at(r.0@.steps, 0, r.0@.context, registry@),
    {
        let mut run = PipelineRun {
            steps: input.steps,
            position: 0,
            context: PipelineContext::new(),
            waiting: false,
        };
        let action = run.act(registry);
        (run, action)
    }

    /// Fills the placeholders of `context` into `value`. The members of a
    /// context stand by ascending key, as the outputs of a run do.
    pub fn substitute_placeholders(value: &str, context: &Json) -> (r: String)
        requires
            keys_ascending(context@),
        ensures
            r@ == substituted(value@, context@),
    {
        let mut result = String::from_str(value);
        match context {
            Json::Object(members) => {
                proof {
                    lemma_object_view(*members);
                }
                let mut i: usize = 0;
                while i < members.len()
                    invariant
                        i <= members@.len(),
                        result@ == substitute(value@, members_view(members@).take(i as int)),
                    decreases members@.len() - i,
                {
                    proof {
                        assert(members_view(members@).take(i + 1).drop_last() =~= members_view(
                            members@,
                        ).take(i as int));
                    }
                    match &members[i].value {
                        Json::String(rep) => {
                            let pattern = concat3("${", members[i].key.as_str(), "}");
                            result = replace(result.as_str(), pattern.as_str(), rep.as_str());
                        },
                        _ => {},
                    }
                    i += 1;
                }
                assert(members_view(members@).take(members@.len() as int) =~= members_view(
                    members@,
                ));
            },
            _ => {},
        }
        result
    }

    /// Fills the placeholders of `context` into every string value of `params`.
    /// The members of a context stand by ascending key.
    pub fn resolve_parameters(params: &Json, context: &Json) -> (r: Json)
        requires
            keys_ascending(context@),
        ensures
            r@ == resolved(params@, context@),
        decreases params,
    {
        match params {
            Json::Object(members) => {
                let mut out: Vec<Member> = Vec::new();
                let mut i: usize = 0;
                while i < members.len()
                    invariant
                        keys_ascending(context@),
                        decreases_to!(*params => *members),
                        i <= members@.len(),
                        out@.len() == i,
                        forall|j: int|
                            0 <= j < i ==> (#[trigger] out@[j]).key@ == members@[j].key@
                                && out@[j].value@ == resolved(members@[j].value@, context@),
                    decreases members@.len() - i,
                {
                    assert(decreases_to!(*members => members[i as int]));
                    let value = Self::resolve_parameters(&members[i].value, context);
                    out.push(Member { key: members[i].key.clone(), value });
                    i += 1;
                }
                proof {
                    lemma_object_view(*members);
                    lemma_object_view(out);
                    assert(resolved(params@, context@) matches JsonView::Object(ms) && ms
                        =~= members_view(out@));
                }
                Json::Object(out)
            },
            Json::Array(items) => {
                let mut out: Vec<Json> = Vec::new();
                let mut i: usize = 0;
                while i < items.len()
                    invariant
                        keys_ascending(context@),
                        decreases_to!(*params => *items),
                        i <= items@.len(),
                        out@.len() == i,
                        forall|j: int|
                            0 <= j < i ==> (#[trigger] out@[j])@ == resolved(
                                items@[j]@,
                                context@,
                            ),
                    decreases items@.len() - i,
                {
                    assert(decreases_to!(*items => items[i as int]));
                    let item = Self::resolve_parameters(&items[i], context);
                    out.push(item);
                    i += 1;
                }
                proof {
                    lemma_array_view(*items);
                    lemma_array_view(out);
                    assert(resolved(params@, context@) matches JsonView::Array(xs) && xs
                        =~= items_view(out@));
                }
                Json::Array(out)
            },
            Json::String(s) => Json::String(Self::substitute_placeholders(s.as_str(), context)),
            _ => params.copy(),
        }
    }
}

/// What the pipeline tool says of itself.
pub open spec fn pipeline_description() -> Seq<char> {
    "Executes a series of tool calls, passing the output of one as the input to another using substitutions `${priorStepId}`. DO NOT STRINGIFY THE PARAMETERS IN PIPELINE STEPS -- PASS JSON DIRECTLY. Input value for the `steps` key MUST BE JSON, NOT A STRING. The `parameters` value for each step also MUST BE JSON, NOT A STRING."@
}

/// The schema of the pipeline tool's arguments: an object with the one
/// property `steps`, a list of steps with an id, a tool and parameters.
pub open spec fn pipeline_parameters() -> JsonView {
    object().with("type"@, text("object"@)).with(
        "properties"@,
        object().with(
            "steps"@,
            object().with("type"@, text("array"@)).with(
                "description"@,
                text("The list of pipeline steps to execute, with possible substitutions"@),
            ).with(
                "items"@,
                object().with("type"@, text("object"@)).with(
                    "properties"@,
                    object().with(
                        "id"@,
                        object().with("type"@, text("string"@)).with(
                            "description"@,
                            text(
                                "the id of the pipeline step. can be subsequently referenced in pipeline with ${thisId} for result substitution"@,
                            ),
                        ),
                    ).with(
                        "tool"@,
                        object().with("type"@, text("string"@)).with(
                            "description"@,
                            text("name of tool (in snake case) to call"@),
                        ),
                    ).with(
                        "parameters"@,
                        object().with("type"@, text("string"@)).with(
                            "description"@,
                            text("JSON arguments to pass to tool"@),
                        ),
                    ),
                ),
            ),
        ),
    )
}

impl Tool for PipelineTool {
    open spec fn name_spec(&self) -> Seq<char> {
        "pipeline_tool"@
    }

    open spec fn description_spec(&self) -> Seq<char> {
        pipeline_description()
    }

    open spec fn parameters_spec(&self) -> JsonView {
        pipeline_parameters()
    }

    fn name(&self) -> &'static str {
        "pipeline_tool"
    }

    fn description(&self) -> &'static str {
        "Executes a series of tool calls, passing the output of one as the input to another using substitutions `${priorStepId}`. DO NOT STRINGIFY THE PARAMETERS IN PIPELINE STEPS -- PASS JSON DIRECTLY. Input value for the `steps` key MUST BE JSON, NOT A STRING. The `parameters` value for each step also MUST BE JSON, NOT A STRING."
    }

    fn parameters(&self) -> Json {
        Json::object().with("type", Json::text("object")).with(
            "properties",
            Json::object().with(
                "steps",
                Json::object().with("type", Json::text("array")).with(
                    "description",
                    Json::text("The list of pipeline steps to execute, with possible substitutions"),
                ).with(
                    "items",
                    Json::object().with("type", Json::text("object")).with(
                        "properties",
                        Json::object().with(
                            "id",
                            Json::object().with("type", Json::text("string")).with(
                                "description",
                                Json::text(
                                    "the id of the pipeline step. can be subsequently referenced in pipeline with ${thisId} for result substitution",
                                ),
                            ),
                        ).with(
                            "tool",
                            Json::object().with("type", Json::text("string")).with(
                                "description",
                                Json::text("name of tool (in snake case) to call"),
                            ),
                        ).with(
                            "parameters",
                            Json::object().with("type", Json::text("string")).with(
                                "description",
                                Json::text("JSON arguments to pass to tool"),
                            ),
                        ),
                    ),
                ),
            ),
        )
    }
}

/// The placeholder of `key` is `$`, `{`, the key, `}`.
pub proof fn lemma_placeholder(key: Seq<char>)
    ensures
        placeholder(key).len() == key.len() + 3,
        placeholder(key)[0] == '$',
        placeholder(key)[1] == '{',
        placeholder(key)[key.len() as int + 2] == '}',
        forall|i: int| 0 <= i < key.len() ==> placeholder(key)[i + 2] == key[i],
{
    reveal_strlit("${");
    reveal_strlit("}");
}

/// A placeholder whose key holds neither `$` nor `}` contains the placeholder
/// of no other key.
pub proof fn lemma_placeholder_holds_no_other(key: Seq<char>, other: Seq<char>, at: int)
    requires
        forall|i: int| 0 <= i < key.len() ==> key[i] != '$' && key[i] != '}',
        occurs_at(placeholder(key), placeholder(other), at),
    ensures
        other == key,
{
    lemma_placeholder(key);
    lemma_placeholder(other);
    let whole = placeholder(key);
    let part = placeholder(other);
    let found = whole.subrange(at, at + part.len());
    assert(found[0] == '$');
    if at > 0 {
        if at < key.len() + 2 {
            if at >= 2 {
                assert(whole[at] == key[at - 2]);
            }
        }
    }
    assert(at == 0);
    assert(other.len() <= key.len());
    assert forall|i: int| 0 <= i < other.len() implies other[i] == key[i] by {
        assert(found[i + 2] == part[i + 2]);
    }
    if other.len() < key.len() {
        assert(found[other.len() as int + 2] == '}');
        assert(whole[other.len() as int + 2] == key[other.len() as int]);
    }
    assert(other =~= key);
}

/// A placeholder that no member answers is left as it is: where the context
/// holds nothing under `key`, and `key` holds neither `$` nor `}`, filling in
/// the text `${key}` gives `${key}`.
pub proof fn lemma_unknown_placeholder_stays(key: Seq<char>, members: Seq<MemberView>)
    requires
        forall|i: int| 0 <= i < key.len() ==> key[i] != '$' && key[i] != '}',
        !has_key(members, key),
    ensures
        substitute(placeholder(key), members) == placeholder(key),
        substituted(placeholder(key), JsonView::Object(members)) == placeholder(key),
        resolved(JsonView::String(placeholder(key)), JsonView::Object(members))
            == JsonView::String(placeholder(key)),
    decreases members.len(),
{
    if members.len() > 0 {
        let init = members.drop_last();
        assert forall|i: int| 0 <= i < init.len() implies (#[trigger] init[i]).key != key by {
            assert(members[i].key != key);
        }
        lemma_unknown_placeholder_stays(key, init);
        let last = members.last();
        assert(members[members.len() - 1].key != key);
        match last.value {
            JsonView::String(rep) => {
                assert forall|at: int| !occurs_at(placeholder(key), placeholder(last.key), at) by {
                    if occurs_at(placeholder(key), placeholder(last.key), at) {
                        lemma_placeholder_holds_no_other(key, last.key, at);
                    }
                }
                lemma_replace_all_absent(placeholder(key), placeholder(last.key), rep);
            },
            _ => {},
        }
    }
}

/// A text that holds the placeholder of no member is the same after
/// substitution.
pub proof fn lemma_substitute_absent(value: Seq<char>, members: Seq<MemberView>)
    requires
        forall|i: int, at: int|
            0 <= i < members.len() ==> !#[trigger] occurs_at(
                value,
                placeholder(members[i].key),
                at,
            ),
    ensures
        substitute(value, members) == value,
    decreases members.len(),
{
    if members.len() > 0 {
        let init = members.drop_last();
        assert forall|i: int, at: int| 0 <= i < init.len() implies !#[trigger] occurs_at(
            value,
            placeholder(init[i].key),
            at,
        ) by {
            assert(!occurs_at(value, placeholder(members[i].key), at));
        }
        lemma_substitute_absent(value, init);
        let last = members.last();
        match last.value {
            JsonView::String(rep) => {
                assert forall|at: int| !occurs_at(value, placeholder(last.key), at) by {
                    assert(!occurs_at(value, placeholder(members[members.len() - 1].key), at));
                }
                lemma_replace_all_absent(value, placeholder(last.key), rep);
            },
            _ => {},
        }
    }
}

/// Substitution is textual: where `output` is what the context holds under
/// `key`, the text `before${key}after` becomes `before`, `output`, `after`,
/// each character of the output as it is. This holds wherever `${key}` occurs
/// in the text at no place before the one between `before` and `after`, and
/// nowhere in `after`.
pub proof fn lemma_substitution_is_textual(
    before: Seq<char>,
    key: Seq<char>,
    after: Seq<char>,
    output: Seq<char>,
)
    requires
        forall|at: int|
            0 <= at < before.len() ==> !occurs_at(
                before + placeholder(key) + after,
                placeholder(key),
                at,
            ),
        forall|at: int| !occurs_at(after, placeholder(key), at),
    ensures
        substituted(
            before + placeholder(key) + after,
            JsonView::Object(seq![output_member(key, output)]),
        ) == before + output + after,
{
    lemma_placeholder(key);
    let pat = placeholder(key);
    let members = seq![output_member(key, output)];
    lemma_replace_all_single(before, pat, after, output);
    assert(members.drop_last() =~= Seq::<MemberView>::empty());
    assert(substitute(before + pat + after, members.drop_last()) == before + pat + after);
}

/// The same for texts without `$` around the placeholder: `before${key}after`
/// becomes `before`, `output`, `after`.
pub proof fn lemma_substitution_between_plain_texts(
    before: Seq<char>,
    key: Seq<char>,
    after: Seq<char>,
    output: Seq<char>,
)
    requires
        forall|i: int| 0 <= i < before.len() ==> before[i] != '$',
        forall|i: int| 0 <= i < after.len() ==> after[i] != '$',
    ensures
        substituted(
            before + placeholder(key) + after,
            JsonView::Object(seq![output_member(key, output)]),
        ) == before + output + after,
{
    lemma_placeholder(key);
    let pat = placeholder(key);
    let s = before + pat + after;
    assert forall|at: int| 0 <= at < before.len() implies !occurs_at(s, pat, at) by {
        if occurs_at(s, pat, at) {
            assert(s.subrange(at, at + pat.len())[0] == pat[0]);
            assert(s[at] == before[at]);
        }
    }
    assert forall|at: int| !occurs_at(after, pat, at) by {
        if occurs_at(after, pat, at) {
            assert(after.subrange(at, at + pat.len())[0] == pat[0]);
        }
    }
    lemma_substitution_is_textual(before, key, after, output);
}

/// Each step's output stands under the step's id: after `n` steps with ids
/// that differ from one another, the context holds exactly `n` members, one for
/// each of those steps, with the output that the step returned.
pub proof fn lemma_outputs_under_ids(
    steps: Seq<PipelineStepView>,
    outputs: Seq<Seq<char>>,
    n: nat,
)
    requires
        n <= steps.len(),
        n <= outputs.len(),
        forall|i: int, j: int| 0 <= i < j < n ==> steps[i].id != steps[j].id,
    ensures
        context_after(steps, outputs, n).len() == n,
        forall|i: int|
            0 <= i < n ==> holds(
                context_after(steps, outputs, n),
                #[trigger] output_member(steps[i].id, outputs[i]),
            ),
        forall|x: MemberView| #[trigger]
            holds(context_after(steps, outputs, n), x) ==> exists|i: int|
                0 <= i < n && x == output_member(steps[i].id, outputs[i]),
    decreases n,
{
    if n > 0 {
        let m = (n - 1) as nat;
        let earlier = context_after(steps, outputs, m);
        let member = output_member(steps[n - 1].id, outputs[n - 1]);
        lemma_outputs_under_ids(steps, outputs, m);
        lemma_inserted(earlier, member);
        let now = context_after(steps, outputs, n);
        if has_key(earlier, member.key) {
            let j = choose|j: int| 0 <= j < earlier.len() && earlier[j].key == member.key;
            assert(holds(earlier, earlier[j]));
            let i = choose|i: int|
                0 <= i < m && earlier[j] == output_member(steps[i].id, outputs[i]);
            assert(steps[i].id != steps[n - 1].id);
        }
        assert forall|i: int| 0 <= i < n implies holds(
            now,
            #[trigger] output_member(steps[i].id, outputs[i]),
        ) by {
            if i < m {
                assert(holds(earlier, output_member(steps[i].id, outputs[i])));
            }
        }
        assert forall|x: MemberView| #[trigger] holds(now, x) implies exists|i: int|
            0 <= i < n && x == output_member(steps[i].id, outputs[i]) by {
            if x == member {
                assert(x == output_member(steps[n - 1].id, outputs[n - 1]));
            } else {
                assert(holds(earlier, x));
                let i = choose|i: int| 0 <= i < m && x == output_member(steps[i].id, outputs[i]);
                assert(0 <= i < n);
            }
        }
    } else {
        assert forall|x: MemberView| #[trigger]
            holds(context_after(steps, outputs, n), x) implies false by {}
    }
}

/// Resolution touches string values only: an object keeps its keys and an
/// array its length, each value is resolved in its place, and a number, a
/// boolean or a null is left as it is.
pub proof fn lemma_resolution_touches_strings_only(doc: JsonView, context: JsonView)
    ensures
        match doc {
            JsonView::Object(members) => resolved(doc, context) matches JsonView::Object(after)
                && after.len() == members.len() && forall|i: int|
                0 <= i < members.len() ==> (#[trigger] after[i]).key == members[i].key
                    && after[i].value == resolved(members[i].value, context),
            JsonView::Array(items) => resolved(doc, context) matches JsonView::Array(after)
                && after.len() == items.len() && forall|i: int|
                0 <= i < items.len() ==> #[trigger] after[i] == resolved(items[i], context),
            JsonView::String(s) => resolved(doc, context) == JsonView::String(
                substituted(s, context),
            ),
            _ => resolved(doc, context) == doc,
        },
{
}

/// Whether the document quotes none of the steps `ids`: no string value of it
/// holds the placeholder of one of them.
pub open spec fn quotes_none(doc: JsonView, ids: Set<Seq<char>>) -> bool
    decreases doc,
{
    match doc {
        JsonView::String(s) => forall|id: Seq<char>, at: int|
            ids.contains(id) ==> !#[trigger] occurs_at(s, placeholder(id), at),
        JsonView::Array(items) => forall|i: int|
            0 <= i < items.len() ==> quotes_none(#[trigger] items[i], ids),
        JsonView::Object(members) => forall|i: int|
            0 <= i < members.len() ==> quotes_none((#[trigger] members[i]).value, ids),
        _ => true,
    }
}

/// The ids of the steps.
pub open spec fn step_ids(steps: Seq<PipelineStepView>) -> Set<Seq<char>> {
    Set::new(|id: Seq<char>| exists|i: int| 0 <= i < steps.len() && (#[trigger] steps[i]).id == id)
}

/// Whether no string value of the document holds a `$`.
pub open spec fn quotes_nothing(doc: JsonView) -> bool
    decreases doc,
{
    match doc {
        JsonView::String(s) => forall|i: int| 0 <= i < s.len() ==> s[i] != '$',
        JsonView::Array(items) => forall|i: int|
            0 <= i < items.len() ==> quotes_nothing(#[trigger] items[i]),
        JsonView::Object(members) => forall|i: int|
            0 <= i < members.len() ==> quotes_nothing((#[trigger] members[i]).value),
        _ => true,
    }
}

/// A document without `$` in its string values quotes no step.
pub proof fn lemma_plain_quotes_none(doc: JsonView, ids: Set<Seq<char>>)
    requires
        quotes_nothing(doc),
    ensures
        quotes_none(doc, ids),
    decreases doc,
{
    match doc {
        JsonView::String(s) => {
            assert forall|id: Seq<char>, at: int| ids.contains(id) implies !#[trigger] occurs_at(
                s,
                placeholder(id),
                at,
            ) by {
                lemma_placeholder(id);
                if occurs_at(s, placeholder(id), at) {
                    assert(s.subrange(at, at + placeholder(id).len())[0] == placeholder(id)[0]);
                }
            }
        },
        JsonView::Array(items) => {
            assert forall|i: int| 0 <= i < items.len() implies quotes_none(
                #[trigger] items[i],
                ids,
            ) by {
                lemma_plain_quotes_none(items[i], ids);
            }
        },
        JsonView::Object(members) => {
            assert forall|i: int| 0 <= i < members.len() implies quotes_none(
                (#[trigger] members[i]).value,
                ids,
            ) by {
                lemma_plain_quotes_none(members[i].value, ids);
            }
        },
        _ => {},
    }
}

/// Parameters that quote none of the outputs reach the tool as they are:
/// where every member of the context is the output of a step among `ids`, and
/// the document quotes none of those steps, resolving gives the document.
pub proof fn lemma_resolved_unquoted(doc: JsonView, members: Seq<MemberView>, ids: Set<Seq<char>>)
    requires
        quotes_none(doc, ids),
        forall|i: int| 0 <= i < members.len() ==> ids.contains((#[trigger] members[i]).key),
    ensures
        resolved(doc, JsonView::Object(members)) == doc,
    decreases doc,
{
    let context = JsonView::Object(members);
    match doc {
        JsonView::String(s) => {
            assert forall|i: int, at: int| 0 <= i < members.len() implies !#[trigger] occurs_at(
                s,
                placeholder(members[i].key),
                at,
            ) by {
                assert(ids.contains(members[i].key));
            }
            lemma_substitute_absent(s, members);
        },
        JsonView::Array(items) => {
            assert forall|i: int| 0 <= i < items.len() implies resolved(items[i], context)
                == items[i] by {
                lemma_resolved_unquoted(items[i], members, ids);
            }
            assert(resolved(doc, context) matches JsonView::Array(xs) && xs =~= items);
        },
        JsonView::Object(fields) => {
            assert forall|i: int| 0 <= i < fields.len() implies resolved(
                fields[i].value,
                context,
            ) == fields[i].value by {
                lemma_resolved_unquoted(fields[i].value, members, ids);
            }
            assert(resolved(doc, context) matches JsonView::Object(ms) && ms =~= fields);
        },
        _ => {},
    }
}

/// A pipeline without placeholders: where no step quotes a step and the ids
/// of the steps differ from one another, each tool that is called gets the
/// parameters of its step as they are, and after all `n` steps the result
/// object holds exactly `n` members, for each step its output under its id.
pub proof fn lemma_pipeline_without_placeholders(
    steps: Seq<PipelineStepView>,
    outputs: Seq<Seq<char>>,
    registry: Seq<ToolEntryView>,
)
    requires
        outputs.len() == steps.len(),
        forall|i: int|
            0 <= i < steps.len() ==> quotes_none((#[trigger] steps[i]).parameters, step_ids(steps)),
        forall|i: int, j: int| 0 <= i < j < steps.len() ==> steps[i].id != steps[j].id,
    ensures
        forall|k: nat|
            k < steps.len() ==> (#[trigger] action_at(
                steps,
                k,
                context_after(steps, outputs, k),
                registry,
            )) == match selected(registry, steps[k as int].tool, steps[k as int].parameters) {
                Ok(inv) => PipelineActionView::Invoke(inv),
                Err(e) => PipelineActionView::Finished(Err(e)),
            },
        context_after(steps, outputs, steps.len()).len() == steps.len(),
        forall|i: int|
            0 <= i < steps.len() ==> holds(
                context_after(steps, outputs, steps.len()),
                #[trigger] output_member(steps[i].id, outputs[i]),
            ),
{
    let ids = step_ids(steps);
    assert forall|k: nat| k < steps.len() implies (#[trigger] action_at(
        steps,
        k,
        context_after(steps, outputs, k),
        registry,
    )) == match selected(registry, steps[k as int].tool, steps[k as int].parameters) {
        Ok(inv) => PipelineActionView::Invoke(inv),
        Err(e) => PipelineActionView::Finished(Err(e)),
    } by {
        let members = context_after(steps, outputs, k);
        lemma_outputs_under_ids(steps, outputs, k);
        assert forall|i: int| 0 <= i < members.len() implies ids.contains(
            (#[trigger] members[i]).key,
        ) by {
            assert(holds(members, members[i]));
            let j = choose|j: int|
                0 <= j < k && members[i] == output_member(steps[j].id, outputs[j]);
            assert(steps[j].id == members[i].key);
        }
        lemma_resolved_unquoted(steps[k as int].parameters, members, ids);
    }
    lemma_outputs_under_ids(steps, outputs, steps.len());
}

} // verus!
