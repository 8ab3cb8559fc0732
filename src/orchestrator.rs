//! The bounded tool-calling loop, as a state machine.
//!
//! A turn starts with the user's text and alternates between asking the
//! model for a completion and invoking the tools it requests, one at a time
//! and in order.  The caller performs each request the orchestrator asks for
//! and hands back its outcome; the orchestrator decides the next step and
//! keeps the conversation.  A turn ends with the model's plain answer, or
//! fails: on a model or tool failure, or once the configured number of
//! rounds has been spent on tool calls.
use crate::conversation::{
    calls_view, CalendarDate, Conversation, Message, MessageView, ToolCall, ToolCallView,
    system_prompt, is_seeded_log,
};
use crate::json::is_object_text;
use crate::tool_host::{
    advertised, blocks_view, concat_text, first_unsupported, function_to_tool, tool_result_text,
    tool_to_function, ContentBlock, ContentBlockView, FunctionCall, FunctionSpec, ToolCatalogEntry,
    ToolHostError, ToolHostErrorView, ToolInvocation,
};
use vstd::prelude::*;

verus! {

/// The number of completion rounds a turn may take unless configured
/// otherwise.
pub const DEFAULT_MAX_ROUNDS: u32 = 5;

/// One choice of a completion: text, tool calls, or both.
#[derive(Debug, PartialEq)]
pub struct Choice {
    pub content: Option<String>,
    pub tool_calls: Option<Vec<ToolCall>>,
}

/// The content of a [`Choice`]; a missing list of calls is an empty one.
pub ghost struct ChoiceView {
    pub content: Option<Seq<char>>,
    pub tool_calls: Seq<ToolCallView>,
}

impl View for Choice {
    type V = ChoiceView;

    open spec fn view(&self) -> ChoiceView {
        ChoiceView {
            content: match self.content {
                Some(c) => Some(c@),
                None => None,
            },
            tool_calls: match self.tool_calls {
                Some(calls) => calls_view(calls@),
                None => Seq::empty(),
            },
        }
    }
}

/// A completion request that failed (transport, authentication, rate limit).
#[derive(Debug, PartialEq)]
pub struct LlmError {
    pub message: String,
}

/// Why a turn failed.
#[derive(Debug, PartialEq)]
pub enum OrchestratorError {
    ToolCallLimitExceeded,
    ToolExecutionFailed(ToolHostError),
    Llm(LlmError),
}

/// The content of an [`OrchestratorError`].
pub ghost enum OrchestratorErrorView {
    ToolCallLimitExceeded,
    ToolExecutionFailed(ToolHostErrorView),
    Llm(Seq<char>),
}

impl View for OrchestratorError {
    type V = OrchestratorErrorView;

    open spec fn view(&self) -> OrchestratorErrorView {
        match self {
            OrchestratorError::ToolCallLimitExceeded => OrchestratorErrorView::ToolCallLimitExceeded,
            OrchestratorError::ToolExecutionFailed(e) => OrchestratorErrorView::ToolExecutionFailed(
                e@,
            ),
            OrchestratorError::Llm(e) => OrchestratorErrorView::Llm(e.message@),
        }
    }
}

/// What the caller is to do next.
#[derive(Debug, PartialEq)]
pub enum Step {
    /// Ask the model for a completion over the whole conversation.
    RequestCompletion,
    /// Send this invocation to the tool host.
    InvokeTool(ToolInvocation),
    /// The turn is over; this is the model's answer.
    Answer(String),
    /// The turn is over and failed.
    Failed(OrchestratorError),
}

/// The content of a [`Step`]; an invocation is shown by its tool's name.
pub ghost enum StepView {
    RequestCompletion,
    InvokeTool(Seq<char>),
    Answer(Seq<char>),
    Failed(OrchestratorErrorView),
}

impl View for Step {
    type V = StepView;

    open spec fn view(&self) -> StepView {
        match self {
            Step::RequestCompletion => StepView::RequestCompletion,
            Step::InvokeTool(inv) => StepView::InvokeTool(inv.name@),
            Step::Answer(a) => StepView::Answer(a@),
            Step::Failed(e) => StepView::Failed(e@),
        }
    }
}

/// Where a turn stands.
#[derive(Debug, PartialEq, Eq, Structural, Clone, Copy)]
pub enum Phase {
    Idle,
    AwaitingCompletion,
    AwaitingToolResult,
}

/// The state of an [`Orchestrator`].
pub ghost struct TurnView {
    pub messages: Seq<MessageView>,
    pub max_rounds: nat,
    pub rounds_left: nat,
    pub pending: Seq<ToolCallView>,
    pub next_call: nat,
    pub phase: Phase,
}

/// The texts of `choices` that have one, in order.
pub open spec fn reply_texts(choices: Seq<ChoiceView>) -> Seq<Seq<char>>
    decreases choices.len(),
{
    if choices.len() == 0 {
        Seq::empty()
    } else {
        let prev = reply_texts(choices.drop_last());
        match choices.last().content {
            Some(c) => prev.push(c),
            None => prev,
        }
    }
}

/// The tool calls of all of `choices`, in order.
pub open spec fn reply_calls(choices: Seq<ChoiceView>) -> Seq<ToolCallView>
    decreases choices.len(),
{
    if choices.len() == 0 {
        Seq::empty()
    } else {
        reply_calls(choices.drop_last()) + choices.last().tool_calls
    }
}

/// `parts` joined with a newline between each two.
pub open spec fn join_lines(parts: Seq<Seq<char>>) -> Seq<char>
    decreases parts.len(),
{
    if parts.len() == 0 {
        Seq::empty()
    } else if parts.len() == 1 {
        parts[0]
    } else {
        join_lines(parts.drop_last()) + seq!['\n'] + parts.last()
    }
}

/// The views of `choices`, in order.
pub open spec fn choices_view(choices: Seq<Choice>) -> Seq<ChoiceView> {
    choices.map_values(|c: Choice| c@)
}

/// The content of a completion outcome.
pub open spec fn reply_view(reply: Result<Vec<Choice>, LlmError>) -> Result<Seq<ChoiceView>, Seq<char>> {
    match reply {
        Ok(choices) => Ok(choices_view(choices@)),
        Err(e) => Err(e.message@),
    }
}

/// The content of a tool outcome.
pub open spec fn tool_outcome_view(result: Result<Vec<ContentBlock>, ToolHostError>) -> Result<
    Seq<ContentBlockView>,
    ToolHostErrorView,
> {
    match result {
        Ok(blocks) => Ok(blocks_view(blocks@)),
        Err(e) => Err(e@),
    }
}

/// `v` stopped in `phase`.
pub open spec fn with_phase(v: TurnView, phase: Phase) -> TurnView {
    TurnView { phase, ..v }
}

/// A new turn for the user's `text`: the text is logged, and the model is
/// asked for a completion unless no round is allowed at all.
pub open spec fn start_spec(v: TurnView, text: Seq<char>) -> (TurnView, StepView) {
    let messages = v.messages.push(MessageView::User(text));
    if v.max_rounds == 0 {
        (
            TurnView { messages, phase: Phase::Idle, ..v },
            StepView::Failed(OrchestratorErrorView::ToolCallLimitExceeded),
        )
    } else {
        (
            TurnView {
                messages,
                rounds_left: v.max_rounds,
                pending: Seq::empty(),
                next_call: 0,
                phase: Phase::AwaitingCompletion,
                ..v
            },
            StepView::RequestCompletion,
        )
    }
}

/// The step after the calls before `v.next_call` were answered: invoke the
/// next call if its arguments are an object (fail if not), or close the round
/// and ask again unless it was the last round allowed.
pub open spec fn dispatch_spec(v: TurnView) -> (TurnView, StepView) {
    if v.next_call >= v.pending.len() {
        let left = (v.rounds_left - 1) as nat;
        if left == 0 {
            (
                TurnView { rounds_left: left, phase: Phase::Idle, ..v },
                StepView::Failed(OrchestratorErrorView::ToolCallLimitExceeded),
            )
        } else {
            (
                TurnView { rounds_left: left, phase: Phase::AwaitingCompletion, ..v },
                StepView::RequestCompletion,
            )
        }
    } else {
        let call = v.pending[v.next_call as int];
        if is_object_text(call.arguments) {
            (with_phase(v, Phase::AwaitingToolResult), StepView::InvokeTool(call.name))
        } else {
            (
                with_phase(v, Phase::Idle),
                StepView::Failed(
                    OrchestratorErrorView::ToolExecutionFailed(
                        ToolHostErrorView::MalformedArguments(call.arguments),
                    ),
                ),
            )
        }
    }
}

/// The step after the model answered with `reply`.  Its texts, joined by
/// newlines, are logged as one assistant message together with all tool
/// calls it requests.  Without calls that text is the answer; with calls
/// they are invoked in order.
pub open spec fn completion_spec(v: TurnView, reply: Result<Seq<ChoiceView>, Seq<char>>) -> (
    TurnView,
    StepView,
) {
    match reply {
        Err(message) => (
            with_phase(v, Phase::Idle),
            StepView::Failed(OrchestratorErrorView::Llm(message)),
        ),
        Ok(choices) => {
            let text = join_lines(reply_texts(choices));
            let calls = reply_calls(choices);
            let messages = v.messages.push(
                MessageView::Assistant { content: text, tool_calls: calls },
            );
            if calls.len() == 0 {
                (TurnView { messages, phase: Phase::Idle, ..v }, StepView::Answer(text))
            } else {
                dispatch_spec(TurnView { messages, pending: calls, next_call: 0, ..v })
            }
        },
    }
}

/// The step after the tool host answered the pending call with `result`.
/// A text result is logged as a tool message for that call and the round
/// goes on; a failure, or content other than text, ends the turn.
pub open spec fn tool_result_spec(
    v: TurnView,
    result: Result<Seq<ContentBlockView>, ToolHostErrorView>,
) -> (TurnView, StepView) {
    match result {
        Err(e) => (
            with_phase(v, Phase::Idle),
            StepView::Failed(OrchestratorErrorView::ToolExecutionFailed(e)),
        ),
        Ok(blocks) => match first_unsupported(blocks) {
            Some(kind) => (
                with_phase(v, Phase::Idle),
                StepView::Failed(
                    OrchestratorErrorView::ToolExecutionFailed(
                        ToolHostErrorView::UnsupportedContent(kind),
                    ),
                ),
            ),
            None => {
                let answer = MessageView::Tool {
                    tool_call_id: v.pending[v.next_call as int].id,
                    content: concat_text(blocks),
                };
                dispatch_spec(
                    TurnView {
                        messages: v.messages.push(answer),
                        next_call: v.next_call + 1,
                        ..v
                    },
                )
            },
        },
    }
}

/// Drives one session's turns.
#[derive(Debug)]
pub struct Orchestrator {
    conversation: Conversation,
    functions: Vec<FunctionSpec>,
    max_rounds: u32,
    rounds_left: u32,
    pending: Vec<ToolCall>,
    next_call: usize,
    phase: Phase,
}

impl View for Orchestrator {
    type V = TurnView;

    closed spec fn view(&self) -> TurnView {
        TurnView {
            messages: self.conversation@,
            max_rounds: self.max_rounds as nat,
            rounds_left: self.rounds_left as nat,
            pending: calls_view(self.pending@),
            next_call: self.next_call as nat,
            phase: self.phase,
        }
    }
}

fn copy_call(call: &ToolCall) -> (r: ToolCall)
    ensures
        r@ == call@,
{
    ToolCall {
        id: call.id.clone(),
        function: FunctionCall {
            name: call.function.name.clone(),
            arguments: call.function.arguments.clone(),
        },
    }
}

fn copy_calls(calls: &Vec<ToolCall>) -> (r: Vec<ToolCall>)
    ensures
        calls_view(r@) == calls_view(calls@),
{
    let mut out: Vec<ToolCall> = Vec::new();
    for i in 0..calls.len()
        invariant
            calls_view(out@) == calls_view(calls@.take(i as int)),
    {
        let ghost prev = out@;
        let call = copy_call(&calls[i]);
        out.push(call);
        assert(calls@.take(i as int + 1) =~= calls@.take(i as int).push(calls@[i as int]));
        assert(calls_view(out@) =~= calls_view(prev).push(call@));
        assert(calls_view(out@) =~= calls_view(calls@.take(i as int + 1)));
    }
    assert(calls@.take(calls.len() as int) =~= calls@);
    out
}

/// The texts of a completion joined by newlines, and all its tool calls.
fn collect_reply(choices: Vec<Choice>) -> (r: (String, Vec<ToolCall>))
    ensures
        r.0@ == join_lines(reply_texts(choices_view(choices@))),
        calls_view(r.1@) == reply_calls(choices_view(choices@)),
{
    let ghost all = choices@;
    let mut text = String::new();
    let mut n_texts: usize = 0;
    let mut calls: Vec<ToolCall> = Vec::new();
    proof {
        reveal_strlit("\n");
    }
    assert(choices_view(all.take(0)) =~= Seq::<ChoiceView>::empty());
    assert(all.len() == choices.len());
    for choice in it: choices.into_iter()
        invariant
            it.seq() == all,
            all.len() <= usize::MAX,
            n_texts <= it.index(),
            n_texts == reply_texts(choices_view(all.take(it.index() as int))).len(),
            text@ == join_lines(reply_texts(choices_view(all.take(it.index() as int)))),
            calls_view(calls@) == reply_calls(choices_view(all.take(it.index() as int))),
    {
        let ghost i = it.index() as int;
        let ghost before = choices_view(all.take(i));
        let ghost after = choices_view(all.take(i + 1));
        assert(after.drop_last() =~= before);
        assert(after.last() == choice@);
        let Choice { content, tool_calls } = choice;
        match content {
            Some(c) => {
                let ghost parts = reply_texts(before);
                assert(reply_texts(after) == parts.push(c@));
                assert(parts.push(c@).drop_last() =~= parts);
                let ghost old_text = text@;
                proof {
                    reveal_strlit("\n");
                }
                if n_texts > 0 {
                    text.append("\n");
                }
                text.append(c.as_str());
                n_texts = n_texts + 1;
                proof {
                    if parts.len() == 0 {
                        assert(text@ =~= join_lines(parts.push(c@)));
                    } else {
                        assert(text@ =~= old_text + seq!['\n'] + c@);
                        assert(text@ =~= join_lines(parts.push(c@)));
                    }
                }
            },
            None => {},
        }
        match tool_calls {
            Some(mut more) => {
                let ghost prev = calls@;
                calls.append(&mut more);
                assert(calls_view(calls@) =~= calls_view(prev) + after.last().tool_calls);
            },
            None => {
                assert(after.last().tool_calls =~= Seq::<ToolCallView>::empty());
                assert(reply_calls(after) =~= reply_calls(before));
            },
        }
    }
    assert(all.take(all.len() as int) =~= all);
    (text, calls)
}

impl Orchestrator {
    /// Internal consistency of the state.
    pub closed spec fn wf(&self) -> bool {
        &&& is_seeded_log(self.conversation@)
        &&& self.next_call <= self.pending.len()
        &&& self.phase == Phase::AwaitingToolResult ==> self.next_call < self.pending.len()
        &&& self.phase != Phase::Idle ==> 1 <= self.rounds_left <= self.max_rounds
    }

    /// The functions advertised to the model with every completion request.
    pub closed spec fn functions(&self) -> Seq<FunctionSpec> {
        self.functions@
    }

    /// A session for `today` with the tools of `catalog`, allowing at most
    /// `max_rounds` completion requests per turn.  The catalog is
    /// converted once, here, and kept for the session.
    pub fn new(today: &CalendarDate, catalog: Vec<ToolCatalogEntry>, max_rounds: u32) -> (r:
        Orchestrator)
        ensures
            r.wf(),
            r@.messages == seq![MessageView::System(system_prompt(*today))],
            r@.max_rounds == max_rounds,
            r@.phase == Phase::Idle,
            r.functions() == catalog@.map_values(|t: ToolCatalogEntry| advertised(t)),
    {
        let ghost all = catalog@;
        let mut functions: Vec<FunctionSpec> = Vec::new();
        for tool in it: catalog.into_iter()
            invariant
                it.seq() == all,
                functions@ == all.take(it.index() as int).map_values(
                    |t: ToolCatalogEntry| advertised(t),
                ),
        {
            assert(all.take(it.index() as int + 1) =~= all.take(it.index() as int).push(tool));
            functions.push(tool_to_function(tool));
            assert(functions@ =~= all.take(it.index() as int + 1).map_values(
                |t: ToolCatalogEntry| advertised(t),
            ));
        }
        assert(all.take(all.len() as int) =~= all);
        Orchestrator {
            conversation: Conversation::new(today),
            functions,
            max_rounds,
            rounds_left: 0,
            pending: Vec::new(),
            next_call: 0,
            phase: Phase::Idle,
        }
    }

    /// Where the current turn stands.
    pub fn phase(&self) -> (r: Phase)
        ensures
            r == self@.phase,
    {
        self.phase
    }

    /// The conversation so far.
    pub fn conversation(&self) -> (r: &Conversation)
        ensures
            r@ == self@.messages,
    {
        &self.conversation
    }

    /// The functions to advertise to the model.
    pub fn functions_for_model(&self) -> (r: &Vec<FunctionSpec>)
        ensures
            r@ == self.functions(),
    {
        &self.functions
    }

    fn dispatch(&mut self) -> (s: Step)
        requires
            is_seeded_log(old(self).conversation@),
            old(self).next_call <= old(self).pending.len(),
            1 <= old(self).rounds_left <= old(self).max_rounds,
        ensures
            final(self).wf(),
            (final(self)@, s@) == dispatch_spec(old(self)@),
            final(self).functions() == old(self).functions(),
    {
        if self.next_call >= self.pending.len() {
            self.rounds_left = self.rounds_left - 1;
            if self.rounds_left == 0 {
                self.phase = Phase::Idle;
                Step::Failed(OrchestratorError::ToolCallLimitExceeded)
            } else {
                self.phase = Phase::AwaitingCompletion;
                Step::RequestCompletion
            }
        } else {
            match function_to_tool(&self.pending[self.next_call].function) {
                Ok(invocation) => {
                    self.phase = Phase::AwaitingToolResult;
                    Step::InvokeTool(invocation)
                },
                Err(e) => {
                    self.phase = Phase::Idle;
                    Step::Failed(OrchestratorError::ToolExecutionFailed(e))
                },
            }
        }
    }

    /// Starts a turn for the user's `text`.
    pub fn start_turn(&mut self, text: String) -> (s: Step)
        requires
            old(self).wf(),
            old(self)@.phase == Phase::Idle,
        ensures
            final(self).wf(),
            (final(self)@, s@) == start_spec(old(self)@, text@),
            final(self).functions() == old(self).functions(),
    {
        self.conversation.append(Message::User(text));
        if self.max_rounds == 0 {
            self.phase = Phase::Idle;
            Step::Failed(OrchestratorError::ToolCallLimitExceeded)
        } else {
            self.rounds_left = self.max_rounds;
            self.pending = Vec::new();
            self.next_call = 0;
            self.phase = Phase::AwaitingCompletion;
            assert(calls_view(self.pending@) =~= Seq::<ToolCallView>::empty());
            Step::RequestCompletion
        }
    }

    /// Takes the outcome of the completion request.
    pub fn on_completion(&mut self, reply: Result<Vec<Choice>, LlmError>) -> (s: Step)
        requires
            old(self).wf(),
            old(self)@.phase == Phase::AwaitingCompletion,
        ensures
            final(self).wf(),
            (final(self)@, s@) == completion_spec(old(self)@, reply_view(reply)),
            final(self).functions() == old(self).functions(),
    {
        match reply {
            Err(e) => {
                self.phase = Phase::Idle;
                Step::Failed(OrchestratorError::Llm(e))
            },
            Ok(choices) => {
                let (text, calls) = collect_reply(choices);
                if calls.len() == 0 {
                    let answer = text.clone();
                    self.conversation.append(Message::Assistant { content: text, tool_calls: calls });
                    self.phase = Phase::Idle;
                    Step::Answer(answer)
                } else {
                    let pending = copy_calls(&calls);
                    self.conversation.append(Message::Assistant { content: text, tool_calls: calls });
                    self.pending = pending;
                    self.next_call = 0;
                    self.dispatch()
                }
            },
        }
    }

    /// Takes the tool host's outcome for the invocation last asked for.
    pub fn on_tool_result(&mut self, result: Result<Vec<ContentBlock>, ToolHostError>) -> (s: Step)
        requires
            old(self).wf(),
            old(self)@.phase == Phase::AwaitingToolResult,
        ensures
            final(self).wf(),
            (final(self)@, s@) == tool_result_spec(old(self)@, tool_outcome_view(result)),
            final(self).functions() == old(self).functions(),
    {
        match result {
            Err(e) => {
                self.phase = Phase::Idle;
                Step::Failed(OrchestratorError::ToolExecutionFailed(e))
            },
            Ok(blocks) => match tool_result_text(&blocks) {
                Err(e) => {
                    self.phase = Phase::Idle;
                    Step::Failed(OrchestratorError::ToolExecutionFailed(e))
                },
                Ok(text) => {
                    let id = self.pending[self.next_call].id.clone();
                    self.conversation.append(Message::Tool { tool_call_id: id, content: text });
                    self.next_call = self.next_call + 1;
                    self.dispatch()
                },
            },
        }
    }
}

/// `log` is `earlier` with zero or more entries added at the end.
pub open spec fn extends(log: Seq<MessageView>, earlier: Seq<MessageView>) -> bool {
    &&& earlier.len() <= log.len()
    &&& log.subrange(0, earlier.len() as int) == earlier
}

/// Every step of a turn only appends to the conversation: no entry is ever
/// removed, reordered or changed.  A failed completion request, a failed tool
/// call and a result that is not text add nothing; what was appended before
/// the failure stays.
pub proof fn lemma_steps_only_append(
    v: TurnView,
    text: Seq<char>,
    reply: Result<Seq<ChoiceView>, Seq<char>>,
    result: Result<Seq<ContentBlockView>, ToolHostErrorView>,
)
    ensures
        extends(start_spec(v, text).0.messages, v.messages),
        extends(completion_spec(v, reply).0.messages, v.messages),
        extends(tool_result_spec(v, result).0.messages, v.messages),
        reply is Err ==> completion_spec(v, reply).0.messages == v.messages,
        (result is Err || (result matches Ok(blocks) && first_unsupported(blocks) is Some))
            ==> tool_result_spec(v, result).0.messages == v.messages,
{
    assert(v.messages.subrange(0, v.messages.len() as int) =~= v.messages);
    let n = v.messages.len() as int;
    assert forall|m: MessageView| v.messages.push(m).subrange(0, n) == v.messages by {
        assert(v.messages.push(m).subrange(0, n) =~= v.messages);
    }
}

/// Answers the invocations of the current round with `host`, one after the
/// other, for as long as the orchestrator asks for invocations.
pub open spec fn answer_calls(
    v: TurnView,
    s: StepView,
    host: spec_fn(ToolCallView) -> Seq<ContentBlockView>,
) -> (TurnView, StepView)
    decreases v.pending.len() - v.next_call,
{
    if s is InvokeTool && v.next_call < v.pending.len() {
        let (v1, s1) = tool_result_spec(v, Ok(host(v.pending[v.next_call as int])));
        if v1.pending == v.pending && v1.next_call == v.next_call + 1 {
            answer_calls(v1, s1, host)
        } else {
            (v1, s1)
        }
    } else {
        (v, s)
    }
}

/// Plays a turn on from state `v` and step `s`: the i-th completion request
/// is answered with `completions[i]` and every invocation with `host`.  Gives
/// the final state and step and the number of completions requested.
pub open spec fn converse(
    v: TurnView,
    s: StepView,
    completions: Seq<Seq<ChoiceView>>,
    host: spec_fn(ToolCallView) -> Seq<ContentBlockView>,
) -> (TurnView, StepView, nat)
    decreases completions.len(),
{
    if s is RequestCompletion && completions.len() > 0 {
        let (v1, s1) = completion_spec(v, Ok(completions[0]));
        let (v2, s2) = answer_calls(v1, s1, host);
        let (v3, s3, n) = converse(v2, s2, completions.drop_first(), host);
        (v3, s3, n + 1)
    } else {
        (v, s, 0)
    }
}

/// A completion that requests at least one tool call, all of them with a
/// JSON object as arguments.
pub open spec fn requests_valid_calls(choices: Seq<ChoiceView>) -> bool {
    &&& reply_calls(choices).len() > 0
    &&& forall|j: int|
        0 <= j < reply_calls(choices).len() ==> is_object_text(
            (#[trigger] reply_calls(choices)[j]).arguments,
        )
}

/// A tool host whose every result is plain text.
pub open spec fn answers_with_text(host: spec_fn(ToolCallView) -> Seq<ContentBlockView>) -> bool {
    forall|c: ToolCallView| (#[trigger] first_unsupported(host(c))) is None
}

/// A turn whose first completion requests no tool call ends after that one
/// request: its answer is the completion's texts joined by newlines, and the
/// conversation gains exactly two entries, the user's message and one
/// assistant message that carries the answer.
pub proof fn lemma_answer_without_tools(v: TurnView, text: Seq<char>, choices: Seq<ChoiceView>)
    requires
        v.phase == Phase::Idle,
        v.max_rounds >= 1,
        reply_calls(choices).len() == 0,
    ensures
        start_spec(v, text).1 == StepView::RequestCompletion,
        completion_spec(start_spec(v, text).0, Ok(choices)).1 == StepView::Answer(
            join_lines(reply_texts(choices)),
        ),
        completion_spec(start_spec(v, text).0, Ok(choices)).0.messages == v.messages + seq![
            MessageView::User(text),
            MessageView::Assistant {
                content: join_lines(reply_texts(choices)),
                tool_calls: Seq::empty(),
            },
        ],
        completion_spec(start_spec(v, text).0, Ok(choices)).0.phase == Phase::Idle,
{
    assert(reply_calls(choices) =~= Seq::<ToolCallView>::empty());
    let v1 = start_spec(v, text).0;
    assert(completion_spec(v1, Ok(choices)).0.messages =~= v.messages + seq![
        MessageView::User(text),
        MessageView::Assistant { content: join_lines(reply_texts(choices)), tool_calls: Seq::empty() },
    ]);
}

/// Once a round's calls from `w.next_call` on all have object arguments and
/// every result is text, the round runs to its end: one round is spent, and
/// the turn asks again or, if that was the last round, fails.
proof fn lemma_round_runs_out(w: TurnView, host: spec_fn(ToolCallView) -> Seq<ContentBlockView>)
    requires
        w.next_call <= w.pending.len(),
        w.rounds_left >= 1,
        answers_with_text(host),
        forall|j: int|
            w.next_call <= j < w.pending.len() ==> is_object_text(
                (#[trigger] w.pending[j]).arguments,
            ),
    ensures
        ({
            let (v1, s1) = dispatch_spec(w);
            let (v2, s2) = answer_calls(v1, s1, host);
            &&& v2.rounds_left == w.rounds_left - 1
            &&& v2.max_rounds == w.max_rounds
            &&& s2 == if w.rounds_left == 1 {
                StepView::Failed(OrchestratorErrorView::ToolCallLimitExceeded)
            } else {
                StepView::RequestCompletion
            }
        }),
    decreases w.pending.len() - w.next_call,
{
    let (v1, s1) = dispatch_spec(w);
    if w.next_call < w.pending.len() {
        let call = w.pending[w.next_call as int];
        assert(is_object_text(call.arguments));
        assert(first_unsupported(host(call)) is None);
        let w2 = TurnView {
            messages: v1.messages.push(
                MessageView::Tool { tool_call_id: call.id, content: concat_text(host(call)) },
            ),
            next_call: v1.next_call + 1,
            ..v1
        };
        assert(tool_result_spec(v1, Ok(host(call))) == dispatch_spec(w2));
        lemma_round_runs_out(w2, host);
    }
}

/// From a request for a completion with `r >= 1` rounds left, a model that
/// always asks for valid tool calls and a host that always answers with text
/// make the turn fail for its round limit after exactly `r` completions.
proof fn lemma_rounds_run_out(
    v: TurnView,
    completions: Seq<Seq<ChoiceView>>,
    host: spec_fn(ToolCallView) -> Seq<ContentBlockView>,
)
    requires
        v.rounds_left >= 1,
        completions.len() >= v.rounds_left,
        answers_with_text(host),
        forall|i: int| 0 <= i < completions.len() ==> requests_valid_calls(#[trigger] completions[i]),
    ensures
        converse(v, StepView::RequestCompletion, completions, host).1 == StepView::Failed(
            OrchestratorErrorView::ToolCallLimitExceeded,
        ),
        converse(v, StepView::RequestCompletion, completions, host).2 == v.rounds_left,
    decreases v.rounds_left,
{
    let choices = completions[0];
    assert(requests_valid_calls(choices));
    let calls = reply_calls(choices);
    let text = join_lines(reply_texts(choices));
    let w = TurnView {
        messages: v.messages.push(MessageView::Assistant { content: text, tool_calls: calls }),
        pending: calls,
        next_call: 0,
        ..v
    };
    assert(completion_spec(v, Ok(choices)) == dispatch_spec(w));
    lemma_round_runs_out(w, host);
    let (v1, s1) = dispatch_spec(w);
    let (v2, s2) = answer_calls(v1, s1, host);
    let rest = completions.drop_first();
    assert(completions.len() > 0);
    let (v3, s3, n) = converse(v2, s2, rest, host);
    assert(converse(v, StepView::RequestCompletion, completions, host) == (v3, s3, n + 1));
    if v.rounds_left == 1 {
        assert(!(s2 is RequestCompletion));
        assert(converse(v2, s2, rest, host) == (v2, s2, 0nat));
    } else {
        assert forall|i: int| 0 <= i < rest.len() implies requests_valid_calls(
            #[trigger] rest[i],
        ) by {
            assert(rest[i] == completions[i + 1]);
        }
        lemma_rounds_run_out(v2, rest, host);
    }
}

/// If every completion requests at least one tool call, all with a JSON
/// object as arguments, and every tool answers with text, a turn fails with
/// `ToolCallLimitExceeded` after exactly the configured number of rounds:
/// it requests `max_rounds` completions and no more, whatever the model
/// would answer after that.
pub proof fn lemma_turn_rounds_are_bounded(
    v: TurnView,
    text: Seq<char>,
    completions: Seq<Seq<ChoiceView>>,
    host: spec_fn(ToolCallView) -> Seq<ContentBlockView>,
)
    requires
        v.phase == Phase::Idle,
        completions.len() >= v.max_rounds,
        answers_with_text(host),
        forall|i: int| 0 <= i < completions.len() ==> requests_valid_calls(#[trigger] completions[i]),
    ensures
        converse(start_spec(v, text).0, start_spec(v, text).1, completions, host).1
            == StepView::Failed(OrchestratorErrorView::ToolCallLimitExceeded),
        converse(start_spec(v, text).0, start_spec(v, text).1, completions, host).2
            == v.max_rounds,
{
    let (v1, s1) = start_spec(v, text);
    if v.max_rounds >= 1 {
        lemma_rounds_run_out(v1, completions, host);
    }
}

} // verus!
