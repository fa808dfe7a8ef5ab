//! The conversation orchestrator's decision logic.
//!
//! One user turn runs as follows: the user's message is appended to the
//! conversation history; the tool catalog is fetched and translated into the
//! model provider's tool format; a request carrying the full history and the
//! translated catalog is sent to the provider; the response — an ordered
//! sequence of text and tool-call segments — is resolved into the assistant
//! reply; and the reply is committed to the history.
//!
//! The transport work in between (fetching the catalog, the HTTP call, the
//! tool invocations over the channel) is performed by the unverified host,
//! which hands the results back as plain values. A transport or provider
//! failure aborts the turn before the commit, so the history keeps the
//! user's message and gains no assistant message; a tool invocation failure
//! is not fatal: it is folded into the reply as an error message.

use vstd::prelude::*;
use vstd::string::StringExecFns;
use crate::server::{argument_views, clone_arguments, Argument, ArgumentView, ToolDescriptor, ToolDescriptorView};
use crate::text::str_eq;

verus! {

/// Who authored a conversation message.
#[derive(Clone, Copy, Debug, PartialEq, Eq, Structural)]
pub enum Role {
    User,
    Assistant,
}

/// The specification-level value of a [`Message`].
pub ghost struct MessageView {
    pub role: Role,
    pub content: Seq<char>,
}

/// One conversation message.
#[derive(Debug)]
pub struct Message {
    pub role: Role,
    pub content: String,
}

impl View for Message {
    type V = MessageView;

    open spec fn view(&self) -> MessageView {
        MessageView { role: self.role, content: self.content@ }
    }
}

impl Clone for Message {
    fn clone(&self) -> (result: Self)
        ensures
            result@ == self@,
    {
        Message { role: self.role, content: self.content.clone() }
    }
}

/// The views of a sequence of messages.
pub open spec fn message_views(messages: Seq<Message>) -> Seq<MessageView> {
    Seq::new(messages.len(), |i: int| messages[i]@)
}

/// A history after the user's message of a turn has been appended.
pub open spec fn history_after_user(
    history: Seq<MessageView>,
    user_text: Seq<char>,
) -> Seq<MessageView> {
    history.push(MessageView { role: Role::User, content: user_text })
}

/// A history after the assembled reply of a turn has been committed.
pub open spec fn history_after_reply(
    history: Seq<MessageView>,
    reply_text: Seq<char>,
) -> Seq<MessageView> {
    history.push(MessageView { role: Role::Assistant, content: reply_text })
}

/// A turn that aborts after the user's message was appended — because the
/// catalog fetch, the provider request, or the response decoding failed —
/// leaves the history extended by exactly that message: the user's message
/// is the last entry and no assistant message is added, so a later turn
/// retries with full context.
pub proof fn lemma_aborted_turn(history: Seq<MessageView>, user_text: Seq<char>)
    ensures
        history_after_user(history, user_text).len() == history.len() + 1,
        history_after_user(history, user_text).last() == (MessageView {
            role: Role::User,
            content: user_text,
        }),
        history_after_user(history, user_text).subrange(0, history.len() as int) == history,
{
    assert(history_after_user(history, user_text).subrange(0, history.len() as int) =~= history);
}

/// A completed turn extends the history by exactly two messages: the user's
/// message, then the assistant's reply, with everything before them intact.
pub proof fn lemma_completed_turn(
    history: Seq<MessageView>,
    user_text: Seq<char>,
    reply_text: Seq<char>,
)
    ensures
        history_after_reply(history_after_user(history, user_text), reply_text).len()
            == history.len() + 2,
        history_after_reply(history_after_user(history, user_text), reply_text)[history.len() as int]
            == (MessageView { role: Role::User, content: user_text }),
        history_after_reply(history_after_user(history, user_text), reply_text).last()
            == (MessageView { role: Role::Assistant, content: reply_text }),
        history_after_reply(history_after_user(history, user_text), reply_text).subrange(
            0,
            history.len() as int,
        ) == history,
{
    assert(history_after_reply(history_after_user(history, user_text), reply_text).subrange(
        0,
        history.len() as int,
    ) =~= history);
}

/// The specification-level value of a [`ModelToolSchema`].
pub ghost struct ModelToolSchemaView {
    pub name: Seq<char>,
    pub description: Seq<char>,
    pub input_schema: Seq<char>,
}

/// One tool in the model provider's tool format.
#[derive(Debug)]
pub struct ModelToolSchema {
    pub name: String,
    pub description: String,
    pub input_schema: String,
}

impl View for ModelToolSchema {
    type V = ModelToolSchemaView;

    open spec fn view(&self) -> ModelToolSchemaView {
        ModelToolSchemaView {
            name: self.name@,
            description: self.description@,
            input_schema: self.input_schema@,
        }
    }
}

/// The views of a sequence of model tool schemas.
pub open spec fn schema_views(schemas: Seq<ModelToolSchema>) -> Seq<ModelToolSchemaView> {
    Seq::new(schemas.len(), |i: int| schemas[i]@)
}

/// What translating one tool descriptor yields: a pure pass-through of
/// name, description and parameter schema.
pub open spec fn translated(descriptor: ToolDescriptorView) -> ModelToolSchemaView {
    ModelToolSchemaView {
        name: descriptor.name,
        description: descriptor.description,
        input_schema: descriptor.input_schema,
    }
}

/// Translates one tool descriptor of the tool server's catalog into the
/// model provider's tool format.
pub fn translate_tool(descriptor: &ToolDescriptor) -> (schema: ModelToolSchema)
    ensures
        schema@ == translated(descriptor@),
{
    ModelToolSchema {
        name: descriptor.name.clone(),
        description: descriptor.description.clone(),
        input_schema: descriptor.input_schema.clone(),
    }
}

/// Translates a whole catalog, keeping the order of its descriptors.
pub fn translate_catalog(descriptors: &Vec<ToolDescriptor>) -> (schemas: Vec<ModelToolSchema>)
    ensures
        schema_views(schemas@) == Seq::new(descriptors@.len(), |i: int| translated(descriptors@[i]@)),
{
    let mut schemas: Vec<ModelToolSchema> = Vec::new();
    let mut i: usize = 0;
    while i < descriptors.len()
        invariant
            i <= descriptors@.len(),
            schemas@.len() == i,
            forall|j: int| 0 <= j < i ==> schemas@[j]@ == translated(descriptors@[j]@),
        decreases descriptors@.len() - i,
    {
        schemas.push(translate_tool(&descriptors[i]));
        i = i + 1;
    }
    proof {
        assert(schema_views(schemas@) =~= Seq::new(
            descriptors@.len(),
            |i: int| translated(descriptors@[i]@),
        ));
    }
    schemas
}

/// One request to the model provider: the full conversation history, the
/// translated tool catalog, and automatic tool selection.
#[derive(Debug)]
pub struct ModelRequest {
    pub model: String,
    pub max_tokens: u32,
    pub messages: Vec<Message>,
    pub tools: Vec<ModelToolSchema>,
    pub tool_choice: String,
}

/// One conversation session: the ordered, append-only history of messages,
/// owned by the orchestrator for the lifetime of the session.
pub struct Session {
    history: Vec<Message>,
}

impl View for Session {
    type V = Seq<MessageView>;

    closed spec fn view(&self) -> Seq<MessageView> {
        message_views(self.history@)
    }
}

impl Session {
    /// Opens a session with an empty history.
    pub fn new() -> (session: Self)
        ensures
            session@ == Seq::<MessageView>::empty(),
    {
        let session = Session { history: Vec::new() };
        proof {
            assert(session@ =~= Seq::<MessageView>::empty());
        }
        session
    }

    /// The number of messages in the history.
    pub fn len(&self) -> (length: usize)
        ensures
            length == self@.len(),
    {
        self.history.len()
    }

    /// The message at the given position, if the position is in range.
    pub fn message_at(&self, index: usize) -> (message: Option<&Message>)
        ensures
            index < self@.len() ==> (message matches Some(found) && found@ == self@[index as int]),
            index >= self@.len() ==> message is None,
    {
        if index < self.history.len() {
            Some(&self.history[index])
        } else {
            None
        }
    }

    /// Starts a turn by appending the user's message to the history. This
    /// is the only history change until the turn's reply is committed, so
    /// an aborted turn leaves the user's message as the last entry.
    pub fn begin_turn(&mut self, user_message: &str)
        ensures
            final(self)@ == history_after_user(old(self)@, user_message@),
    {
        self.history.push(Message { role: Role::User, content: user_message.to_owned() });
        proof {
            assert(self@ =~= history_after_user(old(self)@, user_message@));
        }
    }

    /// Commits a turn by appending the assembled reply as an assistant
    /// message.
    pub fn commit_turn(&mut self, reply: &str)
        ensures
            final(self)@ == history_after_reply(old(self)@, reply@),
    {
        self.history.push(Message { role: Role::Assistant, content: reply.to_owned() });
        proof {
            assert(self@ =~= history_after_reply(old(self)@, reply@));
        }
    }

    /// Finishes a turn: assembles the assistant reply from the response
    /// segments and the tool outcomes, commits it to the history, and
    /// returns it to the caller.
    pub fn complete_turn(&mut self, segments: &Vec<Segment>, outcomes: &Vec<ToolOutcome>) -> (reply:
        String)
        requires
            outcomes@.len() == tool_count(segment_views(segments@)),
        ensures
            reply@ == reply_spec(segment_views(segments@), outcome_views(outcomes@)),
            final(self)@ == history_after_reply(old(self)@, reply@),
    {
        let reply = assemble_reply(segments, outcomes);
        self.commit_turn(reply.as_str());
        reply
    }

    /// Builds the provider request for the current turn: the configured
    /// model, the full history, the translated tool catalog, and automatic
    /// tool selection.
    pub fn build_request(&self, model: &str, tools: Vec<ModelToolSchema>) -> (request:
        ModelRequest)
        ensures
            request.model@ == model@,
            request.max_tokens == 1024,
            message_views(request.messages@) == self@,
            request.tools == tools,
            request.tool_choice@ == "auto"@,
    {
        let mut messages: Vec<Message> = Vec::new();
        let mut i: usize = 0;
        while i < self.history.len()
            invariant
                i <= self.history@.len(),
                messages@.len() == i,
                forall|j: int| 0 <= j < i ==> messages@[j]@ == self.history@[j]@,
            decreases self.history@.len() - i,
        {
            messages.push(self.history[i].clone());
            i = i + 1;
        }
        proof {
            assert(message_views(messages@) =~= self@);
        }
        ModelRequest {
            model: model.to_owned(),
            max_tokens: 1024,
            messages,
            tools,
            tool_choice: "auto".to_owned(),
        }
    }
}

/// The specification-level value of a [`Segment`].
pub ghost enum SegmentView {
    Text { text: Seq<char> },
    ToolUse { id: Seq<char>, name: Seq<char>, input: Seq<ArgumentView> },
}

/// One segment of a model response: verbatim text, or one tool call the
/// model requests.
#[derive(Debug)]
pub enum Segment {
    Text { text: String },
    ToolUse { id: String, name: String, input: Vec<Argument> },
}

impl View for Segment {
    type V = SegmentView;

    open spec fn view(&self) -> SegmentView {
        match self {
            Segment::Text { text } => SegmentView::Text { text: text@ },
            Segment::ToolUse { id, name, input } => SegmentView::ToolUse {
                id: id@,
                name: name@,
                input: argument_views(input@),
            },
        }
    }
}

/// The views of a sequence of segments.
pub open spec fn segment_views(segments: Seq<Segment>) -> Seq<SegmentView> {
    Seq::new(segments.len(), |i: int| segments[i]@)
}

/// The specification-level value of a [`ToolOutcome`].
pub ghost enum ToolOutcomeView {
    Success { text: Seq<char> },
    Failure { message: Seq<char> },
}

/// What one tool invocation came to: the rendered result, or the message of
/// the failure. Either way the outcome is folded into the reply; a tool
/// failure does not abort the turn.
#[derive(Debug)]
pub enum ToolOutcome {
    Success { text: String },
    Failure { message: String },
}

impl View for ToolOutcome {
    type V = ToolOutcomeView;

    open spec fn view(&self) -> ToolOutcomeView {
        match self {
            ToolOutcome::Success { text } => ToolOutcomeView::Success { text: text@ },
            ToolOutcome::Failure { message } => ToolOutcomeView::Failure { message: message@ },
        }
    }
}

/// The views of a sequence of tool outcomes.
pub open spec fn outcome_views(outcomes: Seq<ToolOutcome>) -> Seq<ToolOutcomeView> {
    Seq::new(outcomes.len(), |i: int| outcomes[i]@)
}

/// The number of tool-call segments at or after position `from`.
pub open spec fn tool_count_from(segments: Seq<SegmentView>, from: int) -> nat
    decreases segments.len() - from,
{
    if from < 0 || from >= segments.len() {
        0
    } else {
        (match segments[from] {
            SegmentView::ToolUse { .. } => 1 as nat,
            SegmentView::Text { .. } => 0 as nat,
        }) + tool_count_from(segments, from + 1)
    }
}

/// The number of tool-call segments of a response.
pub open spec fn tool_count(segments: Seq<SegmentView>) -> nat {
    tool_count_from(segments, 0)
}

/// How one tool outcome appears in the reply, separated from what precedes
/// it: the rendered result, or the invocation error with the tool's name.
pub open spec fn outcome_text(name: Seq<char>, outcome: ToolOutcomeView) -> Seq<char> {
    match outcome {
        ToolOutcomeView::Success { text } => "\n\nCalculation result: "@ + text,
        ToolOutcomeView::Failure { message } => "\n\nError calling tool "@ + name + ": "@
            + message,
    }
}

/// The reply assembled from the segments at or after `from`, consuming tool
/// outcomes from position `next_outcome` on: text segments verbatim, each
/// tool call as its outcome's rendering, in response order.
pub open spec fn reply_from(
    segments: Seq<SegmentView>,
    outcomes: Seq<ToolOutcomeView>,
    from: int,
    next_outcome: int,
) -> Seq<char>
    decreases segments.len() - from,
{
    if from < 0 || from >= segments.len() {
        Seq::empty()
    } else {
        match segments[from] {
            SegmentView::Text { text } => text + reply_from(
                segments,
                outcomes,
                from + 1,
                next_outcome,
            ),
            SegmentView::ToolUse { name, .. } => outcome_text(name, outcomes[next_outcome])
                + reply_from(segments, outcomes, from + 1, next_outcome + 1),
        }
    }
}

/// The reply assembled from a whole response.
pub open spec fn reply_spec(segments: Seq<SegmentView>, outcomes: Seq<ToolOutcomeView>) -> Seq<
    char,
> {
    reply_from(segments, outcomes, 0, 0)
}

/// In the assembled reply, a text segment precedes the outcome of the tool
/// call that follows it, whatever that outcome is: response order is kept.
pub proof fn lemma_text_precedes_tool_result(
    text: Seq<char>,
    id: Seq<char>,
    name: Seq<char>,
    input: Seq<ArgumentView>,
    outcome: ToolOutcomeView,
)
    ensures
        reply_spec(
            seq![SegmentView::Text { text }, SegmentView::ToolUse { id, name, input }],
            seq![outcome],
        ) == text + outcome_text(name, outcome),
{
    let segments = seq![SegmentView::Text { text }, SegmentView::ToolUse { id, name, input }];
    let outcomes = seq![outcome];
    assert(reply_from(segments, outcomes, 2, 1) =~= Seq::<char>::empty());
    assert(reply_from(segments, outcomes, 1, 0) == outcome_text(name, outcome) + reply_from(
        segments,
        outcomes,
        2,
        1,
    ));
    assert(outcome_text(name, outcome) + Seq::<char>::empty() =~= outcome_text(name, outcome));
    assert(reply_from(segments, outcomes, 0, 0) == text + reply_from(segments, outcomes, 1, 0));
}

/// The specification-level value of a [`ToolCall`].
pub ghost struct ToolCallView {
    pub id: Seq<char>,
    pub name: Seq<char>,
    pub input: Seq<ArgumentView>,
}

/// One tool call the model requested: its call id, the tool's name, and the
/// decoded arguments.
#[derive(Debug)]
pub struct ToolCall {
    pub id: String,
    pub name: String,
    pub input: Vec<Argument>,
}

impl View for ToolCall {
    type V = ToolCallView;

    open spec fn view(&self) -> ToolCallView {
        ToolCallView { id: self.id@, name: self.name@, input: argument_views(self.input@) }
    }
}

/// The views of a sequence of tool calls.
pub open spec fn call_views(calls: Seq<ToolCall>) -> Seq<ToolCallView> {
    Seq::new(calls.len(), |i: int| calls[i]@)
}

/// The tool calls among the segments at or after `from`, in response order.
pub open spec fn tool_calls_from(segments: Seq<SegmentView>, from: int) -> Seq<ToolCallView>
    decreases segments.len() - from,
{
    if from < 0 || from >= segments.len() {
        Seq::empty()
    } else {
        match segments[from] {
            SegmentView::Text { .. } => tool_calls_from(segments, from + 1),
            SegmentView::ToolUse { id, name, input } => seq![ToolCallView { id, name, input }]
                + tool_calls_from(segments, from + 1),
        }
    }
}

/// Collects the tool calls of a response, in response order, so the host
/// can invoke them one by one.
pub fn tool_calls(segments: &Vec<Segment>) -> (calls: Vec<ToolCall>)
    ensures
        call_views(calls@) == tool_calls_from(segment_views(segments@), 0),
{
    let ghost views = segment_views(segments@);
    let mut calls: Vec<ToolCall> = Vec::new();
    let mut i: usize = 0;
    while i < segments.len()
        invariant
            i <= segments@.len(),
            views == segment_views(segments@),
            tool_calls_from(views, 0) =~= call_views(calls@) + tool_calls_from(views, i as int),
        decreases segments@.len() - i,
    {
        match &segments[i] {
            Segment::Text { .. } => {},
            Segment::ToolUse { id, name, input } => {
                let call = ToolCall {
                    id: id.clone(),
                    name: name.clone(),
                    input: clone_arguments(input),
                };
                proof {
                    assert(call@ == (ToolCallView {
                        id: id@,
                        name: name@,
                        input: argument_views(input@),
                    }));
                    assert(tool_calls_from(views, i as int) == seq![call@] + tool_calls_from(
                        views,
                        i as int + 1,
                    ));
                    assert(call_views(calls@.push(call)) =~= call_views(calls@) + seq![call@]);
                    assert((call_views(calls@) + seq![call@]) + tool_calls_from(views, i as int + 1)
                        =~= call_views(calls@) + (seq![call@] + tool_calls_from(
                        views,
                        i as int + 1,
                    )));
                }
                calls.push(call);
            },
        }
        i = i + 1;
    }
    proof {
        assert(tool_calls_from(views, i as int) =~= Seq::<ToolCallView>::empty());
        assert(call_views(calls@) + Seq::<ToolCallView>::empty() =~= call_views(calls@));
    }
    calls
}

/// Assembles the assistant reply from the response segments and the
/// outcomes of the tool calls, one outcome per tool-call segment, in
/// response order: text segments verbatim, each tool outcome rendered with
/// its separator, whether the invocation succeeded or failed.
pub fn assemble_reply(segments: &Vec<Segment>, outcomes: &Vec<ToolOutcome>) -> (reply: String)
    requires
        outcomes@.len() == tool_count(segment_views(segments@)),
    ensures
        reply@ == reply_spec(segment_views(segments@), outcome_views(outcomes@)),
{
    let ghost sv = segment_views(segments@);
    let ghost ov = outcome_views(outcomes@);
    let outcomes_len = outcomes.len();
    let mut reply = String::new();
    let mut i: usize = 0;
    let mut j: usize = 0;
    while i < segments.len()
        invariant
            i <= segments@.len(),
            j <= outcomes_len,
            outcomes_len == ov.len(),
            sv == segment_views(segments@),
            ov == outcome_views(outcomes@),
            j + tool_count_from(sv, i as int) == ov.len(),
            reply_from(sv, ov, 0, 0) == reply@ + reply_from(sv, ov, i as int, j as int),
        decreases segments@.len() - i,
    {
        match &segments[i] {
            Segment::Text { text } => {
                proof {
                    assert(reply_from(sv, ov, i as int, j as int) == text@ + reply_from(
                        sv,
                        ov,
                        i as int + 1,
                        j as int,
                    ));
                    assert(reply@ + (text@ + reply_from(sv, ov, i as int + 1, j as int)) =~= (
                    reply@ + text@) + reply_from(sv, ov, i as int + 1, j as int));
                }
                reply.append(text.as_str());
            },
            Segment::ToolUse { name, .. } => {
                proof {
                    assert(tool_count_from(sv, i as int) == 1 + tool_count_from(
                        sv,
                        i as int + 1,
                    ));
                    assert(reply_from(sv, ov, i as int, j as int) == outcome_text(
                        name@,
                        ov[j as int],
                    ) + reply_from(sv, ov, i as int + 1, j as int + 1));
                    assert(reply@ + (outcome_text(name@, ov[j as int]) + reply_from(
                        sv,
                        ov,
                        i as int + 1,
                        j as int + 1,
                    )) =~= (reply@ + outcome_text(name@, ov[j as int])) + reply_from(
                        sv,
                        ov,
                        i as int + 1,
                        j as int + 1,
                    ));
                }
                match &outcomes[j] {
                    ToolOutcome::Success { text } => {
                        reply.append("\n\nCalculation result: ");
                        reply.append(text.as_str());
                        proof {
                            assert(outcome_text(name@, ov[j as int]) == "\n\nCalculation result: "@
                                + text@);
                        }
                    },
                    ToolOutcome::Failure { message } => {
                        reply.append("\n\nError calling tool ");
                        reply.append(name.as_str());
                        reply.append(": ");
                        reply.append(message.as_str());
                        proof {
                            assert(outcome_text(name@, ov[j as int]) == (("\n\nError calling tool "@
                                + name@) + ": "@) + message@);
                        }
                    },
                }
                j = j + 1;
            },
        }
        i = i + 1;
    }
    proof {
        assert(reply_from(sv, ov, i as int, j as int) =~= Seq::<char>::empty());
        assert(reply@ + Seq::<char>::empty() =~= reply@);
    }
    reply
}

/// Renders what a tool invocation's response means to the conversation:
/// only the first content fragment is significant, and an empty fragment
/// list is a valid no-result outcome, not an error.
pub fn render_tool_response(content: &Vec<String>) -> (text: String)
    ensures
        content@.len() > 0 ==> text@ == content@[0]@,
        content@.len() == 0 ==> text@ == "No result returned from tool"@,
{
    if content.len() > 0 {
        content[0].clone()
    } else {
        "No result returned from tool".to_owned()
    }
}

/// What the read-line loop does with one line of user input.
#[derive(Clone, Copy, Debug, PartialEq, Eq, Structural)]
pub enum PromptAction {
    /// An empty line: prompt again.
    Skip,
    /// A quit command: end the session.
    Quit,
    /// Anything else: run a conversation turn on the line.
    Respond,
}

/// Decides what to do with one (already trimmed) line of user input.
pub fn classify_prompt(input: &str) -> (action: PromptAction)
    ensures
        input@.len() == 0 ==> action == PromptAction::Skip,
        input@.len() > 0 && (input@ == "quit"@ || input@ == "exit"@) ==> action
            == PromptAction::Quit,
        input@.len() > 0 && input@ != "quit"@ && input@ != "exit"@ ==> action
            == PromptAction::Respond,
{
    if input.is_empty() {
        PromptAction::Skip
    } else if str_eq(input, "quit") || str_eq(input, "exit") {
        PromptAction::Quit
    } else {
        PromptAction::Respond
    }
}

} // verus!
