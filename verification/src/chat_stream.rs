//! The decisions of the streamed reply: how decoded frames become chat events.

use vstd::prelude::*;
use crate::text::{owned, push_str};
use crate::error::{ApiError, KiroError, KiroErrorView, spec_error_for_status};
use crate::event_stream::{AwsEvent, AwsEventView, EventStreamError, opt_view};
use crate::json::{json_parses, json_text_is_valid};
use crate::tools::ToolUseEvent;

verus! {

/// One event of the assistant's reply.
#[derive(Debug)]
pub enum ChatEvent {
    TextDelta { content: String },
    /// A complete tool call; `input` is the JSON text of its input (`{}`
    /// when the streamed pieces do not form JSON).
    ToolUse { id: String, name: String, input: String, stop: bool },
    Metadata { conversation_id: String, message_id: String },
    Error { message: String, code: Option<String> },
    End,
}

/// The mathematical content of a [`ChatEvent`].
pub enum ChatEventView {
    TextDelta { content: Seq<char> },
    ToolUse { id: Seq<char>, name: Seq<char>, input: Seq<char>, stop: bool },
    Metadata { conversation_id: Seq<char>, message_id: Seq<char> },
    Error { message: Seq<char>, code: Option<Seq<char>> },
    End,
}

impl View for ChatEvent {
    type V = ChatEventView;

    open spec fn view(&self) -> ChatEventView {
        match self {
            ChatEvent::TextDelta { content } => ChatEventView::TextDelta { content: content@ },
            ChatEvent::ToolUse { id, name, input, stop } => ChatEventView::ToolUse {
                id: id@,
                name: name@,
                input: input@,
                stop: *stop,
            },
            ChatEvent::Metadata { conversation_id, message_id } => ChatEventView::Metadata {
                conversation_id: conversation_id@,
                message_id: message_id@,
            },
            ChatEvent::Error { message, code } => ChatEventView::Error {
                message: message@,
                code: opt_view(*code),
            },
            ChatEvent::End => ChatEventView::End,
        }
    }
}

/// Payload of an `assistantResponseEvent` frame.
#[derive(Debug, Clone)]
pub struct AssistantResponseEventPayload {
    pub content: Option<String>,
}

/// Payload of a `messageMetadataEvent` frame.
#[derive(Debug, Clone)]
pub struct MessageMetadataPayload {
    pub conversation_id: Option<String>,
    pub utterance_id: Option<String>,
}

/// Payload of an `initial-response` frame.
#[derive(Debug, Clone)]
pub struct InitialResponsePayload {
    pub conversation_id: Option<String>,
}

/// Payload of an exception frame.
#[derive(Debug, Clone)]
pub struct ExceptionPayload {
    pub message: Option<String>,
}

/// Which payload a frame is read for.
#[derive(Debug, Clone, Copy, PartialEq, Eq, Structural)]
pub enum PayloadKind {
    Exception,
    InitialResponse,
    AssistantResponse,
    ToolUse,
    MessageMetadata,
    /// The frame is not acted on.
    Ignored,
}

/// The payload of a frame, read as its [`PayloadKind`] says; `None` when
/// the payload does not have that form.
#[derive(Debug)]
pub enum EventPayload {
    Exception(Option<ExceptionPayload>),
    InitialResponse(Option<InitialResponsePayload>),
    AssistantResponse(Option<AssistantResponseEventPayload>),
    ToolUse(Option<ToolUseEvent>),
    MessageMetadata(Option<MessageMetadataPayload>),
    Ignored,
}

/// Which payload a frame is read for: exceptions by their payload; events
/// by their `:event-type`; anything else is ignored.
pub open spec fn spec_payload_kind(e: AwsEventView) -> PayloadKind {
    if e.message_type == "exception"@ {
        PayloadKind::Exception
    } else if e.message_type != "event"@ {
        PayloadKind::Ignored
    } else {
        match e.event_type {
            None => PayloadKind::Ignored,
            Some(t) => if t == "initial-response"@ {
                PayloadKind::InitialResponse
            } else if t == "assistantResponseEvent"@ {
                PayloadKind::AssistantResponse
            } else if t == "toolUseEvent"@ {
                PayloadKind::ToolUse
            } else if t == "messageMetadataEvent"@ {
                PayloadKind::MessageMetadata
            } else {
                PayloadKind::Ignored
            },
        }
    }
}

/// Which payload the frame is read for.
pub fn payload_kind(aws_event: &AwsEvent) -> (k: PayloadKind)
    ensures
        k == spec_payload_kind(aws_event@),
{
    if aws_event.is_exception() {
        return PayloadKind::Exception;
    }
    if !aws_event.is_event() {
        return PayloadKind::Ignored;
    }
    match &aws_event.event_type {
        None => PayloadKind::Ignored,
        Some(t) => {
            if *t == owned("initial-response") {
                PayloadKind::InitialResponse
            } else if *t == owned("assistantResponseEvent") {
                PayloadKind::AssistantResponse
            } else if *t == owned("toolUseEvent") {
                PayloadKind::ToolUse
            } else if *t == owned("messageMetadataEvent") {
                PayloadKind::MessageMetadata
            } else {
                PayloadKind::Ignored
            }
        },
    }
}

/// The error that an exception frame of type `exception_type` with message
/// `message` reports.
pub open spec fn spec_exception_error(exception_type: Option<Seq<char>>, message: Seq<char>) -> KiroErrorView {
    match exception_type {
        Some(t) => if t == "ThrottlingException"@ {
            KiroErrorView::Throttling { message, retry_after: None }
        } else if t == "ValidationException"@ {
            KiroErrorView::Validation { message }
        } else if t == "AccessDeniedException"@ {
            KiroErrorView::AccessDenied { message }
        } else if t == "InternalServerException"@ {
            KiroErrorView::InternalServerError
        } else if t == "ServiceUnavailableException"@ {
            KiroErrorView::ServiceUnavailable
        } else {
            KiroErrorView::Network(message)
        },
        None => KiroErrorView::Network(message),
    }
}

/// A tool call being streamed: its name and the input pieces so far.
pub struct PendingToolUse {
    id: String,
    name: String,
    input_parts: Vec<String>,
}

/// The mathematical content of a [`PendingToolUse`].
pub struct PendingToolUseView {
    pub id: Seq<char>,
    pub name: Seq<char>,
    pub parts: Seq<Seq<char>>,
}

/// The pieces, concatenated.
pub open spec fn concat_parts(parts: Seq<Seq<char>>) -> Seq<char>
    decreases parts.len(),
{
    if parts.len() == 0 {
        Seq::empty()
    } else {
        concat_parts(parts.drop_last()) + parts.last()
    }
}

/// The input of a complete tool call: its pieces when they form JSON, `{}` otherwise.
pub open spec fn tool_input_text(full: Seq<char>) -> Seq<char> {
    if json_parses(full) {
        full
    } else {
        "{}"@
    }
}

/// The state of a streamed reply.
pub struct ChatStreamView {
    /// Outcomes not yet handed out; the last is handed out first.
    pub pending: Seq<Result<ChatEventView, KiroErrorView>>,
    pub finished: bool,
    pub conversation_id: Option<Seq<char>>,
    pub tool_uses: Seq<PendingToolUseView>,
}

/// A tool call with id `id` is being streamed.
pub open spec fn has_tool(tools: Seq<PendingToolUseView>, id: Seq<char>) -> bool {
    exists|i: int| 0 <= i < tools.len() && #[trigger] tools[i].id == id
}

/// The place of the tool call with id `id`.
pub open spec fn tool_index(tools: Seq<PendingToolUseView>, id: Seq<char>) -> int {
    choose|i: int| 0 <= i < tools.len() && #[trigger] tools[i].id == id
}

/// No two tool calls being streamed share an id.
pub open spec fn distinct_tool_ids(tools: Seq<PendingToolUseView>) -> bool {
    forall|i: int, j: int|
        0 <= i < tools.len() && 0 <= j < tools.len() && i != j ==> #[trigger] tools[i].id
            != #[trigger] tools[j].id
}

/// The state after a tool-call piece: the call is started if new, the
/// piece's input appended; on the stopping piece the call is complete,
/// handed out and forgotten.
pub open spec fn spec_after_tool_use(
    st: ChatStreamView,
    id: Seq<char>,
    name: Seq<char>,
    input: Option<Seq<char>>,
    stop: bool,
) -> ChatStreamView {
    let tools = if has_tool(st.tool_uses, id) {
        st.tool_uses
    } else {
        st.tool_uses.push(PendingToolUseView { id, name, parts: Seq::empty() })
    };
    let i = tool_index(tools, id);
    let parts = match input {
        Some(s) => tools[i].parts.push(s),
        None => tools[i].parts,
    };
    if stop {
        ChatStreamView {
            pending: st.pending.push(
                Ok(
                    ChatEventView::ToolUse {
                        id,
                        name: tools[i].name,
                        input: tool_input_text(concat_parts(parts)),
                        stop: true,
                    },
                ),
            ),
            finished: st.finished,
            conversation_id: st.conversation_id,
            tool_uses: tools.remove(i),
        }
    } else {
        ChatStreamView {
            pending: st.pending,
            finished: st.finished,
            conversation_id: st.conversation_id,
            tool_uses: tools.update(i, PendingToolUseView { id: tools[i].id, name: tools[i].name, parts }),
        }
    }
}

/// Pushes an outcome.
pub open spec fn with_pending(st: ChatStreamView, o: Result<ChatEventView, KiroErrorView>) -> ChatStreamView {
    ChatStreamView {
        pending: st.pending.push(o),
        finished: st.finished,
        conversation_id: st.conversation_id,
        tool_uses: st.tool_uses,
    }
}

/// The message of an exception frame's payload (`Unknown error` when none).
pub open spec fn exception_message(payload: Option<ExceptionPayload>) -> Seq<char> {
    match payload {
        Some(p) => match p.message {
            Some(m) => m@,
            None => "Unknown error"@,
        },
        None => "Unknown error"@,
    }
}

/// The state after an exception frame: the error it reports is handed out.
pub open spec fn spec_after_exception(
    st: ChatStreamView,
    exception_type: Option<Seq<char>>,
    payload: Option<ExceptionPayload>,
) -> ChatStreamView {
    with_pending(st, Err(spec_exception_error(exception_type, exception_message(payload))))
}

/// The state after an `initial-response` frame: a non-empty conversation id
/// is remembered.
pub open spec fn spec_after_initial_response(st: ChatStreamView, payload: Option<InitialResponsePayload>) -> ChatStreamView {
    match payload {
        Some(p) => match p.conversation_id {
            Some(c) => if c@.len() > 0 {
                ChatStreamView {
                    pending: st.pending,
                    finished: st.finished,
                    conversation_id: Some(c@),
                    tool_uses: st.tool_uses,
                }
            } else {
                st
            },
            None => st,
        },
        None => st,
    }
}

/// The state after an `assistantResponseEvent` frame: its text is handed out.
pub open spec fn spec_after_assistant_response(
    st: ChatStreamView,
    payload: Option<AssistantResponseEventPayload>,
) -> ChatStreamView {
    match payload {
        Some(p) => match p.content {
            Some(c) => with_pending(st, Ok(ChatEventView::TextDelta { content: c@ })),
            None => st,
        },
        None => st,
    }
}

/// The state after a `messageMetadataEvent` frame: metadata is handed out,
/// with the frame's conversation id, else the remembered one, else empty.
pub open spec fn spec_after_message_metadata(st: ChatStreamView, payload: Option<MessageMetadataPayload>) -> ChatStreamView {
    match payload {
        Some(p) => with_pending(
            st,
            Ok(
                ChatEventView::Metadata {
                    conversation_id: match p.conversation_id {
                        Some(c) => c@,
                        None => match st.conversation_id {
                            Some(c) => c,
                            None => Seq::empty(),
                        },
                    },
                    message_id: match p.utterance_id {
                        Some(u) => u@,
                        None => Seq::empty(),
                    },
                },
            ),
        ),
        None => st,
    }
}

/// The state after a `toolUseEvent` frame.
pub open spec fn spec_after_tool_use_payload(st: ChatStreamView, payload: Option<ToolUseEvent>) -> ChatStreamView {
    match payload {
        Some(p) => spec_after_tool_use(st, p.tool_use_id@, p.name@, opt_view(p.input), p.stop),
        None => st,
    }
}

/// The state after a frame of the reply and its payload; a payload of
/// another kind than the frame's counts as one that could not be read.
pub open spec fn spec_after_event(st: ChatStreamView, e: AwsEventView, payload: EventPayload) -> ChatStreamView {
    match spec_payload_kind(e) {
        PayloadKind::Exception => spec_after_exception(
            st,
            e.exception_type,
            match payload {
                EventPayload::Exception(p) => p,
                _ => None,
            },
        ),
        PayloadKind::InitialResponse => spec_after_initial_response(
            st,
            match payload {
                EventPayload::InitialResponse(p) => p,
                _ => None,
            },
        ),
        PayloadKind::AssistantResponse => spec_after_assistant_response(
            st,
            match payload {
                EventPayload::AssistantResponse(p) => p,
                _ => None,
            },
        ),
        PayloadKind::ToolUse => spec_after_tool_use_payload(
            st,
            match payload {
                EventPayload::ToolUse(p) => p,
                _ => None,
            },
        ),
        PayloadKind::MessageMetadata => spec_after_message_metadata(
            st,
            match payload {
                EventPayload::MessageMetadata(p) => p,
                _ => None,
            },
        ),
        PayloadKind::Ignored => st,
    }
}

/// The decoding state of a streamed reply: outcomes waiting to be handed
/// out, whether the reply body has ended, the conversation id announced by
/// the service and the tool calls being streamed.
pub struct ChatStreamState {
    pending_events: Vec<Result<ChatEvent, KiroError>>,
    finished: bool,
    conversation_id: Option<String>,
    pending_tool_uses: Vec<PendingToolUse>,
}

/// View of a list of outcomes.
pub open spec fn outcomes_view(v: Seq<Result<ChatEvent, KiroError>>) -> Seq<Result<ChatEventView, KiroErrorView>> {
    v.map_values(
        |r: Result<ChatEvent, KiroError>|
            match r {
                Ok(e) => Ok(e@),
                Err(x) => Err(x@),
            },
    )
}

/// View of a list of tool calls being streamed.
spec fn tools_view(v: Seq<PendingToolUse>) -> Seq<PendingToolUseView> {
    v.map_values(
        |t: PendingToolUse|
            PendingToolUseView { id: t.id@, name: t.name@, parts: t.input_parts@.map_values(|s: String| s@) },
    )
}

impl View for ChatStreamState {
    type V = ChatStreamView;

    closed spec fn view(&self) -> ChatStreamView {
        ChatStreamView {
            pending: outcomes_view(self.pending_events@),
            finished: self.finished,
            conversation_id: opt_view(self.conversation_id),
            tool_uses: tools_view(self.pending_tool_uses@),
        }
    }
}

impl ChatStreamState {
    /// The state is consistent: no two tool calls share an id.
    pub open spec fn wf(&self) -> bool {
        distinct_tool_ids(self@.tool_uses)
    }

    /// A reply that has not started.
    pub fn new() -> (s: Self)
        ensures
            s.wf(),
            s@.pending.len() == 0,
            !s@.finished,
            s@.conversation_id is None,
            s@.tool_uses.len() == 0,
    {
        let s = ChatStreamState {
            pending_events: Vec::new(),
            finished: false,
            conversation_id: None,
            pending_tool_uses: Vec::new(),
        };
        proof {
            assert(outcomes_view(s.pending_events@) =~= Seq::empty());
            assert(tools_view(s.pending_tool_uses@) =~= Seq::empty());
        }
        s
    }

    fn push_outcome(&mut self, o: Result<ChatEvent, KiroError>)
        ensures
            final(self)@ == with_pending(
                old(self)@,
                match o {
                    Ok(e) => Ok(e@),
                    Err(x) => Err(x@),
                },
            ),
    {
        let ghost before = self@;
        self.pending_events.push(o);
        proof {
            assert(self@.pending =~= before.pending.push(
                match o {
                    Ok(e) => Ok(e@),
                    Err(x) => Err(x@),
                },
            ));
        }
    }
}


proof fn lemma_tool_index_unique(tools: Seq<PendingToolUseView>, id: Seq<char>, i: int)
    requires
        distinct_tool_ids(tools),
        0 <= i < tools.len(),
        tools[i].id == id,
    ensures
        has_tool(tools, id),
        tool_index(tools, id) == i,
{
    assert(has_tool(tools, id));
    let j = tool_index(tools, id);
    if j != i {
        assert(tools[i].id != tools[j].id);
    }
}

fn concat_strings(parts: &Vec<String>) -> (r: String)
    ensures
        r@ == concat_parts(parts@.map_values(|s: String| s@)),
{
    let ghost pv = parts@.map_values(|s: String| s@);
    let mut r = String::new();
    let mut i: usize = 0;
    while i < parts.len()
        invariant
            i <= parts@.len(),
            pv == parts@.map_values(|s: String| s@),
            r@ == concat_parts(pv.take(i as int)),
        decreases parts@.len() - i,
    {
        proof {
            assert(pv.take(i + 1).drop_last() =~= pv.take(i as int));
        }
        push_str(&mut r, parts[i].as_str());
        i = i + 1;
    }
    proof {
        assert(pv.take(parts@.len() as int) =~= pv);
    }
    r
}

impl ChatStreamState {
    fn find_tool(&self, id: &String) -> (r: Option<usize>)
        requires
            self.wf(),
        ensures
            match r {
                Some(i) => i < self@.tool_uses.len() && self@.tool_uses[i as int].id == id@
                    && tool_index(self@.tool_uses, id@) == i && has_tool(self@.tool_uses, id@),
                None => !has_tool(self@.tool_uses, id@),
            },
    {
        let mut i: usize = 0;
        while i < self.pending_tool_uses.len()
            invariant
                self.wf(),
                i <= self.pending_tool_uses@.len(),
                forall|j: int| 0 <= j < i ==> #[trigger] self@.tool_uses[j].id != id@,
            decreases self.pending_tool_uses@.len() - i,
        {
            if self.pending_tool_uses[i].id == *id {
                proof {
                    lemma_tool_index_unique(self@.tool_uses, id@, i as int);
                }
                return Some(i);
            }
            i = i + 1;
        }
        None
    }

    /// Handles a tool-call piece: starts the call if its id is new, appends
    /// the piece's input, and on the stopping piece hands out the complete
    /// call and forgets it. Without a payload nothing changes.
    pub fn handle_tool_use(&mut self, payload: Option<ToolUseEvent>)
        requires
            old(self).wf(),
        ensures
            final(self).wf(),
            final(self)@ == spec_after_tool_use_payload(old(self)@, payload),
    {
        let p = match payload {
            Some(p) => p,
            None => return,
        };
        let ghost st = self@;
        let ghost tools1 = if has_tool(st.tool_uses, p.tool_use_id@) {
            st.tool_uses
        } else {
            st.tool_uses.push(PendingToolUseView { id: p.tool_use_id@, name: p.name@, parts: Seq::empty() })
        };
        let idx = match self.find_tool(&p.tool_use_id) {
            Some(i) => i,
            None => {
                self.pending_tool_uses.push(
                    PendingToolUse {
                        id: p.tool_use_id.clone(),
                        name: p.name.clone(),
                        input_parts: Vec::new(),
                    },
                );
                proof {
                    let last = self.pending_tool_uses@[st.tool_uses.len() as int];
                    assert(last.input_parts@.map_values(|s: String| s@) =~= Seq::<Seq<char>>::empty());
                    assert(tools_view(self.pending_tool_uses@)[st.tool_uses.len() as int] == PendingToolUseView { id: p.tool_use_id@, name: p.name@, parts: Seq::empty() });
                    assert(tools_view(self.pending_tool_uses@) =~= tools1);
                    assert(self@.tool_uses[st.tool_uses.len() as int].id == p.tool_use_id@);
                    assert forall|i: int, j: int|
                        0 <= i < tools1.len() && 0 <= j < tools1.len() && i != j implies #[trigger] tools1[i].id
                            != #[trigger] tools1[j].id by {
                        if i == st.tool_uses.len() as int {
                            assert(!has_tool(st.tool_uses, p.tool_use_id@));
                            assert(tools1[j] == st.tool_uses[j]);
                        } else if j == st.tool_uses.len() as int {
                            assert(tools1[i] == st.tool_uses[i]);
                        }
                    }
                    lemma_tool_index_unique(tools1, p.tool_use_id@, st.tool_uses.len() as int);
                }
                self.pending_tool_uses.len() - 1
            },
        };
        assert(tools_view(self.pending_tool_uses@) == tools1);
        assert(tool_index(tools1, p.tool_use_id@) == idx);
        let ghost old_entry = tools1[idx as int];
        let mut entry = self.pending_tool_uses.remove(idx);
        proof {
            assert(tools_view(self.pending_tool_uses@) =~= tools1.remove(idx as int));
        }
        let ghost new_parts = match opt_view(p.input) {
            Some(sv) => old_entry.parts.push(sv),
            None => old_entry.parts,
        };
        match p.input {
            Some(s) => {
                entry.input_parts.push(s);
            },
            None => {},
        }
        proof {
            assert(entry.input_parts@.map_values(|s: String| s@) =~= new_parts);
        }
        if p.stop {
            let full = concat_strings(&entry.input_parts);
            let input = if json_text_is_valid(full.as_str()) {
                full
            } else {
                owned("{}")
            };
            self.push_outcome(
                Ok(ChatEvent::ToolUse { id: p.tool_use_id, name: entry.name, input, stop: true }),
            );
            proof {
                assert forall|i: int, j: int|
                    0 <= i < self@.tool_uses.len() && 0 <= j < self@.tool_uses.len() && i != j implies #[trigger] self@.tool_uses[i].id
                        != #[trigger] self@.tool_uses[j].id by {
                    let ii = if i < idx { i } else { i + 1 };
                    let jj = if j < idx { j } else { j + 1 };
                    assert(self@.tool_uses[i] == tools1[ii]);
                    assert(self@.tool_uses[j] == tools1[jj]);
                }
            }
        } else {
            self.pending_tool_uses.insert(idx, entry);
            proof {
                let e2 = PendingToolUseView { id: old_entry.id, name: old_entry.name, parts: new_parts };
                assert(tools_view(self.pending_tool_uses@) =~= tools1.update(idx as int, e2));
                assert forall|i: int, j: int|
                    0 <= i < self@.tool_uses.len() && 0 <= j < self@.tool_uses.len() && i != j implies #[trigger] self@.tool_uses[i].id
                        != #[trigger] self@.tool_uses[j].id by {
                    assert(self@.tool_uses[i].id == tools1[i].id);
                    assert(self@.tool_uses[j].id == tools1[j].id);
                }
            }
        }
    }
}


/// The error that an exception frame reports.
fn exception_error(exception_type: &Option<String>, message: String) -> (r: KiroError)
    ensures
        r@ == spec_exception_error(opt_view(*exception_type), message@),
{
    match exception_type {
        Some(t) => {
            if *t == owned("ThrottlingException") {
                KiroError::Api(ApiError::Throttling { message, retry_after: None })
            } else if *t == owned("ValidationException") {
                KiroError::Api(ApiError::Validation { message })
            } else if *t == owned("AccessDeniedException") {
                KiroError::Api(ApiError::AccessDenied { message })
            } else if *t == owned("InternalServerException") {
                KiroError::Api(ApiError::InternalServerError)
            } else if *t == owned("ServiceUnavailableException") {
                KiroError::Api(ApiError::ServiceUnavailable)
            } else {
                KiroError::Network(message)
            }
        },
        None => KiroError::Network(message),
    }
}

/// The state after the frames `evs`, in order; a frame that could not be
/// decoded is handed out as an error with its message.
pub open spec fn spec_after_events(
    st: ChatStreamView,
    evs: Seq<Result<(AwsEvent, EventPayload), EventStreamError>>,
) -> ChatStreamView
    decreases evs.len(),
{
    if evs.len() == 0 {
        st
    } else {
        let st1 = spec_after_events(st, evs.drop_last());
        match evs.last() {
            Ok((e, p)) => spec_after_event(st1, e@, p),
            Err(x) => with_pending(st1, Err(KiroErrorView::Other(x.spec_message()))),
        }
    }
}

/// What polling a reply yields.
#[derive(Debug)]
pub enum StreamPoll {
    /// An outcome to hand out.
    Ready(Result<ChatEvent, KiroError>),
    /// The reply is over.
    Finished,
    /// More of the reply body must be read.
    NeedData,
}

impl ChatStreamState {
    /// Handles an exception frame of type `exception_type`: hands out the
    /// error it reports, with the payload's message (`Unknown error` when
    /// there is none).
    pub fn handle_exception(&mut self, exception_type: Option<String>, payload: Option<ExceptionPayload>)
        ensures
            final(self)@ == spec_after_exception(old(self)@, opt_view(exception_type), payload),
    {
        let message = match payload {
            Some(p) => match p.message {
                Some(m) => m,
                None => owned("Unknown error"),
            },
            None => owned("Unknown error"),
        };
        let e = exception_error(&exception_type, message);
        self.push_outcome(Err(e));
    }

    /// Handles an `initial-response` frame: remembers a non-empty
    /// conversation id.
    pub fn handle_initial_response(&mut self, payload: Option<InitialResponsePayload>)
        ensures
            final(self)@ == spec_after_initial_response(old(self)@, payload),
    {
        if let Some(p) = payload {
            if let Some(c) = p.conversation_id {
                if !c.as_str().is_empty() {
                    self.conversation_id = Some(c);
                }
            }
        }
    }
}


impl ChatStreamState {
    /// Handles an `assistantResponseEvent` frame: hands out its text.
    pub fn handle_assistant_response(&mut self, payload: Option<AssistantResponseEventPayload>)
        ensures
            final(self)@ == spec_after_assistant_response(old(self)@, payload),
    {
        if let Some(p) = payload {
            if let Some(content) = p.content {
                self.push_outcome(Ok(ChatEvent::TextDelta { content }));
            }
        }
    }

    /// Handles a `messageMetadataEvent` frame: hands out its metadata.
    pub fn handle_message_metadata(&mut self, payload: Option<MessageMetadataPayload>)
        ensures
            final(self)@ == spec_after_message_metadata(old(self)@, payload),
    {
        if let Some(p) = payload {
            let conversation_id = match p.conversation_id {
                Some(c) => c,
                None => match &self.conversation_id {
                    Some(c) => c.clone(),
                    None => String::new(),
                },
            };
            let message_id = match p.utterance_id {
                Some(u) => u,
                None => String::new(),
            };
            self.push_outcome(Ok(ChatEvent::Metadata { conversation_id, message_id }));
        }
    }

    /// Handles a decoded frame of the reply with its payload, read as
    /// [`payload_kind`] says.
    pub fn handle_aws_event(&mut self, aws_event: AwsEvent, payload: EventPayload)
        requires
            old(self).wf(),
        ensures
            final(self).wf(),
            final(self)@ == spec_after_event(old(self)@, aws_event@, payload),
    {
        match payload_kind(&aws_event) {
            PayloadKind::Exception => {
                let p = match payload {
                    EventPayload::Exception(p) => p,
                    _ => None,
                };
                self.handle_exception(aws_event.exception_type, p);
            },
            PayloadKind::InitialResponse => {
                let p = match payload {
                    EventPayload::InitialResponse(p) => p,
                    _ => None,
                };
                self.handle_initial_response(p);
            },
            PayloadKind::AssistantResponse => {
                let p = match payload {
                    EventPayload::AssistantResponse(p) => p,
                    _ => None,
                };
                self.handle_assistant_response(p);
            },
            PayloadKind::ToolUse => {
                let p = match payload {
                    EventPayload::ToolUse(p) => p,
                    _ => None,
                };
                self.handle_tool_use(p);
            },
            PayloadKind::MessageMetadata => {
                let p = match payload {
                    EventPayload::MessageMetadata(p) => p,
                    _ => None,
                };
                self.handle_message_metadata(p);
            },
            PayloadKind::Ignored => {},
        }
    }

    /// Handles the frames cut from one read of the reply body, in order.
    pub fn process_aws_events(&mut self, events: Vec<Result<(AwsEvent, EventPayload), EventStreamError>>)
        requires
            old(self).wf(),
        ensures
            final(self).wf(),
            final(self)@ == spec_after_events(old(self)@, events@),
    {
        let ghost all = events@;
        let total = events.len();
        let mut rest = events;
        let mut k: usize = 0;
        while rest.len() > 0
            invariant
                self.wf(),
                all.len() == total,
                k <= all.len(),
                rest@ == all.skip(k as int),
                self@ == spec_after_events(old(self)@, all.take(k as int)),
            decreases rest@.len(),
        {
            let item = rest.remove(0);
            proof {
                assert(all.take(k + 1).drop_last() =~= all.take(k as int));
                assert(all.take(k + 1).last() == item);
                assert(rest@ =~= all.skip(k + 1));
            }
            match item {
                Ok((event, payload)) => {
                    self.handle_aws_event(event, payload);
                },
                Err(e) => {
                    self.push_outcome(Err(KiroError::Other(e.message())));
                },
            }
            k = k + 1;
        }
        proof {
            assert(all.take(k as int) =~= all);
        }
    }

    /// The next outcome to hand out, if any; else whether the reply is over.
    pub fn poll_pending(&mut self) -> (r: StreamPoll)
        requires
            old(self).wf(),
        ensures
            final(self).wf(),
            old(self)@.pending.len() > 0 ==> (r matches StreamPoll::Ready(o) && match o {
                Ok(e) => old(self)@.pending.last() == Ok::<ChatEventView, KiroErrorView>(e@),
                Err(x) => old(self)@.pending.last() == Err::<ChatEventView, KiroErrorView>(x@),
            }) && final(self)@.pending == old(self)@.pending.drop_last()
                && final(self)@.finished == old(self)@.finished
                && final(self)@.conversation_id == old(self)@.conversation_id
                && final(self)@.tool_uses == old(self)@.tool_uses,
            old(self)@.pending.len() == 0 ==> final(self)@ == old(self)@ && if old(self)@.finished {
                r is Finished
            } else {
                r is NeedData
            },
    {
        let ghost before = self@;
        match self.pending_events.pop() {
            Some(o) => {
                proof {
                    assert(self@.pending =~= before.pending.drop_last());
                }
                StreamPoll::Ready(o)
            },
            None => {
                if self.finished {
                    StreamPoll::Finished
                } else {
                    StreamPoll::NeedData
                }
            },
        }
    }

    /// The reply body has ended: the reply is over and its end is handed out.
    pub fn end_of_body(&mut self) -> (r: Result<ChatEvent, KiroError>)
        ensures
            final(self)@.finished,
            final(self)@.pending == old(self)@.pending,
            final(self)@.conversation_id == old(self)@.conversation_id,
            final(self)@.tool_uses == old(self)@.tool_uses,
            r matches Ok(ChatEvent::End),
    {
        self.finished = true;
        Ok(ChatEvent::End)
    }

    /// Reading the reply body failed with `message`: the reply is over and
    /// a network error is handed out.
    pub fn read_failed(&mut self, message: String) -> (r: Result<ChatEvent, KiroError>)
        ensures
            final(self)@.finished,
            final(self)@.pending == old(self)@.pending,
            final(self)@.conversation_id == old(self)@.conversation_id,
            final(self)@.tool_uses == old(self)@.tool_uses,
            r matches Err(KiroError::Network(m)) && m == message,
    {
        self.finished = true;
        Err(KiroError::Network(message))
    }

    /// Handles the frames cut from one read of the reply body and hands out
    /// the first outcome they produced; the others wait, to be handed out in
    /// the order they were produced. `None` when the frames produced nothing.
    pub fn receive(&mut self, events: Vec<Result<(AwsEvent, EventPayload), EventStreamError>>) -> (r: Option<Result<ChatEvent, KiroError>>)
        requires
            old(self).wf(),
            old(self)@.pending.len() == 0,
        ensures
            final(self).wf(),
            ({
                let produced = spec_after_events(old(self)@, events@).pending;
                &&& produced.len() == 0 ==> r is None && final(self)@.pending.len() == 0
                &&& produced.len() > 0 ==> (r matches Some(o) && match o {
                    Ok(e) => produced[0] == Ok::<ChatEventView, KiroErrorView>(e@),
                    Err(x) => produced[0] == Err::<ChatEventView, KiroErrorView>(x@),
                }) && final(self)@.pending.reverse() == produced.drop_first()
            }),
            final(self)@.finished == spec_after_events(old(self)@, events@).finished,
            final(self)@.conversation_id == spec_after_events(old(self)@, events@).conversation_id,
            final(self)@.tool_uses == spec_after_events(old(self)@, events@).tool_uses,
    {
        self.process_aws_events(events);
        let ghost produced = self@.pending;
        let mut pending: Vec<Result<ChatEvent, KiroError>> = Vec::new();
        std::mem::swap(&mut pending, &mut self.pending_events);
        self.pending_events = reverse_outcomes(pending);
        proof {
            assert(self@.pending =~= produced.reverse());
            if produced.len() > 0 {
                assert(produced.reverse().drop_last().reverse() =~= produced.drop_first());
            }
        }
        let ghost full = self.pending_events@;
        let r = self.pending_events.pop();
        proof {
            if produced.len() > 0 {
                assert(outcomes_view(full)[full.len() - 1] == produced[0]);
                assert(r == Some(full[full.len() - 1]));
                assert(self@.pending =~= produced.reverse().drop_last());
                assert(self@.pending.reverse() =~= produced.drop_first());
            }
        }
        r
    }
}

fn reverse_outcomes(v: Vec<Result<ChatEvent, KiroError>>) -> (r: Vec<Result<ChatEvent, KiroError>>)
    ensures
        outcomes_view(r@) == outcomes_view(v@).reverse(),
{
    let ghost orig = outcomes_view(v@);
    let ghost n = v@.len();
    let mut rest = v;
    let mut reversed: Vec<Result<ChatEvent, KiroError>> = Vec::new();
    while rest.len() > 0
        invariant
            rest@.len() <= n,
            orig.len() == n,
            outcomes_view(rest@) == orig.take(rest@.len() as int),
            reversed@.len() == n - rest@.len(),
            forall|i: int| 0 <= i < reversed@.len() ==> #[trigger] outcomes_view(reversed@)[i] == orig[n - 1 - i],
        decreases rest@.len(),
    {
        let ghost m = rest@.len();
        let ghost before = rest@;
        let ghost before_rev = reversed@;
        let o = rest.pop().unwrap();
        reversed.push(o);
        proof {
            assert(o == before[m - 1]);
            assert(outcomes_view(before)[m - 1] == orig.take(m as int)[m - 1]);
            assert(outcomes_view(rest@) =~= orig.take(m - 1));
            assert(reversed@ =~= before_rev.push(o));
            assert(outcomes_view(reversed@)[n - m] == outcomes_view(before)[m - 1]);
            assert forall|i: int| 0 <= i < reversed@.len() implies #[trigger] outcomes_view(reversed@)[i] == orig[n - 1 - i] by {
                if i < n - m {
                    assert(outcomes_view(reversed@)[i] == outcomes_view(before_rev)[i]);
                }
            }
        }
    }
    proof {
        assert(outcomes_view(reversed@) =~= orig.reverse());
    }
    reversed
}


/// The state after the pieces of one tool call, in order; a piece is its
/// name, its input (if a string) and whether it stops the call.
pub open spec fn spec_after_tool_pieces(
    st: ChatStreamView,
    id: Seq<char>,
    pieces: Seq<(Seq<char>, Option<Seq<char>>, bool)>,
) -> ChatStreamView
    decreases pieces.len(),
{
    if pieces.len() == 0 {
        st
    } else {
        spec_after_tool_use(
            spec_after_tool_pieces(st, id, pieces.drop_last()),
            id,
            pieces.last().0,
            pieces.last().1,
            pieces.last().2,
        )
    }
}

/// The inputs the pieces carry, in order.
pub open spec fn piece_inputs(pieces: Seq<(Seq<char>, Option<Seq<char>>, bool)>) -> Seq<Seq<char>>
    decreases pieces.len(),
{
    if pieces.len() == 0 {
        Seq::empty()
    } else {
        match pieces.last().1 {
            Some(s) => piece_inputs(pieces.drop_last()).push(s),
            None => piece_inputs(pieces.drop_last()),
        }
    }
}

proof fn lemma_tool_pieces_open(
    st: ChatStreamView,
    id: Seq<char>,
    pieces: Seq<(Seq<char>, Option<Seq<char>>, bool)>,
)
    requires
        distinct_tool_ids(st.tool_uses),
        !has_tool(st.tool_uses, id),
        pieces.len() > 0,
        forall|i: int| 0 <= i < pieces.len() ==> !(#[trigger] pieces[i]).2,
    ensures
        spec_after_tool_pieces(st, id, pieces) == (ChatStreamView {
            pending: st.pending,
            finished: st.finished,
            conversation_id: st.conversation_id,
            tool_uses: st.tool_uses.push(
                PendingToolUseView { id, name: pieces[0].0, parts: piece_inputs(pieces) },
            ),
        }),
    decreases pieces.len(),
{
    let n = st.tool_uses.len() as int;
    let prev = pieces.drop_last();
    if pieces.len() == 1 {
        let tools = st.tool_uses.push(PendingToolUseView { id, name: pieces[0].0, parts: Seq::empty() });
        assert(spec_after_tool_pieces(st, id, prev) == st);
        assert(distinct_tool_ids(tools)) by {
            assert forall|i: int, j: int|
                0 <= i < tools.len() && 0 <= j < tools.len() && i != j implies #[trigger] tools[i].id
                    != #[trigger] tools[j].id by {
                if i == n {
                    assert(tools[j] == st.tool_uses[j]);
                } else if j == n {
                    assert(tools[i] == st.tool_uses[i]);
                }
            }
        }
        lemma_tool_index_unique(tools, id, n);
        assert(piece_inputs(prev) =~= Seq::<Seq<char>>::empty());
        assert(pieces.last() == pieces[0]);
        assert(spec_after_tool_pieces(st, id, pieces).tool_uses =~= st.tool_uses.push(
            PendingToolUseView { id, name: pieces[0].0, parts: piece_inputs(pieces) },
        ));
    } else {
        assert forall|i: int| 0 <= i < prev.len() implies !(#[trigger] prev[i]).2 by {
            assert(prev[i] == pieces[i]);
        }
        lemma_tool_pieces_open(st, id, prev);
        let mid = spec_after_tool_pieces(st, id, prev);
        let tools = mid.tool_uses;
        assert(tools[n].id == id);
        assert(distinct_tool_ids(tools)) by {
            assert forall|i: int, j: int|
                0 <= i < tools.len() && 0 <= j < tools.len() && i != j implies #[trigger] tools[i].id
                    != #[trigger] tools[j].id by {
                if i == n {
                    assert(tools[j] == st.tool_uses[j]);
                } else if j == n {
                    assert(tools[i] == st.tool_uses[i]);
                } else {
                    assert(tools[i] == st.tool_uses[i]);
                    assert(tools[j] == st.tool_uses[j]);
                }
            }
        }
        lemma_tool_index_unique(tools, id, n);
        assert(prev[0] == pieces[0]);
        assert(!pieces.last().2);
        assert(spec_after_tool_pieces(st, id, pieces).tool_uses =~= st.tool_uses.push(
            PendingToolUseView { id, name: pieces[0].0, parts: piece_inputs(pieces) },
        ));
    }
}

/// Outcomes leave in the order they were produced, none lost or repeated:
/// once [`ChatStreamState::receive`] has handed out the first outcome of a
/// read and kept the others (`kept`, whose reverse is the rest of
/// `produced`), each following [`ChatStreamState::poll_pending`] hands out
/// the last kept outcome and drops it; so the outcomes kept after `k` such
/// calls are `kept.take(kept.len() - k)`, the next call hands out the
/// `(k + 1)`-th outcome produced after the first, and once all have left
/// nothing is kept and the body is read again.
pub proof fn law_outcome_order(
    produced: Seq<Result<ChatEventView, KiroErrorView>>,
    kept: Seq<Result<ChatEventView, KiroErrorView>>,
    k: int,
)
    requires
        produced.len() > 0,
        kept.reverse() == produced.drop_first(),
        0 <= k < produced.len() - 1,
    ensures
        kept.len() == produced.len() - 1,
        kept.take(kept.len() - k).len() > 0,
        kept.take(kept.len() - k).last() == produced[k + 1],
        kept.take(kept.len() - k).drop_last() == kept.take(kept.len() - (k + 1)),
        kept.take(kept.len() - (produced.len() - 1)).len() == 0,
{
    assert(kept.reverse().len() == kept.len());
    let n = kept.len();
    assert(kept.reverse()[k] == kept[n - 1 - k]);
    assert(kept.take(n - k).drop_last() =~= kept.take(n - (k + 1)));
}

/// A tool call streamed in pieces is handed out once, when its stopping
/// piece arrives: with the name of its first piece and, as input, the
/// concatenated string inputs of all its pieces (`{}` if they do not form
/// JSON); the calls being streamed are then as before it started.
pub proof fn law_tool_call_assembly(
    st: ChatStreamView,
    id: Seq<char>,
    pieces: Seq<(Seq<char>, Option<Seq<char>>, bool)>,
)
    requires
        distinct_tool_ids(st.tool_uses),
        !has_tool(st.tool_uses, id),
        pieces.len() > 0,
        forall|i: int| 0 <= i < pieces.len() - 1 ==> !(#[trigger] pieces[i]).2,
        pieces.last().2,
    ensures
        spec_after_tool_pieces(st, id, pieces) == with_pending(
            st,
            Ok(
                ChatEventView::ToolUse {
                    id,
                    name: pieces[0].0,
                    input: tool_input_text(concat_parts(piece_inputs(pieces))),
                    stop: true,
                },
            ),
        ),
{
    let n = st.tool_uses.len() as int;
    let prev = pieces.drop_last();
    let mid = spec_after_tool_pieces(st, id, prev);
    let tools = if has_tool(mid.tool_uses, id) {
        mid.tool_uses
    } else {
        mid.tool_uses.push(PendingToolUseView { id, name: pieces.last().0, parts: Seq::empty() })
    };
    if prev.len() == 0 {
        assert(mid == st);
        assert(tools == st.tool_uses.push(PendingToolUseView { id, name: pieces.last().0, parts: Seq::empty() }));
    } else {
        assert forall|i: int| 0 <= i < prev.len() implies !(#[trigger] prev[i]).2 by {
            assert(prev[i] == pieces[i]);
        }
        lemma_tool_pieces_open(st, id, prev);
        assert(mid.tool_uses[n].id == id);
        assert(tools == mid.tool_uses);
    }
    assert(tools[n].id == id);
    assert(distinct_tool_ids(tools)) by {
        assert forall|i: int, j: int|
            0 <= i < tools.len() && 0 <= j < tools.len() && i != j implies #[trigger] tools[i].id
                != #[trigger] tools[j].id by {
            if i == n {
                assert(tools[j] == st.tool_uses[j]);
            } else if j == n {
                assert(tools[i] == st.tool_uses[i]);
            } else {
                assert(tools[i] == st.tool_uses[i]);
                assert(tools[j] == st.tool_uses[j]);
            }
        }
    }
    lemma_tool_index_unique(tools, id, n);
    if prev.len() == 0 {
        assert(pieces.last() == pieces[0]);
        assert(piece_inputs(prev) =~= Seq::<Seq<char>>::empty());
    } else {
        assert(prev[0] == pieces[0]);
    }
    assert(tools.remove(n) =~= st.tool_uses);
}

/// A metadata frame hands out exactly one event, the metadata, and changes
/// nothing else: its conversation id is the frame's own when it carries
/// one, else the one announced earlier in the reply, else empty; its
/// message id is the frame's utterance id, else empty. A frame whose
/// payload could not be read changes nothing.
pub proof fn law_message_metadata(st: ChatStreamView, payload: Option<MessageMetadataPayload>)
    ensures
        payload is None ==> spec_after_message_metadata(st, payload) == st,
        payload matches Some(p) ==> {
            let after = spec_after_message_metadata(st, payload);
            &&& after.pending.len() == st.pending.len() + 1
            &&& after.pending.drop_last() == st.pending
            &&& after.finished == st.finished
            &&& after.conversation_id == st.conversation_id
            &&& after.tool_uses == st.tool_uses
            &&& after.pending.last() matches Ok(ChatEventView::Metadata { conversation_id, message_id })
            &&& (p.conversation_id matches Some(c) ==> conversation_id == c@)
            &&& (p.conversation_id is None ==> (st.conversation_id matches Some(c) ==> conversation_id == c))
            &&& (p.conversation_id is None && st.conversation_id is None ==> conversation_id.len() == 0)
            &&& (p.utterance_id matches Some(u) ==> message_id == u@)
            &&& (p.utterance_id is None ==> message_id.len() == 0)
        },
{
    if let Some(p) = payload {
        let after = spec_after_message_metadata(st, payload);
        assert(after.pending.drop_last() =~= st.pending);
    }
}

/// An error reported inside the reply and the same error reported as an
/// HTTP answer are the same error: a `ThrottlingException` frame and status
/// 429 are throttling, `ValidationException` and 400 a validation error,
/// `AccessDeniedException` and 401 or 403 a refused access,
/// `InternalServerException` and 500 a server failure,
/// `ServiceUnavailableException` and 503 an unavailable service, each with
/// the message it carries. An exception frame of any other type, or of none,
/// is a network error with its message.
pub proof fn law_exception_matches_status(message: Seq<char>, exception_type: Option<Seq<char>>)
    ensures
        spec_exception_error(Some("ThrottlingException"@), message) == spec_error_for_status(429, message),
        spec_exception_error(Some("ThrottlingException"@), message) == (KiroErrorView::Throttling {
            message,
            retry_after: None,
        }),
        spec_exception_error(Some("ValidationException"@), message) == spec_error_for_status(400, message),
        spec_exception_error(Some("ValidationException"@), message) == (KiroErrorView::Validation { message }),
        spec_exception_error(Some("AccessDeniedException"@), message) == spec_error_for_status(401, message),
        spec_exception_error(Some("AccessDeniedException"@), message) == spec_error_for_status(403, message),
        spec_exception_error(Some("AccessDeniedException"@), message) == (KiroErrorView::AccessDenied { message }),
        spec_exception_error(Some("InternalServerException"@), message) == spec_error_for_status(500, message),
        spec_exception_error(Some("InternalServerException"@), message) is InternalServerError,
        spec_exception_error(Some("ServiceUnavailableException"@), message) == spec_error_for_status(503, message),
        spec_exception_error(Some("ServiceUnavailableException"@), message) is ServiceUnavailable,
        (exception_type is None || (exception_type matches Some(t) && t != "ThrottlingException"@ && t
            != "ValidationException"@ && t != "AccessDeniedException"@ && t != "InternalServerException"@ && t
            != "ServiceUnavailableException"@)) ==> spec_exception_error(exception_type, message)
            == KiroErrorView::Network(message),
{
    reveal_strlit("ThrottlingException");
    reveal_strlit("ValidationException");
    reveal_strlit("AccessDeniedException");
    reveal_strlit("InternalServerException");
    reveal_strlit("ServiceUnavailableException");
    assert("ValidationException"@[0] != "ThrottlingException"@[0]);
    assert("ValidationException"@ != "ThrottlingException"@);
    assert("AccessDeniedException"@.len() == 21);
    assert("InternalServerException"@.len() == 23);
    assert("ServiceUnavailableException"@.len() == 27);
    assert("ThrottlingException"@.len() == 19);
}

/// Which frames the reply acts on: every exception frame, by its payload;
/// an event frame by its `:event-type` — `initial-response`,
/// `assistantResponseEvent`, `toolUseEvent` or `messageMetadataEvent`;
/// nothing else.
pub proof fn law_payload_kinds(e: AwsEventView)
    ensures
        e.message_type == "exception"@ ==> spec_payload_kind(e) == PayloadKind::Exception,
        e.message_type != "exception"@ && e.message_type != "event"@ ==> spec_payload_kind(e) == PayloadKind::Ignored,
        e.message_type == "event"@ ==> match e.event_type {
            Some(t) => (t == "initial-response"@ <==> spec_payload_kind(e) == PayloadKind::InitialResponse)
                && (t == "assistantResponseEvent"@ <==> spec_payload_kind(e) == PayloadKind::AssistantResponse)
                && (t == "toolUseEvent"@ <==> spec_payload_kind(e) == PayloadKind::ToolUse)
                && (t == "messageMetadataEvent"@ <==> spec_payload_kind(e) == PayloadKind::MessageMetadata),
            None => spec_payload_kind(e) == PayloadKind::Ignored,
        },
{
    reveal_strlit("exception");
    reveal_strlit("event");
    reveal_strlit("initial-response");
    reveal_strlit("assistantResponseEvent");
    reveal_strlit("toolUseEvent");
    reveal_strlit("messageMetadataEvent");
    assert("exception"@.len() != "event"@.len());
    assert("initial-response"@.len() == 16);
    assert("assistantResponseEvent"@.len() == 22);
    assert("toolUseEvent"@.len() == 12);
    assert("messageMetadataEvent"@.len() == 20);
}

/// The conversation id announced at the start of a reply is the one that
/// later metadata without its own id reports; an empty announcement is not
/// remembered. A text frame hands out its text and nothing else.
pub proof fn law_announced_conversation(
    st: ChatStreamView,
    c: String,
    utterance_id: Option<String>,
    content: String,
)
    ensures
        ({
            let announced = spec_after_initial_response(
                st,
                Some(InitialResponsePayload { conversation_id: Some(c) }),
            );
            let after = spec_after_message_metadata(
                announced,
                Some(MessageMetadataPayload { conversation_id: None, utterance_id }),
            );
            &&& c@.len() > 0 ==> announced.conversation_id == Some(c@)
            &&& c@.len() == 0 ==> announced == st
            &&& c@.len() > 0 ==> (after.pending.last() matches Ok(ChatEventView::Metadata { conversation_id, .. })
                && conversation_id == c@)
        }),
        ({
            let after = spec_after_assistant_response(
                st,
                Some(AssistantResponseEventPayload { content: Some(content) }),
            );
            &&& after.pending == st.pending.push(Ok(ChatEventView::TextDelta { content: content@ }))
            &&& after.finished == st.finished
            &&& after.conversation_id == st.conversation_id
            &&& after.tool_uses == st.tool_uses
        }),
{
}

} // verus!
