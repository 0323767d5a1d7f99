//! Building the assistant request from an editor request, and reporting
//! the reply and its errors to the editor.

use vstd::prelude::*;
use crate::text::{owned, push_str, spec_decimal, decimal_u64, push_char, digit_char};
use crate::chat::{SendMessageRequest, is_uuid_v4_text};
use crate::chat_stream::ChatEvent;
use crate::error::{ApiError, KiroError, KiroErrorView};
use crate::token::Timestamp;
use crate::user_context::{OperatingSystem, UserContext, os_name};
use crate::device_flow::{optional_debug_text, debug_optional};
use crate::event_stream::opt_view;

verus! {

/// Who wrote a message of the editor's request.
#[derive(Debug, Clone, Copy, PartialEq, Eq, Structural)]
pub enum Role {
    User,
    Assistant,
    System,
}

/// A message of the editor's request, by its role and text.
#[derive(Debug, Clone)]
pub struct RequestMessage {
    pub role: Role,
    pub text: String,
}

/// The prefix that marks a message's role in the request text.
pub open spec fn role_prefix(role: Role) -> Seq<char> {
    match role {
        Role::User => ""@,
        Role::Assistant => "Assistant: "@,
        Role::System => "System: "@,
    }
}

/// The messages as one text: each with its role prefix, separated by blank lines.
pub open spec fn joined_messages(ms: Seq<RequestMessage>) -> Seq<char>
    decreases ms.len(),
{
    if ms.len() == 0 {
        Seq::empty()
    } else if ms.len() == 1 {
        role_prefix(ms[0].role) + ms[0].text@
    } else {
        joined_messages(ms.drop_last()) + "\n\n"@ + role_prefix(ms.last().role) + ms.last().text@
    }
}

fn push_role_prefix(s: &mut String, role: Role)
    ensures
        final(s)@ == old(s)@ + role_prefix(role),
{
    match role {
        Role::User => push_str(s, ""),
        Role::Assistant => push_str(s, "Assistant: "),
        Role::System => push_str(s, "System: "),
    }
}

/// The messages as one text.
pub fn join_messages(messages: &Vec<RequestMessage>) -> (r: String)
    ensures
        r@ == joined_messages(messages@),
{
    let mut r = String::new();
    let mut i: usize = 0;
    while i < messages.len()
        invariant
            i <= messages@.len(),
            r@ == joined_messages(messages@.take(i as int)),
        decreases messages@.len() - i,
    {
        let ghost prev = r@;
        if i > 0 {
            push_str(&mut r, "\n\n");
        }
        push_role_prefix(&mut r, messages[i].role);
        push_str(&mut r, messages[i].text.as_str());
        proof {
            assert(messages@.take(i + 1).drop_last() =~= messages@.take(i as int));
            if i == 0 {
                assert(r@ =~= role_prefix(messages@[0].role) + messages@[0].text@);
            } else {
                assert(r@ =~= prev + "\n\n"@ + role_prefix(messages@[i as int].role) + messages@[i as int].text@);
            }
        }
        i = i + 1;
    }
    proof {
        assert(messages@.take(messages@.len() as int) =~= messages@);
    }
    r
}

/// The assistant request for an editor request: its messages joined, in
/// the editor thread's conversation (a fresh one without a thread), from a
/// client on `os` working in `current_dir`, asking for `model_id` unless it
/// is `auto`.
pub fn build_send_message_request(
    messages: &Vec<RequestMessage>,
    thread_id: Option<String>,
    model_id: &str,
    os: OperatingSystem,
    current_dir: Option<String>,
) -> (r: SendMessageRequest)
    ensures
        r.conversation_state.current_message.user_input_message.content@ == joined_messages(messages@),
        match thread_id {
            Some(id) => r.conversation_state.conversation_id == id,
            None => is_uuid_v4_text(r.conversation_state.conversation_id@),
        },
        model_id@ == "auto"@ ==> r.conversation_state.current_message.user_input_message.model_id is None,
        model_id@ != "auto"@ ==> (r.conversation_state.current_message.user_input_message.model_id matches Some(m)
            && m@ == model_id@),
        r.conversation_state.current_message.user_input_message.user_input_message_context.env_state.operating_system@
            == os_name(os),
        r.conversation_state.current_message.user_input_message.user_input_message_context.env_state.current_working_directory@
            == match current_dir {
            Some(d) => d@,
            None => "/"@,
        },
        r.conversation_state.history@.len() == 0,
        r.conversation_state.current_message.user_input_message.user_input_message_context.tools@.len()
            == 0,
        r.conversation_state.current_message.user_input_message.user_input_message_context.tool_results@.len()
            == 0,
        r.conversation_state.current_message.user_input_message.origin@ == "KIRO_CLI"@,
        r.conversation_state.chat_trigger_type@ == "MANUAL"@,
        is_uuid_v4_text(r.conversation_state.agent_continuation_id@),
        r.conversation_state.agent_task_type@ == "vibe"@,
{
    let content = join_messages(messages);
    let user_context = UserContext::for_zed(os);
    let request = SendMessageRequest::new(content, thread_id, &user_context, current_dir);
    if owned(model_id) != owned("auto") {
        request.with_model(owned(model_id))
    } else {
        request
    }
}

/// An error as the editor reports it (the provider is always Kiro).
#[derive(Debug)]
pub enum CompletionError {
    RateLimitExceeded { retry_after_secs: Option<u64> },
    BadRequestFormat { message: String },
    AuthenticationError { message: String },
    ApiInternalServerError { message: String },
    ServerOverloaded { retry_after_secs: Option<u64> },
    HttpSend { message: String },
    NoApiKey,
    Other { message: String },
}

/// The mathematical content of a [`CompletionError`].
pub enum CompletionErrorView {
    RateLimitExceeded { retry_after_secs: Option<u64> },
    BadRequestFormat { message: Seq<char> },
    AuthenticationError { message: Seq<char> },
    ApiInternalServerError { message: Seq<char> },
    ServerOverloaded { retry_after_secs: Option<u64> },
    HttpSend { message: Seq<char> },
    NoApiKey,
    Other { message: Seq<char> },
}

impl View for CompletionError {
    type V = CompletionErrorView;

    open spec fn view(&self) -> CompletionErrorView {
        match self {
            CompletionError::RateLimitExceeded { retry_after_secs } => CompletionErrorView::RateLimitExceeded {
                retry_after_secs: *retry_after_secs,
            },
            CompletionError::BadRequestFormat { message } => CompletionErrorView::BadRequestFormat {
                message: message@,
            },
            CompletionError::AuthenticationError { message } => CompletionErrorView::AuthenticationError {
                message: message@,
            },
            CompletionError::ApiInternalServerError { message } => CompletionErrorView::ApiInternalServerError {
                message: message@,
            },
            CompletionError::ServerOverloaded { retry_after_secs } => CompletionErrorView::ServerOverloaded {
                retry_after_secs: *retry_after_secs,
            },
            CompletionError::HttpSend { message } => CompletionErrorView::HttpSend { message: message@ },
            CompletionError::NoApiKey => CompletionErrorView::NoApiKey,
            CompletionError::Other { message } => CompletionErrorView::Other { message: message@ },
        }
    }
}

/// How an error of the service is reported to the editor.
pub open spec fn spec_api_completion_error(e: KiroErrorView) -> CompletionErrorView {
    match e {
        KiroErrorView::Throttling { retry_after, .. } => CompletionErrorView::RateLimitExceeded {
            retry_after_secs: retry_after,
        },
        KiroErrorView::Validation { message } => CompletionErrorView::BadRequestFormat { message },
        KiroErrorView::AccessDenied { message } => CompletionErrorView::AuthenticationError { message },
        KiroErrorView::InternalServerError => CompletionErrorView::ApiInternalServerError {
            message: "Internal server error"@,
        },
        KiroErrorView::ServiceUnavailable => CompletionErrorView::ServerOverloaded {
            retry_after_secs: None,
        },
        KiroErrorView::NotAuthenticated => CompletionErrorView::AuthenticationError {
            message: "not authenticated"@,
        },
        KiroErrorView::TokenExpired => CompletionErrorView::AuthenticationError {
            message: "token expired"@,
        },
        KiroErrorView::RefreshFailed(s) => CompletionErrorView::AuthenticationError {
            message: "refresh failed: "@ + s,
        },
        KiroErrorView::DeviceFlowFailed(s) => CompletionErrorView::AuthenticationError {
            message: "device flow failed: "@ + s,
        },
        KiroErrorView::Network(m) => CompletionErrorView::HttpSend { message: m },
        KiroErrorView::Io(m) => CompletionErrorView::HttpSend { message: m },
        KiroErrorView::Other(m) => CompletionErrorView::Other { message: m },
    }
}

/// How an error answer of the service is reported to the editor.
pub fn map_api_error_to_completion_error(error: ApiError) -> (r: CompletionError)
    ensures
        r@ == spec_api_completion_error(KiroError::Api(error)@),
{
    match error {
        ApiError::Throttling { message: _, retry_after } => CompletionError::RateLimitExceeded {
            retry_after_secs: retry_after,
        },
        ApiError::Validation { message } => CompletionError::BadRequestFormat { message },
        ApiError::AccessDenied { message } => CompletionError::AuthenticationError { message },
        ApiError::InternalServerError => CompletionError::ApiInternalServerError {
            message: owned("Internal server error"),
        },
        ApiError::ServiceUnavailable => CompletionError::ServerOverloaded { retry_after_secs: None },
    }
}

/// How an error of the client is reported to the editor.
pub fn map_kiro_error_to_completion_error(error: KiroError) -> (r: CompletionError)
    ensures
        r@ == spec_api_completion_error(error@),
{
    match error {
        KiroError::Api(api_error) => map_api_error_to_completion_error(api_error),
        KiroError::Auth(auth_error) => CompletionError::AuthenticationError {
            message: auth_error.message(),
        },
        KiroError::Network(msg) => CompletionError::HttpSend { message: msg },
        KiroError::Io(msg) => CompletionError::HttpSend { message: msg },
        KiroError::Other(msg) => CompletionError::Other { message: msg },
    }
}

/// An event of the reply as the editor sees it.
#[derive(Debug)]
pub enum CompletionEvent {
    Started,
    Text(String),
    ToolUse { id: String, name: String, input: String },
    /// The turn is over.
    Stop,
}

/// How an outcome of the reply is reported to the editor: text as text,
/// metadata as the start, the end as the end of the turn, a complete tool
/// call as a tool call, an error event as an error naming its message and
/// code, and an error as [`map_kiro_error_to_completion_error`] says.
pub fn map_chat_event_to_completion_event(result: Result<ChatEvent, KiroError>) -> (r: Result<CompletionEvent, CompletionError>)
    ensures
        match result {
            Ok(ChatEvent::TextDelta { content }) => r matches Ok(CompletionEvent::Text(t)) && t == content,
            Ok(ChatEvent::Metadata { .. }) => r matches Ok(CompletionEvent::Started),
            Ok(ChatEvent::End) => r matches Ok(CompletionEvent::Stop),
            Ok(ChatEvent::ToolUse { id, name, input, .. }) => r matches Ok(
                CompletionEvent::ToolUse { id: i, name: n, input: x },
            ) && i == id && n == name && x == input,
            Ok(ChatEvent::Error { message, code }) => r matches Err(CompletionError::Other { message: m })
                && m@ == "Kiro API error: "@ + message@ + " (code: "@ + optional_debug_text(
                opt_view(code),
            ) + ")"@,
            Err(e) => r matches Err(x) && x@ == spec_api_completion_error(e@),
        },
{
    match result {
        Ok(ChatEvent::TextDelta { content }) => Ok(CompletionEvent::Text(content)),
        Ok(ChatEvent::Metadata { .. }) => Ok(CompletionEvent::Started),
        Ok(ChatEvent::End) => Ok(CompletionEvent::Stop),
        Ok(ChatEvent::ToolUse { id, name, input, .. }) => Ok(CompletionEvent::ToolUse { id, name, input }),
        Ok(ChatEvent::Error { message, code }) => {
            let mut m = owned("Kiro API error: ");
            push_str(&mut m, message.as_str());
            push_str(&mut m, " (code: ");
            push_str(&mut m, debug_optional(&code).as_str());
            push_str(&mut m, ")");
            Err(CompletionError::Other { message: m })
        },
        Err(e) => Err(map_kiro_error_to_completion_error(e)),
    }
}

/// Whole seconds from `now` until `expires_at`, and none once it has passed.
pub open spec fn remaining_secs(expires_at: Timestamp, now: Timestamp) -> int {
    if expires_at.secs > now.secs {
        if expires_at.nanos >= now.nanos {
            expires_at.secs - now.secs
        } else {
            expires_at.secs - now.secs - 1
        }
    } else {
        0
    }
}

/// A number below 100 in two digits.
pub open spec fn two_digits(n: int) -> Seq<char> {
    seq![digit_char(n / 10), digit_char(n % 10)]
}

/// The countdown shown while signing in: `Expires in m:ss`.
pub open spec fn spec_countdown_label(expires_at: Timestamp, now: Timestamp) -> Seq<char> {
    let r = remaining_secs(expires_at, now);
    "Expires in "@ + spec_decimal(r / 60) + ":"@ + two_digits(r % 60)
}

/// The countdown shown while signing in: minutes and seconds until the
/// code expires.
pub fn countdown_label(expires_at: Timestamp, now: Timestamp) -> (r: String)
    requires
        expires_at.nanos < 1_000_000_000,
        now.nanos < 1_000_000_000,
    ensures
        r@ == spec_countdown_label(expires_at, now),
{
    let remaining: u64 = if expires_at.secs > now.secs {
        let whole = (expires_at.secs as i128 - now.secs as i128) as u64;
        if expires_at.nanos >= now.nanos {
            whole
        } else {
            whole - 1
        }
    } else {
        0
    };
    let minutes = remaining / 60;
    let seconds = remaining % 60;
    let mut r = owned("Expires in ");
    push_str(&mut r, decimal_u64(minutes).as_str());
    push_str(&mut r, ":");
    push_char(&mut r, ((48 + seconds / 10) as u8) as char);
    push_char(&mut r, ((48 + seconds % 10) as u8) as char);
    r
}


/// The role name a message is counted under.
pub open spec fn role_name(role: Role) -> Seq<char> {
    match role {
        Role::User => "user"@,
        Role::Assistant => "assistant"@,
        Role::System => "system"@,
    }
}

/// The number of tokens that `tiktoken_rs` counts for chat messages given
/// as (role, content) pairs under the GPT-4 tokenizer, when it counts them.
pub uninterp spec fn gpt4_chat_tokens(messages: Seq<(Seq<char>, Seq<char>)>) -> Option<nat>;

/// `tiktoken_rs::num_tokens_from_messages("gpt-4", ..)` on messages with the
/// given roles and contents and no names or calls.
#[verifier::external_body]
fn num_tokens_gpt4(messages: Vec<(String, String)>) -> (r: Option<usize>)
    ensures
        match r {
            Some(n) => gpt4_chat_tokens(messages@.map_values(|m: (String, String)| (m.0@, m.1@)))
                == Some(n as nat),
            None => gpt4_chat_tokens(messages@.map_values(|m: (String, String)| (m.0@, m.1@))) is None,
        },
{
    let messages: Vec<tiktoken_rs::ChatCompletionRequestMessage> = messages
        .into_iter()
        .map(|(role, content)| tiktoken_rs::ChatCompletionRequestMessage { role, content: Some(content), ..Default::default() })
        .collect();
    tiktoken_rs::num_tokens_from_messages("gpt-4", &messages).ok()
}

/// The messages as (role name, text) pairs.
pub open spec fn counted_messages(ms: Seq<RequestMessage>) -> Seq<(Seq<char>, Seq<char>)> {
    ms.map_values(|m: RequestMessage| (role_name(m.role), m.text@))
}

/// The number of tokens of an editor request's messages, as the GPT-4
/// tokenizer counts them; `None` when it cannot count them.
pub fn count_tokens(messages: &Vec<RequestMessage>) -> (r: Option<u64>)
    ensures
        match r {
            Some(n) => gpt4_chat_tokens(counted_messages(messages@)) == Some(n as nat),
            None => gpt4_chat_tokens(counted_messages(messages@)) is None,
        },
{
    let mut pairs: Vec<(String, String)> = Vec::new();
    let mut i: usize = 0;
    while i < messages.len()
        invariant
            i <= messages@.len(),
            pairs@.map_values(|m: (String, String)| (m.0@, m.1@)) =~= counted_messages(messages@.take(i as int)),
        decreases messages@.len() - i,
    {
        let role = match messages[i].role {
            Role::User => owned("user"),
            Role::Assistant => owned("assistant"),
            Role::System => owned("system"),
        };
        pairs.push((role, messages[i].text.clone()));
        proof {
            assert(counted_messages(messages@.take(i + 1)) =~= counted_messages(messages@.take(i as int)).push((role_name(messages@[i as int].role), messages@[i as int].text@)));
        }
        i = i + 1;
    }
    proof {
        assert(messages@.take(messages@.len() as int) =~= messages@);
    }
    match num_tokens_gpt4(pairs) {
        Some(n) => Some(n as u64),
        None => None,
    }
}

/// Errors reach the editor by kind: a refused access and every sign-in
/// failure become authentication errors (a refused access keeps its
/// message); a bad request is reported only for a validation error, with
/// its message; throttling becomes a rate limit with its delay; an
/// unavailable service becomes an overload, and a server failure an
/// internal server error.
pub proof fn law_completion_error_kinds(e: KiroErrorView, message: String)
    ensures
        KiroError::Api(ApiError::AccessDenied { message })@ == (KiroErrorView::AccessDenied { message: message@ }),
        KiroError::Api(ApiError::Validation { message })@ == (KiroErrorView::Validation { message: message@ }),
        e matches KiroErrorView::AccessDenied { message: m } ==> spec_api_completion_error(e)
            == (CompletionErrorView::AuthenticationError { message: m }),
        e matches KiroErrorView::Validation { message: m } ==> spec_api_completion_error(e)
            == (CompletionErrorView::BadRequestFormat { message: m }),
        e matches KiroErrorView::Throttling { retry_after: d, .. } ==> spec_api_completion_error(e)
            == (CompletionErrorView::RateLimitExceeded { retry_after_secs: d }),
        e is ServiceUnavailable ==> spec_api_completion_error(e)
            == (CompletionErrorView::ServerOverloaded { retry_after_secs: None }),
        e is InternalServerError ==> spec_api_completion_error(e) is ApiInternalServerError,
        spec_api_completion_error(e) is BadRequestFormat ==> e is Validation,
        spec_api_completion_error(e) is AuthenticationError <==> (e is AccessDenied || e is NotAuthenticated
            || e is TokenExpired || e is RefreshFailed || e is DeviceFlowFailed),
{
}

/// Every message of a request is counted, whatever its role, in order: as
/// the name of its role (`user`, `assistant` or `system`) and its whole text.
pub proof fn law_counted_messages(ms: Seq<RequestMessage>)
    ensures
        counted_messages(ms).len() == ms.len(),
        forall|i: int| 0 <= i < ms.len() ==> (#[trigger] counted_messages(ms)[i]).1 == ms[i].text@,
        forall|i: int| 0 <= i < ms.len() ==> (#[trigger] counted_messages(ms)[i]).0 == match ms[i].role {
            Role::User => "user"@,
            Role::Assistant => "assistant"@,
            Role::System => "system"@,
        },
{
}

} // verus!
