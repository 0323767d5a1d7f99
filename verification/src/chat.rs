//! Messages sent to the assistant: the conversation state, its history and the current message.

use vstd::prelude::*;
use crate::text::owned;
use crate::tools::{ToolDefinition, ToolResult};
use crate::user_context::{UserContext, os_name, os_name_of};

verus! {

/// The target of the message-sending operation.
pub const SEND_MESSAGE_TARGET: &'static str = "AmazonCodeWhispererStreamingService.GenerateAssistantResponse";

/// A lower-case hexadecimal digit.
pub open spec fn is_lower_hex(c: char) -> bool {
    ('0' <= c && c <= '9') || ('a' <= c && c <= 'f')
}

/// The text of a random (version 4) UUID: 36 characters, dashes at 8, 13,
/// 18 and 23, lower-case hex digits elsewhere, version digit `4` at 14.
pub open spec fn is_uuid_v4_text(s: Seq<char>) -> bool {
    &&& s.len() == 36
    &&& forall|i: int|
        0 <= i < 36 ==> if i == 8 || i == 13 || i == 18 || i == 23 {
            s[i] == '-'
        } else {
            is_lower_hex(#[trigger] s[i])
        }
    &&& s[14] == '4'
}

/// `uuid::Uuid::new_v4` in its hyphenated lower-case text form: a fresh
/// random identifier; two calls give different values with overwhelming
/// probability, which is not stated.
#[verifier::external_body]
fn new_uuid_v4() -> (r: String)
    ensures
        is_uuid_v4_text(r@),
{
    uuid::Uuid::new_v4().to_string()
}

/// The machine the client runs on.
#[derive(Debug, Clone)]
pub struct EnvState {
    pub operating_system: String,
    pub current_working_directory: String,
}

/// Context of a user message: environment, offered tools and tool results.
#[derive(Debug)]
pub struct UserInputMessageContext {
    pub env_state: EnvState,
    pub tools: Vec<ToolDefinition>,
    pub tool_results: Vec<ToolResult>,
}

/// A message of the user.
#[derive(Debug)]
pub struct UserInputMessage {
    pub content: String,
    pub user_input_message_context: UserInputMessageContext,
    pub origin: String,
    pub model_id: Option<String>,
}

/// A tool call made by the assistant earlier in the conversation; `input`
/// is its JSON input.
#[derive(Debug)]
pub struct ToolUse {
    pub tool_use_id: String,
    pub name: String,
    pub input: serde_json::Value,
}

/// A reply of the assistant earlier in the conversation.
#[derive(Debug)]
pub struct AssistantResponseMessage {
    pub content: String,
    pub message_id: Option<String>,
    pub tool_uses: Option<Vec<ToolUse>>,
}

/// One earlier turn of the conversation.
#[derive(Debug)]
pub struct HistoryEntry {
    pub user_input_message: Option<UserInputMessage>,
    pub assistant_response_message: Option<AssistantResponseMessage>,
}

/// The message being sent.
#[derive(Debug)]
pub struct CurrentMessage {
    pub user_input_message: UserInputMessage,
}

/// The conversation a message belongs to.
#[derive(Debug)]
pub struct ConversationState {
    pub conversation_id: String,
    pub history: Vec<HistoryEntry>,
    pub current_message: CurrentMessage,
    pub chat_trigger_type: String,
    pub agent_continuation_id: String,
    pub agent_task_type: String,
}

/// A request to send a message to the assistant.
#[derive(Debug)]
pub struct SendMessageRequest {
    pub conversation_state: ConversationState,
}

impl SendMessageRequest {
    /// A request carrying `content` in the conversation `conversation_id`
    /// (a fresh random id when `None`), from a client on
    /// `user_context.operating_system` whose working directory is
    /// `current_dir` (`/` when it could not be read), with no history,
    /// tools, tool results or model, and a fresh continuation id.
    pub fn new(
        content: String,
        conversation_id: Option<String>,
        user_context: &UserContext,
        current_dir: Option<String>,
    ) -> (r: Self)
        ensures
            match conversation_id {
                Some(id) => r.conversation_state.conversation_id == id,
                None => is_uuid_v4_text(r.conversation_state.conversation_id@),
            },
            r.conversation_state.history@.len() == 0,
            r.conversation_state.current_message.user_input_message.content == content,
            r.conversation_state.current_message.user_input_message.user_input_message_context.env_state.operating_system@
                == os_name(user_context.operating_system),
            r.conversation_state.current_message.user_input_message.user_input_message_context.env_state.current_working_directory@
                == match current_dir {
                Some(d) => d@,
                None => "/"@,
            },
            r.conversation_state.current_message.user_input_message.user_input_message_context.tools@.len()
                == 0,
            r.conversation_state.current_message.user_input_message.user_input_message_context.tool_results@.len()
                == 0,
            r.conversation_state.current_message.user_input_message.origin@ == "KIRO_CLI"@,
            r.conversation_state.current_message.user_input_message.model_id is None,
            r.conversation_state.chat_trigger_type@ == "MANUAL"@,
            is_uuid_v4_text(r.conversation_state.agent_continuation_id@),
            r.conversation_state.agent_task_type@ == "vibe"@,
    {
        let os = os_name_of(user_context.operating_system);
        let conv_id = match conversation_id {
            Some(id) => id,
            None => new_uuid_v4(),
        };
        let cwd = match current_dir {
            Some(d) => d,
            None => owned("/"),
        };
        SendMessageRequest {
            conversation_state: ConversationState {
                conversation_id: conv_id,
                history: Vec::new(),
                current_message: CurrentMessage {
                    user_input_message: UserInputMessage {
                        content,
                        user_input_message_context: UserInputMessageContext {
                            env_state: EnvState { operating_system: os, current_working_directory: cwd },
                            tools: Vec::new(),
                            tool_results: Vec::new(),
                        },
                        origin: owned("KIRO_CLI"),
                        model_id: None,
                    },
                },
                chat_trigger_type: owned("MANUAL"),
                agent_continuation_id: new_uuid_v4(),
                agent_task_type: owned("vibe"),
            },
        }
    }

    /// The same request with `history` as its earlier turns.
    pub fn with_history(self, history: Vec<HistoryEntry>) -> (r: Self)
        ensures
            r.conversation_state.history == history,
            r.conversation_state.conversation_id == self.conversation_state.conversation_id,
            r.conversation_state.current_message == self.conversation_state.current_message,
            r.conversation_state.chat_trigger_type == self.conversation_state.chat_trigger_type,
            r.conversation_state.agent_continuation_id
                == self.conversation_state.agent_continuation_id,
            r.conversation_state.agent_task_type == self.conversation_state.agent_task_type,
    {
        let mut s = self;
        s.conversation_state.history = history;
        s
    }

    /// The same request asking for the model `model_id`.
    pub fn with_model(self, model_id: String) -> (r: Self)
        ensures
            r.conversation_state.current_message.user_input_message.model_id == Some(model_id),
            r.conversation_state.current_message.user_input_message.content
                == self.conversation_state.current_message.user_input_message.content,
            r.conversation_state.current_message.user_input_message.user_input_message_context
                == self.conversation_state.current_message.user_input_message.user_input_message_context,
            r.conversation_state.current_message.user_input_message.origin
                == self.conversation_state.current_message.user_input_message.origin,
            r.conversation_state.conversation_id == self.conversation_state.conversation_id,
            r.conversation_state.history == self.conversation_state.history,
            r.conversation_state.chat_trigger_type == self.conversation_state.chat_trigger_type,
            r.conversation_state.agent_continuation_id
                == self.conversation_state.agent_continuation_id,
            r.conversation_state.agent_task_type == self.conversation_state.agent_task_type,
    {
        let mut s = self;
        s.conversation_state.current_message.user_input_message.model_id = Some(model_id);
        s
    }

    /// The same request offering `tools`.
    pub fn with_tools(self, tools: Vec<ToolDefinition>) -> (r: Self)
        ensures
            r.conversation_state.current_message.user_input_message.user_input_message_context.tools
                == tools,
            r.conversation_state.current_message.user_input_message.user_input_message_context.env_state
                == self.conversation_state.current_message.user_input_message.user_input_message_context.env_state,
            r.conversation_state.current_message.user_input_message.user_input_message_context.tool_results
                == self.conversation_state.current_message.user_input_message.user_input_message_context.tool_results,
            r.conversation_state.current_message.user_input_message.content
                == self.conversation_state.current_message.user_input_message.content,
            r.conversation_state.current_message.user_input_message.origin
                == self.conversation_state.current_message.user_input_message.origin,
            r.conversation_state.current_message.user_input_message.model_id
                == self.conversation_state.current_message.user_input_message.model_id,
            r.conversation_state.conversation_id == self.conversation_state.conversation_id,
            r.conversation_state.history == self.conversation_state.history,
            r.conversation_state.chat_trigger_type == self.conversation_state.chat_trigger_type,
            r.conversation_state.agent_continuation_id
                == self.conversation_state.agent_continuation_id,
            r.conversation_state.agent_task_type == self.conversation_state.agent_task_type,
    {
        let mut s = self;
        s.conversation_state.current_message.user_input_message.user_input_message_context.tools = tools;
        s
    }

    /// The same request carrying `tool_results`.
    pub fn with_tool_results(self, tool_results: Vec<ToolResult>) -> (r: Self)
        ensures
            r.conversation_state.current_message.user_input_message.user_input_message_context.tool_results
                == tool_results,
            r.conversation_state.current_message.user_input_message.user_input_message_context.env_state
                == self.conversation_state.current_message.user_input_message.user_input_message_context.env_state,
            r.conversation_state.current_message.user_input_message.user_input_message_context.tools
                == self.conversation_state.current_message.user_input_message.user_input_message_context.tools,
            r.conversation_state.current_message.user_input_message.content
                == self.conversation_state.current_message.user_input_message.content,
            r.conversation_state.current_message.user_input_message.origin
                == self.conversation_state.current_message.user_input_message.origin,
            r.conversation_state.current_message.user_input_message.model_id
                == self.conversation_state.current_message.user_input_message.model_id,
            r.conversation_state.conversation_id == self.conversation_state.conversation_id,
            r.conversation_state.history == self.conversation_state.history,
            r.conversation_state.chat_trigger_type == self.conversation_state.chat_trigger_type,
            r.conversation_state.agent_continuation_id
                == self.conversation_state.agent_continuation_id,
            r.conversation_state.agent_task_type == self.conversation_state.agent_task_type,
    {
        let mut s = self;
        s.conversation_state.current_message.user_input_message.user_input_message_context.tool_results =
            tool_results;
        s
    }
}

} // verus!
