//! The canonical message model shared by the adapters and the router.
use vstd::prelude::*;
use crate::json::Json;

verus! {

/// Who produced a message.
#[derive(Debug, Clone, Copy, PartialEq, Eq, Structural)]
pub enum Role {
    User,
    Assistant,
}

/// Content handed back by a tool or carried in a prompt.
#[derive(Debug)]
pub enum Content {
    Text { text: String },
    Image { data: String, mime_type: String },
}

impl Content {
    /// Text content.
    pub fn text(text: String) -> (r: Content)
        ensures
            r is Text,
            r->Text_text@ == text@,
    {
        Content::Text { text }
    }
}

/// A tool advertised to a backend: a name, a description and a JSON schema
/// of its parameters.
#[derive(Debug)]
pub struct Tool {
    pub name: String,
    pub description: String,
    pub input_schema: Json,
}

impl Tool {
    /// A tool with the given name, description and parameter schema.
    pub fn new(name: String, description: String, input_schema: Json) -> (r: Tool)
        ensures
            r.name@ == name@,
            r.description@ == description@,
            r.input_schema == input_schema,
    {
        Tool { name, description, input_schema }
    }
}

/// A request to run a tool: its name and its arguments.
#[derive(Debug)]
pub struct ToolCall {
    pub name: String,
    pub arguments: Json,
}

/// Why a requested tool call could not be read.
#[derive(Debug)]
pub enum ToolError {
    InvalidParameters(String),
    NotFound(String),
    ExecutionError(String),
}

/// One item of a message.
#[derive(Debug)]
pub enum MessageContent {
    Text(String),
    Image { data: String, mime_type: String },
    ToolRequest { id: String, tool_call: Result<ToolCall, ToolError> },
    ToolResponse { id: String, tool_result: Result<Vec<Content>, ToolError> },
}

/// A message: its producer and its ordered content.
#[derive(Debug)]
pub struct Message {
    pub role: Role,
    pub content: Vec<MessageContent>,
}

/// Whether some item of `content` is a tool request.
pub open spec fn has_tool_request(content: Seq<MessageContent>) -> bool {
    exists|i: int| 0 <= i < content.len() && (#[trigger] content[i]) is ToolRequest
}

impl Message {
    /// An empty message from the user.
    pub fn user() -> (r: Message)
        ensures
            r.role == Role::User,
            r.content@.len() == 0,
    {
        Message { role: Role::User, content: Vec::new() }
    }

    /// An empty message from the assistant.
    pub fn assistant() -> (r: Message)
        ensures
            r.role == Role::Assistant,
            r.content@.len() == 0,
    {
        Message { role: Role::Assistant, content: Vec::new() }
    }

    /// This message with a text item appended.
    pub fn with_text(self, text: &str) -> (r: Message)
        ensures
            r.role == self.role,
            r.content@.len() == self.content@.len() + 1,
            r.content@.subrange(0, self.content@.len() as int) == self.content@,
            r.content@.last() is Text,
            r.content@.last()->Text_0@ == text@,
    {
        let mut content = self.content;
        content.push(MessageContent::Text(text.to_owned()));
        assert(content@.subrange(0, self.content@.len() as int) =~= self.content@);
        Message { role: self.role, content }
    }

    /// Whether the message holds a tool request.
    pub fn is_tool_call(&self) -> (r: bool)
        ensures
            r == has_tool_request(self.content@),
    {
        let mut i: usize = 0;
        while i < self.content.len()
            invariant
                0 <= i <= self.content@.len(),
                forall|j: int| 0 <= j < i ==> !(#[trigger] self.content@[j] is ToolRequest),
            decreases self.content@.len() - i,
        {
            if let MessageContent::ToolRequest { .. } = &self.content[i] {
                return true;
            }
            i = i + 1;
        }
        false
    }
}

} // verus!
