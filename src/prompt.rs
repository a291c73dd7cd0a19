//! Prompts: named, described templates and the messages they produce.
use vstd::prelude::*;

verus! {

/// A prompt that can be used to generate text from a model.
#[derive(Debug)]
pub struct Prompt {
    /// The name of the prompt.
    pub name: String,
    /// A description of what the prompt does.
    pub description: String,
    /// The arguments that can be passed to customize the prompt.
    pub arguments: Vec<PromptArgument>,
}

impl Prompt {
    /// A prompt with the given name, description and arguments.
    pub fn new(name: &str, description: &str, arguments: Vec<PromptArgument>) -> (r: Prompt)
        ensures
            r.name@ == name@,
            r.description@ == description@,
            r.arguments == arguments,
    {
        Prompt { name: name.to_owned(), description: description.to_owned(), arguments }
    }
}

/// An argument that can be passed to customize a prompt.
#[derive(Debug)]
pub struct PromptArgument {
    /// The name of the argument.
    pub name: String,
    /// A description of what the argument is used for.
    pub description: String,
    /// Whether this argument is required.
    pub required: bool,
}

/// The role of a message sender in a prompt conversation.
#[derive(Debug, Clone, Copy, PartialEq, Eq, Structural)]
pub enum PromptMessageRole {
    User,
    Assistant,
}

/// Content that a prompt message can hold.
#[derive(Debug)]
pub enum PromptMessageContent {
    /// Plain text.
    Text { text: String },
    /// An image, as base64 data with its MIME type.
    Image { data: String, mime_type: String },
    /// An embedded server-side resource.
    Resource { resource: ResourceContent },
}

/// The content of an embedded resource.
#[derive(Debug)]
pub struct ResourceContent {
    pub uri: String,
    pub mime_type: String,
    pub text: Option<String>,
    pub blob: Option<String>,
}

/// A message in a prompt conversation.
#[derive(Debug)]
pub struct PromptMessage {
    /// The role of the message sender.
    pub role: PromptMessageRole,
    /// The content of the message.
    pub content: PromptMessageContent,
}

/// Why a prompt message could not be made.
#[derive(Debug)]
pub enum PromptError {
    InvalidParameters(String),
    InternalError(String),
    NotFound(String),
}

/// Whether the standard base64 alphabet, with padding, decodes `s`.
pub uninterp spec fn base64_decodes(s: Seq<char>) -> bool;

/// Relies on the base64 crate's `STANDARD` engine and its `decode`: whether a
/// text decodes depends on the text alone.
#[verifier::external_body]
fn is_standard_base64(s: &str) -> (r: bool)
    ensures
        r == base64_decodes(s@),
{
    base64::Engine::decode(&base64::engine::general_purpose::STANDARD, s).is_ok()
}

/// Whether `s` starts with `p`.
pub fn starts_with(s: &str, p: &str) -> (r: bool)
    ensures
        r == (p@.len() <= s@.len() && s@.subrange(0, p@.len() as int) == p@),
{
    let n = p.unicode_len();
    if n > s.unicode_len() {
        return false;
    }
    let mut i: usize = 0;
    while i < n
        invariant
            n == p@.len(),
            n <= s@.len(),
            0 <= i <= n,
            forall|j: int| 0 <= j < i ==> s@[j] == p@[j],
        decreases n - i,
    {
        if s.get_char(i) != p.get_char(i) {
            assert(s@.subrange(0, n as int)[i as int] != p@[i as int]);
            return false;
        }
        i = i + 1;
    }
    assert(s@.subrange(0, n as int) =~= p@);
    true
}

impl PromptMessage {
    /// A text message with the given role.
    pub fn new_text(role: PromptMessageRole, text: &str) -> (r: PromptMessage)
        ensures
            r.role == role,
            r.content is Text,
            r.content->Text_text@ == text@,
    {
        PromptMessage { role, content: PromptMessageContent::Text { text: text.to_owned() } }
    }

    /// An image message. The data must be valid base64 and the MIME type must
    /// be an image type.
    pub fn new_image(role: PromptMessageRole, data: &str, mime_type: &str) -> (r: Result<
        PromptMessage,
        PromptError,
    >)
        ensures
            r is Ok <==> (base64_decodes(data@) && mime_type@.len() >= 6
                && mime_type@.subrange(0, 6) == "image/"@),
            r is Ok ==> r->Ok_0.role == role && r->Ok_0.content is Image
                && r->Ok_0.content->Image_data@ == data@ && r->Ok_0.content->Image_mime_type@
                == mime_type@,
            r is Err ==> r->Err_0 is InvalidParameters,
    {
        proof {
            reveal_strlit("image/");
        }
        if !is_standard_base64(data) {
            return Err(PromptError::InvalidParameters("Image data must be valid base64".to_owned()));
        }
        if !starts_with(mime_type, "image/") {
            return Err(
                PromptError::InvalidParameters(
                    "MIME type must be a valid image type (e.g. image/jpeg)".to_owned(),
                ),
            );
        }
        Ok(
            PromptMessage {
                role,
                content: PromptMessageContent::Image {
                    data: data.to_owned(),
                    mime_type: mime_type.to_owned(),
                },
            },
        )
    }

    /// A message embedding a resource.
    pub fn new_resource(
        role: PromptMessageRole,
        uri: String,
        mime_type: String,
        text: Option<String>,
        blob: Option<String>,
    ) -> (r: PromptMessage)
        ensures
            r.role == role,
            r.content is Resource,
            r.content->resource == (ResourceContent { uri, mime_type, text, blob }),
    {
        PromptMessage {
            role,
            content: PromptMessageContent::Resource {
                resource: ResourceContent { uri, mime_type, text, blob },
            },
        }
    }
}

/// A template for a prompt.
#[derive(Debug)]
pub struct PromptTemplate {
    pub id: String,
    pub template: String,
    pub arguments: Vec<PromptArgumentTemplate>,
}

/// An argument of a prompt template.
#[derive(Debug)]
pub struct PromptArgumentTemplate {
    pub name: String,
    pub description: String,
    pub required: bool,
}

} // verus!
