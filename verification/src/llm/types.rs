//! Messages, tool calls and the other values exchanged with a language model.

use crate::json::{
    array_value, bool_value, entry_for, json_bool, json_items, json_member, json_parsed,
    json_text, lemma_members_among_keys, members_among, object_value, parse_value,
    string_value, text_field, texts_of,
};
use crate::text::{str_is, to_chars};
use serde_json::Value;
use vstd::prelude::*;
use vstd::string::StringExecFns;

verus! {

/// Backend kind for LLM providers.
#[derive(Debug, Clone, PartialEq, Eq)]
pub enum BackendKind {
    Gemini,
    OpenAI,
    Anthropic,
    DeepSeek,
    OpenRouter,
    Ollama,
    XAI,
    ZAI,
    Moonshot,
}

/// Who speaks in a conversation turn.
#[derive(Debug, Clone, PartialEq, Eq)]
pub enum MessageRole {
    System,
    User,
    Assistant,
    Tool,
}

impl MessageRole {
    /// The role tag in the OpenAI-compatible convention.
    pub open spec fn openai_tag(self) -> Seq<char> {
        match self {
            MessageRole::System => "system"@,
            MessageRole::User => "user"@,
            MessageRole::Assistant => "assistant"@,
            MessageRole::Tool => "tool"@,
        }
    }

    /// The provider-neutral role tag; it is the one the token estimate counts.
    pub open spec fn generic_tag(self) -> Seq<char> {
        self.openai_tag()
    }

    /// The role tag for Gemini, which knows only `user` and `model`.
    pub open spec fn gemini_tag(self) -> Seq<char> {
        match self {
            MessageRole::Assistant => "model"@,
            _ => "user"@,
        }
    }

    /// The role tag for Anthropic, which knows only `user` and `assistant`.
    pub open spec fn anthropic_tag(self) -> Seq<char> {
        match self {
            MessageRole::Assistant => "assistant"@,
            _ => "user"@,
        }
    }

    pub fn as_openai_str(&self) -> (r: &'static str)
        ensures
            r@ == self.openai_tag(),
    {
        match self {
            MessageRole::System => "system",
            MessageRole::User => "user",
            MessageRole::Assistant => "assistant",
            MessageRole::Tool => "tool",
        }
    }

    pub fn as_generic_str(&self) -> (r: &'static str)
        ensures
            r@ == self.generic_tag(),
    {
        match self {
            MessageRole::System => "system",
            MessageRole::User => "user",
            MessageRole::Assistant => "assistant",
            MessageRole::Tool => "tool",
        }
    }

    pub fn as_gemini_str(&self) -> (r: &'static str)
        ensures
            r@ == self.gemini_tag(),
    {
        match self {
            MessageRole::User => "user",
            MessageRole::Assistant => "model",
            _ => "user",
        }
    }

    pub fn as_anthropic_str(&self) -> (r: &'static str)
        ensures
            r@ == self.anthropic_tag(),
    {
        match self {
            MessageRole::User => "user",
            MessageRole::Assistant => "assistant",
            _ => "user",
        }
    }
}

/// The length of each role tag.
pub proof fn lemma_generic_tag_len(role: MessageRole)
    ensures
        role.generic_tag().len() == match role {
            MessageRole::System => 6nat,
            MessageRole::User => 4nat,
            MessageRole::Assistant => 9nat,
            MessageRole::Tool => 4nat,
        },
{
    reveal_strlit("system");
    reveal_strlit("user");
    reveal_strlit("assistant");
    reveal_strlit("tool");
}

/// One part of a multi-part message body.
#[derive(Debug, Clone, PartialEq, Eq)]
pub enum ContentPart {
    Text { text: String },
    Image { url: String },
}

impl ContentPart {
    pub fn text(text: String) -> (r: Self)
        ensures
            r == (ContentPart::Text { text }),
    {
        ContentPart::Text { text }
    }

    /// An image part from raw base64 data and a MIME type, stored as the
    /// data URL `data:<mime_type>;base64,<data>`.
    pub fn image(data: String, mime_type: String) -> (r: Self)
        ensures
            r matches ContentPart::Image { url } && url@ == "data:"@ + mime_type@ + ";base64,"@
                + data@,
    {
        let mut url = String::from_str("data:");
        url.append(mime_type.as_str());
        url.append(";base64,");
        url.append(data.as_str());
        ContentPart::Image { url }
    }
}

/// The text of a part: its own text, or nothing for an image.
pub open spec fn part_text(part: ContentPart) -> Seq<char> {
    match part {
        ContentPart::Text { text } => text@,
        ContentPart::Image { .. } => Seq::empty(),
    }
}

/// The texts of the first `upto` parts, one after the other.
pub open spec fn parts_text(parts: Seq<ContentPart>, upto: int) -> Seq<char>
    decreases upto,
{
    if upto <= 0 {
        Seq::empty()
    } else {
        parts_text(parts, upto - 1) + part_text(parts[upto - 1])
    }
}

/// The body of a message: one text block or an ordered list of parts.
#[derive(Debug, Clone, PartialEq, Eq)]
pub enum MessageContent {
    Text(String),
    Parts(Vec<ContentPart>),
}

impl MessageContent {
    /// The text of a single-block body; a multi-part body has none.
    pub open spec fn text_view(self) -> Option<Seq<char>> {
        match self {
            MessageContent::Text(text) => Some(text@),
            MessageContent::Parts(_) => None,
        }
    }

    /// The text content of the body: the block itself, or the text parts of
    /// a multi-part body one after the other. Images have no text.
    pub open spec fn plain_text(self) -> Seq<char> {
        match self {
            MessageContent::Text(text) => text@,
            MessageContent::Parts(parts) => parts_text(parts@, parts@.len() as int),
        }
    }

    pub open spec fn spec_is_empty(self) -> bool {
        match self {
            MessageContent::Text(text) => text@.len() == 0,
            MessageContent::Parts(parts) => parts@.len() == 0,
        }
    }

    pub fn text(text: String) -> (r: Self)
        ensures
            r == MessageContent::Text(text),
    {
        MessageContent::Text(text)
    }

    pub fn parts(parts: Vec<ContentPart>) -> (r: Self)
        ensures
            r == MessageContent::Parts(parts),
    {
        MessageContent::Parts(parts)
    }

    pub fn as_text(&self) -> (r: Option<&str>)
        ensures
            match r {
                Some(s) => self.text_view() == Some(s@),
                None => self.text_view() is None,
            },
    {
        match self {
            MessageContent::Text(text) => Some(text.as_str()),
            MessageContent::Parts(_) => None,
        }
    }

    pub fn is_empty(&self) -> (r: bool)
        ensures
            r == self.spec_is_empty(),
    {
        match self {
            MessageContent::Text(text) => text.as_str().is_empty(),
            MessageContent::Parts(parts) => parts.len() == 0,
        }
    }

    /// The text content of the body.
    pub fn to_plain_text(&self) -> (r: String)
        ensures
            r@ == self.plain_text(),
    {
        match self {
            MessageContent::Text(text) => text.clone(),
            MessageContent::Parts(parts) => {
                let mut joined = String::new();
                let mut i: usize = 0;
                while i < parts.len()
                    invariant
                        i <= parts.len(),
                        joined@ == parts_text(parts@, i as int),
                    decreases parts.len() - i,
                {
                    match &parts[i] {
                        ContentPart::Text { text } => {
                            joined.append(text.as_str());
                        },
                        ContentPart::Image { .. } => {
                            proof {
                                assert(joined@ + Seq::<char>::empty() =~= joined@);
                            }
                        },
                    }
                    i += 1;
                }
                joined
            },
        }
    }
}

/// The function a tool call names, with its arguments as a JSON string.
#[derive(Debug, Clone, PartialEq, Eq)]
pub struct FunctionCall {
    pub name: String,
    pub arguments: String,
}

/// A request by the assistant to run a named function.
#[derive(Debug, Clone, PartialEq, Eq)]
pub struct ToolCall {
    pub id: String,
    pub function: FunctionCall,
    pub call_type: String,
    pub text: Option<String>,
}

impl ToolCall {
    /// A call of type `function`.
    pub fn function(id: String, name: String, arguments: String) -> (r: Self)
        ensures
            r.id == id,
            r.function.name == name,
            r.function.arguments == arguments,
            r.call_type@ == "function"@,
            r.text is None,
    {
        ToolCall {
            id,
            function: FunctionCall { name, arguments },
            call_type: String::from_str("function"),
            text: None,
        }
    }

    /// The arguments of the call as a JSON value, or the error of the
    /// parser where the argument string is not valid JSON.
    pub fn parsed_arguments(&self) -> (r: Result<Value, serde_json::Error>)
        ensures
            match r {
                Ok(value) => json_parsed(self.function.arguments@) == Some(value),
                Err(_) => json_parsed(self.function.arguments@) is None,
            },
    {
        parse_value(self.function.arguments.as_str())
    }
}

/// How the model may choose among the offered tools.
#[derive(Debug, Clone, PartialEq, Eq)]
pub enum ToolChoice {
    Auto,
    Any,
    Tool(String),
    /// The model may call no tool.
    NoTools,
}

impl ToolChoice {
    pub fn auto() -> (r: Self)
        ensures
            r == ToolChoice::Auto,
    {
        ToolChoice::Auto
    }

    pub fn any() -> (r: Self)
        ensures
            r == ToolChoice::Any,
    {
        ToolChoice::Any
    }

    pub fn tool(name: String) -> (r: Self)
        ensures
            r == ToolChoice::Tool(name),
    {
        ToolChoice::Tool(name)
    }

    /// Same as [`ToolChoice::tool`]; kept for callers that use the older name.
    pub fn function(name: String) -> (r: Self)
        ensures
            r == ToolChoice::Tool(name),
    {
        ToolChoice::Tool(name)
    }

    pub fn none() -> (r: Self)
        ensures
            r == ToolChoice::NoTools,
    {
        ToolChoice::NoTools
    }

    /// The tool choice in the JSON form that the provider `provider_key`
    /// expects.
    pub fn to_provider_format(&self, provider_key: &str) -> (r: Value)
        ensures
            encodes_choice(r, *self, wire_style(provider_key@)),
    {
        let key = to_chars(provider_key);
        let openai = str_is(&key, "openai") || str_is(&key, "anthropic") || str_is(&key, "deepseek")
            || str_is(&key, "openrouter") || str_is(&key, "moonshot") || str_is(&key, "ollama")
            || str_is(&key, "xai") || str_is(&key, "zai");
        if openai {
            match self {
                ToolChoice::Auto | ToolChoice::Any => string_value(String::from_str("auto")),
                ToolChoice::Tool(name) => {
                    let function = single_member("name", string_value(name.clone()));
                    let mut entries: Vec<(String, Value)> = Vec::new();
                    entries.push((String::from_str("type"), string_value(String::from_str("function"))));
                    entries.push((String::from_str("function"), function));
                    proof {
                        lemma_type_is_not_function();
                        reveal_with_fuel(entry_for, 3);
                    }
                    let ghost listed = entries@;
                    let r = object_value(entries);
                    proof {
                        lemma_members_among_keys(r, listed, seq!["type"@, "function"@]);
                    }
                    r
                },
                ToolChoice::NoTools => string_value(String::from_str("none")),
            }
        } else if str_is(&key, "gemini") {
            let mut config: Vec<(String, Value)> = Vec::new();
            match self {
                ToolChoice::Auto | ToolChoice::Any => {
                    config.push((String::from_str("mode"), string_value(String::from_str("auto"))));
                    proof {
                        reveal_with_fuel(entry_for, 3);
                    }
                },
                ToolChoice::Tool(name) => {
                    let mut names: Vec<Value> = Vec::new();
                    names.push(string_value(name.clone()));
                    config.push((String::from_str("mode"), string_value(String::from_str("any"))));
                    config.push((String::from_str("allowed_function_names"), array_value(names)));
                    proof {
                        lemma_mode_is_not_allowed_names();
                        reveal_with_fuel(entry_for, 3);
                        assert(texts_of(names@) =~= seq![Some(name@)]);
                    }
                },
                ToolChoice::NoTools => {
                    config.push((String::from_str("mode"), string_value(String::from_str("none"))));
                    proof {
                        reveal_with_fuel(entry_for, 3);
                    }
                },
            }
            let ghost listed = config@;
            let mode = object_value(config);
            proof {
                lemma_members_among_keys(
                    mode,
                    listed,
                    Seq::new(listed.len(), |i: int| listed[i].0@),
                );
                match self {
                    ToolChoice::Tool(_) => {
                        assert(Seq::new(listed.len(), |i: int| listed[i].0@) =~= seq![
                            "mode"@,
                            "allowed_function_names"@,
                        ]);
                    },
                    _ => {
                        assert(Seq::new(listed.len(), |i: int| listed[i].0@) =~= seq!["mode"@]);
                    },
                }
            }
            single_member("function_calling_config", mode)
        } else {
            string_value(String::from_str("auto"))
        }
    }
}

/// The JSON object with the one member `key`.
fn single_member(key: &str, value: Value) -> (r: Value)
    ensures
        json_member(r, key@) == Some(value),
        members_among(r, seq![key@]),
{
    let mut entries: Vec<(String, Value)> = Vec::new();
    entries.push((String::from_str(key), value));
    proof {
        reveal_with_fuel(entry_for, 2);
    }
    let ghost listed = entries@;
    let r = object_value(entries);
    proof {
        lemma_members_among_keys(r, listed, seq![key@]);
    }
    r
}

proof fn lemma_type_is_not_function()
    ensures
        "type"@ != "function"@,
{
    reveal_strlit("type");
    reveal_strlit("function");
    assert("type"@.len() == 4 && "function"@.len() == 8);
}

proof fn lemma_mode_is_not_allowed_names()
    ensures
        "mode"@ != "allowed_function_names"@,
{
    reveal_strlit("mode");
    reveal_strlit("allowed_function_names");
    assert("mode"@.len() == 4 && "allowed_function_names"@.len() == 22);
}

/// How a provider wants tool choices written.
pub enum WireStyle {
    /// As OpenAI does, which most providers follow.
    OpenAi,
    /// As Gemini does.
    Gemini,
    /// An unknown provider: always `auto`.
    Unknown,
}

/// The style of the provider with this key.
pub open spec fn wire_style(provider_key: Seq<char>) -> WireStyle {
    if provider_key == "openai"@ || provider_key == "anthropic"@ || provider_key == "deepseek"@
        || provider_key == "openrouter"@ || provider_key == "moonshot"@ || provider_key
        == "ollama"@ || provider_key == "xai"@ || provider_key == "zai"@ {
        WireStyle::OpenAi
    } else if provider_key == "gemini"@ {
        WireStyle::Gemini
    } else {
        WireStyle::Unknown
    }
}

/// `config` is the Gemini function calling configuration for `choice`: the
/// mode, which for a named tool is `any` with that one name allowed, and
/// no other member.
pub open spec fn encodes_mode(config: Value, choice: ToolChoice) -> bool {
    match choice {
        ToolChoice::Auto | ToolChoice::Any => {
            &&& text_field(config, "mode"@) == Some("auto"@)
            &&& members_among(config, seq!["mode"@])
        },
        ToolChoice::NoTools => {
            &&& text_field(config, "mode"@) == Some("none"@)
            &&& members_among(config, seq!["mode"@])
        },
        ToolChoice::Tool(name) => {
            &&& text_field(config, "mode"@) == Some("any"@)
            &&& match json_member(config, "allowed_function_names"@) {
                Some(allowed) => match json_items(allowed) {
                    Some(items) => texts_of(items) == seq![Some(name@)],
                    None => false,
                },
                None => false,
            }
            &&& members_among(config, seq!["mode"@, "allowed_function_names"@])
        },
    }
}

/// `value` is the tool choice `choice` in the given style.
///
/// In the OpenAI style, `auto` and `any` are the string `auto`, no tools is
/// the string `none`, and a named tool is an object of type `function` that
/// names the function. In the Gemini style the choice is an object that
/// holds the function calling configuration. No object has a member beyond
/// those named.
pub open spec fn encodes_choice(value: Value, choice: ToolChoice, style: WireStyle) -> bool {
    match style {
        WireStyle::Unknown => json_text(value) == Some("auto"@),
        WireStyle::OpenAi => match choice {
            ToolChoice::Auto | ToolChoice::Any => json_text(value) == Some("auto"@),
            ToolChoice::NoTools => json_text(value) == Some("none"@),
            ToolChoice::Tool(name) => {
                &&& text_field(value, "type"@) == Some("function"@)
                &&& match json_member(value, "function"@) {
                    Some(function) => text_field(function, "name"@) == Some(name@) && members_among(
                        function,
                        seq!["name"@],
                    ),
                    None => false,
                }
                &&& members_among(value, seq!["type"@, "function"@])
            },
        },
        WireStyle::Gemini => match json_member(value, "function_calling_config"@) {
            None => false,
            Some(config) => encodes_mode(config, choice) && members_among(
                value,
                seq!["function_calling_config"@],
            ),
        },
    }
}

/// Limits on running several tools at once.
#[derive(Debug, Clone, PartialEq, Eq)]
pub struct ParallelToolConfig {
    pub disable_parallel_tool_use: bool,
    pub max_parallel_tools: Option<u32>,
    pub encourage_parallel: bool,
}

/// Token usage information.
#[derive(Debug, Clone)]
pub struct Usage {
    pub prompt_tokens: usize,
    pub completion_tokens: usize,
    pub total_tokens: usize,
    pub cached_prompt_tokens: Option<usize>,
    pub cache_creation_tokens: Option<usize>,
    pub cache_read_tokens: Option<usize>,
}

/// Why a request to a provider failed.
#[derive(Debug)]
pub enum LLMError {
    ApiError(String),
    NetworkError(String),
    RateLimit,
    InvalidRequest(String),
    Authentication(String),
    Provider(String),
}

impl LLMError {
    /// The text shown to the user for this error.
    pub open spec fn message_view(self) -> Seq<char> {
        match self {
            LLMError::ApiError(detail) => "API error: "@ + detail@,
            LLMError::NetworkError(detail) => "Network error: "@ + detail@,
            LLMError::RateLimit => "Rate limit exceeded"@,
            LLMError::InvalidRequest(detail) => "Invalid request: "@ + detail@,
            LLMError::Authentication(detail) => "Authentication error: "@ + detail@,
            LLMError::Provider(detail) => "Provider error: "@ + detail@,
        }
    }

    /// The text shown to the user for this error.
    pub fn message(&self) -> (r: String)
        ensures
            r@ == self.message_view(),
    {
        match self {
            LLMError::ApiError(detail) => String::from_str("API error: ").concat(detail.as_str()),
            LLMError::NetworkError(detail) => String::from_str("Network error: ").concat(
                detail.as_str(),
            ),
            LLMError::RateLimit => String::from_str("Rate limit exceeded"),
            LLMError::InvalidRequest(detail) => String::from_str("Invalid request: ").concat(
                detail.as_str(),
            ),
            LLMError::Authentication(detail) => String::from_str("Authentication error: ").concat(
                detail.as_str(),
            ),
            LLMError::Provider(detail) => String::from_str("Provider error: ").concat(
                detail.as_str(),
            ),
        }
    }
}

/// Why the model stopped producing output.
#[derive(Debug, Clone, PartialEq, Eq)]
pub enum FinishReason {
    Stop,
    Length,
    ToolCalls,
    ContentFilter,
    FunctionCall,
    Error(String),
}

/// One turn of a conversation.
#[derive(Debug, Clone, PartialEq, Eq)]
pub struct Message {
    pub role: MessageRole,
    pub content: MessageContent,
    pub tool_calls: Option<Vec<ToolCall>>,
    pub tool_call_id: Option<String>,
    pub reasoning: Option<String>,
    pub reasoning_details: Option<Vec<Value>>,
    pub origin_tool: Option<String>,
}

impl Message {
    /// A message of the given role with this body and nothing else set.
    pub open spec fn is_plain(self, role: MessageRole, content: MessageContent) -> bool {
        &&& self.role == role
        &&& self.content == content
        &&& self.tool_calls is None
        &&& self.tool_call_id is None
        &&& self.reasoning is None
        &&& self.reasoning_details is None
        &&& self.origin_tool is None
    }

    /// The message answers a tool call.
    pub open spec fn spec_is_tool_response(self) -> bool {
        self.role == MessageRole::Tool
    }

    /// The message carries at least one tool call.
    pub open spec fn spec_has_tool_calls(self) -> bool {
        self.tool_calls matches Some(calls) && calls@.len() > 0
    }

    /// The data model's invariant: a tool message names the call it answers.
    pub open spec fn well_formed(self) -> bool {
        self.role == MessageRole::Tool ==> (self.tool_call_id matches Some(id) && id@.len() > 0)
    }

    pub fn user(content: String) -> (r: Self)
        ensures
            r.is_plain(MessageRole::User, MessageContent::Text(content)),
    {
        Message {
            role: MessageRole::User,
            content: MessageContent::Text(content),
            tool_calls: None,
            tool_call_id: None,
            reasoning: None,
            reasoning_details: None,
            origin_tool: None,
        }
    }

    pub fn user_with_parts(parts: Vec<ContentPart>) -> (r: Self)
        ensures
            r.is_plain(MessageRole::User, MessageContent::Parts(parts)),
    {
        Message {
            role: MessageRole::User,
            content: MessageContent::Parts(parts),
            tool_calls: None,
            tool_call_id: None,
            reasoning: None,
            reasoning_details: None,
            origin_tool: None,
        }
    }

    pub fn assistant(content: String) -> (r: Self)
        ensures
            r.is_plain(MessageRole::Assistant, MessageContent::Text(content)),
    {
        Message {
            role: MessageRole::Assistant,
            content: MessageContent::Text(content),
            tool_calls: None,
            tool_call_id: None,
            reasoning: None,
            reasoning_details: None,
            origin_tool: None,
        }
    }

    pub fn system(content: String) -> (r: Self)
        ensures
            r.is_plain(MessageRole::System, MessageContent::Text(content)),
    {
        Message {
            role: MessageRole::System,
            content: MessageContent::Text(content),
            tool_calls: None,
            tool_call_id: None,
            reasoning: None,
            reasoning_details: None,
            origin_tool: None,
        }
    }

    /// An assistant message with tool calls; an empty list is stored as no
    /// tool calls at all.
    pub fn assistant_with_tools(content: String, tool_calls: Vec<ToolCall>) -> (r: Self)
        ensures
            r.role == MessageRole::Assistant,
            r.content == MessageContent::Text(content),
            r.tool_calls == if tool_calls@.len() == 0 {
                None
            } else {
                Some(tool_calls)
            },
            r.tool_call_id is None,
            r.reasoning is None,
            r.reasoning_details is None,
            r.origin_tool is None,
    {
        Message {
            role: MessageRole::Assistant,
            content: MessageContent::Text(content),
            tool_calls: if tool_calls.len() == 0 {
                None
            } else {
                Some(tool_calls)
            },
            tool_call_id: None,
            reasoning: None,
            reasoning_details: None,
            origin_tool: None,
        }
    }

    pub fn assistant_with_parts(parts: Vec<ContentPart>) -> (r: Self)
        ensures
            r.is_plain(MessageRole::Assistant, MessageContent::Parts(parts)),
    {
        Message {
            role: MessageRole::Assistant,
            content: MessageContent::Parts(parts),
            tool_calls: None,
            tool_call_id: None,
            reasoning: None,
            reasoning_details: None,
            origin_tool: None,
        }
    }

    pub fn tool_response(tool_call_id: String, content: String) -> (r: Self)
        ensures
            r.well_formed() == (tool_call_id@.len() > 0),
            r.role == MessageRole::Tool,
            r.content == MessageContent::Text(content),
            r.tool_calls is None,
            r.tool_call_id == Some(tool_call_id),
            r.reasoning is None,
            r.reasoning_details is None,
            r.origin_tool is None,
    {
        Message {
            role: MessageRole::Tool,
            content: MessageContent::Text(content),
            tool_calls: None,
            tool_call_id: Some(tool_call_id),
            reasoning: None,
            reasoning_details: None,
            origin_tool: None,
        }
    }

    pub fn tool_response_with_origin(
        tool_call_id: String,
        content: String,
        origin_tool: String,
    ) -> (r: Self)
        ensures
            r.well_formed() == (tool_call_id@.len() > 0),
            r.role == MessageRole::Tool,
            r.content == MessageContent::Text(content),
            r.tool_calls is None,
            r.tool_call_id == Some(tool_call_id),
            r.reasoning is None,
            r.reasoning_details is None,
            r.origin_tool == Some(origin_tool),
    {
        Message {
            role: MessageRole::Tool,
            content: MessageContent::Text(content),
            tool_calls: None,
            tool_call_id: Some(tool_call_id),
            reasoning: None,
            reasoning_details: None,
            origin_tool: Some(origin_tool),
        }
    }

    pub fn as_text(&self) -> (r: Option<&str>)
        ensures
            match r {
                Some(s) => self.content.text_view() == Some(s@),
                None => self.content.text_view() is None,
            },
    {
        self.content.as_text()
    }

    pub fn as_tool_calls(&self) -> (r: Option<&Vec<ToolCall>>)
        ensures
            match r {
                Some(calls) => self.tool_calls == Some(*calls),
                None => self.tool_calls is None,
            },
    {
        self.tool_calls.as_ref()
    }

    pub fn is_tool_response(&self) -> (r: bool)
        ensures
            r == self.spec_is_tool_response(),
    {
        match self.role {
            MessageRole::Tool => true,
            _ => false,
        }
    }

    pub fn has_tool_calls(&self) -> (r: bool)
        ensures
            r == self.spec_has_tool_calls(),
    {
        match &self.tool_calls {
            Some(calls) => calls.len() > 0,
            None => false,
        }
    }

    pub fn with_reasoning(self, reasoning: Option<String>) -> (r: Self)
        ensures
            r == (Message { reasoning, ..self }),
    {
        let mut message = self;
        message.reasoning = reasoning;
        message
    }

    /// Rejects a message that has neither content nor a tool-call list.
    pub fn validate_for_provider(&self, _provider_key: &str) -> (r: Result<(), String>)
        ensures
            r is Err <==> (self.content.spec_is_empty() && self.tool_calls is None),
            r matches Err(reason) ==> reason@
                == "Message content and tool calls cannot both be empty"@,
    {
        if self.content.is_empty() && self.tool_calls.is_none() {
            return Err(String::from_str("Message content and tool calls cannot both be empty"));
        }
        Ok(())
    }
}

/// A function that the model may call, with the JSON schema of its
/// parameters.
#[derive(Debug, Clone, PartialEq, Eq)]
pub struct Function {
    pub name: String,
    pub description: String,
    pub parameters: Value,
}

impl Function {
    pub fn as_ref(&self) -> (r: &Self)
        ensures
            r == self,
    {
        self
    }
}

/// A tool offered to the model.
#[derive(Debug, Clone, PartialEq, Eq)]
pub struct Tool {
    pub function: Function,
}

/// The definition of a function tool.
#[derive(Debug, Clone, PartialEq, Eq)]
pub struct FunctionDefinition {
    pub name: String,
    pub description: String,
    pub parameters: Value,
}

/// The definition of a tool as it is sent to a provider.
#[derive(Debug, Clone, PartialEq, Eq)]
pub struct ToolDefinition {
    pub tool_type: String,
    pub function: Option<FunctionDefinition>,
    pub shell: Option<Value>,
    pub grammar: Option<Value>,
    pub strict: Option<bool>,
}

/// `input` is the schema of the one property of the patch tool: a text
/// with its description, and no other member.
pub open spec fn is_patch_input(input: Value) -> bool {
    &&& text_field(input, "type"@) == Some("string"@)
    &&& text_field(input, "description"@) == Some(
        "Structured patch content (e.g. unified diff) to apply to the workspace."@,
    )
    &&& members_among(input, seq!["type"@, "description"@])
}

/// `parameters` is the schema of the patch tool: an object with the one
/// required text property `input`, and no other properties allowed. No
/// object of the schema has a member beyond those named.
pub open spec fn is_patch_schema(parameters: Value) -> bool {
    &&& text_field(parameters, "type"@) == Some("object"@)
    &&& match json_member(parameters, "properties"@) {
        Some(properties) => {
            &&& match json_member(properties, "input"@) {
                Some(input) => is_patch_input(input),
                None => false,
            }
            &&& members_among(properties, seq!["input"@])
        },
        None => false,
    }
    &&& members_among(
        parameters,
        seq!["type"@, "properties"@, "required"@, "additionalProperties"@],
    )
    &&& match json_member(parameters, "required"@) {
        Some(required) => match json_items(required) {
            Some(items) => texts_of(items) == seq![Some("input"@)],
            None => false,
        },
        None => false,
    }
    &&& match json_member(parameters, "additionalProperties"@) {
        Some(flag) => json_bool(flag) == Some(false),
        None => false,
    }
}

impl ToolDefinition {
    /// The definition is a function tool with this name, description and
    /// parameter schema.
    pub open spec fn is_function(self, name: Seq<char>, description: Seq<char>, parameters: Value) -> bool {
        &&& self.tool_type@ == "function"@
        &&& match self.function {
            Some(function) => function.name@ == name && function.description@ == description
                && function.parameters == parameters,
            None => false,
        }
        &&& self.shell is None
        &&& self.grammar is None
        &&& self.strict is None
    }

    /// The name of the function, or the empty text for a tool that is no
    /// function.
    pub open spec fn spec_function_name(self) -> Seq<char> {
        match self.function {
            Some(function) => function.name@,
            None => Seq::empty(),
        }
    }

    pub fn function(name: String, description: String, parameters: Value) -> (r: Self)
        ensures
            r.is_function(name@, description@, parameters),
    {
        ToolDefinition {
            tool_type: String::from_str("function"),
            function: Some(FunctionDefinition { name, description, parameters }),
            shell: None,
            grammar: None,
            strict: None,
        }
    }

    /// The definition of the patch tool.
    pub fn apply_patch(description: String) -> (r: Self)
        ensures
            r.tool_type@ == "function"@,
            r.spec_function_name() == "apply_patch"@,
            match r.function {
                Some(function) => function.description@ == description@ && is_patch_schema(
                    function.parameters,
                ),
                None => false,
            },
            r.shell is None && r.grammar is None && r.strict is None,
    {
        let mut input: Vec<(String, Value)> = Vec::new();
        input.push((String::from_str("type"), string_value(String::from_str("string"))));
        input.push(
            (
                String::from_str("description"),
                string_value(
                    String::from_str(
                        "Structured patch content (e.g. unified diff) to apply to the workspace.",
                    ),
                ),
            ),
        );
        proof {
            lemma_schema_keys_differ();
            reveal_with_fuel(entry_for, 5);
        }
        let ghost listed = input@;
        let input = object_value(input);
        proof {
            lemma_members_among_keys(input, listed, seq!["type"@, "description"@]);
        }
        let properties = single_member("input", input);
        let mut required: Vec<Value> = Vec::new();
        required.push(string_value(String::from_str("input")));
        proof {
            assert(texts_of(required@) =~= seq![Some("input"@)]);
        }
        let mut entries: Vec<(String, Value)> = Vec::new();
        entries.push((String::from_str("type"), string_value(String::from_str("object"))));
        entries.push((String::from_str("properties"), properties));
        entries.push((String::from_str("required"), array_value(required)));
        entries.push((String::from_str("additionalProperties"), bool_value(false)));
        let ghost listed = entries@;
        let parameters = object_value(entries);
        proof {
            lemma_members_among_keys(
                parameters,
                listed,
                seq!["type"@, "properties"@, "required"@, "additionalProperties"@],
            );
        }
        ToolDefinition::function(String::from_str("apply_patch"), description, parameters)
    }

    /// The definition of the shell tool with its settings.
    pub fn shell(config: Option<Value>) -> (r: Self)
        ensures
            r.tool_type@ == "shell"@,
            r.function is None,
            r.shell == config,
            r.grammar is None,
            r.strict is None,
    {
        ToolDefinition {
            tool_type: String::from_str("shell"),
            function: None,
            shell: config,
            grammar: None,
            strict: None,
        }
    }

    pub fn with_strict(self, strict: bool) -> (r: Self)
        ensures
            r == (ToolDefinition { strict: Some(strict), ..self }),
    {
        let mut definition = self;
        definition.strict = Some(strict);
        definition
    }

    /// The name of the function, or the empty string for a tool that is no
    /// function.
    pub fn function_name(&self) -> (r: &str)
        ensures
            r@ == self.spec_function_name(),
    {
        proof {
            reveal_strlit("");
            assert(""@ =~= Seq::<char>::empty());
        }
        match &self.function {
            Some(function) => function.name.as_str(),
            None => "",
        }
    }
}

impl ToolDefinition {
    /// The definition of the function tool that `tool` offers.
    pub fn from_tool(tool: &Tool) -> (r: Self)
        ensures
            r.is_function(tool.function.name@, tool.function.description@, tool.function.parameters),
    {
        ToolDefinition::function(
            tool.function.name.clone(),
            tool.function.description.clone(),
            tool.function.parameters.clone(),
        )
    }
}

proof fn lemma_schema_keys_differ()
    ensures
        "type"@ != "description"@,
        "type"@ != "properties"@,
        "type"@ != "required"@,
        "type"@ != "additionalProperties"@,
        "properties"@ != "required"@,
        "properties"@ != "additionalProperties"@,
        "required"@ != "additionalProperties"@,
{
    reveal_strlit("type");
    reveal_strlit("description");
    reveal_strlit("properties");
    reveal_strlit("required");
    reveal_strlit("additionalProperties");
    assert("type"@.len() == 4 && "description"@.len() == 11 && "properties"@.len() == 10);
    assert("required"@.len() == 8 && "additionalProperties"@.len() == 20);
}

/// The response of a model, in the form all providers share.
#[derive(Debug, Clone)]
pub struct LLMResponse {
    pub content: String,
    pub model: String,
    pub usage: Option<Usage>,
    pub reasoning: Option<String>,
    pub tool_calls: Option<Vec<ToolCall>>,
    pub finish_reason: FinishReason,
    pub reasoning_details: Option<Vec<Value>>,
}

/// One event of a streamed response.
#[derive(Debug, Clone)]
pub enum LLMStreamEvent {
    Token { delta: String },
    Reasoning { delta: String },
    Completed { response: LLMResponse },
}

} // verus!
