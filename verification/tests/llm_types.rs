use serde_json::Value;

use vtcode_core::llm::cache::{entries_to_evict, generate_cache_key, LLMCacheConfig};
use vtcode_core::llm::types::{
    BackendKind, ContentPart, FinishReason, Function, LLMError, Message, MessageContent,
    MessageRole, Tool, ToolCall, ToolChoice, ToolDefinition,
};

fn json(text: &str) -> Value {
    serde_json::from_str(text).unwrap()
}

#[test]
fn role_tags_follow_each_provider() {
    let roles = [MessageRole::System, MessageRole::User, MessageRole::Assistant, MessageRole::Tool];
    let openai: Vec<&str> = roles.iter().map(|r| r.as_openai_str()).collect();
    assert_eq!(openai, vec!["system", "user", "assistant", "tool"]);
    let generic: Vec<&str> = roles.iter().map(|r| r.as_generic_str()).collect();
    assert_eq!(generic, openai);
    let gemini: Vec<&str> = roles.iter().map(|r| r.as_gemini_str()).collect();
    assert_eq!(gemini, vec!["user", "user", "model", "user"]);
    let anthropic: Vec<&str> = roles.iter().map(|r| r.as_anthropic_str()).collect();
    assert_eq!(anthropic, vec!["user", "user", "assistant", "user"]);
}

#[test]
fn message_content_text_and_parts() {
    let text = MessageContent::text("hi".to_string());
    assert_eq!(text.as_text(), Some("hi"));
    assert!(!text.is_empty());
    assert!(MessageContent::text(String::new()).is_empty());
    let parts = MessageContent::parts(vec![ContentPart::text("a".to_string())]);
    assert_eq!(parts.as_text(), None);
    assert!(!parts.is_empty());
    assert!(MessageContent::parts(Vec::new()).is_empty());
}

#[test]
fn image_part_is_a_data_url() {
    assert_eq!(
        ContentPart::image("QUJD".to_string(), "image/png".to_string()),
        ContentPart::Image { url: "data:image/png;base64,QUJD".to_string() }
    );
    assert_eq!(
        ContentPart::text("t".to_string()),
        ContentPart::Text { text: "t".to_string() }
    );
}

#[test]
fn message_constructors_set_role_and_fields() {
    let user = Message::user("q".to_string());
    assert_eq!(user.role, MessageRole::User);
    assert_eq!(user.as_text(), Some("q"));
    assert!(user.tool_calls.is_none() && user.tool_call_id.is_none() && user.origin_tool.is_none());
    assert_eq!(Message::system("s".to_string()).role, MessageRole::System);
    assert_eq!(Message::assistant("a".to_string()).role, MessageRole::Assistant);

    let parts = vec![ContentPart::text("p".to_string())];
    let with_parts = Message::user_with_parts(parts.clone());
    assert_eq!(with_parts.content, MessageContent::Parts(parts.clone()));
    assert_eq!(with_parts.as_text(), None);
    assert_eq!(Message::assistant_with_parts(parts).role, MessageRole::Assistant);

    let response = Message::tool_response("call_1".to_string(), "{}".to_string());
    assert!(response.is_tool_response());
    assert_eq!(response.tool_call_id.as_deref(), Some("call_1"));
    assert!(!user.is_tool_response());
    let origin =
        Message::tool_response_with_origin("c".to_string(), "{}".to_string(), "grep".to_string());
    assert_eq!(origin.origin_tool.as_deref(), Some("grep"));

    let reasoned = Message::user("q".to_string()).with_reasoning(Some("because".to_string()));
    assert_eq!(reasoned.reasoning.as_deref(), Some("because"));
    assert_eq!(reasoned.as_text(), Some("q"));
}

#[test]
fn assistant_with_tools_drops_an_empty_list() {
    let none = Message::assistant_with_tools("a".to_string(), Vec::new());
    assert!(none.tool_calls.is_none());
    assert!(!none.has_tool_calls());
    assert!(none.as_tool_calls().is_none());
    let call = ToolCall::function("id".to_string(), "name".to_string(), "{}".to_string());
    let some = Message::assistant_with_tools("a".to_string(), vec![call.clone()]);
    assert!(some.has_tool_calls());
    assert_eq!(some.as_tool_calls(), Some(&vec![call]));
    let mut empty = Message::assistant("a".to_string());
    empty.tool_calls = Some(Vec::new());
    assert!(!empty.has_tool_calls());
}

#[test]
fn validate_rejects_a_message_without_content_and_calls() {
    assert_eq!(
        Message::assistant(String::new()).validate_for_provider("openai"),
        Err("Message content and tool calls cannot both be empty".to_string())
    );
    assert_eq!(Message::assistant("x".to_string()).validate_for_provider("openai"), Ok(()));
    let mut calls_only = Message::assistant(String::new());
    calls_only.tool_calls = Some(Vec::new());
    assert_eq!(calls_only.validate_for_provider("gemini"), Ok(()));
}

#[test]
fn tool_call_function_and_parsed_arguments() {
    let call = ToolCall::function("id".to_string(), "run".to_string(), r#"{"a": [1, 2]}"#.to_string());
    assert_eq!(call.call_type, "function");
    assert_eq!(call.function.name, "run");
    assert!(call.text.is_none());
    assert_eq!(call.parsed_arguments().unwrap(), json(r#"{"a": [1, 2]}"#));
    let broken = ToolCall::function("id".to_string(), "run".to_string(), "{oops".to_string());
    assert!(broken.parsed_arguments().is_err());
}

#[test]
fn tool_choice_constructors() {
    assert_eq!(ToolChoice::auto(), ToolChoice::Auto);
    assert_eq!(ToolChoice::any(), ToolChoice::Any);
    assert_eq!(ToolChoice::tool("t".to_string()), ToolChoice::Tool("t".to_string()));
    assert_eq!(ToolChoice::function("t".to_string()), ToolChoice::Tool("t".to_string()));
    assert_eq!(ToolChoice::none(), ToolChoice::NoTools);
}

#[test]
fn tool_choice_in_each_provider_format() {
    let tool = ToolChoice::Tool("grep".to_string());
    for key in ["openai", "anthropic", "deepseek", "openrouter", "moonshot", "ollama", "xai", "zai"] {
        assert_eq!(ToolChoice::Auto.to_provider_format(key), json(r#""auto""#));
        assert_eq!(ToolChoice::Any.to_provider_format(key), json(r#""auto""#));
        assert_eq!(ToolChoice::NoTools.to_provider_format(key), json(r#""none""#));
        assert_eq!(
            tool.to_provider_format(key),
            json(r#"{"type": "function", "function": {"name": "grep"}}"#)
        );
    }
    assert_eq!(
        ToolChoice::Auto.to_provider_format("gemini"),
        json(r#"{"function_calling_config": {"mode": "auto"}}"#)
    );
    assert_eq!(
        ToolChoice::Any.to_provider_format("gemini"),
        json(r#"{"function_calling_config": {"mode": "auto"}}"#)
    );
    assert_eq!(
        tool.to_provider_format("gemini"),
        json(r#"{"function_calling_config": {"mode": "any", "allowed_function_names": ["grep"]}}"#)
    );
    assert_eq!(
        ToolChoice::NoTools.to_provider_format("gemini"),
        json(r#"{"function_calling_config": {"mode": "none"}}"#)
    );
    assert_eq!(tool.to_provider_format("unknown"), json(r#""auto""#));
    assert_eq!(ToolChoice::NoTools.to_provider_format("OpenAI"), json(r#""auto""#));
}

#[test]
fn tool_definitions() {
    let schema = json(r#"{"type": "object"}"#);
    let function = ToolDefinition::function("f".to_string(), "d".to_string(), schema.clone());
    assert_eq!(function.tool_type, "function");
    assert_eq!(function.function_name(), "f");
    assert_eq!(function.function.as_ref().unwrap().parameters, schema);
    assert!(function.strict.is_none());
    assert_eq!(function.clone().with_strict(true).strict, Some(true));

    let shell = ToolDefinition::shell(Some(schema.clone()));
    assert_eq!(shell.tool_type, "shell");
    assert_eq!(shell.function_name(), "");
    assert_eq!(shell.shell, Some(schema.clone()));

    let patch = ToolDefinition::apply_patch("Applies a patch".to_string());
    assert_eq!(patch.function_name(), "apply_patch");
    let definition = patch.function.unwrap();
    assert_eq!(definition.description, "Applies a patch");
    assert_eq!(
        definition.parameters,
        json(
            r#"{
                "type": "object",
                "properties": {
                    "input": {
                        "type": "string",
                        "description": "Structured patch content (e.g. unified diff) to apply to the workspace."
                    }
                },
                "required": ["input"],
                "additionalProperties": false
            }"#
        )
    );

    let tool = Tool {
        function: Function { name: "n".to_string(), description: "d".to_string(), parameters: schema },
    };
    assert_eq!(tool.function.as_ref(), &tool.function);
    assert_eq!(ToolDefinition::from_tool(&tool), function_named("n"));
}

fn function_named(name: &str) -> ToolDefinition {
    ToolDefinition::function(name.to_string(), "d".to_string(), json(r#"{"type": "object"}"#))
}

#[test]
fn llm_error_messages() {
    assert_eq!(LLMError::ApiError("x".to_string()).message(), "API error: x");
    assert_eq!(LLMError::NetworkError("x".to_string()).message(), "Network error: x");
    assert_eq!(LLMError::RateLimit.message(), "Rate limit exceeded");
    assert_eq!(LLMError::InvalidRequest("x".to_string()).message(), "Invalid request: x");
    assert_eq!(LLMError::Authentication("x".to_string()).message(), "Authentication error: x");
    assert_eq!(LLMError::Provider("x".to_string()).message(), "Provider error: x");
}

#[test]
fn plain_enums_compare() {
    assert_ne!(BackendKind::Gemini, BackendKind::OpenAI);
    assert_eq!(FinishReason::Error("e".to_string()), FinishReason::Error("e".to_string()));
    assert_ne!(FinishReason::Stop, FinishReason::Length);
}

#[test]
fn cache_config_defaults() {
    let config = LLMCacheConfig::default();
    assert!(config.enabled);
    assert_eq!(config.max_entries, 100);
    assert_eq!(config.ttl, std::time::Duration::from_secs(60 * 60));
}

#[test]
fn cache_key_is_the_sha256_of_the_request() {
    assert_eq!(
        generate_cache_key("abc"),
        "ba7816bf8f01cfea414140de5dae2223b00361a396177a9cb410ff61f20015ad"
    );
    assert_eq!(
        generate_cache_key(""),
        "e3b0c44298fc1c149afbf4c8996fb92427ae41e4649b934ca495991b7852b855"
    );
    assert_ne!(generate_cache_key("{\"a\":1}"), generate_cache_key("{\"a\":2}"));
}

#[test]
fn eviction_takes_the_oldest_entries() {
    assert!(entries_to_evict(&vec![5, 9, 1], 3).is_empty());
    assert!(entries_to_evict(&vec![5, 9, 1], 10).is_empty());
    assert!(entries_to_evict(&Vec::new(), 0).is_empty());
    assert_eq!(entries_to_evict(&vec![5, 9, 1], 2), vec![1]);
    let mut two = entries_to_evict(&vec![5, 9, 1, 7], 2);
    two.sort();
    assert_eq!(two, vec![1, 3]);
    let mut all = entries_to_evict(&vec![4, 4, 4], 0);
    all.sort();
    assert_eq!(all, vec![0, 1, 2]);
    // Among entries of the same age any may go, but as many as are too many.
    assert_eq!(entries_to_evict(&vec![4, 4, 4], 2).len(), 1);
}
