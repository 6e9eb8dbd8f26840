use std::collections::HashMap;

use vtcode_core::context::blocks::{
    extract_code_blocks, language_hint_to_support, LanguageSupport,
};
use vtcode_core::context::cache::{compute_semantic_scores, message_semantic_hash};
use vtcode_core::context::config::{
    load_context_trim_config, ContextSettings, ContextTrimConfig, ContextTrimOutcome,
    AGGRESSIVE_PRESERVE_RECENT_TURNS, DEFAULT_MAX_STRUCTURAL_DEPTH, DEFAULT_MAX_TOKENS,
    DEFAULT_PRESERVE_RECENT_TOOLS, DEFAULT_PRESERVE_RECENT_TURNS, DEFAULT_TRIM_TO_PERCENT,
    MIN_PRESERVE_RECENT_TURNS,
};
use vtcode_core::context::enforce::enforce_unified_context_window;
use vtcode_core::context::prune::{apply_aggressive_trim_unified, prune_unified_tool_responses};
use vtcode_core::context::retain::retain_by_mask;
use vtcode_core::context::semantic::{
    compute_semantic_score, estimate_scope_depth, score_analyzed_blocks, score_symbols,
    CodeAnalyzer, NoAnalyzer, SymbolInfo, SymbolKind,
};
use vtcode_core::context::tokens::{approximate_unified_message_tokens, estimate_history_tokens};
use vtcode_core::context::window::enforce_window_with_scores;
use vtcode_core::llm::types::{ContentPart, Message, ToolCall};

/// Finds Rust functions by looking for `fn name(`; enough to tell code from
/// prose.
struct FnSpotter;

impl CodeAnalyzer for FnSpotter {
    type Tree = Vec<String>;

    fn detect_language_from_content(&mut self, content: &str) -> Option<LanguageSupport> {
        if content.contains("fn ") && content.contains('{') {
            Some(LanguageSupport::Rust)
        } else {
            None
        }
    }

    fn parse(&mut self, source: &str, _language: LanguageSupport) -> Option<Vec<String>> {
        if source.contains("<<broken>>") {
            return None;
        }
        Some(
            source
                .split("fn ")
                .skip(1)
                .filter_map(|rest| rest.split('(').next())
                .map(|name| name.trim().to_string())
                .collect(),
        )
    }

    fn extract_symbols(
        &mut self,
        tree: &Vec<String>,
        source: &str,
        _language: LanguageSupport,
    ) -> Option<Vec<SymbolInfo>> {
        if source.contains("<<no symbols>>") {
            return None;
        }
        Some(
            tree.iter()
                .map(|name| SymbolInfo {
                    name: name.clone(),
                    kind: SymbolKind::Function,
                    scope: None,
                })
                .collect(),
        )
    }
}

fn config(max_tokens: usize, trim_to_percent: u8, preserve_recent_turns: usize) -> ContextTrimConfig {
    ContextTrimConfig {
        max_tokens,
        trim_to_percent,
        preserve_recent_turns,
        semantic_compression: false,
        tool_aware_retention: false,
        max_structural_depth: DEFAULT_MAX_STRUCTURAL_DEPTH,
        preserve_recent_tools: DEFAULT_PRESERVE_RECENT_TOOLS,
    }
}

fn text_of(message: &Message) -> String {
    message.content.as_text().unwrap_or_default().to_string()
}

fn total_tokens(history: &[Message]) -> usize {
    history.iter().map(approximate_unified_message_tokens).sum()
}

fn assistant_with_call(text: &str, id: &str, tool: &str) -> Message {
    let mut msg = Message::assistant(text.to_string());
    msg.tool_calls = Some(vec![ToolCall::function(
        id.to_string(),
        tool.to_string(),
        "{}".to_string(),
    )]);
    msg
}

#[test]
fn test_enforce_unified_context_window_trims_and_preserves_latest() {
    let mut history: Vec<Message> = (0..12)
        .map(|i| Message::assistant(format!("assistant step {}", i)))
        .collect();
    let original_len = history.len();
    let config = config(18, 70, 3);

    let outcome = enforce_unified_context_window::<NoAnalyzer>(&mut history, config, None, None);

    assert!(outcome.is_trimmed());
    assert_eq!(original_len - history.len(), outcome.removed_messages);

    let remaining_tokens: usize = total_tokens(&history);
    assert!(remaining_tokens <= config.max_tokens);

    let last_content = history.last().map(text_of).unwrap_or_default();
    assert!(last_content.contains("assistant step 11"));
    assert!(outcome.removed_messages >= 8);
}

#[test]
fn test_prune_unified_tool_responses_respects_recent_history() {
    let mut history: Vec<Message> = vec![
        Message::user("keep".to_string()),
        Message::tool_response("call_1".to_string(), "{\"result\":1}".to_string()),
        Message::assistant("assistant0".to_string()),
        Message::user("keep2".to_string()),
        assistant_with_call("assistant_with_tool", "call_2", "tool_b"),
        Message::tool_response("call_2".to_string(), "{\"result\":2}".to_string()),
    ];

    let config = config(140, 80, 4);

    let removed = prune_unified_tool_responses(&mut history, &config);

    assert_eq!(removed, 1);
    assert!(history.len() >= 4);
    assert_eq!(text_of(history.first().unwrap()), "keep".to_string());
    assert!(history.iter().any(|msg| msg.is_tool_response()));
}

#[test]
fn test_apply_aggressive_trim_unified_limits_history() {
    let mut history: Vec<Message> = (0..15)
        .map(|i| Message::assistant(format!("assistant step {i}")))
        .collect();
    let config = config(140, 80, 10);

    let removed = apply_aggressive_trim_unified(&mut history, config);

    let expected_len = AGGRESSIVE_PRESERVE_RECENT_TURNS;
    assert_eq!(removed, 15 - expected_len);
    assert_eq!(history.len(), expected_len);
    let expected_first = format!("assistant step {}", 15 - AGGRESSIVE_PRESERVE_RECENT_TURNS);
    assert!(history
        .first()
        .map(text_of)
        .unwrap_or_default()
        .contains(&expected_first));
}

#[test]
fn test_prune_unified_tool_responses_preserves_recent_tool_payloads() {
    let mut history: Vec<Message> = vec![
        Message::tool_response("call_0".to_string(), "{\"result\":0}".to_string()),
        Message::assistant("assistant_turn".to_string()),
        Message::tool_response("call_1".to_string(), "{\"result\":1}".to_string()),
        assistant_with_call("assistant_with_tool", "call_2", "tool_b"),
        Message::tool_response("call_2".to_string(), "{\"result\":2}".to_string()),
    ];

    let config = ContextTrimConfig {
        tool_aware_retention: true,
        preserve_recent_tools: 2,
        ..config(140, 80, 2)
    };

    let removed = prune_unified_tool_responses(&mut history, &config);

    assert_eq!(removed, 1);
    assert_eq!(history.len(), 4);
    let retained_tool_messages: Vec<String> = history
        .iter()
        .filter(|msg| msg.is_tool_response())
        .map(text_of)
        .collect();
    assert_eq!(retained_tool_messages.len(), 2);
    assert!(retained_tool_messages
        .iter()
        .any(|content| content.contains("result\":1")));
    assert!(retained_tool_messages
        .iter()
        .any(|content| content.contains("result\":2")));
    assert!(history
        .first()
        .map(text_of)
        .unwrap_or_default()
        .contains("assistant_turn"));
}

#[test]
fn test_semantic_compression_prioritizes_structural_code() {
    let mut history: Vec<Message> = vec![
        Message::assistant("intro summary context details that should be trimmed".to_string()),
        Message::assistant(
            "```rust\nfn important_util() {\n    println!(\"hi\");\n}\n```".to_string(),
        ),
        Message::assistant("follow up narrative continues with additional prose".to_string()),
        Message::assistant("recent note".to_string()),
    ];

    let config = ContextTrimConfig {
        semantic_compression: true,
        ..config(18, 60, 1)
    };

    let mut analyzer = FnSpotter;

    let outcome = enforce_unified_context_window(&mut history, config, Some(&mut analyzer), None);

    assert!(outcome.is_trimmed());
    assert!(history
        .iter()
        .any(|msg| text_of(msg).contains("fn important_util")));
    assert!(history.len() <= 3);
    assert!(!history
        .iter()
        .any(|msg| text_of(msg).contains("intro summary")));
}

/// A conversation around two tool calls, each answered by a tool message
/// that names the tool it came from.
fn tool_conversation() -> Vec<Message> {
    vec![
        Message::user("initial question".to_string()),
        assistant_with_call("using grep to search", "call_1", "grep_search"),
        Message::tool_response_with_origin(
            "call_1".to_string(),
            "{\"matches\": [\"foo.rs\"]}".to_string(),
            "grep_search".to_string(),
        ),
        Message::assistant("Found matches in grep".to_string()),
        assistant_with_call("using read_file on the grep result", "call_2", "read_file"),
        Message::tool_response_with_origin(
            "call_2".to_string(),
            "{\"content\": \"file content here\"}".to_string(),
            "read_file".to_string(),
        ),
        Message::assistant("File content processed".to_string()),
    ]
}

fn tool_aware(max_tokens: usize) -> ContextTrimConfig {
    ContextTrimConfig {
        semantic_compression: true,
        tool_aware_retention: true,
        preserve_recent_tools: 2,
        ..config(max_tokens, 80, 2)
    }
}

#[test]
fn tool_conversation_one_token_under_budget_is_left_alone() {
    let mut history = tool_conversation();
    assert_eq!(
        history.iter().map(approximate_unified_message_tokens).collect::<Vec<_>>(),
        vec![4, 12, 7, 6, 14, 9, 7]
    );
    assert_eq!(total_tokens(&history), 59);
    let mut analyzer = FnSpotter;
    let outcome =
        enforce_unified_context_window(&mut history, tool_aware(60), Some(&mut analyzer), None);
    assert!(!outcome.is_trimmed());
    assert_eq!(history.len(), 7);
    // One token less of budget, and the trim sets in.
    let outcome =
        enforce_unified_context_window(&mut history, tool_aware(58), Some(&mut analyzer), None);
    assert!(outcome.is_trimmed());
    assert!(history.len() < 7);
}

#[test]
fn trimmed_tool_conversation_keeps_recent_tool_responses() {
    let mut history = tool_conversation();
    let original_len = history.len();
    let mut analyzer = FnSpotter;
    let outcome =
        enforce_unified_context_window(&mut history, tool_aware(50), Some(&mut analyzer), None);
    assert!(outcome.is_trimmed());
    assert!(history.len() < original_len);
    assert!(history.iter().any(|msg| msg.is_tool_response()));
    assert!(history.iter().any(|msg| msg.origin_tool.is_some()));
    assert_eq!(outcome.removed_messages, 2);
    assert_eq!(text_of(&history[0]), "{\"matches\": [\"foo.rs\"]}");
    assert!(total_tokens(&history) <= 50);
}

#[test]
fn origin_tool_weighs_in_the_semantic_score() {
    let block = "```rust\nfn found() {}\n```";
    let plain = Message::assistant(block.to_string());
    let called = assistant_with_call(block, "call_1", "grep_search");
    let answered = Message::tool_response("call_1".to_string(), block.to_string());
    let traced = Message::tool_response_with_origin(
        "call_1".to_string(),
        block.to_string(),
        "grep_search".to_string(),
    );
    let aware = tool_aware(100);
    let unaware = ContextTrimConfig { tool_aware_retention: false, ..aware };
    let mut analyzer = FnSpotter;
    assert_eq!(compute_semantic_score(&plain, &mut analyzer, &aware), 6);
    assert_eq!(compute_semantic_score(&called, &mut analyzer, &aware), 8);
    assert_eq!(compute_semantic_score(&answered, &mut analyzer, &aware), 8);
    assert_eq!(compute_semantic_score(&traced, &mut analyzer, &aware), 9);
    assert_eq!(compute_semantic_score(&traced, &mut analyzer, &unaware), 8);
    // Without code there is nothing for the bonus to add to.
    let bare = Message::tool_response_with_origin(
        "call_1".to_string(),
        "{}".to_string(),
        "grep_search".to_string(),
    );
    assert_eq!(compute_semantic_score(&bare, &mut analyzer, &aware), 0);
    // Of two early messages with the same code, the one that a tool gave
    // outlives the other.
    let mut history =
        vec![traced.clone(), plain.clone(), Message::assistant("recent note".to_string())];
    let tight = ContextTrimConfig { preserve_recent_turns: 1, ..tool_aware(12) };
    assert_eq!(total_tokens(&history), 18);
    let outcome = enforce_unified_context_window(&mut history, tight, Some(&mut analyzer), None);
    assert_eq!(outcome.removed_messages, 1);
    assert!(history[0].is_tool_response());
    assert_eq!(text_of(&history[1]), "recent note");
}

#[test]
fn stale_cached_scores_are_used_as_they_are() {
    let mut history: Vec<Message> = vec![
        Message::assistant("intro summary context details that should be trimmed".to_string()),
        Message::assistant(
            "```rust\nfn important_util() {\n    println!(\"hi\");\n}\n```".to_string(),
        ),
        Message::assistant("follow up narrative continues with additional prose".to_string()),
        Message::assistant("recent note".to_string()),
    ];
    let config = ContextTrimConfig { semantic_compression: true, ..config(18, 60, 1) };
    let mut analyzer = FnSpotter;
    // The cache says that the intro scores highest: it is the one that stays.
    let mut cache: HashMap<u64, u8> = HashMap::new();
    cache.insert(message_semantic_hash(&history[0]), 200);
    let keys: Vec<u64> = history.iter().map(message_semantic_hash).collect();
    let outcome =
        enforce_unified_context_window(&mut history, config, Some(&mut analyzer), Some(&mut cache));
    assert_eq!(outcome.removed_messages, 2);
    assert!(text_of(&history[0]).contains("intro summary"));
    assert_eq!(text_of(&history[1]), "recent note");
    // The cache has taken up the scores of all four messages.
    assert_eq!(cache.len(), 4);
    assert_eq!(keys.iter().map(|key| cache[key]).collect::<Vec<u8>>(), vec![200, 6, 0, 0]);
}

#[test]
fn scores_are_not_computed_within_budget() {
    let mut history = tool_conversation();
    let mut analyzer = FnSpotter;
    let mut cache: HashMap<u64, u8> = HashMap::new();
    let outcome = enforce_unified_context_window(
        &mut history,
        tool_aware(60),
        Some(&mut analyzer),
        Some(&mut cache),
    );
    assert!(!outcome.is_trimmed());
    assert!(cache.is_empty());
}

#[test]
fn without_semantic_scores_the_code_block_goes_first() {
    let mut history: Vec<Message> = vec![
        Message::assistant("intro summary context details that should be trimmed".to_string()),
        Message::assistant(
            "```rust\nfn important_util() {\n    println!(\"hi\");\n}\n```".to_string(),
        ),
        Message::assistant("follow up narrative continues with additional prose".to_string()),
        Message::assistant("recent note".to_string()),
    ];
    let outcome =
        enforce_unified_context_window::<NoAnalyzer>(&mut history, config(18, 60, 1), None, None);
    assert_eq!(outcome.removed_messages, 2);
    assert_eq!(history.len(), 2);
    assert!(text_of(&history[0]).contains("follow up narrative"));
    assert_eq!(text_of(&history[1]), "recent note");
}

#[test]
fn token_estimate_counts_every_part_and_rounds_up() {
    // 5 text + 9 role = 14 characters: three tokens of five characters.
    assert_eq!(approximate_unified_message_tokens(&Message::assistant("hello".to_string())), 3);
    // 1 text + 4 role = 5 characters: exactly one token.
    assert_eq!(approximate_unified_message_tokens(&Message::user("x".to_string())), 1);
    // 2 text + 4 role + 6 call id = 12 characters.
    assert_eq!(
        approximate_unified_message_tokens(&Message::tool_response(
            "call_1".to_string(),
            "{}".to_string()
        )),
        3
    );
    // 0 text + 9 role + (2 + 8 + 4 + 2) call = 25 characters.
    let with_call = assistant_with_call("", "id", "tool");
    assert_eq!(approximate_unified_message_tokens(&with_call), 5);
    // Of a body of parts the text parts count: 6 + 4 text + 4 role = 14 characters.
    let parts = Message::user_with_parts(vec![
        ContentPart::text("look: ".to_string()),
        ContentPart::image("QUJD".to_string(), "image/png".to_string()),
        ContentPart::text("this".to_string()),
    ]);
    assert_eq!(approximate_unified_message_tokens(&parts), 3);
    assert_eq!(parts.content.to_plain_text(), "look: this");
    let no_parts = Message::user_with_parts(Vec::new());
    assert_eq!(approximate_unified_message_tokens(&no_parts), 1);
    // Characters count, not bytes.
    assert_eq!(approximate_unified_message_tokens(&Message::user("é".to_string())), 1);
}

#[test]
fn estimate_history_tokens_sums_the_messages() {
    let history = vec![
        Message::assistant("hello".to_string()),
        Message::user("x".to_string()),
    ];
    let (per_message, total) = estimate_history_tokens(&history);
    assert_eq!(per_message, vec![3, 1]);
    assert_eq!(total, 4);
}

#[test]
fn target_tokens_clamps_the_percentage() {
    assert_eq!(config(1000, 70, 3).target_tokens(), 700);
    assert_eq!(config(1000, 10, 3).target_tokens(), 600);
    assert_eq!(config(1000, 100, 3).target_tokens(), 900);
    assert_eq!(config(7, 80, 3).target_tokens(), 5);
    assert_eq!(config(usize::MAX, 90, 3).target_tokens(), (usize::MAX as u128 * 90 / 100) as usize);
}

#[test]
fn outcome_reports_whether_anything_went() {
    assert!(!ContextTrimOutcome::default().is_trimmed());
    assert!(ContextTrimOutcome { removed_messages: 2 }.is_trimmed());
}

#[test]
fn window_over_budget_loses_tokens() {
    let mut history: Vec<Message> = vec![
        Message::user("a question that is long enough to matter".to_string()),
        Message::assistant("an answer".to_string()),
    ];
    let before = total_tokens(&history);
    // One token under what the history costs.
    let outcome = enforce_unified_context_window::<NoAnalyzer>(
        &mut history,
        config(before - 1, 80, 1),
        None,
        None,
    );
    assert_eq!(outcome.removed_messages, 1);
    assert!(total_tokens(&history) < before);
    assert_eq!(text_of(&history[0]), "an answer");
}

#[test]
fn window_within_budget_is_untouched() {
    let mut history = vec![
        Message::user("a".to_string()),
        Message::assistant("b".to_string()),
    ];
    let before = history.clone();
    let outcome =
        enforce_unified_context_window::<NoAnalyzer>(&mut history, config(3, 80, 1), None, None);
    assert_eq!(outcome.removed_messages, 0);
    assert_eq!(history, before);
}

#[test]
fn window_never_evicts_a_single_message() {
    let mut history = vec![Message::assistant("far too long for the budget".to_string())];
    let outcome =
        enforce_unified_context_window::<NoAnalyzer>(&mut history, config(1, 80, 0), None, None);
    assert_eq!(outcome.removed_messages, 0);
    assert_eq!(history.len(), 1);
}

#[test]
fn window_extends_into_the_tail_but_keeps_the_last_message() {
    let mut history: Vec<Message> = (0..4)
        .map(|i| Message::assistant(format!("message number {i}")))
        .collect();
    // Every message costs 5 tokens; the whole history is preserved tail.
    let outcome =
        enforce_unified_context_window::<NoAnalyzer>(&mut history, config(6, 80, 10), None, None);
    assert_eq!(outcome.removed_messages, 3);
    assert_eq!(history.len(), 1);
    assert_eq!(text_of(&history[0]), "message number 3");
}

#[test]
fn window_without_preserved_turns_may_evict_the_last_message() {
    let mut history: Vec<Message> = (0..3)
        .map(|i| Message::assistant(format!("message number {i}")))
        .collect();
    let outcome =
        enforce_unified_context_window::<NoAnalyzer>(&mut history, config(1, 80, 0), None, None);
    assert_eq!(outcome.removed_messages, 3);
    assert!(history.is_empty());
}

#[test]
fn window_with_scores_evicts_low_scores_first_and_keeps_order() {
    let mut history: Vec<Message> = (0..5)
        .map(|i| Message::assistant(format!("message number {i}")))
        .collect();
    // 5 tokens each, 25 in all; budget 15 with one preserved turn.
    let scores = vec![7, 0, 3, 0, 0];
    let outcome = enforce_window_with_scores(&mut history, config(15, 80, 1), &scores);
    assert_eq!(outcome.removed_messages, 2);
    let left: Vec<String> = history.iter().map(text_of).collect();
    assert_eq!(left, vec!["message number 0", "message number 2", "message number 4"]);
}

#[test]
fn retain_by_mask_keeps_marked_positions_in_order() {
    let mut items = vec!['a', 'b', 'c', 'd'];
    let removed = retain_by_mask(&mut items, &vec![true, false, true, false]);
    assert_eq!(removed, 2);
    assert_eq!(items, vec!['a', 'c']);
}

#[test]
fn prune_keeps_everything_when_the_tail_covers_the_history() {
    let mut history = vec![
        Message::tool_response("call_1".to_string(), "{}".to_string()),
        Message::user("question".to_string()),
    ];
    assert_eq!(prune_unified_tool_responses(&mut history, &config(140, 80, 2)), 0);
    assert_eq!(history.len(), 2);
    let mut empty: Vec<Message> = Vec::new();
    assert_eq!(prune_unified_tool_responses(&mut empty, &config(140, 80, 2)), 0);
}

#[test]
fn prune_pins_call_turns_when_responses_run_short() {
    let mut history = vec![
        assistant_with_call("older call", "call_1", "tool_a"),
        assistant_with_call("newer call", "call_2", "tool_b"),
        Message::tool_response("call_2".to_string(), "{}".to_string()),
        Message::user("latest".to_string()),
    ];
    let config = ContextTrimConfig {
        tool_aware_retention: true,
        preserve_recent_tools: 2,
        ..config(140, 80, 1)
    };
    // One response is pinned, then the most recent call turn fills the limit.
    let removed = prune_unified_tool_responses(&mut history, &config);
    assert_eq!(removed, 1);
    let left: Vec<String> = history.iter().map(text_of).collect();
    assert_eq!(left, vec!["newer call", "{}", "latest"]);
}

#[test]
fn aggressive_trim_clamps_the_preserved_turns() {
    let mut history: Vec<Message> = (0..15)
        .map(|i| Message::assistant(format!("step {i}")))
        .collect();
    // Two preserved turns are raised to the minimum.
    assert_eq!(apply_aggressive_trim_unified(&mut history, config(140, 80, 2)), 15 - MIN_PRESERVE_RECENT_TURNS);
    assert_eq!(text_of(&history[0]), format!("step {}", 15 - MIN_PRESERVE_RECENT_TURNS));
    // A short history is left alone.
    let mut short = vec![Message::user("only".to_string())];
    assert_eq!(apply_aggressive_trim_unified(&mut short, config(140, 80, 10)), 0);
    assert_eq!(short.len(), 1);
    let mut empty: Vec<Message> = Vec::new();
    assert_eq!(apply_aggressive_trim_unified(&mut empty, config(140, 80, 10)), 0);
}

#[test]
fn load_config_applies_defaults_bounds_and_override() {
    let defaults = load_context_trim_config(None, None);
    assert_eq!(defaults.max_tokens, DEFAULT_MAX_TOKENS);
    assert_eq!(defaults.trim_to_percent, DEFAULT_TRIM_TO_PERCENT);
    assert_eq!(defaults.preserve_recent_turns, DEFAULT_PRESERVE_RECENT_TURNS);
    assert!(!defaults.semantic_compression);

    let settings = ContextSettings {
        max_context_tokens: 4000,
        trim_to_percent: 99,
        preserve_recent_turns: 1,
        semantic_compression: true,
        tool_aware_retention: true,
        max_structural_depth: 2,
        preserve_recent_tools: 7,
    };
    let loaded = load_context_trim_config(Some(&settings), None);
    assert_eq!(loaded.max_tokens, 4000);
    assert_eq!(loaded.trim_to_percent, 90);
    assert_eq!(loaded.preserve_recent_turns, MIN_PRESERVE_RECENT_TURNS);
    assert!(loaded.semantic_compression && loaded.tool_aware_retention);
    assert_eq!(loaded.max_structural_depth, 2);
    assert_eq!(loaded.preserve_recent_tools, 7);

    assert_eq!(load_context_trim_config(Some(&settings), Some(123)).max_tokens, 123);
    assert_eq!(load_context_trim_config(Some(&settings), Some(0)).max_tokens, 4000);
    let unset = ContextSettings { max_context_tokens: 0, ..settings };
    assert_eq!(load_context_trim_config(Some(&unset), None).max_tokens, DEFAULT_MAX_TOKENS);
}

#[test]
fn extract_code_blocks_reads_fences() {
    let blocks = extract_code_blocks("intro\n  ```Rust \nfn a() {}\n\n```\ntext\n```\nplain\n```\n```py\nopen");
    assert_eq!(blocks.len(), 3);
    assert_eq!(blocks[0].language_hint.as_deref(), Some("Rust"));
    assert_eq!(blocks[0].content, "fn a() {}");
    assert_eq!(blocks[1].language_hint, None);
    assert_eq!(blocks[1].content, "plain");
    assert_eq!(blocks[2].language_hint.as_deref(), Some("py"));
    assert_eq!(blocks[2].content, "open");
    assert!(extract_code_blocks("no fences here").is_empty());
    assert!(extract_code_blocks("```rust\n```").is_empty());
    let windows = extract_code_blocks("```js\r\nlet a;\r\n```\r\n");
    assert_eq!(windows[0].content, "let a;");
}

#[test]
fn language_hints_are_normalized() {
    assert_eq!(language_hint_to_support("rust"), Some(LanguageSupport::Rust));
    assert_eq!(language_hint_to_support(" .RS "), Some(LanguageSupport::Rust));
    assert_eq!(language_hint_to_support("Py"), Some(LanguageSupport::Python));
    assert_eq!(language_hint_to_support("javascript"), Some(LanguageSupport::JavaScript));
    assert_eq!(language_hint_to_support("tsx"), Some(LanguageSupport::TypeScript));
    assert_eq!(language_hint_to_support("golang"), Some(LanguageSupport::Go));
    assert_eq!(language_hint_to_support("java"), Some(LanguageSupport::Java));
    assert_eq!(language_hint_to_support("shell"), Some(LanguageSupport::Bash));
    assert_eq!(language_hint_to_support("swift"), Some(LanguageSupport::Swift));
    assert_eq!(language_hint_to_support("cobol"), None);
    assert_eq!(language_hint_to_support(""), None);
}

#[test]
fn scope_depth_counts_non_empty_segments() {
    assert_eq!(estimate_scope_depth(None), 0);
    assert_eq!(estimate_scope_depth(Some("")), 0);
    assert_eq!(estimate_scope_depth(Some("outer")), 1);
    assert_eq!(estimate_scope_depth(Some("a::b.c#d")), 4);
    assert_eq!(estimate_scope_depth(Some("::a::")), 1);
}

fn symbol(kind: SymbolKind, scope: Option<&str>) -> SymbolInfo {
    SymbolInfo { name: "s".to_string(), kind, scope: scope.map(|s| s.to_string()) }
}

#[test]
fn score_symbols_weighs_kinds_and_skips_deep_scopes() {
    let config = config(100, 80, 1);
    let symbols = vec![
        symbol(SymbolKind::Struct, None),
        symbol(SymbolKind::Function, Some("a::b")),
        symbol(SymbolKind::Module, None),
        symbol(SymbolKind::Constant, None),
        symbol(SymbolKind::Import, None),
        symbol(SymbolKind::Method, Some("a::b::c::d")),
    ];
    assert_eq!(score_symbols(&symbols, &config), 8 + 6 + 4 + 2 + 1);
    assert_eq!(score_symbols(&Vec::new(), &config), 0);
}

#[test]
fn score_analyzed_blocks_applies_floor_bonus_and_cap() {
    let plain = config(100, 80, 1);
    let message = Message::assistant("text".to_string());
    assert_eq!(score_analyzed_blocks(&vec![], &message, &plain), 0);
    assert_eq!(score_analyzed_blocks(&vec![None], &message, &plain), 0);
    // A block without symbols still counts one point.
    assert_eq!(score_analyzed_blocks(&vec![Some(vec![])], &message, &plain), 1);
    let one_fn = vec![Some(vec![symbol(SymbolKind::Function, None)])];
    assert_eq!(score_analyzed_blocks(&one_fn, &message, &plain), 6);
    // Tool payloads add two points, a known origin one more with retention on.
    let mut response = Message::tool_response_with_origin(
        "call".to_string(),
        "text".to_string(),
        "grep".to_string(),
    );
    assert_eq!(score_analyzed_blocks(&one_fn, &response, &plain), 8);
    let aware = ContextTrimConfig { tool_aware_retention: true, ..plain };
    assert_eq!(score_analyzed_blocks(&one_fn, &response, &aware), 9);
    response.origin_tool = None;
    assert_eq!(score_analyzed_blocks(&one_fn, &response, &aware), 8);
    let many = vec![Some((0..40).map(|_| symbol(SymbolKind::Class, None)).collect::<Vec<_>>())];
    assert_eq!(score_analyzed_blocks(&many, &message, &plain), 255);
}

#[test]
fn compute_semantic_score_consults_the_analyzer() {
    let config = config(100, 80, 1);
    let mut analyzer = FnSpotter;
    let code = Message::assistant("```rust\nfn a() {}\nfn b() {}\n```".to_string());
    assert_eq!(compute_semantic_score(&code, &mut analyzer, &config), 12);
    let prose = Message::assistant("nothing to see".to_string());
    assert_eq!(compute_semantic_score(&prose, &mut analyzer, &config), 0);
    // Without a fence the whole text is analyzed if a language is detected.
    let bare = Message::assistant("fn c() { }".to_string());
    assert_eq!(compute_semantic_score(&bare, &mut analyzer, &config), 6);
    // A block of a known language that cannot be parsed, or whose symbols
    // cannot be extracted, gives the floor of one point.
    let broken = Message::assistant("```rust\nfn a() {} <<broken>>\n```".to_string());
    assert_eq!(compute_semantic_score(&broken, &mut analyzer, &config), 1);
    let opaque = Message::assistant("```rust\nfn a() {} <<no symbols>>\n```".to_string());
    assert_eq!(compute_semantic_score(&opaque, &mut analyzer, &config), 1);
    assert_eq!(compute_semantic_score(&code, &mut NoAnalyzer, &config), 1);
    // A blank block, or one whose language nobody knows, gives nothing.
    let blank = Message::assistant("```rust\n   \n```".to_string());
    assert_eq!(compute_semantic_score(&blank, &mut analyzer, &config), 0);
    let unknown = Message::assistant("```klingon\nqapla\n```".to_string());
    assert_eq!(compute_semantic_score(&unknown, &mut analyzer, &config), 0);
}

#[test]
fn compute_semantic_scores_uses_and_fills_the_cache() {
    let history = vec![
        Message::assistant("```rust\nfn a() {}\n```".to_string()),
        Message::assistant("prose".to_string()),
    ];
    let on = ContextTrimConfig { semantic_compression: true, ..config(100, 80, 1) };
    let mut analyzer = FnSpotter;
    let mut cache: HashMap<u64, u8> = HashMap::new();
    let scores = compute_semantic_scores(&history, Some(&mut analyzer), Some(&mut cache), &on);
    assert_eq!(scores, vec![6, 0]);
    assert_eq!(cache.get(&message_semantic_hash(&history[0])), Some(&6));
    // A cached score wins over a fresh computation.
    cache.insert(message_semantic_hash(&history[1]), 42);
    let again = compute_semantic_scores(&history, Some(&mut analyzer), Some(&mut cache), &on);
    assert_eq!(again, vec![6, 42]);
    // Off, or without an analyzer: all zero.
    let off = config(100, 80, 1);
    assert_eq!(compute_semantic_scores(&history, Some(&mut analyzer), None, &off), vec![0, 0]);
    assert_eq!(compute_semantic_scores::<NoAnalyzer>(&history, None, None, &on), vec![0, 0]);
}

#[test]
fn code_in_a_text_part_is_scored() {
    let message = Message::assistant_with_parts(vec![
        ContentPart::text("```rust\nfn a() {}\n".to_string()),
        ContentPart::text("```".to_string()),
    ]);
    assert_eq!(compute_semantic_score(&message, &mut FnSpotter, &config(100, 80, 1)), 6);
}

#[test]
fn semantic_hash_depends_on_what_the_score_depends_on() {
    let a = Message::assistant("same".to_string());
    let b = Message::assistant("same".to_string());
    assert_eq!(message_semantic_hash(&a), message_semantic_hash(&b));
    assert_ne!(message_semantic_hash(&a), message_semantic_hash(&Message::user("same".to_string())));
    assert_ne!(
        message_semantic_hash(&a),
        message_semantic_hash(&Message::assistant("other".to_string()))
    );
    let with_call = assistant_with_call("same", "id", "tool");
    assert_ne!(message_semantic_hash(&a), message_semantic_hash(&with_call));
    // The reasoning trace is not part of the key.
    let reasoned = Message::assistant("same".to_string()).with_reasoning(Some("why".to_string()));
    assert_eq!(message_semantic_hash(&a), message_semantic_hash(&reasoned));
}
