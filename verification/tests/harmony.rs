use vtcode_core::harmony::strip_harmony_syntax;

#[test]
fn test_strip_harmony_syntax_basic() {
    let input = r#"<|start|>assistant<|channel|>commentary to=grep_file <|constrain|>json<|message|>{"path":"", "pattern":"TODO"}<|call|>"#;
    let result = strip_harmony_syntax(input);
    assert_eq!(result, "");
}

#[test]
fn test_strip_harmony_syntax_with_text() {
    let input = r#"Here is some text <|start|>assistant<|channel|>commentary to=grep_file <|constrain|>json<|message|>{"path":"", "pattern":"TODO"}<|call|> and more text"#;
    let result = strip_harmony_syntax(input);
    assert_eq!(result, "Here is some text  and more text");
}

#[test]
fn test_strip_harmony_syntax_multiple() {
    let input = r#"<|start|>assistant<|channel|>commentary to=tool1<|message|>{}<|call|> text <|start|>assistant<|channel|>commentary to=tool2<|message|>{}<|call|>"#;
    let result = strip_harmony_syntax(input);
    assert_eq!(result, "text");
}

#[test]
fn test_strip_harmony_syntax_no_harmony() {
    let input = "This is normal text without harmony syntax";
    let result = strip_harmony_syntax(input);
    assert_eq!(result, input);
}

#[test]
fn test_strip_harmony_syntax_partial() {
    let input = "Text with <|channel|> partial tags <|message|>";
    let result = strip_harmony_syntax(input);
    assert_eq!(result, "Text with  partial tags");
}

#[test]
fn strip_harmony_start_without_call_removes_only_the_tag() {
    assert_eq!(strip_harmony_syntax("a <|start|>b"), "a b");
}

#[test]
fn strip_harmony_handles_a_tag_formed_by_a_removal() {
    // Removing the inner call joins "<|sta" and "rt|>" into a new start tag.
    assert_eq!(strip_harmony_syntax("<|sta<|start|>x<|call|>rt|>tail"), "tail");
}

#[test]
fn strip_harmony_keeps_non_ascii_text() {
    assert_eq!(strip_harmony_syntax("  héllo <|message|>wörld\u{2003}"), "héllo wörld");
}
