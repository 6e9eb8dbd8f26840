//! A cheap, deterministic estimate of how many tokens a message costs.

use crate::context::config::CHAR_PER_TOKEN_APPROX;
use crate::llm::types::{
    part_text, parts_text, ContentPart, Message, MessageContent, ToolCall,
};
use vstd::prelude::*;
use vstd::string::StrSliceExecFns;

verus! {

/// Characters a tool call contributes: its id, type, function name and
/// argument string.
pub open spec fn call_chars(call: ToolCall) -> nat {
    call.id@.len() + call.call_type@.len() + call.function.name@.len()
        + call.function.arguments@.len()
}

/// Characters of a list of tool calls.
pub open spec fn calls_chars(calls: Seq<ToolCall>) -> nat
    decreases calls.len(),
{
    if calls.len() == 0 {
        0
    } else {
        calls_chars(calls.drop_last()) + call_chars(calls.last())
    }
}

/// Characters of a message: its text, its role tag, its tool calls and
/// the id of the call it answers.
pub open spec fn message_chars(message: Message) -> nat {
    message.content.plain_text().len() + message.role.generic_tag().len() + (match message.tool_calls {
        Some(calls) => calls_chars(calls@),
        None => 0,
    }) + (match message.tool_call_id {
        Some(id) => id@.len(),
        None => 0,
    })
}

/// `n`, or the largest `usize` if `n` is beyond it.
pub open spec fn capped(n: nat) -> nat {
    if n > usize::MAX {
        usize::MAX as nat
    } else {
        n
    }
}

/// Estimated tokens of a message: its characters divided by the number of
/// characters per token, rounded up. A character count beyond `usize` is
/// taken as the largest `usize`.
pub open spec fn message_tokens(message: Message) -> nat {
    (capped(message_chars(message)) + CHAR_PER_TOKEN_APPROX - 1) as nat / CHAR_PER_TOKEN_APPROX
        as nat
}

/// Estimated tokens of a whole history.
pub open spec fn history_tokens(history: Seq<Message>) -> nat
    decreases history.len(),
{
    if history.len() == 0 {
        0
    } else {
        history_tokens(history.drop_last()) + message_tokens(history.last())
    }
}

/// Every message costs at least one token and at most `usize::MAX`.
pub proof fn lemma_message_tokens_bounds(message: Message)
    ensures
        1 <= message_tokens(message) <= usize::MAX,
{
    crate::llm::types::lemma_generic_tag_len(message.role);
}

fn saturating_sum(a: usize, b: usize) -> (r: usize)
    ensures
        r == capped((a + b) as nat),
{
    if a > usize::MAX - b {
        usize::MAX
    } else {
        a + b
    }
}

fn capped_call_chars(call: &ToolCall) -> (r: usize)
    ensures
        r == capped(call_chars(*call)),
{
    let a = saturating_sum(call.id.as_str().unicode_len(), call.call_type.as_str().unicode_len());
    let b = saturating_sum(a, call.function.name.as_str().unicode_len());
    saturating_sum(b, call.function.arguments.as_str().unicode_len())
}

fn capped_calls_chars(calls: &Vec<ToolCall>) -> (r: usize)
    ensures
        r == capped(calls_chars(calls@)),
{
    let mut total: usize = 0;
    let mut i: usize = 0;
    while i < calls.len()
        invariant
            i <= calls.len(),
            total == capped(calls_chars(calls@.take(i as int))),
        decreases calls.len() - i,
    {
        proof {
            assert(calls@.take(i + 1).drop_last() =~= calls@.take(i as int));
        }
        total = saturating_sum(total, capped_call_chars(&calls[i]));
        i += 1;
    }
    proof {
        assert(calls@.take(calls.len() as int) =~= calls@);
    }
    total
}

proof fn lemma_parts_text_len(parts: Seq<ContentPart>, upto: int)
    requires
        0 <= upto,
    ensures
        parts_text(parts, upto).len() == if upto == 0 {
            0
        } else {
            parts_text(parts, upto - 1).len() + part_text(parts[upto - 1]).len()
        },
{
}

fn capped_content_chars(content: &MessageContent) -> (r: usize)
    ensures
        r == capped(content.plain_text().len()),
{
    match content {
        MessageContent::Text(text) => text.as_str().unicode_len(),
        MessageContent::Parts(parts) => {
            let mut total: usize = 0;
            let mut i: usize = 0;
            while i < parts.len()
                invariant
                    i <= parts.len(),
                    total == capped(parts_text(parts@, i as int).len()),
                decreases parts.len() - i,
            {
                proof {
                    lemma_parts_text_len(parts@, i + 1);
                }
                match &parts[i] {
                    ContentPart::Text { text } => {
                        total = saturating_sum(total, text.as_str().unicode_len());
                    },
                    ContentPart::Image { .. } => {},
                }
                i += 1;
            }
            total
        },
    }
}

/// The capped character count of a message.
pub fn approximate_message_chars(message: &Message) -> (r: usize)
    ensures
        r == capped(message_chars(*message)),
{
    let text_len: usize = capped_content_chars(&message.content);
    proof {
        let text = message.content.plain_text().len();
        let tag = message.role.generic_tag().len();
        assert(capped((capped(text) + tag) as nat) == capped(text + tag));
    }
    let mut total = saturating_sum(text_len, message.role.as_generic_str().unicode_len());
    match &message.tool_calls {
        Some(calls) => {
            total = saturating_sum(total, capped_calls_chars(calls));
        },
        None => {},
    }
    match &message.tool_call_id {
        Some(id) => {
            total = saturating_sum(total, id.as_str().unicode_len());
        },
        None => {},
    }
    total
}

/// Estimated tokens of one message.
pub fn approximate_unified_message_tokens(message: &Message) -> (r: usize)
    ensures
        r == message_tokens(*message),
{
    let chars = approximate_message_chars(message);
    let whole = chars / CHAR_PER_TOKEN_APPROX;
    if chars % CHAR_PER_TOKEN_APPROX == 0 {
        whole
    } else {
        whole + 1
    }
}

/// An upper bound that keeps token sums inside `u128`.
pub proof fn lemma_history_tokens_bound(history: Seq<Message>)
    ensures
        history_tokens(history) <= history.len() * usize::MAX,
    decreases history.len(),
{
    if history.len() > 0 {
        lemma_history_tokens_bound(history.drop_last());
        lemma_message_tokens_bounds(history.last());
        assert((history.len() - 1) * usize::MAX + usize::MAX == history.len() * usize::MAX)
            by (nonlinear_arith);
    }
}

/// The estimated tokens of each message, and their sum.
pub fn estimate_history_tokens(history: &Vec<Message>) -> (r: (Vec<usize>, u128))
    ensures
        r.0@.len() == history@.len(),
        forall|i: int| 0 <= i < history@.len() ==> r.0@[i] == message_tokens(#[trigger] history@[i]),
        r.1 == history_tokens(history@),
{
    let mut per_message: Vec<usize> = Vec::new();
    let mut total: u128 = 0;
    let mut i: usize = 0;
    while i < history.len()
        invariant
            i <= history.len(),
            per_message@.len() == i,
            forall|k: int| 0 <= k < i ==> per_message@[k] == message_tokens(#[trigger] history@[k]),
            total == history_tokens(history@.take(i as int)),
        decreases history.len() - i,
    {
        let tokens = approximate_unified_message_tokens(&history[i]);
        proof {
            assert(history@.take(i + 1).drop_last() =~= history@.take(i as int));
            lemma_history_tokens_bound(history@.take(i + 1));
            assert((i + 1) * usize::MAX <= usize::MAX * usize::MAX) by (nonlinear_arith)
                requires
                    i + 1 <= usize::MAX,
            ;
            assert(usize::MAX * usize::MAX <= u128::MAX) by (nonlinear_arith)
                requires
                    usize::MAX <= 0xFFFF_FFFF_FFFF_FFFF,
            ;
        }
        total = total + tokens as u128;
        per_message.push(tokens);
        i += 1;
    }
    proof {
        assert(history@.take(history.len() as int) =~= history@);
    }
    (per_message, total)
}

} // verus!
