//! The two cheap trimming strategies: dropping stale tool payloads, and
//! cutting the history down to its most recent turns.

use crate::context::config::{
    ContextTrimConfig, AGGRESSIVE_PRESERVE_RECENT_TURNS, MIN_PRESERVE_RECENT_TURNS,
};
use crate::context::retain::{keep_where, retain_by_mask};
use crate::llm::types::Message;
use vstd::prelude::*;

verus! {

/// The message is a tool response or carries tool calls.
pub open spec fn carries_tool_payload(message: Message) -> bool {
    message.spec_is_tool_response() || message.spec_has_tool_calls()
}

/// Tool responses at positions `from` and later.
pub open spec fn responses_from(history: Seq<Message>, from: int) -> nat
    decreases history.len() - from,
{
    if from < 0 || from >= history.len() {
        0
    } else {
        responses_from(history, from + 1) + if history[from].spec_is_tool_response() {
            1nat
        } else {
            0nat
        }
    }
}

/// Messages at positions `from` and later that carry tool calls and are not
/// themselves tool responses.
pub open spec fn call_turns_from(history: Seq<Message>, from: int) -> nat
    decreases history.len() - from,
{
    if from < 0 || from >= history.len() {
        0
    } else {
        call_turns_from(history, from + 1) + if history[from].spec_has_tool_calls()
            && !history[from].spec_is_tool_response() {
            1nat
        } else {
            0nat
        }
    }
}

/// Tool-aware retention pins up to `limit` messages, counted from the end
/// of the history: first the most recent tool responses; then, if there are
/// fewer than `limit` of those, the most recent messages that carry tool
/// calls, until `limit` messages are pinned.
pub open spec fn pinned_for_tools(history: Seq<Message>, limit: nat, i: int) -> bool {
    let responses = responses_from(history, 0);
    let pinned_responses = if responses < limit {
        responses
    } else {
        limit
    };
    ||| history[i].spec_is_tool_response() && responses_from(history, i + 1) < limit
    ||| history[i].spec_has_tool_calls() && pinned_responses + call_turns_from(history, i + 1)
        < limit
}

/// Whether tool-response pruning keeps position `i`: it lies among the last
/// `preserve_recent_turns` positions, or carries no tool payload, or is
/// pinned by tool-aware retention.
pub open spec fn prune_keeps(history: Seq<Message>, config: ContextTrimConfig, i: int) -> bool {
    ||| i + config.preserve_recent_turns >= history.len()
    ||| !carries_tool_payload(history[i])
    ||| config.tool_aware_retention && pinned_for_tools(
        history,
        config.preserve_recent_tools as nat,
        i,
    )
}

/// The positions that tool-response pruning keeps.
pub open spec fn prune_mask(history: Seq<Message>, config: ContextTrimConfig) -> Seq<bool> {
    Seq::new(history.len(), |i: int| prune_keeps(history, config, i))
}

proof fn lemma_counts_bounded(history: Seq<Message>, from: int)
    requires
        0 <= from <= history.len(),
    ensures
        responses_from(history, from) <= history.len() - from,
        call_turns_from(history, from) <= history.len() - from,
    decreases history.len() - from,
{
    if from < history.len() {
        lemma_counts_bounded(history, from + 1);
    }
}

fn pinned_positions(history: &Vec<Message>, limit: usize) -> (pinned: Vec<bool>)
    ensures
        pinned@.len() == history@.len(),
        forall|i: int|
            0 <= i < history@.len() ==> pinned@[i] == pinned_for_tools(history@, limit as nat, i),
{
    let n = history.len();
    let mut pinned: Vec<bool> = Vec::new();
    let mut k: usize = 0;
    while k < n
        invariant
            k <= n,
            pinned@.len() == k,
            forall|i: int| 0 <= i < k ==> !pinned@[i],
        decreases n - k,
    {
        pinned.push(false);
        k += 1;
    }
    let mut responses: usize = 0;
    let mut i: usize = n;
    while i > 0
        invariant
            n == history@.len(),
            i <= n,
            pinned@.len() == n,
            responses == responses_from(history@, i as int),
            forall|j: int| 0 <= j < i ==> !pinned@[j],
            forall|j: int|
                i <= j < n ==> pinned@[j] == (history@[j].spec_is_tool_response()
                    && responses_from(history@, j + 1) < limit),
        decreases i,
    {
        i -= 1;
        proof {
            lemma_counts_bounded(history@, i + 1);
        }
        if history[i].is_tool_response() {
            if responses < limit {
                pinned.set(i, true);
            }
            responses += 1;
        }
    }
    let pinned_responses: usize = if responses < limit {
        responses
    } else {
        limit
    };
    let room: usize = limit - pinned_responses;
    let mut call_turns: usize = 0;
    let mut i: usize = n;
    while i > 0
        invariant
            n == history@.len(),
            i <= n,
            pinned@.len() == n,
            responses == responses_from(history@, 0),
            pinned_responses == if responses < limit {
                responses
            } else {
                limit
            },
            room == limit - pinned_responses,
            call_turns == call_turns_from(history@, i as int),
            forall|j: int|
                0 <= j < i ==> pinned@[j] == (history@[j].spec_is_tool_response()
                    && responses_from(history@, j + 1) < limit),
            forall|j: int| i <= j < n ==> pinned@[j] == pinned_for_tools(history@, limit as nat, j),
        decreases i,
    {
        i -= 1;
        proof {
            lemma_counts_bounded(history@, i + 1);
        }
        if history[i].has_tool_calls() {
            if call_turns < room {
                pinned.set(i, true);
            }
            if !history[i].is_tool_response() {
                call_turns += 1;
            }
        }
    }
    pinned
}

/// Drops the messages that carry tool payloads, except those among the last
/// `preserve_recent_turns` positions and, with tool-aware retention, the
/// pinned ones. Plain text messages always stay. Returns the number of
/// messages removed.
pub fn prune_unified_tool_responses(history: &mut Vec<Message>, config: &ContextTrimConfig) -> (removed:
    usize)
    ensures
        final(history)@ == keep_where(old(history)@, prune_mask(old(history)@, *config)),
        removed == old(history)@.len() - final(history)@.len(),
{
    let n = history.len();
    let pinned = pinned_positions(history, config.preserve_recent_tools);
    let keep_from: usize = if config.preserve_recent_turns >= n {
        0
    } else {
        n - config.preserve_recent_turns
    };
    let mut keep: Vec<bool> = Vec::new();
    let mut i: usize = 0;
    while i < n
        invariant
            n == history@.len(),
            i <= n,
            keep@.len() == i,
            pinned@.len() == n,
            keep_from == if config.preserve_recent_turns >= n {
                0
            } else {
                n - config.preserve_recent_turns
            },
            forall|j: int|
                0 <= j < n ==> pinned@[j] == pinned_for_tools(
                    history@,
                    config.preserve_recent_tools as nat,
                    j,
                ),
            forall|j: int| 0 <= j < i ==> keep@[j] == prune_keeps(history@, *config, j),
        decreases n - i,
    {
        let payload = history[i].is_tool_response() || history[i].has_tool_calls();
        let keep_it = i >= keep_from || !payload || (config.tool_aware_retention && pinned[i]);
        keep.push(keep_it);
        i += 1;
    }
    proof {
        assert(keep@ =~= prune_mask(history@, *config));
    }
    retain_by_mask(history, &keep)
}

/// How many messages an aggressive trim leaves: the preserved turns held
/// between the minimum and the aggressive maximum, and never more than the
/// history has.
pub open spec fn aggressive_keep_count(len: nat, config: ContextTrimConfig) -> nat {
    let turns = if config.preserve_recent_turns < MIN_PRESERVE_RECENT_TURNS {
        MIN_PRESERVE_RECENT_TURNS as nat
    } else if config.preserve_recent_turns > AGGRESSIVE_PRESERVE_RECENT_TURNS {
        AGGRESSIVE_PRESERVE_RECENT_TURNS as nat
    } else {
        config.preserve_recent_turns as nat
    };
    if turns < len {
        turns
    } else {
        len
    }
}

/// Keeps only the most recent messages, as many as `aggressive_keep_count`
/// says, and returns how many were dropped from the front.
pub fn apply_aggressive_trim_unified(history: &mut Vec<Message>, config: ContextTrimConfig) -> (removed:
    usize)
    ensures
        removed == old(history)@.len() - aggressive_keep_count(old(history)@.len(), config),
        final(history)@ == old(history)@.skip(removed as int),
{
    let n = history.len();
    let turns: usize = if config.preserve_recent_turns < MIN_PRESERVE_RECENT_TURNS {
        MIN_PRESERVE_RECENT_TURNS
    } else if config.preserve_recent_turns > AGGRESSIVE_PRESERVE_RECENT_TURNS {
        AGGRESSIVE_PRESERVE_RECENT_TURNS
    } else {
        config.preserve_recent_turns
    };
    let keep_turns: usize = if turns < n {
        turns
    } else {
        n
    };
    let remove = n - keep_turns;
    if remove == 0 {
        proof {
            assert(history@.skip(0) =~= history@);
        }
        return 0;
    }
    let mut tail = history.split_off(remove);
    core::mem::swap(history, &mut tail);
    proof {
        assert(history@ =~= old(history)@.skip(remove as int));
    }
    remove
}

} // verus!
