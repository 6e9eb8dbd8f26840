//! What holds of the trimming strategies on every history.

use crate::context::config::{ContextTrimConfig, AGGRESSIVE_PRESERVE_RECENT_TURNS};
use crate::context::prune::{aggressive_keep_count, carries_tool_payload, prune_mask};
use crate::context::retain::{keep_where, lemma_keep_prefix_len};
use crate::context::semantic::{has_recognized_block, law_recognized_block_scores, score_fits};
use crate::context::tokens::{history_tokens, lemma_message_tokens_bounds};
use crate::context::window::{
    enforced_window, evicted, eviction_mask, lemma_kept_tokens, lemma_sum_marked_agree,
    lemma_sum_marked_none, lemma_sum_marked_subset, lemma_total_is_history_tokens,
    preserve_boundary, ranked_before, ranks_before, sum_marked, token_counts, total_tokens,
    window_keep_mask, window_removals,
};
use crate::llm::types::Message;
use vstd::prelude::*;

verus! {

/// The tail survives. For a history longer than `preserve_recent_turns`,
/// window enforcement leaves the last `min(1, preserve_recent_turns)`
/// messages in place and unchanged: with at least one preserved turn, the
/// last message of the result is the last message of the input.
pub proof fn law_window_preserves_tail(
    history: Seq<Message>,
    scores: Seq<u8>,
    config: ContextTrimConfig,
)
    requires
        scores.len() == history.len(),
        history.len() > config.preserve_recent_turns,
    ensures
        config.preserve_recent_turns >= 1 ==> enforced_window(history, scores, config).len() >= 1
            && enforced_window(history, scores, config).last() == history.last(),
{
    if config.preserve_recent_turns >= 1 {
        lemma_last_message_stays(history, scores, config);
    }
}

/// With at least one preserved turn, the last message of a non-empty
/// history is never evicted, whatever the length of the history.
pub proof fn lemma_last_message_stays(
    history: Seq<Message>,
    scores: Seq<u8>,
    config: ContextTrimConfig,
)
    requires
        scores.len() == history.len(),
        history.len() >= 1,
        config.preserve_recent_turns >= 1,
    ensures
        enforced_window(history, scores, config).len() >= 1,
        enforced_window(history, scores, config).last() == history.last(),
{
    let tokens = token_counts(history);
    let keep = window_keep_mask(tokens, scores, config);
    let len = history.len() as int;
    assert(keep[len - 1]);
    lemma_keep_prefix_len(history, keep, len - 1);
}

/// Trimming never adds tokens: the estimate of the result is at most the
/// estimate of the input.
pub proof fn law_window_never_adds_tokens(
    history: Seq<Message>,
    scores: Seq<u8>,
    config: ContextTrimConfig,
)
    requires
        scores.len() == history.len(),
    ensures
        history_tokens(enforced_window(history, scores, config)) <= history_tokens(history),
{
    let keep = window_keep_mask(token_counts(history), scores, config);
    lemma_kept_tokens(history, keep, history.len() as int);
    assert(history.take(history.len() as int) =~= history);
}

/// Every non-empty candidate range has a candidate that nothing ranks
/// before.
proof fn lemma_first_in_rank(scores: Seq<u8>, lo: int, hi: int) -> (first: int)
    requires
        0 <= lo < hi <= scores.len(),
    ensures
        lo <= first < hi,
        forall|k: int| !ranks_before(scores, lo, hi, scores[first] as int, first, k),
    decreases hi - lo,
{
    if hi == lo + 1 {
        lo
    } else {
        let rest = lemma_first_in_rank(scores, lo, hi - 1);
        let last = hi - 1;
        if scores[last] < scores[rest] {
            assert forall|k: int| !ranks_before(scores, lo, hi, scores[last] as int, last, k) by {
                if lo <= k < hi - 1 {
                    assert(!ranks_before(scores, lo, hi - 1, scores[rest] as int, rest, k));
                }
            }
            last
        } else {
            assert forall|k: int| !ranks_before(scores, lo, hi, scores[rest] as int, rest, k) by {
                if lo <= k < hi - 1 {
                    assert(!ranks_before(scores, lo, hi - 1, scores[rest] as int, rest, k));
                }
            }
            rest
        }
    }
}

/// An over-budget history with a non-empty candidate range loses at least
/// one candidate.
proof fn lemma_range_evicts_one(
    tokens: Seq<usize>,
    scores: Seq<u8>,
    lo: int,
    hi: int,
    total: int,
    max: int,
) -> (first: int)
    requires
        0 <= lo < hi <= tokens.len(),
        scores.len() == tokens.len(),
        total > max,
    ensures
        lo <= first < hi,
        evicted(tokens, scores, lo, hi, total, max, first),
{
    let first = lemma_first_in_rank(scores, lo, hi);
    lemma_sum_marked_none(
        tokens,
        ranked_before(scores, lo, hi, scores[first] as int, first),
        tokens.len() as int,
    );
    first
}

/// A sum over marked positions is at least the tokens of any one of them.
proof fn lemma_sum_marked_covers(tokens: Seq<usize>, marked: Seq<bool>, at: int, upto: int)
    requires
        0 <= at < upto,
        marked[at],
    ensures
        sum_marked(tokens, marked, upto) >= tokens[at],
    decreases upto,
{
    if at < upto - 1 {
        lemma_sum_marked_covers(tokens, marked, at, upto - 1);
    }
}

/// Trimming an over-budget history makes it smaller. If the estimate
/// exceeds `max_tokens` and the history has a message besides its last,
/// the estimate of the result is strictly below the estimate of the input.
pub proof fn law_window_reduces_tokens(
    history: Seq<Message>,
    scores: Seq<u8>,
    config: ContextTrimConfig,
)
    requires
        scores.len() == history.len(),
        history_tokens(history) > config.max_tokens,
        history.len() >= 2,
    ensures
        history_tokens(enforced_window(history, scores, config)) < history_tokens(history),
{
    let tokens = token_counts(history);
    let len = history.len() as int;
    let total = total_tokens(tokens) as int;
    let max = config.max_tokens as int;
    lemma_total_is_history_tokens(history);
    let removals = window_removals(tokens, scores, config);
    let keep = window_keep_mask(tokens, scores, config);
    let boundary = preserve_boundary(len, config);
    let early = eviction_mask(tokens, scores, 0, boundary, total, max);
    let gone: int = if boundary > 0 {
        lemma_range_evicts_one(tokens, scores, 0, boundary, total, max)
    } else {
        lemma_sum_marked_none(tokens, early, len);
        lemma_range_evicts_one(tokens, scores, 0, len - 1, total, max)
    };
    assert(removals[gone]);
    lemma_sum_marked_covers(tokens, removals, gone, len);
    lemma_message_tokens_bounds(history[gone]);
    lemma_kept_tokens(history, keep, len);
    lemma_sum_marked_agree(tokens, Seq::new(keep.len(), |i: int| !keep[i]), removals, len);
    assert(history.take(len) =~= history);
}

/// Eviction follows the ranking. Within one candidate range, a candidate
/// that ranks before an evicted one (lower score, or equal score and earlier
/// position) is evicted as well.
pub proof fn law_eviction_follows_rank(
    tokens: Seq<usize>,
    scores: Seq<u8>,
    lo: int,
    hi: int,
    total: int,
    max: int,
    i: int,
    j: int,
)
    requires
        scores.len() == tokens.len(),
        lo <= i < hi,
        ranks_before(scores, lo, hi, scores[j] as int, j, i),
        evicted(tokens, scores, lo, hi, total, max, j),
    ensures
        evicted(tokens, scores, lo, hi, total, max, i),
{
    lemma_sum_marked_subset(
        tokens,
        ranked_before(scores, lo, hi, scores[i] as int, i),
        ranked_before(scores, lo, hi, scores[j] as int, j),
        tokens.len() as int,
    );
}

/// Semantic bias. Of two messages before the preserved tail, the one with
/// the higher semantic score outlives the other: if the lower-scored one
/// survives the trim, so does the higher-scored one.
pub proof fn law_higher_score_survives(
    history: Seq<Message>,
    scores: Seq<u8>,
    config: ContextTrimConfig,
    low: int,
    high: int,
)
    requires
        scores.len() == history.len(),
        0 <= low < preserve_boundary(history.len() as int, config),
        0 <= high < preserve_boundary(history.len() as int, config),
        scores[low] < scores[high],
        window_keep_mask(token_counts(history), scores, config)[low],
    ensures
        window_keep_mask(token_counts(history), scores, config)[high],
{
    let tokens = token_counts(history);
    let len = history.len() as int;
    let total = total_tokens(tokens) as int;
    let max = config.max_tokens as int;
    let boundary = preserve_boundary(len, config);
    if total > max && len > 1 {
        if evicted(tokens, scores, 0, boundary, total, max, high) {
            law_eviction_follows_rank(tokens, scores, 0, boundary, total, max, low, high);
        }
    }
}

/// Semantic bias towards code. Of two messages before the preserved tail,
/// one with a recognized code block outlives one that scored nothing: if
/// the unscored one survives the trim, so does the one with the code.
pub proof fn law_recognized_code_outlives_unscored(
    history: Seq<Message>,
    scores: Seq<u8>,
    config: ContextTrimConfig,
    unscored: int,
    code: int,
)
    requires
        scores.len() == history.len(),
        0 <= unscored < preserve_boundary(history.len() as int, config),
        0 <= code < preserve_boundary(history.len() as int, config),
        scores[unscored] == 0,
        score_fits(history[code], config, scores[code]),
        has_recognized_block(history[code]),
        window_keep_mask(token_counts(history), scores, config)[unscored],
    ensures
        window_keep_mask(token_counts(history), scores, config)[code],
{
    law_recognized_block_scores(history[code], config, scores[code]);
    law_higher_score_survives(history, scores, config, unscored, code);
}

/// A history within budget is left as it is.
pub proof fn law_within_budget_untouched(
    history: Seq<Message>,
    scores: Seq<u8>,
    config: ContextTrimConfig,
)
    requires
        scores.len() == history.len(),
        history_tokens(history) <= config.max_tokens,
    ensures
        enforced_window(history, scores, config) == history,
{
    lemma_total_is_history_tokens(history);
    let keep = window_keep_mask(token_counts(history), scores, config);
    crate::context::retain::lemma_keep_all(history, keep, history.len() as int);
    assert(history.take(history.len() as int) =~= history);
}

/// Pruning keeps plain text. A message that is no tool response and carries
/// no tool call survives tool-response pruning, wherever it stands.
pub proof fn law_prune_keeps_plain_text(history: Seq<Message>, config: ContextTrimConfig, i: int)
    requires
        0 <= i < history.len(),
        !carries_tool_payload(history[i]),
    ensures
        prune_mask(history, config)[i],
{
}

/// Pruning keeps the recent turns. The last `preserve_recent_turns`
/// positions survive tool-response pruning whatever they hold, and so the
/// pruned history ends with the same message if at least one turn is
/// preserved.
pub proof fn law_prune_keeps_recent_turns(history: Seq<Message>, config: ContextTrimConfig, i: int)
    requires
        0 <= i < history.len(),
        i + config.preserve_recent_turns >= history.len(),
    ensures
        prune_mask(history, config)[i],
        config.preserve_recent_turns >= 1 ==> keep_where(history, prune_mask(history, config)).last()
            == history.last(),
{
    if config.preserve_recent_turns >= 1 {
        let keep = prune_mask(history, config);
        assert(keep[history.len() - 1]);
    }
}

/// An aggressive trim keeps the end of the history: of a history that is
/// not empty at least one message stays, the last one.
pub proof fn law_aggressive_trim_keeps_last(len: nat, config: ContextTrimConfig)
    requires
        len >= 1,
    ensures
        1 <= aggressive_keep_count(len, config) <= len,
        aggressive_keep_count(len, config) <= AGGRESSIVE_PRESERVE_RECENT_TURNS,
{
}

/// Dropping messages never adds tokens, whichever positions are dropped: the
/// estimate of what is kept is at most the estimate of the whole. This
/// covers tool-response pruning as well as window enforcement.
pub proof fn law_filter_never_adds_tokens(history: Seq<Message>, keep: Seq<bool>)
    requires
        keep.len() == history.len(),
    ensures
        history_tokens(keep_where(history, keep)) <= history_tokens(history),
{
    lemma_kept_tokens(history, keep, history.len() as int);
    assert(history.take(history.len() as int) =~= history);
}

/// Cutting the front off a history never adds tokens.
pub proof fn law_suffix_never_adds_tokens(history: Seq<Message>, removed: int)
    requires
        0 <= removed <= history.len(),
    ensures
        history_tokens(history.skip(removed)) <= history_tokens(history),
    decreases history.len(),
{
    if removed < history.len() {
        let shorter = history.drop_last();
        law_suffix_never_adds_tokens(shorter, removed);
        assert(history.skip(removed).drop_last() =~= shorter.skip(removed));
        assert(history.skip(removed).last() == history.last());
    } else {
        assert(history.skip(removed) =~= Seq::<Message>::empty());
    }
}

} // verus!
