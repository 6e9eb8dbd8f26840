//! Enforcing the token budget: eviction by semantic score.
//!
//! Candidates are evicted in order of increasing score and, among equal
//! scores, of increasing position. A candidate is evicted exactly when the
//! history is still over budget once everything ranked before it is gone.

use crate::context::config::{ContextTrimConfig, ContextTrimOutcome};
use crate::context::retain::{keep_prefix, keep_where, lemma_keep_all, retain_by_mask};
use crate::context::tokens::{
    estimate_history_tokens, history_tokens, lemma_message_tokens_bounds, message_tokens,
};
use crate::llm::types::Message;
use vstd::prelude::*;

verus! {

/// The token estimate of each message of a history.
pub open spec fn token_counts(history: Seq<Message>) -> Seq<usize> {
    Seq::new(history.len(), |i: int| message_tokens(history[i]) as usize)
}

/// The sum of `tokens[i]` over the marked positions `i < upto`.
pub open spec fn sum_marked(tokens: Seq<usize>, marked: Seq<bool>, upto: int) -> nat
    decreases upto,
{
    if upto <= 0 {
        0
    } else {
        sum_marked(tokens, marked, upto - 1) + if marked[upto - 1] {
            tokens[upto - 1] as nat
        } else {
            0nat
        }
    }
}

/// The sum of all of `tokens`.
pub open spec fn total_tokens(tokens: Seq<usize>) -> nat {
    sum_marked(tokens, Seq::new(tokens.len(), |i: int| true), tokens.len() as int)
}

/// Position `k` lies in `[lo, hi)` and ranks before `(level, index)` in the
/// eviction order: lower score first, then lower position.
pub open spec fn ranks_before(scores: Seq<u8>, lo: int, hi: int, level: int, index: int, k: int) -> bool {
    lo <= k < hi && (scores[k] < level || (scores[k] == level && k < index))
}

/// The candidates of `[lo, hi)` that rank before `(level, index)`.
pub open spec fn ranked_before(scores: Seq<u8>, lo: int, hi: int, level: int, index: int) -> Seq<bool> {
    Seq::new(scores.len(), |k: int| ranks_before(scores, lo, hi, level, index, k))
}

/// The tokens of all candidates of `[lo, hi)` that are evicted before `i`
/// would be.
pub open spec fn tokens_ahead(tokens: Seq<usize>, scores: Seq<u8>, lo: int, hi: int, i: int) -> nat {
    sum_marked(tokens, ranked_before(scores, lo, hi, scores[i] as int, i), tokens.len() as int)
}

/// Candidate `i` of `[lo, hi)` is evicted: with everything ranked before it
/// gone, a history of `total` tokens is still over `max`.
pub open spec fn evicted(
    tokens: Seq<usize>,
    scores: Seq<u8>,
    lo: int,
    hi: int,
    total: int,
    max: int,
    i: int,
) -> bool {
    lo <= i < hi && total - tokens_ahead(tokens, scores, lo, hi, i) > max
}

/// The candidates of `[lo, hi)` that are evicted.
pub open spec fn eviction_mask(
    tokens: Seq<usize>,
    scores: Seq<u8>,
    lo: int,
    hi: int,
    total: int,
    max: int,
) -> Seq<bool> {
    Seq::new(tokens.len(), |i: int| evicted(tokens, scores, lo, hi, total, max, i))
}

/// Where the preserved tail begins.
pub open spec fn preserve_boundary(len: int, config: ContextTrimConfig) -> int {
    if config.preserve_recent_turns >= len {
        0
    } else {
        len - config.preserve_recent_turns
    }
}

/// The positions that window enforcement removes.
///
/// Nothing goes while the history fits the budget or has a single message.
/// Otherwise the positions before the preserved tail are candidates first;
/// if the budget is still exceeded after that, the tail itself, without its
/// last message, becomes the candidate range.
pub open spec fn window_removals(tokens: Seq<usize>, scores: Seq<u8>, config: ContextTrimConfig) -> Seq<
    bool,
> {
    let len = tokens.len() as int;
    let total = total_tokens(tokens) as int;
    let max = config.max_tokens as int;
    if total <= max || len <= 1 {
        Seq::new(tokens.len(), |i: int| false)
    } else {
        let boundary = preserve_boundary(len, config);
        let early = eviction_mask(tokens, scores, 0, boundary, total, max);
        let after_early = total - sum_marked(tokens, early, len);
        let late = eviction_mask(tokens, scores, boundary, len - 1, after_early, max);
        Seq::new(tokens.len(), |i: int| early[i] || late[i])
    }
}

/// The positions that window enforcement keeps.
pub open spec fn window_keep_mask(tokens: Seq<usize>, scores: Seq<u8>, config: ContextTrimConfig) -> Seq<
    bool,
> {
    let removals = window_removals(tokens, scores, config);
    Seq::new(tokens.len(), |i: int| !removals[i])
}

/// The history that window enforcement leaves.
pub open spec fn enforced_window(history: Seq<Message>, scores: Seq<u8>, config: ContextTrimConfig) -> Seq<
    Message,
> {
    keep_where(history, window_keep_mask(token_counts(history), scores, config))
}

pub proof fn lemma_sum_marked_agree(tokens: Seq<usize>, a: Seq<bool>, b: Seq<bool>, upto: int)
    requires
        forall|i: int| 0 <= i < upto ==> a[i] == b[i],
    ensures
        sum_marked(tokens, a, upto) == sum_marked(tokens, b, upto),
    decreases upto,
{
    if upto > 0 {
        lemma_sum_marked_agree(tokens, a, b, upto - 1);
    }
}

pub proof fn lemma_sum_marked_subset(tokens: Seq<usize>, a: Seq<bool>, b: Seq<bool>, upto: int)
    requires
        forall|i: int| 0 <= i < upto && a[i] ==> b[i],
    ensures
        sum_marked(tokens, a, upto) <= sum_marked(tokens, b, upto),
    decreases upto,
{
    if upto > 0 {
        lemma_sum_marked_subset(tokens, a, b, upto - 1);
    }
}

pub proof fn lemma_sum_marked_none(tokens: Seq<usize>, a: Seq<bool>, upto: int)
    requires
        forall|i: int| 0 <= i < upto ==> !a[i],
    ensures
        sum_marked(tokens, a, upto) == 0,
    decreases upto,
{
    if upto > 0 {
        lemma_sum_marked_none(tokens, a, upto - 1);
    }
}

/// Marking one more position adds its tokens to the sum.
pub proof fn lemma_sum_marked_add(tokens: Seq<usize>, a: Seq<bool>, b: Seq<bool>, at: int, upto: int)
    requires
        0 <= at < upto,
        !a[at],
        b[at],
        forall|i: int| 0 <= i < upto && i != at ==> a[i] == b[i],
    ensures
        sum_marked(tokens, b, upto) == sum_marked(tokens, a, upto) + tokens[at],
    decreases upto,
{
    if at == upto - 1 {
        lemma_sum_marked_agree(tokens, a, b, upto - 1);
    } else {
        lemma_sum_marked_add(tokens, a, b, at, upto - 1);
    }
}

/// The estimates of a history add up to its estimated tokens.
pub proof fn lemma_total_is_history_tokens(history: Seq<Message>)
    ensures
        total_tokens(token_counts(history)) == history_tokens(history),
    decreases history.len(),
{
    let tokens = token_counts(history);
    let all = Seq::new(tokens.len(), |i: int| true);
    if history.len() > 0 {
        let shorter = history.drop_last();
        lemma_total_is_history_tokens(shorter);
        let tokens_s = token_counts(shorter);
        let all_s = Seq::new(tokens_s.len(), |i: int| true);
        lemma_prefix_sums_agree(tokens, all, tokens_s, all_s, shorter.len() as int);
        lemma_message_tokens_bounds(history.last());
    }
}

proof fn lemma_prefix_sums_agree(
    tokens: Seq<usize>,
    a: Seq<bool>,
    other: Seq<usize>,
    b: Seq<bool>,
    upto: int,
)
    requires
        forall|i: int| 0 <= i < upto ==> a[i] == b[i] && tokens[i] == other[i],
    ensures
        sum_marked(tokens, a, upto) == sum_marked(other, b, upto),
    decreases upto,
{
    if upto > 0 {
        lemma_prefix_sums_agree(tokens, a, other, b, upto - 1);
    }
}

/// Tokens of what is kept plus tokens of what is dropped are the tokens of
/// the whole.
pub proof fn lemma_kept_tokens(history: Seq<Message>, keep: Seq<bool>, upto: int)
    requires
        0 <= upto <= history.len(),
        keep.len() == history.len(),
    ensures
        history_tokens(keep_prefix(history, keep, upto)) + sum_marked(
            token_counts(history),
            Seq::new(keep.len(), |i: int| !keep[i]),
            upto,
        ) == history_tokens(history.take(upto)),
    decreases upto,
{
    if upto > 0 {
        lemma_kept_tokens(history, keep, upto - 1);
        let rest = keep_prefix(history, keep, upto - 1);
        assert(history.take(upto).drop_last() =~= history.take(upto - 1));
        lemma_message_tokens_bounds(history[upto - 1]);
        if keep[upto - 1] {
            assert(rest.push(history[upto - 1]).drop_last() =~= rest);
        }
    } else {
        assert(history.take(0) =~= Seq::<Message>::empty());
    }
}

/// Runs one eviction pass over the candidates `[lo, hi)`, marking the
/// evicted positions in `removed` and returning the tokens that are left.
fn evict_range(
    tokens: &Vec<usize>,
    scores: &Vec<u8>,
    lo: usize,
    hi: usize,
    total: u128,
    max: usize,
    removed: &mut Vec<bool>,
) -> (left: u128)
    requires
        lo <= hi <= tokens@.len(),
        scores@.len() == tokens@.len(),
        old(removed)@.len() == tokens@.len(),
        forall|i: int| lo <= i < hi ==> !old(removed)@[i],
        sum_marked(tokens@, ranked_before(scores@, lo as int, hi as int, 256, 0), tokens@.len() as int)
            <= total,
    ensures
        final(removed)@.len() == tokens@.len(),
        forall|i: int| 0 <= i < tokens@.len() && !(lo <= i < hi) ==> final(removed)@[i] == old(
            removed,
        )@[i],
        forall|i: int|
            lo <= i < hi ==> final(removed)@[i] == evicted(
                tokens@,
                scores@,
                lo as int,
                hi as int,
                total as int,
                max as int,
                i,
            ),
        left == total - sum_marked(
            tokens@,
            eviction_mask(tokens@, scores@, lo as int, hi as int, total as int, max as int),
            tokens@.len() as int,
        ),
{
    let ghost len = tokens@.len() as int;
    let ghost before = removed@;
    let ghost all = ranked_before(scores@, lo as int, hi as int, 256, 0);
    let mut left: u128 = total;
    let ghost mut done: Seq<bool> = Seq::new(tokens@.len(), |k: int| false);
    let mut level: u16 = 0;
    proof {
        lemma_sum_marked_none(tokens@, done, len);
        lemma_sum_marked_none(tokens@, ranked_before(scores@, lo as int, hi as int, 0, lo as int), len);
    }
    while level < 256
        invariant
            level <= 256,
            lo <= hi <= len,
            len == tokens@.len(),
            scores@.len() == len,
            removed@.len() == len,
            done.len() == len,
            all == ranked_before(scores@, lo as int, hi as int, 256, 0),
            sum_marked(tokens@, all, len) <= total,
            forall|i: int| 0 <= i < len && !(lo <= i < hi) ==> removed@[i] == before[i],
            forall|i: int| 0 <= i < len ==> done[i] == (lo <= i < hi && removed@[i]),
            forall|i: int|
                ranks_before(scores@, lo as int, hi as int, level as int, lo as int, i)
                    ==> removed@[i] == evicted(
                    tokens@,
                    scores@,
                    lo as int,
                    hi as int,
                    total as int,
                    max as int,
                    i,
                ),
            forall|i: int|
                lo <= i < hi && !ranks_before(scores@, lo as int, hi as int, level as int, lo as int, i)
                    ==> !removed@[i],
            left == total - sum_marked(tokens@, done, len),
            left > max ==> left == total - sum_marked(
                tokens@,
                ranked_before(scores@, lo as int, hi as int, level as int, lo as int),
                len,
            ),
            left <= max ==> total - sum_marked(
                tokens@,
                ranked_before(scores@, lo as int, hi as int, level as int, lo as int),
                len,
            ) <= max,
        decreases 256 - level,
    {
        let mut i: usize = lo;
        while i < hi
            invariant
                level < 256,
                lo <= i <= hi <= len,
                len == tokens@.len(),
                scores@.len() == len,
                removed@.len() == len,
                done.len() == len,
                all == ranked_before(scores@, lo as int, hi as int, 256, 0),
                sum_marked(tokens@, all, len) <= total,
                forall|k: int| 0 <= k < len && !(lo <= k < hi) ==> removed@[k] == before[k],
                forall|k: int| 0 <= k < len ==> done[k] == (lo <= k < hi && removed@[k]),
                forall|k: int|
                    ranks_before(scores@, lo as int, hi as int, level as int, i as int, k)
                        ==> removed@[k] == evicted(
                        tokens@,
                        scores@,
                        lo as int,
                        hi as int,
                        total as int,
                        max as int,
                        k,
                    ),
                forall|k: int|
                    lo <= k < hi && !ranks_before(
                        scores@,
                        lo as int,
                        hi as int,
                        level as int,
                        i as int,
                        k,
                    ) ==> !removed@[k],
                left == total - sum_marked(tokens@, done, len),
                left > max ==> left == total - sum_marked(
                    tokens@,
                    ranked_before(scores@, lo as int, hi as int, level as int, i as int),
                    len,
                ),
                left <= max ==> total - sum_marked(
                    tokens@,
                    ranked_before(scores@, lo as int, hi as int, level as int, i as int),
                    len,
                ) <= max,
            decreases hi - i,
        {
            let ghost here = ranked_before(scores@, lo as int, hi as int, level as int, i as int);
            let ghost next = ranked_before(scores@, lo as int, hi as int, level as int, i + 1);
            if scores[i] as u16 == level {
                proof {
                    assert(here =~= ranked_before(
                        scores@,
                        lo as int,
                        hi as int,
                        scores@[i as int] as int,
                        i as int,
                    ));
                    lemma_sum_marked_add(tokens@, here, next, i as int, len);
                    lemma_sum_marked_subset(tokens@, next, all, len);
                }
                if left > max as u128 {
                    let ghost done_next = done.update(i as int, true);
                    proof {
                        lemma_sum_marked_add(tokens@, done, done_next, i as int, len);
                        done = done_next;
                    }
                    removed.set(i, true);
                    left = left - tokens[i] as u128;
                }
            } else {
                proof {
                    assert(here =~= next);
                }
            }
            i += 1;
        }
        proof {
            assert(ranked_before(scores@, lo as int, hi as int, level as int, hi as int)
                =~= ranked_before(scores@, lo as int, hi as int, level + 1, lo as int));
        }
        level += 1;
    }
    proof {
        assert(done =~= eviction_mask(tokens@, scores@, lo as int, hi as int, total as int, max as int));
    }
    left
}

/// Trims `history` to the token budget, given the semantic score of each
/// message. Removes exactly the positions of `window_removals`; survivors
/// keep their order.
pub fn enforce_window_with_scores(
    history: &mut Vec<Message>,
    config: ContextTrimConfig,
    scores: &Vec<u8>,
) -> (outcome: ContextTrimOutcome)
    requires
        scores@.len() == old(history)@.len(),
    ensures
        final(history)@ == enforced_window(old(history)@, scores@, config),
        outcome.removed_messages == old(history)@.len() - final(history)@.len(),
{
    let (tokens, total) = estimate_history_tokens(history);
    proof {
        lemma_estimates_are_token_counts(history@, tokens@);
    }
    trim_estimated(history, &tokens, total, config, scores)
}

/// Estimates that agree with `message_tokens` position by position are the
/// token counts of the history.
pub proof fn lemma_estimates_are_token_counts(history: Seq<Message>, tokens: Seq<usize>)
    requires
        tokens.len() == history.len(),
        forall|i: int| 0 <= i < history.len() ==> tokens[i] == message_tokens(#[trigger] history[i]),
    ensures
        tokens == token_counts(history),
{
    assert(tokens =~= token_counts(history)) by {
        assert forall|i: int| 0 <= i < history.len() implies tokens[i] == token_counts(history)[i] by {
            lemma_message_tokens_bounds(history[i]);
        }
    }
}

/// Window enforcement on a history whose estimates are already at hand.
pub(crate) fn trim_estimated(
    history: &mut Vec<Message>,
    tokens: &Vec<usize>,
    total: u128,
    config: ContextTrimConfig,
    scores: &Vec<u8>,
) -> (outcome: ContextTrimOutcome)
    requires
        scores@.len() == old(history)@.len(),
        tokens@ == token_counts(old(history)@),
        total == history_tokens(old(history)@),
    ensures
        final(history)@ == enforced_window(old(history)@, scores@, config),
        outcome.removed_messages == old(history)@.len() - final(history)@.len(),
{
    let n = history.len();
    proof {
        lemma_total_is_history_tokens(history@);
    }
    if total <= config.max_tokens as u128 || n <= 1 {
        proof {
            let keep = window_keep_mask(tokens@, scores@, config);
            lemma_keep_all(history@, keep, n as int);
            assert(history@.take(n as int) =~= history@);
        }
        return ContextTrimOutcome { removed_messages: 0 };
    }
    let boundary: usize = if config.preserve_recent_turns >= n {
        0
    } else {
        n - config.preserve_recent_turns
    };
    let mut removed: Vec<bool> = Vec::new();
    let mut k: usize = 0;
    while k < n
        invariant
            k <= n,
            removed@.len() == k,
            forall|i: int| 0 <= i < k ==> !removed@[i],
        decreases n - k,
    {
        removed.push(false);
        k += 1;
    }
    proof {
        let everything = Seq::new(tokens@.len(), |i: int| true);
        lemma_sum_marked_subset(
            tokens@,
            ranked_before(scores@, 0, boundary as int, 256, 0),
            everything,
            n as int,
        );
    }
    let after_early = evict_range(tokens, scores, 0, boundary, total, config.max_tokens, &mut removed);
    let ghost early = eviction_mask(
        tokens@,
        scores@,
        0,
        boundary as int,
        total as int,
        config.max_tokens as int,
    );
    if boundary < n {
        proof {
            let everything = Seq::new(tokens@.len(), |i: int| true);
            let late_all = ranked_before(scores@, boundary as int, n - 1, 256, 0);
            let both = Seq::new(tokens@.len(), |i: int| early[i] || late_all[i]);
            lemma_sum_split(tokens@, early, late_all, n as int);
            lemma_sum_marked_subset(tokens@, both, everything, n as int);
        }
        let _ = evict_range(
            tokens,
            scores,
            boundary,
            n - 1,
            after_early,
            config.max_tokens,
            &mut removed,
        );
    }
    let mut keep: Vec<bool> = Vec::new();
    let mut j: usize = 0;
    while j < n
        invariant
            j <= n,
            removed@.len() == n,
            keep@.len() == j,
            forall|i: int| 0 <= i < j ==> keep@[i] == !removed@[i],
        decreases n - j,
    {
        keep.push(!removed[j]);
        j += 1;
    }
    proof {
        assert(keep@ =~= window_keep_mask(tokens@, scores@, config));
    }
    let removed_messages = retain_by_mask(history, &keep);
    ContextTrimOutcome { removed_messages }
}

/// Two disjoint sets of positions: the sum over their union is the sum of
/// the two sums.
proof fn lemma_sum_split(tokens: Seq<usize>, a: Seq<bool>, b: Seq<bool>, upto: int)
    requires
        upto <= tokens.len(),
        a.len() == tokens.len(),
        b.len() == tokens.len(),
        forall|i: int| 0 <= i < upto ==> !(a[i] && b[i]),
    ensures
        sum_marked(tokens, Seq::new(tokens.len(), |i: int| a[i] || b[i]), upto) == sum_marked(
            tokens,
            a,
            upto,
        ) + sum_marked(tokens, b, upto),
    decreases upto,
{
    if upto > 0 {
        lemma_sum_split(tokens, a, b, upto - 1);
    }
}

} // verus!
