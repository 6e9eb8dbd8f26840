//! The entry point of window enforcement: estimate, score, evict.

use crate::context::cache::{
    cache_filled, compute_semantic_scores, scores_explained, stored_scores,
};
use crate::context::config::{ContextTrimConfig, ContextTrimOutcome};
use crate::context::laws::{law_window_never_adds_tokens, lemma_last_message_stays};
use crate::context::semantic::CodeAnalyzer;
use crate::context::tokens::{estimate_history_tokens, history_tokens};
use crate::context::window::{
    enforced_window, lemma_estimates_are_token_counts, trim_estimated,
};
use crate::llm::types::Message;
use std::collections::HashMap;
use vstd::prelude::*;

verus! {

/// A score of zero for every message.
pub open spec fn no_scores(len: nat) -> Seq<u8> {
    Seq::new(len, |i: int| 0u8)
}

/// Brings `history` under the token budget of `config`.
///
/// A history within budget is left alone; the analyzer is not consulted
/// and the cache is not touched. Otherwise every message gets a semantic
/// score and the history becomes `enforced_window` for those scores,
/// which leaves a history of a single message alone. Without semantic
/// compression or without an analyzer every score is zero and the cache is
/// not touched; with both, the scores are those of the messages, each
/// explained by the analysis of the message or by the cache. Whatever the
/// analyzer and the cache answer, the estimate does not grow and, with at
/// least one preserved turn, the last message stays last.
pub fn enforce_unified_context_window<A: CodeAnalyzer>(
    history: &mut Vec<Message>,
    config: ContextTrimConfig,
    analyzer: Option<&mut A>,
    cache: Option<&mut HashMap<u64, u8>>,
) -> (outcome: ContextTrimOutcome)
    ensures
        history_tokens(old(history)@) <= config.max_tokens ==> final(history)@ == old(history)@,
        !config.semantic_compression || analyzer is None ==> final(history)@ == enforced_window(
            old(history)@,
            no_scores(old(history)@.len()),
            config,
        ),
        config.semantic_compression && analyzer is Some && history_tokens(old(history)@)
            > config.max_tokens ==> exists|scores: Seq<u8>|
            {
                &&& #[trigger] scores_explained(old(history)@, config, stored_scores(cache), scores)
                &&& final(history)@ == enforced_window(old(history)@, scores, config)
                &&& cache matches Some(held) ==> cache_filled(
                    old(history)@,
                    scores,
                    held@,
                    final(held)@,
                    old(history)@.len() as int,
                )
            },
        !(config.semantic_compression && analyzer is Some && history_tokens(old(history)@)
            > config.max_tokens) ==> (cache matches Some(held) ==> final(held)@ == held@),
        outcome.removed_messages == old(history)@.len() - final(history)@.len(),
        history_tokens(final(history)@) <= history_tokens(old(history)@),
        config.preserve_recent_turns >= 1 && old(history)@.len() >= 1 ==> final(history)@.len() >= 1
            && final(history)@.last() == old(history)@.last(),
{
    let ghost before = history@;
    let (tokens, total) = estimate_history_tokens(history);
    proof {
        lemma_estimates_are_token_counts(history@, tokens@);
    }
    let scores: Vec<u8> = if total <= config.max_tokens as u128 {
        let mut zeros: Vec<u8> = Vec::new();
        let mut i: usize = 0;
        while i < history.len()
            invariant
                i <= history.len(),
                zeros@.len() == i,
                forall|k: int| 0 <= k < i ==> zeros@[k] == 0,
            decreases history.len() - i,
        {
            zeros.push(0);
            i += 1;
        }
        zeros
    } else {
        compute_semantic_scores(history, analyzer, cache, &config)
    };
    let outcome = trim_estimated(history, &tokens, total, config, &scores);
    proof {
        if !config.semantic_compression || analyzer is None || total <= config.max_tokens {
            assert(scores@ =~= no_scores(before.len()));
        }
        law_window_never_adds_tokens(before, scores@, config);
        if total <= config.max_tokens {
            crate::context::laws::law_within_budget_untouched(before, scores@, config);
        }
        if config.preserve_recent_turns >= 1 && before.len() >= 1 {
            lemma_last_message_stays(before, scores@, config);
        }
    }
    outcome
}

} // verus!
