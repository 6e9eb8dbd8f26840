//! Memoizing semantic scores by a hash of what the score depends on.

use crate::context::config::ContextTrimConfig;
use crate::context::semantic::{compute_semantic_score, score_fits, CodeAnalyzer};
use crate::llm::types::{Message, ToolCall};
use std::collections::hash_map::DefaultHasher;
use std::collections::HashMap;
use std::hash::Hasher;
use vstd::prelude::*;
use vstd::std_specs::hash::{group_hash_axioms, DefaultHasherAdditionalSpecFns};
use vstd::string::StringSliceAdditionalSpecFns;
use vstd::utf8::encode_utf8;

verus! {

/// What hashing one text feeds to the hasher: its UTF-8 bytes, then a byte
/// that no UTF-8 text contains, so that adjacent texts cannot run together.
pub open spec fn text_writes(text: Seq<char>) -> Seq<Seq<u8>> {
    seq![encode_utf8(text), seq![0xffu8]]
}

/// What hashing the first `upto` tool calls feeds to the hasher: the id,
/// the function name and the argument string of each.
pub open spec fn calls_writes(calls: Seq<ToolCall>, upto: int) -> Seq<Seq<u8>>
    decreases upto,
{
    if upto <= 0 {
        Seq::empty()
    } else {
        let call = calls[upto - 1];
        calls_writes(calls, upto - 1) + text_writes(call.id@) + text_writes(call.function.name@)
            + text_writes(call.function.arguments@)
    }
}

/// Everything the semantic hash of a message covers, in the order it is
/// hashed: role tag, text, the id of the answered call, then the tool calls.
pub open spec fn hash_writes(message: Message) -> Seq<Seq<u8>> {
    text_writes(message.role.generic_tag()) + text_writes(message.content.plain_text()) + (
    match message.tool_call_id {
        Some(id) => text_writes(id@),
        None => Seq::empty(),
    }) + (match message.tool_calls {
        Some(calls) => calls_writes(calls@, calls@.len() as int),
        None => Seq::empty(),
    })
}

fn write_text(hasher: &mut DefaultHasher, text: &str)
    ensures
        final(hasher)@ == old(hasher)@ + text_writes(text@),
{
    hasher.write(text.as_bytes());
    let end: [u8; 1] = [0xff];
    hasher.write(end.as_slice());
    proof {
        assert(end@ =~= seq![0xffu8]);
        assert(hasher@ =~= old(hasher)@ + text_writes(text@));
    }
}

/// The key under which the semantic score of a message is cached: the
/// hash of its role, text, answered call id and tool calls.
pub open spec fn message_key(message: Message) -> u64 {
    DefaultHasher::spec_finish(hash_writes(message))
}

/// The key under which the semantic score of a message is cached.
pub fn message_semantic_hash(message: &Message) -> (key: u64)
    ensures
        key == message_key(*message),
{
    let mut hasher = DefaultHasher::new();
    write_text(&mut hasher, message.role.as_generic_str());
    let text = message.content.to_plain_text();
    write_text(&mut hasher, text.as_str());
    match &message.tool_call_id {
        Some(id) => {
            write_text(&mut hasher, id.as_str());
        },
        None => {},
    }
    let ghost head = hasher@;
    match &message.tool_calls {
        Some(calls) => {
            let mut i: usize = 0;
            while i < calls.len()
                invariant
                    i <= calls.len(),
                    hasher@ == head + calls_writes(calls@, i as int),
                decreases calls.len() - i,
            {
                let call = &calls[i];
                write_text(&mut hasher, call.id.as_str());
                write_text(&mut hasher, call.function.name.as_str());
                write_text(&mut hasher, call.function.arguments.as_str());
                proof {
                    assert(hasher@ =~= head + calls_writes(calls@, i + 1));
                }
                i += 1;
            }
        },
        None => {},
    }
    proof {
        assert(hasher@ =~= hash_writes(*message));
    }
    hasher.finish()
}

/// What the cache held when scoring began, where there is a cache.
pub open spec fn stored_scores(cache: Option<&mut HashMap<u64, u8>>) -> Option<Map<u64, u8>> {
    match cache {
        Some(held) => Some(held@),
        None => None,
    }
}

/// How the score of message `i` came about. Without a cache it is a score
/// that fits the message. With a cache, a score found under the key of
/// the message is taken as it is; else the score fits the first message of
/// the history under that key, for which it was computed and stored.
pub open spec fn score_explained(
    history: Seq<Message>,
    config: ContextTrimConfig,
    stored: Option<Map<u64, u8>>,
    scores: Seq<u8>,
    i: int,
) -> bool {
    let key = message_key(history[i]);
    match stored {
        None => score_fits(history[i], config, scores[i]),
        Some(found) => if found.contains_key(key) {
            scores[i] == found[key]
        } else {
            exists|j: int|
                0 <= j <= i && #[trigger] message_key(history[j]) == key && score_fits(
                    history[j],
                    config,
                    scores[i],
                )
        },
    }
}

/// `scores` may be the semantic scores of `history`, computed against what
/// the cache held: one for each message, each explained.
pub open spec fn scores_explained(
    history: Seq<Message>,
    config: ContextTrimConfig,
    stored: Option<Map<u64, u8>>,
    scores: Seq<u8>,
) -> bool {
    &&& scores.len() == history.len()
    &&& forall|i: int|
        0 <= i < history.len() ==> #[trigger] score_explained(history, config, stored, scores, i)
}

/// What the cache holds after `scores` were computed for `history`: what
/// it held before, and each message's score under the message's key.
pub open spec fn cache_filled(
    history: Seq<Message>,
    scores: Seq<u8>,
    before: Map<u64, u8>,
    after: Map<u64, u8>,
    upto: int,
) -> bool {
    &&& forall|key: u64| #[trigger]
        before.contains_key(key) ==> after.contains_key(key) && after[key] == before[key]
    &&& forall|i: int|
        0 <= i < upto ==> after.contains_key(#[trigger] message_key(history[i])) && after[message_key(
            history[i],
        )] == scores[i]
    &&& forall|key: u64| #[trigger]
        after.contains_key(key) ==> before.contains_key(key) || exists|i: int|
            0 <= i < upto && #[trigger] message_key(history[i]) == key
}

/// The semantic score of every message of `history`, in order. All scores
/// are zero when semantic compression is off or no analyzer is given, and
/// the cache is then left alone. Otherwise each score is explained: with a
/// cache, a score found under the message's key is used as it is, and a
/// computed score is stored there.
pub fn compute_semantic_scores<A: CodeAnalyzer>(
    history: &Vec<Message>,
    analyzer: Option<&mut A>,
    cache: Option<&mut HashMap<u64, u8>>,
    config: &ContextTrimConfig,
) -> (scores: Vec<u8>)
    ensures
        scores@.len() == history@.len(),
        !config.semantic_compression || analyzer is None ==> forall|i: int|
            0 <= i < scores@.len() ==> scores@[i] == 0,
        config.semantic_compression && analyzer is Some ==> scores_explained(
            history@,
            *config,
            stored_scores(cache),
            scores@,
        ),
        cache matches Some(held) ==> if config.semantic_compression && analyzer is Some {
            cache_filled(history@, scores@, held@, final(held)@, history@.len() as int)
        } else {
            final(held)@ == held@
        },
{
    broadcast use group_hash_axioms;

    let mut scores: Vec<u8> = Vec::new();
    let mut i: usize = 0;
    match analyzer {
        Some(analyzer) if config.semantic_compression => {
            match cache {
                Some(cache_map) => {
                    let ghost before = cache_map@;
                    while i < history.len()
                        invariant
                            i <= history.len(),
                            scores@.len() == i,
                            cache_filled(history@, scores@, before, cache_map@, i as int),
                            forall|k: int|
                                0 <= k < i ==> #[trigger] score_explained(
                                    history@,
                                    *config,
                                    Some(before),
                                    scores@,
                                    k,
                                ),
                        decreases history.len() - i,
                    {
                        let ghost held = cache_map@;
                        let ghost earlier = scores@;
                        let key = message_semantic_hash(&history[i]);
                        let cached: Option<u8> = match cache_map.get(&key) {
                            Some(value) => Some(*value),
                            None => None,
                        };
                        let score = match cached {
                            Some(value) => value,
                            None => {
                                let computed = compute_semantic_score(&history[i], analyzer, config);
                                cache_map.insert(key, computed);
                                computed
                            },
                        };
                        scores.push(score);
                        proof {
                            lemma_score_joins(history@, *config, before, held, earlier, score, i as int);
                            assert(cache_map@ == if held.contains_key(key) {
                                held
                            } else {
                                held.insert(key, score)
                            });
                        }
                        i += 1;
                    }
                },
                None => {
                    while i < history.len()
                        invariant
                            i <= history.len(),
                            scores@.len() == i,
                            forall|k: int|
                                0 <= k < i ==> #[trigger] score_explained(
                                    history@,
                                    *config,
                                    None,
                                    scores@,
                                    k,
                                ),
                        decreases history.len() - i,
                    {
                        let ghost earlier = scores@;
                        let score = compute_semantic_score(&history[i], analyzer, config);
                        scores.push(score);
                        proof {
                            assert forall|k: int| 0 <= k < i + 1 implies #[trigger] score_explained(
                                history@,
                                *config,
                                None,
                                scores@,
                                k,
                            ) by {
                                if k < i {
                                    assert(score_explained(history@, *config, None, earlier, k));
                                }
                            }
                        }
                        i += 1;
                    }
                },
            }
        },
        _ => {
            while i < history.len()
                invariant
                    i <= history.len(),
                    scores@.len() == i,
                    forall|k: int| 0 <= k < i ==> scores@[k] == 0,
                decreases history.len() - i,
            {
                scores.push(0);
                i += 1;
            }
        },
    }
    scores
}

/// One more score keeps the scores explained and the cache filled: the
/// score of message `i` is the one the cache held under its key, or one
/// that fits the message and is stored there.
proof fn lemma_score_joins(
    history: Seq<Message>,
    config: ContextTrimConfig,
    before: Map<u64, u8>,
    held: Map<u64, u8>,
    earlier: Seq<u8>,
    score: u8,
    i: int,
)
    requires
        0 <= i < history.len(),
        earlier.len() == i,
        cache_filled(history, earlier, before, held, i),
        forall|k: int|
            0 <= k < i ==> #[trigger] score_explained(history, config, Some(before), earlier, k),
        if held.contains_key(message_key(history[i])) {
            score == held[message_key(history[i])]
        } else {
            score_fits(history[i], config, score)
        },
    ensures
        cache_filled(
            history,
            earlier.push(score),
            before,
            if held.contains_key(message_key(history[i])) {
                held
            } else {
                held.insert(message_key(history[i]), score)
            },
            i + 1,
        ),
        forall|k: int|
            0 <= k < i + 1 ==> #[trigger] score_explained(
                history,
                config,
                Some(before),
                earlier.push(score),
                k,
            ),
{
    let key = message_key(history[i]);
    let scores = earlier.push(score);
    let after = if held.contains_key(key) {
        held
    } else {
        held.insert(key, score)
    };
    assert forall|k: int| 0 <= k < i + 1 implies #[trigger] score_explained(
        history,
        config,
        Some(before),
        scores,
        k,
    ) by {
        if k < i {
            assert(score_explained(history, config, Some(before), earlier, k));
            assert(scores[k] == earlier[k]);
        } else if !before.contains_key(key) {
            if held.contains_key(key) {
                let first = choose|first: int|
                    0 <= first < i && #[trigger] message_key(history[first]) == key;
                assert(score_explained(history, config, Some(before), earlier, first));
                assert(earlier[first] == held[key]);
                let origin = choose|j: int|
                    0 <= j <= first && #[trigger] message_key(history[j]) == key && score_fits(
                        history[j],
                        config,
                        earlier[first],
                    );
                assert(0 <= origin <= i && message_key(history[origin]) == key && score_fits(
                    history[origin],
                    config,
                    scores[i],
                ));
            } else {
                assert(0 <= i <= i && message_key(history[i]) == key && score_fits(
                    history[i],
                    config,
                    scores[i],
                ));
            }
        }
    }
    assert forall|k: int| 0 <= k < i + 1 implies after.contains_key(
        #[trigger] message_key(history[k]),
    ) && after[message_key(history[k])] == scores[k] by {
        if k < i {
            assert(held.contains_key(message_key(history[k])));
        }
    }
    assert forall|other: u64| #[trigger] after.contains_key(other) implies before.contains_key(other)
        || exists|k: int| 0 <= k < i + 1 && #[trigger] message_key(history[k]) == other by {
        if held.contains_key(other) {
            if !before.contains_key(other) {
                let k = choose|k: int| 0 <= k < i && #[trigger] message_key(history[k]) == other;
                assert(0 <= k < i + 1 && message_key(history[k]) == other);
            }
        } else {
            assert(other == key);
            assert(0 <= i < i + 1 && message_key(history[i]) == other);
        }
    }
}

} // verus!
