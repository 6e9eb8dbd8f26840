//! The response cache: its settings, its keys, and which entries go when
//! it is full.

use crate::time::duration_seconds;
use sha2::{Digest, Sha256};
use std::time::Duration;
use vstd::prelude::*;
use vstd::string::StringSliceAdditionalSpecFns;
use vstd::utf8::encode_utf8;

verus! {

/// The SHA-256 digest of the bytes, written as lower-case hexadecimal
/// digits.
pub uninterp spec fn sha256_hex(bytes: Seq<u8>) -> Seq<char>;

/// `Sha256::digest`, formatted with `{:x}`.
#[verifier::external_body]
fn digest_hex(bytes: &[u8]) -> (r: String)
    ensures
        r@ == sha256_hex(bytes@),
{
    format!("{:x}", Sha256::digest(bytes))
}

/// The cache key of a request in its serialized form: the SHA-256 digest
/// of its UTF-8 bytes in hexadecimal.
pub fn generate_cache_key(serialized: &str) -> (key: String)
    ensures
        key@ == sha256_hex(encode_utf8(serialized@)),
{
    digest_hex(serialized.as_bytes())
}

/// How many entries a cache of `len` entries holds beyond `max_entries`.
pub open spec fn excess(len: nat, max_entries: usize) -> nat {
    if len > max_entries {
        (len - max_entries) as nat
    } else {
        0
    }
}

/// `victims` are the entries to evict from a cache whose entries have the
/// given ages: as many as the cache holds too many, each entry at most
/// once, and none younger than an entry that stays.
pub open spec fn are_oldest(ages: Seq<u128>, max_entries: usize, victims: Seq<usize>) -> bool {
    &&& victims.len() == excess(ages.len(), max_entries)
    &&& forall|i: int| 0 <= i < victims.len() ==> (#[trigger] victims[i]) < ages.len()
    &&& forall|i: int, j: int| 0 <= i < j < victims.len() ==> victims[i] != victims[j]
    &&& forall|i: int, k: int|
        0 <= i < victims.len() && 0 <= k < ages.len() && !victims.contains(k as usize)
            ==> ages[#[trigger] victims[i] as int] >= #[trigger] ages[k]
}

/// Picks the entries to evict from a cache that holds more than
/// `max_entries`: the oldest ones, as many as are too many. `ages[i]` is
/// the age of entry `i`.
pub fn entries_to_evict(ages: &Vec<u128>, max_entries: usize) -> (victims: Vec<usize>)
    ensures
        are_oldest(ages@, max_entries, victims@),
{
    let n = ages.len();
    let mut victims: Vec<usize> = Vec::new();
    if n <= max_entries {
        return victims;
    }
    let count = n - max_entries;
    let mut chosen: Vec<bool> = Vec::new();
    let mut k: usize = 0;
    while k < n
        invariant
            k <= n,
            chosen@.len() == k,
            forall|i: int| 0 <= i < k ==> !chosen@[i],
        decreases n - k,
    {
        chosen.push(false);
        k += 1;
    }
    proof {
        lemma_all_free(chosen@, n as int);
    }
    while victims.len() < count
        invariant
            n == ages@.len(),
            count == n - max_entries,
            0 < count <= n,
            chosen@.len() == n,
            victims@.len() <= count,
            forall|i: int| 0 <= i < victims@.len() ==> (#[trigger] victims@[i]) < n,
            forall|i: int| 0 <= i < victims@.len() ==> chosen@[#[trigger] victims@[i] as int],
            forall|p: int| 0 <= p < n && chosen@[p] ==> victims@.contains(p as usize),
            forall|i: int, j: int| 0 <= i < j < victims@.len() ==> victims@[i] != victims@[j],
            forall|p: int, q: int|
                0 <= p < n && 0 <= q < n && chosen@[p] && !chosen@[q] ==> #[trigger] ages@[p]
                    >= #[trigger] ages@[q],
            count_free(chosen@, n as int) + victims@.len() == n,
        decreases count - victims@.len(),
    {
        proof {
            lemma_some_entry_is_free(chosen@, n as int);
        }
        let mut oldest: Option<usize> = None;
        let mut i: usize = 0;
        while i < n
            invariant
                i <= n,
                n == ages@.len(),
                chosen@.len() == n,
                match oldest {
                    Some(best) => best < i && !chosen@[best as int] && forall|q: int|
                        0 <= q < i && !chosen@[q] ==> ages@[best as int] >= #[trigger] ages@[q],
                    None => forall|q: int| 0 <= q < i ==> chosen@[q],
                },
            decreases n - i,
        {
            if !chosen[i] {
                match oldest {
                    Some(best) => {
                        if ages[i] > ages[best] {
                            oldest = Some(i);
                        }
                    },
                    None => {
                        oldest = Some(i);
                    },
                }
            }
            i += 1;
        }
        match oldest {
            Some(best) => {
                let ghost before = victims@;
                proof {
                    lemma_choosing_takes_one(chosen@, best as int, n as int);
                }
                chosen.set(best, true);
                victims.push(best);
                proof {
                    assert forall|p: int| 0 <= p < n && chosen@[p] implies victims@.contains(
                        p as usize,
                    ) by {
                        if p == best {
                            assert(victims@[before.len() as int] == best);
                        } else {
                            let at = choose|at: int| 0 <= at < before.len() && before[at] == p as usize;
                            assert(victims@[at] == p as usize);
                        }
                    }
                }
            },
            None => {
                return victims;
            },
        }
    }
    proof {
        assert forall|i: int, k: int|
            0 <= i < victims@.len() && 0 <= k < ages@.len() && !victims@.contains(
                k as usize,
            ) implies ages@[#[trigger] victims@[i] as int] >= #[trigger] ages@[k] by {
            assert(chosen@[victims@[i] as int]);
        }
    }
    victims
}

/// How many of the first `upto` entries are not chosen.
spec fn count_free(chosen: Seq<bool>, upto: int) -> nat
    decreases upto,
{
    if upto <= 0 {
        0
    } else {
        count_free(chosen, upto - 1) + if chosen[upto - 1] {
            0nat
        } else {
            1nat
        }
    }
}

proof fn lemma_all_free(chosen: Seq<bool>, upto: int)
    requires
        0 <= upto <= chosen.len(),
        forall|i: int| 0 <= i < upto ==> !chosen[i],
    ensures
        count_free(chosen, upto) == upto,
    decreases upto,
{
    if upto > 0 {
        lemma_all_free(chosen, upto - 1);
    }
}

proof fn lemma_some_entry_is_free(chosen: Seq<bool>, upto: int)
    requires
        0 <= upto <= chosen.len(),
        count_free(chosen, upto) > 0,
    ensures
        exists|q: int| 0 <= q < upto && !chosen[q],
    decreases upto,
{
    if chosen[upto - 1] {
        lemma_some_entry_is_free(chosen, upto - 1);
    }
}

proof fn lemma_choosing_takes_one(chosen: Seq<bool>, at: int, upto: int)
    requires
        0 <= at < chosen.len(),
        0 <= upto <= chosen.len(),
        !chosen[at],
    ensures
        count_free(chosen.update(at, true), upto) + (if at < upto {
            1nat
        } else {
            0nat
        }) == count_free(chosen, upto),
    decreases upto,
{
    if upto > 0 {
        lemma_choosing_takes_one(chosen, at, upto - 1);
    }
}

/// Settings of the cache of model responses.
#[derive(Debug, Clone)]
pub struct LLMCacheConfig {
    /// Whether responses are cached.
    pub enabled: bool,
    /// Most responses that are kept.
    pub max_entries: usize,
    /// How long a response stays valid.
    pub ttl: Duration,
}

impl Default for LLMCacheConfig {
    /// Caching is on, for a hundred responses of one hour each.
    fn default() -> (r: Self)
        ensures
            r.enabled,
            r.max_entries == 100,
            duration_seconds(r.ttl) == 3600,
    {
        LLMCacheConfig { enabled: true, max_entries: 100, ttl: Duration::from_secs(3600) }
    }
}

} // verus!
