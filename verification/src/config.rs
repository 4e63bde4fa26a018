//! Per-role generation parameters and the static provider registry.
//!
//! Budgets are fixed per role: debaters get a larger output ceiling and a
//! higher sampling temperature than the judge, whose verdicts are generated
//! more conservatively. The registry is a read-only list used only to answer
//! capability-discovery queries; it performs no resolution itself.

use vstd::prelude::*;
use crate::types::Position;

verus! {

/// Total token budget available to one backend call for a role (a
/// deterministic proxy for the context window, not a real tokenizer count).
pub open spec fn spec_max_tokens_for_role(role: Position) -> u64 {
    8192
}

/// Tokens reserved for the role's own output, subtracted from the total
/// budget before any transcript history is admitted.
pub open spec fn spec_reserved_tokens_for_role(role: Position) -> u64 {
    match role {
        Position::Judge => 1024,
        _ => 2048,
    }
}

/// What remains of the total budget for transcript history.
pub open spec fn spec_allowed_history_tokens(role: Position) -> u64 {
    (spec_max_tokens_for_role(role) - spec_reserved_tokens_for_role(role)) as u64
}

pub fn max_tokens_for_role(role: Position) -> (t: u64)
    ensures
        t == spec_max_tokens_for_role(role),
{
    8192
}

pub fn reserved_tokens_for_role(role: Position) -> (t: u64)
    ensures
        t == spec_reserved_tokens_for_role(role),
{
    match role {
        Position::Judge => 1024,
        _ => 2048,
    }
}

pub fn allowed_history_tokens(role: Position) -> (t: u64)
    ensures
        t == spec_allowed_history_tokens(role),
{
    max_tokens_for_role(role) - reserved_tokens_for_role(role)
}

/// Sampling temperature in tenths (the library holds no floating point; the
/// caller divides by ten at the transport boundary). Debaters sample at 0.7,
/// the judge at 0.3 for consistent verdicts.
pub open spec fn spec_temperature_tenths(role: Position) -> u8 {
    match role {
        Position::Judge => 3,
        _ => 7,
    }
}

/// Output-length ceiling for one call: 2048 tokens for debaters, 1024 for
/// the judge.
pub open spec fn spec_max_output_tokens(role: Position) -> u32 {
    match role {
        Position::Judge => 1024,
        _ => 2048,
    }
}

pub fn temperature_tenths(role: Position) -> (t: u8)
    ensures
        t == spec_temperature_tenths(role),
{
    match role {
        Position::Judge => 3,
        _ => 7,
    }
}

pub fn max_output_tokens(role: Position) -> (t: u32)
    ensures
        t == spec_max_output_tokens(role),
{
    match role {
        Position::Judge => 1024,
        _ => 2048,
    }
}

/// One row of the static provider registry: the provider's identifier (also
/// its display name) and the environment variable that must hold its
/// credential. Whether the credential is present is the caller's to check;
/// the registry only names the variable.
pub struct ProviderEntry {
    pub key: String,
    pub env_var: String,
}

/// The static, read-only provider registry used for capability discovery.
pub fn provider_registry() -> (r: Vec<ProviderEntry>)
    ensures
        r@.len() == 8,
        r@[0].key@ == "groq"@ && r@[0].env_var@ == "GROQ_API_KEY"@,
        r@[1].key@ == "mistral"@ && r@[1].env_var@ == "MISTRAL_API_KEY"@,
        r@[2].key@ == "deepseek"@ && r@[2].env_var@ == "DEEPSEEK_API_KEY"@,
        r@[3].key@ == "gemini"@ && r@[3].env_var@ == "GOOGLE_API_KEY"@,
        r@[4].key@ == "openai"@ && r@[4].env_var@ == "OPENAI_API_KEY"@,
        r@[5].key@ == "qwen"@ && r@[5].env_var@ == "DASHSCOPE_API_KEY"@,
        r@[6].key@ == "zhipu"@ && r@[6].env_var@ == "ZHIPU_API_KEY"@,
        r@[7].key@ == "anthropic"@ && r@[7].env_var@ == "ANTHROPIC_API_KEY"@,
{
    let mut r: Vec<ProviderEntry> = Vec::new();
    r.push(ProviderEntry { key: String::from_str("groq"), env_var: String::from_str("GROQ_API_KEY") });
    r.push(ProviderEntry { key: String::from_str("mistral"), env_var: String::from_str("MISTRAL_API_KEY") });
    r.push(ProviderEntry { key: String::from_str("deepseek"), env_var: String::from_str("DEEPSEEK_API_KEY") });
    r.push(ProviderEntry { key: String::from_str("gemini"), env_var: String::from_str("GOOGLE_API_KEY") });
    r.push(ProviderEntry { key: String::from_str("openai"), env_var: String::from_str("OPENAI_API_KEY") });
    r.push(ProviderEntry { key: String::from_str("qwen"), env_var: String::from_str("DASHSCOPE_API_KEY") });
    r.push(ProviderEntry { key: String::from_str("zhipu"), env_var: String::from_str("ZHIPU_API_KEY") });
    r.push(ProviderEntry { key: String::from_str("anthropic"), env_var: String::from_str("ANTHROPIC_API_KEY") });
    r
}

/// The candidate identifiers as character sequences.
pub open spec fn key_views(candidates: Seq<String>) -> Seq<Seq<char>> {
    candidates.map_values(|c: String| c@)
}

/// Index of the first candidate whose identifier equals `key`, or -1.
pub open spec fn spec_index_of_key(keys: Seq<Seq<char>>, key: Seq<char>) -> int
    decreases keys.len(),
{
    if keys.len() == 0 {
        -1
    } else if keys[0] == key {
        0
    } else {
        let rest = spec_index_of_key(keys.drop_first(), key);
        if rest == -1 {
            -1
        } else {
            rest + 1
        }
    }
}

/// Pick the backend provider for one role out of the available candidates.
///
/// If the caller requested a provider by name and it is among the
/// candidates, that exact provider wins (no fallback). Otherwise the static
/// fallback chain applies: a deterministic round-robin pick over the
/// candidate list, offset by the role's default index and by how many roles
/// were already assigned a fallback.
pub fn choose_provider(
    candidates: &Vec<String>,
    requested: Option<&String>,
    default_fallback_idx: usize,
    used_count: usize,
) -> (r: usize)
    requires
        candidates@.len() > 0,
        default_fallback_idx + used_count <= usize::MAX,
    ensures
        r < candidates@.len(),
        match requested {
            Some(name) => {
                let found = spec_index_of_key(key_views(candidates@), name@);
                if found >= 0 {
                    r == found
                } else {
                    r == (default_fallback_idx + used_count) % (candidates@.len() as int)
                }
            },
            None => r == (default_fallback_idx + used_count) % (candidates@.len() as int),
        },
{
    if let Some(name) = requested {
        let ghost keys = key_views(candidates@);
        let mut i: usize = 0;
        while i < candidates.len()
            invariant
                i <= candidates@.len(),
                keys == key_views(candidates@),
                requested == Some(name),
                forall|j: int| 0 <= j < i ==> keys[j] != name@,
            decreases candidates@.len() - i,
        {
            if candidates[i].eq(name) {
                proof {
                    assert(keys[i as int] == candidates@[i as int]@);
                    lemma_index_of_key_first(keys, name@, i as int);
                }
                return i;
            }
            i = i + 1;
        }
        proof {
            lemma_index_of_key_none(keys, name@);
        }
    }
    (default_fallback_idx + used_count) % candidates.len()
}

pub proof fn lemma_index_of_key_first(keys: Seq<Seq<char>>, key: Seq<char>, i: int)
    requires
        0 <= i < keys.len(),
        keys[i] == key,
        forall|j: int| 0 <= j < i ==> keys[j] != key,
    ensures
        spec_index_of_key(keys, key) == i,
    decreases keys.len(),
{
    if i == 0 {
    } else {
        assert(keys.drop_first()[i - 1] == keys[i]);
        assert(forall|j: int| 0 <= j < i - 1 ==> keys.drop_first()[j] == keys[j + 1]);
        lemma_index_of_key_first(keys.drop_first(), key, i - 1);
    }
}

pub proof fn lemma_index_of_key_none(keys: Seq<Seq<char>>, key: Seq<char>)
    requires
        forall|j: int| 0 <= j < keys.len() ==> keys[j] != key,
    ensures
        spec_index_of_key(keys, key) == -1,
    decreases keys.len(),
{
    if keys.len() > 0 {
        lemma_index_of_key_none(keys.drop_first(), key);
    }
}

} // verus!
