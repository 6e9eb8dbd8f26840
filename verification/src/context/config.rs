//! The knobs of the context trimmer and their bounds.

use vstd::prelude::*;

verus! {

/// Characters that count as one token in the estimate.
pub const CHAR_PER_TOKEN_APPROX: usize = 5;

/// Token budget used when nothing else is configured.
pub const DEFAULT_MAX_TOKENS: usize = 90000;

/// Share of the budget, in percent, that a trim aims for by default.
pub const DEFAULT_TRIM_TO_PERCENT: u8 = 80;

/// Lowest accepted trim target, in percent of the budget.
pub const MIN_TRIM_RATIO_PERCENT: u8 = 60;

/// Highest accepted trim target, in percent of the budget.
pub const MAX_TRIM_RATIO_PERCENT: u8 = 90;

/// Recent turns kept by default.
pub const DEFAULT_PRESERVE_RECENT_TURNS: usize = 12;

/// Fewest recent turns a loaded configuration may ask to keep.
pub const MIN_PRESERVE_RECENT_TURNS: usize = 6;

/// Most recent turns that survive an aggressive trim.
pub const AGGRESSIVE_PRESERVE_RECENT_TURNS: usize = 10;

pub const DEFAULT_SEMANTIC_COMPRESSION_ENABLED: bool = false;

pub const DEFAULT_TOOL_AWARE_RETENTION_ENABLED: bool = false;

/// Deepest symbol scope that still counts towards a semantic score.
pub const DEFAULT_MAX_STRUCTURAL_DEPTH: usize = 3;

/// Recent tool payloads kept by default when tool-aware retention is on.
pub const DEFAULT_PRESERVE_RECENT_TOOLS: usize = 5;

/// Settings of the context trimmer.
#[derive(Clone, Copy, Debug)]
pub struct ContextTrimConfig {
    pub max_tokens: usize,
    pub trim_to_percent: u8,
    pub preserve_recent_turns: usize,
    pub semantic_compression: bool,
    pub tool_aware_retention: bool,
    pub max_structural_depth: usize,
    pub preserve_recent_tools: usize,
}

/// `percent` held to the accepted trim ratios.
pub open spec fn clamp_trim_percent(percent: u8) -> u8 {
    if percent < MIN_TRIM_RATIO_PERCENT {
        MIN_TRIM_RATIO_PERCENT
    } else if percent > MAX_TRIM_RATIO_PERCENT {
        MAX_TRIM_RATIO_PERCENT
    } else {
        percent
    }
}

impl ContextTrimConfig {
    /// The token count a trim aims for: the budget times the clamped
    /// percentage, rounded down.
    pub open spec fn spec_target_tokens(self) -> nat {
        (self.max_tokens as nat * clamp_trim_percent(self.trim_to_percent) as nat) / 100
    }

    pub fn target_tokens(&self) -> (r: usize)
        ensures
            r == self.spec_target_tokens(),
            r <= self.max_tokens,
    {
        let percent: u8 = if self.trim_to_percent < MIN_TRIM_RATIO_PERCENT {
            MIN_TRIM_RATIO_PERCENT
        } else if self.trim_to_percent > MAX_TRIM_RATIO_PERCENT {
            MAX_TRIM_RATIO_PERCENT
        } else {
            self.trim_to_percent
        };
        let budget: u128 = self.max_tokens as u128;
        let ratio: u128 = percent as u128;
        proof {
            assert(budget * ratio <= budget * 100 <= u128::MAX) by (nonlinear_arith)
                requires
                    budget <= 0xFFFF_FFFF_FFFF_FFFF,
                    ratio <= 100,
            ;
        }
        let wide: u128 = budget * ratio / 100;
        wide as usize
    }
}

/// What a trim did to the history.
#[derive(Debug)]
pub struct ContextTrimOutcome {
    pub removed_messages: usize,
}

impl Default for ContextTrimOutcome {
    fn default() -> (r: Self)
        ensures
            r.removed_messages == 0,
    {
        ContextTrimOutcome { removed_messages: 0 }
    }
}

impl ContextTrimOutcome {
    pub fn is_trimmed(&self) -> (r: bool)
        ensures
            r == (self.removed_messages > 0),
    {
        self.removed_messages > 0
    }
}

/// What the configuration file says about the context window; every key
/// is optional.
#[derive(Clone, Copy, Debug)]
pub struct ContextSettings {
    pub max_context_tokens: usize,
    pub trim_to_percent: u8,
    pub preserve_recent_turns: usize,
    pub semantic_compression: bool,
    pub tool_aware_retention: bool,
    pub max_structural_depth: usize,
    pub preserve_recent_tools: usize,
}

/// The budget in force: a positive override wins, then a positive
/// configured value, then the default.
pub open spec fn effective_max_tokens(
    token_limit_override: Option<usize>,
    settings: Option<ContextSettings>,
) -> usize {
    let configured = match settings {
        Some(s) if s.max_context_tokens > 0 => s.max_context_tokens,
        _ => DEFAULT_MAX_TOKENS,
    };
    match token_limit_override {
        Some(limit) if limit > 0 => limit,
        _ => configured,
    }
}

/// The trimmer's configuration for the given settings.
pub open spec fn resolved_config(
    token_limit_override: Option<usize>,
    settings: Option<ContextSettings>,
) -> ContextTrimConfig {
    match settings {
        Some(s) => ContextTrimConfig {
            max_tokens: effective_max_tokens(token_limit_override, settings),
            trim_to_percent: clamp_trim_percent(s.trim_to_percent),
            preserve_recent_turns: if s.preserve_recent_turns < MIN_PRESERVE_RECENT_TURNS {
                MIN_PRESERVE_RECENT_TURNS
            } else {
                s.preserve_recent_turns
            },
            semantic_compression: s.semantic_compression,
            tool_aware_retention: s.tool_aware_retention,
            max_structural_depth: s.max_structural_depth,
            preserve_recent_tools: s.preserve_recent_tools,
        },
        None => ContextTrimConfig {
            max_tokens: effective_max_tokens(token_limit_override, settings),
            trim_to_percent: DEFAULT_TRIM_TO_PERCENT,
            preserve_recent_turns: DEFAULT_PRESERVE_RECENT_TURNS,
            semantic_compression: DEFAULT_SEMANTIC_COMPRESSION_ENABLED,
            tool_aware_retention: DEFAULT_TOOL_AWARE_RETENTION_ENABLED,
            max_structural_depth: DEFAULT_MAX_STRUCTURAL_DEPTH,
            preserve_recent_tools: DEFAULT_PRESERVE_RECENT_TOOLS,
        },
    }
}

/// Builds the trimmer's configuration from the optional settings of the
/// configuration file and the optional token limit taken from the
/// environment. The percentage is clamped to the accepted ratios and the
/// number of preserved turns is raised to the minimum.
pub fn load_context_trim_config(
    settings: Option<&ContextSettings>,
    token_limit_override: Option<usize>,
) -> (r: ContextTrimConfig)
    ensures
        r == resolved_config(
            token_limit_override,
            match settings {
                Some(s) => Some(*s),
                None => None,
            },
        ),
{
    let configured: Option<usize> = match settings {
        Some(s) => if s.max_context_tokens > 0 {
            Some(s.max_context_tokens)
        } else {
            None
        },
        None => None,
    };
    let max_tokens: usize = match token_limit_override {
        Some(limit) => if limit > 0 {
            limit
        } else {
            match configured {
                Some(value) => value,
                None => DEFAULT_MAX_TOKENS,
            }
        },
        None => match configured {
            Some(value) => value,
            None => DEFAULT_MAX_TOKENS,
        },
    };
    match settings {
        Some(s) => {
            let percent: u8 = if s.trim_to_percent < MIN_TRIM_RATIO_PERCENT {
                MIN_TRIM_RATIO_PERCENT
            } else if s.trim_to_percent > MAX_TRIM_RATIO_PERCENT {
                MAX_TRIM_RATIO_PERCENT
            } else {
                s.trim_to_percent
            };
            ContextTrimConfig {
                max_tokens,
                trim_to_percent: percent,
                preserve_recent_turns: if s.preserve_recent_turns < MIN_PRESERVE_RECENT_TURNS {
                    MIN_PRESERVE_RECENT_TURNS
                } else {
                    s.preserve_recent_turns
                },
                semantic_compression: s.semantic_compression,
                tool_aware_retention: s.tool_aware_retention,
                max_structural_depth: s.max_structural_depth,
                preserve_recent_tools: s.preserve_recent_tools,
            }
        },
        None => ContextTrimConfig {
            max_tokens,
            trim_to_percent: DEFAULT_TRIM_TO_PERCENT,
            preserve_recent_turns: DEFAULT_PRESERVE_RECENT_TURNS,
            semantic_compression: DEFAULT_SEMANTIC_COMPRESSION_ENABLED,
            tool_aware_retention: DEFAULT_TOOL_AWARE_RETENTION_ENABLED,
            max_structural_depth: DEFAULT_MAX_STRUCTURAL_DEPTH,
            preserve_recent_tools: DEFAULT_PRESERVE_RECENT_TOOLS,
        },
    }
}

} // verus!
