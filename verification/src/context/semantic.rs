//! The semantic score of a message: how much code structure it carries.

use crate::context::blocks::{
    block_views, code_blocks, extract_code_blocks, language_hint_to_support, language_named,
    normalized_hint, CodeBlock, CodeBlockView, LanguageSupport,
};
use crate::context::config::ContextTrimConfig;
use crate::llm::types::Message;
use crate::text::{from_chars_range, to_chars, trim, trim_bounds};
use vstd::prelude::*;

verus! {

/// The kind of a symbol found in source code.
#[derive(Debug, Clone, Copy, PartialEq, Eq, Structural)]
pub enum SymbolKind {
    Function,
    Method,
    Class,
    Struct,
    Interface,
    Trait,
    Module,
    Type,
    Variable,
    Constant,
    Import,
}

/// A symbol found in source code, with the scope that encloses it.
#[derive(Debug, Clone)]
pub struct SymbolInfo {
    pub name: String,
    pub kind: SymbolKind,
    pub scope: Option<String>,
}

/// The code analyzer that the trimmer consults. Its answers are taken as
/// they come: the trimmer assumes nothing about them.
pub trait CodeAnalyzer {
    /// A parsed snippet.
    type Tree;

    /// The language that `content` looks like, if any.
    fn detect_language_from_content(&mut self, content: &str) -> Option<LanguageSupport>;

    /// Parses `source` as `language`; `None` when it cannot be parsed.
    fn parse(&mut self, source: &str, language: LanguageSupport) -> Option<Self::Tree>;

    /// The symbols of a parsed snippet; `None` when they cannot be extracted.
    fn extract_symbols(
        &mut self,
        tree: &Self::Tree,
        source: &str,
        language: LanguageSupport,
    ) -> Option<Vec<SymbolInfo>>;
}

/// An analyzer that recognizes no language, for callers that have none.
pub struct NoAnalyzer;

impl CodeAnalyzer for NoAnalyzer {
    type Tree = ();

    fn detect_language_from_content(&mut self, _content: &str) -> (r: Option<LanguageSupport>)
        ensures
            r is None,
    {
        None
    }

    fn parse(&mut self, _source: &str, _language: LanguageSupport) -> (r: Option<()>)
        ensures
            r is None,
    {
        None
    }

    fn extract_symbols(
        &mut self,
        _tree: &(),
        _source: &str,
        _language: LanguageSupport,
    ) -> (r: Option<Vec<SymbolInfo>>)
        ensures
            r is None,
    {
        None
    }
}

/// Characters that separate the segments of a scope.
pub open spec fn is_scope_separator(c: char) -> bool {
    c == ':' || c == '.' || c == '#'
}

/// Segments of a scope that begin among its first `upto` characters. A
/// segment is a maximal run of characters that are not separators.
pub open spec fn scope_segments(scope: Seq<char>, upto: int) -> nat
    decreases upto,
{
    if upto <= 0 {
        0
    } else {
        let at = upto - 1;
        let begins = !is_scope_separator(scope[at]) && (at == 0 || is_scope_separator(
            scope[at - 1],
        ));
        scope_segments(scope, at) + if begins {
            1nat
        } else {
            0nat
        }
    }
}

/// How deeply a symbol is nested: the number of non-empty segments of its
/// scope, and zero without a scope.
pub open spec fn scope_depth(scope: Option<Seq<char>>) -> nat {
    match scope {
        Some(raw) => scope_segments(raw, raw.len() as int),
        None => 0,
    }
}

proof fn lemma_scope_segments_bounded(scope: Seq<char>, upto: int)
    requires
        0 <= upto,
    ensures
        scope_segments(scope, upto) <= upto,
    decreases upto,
{
    if upto > 0 {
        lemma_scope_segments_bounded(scope, upto - 1);
    }
}

/// The nesting depth that a scope string such as `outer::inner.item`
/// stands for.
pub fn estimate_scope_depth(scope: Option<&str>) -> (r: usize)
    ensures
        r == scope_depth(
            match scope {
                Some(raw) => Some(raw@),
                None => None,
            },
        ),
{
    match scope {
        Some(raw) => {
            let chars = to_chars(raw);
            let mut count: usize = 0;
            let mut after_separator = true;
            let mut i: usize = 0;
            while i < chars.len()
                invariant
                    i <= chars.len(),
                    count == scope_segments(chars@, i as int),
                    after_separator == (i == 0 || is_scope_separator(chars@[i - 1])),
                decreases chars.len() - i,
            {
                let c = chars[i];
                let separator = c == ':' || c == '.' || c == '#';
                proof {
                    lemma_scope_segments_bounded(chars@, i as int);
                }
                if !separator && after_separator {
                    count += 1;
                }
                after_separator = separator;
                i += 1;
            }
            count
        },
        None => 0,
    }
}

/// What one symbol of the given kind adds to a score.
pub open spec fn kind_weight(kind: SymbolKind) -> nat {
    match kind {
        SymbolKind::Function | SymbolKind::Method => 6,
        SymbolKind::Class | SymbolKind::Struct | SymbolKind::Interface | SymbolKind::Trait => 8,
        SymbolKind::Module | SymbolKind::Type => 4,
        SymbolKind::Variable | SymbolKind::Constant => 2,
        SymbolKind::Import => 1,
    }
}

/// The scope of a symbol as text.
pub open spec fn scope_of(symbol: SymbolInfo) -> Option<Seq<char>> {
    match symbol.scope {
        Some(raw) => Some(raw@),
        None => None,
    }
}

/// What a symbol adds to a score: the weight of its kind, or nothing if it
/// is nested deeper than `depth_limit`.
pub open spec fn symbol_weight(symbol: SymbolInfo, depth_limit: nat) -> nat {
    if scope_depth(scope_of(symbol)) > depth_limit {
        0
    } else {
        kind_weight(symbol.kind)
    }
}

/// The summed weight of the first `upto` symbols.
pub open spec fn symbols_weight(symbols: Seq<SymbolInfo>, depth_limit: nat, upto: int) -> nat
    decreases upto,
{
    if upto <= 0 {
        0
    } else {
        symbols_weight(symbols, depth_limit, upto - 1) + symbol_weight(
            symbols[upto - 1],
            depth_limit,
        )
    }
}

/// `n`, or the largest `u32` if `n` is beyond it.
pub open spec fn capped_u32(n: nat) -> nat {
    if n > u32::MAX {
        u32::MAX as nat
    } else {
        n
    }
}

fn saturating_u32(a: u32, b: u32) -> (r: u32)
    ensures
        r == capped_u32((a + b) as nat),
{
    if a > u32::MAX - b {
        u32::MAX
    } else {
        a + b
    }
}

/// The structural weight of a list of symbols, saturating at `u32::MAX`.
pub fn score_symbols(symbols: &Vec<SymbolInfo>, config: &ContextTrimConfig) -> (r: u32)
    ensures
        r == capped_u32(
            symbols_weight(symbols@, config.max_structural_depth as nat, symbols@.len() as int),
        ),
{
    let mut total: u32 = 0;
    let mut i: usize = 0;
    while i < symbols.len()
        invariant
            i <= symbols.len(),
            total == capped_u32(
                symbols_weight(symbols@, config.max_structural_depth as nat, i as int),
            ),
        decreases symbols.len() - i,
    {
        let symbol = &symbols[i];
        let depth = match &symbol.scope {
            Some(raw) => estimate_scope_depth(Some(raw.as_str())),
            None => estimate_scope_depth(None),
        };
        if depth <= config.max_structural_depth {
            let weight: u32 = match symbol.kind {
                SymbolKind::Function | SymbolKind::Method => 6,
                SymbolKind::Class
                | SymbolKind::Struct
                | SymbolKind::Interface
                | SymbolKind::Trait => 8,
                SymbolKind::Module | SymbolKind::Type => 4,
                SymbolKind::Variable | SymbolKind::Constant => 2,
                SymbolKind::Import => 1,
            };
            total = saturating_u32(total, weight);
        }
        i += 1;
    }
    total
}

/// What the analysis of one code block contributes: nothing if the block
/// was skipped (`None`), else the weight of its symbols, and one point where
/// that weight is zero.
pub open spec fn block_points(outcome: Option<Seq<SymbolInfo>>, depth_limit: nat) -> nat {
    match outcome {
        None => 0,
        Some(symbols) => {
            let weight = capped_u32(symbols_weight(symbols, depth_limit, symbols.len() as int));
            if weight > 0 {
                weight
            } else {
                1
            }
        },
    }
}

/// The symbols of each analyzed block, as plain sequences.
pub open spec fn outcome_views(outcomes: Seq<Option<Vec<SymbolInfo>>>) -> Seq<
    Option<Seq<SymbolInfo>>,
> {
    Seq::new(
        outcomes.len(),
        |i: int|
            match outcomes[i] {
                Some(symbols) => Some(symbols@),
                None => None,
            },
    )
}

/// The points of the first `upto` blocks, saturating at `u32::MAX`.
pub open spec fn blocks_points(
    outcomes: Seq<Option<Seq<SymbolInfo>>>,
    depth_limit: nat,
    upto: int,
) -> nat
    decreases upto,
{
    if upto <= 0 {
        0
    } else {
        capped_u32(
            blocks_points(outcomes, depth_limit, upto - 1) + block_points(
                outcomes[upto - 1],
                depth_limit,
            ),
        )
    }
}

/// The bonus of a message that scored: two points for a tool payload, one
/// more for a known origin tool when tool-aware retention is on.
pub open spec fn tool_bonus(message: Message, config: ContextTrimConfig) -> nat {
    (if message.spec_is_tool_response() || message.spec_has_tool_calls() {
        2nat
    } else {
        0nat
    }) + (if message.origin_tool is Some && config.tool_aware_retention {
        1nat
    } else {
        0nat
    })
}

/// The semantic score of a message whose code blocks were analyzed with
/// the given outcomes: zero if the blocks gave no points, else the points
/// plus the tool bonus, at most 255.
pub open spec fn semantic_score(
    outcomes: Seq<Option<Seq<SymbolInfo>>>,
    message: Message,
    config: ContextTrimConfig,
) -> nat {
    let points = blocks_points(outcomes, config.max_structural_depth as nat, outcomes.len() as int);
    if points == 0 {
        0
    } else if points + tool_bonus(message, config) > 255 {
        255
    } else {
        points + tool_bonus(message, config)
    }
}

/// Scores a message from the analysis of its code blocks: `outcomes` holds,
/// for each block, the symbols found, or `None` where the block was blank
/// or its language unknown.
pub fn score_analyzed_blocks(
    outcomes: &Vec<Option<Vec<SymbolInfo>>>,
    message: &Message,
    config: &ContextTrimConfig,
) -> (r: u8)
    ensures
        r == semantic_score(outcome_views(outcomes@), *message, *config),
{
    let ghost views = outcome_views(outcomes@);
    let mut total: u32 = 0;
    let mut i: usize = 0;
    while i < outcomes.len()
        invariant
            i <= outcomes.len(),
            views == outcome_views(outcomes@),
            total == blocks_points(views, config.max_structural_depth as nat, i as int),
        decreases outcomes.len() - i,
    {
        match &outcomes[i] {
            Some(symbols) => {
                let block_score = score_symbols(symbols, config);
                if block_score > 0 {
                    total = saturating_u32(total, block_score);
                } else {
                    total = saturating_u32(total, 1);
                }
            },
            None => {},
        }
        i += 1;
    }
    if total == 0 {
        0
    } else {
        let mut bonus: u32 = if message.is_tool_response() || message.has_tool_calls() {
            2
        } else {
            0
        };
        if message.origin_tool.is_some() && config.tool_aware_retention {
            bonus = bonus + 1;
        }
        let score = saturating_u32(total, bonus);
        if score > 255 {
            255
        } else {
            score as u8
        }
    }
}

/// The code blocks of a message text that are analyzed: its fenced
/// blocks, or the whole text as one block where it has none.
pub open spec fn analyzed_blocks(text: Seq<char>) -> Seq<CodeBlockView> {
    let fenced = code_blocks(text);
    if fenced.len() > 0 {
        fenced
    } else {
        seq![CodeBlockView { language_hint: None, content: text }]
    }
}

/// `outcomes` may be what analyzing `blocks` gave: one outcome for each
/// block, none for a blank block, and one that is not `None` for a block
/// that is not blank and whose fence names a known language.
pub open spec fn outcomes_fit(
    blocks: Seq<CodeBlockView>,
    outcomes: Seq<Option<Seq<SymbolInfo>>>,
) -> bool {
    &&& outcomes.len() == blocks.len()
    &&& forall|i: int| 0 <= i < blocks.len() ==> outcome_fits(blocks[i], #[trigger] outcomes[i])
}

/// Analyzes one code block: `None` if its text is blank or its language is
/// neither named by the fence nor detected; else the symbols found, none
/// where the text cannot be parsed or the symbols cannot be extracted, so
/// that a block that is recognized always has an outcome.
fn analyze_block<A: CodeAnalyzer>(block: &CodeBlock, analyzer: &mut A) -> (r: Option<Vec<SymbolInfo>>)
    ensures
        outcome_fits(
            block@,
            match r {
                Some(symbols) => Some(symbols@),
                None => None,
            },
        ),
{
    let chars = to_chars(block.content.as_str());
    let (a, b) = trim_bounds(&chars, 0, chars.len());
    proof {
        assert(chars@.subrange(0, chars.len() as int) =~= chars@);
    }
    if a == b {
        return None;
    }
    let snippet = from_chars_range(&chars, a, b);
    let named: Option<LanguageSupport> = match &block.language_hint {
        Some(hint) => language_hint_to_support(hint.as_str()),
        None => None,
    };
    let language: Option<LanguageSupport> = match named {
        Some(found) => Some(found),
        None => analyzer.detect_language_from_content(snippet.as_str()),
    };
    match language {
        None => None,
        Some(language) => match analyzer.parse(snippet.as_str(), language) {
            None => Some(Vec::new()),
            Some(tree) => match analyzer.extract_symbols(&tree, snippet.as_str(), language) {
                Some(symbols) => Some(symbols),
                None => Some(Vec::new()),
            },
        },
    }
}

/// The fence of a block names a language that is known.
pub open spec fn names_language(language_hint: Option<Seq<char>>) -> bool {
    match language_hint {
        Some(hint) => language_named(normalized_hint(hint)) is Some,
        None => false,
    }
}

/// `outcome` may be what analyzing a block gave. A blank block is passed
/// over and has no outcome. A block that is not blank and whose fence
/// names a known language is recognized, whatever the analyzer makes of
/// its text: it has an outcome, and so counts at least one point.
pub open spec fn outcome_fits(block: CodeBlockView, outcome: Option<Seq<SymbolInfo>>) -> bool {
    &&& trim(block.content).len() == 0 ==> outcome is None
    &&& trim(block.content).len() > 0 && names_language(block.language_hint) ==> outcome is Some
}

/// `score` may be the semantic score of `message`: zero for a text without
/// a fenced block, or else the score of an analysis that has one outcome
/// for each analyzed block: none for a blank block, and one that counts for
/// a block that is not blank and names a known language.
pub open spec fn score_fits(message: Message, config: ContextTrimConfig, score: u8) -> bool {
    let text = message.content.plain_text();
    score == 0 && code_blocks(text).len() == 0 || exists|outcomes: Seq<Option<Seq<SymbolInfo>>>|
        outcomes_fit(analyzed_blocks(text), outcomes) && score == #[trigger] semantic_score(
            outcomes,
            message,
            config,
        )
}

/// The semantic score of a message. Its fenced code blocks are analyzed;
/// without any, the whole text counts as one block if the analyzer
/// detects a language in it, and the score is zero if it does not.
/// Whatever the analyzer answers, the result is a score that fits the
/// message.
pub fn compute_semantic_score<A: CodeAnalyzer>(
    message: &Message,
    analyzer: &mut A,
    config: &ContextTrimConfig,
) -> (r: u8)
    ensures
        score_fits(*message, *config, r),
{
    let text = message.content.to_plain_text();
    let mut blocks = extract_code_blocks(text.as_str());
    if blocks.len() == 0 {
        if analyzer.detect_language_from_content(text.as_str()).is_some() {
            let whole = CodeBlock { language_hint: None, content: text };
            blocks.push(whole);
            proof {
                assert(block_views(blocks@) =~= analyzed_blocks(message.content.plain_text()));
            }
        } else {
            return 0;
        }
    }
    let ghost analyzed = block_views(blocks@);
    let mut outcomes: Vec<Option<Vec<SymbolInfo>>> = Vec::new();
    let mut i: usize = 0;
    while i < blocks.len()
        invariant
            i <= blocks.len(),
            analyzed == block_views(blocks@),
            outcomes@.len() == i,
            forall|k: int|
                0 <= k < i ==> outcome_fits(analyzed[k], #[trigger] outcome_views(outcomes@)[k]),
        decreases blocks.len() - i,
    {
        proof {
            assert(analyzed[i as int] == blocks@[i as int]@);
        }
        let ghost before = outcome_views(outcomes@);
        let outcome = analyze_block(&blocks[i], analyzer);
        outcomes.push(outcome);
        proof {
            assert forall|k: int| 0 <= k < i implies #[trigger] outcome_views(outcomes@)[k]
                == before[k] by {}
        }
        i += 1;
    }
    proof {
        assert(outcomes_fit(analyzed, outcome_views(outcomes@)));
    }
    score_analyzed_blocks(&outcomes, message, config)
}

/// The message holds a recognized code block: a fenced block that is not
/// blank and names a known language.
pub open spec fn has_recognized_block(message: Message) -> bool {
    let blocks = code_blocks(message.content.plain_text());
    exists|k: int|
        0 <= k < blocks.len() && trim((#[trigger] blocks[k]).content).len() > 0 && names_language(
            blocks[k].language_hint,
        )
}

proof fn lemma_outcome_counts(
    outcomes: Seq<Option<Seq<SymbolInfo>>>,
    depth_limit: nat,
    at: int,
    upto: int,
)
    requires
        0 <= at < upto <= outcomes.len(),
        outcomes[at] is Some,
    ensures
        blocks_points(outcomes, depth_limit, upto) >= 1,
    decreases upto,
{
    if at < upto - 1 {
        lemma_outcome_counts(outcomes, depth_limit, at, upto - 1);
    }
}

/// The floor. A message with a recognized code block scores at least one
/// point, whatever the analyzer makes of the block.
pub proof fn law_recognized_block_scores(message: Message, config: ContextTrimConfig, score: u8)
    requires
        score_fits(message, config, score),
        has_recognized_block(message),
    ensures
        score >= 1,
{
    let blocks = code_blocks(message.content.plain_text());
    let k = choose|k: int|
        0 <= k < blocks.len() && trim((#[trigger] blocks[k]).content).len() > 0 && names_language(
            blocks[k].language_hint,
        );
    let outcomes = choose|outcomes: Seq<Option<Seq<SymbolInfo>>>|
        outcomes_fit(analyzed_blocks(message.content.plain_text()), outcomes) && score
            == #[trigger] semantic_score(outcomes, message, config);
    assert(outcome_fits(blocks[k], outcomes[k]));
    lemma_outcome_counts(outcomes, config.max_structural_depth as nat, k, outcomes.len() as int);
}

} // verus!
