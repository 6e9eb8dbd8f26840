//! Fenced code blocks inside a message, and the language a fence names.

use crate::text::{
    ascii_lowercase, from_chars, from_chars_range, lines_of, matches_at, occurs_at, push_range,
    split_lines, str_is, to_ascii_lower, to_chars, trim, trim_bounds, trim_end, trim_end_index,
    trim_start, trim_start_index, views,
};
use vstd::prelude::*;

verus! {

/// Languages the symbol analyzer understands.
#[derive(Debug, Clone, Copy, PartialEq, Eq, Structural)]
pub enum LanguageSupport {
    Rust,
    Python,
    JavaScript,
    TypeScript,
    Go,
    Java,
    Bash,
    Swift,
}

/// A fenced code block: the language named after the opening fence, if
/// any, and the lines between the fences.
#[derive(Debug, Clone)]
pub struct CodeBlock {
    pub language_hint: Option<String>,
    pub content: String,
}

/// What a code block holds.
pub struct CodeBlockView {
    pub language_hint: Option<Seq<char>>,
    pub content: Seq<char>,
}

impl View for CodeBlock {
    type V = CodeBlockView;

    open spec fn view(&self) -> CodeBlockView {
        CodeBlockView {
            language_hint: match self.language_hint {
                Some(hint) => Some(hint@),
                None => None,
            },
            content: self.content@,
        }
    }
}

/// The views of a list of code blocks.
pub open spec fn block_views(blocks: Seq<CodeBlock>) -> Seq<CodeBlockView> {
    Seq::new(blocks.len(), |i: int| blocks[i]@)
}

/// The marker that opens and closes a code block.
pub open spec fn fence() -> Seq<char> {
    seq!['`', '`', '`']
}

/// `s` without any leading repetitions of `pattern`.
pub open spec fn strip_leading(s: Seq<char>, pattern: Seq<char>) -> Seq<char>
    decreases s.len(),
{
    if pattern.len() > 0 && occurs_at(s, 0, pattern) {
        strip_leading(s.skip(pattern.len() as int), pattern)
    } else {
        s
    }
}

/// The line, after leading white space, begins with a fence.
pub open spec fn is_fence_line(line: Seq<char>) -> bool {
    occurs_at(trim_start(line), 0, fence())
}

/// Where a scan over the lines of a message stands.
pub struct FenceScan {
    /// A fence was opened and not closed yet.
    pub in_block: bool,
    /// The language named after the opening fence.
    pub language: Option<Seq<char>>,
    /// The lines of the open block so far, each followed by a line feed.
    pub content: Seq<char>,
    /// The blocks closed so far.
    pub blocks: Seq<CodeBlockView>,
}

/// The blocks of `scan` with its open block added, unless that is empty.
pub open spec fn with_open_block(scan: FenceScan) -> Seq<CodeBlockView> {
    if scan.content.len() > 0 {
        scan.blocks.push(
            CodeBlockView { language_hint: scan.language, content: trim_end(scan.content) },
        )
    } else {
        scan.blocks
    }
}

/// The scan after one more line. A fence line closes the open block or
/// opens a new one, whose language is what follows the fence markers, with
/// white space trimmed; any other line is added to the open block.
pub open spec fn fence_step(scan: FenceScan, line: Seq<char>) -> FenceScan {
    if is_fence_line(line) {
        if scan.in_block {
            FenceScan {
                in_block: false,
                language: None,
                content: Seq::empty(),
                blocks: with_open_block(scan),
            }
        } else {
            let hint = trim(strip_leading(trim_start(line), fence()));
            FenceScan {
                in_block: true,
                language: if hint.len() == 0 {
                    None
                } else {
                    Some(hint)
                },
                content: Seq::empty(),
                blocks: scan.blocks,
            }
        }
    } else if scan.in_block {
        FenceScan { content: scan.content + line + seq!['\n'], ..scan }
    } else {
        scan
    }
}

/// The scan after the first `upto` lines.
pub open spec fn fence_scan(lines: Seq<Seq<char>>, upto: int) -> FenceScan
    decreases upto,
{
    if upto <= 0 {
        FenceScan { in_block: false, language: None, content: Seq::empty(), blocks: Seq::empty() }
    } else {
        fence_step(fence_scan(lines, upto - 1), lines[upto - 1])
    }
}

/// The fenced code blocks of `source`, in order. A block that is still open
/// at the end of the text counts; a block without content does not.
pub open spec fn code_blocks(source: Seq<char>) -> Seq<CodeBlockView> {
    let lines = lines_of(source);
    let scan = fence_scan(lines, lines.len() as int);
    if scan.in_block {
        with_open_block(scan)
    } else {
        scan.blocks
    }
}

fn fence_chars() -> (r: Vec<char>)
    ensures
        r@ == fence(),
{
    let mut r: Vec<char> = Vec::new();
    r.push('`');
    r.push('`');
    r.push('`');
    proof {
        assert(r@ =~= fence());
    }
    r
}

/// The start of `v[from..to]` once leading repetitions of the fence are
/// skipped.
fn skip_fences(v: &Vec<char>, from: usize, to: usize) -> (r: usize)
    requires
        from <= to <= v.len(),
    ensures
        from <= r <= to,
        v@.subrange(r as int, to as int) == strip_leading(
            v@.subrange(from as int, to as int),
            fence(),
        ),
{
    let mut i: usize = from;
    while to - i >= 3 && v[i] == '`' && v[i + 1] == '`' && v[i + 2] == '`'
        invariant
            from <= i <= to <= v.len(),
            strip_leading(v@.subrange(i as int, to as int), fence()) == strip_leading(
                v@.subrange(from as int, to as int),
                fence(),
            ),
        decreases to - i,
    {
        proof {
            let s = v@.subrange(i as int, to as int);
            assert(s.subrange(0, 3) =~= fence());
            assert(s.skip(3) =~= v@.subrange(i + 3, to as int));
        }
        i += 3;
    }
    proof {
        let s = v@.subrange(i as int, to as int);
        if occurs_at(s, 0, fence()) {
            assert(s.subrange(0, 3)[0] == '`');
            assert(s.subrange(0, 3)[1] == '`');
            assert(s.subrange(0, 3)[2] == '`');
        }
    }
    i
}

fn close_block(
    blocks: &mut Vec<CodeBlock>,
    language: Option<Vec<char>>,
    content: &Vec<char>,
    Ghost(scan): Ghost<FenceScan>,
)
    requires
        scan.blocks == block_views(old(blocks)@),
        scan.content == content@,
        scan.language == match language {
            Some(hint) => Some(hint@),
            None => None,
        },
    ensures
        block_views(final(blocks)@) == with_open_block(scan),
{
    if content.len() > 0 {
        let end = trim_end_index(content, 0, content.len());
        let text = from_chars_range(content, 0, end);
        let language_hint = match language {
            Some(hint) => Some(from_chars(&hint)),
            None => None,
        };
        let block = CodeBlock { language_hint, content: text };
        proof {
            assert(content@.subrange(0, content.len() as int) =~= content@);
        }
        let ghost before = block_views(blocks@);
        blocks.push(block);
        proof {
            assert(block_views(blocks@) =~= before.push(block@));
        }
    }
}

/// Extracts the fenced code blocks of `source`.
pub fn extract_code_blocks(source: &str) -> (blocks: Vec<CodeBlock>)
    ensures
        block_views(blocks@) == code_blocks(source@),
{
    let chars = to_chars(source);
    let lines = split_lines(&chars);
    let marker = fence_chars();
    let mut blocks: Vec<CodeBlock> = Vec::new();
    let mut in_block = false;
    let mut language: Option<Vec<char>> = None;
    let mut content: Vec<char> = Vec::new();
    let mut i: usize = 0;
    proof {
        assert(block_views(blocks@) =~= Seq::<CodeBlockView>::empty());
    }
    while i < lines.len()
        invariant
            i <= lines.len(),
            marker@ == fence(),
            views(lines@) == lines_of(source@),
            in_block == fence_scan(views(lines@), i as int).in_block,
            fence_scan(views(lines@), i as int).language == match language {
                Some(hint) => Some(hint@),
                None => None,
            },
            content@ == fence_scan(views(lines@), i as int).content,
            block_views(blocks@) == fence_scan(views(lines@), i as int).blocks,
        decreases lines.len() - i,
    {
        let ghost scan = fence_scan(views(lines@), i as int);
        let line = &lines[i];
        proof {
            assert(views(lines@)[i as int] == line@);
            assert(line@.subrange(0, line.len() as int) =~= line@);
        }
        let begin = trim_start_index(line, 0, line.len());
        let fenced = matches_at(line, begin, &marker);
        proof {
            let rest = line@.subrange(begin as int, line.len() as int);
            if begin + 3 <= line.len() {
                assert(rest.subrange(0, 3) =~= line@.subrange(begin as int, begin + 3));
            }
            assert(fenced == is_fence_line(line@));
        }
        if fenced {
            if in_block {
                let open = language;
                language = None;
                close_block(&mut blocks, open, &content, Ghost(scan));
                content = Vec::new();
                in_block = false;
            } else {
                in_block = true;
                let after = skip_fences(line, begin, line.len());
                let (a, b) = trim_bounds(line, after, line.len());
                if a == b {
                    language = None;
                } else {
                    let mut hint: Vec<char> = Vec::new();
                    push_range(&mut hint, line, a, b);
                    proof {
                        assert(hint@ =~= line@.subrange(a as int, b as int));
                    }
                    language = Some(hint);
                }
                content = Vec::new();
            }
        } else if in_block {
            push_range(&mut content, line, 0, line.len());
            content.push('\n');
            proof {
                assert(content@ =~= scan.content + line@ + seq!['\n']);
            }
        }
        i += 1;
    }
    if in_block {
        close_block(
            &mut blocks,
            language,
            &content,
            Ghost(fence_scan(views(lines@), lines.len() as int)),
        );
    }
    blocks
}

/// The language names a fence may carry, written in lower case.
pub open spec fn language_named(name: Seq<char>) -> Option<LanguageSupport> {
    if name == "rust"@ || name == "rs"@ {
        Some(LanguageSupport::Rust)
    } else if name == "python"@ || name == "py"@ {
        Some(LanguageSupport::Python)
    } else if name == "javascript"@ || name == "js"@ {
        Some(LanguageSupport::JavaScript)
    } else if name == "typescript"@ || name == "ts"@ || name == "tsx"@ {
        Some(LanguageSupport::TypeScript)
    } else if name == "go"@ || name == "golang"@ {
        Some(LanguageSupport::Go)
    } else if name == "java"@ {
        Some(LanguageSupport::Java)
    } else if name == "bash"@ || name == "sh"@ || name == "shell"@ {
        Some(LanguageSupport::Bash)
    } else if name == "swift"@ {
        Some(LanguageSupport::Swift)
    } else {
        None
    }
}

/// `s` without its leading full stops.
pub open spec fn strip_dots(s: Seq<char>) -> Seq<char>
    decreases s.len(),
{
    if s.len() > 0 && s[0] == '.' {
        strip_dots(s.drop_first())
    } else {
        s
    }
}

/// A language hint in the form it is looked up in: trimmed, without
/// leading full stops, in lower case.
pub open spec fn normalized_hint(hint: Seq<char>) -> Seq<char> {
    ascii_lowercase(strip_dots(trim(hint)))
}

/// The language that a hint such as `rs`, `.py` or `TypeScript` names.
pub fn language_hint_to_support(hint: &str) -> (r: Option<LanguageSupport>)
    ensures
        r == language_named(normalized_hint(hint@)),
{
    let chars = to_chars(hint);
    proof {
        assert(chars@.subrange(0, chars.len() as int) =~= chars@);
    }
    let (a, b) = trim_bounds(&chars, 0, chars.len());
    let mut start: usize = a;
    while start < b && chars[start] == '.'
        invariant
            a <= start <= b <= chars.len(),
            strip_dots(chars@.subrange(start as int, b as int)) == strip_dots(
                chars@.subrange(a as int, b as int),
            ),
        decreases b - start,
    {
        proof {
            assert(chars@.subrange(start as int, b as int).drop_first() =~= chars@.subrange(
                start + 1,
                b as int,
            ));
        }
        start += 1;
    }
    let mut name: Vec<char> = Vec::new();
    let mut i: usize = start;
    while i < b
        invariant
            start <= i <= b <= chars.len(),
            name@ == ascii_lowercase(chars@.subrange(start as int, i as int)),
        decreases b - i,
    {
        name.push(to_ascii_lower(chars[i]));
        proof {
            assert(name@ =~= ascii_lowercase(chars@.subrange(start as int, i + 1)));
        }
        i += 1;
    }
    if str_is(&name, "rust") || str_is(&name, "rs") {
        Some(LanguageSupport::Rust)
    } else if str_is(&name, "python") || str_is(&name, "py") {
        Some(LanguageSupport::Python)
    } else if str_is(&name, "javascript") || str_is(&name, "js") {
        Some(LanguageSupport::JavaScript)
    } else if str_is(&name, "typescript") || str_is(&name, "ts") || str_is(&name, "tsx") {
        Some(LanguageSupport::TypeScript)
    } else if str_is(&name, "go") || str_is(&name, "golang") {
        Some(LanguageSupport::Go)
    } else if str_is(&name, "java") {
        Some(LanguageSupport::Java)
    } else if str_is(&name, "bash") || str_is(&name, "sh") || str_is(&name, "shell") {
        Some(LanguageSupport::Bash)
    } else if str_is(&name, "swift") {
        Some(LanguageSupport::Swift)
    } else {
        None
    }
}

} // verus!
