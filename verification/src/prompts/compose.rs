//! Putting the system instruction together: the base prompt, what the
//! configuration allows, and the instruction files in force.

use crate::paths::{
    display_text, file_name_text, path_file_name, path_relative, path_text, relative_to,
};
use crate::text::{
    decimal_digits, decimal_string, find_first, find_from, from_chars_range, lemma_find_in_suffix,
    to_chars, trim, trim_bounds,
};
use std::path::PathBuf;
use vstd::prelude::*;
use vstd::string::StringExecFns;

verus! {

pub open spec fn core_heading() -> Seq<char> {
    "## Core System Prompt"@
}

pub open spec fn specialized_heading() -> Seq<char> {
    "## Specialized System Prompts"@
}

pub open spec fn block_opening() -> Seq<char> {
    "```rust\nr#\""@
}

pub open spec fn block_closing() -> Seq<char> {
    "\"#\n```"@
}

/// Characters of the block opening that are skipped when the prompt is cut
/// out of its code block.
pub const BLOCK_OPENING_SKIP: usize = 9;

/// The prompt inside its section: what stands between the opening and the
/// closing of the code block, or the whole section where it has no such
/// block.
pub open spec fn prompt_in_section(section: Seq<char>) -> Seq<char> {
    match find_first(section, 0, block_opening()) {
        Some(open) => match find_first(section.skip(open), 0, block_closing()) {
            Some(close) => if BLOCK_OPENING_SKIP <= close && open + close <= section.len() {
                section.subrange(open + BLOCK_OPENING_SKIP, open + close)
            } else {
                section
            },
            None => section,
        },
        None => section,
    }
}

/// The system prompt held by a prompt document: the text between the core
/// heading and the specialized heading, trimmed and freed of its code
/// block; or the whole document where the headings are missing.
pub open spec fn extracted_prompt(content: Seq<char>) -> Seq<char> {
    match find_first(content, 0, core_heading()) {
        Some(start) => match find_first(content.skip(start), 0, specialized_heading()) {
            Some(end) => if 0 <= start && 0 <= end && start + end <= content.len() {
                prompt_in_section(trim(content.skip(start).take(end)))
            } else {
                content
            },
            None => content,
        },
        None => content,
    }
}

/// Extracts the system prompt from the text of a prompt document.
pub fn extract_system_prompt(content: &str) -> (r: String)
    ensures
        r@ == extracted_prompt(content@),
{
    let chars = to_chars(content);
    let whole = chars.len();
    let core = to_chars("## Core System Prompt");
    let specialized = to_chars("## Specialized System Prompts");
    let opening = to_chars("```rust\nr#\"");
    let closing = to_chars("\"#\n```");
    proof {
        assert(chars@.subrange(0, whole as int) =~= chars@);
    }
    let start = match find_from(&chars, 0, &core) {
        Some(start) => start,
        None => {
            return from_chars_range(&chars, 0, whole);
        },
    };
    proof {
        lemma_find_in_suffix(chars@, start as int, specialized@, start as int);
    }
    let stop = match find_from(&chars, start, &specialized) {
        Some(stop) => stop,
        None => {
            return from_chars_range(&chars, 0, whole);
        },
    };
    let (a, b) = trim_bounds(&chars, start, stop);
    let mut section: Vec<char> = Vec::new();
    crate::text::push_range(&mut section, &chars, a, b);
    proof {
        assert(chars@.skip(start as int).take(stop - start) =~= chars@.subrange(
            start as int,
            stop as int,
        ));
        assert(section@ =~= trim(chars@.skip(start as int).take(stop - start)));
        assert(section@.subrange(0, section@.len() as int) =~= section@);
    }
    let length = section.len();
    let open = match find_from(&section, 0, &opening) {
        Some(open) => open,
        None => {
            return from_chars_range(&section, 0, length);
        },
    };
    proof {
        lemma_find_in_suffix(section@, open as int, closing@, open as int);
    }
    match find_from(&section, open, &closing) {
        Some(close) => {
            if close - open >= BLOCK_OPENING_SKIP {
                from_chars_range(&section, open + BLOCK_OPENING_SKIP, close)
            } else {
                from_chars_range(&section, 0, length)
            }
        },
        None => from_chars_range(&section, 0, length),
    }
}

/// What the configuration allows, as far as the instruction mentions it.
#[derive(Debug, Clone, Copy)]
pub struct PolicySummary {
    pub human_in_the_loop: bool,
    /// Commands in the allow list.
    pub allowed_commands: usize,
    /// Commands in the deny list.
    pub denied_commands: usize,
    pub pty_enabled: bool,
    pub pty_rows: u16,
    pub pty_cols: u16,
    pub pty_timeout_seconds: u64,
}

/// Where an instruction file applies.
#[derive(Debug, Clone, Copy, PartialEq, Eq, Structural)]
pub enum InstructionScope {
    Global,
    Workspace,
    Custom,
}

impl InstructionScope {
    pub open spec fn spec_label(self) -> Seq<char> {
        match self {
            InstructionScope::Global => "global"@,
            InstructionScope::Workspace => "workspace"@,
            InstructionScope::Custom => "custom"@,
        }
    }

    pub fn label(&self) -> (r: &'static str)
        ensures
            r@ == self.spec_label(),
    {
        match self {
            InstructionScope::Global => "global",
            InstructionScope::Workspace => "workspace",
            InstructionScope::Custom => "custom",
        }
    }
}

/// The content of one instruction file.
#[derive(Debug, Clone)]
pub struct InstructionSegment {
    pub scope: InstructionScope,
    /// The path of the file as it is shown.
    pub display_path: String,
    pub contents: String,
}

/// The instruction files in force, lowest precedence first.
#[derive(Debug, Clone)]
pub struct InstructionBundle {
    pub segments: Vec<InstructionSegment>,
    /// Whether content was cut because of the size limit.
    pub truncated: bool,
}

/// The line about human confirmation, if it is required.
pub open spec fn confirmation_line(policy: PolicySummary) -> Seq<char> {
    if policy.human_in_the_loop {
        "- **Human-in-the-loop**: Required for critical actions\n"@
    } else {
        Seq::empty()
    }
}

/// The line about the allow list, if it holds commands.
pub open spec fn allowed_line(policy: PolicySummary) -> Seq<char> {
    if policy.allowed_commands > 0 {
        "- **Allowed commands**: "@ + decimal_digits(policy.allowed_commands as nat)
            + " commands in allow list\n"@
    } else {
        Seq::empty()
    }
}

/// The line about the deny list, if it holds commands.
pub open spec fn denied_line(policy: PolicySummary) -> Seq<char> {
    if policy.denied_commands > 0 {
        "- **Denied commands**: "@ + decimal_digits(policy.denied_commands as nat)
            + " commands in deny list\n"@
    } else {
        Seq::empty()
    }
}

/// The lines about pseudo-terminals.
pub open spec fn pty_lines(policy: PolicySummary) -> Seq<char> {
    if policy.pty_enabled {
        "- **PTY functionality**: Enabled\n"@ + ("- **Default terminal size**: "@ + decimal_digits(
            policy.pty_rows as nat,
        ) + " rows × "@) + (decimal_digits(policy.pty_cols as nat) + " columns\n"@) + (
        "- **PTY command timeout**: "@ + decimal_digits(policy.pty_timeout_seconds as nat)
            + " seconds\n"@)
    } else {
        "- **PTY functionality**: Disabled\n"@
    }
}

/// The section that tells the model what the configuration allows.
pub open spec fn policy_section(policy: PolicySummary) -> Seq<char> {
    "\n\n## CONFIGURATION AWARENESS\n"@
        + "The agent is configured with the following policies from vtcode.toml:\n\n"@
        + confirmation_line(policy) + allowed_line(policy) + denied_line(policy) + pty_lines(
        policy,
    )
        + "\n**IMPORTANT**: Respect these configuration policies. Commands not in the allow list will require user confirmation. Always inform users when actions require confirmation due to security policies.\n"@
}

/// The entry of the instruction file at `index`.
pub open spec fn segment_entry(segment: InstructionSegment, index: int) -> Seq<char> {
    "### "@ + decimal_digits((index + 1) as nat) + ". "@ + segment.display_path@ + " ("@
        + segment.scope.spec_label() + ")\n\n"@ + trim(segment.contents@) + "\n"@
}

/// The entries of the first `upto` instruction files.
pub open spec fn segment_entries(segments: Seq<InstructionSegment>, upto: int) -> Seq<char>
    decreases upto,
{
    if upto <= 0 {
        Seq::empty()
    } else {
        segment_entries(segments, upto - 1) + segment_entry(segments[upto - 1], upto - 1)
    }
}

/// The section that lists the instruction files in force.
pub open spec fn hierarchy_section(bundle: InstructionBundle) -> Seq<char> {
    "\n\n## AGENTS.MD INSTRUCTION HIERARCHY\n"@
        + "Instructions are listed from lowest to highest precedence. When conflicts exist, defer to the later entries.\n\n"@
        + segment_entries(bundle.segments@, bundle.segments@.len() as int) + (if bundle.truncated {
        "\n_Note: instruction content was truncated due to size limits. Review the source files for full details._"@
    } else {
        Seq::empty()
    })
}

/// The system instruction: the base prompt, then what the configuration
/// allows if there is a configuration, then the instruction files if there
/// are any.
pub open spec fn composed_instruction(
    base: Seq<char>,
    policy: Option<PolicySummary>,
    bundle: Option<InstructionBundle>,
) -> Seq<char> {
    base + (match policy {
        Some(policy) => policy_section(policy),
        None => Seq::empty(),
    }) + (match bundle {
        Some(bundle) => hierarchy_section(bundle),
        None => Seq::empty(),
    })
}

fn append_number(text: &mut String, head: &str, number: u128, tail: &str)
    ensures
        final(text)@ == old(text)@ + head@ + decimal_digits(number as nat) + tail@,
{
    text.append(head);
    text.append(decimal_string(number).as_str());
    text.append(tail);
}

fn append_confirmation_line(instruction: &mut String, policy: &PolicySummary)
    ensures
        final(instruction)@ == old(instruction)@ + confirmation_line(*policy),
{
    if policy.human_in_the_loop {
        instruction.append("- **Human-in-the-loop**: Required for critical actions\n");
    } else {
        proof {
            assert(instruction@ =~= instruction@ + Seq::<char>::empty());
        }
    }
}

fn append_command_lines(instruction: &mut String, policy: &PolicySummary)
    ensures
        final(instruction)@ == old(instruction)@ + allowed_line(*policy) + denied_line(*policy),
{
    let ghost nothing = Seq::<char>::empty();
    let ghost before = instruction@;
    if policy.allowed_commands > 0 {
        append_number(
            instruction,
            "- **Allowed commands**: ",
            policy.allowed_commands as u128,
            " commands in allow list\n",
        );
        proof {
            assert(instruction@ =~= before + allowed_line(*policy));
        }
    } else {
        proof {
            assert(instruction@ =~= before + nothing);
        }
    }
    let ghost middle = instruction@;
    if policy.denied_commands > 0 {
        append_number(
            instruction,
            "- **Denied commands**: ",
            policy.denied_commands as u128,
            " commands in deny list\n",
        );
        proof {
            assert(instruction@ =~= middle + denied_line(*policy));
        }
    } else {
        proof {
            assert(instruction@ =~= middle + nothing);
        }
    }
}

fn append_pty_lines(instruction: &mut String, policy: &PolicySummary)
    ensures
        final(instruction)@ == old(instruction)@ + pty_lines(*policy),
{
    let ghost before = instruction@;
    if policy.pty_enabled {
        instruction.append("- **PTY functionality**: Enabled\n");
        let ghost first = instruction@;
        append_number(instruction, "- **Default terminal size**: ", policy.pty_rows as u128, " rows × ");
        let ghost second = instruction@;
        instruction.append(decimal_string(policy.pty_cols as u128).as_str());
        instruction.append(" columns\n");
        let ghost third = instruction@;
        append_number(
            instruction,
            "- **PTY command timeout**: ",
            policy.pty_timeout_seconds as u128,
            " seconds\n",
        );
        proof {
            let size = "- **Default terminal size**: "@ + decimal_digits(policy.pty_rows as nat)
                + " rows × "@;
            let columns = decimal_digits(policy.pty_cols as nat) + " columns\n"@;
            let timeout = "- **PTY command timeout**: "@ + decimal_digits(
                policy.pty_timeout_seconds as nat,
            ) + " seconds\n"@;
            assert(second =~= first + size);
            assert(third =~= second + columns);
            assert(instruction@ =~= third + timeout);
            assert(instruction@ =~= before + ("- **PTY functionality**: Enabled\n"@ + size + columns
                + timeout));
        }
    } else {
        instruction.append("- **PTY functionality**: Disabled\n");
    }
}

fn append_policy(instruction: &mut String, policy: &PolicySummary)
    ensures
        final(instruction)@ == old(instruction)@ + policy_section(*policy),
{
    let ghost before = instruction@;
    instruction.append("\n\n## CONFIGURATION AWARENESS\n");
    instruction.append(
        "The agent is configured with the following policies from vtcode.toml:\n\n",
    );
    append_confirmation_line(instruction, policy);
    append_command_lines(instruction, policy);
    append_pty_lines(instruction, policy);
    instruction.append(
        "\n**IMPORTANT**: Respect these configuration policies. Commands not in the allow list will require user confirmation. Always inform users when actions require confirmation due to security policies.\n",
    );
    proof {
        assert(instruction@ =~= before + policy_section(*policy));
    }
}

fn append_segment(instruction: &mut String, segment: &InstructionSegment, index: usize)
    requires
        index < usize::MAX,
    ensures
        final(instruction)@ == old(instruction)@ + segment_entry(*segment, index as int),
{
    let ghost before = instruction@;
    append_number(instruction, "### ", (index + 1) as u128, ". ");
    instruction.append(segment.display_path.as_str());
    instruction.append(" (");
    instruction.append(segment.scope.label());
    instruction.append(")\n\n");
    let chars = to_chars(segment.contents.as_str());
    let (a, b) = trim_bounds(&chars, 0, chars.len());
    instruction.append(from_chars_range(&chars, a, b).as_str());
    instruction.append("\n");
    proof {
        assert(chars@.subrange(0, chars.len() as int) =~= chars@);
        assert(instruction@ =~= before + segment_entry(*segment, index as int));
    }
}

fn append_hierarchy(instruction: &mut String, bundle: &InstructionBundle)
    ensures
        final(instruction)@ == old(instruction)@ + hierarchy_section(*bundle),
{
    let ghost before = instruction@;
    instruction.append("\n\n## AGENTS.MD INSTRUCTION HIERARCHY\n");
    instruction.append(
        "Instructions are listed from lowest to highest precedence. When conflicts exist, defer to the later entries.\n\n",
    );
    let ghost head = instruction@;
    let mut i: usize = 0;
    proof {
        assert(head + segment_entries(bundle.segments@, 0) =~= head);
    }
    while i < bundle.segments.len()
        invariant
            i <= bundle.segments.len(),
            instruction@ == head + segment_entries(bundle.segments@, i as int),
        decreases bundle.segments.len() - i,
    {
        append_segment(instruction, &bundle.segments[i], i);
        proof {
            assert(instruction@ =~= head + segment_entries(bundle.segments@, i + 1));
        }
        i += 1;
    }
    if bundle.truncated {
        instruction.append(
            "\n_Note: instruction content was truncated due to size limits. Review the source files for full details._",
        );
    }
    proof {
        assert(instruction@ =~= before + hierarchy_section(*bundle));
    }
}

/// Composes the system instruction from the base prompt, the configured
/// policies and the instruction files in force.
pub fn compose_system_instruction_text(
    base: String,
    policy: Option<&PolicySummary>,
    bundle: Option<&InstructionBundle>,
) -> (instruction: String)
    ensures
        instruction@ == composed_instruction(
            base@,
            match policy {
                Some(policy) => Some(*policy),
                None => None,
            },
            match bundle {
                Some(bundle) => Some(*bundle),
                None => None,
            },
        ),
{
    let mut instruction = base;
    let ghost nothing = Seq::<char>::empty();
    match policy {
        Some(policy) => {
            append_policy(&mut instruction, policy);
        },
        None => {
            proof {
                assert(instruction@ =~= base@ + nothing);
            }
        },
    }
    let ghost middle = instruction@;
    match bundle {
        Some(bundle) => {
            append_hierarchy(&mut instruction, bundle);
        },
        None => {
            proof {
                assert(instruction@ =~= middle + nothing);
            }
        },
    }
    instruction
}

/// How the path of an instruction file is shown: relative to the project
/// root where it lies inside (the file name where it is the root itself),
/// with `~` for the home directory where it lies there, and in full
/// otherwise.
pub open spec fn shown_instruction_path(
    path: PathBuf,
    project_root: PathBuf,
    home_dir: Option<PathBuf>,
) -> Seq<char> {
    let inside = match path_relative(path, project_root) {
        Some(relative) => if path_text(relative).len() > 0 {
            Some(path_text(relative))
        } else {
            path_file_name(path)
        },
        None => None,
    };
    match inside {
        Some(shown) => shown,
        None => {
            let at_home = match home_dir {
                Some(home) => match path_relative(path, home) {
                    Some(relative) => if path_text(relative).len() == 0 {
                        Some("~"@)
                    } else {
                        Some("~/"@ + path_text(relative))
                    },
                    None => None,
                },
                None => None,
            };
            match at_home {
                Some(shown) => shown,
                None => path_text(path),
            }
        },
    }
}

/// The path of an instruction file as it is shown to the model.
pub fn format_instruction_path(
    path: &PathBuf,
    project_root: &PathBuf,
    home_dir: Option<&PathBuf>,
) -> (r: String)
    ensures
        r@ == shown_instruction_path(
            *path,
            *project_root,
            match home_dir {
                Some(home) => Some(*home),
                None => None,
            },
        ),
{
    match relative_to(path, project_root) {
        Some(relative) => {
            let display = display_text(&relative);
            if !display.as_str().is_empty() {
                return display;
            }
            match file_name_text(path) {
                Some(name) => {
                    return name;
                },
                None => {},
            }
        },
        None => {},
    }
    match home_dir {
        Some(home) => match relative_to(path, home) {
            Some(relative) => {
                let display = display_text(&relative);
                if display.as_str().is_empty() {
                    return String::from_str("~");
                }
                return String::from_str("~/").concat(display.as_str());
            },
            None => {},
        },
        None => {},
    }
    display_text(path)
}

} // verus!
