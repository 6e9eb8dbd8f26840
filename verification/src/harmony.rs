//! Removing harmony tool-call markup from model output.

use crate::text::{
    find_first, find_from, from_chars_range, lemma_find_in_suffix, push_range, to_chars, trim,
    trim_bounds,
};
use vstd::prelude::*;

verus! {

pub open spec fn start_tag() -> Seq<char> {
    "<|start|>"@
}

pub open spec fn call_tag() -> Seq<char> {
    "<|call|>"@
}

pub open spec fn channel_tag() -> Seq<char> {
    "<|channel|>"@
}

pub open spec fn constrain_tag() -> Seq<char> {
    "<|constrain|>"@
}

pub open spec fn message_tag() -> Seq<char> {
    "<|message|>"@
}

/// `s` without the characters from `from` up to `to`.
pub open spec fn cut(s: Seq<char>, from: int, to: int) -> Seq<char> {
    s.take(from) + s.skip(to)
}

/// `s` without its tool calls. The first start tag and everything up to
/// and including the call tag that follows it are removed; a start tag that
/// no call tag follows is removed alone; and so on, always from the first
/// start tag of what is left.
pub open spec fn without_calls(s: Seq<char>) -> Seq<char>
    decreases s.len(),
{
    match find_first(s, 0, start_tag()) {
        None => s,
        Some(start) => {
            let end = match find_first(s, start, call_tag()) {
                Some(call) => call + call_tag().len(),
                None => start + start_tag().len(),
            };
            let rest = cut(s, start, end);
            if rest.len() < s.len() {
                without_calls(rest)
            } else {
                rest
            }
        },
    }
}

/// `s` without any occurrence of `tag`, found from left to right.
pub open spec fn without_tag(s: Seq<char>, tag: Seq<char>) -> Seq<char>
    decreases s.len(),
{
    match find_first(s, 0, tag) {
        None => s,
        Some(at) => {
            if 0 <= at && tag.len() > 0 && at + tag.len() <= s.len() {
                s.take(at) + without_tag(s.skip(at + tag.len()), tag)
            } else {
                s
            }
        },
    }
}

/// The text with harmony markup stripped: tool calls first, then the
/// channel, constrain, message and call tags that are left, then the white
/// space around the rest.
pub open spec fn stripped_harmony(text: Seq<char>) -> Seq<char> {
    trim(
        without_tag(
            without_tag(
                without_tag(without_tag(without_calls(text), channel_tag()), constrain_tag()),
                message_tag(),
            ),
            call_tag(),
        ),
    )
}

fn remove_calls(text: Vec<char>) -> (r: Vec<char>)
    ensures
        r@ == without_calls(text@),
{
    let start_tag = to_chars("<|start|>");
    let call_tag = to_chars("<|call|>");
    let mut current = text;
    loop
        invariant
            start_tag@ == self::start_tag(),
            call_tag@ == self::call_tag(),
            without_calls(current@) == without_calls(text@),
        decreases current@.len(),
    {
        match find_from(&current, 0, &start_tag) {
            None => {
                return current;
            },
            Some(start) => {
                let total = current.len();
                let end: usize = match find_from(&current, start, &call_tag) {
                    Some(call) => call + call_tag.len(),
                    None => start + start_tag.len(),
                };
                let mut rest: Vec<char> = Vec::new();
                push_range(&mut rest, &current, 0, start);
                push_range(&mut rest, &current, end, total);
                proof {
                    assert(rest@ =~= cut(current@, start as int, end as int));
                }
                if rest.len() < current.len() {
                    current = rest;
                } else {
                    return rest;
                }
            },
        }
    }
}

fn remove_tag(text: &Vec<char>, tag: &str) -> (r: Vec<char>)
    ensures
        r@ == without_tag(text@, tag@),
{
    let pattern = to_chars(tag);
    let mut out: Vec<char> = Vec::new();
    let mut pos: usize = 0;
    proof {
        assert(text@.skip(0) =~= text@);
        assert(out@ + without_tag(text@, tag@) =~= without_tag(text@, tag@));
    }
    loop
        invariant
            pos <= text.len(),
            pattern@ == tag@,
            without_tag(text@, tag@) == out@ + without_tag(text@.skip(pos as int), tag@),
        decreases text.len() - pos,
    {
        let ghost rest = text@.skip(pos as int);
        let found = find_from(text, pos, &pattern);
        proof {
            lemma_find_in_suffix(text@, pos as int, pattern@, pos as int);
        }
        match found {
            Some(at) => {
                if pattern.len() == 0 {
                    push_range(&mut out, text, pos, text.len());
                    proof {
                        assert(rest =~= text@.subrange(pos as int, text.len() as int));
                    }
                    return out;
                }
                let ghost before = out@;
                push_range(&mut out, text, pos, at);
                proof {
                    assert(rest.take(at - pos) =~= text@.subrange(pos as int, at as int));
                    assert(rest.skip(at - pos + pattern@.len()) =~= text@.skip(
                        at + pattern@.len(),
                    ));
                    assert(before + (rest.take(at - pos) + without_tag(
                        text@.skip(at + pattern@.len()),
                        tag@,
                    )) =~= out@ + without_tag(text@.skip(at + pattern@.len()), tag@));
                }
                pos = at + pattern.len();
            },
            None => {
                push_range(&mut out, text, pos, text.len());
                proof {
                    assert(rest =~= text@.subrange(pos as int, text.len() as int));
                }
                return out;
            },
        }
    }
}

/// Strips harmony tool-call markup from `text`.
pub fn strip_harmony_syntax(text: &str) -> (r: String)
    ensures
        r@ == stripped_harmony(text@),
{
    let calls_gone = remove_calls(to_chars(text));
    let first = remove_tag(&calls_gone, "<|channel|>");
    let second = remove_tag(&first, "<|constrain|>");
    let third = remove_tag(&second, "<|message|>");
    let last = remove_tag(&third, "<|call|>");
    let (a, b) = trim_bounds(&last, 0, last.len());
    proof {
        assert(last@.subrange(0, last.len() as int) =~= last@);
    }
    from_chars_range(&last, a, b)
}

} // verus!
