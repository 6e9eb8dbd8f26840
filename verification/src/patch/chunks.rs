//! Applying the chunks of an update to the text of a file.
//!
//! The text is taken apart at its line feeds. A chunk is located where its
//! pre-image first occurs as consecutive lines, and its post-image takes
//! that place. Everything else stays as it was, character for character.

use crate::patch::error::{PatchError, PatchErrorView};
use crate::patch::model::{chunk_views, post_image, pre_image, PatchChunk, PatchLine, PatchLineView};
use crate::text::{from_chars, push_range, same_chars, to_chars, views};
use vstd::prelude::*;

verus! {

/// The pieces of `s` between its line feeds, from a piece that began at
/// `start` and holds no line feed up to `pos`. A text of `n` line feeds has
/// `n + 1` pieces; the last one is empty when the text ends in a line feed.
pub open spec fn segments_scan(s: Seq<char>, start: int, pos: int) -> Seq<Seq<char>>
    decreases s.len() - pos,
{
    if pos < 0 || pos >= s.len() {
        seq![s.subrange(start, s.len() as int)]
    } else if s[pos] == '\n' {
        seq![s.subrange(start, pos)] + segments_scan(s, pos + 1, pos + 1)
    } else {
        segments_scan(s, start, pos + 1)
    }
}

/// The pieces of `s` between its line feeds.
pub open spec fn segments_of(s: Seq<char>) -> Seq<Seq<char>> {
    segments_scan(s, 0, 0)
}

/// The first `upto` pieces put together again, with a line feed between
/// neighbours.
pub open spec fn joined(segments: Seq<Seq<char>>, upto: int) -> Seq<char>
    decreases upto,
{
    if upto <= 0 {
        Seq::empty()
    } else if upto == 1 {
        segments[0]
    } else {
        joined(segments, upto - 1) + seq!['\n'] + segments[upto - 1]
    }
}

/// `pattern` occurs in `lines` as consecutive lines starting at `at`.
pub open spec fn lines_at(lines: Seq<Seq<char>>, at: int, pattern: Seq<Seq<char>>) -> bool {
    &&& 0 <= at
    &&& at + pattern.len() <= lines.len()
    &&& lines.subrange(at, at + pattern.len()) == pattern
}

/// Where `pattern` first occurs in `lines` at or after `from`.
pub open spec fn first_lines_from(lines: Seq<Seq<char>>, pattern: Seq<Seq<char>>, from: int) -> Option<
    int,
>
    decreases lines.len() - from,
{
    if from < 0 || from > lines.len() {
        None
    } else if lines_at(lines, from, pattern) {
        Some(from)
    } else if from == lines.len() {
        None
    } else {
        first_lines_from(lines, pattern, from + 1)
    }
}

/// The lines after a chunk is applied: its post-image stands where its
/// pre-image first occurred. `None` if the pre-image occurs nowhere.
pub open spec fn chunk_applied(lines: Seq<Seq<char>>, chunk: Seq<PatchLineView>) -> Option<
    Seq<Seq<char>>,
> {
    let before = pre_image(chunk, chunk.len() as int);
    let after = post_image(chunk, chunk.len() as int);
    match first_lines_from(lines, before, 0) {
        Some(at) => Some(lines.take(at) + after + lines.skip(at + before.len())),
        None => None,
    }
}

/// The lines after the first `upto` chunks are applied one after the other,
/// each to what the one before left; or the index of the first chunk
/// whose pre-image was not found.
pub open spec fn chunks_applied(
    lines: Seq<Seq<char>>,
    chunks: Seq<Seq<PatchLineView>>,
    upto: int,
) -> Result<Seq<Seq<char>>, int>
    decreases upto,
{
    if upto <= 0 {
        Ok(lines)
    } else {
        match chunks_applied(lines, chunks, upto - 1) {
            Err(index) => Err(index),
            Ok(current) => match chunk_applied(current, chunks[upto - 1]) {
                Some(next) => Ok(next),
                None => Err(upto - 1),
            },
        }
    }
}

/// The text of a file after all chunks of an update are applied, or the
/// index of the first chunk that could not be located.
pub open spec fn patched_text(text: Seq<char>, chunks: Seq<Seq<PatchLineView>>) -> Result<
    Seq<char>,
    int,
> {
    match chunks_applied(segments_of(text), chunks, chunks.len() as int) {
        Ok(lines) => Ok(joined(lines, lines.len() as int)),
        Err(index) => Err(index),
    }
}

/// The error for a chunk whose pre-image does not occur in the file at
/// `path`: it quotes the lines that were looked for.
pub open spec fn segment_not_found(path: Seq<char>, chunk: Seq<PatchLineView>) -> PatchErrorView {
    let wanted = pre_image(chunk, chunk.len() as int);
    PatchErrorView::SegmentNotFound { path, context: joined(wanted, wanted.len() as int) }
}

proof fn lemma_joined_prepend(head: Seq<char>, rest: Seq<Seq<char>>, upto: int)
    requires
        1 <= upto <= rest.len(),
    ensures
        joined(seq![head] + rest, upto + 1) == head + seq!['\n'] + joined(rest, upto),
    decreases upto,
{
    let all = seq![head] + rest;
    if upto == 1 {
        assert(joined(all, 1) == head);
        assert(all[1] == rest[0]);
    } else {
        lemma_joined_prepend(head, rest, upto - 1);
        assert(all[upto] == rest[upto - 1]);
        assert((head + seq!['\n'] + joined(rest, upto - 1)) + seq!['\n'] + rest[upto - 1] =~= head
            + seq!['\n'] + (joined(rest, upto - 1) + seq!['\n'] + rest[upto - 1]));
    }
}

proof fn lemma_segments_nonempty(s: Seq<char>, start: int, pos: int)
    requires
        0 <= start <= pos <= s.len(),
    ensures
        segments_scan(s, start, pos).len() >= 1,
    decreases s.len() - pos,
{
    if pos < s.len() {
        if s[pos] == '\n' {
            lemma_segments_nonempty(s, pos + 1, pos + 1);
        } else {
            lemma_segments_nonempty(s, start, pos + 1);
        }
    }
}

proof fn lemma_join_scan(s: Seq<char>, start: int, pos: int)
    requires
        0 <= start <= pos <= s.len(),
        forall|k: int| start <= k < pos ==> s[k] != '\n',
    ensures
        joined(segments_scan(s, start, pos), segments_scan(s, start, pos).len() as int)
            == s.subrange(start, s.len() as int),
    decreases s.len() - pos,
{
    let segments = segments_scan(s, start, pos);
    if pos >= s.len() {
    } else if s[pos] == '\n' {
        let rest = segments_scan(s, pos + 1, pos + 1);
        lemma_segments_nonempty(s, pos + 1, pos + 1);
        lemma_join_scan(s, pos + 1, pos + 1);
        lemma_joined_prepend(s.subrange(start, pos), rest, rest.len() as int);
        assert(s.subrange(start, pos) + seq!['\n'] + s.subrange(pos + 1, s.len() as int)
            =~= s.subrange(start, s.len() as int));
    } else {
        lemma_join_scan(s, start, pos + 1);
    }
}

/// Taking a text apart and putting it together again gives the text back.
pub proof fn law_join_inverts_split(text: Seq<char>)
    ensures
        joined(segments_of(text), segments_of(text).len() as int) == text,
{
    lemma_join_scan(text, 0, 0);
    assert(text.subrange(0, text.len() as int) =~= text);
}

/// Splits `v` at its line feeds.
pub fn split_segments(v: &Vec<char>) -> (segments: Vec<Vec<char>>)
    ensures
        views(segments@) == segments_of(v@),
{
    let mut segments: Vec<Vec<char>> = Vec::new();
    let mut start: usize = 0;
    let mut pos: usize = 0;
    while pos < v.len()
        invariant
            start <= pos <= v.len(),
            segments_of(v@) == views(segments@) + segments_scan(v@, start as int, pos as int),
        decreases v.len() - pos,
    {
        if v[pos] == '\n' {
            let ghost before = views(segments@);
            let mut piece: Vec<char> = Vec::new();
            push_range(&mut piece, v, start, pos);
            proof {
                assert(piece@ =~= v@.subrange(start as int, pos as int));
            }
            segments.push(piece);
            proof {
                assert(views(segments@) =~= before.push(v@.subrange(start as int, pos as int)));
                assert(before + (seq![v@.subrange(start as int, pos as int)] + segments_scan(
                    v@,
                    pos + 1,
                    pos + 1,
                )) =~= views(segments@) + segments_scan(v@, pos + 1, pos + 1));
            }
            start = pos + 1;
        }
        pos += 1;
    }
    let ghost before = views(segments@);
    let mut piece: Vec<char> = Vec::new();
    push_range(&mut piece, v, start, v.len());
    proof {
        assert(piece@ =~= v@.subrange(start as int, v.len() as int));
    }
    segments.push(piece);
    proof {
        assert(views(segments@) =~= before.push(v@.subrange(start as int, v.len() as int)));
        assert(before + seq![v@.subrange(start as int, v.len() as int)] =~= views(segments@));
    }
    segments
}

/// Puts the pieces together, with a line feed between neighbours.
pub fn join_segments(segments: &Vec<Vec<char>>) -> (text: Vec<char>)
    ensures
        text@ == joined(views(segments@), segments@.len() as int),
{
    let mut text: Vec<char> = Vec::new();
    let mut i: usize = 0;
    while i < segments.len()
        invariant
            i <= segments.len(),
            text@ == joined(views(segments@), i as int),
        decreases segments.len() - i,
    {
        let ghost before = text@;
        if i > 0 {
            text.push('\n');
        }
        push_range(&mut text, &segments[i], 0, segments[i].len());
        proof {
            let piece = segments@[i as int]@;
            assert(piece.subrange(0, piece.len() as int) =~= piece);
            assert(views(segments@)[i as int] == piece);
            if i > 0 {
                assert(text@ =~= before + seq!['\n'] + piece);
            } else {
                assert(text@ =~= piece);
            }
        }
        i += 1;
    }
    text
}

/// The pre-image and the post-image of a chunk, as character buffers.
fn chunk_images(chunk: &PatchChunk) -> (images: (Vec<Vec<char>>, Vec<Vec<char>>))
    ensures
        views(images.0@) == pre_image(chunk@, chunk@.len() as int),
        views(images.1@) == post_image(chunk@, chunk@.len() as int),
{
    let mut before: Vec<Vec<char>> = Vec::new();
    let mut after: Vec<Vec<char>> = Vec::new();
    let mut i: usize = 0;
    proof {
        assert(views(before@) =~= Seq::<Seq<char>>::empty());
        assert(views(after@) =~= Seq::<Seq<char>>::empty());
    }
    while i < chunk.lines.len()
        invariant
            i <= chunk.lines.len(),
            views(before@) == pre_image(chunk@, i as int),
            views(after@) == post_image(chunk@, i as int),
        decreases chunk.lines.len() - i,
    {
        let ghost pre_views = views(before@);
        let ghost post_views = views(after@);
        proof {
            assert(chunk@[i as int] == chunk.lines@[i as int]@);
        }
        match &chunk.lines[i] {
            PatchLine::Context(text) => {
                before.push(to_chars(text.as_str()));
                after.push(to_chars(text.as_str()));
                proof {
                    assert(views(before@) =~= pre_views.push(text@));
                    assert(views(after@) =~= post_views.push(text@));
                }
            },
            PatchLine::Removal(text) => {
                before.push(to_chars(text.as_str()));
                proof {
                    assert(views(before@) =~= pre_views.push(text@));
                }
            },
            PatchLine::Addition(text) => {
                after.push(to_chars(text.as_str()));
                proof {
                    assert(views(after@) =~= post_views.push(text@));
                }
            },
        }
        i += 1;
    }
    (before, after)
}

/// Whether `pattern` occurs in `lines` at `at`.
fn lines_match_at(lines: &Vec<Vec<char>>, at: usize, pattern: &Vec<Vec<char>>) -> (r: bool)
    requires
        at + pattern@.len() <= lines@.len(),
    ensures
        r == lines_at(views(lines@), at as int, views(pattern@)),
{
    let total = lines.len();
    let mut j: usize = 0;
    while j < pattern.len()
        invariant
            j <= pattern.len(),
            total == lines@.len(),
            at + pattern@.len() <= lines@.len(),
            forall|k: int| 0 <= k < j ==> lines@[at + k]@ == pattern@[k]@,
        decreases pattern.len() - j,
    {
        if !same_chars(&lines[at + j], &pattern[j]) {
            proof {
                let window = views(lines@).subrange(at as int, at + pattern@.len());
                assert(window[j as int] == lines@[at + j]@);
                assert(views(pattern@)[j as int] == pattern@[j as int]@);
            }
            return false;
        }
        j += 1;
    }
    proof {
        assert(views(lines@).subrange(at as int, at + pattern@.len()) =~= views(pattern@));
    }
    true
}

proof fn lemma_no_occurrence(lines: Seq<Seq<char>>, pattern: Seq<Seq<char>>, from: int)
    requires
        forall|j: int| from <= j ==> !lines_at(lines, j, pattern),
    ensures
        first_lines_from(lines, pattern, from) is None,
    decreases lines.len() - from,
{
    if 0 <= from < lines.len() {
        lemma_no_occurrence(lines, pattern, from + 1);
    }
}

/// Where `pattern` first occurs in `lines`.
fn find_lines(lines: &Vec<Vec<char>>, pattern: &Vec<Vec<char>>) -> (r: Option<usize>)
    ensures
        match r {
            Some(at) => first_lines_from(views(lines@), views(pattern@), 0) == Some(at as int)
                && at + pattern@.len() <= lines@.len(),
            None => first_lines_from(views(lines@), views(pattern@), 0) is None,
        },
{
    if pattern.len() > lines.len() {
        proof {
            lemma_no_occurrence(views(lines@), views(pattern@), 0);
        }
        return None;
    }
    let last = lines.len() - pattern.len();
    let mut at: usize = 0;
    loop
        invariant
            at <= last,
            last == lines@.len() - pattern@.len(),
            first_lines_from(views(lines@), views(pattern@), 0) == first_lines_from(
                views(lines@),
                views(pattern@),
                at as int,
            ),
        decreases last - at,
    {
        if lines_match_at(lines, at, pattern) {
            return Some(at);
        }
        if at == last {
            proof {
                lemma_no_occurrence(views(lines@), views(pattern@), at + 1);
            }
            return None;
        }
        at += 1;
    }
}

fn copy_lines(out: &mut Vec<Vec<char>>, lines: &Vec<Vec<char>>, from: usize, to: usize)
    requires
        from <= to <= lines@.len(),
    ensures
        views(final(out)@) == views(old(out)@) + views(lines@).subrange(from as int, to as int),
{
    let ghost before = views(out@);
    let mut i: usize = from;
    proof {
        assert(before + views(lines@).subrange(from as int, from as int) =~= before);
    }
    while i < to
        invariant
            from <= i <= to <= lines@.len(),
            views(out@) == before + views(lines@).subrange(from as int, i as int),
        decreases to - i,
    {
        let ghost current = views(out@);
        let mut line: Vec<char> = Vec::new();
        push_range(&mut line, &lines[i], 0, lines[i].len());
        proof {
            let source = lines@[i as int]@;
            assert(source.subrange(0, source.len() as int) =~= source);
            assert(line@ =~= source);
        }
        out.push(line);
        proof {
            assert(views(out@) =~= current.push(lines@[i as int]@));
            assert(before + views(lines@).subrange(from as int, i + 1) =~= (before + views(
                lines@,
            ).subrange(from as int, i as int)).push(lines@[i as int]@));
        }
        i += 1;
    }
}

/// Applies one chunk to `lines`.
fn apply_chunk(lines: &Vec<Vec<char>>, chunk: &PatchChunk) -> (r: Result<Vec<Vec<char>>, Vec<Vec<char>>>)
    ensures
        match r {
            Ok(next) => chunk_applied(views(lines@), chunk@) == Some(views(next@)),
            Err(missing) => chunk_applied(views(lines@), chunk@) is None && views(missing@)
                == pre_image(chunk@, chunk@.len() as int),
        },
{
    let (before, after) = chunk_images(chunk);
    match find_lines(lines, &before) {
        None => Err(before),
        Some(at) => {
            let mut next: Vec<Vec<char>> = Vec::new();
            proof {
                assert(views(next@) =~= Seq::<Seq<char>>::empty());
            }
            let total = lines.len();
            copy_lines(&mut next, lines, 0, at);
            copy_lines(&mut next, &after, 0, after.len());
            copy_lines(&mut next, lines, at + before.len(), total);
            proof {
                let all = views(lines@);
                assert(all.subrange(0, at as int) =~= all.take(at as int));
                assert(views(after@).subrange(0, after@.len() as int) =~= views(after@));
                assert(all.subrange(at + before@.len(), all.len() as int) =~= all.skip(
                    at + before@.len(),
                ));
                assert(views(next@) =~= all.take(at as int) + views(after@) + all.skip(
                    at + before@.len(),
                ));
            }
            Ok(next)
        },
    }
}

/// The text of the file at `path` after the chunks of an update, or
/// `SegmentNotFound` for the first chunk whose pre-image does not occur in
/// the text as the chunks before it left it. The error names the path and
/// quotes the lines that were looked for.
pub fn apply_chunks(path: &str, content: &str, chunks: &Vec<PatchChunk>) -> (r: Result<
    String,
    PatchError,
>)
    ensures
        match r {
            Ok(text) => patched_text(content@, chunk_views(chunks@)) == Ok::<Seq<char>, int>(text@),
            Err(error) => patched_text(content@, chunk_views(chunks@)) matches Err(index)
                && error@ == segment_not_found(path@, chunk_views(chunks@)[index]),
        },
{
    let chars = to_chars(content);
    let mut lines = split_segments(&chars);
    let ghost start = views(lines@);
    let mut i: usize = 0;
    while i < chunks.len()
        invariant
            i <= chunks.len(),
            start == segments_of(content@),
            chunks_applied(start, chunk_views(chunks@), i as int) == Ok::<Seq<Seq<char>>, int>(
                views(lines@),
            ),
        decreases chunks.len() - i,
    {
        proof {
            assert(chunk_views(chunks@)[i as int] == chunks@[i as int]@);
        }
        match apply_chunk(&lines, &chunks[i]) {
            Ok(next) => {
                lines = next;
            },
            Err(missing) => {
                proof {
                    assert(chunks_applied(start, chunk_views(chunks@), i + 1) == Err::<
                        Seq<Seq<char>>,
                        int,
                    >(i as int));
                    lemma_failure_is_final(start, chunk_views(chunks@), i + 1, chunks@.len() as int);
                    assert(views(missing@).len() == missing@.len());
                    assert(patched_text(content@, chunk_views(chunks@)) == Err::<Seq<char>, int>(
                        i as int,
                    ));
                }
                let context = from_chars(&join_segments(&missing));
                return Err(
                    PatchError::SegmentNotFound { path: path.to_owned(), context },
                );
            },
        }
        i += 1;
    }
    Ok(from_chars(&join_segments(&lines)))
}

/// Once a chunk has failed, the chunks after it are not tried.
proof fn lemma_failure_is_final(
    lines: Seq<Seq<char>>,
    chunks: Seq<Seq<PatchLineView>>,
    from: int,
    upto: int,
)
    requires
        0 <= from <= upto,
        chunks_applied(lines, chunks, from) is Err,
    ensures
        chunks_applied(lines, chunks, upto) == chunks_applied(lines, chunks, from),
    decreases upto - from,
{
    if from < upto {
        lemma_failure_is_final(lines, chunks, from, upto - 1);
    }
}

/// Every line of the chunk is a context line.
pub open spec fn is_context_only(chunk: Seq<PatchLineView>) -> bool {
    forall|i: int| 0 <= i < chunk.len() ==> #[trigger] chunk[i] is Context
}

proof fn lemma_context_images_agree(chunk: Seq<PatchLineView>, upto: int)
    requires
        0 <= upto <= chunk.len(),
        is_context_only(chunk),
    ensures
        pre_image(chunk, upto) == post_image(chunk, upto),
    decreases upto,
{
    if upto > 0 {
        lemma_context_images_agree(chunk, upto - 1);
        assert(chunk[upto - 1] is Context);
    }
}

proof fn lemma_first_lines_found(lines: Seq<Seq<char>>, pattern: Seq<Seq<char>>, from: int)
    requires
        0 <= from,
    ensures
        first_lines_from(lines, pattern, from) matches Some(at) ==> lines_at(lines, at, pattern),
    decreases lines.len() - from,
{
    if from <= lines.len() && !lines_at(lines, from, pattern) && from != lines.len() {
        lemma_first_lines_found(lines, pattern, from + 1);
    }
}

/// Context changes nothing. A chunk made of context lines only, once it
/// is located, leaves the lines as they are.
pub proof fn law_context_only_chunk_changes_nothing(
    lines: Seq<Seq<char>>,
    chunk: Seq<PatchLineView>,
)
    requires
        is_context_only(chunk),
        chunk_applied(lines, chunk) is Some,
    ensures
        chunk_applied(lines, chunk) == Some(lines),
{
    let before = pre_image(chunk, chunk.len() as int);
    lemma_context_images_agree(chunk, chunk.len() as int);
    lemma_first_lines_found(lines, before, 0);
    let at = first_lines_from(lines, before, 0)->0;
    assert(lines.take(at) + lines.subrange(at, at + before.len()) + lines.skip(at + before.len())
        =~= lines);
}

/// An update without chunks leaves the text of the file as it is,
/// character for character.
pub proof fn law_no_chunks_change_nothing(text: Seq<char>)
    ensures
        patched_text(text, Seq::empty()) == Ok::<Seq<char>, int>(text),
{
    law_join_inverts_split(text);
}

} // verus!
