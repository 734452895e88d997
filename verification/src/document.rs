//! The text around the manifest: the comment lines a file opens with, and
//! the text of a rewritten file.

use vstd::prelude::*;
use vstd::string::*;

verus! {

/// A line without the carriage return at its end, if it has one.
pub open spec fn without_return(line: Seq<char>) -> Seq<char> {
    if line.len() > 0 && line.last() == '\r' {
        line.drop_last()
    } else {
        line
    }
}

/// The number of characters before the first line feed of a text, or the
/// length of a text without one.
pub open spec fn line_length(text: Seq<char>) -> nat
    decreases text.len(),
{
    if text.len() == 0 || text[0] == '\n' {
        0
    } else {
        1 + line_length(text.drop_first())
    }
}

/// The lines of a text. A line ends at a line feed, or at a carriage
/// return with a line feed behind it; neither belongs to the line. The
/// last line needs no line ending, and a text that ends in one has no
/// empty line behind it.
pub open spec fn split_lines(text: Seq<char>) -> Seq<Seq<char>>
    decreases text.len(),
{
    let end = line_length(text) as int;
    if text.len() == 0 {
        Seq::empty()
    } else if end >= text.len() {
        seq![text]
    } else {
        seq![without_return(text.take(end))] + split_lines(text.skip(end + 1))
    }
}

/// The texts of string slices, in order.
pub open spec fn slices_of(lines: Seq<&str>) -> Seq<Seq<char>> {
    lines.map_values(|line: &str| line@)
}

/// Splits a text into its lines with `str::lines`.
///
/// Trusted: the lines are those that the standard library documents, as
/// [`split_lines`] states them.
#[verifier::external_body]
fn lines_of<'a>(text: &'a str) -> (lines: Vec<&'a str>)
    ensures
        slices_of(lines@) == split_lines(text@),
{
    text.lines().collect()
}

/// Whether a line is a comment: its first character is `#`.
pub open spec fn is_comment(line: Seq<char>) -> bool {
    line.len() > 0 && line[0] == '#'
}

/// The number of comment lines that the lines open with.
pub open spec fn comment_run(lines: Seq<Seq<char>>) -> nat
    decreases lines.len(),
{
    if lines.len() == 0 || !is_comment(lines[0]) {
        0
    } else {
        1 + comment_run(lines.drop_first())
    }
}

/// Lines put together, a line feed between each two.
pub open spec fn joined(lines: Seq<Seq<char>>) -> Seq<char>
    decreases lines.len(),
{
    if lines.len() == 0 {
        Seq::empty()
    } else if lines.len() == 1 {
        lines[0]
    } else {
        joined(lines.drop_last()) + seq!['\n'] + lines.last()
    }
}

/// The preamble of a text: the comment lines it opens with, up to the first
/// line that is no comment, joined by line feeds.
pub open spec fn preamble_of(text: Seq<char>) -> Seq<char> {
    let lines = split_lines(text);
    joined(lines.take(comment_run(lines) as int))
}

/// A run of comment lines that ends at the first other line, or at the last
/// line, is the whole run.
proof fn lemma_comment_run(lines: Seq<Seq<char>>, count: int)
    requires
        0 <= count <= lines.len(),
        forall|j: int| 0 <= j < count ==> is_comment(#[trigger] lines[j]),
        count < lines.len() ==> !is_comment(lines[count]),
    ensures
        comment_run(lines) == count,
    decreases lines.len(),
{
    if count > 0 {
        let rest = lines.drop_first();
        assert forall|j: int| 0 <= j < count - 1 implies is_comment(#[trigger] rest[j]) by {}
        lemma_comment_run(rest, count - 1);
    }
}

/// The comment lines that a manifest file opens with, to be kept when the
/// file is rewritten.
pub fn preamble(text: &str) -> (kept: String)
    ensures
        kept@ == preamble_of(text@),
{
    let lines = lines_of(text);
    let ghost texts = slices_of(lines@);
    let mut kept = String::new();
    let mut i: usize = 0;
    let mut in_comments = true;
    while in_comments && i < lines.len()
        invariant
            texts == slices_of(lines@),
            i <= lines.len(),
            forall|j: int| 0 <= j < i ==> is_comment(#[trigger] texts[j]),
            !in_comments ==> i < lines.len() && !is_comment(texts[i as int]),
            kept@ == joined(texts.take(i as int)),
        decreases lines.len() - i, if in_comments { 1nat } else { 0nat },
    {
        let line = lines[i];
        if line.is_empty() || line.get_char(0) != '#' {
            in_comments = false;
        } else {
            if i > 0 {
                kept.append("\n");
            }
            kept.append(line);
            proof {
                reveal_strlit("\n");
                let longer = texts.take(i + 1);
                assert(longer.drop_last() == texts.take(i as int));
            }
            i += 1;
        }
    }
    proof {
        lemma_comment_run(texts, i as int);
    }
    kept
}

/// The text of a rewritten file: a note that the file was changed, the
/// preamble, an empty line, and the manifest.
pub open spec fn rendered(preamble: Seq<char>, manifest: Seq<char>) -> Seq<char> {
    "# This file has been changed by cargoman.\n#\n"@ + preamble + "\n\n"@ + manifest
}

/// Puts together the text of a rewritten file.
pub fn render(preamble: &str, manifest: &str) -> (text: String)
    ensures
        text@ == rendered(preamble@, manifest@),
{
    let mut text = String::from_str("# This file has been changed by cargoman.\n#\n");
    text.append(preamble);
    text.append("\n\n");
    text.append(manifest);
    text
}

} // verus!
