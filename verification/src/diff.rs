//! Rendering of the working-tree diff as unified-patch text.
//!
//! The diff engine hands back one [`DiffLine`] per formatted line.  A
//! line whose origin sigil is context, removal or addition contributes
//! that sigil followed by its content; every other line (file headers,
//! hunk headers, binary markers, end-of-file notes) contributes nothing.
//! Contributions are concatenated in the order the lines arrive, never
//! reordered and never deduplicated.

use vstd::prelude::*;
use vstd::string::*;
use crate::errors::PipelineError;
use crate::git;

verus! {

/// One formatted line of a diff: its origin sigil and its content.
pub struct DiffLine {
    /// The line-origin sigil: `' '` for context, `'-'` for a removed
    /// line, `'+'` for an added line; any other sigil marks a line that
    /// is not part of the textual patch.
    pub origin: char,
    /// The line's text, without the sigil.
    pub content: String,
}

/// What one line contributes to the rendered diff: its sigil followed
/// by its content for the three textual sigils, nothing otherwise.
pub open spec fn line_contribution(line: DiffLine) -> Seq<char> {
    if line.origin == ' ' || line.origin == '-' || line.origin == '+' {
        seq![line.origin] + line.content@
    } else {
        Seq::<char>::empty()
    }
}

/// The rendered diff: the concatenation of every line's contribution,
/// in order.
pub open spec fn rendered_diff(lines: Seq<DiffLine>) -> Seq<char>
    decreases lines.len(),
{
    if lines.len() == 0 {
        Seq::<char>::empty()
    } else {
        rendered_diff(lines.drop_last()) + line_contribution(lines.last())
    }
}

/// Rendering distributes over concatenation of line sequences: the
/// lines of `a` come out before the lines of `b`, each group in its own
/// order.  In particular no line is reordered, dropped or deduplicated
/// relative to its neighbours.
pub proof fn lemma_rendered_diff_append(a: Seq<DiffLine>, b: Seq<DiffLine>)
    ensures
        rendered_diff(a + b) == rendered_diff(a) + rendered_diff(b),
    decreases b.len(),
{
    if b.len() == 0 {
        assert(a + b =~= a);
        assert(rendered_diff(a) + rendered_diff(b) =~= rendered_diff(a));
    } else {
        lemma_rendered_diff_append(a, b.drop_last());
        assert((a + b).drop_last() =~= a + b.drop_last());
        assert((a + b).last() == b.last());
        assert(rendered_diff(a) + (rendered_diff(b.drop_last()) + line_contribution(b.last()))
            =~= (rendered_diff(a) + rendered_diff(b.drop_last())) + line_contribution(b.last()));
    }
}

/// Relies on String::push: appends the given character to the end of
/// the string.
#[verifier::external_body]
fn push_char(s: &mut String, c: char)
    ensures
        final(s)@ == old(s)@ + seq![c],
{
    s.push(c);
}

/// Renders a sequence of diff lines as unified-patch text.
pub fn render_diff(lines: &Vec<DiffLine>) -> (r: String)
    ensures
        r@ == rendered_diff(lines@),
{
    let mut out = String::new();
    let mut i: usize = 0;
    assert(lines@.take(0) =~= Seq::<DiffLine>::empty());
    while i < lines.len()
        invariant
            i <= lines@.len(),
            out@ == rendered_diff(lines@.take(i as int)),
        decreases lines@.len() - i,
    {
        let line = &lines[i];
        if line.origin == ' ' || line.origin == '-' || line.origin == '+' {
            push_char(&mut out, line.origin);
            out.append(line.content.as_str());
        }
        assert(lines@.take(i as int + 1).drop_last() =~= lines@.take(i as int));
        assert(lines@.take(i as int + 1).last() == lines@[i as int]);
        i = i + 1;
    }
    assert(lines@.take(lines@.len() as int) =~= lines@);
    out
}

/// Maps a repository error onto the pipeline's diff-stage failure.
fn repository_error(e: git2::Error) -> (r: PipelineError)
    ensures
        r is RepositoryAccessError,
{
    PipelineError::RepositoryAccessError(git::error_message(&e))
}

/// Computes the unified diff between the repository's index and its
/// working tree, rendered as patch text.
///
/// An empty working tree change set yields `Ok` with the empty string:
/// an empty diff is a valid result, not an error.  Every failure to
/// read the index or compute the diff is a `RepositoryAccessError`.
pub fn extract_diff(repo: &git2::Repository) -> (r: Result<String, PipelineError>)
    ensures
        r matches Err(e) ==> e is RepositoryAccessError,
{
    let index = match git::repo_index(repo) {
        Ok(index) => index,
        Err(e) => { return Err(repository_error(e)); },
    };
    let diff = match git::diff_index_to_workdir(repo, &index) {
        Ok(diff) => diff,
        Err(e) => { return Err(repository_error(e)); },
    };
    let lines = match git::diff_patch_lines(&diff) {
        Ok(lines) => lines,
        Err(e) => { return Err(repository_error(e)); },
    };
    Ok(render_diff(&lines))
}

} // verus!
