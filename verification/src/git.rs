//! Trusted declarations for the repository backend.
//!
//! Every call into the `git2` crate the library makes goes through one of
//! the wrappers below.  The wrapped operations read and write on-disk
//! repository state, so nothing about their results can be pinned down
//! here; each wrapper only converts between the crate's types and plain
//! values.

use vstd::prelude::*;
use crate::diff::DiffLine;

verus! {

#[verifier::external_type_specification]
#[verifier::external_body]
pub struct ExRepository(git2::Repository);

#[verifier::external_type_specification]
#[verifier::external_body]
pub struct ExGitError(git2::Error);

#[verifier::external_type_specification]
#[verifier::external_body]
pub struct ExIndex(git2::Index);

#[verifier::external_type_specification]
#[verifier::external_body]
pub struct ExDiff<'a>(git2::Diff<'a>);

#[verifier::external_type_specification]
#[verifier::external_body]
pub struct ExOid(git2::Oid);

#[verifier::external_type_specification]
#[verifier::external_body]
pub struct ExTree<'a>(git2::Tree<'a>);

#[verifier::external_type_specification]
#[verifier::external_body]
pub struct ExReference<'a>(git2::Reference<'a>);

#[verifier::external_type_specification]
#[verifier::external_body]
pub struct ExCommit<'a>(git2::Commit<'a>);

#[verifier::external_type_specification]
#[verifier::external_body]
pub struct ExSignature<'a>(git2::Signature<'a>);

/// Relies on git2::Repository::index: the repository's current index.
#[verifier::external_body]
pub(crate) fn repo_index(repo: &git2::Repository) -> (r: Result<git2::Index, git2::Error>) {
    repo.index()
}

/// Relies on git2::Repository::diff_index_to_workdir: the diff between
/// the given index and the live working tree, with default options.
#[verifier::external_body]
pub(crate) fn diff_index_to_workdir<'r>(repo: &'r git2::Repository, index: &git2::Index) -> (r:
    Result<git2::Diff<'r>, git2::Error>) {
    repo.diff_index_to_workdir(Some(index), None)
}

/// Relies on git2::Diff::print: walks the diff in patch format and hands
/// the callback every formatted line with its origin sigil and content
/// bytes, in file, hunk, line order.  Content that is not valid text is
/// carried as the empty string.
#[verifier::external_body]
pub(crate) fn diff_patch_lines(diff: &git2::Diff) -> (r: Result<Vec<DiffLine>, git2::Error>) {
    let mut lines: Vec<DiffLine> = Vec::new();
    diff.print(git2::DiffFormat::Patch, |_delta, _hunk, line| {
        let content = std::str::from_utf8(line.content()).unwrap_or_default().to_string();
        lines.push(DiffLine { origin: line.origin(), content });
        true
    })?;
    Ok(lines)
}

/// Relies on git2::Index::write_tree: writes the index as a tree object
/// and returns the tree's identifier.
#[verifier::external_body]
pub(crate) fn index_write_tree(index: &mut git2::Index) -> (r: Result<git2::Oid, git2::Error>) {
    index.write_tree()
}

/// Relies on git2::Repository::find_tree: looks the tree object up by
/// its identifier.
#[verifier::external_body]
pub(crate) fn find_tree<'r>(repo: &'r git2::Repository, oid: git2::Oid) -> (r: Result<
    git2::Tree<'r>,
    git2::Error,
>) {
    repo.find_tree(oid)
}

/// Relies on git2::Repository::head: the reference HEAD points at; fails
/// on an unborn branch.
#[verifier::external_body]
pub(crate) fn repo_head<'r>(repo: &'r git2::Repository) -> (r: Result<
    git2::Reference<'r>,
    git2::Error,
>) {
    repo.head()
}

/// Relies on git2::Reference::peel_to_commit: the commit the reference
/// ultimately points at.
#[verifier::external_body]
pub(crate) fn peel_to_commit<'r>(reference: &git2::Reference<'r>) -> (r: Result<
    git2::Commit<'r>,
    git2::Error,
>) {
    reference.peel_to_commit()
}

/// Relies on git2::Repository::signature: the default signature from the
/// repository's configuration.
#[verifier::external_body]
pub(crate) fn repo_signature(repo: &git2::Repository) -> (r: Result<
    git2::Signature<'static>,
    git2::Error,
>) {
    repo.signature()
}

/// Relies on git2::Repository::commit: creates a commit object with the
/// given signature as both author and committer, the given message, tree
/// and sole parent, and moves HEAD to it.
#[verifier::external_body]
pub(crate) fn create_commit(
    repo: &git2::Repository,
    signature: &git2::Signature,
    message: &str,
    tree: &git2::Tree,
    parent: &git2::Commit,
) -> (r: Result<git2::Oid, git2::Error>) {
    repo.commit(Some("HEAD"), signature, signature, message, tree, &[parent])
}

/// Relies on git2::Oid's hexadecimal rendering through Display.
#[verifier::external_body]
pub(crate) fn oid_hex(oid: &git2::Oid) -> (r: String) {
    oid.to_string()
}

/// Relies on git2::Error::message: the error's human-readable text.
#[verifier::external_body]
pub(crate) fn error_message(e: &git2::Error) -> (r: String) {
    e.message().to_string()
}

} // verus!
