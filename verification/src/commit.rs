//! Creation of the new commit.
//!
//! The commit's tree is the current index written as a tree object —
//! deliberately the staged content, not the working-tree edits the diff
//! was computed from.  Its sole parent is the commit HEAD points at; a
//! repository with no prior commit (an unborn HEAD) therefore fails
//! rather than producing a parentless commit.  On success HEAD advances
//! to the new commit.

use vstd::prelude::*;
use crate::errors::PipelineError;
use crate::git;

verus! {

/// Maps a repository error onto the pipeline's commit-stage failure.
fn commit_error(e: git2::Error) -> (r: PipelineError)
    ensures
        r is CommitCreationError,
{
    PipelineError::CommitCreationError(git::error_message(&e))
}

/// Writes a new commit carrying `message` onto the current branch tip
/// and returns the new commit's identifier in hexadecimal form.
///
/// The tree is the current index's written tree, the sole parent is the
/// commit HEAD resolves to, and author and committer both come from the
/// repository's configured signature.  Every failure — the index cannot
/// be written as a tree, HEAD cannot be resolved (an unborn branch), or
/// the object write fails — is a `CommitCreationError`; nothing else is
/// ever returned as an error.  The message is used as given, even when
/// it is empty.
pub fn commit_changes(repo: &git2::Repository, message: &str) -> (r: Result<
    String,
    PipelineError,
>)
    ensures
        r matches Err(e) ==> e is CommitCreationError,
{
    let mut index = match git::repo_index(repo) {
        Ok(index) => index,
        Err(e) => { return Err(commit_error(e)); },
    };
    let tree_id = match git::index_write_tree(&mut index) {
        Ok(tree_id) => tree_id,
        Err(e) => { return Err(commit_error(e)); },
    };
    let tree = match git::find_tree(repo, tree_id) {
        Ok(tree) => tree,
        Err(e) => { return Err(commit_error(e)); },
    };
    let head = match git::repo_head(repo) {
        Ok(head) => head,
        Err(e) => { return Err(commit_error(e)); },
    };
    let parent = match git::peel_to_commit(&head) {
        Ok(parent) => parent,
        Err(e) => { return Err(commit_error(e)); },
    };
    let signature = match git::repo_signature(repo) {
        Ok(signature) => signature,
        Err(e) => { return Err(commit_error(e)); },
    };
    let commit_id = match git::create_commit(repo, &signature, message, &tree, &parent) {
        Ok(commit_id) => commit_id,
        Err(e) => { return Err(commit_error(e)); },
    };
    Ok(git::oid_hex(&commit_id))
}

} // verus!
