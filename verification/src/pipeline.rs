//! The orchestrating state machine.
//!
//! One invocation walks `Idle → DiffComputed → MessageGenerated →
//! Committed`, or ends in `Failed` at the stage that broke.  The diff
//! and the commit run against the repository from here; the network
//! round trip is the one step the surrounding program performs, handing
//! its outcome back through [`Pipeline::absorb_generation`].  No stage
//! is ever retried, and no stage short-circuits: an empty diff still
//! produces a request, and an empty generated message is still
//! committed.

use vstd::prelude::*;
use crate::commit::commit_changes;
use crate::diff::extract_diff;
use crate::errors::PipelineError;
use crate::request::{build_prompt, build_request, prompt_text, GenerationRequest};
use crate::response::{extract_message, extracted_message, JsonValue};

verus! {

/// The stage at which a failed run broke.
pub enum Stage {
    Diff,
    Generate,
    Commit,
}

/// Where one invocation stands.
pub enum PipelineState {
    /// Nothing has run yet.
    Idle,
    /// The diff was rendered; it is carried here verbatim.
    DiffComputed(String),
    /// The service's reply was parsed down to a message, possibly empty.
    MessageGenerated(String),
    /// The commit was created; its identifier is carried here.
    Committed(String),
    /// The run broke at the given stage with the given cause; terminal.
    Failed(Stage, PipelineError),
}

/// One invocation of the diff → generate → commit sequence.
pub struct Pipeline {
    /// The model identifier sent with the generation request.
    pub model: String,
    /// Where the invocation stands.
    pub state: PipelineState,
}

impl Pipeline {
    /// A fresh pipeline for one invocation, configured with the model
    /// identifier to request generation from.
    pub fn new(model: String) -> (p: Pipeline)
        ensures
            p.model == model,
            p.state is Idle,
    {
        Pipeline { model, state: PipelineState::Idle }
    }

    /// Runs the diff stage: renders the index-to-working-tree diff and
    /// stores it, or fails at the diff stage with a repository error.
    /// An empty diff is stored like any other.
    pub fn compute_diff(&mut self, repo: &git2::Repository)
        requires
            old(self).state is Idle,
        ensures
            final(self).model == old(self).model,
            match final(self).state {
                PipelineState::DiffComputed(_) => true,
                PipelineState::Failed(stage, cause) => stage is Diff
                    && cause is RepositoryAccessError,
                _ => false,
            },
    {
        match extract_diff(repo) {
            Ok(diff) => { self.state = PipelineState::DiffComputed(diff); },
            Err(cause) => { self.state = PipelineState::Failed(Stage::Diff, cause); },
        }
    }

    /// The request to send to the generation service: present exactly
    /// when the diff has been computed, whatever the diff says — the
    /// empty diff is embedded like any other.  The request holds the
    /// configured model and one user-role message whose content is the
    /// fixed instruction followed by the stored diff.
    pub fn pending_request(&self) -> (r: Option<GenerationRequest>)
        ensures
            match self.state {
                PipelineState::DiffComputed(diff) => r matches Some(req) && req.model
                    == self.model && req.messages@.len() == 1 && req.messages@[0].role@
                    == "user"@ && req.messages@[0].content@ == prompt_text(diff@),
                _ => r is None,
            },
    {
        match &self.state {
            PipelineState::DiffComputed(diff) => {
                let prompt = build_prompt(diff.as_str());
                Some(build_request(prompt, self.model.clone()))
            },
            _ => None,
        }
    }

    /// Absorbs the outcome of the network round trip.
    ///
    /// A reply document yields the extracted message — the empty string
    /// when the document has an unexpected shape — and never fails.  A
    /// transport failure (connection, authentication, non-success
    /// status) fails the run at the generation stage, carrying the
    /// transport's own description; no commit is attempted afterwards.
    pub fn absorb_generation(&mut self, outcome: Result<JsonValue, String>)
        requires
            old(self).state is DiffComputed,
        ensures
            final(self).model == old(self).model,
            match outcome {
                Ok(doc) => final(self).state matches PipelineState::MessageGenerated(m)
                    && m@ == extracted_message(doc),
                Err(cause) => final(self).state matches PipelineState::Failed(stage, e)
                    && stage is Generate && (e matches PipelineError::GenerationError(t)
                    && t == cause),
            },
    {
        match outcome {
            Ok(doc) => {
                let message = extract_message(&doc);
                self.state = PipelineState::MessageGenerated(message);
            },
            Err(cause) => {
                self.state = PipelineState::Failed(
                    Stage::Generate,
                    PipelineError::GenerationError(cause),
                );
            },
        }
    }

    /// Runs the commit stage with the generated message — also when the
    /// message is empty — and stores the new commit's identifier, or
    /// fails at the commit stage with a commit-creation error.
    pub fn commit(&mut self, repo: &git2::Repository)
        requires
            old(self).state is MessageGenerated,
        ensures
            final(self).model == old(self).model,
            match final(self).state {
                PipelineState::Committed(_) => true,
                PipelineState::Failed(stage, cause) => stage is Commit
                    && cause is CommitCreationError,
                _ => false,
            },
    {
        let message = match &self.state {
            PipelineState::MessageGenerated(m) => m.clone(),
            _ => String::new(),
        };
        match commit_changes(repo, message.as_str()) {
            Ok(commit_id) => { self.state = PipelineState::Committed(commit_id); },
            Err(cause) => { self.state = PipelineState::Failed(Stage::Commit, cause); },
        }
    }
}

} // verus!
