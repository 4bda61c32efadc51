//! Construction of the prompt and the generation request.
//!
//! The prompt is a fixed instruction — one semantic commit message, at
//! most 100 characters, one of four prefixes, no mention of the diff —
//! with the diff text embedded verbatim at the end.  The request carries
//! a model identifier and exactly one user-role message holding that
//! prompt.

use vstd::prelude::*;
use vstd::string::*;

verus! {

/// The fixed instruction that precedes the embedded diff.
pub open spec fn prompt_head() -> Seq<char> {
    "Generate a semantic commit based on the following change diff, commit should not be more than 100 chars and prefixes are [feat:, chore:, refactor:, fix: ], do not mention change diff in your commit \n change diff: "@
}

/// The full prompt for a given diff: the fixed instruction followed by
/// the diff text, unmodified and untruncated.
pub open spec fn prompt_text(diff: Seq<char>) -> Seq<char> {
    prompt_head() + diff
}

/// The prompt embeds the diff verbatim at its end, whatever the diff
/// holds and however large it is — the empty diff included, for which
/// the prompt is the bare instruction.  Building a prompt never
/// truncates and never short-circuits on the diff's content.
pub proof fn lemma_prompt_embeds_diff(diff: Seq<char>)
    ensures
        prompt_text(diff).len() == prompt_head().len() + diff.len(),
        prompt_text(diff).skip(prompt_head().len() as int) == diff,
        prompt_text(diff).take(prompt_head().len() as int) == prompt_head(),
{
    assert(prompt_text(diff).skip(prompt_head().len() as int) =~= diff);
    assert(prompt_text(diff).take(prompt_head().len() as int) =~= prompt_head());
}

/// Builds the prompt for the given diff text.
///
/// The diff is embedded verbatim, however large; an empty diff yields
/// the bare instruction.
pub fn build_prompt(diff: &str) -> (r: String)
    ensures
        r@ == prompt_text(diff@),
{
    let mut out = String::from_str(
        "Generate a semantic commit based on the following change diff, commit should not be more than 100 chars and prefixes are [feat:, chore:, refactor:, fix: ], do not mention change diff in your commit \n change diff: ",
    );
    out.append(diff);
    out
}

/// One role/content pair of a generation request.
pub struct ChatMessage {
    pub role: String,
    pub content: String,
}

/// The payload sent to the remote generation service: a model
/// identifier and an ordered sequence of messages.
pub struct GenerationRequest {
    pub model: String,
    pub messages: Vec<ChatMessage>,
}

/// Builds the request for the given prompt: the given model identifier
/// and exactly one user-role message whose content is the prompt.
pub fn build_request(prompt: String, model: String) -> (r: GenerationRequest)
    ensures
        r.model == model,
        r.messages@.len() == 1,
        r.messages@[0].role@ == "user"@,
        r.messages@[0].content == prompt,
{
    let mut messages: Vec<ChatMessage> = Vec::new();
    messages.push(ChatMessage { role: String::from_str("user"), content: prompt });
    GenerationRequest { model, messages }
}

} // verus!
