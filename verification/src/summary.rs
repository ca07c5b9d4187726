//! The two ends of a summarization request: the prompt that goes out, and
//! the text that is taken from the answer.
//!
//! The answer is a JSON document; the summary is the string under
//! `content[0].text`, in which each backslash followed by `n` stands for a
//! line feed.

use vstd::prelude::*;
use vstd::string::*;

use crate::json::{
    as_text, element, element_of, json_tree, member, member_of, parse_json, parsed_json, JsonTree,
};
use crate::text::{replace_all, replaced};

verus! {

/// Why no summary could be taken from an answer.
#[derive(Clone, Copy, Debug, PartialEq, Eq, Structural)]
pub enum SummaryError {
    /// The answer is not a JSON document.
    InvalidJson,
    /// The document has no string under `content[0].text`.
    MissingText,
}

/// The prompt for a transcript: the template, an empty line, the transcript.
pub open spec fn prompt_text(template: Seq<char>, transcript: Seq<char>) -> Seq<char> {
    template + seq!['\n', '\n'] + transcript
}

/// A text in which every backslash followed by `n` has become a line feed.
pub open spec fn with_line_feeds(text: Seq<char>) -> Seq<char> {
    replaced(text, seq!['\\', 'n'], seq!['\n'])
}

/// The summary that a document carries.
pub open spec fn document_summary(document: JsonTree) -> Result<Seq<char>, SummaryError> {
    match member_of(element_of(member_of(document, "content"@), 0), "text"@) {
        JsonTree::Text(text) => Ok(with_line_feeds(text)),
        _ => Err(SummaryError::MissingText),
    }
}

/// The summary that an answer carries.
pub open spec fn answer_summary(answer: Seq<char>) -> Result<Seq<char>, SummaryError> {
    match parsed_json(answer) {
        None => Err(SummaryError::InvalidJson),
        Some(document) => document_summary(document),
    }
}

/// The mathematical value of the outcome of an extraction.
pub open spec fn summary_outcome(outcome: Result<String, SummaryError>) -> Result<
    Seq<char>,
    SummaryError,
> {
    match outcome {
        Ok(text) => Ok(text@),
        Err(error) => Err(error),
    }
}

/// Puts a transcript behind the prompt template, with an empty line between
/// the two.
pub fn compose_prompt(template: &str, transcript: &str) -> (prompt: String)
    ensures
        prompt@ == prompt_text(template@, transcript@),
{
    proof {
        reveal_strlit("\n\n");
    }
    let mut prompt = template.to_owned();
    prompt.append("\n\n");
    prompt.append(transcript);
    assert(prompt@ =~= prompt_text(template@, transcript@));
    prompt
}

/// Takes the summary from a parsed answer.
pub fn summary_from_document(document: &serde_json::Value) -> (outcome: Result<
    String,
    SummaryError,
>)
    ensures
        summary_outcome(outcome) == document_summary(json_tree(*document)),
{
    match as_text(member(element(member(document, "content"), 0), "text")) {
        None => Err(SummaryError::MissingText),
        Some(text) => {
            proof {
                reveal_strlit("\\n");
                reveal_strlit("\n");
                assert("\\n"@ =~= seq!['\\', 'n']);
                assert("\n"@ =~= seq!['\n']);
            }
            Ok(replace_all(text, "\\n", "\n"))
        },
    }
}

/// Takes the summary from the answer to a summarization request.
pub fn extract_summary(answer: &str) -> (outcome: Result<String, SummaryError>)
    ensures
        summary_outcome(outcome) == answer_summary(answer@),
{
    match parse_json(answer) {
        Err(_) => Err(SummaryError::InvalidJson),
        Ok(document) => summary_from_document(&document),
    }
}

} // verus!
