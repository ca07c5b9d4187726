//! The documents in which a summary and its transcript are handed out.

use vstd::prelude::*;
use vstd::string::*;

use crate::text::{replace_all, replaced};

verus! {

/// The heading that stands between summary and transcript in a plain text.
pub open spec fn plain_heading() -> Seq<char> {
    "\n\nTranscription:\n"@
}

/// The plain text: the summary, the heading, the transcript.
pub open spec fn plain_report(summary: Seq<char>, transcript: Seq<char>) -> Seq<char> {
    summary + plain_heading() + transcript
}

/// The transcript part of a Markdown document: its heading and the
/// transcript, with a line feed in front of every `spk_`, so that each
/// speaker label begins a paragraph line of its own.
pub open spec fn markdown_transcript(transcript: Seq<char>) -> Seq<char> {
    replaced("\n\n# Transcription\n\n"@ + transcript, "spk_"@, "\nspk_"@)
}

/// The Markdown document: the summary under its heading, then the
/// transcript part.
pub open spec fn markdown_report(summary: Seq<char>, transcript: Seq<char>) -> Seq<char> {
    "# Summary\n\n"@ + summary + markdown_transcript(transcript)
}

/// Writes summary and transcript as one plain text.
pub fn plain_document(summary: &str, transcript: &str) -> (document: String)
    ensures
        document@ == plain_report(summary@, transcript@),
{
    let mut document = summary.to_owned();
    document.append("\n\nTranscription:\n");
    document.append(transcript);
    document
}

/// Writes summary and transcript as one Markdown document.
pub fn markdown_document(summary: &str, transcript: &str) -> (document: String)
    ensures
        document@ == markdown_report(summary@, transcript@),
{
    let mut body = "\n\n# Transcription\n\n".to_owned();
    body.append(transcript);
    proof {
        reveal_strlit("spk_");
    }
    let body = replace_all(body.as_str(), "spk_", "\nspk_");
    let mut document = "# Summary\n\n".to_owned();
    document.append(summary);
    document.append(body.as_str());
    document
}

} // verus!
