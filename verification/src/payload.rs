//! The result payload of a transcription job: a JSON document whose
//! `results.items` is the ordered list of token events.
//!
//! Each item has a `type`, which is `pronunciation` for a word and
//! `punctuation` for a punctuation mark; its text is the `content` of the
//! first of its `alternatives`; a word also has a `speaker_label`. Items of
//! any other type are passed over. An item that lacks one of its mandatory
//! fields makes the whole payload malformed.

use vstd::prelude::*;

use crate::json::{
    as_array, as_text, element, element_of, json_tree, member, member_of, parse_json,
    parsed_json, JsonTree,
};
use crate::runs::{
    lemma_plain_transcript_line_count, lemma_punctuation_alone_is_silent, lemma_tidy_transcript,
    line_feed_count, line_texts, plain_token, run_count, speaker_labels, spoken, tidy_token,
};
use crate::text::str_eq;
use crate::transcript::{
    lemma_merged_tracks, merged, render_transcript, step, transcript_lines, transcript_text,
    EventModel, Reconstructor,
};

verus! {

/// Why a payload could not be turned into a transcript. Where one item is at
/// fault, `index` is its position in `results.items`.
#[derive(Clone, Copy, Debug, PartialEq, Eq, Structural)]
pub enum ParseError {
    /// The payload is not a JSON document.
    InvalidJson,
    /// The document has no array under `results.items`.
    MissingItems,
    /// An item has no `type` that is a string.
    MissingType { index: usize },
    /// A word has no `alternatives[0].content` that is a string.
    MissingWordContent { index: usize },
    /// A word has no `speaker_label` that is a string and not empty.
    MissingSpeakerLabel { index: usize },
    /// A punctuation mark has no `alternatives[0].content` that is a string.
    MissingPunctuationContent { index: usize },
}

impl ParseError {
    /// The text of the message for this error.
    pub open spec fn message_text(self) -> Seq<char> {
        match self {
            ParseError::InvalidJson => "Failed to parse JSON"@,
            ParseError::MissingItems => "Missing 'results.items' data"@,
            ParseError::MissingType { index } => "Missing 'type' data"@,
            ParseError::MissingWordContent { index } => "Missing pronunciation content data"@,
            ParseError::MissingSpeakerLabel { index } => "Missing 'speaker_label' data"@,
            ParseError::MissingPunctuationContent { index } => "Missing punctuation content data"@,
        }
    }

    /// The item at fault, where the error is about one item.
    pub open spec fn item_index(self) -> Option<usize> {
        match self {
            ParseError::InvalidJson => None,
            ParseError::MissingItems => None,
            ParseError::MissingType { index } => Some(index),
            ParseError::MissingWordContent { index } => Some(index),
            ParseError::MissingSpeakerLabel { index } => Some(index),
            ParseError::MissingPunctuationContent { index } => Some(index),
        }
    }

    /// A short message that names the field at fault.
    pub fn message(&self) -> (text: &'static str)
        ensures
            text@ == self.message_text(),
    {
        match self {
            ParseError::InvalidJson => "Failed to parse JSON",
            ParseError::MissingItems => "Missing 'results.items' data",
            ParseError::MissingType { index } => "Missing 'type' data",
            ParseError::MissingWordContent { index } => "Missing pronunciation content data",
            ParseError::MissingSpeakerLabel { index } => "Missing 'speaker_label' data",
            ParseError::MissingPunctuationContent { index } => "Missing punctuation content data",
        }
    }

    /// The position in `results.items` of the item at fault, if the error is
    /// about one item.
    pub fn index(&self) -> (position: Option<usize>)
        ensures
            position == self.item_index(),
    {
        match self {
            ParseError::InvalidJson => None,
            ParseError::MissingItems => None,
            ParseError::MissingType { index } => Some(*index),
            ParseError::MissingWordContent { index } => Some(*index),
            ParseError::MissingSpeakerLabel { index } => Some(*index),
            ParseError::MissingPunctuationContent { index } => Some(*index),
        }
    }
}

/// The token list of a document: the elements of the array under
/// `results.items`, or `None` where there is no such array.
pub open spec fn items_of(document: JsonTree) -> Option<Seq<JsonTree>> {
    match member_of(member_of(document, "results"@), "items"@) {
        JsonTree::Array(items) => Some(items),
        _ => None,
    }
}

/// What stands under `alternatives[0].content` of an item.
pub open spec fn content_of(item: JsonTree) -> JsonTree {
    member_of(element_of(member_of(item, "alternatives"@), 0), "content"@)
}

/// What the item at position `index` stands for: an event, nothing where its
/// type is neither of the two known ones, or the error that it is rejected
/// with. Of a word the content is looked at before the speaker label.
pub open spec fn decoded_item(item: JsonTree, index: usize) -> Result<
    Option<EventModel>,
    ParseError,
> {
    match member_of(item, "type"@) {
        JsonTree::Text(kind) => if kind == "pronunciation"@ {
            match content_of(item) {
                JsonTree::Text(text) => match member_of(item, "speaker_label"@) {
                    JsonTree::Text(speaker_label) => if speaker_label.len() > 0 {
                        Ok(Some(EventModel::Word { text, speaker_label }))
                    } else {
                        Err(ParseError::MissingSpeakerLabel { index })
                    },
                    _ => Err(ParseError::MissingSpeakerLabel { index }),
                },
                _ => Err(ParseError::MissingWordContent { index }),
            }
        } else if kind == "punctuation"@ {
            match content_of(item) {
                JsonTree::Text(text) => Ok(Some(EventModel::Punctuation { text })),
                _ => Err(ParseError::MissingPunctuationContent { index }),
            }
        } else {
            Ok(None)
        },
        _ => Err(ParseError::MissingType { index }),
    }
}

/// The events that a token list stands for, in order, or the error of the
/// first item that is rejected.
pub open spec fn decoded_events(items: Seq<JsonTree>) -> Result<Seq<EventModel>, ParseError>
    decreases items.len(),
{
    if items.len() == 0 {
        Ok(Seq::empty())
    } else {
        match decoded_events(items.drop_last()) {
            Err(error) => Err(error),
            Ok(events) => match decoded_item(items.last(), (items.len() - 1) as usize) {
                Err(error) => Err(error),
                Ok(Some(event)) => Ok(events.push(event)),
                Ok(None) => Ok(events),
            },
        }
    }
}

/// The transcript of a document, or the error that it is rejected with.
pub open spec fn document_transcript(document: JsonTree) -> Result<Seq<char>, ParseError> {
    match items_of(document) {
        None => Err(ParseError::MissingItems),
        Some(items) => match decoded_events(items) {
            Err(error) => Err(error),
            Ok(events) => Ok(transcript_text(events)),
        },
    }
}

/// The transcript of a payload, or the error that it is rejected with.
pub open spec fn payload_transcript(payload: Seq<char>) -> Result<Seq<char>, ParseError> {
    match parsed_json(payload) {
        None => Err(ParseError::InvalidJson),
        Some(document) => document_transcript(document),
    }
}

/// The mathematical value of a conversion's outcome.
pub open spec fn outcome_text(outcome: Result<String, ParseError>) -> Result<
    Seq<char>,
    ParseError,
> {
    match outcome {
        Ok(text) => Ok(text@),
        Err(error) => Err(error),
    }
}

/// An item that is rejected makes every longer token list rejected, with the
/// same error.
pub proof fn lemma_first_error_stands(items: Seq<JsonTree>, seen: int)
    requires
        0 <= seen <= items.len(),
        decoded_events(items.take(seen)) is Err,
    ensures
        decoded_events(items) == decoded_events(items.take(seen)),
    decreases items.len() - seen,
{
    if seen == items.len() {
        assert(items.take(seen) == items);
    } else {
        assert(items.take(seen + 1).drop_last() == items.take(seen));
        lemma_first_error_stands(items, seen + 1);
    }
}

/// Every event that a token list stands for is well formed: each word names
/// its speaker.
pub proof fn lemma_decoded_events_are_well_formed(items: Seq<JsonTree>)
    ensures
        decoded_events(items) matches Ok(events) ==> forall|i: int|
            0 <= i < events.len() ==> (#[trigger] events[i]).well_formed(),
    decreases items.len(),
{
    if items.len() > 0 {
        lemma_decoded_events_are_well_formed(items.drop_last());
    }
}

/// A document with an empty token list has an empty transcript.
pub proof fn lemma_empty_token_list_is_accepted(document: JsonTree)
    requires
        items_of(document) == Some(Seq::<JsonTree>::empty()),
    ensures
        document_transcript(document) == Ok::<Seq<char>, ParseError>(Seq::empty()),
{
    lemma_punctuation_alone_is_silent(Seq::<EventModel>::empty());
    assert(transcript_text(Seq::<EventModel>::empty()) =~= Seq::<char>::empty());
}

/// A token list of punctuation marks stands for as many punctuation events.
proof fn lemma_punctuation_is_decoded(items: Seq<JsonTree>)
    requires
        forall|i: int|
            0 <= i < items.len() ==> member_of(#[trigger] items[i], "type"@) == JsonTree::Text(
                "punctuation"@,
            ) && content_of(items[i]) is Text,
    ensures
        decoded_events(items) is Ok,
        forall|i: int|
            0 <= i < decoded_events(items)->Ok_0.len() ==> (#[trigger] decoded_events(
                items,
            )->Ok_0[i]) is Punctuation,
    decreases items.len(),
{
    if items.len() > 0 {
        let before = items.drop_last();
        assert forall|i: int| 0 <= i < before.len() implies member_of(
            #[trigger] before[i],
            "type"@,
        ) == JsonTree::Text("punctuation"@) && content_of(before[i]) is Text by {
            assert(before[i] == items[i]);
        }
        lemma_punctuation_is_decoded(before);
        assert(member_of(items[items.len() - 1], "type"@) == JsonTree::Text("punctuation"@));
        reveal_strlit("punctuation");
        reveal_strlit("pronunciation");
        assert("punctuation"@.len() != "pronunciation"@.len());
    }
}

/// Punctuation that no word precedes is no error: a document whose tokens
/// are all punctuation marks is accepted, and its transcript is empty.
pub proof fn lemma_punctuation_alone_is_accepted(document: JsonTree, items: Seq<JsonTree>)
    requires
        items_of(document) == Some(items),
        forall|i: int|
            0 <= i < items.len() ==> member_of(#[trigger] items[i], "type"@) == JsonTree::Text(
                "punctuation"@,
            ) && content_of(items[i]) is Text,
    ensures
        document_transcript(document) == Ok::<Seq<char>, ParseError>(Seq::empty()),
{
    lemma_punctuation_is_decoded(items);
    let events = decoded_events(items)->Ok_0;
    lemma_punctuation_alone_is_silent(events);
    assert(transcript_text(events) =~= Seq::<char>::empty());
}

/// A word without a speaker label makes the document malformed, wherever in
/// the token list it stands.
pub proof fn lemma_word_without_speaker_is_rejected(
    document: JsonTree,
    items: Seq<JsonTree>,
    index: int,
)
    requires
        items_of(document) == Some(items),
        0 <= index < items.len(),
        member_of(items[index], "type"@) == JsonTree::Text("pronunciation"@),
        !(member_of(items[index], "speaker_label"@) is Text),
    ensures
        document_transcript(document) is Err,
{
    assert(items.take(index + 1).drop_last() == items.take(index));
    assert(items.take(index + 1).last() == items[index]);
    assert(decoded_item(items[index], index as usize) is Err);
    lemma_first_error_stands(items, index + 1);
}

/// A payload whose tokens are plain is turned into a transcript that has
/// exactly one line for each maximal same-speaker run of its words, and the
/// texts of whose lines, one after the other, hold the tokens in order.
pub proof fn lemma_payload_lines_are_runs(
    payload: Seq<char>,
    document: JsonTree,
    items: Seq<JsonTree>,
    events: Seq<EventModel>,
)
    requires
        parsed_json(payload) == Some(document),
        items_of(document) == Some(items),
        decoded_events(items) == Ok::<Seq<EventModel>, ParseError>(events),
        forall|i: int| 0 <= i < events.len() ==> plain_token(#[trigger] events[i]),
    ensures
        payload_transcript(payload) == Ok::<Seq<char>, ParseError>(transcript_text(events)),
        line_feed_count(transcript_text(events)) == run_count(speaker_labels(events)),
        transcript_lines(events).len() == run_count(speaker_labels(events)),
        line_texts(transcript_lines(events)) == spoken(events),
{
    assert forall|i: int| 0 <= i < events.len() implies tidy_token(#[trigger] events[i]) by {
        assert(plain_token(events[i]));
    }
    lemma_tidy_transcript(events);
    lemma_plain_transcript_line_count(events);
}

/// Two conversions of the same payload give the same outcome: the same text
/// character for character, or the same error.
pub proof fn lemma_conversion_is_repeatable(
    payload: Seq<char>,
    first: Result<String, ParseError>,
    second: Result<String, ParseError>,
)
    requires
        outcome_text(first) == payload_transcript(payload),
        outcome_text(second) == payload_transcript(payload),
    ensures
        outcome_text(first) == outcome_text(second),
        first is Ok ==> second is Ok && first->Ok_0@ == second->Ok_0@,
        first is Err ==> second is Err && first->Err_0 == second->Err_0,
{
}

/// Decodes one item and hands what it stands for to a reconstruction.
fn feed_item(state: &mut Reconstructor, item: &serde_json::Value, index: usize) -> (outcome: Result<
    (),
    ParseError,
>)
    ensures
        match decoded_item(json_tree(*item), index) {
            Err(error) => outcome == Err::<(), ParseError>(error),
            Ok(None) => outcome is Ok && final(state)@ == old(state)@,
            Ok(Some(event)) => outcome is Ok && final(state)@ == step(old(state)@, event),
        },
{
    match as_text(member(item, "type")) {
        None => Err(ParseError::MissingType { index }),
        Some(kind) => {
            if str_eq(kind, "pronunciation") {
                match as_text(member(element(member(item, "alternatives"), 0), "content")) {
                    None => Err(ParseError::MissingWordContent { index }),
                    Some(text) => match as_text(member(item, "speaker_label")) {
                        None => Err(ParseError::MissingSpeakerLabel { index }),
                        Some(speaker_label) => {
                            if speaker_label.is_empty() {
                                Err(ParseError::MissingSpeakerLabel { index })
                            } else {
                                state.word(text, speaker_label);
                                Ok(())
                            }
                        },
                    },
                }
            } else if str_eq(kind, "punctuation") {
                match as_text(member(element(member(item, "alternatives"), 0), "content")) {
                    None => Err(ParseError::MissingPunctuationContent { index }),
                    Some(text) => {
                        state.punctuation(text);
                        Ok(())
                    },
                }
            } else {
                Ok(())
            }
        },
    }
}

/// The transcript of a parsed document: one pass over `results.items`, in
/// order, stopping at the first item that is rejected.
pub fn transcript_from_document(document: &serde_json::Value) -> (outcome: Result<
    String,
    ParseError,
>)
    ensures
        outcome_text(outcome) == document_transcript(json_tree(*document)),
{
    let items = match as_array(member(member(document, "results"), "items")) {
        None => {
            return Err(ParseError::MissingItems);
        },
        Some(items) => items,
    };
    let ghost trees = items@.map_values(|item: serde_json::Value| json_tree(item));
    let ghost mut events: Seq<EventModel> = Seq::empty();
    let mut state = Reconstructor::new();
    let mut index: usize = 0;
    assert(trees.take(0) == Seq::<JsonTree>::empty());
    while index < items.len()
        invariant
            index <= items.len(),
            trees == items@.map_values(|item: serde_json::Value| json_tree(item)),
            items_of(json_tree(*document)) == Some(trees),
            decoded_events(trees.take(index as int)) == Ok::<Seq<EventModel>, ParseError>(events),
            state@ == merged(events),
        decreases items.len() - index,
    {
        let fed = feed_item(&mut state, &items[index], index);
        proof {
            assert(trees.take(index + 1).drop_last() == trees.take(index as int));
            assert(trees.take(index + 1).last() == json_tree(items@[index as int]));
        }
        match fed {
            Err(error) => {
                proof {
                    lemma_first_error_stands(trees, index + 1);
                }
                return Err(error);
            },
            Ok(_) => {
                proof {
                    match decoded_item(json_tree(items@[index as int]), index) {
                        Ok(Some(event)) => {
                            assert(events.push(event).drop_last() == events);
                            events = events.push(event);
                        },
                        _ => {},
                    }
                }
            },
        }
        index += 1;
    }
    proof {
        assert(trees.take(index as int) == trees);
        lemma_merged_tracks(events);
    }
    Ok(render_transcript(&state.finish()))
}

/// Turns the result payload of a completed job into the transcript: one
/// line `speaker: text` for each run of one speaker, in document order.
///
/// The payload is rejected where it is not JSON, where `results.items` is
/// not an array, and where an item lacks a mandatory field; an empty token
/// list gives an empty transcript.
pub fn convert_transcribe_json(json_string: &str) -> (outcome: Result<String, ParseError>)
    ensures
        outcome_text(outcome) == payload_transcript(json_string@),
{
    match parse_json(json_string) {
        Err(_) => Err(ParseError::InvalidJson),
        Ok(document) => transcript_from_document(&document),
    }
}

} // verus!
