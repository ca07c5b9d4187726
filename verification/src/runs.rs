//! What the lines of a transcript are, stated without the running state of
//! the reconstruction: how many there are, and which text they carry.

use vstd::prelude::*;

use crate::text::{
    lemma_leading_space, lemma_trailing_space, trimmed, white_space, without_leading_space,
};
use crate::transcript::{
    emitted, extend_runs, has_text, lemma_emitted_push, rendered, rendered_line, runs,
    transcript_lines, transcript_text, trim_line, EventModel, LineModel,
};

verus! {

/// Whether an event is a word.
pub open spec fn is_word() -> spec_fn(EventModel) -> bool {
    |event: EventModel| event is Word
}

/// The speaker labels of the words of a stream, in order.
pub open spec fn speaker_labels(events: Seq<EventModel>) -> Seq<Seq<char>> {
    events.filter(is_word()).map_values(|event: EventModel| event->speaker_label)
}

/// The number of maximal runs of equal neighbours in a sequence of labels:
/// one for the first label, and one more for each label that differs from
/// the one before it.
pub open spec fn run_count(labels: Seq<Seq<char>>) -> nat
    decreases labels.len(),
{
    if labels.len() == 0 {
        0
    } else if labels.len() == 1 {
        1
    } else if labels.last() != labels[labels.len() - 2] {
        run_count(labels.drop_last()) + 1
    } else {
        run_count(labels.drop_last())
    }
}

/// What one token adds to the spoken text, given the tokens before it: a
/// word that continues the run of its speaker comes after a single space, a
/// word that opens a run comes as it is, and so does punctuation, unless no
/// word precedes it.
pub open spec fn spoken_piece(before: Seq<EventModel>, event: EventModel) -> Seq<char> {
    let labels = speaker_labels(before);
    match event {
        EventModel::Punctuation { text } => if labels.len() == 0 {
            Seq::empty()
        } else {
            text
        },
        EventModel::Word { text, speaker_label } => if labels.len() > 0 && labels.last()
            == speaker_label {
            seq![' '] + text
        } else {
            text
        },
    }
}

/// The tokens of a stream written one after the other, token by token.
pub open spec fn spoken(events: Seq<EventModel>) -> Seq<char>
    decreases events.len(),
{
    if events.len() == 0 {
        Seq::empty()
    } else {
        spoken(events.drop_last()) + spoken_piece(events.drop_last(), events.last())
    }
}

/// The texts of a sequence of lines, one after the other, without the
/// speaker labels.
pub open spec fn line_texts(lines: Seq<LineModel>) -> Seq<char> {
    lines.map_values(|line: LineModel| line.text).flatten()
}

/// Whether every run of a stream has text, and text that has no white space
/// at either end.
pub open spec fn runs_are_clean(events: Seq<EventModel>) -> bool {
    forall|k: int|
        0 <= k < runs(events).len() ==> {
            &&& (#[trigger] runs(events)[k]).text.len() > 0
            &&& trimmed(runs(events)[k].text) == runs(events)[k].text
        }
}

/// Whether a token is free of white space where it could end up at the edge
/// of a line: a word has text that neither begins nor ends with white space,
/// and punctuation does not end with it.
pub open spec fn tidy_token(event: EventModel) -> bool {
    match event {
        EventModel::Word { text, speaker_label } => {
            &&& text.len() > 0
            &&& !white_space(text.first())
            &&& !white_space(text.last())
        },
        EventModel::Punctuation { text } => text.len() > 0 ==> !white_space(text.last()),
    }
}

/// The speaker labels after one more event.
pub proof fn lemma_speaker_labels_push(events: Seq<EventModel>, event: EventModel)
    ensures
        speaker_labels(events.push(event)) == match event {
            EventModel::Word { text, speaker_label } => speaker_labels(events).push(speaker_label),
            EventModel::Punctuation { text } => speaker_labels(events),
        },
{
    events.lemma_filter_push(event, is_word());
    let label = |event: EventModel| event->speaker_label;
    if event is Word {
        assert(events.filter(is_word()).push(event).map_values(label) =~= events.filter(
            is_word(),
        ).map_values(label).push(event->speaker_label));
    }
}

/// The runs of a stream are the maximal same-speaker runs of its words: there
/// are as many as the speaker labels have runs, none before the first word,
/// and the last one belongs to the speaker of the last word.
pub proof fn lemma_runs_follow_speakers(events: Seq<EventModel>)
    ensures
        runs(events).len() == run_count(speaker_labels(events)),
        runs(events).len() == 0 <==> speaker_labels(events).len() == 0,
        runs(events).len() > 0 ==> runs(events).last().speaker_label == speaker_labels(
            events,
        ).last(),
    decreases events.len(),
{
    if events.len() == 0 {
        reveal(Seq::filter);
        assert(speaker_labels(events) =~= Seq::<Seq<char>>::empty());
    } else {
        let before = events.drop_last();
        lemma_runs_follow_speakers(before);
        assert(events == before.push(events.last()));
        lemma_speaker_labels_push(before, events.last());
        match events.last() {
            EventModel::Word { text, speaker_label } => {
                let labels = speaker_labels(events);
                assert(labels.drop_last() == speaker_labels(before));
                if speaker_labels(before).len() > 0 {
                    assert(labels[labels.len() - 2] == speaker_labels(before).last());
                }
            },
            EventModel::Punctuation { text } => {},
        }
    }
}

/// The texts of pushed runs: those of the runs before, then that of the new
/// run.
pub proof fn lemma_line_texts_push(lines: Seq<LineModel>, line: LineModel)
    ensures
        line_texts(lines.push(line)) == line_texts(lines) + line.text,
{
    let text = |line: LineModel| line.text;
    assert(lines.push(line).map_values(text) =~= lines.map_values(text).push(line.text));
    lines.map_values(text).lemma_flatten_push(line.text);
}

/// The texts of the runs of a stream, one after the other, are its tokens in
/// order: every word once, a single space before a word that continues a
/// run, and each punctuation mark directly behind what precedes it.
pub proof fn lemma_runs_carry_tokens(events: Seq<EventModel>)
    ensures
        line_texts(runs(events)) == spoken(events),
    decreases events.len(),
{
    if events.len() == 0 {
        assert(runs(events).map_values(|line: LineModel| line.text) =~= Seq::<
            Seq<char>,
        >::empty());
    } else {
        let before = events.drop_last();
        let earlier = runs(before);
        lemma_runs_carry_tokens(before);
        lemma_runs_follow_speakers(before);
        let next = extend_runs(earlier, events.last());
        if next.len() == earlier.len() && earlier.len() > 0 {
            assert(earlier == earlier.drop_last().push(earlier.last()));
            lemma_line_texts_push(earlier.drop_last(), earlier.last());
            lemma_line_texts_push(earlier.drop_last(), next.last());
            assert(next == earlier.drop_last().push(next.last()));
            assert(line_texts(next) =~= line_texts(earlier) + spoken_piece(before, events.last()));
        } else if next.len() > earlier.len() {
            lemma_line_texts_push(earlier, next.last());
        } else {
            assert(line_texts(next) =~= line_texts(earlier) + spoken_piece(before, events.last()));
        }
    }
}

/// Runs that all have text which trimming leaves as it is become lines
/// unchanged.
pub proof fn lemma_clean_runs_are_lines(runs: Seq<LineModel>)
    requires
        forall|k: int|
            0 <= k < runs.len() ==> (#[trigger] runs[k]).text.len() > 0 && trimmed(runs[k].text)
                == runs[k].text,
    ensures
        emitted(runs) == runs,
    decreases runs.len(),
{
    if runs.len() == 0 {
        reveal(Seq::filter);
        assert(emitted(runs) =~= runs);
    } else {
        lemma_clean_runs_are_lines(runs.drop_last());
        assert(runs == runs.drop_last().push(runs.last()));
        lemma_emitted_push(runs.drop_last(), runs.last());
        assert(trim_line()(runs.last()) == runs.last());
    }
}

/// Runs that all have text become as many lines.
pub proof fn lemma_runs_with_text_are_kept(runs: Seq<LineModel>)
    requires
        forall|k: int| 0 <= k < runs.len() ==> (#[trigger] runs[k]).text.len() > 0,
    ensures
        emitted(runs).len() == runs.len(),
    decreases runs.len(),
{
    if runs.len() == 0 {
        reveal(Seq::filter);
    } else {
        lemma_runs_with_text_are_kept(runs.drop_last());
        assert(runs == runs.drop_last().push(runs.last()));
        lemma_emitted_push(runs.drop_last(), runs.last());
    }
}

/// Runs whose texts trimming leaves as they are become lines with the same
/// texts, one after the other: a run without text adds nothing to either.
pub proof fn lemma_untrimmed_runs_keep_their_texts(runs: Seq<LineModel>)
    requires
        forall|k: int| 0 <= k < runs.len() ==> trimmed((#[trigger] runs[k]).text) == runs[k].text,
    ensures
        line_texts(emitted(runs)) == line_texts(runs),
    decreases runs.len(),
{
    if runs.len() == 0 {
        reveal(Seq::filter);
        assert(emitted(runs) =~= runs);
    } else {
        lemma_untrimmed_runs_keep_their_texts(runs.drop_last());
        assert(runs == runs.drop_last().push(runs.last()));
        lemma_emitted_push(runs.drop_last(), runs.last());
        lemma_line_texts_push(runs.drop_last(), runs.last());
        if runs.last().text.len() > 0 {
            lemma_line_texts_push(emitted(runs.drop_last()), trim_line()(runs.last()));
        } else {
            assert(line_texts(runs.drop_last()) + runs.last().text =~= line_texts(
                runs.drop_last(),
            ));
        }
    }
}

/// Where every run of a stream has text, the transcript has exactly one line
/// for each maximal same-speaker run of words.
pub proof fn lemma_line_count(events: Seq<EventModel>)
    requires
        forall|k: int| 0 <= k < runs(events).len() ==> (#[trigger] runs(events)[k]).text.len() > 0,
    ensures
        transcript_lines(events).len() == run_count(speaker_labels(events)),
{
    lemma_runs_with_text_are_kept(runs(events));
    lemma_runs_follow_speakers(events);
}

/// Where trimming leaves the text of every run of a stream as it is, the
/// texts of the lines of the transcript, one after the other, hold every
/// word once and in order, a single space before each word that continues a
/// run, and each punctuation mark directly behind the word before it.
pub proof fn lemma_line_texts(events: Seq<EventModel>)
    requires
        forall|k: int|
            0 <= k < runs(events).len() ==> trimmed((#[trigger] runs(events)[k]).text) == runs(
                events,
            )[k].text,
    ensures
        line_texts(transcript_lines(events)) == spoken(events),
{
    lemma_untrimmed_runs_keep_their_texts(runs(events));
    lemma_runs_carry_tokens(events);
}

/// No transcript has more lines than its stream has runs.
pub proof fn lemma_lines_bounded_by_runs(events: Seq<EventModel>)
    ensures
        transcript_lines(events).len() <= run_count(speaker_labels(events)),
{
    lemma_runs_follow_speakers(events);
    runs(events).lemma_filter_len(has_text());
}

/// Where every run of a stream has text without white space at its ends, the
/// transcript has exactly one line for each maximal same-speaker run of
/// words, and the texts of its lines, one after the other, hold every word
/// once and in order, a single space before each word that continues a run,
/// and each punctuation mark directly behind the word before it.
pub proof fn lemma_lines_are_runs(events: Seq<EventModel>)
    requires
        runs_are_clean(events),
    ensures
        transcript_lines(events) == runs(events),
        transcript_lines(events).len() == run_count(speaker_labels(events)),
        line_texts(transcript_lines(events)) == spoken(events),
{
    lemma_clean_runs_are_lines(runs(events));
    lemma_runs_follow_speakers(events);
    lemma_runs_carry_tokens(events);
}

/// Text that is not empty and neither begins nor ends with white space is
/// left as it is by trimming.
pub proof fn lemma_trim_keeps_tidy_text(text: Seq<char>)
    requires
        text.len() > 0,
        !white_space(text.first()),
        !white_space(text.last()),
    ensures
        trimmed(text) == text,
{
    lemma_leading_space(text, 0);
    assert(text.subrange(0, text.len() as int) == text);
    assert(without_leading_space(text) == text);
    lemma_trailing_space(text, text.len() as int);
}

/// A stream of tidy tokens has clean runs: each begins with the first
/// character of a word and ends with the last character of a token.
pub proof fn lemma_tidy_tokens_give_clean_runs(events: Seq<EventModel>)
    requires
        forall|i: int| 0 <= i < events.len() ==> tidy_token(#[trigger] events[i]),
    ensures
        runs_are_clean(events),
        forall|k: int|
            0 <= k < runs(events).len() ==> {
                &&& !white_space((#[trigger] runs(events)[k]).text.first())
                &&& !white_space(runs(events)[k].text.last())
            },
    decreases events.len(),
{
    if events.len() > 0 {
        let before = events.drop_last();
        let earlier = runs(before);
        let next = runs(events);
        assert forall|i: int| 0 <= i < before.len() implies tidy_token(#[trigger] before[i]) by {
            assert(before[i] == events[i]);
        }
        lemma_tidy_tokens_give_clean_runs(before);
        assert(tidy_token(events[events.len() - 1]));
        assert forall|k: int| 0 <= k < next.len() implies {
            &&& (#[trigger] next[k]).text.len() > 0
            &&& trimmed(next[k].text) == next[k].text
            &&& !white_space(next[k].text.first())
            &&& !white_space(next[k].text.last())
        } by {
            if k < next.len() - 1 || next.len() == 0 || (events.last() is Punctuation
                && earlier.len() == 0) {
                assert(next[k] == earlier[k]);
            } else {
                if earlier.len() > 0 {
                    let open = earlier.last().text;
                    assert(open.len() > 0 && !white_space(open.first()) && !white_space(
                        open.last(),
                    ));
                }
                lemma_trim_keeps_tidy_text(next[k].text);
            }
        }
    }
}

/// A stream of tidy tokens gives one line for each maximal same-speaker run
/// of its words, and the texts of the lines hold its tokens in order.
pub proof fn lemma_tidy_transcript(events: Seq<EventModel>)
    requires
        forall|i: int| 0 <= i < events.len() ==> tidy_token(#[trigger] events[i]),
    ensures
        transcript_lines(events).len() == run_count(speaker_labels(events)),
        line_texts(transcript_lines(events)) == spoken(events),
{
    lemma_tidy_tokens_give_clean_runs(events);
    lemma_lines_are_runs(events);
}

/// Whether a character is the line feed.
pub open spec fn is_line_feed() -> spec_fn(char) -> bool {
    |c: char| c == '\n'
}

/// The number of line feeds in a text.
pub open spec fn line_feed_count(text: Seq<char>) -> nat {
    text.filter(is_line_feed()).len()
}

/// Whether a text holds no line feed.
pub open spec fn on_one_line(text: Seq<char>) -> bool {
    forall|i: int| 0 <= i < text.len() ==> #[trigger] text[i] != '\n'
}

/// Whether a token is tidy and holds no line feed, neither in its text nor
/// in its speaker label.
pub open spec fn plain_token(event: EventModel) -> bool {
    &&& tidy_token(event)
    &&& match event {
        EventModel::Word { text, speaker_label } => on_one_line(text) && on_one_line(speaker_label),
        EventModel::Punctuation { text } => on_one_line(text),
    }
}

/// A text without line feeds counts none.
pub proof fn lemma_one_line_counts_none(text: Seq<char>)
    requires
        on_one_line(text),
    ensures
        line_feed_count(text) == 0,
    decreases text.len(),
{
    reveal(Seq::filter);
    if text.len() > 0 {
        assert forall|i: int| 0 <= i < text.drop_last().len() implies #[trigger] text.drop_last()[i]
            != '\n' by {
            assert(text.drop_last()[i] == text[i]);
        }
        lemma_one_line_counts_none(text.drop_last());
        assert(text[text.len() - 1] != '\n');
    }
}

/// The line feeds of two texts add up when one is put behind the other.
pub proof fn lemma_line_feeds_add(left: Seq<char>, right: Seq<char>)
    ensures
        line_feed_count(left + right) == line_feed_count(left) + line_feed_count(right),
{
    Seq::filter_distributes_over_add(left, right, is_line_feed());
}

/// A line whose label and text hold no line feed is written out with
/// exactly one: the one that ends it.
pub proof fn lemma_rendered_line_has_one_line_feed(line: LineModel)
    requires
        on_one_line(line.speaker_label),
        on_one_line(line.text),
    ensures
        line_feed_count(rendered_line(line)) == 1,
{
    let separator = seq![':', ' '];
    let end = seq!['\n'];
    lemma_line_feeds_add(line.speaker_label + separator + line.text, end);
    lemma_line_feeds_add(line.speaker_label + separator, line.text);
    lemma_line_feeds_add(line.speaker_label, separator);
    lemma_one_line_counts_none(line.speaker_label);
    lemma_one_line_counts_none(line.text);
    lemma_one_line_counts_none(separator);
    reveal_with_fuel(Seq::filter, 2);
    assert(end.drop_last() =~= Seq::<char>::empty());
    assert(end.last() == '\n');
    assert(line_feed_count(end) == 1);
}

/// Lines whose labels and texts hold no line feed are written out as a text
/// with as many line feeds as there are lines.
pub proof fn lemma_rendered_line_feeds(lines: Seq<LineModel>)
    requires
        forall|k: int|
            0 <= k < lines.len() ==> on_one_line((#[trigger] lines[k]).speaker_label)
                && on_one_line(lines[k].text),
    ensures
        line_feed_count(rendered(lines)) == lines.len(),
    decreases lines.len(),
{
    let render = |line: LineModel| rendered_line(line);
    if lines.len() == 0 {
        reveal(Seq::filter);
        assert(rendered(lines) =~= Seq::<char>::empty());
    } else {
        let before = lines.drop_last();
        lemma_rendered_line_feeds(before);
        assert(lines.map_values(render) =~= before.map_values(render).push(
            rendered_line(lines.last()),
        ));
        before.map_values(render).lemma_flatten_push(rendered_line(lines.last()));
        lemma_line_feeds_add(rendered(before), rendered_line(lines.last()));
        lemma_rendered_line_has_one_line_feed(lines.last());
    }
}

/// The runs of a stream of plain tokens hold no line feed.
pub proof fn lemma_plain_tokens_give_plain_runs(events: Seq<EventModel>)
    requires
        forall|i: int| 0 <= i < events.len() ==> plain_token(#[trigger] events[i]),
    ensures
        forall|k: int|
            0 <= k < runs(events).len() ==> on_one_line(
                (#[trigger] runs(events)[k]).speaker_label,
            ) && on_one_line(runs(events)[k].text),
    decreases events.len(),
{
    if events.len() > 0 {
        let before = events.drop_last();
        let earlier = runs(before);
        let next = runs(events);
        assert forall|i: int| 0 <= i < before.len() implies plain_token(#[trigger] before[i]) by {
            assert(before[i] == events[i]);
        }
        lemma_plain_tokens_give_plain_runs(before);
        assert(plain_token(events[events.len() - 1]));
        assert forall|k: int| 0 <= k < next.len() implies on_one_line(
            (#[trigger] next[k]).speaker_label,
        ) && on_one_line(next[k].text) by {
            if k < next.len() - 1 || (events.last() is Punctuation && earlier.len() == 0) {
                assert(next[k] == earlier[k]);
            } else if earlier.len() > 0 {
                assert(on_one_line(earlier.last().text));
                assert(on_one_line(earlier.last().speaker_label));
            }
        }
    }
}

/// The transcript of a stream of plain tokens, as it is written out, has
/// exactly one line for each maximal same-speaker run of words.
pub proof fn lemma_plain_transcript_line_count(events: Seq<EventModel>)
    requires
        forall|i: int| 0 <= i < events.len() ==> plain_token(#[trigger] events[i]),
    ensures
        line_feed_count(transcript_text(events)) == run_count(speaker_labels(events)),
{
    assert forall|i: int| 0 <= i < events.len() implies tidy_token(#[trigger] events[i]) by {
        assert(plain_token(events[i]));
    }
    lemma_tidy_tokens_give_clean_runs(events);
    lemma_lines_are_runs(events);
    lemma_plain_tokens_give_plain_runs(events);
    lemma_rendered_line_feeds(transcript_lines(events));
}

/// A stream without any word has no run, and its transcript is empty.
pub proof fn lemma_punctuation_alone_is_silent(events: Seq<EventModel>)
    requires
        forall|i: int| 0 <= i < events.len() ==> (#[trigger] events[i]) is Punctuation,
    ensures
        runs(events).len() == 0,
        transcript_lines(events).len() == 0,
        transcript_text(events).len() == 0,
    decreases events.len(),
{
    if events.len() > 0 {
        let before = events.drop_last();
        assert forall|i: int| 0 <= i < before.len() implies (#[trigger] before[i])
            is Punctuation by {
            assert(before[i] == events[i]);
        }
        lemma_punctuation_alone_is_silent(before);
        assert(events[events.len() - 1] is Punctuation);
    }
    runs(events).lemma_filter_len(has_text());
    assert(rendered(transcript_lines(events)) =~= Seq::<char>::empty());
}

} // verus!
