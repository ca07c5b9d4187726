//! Reconstruction of a speaker-attributed transcript from a stream of token
//! events.
//!
//! Consecutive words of one speaker form a run. Punctuation binds to the run
//! that is open when it arrives; a word of the same speaker joins the run
//! after a single space; a word of another speaker closes the run and opens
//! the next one. A run whose text is not empty becomes one line of the
//! transcript, trimmed and rendered as `speaker: text` with a line feed.
//!
//! Punctuation that arrives before any word has no run to bind to: it is
//! dropped, and a stream without words yields no line at all.

use vstd::prelude::*;
use vstd::string::*;

use crate::text::{str_eq, trim, trimmed};

verus! {

/// One token of the result payload, in document order.
#[derive(Debug)]
pub enum TranscriptEvent {
    /// A spoken word, attributed to a speaker.
    Word { text: String, speaker_label: String },
    /// A punctuation mark, which has no speaker of its own.
    Punctuation { text: String },
}

/// The mathematical value of a [`TranscriptEvent`].
pub enum EventModel {
    Word { text: Seq<char>, speaker_label: Seq<char> },
    Punctuation { text: Seq<char> },
}

impl View for TranscriptEvent {
    type V = EventModel;

    open spec fn view(&self) -> EventModel {
        match self {
            TranscriptEvent::Word { text, speaker_label } => EventModel::Word {
                text: text@,
                speaker_label: speaker_label@,
            },
            TranscriptEvent::Punctuation { text } => EventModel::Punctuation { text: text@ },
        }
    }
}

impl EventModel {
    /// Whether the event is fit to stand in a stream: a word names its
    /// speaker.
    pub open spec fn well_formed(self) -> bool {
        self is Word ==> self->speaker_label.len() > 0
    }
}

impl TranscriptEvent {
    /// Whether the event is fit to stand in a stream: a word names its
    /// speaker.
    pub fn is_well_formed(&self) -> (result: bool)
        ensures
            result == self@.well_formed(),
    {
        match self {
            TranscriptEvent::Word { text, speaker_label } => !speaker_label.as_str().is_empty(),
            TranscriptEvent::Punctuation { text } => true,
        }
    }
}

/// One line of the transcript: a contiguous run of one speaker.
#[derive(Debug)]
pub struct TranscriptLine {
    pub speaker_label: String,
    pub text: String,
}

/// The mathematical value of a [`TranscriptLine`], and of a run before it
/// becomes a line.
pub struct LineModel {
    pub speaker_label: Seq<char>,
    pub text: Seq<char>,
}

impl View for TranscriptLine {
    type V = LineModel;

    open spec fn view(&self) -> LineModel {
        LineModel { speaker_label: self.speaker_label@, text: self.text@ }
    }
}

/// The values of a sequence of events.
pub open spec fn event_models(events: Seq<TranscriptEvent>) -> Seq<EventModel> {
    events.map_values(|event: TranscriptEvent| event@)
}

/// The values of a sequence of lines.
pub open spec fn line_models(lines: Seq<TranscriptLine>) -> Seq<LineModel> {
    lines.map_values(|line: TranscriptLine| line@)
}

/// The runs after one more event.
pub open spec fn extend_runs(runs: Seq<LineModel>, event: EventModel) -> Seq<LineModel> {
    match event {
        EventModel::Punctuation { text } => if runs.len() == 0 {
            runs
        } else {
            runs.drop_last().push(
                LineModel {
                    speaker_label: runs.last().speaker_label,
                    text: runs.last().text + text,
                },
            )
        },
        EventModel::Word { text, speaker_label } => if runs.len() > 0 && runs.last().speaker_label
            == speaker_label {
            runs.drop_last().push(
                LineModel { speaker_label, text: runs.last().text + seq![' '] + text },
            )
        } else {
            runs.push(LineModel { speaker_label, text })
        },
    }
}

/// The maximal same-speaker runs of a stream, each with the text it has
/// accumulated: its words separated by single spaces, each punctuation mark
/// directly behind what precedes it.
pub open spec fn runs(events: Seq<EventModel>) -> Seq<LineModel> {
    events.fold_left(
        Seq::empty(),
        |runs: Seq<LineModel>, event: EventModel| extend_runs(runs, event),
    )
}

/// Whether a run has any text.
pub open spec fn has_text() -> spec_fn(LineModel) -> bool {
    |run: LineModel| run.text.len() > 0
}

/// A run with the white space at both ends of its text removed.
pub open spec fn trim_line() -> spec_fn(LineModel) -> LineModel {
    |run: LineModel| LineModel { speaker_label: run.speaker_label, text: trimmed(run.text) }
}

/// The lines that a sequence of runs gives: the runs that have text, trimmed.
pub open spec fn emitted(runs: Seq<LineModel>) -> Seq<LineModel> {
    runs.filter(has_text()).map_values(trim_line())
}

/// The lines of the transcript of a stream.
pub open spec fn transcript_lines(events: Seq<EventModel>) -> Seq<LineModel> {
    emitted(runs(events))
}

/// One line as it is written out: `speaker: text` and a line feed.
pub open spec fn rendered_line(line: LineModel) -> Seq<char> {
    line.speaker_label + seq![':', ' '] + line.text + seq!['\n']
}

/// The lines written out one after the other.
pub open spec fn rendered(lines: Seq<LineModel>) -> Seq<char> {
    lines.map_values(|line: LineModel| rendered_line(line)).flatten()
}

/// The transcript of a stream as one text.
pub open spec fn transcript_text(events: Seq<EventModel>) -> Seq<char> {
    rendered(transcript_lines(events))
}

/// The running state of a reconstruction: the lines closed so far, the
/// speaker of the open run if there is one, and the text accumulated since
/// the last line was closed.
pub struct MergeState {
    pub lines: Seq<LineModel>,
    pub speaker: Option<Seq<char>>,
    pub text: Seq<char>,
}

/// The state before any event.
pub open spec fn initial_state() -> MergeState {
    MergeState { lines: Seq::empty(), speaker: None, text: Seq::empty() }
}

/// The closed lines of a state together with its open run, if that has a
/// speaker and text.
pub open spec fn flushed(state: MergeState) -> Seq<LineModel> {
    match state.speaker {
        Some(speaker_label) if state.text.len() > 0 => state.lines.push(
            LineModel { speaker_label, text: trimmed(state.text) },
        ),
        _ => state.lines,
    }
}

/// The state after a punctuation mark.
pub open spec fn after_punctuation(state: MergeState, text: Seq<char>) -> MergeState {
    MergeState { lines: state.lines, speaker: state.speaker, text: state.text + text }
}

/// The state after a word.
pub open spec fn after_word(state: MergeState, text: Seq<char>, speaker_label: Seq<char>)
    -> MergeState {
    match state.speaker {
        None => MergeState { lines: state.lines, speaker: Some(speaker_label), text },
        Some(current) => if current == speaker_label {
            MergeState {
                lines: state.lines,
                speaker: state.speaker,
                text: state.text + seq![' '] + text,
            }
        } else {
            MergeState { lines: flushed(state), speaker: Some(speaker_label), text }
        },
    }
}

/// The state after one more event.
pub open spec fn step(state: MergeState, event: EventModel) -> MergeState {
    match event {
        EventModel::Punctuation { text } => after_punctuation(state, text),
        EventModel::Word { text, speaker_label } => after_word(state, text, speaker_label),
    }
}

/// The state after a whole stream, from the initial state.
pub open spec fn merged(events: Seq<EventModel>) -> MergeState {
    events.fold_left(initial_state(), |state: MergeState, event: EventModel| step(state, event))
}

/// Whether a running state stands for a sequence of runs: all runs but the
/// last are closed, and the last one is open.
pub open spec fn tracks(state: MergeState, runs: Seq<LineModel>) -> bool {
    if runs.len() == 0 {
        state.lines.len() == 0 && state.speaker is None
    } else {
        &&& state.lines == emitted(runs.drop_last())
        &&& state.speaker == Some(runs.last().speaker_label)
        &&& state.text == runs.last().text
    }
}

/// The lines of pushed runs: those of the runs before, and the new run if it
/// has text.
pub proof fn lemma_emitted_push(runs: Seq<LineModel>, run: LineModel)
    ensures
        emitted(runs.push(run)) == if run.text.len() > 0 {
            emitted(runs).push(trim_line()(run))
        } else {
            emitted(runs)
        },
{
    runs.lemma_filter_push(run, has_text());
    if run.text.len() > 0 {
        assert(runs.filter(has_text()).push(run).map_values(trim_line()) =~= runs.filter(
            has_text(),
        ).map_values(trim_line()).push(trim_line()(run)));
    }
}

/// One event keeps a state in step with the runs it stands for.
pub proof fn lemma_step_tracks(state: MergeState, runs: Seq<LineModel>, event: EventModel)
    requires
        tracks(state, runs),
    ensures
        tracks(step(state, event), extend_runs(runs, event)),
        flushed(state) == emitted(runs),
{
    if runs.len() > 0 {
        assert(runs == runs.drop_last().push(runs.last()));
        lemma_emitted_push(runs.drop_last(), runs.last());
    } else {
        reveal(Seq::filter);
        assert(emitted(runs) == Seq::<LineModel>::empty());
        assert(state.lines == Seq::<LineModel>::empty());
    }
    let next = extend_runs(runs, event);
    match event {
        EventModel::Punctuation { text } => {
            if runs.len() > 0 {
                assert(next.drop_last() == runs.drop_last());
            }
        },
        EventModel::Word { text, speaker_label } => {
            if runs.len() > 0 && runs.last().speaker_label == speaker_label {
                assert(next.drop_last() == runs.drop_last());
            } else {
                assert(next.drop_last() == runs);
            }
        },
    }
}

/// The state after a stream stands for the runs of that stream, so that
/// flushing it gives the lines of the transcript.
pub proof fn lemma_merged_tracks(events: Seq<EventModel>)
    ensures
        tracks(merged(events), runs(events)),
        flushed(merged(events)) == transcript_lines(events),
    decreases events.len(),
{
    if events.len() > 0 {
        lemma_merged_tracks(events.drop_last());
        lemma_step_tracks(merged(events.drop_last()), runs(events.drop_last()), events.last());
    }
    lemma_step_tracks(merged(events), runs(events), EventModel::Punctuation { text: Seq::empty() });
}

/// A streaming reconstruction: events go in one by one, in document order,
/// and the lines come out at the end.
pub struct Reconstructor {
    lines: Vec<TranscriptLine>,
    current_speaker: Option<String>,
    current_text: String,
}

impl View for Reconstructor {
    type V = MergeState;

    closed spec fn view(&self) -> MergeState {
        MergeState {
            lines: line_models(self.lines@),
            speaker: match self.current_speaker {
                Some(speaker_label) => Some(speaker_label@),
                None => None,
            },
            text: self.current_text@,
        }
    }
}

impl Reconstructor {
    /// A reconstruction that has seen no event.
    pub fn new() -> (result: Reconstructor)
        ensures
            result@ == initial_state(),
    {
        let result = Reconstructor {
            lines: Vec::new(),
            current_speaker: None,
            current_text: String::new(),
        };
        assert(line_models(result.lines@) =~= Seq::<LineModel>::empty());
        result
    }

    /// Takes a punctuation mark: its text goes directly behind what has been
    /// accumulated.
    pub fn punctuation(&mut self, text: &str)
        ensures
            final(self)@ == after_punctuation(old(self)@, text@),
    {
        self.current_text.append(text);
    }

    /// Takes a word of a speaker: it joins the open run of that speaker, or
    /// closes the open run of another and starts the next.
    pub fn word(&mut self, text: &str, speaker_label: &str)
        ensures
            final(self)@ == after_word(old(self)@, text@, speaker_label@),
    {
        let same_speaker = match &self.current_speaker {
            Some(current) => str_eq(current.as_str(), speaker_label),
            None => false,
        };
        if same_speaker {
            proof {
                reveal_strlit(" ");
            }
            self.current_text.append(" ");
            self.current_text.append(text);
            assert(self.current_text@ =~= old(self).current_text@ + seq![' '] + text@);
        } else {
            let closed = self.current_speaker.take();
            match closed {
                Some(speaker) => {
                    if !self.current_text.as_str().is_empty() {
                        let line = TranscriptLine {
                            speaker_label: speaker,
                            text: trim(self.current_text.as_str()).to_owned(),
                        };
                        self.lines.push(line);
                        assert(line_models(self.lines@) =~= line_models(old(self).lines@).push(
                            line@,
                        ));
                    }
                },
                None => {},
            }
            self.current_speaker = Some(speaker_label.to_owned());
            self.current_text = text.to_owned();
        }
    }

    /// Takes one event.
    pub fn feed(&mut self, event: &TranscriptEvent)
        ensures
            final(self)@ == step(old(self)@, event@),
    {
        match event {
            TranscriptEvent::Word { text, speaker_label } => self.word(
                text.as_str(),
                speaker_label.as_str(),
            ),
            TranscriptEvent::Punctuation { text } => self.punctuation(text.as_str()),
        }
    }

    /// Closes the open run and hands out the lines.
    pub fn finish(self) -> (lines: Vec<TranscriptLine>)
        ensures
            line_models(lines@) == flushed(self@),
    {
        let mut lines = self.lines;
        match self.current_speaker {
            Some(speaker) => {
                if !self.current_text.as_str().is_empty() {
                    let line = TranscriptLine {
                        speaker_label: speaker,
                        text: trim(self.current_text.as_str()).to_owned(),
                    };
                    lines.push(line);
                    assert(line_models(lines@) =~= line_models(self.lines@).push(line@));
                }
            },
            None => {},
        }
        lines
    }
}

/// Writes lines out one after the other, each as `speaker: text` and a line
/// feed.
pub fn render_transcript(lines: &Vec<TranscriptLine>) -> (text: String)
    ensures
        text@ == rendered(line_models(lines@)),
{
    let mut text = String::new();
    let mut index: usize = 0;
    while index < lines.len()
        invariant
            index <= lines.len(),
            text@ == rendered(line_models(lines@.take(index as int))),
        decreases lines.len() - index,
    {
        let line = &lines[index];
        proof {
            reveal_strlit(": ");
            reveal_strlit("\n");
        }
        let ghost before = text@;
        text.append(line.speaker_label.as_str());
        text.append(": ");
        text.append(line.text.as_str());
        text.append("\n");
        proof {
            assert(text@ =~= before + rendered_line(line@));
            let done = line_models(lines@.take(index as int));
            let render = |line: LineModel| rendered_line(line);
            assert(line_models(lines@.take(index + 1)) =~= done.push(line@));
            assert(done.push(line@).map_values(render) =~= done.map_values(render).push(
                rendered_line(line@),
            ));
            done.map_values(render).lemma_flatten_push(rendered_line(line@));
        }
        index += 1;
    }
    assert(lines@.take(index as int) == lines@);
    text
}

/// The lines of the transcript of a stream of events.
pub fn reconstruct_lines(events: &Vec<TranscriptEvent>) -> (lines: Vec<TranscriptLine>)
    ensures
        line_models(lines@) == transcript_lines(event_models(events@)),
{
    let mut state = Reconstructor::new();
    let mut index: usize = 0;
    while index < events.len()
        invariant
            index <= events.len(),
            state@ == merged(event_models(events@.take(index as int))),
        decreases events.len() - index,
    {
        state.feed(&events[index]);
        proof {
            let seen = event_models(events@.take(index + 1));
            assert(seen.drop_last() =~= event_models(events@.take(index as int)));
            assert(seen.last() == events@[index as int]@);
        }
        index += 1;
    }
    proof {
        assert(events@.take(index as int) == events@);
        lemma_merged_tracks(event_models(events@));
    }
    state.finish()
}

/// The transcript of a stream of events as one text: for each run of one
/// speaker that has text, a line `speaker: text`.
pub fn reconstruct(events: &Vec<TranscriptEvent>) -> (text: String)
    ensures
        text@ == transcript_text(event_models(events@)),
{
    let lines = reconstruct_lines(events);
    render_transcript(&lines)
}

} // verus!
