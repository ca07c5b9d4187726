//! The life of one transcription job, from submission to its outcome, as a
//! state machine.
//!
//! The machine decides; its driver acts. The driver submits the job that the
//! machine was started for, reports what the service answered as a
//! [`ServiceEvent`], carries out the [`Action`] that the machine returns, and
//! goes on until the action is `Finish` or `Abort`.
//!
//! While the job is `Submitted` or `InProgress` the machine asks for another
//! status read after a delay. The delay starts at `INITIAL_POLL_INTERVAL`
//! seconds and doubles with every such read, up to `MAX_POLL_INTERVAL`. Every
//! other status ends the polling, so that no job is polled forever.
//!
//! A job that fails, completes without a result location or ends in a status
//! that is not known has run to its end: that is an outcome. A call that the
//! service does not answer is an error, and so is a payload that cannot be
//! read.

use vstd::prelude::*;
use vstd::string::*;

use crate::error::{InputError, InputErrorModel};
use crate::job::{
    fresh_job_name, is_unique_token, job_name_of, JobRecord, JobRecordModel, JobStatus,
    TranscriptionJob, TranscriptionJobModel,
};
use crate::language::{is_supported_language, LanguageCode};
use crate::media::{
    detect_media_format, format_outcome, resolved_format, sniffed_mime, sniffed_part, MediaFormat,
};
use crate::payload::{convert_transcribe_json, payload_transcript, ParseError};
use crate::text::{optional_string, optional_text};

verus! {

/// The delay before the second status read, in seconds.
pub const INITIAL_POLL_INTERVAL: u64 = 5;

/// The longest delay between two status reads, in seconds: the delay stops
/// doubling where twice as much would no longer fit into 64 bits.
pub const MAX_POLL_INTERVAL: u64 = 0xffff_ffff_ffff_ffff;

/// Twice a delay, or `MAX_POLL_INTERVAL` if that is less.
pub open spec fn doubled(interval: u64) -> u64 {
    if interval <= MAX_POLL_INTERVAL / 2 {
        (2 * interval) as u64
    } else {
        MAX_POLL_INTERVAL
    }
}

/// The delay after a number of status reads that found the job unfinished.
pub open spec fn backoff_interval(polls: nat) -> u64
    decreases polls,
{
    if polls == 0 {
        INITIAL_POLL_INTERVAL
    } else {
        doubled(backoff_interval((polls - 1) as nat))
    }
}

/// Twice a delay, or `MAX_POLL_INTERVAL` if that is less.
pub fn next_interval(interval: u64) -> (next: u64)
    ensures
        next == doubled(interval),
{
    if interval <= MAX_POLL_INTERVAL / 2 {
        2 * interval
    } else {
        MAX_POLL_INTERVAL
    }
}

/// What the machine waits for.
#[derive(Clone, Copy, Debug, PartialEq, Eq, Structural)]
pub enum Phase {
    /// The job is being submitted.
    AwaitingSubmission,
    /// A status read is under way.
    AwaitingStatus,
    /// The result payload is being fetched.
    AwaitingPayload,
    /// Nothing: the job has been dealt with.
    Finished,
}

/// What the driver reports to the machine.
#[derive(Debug)]
pub enum ServiceEvent {
    /// The service has accepted the job.
    SubmissionAccepted,
    /// The service has not accepted the job, or could not be reached.
    SubmissionRejected { reason: String },
    /// A status read has come back.
    StatusRead { record: JobRecord },
    /// A status read has not come back.
    StatusUnavailable { reason: String },
    /// The result payload has been fetched.
    PayloadFetched { body: String },
    /// The result payload could not be fetched.
    PayloadUnavailable { reason: String },
}

/// The mathematical value of a [`ServiceEvent`].
pub enum ServiceEventModel {
    SubmissionAccepted,
    SubmissionRejected { reason: Seq<char> },
    StatusRead { record: JobRecordModel },
    StatusUnavailable { reason: Seq<char> },
    PayloadFetched { body: Seq<char> },
    PayloadUnavailable { reason: Seq<char> },
}

impl View for ServiceEvent {
    type V = ServiceEventModel;

    open spec fn view(&self) -> ServiceEventModel {
        match self {
            ServiceEvent::SubmissionAccepted => ServiceEventModel::SubmissionAccepted,
            ServiceEvent::SubmissionRejected { reason } => ServiceEventModel::SubmissionRejected {
                reason: reason@,
            },
            ServiceEvent::StatusRead { record } => ServiceEventModel::StatusRead {
                record: record@,
            },
            ServiceEvent::StatusUnavailable { reason } => ServiceEventModel::StatusUnavailable {
                reason: reason@,
            },
            ServiceEvent::PayloadFetched { body } => ServiceEventModel::PayloadFetched {
                body: body@,
            },
            ServiceEvent::PayloadUnavailable { reason } => ServiceEventModel::PayloadUnavailable {
                reason: reason@,
            },
        }
    }
}

/// How a job that ran to its end has ended.
#[derive(Debug)]
pub enum JobOutcome {
    /// The job completed, and this is its transcript.
    Transcript { text: String },
    /// The job failed, for the reason given if the service gave one.
    Failed { reason: Option<String> },
    /// The job completed, but the service did not say where the result lies.
    MissingResult,
    /// The job ended in a status that is not known.
    Indeterminate,
}

/// The mathematical value of a [`JobOutcome`].
pub enum JobOutcomeModel {
    Transcript { text: Seq<char> },
    Failed { reason: Option<Seq<char>> },
    MissingResult,
    Indeterminate,
}

impl View for JobOutcome {
    type V = JobOutcomeModel;

    open spec fn view(&self) -> JobOutcomeModel {
        match self {
            JobOutcome::Transcript { text } => JobOutcomeModel::Transcript { text: text@ },
            JobOutcome::Failed { reason } => JobOutcomeModel::Failed {
                reason: optional_string(*reason),
            },
            JobOutcome::MissingResult => JobOutcomeModel::MissingResult,
            JobOutcome::Indeterminate => JobOutcomeModel::Indeterminate,
        }
    }
}

impl JobOutcomeModel {
    /// The outcome as the text that the caller is given: the transcript, or
    /// a sentence that says how the job ended.
    pub open spec fn description(self) -> Seq<char> {
        match self {
            JobOutcomeModel::Transcript { text } => text,
            JobOutcomeModel::Failed { reason: Some(reason) } => "Transcription job failed: "@
                + reason,
            JobOutcomeModel::Failed { reason: None } =>
                "Transcription job failed for an unknown reason."@,
            JobOutcomeModel::MissingResult => "Transcript file URI is missing."@,
            JobOutcomeModel::Indeterminate =>
                "Job ended with an unexpected status or status could not be determined."@,
        }
    }
}

impl JobOutcome {
    /// The outcome as the text that the caller is given: the transcript, or
    /// a sentence that says how the job ended.
    pub fn describe(&self) -> (text: String)
        ensures
            text@ == self@.description(),
    {
        match self {
            JobOutcome::Transcript { text } => text.clone(),
            JobOutcome::Failed { reason: Some(reason) } => {
                let mut text = "Transcription job failed: ".to_owned();
                text.append(reason.as_str());
                text
            },
            JobOutcome::Failed { reason: None } => {
                "Transcription job failed for an unknown reason.".to_owned()
            },
            JobOutcome::MissingResult => "Transcript file URI is missing.".to_owned(),
            JobOutcome::Indeterminate => {
                "Job ended with an unexpected status or status could not be determined.".to_owned()
            },
        }
    }
}

/// Why no outcome of the job can be given.
#[derive(Debug)]
pub enum TranscribeError {
    /// The service did not accept the job.
    Submission { reason: String },
    /// A status read failed.
    PollingTransport { reason: String },
    /// The result payload could not be fetched.
    Fetch { reason: String },
    /// The result payload is malformed.
    Parse { error: ParseError },
    /// The driver reported something that the machine was not waiting for.
    UnexpectedEvent,
}

/// The mathematical value of a [`TranscribeError`].
pub enum TranscribeErrorModel {
    Submission { reason: Seq<char> },
    PollingTransport { reason: Seq<char> },
    Fetch { reason: Seq<char> },
    Parse { error: ParseError },
    UnexpectedEvent,
}

impl View for TranscribeError {
    type V = TranscribeErrorModel;

    open spec fn view(&self) -> TranscribeErrorModel {
        match self {
            TranscribeError::Submission { reason } => TranscribeErrorModel::Submission {
                reason: reason@,
            },
            TranscribeError::PollingTransport { reason } => TranscribeErrorModel::PollingTransport {
                reason: reason@,
            },
            TranscribeError::Fetch { reason } => TranscribeErrorModel::Fetch { reason: reason@ },
            TranscribeError::Parse { error } => TranscribeErrorModel::Parse { error: *error },
            TranscribeError::UnexpectedEvent => TranscribeErrorModel::UnexpectedEvent,
        }
    }
}

impl TranscribeErrorModel {
    /// The text of the message for this error: what the service or the
    /// fetcher gave as the reason, or what is wrong with the payload.
    pub open spec fn message_text(self) -> Seq<char> {
        match self {
            TranscribeErrorModel::Submission { reason } => reason,
            TranscribeErrorModel::PollingTransport { reason } => reason,
            TranscribeErrorModel::Fetch { reason } => reason,
            TranscribeErrorModel::Parse { error } => error.message_text(),
            TranscribeErrorModel::UnexpectedEvent => "Unexpected event for the current phase"@,
        }
    }
}

impl TranscribeError {
    /// A message for this error.
    pub fn message(&self) -> (text: String)
        ensures
            text@ == self@.message_text(),
    {
        match self {
            TranscribeError::Submission { reason } => reason.clone(),
            TranscribeError::PollingTransport { reason } => reason.clone(),
            TranscribeError::Fetch { reason } => reason.clone(),
            TranscribeError::Parse { error } => error.message().to_owned(),
            TranscribeError::UnexpectedEvent => "Unexpected event for the current phase".to_owned(),
        }
    }
}

/// What the driver is to do next.
#[derive(Debug)]
pub enum Action {
    /// Wait for `delay_seconds`, then read the status of the job once.
    ReadStatus { delay_seconds: u64 },
    /// Fetch the result payload from `uri`.
    FetchPayload { uri: String },
    /// Stop: the job has run to its end.
    Finish { outcome: JobOutcome },
    /// Stop: the job cannot be followed any further.
    Abort { error: TranscribeError },
}

/// The mathematical value of an [`Action`].
pub enum ActionModel {
    ReadStatus { delay_seconds: u64 },
    FetchPayload { uri: Seq<char> },
    Finish { outcome: JobOutcomeModel },
    Abort { error: TranscribeErrorModel },
}

impl View for Action {
    type V = ActionModel;

    open spec fn view(&self) -> ActionModel {
        match self {
            Action::ReadStatus { delay_seconds } => ActionModel::ReadStatus {
                delay_seconds: *delay_seconds,
            },
            Action::FetchPayload { uri } => ActionModel::FetchPayload { uri: uri@ },
            Action::Finish { outcome } => ActionModel::Finish { outcome: outcome@ },
            Action::Abort { error } => ActionModel::Abort { error: error@ },
        }
    }
}

impl ActionModel {
    /// Whether the action asks the driver to stop.
    pub open spec fn stops(self) -> bool {
        self is Finish || self is Abort
    }
}

/// The mathematical value of an [`Orchestrator`].
pub struct OrchestratorModel {
    pub job: TranscriptionJobModel,
    pub phase: Phase,
    /// The delay before the next status read, if the job is still unfinished
    /// at this one.
    pub interval: u64,
}

impl OrchestratorModel {
    /// The machine for a job that is about to be submitted.
    pub open spec fn started(job: TranscriptionJobModel) -> OrchestratorModel {
        OrchestratorModel { job, phase: Phase::AwaitingSubmission, interval: INITIAL_POLL_INTERVAL }
    }

    /// The machine in another phase.
    pub open spec fn in_phase(self, phase: Phase) -> OrchestratorModel {
        OrchestratorModel { job: self.job, phase, interval: self.interval }
    }

    /// The machine stopped, with the error of an event that it was not
    /// waiting for.
    pub open spec fn rejected(self) -> (OrchestratorModel, ActionModel) {
        (
            self.in_phase(Phase::Finished),
            ActionModel::Abort { error: TranscribeErrorModel::UnexpectedEvent },
        )
    }

    /// What follows the answer to the submission.
    pub open spec fn after_submission(self, event: ServiceEventModel) -> (
        OrchestratorModel,
        ActionModel,
    ) {
        match event {
            ServiceEventModel::SubmissionAccepted => (
                self.in_phase(Phase::AwaitingStatus),
                ActionModel::ReadStatus { delay_seconds: 0 },
            ),
            ServiceEventModel::SubmissionRejected { reason } => (
                self.in_phase(Phase::Finished),
                ActionModel::Abort { error: TranscribeErrorModel::Submission { reason } },
            ),
            _ => self.rejected(),
        }
    }

    /// What follows a status read that came back.
    pub open spec fn after_record(self, record: JobRecordModel) -> (
        OrchestratorModel,
        ActionModel,
    ) {
        let job = self.job.updated(record);
        match record.status {
            JobStatus::Submitted | JobStatus::InProgress => (
                OrchestratorModel {
                    job,
                    phase: Phase::AwaitingStatus,
                    interval: doubled(self.interval),
                },
                ActionModel::ReadStatus { delay_seconds: self.interval },
            ),
            JobStatus::Completed => match record.result_location {
                Some(uri) => (
                    OrchestratorModel {
                        job,
                        phase: Phase::AwaitingPayload,
                        interval: self.interval,
                    },
                    ActionModel::FetchPayload { uri },
                ),
                None => (
                    OrchestratorModel { job, phase: Phase::Finished, interval: self.interval },
                    ActionModel::Finish { outcome: JobOutcomeModel::MissingResult },
                ),
            },
            JobStatus::Failed => (
                OrchestratorModel { job, phase: Phase::Finished, interval: self.interval },
                ActionModel::Finish {
                    outcome: JobOutcomeModel::Failed { reason: record.failure_reason },
                },
            ),
            JobStatus::Unknown => (
                OrchestratorModel { job, phase: Phase::Finished, interval: self.interval },
                ActionModel::Finish { outcome: JobOutcomeModel::Indeterminate },
            ),
        }
    }

    /// What follows the answer to a status read.
    pub open spec fn after_status(self, event: ServiceEventModel) -> (
        OrchestratorModel,
        ActionModel,
    ) {
        match event {
            ServiceEventModel::StatusRead { record } => self.after_record(record),
            ServiceEventModel::StatusUnavailable { reason } => (
                self.in_phase(Phase::Finished),
                ActionModel::Abort { error: TranscribeErrorModel::PollingTransport { reason } },
            ),
            _ => self.rejected(),
        }
    }

    /// What follows the answer to the fetch of the payload.
    pub open spec fn after_payload(self, event: ServiceEventModel) -> (
        OrchestratorModel,
        ActionModel,
    ) {
        match event {
            ServiceEventModel::PayloadFetched { body } => (
                self.in_phase(Phase::Finished),
                match payload_transcript(body) {
                    Ok(text) => ActionModel::Finish {
                        outcome: JobOutcomeModel::Transcript { text },
                    },
                    Err(error) => ActionModel::Abort {
                        error: TranscribeErrorModel::Parse { error },
                    },
                },
            ),
            ServiceEventModel::PayloadUnavailable { reason } => (
                self.in_phase(Phase::Finished),
                ActionModel::Abort { error: TranscribeErrorModel::Fetch { reason } },
            ),
            _ => self.rejected(),
        }
    }

    /// The machine after an event, and what the driver is to do next.
    pub open spec fn transition(self, event: ServiceEventModel) -> (
        OrchestratorModel,
        ActionModel,
    ) {
        match self.phase {
            Phase::AwaitingSubmission => self.after_submission(event),
            Phase::AwaitingStatus => self.after_status(event),
            Phase::AwaitingPayload => self.after_payload(event),
            Phase::Finished => self.rejected(),
        }
    }

    /// The machine after a sequence of events.
    pub open spec fn after_events(self, events: Seq<ServiceEventModel>) -> OrchestratorModel {
        events.fold_left(
            self,
            |state: OrchestratorModel, event: ServiceEventModel| state.transition(event).0,
        )
    }
}

/// The machine that is started for a job, or the error in the input that
/// keeps the job from being submitted. An unresolved media format is
/// reported before an unsupported language.
pub open spec fn start_outcome(
    job_id: Seq<char>,
    media_reference: Seq<char>,
    language_code: Seq<char>,
    media_format: Result<MediaFormat, InputErrorModel>,
) -> Result<OrchestratorModel, InputErrorModel> {
    match media_format {
        Err(error) => Err(error),
        Ok(format) => if is_supported_language(language_code) {
            Ok(
                OrchestratorModel::started(
                    TranscriptionJobModel::submitted(
                        job_id,
                        media_reference,
                        language_code,
                        format,
                    ),
                ),
            )
        } else {
            Err(InputErrorModel::UnsupportedLanguage { code: language_code })
        },
    }
}

/// The mathematical value of the outcome of a start.
pub open spec fn started_model(outcome: Result<Orchestrator, InputError>) -> Result<
    OrchestratorModel,
    InputErrorModel,
> {
    match outcome {
        Ok(machine) => Ok(machine@),
        Err(error) => Err(error@),
    }
}

/// The status reads that bring a sequence of records, as events.
pub open spec fn status_reads(records: Seq<JobRecordModel>) -> Seq<ServiceEventModel> {
    records.map_values(|record: JobRecordModel| ServiceEventModel::StatusRead { record })
}

/// The state machine that follows one transcription job.
#[derive(Debug)]
pub struct Orchestrator {
    job: TranscriptionJob,
    phase: Phase,
    interval: u64,
}

impl View for Orchestrator {
    type V = OrchestratorModel;

    closed spec fn view(&self) -> OrchestratorModel {
        OrchestratorModel { job: self.job@, phase: self.phase, interval: self.interval }
    }
}

impl Orchestrator {
    /// Starts the machine for a job that is to be submitted under `job_id`.
    ///
    /// Nothing is to be submitted where the media format could not be
    /// resolved or the language code is not supported: the error says which.
    pub fn start(
        job_id: String,
        media_reference: &str,
        language_code: &str,
        media_format: Result<MediaFormat, InputError>,
    ) -> (outcome: Result<Orchestrator, InputError>)
        ensures
            started_model(outcome) == start_outcome(
                job_id@,
                media_reference@,
                language_code@,
                format_outcome(media_format),
            ),
    {
        let format = match media_format {
            Err(error) => {
                return Err(error);
            },
            Ok(format) => format,
        };
        match LanguageCode::parse(language_code) {
            Err(error) => Err(error),
            Ok(language) => Ok(
                Orchestrator {
                    job: TranscriptionJob::new(
                        job_id,
                        media_reference.to_owned(),
                        language,
                        format,
                    ),
                    phase: Phase::AwaitingSubmission,
                    interval: INITIAL_POLL_INTERVAL,
                },
            ),
        }
    }

    /// Starts the machine for a job on the media at `media_reference`: gives
    /// the job a fresh name and settles the media format from the content of
    /// the file and its extension.
    pub fn begin(
        media_reference: &str,
        language_code: &str,
        content: &[u8],
        extension: Option<&str>,
    ) -> (outcome: Result<Orchestrator, InputError>)
        ensures
            exists|token: Seq<char>|
                is_unique_token(token) && started_model(outcome) == start_outcome(
                    job_name_of(token),
                    media_reference@,
                    language_code@,
                    resolved_format(sniffed_mime(sniffed_part(content@)), optional_text(extension)),
                ),
    {
        let job_id = fresh_job_name();
        let media_format = detect_media_format(content, extension);
        Orchestrator::start(job_id, media_reference, language_code, media_format)
    }

    /// The job that the machine follows.
    pub fn job(&self) -> (job: &TranscriptionJob)
        ensures
            job@ == self@.job,
    {
        &self.job
    }

    /// What the machine waits for.
    pub fn phase(&self) -> (phase: Phase)
        ensures
            phase == self@.phase,
    {
        self.phase
    }

    /// The delay before the next status read, in seconds, if the job is
    /// still unfinished at this one.
    pub fn interval(&self) -> (interval: u64)
        ensures
            interval == self@.interval,
    {
        self.interval
    }

    /// Stops the machine over an event that it was not waiting for.
    fn reject(&mut self) -> (action: Action)
        ensures
            (final(self)@, action@) == old(self)@.rejected(),
    {
        self.phase = Phase::Finished;
        Action::Abort { error: TranscribeError::UnexpectedEvent }
    }

    /// Takes a status read that came back.
    fn record(&mut self, record: JobRecord) -> (action: Action)
        ensures
            (final(self)@, action@) == old(self)@.after_record(record@),
    {
        let status = record.status;
        self.job.update(record);
        match status {
            JobStatus::Submitted | JobStatus::InProgress => {
                let delay_seconds = self.interval;
                self.phase = Phase::AwaitingStatus;
                self.interval = next_interval(delay_seconds);
                Action::ReadStatus { delay_seconds }
            },
            JobStatus::Completed => match self.job.result_location() {
                Some(uri) => {
                    let uri = uri.to_owned();
                    self.phase = Phase::AwaitingPayload;
                    Action::FetchPayload { uri }
                },
                None => {
                    self.phase = Phase::Finished;
                    Action::Finish { outcome: JobOutcome::MissingResult }
                },
            },
            JobStatus::Failed => {
                let reason = match self.job.failure_reason() {
                    Some(reason) => Some(reason.to_owned()),
                    None => None,
                };
                self.phase = Phase::Finished;
                Action::Finish { outcome: JobOutcome::Failed { reason } }
            },
            JobStatus::Unknown => {
                self.phase = Phase::Finished;
                Action::Finish { outcome: JobOutcome::Indeterminate }
            },
        }
    }

    /// Takes what the driver reports, and says what it is to do next.
    pub fn step(&mut self, event: ServiceEvent) -> (action: Action)
        ensures
            (final(self)@, action@) == old(self)@.transition(event@),
    {
        match self.phase {
            Phase::AwaitingSubmission => match event {
                ServiceEvent::SubmissionAccepted => {
                    self.phase = Phase::AwaitingStatus;
                    Action::ReadStatus { delay_seconds: 0 }
                },
                ServiceEvent::SubmissionRejected { reason } => {
                    self.phase = Phase::Finished;
                    Action::Abort { error: TranscribeError::Submission { reason } }
                },
                _ => self.reject(),
            },
            Phase::AwaitingStatus => match event {
                ServiceEvent::StatusRead { record } => self.record(record),
                ServiceEvent::StatusUnavailable { reason } => {
                    self.phase = Phase::Finished;
                    Action::Abort { error: TranscribeError::PollingTransport { reason } }
                },
                _ => self.reject(),
            },
            Phase::AwaitingPayload => match event {
                ServiceEvent::PayloadFetched { body } => {
                    self.phase = Phase::Finished;
                    match convert_transcribe_json(body.as_str()) {
                        Ok(text) => Action::Finish { outcome: JobOutcome::Transcript { text } },
                        Err(error) => Action::Abort { error: TranscribeError::Parse { error } },
                    }
                },
                ServiceEvent::PayloadUnavailable { reason } => {
                    self.phase = Phase::Finished;
                    Action::Abort { error: TranscribeError::Fetch { reason } }
                },
                _ => self.reject(),
            },
            Phase::Finished => self.reject(),
        }
    }
}

/// A stopped machine stays as it is, whatever is reported to it, and answers
/// with the error of an unexpected event.
pub proof fn lemma_stopped_stays_stopped(state: OrchestratorModel, event: ServiceEventModel)
    requires
        state.phase is Finished,
    ensures
        state.transition(event).0 == state,
        state.transition(event).1 == (ActionModel::Abort {
            error: TranscribeErrorModel::UnexpectedEvent,
        }),
{
}

/// What the machine asks for goes with the phase that it enters: it stops
/// the driver exactly when it enters `Finished`, asks for a status read
/// exactly when it enters `AwaitingStatus`, and for the payload exactly when
/// it enters `AwaitingPayload`. Nothing is submitted a second time.
pub proof fn lemma_actions_follow_phase(state: OrchestratorModel, event: ServiceEventModel)
    ensures
        state.transition(event).1.stops() <==> state.transition(event).0.phase is Finished,
        state.transition(event).1 is ReadStatus <==> state.transition(event).0.phase
            is AwaitingStatus,
        state.transition(event).1 is FetchPayload <==> state.transition(event).0.phase
            is AwaitingPayload,
        state.transition(event).0.phase !is AwaitingSubmission,
{
}

/// A status read that finds the job finished ends the polling: whatever the
/// record holds, the machine asks for no further read.
pub proof fn lemma_terminal_status_ends_polling(state: OrchestratorModel, record: JobRecordModel)
    requires
        state.phase is AwaitingStatus,
        record.status.terminal(),
    ensures
        !(state.transition(ServiceEventModel::StatusRead { record }).1 is ReadStatus),
        state.transition(ServiceEventModel::StatusRead { record }).0.phase is Finished
            || state.transition(ServiceEventModel::StatusRead { record }).0.phase
            is AwaitingPayload,
{
}

/// A failed job is an outcome that carries the reason that the service gave,
/// unchanged.
pub proof fn lemma_failed_job_carries_reason(state: OrchestratorModel, record: JobRecordModel)
    requires
        state.phase is AwaitingStatus,
        record.status is Failed,
    ensures
        state.transition(ServiceEventModel::StatusRead { record }).1 == (ActionModel::Finish {
            outcome: JobOutcomeModel::Failed { reason: record.failure_reason },
        }),
{
}

/// While the job is unfinished the machine asks for one status read per
/// status read, each after the delay of its turn: a machine that has seen
/// `polls` unfinished reads answers the next ones with the delays
/// `backoff_interval(polls)`, `backoff_interval(polls + 1)` and so on.
pub proof fn lemma_polling_backs_off(
    state: OrchestratorModel,
    polls: nat,
    records: Seq<JobRecordModel>,
)
    requires
        state.phase is AwaitingStatus,
        state.interval == backoff_interval(polls),
        forall|i: int| 0 <= i < records.len() ==> !(#[trigger] records[i]).status.terminal(),
    ensures
        state.after_events(status_reads(records)).phase is AwaitingStatus,
        state.after_events(status_reads(records)).interval == backoff_interval(
            polls + records.len(),
        ),
        forall|i: int|
            0 <= i < records.len() ==> state.after_events(
                #[trigger] status_reads(records).take(i),
            ).transition(status_reads(records)[i]).1 == (ActionModel::ReadStatus {
                delay_seconds: backoff_interval((polls + i) as nat),
            }),
    decreases records.len(),
{
    let events = status_reads(records);
    if records.len() == 0 {
        assert forall|i: int| 0 <= i < records.len() implies state.after_events(
            #[trigger] status_reads(records).take(i),
        ).transition(status_reads(records)[i]).1 == (ActionModel::ReadStatus {
            delay_seconds: backoff_interval((polls + i) as nat),
        }) by {}
    } else {
        let earlier = records.drop_last();
        lemma_polling_backs_off(state, polls, earlier);
        assert(events.drop_last() == status_reads(earlier));
        let before = state.after_events(status_reads(earlier));
        assert(!records[records.len() - 1].status.terminal());
        assert(backoff_interval(polls + records.len()) == doubled(
            backoff_interval((polls + records.len() - 1) as nat),
        ));
        assert forall|i: int| 0 <= i < records.len() implies state.after_events(
            #[trigger] events.take(i),
        ).transition(events[i]).1 == (ActionModel::ReadStatus {
            delay_seconds: backoff_interval((polls + i) as nat),
        }) by {
            if i < records.len() - 1 {
                assert(events.take(i) == status_reads(earlier).take(i));
                assert(events[i] == status_reads(earlier)[i]);
            } else {
                assert(events.take(i) == status_reads(earlier));
            }
        }
    }
}

/// The delay doubles from `INITIAL_POLL_INTERVAL` on for as long as the
/// double fits: 5, 10, 20 seconds and so on.
pub proof fn lemma_backoff_doubles(polls: nat)
    requires
        backoff_interval(polls) <= MAX_POLL_INTERVAL / 2,
    ensures
        backoff_interval(polls + 1) == 2 * backoff_interval(polls),
        backoff_interval(0) == 5,
        backoff_interval(1) == 10,
        backoff_interval(2) == 20,
{
    reveal_with_fuel(backoff_interval, 3);
}

/// The delay never shrinks.
pub proof fn lemma_backoff_grows(polls: nat)
    ensures
        backoff_interval(polls) <= backoff_interval(polls + 1),
        INITIAL_POLL_INTERVAL <= backoff_interval(polls),
    decreases polls,
{
    if polls > 0 {
        lemma_backoff_grows((polls - 1) as nat);
    }
}

} // verus!
