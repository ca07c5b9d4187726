//! A transcription job as the orchestrator sees it: what is asked of the
//! service, and what the service reports back.

use vstd::prelude::*;
use vstd::string::*;

use crate::language::LanguageCode;
use crate::media::MediaFormat;
use crate::text::{optional_string, optional_text, str_eq};

verus! {

/// Where a job stands. `Unknown` is every status that is none of the others,
/// and a report without a status.
#[derive(Clone, Copy, Debug, PartialEq, Eq, Structural)]
pub enum JobStatus {
    Submitted,
    InProgress,
    Completed,
    Failed,
    Unknown,
}

/// The status that a name of the transcription service stands for. The
/// service calls a job `QUEUED` between its submission and its start.
pub open spec fn status_of_name(name: Option<Seq<char>>) -> JobStatus {
    match name {
        Some(name) => if name == "QUEUED"@ {
            JobStatus::Submitted
        } else if name == "IN_PROGRESS"@ {
            JobStatus::InProgress
        } else if name == "COMPLETED"@ {
            JobStatus::Completed
        } else if name == "FAILED"@ {
            JobStatus::Failed
        } else {
            JobStatus::Unknown
        },
        None => JobStatus::Unknown,
    }
}

impl JobStatus {
    /// The status that the service reports under a given name, or without
    /// any: what is not one of its four names is `Unknown`.
    pub fn from_service_name(name: Option<&str>) -> (status: JobStatus)
        ensures
            status == status_of_name(optional_text(name)),
    {
        match name {
            Some(name) => if str_eq(name, "QUEUED") {
                JobStatus::Submitted
            } else if str_eq(name, "IN_PROGRESS") {
                JobStatus::InProgress
            } else if str_eq(name, "COMPLETED") {
                JobStatus::Completed
            } else if str_eq(name, "FAILED") {
                JobStatus::Failed
            } else {
                JobStatus::Unknown
            },
            None => JobStatus::Unknown,
        }
    }

    /// Whether no further status is to be expected: every status but
    /// `Submitted` and `InProgress` ends the polling.
    pub open spec fn terminal(self) -> bool {
        !(self is Submitted || self is InProgress)
    }

    /// Whether the status ends the polling.
    pub fn is_terminal(&self) -> (result: bool)
        ensures
            result == self.terminal(),
    {
        match self {
            JobStatus::Submitted => false,
            JobStatus::InProgress => false,
            _ => true,
        }
    }
}

/// What one status read brings back.
#[derive(Debug)]
pub struct JobRecord {
    pub status: JobStatus,
    /// Where the result payload lies, once the job has completed.
    pub result_location: Option<String>,
    /// Why the job failed, if the service says so.
    pub failure_reason: Option<String>,
}

/// The mathematical value of a [`JobRecord`].
pub struct JobRecordModel {
    pub status: JobStatus,
    pub result_location: Option<Seq<char>>,
    pub failure_reason: Option<Seq<char>>,
}

impl View for JobRecord {
    type V = JobRecordModel;

    open spec fn view(&self) -> JobRecordModel {
        JobRecordModel {
            status: self.status,
            result_location: optional_string(self.result_location),
            failure_reason: optional_string(self.failure_reason),
        }
    }
}

/// How the speakers of a recording are to be told apart.
#[derive(Clone, Copy, Debug, PartialEq, Eq, Structural)]
pub struct DiarizationSettings {
    pub show_speaker_labels: bool,
    pub max_speaker_labels: i32,
    pub channel_identification: bool,
}

/// The largest number of speakers that a job is asked to tell apart.
pub const MAX_SPEAKER_LABELS: i32 = 10;

/// The settings of every job: speaker labels for up to `MAX_SPEAKER_LABELS`
/// speakers, and no channel identification.
pub fn diarization_settings() -> (settings: DiarizationSettings)
    ensures
        settings == (DiarizationSettings {
            show_speaker_labels: true,
            max_speaker_labels: MAX_SPEAKER_LABELS,
            channel_identification: false,
        }),
{
    DiarizationSettings {
        show_speaker_labels: true,
        max_speaker_labels: MAX_SPEAKER_LABELS,
        channel_identification: false,
    }
}

/// Whether a character is a decimal digit or one of the letters `a` to `f`.
pub open spec fn is_lower_hex(c: char) -> bool {
    let code = c as u32;
    0x30 <= code <= 0x39 || 0x61 <= code <= 0x66
}

/// Whether a text has the shape of a hyphenated UUID: groups of 8, 4, 4, 4
/// and 12 hexadecimal digits in lower case, with hyphens between them.
pub open spec fn is_unique_token(token: Seq<char>) -> bool {
    &&& token.len() == 36
    &&& forall|i: int|
        0 <= i < 36 ==> if i == 8 || i == 13 || i == 18 || i == 23 {
            #[trigger] token[i] == '-'
        } else {
            is_lower_hex(token[i])
        }
}

/// The name of the job with a given token.
pub open spec fn job_name_of(token: Seq<char>) -> Seq<char> {
    "transcription-"@ + token
}

/// Draws a random UUID with `uuid::Uuid::new_v4` and writes it out as
/// `Uuid` displays it. Which one comes is left open; each has the hyphenated
/// shape. Nothing comes back where the system has no randomness to give.
#[verifier::external_body]
fn unique_token() -> (token: String)
    ensures
        is_unique_token(token@),
{
    uuid::Uuid::new_v4().to_string()
}

/// The job name for a token: the token behind `transcription-`.
pub fn job_name(token: &str) -> (name: String)
    ensures
        name@ == job_name_of(token@),
{
    let mut name = "transcription-".to_owned();
    name.append(token);
    name
}

/// A job name that no earlier job is expected to have: `transcription-`
/// and a random UUID.
pub fn fresh_job_name() -> (name: String)
    ensures
        exists|token: Seq<char>| is_unique_token(token) && name@ == job_name_of(token),
{
    let token = unique_token();
    job_name(token.as_str())
}

/// One transcription job: what was asked for, and the latest that is known
/// of it.
#[derive(Debug)]
pub struct TranscriptionJob {
    id: String,
    media_reference: String,
    language_code: LanguageCode,
    media_format: MediaFormat,
    status: JobStatus,
    result_location: Option<String>,
    failure_reason: Option<String>,
}

/// The mathematical value of a [`TranscriptionJob`].
pub struct TranscriptionJobModel {
    pub id: Seq<char>,
    pub media_reference: Seq<char>,
    pub language_code: Seq<char>,
    pub media_format: MediaFormat,
    pub status: JobStatus,
    pub result_location: Option<Seq<char>>,
    pub failure_reason: Option<Seq<char>>,
}

impl TranscriptionJobModel {
    /// A result location is known only of a completed job, and a failure
    /// reason only of a failed one.
    pub open spec fn consistent(self) -> bool {
        &&& self.result_location is Some ==> self.status is Completed
        &&& self.failure_reason is Some ==> self.status is Failed
    }

    /// The job as it is submitted.
    pub open spec fn submitted(
        id: Seq<char>,
        media_reference: Seq<char>,
        language_code: Seq<char>,
        media_format: MediaFormat,
    ) -> TranscriptionJobModel {
        TranscriptionJobModel {
            id,
            media_reference,
            language_code,
            media_format,
            status: JobStatus::Submitted,
            result_location: None,
            failure_reason: None,
        }
    }

    /// The job after a status read: the status is taken over, the result
    /// location only with `Completed`, the failure reason only with `Failed`.
    pub open spec fn updated(self, record: JobRecordModel) -> TranscriptionJobModel {
        TranscriptionJobModel {
            id: self.id,
            media_reference: self.media_reference,
            language_code: self.language_code,
            media_format: self.media_format,
            status: record.status,
            result_location: if record.status is Completed {
                record.result_location
            } else {
                None
            },
            failure_reason: if record.status is Failed {
                record.failure_reason
            } else {
                None
            },
        }
    }
}

impl View for TranscriptionJob {
    type V = TranscriptionJobModel;

    closed spec fn view(&self) -> TranscriptionJobModel {
        TranscriptionJobModel {
            id: self.id@,
            media_reference: self.media_reference@,
            language_code: self.language_code@,
            media_format: self.media_format,
            status: self.status,
            result_location: optional_string(self.result_location),
            failure_reason: optional_string(self.failure_reason),
        }
    }
}

impl TranscriptionJob {
    #[verifier::type_invariant]
    closed spec fn well_formed(self) -> bool {
        self@.consistent()
    }

    /// The job as it is submitted: nothing is known of it but what is asked.
    pub fn new(
        id: String,
        media_reference: String,
        language_code: LanguageCode,
        media_format: MediaFormat,
    ) -> (job: TranscriptionJob)
        ensures
            job@ == TranscriptionJobModel::submitted(
                id@,
                media_reference@,
                language_code@,
                media_format,
            ),
    {
        TranscriptionJob {
            id,
            media_reference,
            language_code,
            media_format,
            status: JobStatus::Submitted,
            result_location: None,
            failure_reason: None,
        }
    }

    /// Takes over what a status read has brought.
    pub fn update(&mut self, record: JobRecord)
        ensures
            final(self)@ == old(self)@.updated(record@),
    {
        let JobRecord { status, result_location, failure_reason } = record;
        proof {
            use_type_invariant(&*self);
        }
        self.result_location = None;
        self.failure_reason = None;
        self.status = status;
        self.result_location = match status {
            JobStatus::Completed => result_location,
            _ => None,
        };
        self.failure_reason = match status {
            JobStatus::Failed => failure_reason,
            _ => None,
        };
    }

    /// The name under which the job is known to the service.
    pub fn id(&self) -> (id: &str)
        ensures
            id@ == self@.id,
    {
        self.id.as_str()
    }

    /// Where the media lies.
    pub fn media_reference(&self) -> (reference: &str)
        ensures
            reference@ == self@.media_reference,
    {
        self.media_reference.as_str()
    }

    /// The language of the recording.
    pub fn language_code(&self) -> (language: &LanguageCode)
        ensures
            language@ == self@.language_code,
    {
        &self.language_code
    }

    /// The format of the media.
    pub fn media_format(&self) -> (format: MediaFormat)
        ensures
            format == self@.media_format,
    {
        self.media_format
    }

    /// How the speakers of the recording are to be told apart: the same for
    /// every job.
    pub fn settings(&self) -> (settings: DiarizationSettings)
        ensures
            settings == (DiarizationSettings {
                show_speaker_labels: true,
                max_speaker_labels: MAX_SPEAKER_LABELS,
                channel_identification: false,
            }),
    {
        diarization_settings()
    }

    /// The status that was read last, `Submitted` before the first read.
    pub fn status(&self) -> (status: JobStatus)
        ensures
            status == self@.status,
    {
        self.status
    }

    /// Where the result payload lies, once the job has completed.
    pub fn result_location(&self) -> (location: Option<&str>)
        ensures
            optional_text(location) == self@.result_location,
            location is Some ==> self@.status is Completed,
    {
        proof {
            use_type_invariant(self);
        }
        match &self.result_location {
            Some(location) => Some(location.as_str()),
            None => None,
        }
    }

    /// Why the job failed, if it did and the service said why.
    pub fn failure_reason(&self) -> (reason: Option<&str>)
        ensures
            optional_text(reason) == self@.failure_reason,
            reason is Some ==> self@.status is Failed,
    {
        proof {
            use_type_invariant(self);
        }
        match &self.failure_reason {
            Some(reason) => Some(reason.as_str()),
            None => None,
        }
    }
}

} // verus!
