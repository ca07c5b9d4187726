use distill::error::InputError;
use distill::job::{
    diarization_settings, fresh_job_name, job_name, JobRecord, JobStatus, TranscriptionJob,
    MAX_SPEAKER_LABELS,
};
use distill::language::LanguageCode;
use distill::media::MediaFormat;
use distill::orchestrator::{
    next_interval, Action, JobOutcome, Orchestrator, Phase, ServiceEvent, TranscribeError,
    INITIAL_POLL_INTERVAL, MAX_POLL_INTERVAL,
};
use distill::payload::ParseError;

/// A job service that answers from a script and counts what it is asked.
struct ScriptedService {
    submissions: usize,
    reads: usize,
    fetches: usize,
    sleeps: Vec<u64>,
    accept: bool,
    records: Vec<Result<JobRecord, String>>,
    payload: Result<String, String>,
}

impl ScriptedService {
    fn new(records: Vec<Result<JobRecord, String>>) -> ScriptedService {
        ScriptedService {
            submissions: 0,
            reads: 0,
            fetches: 0,
            sleeps: Vec::new(),
            accept: true,
            records,
            payload: Err("no payload".to_string()),
        }
    }

    fn run(
        &mut self,
        language_code: &str,
        media_format: Result<MediaFormat, InputError>,
    ) -> Result<Result<JobOutcome, TranscribeError>, InputError> {
        let mut machine = Orchestrator::start(
            "transcription-test".to_string(),
            "s3://bucket/audio.mp3",
            language_code,
            media_format,
        )?;
        self.submissions += 1;
        let mut event = if self.accept {
            ServiceEvent::SubmissionAccepted
        } else {
            ServiceEvent::SubmissionRejected { reason: "rejected".to_string() }
        };
        let mut records = std::mem::take(&mut self.records).into_iter();
        loop {
            match machine.step(event) {
                Action::ReadStatus { delay_seconds } => {
                    if delay_seconds > 0 {
                        self.sleeps.push(delay_seconds);
                    }
                    self.reads += 1;
                    event = match records.next().expect("the script has run out of records") {
                        Ok(record) => ServiceEvent::StatusRead { record },
                        Err(reason) => ServiceEvent::StatusUnavailable { reason },
                    };
                }
                Action::FetchPayload { uri } => {
                    assert_eq!(machine.job().result_location(), Some(uri.as_str()));
                    self.fetches += 1;
                    event = match self.payload.clone() {
                        Ok(body) => ServiceEvent::PayloadFetched { body },
                        Err(reason) => ServiceEvent::PayloadUnavailable { reason },
                    };
                }
                Action::Finish { outcome } => {
                    assert_eq!(machine.phase(), Phase::Finished);
                    return Ok(Ok(outcome));
                }
                Action::Abort { error } => {
                    assert_eq!(machine.phase(), Phase::Finished);
                    return Ok(Err(error));
                }
            }
        }
    }
}

fn record(status: JobStatus) -> Result<JobRecord, String> {
    Ok(JobRecord { status, result_location: None, failure_reason: None })
}

fn completed(uri: &str) -> Result<JobRecord, String> {
    Ok(JobRecord {
        status: JobStatus::Completed,
        result_location: Some(uri.to_string()),
        failure_reason: None,
    })
}

fn failed(reason: Option<&str>) -> Result<JobRecord, String> {
    Ok(JobRecord {
        status: JobStatus::Failed,
        result_location: None,
        failure_reason: reason.map(|text| text.to_string()),
    })
}

const PAYLOAD: &str = "{\"results\":{\"items\":[\
    {\"type\":\"pronunciation\",\"alternatives\":[{\"content\":\"Hello\"}],\"speaker_label\":\"A\"},\
    {\"type\":\"pronunciation\",\"alternatives\":[{\"content\":\"there\"}],\"speaker_label\":\"A\"},\
    {\"type\":\"punctuation\",\"alternatives\":[{\"content\":\".\"}]},\
    {\"type\":\"pronunciation\",\"alternatives\":[{\"content\":\"Hi\"}],\"speaker_label\":\"B\"},\
    {\"type\":\"punctuation\",\"alternatives\":[{\"content\":\"!\"}]}]}}";

#[test]
fn three_reads_with_doubling_delay() {
    let mut service = ScriptedService::new(vec![
        record(JobStatus::InProgress),
        record(JobStatus::InProgress),
        completed("https://example.com/result.json"),
    ]);
    service.payload = Ok(PAYLOAD.to_string());
    let outcome = service.run("en-US", Ok(MediaFormat::Mp3)).unwrap().unwrap();
    assert_eq!(service.submissions, 1);
    assert_eq!(service.reads, 3);
    assert_eq!(service.sleeps, vec![5, 10]);
    assert_eq!(service.fetches, 1);
    match outcome {
        JobOutcome::Transcript { text } => assert_eq!(text, "A: Hello there.\nB: Hi!\n"),
        other => panic!("unexpected outcome {:?}", other),
    }
}

#[test]
fn submitted_status_is_polled_like_in_progress() {
    let mut service = ScriptedService::new(vec![
        record(JobStatus::Submitted),
        record(JobStatus::Submitted),
        record(JobStatus::InProgress),
        record(JobStatus::InProgress),
        failed(None),
    ]);
    let outcome = service.run("en-US", Ok(MediaFormat::Wav)).unwrap().unwrap();
    assert_eq!(service.reads, 5);
    assert_eq!(service.sleeps, vec![5, 10, 20, 40]);
    assert!(matches!(outcome, JobOutcome::Failed { reason: None }));
}

#[test]
fn failed_job_carries_the_reason() {
    let mut service = ScriptedService::new(vec![
        record(JobStatus::InProgress),
        failed(Some("insufficient audio quality")),
    ]);
    let outcome = service.run("en-GB", Ok(MediaFormat::Flac)).unwrap().unwrap();
    assert_eq!(service.reads, 2);
    assert_eq!(service.fetches, 0);
    match &outcome {
        JobOutcome::Failed { reason } => {
            assert_eq!(reason.as_deref(), Some("insufficient audio quality"))
        }
        other => panic!("unexpected outcome {:?}", other),
    }
    assert_eq!(outcome.describe(), "Transcription job failed: insufficient audio quality");
}

#[test]
fn failed_job_without_reason_is_reported() {
    let mut service = ScriptedService::new(vec![failed(None)]);
    let outcome = service.run("en-US", Ok(MediaFormat::Mp3)).unwrap().unwrap();
    assert_eq!(service.reads, 1);
    assert!(service.sleeps.is_empty());
    assert_eq!(outcome.describe(), "Transcription job failed for an unknown reason.");
}

#[test]
fn unsupported_language_is_rejected_before_any_call() {
    let mut service = ScriptedService::new(vec![record(JobStatus::InProgress)]);
    let outcome = service.run("xx-YY", Ok(MediaFormat::Mp3));
    match outcome {
        Err(InputError::UnsupportedLanguage { code }) => assert_eq!(code, "xx-YY"),
        other => panic!("unexpected outcome {:?}", other),
    }
    assert_eq!(service.submissions, 0);
    assert_eq!(service.reads, 0);
    assert_eq!(service.fetches, 0);
}

#[test]
fn unresolved_media_format_is_rejected_before_any_call() {
    let mut service = ScriptedService::new(Vec::new());
    let outcome = service.run("en-US", Err(InputError::UndeterminedMediaFormat));
    assert!(matches!(outcome, Err(InputError::UndeterminedMediaFormat)));
    assert_eq!(service.submissions, 0);
    let mut service = ScriptedService::new(Vec::new());
    let outcome = service.run(
        "xx-YY",
        Err(InputError::UnsupportedMediaFormat { mime_type: "image/png".to_string() }),
    );
    match outcome {
        Err(InputError::UnsupportedMediaFormat { mime_type }) => assert_eq!(mime_type, "image/png"),
        other => panic!("unexpected outcome {:?}", other),
    }
    assert_eq!(service.submissions, 0);
}

#[test]
fn rejected_submission_is_fatal() {
    let mut service = ScriptedService::new(Vec::new());
    service.accept = false;
    let outcome = service.run("en-US", Ok(MediaFormat::Mp3)).unwrap();
    match outcome {
        Err(TranscribeError::Submission { reason }) => assert_eq!(reason, "rejected"),
        other => panic!("unexpected outcome {:?}", other),
    }
    assert_eq!(service.submissions, 1);
    assert_eq!(service.reads, 0);
}

#[test]
fn failed_status_read_is_fatal() {
    let mut service =
        ScriptedService::new(vec![record(JobStatus::InProgress), Err("timed out".to_string())]);
    let outcome = service.run("en-US", Ok(MediaFormat::Mp3)).unwrap();
    match &outcome {
        Err(error) => {
            assert!(matches!(error, TranscribeError::PollingTransport { .. }));
            assert_eq!(error.message(), "timed out");
        }
        other => panic!("unexpected outcome {:?}", other),
    }
    assert_eq!(service.reads, 2);
}

#[test]
fn completed_without_location_is_missing_result() {
    let mut service = ScriptedService::new(vec![record(JobStatus::Completed)]);
    let outcome = service.run("en-US", Ok(MediaFormat::Mp3)).unwrap().unwrap();
    assert!(matches!(outcome, JobOutcome::MissingResult));
    assert_eq!(outcome.describe(), "Transcript file URI is missing.");
    assert_eq!(service.fetches, 0);
}

#[test]
fn unknown_status_ends_polling() {
    let mut service = ScriptedService::new(vec![
        record(JobStatus::InProgress),
        record(JobStatus::Unknown),
        record(JobStatus::InProgress),
    ]);
    let outcome = service.run("en-US", Ok(MediaFormat::Mp3)).unwrap().unwrap();
    assert!(matches!(outcome, JobOutcome::Indeterminate));
    assert_eq!(
        outcome.describe(),
        "Job ended with an unexpected status or status could not be determined."
    );
    assert_eq!(service.reads, 2);
}

#[test]
fn malformed_payload_is_a_parse_error() {
    let mut service = ScriptedService::new(vec![completed("https://example.com/r.json")]);
    service.payload = Ok("{\"results\":{\"items\":[{\"type\":\"pronunciation\",\
        \"alternatives\":[{\"content\":\"x\"}]}]}}"
        .to_string());
    let outcome = service.run("en-US", Ok(MediaFormat::Mp3)).unwrap();
    match &outcome {
        Err(TranscribeError::Parse { error }) => {
            assert_eq!(*error, ParseError::MissingSpeakerLabel { index: 0 })
        }
        other => panic!("unexpected outcome {:?}", other),
    }
    assert_eq!(outcome.unwrap_err().message(), "Missing 'speaker_label' data");
}

#[test]
fn payload_that_cannot_be_fetched_is_fatal() {
    let mut service = ScriptedService::new(vec![completed("https://example.com/r.json")]);
    service.payload = Err("connection reset".to_string());
    let outcome = service.run("en-US", Ok(MediaFormat::Mp3)).unwrap();
    match outcome {
        Err(TranscribeError::Fetch { reason }) => assert_eq!(reason, "connection reset"),
        other => panic!("unexpected outcome {:?}", other),
    }
    assert_eq!(service.fetches, 1);
}

#[test]
fn transcript_outcome_describes_itself_as_the_text() {
    let outcome = JobOutcome::Transcript { text: "A: Hi\n".to_string() };
    assert_eq!(outcome.describe(), "A: Hi\n");
}

#[test]
fn unexpected_event_stops_the_machine() {
    let mut machine =
        Orchestrator::start("id".to_string(), "s3://b/k", "de-DE", Ok(MediaFormat::Ogg)).unwrap();
    assert_eq!(machine.phase(), Phase::AwaitingSubmission);
    assert_eq!(machine.interval(), INITIAL_POLL_INTERVAL);
    let action = machine.step(ServiceEvent::PayloadFetched { body: "{}".to_string() });
    match &action {
        Action::Abort { error } => {
            assert!(matches!(error, TranscribeError::UnexpectedEvent));
            assert_eq!(error.message(), "Unexpected event for the current phase");
        }
        other => panic!("unexpected action {:?}", other),
    }
    assert_eq!(machine.phase(), Phase::Finished);
    let again = machine.step(ServiceEvent::SubmissionAccepted);
    assert!(matches!(again, Action::Abort { error: TranscribeError::UnexpectedEvent }));
    assert_eq!(machine.phase(), Phase::Finished);
}

#[test]
fn machine_walks_through_its_phases() {
    let mut machine =
        Orchestrator::start("id".to_string(), "s3://b/k", "fr-FR", Ok(MediaFormat::Mp4)).unwrap();
    assert_eq!(machine.job().id(), "id");
    assert_eq!(machine.job().media_reference(), "s3://b/k");
    assert_eq!(machine.job().language_code().as_str(), "fr-FR");
    assert_eq!(machine.job().media_format(), MediaFormat::Mp4);
    assert_eq!(machine.job().status(), JobStatus::Submitted);
    let first = machine.step(ServiceEvent::SubmissionAccepted);
    assert!(matches!(first, Action::ReadStatus { delay_seconds: 0 }));
    assert_eq!(machine.phase(), Phase::AwaitingStatus);
    let second = machine.step(ServiceEvent::StatusRead {
        record: JobRecord {
            status: JobStatus::InProgress,
            result_location: Some("ignored".to_string()),
            failure_reason: Some("ignored".to_string()),
        },
    });
    assert!(matches!(second, Action::ReadStatus { delay_seconds: 5 }));
    assert_eq!(machine.interval(), 10);
    assert_eq!(machine.job().status(), JobStatus::InProgress);
    assert_eq!(machine.job().result_location(), None);
    assert_eq!(machine.job().failure_reason(), None);
    let third = machine.step(ServiceEvent::StatusRead {
        record: JobRecord {
            status: JobStatus::Completed,
            result_location: Some("https://example.com/r.json".to_string()),
            failure_reason: Some("ignored".to_string()),
        },
    });
    match third {
        Action::FetchPayload { uri } => assert_eq!(uri, "https://example.com/r.json"),
        other => panic!("unexpected action {:?}", other),
    }
    assert_eq!(machine.phase(), Phase::AwaitingPayload);
    assert_eq!(machine.job().status(), JobStatus::Completed);
    assert_eq!(machine.job().result_location(), Some("https://example.com/r.json"));
    assert_eq!(machine.job().failure_reason(), None);
    let last = machine.step(ServiceEvent::PayloadFetched { body: PAYLOAD.to_string() });
    assert!(matches!(last, Action::Finish { outcome: JobOutcome::Transcript { .. } }));
    assert_eq!(machine.phase(), Phase::Finished);
}

#[test]
fn interval_doubles_up_to_the_cap() {
    assert_eq!(INITIAL_POLL_INTERVAL, 5);
    assert_eq!(MAX_POLL_INTERVAL, u64::MAX);
    assert_eq!(next_interval(5), 10);
    assert_eq!(next_interval(10), 20);
    assert_eq!(next_interval(0), 0);
    assert_eq!(next_interval(u64::MAX / 2), u64::MAX - 1);
    assert_eq!(next_interval(u64::MAX / 2 + 1), u64::MAX);
    assert_eq!(next_interval(u64::MAX), u64::MAX);
    let mut interval = INITIAL_POLL_INTERVAL;
    let mut polls = 0;
    while polls < 70 {
        let next = next_interval(interval);
        assert!(next >= interval);
        interval = next;
        polls += 1;
    }
    assert_eq!(interval, MAX_POLL_INTERVAL);
}

#[test]
fn job_takes_over_what_a_read_brings() {
    let language = LanguageCode::parse("en-US").unwrap();
    let mut job = TranscriptionJob::new(
        "transcription-1".to_string(),
        "s3://b/k".to_string(),
        language,
        MediaFormat::Mp3,
    );
    assert_eq!(job.status(), JobStatus::Submitted);
    assert_eq!(job.result_location(), None);
    assert_eq!(job.settings(), diarization_settings());
    job.update(JobRecord {
        status: JobStatus::Failed,
        result_location: Some("https://example.com/r.json".to_string()),
        failure_reason: Some("bad audio".to_string()),
    });
    assert_eq!(job.status(), JobStatus::Failed);
    assert_eq!(job.result_location(), None);
    assert_eq!(job.failure_reason(), Some("bad audio"));
    job.update(JobRecord {
        status: JobStatus::Completed,
        result_location: Some("https://example.com/r.json".to_string()),
        failure_reason: Some("bad audio".to_string()),
    });
    assert_eq!(job.result_location(), Some("https://example.com/r.json"));
    assert_eq!(job.failure_reason(), None);
}

#[test]
fn status_is_terminal_unless_the_job_is_under_way() {
    assert!(!JobStatus::Submitted.is_terminal());
    assert!(!JobStatus::InProgress.is_terminal());
    assert!(JobStatus::Completed.is_terminal());
    assert!(JobStatus::Failed.is_terminal());
    assert!(JobStatus::Unknown.is_terminal());
}

#[test]
fn status_is_read_off_the_name_of_the_service() {
    assert_eq!(JobStatus::from_service_name(Some("QUEUED")), JobStatus::Submitted);
    assert_eq!(JobStatus::from_service_name(Some("IN_PROGRESS")), JobStatus::InProgress);
    assert_eq!(JobStatus::from_service_name(Some("COMPLETED")), JobStatus::Completed);
    assert_eq!(JobStatus::from_service_name(Some("FAILED")), JobStatus::Failed);
    assert_eq!(JobStatus::from_service_name(Some("CANCELLED")), JobStatus::Unknown);
    assert_eq!(JobStatus::from_service_name(Some("completed")), JobStatus::Unknown);
    assert_eq!(JobStatus::from_service_name(Some("")), JobStatus::Unknown);
    assert_eq!(JobStatus::from_service_name(None), JobStatus::Unknown);
}

#[test]
fn settings_ask_for_speaker_labels() {
    let settings = diarization_settings();
    assert!(settings.show_speaker_labels);
    assert_eq!(settings.max_speaker_labels, 10);
    assert_eq!(MAX_SPEAKER_LABELS, 10);
    assert!(!settings.channel_identification);
}

#[test]
fn job_name_puts_the_token_behind_the_prefix() {
    assert_eq!(job_name("abc"), "transcription-abc");
    assert_eq!(job_name(""), "transcription-");
}

#[test]
fn fresh_job_name_holds_a_hyphenated_uuid() {
    let name = fresh_job_name();
    let token = name.strip_prefix("transcription-").expect("prefix");
    assert_eq!(token.len(), 36);
    for (index, c) in token.chars().enumerate() {
        if index == 8 || index == 13 || index == 18 || index == 23 {
            assert_eq!(c, '-');
        } else {
            assert!(c.is_ascii_digit() || ('a'..='f').contains(&c));
        }
    }
    assert_eq!(uuid::Uuid::parse_str(token).unwrap().get_version_num(), 4);
    assert_ne!(fresh_job_name(), name);
}

#[test]
fn begin_names_the_job_and_settles_the_format() {
    let mut content = vec![0x49, 0x44, 0x33, 0x04];
    content.extend_from_slice(&[0u8; 64]);
    let machine = Orchestrator::begin("s3://b/talk.mp3", "en-US", &content, Some("mp3")).unwrap();
    assert!(machine.job().id().starts_with("transcription-"));
    assert_eq!(machine.job().id().len(), "transcription-".len() + 36);
    assert_eq!(machine.job().media_format(), MediaFormat::Mp3);
    assert_eq!(machine.phase(), Phase::AwaitingSubmission);
    let unknown = Orchestrator::begin("s3://b/talk.bin", "en-US", &[1, 2, 3], Some("bin"));
    assert!(matches!(unknown, Err(InputError::UndeterminedMediaFormat)));
    let language = Orchestrator::begin("s3://b/talk.mp3", "xx-YY", &content, None);
    assert!(matches!(language, Err(InputError::UnsupportedLanguage { .. })));
}
