use distill::report::{markdown_document, plain_document};
use distill::storage::{bucket_is_listed, bucket_region_name, object_uri};
use distill::summary::{compose_prompt, extract_summary, summary_from_document, SummaryError};

#[test]
fn prompt_is_template_then_transcript() {
    assert_eq!(compose_prompt("Summarize:", "A: Hi\n"), "Summarize:\n\nA: Hi\n");
    assert_eq!(compose_prompt("", ""), "\n\n");
}

#[test]
fn summary_is_taken_from_the_first_content() {
    let answer = "{\"id\":\"msg\",\"content\":[{\"type\":\"text\",\"text\":\"Short.\"},{\"type\":\"text\",\"text\":\"Other\"}]}";
    assert_eq!(extract_summary(answer), Ok("Short.".to_string()));
}

#[test]
fn escaped_line_feeds_become_line_feeds() {
    let answer = "{\"content\":[{\"text\":\"one\\\\ntwo\\\\n\\\\nthree\"}]}";
    assert_eq!(extract_summary(answer), Ok("one\ntwo\n\nthree".to_string()));
    let real = "{\"content\":[{\"text\":\"one\\ntwo\"}]}";
    assert_eq!(extract_summary(real), Ok("one\ntwo".to_string()));
    let backslashes = "{\"content\":[{\"text\":\"a\\\\\\\\nb\\\\\"}]}";
    assert_eq!(extract_summary(backslashes), Ok("a\\\nb\\".to_string()));
}

#[test]
fn answer_without_text_is_rejected() {
    assert_eq!(extract_summary("{}"), Err(SummaryError::MissingText));
    assert_eq!(extract_summary("{\"content\":[]}"), Err(SummaryError::MissingText));
    assert_eq!(extract_summary("{\"content\":[{\"text\":5}]}"), Err(SummaryError::MissingText));
    assert_eq!(extract_summary("{\"content\":{\"text\":\"x\"}}"), Err(SummaryError::MissingText));
    assert_eq!(extract_summary(""), Err(SummaryError::InvalidJson));
    assert_eq!(extract_summary("summary"), Err(SummaryError::InvalidJson));
}

#[test]
fn parsed_answer_gives_its_summary() {
    let document: serde_json::Value =
        serde_json::from_str("{\"content\":[{\"text\":\"a\\\\nb\"}]}").unwrap();
    assert_eq!(summary_from_document(&document), Ok("a\nb".to_string()));
    assert_eq!(
        summary_from_document(&serde_json::Value::Bool(true)),
        Err(SummaryError::MissingText)
    );
}

#[test]
fn empty_location_constraint_is_the_default_region() {
    assert_eq!(bucket_region_name(""), "us-east-1");
    assert_eq!(bucket_region_name("eu-west-1"), "eu-west-1");
    assert_eq!(bucket_region_name("EU"), "EU");
}

#[test]
fn object_uri_names_bucket_and_key() {
    assert_eq!(object_uri("bucket", "talk.mp3"), "s3://bucket/talk.mp3");
    assert_eq!(object_uri("b", "dir/talk one.mp3"), "s3://b/dir/talk one.mp3");
    assert_eq!(object_uri("", ""), "s3:///");
}

#[test]
fn bucket_is_found_by_its_exact_name() {
    let buckets = vec!["alpha".to_string(), "beta".to_string(), "gamma".to_string()];
    assert!(bucket_is_listed(&buckets, "alpha"));
    assert!(bucket_is_listed(&buckets, "gamma"));
    assert!(!bucket_is_listed(&buckets, "delta"));
    assert!(!bucket_is_listed(&buckets, "Alpha"));
    assert!(!bucket_is_listed(&buckets, ""));
    assert!(!bucket_is_listed(&Vec::new(), "alpha"));
}

#[test]
fn plain_document_puts_the_heading_between() {
    assert_eq!(
        plain_document("Summary.", "spk_0: Hi\n"),
        "Summary.\n\nTranscription:\nspk_0: Hi\n"
    );
}

#[test]
fn markdown_document_sets_speakers_apart() {
    assert_eq!(
        markdown_document("Summary.", "spk_0: Hi\nspk_1: Hello\n"),
        "# Summary\n\nSummary.\n\n# Transcription\n\n\nspk_0: Hi\n\nspk_1: Hello\n"
    );
    assert_eq!(
        markdown_document("About spk_0.", "A: Hi\n"),
        "# Summary\n\nAbout spk_0.\n\n# Transcription\n\nA: Hi\n"
    );
    assert_eq!(markdown_document("", ""), "# Summary\n\n\n\n# Transcription\n\n");
}
