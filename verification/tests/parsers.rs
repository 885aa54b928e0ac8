//! Tests of the three document parsers on realistic documents.

use nsg_cli::errors::ParseError;
use nsg_cli::events::XmlEvent;
use nsg_cli::list::parse_job_list;
use nsg_cli::manifest::parse_output_files;
use nsg_cli::status::{parse_job_status, parse_job_status_events};

const STATUS_DOC: &str = "\
<jobstatus>\
  <selfUri>\
    <url>https://nsgr.sdsc.edu:8443/cipresrest/v1/job/alice/NGBW-JOB-1</url>\
    <rel>jobstatus</rel>\
    <title>NGBW-JOB-1</title>\
  </selfUri>\
  <jobHandle>NGBW-JOB-1</jobHandle>\
  <jobStage>COMPLETED</jobStage>\
  <failed>false</failed>\
  <dateSubmitted>2024-01-15T10:00:00-08:00</dateSubmitted>\
  <resultsUri>\
    <url>https://nsgr.sdsc.edu:8443/cipresrest/v1/job/alice/NGBW-JOB-1/output</url>\
  </resultsUri>\
  <messages>\
    <message>\
      <timestamp>2024-01-15T10:00:05-08:00</timestamp>\
      <stage>QUEUE</stage>\
      <text>Added to cluster queue</text>\
    </message>\
    <message>\
      <timestamp>2024-01-15T10:07:22-08:00</timestamp>\
      <stage>COMPLETED</stage>\
      <text>Job finished</text>\
    </message>\
  </messages>\
</jobstatus>";

#[test]
fn status_full_document() {
    let st = parse_job_status(STATUS_DOC).unwrap();
    assert_eq!(st.job_id, "NGBW-JOB-1");
    assert_eq!(st.job_stage, "COMPLETED");
    assert!(!st.failed);
    assert_eq!(st.date_submitted.as_deref(), Some("2024-01-15T10:00:00-08:00"));
    assert_eq!(
        st.self_uri,
        "https://nsgr.sdsc.edu:8443/cipresrest/v1/job/alice/NGBW-JOB-1"
    );
    assert_eq!(
        st.results_uri.as_deref(),
        Some("https://nsgr.sdsc.edu:8443/cipresrest/v1/job/alice/NGBW-JOB-1/output")
    );
    assert_eq!(st.messages.len(), 2);
    assert_eq!(st.messages[0].stage, "QUEUE");
    assert_eq!(st.messages[0].text, "Added to cluster queue");
    assert_eq!(
        st.messages[0].timestamp.as_deref(),
        Some("2024-01-15T10:00:05-08:00")
    );
    assert_eq!(st.messages[1].stage, "COMPLETED");
    assert_eq!(st.messages[1].text, "Job finished");
}

#[test]
fn status_last_job_handle_wins() {
    let doc = "<jobstatus>\
        <jobHandle>NGBW-JOB-OLD</jobHandle>\
        <jobStage>RUNNING</jobStage>\
        <jobHandle>NGBW-JOB-NEW</jobHandle>\
        </jobstatus>";
    let st = parse_job_status(doc).unwrap();
    assert_eq!(st.job_id, "NGBW-JOB-NEW");
}

#[test]
fn status_missing_job_id_fails() {
    let doc = "<jobstatus>\
        <jobStage>RUNNING</jobStage>\
        <failed>false</failed>\
        </jobstatus>";
    let err = parse_job_status(doc).unwrap_err();
    assert_eq!(err, ParseError::MissingJobId);
}

#[test]
fn status_failed_flag_true_literal_only() {
    let doc = "<j><jobHandle>A</jobHandle><failed>true</failed></j>";
    assert!(parse_job_status(doc).unwrap().failed);
    let doc2 = "<j><jobHandle>A</jobHandle><failed>yes</failed></j>";
    assert!(!parse_job_status(doc2).unwrap().failed);
}

#[test]
fn status_first_bare_url_is_self_uri() {
    let doc = "<j>\
        <jobHandle>A</jobHandle>\
        <selfUri><url>first-url</url></selfUri>\
        <otherUri><url>second-url</url></otherUri>\
        <resultsUri><url>results-url</url></resultsUri>\
        </j>";
    let st = parse_job_status(doc).unwrap();
    assert_eq!(st.self_uri, "first-url");
    assert_eq!(st.results_uri.as_deref(), Some("results-url"));
}

#[test]
fn status_results_uri_absent_is_ok() {
    let doc = "<j><jobHandle>A</jobHandle><jobStage>QUEUE</jobStage></j>";
    let st = parse_job_status(doc).unwrap();
    assert!(st.results_uri.is_none());
    assert!(st.date_submitted.is_none());
    assert_eq!(st.self_uri, "");
}

#[test]
fn status_message_with_empty_text_is_valid() {
    let doc = "<j><jobHandle>A</jobHandle>\
        <message><stage>QUEUE</stage></message>\
        </j>";
    let st = parse_job_status(doc).unwrap();
    assert_eq!(st.messages.len(), 1);
    assert_eq!(st.messages[0].stage, "QUEUE");
    assert_eq!(st.messages[0].text, "");
    assert!(st.messages[0].timestamp.is_none());
}

#[test]
fn status_malformed_document_reports_position() {
    let doc = "<jobstatus><jobHandle>A</wrong></jobstatus>";
    let err = parse_job_status(doc).unwrap_err();
    assert!(matches!(err, ParseError::Malformed { .. }));
}

#[test]
fn status_round_trip_known_fields() {
    let built = nsg_cli::models::JobStatus {
        job_id: "NGBW-JOB-42".to_string(),
        job_stage: "RUNNING".to_string(),
        failed: false,
        date_submitted: Some("2024-02-01T08:30:00-08:00".to_string()),
        self_uri: "https://nsgr.sdsc.edu:8443/cipresrest/v1/job/bob/NGBW-JOB-42".to_string(),
        results_uri: None,
        messages: vec![
            nsg_cli::models::JobMessage {
                stage: "QUEUE".to_string(),
                text: "queued".to_string(),
                timestamp: Some("2024-02-01T08:30:05-08:00".to_string()),
            },
            nsg_cli::models::JobMessage {
                stage: "RUNNING".to_string(),
                text: "started".to_string(),
                timestamp: None,
            },
        ],
    };
    let doc = format!(
        "<jobstatus>\
         <selfUri><url>{}</url></selfUri>\
         <jobHandle>{}</jobHandle>\
         <jobStage>{}</jobStage>\
         <failed>false</failed>\
         <dateSubmitted>{}</dateSubmitted>\
         <messages>\
         <message><stage>QUEUE</stage><text>queued</text>\
         <timestamp>2024-02-01T08:30:05-08:00</timestamp></message>\
         <message><stage>RUNNING</stage><text>started</text></message>\
         </messages>\
         </jobstatus>",
        built.self_uri,
        built.job_id,
        built.job_stage,
        built.date_submitted.as_deref().unwrap(),
    );
    let parsed = parse_job_status(&doc).unwrap();
    assert_eq!(parsed.job_id, built.job_id);
    assert_eq!(parsed.job_stage, built.job_stage);
    assert_eq!(parsed.failed, built.failed);
    assert_eq!(parsed.date_submitted, built.date_submitted);
    assert_eq!(parsed.self_uri, built.self_uri);
    assert_eq!(parsed.results_uri, built.results_uri);
    assert_eq!(parsed.messages.len(), built.messages.len());
    for (p, b) in parsed.messages.iter().zip(built.messages.iter()) {
        assert_eq!(p.stage, b.stage);
        assert_eq!(p.text, b.text);
        assert_eq!(p.timestamp, b.timestamp);
    }
}

#[test]
fn status_event_level_parse() {
    let events = vec![
        XmlEvent::Start("jobHandle".to_string()),
        XmlEvent::Text("NGBW-JOB-7".to_string()),
        XmlEvent::End("jobHandle".to_string()),
        XmlEvent::Start("jobStage".to_string()),
        XmlEvent::Text("QUEUE".to_string()),
        XmlEvent::End("jobStage".to_string()),
    ];
    let st = parse_job_status_events(&events).unwrap();
    assert_eq!(st.job_id, "NGBW-JOB-7");
    assert_eq!(st.job_stage, "QUEUE");
}

#[test]
fn status_event_level_missing_id() {
    let events = vec![
        XmlEvent::Start("jobStage".to_string()),
        XmlEvent::Text("QUEUE".to_string()),
        XmlEvent::End("jobStage".to_string()),
    ];
    assert_eq!(
        parse_job_status_events(&events).unwrap_err(),
        ParseError::MissingJobId
    );
}

#[test]
fn list_two_complete_entries_in_order() {
    let doc = "<joblist><jobs>\
        <jobstatus><selfUri>\
          <url>https://nsgr.sdsc.edu:8443/cipresrest/v1/job/alice/NGBW-JOB-1</url>\
          <rel>jobstatus</rel>\
          <title>NGBW-JOB-1</title>\
        </selfUri></jobstatus>\
        <jobstatus><selfUri>\
          <url>https://nsgr.sdsc.edu:8443/cipresrest/v1/job/alice/NGBW-JOB-2</url>\
          <rel>jobstatus</rel>\
          <title>NGBW-JOB-2</title>\
        </selfUri></jobstatus>\
        </jobs></joblist>";
    let jobs = parse_job_list(doc).unwrap();
    assert_eq!(jobs.len(), 2);
    assert_eq!(jobs[0].job_id, "NGBW-JOB-1");
    assert_eq!(
        jobs[0].url,
        "https://nsgr.sdsc.edu:8443/cipresrest/v1/job/alice/NGBW-JOB-1"
    );
    assert_eq!(jobs[1].job_id, "NGBW-JOB-2");
}

#[test]
fn list_entry_missing_title_is_dropped() {
    let doc = "<joblist><jobs>\
        <jobstatus><selfUri>\
          <url>https://host/a</url>\
        </selfUri></jobstatus>\
        <jobstatus><selfUri>\
          <url>https://host/b</url>\
          <title>NGBW-JOB-B</title>\
        </selfUri></jobstatus>\
        </jobs></joblist>";
    let jobs = parse_job_list(doc).unwrap();
    assert_eq!(jobs.len(), 1);
    assert_eq!(jobs[0].job_id, "NGBW-JOB-B");
    assert_eq!(jobs[0].url, "https://host/b");
}

#[test]
fn list_title_outside_block_is_ignored() {
    let doc = "<joblist><title>all jobs</title><jobs>\
        <jobstatus><selfUri>\
          <url>https://host/a</url><title>NGBW-JOB-A</title>\
        </selfUri></jobstatus>\
        </jobs></joblist>";
    let jobs = parse_job_list(doc).unwrap();
    assert_eq!(jobs.len(), 1);
    assert_eq!(jobs[0].job_id, "NGBW-JOB-A");
}

#[test]
fn list_empty_document() {
    let jobs = parse_job_list("<joblist><jobs></jobs></joblist>").unwrap();
    assert!(jobs.is_empty());
}

#[test]
fn list_malformed_reports_error() {
    assert!(parse_job_list("<joblist><selfUri></wrong></joblist>").is_err());
}

const MANIFEST_DOC: &str = "\
<results><jobfiles>\
  <jobfile>\
    <downloadUri>\
      <url>https://nsgr.sdsc.edu:8443/cipresrest/v1/job/alice/NGBW-JOB-1/output/1</url>\
      <rel>fileDownload</rel>\
      <title>STDOUT</title>\
    </downloadUri>\
    <filename>stdout.txt</filename>\
    <length>24000</length>\
    <parameterName>STDOUT</parameterName>\
  </jobfile>\
  <jobfile>\
    <downloadUri>\
      <url>https://nsgr.sdsc.edu:8443/cipresrest/v1/job/alice/NGBW-JOB-1/output/2</url>\
    </downloadUri>\
    <filename>stderr.txt</filename>\
    <length>512</length>\
  </jobfile>\
</jobfiles></results>";

#[test]
fn manifest_complete_entries() {
    let files = parse_output_files(MANIFEST_DOC).unwrap();
    assert_eq!(files.len(), 2);
    assert_eq!(files[0].filename, "stdout.txt");
    assert_eq!(files[0].size, 24000);
    assert_eq!(
        files[0].download_uri,
        "https://nsgr.sdsc.edu:8443/cipresrest/v1/job/alice/NGBW-JOB-1/output/1"
    );
    assert_eq!(files[1].filename, "stderr.txt");
    assert_eq!(files[1].size, 512);
}

#[test]
fn manifest_entry_missing_filename_dropped() {
    let doc = "<results>\
        <jobfile>\
          <downloadUri><url>https://host/1</url></downloadUri>\
          <length>10</length>\
        </jobfile>\
        <jobfile>\
          <downloadUri><url>https://host/2</url></downloadUri>\
          <filename>kept.txt</filename>\
          <length>20</length>\
        </jobfile>\
        </results>";
    let files = parse_output_files(doc).unwrap();
    assert_eq!(files.len(), 1);
    assert_eq!(files[0].filename, "kept.txt");
}

#[test]
fn manifest_entry_missing_uri_dropped() {
    let doc = "<results>\
        <jobfile>\
          <filename>lost.txt</filename>\
          <length>10</length>\
        </jobfile>\
        </results>";
    assert!(parse_output_files(doc).unwrap().is_empty());
}

#[test]
fn manifest_entry_missing_size_dropped() {
    let doc = "<results>\
        <jobfile>\
          <downloadUri><url>https://host/1</url></downloadUri>\
          <filename>lost.txt</filename>\
        </jobfile>\
        </results>";
    assert!(parse_output_files(doc).unwrap().is_empty());
}

#[test]
fn manifest_non_numeric_size_drops_entry() {
    let doc = "<results>\
        <jobfile>\
          <downloadUri><url>https://host/1</url></downloadUri>\
          <filename>lost.txt</filename>\
          <length>not-a-number</length>\
        </jobfile>\
        </results>";
    assert!(parse_output_files(doc).unwrap().is_empty());
}

#[test]
fn manifest_url_outside_download_ref_not_captured() {
    let doc = "<results>\
        <jobfile>\
          <url>https://host/wrong</url>\
          <filename>lost.txt</filename>\
          <length>10</length>\
        </jobfile>\
        </results>";
    assert!(parse_output_files(doc).unwrap().is_empty());
}

#[test]
fn manifest_malformed_reports_error() {
    assert!(matches!(
        parse_output_files("<results><jobfile></wrong></results>"),
        Err(ParseError::Malformed { .. })
    ));
}
