//! Tests of the lifecycle client's decision logic.

use nsg_cli::client::{
    check_connection, handle_list_response, handle_manifest_response, handle_status_response,
    handle_submit_response, submit_form, NsgClient,
};
use nsg_cli::config::Credentials;
use nsg_cli::errors::{NsgError, ValidationFault};
use nsg_cli::models::{JobStatus, OutputFile};

fn client() -> NsgClient {
    NsgClient::new(Credentials::new(
        "alice".to_string(),
        "secret".to_string(),
        "app-key-1".to_string(),
    ))
}

#[test]
fn default_endpoint() {
    let c = client();
    assert_eq!(c.base_url, "https://nsgr.sdsc.edu:8443/cipresrest/v1");
    assert_eq!(c.credentials.username, "alice");
}

#[test]
fn custom_endpoint() {
    let c = NsgClient::new_with_url(
        Credentials::new("a".to_string(), "b".to_string(), "c".to_string()),
        "https://example.org/api".to_string(),
    );
    assert_eq!(c.base_url, "https://example.org/api");
}

#[test]
fn request_parts_carry_credentials() {
    let c = client();
    let r = c.request_parts("/job/alice");
    assert_eq!(
        r.url,
        "https://nsgr.sdsc.edu:8443/cipresrest/v1/job/alice"
    );
    assert_eq!(r.username, "alice");
    assert_eq!(r.password, "secret");
    assert_eq!(r.app_key, "app-key-1");
}

#[test]
fn collection_path_is_account_rooted() {
    assert_eq!(client().collection_path(), "/job/alice");
}

#[test]
fn job_reference_three_forms_resolve_alike() {
    let c = client();
    let bare = c.resolve_job_path("NGBW-JOB-ABC123").unwrap();
    let rooted = c.resolve_job_path("/job/alice/NGBW-JOB-ABC123").unwrap();
    let full = c
        .resolve_job_path(
            "https://nsgr.sdsc.edu:8443/cipresrest/v1/job/alice/NGBW-JOB-ABC123",
        )
        .unwrap();
    assert_eq!(bare, "/job/alice/NGBW-JOB-ABC123");
    assert_eq!(bare, rooted);
    assert_eq!(bare, full);
}

#[test]
fn job_url_outside_endpoint_rejected() {
    let c = client();
    let err = c
        .resolve_job_path("https://elsewhere.example/job/alice/NGBW-JOB-1")
        .unwrap_err();
    assert!(matches!(
        err,
        NsgError::Validation(ValidationFault::JobUrlOutsideEndpoint)
    ));
}

#[test]
fn connection_unauthorized_is_transport_never_parse() {
    match check_connection(401) {
        Err(NsgError::Transport { status, .. }) => assert_eq!(status, 401),
        other => panic!("expected a transport error, got {:?}", other),
    }
    assert!(check_connection(200).is_ok());
    assert!(check_connection(299).is_ok());
    assert!(check_connection(300).is_err());
    assert!(check_connection(500).is_err());
}

#[test]
fn list_response_error_status() {
    match handle_list_response(503, "<ignored/>") {
        Err(NsgError::Transport { status, .. }) => assert_eq!(status, 503),
        other => panic!("expected a transport error, got {:?}", other),
    }
}

#[test]
fn list_response_success_parses_body() {
    let body = "<joblist><jobs>\
        <jobstatus><selfUri>\
          <url>https://host/j1</url><title>J1</title>\
        </selfUri></jobstatus>\
        </jobs></joblist>";
    let jobs = handle_list_response(200, body).unwrap();
    assert_eq!(jobs.len(), 1);
    assert_eq!(jobs[0].job_id, "J1");
}

#[test]
fn status_response_success_parses_body() {
    let body = "<j><jobHandle>NGBW-JOB-9</jobHandle><jobStage>QUEUE</jobStage></j>";
    let st = handle_status_response(200, body).unwrap();
    assert_eq!(st.job_id, "NGBW-JOB-9");
}

#[test]
fn status_response_parse_fault_wrapped() {
    let r = handle_status_response(200, "<j><jobStage>QUEUE</jobStage></j>");
    assert!(matches!(r, Err(NsgError::Parse(_))));
}

#[test]
fn submit_response_error_carries_body() {
    let r = handle_submit_response(400, "Tool PY_EXPANSE rejected the archive");
    match r {
        Err(NsgError::Transport { status, body }) => {
            assert_eq!(status, 400);
            assert_eq!(body, "Tool PY_EXPANSE rejected the archive");
        },
        other => panic!("expected a transport error, got {:?}", other),
    }
}

#[test]
fn submit_form_fixed_parts() {
    let f = submit_form("PY_EXPANSE", Some("run.zip"));
    assert_eq!(f.tool, "PY_EXPANSE");
    assert_eq!(f.file_field, "input.infile_");
    assert_eq!(f.file_name, "run.zip");
    assert_eq!(f.notify_field, "metadata.statusEmail");
    assert_eq!(f.notify_value, "true");
    let g = submit_form("NEURON_EXPANSE", None);
    assert_eq!(g.file_name, "job.zip");
}

fn bare_status(results_uri: Option<String>) -> JobStatus {
    JobStatus {
        job_id: "NGBW-JOB-1".to_string(),
        job_stage: "COMPLETED".to_string(),
        failed: false,
        date_submitted: None,
        self_uri: String::new(),
        results_uri,
        messages: Vec::new(),
    }
}

#[test]
fn results_not_ready_is_distinct() {
    let c = client();
    let err = c.resolve_results_path(&bare_status(None)).unwrap_err();
    assert!(matches!(err, NsgError::ResultsNotReady));
}

#[test]
fn results_path_stripped_to_endpoint() {
    let c = client();
    let st = bare_status(Some(
        "https://nsgr.sdsc.edu:8443/cipresrest/v1/job/alice/NGBW-JOB-1/output".to_string(),
    ));
    assert_eq!(
        c.resolve_results_path(&st).unwrap(),
        "/job/alice/NGBW-JOB-1/output"
    );
}

#[test]
fn results_path_outside_endpoint_rejected() {
    let c = client();
    let st = bare_status(Some("https://elsewhere.example/output".to_string()));
    assert!(matches!(
        c.resolve_results_path(&st).unwrap_err(),
        NsgError::Validation(ValidationFault::ResultsUrlOutsideEndpoint)
    ));
}

#[test]
fn download_path_resolution() {
    let c = client();
    let ok = OutputFile {
        filename: "stdout.txt".to_string(),
        download_uri: "https://nsgr.sdsc.edu:8443/cipresrest/v1/job/alice/NGBW-JOB-1/output/1"
            .to_string(),
        size: 10,
    };
    assert_eq!(
        c.resolve_download_path(&ok).unwrap(),
        "/job/alice/NGBW-JOB-1/output/1"
    );
    let bad = OutputFile {
        filename: "x".to_string(),
        download_uri: "https://elsewhere.example/1".to_string(),
        size: 1,
    };
    assert!(matches!(
        c.resolve_download_path(&bad).unwrap_err(),
        NsgError::Validation(ValidationFault::DownloadUrlOutsideEndpoint)
    ));
}

#[test]
fn manifest_response_success_parses_body() {
    let body = "<results><jobfile>\
        <downloadUri><url>https://host/1</url></downloadUri>\
        <filename>out.txt</filename><length>7</length>\
        </jobfile></results>";
    let files = handle_manifest_response(200, body).unwrap();
    assert_eq!(files.len(), 1);
    assert_eq!(files[0].size, 7);
}
