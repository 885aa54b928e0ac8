//! The lifecycle client's decision logic: the endpoint and credentials, the
//! request values attached to every call, the normalization of the three
//! accepted job-reference forms to one request path, the classification of
//! every HTTP response, and the construction of the submit form. The
//! caller's shell performs the HTTP exchanges and hands status codes and
//! bodies back to these functions.

use vstd::prelude::*;
use crate::config::Credentials;
use crate::errors::{NsgError, ParseError, ValidationFault};
use crate::events::{doc_events, doc_terminal};
use crate::list::{parse_job_list, spec_parse_list};
use crate::manifest::{parse_output_files, spec_parse_files};
use crate::models::{JobStatus, JobSummary, OutputFile};
use crate::status::{parse_job_status, spec_parse_status};
use crate::strutil::{spec_starts_with, str_concat, str_starts_with, str_strip_prefix};

verus! {

/// The fixed service endpoint.
pub open spec fn spec_default_base_url() -> Seq<char> {
    "https://nsgr.sdsc.edu:8443/cipresrest/v1"@
}

/// Whether an HTTP status code reports success.
pub open spec fn is_http_success(status: u16) -> bool {
    200 <= status < 300
}

/// The name of the custom header that carries the application key on every
/// request.
pub fn app_key_header() -> (r: String)
    ensures
        r@ == "cipres-appkey"@,
{
    "cipres-appkey".to_owned()
}

/// The values attached to one request: the full URL, the basic-auth pair,
/// and the application key carried in the service's custom header.
pub struct RequestParts {
    pub url: String,
    pub username: String,
    pub password: String,
    pub app_key: String,
}

/// The three parts of the multipart submit form: the tool identifier, the
/// archive part under its fixed field name, and the fixed flag requesting
/// status-change notification.
pub struct SubmitForm {
    pub tool: String,
    pub file_field: String,
    pub file_name: String,
    pub notify_field: String,
    pub notify_value: String,
}

/// Where the three accepted job-reference forms resolve: a fully-qualified
/// URL under the endpoint loses the endpoint prefix, a rooted path stands as
/// it is, and a bare identifier is rooted under the account's job
/// collection. A fully-qualified URL outside the endpoint is rejected.
pub open spec fn spec_resolve_job_path(user: Seq<char>, base: Seq<char>, j: Seq<char>) -> Result<
    Seq<char>,
    ValidationFault,
> {
    if spec_starts_with(j, "http"@) {
        if spec_starts_with(j, base) {
            Ok(j.skip(base.len() as int))
        } else {
            Err(ValidationFault::JobUrlOutsideEndpoint)
        }
    } else if spec_starts_with(j, "/job/"@) {
        Ok(j)
    } else {
        Ok("/job/"@ + user + "/"@ + j)
    }
}

/// The authenticated client: the endpoint and the credentials attached to
/// every request.
pub struct NsgClient {
    pub credentials: Credentials,
    pub base_url: String,
}

impl NsgClient {
    /// A client against the fixed service endpoint.
    pub fn new(credentials: Credentials) -> (c: NsgClient)
        ensures
            c.credentials.username@ == credentials.username@,
            c.credentials.password@ == credentials.password@,
            c.credentials.app_key@ == credentials.app_key@,
            c.base_url@ == spec_default_base_url(),
    {
        NsgClient { credentials, base_url: "https://nsgr.sdsc.edu:8443/cipresrest/v1".to_owned() }
    }

    /// A client against another endpoint.
    pub fn new_with_url(credentials: Credentials, base_url: String) -> (c: NsgClient)
        ensures
            c.credentials.username@ == credentials.username@,
            c.credentials.password@ == credentials.password@,
            c.credentials.app_key@ == credentials.app_key@,
            c.base_url@ == base_url@,
    {
        NsgClient { credentials, base_url }
    }

    /// The request values for a call on `path`: the endpoint followed by the
    /// path, with the client's credentials.
    pub fn request_parts(&self, path: &str) -> (r: RequestParts)
        ensures
            r.url@ == self.base_url@ + path@,
            r.username@ == self.credentials.username@,
            r.password@ == self.credentials.password@,
            r.app_key@ == self.credentials.app_key@,
    {
        RequestParts {
            url: str_concat(self.base_url.as_str(), path),
            username: self.credentials.username.clone(),
            password: self.credentials.password.clone(),
            app_key: self.credentials.app_key.clone(),
        }
    }

    /// The account's job-collection path, used by the connection test, the
    /// listing and the submit call.
    pub fn collection_path(&self) -> (r: String)
        ensures
            r@ == "/job/"@ + self.credentials.username@,
    {
        str_concat("/job/", self.credentials.username.as_str())
    }

    /// Resolves any of the three accepted job-reference forms to the one
    /// request path, rejecting a fully-qualified URL outside the endpoint.
    pub fn resolve_job_path(&self, job: &str) -> (r: Result<String, NsgError>)
        ensures
            match spec_resolve_job_path(self.credentials.username@, self.base_url@, job@) {
                Ok(p) => r is Ok && r->Ok_0@ == p,
                Err(f) => r is Err && (r->Err_0 matches NsgError::Validation(g) && g == f),
            },
    {
        if str_starts_with(job, "http") {
            if str_starts_with(job, self.base_url.as_str()) {
                Ok(str_strip_prefix(job, self.base_url.as_str()).to_owned())
            } else {
                Err(NsgError::Validation(ValidationFault::JobUrlOutsideEndpoint))
            }
        } else if str_starts_with(job, "/job/") {
            Ok(job.to_owned())
        } else {
            let head = str_concat("/job/", self.credentials.username.as_str());
            let head2 = str_concat(head.as_str(), "/");
            Ok(str_concat(head2.as_str(), job))
        }
    }

    /// The results location of a status, as a request path: the expected
    /// not-ready condition when the status has none, the endpoint-relative
    /// path when it lies under the endpoint, and a validation fault
    /// otherwise.
    pub fn resolve_results_path(&self, status: &JobStatus) -> (r: Result<String, NsgError>)
        ensures
            match status@.results_uri {
                None => r is Err && r->Err_0 matches NsgError::ResultsNotReady,
                Some(u) => if spec_starts_with(u, self.base_url@) {
                    r is Ok && r->Ok_0@ == u.skip(self.base_url@.len() as int)
                } else {
                    r is Err && (r->Err_0 matches NsgError::Validation(f) && f
                        == ValidationFault::ResultsUrlOutsideEndpoint)
                },
            },
    {
        match &status.results_uri {
            None => Err(NsgError::ResultsNotReady),
            Some(u) => {
                if str_starts_with(u.as_str(), self.base_url.as_str()) {
                    Ok(str_strip_prefix(u.as_str(), self.base_url.as_str()).to_owned())
                } else {
                    Err(NsgError::Validation(ValidationFault::ResultsUrlOutsideEndpoint))
                }
            },
        }
    }

    /// The download location of a manifest entry, as a request path; a
    /// location outside the endpoint is a validation fault.
    pub fn resolve_download_path(&self, file: &OutputFile) -> (r: Result<String, NsgError>)
        ensures
            if spec_starts_with(file@.download_uri, self.base_url@) {
                r is Ok && r->Ok_0@ == file@.download_uri.skip(self.base_url@.len() as int)
            } else {
                r is Err && (r->Err_0 matches NsgError::Validation(f) && f
                    == ValidationFault::DownloadUrlOutsideEndpoint)
            },
    {
        if str_starts_with(file.download_uri.as_str(), self.base_url.as_str()) {
            Ok(str_strip_prefix(file.download_uri.as_str(), self.base_url.as_str()).to_owned())
        } else {
            Err(NsgError::Validation(ValidationFault::DownloadUrlOutsideEndpoint))
        }
    }
}

/// Classifies the connection test's response: success for any 2xx status,
/// otherwise a transport error carrying the status — never a parse error,
/// since the test reads no body.
pub fn check_connection(status: u16) -> (r: Result<(), NsgError>)
    ensures
        r is Ok <==> is_http_success(status),
        !is_http_success(status) ==> (r->Err_0 matches NsgError::Transport {
            status: s,
            body: b,
        } && s == status && b@ == Seq::<char>::empty()),
{
    if 200 <= status && status < 300 {
        Ok(())
    } else {
        Err(NsgError::Transport { status, body: String::new() })
    }
}

/// Decodes the listing call's outcome: a non-2xx status is a transport
/// error; a 2xx body is handed to the collection parser, whose result is
/// returned with its faults wrapped.
pub fn handle_list_response(status: u16, body: &str) -> (r: Result<Vec<JobSummary>, NsgError>)
    ensures
        !is_http_success(status) ==> r is Err && (r->Err_0 matches NsgError::Transport {
            status: s,
            body: b,
        } && s == status && b@ == Seq::<char>::empty()),
        is_http_success(status) && doc_terminal(body@) is Fault ==> r is Err && (
        r->Err_0 matches NsgError::Parse(pe) && pe == (ParseError::Malformed {
            position: doc_terminal(body@)->Fault_0,
        })),
        is_http_success(status) && doc_terminal(body@) is Eof ==> r is Ok && {
            let js = spec_parse_list(doc_events(body@));
            &&& r->Ok_0@.len() == js.len()
            &&& (forall|j: int| 0 <= j < js.len() ==> r->Ok_0@[j]@ == js[j])
        },
{
    if !(200 <= status && status < 300) {
        return Err(NsgError::Transport { status, body: String::new() });
    }
    match parse_job_list(body) {
        Ok(jobs) => Ok(jobs),
        Err(pe) => Err(NsgError::Parse(pe)),
    }
}

/// Decodes a status call's outcome: a non-2xx status is a transport error;
/// a 2xx body is handed to the status parser, whose result is returned with
/// its faults wrapped.
pub fn handle_status_response(status: u16, body: &str) -> (r: Result<JobStatus, NsgError>)
    ensures
        !is_http_success(status) ==> r is Err && (r->Err_0 matches NsgError::Transport {
            status: s,
            body: b,
        } && s == status && b@ == Seq::<char>::empty()),
        is_http_success(status) && doc_terminal(body@) is Fault ==> r is Err && (
        r->Err_0 matches NsgError::Parse(pe) && pe == (ParseError::Malformed {
            position: doc_terminal(body@)->Fault_0,
        })),
        is_http_success(status) && doc_terminal(body@) is Eof ==> {
            let sr = spec_parse_status(doc_events(body@));
            &&& (r is Ok <==> sr is Ok)
            &&& (r is Ok ==> r->Ok_0@ == sr->Ok_0)
            &&& (sr is Err ==> r is Err && (r->Err_0 matches NsgError::Parse(pe) && pe
                == sr->Err_0))
        },
{
    if !(200 <= status && status < 300) {
        return Err(NsgError::Transport { status, body: String::new() });
    }
    match parse_job_status(body) {
        Ok(st) => Ok(st),
        Err(pe) => Err(NsgError::Parse(pe)),
    }
}

/// Decodes the submit call's outcome. A non-2xx response carries both its
/// status and its raw body, which holds the actionable diagnostic; a 2xx
/// body is handed to the status parser.
pub fn handle_submit_response(status: u16, body: &str) -> (r: Result<JobStatus, NsgError>)
    ensures
        !is_http_success(status) ==> r is Err && (r->Err_0 matches NsgError::Transport {
            status: s,
            body: b,
        } && s == status && b@ == body@),
        is_http_success(status) && doc_terminal(body@) is Fault ==> r is Err && (
        r->Err_0 matches NsgError::Parse(pe) && pe == (ParseError::Malformed {
            position: doc_terminal(body@)->Fault_0,
        })),
        is_http_success(status) && doc_terminal(body@) is Eof ==> {
            let sr = spec_parse_status(doc_events(body@));
            &&& (r is Ok <==> sr is Ok)
            &&& (r is Ok ==> r->Ok_0@ == sr->Ok_0)
            &&& (sr is Err ==> r is Err && (r->Err_0 matches NsgError::Parse(pe) && pe
                == sr->Err_0))
        },
{
    if !(200 <= status && status < 300) {
        return Err(NsgError::Transport { status, body: body.to_owned() });
    }
    match parse_job_status(body) {
        Ok(st) => Ok(st),
        Err(pe) => Err(NsgError::Parse(pe)),
    }
}

/// Decodes the manifest call's outcome: a non-2xx status is a transport
/// error; a 2xx body is handed to the manifest parser.
pub fn handle_manifest_response(status: u16, body: &str) -> (r: Result<Vec<OutputFile>, NsgError>)
    ensures
        !is_http_success(status) ==> r is Err && (r->Err_0 matches NsgError::Transport {
            status: s,
            body: b,
        } && s == status && b@ == Seq::<char>::empty()),
        is_http_success(status) && doc_terminal(body@) is Fault ==> r is Err && (
        r->Err_0 matches NsgError::Parse(pe) && pe == (ParseError::Malformed {
            position: doc_terminal(body@)->Fault_0,
        })),
        is_http_success(status) && doc_terminal(body@) is Eof ==> r is Ok && {
            let fs = spec_parse_files(doc_events(body@));
            &&& r->Ok_0@.len() == fs.len()
            &&& (forall|j: int| 0 <= j < fs.len() ==> r->Ok_0@[j]@ == fs[j])
        },
{
    if !(200 <= status && status < 300) {
        return Err(NsgError::Transport { status, body: String::new() });
    }
    match parse_output_files(body) {
        Ok(files) => Ok(files),
        Err(pe) => Err(NsgError::Parse(pe)),
    }
}

/// The submit form for a tool and an archive: the tool identifier, the
/// archive part under its fixed field name (falling back to a fixed name
/// when the archive path yields none), and the fixed notification flag.
pub fn submit_form(tool: &str, archive_file_name: Option<&str>) -> (f: SubmitForm)
    ensures
        f.tool@ == tool@,
        f.file_field@ == "input.infile_"@,
        f.file_name@ == match archive_file_name {
            Some(n) => n@,
            None => "job.zip"@,
        },
        f.notify_field@ == "metadata.statusEmail"@,
        f.notify_value@ == "true"@,
{
    SubmitForm {
        tool: tool.to_owned(),
        file_field: "input.infile_".to_owned(),
        file_name: match archive_file_name {
            Some(n) => n.to_owned(),
            None => "job.zip".to_owned(),
        },
        notify_field: "metadata.statusEmail".to_owned(),
        notify_value: "true".to_owned(),
    }
}

/// The law of the three reference forms: for any account, any endpoint that
/// is itself an `http` URL, and any bare identifier (one that is neither an
/// `http` URL nor a rooted path), the bare identifier, the rooted path built
/// from it, and the fully-qualified URL built from that path all resolve to
/// the same request path.
pub proof fn lemma_job_reference_forms(user: Seq<char>, base: Seq<char>, id: Seq<char>)
    requires
        spec_starts_with(base, "http"@),
        !spec_starts_with(id, "http"@),
        !spec_starts_with(id, "/job/"@),
    ensures
        ({
            let p = "/job/"@ + user + "/"@ + id;
            &&& spec_resolve_job_path(user, base, id) == Result::<Seq<char>, ValidationFault>::Ok(
                p,
            )
            &&& spec_resolve_job_path(user, base, p) == Result::<Seq<char>, ValidationFault>::Ok(
                p,
            )
            &&& spec_resolve_job_path(user, base, base + p) == Result::<
                Seq<char>,
                ValidationFault,
            >::Ok(p)
        }),
{
    reveal_strlit("http");
    reveal_strlit("/job/");
    let p = "/job/"@ + user + "/"@ + id;
    assert(p.take(5) =~= "/job/"@);
    assert(spec_starts_with(p, "/job/"@));
    assert(!spec_starts_with(p, "http"@)) by {
        if spec_starts_with(p, "http"@) {
            assert(p.take(4)[0] == p[0]);
            assert(p[0] == '/');
            assert("http"@[0] == 'h');
        }
    }
    assert((base + p).take(4) =~= base.take(4));
    assert(spec_starts_with(base + p, "http"@));
    assert((base + p).take(base.len() as int) =~= base);
    assert(spec_starts_with(base + p, base));
    assert((base + p).skip(base.len() as int) =~= p);
}

} // verus!
