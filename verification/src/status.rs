//! The single-job status parser: a forward-only walk over the event stream
//! with a current-tag register and two context flags (inside the results
//! reference, inside a message block). Scalar fields overwrite on
//! re-encounter; the first bare `url` outside a results context becomes the
//! self reference; message blocks are frozen at their closing boundary in
//! document order; the job identifier is required at end of document.

use vstd::prelude::*;
use crate::errors::ParseError;
use crate::events::{doc_events, doc_terminal, tokenize, views_of, EventView, XmlEvent};
use crate::models::{JobMessage, JobStatus, MessageView, StatusView};
use crate::strutil::str_eq;

verus! {

/// The walker's whole state: the tag register, the context flags, the
/// scratch fields of the open message block, and the document decoded so
/// far.
pub struct StatusScan {
    pub cur_tag: Seq<char>,
    pub in_results: bool,
    pub in_message: bool,
    pub msg_stage: Seq<char>,
    pub msg_text: Seq<char>,
    pub msg_timestamp: Option<Seq<char>>,
    pub doc: StatusView,
}

/// The state before any event: everything empty, no context open.
pub open spec fn status_scan_init() -> StatusScan {
    StatusScan {
        cur_tag: Seq::empty(),
        in_results: false,
        in_message: false,
        msg_stage: Seq::empty(),
        msg_text: Seq::empty(),
        msg_timestamp: None,
        doc: StatusView {
            job_id: Seq::empty(),
            job_stage: Seq::empty(),
            failed: false,
            date_submitted: None,
            self_uri: Seq::empty(),
            results_uri: None,
            messages: Seq::empty(),
        },
    }
}

/// One step of the walk.
pub open spec fn status_step(st: StatusScan, e: EventView) -> StatusScan {
    match e {
        EventView::Start(t) => {
            let st1 = StatusScan { cur_tag: t, ..st };
            if t == "resultsUri"@ {
                StatusScan { in_results: true, ..st1 }
            } else if t == "message"@ {
                StatusScan {
                    in_message: true,
                    msg_stage: Seq::empty(),
                    msg_text: Seq::empty(),
                    msg_timestamp: None,
                    ..st1
                }
            } else {
                st1
            }
        },
        EventView::End(t) => {
            let st1 = StatusScan { cur_tag: Seq::empty(), ..st };
            if t == "resultsUri"@ {
                StatusScan { in_results: false, ..st1 }
            } else if t == "message"@ && st.in_message {
                StatusScan {
                    in_message: false,
                    doc: StatusView {
                        messages: st.doc.messages.push(
                            MessageView {
                                stage: st.msg_stage,
                                text: st.msg_text,
                                timestamp: st.msg_timestamp,
                            },
                        ),
                        ..st.doc
                    },
                    ..st1
                }
            } else {
                st1
            }
        },
        EventView::Text(x) => {
            if st.cur_tag == "jobHandle"@ {
                StatusScan { doc: StatusView { job_id: x, ..st.doc }, ..st }
            } else if st.cur_tag == "jobStage"@ {
                StatusScan { doc: StatusView { job_stage: x, ..st.doc }, ..st }
            } else if st.cur_tag == "failed"@ {
                StatusScan { doc: StatusView { failed: x == "true"@, ..st.doc }, ..st }
            } else if st.cur_tag == "dateSubmitted"@ {
                StatusScan { doc: StatusView { date_submitted: Some(x), ..st.doc }, ..st }
            } else if st.cur_tag == "url"@ && st.in_results {
                StatusScan { doc: StatusView { results_uri: Some(x), ..st.doc }, ..st }
            } else if st.cur_tag == "url"@ && !st.in_results && st.doc.self_uri.len() == 0 {
                StatusScan { doc: StatusView { self_uri: x, ..st.doc }, ..st }
            } else if st.cur_tag == "stage"@ && st.in_message {
                StatusScan { msg_stage: x, ..st }
            } else if st.cur_tag == "text"@ && st.in_message {
                StatusScan { msg_text: x, ..st }
            } else if st.cur_tag == "timestamp"@ && st.in_message {
                StatusScan { msg_timestamp: Some(x), ..st }
            } else {
                st
            }
        },
        _ => st,
    }
}

/// The walk over a whole event sequence.
pub open spec fn status_scan(st: StatusScan, evs: Seq<EventView>) -> StatusScan
    decreases evs.len(),
{
    if evs.len() == 0 {
        st
    } else {
        status_scan(status_step(st, evs[0]), evs.skip(1))
    }
}

/// What the status parser returns for an event stream: the decoded document,
/// or the missing-identifier error when the identifier is still empty at end
/// of stream.
pub open spec fn spec_parse_status(evs: Seq<EventView>) -> Result<StatusView, ParseError> {
    let f = status_scan(status_scan_init(), evs);
    if f.doc.job_id.len() == 0 {
        Err(ParseError::MissingJobId)
    } else {
        Ok(f.doc)
    }
}

/// Appending one event to a walk is one more step.
pub proof fn lemma_status_scan_snoc(st: StatusScan, evs: Seq<EventView>, e: EventView)
    ensures
        status_scan(st, evs.push(e)) == status_step(status_scan(st, evs), e),
    decreases evs.len(),
{
    reveal_with_fuel(status_scan, 3);
    if evs.len() == 0 {
        assert(evs.push(e)[0] == e);
        assert(evs.push(e).skip(1) =~= Seq::<EventView>::empty());
    } else {
        assert(evs.push(e)[0] == evs[0]);
        assert(evs.push(e).skip(1) =~= evs.skip(1).push(e));
        lemma_status_scan_snoc(status_step(st, evs[0]), evs.skip(1), e);
    }
}

/// Decodes a status document from an already-collected event stream.
pub fn parse_job_status_events(events: &Vec<XmlEvent>) -> (r: Result<JobStatus, ParseError>)
    ensures
        r is Ok <==> spec_parse_status(views_of(events@)) is Ok,
        r is Ok ==> r->Ok_0@ == spec_parse_status(views_of(events@))->Ok_0,
        r is Err ==> r->Err_0 == spec_parse_status(views_of(events@))->Err_0,
{
    let ghost vs = views_of(events@);
    let mut cur_tag: String = String::new();
    let mut in_results: bool = false;
    let mut in_message: bool = false;
    let mut msg_stage: String = String::new();
    let mut msg_text: String = String::new();
    let mut msg_timestamp: Option<String> = None;
    let mut job_id: String = String::new();
    let mut job_stage: String = String::new();
    let mut failed: bool = false;
    let mut date_submitted: Option<String> = None;
    let mut self_uri: String = String::new();
    let mut results_uri: Option<String> = None;
    let mut messages: Vec<JobMessage> = Vec::new();

    let n = events.len();
    let mut i: usize = 0;
    while i < n
        invariant
            i <= n,
            n == events.len(),
            vs == views_of(events@),
            ({
                let sc = status_scan(status_scan_init(), vs.take(i as int));
                &&& cur_tag@ == sc.cur_tag
                &&& in_results == sc.in_results
                &&& in_message == sc.in_message
                &&& msg_stage@ == sc.msg_stage
                &&& msg_text@ == sc.msg_text
                &&& (match msg_timestamp {
                    Some(t) => sc.msg_timestamp == Some(t@),
                    None => sc.msg_timestamp is None,
                })
                &&& job_id@ == sc.doc.job_id
                &&& job_stage@ == sc.doc.job_stage
                &&& failed == sc.doc.failed
                &&& (match date_submitted {
                    Some(t) => sc.doc.date_submitted == Some(t@),
                    None => sc.doc.date_submitted is None,
                })
                &&& self_uri@ == sc.doc.self_uri
                &&& (match results_uri {
                    Some(t) => sc.doc.results_uri == Some(t@),
                    None => sc.doc.results_uri is None,
                })
                &&& messages@.len() == sc.doc.messages.len()
                &&& (forall|j: int|
                    0 <= j < messages@.len() ==> messages@[j]@ == sc.doc.messages[j])
            }),
        decreases n - i,
    {
        proof {
            assert(vs.take(i + 1) =~= vs.take(i as int).push(vs[i as int]));
            lemma_status_scan_snoc(status_scan_init(), vs.take(i as int), vs[i as int]);
        }
        let ev = &events[i];
        match ev {
            XmlEvent::Start(t) => {
                cur_tag = t.clone();
                if str_eq(t.as_str(), "resultsUri") {
                    in_results = true;
                } else if str_eq(t.as_str(), "message") {
                    in_message = true;
                    msg_stage = String::new();
                    msg_text = String::new();
                    msg_timestamp = None;
                }
            },
            XmlEvent::End(t) => {
                if str_eq(t.as_str(), "resultsUri") {
                    in_results = false;
                } else if str_eq(t.as_str(), "message") && in_message {
                    messages.push(
                        JobMessage {
                            stage: msg_stage.clone(),
                            text: msg_text.clone(),
                            timestamp: match &msg_timestamp {
                                Some(t2) => Some(t2.clone()),
                                None => None,
                            },
                        },
                    );
                    in_message = false;
                }
                cur_tag = String::new();
            },
            XmlEvent::Text(x) => {
                if str_eq(cur_tag.as_str(), "jobHandle") {
                    job_id = x.clone();
                } else if str_eq(cur_tag.as_str(), "jobStage") {
                    job_stage = x.clone();
                } else if str_eq(cur_tag.as_str(), "failed") {
                    failed = str_eq(x.as_str(), "true");
                } else if str_eq(cur_tag.as_str(), "dateSubmitted") {
                    date_submitted = Some(x.clone());
                } else if str_eq(cur_tag.as_str(), "url") && in_results {
                    results_uri = Some(x.clone());
                } else if str_eq(cur_tag.as_str(), "url") && !in_results && self_uri.as_str().is_empty() {
                    self_uri = x.clone();
                } else if str_eq(cur_tag.as_str(), "stage") && in_message {
                    msg_stage = x.clone();
                } else if str_eq(cur_tag.as_str(), "text") && in_message {
                    msg_text = x.clone();
                } else if str_eq(cur_tag.as_str(), "timestamp") && in_message {
                    msg_timestamp = Some(x.clone());
                }
            },
            _ => {},
        }
        i += 1;
    }
    proof {
        assert(vs.take(n as int) =~= vs);
    }
    if job_id.as_str().is_empty() {
        return Err(ParseError::MissingJobId);
    }
    let status = JobStatus {
        job_id,
        job_stage,
        failed,
        date_submitted,
        self_uri,
        results_uri,
        messages,
    };
    proof {
        let sc = status_scan(status_scan_init(), vs);
        assert(status@.messages =~= sc.doc.messages);
        assert(status@ == sc.doc);
    }
    Ok(status)
}

/// Decodes a status document from raw XML: the event walk of the document is
/// collected and handed to the event-level parser, so the result is exactly
/// `spec_parse_status` of the document's event stream, or the fault of a
/// malformed document.
pub fn parse_job_status(xml: &str) -> (r: Result<JobStatus, ParseError>)
    ensures
        doc_terminal(xml@) is Fault ==> r is Err && r->Err_0 == (ParseError::Malformed {
            position: doc_terminal(xml@)->Fault_0,
        }),
        doc_terminal(xml@) is Eof ==> {
            let sr = spec_parse_status(doc_events(xml@));
            &&& (r is Ok <==> sr is Ok)
            &&& (r is Ok ==> r->Ok_0@ == sr->Ok_0)
            &&& (r is Err ==> r->Err_0 == sr->Err_0)
        },
{
    match tokenize(xml) {
        Err(e) => Err(e),
        Ok(evs) => {
            proof {
                assert(views_of(evs@) =~= doc_events(xml@));
            }
            parse_job_status_events(&evs)
        },
    }
}

/// The sequence of text captures attributed to `tag` by a walk that starts
/// with `cur` in the tag register: a start tag loads the register, an end
/// tag clears it, and a text event is captured when the register holds
/// `tag`.
pub open spec fn tag_texts_from(cur: Seq<char>, evs: Seq<EventView>, tag: Seq<char>) -> Seq<
    Seq<char>,
>
    decreases evs.len(),
{
    if evs.len() == 0 {
        Seq::empty()
    } else {
        match evs[0] {
            EventView::Start(t) => tag_texts_from(t, evs.skip(1), tag),
            EventView::End(_) => tag_texts_from(Seq::empty(), evs.skip(1), tag),
            EventView::Text(x) => if cur == tag {
                seq![x] + tag_texts_from(cur, evs.skip(1), tag)
            } else {
                tag_texts_from(cur, evs.skip(1), tag)
            },
            _ => tag_texts_from(cur, evs.skip(1), tag),
        }
    }
}

/// The text captures attributed to `tag` over a whole event stream.
pub open spec fn tag_texts(evs: Seq<EventView>, tag: Seq<char>) -> Seq<Seq<char>> {
    tag_texts_from(Seq::empty(), evs, tag)
}

/// The identifier a walk decodes is the last `jobHandle` capture, or the
/// starting value when there is none.
proof fn lemma_job_id_from(st: StatusScan, evs: Seq<EventView>)
    ensures
        status_scan(st, evs).doc.job_id == ({
            let ts = tag_texts_from(st.cur_tag, evs, "jobHandle"@);
            if ts.len() == 0 {
                st.doc.job_id
            } else {
                ts.last()
            }
        }),
    decreases evs.len(),
{
    if evs.len() > 0 {
        let st1 = status_step(st, evs[0]);
        lemma_job_id_from(st1, evs.skip(1));
        let rest = tag_texts_from(st1.cur_tag, evs.skip(1), "jobHandle"@);
        match evs[0] {
            EventView::Text(x) => {
                if st.cur_tag == "jobHandle"@ {
                    let ts = seq![x] + rest;
                    if rest.len() == 0 {
                        assert(ts.last() == x);
                    } else {
                        assert(ts.last() == rest.last());
                    }
                }
            },
            _ => {},
        }
    }
}

/// The two laws of the required identifier, over any event stream. With no
/// `jobHandle` capture at all the parse fails with the missing-identifier
/// error. With a non-empty last capture the parse succeeds and the returned
/// identifier is exactly that last capture (the last occurrence wins when
/// the field is duplicated). An empty last capture also fails, since the
/// identifier register holds the empty string at end of stream.
pub proof fn lemma_status_job_id(evs: Seq<EventView>)
    ensures
        tag_texts(evs, "jobHandle"@).len() == 0 ==> spec_parse_status(evs) == Result::<
            StatusView,
            ParseError,
        >::Err(ParseError::MissingJobId),
        tag_texts(evs, "jobHandle"@).len() > 0 && tag_texts(evs, "jobHandle"@).last().len() > 0
            ==> spec_parse_status(evs) is Ok && spec_parse_status(evs)->Ok_0.job_id == tag_texts(
            evs,
            "jobHandle"@,
        ).last(),
        tag_texts(evs, "jobHandle"@).len() > 0 && tag_texts(evs, "jobHandle"@).last().len() == 0
            ==> spec_parse_status(evs) == Result::<StatusView, ParseError>::Err(
            ParseError::MissingJobId,
        ),
{
    lemma_job_id_from(status_scan_init(), evs);
}

} // verus!
