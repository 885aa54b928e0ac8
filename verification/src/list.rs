//! The job-collection parser: walks the self-reference blocks of the
//! collection document. Inside a block, the text directly under a `url` or
//! `title` tag is captured; at the block's closing boundary a summary is
//! emitted when both captures are present (the title is the job identifier),
//! and both captures are cleared either way. Incomplete blocks are dropped,
//! never fatal.

use vstd::prelude::*;
use crate::errors::ParseError;
use crate::events::{doc_events, doc_terminal, tokenize, views_of, EventView, XmlEvent};
use crate::models::{JobSummary, SummaryView};
use crate::strutil::str_eq;

verus! {

/// What the walker awaits: the text child of a just-opened `url` or `title`
/// tag, or nothing. The awaited event is consumed either way, captured only
/// when it is text.
pub enum ListExpect {
    Nothing,
    UrlText,
    TitleText,
}

/// The walker's state for the collection document.
pub struct ListScan {
    pub in_self: bool,
    pub expect: ListExpect,
    pub cur_url: Option<Seq<char>>,
    pub cur_title: Option<Seq<char>>,
    pub jobs: Seq<SummaryView>,
}

/// The state before any event.
pub open spec fn list_scan_init() -> ListScan {
    ListScan {
        in_self: false,
        expect: ListExpect::Nothing,
        cur_url: None,
        cur_title: None,
        jobs: Seq::empty(),
    }
}

/// One step of the walk.
pub open spec fn list_step(st: ListScan, e: EventView) -> ListScan {
    if st.expect is UrlText {
        match e {
            EventView::Text(x) => ListScan {
                expect: ListExpect::Nothing,
                cur_url: Some(x),
                ..st
            },
            _ => ListScan { expect: ListExpect::Nothing, ..st },
        }
    } else if st.expect is TitleText {
        match e {
            EventView::Text(x) => ListScan {
                expect: ListExpect::Nothing,
                cur_title: Some(x),
                ..st
            },
            _ => ListScan { expect: ListExpect::Nothing, ..st },
        }
    } else {
        match e {
            EventView::Start(t) => {
                if t == "selfUri"@ {
                    ListScan { in_self: true, ..st }
                } else if st.in_self && t == "url"@ {
                    ListScan { expect: ListExpect::UrlText, ..st }
                } else if st.in_self && t == "title"@ {
                    ListScan { expect: ListExpect::TitleText, ..st }
                } else {
                    st
                }
            },
            EventView::End(t) => {
                if t == "selfUri"@ {
                    ListScan {
                        in_self: false,
                        cur_url: None,
                        cur_title: None,
                        jobs: if st.cur_url is Some && st.cur_title is Some {
                            st.jobs.push(
                                SummaryView { job_id: st.cur_title->0, url: st.cur_url->0 },
                            )
                        } else {
                            st.jobs
                        },
                        ..st
                    }
                } else {
                    st
                }
            },
            _ => st,
        }
    }
}

/// The walk over a whole event sequence.
pub open spec fn list_scan(st: ListScan, evs: Seq<EventView>) -> ListScan
    decreases evs.len(),
{
    if evs.len() == 0 {
        st
    } else {
        list_scan(list_step(st, evs[0]), evs.skip(1))
    }
}

/// The summaries the collection parser yields for an event stream, in
/// document order.
pub open spec fn spec_parse_list(evs: Seq<EventView>) -> Seq<SummaryView> {
    list_scan(list_scan_init(), evs).jobs
}

/// Appending one event to a walk is one more step.
pub proof fn lemma_list_scan_snoc(st: ListScan, evs: Seq<EventView>, e: EventView)
    ensures
        list_scan(st, evs.push(e)) == list_step(list_scan(st, evs), e),
    decreases evs.len(),
{
    reveal_with_fuel(list_scan, 3);
    if evs.len() == 0 {
        assert(evs.push(e)[0] == e);
        assert(evs.push(e).skip(1) =~= Seq::<EventView>::empty());
    } else {
        assert(evs.push(e)[0] == evs[0]);
        assert(evs.push(e).skip(1) =~= evs.skip(1).push(e));
        lemma_list_scan_snoc(list_step(st, evs[0]), evs.skip(1), e);
    }
}

/// The law of the block boundary: a step emits a summary exactly when it is
/// the closing tag of a self-reference block, no capture is pending, and
/// both the URL and the title were captured inside the block; the summary
/// takes the title as the job identifier, and no other step changes the
/// output. A block missing either capture is dropped whole.
pub proof fn lemma_summary_emitted_iff(st: ListScan, e: EventView)
    ensures
        list_step(st, e).jobs == (if st.expect is Nothing && (e matches EventView::End(t) && t
            == "selfUri"@ && st.cur_url is Some && st.cur_title is Some) {
            st.jobs.push(SummaryView { job_id: st.cur_title->0, url: st.cur_url->0 })
        } else {
            st.jobs
        }),
{
}

/// Decodes the job collection from an already-collected event stream.
pub fn parse_job_list_events(events: &Vec<XmlEvent>) -> (r: Vec<JobSummary>)
    ensures
        r@.len() == spec_parse_list(views_of(events@)).len(),
        forall|j: int|
            0 <= j < r@.len() ==> r@[j]@ == spec_parse_list(views_of(events@))[j],
{
    let ghost vs = views_of(events@);
    let mut in_self: bool = false;
    let mut expect_url: bool = false;
    let mut expect_title: bool = false;
    let mut cur_url: Option<String> = None;
    let mut cur_title: Option<String> = None;
    let mut jobs: Vec<JobSummary> = Vec::new();

    let n = events.len();
    let mut i: usize = 0;
    while i < n
        invariant
            i <= n,
            n == events.len(),
            vs == views_of(events@),
            !(expect_url && expect_title),
            ({
                let sc = list_scan(list_scan_init(), vs.take(i as int));
                &&& in_self == sc.in_self
                &&& expect_url == (sc.expect is UrlText)
                &&& expect_title == (sc.expect is TitleText)
                &&& (match cur_url {
                    Some(t) => sc.cur_url == Some(t@),
                    None => sc.cur_url is None,
                })
                &&& (match cur_title {
                    Some(t) => sc.cur_title == Some(t@),
                    None => sc.cur_title is None,
                })
                &&& jobs@.len() == sc.jobs.len()
                &&& (forall|j: int| 0 <= j < jobs@.len() ==> jobs@[j]@ == sc.jobs[j])
            }),
        decreases n - i,
    {
        proof {
            assert(vs.take(i + 1) =~= vs.take(i as int).push(vs[i as int]));
            lemma_list_scan_snoc(list_scan_init(), vs.take(i as int), vs[i as int]);
        }
        let ev = &events[i];
        if expect_url {
            expect_url = false;
            if let XmlEvent::Text(x) = ev {
                cur_url = Some(x.clone());
            }
        } else if expect_title {
            expect_title = false;
            if let XmlEvent::Text(x) = ev {
                cur_title = Some(x.clone());
            }
        } else {
            match ev {
                XmlEvent::Start(t) => {
                    if str_eq(t.as_str(), "selfUri") {
                        in_self = true;
                    } else if in_self && str_eq(t.as_str(), "url") {
                        expect_url = true;
                    } else if in_self && str_eq(t.as_str(), "title") {
                        expect_title = true;
                    }
                },
                XmlEvent::End(t) => {
                    if str_eq(t.as_str(), "selfUri") {
                        in_self = false;
                        if cur_url.is_some() && cur_title.is_some() {
                            let u = match &cur_url {
                                Some(u) => u.clone(),
                                None => String::new(),
                            };
                            let ti = match &cur_title {
                                Some(t2) => t2.clone(),
                                None => String::new(),
                            };
                            jobs.push(JobSummary { job_id: ti, url: u });
                        }
                        cur_url = None;
                        cur_title = None;
                    }
                },
                _ => {},
            }
        }
        i += 1;
    }
    proof {
        assert(vs.take(n as int) =~= vs);
    }
    jobs
}

/// Decodes the job collection from raw XML: exactly the summaries of
/// `spec_parse_list` over the document's event stream, or the fault of a
/// malformed document with its byte position.
pub fn parse_job_list(xml: &str) -> (r: Result<Vec<JobSummary>, ParseError>)
    ensures
        doc_terminal(xml@) is Fault ==> r is Err && r->Err_0 == (ParseError::Malformed {
            position: doc_terminal(xml@)->Fault_0,
        }),
        doc_terminal(xml@) is Eof ==> r is Ok && {
            let js = spec_parse_list(doc_events(xml@));
            &&& r->Ok_0@.len() == js.len()
            &&& (forall|j: int| 0 <= j < js.len() ==> r->Ok_0@[j]@ == js[j])
        },
{
    match tokenize(xml) {
        Err(e) => Err(e),
        Ok(evs) => {
            proof {
                assert(views_of(evs@) =~= doc_events(xml@));
            }
            Ok(parse_job_list_events(&evs))
        },
    }
}

} // verus!
