//! The output-file manifest parser: walks `jobfile` entries, capturing the
//! filename, the decimal size under a `length` tag (a malformed numeral
//! clears the capture, it is not fatal), and the download location while
//! inside the nested download-reference block. At an entry's closing
//! boundary the entry is emitted only when all three captures are present;
//! a partial entry is dropped silently.

use vstd::prelude::*;
use crate::digits::{parse_u64, spec_parse_u64};
use crate::errors::ParseError;
use crate::events::{doc_events, doc_terminal, tokenize, views_of, EventView, XmlEvent};
use crate::models::{OutputFile, OutputFileView};
use crate::strutil::str_eq;

verus! {

/// The walker's state for the manifest document.
pub struct FilesScan {
    pub in_entry: bool,
    pub in_download: bool,
    pub cur_tag: Seq<char>,
    pub cur_filename: Option<Seq<char>>,
    pub cur_uri: Option<Seq<char>>,
    pub cur_size: Option<u64>,
    pub files: Seq<OutputFileView>,
}

/// The state before any event.
pub open spec fn files_scan_init() -> FilesScan {
    FilesScan {
        in_entry: false,
        in_download: false,
        cur_tag: Seq::empty(),
        cur_filename: None,
        cur_uri: None,
        cur_size: None,
        files: Seq::empty(),
    }
}

/// Whether a closing entry boundary in state `st` emits an entry: all three
/// captures must be present.
pub open spec fn entry_complete(st: FilesScan) -> bool {
    st.cur_filename is Some && st.cur_uri is Some && st.cur_size is Some
}

/// The entry frozen from the captures of `st`.
pub open spec fn frozen_entry(st: FilesScan) -> OutputFileView {
    OutputFileView {
        filename: st.cur_filename->0,
        download_uri: st.cur_uri->0,
        size: st.cur_size->0,
    }
}

/// One step of the walk.
pub open spec fn files_step(st: FilesScan, e: EventView) -> FilesScan {
    match e {
        EventView::Start(t) => {
            if t == "jobfile"@ {
                FilesScan { in_entry: true, ..st }
            } else if t == "downloadUri"@ {
                FilesScan { in_download: true, ..st }
            } else {
                FilesScan { cur_tag: t, ..st }
            }
        },
        EventView::End(t) => {
            let st1 = FilesScan { cur_tag: Seq::empty(), ..st };
            if t == "jobfile"@ {
                FilesScan {
                    in_entry: false,
                    cur_filename: None,
                    cur_uri: None,
                    cur_size: None,
                    files: if entry_complete(st) {
                        st.files.push(frozen_entry(st))
                    } else {
                        st.files
                    },
                    ..st1
                }
            } else if t == "downloadUri"@ {
                FilesScan { in_download: false, ..st1 }
            } else {
                st1
            }
        },
        EventView::Text(x) => {
            if st.in_entry {
                if st.cur_tag == "filename"@ {
                    FilesScan { cur_filename: Some(x), ..st }
                } else if st.cur_tag == "length"@ {
                    FilesScan { cur_size: spec_parse_u64(x), ..st }
                } else if st.cur_tag == "url"@ && st.in_download {
                    FilesScan { cur_uri: Some(x), ..st }
                } else {
                    st
                }
            } else {
                st
            }
        },
        _ => st,
    }
}

/// The walk over a whole event sequence.
pub open spec fn files_scan(st: FilesScan, evs: Seq<EventView>) -> FilesScan
    decreases evs.len(),
{
    if evs.len() == 0 {
        st
    } else {
        files_scan(files_step(st, evs[0]), evs.skip(1))
    }
}

/// The manifest entries the parser yields for an event stream, in document
/// order.
pub open spec fn spec_parse_files(evs: Seq<EventView>) -> Seq<OutputFileView> {
    files_scan(files_scan_init(), evs).files
}

/// Appending one event to a walk is one more step.
pub proof fn lemma_files_scan_snoc(st: FilesScan, evs: Seq<EventView>, e: EventView)
    ensures
        files_scan(st, evs.push(e)) == files_step(files_scan(st, evs), e),
    decreases evs.len(),
{
    reveal_with_fuel(files_scan, 3);
    if evs.len() == 0 {
        assert(evs.push(e)[0] == e);
        assert(evs.push(e).skip(1) =~= Seq::<EventView>::empty());
    } else {
        assert(evs.push(e)[0] == evs[0]);
        assert(evs.push(e).skip(1) =~= evs.skip(1).push(e));
        lemma_files_scan_snoc(files_step(st, evs[0]), evs.skip(1), e);
    }
}

/// The law of the closing boundary: a step emits an entry exactly when it is
/// the closing tag of a `jobfile` entry and all three captures (filename,
/// download location, size) are present in the state it closes; the emitted
/// entry is frozen from those captures, and no other step changes the
/// output. Dropping any one capture drops the whole entry.
pub proof fn lemma_entry_emitted_iff(st: FilesScan, e: EventView)
    ensures
        files_step(st, e).files == (if e matches EventView::End(t) && t == "jobfile"@
            && entry_complete(st) {
            st.files.push(frozen_entry(st))
        } else {
            st.files
        }),
{
}

/// Decodes the manifest from an already-collected event stream.
pub fn parse_output_files_events(events: &Vec<XmlEvent>) -> (r: Vec<OutputFile>)
    ensures
        r@.len() == spec_parse_files(views_of(events@)).len(),
        forall|j: int|
            0 <= j < r@.len() ==> r@[j]@ == spec_parse_files(views_of(events@))[j],
{
    let ghost vs = views_of(events@);
    let mut in_entry: bool = false;
    let mut in_download: bool = false;
    let mut cur_tag: String = String::new();
    let mut cur_filename: Option<String> = None;
    let mut cur_uri: Option<String> = None;
    let mut cur_size: Option<u64> = None;
    let mut files: Vec<OutputFile> = Vec::new();

    let n = events.len();
    let mut i: usize = 0;
    while i < n
        invariant
            i <= n,
            n == events.len(),
            vs == views_of(events@),
            ({
                let sc = files_scan(files_scan_init(), vs.take(i as int));
                &&& in_entry == sc.in_entry
                &&& in_download == sc.in_download
                &&& cur_tag@ == sc.cur_tag
                &&& (match cur_filename {
                    Some(t) => sc.cur_filename == Some(t@),
                    None => sc.cur_filename is None,
                })
                &&& (match cur_uri {
                    Some(t) => sc.cur_uri == Some(t@),
                    None => sc.cur_uri is None,
                })
                &&& cur_size == sc.cur_size
                &&& files@.len() == sc.files.len()
                &&& (forall|j: int| 0 <= j < files@.len() ==> files@[j]@ == sc.files[j])
            }),
        decreases n - i,
    {
        proof {
            assert(vs.take(i + 1) =~= vs.take(i as int).push(vs[i as int]));
            lemma_files_scan_snoc(files_scan_init(), vs.take(i as int), vs[i as int]);
        }
        let ev = &events[i];
        match ev {
            XmlEvent::Start(t) => {
                if str_eq(t.as_str(), "jobfile") {
                    in_entry = true;
                } else if str_eq(t.as_str(), "downloadUri") {
                    in_download = true;
                } else {
                    cur_tag = t.clone();
                }
            },
            XmlEvent::End(t) => {
                if str_eq(t.as_str(), "jobfile") {
                    if cur_filename.is_some() && cur_uri.is_some() && cur_size.is_some() {
                        let f = match &cur_filename {
                            Some(f) => f.clone(),
                            None => String::new(),
                        };
                        let u = match &cur_uri {
                            Some(u) => u.clone(),
                            None => String::new(),
                        };
                        let sz = match cur_size {
                            Some(s) => s,
                            None => 0,
                        };
                        files.push(OutputFile { filename: f, download_uri: u, size: sz });
                    }
                    in_entry = false;
                    cur_filename = None;
                    cur_uri = None;
                    cur_size = None;
                } else if str_eq(t.as_str(), "downloadUri") {
                    in_download = false;
                }
                cur_tag = String::new();
            },
            XmlEvent::Text(x) => {
                if in_entry {
                    if str_eq(cur_tag.as_str(), "filename") {
                        cur_filename = Some(x.clone());
                    } else if str_eq(cur_tag.as_str(), "length") {
                        cur_size = parse_u64(x.as_str());
                    } else if str_eq(cur_tag.as_str(), "url") && in_download {
                        cur_uri = Some(x.clone());
                    }
                }
            },
            _ => {},
        }
        i += 1;
    }
    proof {
        assert(vs.take(n as int) =~= vs);
    }
    files
}

/// Decodes the manifest from raw XML: exactly the entries of
/// `spec_parse_files` over the document's event stream, or the fault of a
/// malformed document with its byte position.
pub fn parse_output_files(xml: &str) -> (r: Result<Vec<OutputFile>, ParseError>)
    ensures
        doc_terminal(xml@) is Fault ==> r is Err && r->Err_0 == (ParseError::Malformed {
            position: doc_terminal(xml@)->Fault_0,
        }),
        doc_terminal(xml@) is Eof ==> r is Ok && {
            let fs = spec_parse_files(doc_events(xml@));
            &&& r->Ok_0@.len() == fs.len()
            &&& (forall|j: int| 0 <= j < fs.len() ==> r->Ok_0@[j]@ == fs[j])
        },
{
    match tokenize(xml) {
        Err(e) => Err(e),
        Ok(evs) => {
            proof {
                assert(views_of(evs@) =~= doc_events(xml@));
            }
            Ok(parse_output_files_events(&evs))
        },
    }
}

} // verus!
