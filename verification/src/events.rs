//! The event surface of the XML walkers: a forward-only reader is driven over
//! the document and yields a stream of owned events (start tag, end tag, text,
//! end of document, or a fault with its byte position). The stream is a
//! function of the document alone; it is named by `xml_event_at` and its
//! length up to the first terminal event by `xml_event_count`, and `tokenize`
//! collects it into a vector that the verified parsers walk.

use vstd::prelude::*;
use crate::errors::ParseError;
use quick_xml::events::Event;

verus! {

/// One event of a forward-only XML walk, owned and decoded.
#[derive(Debug, Clone)]
pub enum XmlEvent {
    /// A start tag, with its name.
    Start(String),
    /// An end tag, with its name.
    End(String),
    /// Character data between tags, whitespace-trimmed.
    Text(String),
    /// Any event the walkers do not react to (comments, declarations,
    /// self-closing tags and the like).
    Other,
    /// End of the document.
    Eof,
    /// The document is not well-formed; carries the byte position of the
    /// fault.
    Fault(u64),
}

/// The abstract value of an `XmlEvent`.
pub enum EventView {
    Start(Seq<char>),
    End(Seq<char>),
    Text(Seq<char>),
    Other,
    Eof,
    Fault(u64),
}

impl View for XmlEvent {
    type V = EventView;

    open spec fn view(&self) -> EventView {
        match self {
            XmlEvent::Start(t) => EventView::Start(t@),
            XmlEvent::End(t) => EventView::End(t@),
            XmlEvent::Text(t) => EventView::Text(t@),
            XmlEvent::Other => EventView::Other,
            XmlEvent::Eof => EventView::Eof,
            XmlEvent::Fault(p) => EventView::Fault(*p),
        }
    }
}

/// The abstract values of a collected event sequence.
pub open spec fn views_of(evs: Seq<XmlEvent>) -> Seq<EventView> {
    Seq::new(evs.len(), |i: int| evs[i]@)
}

/// Whether an event ends the walk: the end of the document or a fault.
pub open spec fn is_terminal(e: EventView) -> bool {
    e is Eof || e is Fault
}

/// The event that the XML reader yields at step `i` of its walk over `doc`.
/// The walk is deterministic in the document, so this is a function of the
/// document and the step alone.
pub uninterp spec fn xml_event_at(doc: Seq<char>, i: int) -> EventView;

/// The number of events the reader yields for `doc` before the first
/// terminal one (end of document or fault). Every walk over a finite
/// document reaches such an event.
pub uninterp spec fn xml_event_count(doc: Seq<char>) -> nat;

/// The full event stream of `doc`, up to but not including its terminal
/// event.
pub open spec fn doc_events(doc: Seq<char>) -> Seq<EventView> {
    Seq::new(xml_event_count(doc), |i: int| xml_event_at(doc, i))
}

/// The terminal event of `doc`: `Eof` for a well-formed document, otherwise
/// the fault.
pub open spec fn doc_terminal(doc: Seq<char>) -> EventView {
    xml_event_at(doc, xml_event_count(doc) as int)
}

/// Relies on quick_xml's `Reader::from_str` and `Config::trim_text`: builds
/// a forward-only reader over the document whose text events are
/// whitespace-trimmed (and therefore never empty).
#[verifier::external_body]
fn raw_reader<'a>(xml: &'a str) -> (r: quick_xml::Reader<&'a [u8]>) {
    let mut reader = quick_xml::Reader::from_str(xml);
    reader.config_mut().trim_text(true);
    reader
}

/// Declares quick_xml's `Reader` so that it can stand in a field; the value
/// is opaque to the verifier.
#[verifier::external_type_specification]
#[verifier::external_body]
#[verifier::reject_recursive_types(R)]
pub struct ExXmlReader<R>(quick_xml::Reader<R>);

/// A reader joined with the ghost position of its walk.
struct EventReader<'a> {
    inner: quick_xml::Reader<&'a [u8]>,
    doc: Ghost<Seq<char>>,
    pos: Ghost<int>,
}

impl<'a> EventReader<'a> {
    fn new(xml: &'a str) -> (r: EventReader<'a>)
        ensures
            r.doc@ == xml@,
            r.pos@ == 0,
    {
        EventReader { inner: raw_reader(xml), doc: Ghost(xml@), pos: Ghost(0) }
    }

    /// Relies on quick_xml's `Reader::read_event` (with `QName::as_ref` and
    /// `Reader::buffer_position` to decode its result): yields the next event
    /// of the walk over the document. Start and end tag names and text
    /// contents are decoded to owned strings; every other event collapses to
    /// `Other`; a parse error yields `Fault` with the reader's byte position.
    /// The walk over a finite document always reaches end-of-document or a
    /// fault, which is where `xml_event_count` points.
    #[verifier::external_body]
    fn read_next(&mut self) -> (ev: XmlEvent)
        requires
            old(self).pos@ <= xml_event_count(old(self).doc@),
        ensures
            final(self).doc@ == old(self).doc@,
            final(self).pos@ == old(self).pos@ + 1,
            ev@ == xml_event_at(old(self).doc@, old(self).pos@),
            old(self).pos@ < xml_event_count(old(self).doc@) ==> !is_terminal(ev@),
            old(self).pos@ == xml_event_count(old(self).doc@) ==> is_terminal(ev@),
    {
        match self.inner.read_event() {
            Ok(Event::Start(e)) => XmlEvent::Start(e.name().as_ref().to_owned()),
            Ok(Event::End(e)) => XmlEvent::End(e.name().as_ref().to_owned()),
            Ok(Event::Text(t)) => XmlEvent::Text(t.as_ref().to_owned()),
            Ok(Event::Eof) => XmlEvent::Eof,
            Ok(_) => XmlEvent::Other,
            Err(_) => XmlEvent::Fault(self.inner.buffer_position()),
        }
    }
}

/// Walks the whole document and collects its events: all events before the
/// end marker for a well-formed document, or the fault's byte position for a
/// malformed one.
pub fn tokenize(xml: &str) -> (r: Result<Vec<XmlEvent>, ParseError>)
    ensures
        match r {
            Ok(evs) => doc_terminal(xml@) is Eof && evs@.len() == xml_event_count(xml@) && (forall|
                i: int,
            |
                0 <= i < evs@.len() ==> evs@[i]@ == xml_event_at(xml@, i) && !is_terminal(
                    evs@[i]@,
                )),
            Err(pe) => doc_terminal(xml@) is Fault && pe == (ParseError::Malformed {
                position: doc_terminal(xml@)->Fault_0,
            }),
        },
{
    let mut rd = EventReader::new(xml);
    let mut evs: Vec<XmlEvent> = Vec::new();
    loop
        invariant
            rd.doc@ == xml@,
            rd.pos@ == evs@.len(),
            rd.pos@ <= xml_event_count(xml@),
            forall|i: int|
                0 <= i < evs@.len() ==> evs@[i]@ == xml_event_at(xml@, i) && !is_terminal(
                    evs@[i]@,
                ),
        decreases xml_event_count(xml@) - rd.pos@,
    {
        let ev = rd.read_next();
        match ev {
            XmlEvent::Eof => {
                return Ok(evs);
            },
            XmlEvent::Fault(p) => {
                return Err(ParseError::Malformed { position: p });
            },
            _ => {
                evs.push(ev);
            },
        }
    }
}

} // verus!
