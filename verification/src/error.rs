//! The error type of a run and the decoding of backend error texts.

use quick_xml::events::Event;
use quick_xml::Reader;
use vstd::prelude::*;
use vstd::std_specs::convert::FromSpecImpl;
use vstd::string::{to_string_from_display_ensures, StrSliceExecFns};

verus! {

/// What went wrong, by the part of the run that it stops.
#[derive(Debug, Clone, Copy, PartialEq, Eq, Structural)]
pub enum ErrorKind {
    /// An invalid pattern or a missing argument; no storage call was made.
    Configuration,
    /// A matching source is smaller than the smallest part the store takes.
    SizeConstraint,
    /// A storage call failed.
    Transport,
    /// An error handed in as plain text.
    Other,
}

/// An error of a run: its kind and the message shown to the user.
#[derive(Debug)]
pub struct ConcatError {
    pub kind: ErrorKind,
    pub message: String,
}

/// A result whose error is a `ConcatError`.
pub type ConcatResult<T> = Result<T, ConcatError>;

impl ConcatError {
    /// The message of the error.
    pub fn message(&self) -> (r: String)
        ensures
            r@ == self.message@,
    {
        self.message.clone()
    }

    /// The kind of the error.
    pub fn kind(&self) -> (r: ErrorKind)
        ensures
            r == self.kind,
    {
        self.kind
    }

    /// The same error once more.
    pub fn duplicate(&self) -> (r: ConcatError)
        ensures
            r.kind == self.kind,
            r.message@ == self.message@,
    {
        ConcatError { kind: self.kind, message: self.message.clone() }
    }
}

/// A plain text becomes the message of an error of kind `Other`.
impl From<String> for ConcatError {
    fn from(t: String) -> (r: ConcatError) {
        ConcatError { kind: ErrorKind::Other, message: t }
    }
}

impl FromSpecImpl<String> for ConcatError {
    open spec fn obeys_from_spec() -> bool {
        true
    }

    open spec fn from_spec(t: String) -> ConcatError {
        ConcatError { kind: ErrorKind::Other, message: t }
    }
}

/// A plain text becomes the message of an error of kind `Other`.
impl<'a> From<&'a str> for ConcatError {
    fn from(t: &'a str) -> (r: ConcatError)
        ensures
            r.kind == ErrorKind::Other,
            r.message@ == t@,
    {
        ConcatError { kind: ErrorKind::Other, message: t.to_owned() }
    }
}

impl<'a> FromSpecImpl<&'a str> for ConcatError {
    open spec fn obeys_from_spec() -> bool {
        false
    }

    open spec fn from_spec(t: &'a str) -> ConcatError {
        arbitrary()
    }
}

/// `std::io::Error`, carried as an opaque value.
#[verifier::external_type_specification]
#[verifier::external_body]
pub struct ExIoError(std::io::Error);

/// An I/O error becomes a transport error with the text it displays as.
impl From<std::io::Error> for ConcatError {
    fn from(t: std::io::Error) -> (r: ConcatError)
        ensures
            r.kind == ErrorKind::Transport,
            to_string_from_display_ensures::<std::io::Error>(&t, r.message),
    {
        ConcatError { kind: ErrorKind::Transport, message: t.to_string() }
    }
}

impl FromSpecImpl<std::io::Error> for ConcatError {
    open spec fn obeys_from_spec() -> bool {
        false
    }

    open spec fn from_spec(t: std::io::Error) -> ConcatError {
        arbitrary()
    }
}

/// `std::time::SystemTimeError`, carried as an opaque value.
#[verifier::external_type_specification]
#[verifier::external_body]
pub struct ExSystemTimeError(std::time::SystemTimeError);

/// A clock error becomes an error of kind `Other` with the text it
/// displays as.
impl From<std::time::SystemTimeError> for ConcatError {
    fn from(t: std::time::SystemTimeError) -> (r: ConcatError)
        ensures
            r.kind == ErrorKind::Other,
            to_string_from_display_ensures::<std::time::SystemTimeError>(&t, r.message),
    {
        ConcatError { kind: ErrorKind::Other, message: t.to_string() }
    }
}

impl FromSpecImpl<std::time::SystemTimeError> for ConcatError {
    open spec fn obeys_from_spec() -> bool {
        false
    }

    open spec fn from_spec(t: std::time::SystemTimeError) -> ConcatError {
        arbitrary()
    }
}

/// A `quick_xml::Reader` over a text held in memory. Its state is known to
/// the reader alone; contracts speak of the text it reads and of the count
/// of events read from it so far.
#[verifier::external_body]
pub struct EnvelopeReader {
    inner: Reader<std::io::Cursor<Vec<u8>>>,
}

/// One event of an XML text, as far as the decoding looks at it.
#[derive(Debug)]
pub enum XmlEvent {
    /// The text is exhausted.
    End,
    /// The text is not well formed at this point.
    Broken,
    /// An opening tag with the name given.
    Open(Vec<u8>),
    /// Anything else.
    Other,
}

/// The text that a reader was opened on.
pub uninterp spec fn reader_text(reader: EnvelopeReader) -> Seq<char>;

/// How many events have been read from a reader.
pub uninterp spec fn reader_position(reader: EnvelopeReader) -> nat;

/// The event that `quick_xml::Reader::read_event` yields on `text` after
/// `index` events have been read from it.
pub uninterp spec fn xml_event(text: Seq<char>, index: nat) -> XmlEvent;

/// What `quick_xml::Reader::read_text` yields for the element named `tag`
/// on `text` after `index` events have been read from it; `None` stands
/// for its error.
pub uninterp spec fn xml_text(text: Seq<char>, index: nat, tag: Seq<u8>) -> Option<Seq<char>>;

/// Calls `quick_xml::Reader::from_reader` on the bytes of `text`. Trusted:
/// the reader reads that text and has read no event yet.
#[verifier::external_body]
fn open_reader(text: &str) -> (r: EnvelopeReader)
    ensures
        reader_text(r) == text@,
        reader_position(r) == 0,
{
    EnvelopeReader { inner: Reader::from_reader(std::io::Cursor::new(text.as_bytes().to_vec())) }
}

/// Calls `quick_xml::Reader::read_event` with a fresh buffer and tells the
/// kinds of event apart. Trusted: the event is the one that `xml_event`
/// names for the reader's text and position, and the position moves on by
/// one.
#[verifier::external_body]
fn next_event(reader: &mut EnvelopeReader) -> (r: XmlEvent)
    ensures
        r == xml_event(reader_text(*old(reader)), reader_position(*old(reader))),
        reader_text(*final(reader)) == reader_text(*old(reader)),
        reader_position(*final(reader)) == reader_position(*old(reader)) + 1,
{
    let mut buffer = Vec::new();
    match reader.inner.read_event(&mut buffer) {
        Ok(Event::Eof) => XmlEvent::End,
        Err(_) => XmlEvent::Broken,
        Ok(Event::Start(e)) => XmlEvent::Open(e.name().to_vec()),
        Ok(_) => XmlEvent::Other,
    }
}

/// Calls `quick_xml::Reader::read_text` for the element named `tag`, with a
/// fresh buffer; `None` stands for its error. Trusted: the text is the one
/// that `xml_text` names for the reader's text and position.
#[verifier::external_body]
fn element_text(reader: &mut EnvelopeReader, tag: &Vec<u8>) -> (r: Option<String>)
    ensures
        r is Some == xml_text(reader_text(*old(reader)), reader_position(*old(reader)), tag@) is Some,
        r is Some ==> r.unwrap()@ == xml_text(
            reader_text(*old(reader)),
            reader_position(*old(reader)),
            tag@,
        ).unwrap(),
{
    reader.inner.read_text(tag, &mut Vec::new()).ok()
}

/// The name of the element that carries the message of an error envelope.
pub open spec fn message_tag() -> Seq<u8> {
    seq![0x4du8, 0x65u8, 0x73u8, 0x73u8, 0x61u8, 0x67u8, 0x65u8]
}

/// Whether `name` is the name `Message`.
pub fn is_message_tag(name: &Vec<u8>) -> (r: bool)
    ensures
        r == (name@ == message_tag()),
{
    let r = name.len() == 7 && name[0] == 0x4du8 && name[1] == 0x65u8 && name[2] == 0x73u8
        && name[3] == 0x73u8 && name[4] == 0x61u8 && name[5] == 0x67u8 && name[6] == 0x65u8;
    proof {
        if r {
            assert(name@ =~= message_tag());
        }
    }
    r
}

/// Whether `text` begins with `prefix`.
pub open spec fn begins_with(text: Seq<char>, prefix: Seq<char>) -> bool {
    prefix.len() <= text.len() && text.subrange(0, prefix.len() as int) == prefix
}

/// Whether `text` begins with `prefix`.
pub fn has_prefix(text: &str, prefix: &str) -> (r: bool)
    ensures
        r == begins_with(text@, prefix@),
{
    let n = prefix.unicode_len();
    if text.unicode_len() < n {
        return false;
    }
    let mut i: usize = 0;
    while i < n
        invariant
            i <= n,
            n == prefix@.len(),
            n <= text@.len(),
            forall|k: int| 0 <= k < i ==> text@[k] == prefix@[k],
        decreases n - i,
    {
        if text.get_char(i) != prefix.get_char(i) {
            assert(text@.subrange(0, n as int)[i as int] != prefix@[i as int]);
            return false;
        }
        i += 1;
    }
    assert(text@.subrange(0, n as int) =~= prefix@);
    true
}

/// Whether a backend error text is an XML envelope.
pub open spec fn is_envelope(raw: Seq<char>) -> bool {
    begins_with(raw, "<?xml"@)
}

/// The message found in an envelope: the text of the first element named
/// `Message` among the events of `text` from `index` on, looking at no more
/// than `left` of them. `None` where the text ends or breaks first, or
/// where the text of the element cannot be read.
pub open spec fn scanned(text: Seq<char>, index: nat, left: nat) -> Option<Seq<char>>
    decreases left,
{
    if left == 0 {
        None
    } else {
        match xml_event(text, index) {
            XmlEvent::End => None,
            XmlEvent::Broken => None,
            XmlEvent::Open(name) => if name@ == message_tag() {
                xml_text(text, index + 1, message_tag())
            } else {
                scanned(text, index + 1, (left - 1) as nat)
            },
            XmlEvent::Other => scanned(text, index + 1, (left - 1) as nat),
        }
    }
}

/// The message to show for a backend error text: the message found in it
/// where it is an envelope that holds one, else the text itself.
pub open spec fn shown(raw: Seq<char>) -> Seq<char> {
    if is_envelope(raw) {
        match scanned(raw, 0, raw.len()) {
            Some(text) => text,
            None => raw,
        }
    } else {
        raw
    }
}

/// The view of a text that may be absent.
pub open spec fn text_of(found: Option<String>) -> Option<Seq<char>> {
    match found {
        Some(text) => Some(text@),
        None => None,
    }
}

/// The message to show for a backend error text, given what the envelope
/// held: the text of its message element where one was read, else the raw
/// text.
pub fn surfaced(raw: String, found: Option<String>) -> (r: String)
    ensures
        r@ == match found {
            Some(text) => text@,
            None => raw@,
        },
{
    match found {
        Some(text) => text,
        None => raw,
    }
}

impl ConcatError {
    /// The error for a failed storage call, from the text of the backend's
    /// error. A text that is no XML envelope is surfaced as it is. In an
    /// envelope the first element named `Message` is looked for, and its
    /// text is surfaced; where there is none, or the envelope cannot be
    /// read, the raw text is surfaced.
    pub fn from_backend(raw: String) -> (r: ConcatError)
        ensures
            r.kind == ErrorKind::Transport,
            r.message@ == shown(raw@),
    {
        if !has_prefix(raw.as_str(), "<?xml") {
            return ConcatError { kind: ErrorKind::Transport, message: raw };
        }
        let found = find_message(raw.as_str());
        ConcatError { kind: ErrorKind::Transport, message: surfaced(raw, found) }
    }
}

/// Reads `text` as XML up to the first element named `Message` and returns
/// that element's text. `None` where the text ends or breaks before such an
/// element, or where the text of the element cannot be read.
pub fn find_message(text: &str) -> (r: Option<String>)
    ensures
        text_of(r) == scanned(text@, 0, text@.len()),
{
    let mut reader = open_reader(text);
    let tag: Vec<u8> = vec![0x4du8, 0x65u8, 0x73u8, 0x73u8, 0x61u8, 0x67u8, 0x65u8];
    assert(tag@ =~= message_tag());
    // Every event but the last consumes at least one character of the text.
    let mut left: usize = text.unicode_len();
    while left > 0
        invariant
            tag@ == message_tag(),
            reader_text(reader) == text@,
            scanned(text@, 0, text@.len()) == scanned(text@, reader_position(reader), left as nat),
        decreases left,
    {
        match next_event(&mut reader) {
            XmlEvent::End => {
                return None;
            },
            XmlEvent::Broken => {
                return None;
            },
            XmlEvent::Open(name) => {
                if is_message_tag(&name) {
                    return element_text(&mut reader, &tag);
                }
            },
            XmlEvent::Other => {},
        }
        left -= 1;
    }
    None
}

} // verus!
