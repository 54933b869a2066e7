//! The protocol decoder: from one inbound frame to what the client intends.
//!
//! A client speaks in text frames that hold a JSON object with a member
//! `message` whose value is a string. Anything else is malformed.

use vstd::prelude::*;

verus! {

/// One inbound frame as the transport delivers it.
#[derive(Debug)]
pub enum Frame {
    /// A text frame.
    Text(String),
    /// A frame of raw bytes.
    Binary(Vec<u8>),
    /// A ping with its payload.
    Ping(Vec<u8>),
    /// A pong with its payload.
    Pong(Vec<u8>),
    /// The announcement that the client closes the connection.
    Close,
}

/// The mathematical value of a [`Frame`].
pub enum FrameView {
    Text(Seq<char>),
    Binary(Seq<u8>),
    Ping(Seq<u8>),
    Pong(Seq<u8>),
    Close,
}

impl View for Frame {
    type V = FrameView;

    open spec fn view(&self) -> FrameView {
        match self {
            Frame::Text(t) => FrameView::Text(t@),
            Frame::Binary(b) => FrameView::Binary(b@),
            Frame::Ping(b) => FrameView::Ping(b@),
            Frame::Pong(b) => FrameView::Pong(b@),
            Frame::Close => FrameView::Close,
        }
    }
}

/// What a client asks for. There is one intent: a text that names the
/// participant if it has no name yet, and is a chat message otherwise.
#[derive(Debug)]
pub enum ClientIntent {
    DeclareOrSend(String),
}

/// The mathematical value of a [`ClientIntent`].
pub enum IntentView {
    DeclareOrSend(Seq<char>),
}

impl View for ClientIntent {
    type V = IntentView;

    open spec fn view(&self) -> IntentView {
        match self {
            ClientIntent::DeclareOrSend(t) => IntentView::DeclareOrSend(t@),
        }
    }
}

/// Why a frame was not understood.
#[derive(Clone, Copy, Debug, PartialEq, Eq, Structural)]
pub enum DecodeError {
    /// The frame is no text, holds no envelope, or its text is blank.
    MalformedPayload,
}

/// The white space of Unicode.
pub open spec fn is_space(c: char) -> bool {
    let n = c as u32;
    ||| 0x09 <= n <= 0x0D
    ||| n == 0x20
    ||| n == 0x85
    ||| n == 0xA0
    ||| n == 0x1680
    ||| 0x2000 <= n <= 0x200A
    ||| n == 0x2028
    ||| n == 0x2029
    ||| n == 0x202F
    ||| n == 0x205F
    ||| n == 0x3000
}

/// A text is blank when nothing is left of it after trimming: every
/// character is white space.
pub open spec fn is_blank(text: Seq<char>) -> bool {
    forall|i: int| 0 <= i < text.len() ==> is_space(#[trigger] text[i])
}

/// Whether `c` is white space.
pub fn char_is_space(c: char) -> (r: bool)
    ensures
        r == is_space(c),
{
    let n: u32 = c as u32;
    (0x09 <= n && n <= 0x0D) || n == 0x20 || n == 0x85 || n == 0xA0 || n == 0x1680 || (0x2000 <= n
        && n <= 0x200A) || n == 0x2028 || n == 0x2029 || n == 0x202F || n == 0x205F || n == 0x3000
}

/// Whether `text` is blank.
pub fn text_is_blank(text: &str) -> (r: bool)
    ensures
        r == is_blank(text@),
{
    let mut blank = true;
    for c in it: text.chars()
        invariant
            it.seq() == text@,
            blank == is_blank(text@.take(it.index() as int)),
    {
        proof {
            let before = text@.take(it.index() as int);
            let after = text@.take(it.index() + 1);
            assert(after =~= before.push(c));
            if is_blank(before) && is_space(c) {
                assert(is_blank(after));
            } else if !is_space(c) {
                assert(after[it.index() as int] == c);
            } else {
                let i = choose|i: int| 0 <= i < before.len() && !is_space(#[trigger] before[i]);
                assert(after[i] == before[i]);
            }
        }
        blank = blank && char_is_space(c);
    }
    proof {
        assert(text@.take(text@.len() as int) =~= text@);
    }
    blank
}

/// `serde_json::Value`: a parsed JSON document. Its inside is not visible
/// here; [`text_members`] names the part of it that the decoder reads.
#[verifier::external_type_specification]
#[verifier::external_body]
pub struct ExJsonValue(serde_json::Value);

/// `serde_json::Error`: why a text is no JSON document.
#[verifier::external_type_specification]
#[verifier::external_body]
pub struct ExJsonError(serde_json::Error);

/// The members of a JSON document whose values are strings, by key; the
/// empty map for a document that is no object.
pub uninterp spec fn text_members(doc: serde_json::Value) -> Map<Seq<char>, Seq<char>>;

/// What `serde_json::from_str` makes of a text: nothing if the text is no
/// JSON document, else the string-valued members of that document.
pub uninterp spec fn json_text_members(text: Seq<char>) -> Option<Map<Seq<char>, Seq<char>>>;

/// Calls `serde_json::from_str` for a `serde_json::Value`. Claimed: the
/// outcome depends on the text alone, so it is the one that
/// [`json_text_members`] names.
#[verifier::external_body]
fn parse_document(text: &str) -> (r: Result<serde_json::Value, serde_json::Error>)
    ensures
        match r {
            Ok(doc) => json_text_members(text@) == Some(text_members(doc)),
            Err(_) => json_text_members(text@) is None,
        },
{
    serde_json::from_str::<serde_json::Value>(text)
}

/// Calls `serde_json::Value::get` with a string key and
/// `serde_json::Value::as_str` on what it finds. Claimed: the result is the
/// member under `key` where the document is an object that has such a
/// member and the member is a string, and nothing otherwise.
#[verifier::external_body]
fn text_member(doc: &serde_json::Value, key: &str) -> (r: Option<String>)
    ensures
        match r {
            Some(t) => text_members(*doc).contains_key(key@) && text_members(*doc)[key@] == t@,
            None => !text_members(*doc).contains_key(key@),
        },
{
    doc.get(key).and_then(serde_json::Value::as_str).map(str::to_owned)
}

/// The key under which an envelope carries its text.
pub open spec fn message_key() -> Seq<char> {
    "message"@
}

/// The text that an envelope carries: the string under the key `message`
/// of the JSON object that the frame's text holds.
pub open spec fn envelope_text(text: Seq<char>) -> Option<Seq<char>> {
    match json_text_members(text) {
        Some(members) => if members.contains_key(message_key()) {
            Some(members[message_key()])
        } else {
            None
        },
        None => None,
    }
}

/// The intent that an envelope's text stands for: a text that is not blank
/// is passed on as it is, and a missing or blank one is malformed.
pub open spec fn intent_of(text: Option<Seq<char>>) -> Result<IntentView, DecodeError> {
    match text {
        Some(t) => if is_blank(t) {
            Err(DecodeError::MalformedPayload)
        } else {
            Ok(IntentView::DeclareOrSend(t))
        },
        None => Err(DecodeError::MalformedPayload),
    }
}

/// What a frame decodes to: only a text frame can hold an envelope.
pub open spec fn decoded(frame: FrameView) -> Result<IntentView, DecodeError> {
    match frame {
        FrameView::Text(t) => intent_of(envelope_text(t)),
        _ => Err(DecodeError::MalformedPayload),
    }
}

/// The value of a decoder's result.
pub open spec fn outcome_view(r: Result<ClientIntent, DecodeError>) -> Result<
    IntentView,
    DecodeError,
> {
    match r {
        Ok(intent) => Ok(intent@),
        Err(e) => Err(e),
    }
}

/// Reads the text that an envelope carries out of a text frame.
pub fn read_envelope(text: &str) -> (r: Option<String>)
    ensures
        crate::event::text_view(r) == envelope_text(text@),
{
    match parse_document(text) {
        Ok(doc) => text_member(&doc, "message"),
        Err(_) => None,
    }
}

/// Turns the text of an envelope into an intent.
pub fn intent_from_text(text: Option<String>) -> (r: Result<ClientIntent, DecodeError>)
    ensures
        outcome_view(r) == intent_of(crate::event::text_view(text)),
{
    match text {
        Some(t) => {
            if text_is_blank(t.as_str()) {
                Err(DecodeError::MalformedPayload)
            } else {
                Ok(ClientIntent::DeclareOrSend(t))
            }
        },
        None => Err(DecodeError::MalformedPayload),
    }
}

/// Decodes one inbound frame. Fails with `MalformedPayload` exactly when the
/// frame is no text frame, its text holds no envelope, or the envelope's
/// text is blank; a failure says nothing about the connection.
pub fn decode(frame: &Frame) -> (r: Result<ClientIntent, DecodeError>)
    ensures
        outcome_view(r) == decoded(frame@),
{
    match frame {
        Frame::Text(t) => intent_from_text(read_envelope(t.as_str())),
        _ => Err(DecodeError::MalformedPayload),
    }
}

} // verus!
