//! The tagged result envelope and its decoder.
//!
//! Every answer of the chain runtime crosses the foreign boundary as one
//! null-terminated string of standard base64 text. The bytes that the text
//! stands for are a status tag followed by a payload:
//!
//! | tag  | meaning       | payload                  |
//! |------|---------------|--------------------------|
//! | 0    | success       | opaque bytes             |
//! | 1    | query error   | the message, UTF-8 text  |
//! | 2    | execute error | the message, UTF-8 text  |
//! | 3..  | reserved      |                          |

use crate::error::{RunnerError, RunnerErrorView};
use base64::engine::general_purpose::STANDARD;
use base64::Engine;
use vstd::prelude::*;
use vstd::slice::slice_subrange;
use vstd::string::StrSliceExecFns;
use vstd::utf8::*;

verus! {

/// The byte sequence that a text in standard base64 (with padding) stands for,
/// and `None` for a text that is no such base64.
pub uninterp spec fn base64_decoding(text: Seq<u8>) -> Option<Seq<u8>>;

/// Calls `Engine::decode` of the `base64` crate on its `STANDARD` engine.
/// Trusted: the call answers with the bytes that the text stands for, and
/// fails exactly on a text that is no standard base64.
#[verifier::external_body]
fn base64_decode(text: &[u8]) -> (bytes: Option<Vec<u8>>)
    ensures
        bytes is Some <==> base64_decoding(text@) is Some,
        bytes matches Some(b) ==> base64_decoding(text@) == Some(b@),
{
    STANDARD.decode(text).ok()
}

/// Calls `Engine::encode` of the `base64` crate on its `STANDARD` engine.
/// Trusted: decoding the text that comes back gives the bytes that went in.
/// The length bound keeps the text within what one allocation can hold.
#[verifier::external_body]
fn base64_encode(bytes: &[u8]) -> (text: String)
    requires
        4 * (bytes@.len() / 3 + 1) <= isize::MAX,
    ensures
        base64_decoding(encode_utf8(text@)) == Some(bytes@),
{
    STANDARD.encode(bytes)
}

/// Calls `core::str::from_utf8` of std.
/// Trusted: the call succeeds exactly on valid UTF-8, and the text that it
/// gives is the one that the bytes encode.
#[verifier::external_body]
pub(crate) fn utf8_text(bytes: &[u8]) -> (text: Option<&str>)
    ensures
        text is Some <==> valid_utf8(bytes@),
        text matches Some(s) ==> s@ == decode_utf8(bytes@),
{
    core::str::from_utf8(bytes).ok()
}

/// The status that the first byte of an envelope announces.
#[derive(Debug, Clone, Copy, PartialEq, Eq, Structural)]
pub enum Status {
    Success,
    QueryError,
    ExecuteError,
    /// A tag from 3 on: no meaning is assigned to it yet.
    Reserved(u8),
}

impl Status {
    /// The status that a tag byte stands for.
    pub open spec fn of_tag(tag: u8) -> Status {
        if tag == 0 {
            Status::Success
        } else if tag == 1 {
            Status::QueryError
        } else if tag == 2 {
            Status::ExecuteError
        } else {
            Status::Reserved(tag)
        }
    }

    /// A reserved status holds a tag that none of the three named ones has.
    pub open spec fn wf(self) -> bool {
        self matches Status::Reserved(tag) ==> tag >= 3
    }

    /// The byte that announces this status.
    pub open spec fn spec_tag(self) -> u8 {
        match self {
            Status::Success => 0,
            Status::QueryError => 1,
            Status::ExecuteError => 2,
            Status::Reserved(tag) => tag,
        }
    }

    pub fn from_tag(tag: u8) -> (status: Status)
        ensures
            status == Status::of_tag(tag),
            status.wf(),
            status.spec_tag() == tag,
    {
        if tag == 0 {
            Status::Success
        } else if tag == 1 {
            Status::QueryError
        } else if tag == 2 {
            Status::ExecuteError
        } else {
            Status::Reserved(tag)
        }
    }

    #[verifier::when_used_as_spec(spec_tag)]
    pub fn tag(self) -> (tag: u8)
        ensures
            tag == self.spec_tag(),
            self.wf() ==> Status::of_tag(tag) == self,
    {
        match self {
            Status::Success => 0,
            Status::QueryError => 1,
            Status::ExecuteError => 2,
            Status::Reserved(tag) => tag,
        }
    }
}

/// One answer of the boundary, before it is classified: a status and a payload.
#[derive(Debug, Clone, PartialEq, Eq)]
pub struct Envelope {
    pub status: Status,
    pub payload: Vec<u8>,
}

/// The bytes of an envelope with the given tag and payload: the tag, then the payload.
pub open spec fn framed(tag: u8, payload: Seq<u8>) -> Seq<u8> {
    seq![tag] + payload
}

/// The envelope bytes that hold an answer: a success with any payload, or one
/// of the two errors with a message in valid UTF-8. Anything else means that
/// the two sides of the boundary no longer speak the same protocol.
pub open spec fn holds_answer(bytes: Seq<u8>) -> bool {
    &&& bytes.len() > 0
    &&& bytes[0] <= 2
    &&& bytes[0] != 0 ==> valid_utf8(bytes.skip(1))
}

/// What the envelope bytes answer: the payload of a success, or the error that
/// the tag names, with the payload as its message.
pub open spec fn answer(bytes: Seq<u8>) -> Result<Seq<u8>, RunnerErrorView>
    recommends
        holds_answer(bytes),
{
    if bytes[0] == 0 {
        Ok(bytes.skip(1))
    } else if bytes[0] == 1 {
        Err(RunnerErrorView::QueryError { msg: decode_utf8(bytes.skip(1)) })
    } else {
        Err(RunnerErrorView::ExecuteError { msg: decode_utf8(bytes.skip(1)) })
    }
}

/// Why a buffer that came over the boundary holds no answer.
#[derive(Debug, Clone, Copy, PartialEq, Eq, Structural)]
pub enum ProtocolViolation {
    /// The text is no standard base64.
    InvalidBase64,
    /// The text stands for no bytes at all, so there is no status tag.
    MissingStatus,
    /// The status tag is a reserved one.
    UndefinedCode(u8),
    /// The message of an error is no valid UTF-8.
    InvalidUtf8,
}

/// The violation that the envelope bytes commit, if any.
pub open spec fn violation_of(bytes: Seq<u8>) -> Option<ProtocolViolation> {
    if bytes.len() == 0 {
        Some(ProtocolViolation::MissingStatus)
    } else if bytes[0] > 2 {
        Some(ProtocolViolation::UndefinedCode(bytes[0]))
    } else if bytes[0] != 0 && !valid_utf8(bytes.skip(1)) {
        Some(ProtocolViolation::InvalidUtf8)
    } else {
        None
    }
}

/// The violation that a base64 text commits, if any.
pub open spec fn wire_violation(text: Seq<u8>) -> Option<ProtocolViolation> {
    match base64_decoding(text) {
        None => Some(ProtocolViolation::InvalidBase64),
        Some(bytes) => violation_of(bytes),
    }
}

impl Envelope {
    /// The bytes of this envelope.
    pub open spec fn bytes(self) -> Seq<u8> {
        framed(self.status.spec_tag(), self.payload@)
    }

    /// Splits envelope bytes into status and payload. There is no envelope
    /// without a status tag.
    pub fn from_bytes(bytes: Vec<u8>) -> (envelope: Option<Envelope>)
        ensures
            envelope is None <==> bytes@.len() == 0,
            envelope matches Some(e) ==> {
                &&& e.status == Status::of_tag(bytes@[0])
                &&& e.status.wf()
                &&& e.payload@ == bytes@.skip(1)
                &&& e.bytes() == bytes@
            },
    {
        if bytes.len() == 0 {
            return None;
        }
        let mut head = bytes;
        let payload = head.split_off(1);
        let status = Status::from_tag(head[0]);
        proof {
            assert(framed(status.spec_tag(), payload@) =~= bytes@);
            assert(payload@ =~= bytes@.skip(1));
        }
        Some(Envelope { status, payload })
    }

    /// The bytes of this envelope: its tag, then its payload.
    pub fn to_bytes(&self) -> (bytes: Vec<u8>)
        requires
            self.payload@.len() < usize::MAX,
        ensures
            bytes@ == self.bytes(),
    {
        let mut bytes: Vec<u8> = Vec::new();
        bytes.push(self.status.tag());
        bytes.extend_from_slice(self.payload.as_slice());
        bytes
    }

    /// The text that carries this envelope over the boundary, without the
    /// terminating null: decoding it gives the bytes of the envelope back.
    pub fn to_wire(&self) -> (text: Vec<u8>)
        requires
            4 * ((self.payload@.len() + 1) / 3 + 1) <= isize::MAX,
        ensures
            base64_decoding(text@) == Some(self.bytes()),
    {
        let bytes = self.to_bytes();
        let text = base64_encode(bytes.as_slice());
        text.as_str().as_bytes_vec()
    }
}

/// A string that the chain runtime handed over the boundary, or the null
/// pointer. It can be decoded once: decoding takes it, and with it the duty to
/// release the buffer.
#[derive(Debug)]
pub struct ForeignString {
    text: Option<Vec<u8>>,
}

impl ForeignString {
    /// The text before its terminating null, and `None` for the null pointer.
    pub closed spec fn text(self) -> Option<Seq<u8>> {
        match self.text {
            Some(t) => Some(t@),
            None => None,
        }
    }

    pub open spec fn is_null(self) -> bool {
        self.text() is None
    }

    /// True where the string is not null and holds an answer.
    pub open spec fn holds_answer(self) -> bool {
        self.text() matches Some(t) && wire_violation(t) is None
    }

    /// The null pointer.
    pub fn null() -> (ptr: ForeignString)
        ensures
            ptr.is_null(),
    {
        ForeignString { text: None }
    }

    /// A string with the given text.
    pub fn new(text: Vec<u8>) -> (ptr: ForeignString)
        ensures
            ptr.text() == Some(text@),
    {
        ForeignString { text: Some(text) }
    }
}

/// The answer of one boundary call: the payload of a success, or the error
/// that the boundary reported.
#[derive(Debug)]
pub struct RawResult(Result<Vec<u8>, RunnerError>);

impl View for RawResult {
    type V = Result<Seq<u8>, RunnerErrorView>;

    closed spec fn view(&self) -> Result<Seq<u8>, RunnerErrorView> {
        match self.0 {
            Ok(payload) => Ok(payload@),
            Err(e) => Err(e@),
        }
    }
}

impl RawResult {
    /// Classifies an envelope by its status.
    pub fn from_envelope(envelope: Envelope) -> (raw: RawResult)
        requires
            envelope.status.wf(),
            holds_answer(envelope.bytes()),
        ensures
            raw@ == answer(envelope.bytes()),
    {
        proof {
            assert(envelope.bytes().skip(1) =~= envelope.payload@);
        }
        match envelope.status {
            Status::Success => RawResult(Ok(envelope.payload)),
            Status::QueryError => {
                let msg = utf8_text(envelope.payload.as_slice()).unwrap().to_owned();
                RawResult(Err(RunnerError::QueryError { msg }))
            },
            _ => {
                let msg = utf8_text(envelope.payload.as_slice()).unwrap().to_owned();
                RawResult(Err(RunnerError::ExecuteError { msg }))
            },
        }
    }

    /// Decodes what a boundary call returned. The null pointer means that
    /// there is no result. A string must hold an answer.
    pub fn from_ptr(ptr: ForeignString) -> (raw: Option<RawResult>)
        requires
            ptr.is_null() || ptr.holds_answer(),
        ensures
            raw is None <==> ptr.is_null(),
            raw matches Some(r) ==> r@ == answer(base64_decoding(ptr.text().unwrap()).unwrap()),
    {
        match ptr.text {
            None => None,
            Some(text) => {
                let bytes = base64_decode(text.as_slice()).unwrap();
                let envelope = Envelope::from_bytes(bytes).unwrap();
                Some(RawResult::from_envelope(envelope))
            },
        }
    }

    /// Decodes what a boundary call returned, for a caller that knows the
    /// pointer not to be null.
    pub fn from_non_null_ptr(ptr: ForeignString) -> (raw: RawResult)
        requires
            ptr.holds_answer(),
        ensures
            raw@ == answer(base64_decoding(ptr.text().unwrap()).unwrap()),
    {
        RawResult::from_ptr(ptr).unwrap()
    }

    /// Decodes what a boundary call returned, and reports a buffer that holds
    /// no answer in place of decoding it.
    pub fn try_from_ptr(ptr: ForeignString) -> (raw: Result<Option<RawResult>, ProtocolViolation>)
        ensures
            match raw {
                Ok(None) => ptr.is_null(),
                Ok(Some(r)) => ptr.holds_answer() && r@ == answer(
                    base64_decoding(ptr.text().unwrap()).unwrap(),
                ),
                Err(v) => ptr.text() matches Some(t) && wire_violation(t) == Some(v),
            },
    {
        let found = match &ptr.text {
            None => {
                return Ok(None);
            },
            Some(text) => match base64_decode(text.as_slice()) {
                None => Some(ProtocolViolation::InvalidBase64),
                Some(bytes) => violation_in(bytes.as_slice()),
            },
        };
        match found {
            Some(v) => Err(v),
            None => Ok(Some(RawResult::from_non_null_ptr(ptr))),
        }
    }

    pub fn into_result(self) -> (result: Result<Vec<u8>, RunnerError>)
        ensures
            match result {
                Ok(payload) => self@ == Ok::<Seq<u8>, RunnerErrorView>(payload@),
                Err(e) => self@ == Err::<Seq<u8>, RunnerErrorView>(e@),
            },
    {
        self.0
    }
}

/// Looks for what makes envelope bytes hold no answer.
pub fn violation_in(bytes: &[u8]) -> (violation: Option<ProtocolViolation>)
    ensures
        violation == violation_of(bytes@),
        violation is None <==> holds_answer(bytes@),
{
    if bytes.len() == 0 {
        return Some(ProtocolViolation::MissingStatus);
    }
    let tag = bytes[0];
    if tag > 2 {
        return Some(ProtocolViolation::UndefinedCode(tag));
    }
    if tag == 0 {
        return None;
    }
    let payload = slice_subrange(bytes, 1, bytes.len());
    proof {
        assert(payload@ =~= bytes@.skip(1));
    }
    match utf8_text(payload) {
        Some(_) => None,
        None => Some(ProtocolViolation::InvalidUtf8),
    }
}

/// A success comes back whole: where a text stands for the envelope of a
/// success, it holds an answer, and the answer is the payload that was
/// framed, byte for byte.
pub proof fn lemma_success_payload_is_kept(text: Seq<u8>, payload: Seq<u8>)
    requires
        base64_decoding(text) == Some(framed(0, payload)),
    ensures
        wire_violation(text) is None,
        answer(base64_decoding(text).unwrap()) == Ok::<Seq<u8>, RunnerErrorView>(payload),
{
    assert(framed(0, payload).skip(1) =~= payload);
}

/// An error comes back with its message: where a text stands for an envelope
/// with status 1 or 2 and a payload in valid UTF-8, the answer is the query
/// error or the execute error whose message is the text that the payload
/// encodes.
pub proof fn lemma_error_message_is_payload(text: Seq<u8>, tag: u8, payload: Seq<u8>)
    requires
        tag == 1 || tag == 2,
        valid_utf8(payload),
        base64_decoding(text) == Some(framed(tag, payload)),
    ensures
        wire_violation(text) is None,
        tag == 1 ==> answer(base64_decoding(text).unwrap()) == Err::<Seq<u8>, RunnerErrorView>(
            RunnerErrorView::QueryError { msg: decode_utf8(payload) },
        ),
        tag == 2 ==> answer(base64_decoding(text).unwrap()) == Err::<Seq<u8>, RunnerErrorView>(
            RunnerErrorView::ExecuteError { msg: decode_utf8(payload) },
        ),
{
    assert(framed(tag, payload).skip(1) =~= payload);
}

/// Whatever message an error is framed with is the message that decoding
/// gives, character for character.
pub proof fn lemma_error_message_round_trip(tag: u8, msg: Seq<char>)
    requires
        tag == 1 || tag == 2,
    ensures
        holds_answer(framed(tag, encode_utf8(msg))),
        tag == 1 ==> answer(framed(tag, encode_utf8(msg))) == Err::<Seq<u8>, RunnerErrorView>(
            RunnerErrorView::QueryError { msg },
        ),
        tag == 2 ==> answer(framed(tag, encode_utf8(msg))) == Err::<Seq<u8>, RunnerErrorView>(
            RunnerErrorView::ExecuteError { msg },
        ),
{
    broadcast use {encode_utf8_valid_utf8, encode_utf8_decode_utf8};

    assert(framed(tag, encode_utf8(msg)).skip(1) =~= encode_utf8(msg));
}

/// Every envelope either holds an answer or commits exactly one violation.
pub proof fn lemma_answer_or_violation(bytes: Seq<u8>)
    ensures
        holds_answer(bytes) <==> violation_of(bytes) is None,
{
}

} // verus!
