//! Frames of the message-events protocol and the ways the server builds them.
use vstd::prelude::*;
use vstd::string::*;
use crate::json::{opt_view, Json, JsonV};
use crate::clock::now_millis;
use crate::text::{i64_to_decimal, int_decimal};

verus! {

/// The error part of an error frame.
pub struct WsErrorPayload {
    pub code: String,
    pub message: String,
    pub details: Option<Json>,
}

/// One frame of the protocol.
pub struct WsFrame {
    pub version: String,
    pub kind: String,
    pub id: String,
    pub op: String,
    pub timestamp: i64,
    pub payload: Option<Json>,
    pub error: Option<WsErrorPayload>,
}

/// Model of an error payload.
pub struct ErrorV {
    pub code: Seq<char>,
    pub message: Seq<char>,
    pub details: Option<JsonV>,
}

/// Model of a frame.
pub struct FrameV {
    pub version: Seq<char>,
    pub kind: Seq<char>,
    pub id: Seq<char>,
    pub op: Seq<char>,
    pub timestamp: i64,
    pub payload: Option<JsonV>,
    pub error: Option<ErrorV>,
}

impl View for WsErrorPayload {
    type V = ErrorV;

    open spec fn view(&self) -> ErrorV {
        ErrorV { code: self.code@, message: self.message@, details: opt_view(self.details) }
    }
}

/// The view of an optional error payload.
pub open spec fn opt_error_view(e: Option<WsErrorPayload>) -> Option<ErrorV> {
    match e {
        Some(v) => Some(v@),
        None => None,
    }
}

impl View for WsFrame {
    type V = FrameV;

    open spec fn view(&self) -> FrameV {
        FrameV {
            version: self.version@,
            kind: self.kind@,
            id: self.id@,
            op: self.op@,
            timestamp: self.timestamp,
            payload: opt_view(self.payload),
            error: opt_error_view(self.error),
        }
    }
}

/// The kinds of frame that the server sends.
pub enum ReplyKind {
    Response,
    Event,
    Error,
    Pong,
}

/// The wire name of a reply kind.
pub open spec fn reply_kind_name(k: ReplyKind) -> Seq<char> {
    match k {
        ReplyKind::Response => "response"@,
        ReplyKind::Event => "event"@,
        ReplyKind::Error => "error"@,
        ReplyKind::Pong => "pong"@,
    }
}

/// What a frame that the server sends must hold, apart from the clock readings in it:
/// its timestamp and, for an event, the time stamped into its id.
pub struct ReplySpec {
    pub kind: ReplyKind,
    pub id: Seq<char>,
    pub op: Seq<char>,
    pub payload: Option<JsonV>,
    pub error: Option<ErrorV>,
}

/// The id of an event frame: `evt-` and a clock reading in milliseconds.
pub open spec fn is_event_id(id: Seq<char>) -> bool {
    exists|t: i64| id == "evt-"@ + int_decimal(t as int)
}

/// `f` is the frame that `r` describes.
pub open spec fn frame_fits(f: FrameV, r: ReplySpec) -> bool {
    &&& f.version == "v1"@
    &&& f.kind == reply_kind_name(r.kind)
    &&& f.op == r.op
    &&& f.payload == r.payload
    &&& f.error == r.error
    &&& if r.kind is Event { is_event_id(f.id) } else { f.id == r.id }
}

/// The frames `fs` are, one for one, the frames that `rs` describe.
pub open spec fn frames_fit(fs: Seq<WsFrame>, rs: Seq<ReplySpec>) -> bool {
    fs.len() == rs.len() && forall|i: int| 0 <= i < fs.len() ==> frame_fits(#[trigger] fs[i]@, rs[i])
}

/// A response to request `id`.
pub open spec fn response_spec(id: Seq<char>, op: Seq<char>, payload: JsonV) -> ReplySpec {
    ReplySpec { kind: ReplyKind::Response, id, op, payload: Some(payload), error: None }
}

/// An event announcing `op`.
pub open spec fn event_spec(op: Seq<char>, payload: JsonV) -> ReplySpec {
    ReplySpec { kind: ReplyKind::Event, id: Seq::empty(), op, payload: Some(payload), error: None }
}

/// An error reply to request `id`.
pub open spec fn error_spec(
    id: Seq<char>,
    op: Seq<char>,
    code: Seq<char>,
    message: Seq<char>,
    details: Option<JsonV>,
) -> ReplySpec {
    ReplySpec {
        kind: ReplyKind::Error,
        id,
        op,
        payload: None,
        error: Some(ErrorV { code, message, details }),
    }
}

/// A pong answering request `id`.
pub open spec fn pong_spec(id: Seq<char>, op: Seq<char>) -> ReplySpec {
    ReplySpec { kind: ReplyKind::Pong, id, op, payload: None, error: None }
}

/// A response frame carrying `payload`.
pub fn response_frame(id: String, op: String, payload: Json) -> (r: WsFrame)
    ensures
        frame_fits(r@, response_spec(id@, op@, payload@)),
{
    WsFrame {
        version: String::from_str("v1"),
        kind: String::from_str("response"),
        id,
        op,
        timestamp: now_millis(),
        payload: Some(payload),
        error: None,
    }
}

/// An event frame announcing `op`.
pub fn event_frame(op: String, payload: Json) -> (r: WsFrame)
    ensures
        frame_fits(r@, event_spec(op@, payload@)),
{
    let mut id = String::from_str("evt-");
    let t = now_millis();
    let digits = i64_to_decimal(t);
    id.append(digits.as_str());
    assert(id@ == "evt-"@ + int_decimal(t as int));
    WsFrame {
        version: String::from_str("v1"),
        kind: String::from_str("event"),
        id,
        op,
        timestamp: now_millis(),
        payload: Some(payload),
        error: None,
    }
}

/// An error frame answering request `id`.
pub fn error_frame(id: String, op: String, code: &str, message: &str, details: Option<Json>) -> (r: WsFrame)
    ensures
        frame_fits(r@, error_spec(id@, op@, code@, message@, opt_view(details))),
{
    WsFrame {
        version: String::from_str("v1"),
        kind: String::from_str("error"),
        id,
        op,
        timestamp: now_millis(),
        payload: None,
        error: Some(WsErrorPayload {
            code: String::from_str(code),
            message: String::from_str(message),
            details,
        }),
    }
}

/// A pong frame answering request `id`.
pub fn pong_frame(id: String, op: String) -> (r: WsFrame)
    ensures
        frame_fits(r@, pong_spec(id@, op@)),
{
    WsFrame {
        version: String::from_str("v1"),
        kind: String::from_str("pong"),
        id,
        op,
        timestamp: now_millis(),
        payload: None,
        error: None,
    }
}

} // verus!
