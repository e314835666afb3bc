//! One client session of the message-events channel, as a state machine: what the server
//! answers to each frame, which service it asks for what, and how it reports the outcome.
use vstd::prelude::*;
use vstd::string::*;
use crate::capture_rules::{CaptureRule, CaptureRuleKind};
use crate::codec::{base64_standard, encode_optional_bytes};
use crate::frame::{
    error_frame, error_spec, event_frame, event_spec, frames_fit, pong_frame, pong_spec, response_frame,
    response_spec, ReplySpec, WsFrame, FrameV,
};
use crate::json::{
    json_i64, json_object1, json_object2, json_string, json_view, opt_view, parse_bool_payload,
    parse_i32_payload, parse_string_payload, payload_bool, payload_i32, payload_str, Json, JsonV,
};
use crate::protocol::{event_op_name, parse_request_op, request_op_named, EventOp, RequestOp};
use crate::settings::{recording_status_to_text, recording_text, RecordingStatus};
use crate::text::{contains_seq, int_decimal, occurs_at, str_contains, str_eq};
use crate::request_rules::rule_not_found_text;

verus! {

/// A service that a request asks for, with what it was given.
pub enum ServiceCall {
    ComposeRequestSend(Json),
    CaptureStatusGet,
    CaptureControlSet(bool),
    RequestDetailGet(String),
    RequestStreamSubscribe,
    SettingsGeneralGet,
    SettingsGeneralSet(Json),
    SettingsCaptureFilterGet,
    SettingsCaptureFilterSet(Json),
    SettingsCertificatePathGet,
    RulesListGet(Option<String>),
    RulesGet(i32),
    RulesSaveSet(Json),
    RulesEnabledSet(i32, bool),
    RulesDelete(i32),
    RulesTemplatesGet,
    ProjectsListGet,
    ProjectsActiveSet(String),
    ProjectsCreate(String, String),
    ProjectsRename(String, String),
    ProjectsDelete(String),
    ProjectsEnabledSet(String, bool),
    CaptureRulesList(CaptureRuleKind),
    CaptureRulesUpsert(CaptureRuleKind, Json),
    CaptureRulesDelete(CaptureRuleKind, Json),
    CaptureRulesEnabledSet(CaptureRuleKind, Json),
    DeviceAdbStatusGet,
    DeviceAdbInstall,
    DeviceAdbInstallProgressGet,
    DeviceAdbDevicesList,
    DeviceAdbProxyStateGet(String),
    DeviceAdbProxyEnable(Json),
    DeviceAdbProxyDisable(String),
    TrafficFilterHistoryGet,
    TrafficFilterHistoryAppend(String),
    TrafficFilterHistoryClear,
}

/// Model of a service call.
pub enum CallV {
    ComposeRequestSend(JsonV),
    CaptureStatusGet,
    CaptureControlSet(bool),
    RequestDetailGet(Seq<char>),
    RequestStreamSubscribe,
    SettingsGeneralGet,
    SettingsGeneralSet(JsonV),
    SettingsCaptureFilterGet,
    SettingsCaptureFilterSet(JsonV),
    SettingsCertificatePathGet,
    RulesListGet(Option<Seq<char>>),
    RulesGet(i32),
    RulesSaveSet(JsonV),
    RulesEnabledSet(i32, bool),
    RulesDelete(i32),
    RulesTemplatesGet,
    ProjectsListGet,
    ProjectsActiveSet(Seq<char>),
    ProjectsCreate(Seq<char>, Seq<char>),
    ProjectsRename(Seq<char>, Seq<char>),
    ProjectsDelete(Seq<char>),
    ProjectsEnabledSet(Seq<char>, bool),
    CaptureRulesList(CaptureRuleKind),
    CaptureRulesUpsert(CaptureRuleKind, JsonV),
    CaptureRulesDelete(CaptureRuleKind, JsonV),
    CaptureRulesEnabledSet(CaptureRuleKind, JsonV),
    DeviceAdbStatusGet,
    DeviceAdbInstall,
    DeviceAdbInstallProgressGet,
    DeviceAdbDevicesList,
    DeviceAdbProxyStateGet(Seq<char>),
    DeviceAdbProxyEnable(JsonV),
    DeviceAdbProxyDisable(Seq<char>),
    TrafficFilterHistoryGet,
    TrafficFilterHistoryAppend(Seq<char>),
    TrafficFilterHistoryClear,
}

impl View for ServiceCall {
    type V = CallV;

    open spec fn view(&self) -> CallV {
        match self {
            ServiceCall::ComposeRequestSend(p) => CallV::ComposeRequestSend(p@),
            ServiceCall::CaptureStatusGet => CallV::CaptureStatusGet,
            ServiceCall::CaptureControlSet(b) => CallV::CaptureControlSet(*b),
            ServiceCall::RequestDetailGet(t) => CallV::RequestDetailGet(t@),
            ServiceCall::RequestStreamSubscribe => CallV::RequestStreamSubscribe,
            ServiceCall::SettingsGeneralGet => CallV::SettingsGeneralGet,
            ServiceCall::SettingsGeneralSet(p) => CallV::SettingsGeneralSet(p@),
            ServiceCall::SettingsCaptureFilterGet => CallV::SettingsCaptureFilterGet,
            ServiceCall::SettingsCaptureFilterSet(p) => CallV::SettingsCaptureFilterSet(p@),
            ServiceCall::SettingsCertificatePathGet => CallV::SettingsCertificatePathGet,
            ServiceCall::RulesListGet(p) => CallV::RulesListGet(
                match p { Some(s) => Some(s@), None => None },
            ),
            ServiceCall::RulesGet(i) => CallV::RulesGet(*i),
            ServiceCall::RulesSaveSet(p) => CallV::RulesSaveSet(p@),
            ServiceCall::RulesEnabledSet(i, b) => CallV::RulesEnabledSet(*i, *b),
            ServiceCall::RulesDelete(i) => CallV::RulesDelete(*i),
            ServiceCall::RulesTemplatesGet => CallV::RulesTemplatesGet,
            ServiceCall::ProjectsListGet => CallV::ProjectsListGet,
            ServiceCall::ProjectsActiveSet(p) => CallV::ProjectsActiveSet(p@),
            ServiceCall::ProjectsCreate(i, n) => CallV::ProjectsCreate(i@, n@),
            ServiceCall::ProjectsRename(i, n) => CallV::ProjectsRename(i@, n@),
            ServiceCall::ProjectsDelete(p) => CallV::ProjectsDelete(p@),
            ServiceCall::ProjectsEnabledSet(p, b) => CallV::ProjectsEnabledSet(p@, *b),
            ServiceCall::CaptureRulesList(k) => CallV::CaptureRulesList(*k),
            ServiceCall::CaptureRulesUpsert(k, p) => CallV::CaptureRulesUpsert(*k, p@),
            ServiceCall::CaptureRulesDelete(k, p) => CallV::CaptureRulesDelete(*k, p@),
            ServiceCall::CaptureRulesEnabledSet(k, p) => CallV::CaptureRulesEnabledSet(*k, p@),
            ServiceCall::DeviceAdbStatusGet => CallV::DeviceAdbStatusGet,
            ServiceCall::DeviceAdbInstall => CallV::DeviceAdbInstall,
            ServiceCall::DeviceAdbInstallProgressGet => CallV::DeviceAdbInstallProgressGet,
            ServiceCall::DeviceAdbDevicesList => CallV::DeviceAdbDevicesList,
            ServiceCall::DeviceAdbProxyStateGet(s) => CallV::DeviceAdbProxyStateGet(s@),
            ServiceCall::DeviceAdbProxyEnable(p) => CallV::DeviceAdbProxyEnable(p@),
            ServiceCall::DeviceAdbProxyDisable(s) => CallV::DeviceAdbProxyDisable(s@),
            ServiceCall::TrafficFilterHistoryGet => CallV::TrafficFilterHistoryGet,
            ServiceCall::TrafficFilterHistoryAppend(e) => CallV::TrafficFilterHistoryAppend(e@),
            ServiceCall::TrafficFilterHistoryClear => CallV::TrafficFilterHistoryClear,
        }
    }
}

/// A request whose service has yet to be performed.
pub struct PendingCall {
    pub id: String,
    pub op: String,
    pub call: ServiceCall,
}

/// What a client request leads to: frames to send at once, or a service to perform first.
pub enum RequestStep {
    Reply(Vec<WsFrame>),
    Call(PendingCall),
}

/// Model of what a request leads to.
pub enum PlanV {
    Reply(Seq<ReplySpec>),
    Call(CallV),
}

/// `{"reason": reason}`.
pub open spec fn reason_json(reason: Seq<char>) -> JsonV {
    JsonV::Object(seq![("reason"@, JsonV::Str(reason))])
}

/// The error reply to a request whose payload lacks what the operation needs.
pub open spec fn invalid_payload(id: Seq<char>, op: Seq<char>, message: Seq<char>) -> PlanV {
    PlanV::Reply(seq![error_spec(id, op, "INVALID_PAYLOAD"@, message, None)])
}

/// What a well-formed request for operation `o` leads to, by what its payload `p` holds.
pub open spec fn planned(o: RequestOp, id: Seq<char>, op: Seq<char>, p: Option<JsonV>) -> PlanV {
    match o {
        RequestOp::SystemPing => PlanV::Reply(seq![pong_spec(id, op)]),
        RequestOp::ComposeRequestSend => match p {
            Some(v) => PlanV::Call(CallV::ComposeRequestSend(v)),
            None => invalid_payload(id, op, "Missing compose payload"@),
        },
        RequestOp::CaptureStatusGet => PlanV::Call(CallV::CaptureStatusGet),
        RequestOp::CaptureControlSet => match payload_bool(p, "recording"@) {
            Some(b) => PlanV::Call(CallV::CaptureControlSet(b)),
            None => invalid_payload(id, op, "Missing boolean payload.recording"@),
        },
        RequestOp::RequestDetailGet => match payload_str(p, "traceId"@) {
            Some(t) => PlanV::Call(CallV::RequestDetailGet(t)),
            None => invalid_payload(id, op, "Missing payload.traceId"@),
        },
        RequestOp::RequestStreamSubscribe => PlanV::Call(CallV::RequestStreamSubscribe),
        RequestOp::RequestStreamUnsubscribe => PlanV::Reply(
            seq![response_spec(id, op, JsonV::Object(seq![("subscribed"@, JsonV::Bool(false))]))],
        ),
        RequestOp::SettingsGeneralGet => PlanV::Call(CallV::SettingsGeneralGet),
        RequestOp::SettingsGeneralSet => match p {
            Some(v) => PlanV::Call(CallV::SettingsGeneralSet(v)),
            None => invalid_payload(id, op, "Missing settings payload"@),
        },
        RequestOp::SettingsCaptureFilterGet => PlanV::Call(CallV::SettingsCaptureFilterGet),
        RequestOp::SettingsCaptureFilterSet => match p {
            Some(v) => PlanV::Call(CallV::SettingsCaptureFilterSet(v)),
            None => invalid_payload(id, op, "Missing capture filter payload"@),
        },
        RequestOp::SettingsCertificatePathGet => PlanV::Call(CallV::SettingsCertificatePathGet),
        RequestOp::RulesListGet => PlanV::Call(CallV::RulesListGet(payload_str(p, "projectId"@))),
        RequestOp::RulesGet => match payload_i32(p, "ruleId"@) {
            Some(r) => PlanV::Call(CallV::RulesGet(r)),
            None => invalid_payload(id, op, "Missing payload.ruleId"@),
        },
        RequestOp::RulesSaveSet => match p {
            Some(v) => PlanV::Call(CallV::RulesSaveSet(v)),
            None => invalid_payload(id, op, "Missing rule payload"@),
        },
        RequestOp::RulesEnabledSet => match payload_i32(p, "ruleId"@) {
            Some(r) => match payload_bool(p, "enabled"@) {
                Some(b) => PlanV::Call(CallV::RulesEnabledSet(r, b)),
                None => invalid_payload(id, op, "Missing payload.enabled"@),
            },
            None => invalid_payload(id, op, "Missing payload.ruleId"@),
        },
        RequestOp::RulesDelete => match payload_i32(p, "ruleId"@) {
            Some(r) => PlanV::Call(CallV::RulesDelete(r)),
            None => invalid_payload(id, op, "Missing payload.ruleId"@),
        },
        RequestOp::RulesTemplatesGet => PlanV::Call(CallV::RulesTemplatesGet),
        RequestOp::ProjectsListGet => PlanV::Call(CallV::ProjectsListGet),
        RequestOp::ProjectsActiveSet => match payload_str(p, "projectId"@) {
            Some(s) => PlanV::Call(CallV::ProjectsActiveSet(s)),
            None => invalid_payload(id, op, "Missing payload.projectId"@),
        },
        RequestOp::ProjectsCreate => match p {
            None => invalid_payload(id, op, "Missing payload"@),
            Some(_) => match payload_str(p, "id"@) {
                None => invalid_payload(id, op, "Missing payload.id"@),
                Some(i) => match payload_str(p, "name"@) {
                    None => invalid_payload(id, op, "Missing payload.name"@),
                    Some(n) => PlanV::Call(CallV::ProjectsCreate(i, n)),
                },
            },
        },
        RequestOp::ProjectsRename => match p {
            None => invalid_payload(id, op, "Missing payload"@),
            Some(_) => match payload_str(p, "projectId"@) {
                None => invalid_payload(id, op, "Missing payload.projectId"@),
                Some(i) => match payload_str(p, "name"@) {
                    None => invalid_payload(id, op, "Missing payload.name"@),
                    Some(n) => PlanV::Call(CallV::ProjectsRename(i, n)),
                },
            },
        },
        RequestOp::ProjectsDelete => match payload_str(p, "projectId"@) {
            Some(s) => PlanV::Call(CallV::ProjectsDelete(s)),
            None => invalid_payload(id, op, "Missing payload.projectId"@),
        },
        RequestOp::ProjectsEnabledSet => match p {
            None => invalid_payload(id, op, "Missing payload"@),
            Some(_) => match payload_str(p, "projectId"@) {
                None => invalid_payload(id, op, "Missing payload.projectId"@),
                Some(i) => match payload_bool(p, "enabled"@) {
                    None => invalid_payload(id, op, "Missing payload.enabled"@),
                    Some(b) => PlanV::Call(CallV::ProjectsEnabledSet(i, b)),
                },
            },
        },
        RequestOp::CaptureRulesFocusListGet => PlanV::Call(CallV::CaptureRulesList(CaptureRuleKind::Focus)),
        RequestOp::CaptureRulesIgnoreListGet => PlanV::Call(CallV::CaptureRulesList(CaptureRuleKind::Ignore)),
        RequestOp::CaptureRulesFocusUpsert => match p {
            Some(v) => PlanV::Call(CallV::CaptureRulesUpsert(CaptureRuleKind::Focus, v)),
            None => invalid_payload(id, op, "Missing capture rule payload"@),
        },
        RequestOp::CaptureRulesIgnoreUpsert => match p {
            Some(v) => PlanV::Call(CallV::CaptureRulesUpsert(CaptureRuleKind::Ignore, v)),
            None => invalid_payload(id, op, "Missing capture rule payload"@),
        },
        RequestOp::CaptureRulesFocusDelete => match p {
            Some(v) => PlanV::Call(CallV::CaptureRulesDelete(CaptureRuleKind::Focus, v)),
            None => invalid_payload(id, op, "Missing payload.ruleId"@),
        },
        RequestOp::CaptureRulesIgnoreDelete => match p {
            Some(v) => PlanV::Call(CallV::CaptureRulesDelete(CaptureRuleKind::Ignore, v)),
            None => invalid_payload(id, op, "Missing payload.ruleId"@),
        },
        RequestOp::CaptureRulesFocusEnabledSet => match p {
            Some(v) => PlanV::Call(CallV::CaptureRulesEnabledSet(CaptureRuleKind::Focus, v)),
            None => invalid_payload(id, op, "Missing payload.ruleId/enabled"@),
        },
        RequestOp::CaptureRulesIgnoreEnabledSet => match p {
            Some(v) => PlanV::Call(CallV::CaptureRulesEnabledSet(CaptureRuleKind::Ignore, v)),
            None => invalid_payload(id, op, "Missing payload.ruleId/enabled"@),
        },
        RequestOp::DeviceAdbStatusGet => PlanV::Call(CallV::DeviceAdbStatusGet),
        RequestOp::DeviceAdbInstall => PlanV::Call(CallV::DeviceAdbInstall),
        RequestOp::DeviceAdbInstallProgressGet => PlanV::Call(CallV::DeviceAdbInstallProgressGet),
        RequestOp::DeviceAdbDevicesList => PlanV::Call(CallV::DeviceAdbDevicesList),
        RequestOp::DeviceAdbProxyStateGet => match p {
            None => invalid_payload(id, op, "Missing serial"@),
            Some(_) => {
                let serial = match payload_str(p, "serial"@) { Some(s) => s, None => Seq::empty() };
                if serial.len() == 0 {
                    invalid_payload(id, op, "serial is required"@)
                } else {
                    PlanV::Call(CallV::DeviceAdbProxyStateGet(serial))
                }
            },
        },
        RequestOp::DeviceAdbProxyEnable => match p {
            Some(v) => PlanV::Call(CallV::DeviceAdbProxyEnable(v)),
            None => invalid_payload(id, op, "Missing proxy enable payload"@),
        },
        RequestOp::DeviceAdbProxyDisable => match p {
            None => invalid_payload(id, op, "Missing serial"@),
            Some(_) => {
                let serial = match payload_str(p, "serial"@) { Some(s) => s, None => Seq::empty() };
                if serial.len() == 0 {
                    invalid_payload(id, op, "serial is required"@)
                } else {
                    PlanV::Call(CallV::DeviceAdbProxyDisable(serial))
                }
            },
        },
        RequestOp::NetworkTrafficFilterHistoryGet => PlanV::Call(CallV::TrafficFilterHistoryGet),
        RequestOp::NetworkTrafficFilterHistoryAppend => match payload_str(p, "expr"@) {
            Some(e) => PlanV::Call(CallV::TrafficFilterHistoryAppend(e)),
            None => invalid_payload(id, op, "Missing payload.expr"@),
        },
        RequestOp::NetworkTrafficFilterHistoryClear => PlanV::Call(CallV::TrafficFilterHistoryClear),
    }
}

/// What a frame from the client leads to. Only version 1 is spoken; a ping is answered by a
/// pong; any other frame must be a request for a known operation.
pub open spec fn request_plan(f: FrameV) -> PlanV {
    if f.version != "v1"@ {
        PlanV::Reply(seq![error_spec(f.id, f.op, "UNSUPPORTED_VERSION"@, "Only v1 protocol is supported"@,
            Some(JsonV::Object(seq![("received"@, JsonV::Str(f.version))])))])
    } else if f.kind == "ping"@ {
        PlanV::Reply(seq![pong_spec(f.id, f.op)])
    } else if f.kind != "request"@ {
        PlanV::Reply(seq![error_spec(f.id, f.op, "INVALID_FRAME_KIND"@,
            "Only request and ping frames are accepted from client"@,
            Some(JsonV::Object(seq![("kind"@, JsonV::Str(f.kind))])))])
    } else {
        match request_op_named(f.op) {
            Some(o) => planned(o, f.id, f.op, f.payload),
            None => PlanV::Reply(seq![error_spec(f.id, f.op, "UNSUPPORTED_OP"@, "Unsupported operation"@, None)]),
        }
    }
}

/// The operation of a frame that is a well-formed request.
pub open spec fn accepted_op(f: FrameV) -> Option<RequestOp> {
    if f.version == "v1"@ && f.kind == "request"@ { request_op_named(f.op) } else { None }
}

/// Whether the session streams events after frame `f`: a subscription starts it, an
/// unsubscription ends it, and nothing else changes it.
pub open spec fn subscribed_after(f: FrameV, subscribed: bool) -> bool {
    match accepted_op(f) {
        Some(RequestOp::RequestStreamSubscribe) => true,
        Some(RequestOp::RequestStreamUnsubscribe) => false,
        _ => subscribed,
    }
}

/// `step` is what `plan` describes, for the request of id `id` and operation `op`.
pub open spec fn step_fits(step: RequestStep, plan: PlanV, id: Seq<char>, op: Seq<char>) -> bool {
    match plan {
        PlanV::Reply(rs) => step matches RequestStep::Reply(fs) && frames_fit(fs@, rs),
        PlanV::Call(c) => step matches RequestStep::Call(p) && p.id@ == id && p.op@ == op && p.call@ == c,
    }
}

/// A one-frame reply.
fn reply1(f: WsFrame) -> (r: RequestStep)
    ensures
        r matches RequestStep::Reply(fs) && fs@ == seq![f],
{
    let fs = vec![f];
    RequestStep::Reply(fs)
}

/// The error reply to a request whose payload lacks what the operation needs.
fn missing(id: String, op: String, message: &str) -> (r: RequestStep)
    ensures
        step_fits(r, invalid_payload(id@, op@, message@), id@, op@),
{
    reply1(error_frame(id, op, "INVALID_PAYLOAD", message, None))
}

/// A request for the service `call`.
fn call(id: String, op: String, c: ServiceCall) -> (r: RequestStep)
    ensures
        r matches RequestStep::Call(p) && p.id@ == id@ && p.op@ == op@ && p.call == c,
{
    RequestStep::Call(PendingCall { id, op, call: c })
}

/// The serial number that an adb request names, or the empty text.
fn serial_of(payload: &Option<Json>) -> (r: String)
    ensures
        r@ == (match payload_str(opt_view(*payload), "serial"@) { Some(s) => s, None => Seq::empty() }),
{
    match parse_string_payload(payload, "serial") {
        Some(s) => s,
        None => String::new(),
    }
}

/// What a well-formed request for operation `o` leads to.
fn plan_request(o: RequestOp, id: String, op: String, payload: Option<Json>) -> (r: RequestStep)
    ensures
        step_fits(r, planned(o, id@, op@, opt_view(payload)), id@, op@),
{
    let ghost p = opt_view(payload);
    match o {
        RequestOp::SystemPing => reply1(pong_frame(id, op)),
        RequestOp::ComposeRequestSend => match payload {
            Some(v) => call(id, op, ServiceCall::ComposeRequestSend(v)),
            None => missing(id, op, "Missing compose payload"),
        },
        RequestOp::CaptureStatusGet => call(id, op, ServiceCall::CaptureStatusGet),
        RequestOp::CaptureControlSet => match parse_bool_payload(&payload, "recording") {
            Some(b) => call(id, op, ServiceCall::CaptureControlSet(b)),
            None => missing(id, op, "Missing boolean payload.recording"),
        },
        RequestOp::RequestDetailGet => match parse_string_payload(&payload, "traceId") {
            Some(t) => call(id, op, ServiceCall::RequestDetailGet(t)),
            None => missing(id, op, "Missing payload.traceId"),
        },
        RequestOp::RequestStreamSubscribe => call(id, op, ServiceCall::RequestStreamSubscribe),
        RequestOp::RequestStreamUnsubscribe => {
            let body = json_object1("subscribed", Json::Bool(false));
            reply1(response_frame(id, op, body))
        },
        RequestOp::SettingsGeneralGet => call(id, op, ServiceCall::SettingsGeneralGet),
        RequestOp::SettingsGeneralSet => match payload {
            Some(v) => call(id, op, ServiceCall::SettingsGeneralSet(v)),
            None => missing(id, op, "Missing settings payload"),
        },
        RequestOp::SettingsCaptureFilterGet => call(id, op, ServiceCall::SettingsCaptureFilterGet),
        RequestOp::SettingsCaptureFilterSet => match payload {
            Some(v) => call(id, op, ServiceCall::SettingsCaptureFilterSet(v)),
            None => missing(id, op, "Missing capture filter payload"),
        },
        RequestOp::SettingsCertificatePathGet => call(id, op, ServiceCall::SettingsCertificatePathGet),
        RequestOp::RulesListGet => {
            let project = parse_string_payload(&payload, "projectId");
            call(id, op, ServiceCall::RulesListGet(project))
        },
        RequestOp::RulesGet => match parse_i32_payload(&payload, "ruleId") {
            Some(r) => call(id, op, ServiceCall::RulesGet(r)),
            None => missing(id, op, "Missing payload.ruleId"),
        },
        RequestOp::RulesSaveSet => match payload {
            Some(v) => call(id, op, ServiceCall::RulesSaveSet(v)),
            None => missing(id, op, "Missing rule payload"),
        },
        RequestOp::RulesEnabledSet => match parse_i32_payload(&payload, "ruleId") {
            Some(r) => match parse_bool_payload(&payload, "enabled") {
                Some(b) => call(id, op, ServiceCall::RulesEnabledSet(r, b)),
                None => missing(id, op, "Missing payload.enabled"),
            },
            None => missing(id, op, "Missing payload.ruleId"),
        },
        RequestOp::RulesDelete => match parse_i32_payload(&payload, "ruleId") {
            Some(r) => call(id, op, ServiceCall::RulesDelete(r)),
            None => missing(id, op, "Missing payload.ruleId"),
        },
        RequestOp::RulesTemplatesGet => call(id, op, ServiceCall::RulesTemplatesGet),
        RequestOp::ProjectsListGet => call(id, op, ServiceCall::ProjectsListGet),
        RequestOp::ProjectsActiveSet => match parse_string_payload(&payload, "projectId") {
            Some(s) => call(id, op, ServiceCall::ProjectsActiveSet(s)),
            None => missing(id, op, "Missing payload.projectId"),
        },
        RequestOp::ProjectsCreate => {
            if payload.is_none() {
                return missing(id, op, "Missing payload");
            }
            match parse_string_payload(&payload, "id") {
                None => missing(id, op, "Missing payload.id"),
                Some(i) => match parse_string_payload(&payload, "name") {
                    None => missing(id, op, "Missing payload.name"),
                    Some(n) => call(id, op, ServiceCall::ProjectsCreate(i, n)),
                },
            }
        },
        RequestOp::ProjectsRename => {
            if payload.is_none() {
                return missing(id, op, "Missing payload");
            }
            match parse_string_payload(&payload, "projectId") {
                None => missing(id, op, "Missing payload.projectId"),
                Some(i) => match parse_string_payload(&payload, "name") {
                    None => missing(id, op, "Missing payload.name"),
                    Some(n) => call(id, op, ServiceCall::ProjectsRename(i, n)),
                },
            }
        },
        RequestOp::ProjectsDelete => match parse_string_payload(&payload, "projectId") {
            Some(s) => call(id, op, ServiceCall::ProjectsDelete(s)),
            None => missing(id, op, "Missing payload.projectId"),
        },
        RequestOp::ProjectsEnabledSet => {
            if payload.is_none() {
                return missing(id, op, "Missing payload");
            }
            match parse_string_payload(&payload, "projectId") {
                None => missing(id, op, "Missing payload.projectId"),
                Some(i) => match parse_bool_payload(&payload, "enabled") {
                    None => missing(id, op, "Missing payload.enabled"),
                    Some(b) => call(id, op, ServiceCall::ProjectsEnabledSet(i, b)),
                },
            }
        },
        RequestOp::CaptureRulesFocusListGet => call(id, op, ServiceCall::CaptureRulesList(CaptureRuleKind::Focus)),
        RequestOp::CaptureRulesIgnoreListGet => call(id, op, ServiceCall::CaptureRulesList(CaptureRuleKind::Ignore)),
        RequestOp::CaptureRulesFocusUpsert => match payload {
            Some(v) => call(id, op, ServiceCall::CaptureRulesUpsert(CaptureRuleKind::Focus, v)),
            None => missing(id, op, "Missing capture rule payload"),
        },
        RequestOp::CaptureRulesIgnoreUpsert => match payload {
            Some(v) => call(id, op, ServiceCall::CaptureRulesUpsert(CaptureRuleKind::Ignore, v)),
            None => missing(id, op, "Missing capture rule payload"),
        },
        RequestOp::CaptureRulesFocusDelete => match payload {
            Some(v) => call(id, op, ServiceCall::CaptureRulesDelete(CaptureRuleKind::Focus, v)),
            None => missing(id, op, "Missing payload.ruleId"),
        },
        RequestOp::CaptureRulesIgnoreDelete => match payload {
            Some(v) => call(id, op, ServiceCall::CaptureRulesDelete(CaptureRuleKind::Ignore, v)),
            None => missing(id, op, "Missing payload.ruleId"),
        },
        RequestOp::CaptureRulesFocusEnabledSet => match payload {
            Some(v) => call(id, op, ServiceCall::CaptureRulesEnabledSet(CaptureRuleKind::Focus, v)),
            None => missing(id, op, "Missing payload.ruleId/enabled"),
        },
        RequestOp::CaptureRulesIgnoreEnabledSet => match payload {
            Some(v) => call(id, op, ServiceCall::CaptureRulesEnabledSet(CaptureRuleKind::Ignore, v)),
            None => missing(id, op, "Missing payload.ruleId/enabled"),
        },
        RequestOp::DeviceAdbStatusGet => call(id, op, ServiceCall::DeviceAdbStatusGet),
        RequestOp::DeviceAdbInstall => call(id, op, ServiceCall::DeviceAdbInstall),
        RequestOp::DeviceAdbInstallProgressGet => call(id, op, ServiceCall::DeviceAdbInstallProgressGet),
        RequestOp::DeviceAdbDevicesList => call(id, op, ServiceCall::DeviceAdbDevicesList),
        RequestOp::DeviceAdbProxyStateGet => {
            if payload.is_none() {
                return missing(id, op, "Missing serial");
            }
            let serial = serial_of(&payload);
            if serial.unicode_len() == 0 {
                missing(id, op, "serial is required")
            } else {
                call(id, op, ServiceCall::DeviceAdbProxyStateGet(serial))
            }
        },
        RequestOp::DeviceAdbProxyEnable => match payload {
            Some(v) => call(id, op, ServiceCall::DeviceAdbProxyEnable(v)),
            None => missing(id, op, "Missing proxy enable payload"),
        },
        RequestOp::DeviceAdbProxyDisable => {
            if payload.is_none() {
                return missing(id, op, "Missing serial");
            }
            let serial = serial_of(&payload);
            if serial.unicode_len() == 0 {
                missing(id, op, "serial is required")
            } else {
                call(id, op, ServiceCall::DeviceAdbProxyDisable(serial))
            }
        },
        RequestOp::NetworkTrafficFilterHistoryGet => call(id, op, ServiceCall::TrafficFilterHistoryGet),
        RequestOp::NetworkTrafficFilterHistoryAppend => match parse_string_payload(&payload, "expr") {
            Some(e) => call(id, op, ServiceCall::TrafficFilterHistoryAppend(e)),
            None => missing(id, op, "Missing payload.expr"),
        },
        RequestOp::NetworkTrafficFilterHistoryClear => call(id, op, ServiceCall::TrafficFilterHistoryClear),
    }
}

/// Handles a frame from the client, up to the service it asks for:
/// checks version, kind and operation, reads what the operation needs from the payload, and
/// either answers at once or names the service to perform. A subscription starts the event
/// stream and an unsubscription ends it.
pub fn begin_request(frame: WsFrame, subscribed: &mut bool) -> (r: RequestStep)
    ensures
        step_fits(r, request_plan(frame@), frame@.id, frame@.op),
        *final(subscribed) == subscribed_after(frame@, *old(subscribed)),
{
    let ghost f = frame@;
    let WsFrame { version, kind, id, op, timestamp: _, payload, error: _ } = frame;
    if !str_eq(version.as_str(), "v1") {
        let details = json_object1("received", Json::Str(version));
        return reply1(error_frame(id, op, "UNSUPPORTED_VERSION", "Only v1 protocol is supported", Some(details)));
    }
    if str_eq(kind.as_str(), "ping") {
        proof {
            reveal_strlit("ping");
            reveal_strlit("request");
            assert("ping"@.len() != "request"@.len());
            assert(f.kind == "ping"@);
        }
        return reply1(pong_frame(id, op));
    }
    if !str_eq(kind.as_str(), "request") {
        let details = json_object1("kind", Json::Str(kind));
        return reply1(error_frame(
            id,
            op,
            "INVALID_FRAME_KIND",
            "Only request and ping frames are accepted from client",
            Some(details),
        ));
    }
    match parse_request_op(op.as_str()) {
        None => reply1(error_frame(id, op, "UNSUPPORTED_OP", "Unsupported operation", None)),
        Some(o) => {
            match o {
                RequestOp::RequestStreamSubscribe => {
                    *subscribed = true;
                },
                RequestOp::RequestStreamUnsubscribe => {
                    *subscribed = false;
                },
                _ => {},
            }
            plan_request(o, id, op, payload)
        },
    }
}

} // verus!

verus! {

/// How a service call came out, as the session needs to know it.
pub enum CallOutcome {
    /// The service succeeded and returned this value.
    Done(Json),
    /// The service reports this recording status.
    Recording(RecordingStatus),
    /// The rule asked for does not exist.
    Absent,
    /// The service failed with this reason.
    Failed(String),
    /// The payload did not decode into what the service takes; this is why.
    Undecodable(String),
    /// The device service failed with this message.
    AdbFailed(String),
    /// The capture rule of this id was deleted.
    RuleDeleted(i32),
}

/// Model of a call outcome.
pub enum OutcomeV {
    Done(JsonV),
    Recording(RecordingStatus),
    Absent,
    Failed(Seq<char>),
    Undecodable(Seq<char>),
    AdbFailed(Seq<char>),
    RuleDeleted(i32),
}

impl View for CallOutcome {
    type V = OutcomeV;

    open spec fn view(&self) -> OutcomeV {
        match self {
            CallOutcome::Done(v) => OutcomeV::Done(v@),
            CallOutcome::Recording(s) => OutcomeV::Recording(*s),
            CallOutcome::Absent => OutcomeV::Absent,
            CallOutcome::Failed(r) => OutcomeV::Failed(r@),
            CallOutcome::Undecodable(r) => OutcomeV::Undecodable(r@),
            CallOutcome::AdbFailed(m) => OutcomeV::AdbFailed(m@),
            CallOutcome::RuleDeleted(i) => OutcomeV::RuleDeleted(*i),
        }
    }
}

/// The calls whose payload must first decode into a typed value.
pub open spec fn decodes_payload(c: CallV) -> bool {
    c is ComposeRequestSend || c is SettingsGeneralSet || c is SettingsCaptureFilterSet || c is RulesSaveSet
        || c is CaptureRulesUpsert || c is CaptureRulesDelete || c is CaptureRulesEnabledSet
        || c is DeviceAdbProxyEnable
}

/// The device calls that can fail with a message.
pub open spec fn adb_can_fail(c: CallV) -> bool {
    c is DeviceAdbInstall || c is DeviceAdbDevicesList || c is DeviceAdbProxyStateGet
        || c is DeviceAdbProxyEnable || c is DeviceAdbProxyDisable
}

/// The calls that report through the store and can fail with a reason.
pub open spec fn can_fail(c: CallV) -> bool {
    !(c is SettingsCertificatePathGet || c is DeviceAdbStatusGet || c is DeviceAdbInstall
        || c is DeviceAdbInstallProgressGet || c is DeviceAdbDevicesList || c is DeviceAdbProxyStateGet
        || c is DeviceAdbProxyEnable || c is DeviceAdbProxyDisable)
}

/// The outcomes that a call can have.
pub open spec fn outcome_fits(c: CallV, o: OutcomeV) -> bool {
    match o {
        OutcomeV::Done(_) => !(c is CaptureStatusGet || c is CaptureControlSet || c is CaptureRulesDelete),
        OutcomeV::Recording(_) => c is CaptureStatusGet || c is CaptureControlSet,
        OutcomeV::Absent => c is RulesGet,
        OutcomeV::Failed(_) => can_fail(c),
        OutcomeV::Undecodable(_) => decodes_payload(c),
        OutcomeV::AdbFailed(_) => adb_can_fail(c),
        OutcomeV::RuleDeleted(_) => c is CaptureRulesDelete,
    }
}

/// The message of an error reply when the service of `c` fails.
pub open spec fn failure_message(c: CallV) -> Seq<char> {
    match c {
        CallV::ComposeRequestSend(_) => "Failed to execute compose request"@,
        CallV::CaptureStatusGet => "Failed to get capture status"@,
        CallV::CaptureControlSet(_) => "Failed to update capture status"@,
        CallV::RequestDetailGet(_) => "Failed to get request detail"@,
        CallV::RequestStreamSubscribe => "Failed to get cached requests"@,
        CallV::SettingsGeneralGet => "Failed to get general setting"@,
        CallV::SettingsGeneralSet(_) => "Failed to update general setting"@,
        CallV::SettingsCaptureFilterGet => "Failed to get capture filter"@,
        CallV::SettingsCaptureFilterSet(_) => "Failed to update capture filter"@,
        CallV::RulesListGet(_) => "Failed to list rules"@,
        CallV::RulesGet(_) => "Failed to get rule"@,
        CallV::RulesSaveSet(_) => "Failed to save rule"@,
        CallV::RulesEnabledSet(_, _) => "Failed to update rule enabled state"@,
        CallV::RulesDelete(_) => "Failed to delete rule"@,
        CallV::RulesTemplatesGet => "Failed to list rule templates"@,
        CallV::ProjectsListGet => "Failed to list projects"@,
        CallV::ProjectsActiveSet(_) => "Failed to set active project"@,
        CallV::ProjectsCreate(_, _) => "Failed to create project"@,
        CallV::ProjectsRename(_, _) => "Failed to rename project"@,
        CallV::ProjectsDelete(_) => "Failed to delete project"@,
        CallV::ProjectsEnabledSet(_, _) => "Failed to set project enabled"@,
        CallV::CaptureRulesList(CaptureRuleKind::Focus) => "Failed to list focus capture rules"@,
        CallV::CaptureRulesList(CaptureRuleKind::Ignore) => "Failed to list ignore capture rules"@,
        CallV::CaptureRulesUpsert(CaptureRuleKind::Focus, _) => "Failed to upsert focus capture rule"@,
        CallV::CaptureRulesUpsert(CaptureRuleKind::Ignore, _) => "Failed to upsert ignore capture rule"@,
        CallV::CaptureRulesDelete(CaptureRuleKind::Focus, _) => "Failed to delete focus capture rule"@,
        CallV::CaptureRulesDelete(CaptureRuleKind::Ignore, _) => "Failed to delete ignore capture rule"@,
        CallV::CaptureRulesEnabledSet(CaptureRuleKind::Focus, _) => "Failed to update focus enabled state"@,
        CallV::CaptureRulesEnabledSet(CaptureRuleKind::Ignore, _) => "Failed to update ignore enabled state"@,
        CallV::TrafficFilterHistoryGet => "Failed to get traffic filter history"@,
        CallV::TrafficFilterHistoryAppend(_) => "Failed to append traffic filter history"@,
        CallV::TrafficFilterHistoryClear => "Failed to clear traffic filter history"@,
        _ => Seq::empty(),
    }
}

/// The code of an error reply when the service of `c` fails for `reason`: deleting or toggling
/// a rule reports a missing rule apart from other failures.
pub open spec fn failure_code(c: CallV, reason: Seq<char>) -> Seq<char> {
    match c {
        CallV::ComposeRequestSend(_) => "REQUEST_ERROR"@,
        CallV::RequestDetailGet(_) => "REQUEST_DETAIL_ERROR"@,
        CallV::RequestStreamSubscribe => "CACHE_ERROR"@,
        CallV::RulesSaveSet(_) => "VALIDATION_ERROR"@,
        CallV::RulesEnabledSet(_, _) | CallV::RulesDelete(_) => if contains_seq(reason, "not found"@) {
            "NOT_FOUND"@
        } else {
            "DB_ERROR"@
        },
        _ => "DB_ERROR"@,
    }
}

/// The message of an error reply when the payload of `c` does not decode.
pub open spec fn undecodable_message(c: CallV) -> Seq<char> {
    match c {
        CallV::ComposeRequestSend(_) => "Failed to parse compose payload"@,
        CallV::SettingsGeneralSet(_) => "Failed to parse general setting"@,
        CallV::SettingsCaptureFilterSet(_) => "Failed to parse capture filter"@,
        CallV::RulesSaveSet(_) => "Failed to parse rule"@,
        CallV::CaptureRulesUpsert(_, _) => "Failed to parse capture rule"@,
        CallV::CaptureRulesDelete(_, _) => "Failed to parse payload.ruleId"@,
        CallV::CaptureRulesEnabledSet(_, _) => "Failed to parse payload.ruleId/enabled"@,
        CallV::DeviceAdbProxyEnable(_) => "Failed to parse proxy enable payload"@,
        _ => Seq::empty(),
    }
}

/// The code of an error reply when a device call fails.
pub open spec fn adb_failure_code(c: CallV) -> Seq<char> {
    if c is DeviceAdbInstall { "ADB_INSTALL_FAILED"@ } else { "ADB_ERROR"@ }
}

/// `{"ok": true}`.
pub open spec fn ok_json() -> JsonV {
    JsonV::Object(seq![("ok"@, JsonV::Bool(true))])
}

/// The payload of the response when the service of `c` returns `v`.
pub open spec fn success_payload(c: CallV, v: JsonV) -> JsonV {
    match c {
        CallV::RequestDetailGet(t) => JsonV::Object(seq![("traceId"@, JsonV::Str(t)), ("detail"@, v)]),
        CallV::RequestStreamSubscribe => JsonV::Object(seq![("subscribed"@, JsonV::Bool(true)), ("cachedRequests"@, v)]),
        CallV::SettingsGeneralSet(_) | CallV::SettingsCaptureFilterSet(_) => ok_json(),
        CallV::SettingsCertificatePathGet => JsonV::Object(seq![("path"@, v)]),
        CallV::RulesListGet(_) | CallV::CaptureRulesList(_) => JsonV::Object(seq![("rules"@, v)]),
        CallV::RulesDelete(id) => JsonV::Object(seq![("ruleId"@, JsonV::Number(int_decimal(id as int)))]),
        CallV::RulesTemplatesGet => JsonV::Object(seq![("templates"@, v)]),
        CallV::ProjectsDelete(p) => JsonV::Object(seq![("projectId"@, JsonV::Str(p))]),
        _ => v,
    }
}

/// The frames that report outcome `o` of call `c` made for request `id` of operation `op`.
pub open spec fn finish_spec(c: CallV, id: Seq<char>, op: Seq<char>, o: OutcomeV) -> Seq<ReplySpec> {
    match o {
        OutcomeV::Done(v) => seq![response_spec(id, op, success_payload(c, v))],
        OutcomeV::Recording(s) => {
            let status = JsonV::Object(seq![("recordingStatus"@, JsonV::Str(recording_text(s)))]);
            if c is CaptureControlSet {
                seq![response_spec(id, op, ok_json()), event_spec("capture.status.changed"@, status)]
            } else {
                seq![response_spec(id, op, status)]
            }
        },
        OutcomeV::Absent => seq![error_spec(id, op, "NOT_FOUND"@, "Rule not found"@, None)],
        OutcomeV::Failed(reason) => seq![
            error_spec(id, op, failure_code(c, reason), failure_message(c), Some(reason_json(reason))),
        ],
        OutcomeV::Undecodable(reason) => seq![
            error_spec(id, op, "INVALID_PAYLOAD"@, undecodable_message(c), Some(reason_json(reason))),
        ],
        OutcomeV::AdbFailed(message) => seq![error_spec(id, op, adb_failure_code(c), message, None)],
        OutcomeV::RuleDeleted(rid) => seq![
            response_spec(id, op, JsonV::Object(seq![("ruleId"@, JsonV::Number(int_decimal(rid as int)))])),
        ],
    }
}

impl ServiceCall {
    /// Whether `outcome` is one that this call can have.
    pub fn accepts(&self, outcome: &CallOutcome) -> (r: bool)
        ensures
            r == outcome_fits(self@, outcome@),
    {
        let decodes = match self {
            ServiceCall::ComposeRequestSend(_) | ServiceCall::SettingsGeneralSet(_)
            | ServiceCall::SettingsCaptureFilterSet(_) | ServiceCall::RulesSaveSet(_)
            | ServiceCall::CaptureRulesUpsert(_, _) | ServiceCall::CaptureRulesDelete(_, _)
            | ServiceCall::CaptureRulesEnabledSet(_, _) | ServiceCall::DeviceAdbProxyEnable(_) => true,
            _ => false,
        };
        let adb_fails = match self {
            ServiceCall::DeviceAdbInstall | ServiceCall::DeviceAdbDevicesList
            | ServiceCall::DeviceAdbProxyStateGet(_) | ServiceCall::DeviceAdbProxyEnable(_)
            | ServiceCall::DeviceAdbProxyDisable(_) => true,
            _ => false,
        };
        let fails = match self {
            ServiceCall::SettingsCertificatePathGet | ServiceCall::DeviceAdbStatusGet
            | ServiceCall::DeviceAdbInstall | ServiceCall::DeviceAdbInstallProgressGet
            | ServiceCall::DeviceAdbDevicesList | ServiceCall::DeviceAdbProxyStateGet(_)
            | ServiceCall::DeviceAdbProxyEnable(_) | ServiceCall::DeviceAdbProxyDisable(_) => false,
            _ => true,
        };
        match outcome {
            CallOutcome::Done(_) => match self {
                ServiceCall::CaptureStatusGet | ServiceCall::CaptureControlSet(_)
                | ServiceCall::CaptureRulesDelete(_, _) => false,
                _ => true,
            },
            CallOutcome::Recording(_) => match self {
                ServiceCall::CaptureStatusGet | ServiceCall::CaptureControlSet(_) => true,
                _ => false,
            },
            CallOutcome::Absent => match self {
                ServiceCall::RulesGet(_) => true,
                _ => false,
            },
            CallOutcome::Failed(_) => fails,
            CallOutcome::Undecodable(_) => decodes,
            CallOutcome::AdbFailed(_) => adb_fails,
            CallOutcome::RuleDeleted(_) => match self {
                ServiceCall::CaptureRulesDelete(_, _) => true,
                _ => false,
            },
        }
    }
}

/// The message of an error reply when the service of `c` fails.
fn failure_message_text(c: &ServiceCall) -> (r: &'static str)
    ensures
        r@ == failure_message(c@),
{
    match c {
        ServiceCall::ComposeRequestSend(_) => "Failed to execute compose request",
        ServiceCall::CaptureStatusGet => "Failed to get capture status",
        ServiceCall::CaptureControlSet(_) => "Failed to update capture status",
        ServiceCall::RequestDetailGet(_) => "Failed to get request detail",
        ServiceCall::RequestStreamSubscribe => "Failed to get cached requests",
        ServiceCall::SettingsGeneralGet => "Failed to get general setting",
        ServiceCall::SettingsGeneralSet(_) => "Failed to update general setting",
        ServiceCall::SettingsCaptureFilterGet => "Failed to get capture filter",
        ServiceCall::SettingsCaptureFilterSet(_) => "Failed to update capture filter",
        ServiceCall::RulesListGet(_) => "Failed to list rules",
        ServiceCall::RulesGet(_) => "Failed to get rule",
        ServiceCall::RulesSaveSet(_) => "Failed to save rule",
        ServiceCall::RulesEnabledSet(_, _) => "Failed to update rule enabled state",
        ServiceCall::RulesDelete(_) => "Failed to delete rule",
        ServiceCall::RulesTemplatesGet => "Failed to list rule templates",
        ServiceCall::ProjectsListGet => "Failed to list projects",
        ServiceCall::ProjectsActiveSet(_) => "Failed to set active project",
        ServiceCall::ProjectsCreate(_, _) => "Failed to create project",
        ServiceCall::ProjectsRename(_, _) => "Failed to rename project",
        ServiceCall::ProjectsDelete(_) => "Failed to delete project",
        ServiceCall::ProjectsEnabledSet(_, _) => "Failed to set project enabled",
        ServiceCall::CaptureRulesList(CaptureRuleKind::Focus) => "Failed to list focus capture rules",
        ServiceCall::CaptureRulesList(CaptureRuleKind::Ignore) => "Failed to list ignore capture rules",
        ServiceCall::CaptureRulesUpsert(CaptureRuleKind::Focus, _) => "Failed to upsert focus capture rule",
        ServiceCall::CaptureRulesUpsert(CaptureRuleKind::Ignore, _) => "Failed to upsert ignore capture rule",
        ServiceCall::CaptureRulesDelete(CaptureRuleKind::Focus, _) => "Failed to delete focus capture rule",
        ServiceCall::CaptureRulesDelete(CaptureRuleKind::Ignore, _) => "Failed to delete ignore capture rule",
        ServiceCall::CaptureRulesEnabledSet(CaptureRuleKind::Focus, _) => "Failed to update focus enabled state",
        ServiceCall::CaptureRulesEnabledSet(CaptureRuleKind::Ignore, _) => "Failed to update ignore enabled state",
        ServiceCall::TrafficFilterHistoryGet => "Failed to get traffic filter history",
        ServiceCall::TrafficFilterHistoryAppend(_) => "Failed to append traffic filter history",
        ServiceCall::TrafficFilterHistoryClear => "Failed to clear traffic filter history",
        _ => {
            proof {
                reveal_strlit("");
            }
            ""
        },
    }
}

/// The code of an error reply when the service of `c` fails for `reason`.
fn failure_code_text(c: &ServiceCall, reason: &str) -> (r: &'static str)
    ensures
        r@ == failure_code(c@, reason@),
{
    match c {
        ServiceCall::ComposeRequestSend(_) => "REQUEST_ERROR",
        ServiceCall::RequestDetailGet(_) => "REQUEST_DETAIL_ERROR",
        ServiceCall::RequestStreamSubscribe => "CACHE_ERROR",
        ServiceCall::RulesSaveSet(_) => "VALIDATION_ERROR",
        ServiceCall::RulesEnabledSet(_, _) | ServiceCall::RulesDelete(_) => {
            if str_contains(reason, "not found") {
                "NOT_FOUND"
            } else {
                "DB_ERROR"
            }
        },
        _ => "DB_ERROR",
    }
}

/// The message of an error reply when the payload of `c` does not decode.
fn undecodable_message_text(c: &ServiceCall) -> (r: &'static str)
    ensures
        r@ == undecodable_message(c@),
{
    match c {
        ServiceCall::ComposeRequestSend(_) => "Failed to parse compose payload",
        ServiceCall::SettingsGeneralSet(_) => "Failed to parse general setting",
        ServiceCall::SettingsCaptureFilterSet(_) => "Failed to parse capture filter",
        ServiceCall::RulesSaveSet(_) => "Failed to parse rule",
        ServiceCall::CaptureRulesUpsert(_, _) => "Failed to parse capture rule",
        ServiceCall::CaptureRulesDelete(_, _) => "Failed to parse payload.ruleId",
        ServiceCall::CaptureRulesEnabledSet(_, _) => "Failed to parse payload.ruleId/enabled",
        ServiceCall::DeviceAdbProxyEnable(_) => "Failed to parse proxy enable payload",
        _ => {
            proof {
                reveal_strlit("");
            }
            ""
        },
    }
}

/// `{"reason": reason}`.
fn reason_details(reason: String) -> (r: Json)
    ensures
        r@ == reason_json(reason@),
{
    json_object1("reason", Json::Str(reason))
}

/// The payload of the response when the service of `c` returns `v`.
fn success_json(c: &ServiceCall, v: Json) -> (r: Json)
    ensures
        r@ == success_payload(c@, v@),
{
    match c {
        ServiceCall::RequestDetailGet(t) => json_object2("traceId", Json::Str(t.clone()), "detail", v),
        ServiceCall::RequestStreamSubscribe => json_object2("subscribed", Json::Bool(true), "cachedRequests", v),
        ServiceCall::SettingsGeneralSet(_) | ServiceCall::SettingsCaptureFilterSet(_) => json_object1("ok", Json::Bool(true)),
        ServiceCall::SettingsCertificatePathGet => json_object1("path", v),
        ServiceCall::RulesListGet(_) | ServiceCall::CaptureRulesList(_) => json_object1("rules", v),
        ServiceCall::RulesDelete(id) => json_object1("ruleId", json_i64(*id as i64)),
        ServiceCall::RulesTemplatesGet => json_object1("templates", v),
        ServiceCall::ProjectsDelete(p) => json_object1("projectId", Json::Str(p.clone())),
        _ => v,
    }
}

/// Reports how the service of a request came out.
pub fn finish_request(pending: PendingCall, outcome: CallOutcome) -> (r: Vec<WsFrame>)
    requires
        outcome_fits(pending.call@, outcome@),
    ensures
        frames_fit(r@, finish_spec(pending.call@, pending.id@, pending.op@, outcome@)),
{
    let PendingCall { id, op, call } = pending;
    match outcome {
        CallOutcome::Done(v) => {
            let body = success_json(&call, v);
            vec![response_frame(id, op, body)]
        },
        CallOutcome::Recording(status) => {
            let text = recording_status_to_text(&status);
            match call {
                ServiceCall::CaptureControlSet(_) => {
                    let ok = json_object1("ok", Json::Bool(true));
                    let first = response_frame(id, op, ok);
                    let changed = json_object1("recordingStatus", json_string(text));
                    let event_op = String::from_str(EventOp::CaptureStatusChanged.name());
                    let second = event_frame(event_op, changed);
                    vec![first, second]
                },
                _ => {
                    let status_json = json_object1("recordingStatus", json_string(text));
                    vec![response_frame(id, op, status_json)]
                },
            }
        },
        CallOutcome::Absent => vec![error_frame(id, op, "NOT_FOUND", "Rule not found", None)],
        CallOutcome::Failed(reason) => {
            let code = failure_code_text(&call, reason.as_str());
            let message = failure_message_text(&call);
            vec![error_frame(id, op, code, message, Some(reason_details(reason)))]
        },
        CallOutcome::Undecodable(reason) => {
            let message = undecodable_message_text(&call);
            vec![error_frame(id, op, "INVALID_PAYLOAD", message, Some(reason_details(reason)))]
        },
        CallOutcome::AdbFailed(message) => {
            let code = match call {
                ServiceCall::DeviceAdbInstall => "ADB_INSTALL_FAILED",
                _ => "ADB_ERROR",
            };
            vec![error_frame(id, op, code, message.as_str(), None)]
        },
        CallOutcome::RuleDeleted(rid) => {
            let body = json_object1("ruleId", json_i64(rid as i64));
            vec![response_frame(id, op, body)]
        },
    }
}

} // verus!

verus! {

/// What a client sends to save a capture rule.
pub struct CaptureRuleUpsertPayload {
    pub id: Option<i32>,
    pub name: String,
    pub enabled: bool,
    pub match_expr: String,
}

/// The capture rule that an upsert payload describes: no id means a new rule, and the
/// timestamps are left for the store to set.
pub fn capture_rule_from_payload(payload: CaptureRuleUpsertPayload) -> (r: CaptureRule)
    ensures
        r.id == (match payload.id { Some(i) => i, None => 0 }),
        r.name == payload.name,
        r.enabled == payload.enabled,
        r.match_expr == payload.match_expr,
        r.created_at == 0,
        r.updated_at == 0,
{
    CaptureRule {
        id: match payload.id {
            Some(i) => i,
            None => 0,
        },
        name: payload.name,
        enabled: payload.enabled,
        match_expr: payload.match_expr,
        created_at: 0,
        updated_at: 0,
    }
}

/// What the proxy reports of a request that starts.
pub struct RequestStart {
    pub method: Json,
    pub url: Json,
    pub headers: Json,
    pub version: Json,
    pub matched_rules: Json,
    pub request_type: Json,
}

/// What the proxy reports of a response that starts.
pub struct ResponseStart {
    pub status: Json,
    pub headers: Json,
    pub version: Json,
}

/// An event of the proxy about one traced exchange; the first field is the trace id.
pub enum MessageEvent {
    OnRequestStart(String, RequestStart),
    OnRequestBody(String, Option<Vec<u8>>),
    OnRequestEnd(String),
    OnResponseStart(String, ResponseStart),
    OnResponseBody(String, Option<Vec<u8>>),
    OnProxyEnd(String),
    OnWebSocketMessage(String, Json),
    OnWebSocketError(String, String),
    OnWebSocketEnd(String),
    OnError(String, String),
    OnProxyStart(String),
    OnTunnelStart(String),
    OnTunnelEnd(String),
    OnWebSocketStart(String),
}

/// Body bytes as the protocol carries them: base64 text, or null.
pub open spec fn body_json(b: Option<Vec<u8>>) -> JsonV {
    match b {
        Some(bytes) => JsonV::Str(base64_standard(bytes@)),
        None => JsonV::Null,
    }
}

/// `{"traceId": t}` followed by more members.
pub open spec fn traced(t: Seq<char>, more: Seq<(Seq<char>, JsonV)>) -> JsonV {
    JsonV::Object(seq![("traceId"@, JsonV::Str(t))] + more)
}

/// The event frame that reports `e` to subscribers, if it is reported at all.
pub open spec fn event_reply(e: MessageEvent) -> Option<ReplySpec> {
    match e {
        MessageEvent::OnRequestStart(t, r) => Some(event_spec(event_op_name(EventOp::RequestStart), traced(t@, seq![
            ("method"@, r.method@),
            ("url"@, r.url@),
            ("headers"@, r.headers@),
            ("version"@, r.version@),
            ("matchedRules"@, r.matched_rules@),
            ("requestType"@, r.request_type@),
        ]))),
        MessageEvent::OnRequestBody(t, b) => Some(event_spec(event_op_name(EventOp::RequestBody), traced(t@, seq![("data"@, body_json(b))]))),
        MessageEvent::OnRequestEnd(t) => Some(event_spec(event_op_name(EventOp::RequestEnd), traced(t@, Seq::empty()))),
        MessageEvent::OnResponseStart(t, r) => Some(event_spec(event_op_name(EventOp::ResponseStart), traced(t@, seq![
            ("status"@, r.status@),
            ("headers"@, r.headers@),
            ("version"@, r.version@),
        ]))),
        MessageEvent::OnResponseBody(t, b) => Some(event_spec(event_op_name(EventOp::ResponseBody), traced(t@, seq![("data"@, body_json(b))]))),
        MessageEvent::OnProxyEnd(t) => Some(event_spec(event_op_name(EventOp::ResponseEnd), traced(t@, Seq::empty()))),
        MessageEvent::OnWebSocketMessage(t, l) => Some(event_spec(event_op_name(EventOp::WebsocketMessage), traced(t@, seq![("log"@, l@)]))),
        MessageEvent::OnWebSocketError(t, m) => Some(event_spec(event_op_name(EventOp::WebsocketError), traced(t@, seq![("error"@, JsonV::Str(m@))]))),
        MessageEvent::OnWebSocketEnd(t) => Some(event_spec(event_op_name(EventOp::WebsocketEnd), traced(t@, Seq::empty()))),
        MessageEvent::OnError(t, m) => Some(event_spec(event_op_name(EventOp::SystemError), traced(t@, seq![("error"@, JsonV::Str(m@))]))),
        _ => None,
    }
}

/// An object of the trace id and the given members, in order.
fn traced_object(trace_id: String, more: Vec<(String, Json)>) -> (r: Json)
    ensures
        r@ == traced(trace_id@, more@.map_values(|e: (String, Json)| (e.0@, json_view(&e.1)))),
{
    let ghost tail = more@;
    let ghost t = trace_id@;
    let first = (String::from_str("traceId"), Json::Str(trace_id));
    assert(first.0@ == "traceId"@ && json_view(&first.1) == JsonV::Str(t));
    let mut entries: Vec<(String, Json)> = vec![first];
    let ghost head = entries@;
    let mut more = more;
    entries.append(&mut more);
    assert(entries@ == head + tail);
    let r = Json::Object(entries);
    proof {
        let m = |e: (String, Json)| (e.0@, json_view(&e.1));
        let got = json_view(&r)->Object_0;
        let want = seq![("traceId"@, JsonV::Str(t))] + tail.map_values(m);
        assert(got.len() == want.len());
        assert forall|i: int| 0 <= i < got.len() implies got[i] == want[i] by {
            if i == 0 {
                assert(entries@[0] == first);
            } else {
                assert(entries@[i] == tail[i - 1]);
            }
        }
        assert(got =~= want);
    }
    r
}

/// An object member.
fn member(key: &str, value: Json) -> (r: (String, Json))
    ensures
        r.0@ == key@,
        r.1 == value,
{
    (String::from_str(key), value)
}

/// Body bytes as the protocol carries them.
fn body_value(b: Option<Vec<u8>>) -> (r: Json)
    ensures
        r@ == body_json(b),
{
    match encode_optional_bytes(b) {
        Some(s) => Json::Str(s),
        None => Json::Null,
    }
}

/// The event frame that reports `e` to subscribers, if it is reported at all.
pub fn message_event_to_ws_event(e: MessageEvent) -> (r: Option<WsFrame>)
    ensures
        match event_reply(e) {
            Some(rep) => r matches Some(f) && crate::frame::frame_fits(f@, rep),
            None => r is None,
        },
{
    let ghost ev = e;
    let (op, body): (EventOp, Json) = match e {
        MessageEvent::OnRequestStart(t, r) => {
            let ghost rv = r;
            let more = vec![
                member("method", r.method),
                member("url", r.url),
                member("headers", r.headers),
                member("version", r.version),
                member("matchedRules", r.matched_rules),
                member("requestType", r.request_type),
            ];
            let ghost m = |e: (String, Json)| (e.0@, json_view(&e.1));
            assert(more@.map_values(m) =~= seq![
                ("method"@, rv.method@),
                ("url"@, rv.url@),
                ("headers"@, rv.headers@),
                ("version"@, rv.version@),
                ("matchedRules"@, rv.matched_rules@),
                ("requestType"@, rv.request_type@),
            ]);
            (EventOp::RequestStart, traced_object(t, more))
        },
        MessageEvent::OnRequestBody(t, b) => {
            let more = vec![member("data", body_value(b))];
            let ghost m = |e: (String, Json)| (e.0@, json_view(&e.1));
            assert(more@.map_values(m) =~= seq![("data"@, body_json(b))]);
            (EventOp::RequestBody, traced_object(t, more))
        },
        MessageEvent::OnRequestEnd(t) => {
            let more: Vec<(String, Json)> = Vec::new();
            let ghost m = |e: (String, Json)| (e.0@, json_view(&e.1));
            assert(more@.map_values(m) =~= Seq::<(Seq<char>, JsonV)>::empty());
            (EventOp::RequestEnd, traced_object(t, more))
        },
        MessageEvent::OnResponseStart(t, r) => {
            let ghost rv = r;
            let more = vec![member("status", r.status), member("headers", r.headers), member("version", r.version)];
            let ghost m = |e: (String, Json)| (e.0@, json_view(&e.1));
            assert(more@.map_values(m) =~= seq![("status"@, rv.status@), ("headers"@, rv.headers@), ("version"@, rv.version@)]);
            (EventOp::ResponseStart, traced_object(t, more))
        },
        MessageEvent::OnResponseBody(t, b) => {
            let more = vec![member("data", body_value(b))];
            let ghost m = |e: (String, Json)| (e.0@, json_view(&e.1));
            assert(more@.map_values(m) =~= seq![("data"@, body_json(b))]);
            (EventOp::ResponseBody, traced_object(t, more))
        },
        MessageEvent::OnProxyEnd(t) => {
            let more: Vec<(String, Json)> = Vec::new();
            let ghost m = |e: (String, Json)| (e.0@, json_view(&e.1));
            assert(more@.map_values(m) =~= Seq::<(Seq<char>, JsonV)>::empty());
            (EventOp::ResponseEnd, traced_object(t, more))
        },
        MessageEvent::OnWebSocketMessage(t, l) => {
            let ghost lv = l@;
            let more = vec![member("log", l)];
            let ghost m = |e: (String, Json)| (e.0@, json_view(&e.1));
            assert(more@.map_values(m) =~= seq![("log"@, lv)]);
            (EventOp::WebsocketMessage, traced_object(t, more))
        },
        MessageEvent::OnWebSocketError(t, msg) => {
            let ghost mv = msg@;
            let more = vec![member("error", Json::Str(msg))];
            let ghost m = |e: (String, Json)| (e.0@, json_view(&e.1));
            assert(more@.map_values(m) =~= seq![("error"@, JsonV::Str(mv))]);
            (EventOp::WebsocketError, traced_object(t, more))
        },
        MessageEvent::OnWebSocketEnd(t) => {
            let more: Vec<(String, Json)> = Vec::new();
            let ghost m = |e: (String, Json)| (e.0@, json_view(&e.1));
            assert(more@.map_values(m) =~= Seq::<(Seq<char>, JsonV)>::empty());
            (EventOp::WebsocketEnd, traced_object(t, more))
        },
        MessageEvent::OnError(t, msg) => {
            let ghost mv = msg@;
            let more = vec![member("error", Json::Str(msg))];
            let ghost m = |e: (String, Json)| (e.0@, json_view(&e.1));
            assert(more@.map_values(m) =~= seq![("error"@, JsonV::Str(mv))]);
            (EventOp::SystemError, traced_object(t, more))
        },
        MessageEvent::OnProxyStart(_) | MessageEvent::OnTunnelStart(_) | MessageEvent::OnTunnelEnd(_)
        | MessageEvent::OnWebSocketStart(_) => {
            return None;
        },
    };
    Some(event_frame(String::from_str(op.name()), body))
}

/// What the client socket delivered.
pub enum SocketInput {
    /// A text message that reads as a frame.
    Frame(WsFrame),
    /// A text message that does not read as a frame.
    Malformed,
    /// A ping with its data.
    Ping(Vec<u8>),
    /// The client closed the connection.
    Close,
    /// Any other message.
    Other,
    /// Receiving failed.
    Failed,
    /// The stream ended.
    Ended,
}

/// What the event stream delivered.
pub enum BroadcastInput {
    Event(MessageEvent),
    /// Events were dropped because the session fell behind.
    Lagged(u64),
    /// The event channel is closed.
    Closed,
}

/// What the session does next.
pub enum SessionStep {
    /// Handle a client request.
    Request(RequestStep),
    /// Send these frames.
    Send(Vec<WsFrame>),
    /// Answer a ping with a pong carrying the same data; a failed send ends the session.
    Pong(Vec<u8>),
    /// Nothing to do.
    Idle,
    /// End the session.
    Stop,
}

/// Handles what the client socket delivered.
pub fn on_socket_input(input: SocketInput, subscribed: &mut bool) -> (r: SessionStep)
    ensures
        match input {
            SocketInput::Frame(f) => r matches SessionStep::Request(step)
                && step_fits(step, request_plan(f@), f@.id, f@.op)
                && *final(subscribed) == subscribed_after(f@, *old(subscribed)),
            SocketInput::Malformed => r matches SessionStep::Send(fs) && frames_fit(fs@, seq![error_spec(
                "invalid"@, "system.error"@, "INVALID_JSON"@, "Failed to parse request frame"@, None)])
                && *final(subscribed) == *old(subscribed),
            SocketInput::Ping(d) => r matches SessionStep::Pong(p) && p@ == d@ && *final(subscribed) == *old(subscribed),
            SocketInput::Other => r is Idle && *final(subscribed) == *old(subscribed),
            _ => r is Stop && *final(subscribed) == *old(subscribed),
        },
{
    match input {
        SocketInput::Frame(f) => SessionStep::Request(begin_request(f, subscribed)),
        SocketInput::Malformed => {
            let f = error_frame(
                String::from_str("invalid"),
                String::from_str(EventOp::SystemError.name()),
                "INVALID_JSON",
                "Failed to parse request frame",
                None,
            );
            SessionStep::Send(vec![f])
        },
        SocketInput::Ping(d) => SessionStep::Pong(d),
        SocketInput::Other => SessionStep::Idle,
        SocketInput::Close | SocketInput::Failed | SocketInput::Ended => SessionStep::Stop,
    }
}

/// Handles what the event stream delivered: events
/// reach the client only while it is subscribed; a closed channel ends the session.
pub fn on_broadcast(input: BroadcastInput, subscribed: bool) -> (r: SessionStep)
    ensures
        !subscribed ==> r is Idle,
        subscribed ==> match input {
            BroadcastInput::Event(e) => match event_reply(e) {
                Some(rep) => r matches SessionStep::Send(fs) && frames_fit(fs@, seq![rep]),
                None => r is Idle,
            },
            BroadcastInput::Lagged(_) => r is Idle,
            BroadcastInput::Closed => r is Stop,
        },
{
    if !subscribed {
        return SessionStep::Idle;
    }
    match input {
        BroadcastInput::Event(e) => match message_event_to_ws_event(e) {
            Some(f) => SessionStep::Send(vec![f]),
            None => SessionStep::Idle,
        },
        BroadcastInput::Lagged(_) => SessionStep::Idle,
        BroadcastInput::Closed => SessionStep::Stop,
    }
}

} // verus!

verus! {

/// Each client frame is answered by exactly one frame that carries its id and operation;
/// the only other frame a request can bring is the event that announces a new capture status.
pub proof fn lemma_replies_answer_the_request(f: FrameV, o: OutcomeV)
    ensures
        match request_plan(f) {
            PlanV::Reply(rs) => rs.len() == 1 && rs[0].id == f.id && rs[0].op == f.op && !(rs[0].kind is Event),
            PlanV::Call(c) => outcome_fits(c, o) ==> {
                let rs = finish_spec(c, f.id, f.op, o);
                &&& 1 <= rs.len() <= 2
                &&& rs[0].id == f.id && rs[0].op == f.op && !(rs[0].kind is Event)
                &&& rs.len() == 2 ==> (rs[1].kind is Event && rs[1].op == "capture.status.changed"@)
            },
        },
{
}

/// Toggling or deleting a rule that does not exist is answered with `NOT_FOUND`, not as a
/// store failure.
pub proof fn lemma_missing_rule_is_not_found(id: i32, enabled: bool, missing: i32)
    ensures
        failure_code(CallV::RulesEnabledSet(id, enabled), rule_not_found_text(missing as int)) == "NOT_FOUND"@,
        failure_code(CallV::RulesDelete(id), rule_not_found_text(missing as int)) == "NOT_FOUND"@,
{
    reveal_strlit("Rule ");
    reveal_strlit(" not found");
    reveal_strlit("not found");
    let text = rule_not_found_text(missing as int);
    let at: int = 6 + int_decimal(missing as int).len() as int;
    assert(text.subrange(at, at + 9) =~= "not found"@);
    assert(occurs_at(text, "not found"@, at));
}

/// A frame that is not a well-formed request of a known operation is refused with one frame,
/// asks for no service and leaves the subscription as it was.
pub proof fn lemma_refused_frames(f: FrameV, subscribed: bool)
    requires
        accepted_op(f) is None,
    ensures
        request_plan(f) is Reply,
        subscribed_after(f, subscribed) == subscribed,
{
}

} // verus!
