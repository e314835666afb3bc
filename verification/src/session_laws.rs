//! What the session promises, stated from the protocol's side: which service a request names
//! and with which arguments, what a successful service's value becomes, and which event
//! announces which proxy event.
use vstd::prelude::*;
use vstd::string::*;
use crate::capture_rules::CaptureRuleKind;
use crate::codec::base64_standard;
use crate::frame::{ReplyKind, ReplySpec};
use crate::json::{lemma_entries_get_at, payload_bool, payload_i32, payload_str, spec_get, JsonV};
use crate::protocol::{lemma_operation_names, EventOp, RequestOp};
use crate::settings::RecordingStatus;
use crate::session::{event_reply, finish_spec, outcome_fits, request_plan, CallV, MessageEvent, OutcomeV, PlanV};
use crate::text::int_decimal;

verus! {

/// A version 1 request frame for the operation named `op`.
pub open spec fn is_request_for(f: crate::frame::FrameV, op: Seq<char>) -> bool {
    f.version == "v1"@ && f.kind == "request"@ && f.op == op
}

/// A request frame is not a ping frame.
proof fn lemma_request_is_not_ping()
    ensures
        "request"@ != "ping"@,
{
    reveal_strlit("request");
    reveal_strlit("ping");
    assert("request"@.len() != "ping"@.len());
}

/// Requests about projects name the project service with the payload's members as its
/// arguments: `projectId` is the project acted on, `id` and `name` the new project's id and
/// name, `name` the new name, `enabled` the new state; without them no service is called.
pub proof fn lemma_project_requests_read_their_payload(f: crate::frame::FrameV)
    ensures
        is_request_for(f, "projects.rename"@) ==> {
            let i = payload_str(f.payload, "projectId"@);
            let n = payload_str(f.payload, "name"@);
            &&& (i is Some && n is Some) ==> request_plan(f) == PlanV::Call(CallV::ProjectsRename(i->0, n->0))
            &&& !(i is Some && n is Some) ==> request_plan(f) is Reply
        },
        is_request_for(f, "projects.create"@) ==> {
            let i = payload_str(f.payload, "id"@);
            let n = payload_str(f.payload, "name"@);
            &&& (i is Some && n is Some) ==> request_plan(f) == PlanV::Call(CallV::ProjectsCreate(i->0, n->0))
            &&& !(i is Some && n is Some) ==> request_plan(f) is Reply
        },
        is_request_for(f, "projects.enabled.set"@) ==> {
            let i = payload_str(f.payload, "projectId"@);
            let b = payload_bool(f.payload, "enabled"@);
            &&& (i is Some && b is Some) ==> request_plan(f) == PlanV::Call(CallV::ProjectsEnabledSet(i->0, b->0))
            &&& !(i is Some && b is Some) ==> request_plan(f) is Reply
        },
        is_request_for(f, "projects.active.set"@) ==> {
            let i = payload_str(f.payload, "projectId"@);
            &&& i is Some ==> request_plan(f) == PlanV::Call(CallV::ProjectsActiveSet(i->0))
            &&& i is None ==> request_plan(f) is Reply
        },
        is_request_for(f, "projects.delete"@) ==> {
            let i = payload_str(f.payload, "projectId"@);
            &&& i is Some ==> request_plan(f) == PlanV::Call(CallV::ProjectsDelete(i->0))
            &&& i is None ==> request_plan(f) is Reply
        },
        is_request_for(f, "projects.list.get"@) ==> request_plan(f) == PlanV::Call(CallV::ProjectsListGet),
{
    lemma_request_is_not_ping();
    lemma_operation_names(RequestOp::ProjectsRename, EventOp::SystemError);
    lemma_operation_names(RequestOp::ProjectsCreate, EventOp::SystemError);
    lemma_operation_names(RequestOp::ProjectsEnabledSet, EventOp::SystemError);
    lemma_operation_names(RequestOp::ProjectsActiveSet, EventOp::SystemError);
    lemma_operation_names(RequestOp::ProjectsDelete, EventOp::SystemError);
    lemma_operation_names(RequestOp::ProjectsListGet, EventOp::SystemError);
}

/// Requests about request rules name the rule service with the payload's `ruleId`,
/// `enabled` and `projectId`; saving passes the whole payload on.
pub proof fn lemma_rule_requests_read_their_payload(f: crate::frame::FrameV)
    ensures
        is_request_for(f, "rules.get"@) ==> {
            let r = payload_i32(f.payload, "ruleId"@);
            &&& r is Some ==> request_plan(f) == PlanV::Call(CallV::RulesGet(r->0))
            &&& r is None ==> request_plan(f) is Reply
        },
        is_request_for(f, "rules.delete"@) ==> {
            let r = payload_i32(f.payload, "ruleId"@);
            &&& r is Some ==> request_plan(f) == PlanV::Call(CallV::RulesDelete(r->0))
            &&& r is None ==> request_plan(f) is Reply
        },
        is_request_for(f, "rules.enabled.set"@) ==> {
            let r = payload_i32(f.payload, "ruleId"@);
            let b = payload_bool(f.payload, "enabled"@);
            &&& (r is Some && b is Some) ==> request_plan(f) == PlanV::Call(CallV::RulesEnabledSet(r->0, b->0))
            &&& !(r is Some && b is Some) ==> request_plan(f) is Reply
        },
        is_request_for(f, "rules.list.get"@) ==> request_plan(f) == PlanV::Call(
            CallV::RulesListGet(payload_str(f.payload, "projectId"@)),
        ),
        is_request_for(f, "rules.save.set"@) ==> match f.payload {
            Some(v) => request_plan(f) == PlanV::Call(CallV::RulesSaveSet(v)),
            None => request_plan(f) is Reply,
        },
        is_request_for(f, "rules.templates.get"@) ==> request_plan(f) == PlanV::Call(CallV::RulesTemplatesGet),
{
    lemma_request_is_not_ping();
    lemma_operation_names(RequestOp::RulesGet, EventOp::SystemError);
    lemma_operation_names(RequestOp::RulesDelete, EventOp::SystemError);
    lemma_operation_names(RequestOp::RulesEnabledSet, EventOp::SystemError);
    lemma_operation_names(RequestOp::RulesListGet, EventOp::SystemError);
    lemma_operation_names(RequestOp::RulesSaveSet, EventOp::SystemError);
    lemma_operation_names(RequestOp::RulesTemplatesGet, EventOp::SystemError);
}

/// Requests about capture rules name the capture-rule service for the list their operation
/// names (focus or ignore), with the payload passed on.
pub proof fn lemma_capture_rule_requests_name_their_list(f: crate::frame::FrameV)
    ensures
        is_request_for(f, "capture.rules.focus.list.get"@) ==> request_plan(f) == PlanV::Call(
            CallV::CaptureRulesList(CaptureRuleKind::Focus),
        ),
        is_request_for(f, "capture.rules.ignore.list.get"@) ==> request_plan(f) == PlanV::Call(
            CallV::CaptureRulesList(CaptureRuleKind::Ignore),
        ),
        is_request_for(f, "capture.rules.focus.upsert"@) ==> match f.payload {
            Some(v) => request_plan(f) == PlanV::Call(CallV::CaptureRulesUpsert(CaptureRuleKind::Focus, v)),
            None => request_plan(f) is Reply,
        },
        is_request_for(f, "capture.rules.ignore.upsert"@) ==> match f.payload {
            Some(v) => request_plan(f) == PlanV::Call(CallV::CaptureRulesUpsert(CaptureRuleKind::Ignore, v)),
            None => request_plan(f) is Reply,
        },
        is_request_for(f, "capture.rules.focus.delete"@) ==> match f.payload {
            Some(v) => request_plan(f) == PlanV::Call(CallV::CaptureRulesDelete(CaptureRuleKind::Focus, v)),
            None => request_plan(f) is Reply,
        },
        is_request_for(f, "capture.rules.ignore.delete"@) ==> match f.payload {
            Some(v) => request_plan(f) == PlanV::Call(CallV::CaptureRulesDelete(CaptureRuleKind::Ignore, v)),
            None => request_plan(f) is Reply,
        },
        is_request_for(f, "capture.rules.focus.enabled.set"@) ==> match f.payload {
            Some(v) => request_plan(f) == PlanV::Call(CallV::CaptureRulesEnabledSet(CaptureRuleKind::Focus, v)),
            None => request_plan(f) is Reply,
        },
        is_request_for(f, "capture.rules.ignore.enabled.set"@) ==> match f.payload {
            Some(v) => request_plan(f) == PlanV::Call(CallV::CaptureRulesEnabledSet(CaptureRuleKind::Ignore, v)),
            None => request_plan(f) is Reply,
        },
{
    lemma_request_is_not_ping();
    lemma_operation_names(RequestOp::CaptureRulesFocusListGet, EventOp::SystemError);
    lemma_operation_names(RequestOp::CaptureRulesIgnoreListGet, EventOp::SystemError);
    lemma_operation_names(RequestOp::CaptureRulesFocusUpsert, EventOp::SystemError);
    lemma_operation_names(RequestOp::CaptureRulesIgnoreUpsert, EventOp::SystemError);
    lemma_operation_names(RequestOp::CaptureRulesFocusDelete, EventOp::SystemError);
    lemma_operation_names(RequestOp::CaptureRulesIgnoreDelete, EventOp::SystemError);
    lemma_operation_names(RequestOp::CaptureRulesFocusEnabledSet, EventOp::SystemError);
    lemma_operation_names(RequestOp::CaptureRulesIgnoreEnabledSet, EventOp::SystemError);
}

/// Capture, settings, compose, device and history requests name their service with the
/// payload's members (`recording`, `traceId`, `serial`, `expr`) or the payload itself.
pub proof fn lemma_other_requests_read_their_payload(f: crate::frame::FrameV)
    ensures
        is_request_for(f, "capture.status.get"@) ==> request_plan(f) == PlanV::Call(CallV::CaptureStatusGet),
        is_request_for(f, "capture.control.set"@) ==> {
            let b = payload_bool(f.payload, "recording"@);
            &&& b is Some ==> request_plan(f) == PlanV::Call(CallV::CaptureControlSet(b->0))
            &&& b is None ==> request_plan(f) is Reply
        },
        is_request_for(f, "request.detail.get"@) ==> {
            let t = payload_str(f.payload, "traceId"@);
            &&& t is Some ==> request_plan(f) == PlanV::Call(CallV::RequestDetailGet(t->0))
            &&& t is None ==> request_plan(f) is Reply
        },
        is_request_for(f, "request.stream.subscribe"@) ==> request_plan(f) == PlanV::Call(CallV::RequestStreamSubscribe),
        is_request_for(f, "compose.request.send"@) ==> match f.payload {
            Some(v) => request_plan(f) == PlanV::Call(CallV::ComposeRequestSend(v)),
            None => request_plan(f) is Reply,
        },
        is_request_for(f, "settings.general.get"@) ==> request_plan(f) == PlanV::Call(CallV::SettingsGeneralGet),
        is_request_for(f, "settings.general.set"@) ==> match f.payload {
            Some(v) => request_plan(f) == PlanV::Call(CallV::SettingsGeneralSet(v)),
            None => request_plan(f) is Reply,
        },
        is_request_for(f, "settings.captureFilter.get"@) ==> request_plan(f) == PlanV::Call(
            CallV::SettingsCaptureFilterGet,
        ),
        is_request_for(f, "settings.captureFilter.set"@) ==> match f.payload {
            Some(v) => request_plan(f) == PlanV::Call(CallV::SettingsCaptureFilterSet(v)),
            None => request_plan(f) is Reply,
        },
        is_request_for(f, "settings.certificate.path.get"@) ==> request_plan(f) == PlanV::Call(
            CallV::SettingsCertificatePathGet,
        ),
        is_request_for(f, "device.adb.proxy.enable"@) ==> match f.payload {
            Some(v) => request_plan(f) == PlanV::Call(CallV::DeviceAdbProxyEnable(v)),
            None => request_plan(f) is Reply,
        },
        is_request_for(f, "device.adb.proxy.state.get"@) ==> {
            let s = payload_str(f.payload, "serial"@);
            &&& (s is Some && s->0.len() > 0) ==> request_plan(f) == PlanV::Call(CallV::DeviceAdbProxyStateGet(s->0))
            &&& !(s is Some && s->0.len() > 0) ==> request_plan(f) is Reply
        },
        is_request_for(f, "device.adb.proxy.disable"@) ==> {
            let s = payload_str(f.payload, "serial"@);
            &&& (s is Some && s->0.len() > 0) ==> request_plan(f) == PlanV::Call(CallV::DeviceAdbProxyDisable(s->0))
            &&& !(s is Some && s->0.len() > 0) ==> request_plan(f) is Reply
        },
        is_request_for(f, "network.trafficFilter.history.append"@) ==> {
            let e = payload_str(f.payload, "expr"@);
            &&& e is Some ==> request_plan(f) == PlanV::Call(CallV::TrafficFilterHistoryAppend(e->0))
            &&& e is None ==> request_plan(f) is Reply
        },
        is_request_for(f, "network.trafficFilter.history.get"@) ==> request_plan(f) == PlanV::Call(
            CallV::TrafficFilterHistoryGet,
        ),
        is_request_for(f, "network.trafficFilter.history.clear"@) ==> request_plan(f) == PlanV::Call(
            CallV::TrafficFilterHistoryClear,
        ),
{
    lemma_request_is_not_ping();
    lemma_operation_names(RequestOp::CaptureStatusGet, EventOp::SystemError);
    lemma_operation_names(RequestOp::CaptureControlSet, EventOp::SystemError);
    lemma_operation_names(RequestOp::RequestDetailGet, EventOp::SystemError);
    lemma_operation_names(RequestOp::RequestStreamSubscribe, EventOp::SystemError);
    lemma_operation_names(RequestOp::ComposeRequestSend, EventOp::SystemError);
    lemma_operation_names(RequestOp::SettingsGeneralGet, EventOp::SystemError);
    lemma_operation_names(RequestOp::SettingsGeneralSet, EventOp::SystemError);
    lemma_operation_names(RequestOp::SettingsCaptureFilterGet, EventOp::SystemError);
    lemma_operation_names(RequestOp::SettingsCaptureFilterSet, EventOp::SystemError);
    lemma_operation_names(RequestOp::SettingsCertificatePathGet, EventOp::SystemError);
    lemma_operation_names(RequestOp::DeviceAdbProxyEnable, EventOp::SystemError);
    lemma_operation_names(RequestOp::DeviceAdbProxyStateGet, EventOp::SystemError);
    lemma_operation_names(RequestOp::DeviceAdbProxyDisable, EventOp::SystemError);
    lemma_operation_names(RequestOp::NetworkTrafficFilterHistoryAppend, EventOp::SystemError);
    lemma_operation_names(RequestOp::NetworkTrafficFilterHistoryGet, EventOp::SystemError);
    lemma_operation_names(RequestOp::NetworkTrafficFilterHistoryClear, EventOp::SystemError);
}

/// The value of member `key` of `{first: a, second: b}` (members looked up in order).
proof fn lemma_pair_members(k1: Seq<char>, a: JsonV, k2: Seq<char>, b: JsonV)
    requires
        k1 != k2,
    ensures
        spec_get(JsonV::Object(seq![(k1, a), (k2, b)]), k1) == Some(a),
        spec_get(JsonV::Object(seq![(k1, a), (k2, b)]), k2) == Some(b),
{
    let e = seq![(k1, a), (k2, b)];
    assert(e.drop_first() =~= seq![(k2, b)]);
    assert(e[0].0 == k1 && e[0].0 != k2);
    assert(seq![(k2, b)][0].0 == k2);
    assert(crate::json::entries_get(seq![(k2, b)], k2) == Some(b));
    assert(crate::json::entries_get(e, k2) == crate::json::entries_get(e.drop_first(), k2));
}

/// When a service succeeds with value `v`, the request gets one response, with the request's
/// id and operation, whose payload carries `v` unchanged: as the member the operation names
/// (`detail`, `cachedRequests`, `path`, `rules`, `templates`) or as the whole payload. Only
/// the services that return nothing (saving settings, deleting a rule or a project) answer
/// with an acknowledgement of their own.
pub proof fn lemma_success_carries_the_value(c: CallV, id: Seq<char>, op: Seq<char>, v: JsonV)
    requires
        outcome_fits(c, OutcomeV::Done(v)),
    ensures
        ({
            let rs = finish_spec(c, id, op, OutcomeV::Done(v));
            &&& rs.len() == 1
            &&& rs[0].kind == ReplyKind::Response
            &&& rs[0].id == id && rs[0].op == op
            &&& rs[0].error is None
            &&& rs[0].payload is Some
            &&& {
                let p = rs[0].payload->0;
                match c {
                    CallV::RequestDetailGet(t) => spec_get(p, "detail"@) == Some(v)
                        && spec_get(p, "traceId"@) == Some(JsonV::Str(t)),
                    CallV::RequestStreamSubscribe => spec_get(p, "cachedRequests"@) == Some(v)
                        && spec_get(p, "subscribed"@) == Some(JsonV::Bool(true)),
                    CallV::SettingsCertificatePathGet => spec_get(p, "path"@) == Some(v),
                    CallV::RulesListGet(_) => spec_get(p, "rules"@) == Some(v),
                    CallV::CaptureRulesList(_) => spec_get(p, "rules"@) == Some(v),
                    CallV::RulesTemplatesGet => spec_get(p, "templates"@) == Some(v),
                    CallV::SettingsGeneralSet(_) => spec_get(p, "ok"@) == Some(JsonV::Bool(true)),
                    CallV::SettingsCaptureFilterSet(_) => spec_get(p, "ok"@) == Some(JsonV::Bool(true)),
                    CallV::RulesDelete(rid) => spec_get(p, "ruleId"@) == Some(JsonV::Number(int_decimal(rid as int))),
                    CallV::ProjectsDelete(pid) => spec_get(p, "projectId"@) == Some(JsonV::Str(pid)),
                    _ => p == v,
                }
            }
        }),
{
    reveal_strlit("traceId");
    reveal_strlit("detail");
    reveal_strlit("subscribed");
    reveal_strlit("cachedRequests");
    assert("traceId"@.len() != "detail"@.len());
    assert("subscribed"@.len() != "cachedRequests"@.len());
    match c {
        CallV::RequestDetailGet(t) => lemma_pair_members("traceId"@, JsonV::Str(t), "detail"@, v),
        CallV::RequestStreamSubscribe => lemma_pair_members("subscribed"@, JsonV::Bool(true), "cachedRequests"@, v),
        _ => {},
    }
}

/// Body bytes as an event carries them: standard base64 text, or null when there are none.
pub open spec fn body_text(b: Option<Vec<u8>>) -> JsonV {
    match b {
        Some(bytes) => JsonV::Str(base64_standard(bytes@)),
        None => JsonV::Null,
    }
}

/// `e` is announced by an event frame under operation `op`, with a payload.
pub open spec fn announced_as(e: MessageEvent, op: Seq<char>) -> bool {
    &&& event_reply(e) is Some
    &&& event_reply(e)->0.kind == ReplyKind::Event
    &&& event_reply(e)->0.op == op
    &&& event_reply(e)->0.error is None
    &&& event_reply(e)->0.payload is Some
}

/// The member `key` of the payload that announces `e`.
pub open spec fn member_of(e: MessageEvent, key: Seq<char>) -> Option<JsonV> {
    spec_get(event_reply(e)->0.payload->0, key)
}

/// Each proxy event is announced to subscribers by an event under the operation named after
/// it, carrying its trace id and what it reports; the start of a proxied exchange, of a tunnel
/// and of a WebSocket, and a tunnel's end, are not announced.
pub proof fn lemma_events_are_announced_under_their_names(e: MessageEvent)
    ensures
        match e {
            MessageEvent::OnRequestStart(t, r) => announced_as(e, "request.start"@)
                && member_of(e, "traceId"@) == Some(JsonV::Str(t@))
                && member_of(e, "method"@) == Some(r.method@)
                && member_of(e, "url"@) == Some(r.url@)
                && member_of(e, "headers"@) == Some(r.headers@)
                && member_of(e, "version"@) == Some(r.version@)
                && member_of(e, "matchedRules"@) == Some(r.matched_rules@)
                && member_of(e, "requestType"@) == Some(r.request_type@),
            MessageEvent::OnRequestBody(t, b) => announced_as(e, "request.body"@)
                && member_of(e, "traceId"@) == Some(JsonV::Str(t@)) && member_of(e, "data"@) == Some(body_text(b)),
            MessageEvent::OnRequestEnd(t) => announced_as(e, "request.end"@)
                && event_reply(e)->0.payload == Some(JsonV::Object(seq![("traceId"@, JsonV::Str(t@))])),
            MessageEvent::OnResponseStart(t, r) => announced_as(e, "response.start"@)
                && member_of(e, "traceId"@) == Some(JsonV::Str(t@))
                && member_of(e, "status"@) == Some(r.status@)
                && member_of(e, "headers"@) == Some(r.headers@)
                && member_of(e, "version"@) == Some(r.version@),
            MessageEvent::OnResponseBody(t, b) => announced_as(e, "response.body"@)
                && member_of(e, "traceId"@) == Some(JsonV::Str(t@)) && member_of(e, "data"@) == Some(body_text(b)),
            MessageEvent::OnProxyEnd(t) => announced_as(e, "response.end"@)
                && event_reply(e)->0.payload == Some(JsonV::Object(seq![("traceId"@, JsonV::Str(t@))])),
            MessageEvent::OnWebSocketMessage(t, l) => announced_as(e, "websocket.message"@)
                && member_of(e, "traceId"@) == Some(JsonV::Str(t@)) && member_of(e, "log"@) == Some(l@),
            MessageEvent::OnWebSocketError(t, m) => announced_as(e, "websocket.error"@)
                && member_of(e, "traceId"@) == Some(JsonV::Str(t@)) && member_of(e, "error"@) == Some(JsonV::Str(m@)),
            MessageEvent::OnWebSocketEnd(t) => announced_as(e, "websocket.end"@)
                && event_reply(e)->0.payload == Some(JsonV::Object(seq![("traceId"@, JsonV::Str(t@))])),
            MessageEvent::OnError(t, m) => announced_as(e, "system.error"@)
                && member_of(e, "traceId"@) == Some(JsonV::Str(t@)) && member_of(e, "error"@) == Some(JsonV::Str(m@)),
            _ => event_reply(e) is None,
        },
{
    reveal_strlit("traceId");
    reveal_strlit("method");
    reveal_strlit("url");
    reveal_strlit("headers");
    reveal_strlit("version");
    reveal_strlit("matchedRules");
    reveal_strlit("requestType");
    reveal_strlit("data");
    reveal_strlit("status");
    reveal_strlit("log");
    reveal_strlit("error");
    match e {
        MessageEvent::OnRequestStart(t, r) => {
            let p = event_reply(e)->0.payload->0;
            let en = p->Object_0;
            assert(en[0].0 == "traceId"@ && en[1].0 == "method"@ && en[2].0 == "url"@ && en[3].0 == "headers"@);
            assert(en[4].0 == "version"@ && en[5].0 == "matchedRules"@ && en[6].0 == "requestType"@);
            assert("traceId"@[0] != "method"@[0] && "traceId"@[0] != "url"@[0] && "traceId"@[0] != "headers"@[0]);
            assert("traceId"@[0] != "version"@[0] && "traceId"@[0] != "matchedRules"@[0] && "traceId"@[0] != "requestType"@[0]);
            assert("method"@[0] != "url"@[0] && "method"@[0] != "headers"@[0] && "method"@[0] != "version"@[0]);
            assert("method"@[1] != "matchedRules"@[1] && "method"@[0] != "requestType"@[0]);
            assert("url"@[0] != "headers"@[0] && "url"@[0] != "version"@[0] && "url"@[0] != "matchedRules"@[0]);
            assert("url"@[0] != "requestType"@[0]);
            assert("headers"@[0] != "version"@[0] && "headers"@[0] != "matchedRules"@[0] && "headers"@[0] != "requestType"@[0]);
            assert("version"@[0] != "matchedRules"@[0] && "version"@[0] != "requestType"@[0]);
            assert("matchedRules"@[0] != "requestType"@[0]);
            lemma_entries_get_at(p, "traceId"@, 0);
            lemma_entries_get_at(p, "method"@, 1);
            lemma_entries_get_at(p, "url"@, 2);
            lemma_entries_get_at(p, "headers"@, 3);
            lemma_entries_get_at(p, "version"@, 4);
            lemma_entries_get_at(p, "matchedRules"@, 5);
            lemma_entries_get_at(p, "requestType"@, 6);
        },
        MessageEvent::OnResponseStart(t, r) => {
            let p = event_reply(e)->0.payload->0;
            let en = p->Object_0;
            assert(en[0].0 == "traceId"@ && en[1].0 == "status"@ && en[2].0 == "headers"@ && en[3].0 == "version"@);
            assert("traceId"@[0] != "status"@[0] && "traceId"@[0] != "headers"@[0] && "traceId"@[0] != "version"@[0]);
            assert("status"@[0] != "headers"@[0] && "status"@[0] != "version"@[0] && "headers"@[0] != "version"@[0]);
            lemma_entries_get_at(p, "traceId"@, 0);
            lemma_entries_get_at(p, "status"@, 1);
            lemma_entries_get_at(p, "headers"@, 2);
            lemma_entries_get_at(p, "version"@, 3);
        },
        MessageEvent::OnRequestBody(t, b) | MessageEvent::OnResponseBody(t, b) => {
            let p = event_reply(e)->0.payload->0;
            let en = p->Object_0;
            assert(en[0].0 == "traceId"@ && en[1].0 == "data"@);
            assert("traceId"@[0] != "data"@[0]);
            lemma_entries_get_at(p, "traceId"@, 0);
            lemma_entries_get_at(p, "data"@, 1);
        },
        MessageEvent::OnWebSocketMessage(t, l) => {
            let p = event_reply(e)->0.payload->0;
            let en = p->Object_0;
            assert(en[0].0 == "traceId"@ && en[1].0 == "log"@);
            assert("traceId"@[0] != "log"@[0]);
            lemma_entries_get_at(p, "traceId"@, 0);
            lemma_entries_get_at(p, "log"@, 1);
        },
        MessageEvent::OnWebSocketError(t, m) | MessageEvent::OnError(t, m) => {
            let p = event_reply(e)->0.payload->0;
            let en = p->Object_0;
            assert(en[0].0 == "traceId"@ && en[1].0 == "error"@);
            assert("traceId"@[0] != "error"@[0]);
            lemma_entries_get_at(p, "traceId"@, 0);
            lemma_entries_get_at(p, "error"@, 1);
        },
        MessageEvent::OnRequestEnd(t) | MessageEvent::OnProxyEnd(t) | MessageEvent::OnWebSocketEnd(t) => {
            let p = event_reply(e)->0.payload->0;
            assert(p->Object_0 =~= seq![("traceId"@, JsonV::Str(t@))]);
        },
        _ => {},
    }
}

/// The text by which a recording status is reported.
pub open spec fn status_text(s: RecordingStatus) -> Seq<char> {
    if s is StartRecording { "recording"@ } else { "paused"@ }
}

/// Asking for the capture status is answered with the status; setting it is acknowledged
/// with `{"ok": true}` and announced to every subscriber as `capture.status.changed` with the
/// new status.
pub proof fn lemma_capture_status_replies(id: Seq<char>, op: Seq<char>, recording: bool, s: RecordingStatus)
    ensures
        ({
            let rs = finish_spec(CallV::CaptureStatusGet, id, op, OutcomeV::Recording(s));
            &&& rs.len() == 1
            &&& rs[0].kind == ReplyKind::Response && rs[0].id == id && rs[0].op == op
            &&& rs[0].payload == Some(JsonV::Object(seq![("recordingStatus"@, JsonV::Str(status_text(s)))]))
        }),
        ({
            let rs = finish_spec(CallV::CaptureControlSet(recording), id, op, OutcomeV::Recording(s));
            &&& rs.len() == 2
            &&& rs[0].kind == ReplyKind::Response && rs[0].id == id && rs[0].op == op
            &&& rs[0].payload == Some(JsonV::Object(seq![("ok"@, JsonV::Bool(true))]))
            &&& rs[1].kind == ReplyKind::Event && rs[1].op == "capture.status.changed"@
            &&& rs[1].payload == Some(JsonV::Object(seq![("recordingStatus"@, JsonV::Str(status_text(s)))]))
        }),
{
}

/// A failed service is answered by one error reply to the request that carries the failure's
/// reason; its code names the kind of failure: a composed request, a request detail, the
/// capture cache, a rule that does not validate, a rule that does not exist, or the store.
pub proof fn lemma_failures_are_reported(c: CallV, id: Seq<char>, op: Seq<char>, reason: Seq<char>)
    requires
        outcome_fits(c, OutcomeV::Failed(reason)),
    ensures
        ({
            let rs = finish_spec(c, id, op, OutcomeV::Failed(reason));
            &&& rs.len() == 1
            &&& rs[0].kind == ReplyKind::Error && rs[0].id == id && rs[0].op == op
            &&& rs[0].payload is None && rs[0].error is Some
            &&& rs[0].error->0.details == Some(JsonV::Object(seq![("reason"@, JsonV::Str(reason))]))
            &&& rs[0].error->0.code == (match c {
                CallV::ComposeRequestSend(_) => "REQUEST_ERROR"@,
                CallV::RequestDetailGet(_) => "REQUEST_DETAIL_ERROR"@,
                CallV::RequestStreamSubscribe => "CACHE_ERROR"@,
                CallV::RulesSaveSet(_) => "VALIDATION_ERROR"@,
                CallV::RulesEnabledSet(_, _) => if crate::text::contains_seq(reason, "not found"@) {
                    "NOT_FOUND"@
                } else {
                    "DB_ERROR"@
                },
                CallV::RulesDelete(_) => if crate::text::contains_seq(reason, "not found"@) {
                    "NOT_FOUND"@
                } else {
                    "DB_ERROR"@
                },
                _ => "DB_ERROR"@,
            })
        }),
{
}

/// A payload that does not decode, a missing rule, a device failure and a deleted capture rule
/// are each answered by one frame to the request: `INVALID_PAYLOAD` with the decoder's reason,
/// `NOT_FOUND`, the device's own message, and `{"ruleId": id}`.
pub proof fn lemma_other_outcomes_are_reported(c: CallV, id: Seq<char>, op: Seq<char>, o: OutcomeV)
    requires
        outcome_fits(c, o),
    ensures
        ({
            let rs = finish_spec(c, id, op, o);
            &&& o matches OutcomeV::Undecodable(reason) ==> rs.len() == 1 && rs[0].kind == ReplyKind::Error
                && rs[0].id == id && rs[0].op == op && rs[0].error is Some
                && rs[0].error->0.code == "INVALID_PAYLOAD"@
                && rs[0].error->0.details == Some(JsonV::Object(seq![("reason"@, JsonV::Str(reason))]))
            &&& o is Absent ==> rs.len() == 1 && rs[0].kind == ReplyKind::Error && rs[0].id == id && rs[0].op == op
                && rs[0].error == Some(crate::frame::ErrorV { code: "NOT_FOUND"@, message: "Rule not found"@, details: None })
            &&& o matches OutcomeV::AdbFailed(m) ==> rs.len() == 1 && rs[0].kind == ReplyKind::Error
                && rs[0].id == id && rs[0].op == op && rs[0].error is Some && rs[0].error->0.message == m
                && rs[0].error->0.code == (if c is DeviceAdbInstall { "ADB_INSTALL_FAILED"@ } else { "ADB_ERROR"@ })
            &&& o matches OutcomeV::RuleDeleted(rid) ==> rs.len() == 1 && rs[0].kind == ReplyKind::Response
                && rs[0].id == id && rs[0].op == op
                && rs[0].payload == Some(JsonV::Object(seq![("ruleId"@, JsonV::Number(int_decimal(rid as int)))]))
        }),
{
}

} // verus!
