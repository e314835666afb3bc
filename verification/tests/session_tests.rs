use lynx_proxy::capture_rules::{CaptureRule, CaptureRuleKind};
use lynx_proxy::frame::WsFrame;
use lynx_proxy::json::Json;
use lynx_proxy::session::{
    begin_request, capture_rule_from_payload, finish_request, message_event_to_ws_event, on_broadcast,
    on_socket_input, BroadcastInput, CallOutcome, CaptureRuleUpsertPayload, MessageEvent, RequestStep,
    ServiceCall, SessionStep, SocketInput,
};
use lynx_proxy::settings::{recording_status_to_text, RecordingStatus};

fn frame(version: &str, kind: &str, id: &str, op: &str, payload: Option<Json>) -> WsFrame {
    WsFrame {
        version: version.to_string(),
        kind: kind.to_string(),
        id: id.to_string(),
        op: op.to_string(),
        timestamp: 1,
        payload,
        error: None,
    }
}

fn obj(entries: Vec<(&str, Json)>) -> Json {
    Json::Object(entries.into_iter().map(|(k, v)| (k.to_string(), v)).collect())
}

fn single_reply(step: RequestStep) -> WsFrame {
    match step {
        RequestStep::Reply(mut frames) => {
            assert_eq!(frames.len(), 1);
            frames.remove(0)
        }
        RequestStep::Call(_) => panic!("expected a reply"),
    }
}

fn error_code(f: &WsFrame) -> String {
    f.error.as_ref().map(|e| e.code.clone()).unwrap_or_default()
}

fn error_message(f: &WsFrame) -> String {
    f.error.as_ref().map(|e| e.message.clone()).unwrap_or_default()
}

#[test]
fn wrong_version_is_refused() {
    let mut subscribed = false;
    let f = single_reply(begin_request(frame("v2", "request", "1", "system.ping", None), &mut subscribed));
    assert_eq!(f.kind, "error");
    assert_eq!(f.id, "1");
    assert_eq!(f.op, "system.ping");
    assert_eq!(error_code(&f), "UNSUPPORTED_VERSION");
    assert_eq!(error_message(&f), "Only v1 protocol is supported");
    match f.error.unwrap().details {
        Some(Json::Object(entries)) => {
            assert_eq!(entries[0].0, "received");
            assert!(matches!(&entries[0].1, Json::Str(s) if s == "v2"));
        }
        _ => panic!("expected details"),
    }
}

#[test]
fn ping_frames_get_a_pong() {
    let mut subscribed = false;
    let f = single_reply(begin_request(frame("v1", "ping", "p", "anything", None), &mut subscribed));
    assert_eq!(f.kind, "pong");
    assert_eq!(f.id, "p");
    assert_eq!(f.op, "anything");
    assert_eq!(f.version, "v1");
    let f = single_reply(begin_request(frame("v1", "request", "q", "system.ping", None), &mut subscribed));
    assert_eq!(f.kind, "pong");
}

#[test]
fn other_kinds_and_unknown_ops_are_refused() {
    let mut subscribed = false;
    let f = single_reply(begin_request(frame("v1", "event", "1", "system.ping", None), &mut subscribed));
    assert_eq!(error_code(&f), "INVALID_FRAME_KIND");
    let f = single_reply(begin_request(frame("v1", "request", "2", "request.start", None), &mut subscribed));
    assert_eq!(error_code(&f), "UNSUPPORTED_OP");
    assert!(f.error.unwrap().details.is_none());
}

#[test]
fn missing_payload_members_are_reported() {
    let mut subscribed = false;
    let f = single_reply(begin_request(frame("v1", "request", "1", "capture.control.set", None), &mut subscribed));
    assert_eq!(error_code(&f), "INVALID_PAYLOAD");
    assert_eq!(error_message(&f), "Missing boolean payload.recording");
    let p = Some(obj(vec![("ruleId", Json::Number("4".to_string()))]));
    let f = single_reply(begin_request(frame("v1", "request", "1", "rules.enabled.set", p), &mut subscribed));
    assert_eq!(error_message(&f), "Missing payload.enabled");
    let f = single_reply(begin_request(frame("v1", "request", "1", "projects.create", None), &mut subscribed));
    assert_eq!(error_message(&f), "Missing payload");
    let p = Some(obj(vec![("id", Json::Str("a".to_string()))]));
    let f = single_reply(begin_request(frame("v1", "request", "1", "projects.create", p), &mut subscribed));
    assert_eq!(error_message(&f), "Missing payload.name");
    let p = Some(obj(vec![("serial", Json::Str(String::new()))]));
    let f = single_reply(begin_request(frame("v1", "request", "1", "device.adb.proxy.state.get", p), &mut subscribed));
    assert_eq!(error_message(&f), "serial is required");
    let f = single_reply(begin_request(frame("v1", "request", "1", "device.adb.proxy.disable", None), &mut subscribed));
    assert_eq!(error_message(&f), "Missing serial");
}

#[test]
fn requests_name_their_service() {
    let mut subscribed = false;
    let p = Some(obj(vec![("ruleId", Json::Number("7".to_string())), ("enabled", Json::Bool(false))]));
    match begin_request(frame("v1", "request", "9", "rules.enabled.set", p), &mut subscribed) {
        RequestStep::Call(pending) => {
            assert_eq!(pending.id, "9");
            assert_eq!(pending.op, "rules.enabled.set");
            assert!(matches!(pending.call, ServiceCall::RulesEnabledSet(7, false)));
        }
        RequestStep::Reply(_) => panic!("expected a call"),
    }
    match begin_request(frame("v1", "request", "9", "rules.list.get", None), &mut subscribed) {
        RequestStep::Call(pending) => assert!(matches!(pending.call, ServiceCall::RulesListGet(None))),
        RequestStep::Reply(_) => panic!("expected a call"),
    }
    match begin_request(frame("v1", "request", "9", "capture.rules.ignore.list.get", None), &mut subscribed) {
        RequestStep::Call(pending) => {
            assert!(matches!(pending.call, ServiceCall::CaptureRulesList(CaptureRuleKind::Ignore)))
        }
        RequestStep::Reply(_) => panic!("expected a call"),
    }
    assert!(!subscribed);
}

#[test]
fn subscription_follows_subscribe_and_unsubscribe() {
    let mut subscribed = false;
    match begin_request(frame("v1", "request", "1", "request.stream.subscribe", None), &mut subscribed) {
        RequestStep::Call(pending) => assert!(matches!(pending.call, ServiceCall::RequestStreamSubscribe)),
        RequestStep::Reply(_) => panic!("expected a call"),
    }
    assert!(subscribed);
    let f = single_reply(begin_request(frame("v1", "request", "2", "request.stream.unsubscribe", None), &mut subscribed));
    assert!(!subscribed);
    assert_eq!(f.kind, "response");
    assert!(matches!(f.payload, Some(Json::Object(ref e)) if e[0].0 == "subscribed" && matches!(e[0].1, Json::Bool(false))));
}

fn pending(call: ServiceCall) -> lynx_proxy::session::PendingCall {
    lynx_proxy::session::PendingCall { id: "r1".to_string(), op: "some.op".to_string(), call }
}

#[test]
fn outcomes_become_frames() {
    let frames = finish_request(pending(ServiceCall::RulesDelete(5)), CallOutcome::Done(Json::Null));
    assert_eq!(frames.len(), 1);
    assert_eq!(frames[0].kind, "response");
    assert_eq!(frames[0].id, "r1");
    match &frames[0].payload {
        Some(Json::Object(e)) => {
            assert_eq!(e[0].0, "ruleId");
            assert!(matches!(&e[0].1, Json::Number(n) if n == "5"));
        }
        _ => panic!("expected an object"),
    }

    let frames = finish_request(
        pending(ServiceCall::RulesDelete(5)),
        CallOutcome::Failed("Rule 5 not found".to_string()),
    );
    assert_eq!(error_code(&frames[0]), "NOT_FOUND");
    assert_eq!(error_message(&frames[0]), "Failed to delete rule");
    let frames = finish_request(pending(ServiceCall::RulesDelete(5)), CallOutcome::Failed("disk full".to_string()));
    assert_eq!(error_code(&frames[0]), "DB_ERROR");

    let frames = finish_request(pending(ServiceCall::RulesGet(5)), CallOutcome::Absent);
    assert_eq!(error_code(&frames[0]), "NOT_FOUND");
    assert_eq!(error_message(&frames[0]), "Rule not found");

    let frames = finish_request(
        pending(ServiceCall::RulesSaveSet(Json::Null)),
        CallOutcome::Undecodable("missing field".to_string()),
    );
    assert_eq!(error_code(&frames[0]), "INVALID_PAYLOAD");
    assert_eq!(error_message(&frames[0]), "Failed to parse rule");

    let frames = finish_request(pending(ServiceCall::DeviceAdbInstall), CallOutcome::AdbFailed("no adb".to_string()));
    assert_eq!(error_code(&frames[0]), "ADB_INSTALL_FAILED");
    assert_eq!(error_message(&frames[0]), "no adb");
}

#[test]
fn capture_control_announces_the_new_status() {
    let call = ServiceCall::CaptureControlSet(false);
    let outcome = CallOutcome::Recording(RecordingStatus::PauseRecording);
    assert!(call.accepts(&outcome));
    assert!(!call.accepts(&CallOutcome::Absent));
    let frames = finish_request(pending(call), outcome);
    assert_eq!(frames.len(), 2);
    assert_eq!(frames[0].kind, "response");
    assert_eq!(frames[1].kind, "event");
    assert_eq!(frames[1].op, "capture.status.changed");
    assert!(frames[1].id.starts_with("evt-"));
    match &frames[1].payload {
        Some(Json::Object(e)) => assert!(matches!(&e[0].1, Json::Str(s) if s == "paused")),
        _ => panic!("expected an object"),
    }
    assert_eq!(recording_status_to_text(&RecordingStatus::StartRecording), "recording");
}

#[test]
fn proxy_events_reach_subscribers_only() {
    let event = MessageEvent::OnRequestBody("t1".to_string(), Some(b"hi".to_vec()));
    let f = message_event_to_ws_event(event).unwrap();
    assert_eq!(f.kind, "event");
    assert_eq!(f.op, "request.body");
    match &f.payload {
        Some(Json::Object(e)) => {
            assert_eq!(e[0].0, "traceId");
            assert_eq!(e[1].0, "data");
            assert!(matches!(&e[1].1, Json::Str(s) if s == "aGk="));
        }
        _ => panic!("expected an object"),
    }
    assert!(message_event_to_ws_event(MessageEvent::OnTunnelStart("t".to_string())).is_none());
    let step = on_broadcast(BroadcastInput::Event(MessageEvent::OnProxyEnd("t".to_string())), false);
    assert!(matches!(step, SessionStep::Idle));
    let step = on_broadcast(BroadcastInput::Event(MessageEvent::OnProxyEnd("t".to_string())), true);
    match step {
        SessionStep::Send(frames) => assert_eq!(frames[0].op, "response.end"),
        _ => panic!("expected frames"),
    }
    assert!(matches!(on_broadcast(BroadcastInput::Closed, true), SessionStep::Stop));
}

#[test]
fn socket_inputs_drive_the_session() {
    let mut subscribed = true;
    match on_socket_input(SocketInput::Malformed, &mut subscribed) {
        SessionStep::Send(frames) => {
            assert_eq!(frames[0].id, "invalid");
            assert_eq!(frames[0].op, "system.error");
            assert_eq!(error_code(&frames[0]), "INVALID_JSON");
        }
        _ => panic!("expected frames"),
    }
    assert!(matches!(on_socket_input(SocketInput::Ping(vec![1, 2]), &mut subscribed), SessionStep::Pong(d) if d == vec![1, 2]));
    assert!(matches!(on_socket_input(SocketInput::Close, &mut subscribed), SessionStep::Stop));
    assert!(subscribed);
}

#[test]
fn upsert_payload_becomes_a_capture_rule() {
    let rule: CaptureRule = capture_rule_from_payload(CaptureRuleUpsertPayload {
        id: None,
        name: "n".to_string(),
        enabled: true,
        match_expr: "example.com".to_string(),
    });
    assert_eq!(rule.id, 0);
    assert_eq!(rule.created_at, 0);
    assert_eq!(rule.updated_at, 0);
    assert_eq!(rule.match_expr, "example.com");
}

#[test]
fn toggling_a_missing_rule_is_not_found() {
    let frames = finish_request(
        pending(ServiceCall::RulesEnabledSet(12, true)),
        CallOutcome::Failed(lynx_proxy::request_rules::rule_not_found_message(12)),
    );
    assert_eq!(frames.len(), 1);
    assert_eq!(error_code(&frames[0]), "NOT_FOUND");
    assert_eq!(error_message(&frames[0]), "Failed to update rule enabled state");
}
