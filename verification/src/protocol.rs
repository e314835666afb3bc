//! Version 1 of the message-events WebSocket protocol: frame kinds and operation names.
use vstd::prelude::*;
use crate::text::str_eq;

verus! {

/// The protocol version that this server speaks.
pub const WS_VERSION: &'static str = "v1";
/// The address of the message-events channel.
pub const WS_CHANNEL_ADDRESS: &'static str = "/api/net_request/ws/message-events";

/// Frame kind of a client request.
pub const FRAME_KIND_REQUEST: &'static str = "request";
/// Frame kind of a server response.
pub const FRAME_KIND_RESPONSE: &'static str = "response";
/// Frame kind of a server event.
pub const FRAME_KIND_EVENT: &'static str = "event";
/// Frame kind of an error reply.
pub const FRAME_KIND_ERROR: &'static str = "error";
/// Frame kind of a keep-alive probe.
pub const FRAME_KIND_PING: &'static str = "ping";
/// Frame kind of a keep-alive answer.
pub const FRAME_KIND_PONG: &'static str = "pong";

/// An operation that a client may request.
#[derive(Clone, Copy, PartialEq, Eq, Debug)]
pub enum RequestOp {
    SystemPing,
    CaptureStatusGet,
    CaptureControlSet,
    RequestDetailGet,
    RequestStreamSubscribe,
    RequestStreamUnsubscribe,
    ComposeRequestSend,
    SettingsGeneralGet,
    SettingsGeneralSet,
    SettingsCaptureFilterGet,
    SettingsCaptureFilterSet,
    SettingsCertificatePathGet,
    RulesListGet,
    RulesGet,
    RulesSaveSet,
    RulesEnabledSet,
    RulesDelete,
    RulesTemplatesGet,
    ProjectsListGet,
    ProjectsActiveSet,
    ProjectsCreate,
    ProjectsRename,
    ProjectsDelete,
    ProjectsEnabledSet,
    CaptureRulesFocusListGet,
    CaptureRulesIgnoreListGet,
    CaptureRulesFocusUpsert,
    CaptureRulesIgnoreUpsert,
    CaptureRulesFocusDelete,
    CaptureRulesIgnoreDelete,
    CaptureRulesFocusEnabledSet,
    CaptureRulesIgnoreEnabledSet,
    DeviceAdbStatusGet,
    DeviceAdbInstall,
    DeviceAdbInstallProgressGet,
    DeviceAdbDevicesList,
    DeviceAdbProxyStateGet,
    DeviceAdbProxyEnable,
    DeviceAdbProxyDisable,
    NetworkTrafficFilterHistoryGet,
    NetworkTrafficFilterHistoryAppend,
    NetworkTrafficFilterHistoryClear,
}

/// An operation that the server announces as an event.
#[derive(Clone, Copy, PartialEq, Eq, Debug)]
pub enum EventOp {
    CaptureStatusChanged,
    RequestStart,
    RequestBody,
    RequestEnd,
    ResponseStart,
    ResponseBody,
    ResponseEnd,
    WebsocketMessage,
    WebsocketError,
    WebsocketEnd,
    SystemError,
}

/// The wire name of a request operation.
pub open spec fn request_op_name(o: RequestOp) -> Seq<char> {
    match o {
        RequestOp::SystemPing => "system.ping"@,
        RequestOp::CaptureStatusGet => "capture.status.get"@,
        RequestOp::CaptureControlSet => "capture.control.set"@,
        RequestOp::RequestDetailGet => "request.detail.get"@,
        RequestOp::RequestStreamSubscribe => "request.stream.subscribe"@,
        RequestOp::RequestStreamUnsubscribe => "request.stream.unsubscribe"@,
        RequestOp::ComposeRequestSend => "compose.request.send"@,
        RequestOp::SettingsGeneralGet => "settings.general.get"@,
        RequestOp::SettingsGeneralSet => "settings.general.set"@,
        RequestOp::SettingsCaptureFilterGet => "settings.captureFilter.get"@,
        RequestOp::SettingsCaptureFilterSet => "settings.captureFilter.set"@,
        RequestOp::SettingsCertificatePathGet => "settings.certificate.path.get"@,
        RequestOp::RulesListGet => "rules.list.get"@,
        RequestOp::RulesGet => "rules.get"@,
        RequestOp::RulesSaveSet => "rules.save.set"@,
        RequestOp::RulesEnabledSet => "rules.enabled.set"@,
        RequestOp::RulesDelete => "rules.delete"@,
        RequestOp::RulesTemplatesGet => "rules.templates.get"@,
        RequestOp::ProjectsListGet => "projects.list.get"@,
        RequestOp::ProjectsActiveSet => "projects.active.set"@,
        RequestOp::ProjectsCreate => "projects.create"@,
        RequestOp::ProjectsRename => "projects.rename"@,
        RequestOp::ProjectsDelete => "projects.delete"@,
        RequestOp::ProjectsEnabledSet => "projects.enabled.set"@,
        RequestOp::CaptureRulesFocusListGet => "capture.rules.focus.list.get"@,
        RequestOp::CaptureRulesIgnoreListGet => "capture.rules.ignore.list.get"@,
        RequestOp::CaptureRulesFocusUpsert => "capture.rules.focus.upsert"@,
        RequestOp::CaptureRulesIgnoreUpsert => "capture.rules.ignore.upsert"@,
        RequestOp::CaptureRulesFocusDelete => "capture.rules.focus.delete"@,
        RequestOp::CaptureRulesIgnoreDelete => "capture.rules.ignore.delete"@,
        RequestOp::CaptureRulesFocusEnabledSet => "capture.rules.focus.enabled.set"@,
        RequestOp::CaptureRulesIgnoreEnabledSet => "capture.rules.ignore.enabled.set"@,
        RequestOp::DeviceAdbStatusGet => "device.adb.status.get"@,
        RequestOp::DeviceAdbInstall => "device.adb.install"@,
        RequestOp::DeviceAdbInstallProgressGet => "device.adb.install.progress.get"@,
        RequestOp::DeviceAdbDevicesList => "device.adb.devices.list"@,
        RequestOp::DeviceAdbProxyStateGet => "device.adb.proxy.state.get"@,
        RequestOp::DeviceAdbProxyEnable => "device.adb.proxy.enable"@,
        RequestOp::DeviceAdbProxyDisable => "device.adb.proxy.disable"@,
        RequestOp::NetworkTrafficFilterHistoryGet => "network.trafficFilter.history.get"@,
        RequestOp::NetworkTrafficFilterHistoryAppend => "network.trafficFilter.history.append"@,
        RequestOp::NetworkTrafficFilterHistoryClear => "network.trafficFilter.history.clear"@,
    }
}

/// The wire name of an event operation.
pub open spec fn event_op_name(o: EventOp) -> Seq<char> {
    match o {
        EventOp::CaptureStatusChanged => "capture.status.changed"@,
        EventOp::RequestStart => "request.start"@,
        EventOp::RequestBody => "request.body"@,
        EventOp::RequestEnd => "request.end"@,
        EventOp::ResponseStart => "response.start"@,
        EventOp::ResponseBody => "response.body"@,
        EventOp::ResponseEnd => "response.end"@,
        EventOp::WebsocketMessage => "websocket.message"@,
        EventOp::WebsocketError => "websocket.error"@,
        EventOp::WebsocketEnd => "websocket.end"@,
        EventOp::SystemError => "system.error"@,
    }
}

impl RequestOp {
    /// The wire name.
    pub fn name(&self) -> (r: &'static str)
        ensures
            r@ == request_op_name(*self),
    {
        match self {
            RequestOp::SystemPing => "system.ping",
            RequestOp::CaptureStatusGet => "capture.status.get",
            RequestOp::CaptureControlSet => "capture.control.set",
            RequestOp::RequestDetailGet => "request.detail.get",
            RequestOp::RequestStreamSubscribe => "request.stream.subscribe",
            RequestOp::RequestStreamUnsubscribe => "request.stream.unsubscribe",
            RequestOp::ComposeRequestSend => "compose.request.send",
            RequestOp::SettingsGeneralGet => "settings.general.get",
            RequestOp::SettingsGeneralSet => "settings.general.set",
            RequestOp::SettingsCaptureFilterGet => "settings.captureFilter.get",
            RequestOp::SettingsCaptureFilterSet => "settings.captureFilter.set",
            RequestOp::SettingsCertificatePathGet => "settings.certificate.path.get",
            RequestOp::RulesListGet => "rules.list.get",
            RequestOp::RulesGet => "rules.get",
            RequestOp::RulesSaveSet => "rules.save.set",
            RequestOp::RulesEnabledSet => "rules.enabled.set",
            RequestOp::RulesDelete => "rules.delete",
            RequestOp::RulesTemplatesGet => "rules.templates.get",
            RequestOp::ProjectsListGet => "projects.list.get",
            RequestOp::ProjectsActiveSet => "projects.active.set",
            RequestOp::ProjectsCreate => "projects.create",
            RequestOp::ProjectsRename => "projects.rename",
            RequestOp::ProjectsDelete => "projects.delete",
            RequestOp::ProjectsEnabledSet => "projects.enabled.set",
            RequestOp::CaptureRulesFocusListGet => "capture.rules.focus.list.get",
            RequestOp::CaptureRulesIgnoreListGet => "capture.rules.ignore.list.get",
            RequestOp::CaptureRulesFocusUpsert => "capture.rules.focus.upsert",
            RequestOp::CaptureRulesIgnoreUpsert => "capture.rules.ignore.upsert",
            RequestOp::CaptureRulesFocusDelete => "capture.rules.focus.delete",
            RequestOp::CaptureRulesIgnoreDelete => "capture.rules.ignore.delete",
            RequestOp::CaptureRulesFocusEnabledSet => "capture.rules.focus.enabled.set",
            RequestOp::CaptureRulesIgnoreEnabledSet => "capture.rules.ignore.enabled.set",
            RequestOp::DeviceAdbStatusGet => "device.adb.status.get",
            RequestOp::DeviceAdbInstall => "device.adb.install",
            RequestOp::DeviceAdbInstallProgressGet => "device.adb.install.progress.get",
            RequestOp::DeviceAdbDevicesList => "device.adb.devices.list",
            RequestOp::DeviceAdbProxyStateGet => "device.adb.proxy.state.get",
            RequestOp::DeviceAdbProxyEnable => "device.adb.proxy.enable",
            RequestOp::DeviceAdbProxyDisable => "device.adb.proxy.disable",
            RequestOp::NetworkTrafficFilterHistoryGet => "network.trafficFilter.history.get",
            RequestOp::NetworkTrafficFilterHistoryAppend => "network.trafficFilter.history.append",
            RequestOp::NetworkTrafficFilterHistoryClear => "network.trafficFilter.history.clear",
        }
    }
}

impl EventOp {
    /// The wire name.
    pub fn name(&self) -> (r: &'static str)
        ensures
            r@ == event_op_name(*self),
    {
        match self {
            EventOp::CaptureStatusChanged => "capture.status.changed",
            EventOp::RequestStart => "request.start",
            EventOp::RequestBody => "request.body",
            EventOp::RequestEnd => "request.end",
            EventOp::ResponseStart => "response.start",
            EventOp::ResponseBody => "response.body",
            EventOp::ResponseEnd => "response.end",
            EventOp::WebsocketMessage => "websocket.message",
            EventOp::WebsocketError => "websocket.error",
            EventOp::WebsocketEnd => "websocket.end",
            EventOp::SystemError => "system.error",
        }
    }
}

/// The operation that a wire name denotes, if any.
pub open spec fn request_op_named(s: Seq<char>) -> Option<RequestOp> {
    if s == "system.ping"@ {
        Some(RequestOp::SystemPing)
    } else if s == "capture.status.get"@ {
        Some(RequestOp::CaptureStatusGet)
    } else if s == "capture.control.set"@ {
        Some(RequestOp::CaptureControlSet)
    } else if s == "request.detail.get"@ {
        Some(RequestOp::RequestDetailGet)
    } else if s == "request.stream.subscribe"@ {
        Some(RequestOp::RequestStreamSubscribe)
    } else if s == "request.stream.unsubscribe"@ {
        Some(RequestOp::RequestStreamUnsubscribe)
    } else if s == "compose.request.send"@ {
        Some(RequestOp::ComposeRequestSend)
    } else if s == "settings.general.get"@ {
        Some(RequestOp::SettingsGeneralGet)
    } else if s == "settings.general.set"@ {
        Some(RequestOp::SettingsGeneralSet)
    } else if s == "settings.captureFilter.get"@ {
        Some(RequestOp::SettingsCaptureFilterGet)
    } else if s == "settings.captureFilter.set"@ {
        Some(RequestOp::SettingsCaptureFilterSet)
    } else if s == "settings.certificate.path.get"@ {
        Some(RequestOp::SettingsCertificatePathGet)
    } else if s == "rules.list.get"@ {
        Some(RequestOp::RulesListGet)
    } else if s == "rules.get"@ {
        Some(RequestOp::RulesGet)
    } else if s == "rules.save.set"@ {
        Some(RequestOp::RulesSaveSet)
    } else if s == "rules.enabled.set"@ {
        Some(RequestOp::RulesEnabledSet)
    } else if s == "rules.delete"@ {
        Some(RequestOp::RulesDelete)
    } else if s == "rules.templates.get"@ {
        Some(RequestOp::RulesTemplatesGet)
    } else if s == "projects.list.get"@ {
        Some(RequestOp::ProjectsListGet)
    } else if s == "projects.active.set"@ {
        Some(RequestOp::ProjectsActiveSet)
    } else if s == "projects.create"@ {
        Some(RequestOp::ProjectsCreate)
    } else if s == "projects.rename"@ {
        Some(RequestOp::ProjectsRename)
    } else if s == "projects.delete"@ {
        Some(RequestOp::ProjectsDelete)
    } else if s == "projects.enabled.set"@ {
        Some(RequestOp::ProjectsEnabledSet)
    } else if s == "capture.rules.focus.list.get"@ {
        Some(RequestOp::CaptureRulesFocusListGet)
    } else if s == "capture.rules.ignore.list.get"@ {
        Some(RequestOp::CaptureRulesIgnoreListGet)
    } else if s == "capture.rules.focus.upsert"@ {
        Some(RequestOp::CaptureRulesFocusUpsert)
    } else if s == "capture.rules.ignore.upsert"@ {
        Some(RequestOp::CaptureRulesIgnoreUpsert)
    } else if s == "capture.rules.focus.delete"@ {
        Some(RequestOp::CaptureRulesFocusDelete)
    } else if s == "capture.rules.ignore.delete"@ {
        Some(RequestOp::CaptureRulesIgnoreDelete)
    } else if s == "capture.rules.focus.enabled.set"@ {
        Some(RequestOp::CaptureRulesFocusEnabledSet)
    } else if s == "capture.rules.ignore.enabled.set"@ {
        Some(RequestOp::CaptureRulesIgnoreEnabledSet)
    } else if s == "device.adb.status.get"@ {
        Some(RequestOp::DeviceAdbStatusGet)
    } else if s == "device.adb.install"@ {
        Some(RequestOp::DeviceAdbInstall)
    } else if s == "device.adb.install.progress.get"@ {
        Some(RequestOp::DeviceAdbInstallProgressGet)
    } else if s == "device.adb.devices.list"@ {
        Some(RequestOp::DeviceAdbDevicesList)
    } else if s == "device.adb.proxy.state.get"@ {
        Some(RequestOp::DeviceAdbProxyStateGet)
    } else if s == "device.adb.proxy.enable"@ {
        Some(RequestOp::DeviceAdbProxyEnable)
    } else if s == "device.adb.proxy.disable"@ {
        Some(RequestOp::DeviceAdbProxyDisable)
    } else if s == "network.trafficFilter.history.get"@ {
        Some(RequestOp::NetworkTrafficFilterHistoryGet)
    } else if s == "network.trafficFilter.history.append"@ {
        Some(RequestOp::NetworkTrafficFilterHistoryAppend)
    } else if s == "network.trafficFilter.history.clear"@ {
        Some(RequestOp::NetworkTrafficFilterHistoryClear)
    } else {
        None
    }
}

/// The operation that a wire name denotes, if any.
pub open spec fn event_op_named(s: Seq<char>) -> Option<EventOp> {
    if s == "capture.status.changed"@ {
        Some(EventOp::CaptureStatusChanged)
    } else if s == "request.start"@ {
        Some(EventOp::RequestStart)
    } else if s == "request.body"@ {
        Some(EventOp::RequestBody)
    } else if s == "request.end"@ {
        Some(EventOp::RequestEnd)
    } else if s == "response.start"@ {
        Some(EventOp::ResponseStart)
    } else if s == "response.body"@ {
        Some(EventOp::ResponseBody)
    } else if s == "response.end"@ {
        Some(EventOp::ResponseEnd)
    } else if s == "websocket.message"@ {
        Some(EventOp::WebsocketMessage)
    } else if s == "websocket.error"@ {
        Some(EventOp::WebsocketError)
    } else if s == "websocket.end"@ {
        Some(EventOp::WebsocketEnd)
    } else if s == "system.error"@ {
        Some(EventOp::SystemError)
    } else {
        None
    }
}

/// Recognises the wire name of a request operation.
pub fn parse_request_op(op: &str) -> (r: Option<RequestOp>)
    ensures
        r == request_op_named(op@),
        match r {
            Some(o) => request_op_name(o) == op@,
            None => forall|o: RequestOp| request_op_name(o) != op@,
        },
{
    if str_eq(op, "system.ping") {
        return Some(RequestOp::SystemPing);
    }
    if str_eq(op, "capture.status.get") {
        return Some(RequestOp::CaptureStatusGet);
    }
    if str_eq(op, "capture.control.set") {
        return Some(RequestOp::CaptureControlSet);
    }
    if str_eq(op, "request.detail.get") {
        return Some(RequestOp::RequestDetailGet);
    }
    if str_eq(op, "request.stream.subscribe") {
        return Some(RequestOp::RequestStreamSubscribe);
    }
    if str_eq(op, "request.stream.unsubscribe") {
        return Some(RequestOp::RequestStreamUnsubscribe);
    }
    if str_eq(op, "compose.request.send") {
        return Some(RequestOp::ComposeRequestSend);
    }
    if str_eq(op, "settings.general.get") {
        return Some(RequestOp::SettingsGeneralGet);
    }
    if str_eq(op, "settings.general.set") {
        return Some(RequestOp::SettingsGeneralSet);
    }
    if str_eq(op, "settings.captureFilter.get") {
        return Some(RequestOp::SettingsCaptureFilterGet);
    }
    if str_eq(op, "settings.captureFilter.set") {
        return Some(RequestOp::SettingsCaptureFilterSet);
    }
    if str_eq(op, "settings.certificate.path.get") {
        return Some(RequestOp::SettingsCertificatePathGet);
    }
    if str_eq(op, "rules.list.get") {
        return Some(RequestOp::RulesListGet);
    }
    if str_eq(op, "rules.get") {
        return Some(RequestOp::RulesGet);
    }
    if str_eq(op, "rules.save.set") {
        return Some(RequestOp::RulesSaveSet);
    }
    if str_eq(op, "rules.enabled.set") {
        return Some(RequestOp::RulesEnabledSet);
    }
    if str_eq(op, "rules.delete") {
        return Some(RequestOp::RulesDelete);
    }
    if str_eq(op, "rules.templates.get") {
        return Some(RequestOp::RulesTemplatesGet);
    }
    if str_eq(op, "projects.list.get") {
        return Some(RequestOp::ProjectsListGet);
    }
    if str_eq(op, "projects.active.set") {
        return Some(RequestOp::ProjectsActiveSet);
    }
    if str_eq(op, "projects.create") {
        return Some(RequestOp::ProjectsCreate);
    }
    if str_eq(op, "projects.rename") {
        return Some(RequestOp::ProjectsRename);
    }
    if str_eq(op, "projects.delete") {
        return Some(RequestOp::ProjectsDelete);
    }
    if str_eq(op, "projects.enabled.set") {
        return Some(RequestOp::ProjectsEnabledSet);
    }
    if str_eq(op, "capture.rules.focus.list.get") {
        return Some(RequestOp::CaptureRulesFocusListGet);
    }
    if str_eq(op, "capture.rules.ignore.list.get") {
        return Some(RequestOp::CaptureRulesIgnoreListGet);
    }
    if str_eq(op, "capture.rules.focus.upsert") {
        return Some(RequestOp::CaptureRulesFocusUpsert);
    }
    if str_eq(op, "capture.rules.ignore.upsert") {
        return Some(RequestOp::CaptureRulesIgnoreUpsert);
    }
    if str_eq(op, "capture.rules.focus.delete") {
        return Some(RequestOp::CaptureRulesFocusDelete);
    }
    if str_eq(op, "capture.rules.ignore.delete") {
        return Some(RequestOp::CaptureRulesIgnoreDelete);
    }
    if str_eq(op, "capture.rules.focus.enabled.set") {
        return Some(RequestOp::CaptureRulesFocusEnabledSet);
    }
    if str_eq(op, "capture.rules.ignore.enabled.set") {
        return Some(RequestOp::CaptureRulesIgnoreEnabledSet);
    }
    if str_eq(op, "device.adb.status.get") {
        return Some(RequestOp::DeviceAdbStatusGet);
    }
    if str_eq(op, "device.adb.install") {
        return Some(RequestOp::DeviceAdbInstall);
    }
    if str_eq(op, "device.adb.install.progress.get") {
        return Some(RequestOp::DeviceAdbInstallProgressGet);
    }
    if str_eq(op, "device.adb.devices.list") {
        return Some(RequestOp::DeviceAdbDevicesList);
    }
    if str_eq(op, "device.adb.proxy.state.get") {
        return Some(RequestOp::DeviceAdbProxyStateGet);
    }
    if str_eq(op, "device.adb.proxy.enable") {
        return Some(RequestOp::DeviceAdbProxyEnable);
    }
    if str_eq(op, "device.adb.proxy.disable") {
        return Some(RequestOp::DeviceAdbProxyDisable);
    }
    if str_eq(op, "network.trafficFilter.history.get") {
        return Some(RequestOp::NetworkTrafficFilterHistoryGet);
    }
    if str_eq(op, "network.trafficFilter.history.append") {
        return Some(RequestOp::NetworkTrafficFilterHistoryAppend);
    }
    if str_eq(op, "network.trafficFilter.history.clear") {
        return Some(RequestOp::NetworkTrafficFilterHistoryClear);
    }
    assert forall|o: RequestOp| request_op_name(o) != op@ by {
        match o {
            RequestOp::SystemPing => {},
            RequestOp::CaptureStatusGet => {},
            RequestOp::CaptureControlSet => {},
            RequestOp::RequestDetailGet => {},
            RequestOp::RequestStreamSubscribe => {},
            RequestOp::RequestStreamUnsubscribe => {},
            RequestOp::ComposeRequestSend => {},
            RequestOp::SettingsGeneralGet => {},
            RequestOp::SettingsGeneralSet => {},
            RequestOp::SettingsCaptureFilterGet => {},
            RequestOp::SettingsCaptureFilterSet => {},
            RequestOp::SettingsCertificatePathGet => {},
            RequestOp::RulesListGet => {},
            RequestOp::RulesGet => {},
            RequestOp::RulesSaveSet => {},
            RequestOp::RulesEnabledSet => {},
            RequestOp::RulesDelete => {},
            RequestOp::RulesTemplatesGet => {},
            RequestOp::ProjectsListGet => {},
            RequestOp::ProjectsActiveSet => {},
            RequestOp::ProjectsCreate => {},
            RequestOp::ProjectsRename => {},
            RequestOp::ProjectsDelete => {},
            RequestOp::ProjectsEnabledSet => {},
            RequestOp::CaptureRulesFocusListGet => {},
            RequestOp::CaptureRulesIgnoreListGet => {},
            RequestOp::CaptureRulesFocusUpsert => {},
            RequestOp::CaptureRulesIgnoreUpsert => {},
            RequestOp::CaptureRulesFocusDelete => {},
            RequestOp::CaptureRulesIgnoreDelete => {},
            RequestOp::CaptureRulesFocusEnabledSet => {},
            RequestOp::CaptureRulesIgnoreEnabledSet => {},
            RequestOp::DeviceAdbStatusGet => {},
            RequestOp::DeviceAdbInstall => {},
            RequestOp::DeviceAdbInstallProgressGet => {},
            RequestOp::DeviceAdbDevicesList => {},
            RequestOp::DeviceAdbProxyStateGet => {},
            RequestOp::DeviceAdbProxyEnable => {},
            RequestOp::DeviceAdbProxyDisable => {},
            RequestOp::NetworkTrafficFilterHistoryGet => {},
            RequestOp::NetworkTrafficFilterHistoryAppend => {},
            RequestOp::NetworkTrafficFilterHistoryClear => {},
        }
    }
    None
}

/// Recognises the wire name of an event operation.
pub fn parse_event_op(op: &str) -> (r: Option<EventOp>)
    ensures
        r == event_op_named(op@),
        match r {
            Some(o) => event_op_name(o) == op@,
            None => forall|o: EventOp| event_op_name(o) != op@,
        },
{
    if str_eq(op, "capture.status.changed") {
        return Some(EventOp::CaptureStatusChanged);
    }
    if str_eq(op, "request.start") {
        return Some(EventOp::RequestStart);
    }
    if str_eq(op, "request.body") {
        return Some(EventOp::RequestBody);
    }
    if str_eq(op, "request.end") {
        return Some(EventOp::RequestEnd);
    }
    if str_eq(op, "response.start") {
        return Some(EventOp::ResponseStart);
    }
    if str_eq(op, "response.body") {
        return Some(EventOp::ResponseBody);
    }
    if str_eq(op, "response.end") {
        return Some(EventOp::ResponseEnd);
    }
    if str_eq(op, "websocket.message") {
        return Some(EventOp::WebsocketMessage);
    }
    if str_eq(op, "websocket.error") {
        return Some(EventOp::WebsocketError);
    }
    if str_eq(op, "websocket.end") {
        return Some(EventOp::WebsocketEnd);
    }
    if str_eq(op, "system.error") {
        return Some(EventOp::SystemError);
    }
    assert forall|o: EventOp| event_op_name(o) != op@ by {
        match o {
            EventOp::CaptureStatusChanged => {},
            EventOp::RequestStart => {},
            EventOp::RequestBody => {},
            EventOp::RequestEnd => {},
            EventOp::ResponseStart => {},
            EventOp::ResponseBody => {},
            EventOp::ResponseEnd => {},
            EventOp::WebsocketMessage => {},
            EventOp::WebsocketError => {},
            EventOp::WebsocketEnd => {},
            EventOp::SystemError => {},
        }
    }
    None
}
/// The wire names of all request operations.
pub open spec fn is_request_name(op: Seq<char>) -> bool {
    exists|o: RequestOp| request_op_name(o) == op
}

/// The wire names of all event operations.
pub open spec fn is_event_name(op: Seq<char>) -> bool {
    exists|o: EventOp| event_op_name(o) == op
}

/// Whether `op` names an operation that a client may request.
pub fn is_request_op(op: &str) -> (r: bool)
    ensures
        r == is_request_name(op@),
{
    match parse_request_op(op) {
        Some(_) => true,
        None => false,
    }
}

/// Whether `op` names an operation that the server announces as an event.
pub fn is_event_op(op: &str) -> (r: bool)
    ensures
        r == is_event_name(op@),
{
    match parse_event_op(op) {
        Some(_) => true,
        None => false,
    }
}

} // verus!

verus! {

/// Three features of a wire name that tell all operation names apart: its length and its
/// third and sixth characters from the end.
pub open spec fn name_key(s: Seq<char>) -> (int, char, char) {
    (s.len() as int, s[s.len() - 3], s[s.len() - 6])
}

/// The features of every operation name, written out.
proof fn lemma_name_keys()
    ensures
        name_key("system.ping"@) == (11int, 'i', 'm'),
        name_key("capture.status.get"@) == (18int, 'g', 'u'),
        name_key("capture.control.set"@) == (19int, 's', 'o'),
        name_key("request.detail.get"@) == (18int, 'g', 'i'),
        name_key("request.stream.subscribe"@) == (24int, 'i', 's'),
        name_key("request.stream.unsubscribe"@) == (26int, 'i', 's'),
        name_key("compose.request.send"@) == (20int, 'e', 't'),
        name_key("settings.general.get"@) == (20int, 'g', 'a'),
        name_key("settings.general.set"@) == (20int, 's', 'a'),
        name_key("settings.captureFilter.get"@) == (26int, 'g', 'e'),
        name_key("settings.captureFilter.set"@) == (26int, 's', 'e'),
        name_key("settings.certificate.path.get"@) == (29int, 'g', 't'),
        name_key("rules.list.get"@) == (14int, 'g', 's'),
        name_key("rules.get"@) == (9int, 'g', 'e'),
        name_key("rules.save.set"@) == (14int, 's', 'v'),
        name_key("rules.enabled.set"@) == (17int, 's', 'e'),
        name_key("rules.delete"@) == (12int, 'e', 'd'),
        name_key("rules.templates.get"@) == (19int, 'g', 'e'),
        name_key("projects.list.get"@) == (17int, 'g', 's'),
        name_key("projects.active.set"@) == (19int, 's', 'v'),
        name_key("projects.create"@) == (15int, 'a', 'c'),
        name_key("projects.rename"@) == (15int, 'a', 'r'),
        name_key("projects.delete"@) == (15int, 'e', 'd'),
        name_key("projects.enabled.set"@) == (20int, 's', 'e'),
        name_key("capture.rules.focus.list.get"@) == (28int, 'g', 's'),
        name_key("capture.rules.ignore.list.get"@) == (29int, 'g', 's'),
        name_key("capture.rules.focus.upsert"@) == (26int, 'e', 'u'),
        name_key("capture.rules.ignore.upsert"@) == (27int, 'e', 'u'),
        name_key("capture.rules.focus.delete"@) == (26int, 'e', 'd'),
        name_key("capture.rules.ignore.delete"@) == (27int, 'e', 'd'),
        name_key("capture.rules.focus.enabled.set"@) == (31int, 's', 'e'),
        name_key("capture.rules.ignore.enabled.set"@) == (32int, 's', 'e'),
        name_key("device.adb.status.get"@) == (21int, 'g', 'u'),
        name_key("device.adb.install"@) == (18int, 'a', 'n'),
        name_key("device.adb.install.progress.get"@) == (31int, 'g', 's'),
        name_key("device.adb.devices.list"@) == (23int, 'i', 's'),
        name_key("device.adb.proxy.state.get"@) == (26int, 'g', 't'),
        name_key("device.adb.proxy.enable"@) == (23int, 'b', 'e'),
        name_key("device.adb.proxy.disable"@) == (24int, 'b', 'i'),
        name_key("network.trafficFilter.history.get"@) == (33int, 'g', 'r'),
        name_key("network.trafficFilter.history.append"@) == (36int, 'e', 'a'),
        name_key("network.trafficFilter.history.clear"@) == (35int, 'e', '.'),
        name_key("capture.status.changed"@) == (22int, 'g', 'h'),
        name_key("request.start"@) == (13int, 'a', '.'),
        name_key("request.body"@) == (12int, 'o', 't'),
        name_key("request.end"@) == (11int, 'e', 's'),
        name_key("response.start"@) == (14int, 'a', '.'),
        name_key("response.body"@) == (13int, 'o', 'e'),
        name_key("response.end"@) == (12int, 'e', 's'),
        name_key("websocket.message"@) == (17int, 'a', 'e'),
        name_key("websocket.error"@) == (15int, 'r', '.'),
        name_key("websocket.end"@) == (13int, 'e', 'e'),
        name_key("system.error"@) == (12int, 'r', '.'),
{
    reveal_strlit("system.ping");
    reveal_strlit("capture.status.get");
    reveal_strlit("capture.control.set");
    reveal_strlit("request.detail.get");
    reveal_strlit("request.stream.subscribe");
    reveal_strlit("request.stream.unsubscribe");
    reveal_strlit("compose.request.send");
    reveal_strlit("settings.general.get");
    reveal_strlit("settings.general.set");
    reveal_strlit("settings.captureFilter.get");
    reveal_strlit("settings.captureFilter.set");
    reveal_strlit("settings.certificate.path.get");
    reveal_strlit("rules.list.get");
    reveal_strlit("rules.get");
    reveal_strlit("rules.save.set");
    reveal_strlit("rules.enabled.set");
    reveal_strlit("rules.delete");
    reveal_strlit("rules.templates.get");
    reveal_strlit("projects.list.get");
    reveal_strlit("projects.active.set");
    reveal_strlit("projects.create");
    reveal_strlit("projects.rename");
    reveal_strlit("projects.delete");
    reveal_strlit("projects.enabled.set");
    reveal_strlit("capture.rules.focus.list.get");
    reveal_strlit("capture.rules.ignore.list.get");
    reveal_strlit("capture.rules.focus.upsert");
    reveal_strlit("capture.rules.ignore.upsert");
    reveal_strlit("capture.rules.focus.delete");
    reveal_strlit("capture.rules.ignore.delete");
    reveal_strlit("capture.rules.focus.enabled.set");
    reveal_strlit("capture.rules.ignore.enabled.set");
    reveal_strlit("device.adb.status.get");
    reveal_strlit("device.adb.install");
    reveal_strlit("device.adb.install.progress.get");
    reveal_strlit("device.adb.devices.list");
    reveal_strlit("device.adb.proxy.state.get");
    reveal_strlit("device.adb.proxy.enable");
    reveal_strlit("device.adb.proxy.disable");
    reveal_strlit("network.trafficFilter.history.get");
    reveal_strlit("network.trafficFilter.history.append");
    reveal_strlit("network.trafficFilter.history.clear");
    reveal_strlit("capture.status.changed");
    reveal_strlit("request.start");
    reveal_strlit("request.body");
    reveal_strlit("request.end");
    reveal_strlit("response.start");
    reveal_strlit("response.body");
    reveal_strlit("response.end");
    reveal_strlit("websocket.message");
    reveal_strlit("websocket.error");
    reveal_strlit("websocket.end");
    reveal_strlit("system.error");
}

/// Every operation is recognised by its wire name, and no wire name is both a request
/// operation and an event operation.
pub proof fn lemma_operation_names(o: RequestOp, e: EventOp)
    ensures
        request_op_named(request_op_name(o)) == Some(o),
        event_op_named(event_op_name(e)) == Some(e),
        request_op_named(event_op_name(e)) is None,
        event_op_named(request_op_name(o)) is None,
{
    lemma_name_keys();
}

} // verus!
