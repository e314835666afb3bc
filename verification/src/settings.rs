//! Settings kept by the store: capture switch, client proxy and general preferences.
use vstd::prelude::*;
use vstd::string::*;

verus! {

/// Whether traffic is being recorded.
#[derive(Clone, Copy, PartialEq, Eq, Debug)]
pub enum RecordingStatus {
    StartRecording,
    PauseRecording,
}

impl Default for RecordingStatus {
    fn default() -> (r: Self)
        ensures
            r == RecordingStatus::StartRecording,
    {
        RecordingStatus::StartRecording
    }
}

/// The text by which the protocol reports a recording status.
pub open spec fn recording_text(s: RecordingStatus) -> Seq<char> {
    match s {
        RecordingStatus::StartRecording => "recording"@,
        RecordingStatus::PauseRecording => "paused"@,
    }
}

/// The text by which the protocol reports a recording status.
pub fn recording_status_to_text(status: &RecordingStatus) -> (r: &'static str)
    ensures
        r@ == recording_text(*status),
{
    match status {
        RecordingStatus::StartRecording => "recording",
        RecordingStatus::PauseRecording => "paused",
    }
}

/// The capture switch setting.
#[derive(Clone, Copy, PartialEq, Eq, Debug)]
pub struct CaptureSwitch {
    pub recording_status: RecordingStatus,
}

impl Default for CaptureSwitch {
    fn default() -> (r: Self)
        ensures
            r.recording_status == RecordingStatus::StartRecording,
    {
        CaptureSwitch { recording_status: RecordingStatus::StartRecording }
    }
}

/// How one kind of outgoing request reaches the network: `type` is `none`, `system` or `custom`.
pub struct ProxyConfig {
    pub proxy_type: String,
    pub url: Option<String>,
}

/// Model of a proxy setting.
pub struct ProxyConfigV {
    pub proxy_type: Seq<char>,
    pub url: Option<Seq<char>>,
}

/// The view of an optional string.
pub open spec fn opt_str_view(s: Option<String>) -> Option<Seq<char>> {
    match s {
        Some(v) => Some(v@),
        None => None,
    }
}

impl View for ProxyConfig {
    type V = ProxyConfigV;

    open spec fn view(&self) -> ProxyConfigV {
        ProxyConfigV { proxy_type: self.proxy_type@, url: opt_str_view(self.url) }
    }
}

impl Clone for ProxyConfig {
    fn clone(&self) -> (r: Self)
        ensures
            r@ == self@,
    {
        ProxyConfig { proxy_type: self.proxy_type.clone(), url: self.url.clone() }
    }
}

impl Default for ProxyConfig {
    fn default() -> (r: Self)
        ensures
            r@.proxy_type == "none"@,
            r@.url.is_none(),
    {
        ProxyConfig { proxy_type: String::from_str("none"), url: None }
    }
}

/// The proxies used for proxied requests and for the API debugger.
pub struct ClientProxyConfig {
    pub proxy_requests: ProxyConfig,
    pub api_debug: ProxyConfig,
}

/// Model of the client proxy settings.
pub struct ClientProxyConfigV {
    pub proxy_requests: ProxyConfigV,
    pub api_debug: ProxyConfigV,
}

impl View for ClientProxyConfig {
    type V = ClientProxyConfigV;

    open spec fn view(&self) -> ClientProxyConfigV {
        ClientProxyConfigV { proxy_requests: self.proxy_requests@, api_debug: self.api_debug@ }
    }
}

impl Clone for ClientProxyConfig {
    fn clone(&self) -> (r: Self)
        ensures
            r@ == self@,
    {
        ClientProxyConfig { proxy_requests: self.proxy_requests.clone(), api_debug: self.api_debug.clone() }
    }
}

impl Default for ClientProxyConfig {
    fn default() -> (r: Self)
        ensures
            r@.proxy_requests.proxy_type == "none"@,
            r@.proxy_requests.url.is_none(),
            r@.api_debug.proxy_type == "none"@,
            r@.api_debug.url.is_none(),
    {
        ClientProxyConfig { proxy_requests: ProxyConfig::default(), api_debug: ProxyConfig::default() }
    }
}

/// The value that a missing `hideConnectTunnels` setting takes.
pub fn default_true() -> (r: bool)
    ensures
        r,
{
    true
}

/// General preferences of the user interface.
pub struct GeneralSetting {
    pub max_log_size: i32,
    pub language: String,
    pub hide_connect_tunnels: bool,
}

impl Clone for GeneralSetting {
    fn clone(&self) -> (r: Self)
        ensures
            r.max_log_size == self.max_log_size,
            r.language@ == self.language@,
            r.hide_connect_tunnels == self.hide_connect_tunnels,
    {
        GeneralSetting {
            max_log_size: self.max_log_size,
            language: self.language.clone(),
            hide_connect_tunnels: self.hide_connect_tunnels,
        }
    }
}

impl Default for GeneralSetting {
    fn default() -> (r: Self)
        ensures
            r.max_log_size == 5000,
            r.language@ == "zh-CN"@,
            r.hide_connect_tunnels,
    {
        GeneralSetting {
            max_log_size: 5000,
            language: String::from_str("zh-CN"),
            hide_connect_tunnels: default_true(),
        }
    }
}

} // verus!
