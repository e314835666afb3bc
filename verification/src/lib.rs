//! Verified core of the lynx proxy: the WebSocket protocol, rule bookkeeping and settings.

pub mod json;
pub mod text;
pub mod clock;
pub mod codec;
pub mod protocol;
pub mod frame;
pub mod settings;
pub mod sorting;
pub mod capture_rules;
pub mod request_rules;
pub mod request_facts;
pub mod project_config;
pub mod session;
pub mod session_laws;
pub mod store_cache;
pub mod server;
pub mod version;
