use lynx_proxy::project_config::{
    default_project_id, default_rules_export_schema_url, ApplyReport, ConfigRule,
    LynxProjectConfig, PullReport, PushReport,
};
use lynx_proxy::request_rules::{CaptureRule, HandlerRule, RequestRule};
use lynx_proxy::server::{access_addresses, listen_port, IpAddress, ServerConfig};
use lynx_proxy::version::{update_for_this_package, update_from_release, UpdateCheckError};

fn stored_rule() -> RequestRule {
    RequestRule {
        id: Some(4),
        project: "staging".to_string(),
        name: "mock users".to_string(),
        description: Some("answers from a file".to_string()),
        enabled: true,
        priority: 50,
        capture: CaptureRule { id: Some(9), match_expr: "example.com AND /users".to_string() },
        handlers: vec![HandlerRule { json: "{\"type\":\"block\"}".to_string() }],
        created_at: Some(10),
        updated_at: Some(20),
    }
}

#[test]
fn schema_url_names_this_version() {
    assert_eq!(
        default_rules_export_schema_url(),
        "https://raw.githubusercontent.com/xin2017338/lynx-proxy/v0.8.8/schemas/rules-export.schema.json"
    );
    assert_eq!(default_project_id(), "default");
}

#[test]
fn config_ids_are_version_four_uuids() {
    let id = LynxProjectConfig::new_empty("p".to_string()).config_id;
    assert_eq!(id.len(), 36);
    let chars: Vec<char> = id.chars().collect();
    for (i, c) in chars.iter().enumerate() {
        if [8, 13, 18, 23].contains(&i) {
            assert_eq!(*c, '-');
        } else {
            assert!(c.is_ascii_hexdigit() && !c.is_ascii_uppercase());
        }
    }
    assert_eq!(chars[14], '4');
    assert_ne!(LynxProjectConfig::new_empty("p".to_string()).config_id, id);
}

#[test]
fn new_empty_config() {
    let config = LynxProjectConfig::new_empty("staging".to_string());
    assert_eq!(config.project, "staging");
    assert!(config.rules.is_empty());
    assert_eq!(config.config_id.len(), 36);
    assert_eq!(config.schema_url, Some(default_rules_export_schema_url()));
}

#[test]
fn export_then_import_gives_the_rule_back() {
    let rule = stored_rule();
    let entry = ConfigRule::from_request_rule(&rule);
    assert_eq!(entry.id, 4);
    assert_eq!(entry.capture.id, None);
    assert_eq!(entry.capture.match_expr, "example.com AND /users");
    let back = entry.to_request_rule("staging");
    assert_eq!(back.id, Some(4));
    assert_eq!(back.capture.id, Some(4));
    assert_eq!(back.project, "staging");
    assert_eq!(back.name, rule.name);
    assert_eq!(back.description, rule.description);
    assert_eq!(back.priority, 50);
    assert!(back.enabled);
    assert_eq!(back.handlers.len(), 1);
    assert_eq!(back.handlers[0].json, "{\"type\":\"block\"}");
    assert_eq!((back.created_at, back.updated_at), (None, None));
}

#[test]
fn export_of_a_rule_without_id_uses_zero() {
    let mut rule = stored_rule();
    rule.id = None;
    let entry = ConfigRule::from_request_rule(&rule);
    assert_eq!(entry.id, 0);
    let again = ConfigRule::from_request_rule(&entry.to_request_rule("x"));
    assert_eq!(again.id, 0);
    assert_eq!(again.name, entry.name);
}

#[test]
fn report_defaults_are_empty() {
    let push = PushReport::default();
    assert_eq!(push.rules_written, 0);
    assert!(!push.created_config);
    let pull = PullReport::default();
    assert_eq!((pull.created, pull.updated), (0, 0));
    assert!(pull.backup_path.is_none());
    let apply = ApplyReport::default();
    assert_eq!(
        (apply.enabled, apply.disabled_from_config, apply.disabled_not_in_config, apply.skipped_only_in_config),
        (0, 0, 0, 0)
    );
}

#[test]
fn newer_release_is_offered() {
    assert_eq!(update_from_release("0.8.8", "v0.9.0"), Ok(Some("0.9.0".to_string())));
    assert_eq!(update_from_release("0.8.8", "0.8.8"), Ok(None));
    assert_eq!(update_from_release("0.8.8", "vv0.7.1"), Ok(None));
    assert_eq!(update_from_release("1.0.0-beta.1", "v1.0.0"), Ok(Some("1.0.0".to_string())));
}

#[test]
fn invalid_versions_are_refused() {
    assert_eq!(update_from_release("not a version", "v0.9.0"), Err(UpdateCheckError::InvalidCurrentVersion));
    assert_eq!(update_from_release("0.8.8", "release-7"), Err(UpdateCheckError::InvalidLatestVersion));
    assert_eq!(update_for_this_package("nightly"), Err(UpdateCheckError::InvalidLatestVersion));
    assert_eq!(update_for_this_package("v99.0.0"), Ok(Some("99.0.0".to_string())));
    assert_eq!(update_for_this_package("v0.8.8"), Ok(None));
}

#[test]
fn server_defaults_and_port() {
    let config = ServerConfig::default();
    assert_eq!(config.port, 7788);
    assert!(!config.only_localhost);
    assert_eq!(listen_port(Some(3000)), 3000);
    assert_eq!(listen_port(None), 0);
}

#[test]
fn listen_addresses_follow_reach() {
    let addrs = vec![
        IpAddress::V4([127, 0, 0, 1]),
        IpAddress::V4([192, 168, 1, 20]),
        IpAddress::V4([169, 254, 3, 4]),
        IpAddress::V4([0, 0, 0, 0]),
        IpAddress::V4([224, 0, 0, 1]),
        IpAddress::V4([255, 255, 255, 255]),
        IpAddress::V6([0, 0, 0, 0, 0, 0, 0, 1]),
    ];
    let local: Vec<([u8; 4], u16)> = access_addresses(&addrs, true, 8080).into_iter().map(|s| (s.ip, s.port)).collect();
    assert_eq!(local, vec![([127, 0, 0, 1], 8080)]);
    let all: Vec<([u8; 4], u16)> = access_addresses(&addrs, false, 9000).into_iter().map(|s| (s.ip, s.port)).collect();
    assert_eq!(all, vec![([127, 0, 0, 1], 9000), ([192, 168, 1, 20], 9000)]);
}
