use std::sync::Arc;

use lynx_proxy::capture_rules::{
    delete_rule, list_rules, next_id, set_rule_enabled, upsert_rule, CaptureRule, CaptureRuleError,
    CaptureRuleKind, CaptureRules,
};
use lynx_proxy::request_rules::{
    assign_rule_id, contains_project, host_and_port, is_rule_file_name, order_rules,
    rule_file_error_message, rule_file_name, rules_in_project, rules_load_error_message, stamp_rule_on_create,
    stamp_rule_on_create_at, stamp_rule_on_update, stamp_rule_on_update_at, CaptureRule as MatchCapture,
    RequestRule, RuleMatcher,
};
use lynx_proxy::settings::{
    recording_status_to_text, CaptureSwitch, ClientProxyConfig, GeneralSetting, ProxyConfig, RecordingStatus,
};
use lynx_proxy::store_cache::{ChangeGeneration, GenerationCache, SettingCache};

fn capture_rule(id: i32, name: &str, updated_at: i64) -> CaptureRule {
    CaptureRule {
        id,
        name: name.to_string(),
        enabled: true,
        match_expr: "example.com".to_string(),
        created_at: 0,
        updated_at,
    }
}

/// Creates a rule as the rules store does: stamped, then given its id.
fn create_rule(rule: RequestRule, rule_id: i32) -> RequestRule {
    let mut rule = rule;
    stamp_rule_on_create(&mut rule);
    assign_rule_id(&mut rule, rule_id);
    rule
}

#[test]
fn upsert_and_list_focus() {
    let mut rules = CaptureRules::default();
    let saved = upsert_rule(
        &mut rules,
        CaptureRuleKind::Focus,
        CaptureRule {
            id: 0,
            name: "focus".to_string(),
            enabled: true,
            match_expr: "example.com".to_string(),
            created_at: 0,
            updated_at: 0,
        },
        1_700_000_000_000,
    );

    let list = list_rules(&rules, CaptureRuleKind::Focus);
    assert_eq!(list.len(), 1);
    assert_eq!(list[0].id, saved.id);
}

#[test]
fn upsert_assigns_fresh_ids_and_stamps() {
    let mut rules = CaptureRules::default();
    assert_eq!(next_id(&rules), 1);
    let a = upsert_rule(&mut rules, CaptureRuleKind::Focus, capture_rule(0, "a", 0), 100);
    assert_eq!(a.id, 1);
    assert_eq!(a.created_at, 100);
    assert_eq!(a.updated_at, 100);
    let b = upsert_rule(&mut rules, CaptureRuleKind::Ignore, capture_rule(0, "b", 0), 200);
    assert_eq!(b.id, 2);
    assert_eq!(next_id(&rules), 3);
    assert_eq!(list_rules(&rules, CaptureRuleKind::Focus).len(), 1);
    assert_eq!(list_rules(&rules, CaptureRuleKind::Ignore).len(), 1);
}

#[test]
fn upsert_replaces_existing_rule_and_keeps_creation_time() {
    let mut rules = CaptureRules::default();
    let a = upsert_rule(&mut rules, CaptureRuleKind::Focus, capture_rule(0, "a", 0), 100);
    let mut edited = a.clone();
    edited.name = "renamed".to_string();
    edited.created_at = 0;
    let saved = upsert_rule(&mut rules, CaptureRuleKind::Focus, edited, 300);
    assert_eq!(saved.id, a.id);
    assert_eq!(saved.created_at, 100);
    assert_eq!(saved.updated_at, 300);
    let list = list_rules(&rules, CaptureRuleKind::Focus);
    assert_eq!(list.len(), 1);
    assert_eq!(list[0].name, "renamed");
}

#[test]
fn capture_rules_are_listed_most_recent_first() {
    let mut rules = CaptureRules::default();
    upsert_rule(&mut rules, CaptureRuleKind::Focus, capture_rule(0, "old", 0), 100);
    upsert_rule(&mut rules, CaptureRuleKind::Focus, capture_rule(0, "new", 0), 300);
    upsert_rule(&mut rules, CaptureRuleKind::Focus, capture_rule(0, "mid", 0), 200);
    let names: Vec<String> = list_rules(&rules, CaptureRuleKind::Focus).into_iter().map(|r| r.name).collect();
    assert_eq!(names, vec!["new".to_string(), "mid".to_string(), "old".to_string()]);
}

#[test]
fn delete_and_toggle_capture_rules() {
    let mut rules = CaptureRules::default();
    let a = upsert_rule(&mut rules, CaptureRuleKind::Ignore, capture_rule(0, "a", 0), 100);
    let toggled = set_rule_enabled(&mut rules, CaptureRuleKind::Ignore, a.id, false, 150).unwrap();
    assert!(!toggled.enabled);
    assert_eq!(toggled.updated_at, 150);
    assert_eq!(
        set_rule_enabled(&mut rules, CaptureRuleKind::Focus, a.id, false, 150).err(),
        Some(CaptureRuleError::NotFound(a.id))
    );
    assert_eq!(delete_rule(&mut rules, CaptureRuleKind::Focus, a.id), Err(CaptureRuleError::NotFound(a.id)));
    assert_eq!(delete_rule(&mut rules, CaptureRuleKind::Ignore, a.id), Ok(()));
    assert!(list_rules(&rules, CaptureRuleKind::Ignore).is_empty());
    assert_eq!(delete_rule(&mut rules, CaptureRuleKind::Ignore, a.id), Err(CaptureRuleError::NotFound(a.id)));
}

#[test]
fn test_client_proxy_config_crud() {
    let mut cache: SettingCache<ClientProxyConfig> = SettingCache::new();
    let config = cache.cached().cloned().unwrap_or_default();
    assert_eq!(config.proxy_requests.proxy_type, "none");
    assert_eq!(config.api_debug.proxy_type, "none");

    let new_config = ClientProxyConfig {
        proxy_requests: ProxyConfig {
            proxy_type: "custom".to_string(),
            url: Some("http://proxy.example.com:8080".to_string()),
        },
        api_debug: ProxyConfig { proxy_type: "system".to_string(), url: None },
    };
    cache.store(new_config.clone());

    let updated_config = cache.cached().cloned().unwrap();
    assert_eq!(updated_config.proxy_requests.proxy_type, "custom");
    assert_eq!(updated_config.proxy_requests.url, Some("http://proxy.example.com:8080".to_string()));
    assert_eq!(updated_config.api_debug.proxy_type, "system");
    assert_eq!(updated_config.api_debug.url, None);
}

#[test]
fn test_capture_switch_default() {
    let cache: SettingCache<CaptureSwitch> = SettingCache::new();
    let switch = match cache.cached() {
        Some(s) => CaptureSwitch { recording_status: s.recording_status },
        None => CaptureSwitch::default(),
    };
    assert!(matches!(switch.recording_status, RecordingStatus::StartRecording));
}

#[test]
fn test_capture_switch_crud() {
    let mut cache: SettingCache<CaptureSwitch> = SettingCache::new();
    let mut switch = CaptureSwitch { recording_status: RecordingStatus::StartRecording };
    cache.store(CaptureSwitch { recording_status: switch.recording_status });
    assert!(matches!(cache.cached().unwrap().recording_status, RecordingStatus::StartRecording));

    switch.recording_status = RecordingStatus::PauseRecording;
    cache.store(switch);
    assert!(matches!(cache.cached().unwrap().recording_status, RecordingStatus::PauseRecording));
}

#[test]
fn recording_status_text_and_settings_defaults() {
    assert_eq!(recording_status_to_text(&RecordingStatus::StartRecording), "recording");
    assert_eq!(recording_status_to_text(&RecordingStatus::PauseRecording), "paused");
    let general = GeneralSetting::default();
    assert_eq!(general.max_log_size, 5000);
    assert_eq!(general.language, "zh-CN");
    assert!(general.hide_connect_tunnels);
    assert_eq!(ProxyConfig::default().proxy_type, "none");
    assert_eq!(ProxyConfig::default().url, None);
}

#[test]
fn create_rule_stamps_timestamps() {
    let stored = create_rule(RequestRule::default(), 1);
    assert!(stored.created_at.is_some());
    assert!(stored.updated_at.is_some());
    assert_eq!(stored.created_at, stored.updated_at);
}

#[test]
fn update_rule_preserves_created_at_and_refreshes_updated_at() {
    let created = create_rule(RequestRule::default(), 1);
    let created_at = created.created_at.unwrap();

    let mut updated = created.clone();
    updated.name = "updated".to_string();
    stamp_rule_on_update(&mut updated, Some(&created));

    assert_eq!(updated.created_at, Some(created_at));
    assert!(updated.updated_at.unwrap() >= created_at);
    assert_eq!(updated.name, "updated");
}

#[test]
fn update_backfills_missing_timestamps() {
    let mut stored = create_rule(RequestRule::default(), 1);
    stored.created_at = None;
    stored.updated_at = None;
    assert!(stored.created_at.is_none());
    assert!(stored.updated_at.is_none());

    let mut refreshed = stored.clone();
    refreshed.name = "backfilled".to_string();
    stamp_rule_on_update(&mut refreshed, Some(&stored));
    assert!(refreshed.created_at.is_some());
    assert!(refreshed.updated_at.is_some());
}

#[test]
fn stamping_at_a_given_time() {
    let mut rule = RequestRule::default();
    stamp_rule_on_create_at(&mut rule, 10);
    assert_eq!((rule.created_at, rule.updated_at), (Some(10), Some(10)));
    let stored = rule.clone();
    let mut incoming = RequestRule::default();
    incoming.created_at = Some(5);
    stamp_rule_on_update_at(&mut incoming, Some(&stored), 20);
    assert_eq!((incoming.created_at, incoming.updated_at), (Some(10), Some(20)));
    let mut fresh = RequestRule::default();
    fresh.created_at = Some(5);
    stamp_rule_on_update_at(&mut fresh, None, 20);
    assert_eq!((fresh.created_at, fresh.updated_at), (Some(5), Some(20)));
    let mut bare = RequestRule::default();
    stamp_rule_on_update_at(&mut bare, None, 30);
    assert_eq!((bare.created_at, bare.updated_at), (Some(30), Some(30)));
}

#[test]
fn assigning_an_id_fills_the_capture_id() {
    let mut rule = RequestRule::default();
    assign_rule_id(&mut rule, 7);
    assert_eq!(rule.id, Some(7));
    assert_eq!(rule.capture.id, Some(7));
    let mut other = RequestRule::default();
    other.capture.id = Some(3);
    assign_rule_id(&mut other, 8);
    assert_eq!(other.id, Some(8));
    assert_eq!(other.capture.id, Some(3));
}

#[test]
fn keeps_rules_cache_until_invalidated() {
    let rule = RequestRule {
        id: Some(1),
        project: "default".to_string(),
        name: "v1".to_string(),
        description: None,
        enabled: true,
        priority: 10,
        capture: MatchCapture { id: Some(1), match_expr: "/".to_string() },
        handlers: vec![],
        created_at: None,
        updated_at: None,
    };
    let mut on_disk = vec![rule.clone()];
    let mut cache: SettingCache<Vec<RequestRule>> = SettingCache::new();

    let load = |cache: &mut SettingCache<Vec<RequestRule>>, disk: &Vec<RequestRule>| -> Vec<RequestRule> {
        if let Some(v) = cache.cached() {
            return v.clone();
        }
        cache.store(disk.clone());
        disk.clone()
    };

    let first = load(&mut cache, &on_disk);
    assert_eq!(first[0].name, "v1");

    let mut updated = rule.clone();
    updated.name = "v2".to_string();
    on_disk = vec![updated];

    let second = load(&mut cache, &on_disk);
    assert_eq!(second[0].name, "v1");

    cache.invalidate();
    let third = load(&mut cache, &on_disk);
    assert_eq!(third[0].name, "v2");
}

#[test]
fn settings_cache_returns_updates_immediately() {
    let mut switches: SettingCache<CaptureSwitch> = SettingCache::new();
    switches.store(CaptureSwitch::default());
    switches.store(CaptureSwitch { recording_status: RecordingStatus::PauseRecording });
    assert!(matches!(switches.cached().unwrap().recording_status, RecordingStatus::PauseRecording));

    let mut generation = ChangeGeneration::new();
    let gen_before = generation.current();
    let mut proxies: SettingCache<ClientProxyConfig> = SettingCache::new();
    let mut proxy = ClientProxyConfig::default();
    proxy.proxy_requests.proxy_type = "system".to_string();
    proxies.store(proxy);
    generation.bump();
    assert_eq!(proxies.cached().unwrap().proxy_requests.proxy_type, "system");
    assert!(generation.current() > gen_before);
}

/// Looks a shared client up: reuse it while the generation holds, rebuild it when the
/// generation moved.
fn current_client(cache: &mut GenerationCache<Arc<String>>, generation: &ChangeGeneration, label: &str) -> Arc<String> {
    let g = generation.current();
    if let Some(c) = cache.current(g) {
        return Arc::clone(c);
    }
    let fresh = Arc::new(label.to_string());
    cache.replace(g, Arc::clone(&fresh));
    fresh
}

#[test]
fn shared_request_client_reuses_until_client_proxy_updates() {
    let mut generation = ChangeGeneration::new();
    let mut cache = GenerationCache::new(generation.current(), Arc::new("none".to_string()));

    let first = current_client(&mut cache, &generation, "none");
    let second = current_client(&mut cache, &generation, "none");
    assert!(Arc::ptr_eq(&first, &second));

    generation.bump();

    let third = current_client(&mut cache, &generation, "system");
    assert!(!Arc::ptr_eq(&first, &third));
    let fourth = current_client(&mut cache, &generation, "system");
    assert!(Arc::ptr_eq(&third, &fourth));
}

#[test]
fn shared_request_client_pointer_stable_under_load() {
    let generation = ChangeGeneration::new();
    let mut cache = GenerationCache::new(generation.current(), Arc::new("none".to_string()));
    let first = current_client(&mut cache, &generation, "none");
    for _ in 0..256 {
        let client = current_client(&mut cache, &generation, "none");
        assert!(Arc::ptr_eq(&first, &client));
    }
}

#[test]
fn matches_new_schema_rule() {
    let rule = RequestRule {
        name: "dsl rule".to_string(),
        priority: 100,
        capture: MatchCapture { id: None, match_expr: "example.com AND /api AND -X GET".to_string() },
        ..Default::default()
    };
    let rule_id = 1;
    let stored = create_rule(rule, rule_id);
    assert_eq!(stored.id, Some(rule_id));

    // The match expression matches "GET https://example.com/api/v1/users?x=1".
    let matches = RuleMatcher::find_matching_rules(vec![stored], &vec![], &vec![true]);
    assert_eq!(matches.len(), 1);
    assert_eq!(matches[0].id, Some(rule_id));
}

#[test]
fn skips_rules_in_disabled_project() {
    let rule = RequestRule {
        name: "staging rule".to_string(),
        project: "staging".to_string(),
        priority: 100,
        capture: MatchCapture { id: None, match_expr: "example.com AND /api".to_string() },
        ..Default::default()
    };
    let rule_id = 1;
    let stored = create_rule(rule, rule_id);
    let disabled = vec!["staging".to_string()];
    // The match expression matches "GET https://example.com/api".
    let matches = RuleMatcher::find_matching_rules(vec![stored], &disabled, &vec![true]);
    assert!(matches.iter().all(|matched| matched.id != Some(rule_id)));
}

#[test]
fn disabled_or_unmatched_rules_are_not_applied() {
    let mut off = create_rule(RequestRule::default(), 1);
    off.enabled = false;
    let unmatched = create_rule(RequestRule::default(), 2);
    let on = create_rule(RequestRule::default(), 3);
    let matches = RuleMatcher::find_matching_rules(vec![off, unmatched, on], &vec![], &vec![true, false, true]);
    assert_eq!(matches.len(), 1);
    assert_eq!(matches[0].id, Some(3));
}

#[test]
fn old_schema_rule_file_causes_load_error() {
    let msg = rule_file_error_message("rules/1.json", "missing field `matchExpr` at line 20 column 1");
    assert!(
        msg.contains("please clear the rules directory"),
        "expected actionable message, got: {msg}"
    );
    assert_eq!(
        msg,
        "Failed to load rule file rules/1.json: missing field `matchExpr` at line 20 column 1. \
         If you upgraded to matchExpr, please clear the rules directory and recreate rules."
    );
    let msg = rules_load_error_message("bad expr");
    assert_eq!(
        msg,
        "Failed to load rules: bad expr. If you upgraded to matchExpr, please clear the rules directory and recreate rules."
    );
}

#[test]
fn rules_are_ordered_by_priority_then_id() {
    let mut low = create_rule(RequestRule::default(), 1);
    low.priority = 1;
    let mut high_late = create_rule(RequestRule::default(), 5);
    high_late.priority = 10;
    let mut high_early = create_rule(RequestRule::default(), 2);
    high_early.priority = 10;
    let ordered = order_rules(vec![low, high_late, high_early]);
    let ids: Vec<Option<i32>> = ordered.iter().map(|r| r.id).collect();
    assert_eq!(ids, vec![Some(2), Some(5), Some(1)]);
}

#[test]
fn rules_are_listed_by_project() {
    let mut a = create_rule(RequestRule::default(), 1);
    a.project = "staging".to_string();
    let b = create_rule(RequestRule::default(), 2);
    let listed = rules_in_project(vec![a, b], "default");
    assert_eq!(listed.len(), 1);
    assert_eq!(listed[0].id, Some(2));
    assert!(contains_project(&vec!["a".to_string(), "staging".to_string()], "staging"));
    assert!(!contains_project(&vec!["a".to_string()], "staging"));
}

#[test]
fn rule_files_are_json_but_not_templates() {
    assert!(is_rule_file_name("1.json"));
    assert!(!is_rule_file_name("templates.json"));
    assert!(!is_rule_file_name("notes.txt"));
    assert!(!is_rule_file_name("json"));
}

#[test]
fn host_and_port_of_requests() {
    assert_eq!(host_and_port(Some("example.com"), Some(8443), Some("other:1")), ("example.com".to_string(), Some(8443)));
    assert_eq!(host_and_port(None, None, Some("example.com:8080")), ("example.com".to_string(), Some(8080)));
    assert_eq!(host_and_port(None, None, Some("example.com")), ("example.com".to_string(), None));
    assert_eq!(host_and_port(None, None, Some("example.com:http")), ("example.com:http".to_string(), None));
    assert_eq!(host_and_port(None, None, None), (String::new(), None));
}

#[test]
fn request_facts_normalise_headers() {
    let facts = lynx_proxy::request_facts::request_facts_from_request(
        Some("https".to_string()),
        None,
        None,
        "/api/v1/users".to_string(),
        Some("x=1".to_string()),
        "GET".to_string(),
        vec![
            ("X-Trace".to_string(), "b".to_string()),
            ("Host".to_string(), "example.com:8443".to_string()),
            ("accept".to_string(), "*/*".to_string()),
            ("x-trace".to_string(), "a".to_string()),
        ],
    );
    assert_eq!(facts.scheme, Some("https".to_string()));
    assert_eq!(facts.host, "example.com");
    assert_eq!(facts.port, Some(8443));
    assert_eq!(facts.path, "/api/v1/users");
    assert_eq!(facts.query, Some("x=1".to_string()));
    assert_eq!(facts.method, "GET");
    assert_eq!(
        facts.headers,
        vec![
            ("accept".to_string(), "*/*".to_string()),
            ("host".to_string(), "example.com:8443".to_string()),
            ("x-trace".to_string(), "b".to_string()),
            ("x-trace".to_string(), "a".to_string()),
        ]
    );
}

#[test]
fn request_facts_prefer_the_uri_host() {
    let facts = lynx_proxy::request_facts::request_facts_from_request(
        None,
        Some("example.org"),
        None,
        "/".to_string(),
        None,
        "POST".to_string(),
        vec![("host".to_string(), "other.test:81".to_string())],
    );
    assert_eq!(facts.host, "example.org");
    assert_eq!(facts.port, None);
    let bare = lynx_proxy::request_facts::request_facts_from_request(
        None, None, None, "/".to_string(), None, "GET".to_string(), vec![],
    );
    assert_eq!(bare.host, "");
    assert_eq!(bare.port, None);
    assert!(bare.headers.is_empty());
}

#[test]
fn rule_files_are_named_by_id() {
    assert_eq!(rule_file_name(12), "12.json");
    assert_eq!(rule_file_name(0), "0.json");
    assert_eq!(rule_file_name(-3), "-3.json");
    assert!(is_rule_file_name(&rule_file_name(2147483647)));
}

#[test]
fn first_rule_that_does_not_compile_fails_the_load() {
    let first = create_rule(RequestRule::default(), 1);
    let mut second = RequestRule::default();
    second.id = None;
    let third = create_rule(RequestRule::default(), 3);
    let rules = vec![first, second, third];
    assert_eq!(RuleMatcher::compile_rules(&rules, &vec![None, None, None]), Ok(()));
    assert_eq!(
        RuleMatcher::compile_rules(&rules, &vec![None, Some("unexpected token".to_string()), Some("later".to_string())]),
        Err("Rule -1 matchExpr invalid: unexpected token".to_string())
    );
    assert_eq!(
        RuleMatcher::compile_rules(&rules, &vec![None, None, Some("empty".to_string())]),
        Err("Rule 3 matchExpr invalid: empty".to_string())
    );
    assert_eq!(
        lynx_proxy::request_rules::match_expr_source(&create_rule(
            RequestRule { capture: MatchCapture { id: None, match_expr: "  example.com  ".to_string() }, ..Default::default() },
            4
        )),
        "example.com"
    );
}

#[test]
fn missing_rule_message() {
    assert_eq!(lynx_proxy::request_rules::rule_not_found_message(9), "Rule 9 not found");
}
