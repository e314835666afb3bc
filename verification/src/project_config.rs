//! Project configuration files that export and import rules.
use vstd::prelude::*;
use vstd::string::*;
use crate::request_rules::{clone_handlers, CaptureRule, HandlerRule, RequestRule, RequestRuleV, DEFAULT_PROJECT_ID};
use crate::settings::opt_str_view;
use crate::text::{replace_all, replace_seq};

verus! {

/// Where the JSON schema of exported rules lives, with a `{version}` placeholder.
pub const RULES_EXPORT_SCHEMA_URL: &'static str = "https://raw.githubusercontent.com/xin2017338/lynx-proxy/v{version}/schemas/rules-export.schema.json";

/// The version of this package, which the schema address names.
pub const PACKAGE_VERSION: &'static str = "0.8.8";

/// The schema address of this version of the package.
pub fn default_rules_export_schema_url() -> (r: String)
    ensures
        r@ == replace_seq(RULES_EXPORT_SCHEMA_URL@, "{version}"@, PACKAGE_VERSION@),
{
    proof {
        reveal_strlit("{version}");
    }
    replace_all(RULES_EXPORT_SCHEMA_URL, "{version}", PACKAGE_VERSION)
}

/// The project that rules belong to unless they name another.
pub fn default_project_id() -> (r: String)
    ensures
        r@ == "default"@,
{
    String::from_str(DEFAULT_PROJECT_ID)
}

/// The text of a version 4 UUID: 36 characters, lowercase hexadecimal digits with hyphens at
/// positions 8, 13, 18 and 23, and the version digit `4` at position 14.
pub open spec fn is_uuid_v4_text(s: Seq<char>) -> bool {
    &&& s.len() == 36
    &&& s[8] == '-' && s[13] == '-' && s[18] == '-' && s[23] == '-'
    &&& s[14] == '4'
    &&& forall|i: int| 0 <= i < 36 && i != 8 && i != 13 && i != 18 && i != 23
            ==> (('0' <= #[trigger] s[i] && s[i] <= '9') || ('a' <= s[i] && s[i] <= 'f'))
}

/// A fresh configuration id from `Uuid::new_v4().to_string()`: random, so only its shape is
/// promised.
#[verifier::external_body]
pub(crate) fn new_config_id() -> (r: String)
    ensures
        is_uuid_v4_text(r@),
{
    uuid::Uuid::new_v4().to_string()
}

/// A rule as a project configuration file holds it.
pub struct ConfigRule {
    pub id: i32,
    pub name: String,
    pub description: Option<String>,
    pub enabled: bool,
    pub priority: i32,
    pub capture: CaptureRule,
    pub handlers: Vec<HandlerRule>,
}

/// Model of a configuration rule.
pub struct ConfigRuleV {
    pub id: i32,
    pub name: Seq<char>,
    pub description: Option<Seq<char>>,
    pub enabled: bool,
    pub priority: i32,
    pub capture_id: Option<i32>,
    pub match_expr: Seq<char>,
    pub handlers: Seq<Seq<char>>,
}

impl View for ConfigRule {
    type V = ConfigRuleV;

    open spec fn view(&self) -> ConfigRuleV {
        ConfigRuleV {
            id: self.id,
            name: self.name@,
            description: opt_str_view(self.description),
            enabled: self.enabled,
            priority: self.priority,
            capture_id: self.capture.id,
            match_expr: self.capture.match_expr@,
            handlers: self.handlers@.map_values(|h: HandlerRule| h.json@),
        }
    }
}

/// A copy of an optional text.
fn clone_opt_string(s: &Option<String>) -> (r: Option<String>)
    ensures
        opt_str_view(r) == opt_str_view(*s),
{
    match s {
        Some(v) => Some(v.clone()),
        None => None,
    }
}

/// The configuration entry of a stored rule: a missing id reads as 0, and the capture id is
/// dropped.
pub open spec fn config_of(r: RequestRuleV) -> ConfigRuleV {
    ConfigRuleV {
        id: match r.id { Some(i) => i, None => 0 },
        name: r.name,
        description: r.description,
        enabled: r.enabled,
        priority: r.priority,
        capture_id: None,
        match_expr: r.match_expr,
        handlers: r.handlers,
    }
}

/// The stored rule of a configuration entry in `project`: the entry's id for the rule and its
/// capture, and no timestamps.
pub open spec fn request_rule_of(c: ConfigRuleV, project: Seq<char>) -> RequestRuleV {
    RequestRuleV {
        id: Some(c.id),
        project,
        name: c.name,
        description: c.description,
        enabled: c.enabled,
        priority: c.priority,
        capture_id: Some(c.id),
        match_expr: c.match_expr,
        handlers: c.handlers,
        created_at: None,
        updated_at: None,
    }
}

impl ConfigRule {
    /// The configuration entry of a stored rule.
    pub fn from_request_rule(rule: &RequestRule) -> (r: ConfigRule)
        ensures
            r@ == config_of(rule@),
            r.id == (match rule.id { Some(i) => i, None => 0 }),
            r.name@ == rule.name@,
            opt_str_view(r.description) == opt_str_view(rule.description),
            r.enabled == rule.enabled,
            r.priority == rule.priority,
            r.capture.id is None,
            r.capture.match_expr@ == rule.capture.match_expr@,
            r.handlers@.map_values(|h: HandlerRule| h.json@) == rule.handlers@.map_values(|h: HandlerRule| h.json@),
    {
        let handlers = clone_handlers(&rule.handlers);
        assert(handlers@.map_values(|h: HandlerRule| h.json@) =~= rule.handlers@.map_values(|h: HandlerRule| h.json@));
        ConfigRule {
            id: match rule.id {
                Some(i) => i,
                None => 0,
            },
            name: rule.name.clone(),
            description: clone_opt_string(&rule.description),
            enabled: rule.enabled,
            priority: rule.priority,
            capture: CaptureRule { id: None, match_expr: rule.capture.match_expr.clone() },
            handlers,
        }
    }

    /// The stored rule of this entry in `project`.
    pub fn to_request_rule(&self, project: &str) -> (r: RequestRule)
        ensures
            r@ == request_rule_of(self@, project@),
            r.id == Some(self.id),
            r.project@ == project@,
            r.name@ == self.name@,
            opt_str_view(r.description) == opt_str_view(self.description),
            r.enabled == self.enabled,
            r.priority == self.priority,
            r.capture.id == Some(self.id),
            r.capture.match_expr@ == self.capture.match_expr@,
            r.handlers@.map_values(|h: HandlerRule| h.json@) == self.handlers@.map_values(|h: HandlerRule| h.json@),
            r.created_at is None && r.updated_at is None,
    {
        let handlers = clone_handlers(&self.handlers);
        assert(handlers@.map_values(|h: HandlerRule| h.json@) =~= self.handlers@.map_values(|h: HandlerRule| h.json@));
        RequestRule {
            id: Some(self.id),
            project: String::from_str(project),
            name: self.name.clone(),
            description: clone_opt_string(&self.description),
            enabled: self.enabled,
            priority: self.priority,
            capture: CaptureRule { id: Some(self.id), match_expr: self.capture.match_expr.clone() },
            handlers,
            created_at: None,
            updated_at: None,
        }
    }
}

/// Exporting a stored rule copies each of its fields into the entry as it is (a missing id
/// reads as 0, and the capture id is dropped); importing an entry copies each field back into
/// the stored rule, whose capture takes the entry's id and which has no timestamps.
pub proof fn lemma_each_direction_copies_the_fields(rule: RequestRuleV, entry: ConfigRuleV, project: Seq<char>)
    ensures
        config_of(rule).id == (match rule.id { Some(i) => i, None => 0 }),
        config_of(rule).name == rule.name,
        config_of(rule).description == rule.description,
        config_of(rule).enabled == rule.enabled,
        config_of(rule).priority == rule.priority,
        config_of(rule).capture_id is None,
        config_of(rule).match_expr == rule.match_expr,
        config_of(rule).handlers == rule.handlers,
        request_rule_of(entry, project).id == Some(entry.id),
        request_rule_of(entry, project).project == project,
        request_rule_of(entry, project).name == entry.name,
        request_rule_of(entry, project).description == entry.description,
        request_rule_of(entry, project).enabled == entry.enabled,
        request_rule_of(entry, project).priority == entry.priority,
        request_rule_of(entry, project).capture_id == Some(entry.id),
        request_rule_of(entry, project).match_expr == entry.match_expr,
        request_rule_of(entry, project).handlers == entry.handlers,
        request_rule_of(entry, project).created_at is None,
        request_rule_of(entry, project).updated_at is None,
{
}

/// Exporting a stored rule and importing it back into its project gives the same rule, except
/// that its capture takes the rule's id, a missing id becomes 0, and timestamps are dropped.
pub proof fn lemma_export_import_round_trip(rule: RequestRuleV)
    ensures
        request_rule_of(config_of(rule), rule.project) == (RequestRuleV {
            id: Some(match rule.id { Some(i) => i, None => 0 }),
            capture_id: Some(match rule.id { Some(i) => i, None => 0 }),
            created_at: None,
            updated_at: None,
            ..rule
        }),
{
}

/// Importing a configuration entry and exporting it again gives the entry back, apart from its
/// capture id, which exported entries never carry.
pub proof fn lemma_import_export_round_trip(entry: ConfigRuleV, project: Seq<char>)
    ensures
        config_of(request_rule_of(entry, project)) == (ConfigRuleV { capture_id: None, ..entry }),
{
}

/// A project configuration file.
pub struct LynxProjectConfig {
    pub schema_url: Option<String>,
    pub config_id: String,
    pub project: String,
    pub rules: Vec<ConfigRule>,
}

impl LynxProjectConfig {
    /// An empty configuration of `project`, with a fresh id and this version's schema address.
    pub fn new_empty(project: String) -> (r: LynxProjectConfig)
        ensures
            opt_str_view(r.schema_url) == Some(replace_seq(RULES_EXPORT_SCHEMA_URL@, "{version}"@, PACKAGE_VERSION@)),
            is_uuid_v4_text(r.config_id@),
            r.project@ == project@,
            r.rules@.len() == 0,
    {
        LynxProjectConfig {
            schema_url: Some(default_rules_export_schema_url()),
            config_id: new_config_id(),
            project,
            rules: Vec::new(),
        }
    }
}

/// What pushing rules into a configuration file did.
pub struct PushReport {
    pub config_path: String,
    pub config_id: String,
    pub project: String,
    pub rules_written: usize,
    pub created_config: bool,
}

/// What pulling rules from a configuration file did.
pub struct PullReport {
    pub created: usize,
    pub updated: usize,
    pub backup_path: Option<String>,
    pub created_config: bool,
}

/// What applying a configuration file's enabled states did.
pub struct ApplyReport {
    pub enabled: usize,
    pub disabled_from_config: usize,
    pub disabled_not_in_config: usize,
    pub skipped_only_in_config: usize,
}

impl Default for PushReport {
    fn default() -> (r: Self)
        ensures
            r.config_path@.len() == 0,
            r.config_id@.len() == 0,
            r.project@.len() == 0,
            r.rules_written == 0,
            !r.created_config,
    {
        PushReport {
            config_path: String::new(),
            config_id: String::new(),
            project: String::new(),
            rules_written: 0,
            created_config: false,
        }
    }
}

impl Default for PullReport {
    fn default() -> (r: Self)
        ensures
            r.created == 0,
            r.updated == 0,
            r.backup_path.is_none(),
            !r.created_config,
    {
        PullReport { created: 0, updated: 0, backup_path: None, created_config: false }
    }
}

impl Default for ApplyReport {
    fn default() -> (r: Self)
        ensures
            r.enabled == 0,
            r.disabled_from_config == 0,
            r.disabled_not_in_config == 0,
            r.skipped_only_in_config == 0,
    {
        ApplyReport { enabled: 0, disabled_from_config: 0, disabled_not_in_config: 0, skipped_only_in_config: 0 }
    }
}

} // verus!
