//! Request-processing rules: what they hold, how the store stamps, orders and selects them.
use vstd::prelude::*;
use vstd::string::*;
use crate::clock::now_millis;
use crate::settings::opt_str_view;
use crate::sorting::{keeps_ties_in_order, sort_by_rank, sorted_by_rank, Ranked};
use crate::text::{ends_with_seq, int_decimal, i64_to_decimal, str_ends_with, str_eq, trim, trim_seq};

verus! {

/// The project that rules belong to unless they name another.
pub const DEFAULT_PROJECT_ID: &'static str = "default";

/// The project of a rule that names none.
pub fn default_project() -> (r: String)
    ensures
        r@ == "default"@,
{
    String::from_str(DEFAULT_PROJECT_ID)
}

/// One handler of a rule, held as its JSON text.
pub struct HandlerRule {
    pub json: String,
}

impl Clone for HandlerRule {
    fn clone(&self) -> (r: Self)
        ensures
            r == *self,
    {
        HandlerRule { json: self.json.clone() }
    }
}

/// Which requests a rule captures: a match expression of the rule language.
pub struct CaptureRule {
    pub id: Option<i32>,
    pub match_expr: String,
}

impl Clone for CaptureRule {
    fn clone(&self) -> (r: Self)
        ensures
            r == *self,
    {
        CaptureRule { id: self.id, match_expr: self.match_expr.clone() }
    }
}

impl Default for CaptureRule {
    /// `/` matches every path.
    fn default() -> (r: Self)
        ensures
            r.id.is_none(),
            r.match_expr@ == "/"@,
    {
        CaptureRule { id: None, match_expr: String::from_str("/") }
    }
}

/// How a handler rewrites a request.
pub struct ModifyRequestConfig {
    pub modify_headers: Option<Vec<(String, String)>>,
    pub modify_body: Option<String>,
    pub modify_method: Option<String>,
    pub modify_url: Option<String>,
}

/// How a handler answers from a local file.
pub struct LocalFileConfig {
    pub file_path: String,
    pub content_type: Option<String>,
    pub status_code: Option<u16>,
}

/// A request-processing rule.
pub struct RequestRule {
    pub id: Option<i32>,
    pub project: String,
    pub name: String,
    pub description: Option<String>,
    pub enabled: bool,
    pub priority: i32,
    pub capture: CaptureRule,
    pub handlers: Vec<HandlerRule>,
    pub created_at: Option<i64>,
    pub updated_at: Option<i64>,
}

/// A copy of a list of handlers.
pub fn clone_handlers(v: &Vec<HandlerRule>) -> (r: Vec<HandlerRule>)
    ensures
        r@ == v@,
{
    let n = v.len();
    let mut out: Vec<HandlerRule> = Vec::new();
    let mut i: usize = 0;
    while i < n
        invariant
            n == v@.len(),
            i <= n,
            out@ == v@.take(i as int),
        decreases n - i,
    {
        out.push(v[i].clone());
        assert(out@ =~= v@.take(i + 1));
        i = i + 1;
    }
    assert(v@.take(n as int) =~= v@);
    out
}

/// Model of a request rule: its fields, with text as characters and handlers as JSON texts.
pub struct RequestRuleV {
    pub id: Option<i32>,
    pub project: Seq<char>,
    pub name: Seq<char>,
    pub description: Option<Seq<char>>,
    pub enabled: bool,
    pub priority: i32,
    pub capture_id: Option<i32>,
    pub match_expr: Seq<char>,
    pub handlers: Seq<Seq<char>>,
    pub created_at: Option<i64>,
    pub updated_at: Option<i64>,
}

impl View for RequestRule {
    type V = RequestRuleV;

    open spec fn view(&self) -> RequestRuleV {
        RequestRuleV {
            id: self.id,
            project: self.project@,
            name: self.name@,
            description: opt_str_view(self.description),
            enabled: self.enabled,
            priority: self.priority,
            capture_id: self.capture.id,
            match_expr: self.capture.match_expr@,
            handlers: self.handlers@.map_values(|h: HandlerRule| h.json@),
            created_at: self.created_at,
            updated_at: self.updated_at,
        }
    }
}

impl Clone for RequestRule {
    fn clone(&self) -> (r: Self)
        ensures
            r@ == self@,
    {
        let description = match &self.description {
            Some(d) => Some(d.clone()),
            None => None,
        };
        let handlers = clone_handlers(&self.handlers);
        assert(handlers@.map_values(|h: HandlerRule| h.json@) =~= self.handlers@.map_values(|h: HandlerRule| h.json@));
        RequestRule {
            id: self.id,
            project: self.project.clone(),
            name: self.name.clone(),
            description,
            enabled: self.enabled,
            priority: self.priority,
            capture: self.capture.clone(),
            handlers,
            created_at: self.created_at,
            updated_at: self.updated_at,
        }
    }
}

impl Default for RequestRule {
    fn default() -> (r: Self)
        ensures
            r.id.is_none(),
            r.project@ == "default"@,
            r.name@ == "New Rule"@,
            r.description.is_none(),
            r.enabled,
            r.priority == 0,
            r.capture.id.is_none(),
            r.capture.match_expr@ == "/"@,
            r.handlers@.len() == 0,
            r.created_at.is_none(),
            r.updated_at.is_none(),
    {
        RequestRule {
            id: None,
            project: default_project(),
            name: String::from_str("New Rule"),
            description: None,
            enabled: true,
            priority: 0,
            capture: CaptureRule::default(),
            handlers: Vec::new(),
            created_at: None,
            updated_at: None,
        }
    }
}

impl Ranked for RequestRule {
    /// Highest priority first; among equal priorities, the lowest id (a missing id counts as 0).
    open spec fn rank(&self) -> (int, int) {
        (self.priority as int, -(match self.id { Some(i) => i as int, None => 0 }))
    }

    fn rank_key(&self) -> (r: (i64, i64)) {
        let id: i64 = match self.id {
            Some(i) => i as i64,
            None => 0,
        };
        (self.priority as i64, -id)
    }
}

/// `rule` with every field but the timestamps unchanged.
pub open spec fn same_but_stamps(a: RequestRule, b: RequestRule) -> bool {
    (RequestRule { created_at: b.created_at, updated_at: b.updated_at, ..a }) == b
}

/// Stamps a new rule with the creation time `now` (`stamp_rule_on_create` at a given time).
pub fn stamp_rule_on_create_at(rule: &mut RequestRule, now: i64)
    ensures
        final(rule).created_at == Some(now),
        final(rule).updated_at == Some(now),
        same_but_stamps(*old(rule), *final(rule)),
{
    rule.created_at = Some(now);
    rule.updated_at = Some(now);
}

/// Stamps a new rule with the current time: created and updated at the same moment.
pub fn stamp_rule_on_create(rule: &mut RequestRule)
    ensures
        final(rule).created_at is Some,
        final(rule).created_at == final(rule).updated_at,
        same_but_stamps(*old(rule), *final(rule)),
{
    let now = now_millis();
    stamp_rule_on_create_at(rule, now);
}

/// The creation time that an update keeps: the stored rule's, else the incoming rule's, else `now`.
pub open spec fn kept_created_at(rule: RequestRule, existing: Option<RequestRule>, now: i64) -> Option<i64> {
    match existing {
        Some(stored) if stored.created_at is Some => stored.created_at,
        _ => match rule.created_at {
            Some(t) => Some(t),
            None => Some(now),
        },
    }
}

/// The stored rule, if any, as a value.
pub open spec fn stored_rule(existing: Option<&RequestRule>) -> Option<RequestRule> {
    match existing {
        Some(e) => Some(*e),
        None => None,
    }
}

/// Stamps an updated rule at time `now` (`stamp_rule_on_update` at a given time).
pub fn stamp_rule_on_update_at(rule: &mut RequestRule, existing: Option<&RequestRule>, now: i64)
    ensures
        existing is Some && existing->0.created_at is Some ==> final(rule).created_at == existing->0.created_at,
        !(existing is Some && existing->0.created_at is Some) && old(rule).created_at is Some
            ==> final(rule).created_at == old(rule).created_at,
        !(existing is Some && existing->0.created_at is Some) && old(rule).created_at is None
            ==> final(rule).created_at == Some(now),
        final(rule).created_at == kept_created_at(*old(rule), stored_rule(existing), now),
        final(rule).updated_at == Some(now),
        same_but_stamps(*old(rule), *final(rule)),
{
    let stored: Option<i64> = match existing {
        Some(e) => e.created_at,
        None => None,
    };
    rule.created_at = match stored {
        Some(t) => Some(t),
        None => match rule.created_at {
            Some(t) => Some(t),
            None => Some(now),
        },
    };
    rule.updated_at = Some(now);
}

/// Stamps an updated rule with the current time, keeping its creation time.
pub fn stamp_rule_on_update(rule: &mut RequestRule, existing: Option<&RequestRule>)
    ensures
        (exists|now: i64|
            final(rule).created_at == kept_created_at(*old(rule), stored_rule(existing), now)
                && final(rule).updated_at == Some(now)),
        same_but_stamps(*old(rule), *final(rule)),
{
    let now = now_millis();
    stamp_rule_on_update_at(rule, existing, now);
}

/// Gives a rule that is being created the id `rule_id`; its capture takes the same id
/// unless it has one.
pub fn assign_rule_id(rule: &mut RequestRule, rule_id: i32)
    ensures
        final(rule).id == Some(rule_id),
        final(rule).capture.id == (match old(rule).capture.id { Some(c) => Some(c), None => Some(rule_id) }),
        (RequestRule { id: old(rule).id, capture: old(rule).capture, ..*final(rule) }) == *old(rule),
        final(rule).capture.match_expr == old(rule).capture.match_expr,
{
    rule.id = Some(rule_id);
    rule.capture.id = match rule.capture.id {
        Some(c) => Some(c),
        None => Some(rule_id),
    };
}

/// The rules of `rules` that belong to `project`, in their order.
pub open spec fn project_rules(rules: Seq<RequestRule>, project: Seq<char>) -> Seq<RequestRule> {
    rules.filter(in_project(project))
}

/// The test of whether a rule belongs to `project`.
pub open spec fn in_project(project: Seq<char>) -> spec_fn(RequestRule) -> bool {
    |x: RequestRule| x.project@ == project
}

/// The rules that belong to `project`, in their order.
pub fn rules_in_project(rules: Vec<RequestRule>, project: &str) -> (r: Vec<RequestRule>)
    ensures
        r@ == project_rules(rules@, project@),
{
    let ghost orig = rules@;
    let n = rules.len();
    let mut rest = rules;
    let mut kept: Vec<RequestRule> = Vec::new();
    let mut i: usize = 0;
    while i < n
        invariant
            n == orig.len(),
            i <= n,
            rest@ == orig.skip(i as int),
            kept@ == orig.take(i as int).filter(in_project(project@)),
        decreases n - i,
    {
        let x = rest.remove(0);
        assert(x == orig[i as int]);
        proof {
            crate::capture_rules::lemma_filter_push(orig.take(i as int), in_project(project@), x);
            assert(orig.take(i as int).push(x) =~= orig.take(i + 1));
        }
        if str_eq(x.project.as_str(), project) {
            kept.push(x);
        }
        i = i + 1;
        assert(rest@ =~= orig.skip(i as int));
    }
    assert(orig.take(n as int) =~= orig);
    kept
}

/// Orders loaded rules: highest priority first, then lowest id, ties kept in load order.
pub fn order_rules(rules: Vec<RequestRule>) -> (r: Vec<RequestRule>)
    ensures
        sorted_by_rank(r@),
        keeps_ties_in_order(r@, rules@),
        r@.to_multiset() == rules@.to_multiset(),
        forall|i: int, j: int| 0 <= i < j < r@.len() ==> (#[trigger] r@[i]).priority > (#[trigger] r@[j]).priority
            || (r@[i].priority == r@[j].priority && id_or_zero(r@[i]) <= id_or_zero(r@[j])),
{
    let r = sort_by_rank(rules);
    assert forall|i: int, j: int| 0 <= i < j < r@.len() implies (#[trigger] r@[i]).priority > (#[trigger] r@[j]).priority
        || (r@[i].priority == r@[j].priority && id_or_zero(r@[i]) <= id_or_zero(r@[j])) by {
        assert(crate::sorting::ranks_before(r@[i].rank(), r@[j].rank()));
    }
    r
}

/// The id of a rule, a missing one counting as 0.
pub open spec fn id_or_zero(rule: RequestRule) -> int {
    match rule.id {
        Some(i) => i as int,
        None => 0,
    }
}

/// A file of the rules directory that holds a rule: a `.json` file other than the templates.
pub open spec fn is_rule_file(name: Seq<char>) -> bool {
    ends_with_seq(name, ".json"@) && name != "templates.json"@
}

/// Whether the file `name` of the rules directory holds a rule.
pub fn is_rule_file_name(name: &str) -> (r: bool)
    ensures
        r == is_rule_file(name@),
{
    str_ends_with(name, ".json") && !str_eq(name, "templates.json")
}

/// The name of the file that holds the rule of id `id` in the rules directory.
pub fn rule_file_name(id: i32) -> (r: String)
    ensures
        r@ == int_decimal(id as int) + ".json"@,
{
    let mut out = i64_to_decimal(id as i64);
    out.append(".json");
    out
}

/// A rule file that the store writes is one that loading the rules directory reads.
pub proof fn lemma_rule_files_are_loaded(id: i32)
    ensures
        is_rule_file(int_decimal(id as int) + ".json"@),
{
    reveal_strlit(".json");
    reveal_strlit("templates.json");
    let name = int_decimal(id as int) + ".json"@;
    let digits = int_decimal(id as int);
    assert(name.subrange(name.len() - 5, name.len() as int) =~= ".json"@);
    crate::text::lemma_nat_decimal_starts_with_digit(if id < 0 { (-id) as nat } else { id as nat });
    if name == "templates.json"@ {
        assert(name[0] == 't');
        assert(name[0] == digits[0]);
    }
}

/// The reason given when no rule has id `id`.
pub open spec fn rule_not_found_text(id: int) -> Seq<char> {
    "Rule "@ + int_decimal(id) + " not found"@
}

/// The reason given when an update or a toggle names a rule id that no rule has.
pub fn rule_not_found_message(id: i32) -> (r: String)
    ensures
        r@ == rule_not_found_text(id as int),
{
    let mut out = String::from_str("Rule ");
    let digits = i64_to_decimal(id as i64);
    out.append(digits.as_str());
    out.append(" not found");
    out
}

/// A project named in `ids`.
pub open spec fn names_project(ids: Seq<String>, project: Seq<char>) -> bool {
    exists|k: int| 0 <= k < ids.len() && ids[k]@ == project
}

/// Whether `project` is one of `ids`.
pub fn contains_project(ids: &Vec<String>, project: &str) -> (r: bool)
    ensures
        r == names_project(ids@, project@),
{
    let n = ids.len();
    let mut i: usize = 0;
    while i < n
        invariant
            n == ids@.len(),
            i <= n,
            forall|k: int| 0 <= k < i ==> ids@[k]@ != project@,
        decreases n - i,
    {
        if str_eq(ids[i].as_str(), project) {
            return true;
        }
        i = i + 1;
    }
    false
}

/// A rule is applied to a request when it is enabled, its project is not disabled, and its
/// match expression matched the request.
pub open spec fn rule_applies(rule: RequestRule, disabled: Seq<String>, matched: bool) -> bool {
    rule.enabled && !names_project(disabled, rule.project@) && matched
}

/// The rules among the first `n` that apply, in order.
pub open spec fn applying_rules(rules: Seq<RequestRule>, disabled: Seq<String>, matched: Seq<bool>, n: int) -> Seq<RequestRule>
    decreases n,
{
    if n <= 0 {
        Seq::empty()
    } else {
        let prefix = applying_rules(rules, disabled, matched, n - 1);
        if rule_applies(rules[n - 1], disabled, matched[n - 1]) {
            prefix.push(rules[n - 1])
        } else {
            prefix
        }
    }
}

/// Selects the rules that apply to a request.
pub struct RuleMatcher;

impl RuleMatcher {
    /// The rules that apply to a request, in order, once each rule's match expression has been
    /// evaluated against it: `matched[i]` is the verdict for `rules[i]`.
    pub fn find_matching_rules(rules: Vec<RequestRule>, disabled_project_ids: &Vec<String>, matched: &Vec<bool>) -> (r: Vec<RequestRule>)
        requires
            matched@.len() == rules@.len(),
        ensures
            r@ == applying_rules(rules@, disabled_project_ids@, matched@, rules@.len() as int),
    {
        select_matching_rules(rules, disabled_project_ids, matched)
    }
}

/// The position of the first entry of `errors` that holds an error.
pub open spec fn first_error(errors: Seq<Option<String>>) -> Option<int>
    decreases errors.len(),
{
    if errors.len() == 0 {
        None
    } else {
        match first_error(errors.drop_last()) {
            Some(i) => Some(i),
            None => if errors.last() is Some {
                Some(errors.len() - 1)
            } else {
                None
            },
        }
    }
}

impl RuleMatcher {
    /// Checks loaded rules against the rule language's compiler, once each rule's match
    /// expression (`match_expr_source`) has been compiled: `errors[i]` is the compiler's error
    /// for `rules[i]`, nothing when it compiled. The first rule whose expression does not
    /// compile fails the whole load, with `invalid_match_expr_message`.
    pub fn compile_rules(rules: &Vec<RequestRule>, errors: &Vec<Option<String>>) -> (r: Result<(), String>)
        requires
            errors@.len() == rules@.len(),
        ensures
            match first_error(errors@) {
                Some(i) => r matches Err(m) && m@ == "Rule "@ + int_decimal(message_id(rules@[i])) + " matchExpr invalid: "@
                    + errors@[i]->0@,
                None => r is Ok,
            },
    {
        let n = rules.len();
        let mut i: usize = 0;
        while i < n
            invariant
                n == rules@.len(),
                errors@.len() == n,
                i <= n,
                first_error(errors@.take(i as int)) is None,
            decreases n - i,
        {
            assert(errors@.take(i + 1).drop_last() =~= errors@.take(i as int));
            if let Some(e) = &errors[i] {
                proof {
                    lemma_first_error_prefix(errors@, i as int + 1);
                }
                return Err(invalid_match_expr_message(&rules[i], e.as_str()));
            }
            i = i + 1;
        }
        assert(errors@.take(n as int) =~= errors@);
        Ok(())
    }
}

/// The first error of a sequence is the first error of any prefix that holds an error.
proof fn lemma_first_error_prefix(errors: Seq<Option<String>>, k: int)
    requires
        0 <= k <= errors.len(),
        first_error(errors.take(k)) is Some,
    ensures
        first_error(errors) == first_error(errors.take(k)),
    decreases errors.len() - k,
{
    if k < errors.len() {
        assert(errors.take(k + 1).drop_last() =~= errors.take(k));
        lemma_first_error_prefix(errors, k + 1);
    } else {
        assert(errors.take(k) =~= errors);
    }
}

fn select_matching_rules(rules: Vec<RequestRule>, disabled_project_ids: &Vec<String>, matched: &Vec<bool>) -> (r: Vec<RequestRule>)
    requires
        matched@.len() == rules@.len(),
    ensures
        r@ == applying_rules(rules@, disabled_project_ids@, matched@, rules@.len() as int),
{
    let ghost orig = rules@;
    let n = rules.len();
    let mut rest = rules;
    let mut out: Vec<RequestRule> = Vec::new();
    let mut i: usize = 0;
    while i < n
        invariant
            n == orig.len(),
            matched@.len() == n,
            i <= n,
            rest@ == orig.skip(i as int),
            out@ == applying_rules(orig, disabled_project_ids@, matched@, i as int),
        decreases n - i,
    {
        let rule = rest.remove(0);
        assert(rule == orig[i as int]);
        if rule.enabled && !contains_project(disabled_project_ids, rule.project.as_str()) && matched[i] {
            out.push(rule);
        }
        i = i + 1;
        assert(rest@ =~= orig.skip(i as int));
    }
    out
}

/// The match expression as the rule language receives it: without surrounding whitespace.
pub fn match_expr_source(rule: &RequestRule) -> (r: String)
    ensures
        r@ == trim_seq(rule.capture.match_expr@),
{
    trim(rule.capture.match_expr.as_str())
}

/// The id by which a rule is named in messages: its own, or -1.
pub open spec fn message_id(rule: RequestRule) -> int {
    match rule.id {
        Some(i) => i as int,
        None => -1,
    }
}

/// The message for a rule whose match expression does not compile.
pub fn invalid_match_expr_message(rule: &RequestRule, error: &str) -> (r: String)
    ensures
        r@ == "Rule "@ + int_decimal(message_id(*rule)) + " matchExpr invalid: "@ + error@,
{
    let id: i64 = match rule.id {
        Some(i) => i as i64,
        None => -1,
    };
    let mut out = String::from_str("Rule ");
    let digits = i64_to_decimal(id);
    out.append(digits.as_str());
    out.append(" matchExpr invalid: ");
    out.append(error);
    out
}

/// What a user who upgraded to match expressions should do about rules that no longer load.
pub open spec fn upgrade_advice() -> Seq<char> {
    ". If you upgraded to matchExpr, please clear the rules directory and recreate rules."@
}

/// The message for a rule file that could not be read as a rule.
pub fn rule_file_error_message(path: &str, error: &str) -> (r: String)
    ensures
        r@ == "Failed to load rule file "@ + path@ + ": "@ + error@ + upgrade_advice(),
{
    let mut out = String::from_str("Failed to load rule file ");
    out.append(path);
    out.append(": ");
    out.append(error);
    out.append(". If you upgraded to matchExpr, please clear the rules directory and recreate rules.");
    out
}

/// The message for loaded rules that could not be compiled.
pub fn rules_load_error_message(error: &str) -> (r: String)
    ensures
        r@ == "Failed to load rules: "@ + error@ + upgrade_advice(),
{
    let mut out = String::from_str("Failed to load rules: ");
    out.append(error);
    out.append(". If you upgraded to matchExpr, please clear the rules directory and recreate rules.");
    out
}

/// The host and port of a request: those of its URI when it names a host; otherwise those of
/// its `Host` header (`host_header`, when it is readable text), split at the last `:` when
/// what follows is a port number.
pub open spec fn spec_host_and_port(uri_host: Option<Seq<char>>, uri_port: Option<u16>, host_header: Option<Seq<char>>) -> (Seq<char>, Option<u16>) {
    match uri_host {
        Some(h) => (h, uri_port),
        None => {
            let v = match host_header { Some(h) => h, None => Seq::empty() };
            match crate::text::last_index_of(v, ':') {
                Some(i) => match crate::text::spec_parse_u16(v.skip(i + 1)) {
                    Some(p) => (v.take(i), Some(p)),
                    None => (v, None),
                },
                None => (v, None),
            }
        },
    }
}

/// The view of an optional string slice.
pub open spec fn opt_str_ref_view(s: Option<&str>) -> Option<Seq<char>> {
    match s {
        Some(v) => Some(v@),
        None => None,
    }
}

/// The host and port of a request, as `spec_host_and_port` describes them.
pub fn host_and_port(uri_host: Option<&str>, uri_port: Option<u16>, host_header: Option<&str>) -> (r: (String, Option<u16>))
    ensures
        (r.0@, r.1) == spec_host_and_port(opt_str_ref_view(uri_host), uri_port, opt_str_ref_view(host_header)),
{
    if let Some(host) = uri_host {
        return (String::from_str(host), uri_port);
    }
    let value: &str = match host_header {
        Some(h) => h,
        None => "",
    };
    proof {
        reveal_strlit("");
    }
    if let Some((host, port)) = crate::text::rsplit_once_char(value, ':') {
        if let Some(p) = crate::text::parse_u16(port.as_str()) {
            return (host, Some(p));
        }
    }
    (String::from_str(value), None)
}

} // verus!

verus! {

/// Every rule that is applied to a request is enabled, outside the disabled projects, and
/// matched the request; and every such rule is applied, in the order of the rules.
pub proof fn lemma_applied_rules(rules: Seq<RequestRule>, disabled: Seq<String>, matched: Seq<bool>, n: int)
    requires
        0 <= n <= rules.len(),
        matched.len() == rules.len(),
    ensures
        forall|k: int| 0 <= k < applying_rules(rules, disabled, matched, n).len() ==> {
            let r = #[trigger] applying_rules(rules, disabled, matched, n)[k];
            r.enabled && !names_project(disabled, r.project@)
        },
        forall|i: int| 0 <= i < n && rule_applies(rules[i], disabled, matched[i])
            ==> applying_rules(rules, disabled, matched, n).contains(#[trigger] rules[i]),
    decreases n,
{
    if n > 0 {
        lemma_applied_rules(rules, disabled, matched, n - 1);
        let prefix = applying_rules(rules, disabled, matched, n - 1);
        let all = applying_rules(rules, disabled, matched, n);
        assert forall|k: int| 0 <= k < all.len() implies ({
            let r = #[trigger] all[k];
            r.enabled && !names_project(disabled, r.project@)
        }) by {
            if k < prefix.len() {
                assert(all[k] == prefix[k]);
            }
        }
        assert forall|i: int| 0 <= i < n && rule_applies(rules[i], disabled, matched[i])
            implies all.contains(#[trigger] rules[i]) by {
            if i < n - 1 {
                let j = choose|j: int| 0 <= j < prefix.len() && prefix[j] == rules[i];
                assert(all[j] == prefix[j]);
            } else {
                assert(all[all.len() - 1] == rules[i]);
            }
        }
    }
}

/// Listing the rules of a project gives only rules of that project.
pub proof fn lemma_project_listing(rules: Seq<RequestRule>, project: Seq<char>)
    ensures
        forall|k: int| 0 <= k < project_rules(rules, project).len()
            ==> (#[trigger] project_rules(rules, project)[k]).project@ == project,
{
    assert forall|k: int| 0 <= k < project_rules(rules, project).len()
        implies (#[trigger] project_rules(rules, project)[k]).project@ == project by {
        rules.lemma_filter_pred(in_project(project), k);
    }
}

} // verus!
