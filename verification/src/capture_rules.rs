//! Focus and ignore rules that decide which captured traffic the user sees.
use vstd::prelude::*;
use vstd::string::*;
use crate::sorting::{keeps_ties_in_order, sort_by_rank, sorted_by_rank, Ranked};

verus! {

/// One focus or ignore rule.
pub struct CaptureRule {
    pub id: i32,
    pub name: String,
    pub enabled: bool,
    pub match_expr: String,
    pub created_at: i64,
    pub updated_at: i64,
}

impl Clone for CaptureRule {
    fn clone(&self) -> (r: Self)
        ensures
            r == *self,
    {
        CaptureRule {
            id: self.id,
            name: self.name.clone(),
            enabled: self.enabled,
            match_expr: self.match_expr.clone(),
            created_at: self.created_at,
            updated_at: self.updated_at,
        }
    }
}

impl Ranked for CaptureRule {
    /// Most recently updated first; among those, the highest id first.
    open spec fn rank(&self) -> (int, int) {
        (self.updated_at as int, self.id as int)
    }

    fn rank_key(&self) -> (r: (i64, i64)) {
        (self.updated_at, self.id as i64)
    }
}

/// Both lists of capture rules.
pub struct CaptureRules {
    pub focus_rules: Vec<CaptureRule>,
    pub ignore_rules: Vec<CaptureRule>,
}

impl Default for CaptureRules {
    fn default() -> (r: Self)
        ensures
            r.focus_rules@.len() == 0,
            r.ignore_rules@.len() == 0,
    {
        CaptureRules { focus_rules: Vec::new(), ignore_rules: Vec::new() }
    }
}

/// Which of the two lists a rule belongs to.
#[derive(Clone, Copy, PartialEq, Eq, Debug)]
pub enum CaptureRuleKind {
    Focus,
    Ignore,
}

/// Why a capture rule operation was refused.
#[derive(Clone, Copy, PartialEq, Eq, Debug)]
pub enum CaptureRuleError {
    /// No rule of that list has this id.
    NotFound(i32),
}

/// The list of the given kind.
pub open spec fn rules_of(rules: &CaptureRules, kind: CaptureRuleKind) -> Seq<CaptureRule> {
    match kind {
        CaptureRuleKind::Focus => rules.focus_rules@,
        CaptureRuleKind::Ignore => rules.ignore_rules@,
    }
}

/// The list of the other kind.
pub open spec fn other_rules(rules: &CaptureRules, kind: CaptureRuleKind) -> Seq<CaptureRule> {
    match kind {
        CaptureRuleKind::Focus => rules.ignore_rules@,
        CaptureRuleKind::Ignore => rules.focus_rules@,
    }
}

/// The largest id in `s`, or 0 when `s` is empty.
pub open spec fn max_id_or_zero(s: Seq<CaptureRule>) -> int
    decreases s.len(),
{
    if s.len() == 0 {
        0
    } else if s.len() == 1 {
        s[0].id as int
    } else {
        let m = max_id_or_zero(s.drop_last());
        if m >= s.last().id { m } else { s.last().id as int }
    }
}

/// The id that a new rule receives: one past the largest id of either list.
pub open spec fn spec_next_id(rules: &CaptureRules) -> int {
    let f = max_id_or_zero(rules.focus_rules@);
    let i = max_id_or_zero(rules.ignore_rules@);
    (if f >= i { f } else { i }) + 1
}

/// The position of the first rule of `s` with id `id`.
pub open spec fn first_with_id(s: Seq<CaptureRule>, id: i32) -> Option<int>
    decreases s.len(),
{
    if s.len() == 0 {
        None
    } else if s[0].id == id {
        Some(0)
    } else {
        match first_with_id(s.drop_first(), id) {
            Some(i) => Some(i + 1),
            None => None,
        }
    }
}

/// Some rule of `s` has id `id`.
pub open spec fn has_id(s: Seq<CaptureRule>, id: i32) -> bool {
    exists|i: int| 0 <= i < s.len() && s[i].id == id
}

/// The rule as `upsert` stores it into list `s`: a fresh id when it has none, the creation
/// time of the stored rule it replaces (else its own, else `now`), and `now` as update time.
pub open spec fn stamped(s: Seq<CaptureRule>, rule: CaptureRule, now: i64, next: int) -> CaptureRule {
    let fresh = rule.id <= 0;
    let id: i32 = if fresh { next as i32 } else { rule.id };
    let created_at = if fresh {
        now
    } else {
        match first_with_id(s, rule.id) {
            Some(i) => s[i].created_at,
            None => if rule.created_at <= 0 { now } else { rule.created_at },
        }
    };
    CaptureRule { id, created_at, updated_at: now, ..rule }
}

/// The stored rule is the rule the user saved: its name, enabled state and match expression
/// are kept as given; only its id (when it has none), creation time and update time are set.
pub proof fn lemma_saved_rule_keeps_the_user_fields(s: Seq<CaptureRule>, rule: CaptureRule, now: i64, next: int)
    requires
        0 < next <= i32::MAX,
    ensures
        stamped(s, rule, now, next).name == rule.name,
        stamped(s, rule, now, next).enabled == rule.enabled,
        stamped(s, rule, now, next).match_expr == rule.match_expr,
        stamped(s, rule, now, next).updated_at == now,
        rule.id > 0 ==> stamped(s, rule, now, next).id == rule.id,
        rule.id <= 0 ==> stamped(s, rule, now, next).id == next && stamped(s, rule, now, next).created_at == now,
{
}

/// `s` with its first rule of the same id replaced by `r`, or with `r` appended.
pub open spec fn replace_or_push(s: Seq<CaptureRule>, r: CaptureRule) -> Seq<CaptureRule> {
    match first_with_id(s, r.id) {
        Some(i) => s.update(i, r),
        None => s.push(r),
    }
}

proof fn lemma_first_with_id(s: Seq<CaptureRule>, id: i32)
    ensures
        match first_with_id(s, id) {
            Some(i) => 0 <= i < s.len() && s[i].id == id && forall|k: int| 0 <= k < i ==> s[k].id != id,
            None => !has_id(s, id),
        },
    decreases s.len(),
{
    if s.len() > 0 && s[0].id != id {
        lemma_first_with_id(s.drop_first(), id);
        match first_with_id(s.drop_first(), id) {
            Some(i) => {
                assert forall|k: int| 0 <= k < i + 1 implies s[k].id != id by {
                    if k > 0 {
                        assert(s[k] == s.drop_first()[k - 1]);
                    }
                }
            },
            None => {
                assert forall|k: int| 0 <= k < s.len() implies s[k].id != id by {
                    if k > 0 {
                        assert(s[k] == s.drop_first()[k - 1]);
                    }
                }
            },
        }
    }
}

/// Finds the first rule of `s` with id `id`.
fn find_id(s: &Vec<CaptureRule>, id: i32) -> (r: Option<usize>)
    ensures
        match r {
            Some(i) => first_with_id(s@, id) == Some(i as int) && i < s@.len() && s@[i as int].id == id,
            None => first_with_id(s@, id).is_none() && !has_id(s@, id),
        },
{
    proof {
        lemma_first_with_id(s@, id);
    }
    let n = s.len();
    let mut i: usize = 0;
    while i < n
        invariant
            n == s@.len(),
            i <= n,
            forall|k: int| 0 <= k < i ==> s@[k].id != id,
        decreases n - i,
    {
        if s[i].id == id {
            proof {
                lemma_first_with_id_unique(s@, id, i as int);
            }
            return Some(i);
        }
        i = i + 1;
    }
    None
}

proof fn lemma_first_with_id_unique(s: Seq<CaptureRule>, id: i32, i: int)
    requires
        0 <= i < s.len(),
        s[i].id == id,
        forall|k: int| 0 <= k < i ==> s[k].id != id,
    ensures
        first_with_id(s, id) == Some(i),
{
    lemma_first_with_id(s, id);
    match first_with_id(s, id) {
        Some(j) => {
            if j < i {
            } else if j > i {
            }
        },
        None => {},
    }
}

/// The largest id of a list, or 0 for an empty list.
fn max_id(s: &Vec<CaptureRule>) -> (r: i32)
    ensures
        r as int == max_id_or_zero(s@),
{
    let n = s.len();
    if n == 0 {
        return 0;
    }
    let mut m = s[0].id;
    let mut i: usize = 1;
    assert(s@.take(1).drop_last() =~= Seq::<CaptureRule>::empty());
    while i < n
        invariant
            n == s@.len(),
            1 <= i <= n,
            m as int == max_id_or_zero(s@.take(i as int)),
        decreases n - i,
    {
        assert(s@.take(i + 1).drop_last() =~= s@.take(i as int));
        if s[i].id > m {
            m = s[i].id;
        }
        i = i + 1;
    }
    assert(s@.take(n as int) =~= s@);
    m
}

/// The id that a new rule receives.
pub fn next_id(rules: &CaptureRules) -> (r: i32)
    requires
        spec_next_id(rules) <= i32::MAX,
    ensures
        r as int == spec_next_id(rules),
{
    let f = max_id(&rules.focus_rules);
    let i = max_id(&rules.ignore_rules);
    (if f >= i { f } else { i }) + 1
}

/// The id of a new rule is larger than every id in either list.
pub proof fn lemma_next_id_is_fresh(rules: &CaptureRules)
    ensures
        forall|k: int| 0 <= k < rules.focus_rules@.len() ==> #[trigger] rules.focus_rules@[k].id < spec_next_id(rules),
        forall|k: int| 0 <= k < rules.ignore_rules@.len() ==> #[trigger] rules.ignore_rules@[k].id < spec_next_id(rules),
{
    lemma_max_id_bounds(rules.focus_rules@);
    lemma_max_id_bounds(rules.ignore_rules@);
}

proof fn lemma_max_id_bounds(s: Seq<CaptureRule>)
    ensures
        forall|k: int| 0 <= k < s.len() ==> #[trigger] s[k].id <= max_id_or_zero(s),
    decreases s.len(),
{
    if s.len() > 1 {
        lemma_max_id_bounds(s.drop_last());
        assert forall|k: int| 0 <= k < s.len() implies #[trigger] s[k].id <= max_id_or_zero(s) by {
            if k < s.len() - 1 {
                assert(s[k] == s.drop_last()[k]);
            }
        }
    }
}

/// Takes the list of the given kind out of `rules`, leaving it empty.
fn take_list(rules: &mut CaptureRules, kind: CaptureRuleKind) -> (r: Vec<CaptureRule>)
    ensures
        r@ == rules_of(old(rules), kind),
        other_rules(final(rules), kind) == other_rules(old(rules), kind),
{
    let mut list: Vec<CaptureRule> = Vec::new();
    match kind {
        CaptureRuleKind::Focus => std::mem::swap(&mut list, &mut rules.focus_rules),
        CaptureRuleKind::Ignore => std::mem::swap(&mut list, &mut rules.ignore_rules),
    }
    list
}

/// Puts `list` back as the list of the given kind.
fn put_list(rules: &mut CaptureRules, kind: CaptureRuleKind, list: Vec<CaptureRule>)
    ensures
        rules_of(final(rules), kind) == list@,
        other_rules(final(rules), kind) == other_rules(old(rules), kind),
{
    match kind {
        CaptureRuleKind::Focus => rules.focus_rules = list,
        CaptureRuleKind::Ignore => rules.ignore_rules = list,
    }
}

/// The rules of one list, in their stored order.
pub fn list_rules(rules: &CaptureRules, kind: CaptureRuleKind) -> (r: Vec<CaptureRule>)
    ensures
        r@ == rules_of(rules, kind),
{
    let src = match kind {
        CaptureRuleKind::Focus => &rules.focus_rules,
        CaptureRuleKind::Ignore => &rules.ignore_rules,
    };
    let n = src.len();
    let mut out: Vec<CaptureRule> = Vec::new();
    let mut i: usize = 0;
    while i < n
        invariant
            n == src@.len(),
            i <= n,
            out@ == src@.take(i as int),
        decreases n - i,
    {
        out.push(src[i].clone());
        assert(out@ =~= src@.take(i + 1));
        i = i + 1;
    }
    assert(src@.take(n as int) =~= src@);
    out
}

/// Saves `rule` into the list of `kind`.
/// The stored rule is `stamped`: see there. It replaces the first rule of the same id, or
/// joins the list, and the list is then ordered by update time and id, latest first.
pub fn upsert_rule(rules: &mut CaptureRules, kind: CaptureRuleKind, rule: CaptureRule, now: i64) -> (saved: CaptureRule)
    requires
        spec_next_id(old(rules)) <= i32::MAX,
    ensures
        saved == stamped(rules_of(old(rules), kind), rule, now, spec_next_id(old(rules))),
        saved.name == rule.name,
        saved.enabled == rule.enabled,
        saved.match_expr == rule.match_expr,
        saved.updated_at == now,
        rule.id > 0 ==> saved.id == rule.id,
        rule.id <= 0 ==> saved.id == spec_next_id(old(rules)) && saved.created_at == now,
        sorted_by_rank(rules_of(final(rules), kind)),
        forall|i: int, j: int| 0 <= i < j < rules_of(final(rules), kind).len() ==> {
            let a = #[trigger] rules_of(final(rules), kind)[i];
            let b = #[trigger] rules_of(final(rules), kind)[j];
            a.updated_at > b.updated_at || (a.updated_at == b.updated_at && a.id >= b.id)
        },
        rules_of(final(rules), kind).to_multiset()
            == replace_or_push(rules_of(old(rules), kind), saved).to_multiset(),
        keeps_ties_in_order(rules_of(final(rules), kind), replace_or_push(rules_of(old(rules), kind), saved)),
        rules_of(final(rules), kind).contains(saved),
        rules_of(final(rules), kind).len() == rules_of(old(rules), kind).len()
            + (if has_id(rules_of(old(rules), kind), saved.id) { 0int } else { 1int }),
        other_rules(final(rules), kind) == other_rules(old(rules), kind),
{
    let next = next_id(rules);
    let mut list = take_list(rules, kind);
    let ghost before = list@;
    let mut rule = rule;
    if rule.id <= 0 {
        rule.id = next;
        rule.created_at = now;
    } else {
        match find_id(&list, rule.id) {
            Some(i) => {
                rule.created_at = list[i].created_at;
            },
            None => {
                if rule.created_at <= 0 {
                    rule.created_at = now;
                }
            },
        }
    }
    rule.updated_at = now;
    match find_id(&list, rule.id) {
        Some(i) => list.set(i, rule.clone()),
        None => list.push(rule.clone()),
    }
    assert(list@ == replace_or_push(before, rule));
    let ghost replaced = list@;
    let sorted = sort_by_rank(list);
    proof {
        lemma_first_with_id(before, rule.id);
        let i = first_with_id(before, rule.id);
        if i is Some {
            assert(replaced[i->0] == rule);
        } else {
            assert(replaced[before.len() as int] == rule);
        }
        vstd::seq_lib::to_multiset_contains(replaced, rule);
        vstd::seq_lib::to_multiset_contains(sorted@, rule);
        vstd::seq_lib::to_multiset_len(replaced);
        vstd::seq_lib::to_multiset_len(sorted@);
        assert forall|i: int, j: int| 0 <= i < j < sorted@.len() implies {
            let a = #[trigger] sorted@[i];
            let b = #[trigger] sorted@[j];
            a.updated_at > b.updated_at || (a.updated_at == b.updated_at && a.id >= b.id)
        } by {
            assert(crate::sorting::ranks_before(sorted@[i].rank(), sorted@[j].rank()));
        }
    }
    put_list(rules, kind, sorted);
    rule
}

/// Removes every rule of id `rule_id` from the list of `kind`; refused, with nothing
/// changed, when there is none.
pub fn delete_rule(rules: &mut CaptureRules, kind: CaptureRuleKind, rule_id: i32) -> (r: Result<(), CaptureRuleError>)
    ensures
        rules_of(final(rules), kind) == rules_of(old(rules), kind).filter(|x: CaptureRule| x.id != rule_id),
        other_rules(final(rules), kind) == other_rules(old(rules), kind),
        r is Err <==> !has_id(rules_of(old(rules), kind), rule_id),
        r matches Err(e) ==> e == CaptureRuleError::NotFound(rule_id),
{
    let list = take_list(rules, kind);
    let ghost before = list@;
    let n = list.len();
    let mut kept: Vec<CaptureRule> = Vec::new();
    let mut rest = list;
    let mut i: usize = 0;
    while i < n
        invariant
            n == before.len(),
            i <= n,
            rest@ == before.skip(i as int),
            kept@ == before.take(i as int).filter(|x: CaptureRule| x.id != rule_id),
        decreases n - i,
    {
        let x = rest.remove(0);
        assert(x == before[i as int]);
        assert(before.take(i + 1).drop_last() =~= before.take(i as int));
        proof {
            lemma_filter_push(before.take(i as int), |x: CaptureRule| x.id != rule_id, x);
            assert(before.take(i as int).push(x) =~= before.take(i + 1));
        }
        if x.id != rule_id {
            kept.push(x);
        }
        i = i + 1;
        assert(rest@ =~= before.skip(i as int));
    }
    assert(before.take(n as int) =~= before);
    let removed_none = kept.len() == n;
    proof {
        lemma_filter_len_has_id(before, rule_id);
    }
    put_list(rules, kind, kept);
    if removed_none {
        Err(CaptureRuleError::NotFound(rule_id))
    } else {
        Ok(())
    }
}

/// After a deletion no rule of that id is left in the list.
pub proof fn lemma_deleted_id_is_gone(s: Seq<CaptureRule>, id: i32)
    ensures
        !has_id(s.filter(|x: CaptureRule| x.id != id), id),
{
    let f = s.filter(|x: CaptureRule| x.id != id);
    assert forall|k: int| 0 <= k < f.len() implies f[k].id != id by {
        s.lemma_filter_pred(|x: CaptureRule| x.id != id, k);
    }
}

/// Filtering a sequence with one more element at its end.
pub proof fn lemma_filter_push<A>(s: Seq<A>, p: spec_fn(A) -> bool, x: A)
    ensures
        s.push(x).filter(p) == (if p(x) { s.filter(p).push(x) } else { s.filter(p) }),
{
    reveal(Seq::filter);
    assert(s.push(x).drop_last() =~= s);
    assert(s.push(x).last() == x);
}

proof fn lemma_filter_len_has_id(s: Seq<CaptureRule>, id: i32)
    ensures
        (s.filter(|x: CaptureRule| x.id != id).len() == s.len()) <==> !has_id(s, id),
    decreases s.len(),
{
    let f = |x: CaptureRule| x.id != id;
    if s.len() > 0 {
        let t = s.drop_last();
        lemma_filter_len_has_id(t, id);
        assert(t.push(s.last()) =~= s);
        lemma_filter_push(t, f, s.last());
        t.lemma_filter_len(f);
        if has_id(t, id) {
            let k = choose|k: int| 0 <= k < t.len() && t[k].id == id;
            assert(s[k] == t[k]);
        }
        if has_id(s, id) && !has_id(t, id) {
            let k = choose|k: int| 0 <= k < s.len() && s[k].id == id;
            if k < t.len() {
                assert(s[k] == t[k]);
            }
        }
    }
}

/// Turns the first rule of id `rule_id` in the list of `kind` on or off and stamps it with
/// `now`; refused, with nothing changed, when there is none.
pub fn set_rule_enabled(
    rules: &mut CaptureRules,
    kind: CaptureRuleKind,
    rule_id: i32,
    enabled: bool,
    now: i64,
) -> (r: Result<CaptureRule, CaptureRuleError>)
    ensures
        other_rules(final(rules), kind) == other_rules(old(rules), kind),
        match first_with_id(rules_of(old(rules), kind), rule_id) {
            Some(i) => {
                let changed = CaptureRule { enabled, updated_at: now, ..rules_of(old(rules), kind)[i] };
                &&& r == Ok::<CaptureRule, CaptureRuleError>(changed)
                &&& rules_of(final(rules), kind) == rules_of(old(rules), kind).update(i, changed)
            },
            None => {
                &&& r == Err::<CaptureRule, CaptureRuleError>(CaptureRuleError::NotFound(rule_id))
                &&& rules_of(final(rules), kind) == rules_of(old(rules), kind)
            },
        },
{
    let mut list = take_list(rules, kind);
    let result = match find_id(&list, rule_id) {
        Some(i) => {
            let mut item = list[i].clone();
            item.enabled = enabled;
            item.updated_at = now;
            let out = item.clone();
            list.set(i, item);
            Ok(out)
        },
        None => Err(CaptureRuleError::NotFound(rule_id)),
    };
    put_list(rules, kind, list);
    result
}

} // verus!
