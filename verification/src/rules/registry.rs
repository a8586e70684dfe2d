//! The rule registry: which rules exist, which ids are reserved, and which
//! rules a selection enables.
use crate::diagnostic::{Confidence, MetadataView, RuleMetadata, Severity};
use crate::graph::{closed_holds_reachable, is_path, reachable, reaches_itself, reaches_next};
use crate::rules::base::Rule;
use crate::rules::registered::RegisteredRule;
use crate::rules::{lifecycle, performance, portability, rendering};
use crate::text::{
    cat2, cat4, decimal, found, gather, numeral, occurs_at, same_text, starts_with, texts,
};
use crate::ordered::{ascending_names, place_word, placed_name};
use vstd::prelude::*;

verus! {

/// What [`SYNTAX_ERROR`] declares.
pub open spec fn syntax_error() -> MetadataView {
    MetadataView {
        id: "MLC000"@,
        summary: "Python source cannot be parsed"@,
        default_enabled: true,
        default_severity: Severity::Error,
        minimum_confidence: Confidence::Certain,
        implementation_phase: 0,
        required_profiles: seq![],
        required_capabilities: seq!["source"@],
        supersedes: seq![],
    }
}

/// Metadata of rule `MLC000`.
#[allow(non_snake_case)]
pub fn SYNTAX_ERROR() -> (metadata: &'static RuleMetadata)
    ensures
        metadata@ == syntax_error(),
{
    let metadata: &'static RuleMetadata = &RuleMetadata {
        id: "MLC000",
        summary: "Python source cannot be parsed",
        default_enabled: true,
        default_severity: Severity::Error,
        minimum_confidence: Confidence::Certain,
        implementation_phase: 0,
        required_profiles: &[],
        required_capabilities: &["source"],
        supersedes: &[],
    };
    assert(metadata@ =~= syntax_error());
    metadata
}

/// What [`INVALID_SUPPRESSION`] declares.
pub open spec fn invalid_suppression() -> MetadataView {
    MetadataView {
        id: "MLC001"@,
        summary: "Invalid or unknown inline suppression comment"@,
        default_enabled: true,
        default_severity: Severity::Warning,
        minimum_confidence: Confidence::Certain,
        implementation_phase: 0,
        required_profiles: seq![],
        required_capabilities: seq!["source"@],
        supersedes: seq![],
    }
}

/// Metadata of rule `MLC001`.
#[allow(non_snake_case)]
pub fn INVALID_SUPPRESSION() -> (metadata: &'static RuleMetadata)
    ensures
        metadata@ == invalid_suppression(),
{
    let metadata: &'static RuleMetadata = &RuleMetadata {
        id: "MLC001",
        summary: "Invalid or unknown inline suppression comment",
        default_enabled: true,
        default_severity: Severity::Warning,
        minimum_confidence: Confidence::Certain,
        implementation_phase: 0,
        required_profiles: &[],
        required_capabilities: &["source"],
        supersedes: &[],
    };
    assert(metadata@ =~= invalid_suppression());
    metadata
}

/// Prefixes of the rule families.
pub open spec fn family_prefixes() -> Seq<Seq<char>> {
    seq!["MLC"@, "MLR"@, "MLP"@, "MLD"@]
}

/// Prefixes of the rule families.
#[allow(non_snake_case)]
pub fn RULE_PREFIXES() -> (prefixes: [&'static str; 4])
    ensures
        crate::text::words(prefixes@) == family_prefixes(),
{
    let prefixes: [&'static str; 4] = ["MLC", "MLR", "MLP", "MLD"];
    assert(crate::text::words(prefixes@) =~= family_prefixes());
    prefixes
}

/// Ids of the rules that the analysis pipeline itself emits.
pub open spec fn pipeline_ids() -> Seq<Seq<char>> {
    seq!["MLC000"@, "MLC001"@]
}

/// Rule ids emitted by the analysis pipeline itself (parse and suppression
/// handling) rather than by a registered rule.
#[allow(non_snake_case)]
pub fn PIPELINE_RULE_IDS() -> (ids: [&'static str; 2])
    ensures
        crate::text::words(ids@) == pipeline_ids(),
{
    let ids: [&'static str; 2] = ["MLC000", "MLC001"];
    assert(crate::text::words(ids@) =~= pipeline_ids());
    ids
}

/// Every registered rule, group by group.
#[verifier::opaque]
pub open spec fn every_rule() -> Seq<RegisteredRule> {
    lifecycle::registered() + rendering::registered() + performance::registered()
        + portability::registered()
}

/// Every registered rule, composed from the rule groups.
pub fn all_rules() -> (rules: Vec<RegisteredRule>)
    ensures
        rules@ == every_rule(),
{
    let mut rules: Vec<RegisteredRule> = lifecycle::rules();
    let mut more: Vec<RegisteredRule> = rendering::rules();
    rules.append(&mut more);
    more = performance::rules();
    rules.append(&mut more);
    more = portability::rules();
    rules.append(&mut more);
    proof {
        reveal(every_rule);
    }
    rules
}

/// What a registered rule declares.
#[verifier::opaque]
pub open spec fn facts(rule: RegisteredRule) -> MetadataView {
    rule.declared()
}

fn facts_of(rule: &RegisteredRule) -> (metadata: &'static RuleMetadata)
    ensures
        metadata@ == facts(*rule),
{
    reveal(facts);
    rule.metadata()
}

// ---------------------------------------------------------------------------
// Selection.
// ---------------------------------------------------------------------------

/// Whether a selector names the rule: by its exact id, or by its family
/// prefix.
pub open spec fn selects(selector: Seq<char>, rule_id: Seq<char>) -> bool {
    selector == rule_id || (family_prefixes().contains(selector) && occurs_at(
        rule_id,
        selector,
        0,
    ))
}

pub fn selector_matches(selector: &str, rule_id: &str) -> (matches: bool)
    ensures
        matches == selects(selector@, rule_id@),
{
    same_text(selector, rule_id) || (is_family_prefix(selector) && starts_with(rule_id, selector))
}

fn is_family_prefix(selector: &str) -> (is: bool)
    ensures
        is == family_prefixes().contains(selector@),
{
    let prefixes: [&'static str; 4] = RULE_PREFIXES();
    crate::text::has_word(&prefixes, selector)
}

/// Whether one of the selectors names the rule.
pub open spec fn any_selects(selectors: Seq<String>, rule_id: Seq<char>) -> bool {
    exists|i: int| 0 <= i < selectors.len() && selects((#[trigger] selectors[i])@, rule_id)
}

fn any_matches(selectors: &[String], rule_id: &str) -> (matches: bool)
    ensures
        matches == any_selects(selectors@, rule_id@),
{
    let mut i: usize = 0;
    while i < selectors.len()
        invariant
            i <= selectors@.len(),
            forall|j: int| 0 <= j < i ==> !selects((#[trigger] selectors@[j])@, rule_id@),
        decreases selectors@.len() - i,
    {
        if selector_matches(selectors[i].as_str(), rule_id) {
            return true;
        }
        i += 1;
    }
    false
}

/// Whether one of the selectors is exactly the rule id.
pub open spec fn names_exactly(selectors: Seq<String>, rule_id: Seq<char>) -> bool {
    exists|i: int| 0 <= i < selectors.len() && (#[trigger] selectors[i])@ == rule_id
}

fn is_named_exactly(selectors: &[String], rule_id: &str) -> (named: bool)
    ensures
        named == names_exactly(selectors@, rule_id@),
{
    let mut i: usize = 0;
    while i < selectors.len()
        invariant
            i <= selectors@.len(),
            forall|j: int| 0 <= j < i ==> (#[trigger] selectors@[j])@ != rule_id@,
        decreases selectors@.len() - i,
    {
        if same_text(selectors[i].as_str(), rule_id) {
            return true;
        }
        i += 1;
    }
    false
}

/// Whether the selection itself wants the rule: some selector names it, no
/// ignored selector does, and an opt-in rule is named by its exact id.
pub open spec fn wanted_directly(
    metadata: MetadataView,
    select: Seq<String>,
    ignore: Seq<String>,
) -> bool {
    any_selects(select, metadata.id) && !any_selects(ignore, metadata.id) && (
    metadata.default_enabled || names_exactly(select, metadata.id))
}

/// Whether the selector configuration enables `rule_id`: some `select`
/// selector matches it and no `ignore` selector does.
fn selector_enabled(rule_id: &str, select: &[String], ignore: &[String]) -> (enabled: bool)
    ensures
        enabled == (any_selects(select@, rule_id@) && !any_selects(ignore@, rule_id@)),
{
    any_matches(select, rule_id) && !any_matches(ignore, rule_id)
}

/// Whether a rule supersedes the rule with this id.
pub open spec fn replaces(rule: RegisteredRule, id: Seq<char>) -> bool {
    facts(rule).supersedes.contains(id)
}

/// The rules of a list that supersede the rule with this id.
pub open spec fn replacing(rules: Seq<RegisteredRule>, id: Seq<char>) -> Seq<RegisteredRule>
    decreases rules.len(),
{
    if rules.len() == 0 {
        Seq::empty()
    } else if replaces(rules.last(), id) {
        replacing(rules.drop_last(), id).push(rules.last())
    } else {
        replacing(rules.drop_last(), id)
    }
}

/// The registered rules that supersede a rule.
pub open spec fn supersessors() -> spec_fn(RegisteredRule) -> Seq<RegisteredRule> {
    |rule: RegisteredRule| replacing(every_rule(), facts(rule).id)
}

proof fn replacing_is_exact(rules: Seq<RegisteredRule>, id: Seq<char>, other: RegisteredRule)
    ensures
        replacing(rules, id).contains(other) <==> rules.contains(other) && replaces(other, id),
    decreases rules.len(),
{
    if rules.len() > 0 {
        let fewer = rules.drop_last();
        let list = replacing(rules, id);
        replacing_is_exact(fewer, id, other);
        if list.contains(other) {
            let k = choose|k: int| 0 <= k < list.len() && list[k] == other;
            if k < replacing(fewer, id).len() {
                assert(replacing(fewer, id)[k] == other);
                let m = choose|m: int| 0 <= m < fewer.len() && fewer[m] == other;
                assert(rules[m] == other);
            } else {
                assert(rules[rules.len() - 1] == other);
            }
        }
        if rules.contains(other) && replaces(other, id) {
            let m = choose|m: int| 0 <= m < rules.len() && rules[m] == other;
            if m < fewer.len() {
                assert(fewer[m] == other);
                let k = choose|k: int|
                    0 <= k < replacing(fewer, id).len() && replacing(fewer, id)[k] == other;
                assert(list[k] == other);
            } else {
                assert(list[list.len() - 1] == other);
            }
        }
    }
}

/// Whether a selection enables a rule: the rule is wanted directly, or
/// supersedes, over any number of steps, one that is.
pub open spec fn enables(select: Seq<String>, ignore: Seq<String>, rule: RegisteredRule) -> bool {
    exists|wanted: RegisteredRule| #[trigger]
        every_rule().contains(wanted) && wanted_directly(facts(wanted), select, ignore)
            && reachable(supersessors(), wanted, rule)
}

/// The rules of a list that a selection enables, one by one.
pub open spec fn enabled_parts(select: Seq<String>, ignore: Seq<String>) -> spec_fn(int) -> Seq<
    RegisteredRule,
> {
    |i: int|
        if enables(select, ignore, every_rule()[i]) {
            seq![every_rule()[i]]
        } else {
            Seq::empty()
        }
}

/// The rules that a selection enables, in registry order.
pub open spec fn enabled(select: Seq<String>, ignore: Seq<String>) -> Seq<RegisteredRule> {
    gather(every_rule().len() as int, enabled_parts(select, ignore))
}

/// A rule that supersedes an enabled rule is enabled.
pub proof fn supersessor_joins(
    select: Seq<String>,
    ignore: Seq<String>,
    generic: RegisteredRule,
    specific: RegisteredRule,
)
    requires
        every_rule().contains(specific),
        enables(select, ignore, generic),
        replaces(specific, facts(generic).id),
    ensures
        enables(select, ignore, specific),
{
    let wanted = choose|wanted: RegisteredRule| #[trigger]
        every_rule().contains(wanted) && wanted_directly(facts(wanted), select, ignore)
            && reachable(supersessors(), wanted, generic);
    replacing_is_exact(every_rule(), facts(generic).id, specific);
    reaches_next(supersessors(), wanted, generic, specific);
}

/// A rule that is wanted directly is enabled.
pub proof fn wanted_is_enabled(select: Seq<String>, ignore: Seq<String>, rule: RegisteredRule)
    requires
        every_rule().contains(rule),
        wanted_directly(facts(rule), select, ignore),
    ensures
        enables(select, ignore, rule),
{
    reaches_itself(supersessors(), rule);
}

/// A rule that supersedes nothing is enabled only when it is wanted
/// directly: an opt-in rule needs its exact id among the selectors, and an
/// ignored selector wins.
pub proof fn only_supersessors_join(
    select: Seq<String>,
    ignore: Seq<String>,
    rule: RegisteredRule,
)
    requires
        facts(rule).supersedes.len() == 0,
        enables(select, ignore, rule),
    ensures
        wanted_directly(facts(rule), select, ignore),
{
    let wanted = choose|wanted: RegisteredRule| #[trigger]
        every_rule().contains(wanted) && wanted_directly(facts(wanted), select, ignore)
            && reachable(supersessors(), wanted, rule);
    let path = choose|path: Seq<RegisteredRule>|
        #[trigger] is_path(supersessors(), path) && path[0] == wanted && path.last() == rule;
    if path.len() > 1 {
        let before = path[path.len() - 2];
        assert(supersessors()(before).contains(path[(path.len() - 2) + 1]));
        replacing_is_exact(every_rule(), facts(before).id, rule);
    }
}

/// Whether a list holds a text.
pub open spec fn holds_text(list: Seq<String>, text: Seq<char>) -> bool {
    exists|k: int| 0 <= k < list.len() && (#[trigger] list[k])@ == text
}

/// More selectors, or fewer ignored ones, never disable a rule.
pub proof fn selection_is_monotone(
    select: Seq<String>,
    ignore: Seq<String>,
    wider: Seq<String>,
    narrower: Seq<String>,
    rule: RegisteredRule,
)
    requires
        forall|i: int| 0 <= i < select.len() ==> holds_text(wider, (#[trigger] select[i])@),
        forall|i: int| 0 <= i < narrower.len() ==> holds_text(ignore, (#[trigger] narrower[i])@),
        enables(select, ignore, rule),
    ensures
        enables(wider, narrower, rule),
{
    let wanted = choose|wanted: RegisteredRule| #[trigger]
        every_rule().contains(wanted) && wanted_directly(facts(wanted), select, ignore)
            && reachable(supersessors(), wanted, rule);
    let id = facts(wanted).id;
    let i = choose|i: int| 0 <= i < select.len() && selects((#[trigger] select[i])@, id);
    let k = choose|k: int| 0 <= k < wider.len() && (#[trigger] wider[k])@ == select[i]@;
    assert(selects(wider[k]@, id));
    if any_selects(narrower, id) {
        let j = choose|j: int| 0 <= j < narrower.len() && selects((#[trigger] narrower[j])@, id);
        let m = choose|m: int| 0 <= m < ignore.len() && (#[trigger] ignore[m])@ == narrower[j]@;
        assert(selects(ignore[m]@, id));
    }
    if names_exactly(select, id) {
        let e = choose|e: int| 0 <= e < select.len() && (#[trigger] select[e])@ == id;
        let w = choose|w: int| 0 <= w < wider.len() && (#[trigger] wider[w])@ == select[e]@;
        assert(wider[w]@ == id);
    }
    assert(wanted_directly(facts(wanted), wider, narrower));
}

/// Whether a rule supersedes one of the rules that are marked.
spec fn pulled(rules: Seq<RegisteredRule>, marks: Seq<bool>, i: int) -> bool {
    exists|j: int|
        0 <= j < rules.len() && marks[j] && replaces(rules[i], facts(#[trigger] rules[j]).id)
}

/// Number of rules that are not marked.
spec fn unmarked(marks: Seq<bool>) -> nat
    decreases marks.len(),
{
    if marks.len() == 0 {
        0
    } else {
        unmarked(marks.drop_last()) + if marks.last() {
            0nat
        } else {
            1nat
        }
    }
}

proof fn marking_shrinks(marks: Seq<bool>, i: int)
    requires
        0 <= i < marks.len(),
        !marks[i],
    ensures
        unmarked(marks.update(i, true)) < unmarked(marks),
    decreases marks.len(),
{
    let after = marks.update(i, true);
    if i == marks.len() - 1 {
        assert(after.drop_last() =~= marks.drop_last());
    } else {
        assert(after.drop_last() =~= marks.drop_last().update(i, true));
        marking_shrinks(marks.drop_last(), i);
    }
}

fn has_id(ids: &[&'static str], id: &str) -> (held: bool)
    ensures
        held == crate::text::words(ids@).contains(id@),
{
    crate::text::has_word(ids, id)
}

/// Whether the rule at `i` supersedes a marked rule.
fn is_pulled(rules: &Vec<RegisteredRule>, marks: &Vec<bool>, i: usize) -> (found: bool)
    requires
        i < rules@.len(),
        marks@.len() == rules@.len(),
    ensures
        found == pulled(rules@, marks@, i as int),
{
    let metadata = facts_of(&rules[i]);
    let mut j: usize = 0;
    while j < rules.len()
        invariant
            i < rules@.len(),
            j <= rules@.len(),
            marks@.len() == rules@.len(),
            metadata@ == facts(rules@[i as int]),
            forall|k: int|
                0 <= k < j ==> !(marks@[k] && replaces(
                    rules@[i as int],
                    facts(#[trigger] rules@[k]).id,
                )),
        decreases rules@.len() - j,
    {
        if marks[j] && has_id(metadata.supersedes, facts_of(&rules[j]).id) {
            assert(replaces(rules@[i as int], facts(rules@[j as int]).id));
            return true;
        }
        j += 1;
    }
    false
}

/// Whether each mark has a reason: the rule is wanted directly, or
/// supersedes a marked rule.
spec fn justified(
    rules: Seq<RegisteredRule>,
    marks: Seq<bool>,
    select: Seq<String>,
    ignore: Seq<String>,
) -> bool {
    forall|i: int|
        0 <= i < rules.len() && #[trigger] marks[i] ==> wanted_directly(
            facts(rules[i]),
            select,
            ignore,
        ) || pulled(rules, marks, i)
}

/// Whether every mark belongs to an enabled rule, and every rule that is
/// wanted directly has a mark.
spec fn sound(
    rules: Seq<RegisteredRule>,
    marks: Seq<bool>,
    select: Seq<String>,
    ignore: Seq<String>,
) -> bool {
    &&& marks.len() == rules.len()
    &&& rules == every_rule()
    &&& forall|i: int|
        0 <= i < rules.len() && #[trigger] marks[i] ==> enables(select, ignore, rules[i])
    &&& forall|i: int|
        0 <= i < rules.len() && wanted_directly(
            facts(#[trigger] rules[i]),
            select,
            ignore,
        ) ==> marks[i]
}

proof fn pulled_is_enabled(
    rules: Seq<RegisteredRule>,
    marks: Seq<bool>,
    select: Seq<String>,
    ignore: Seq<String>,
    i: int,
)
    requires
        sound(rules, marks, select, ignore),
        0 <= i < rules.len(),
        pulled(rules, marks, i),
    ensures
        enables(select, ignore, rules[i]),
{
    let j = choose|j: int|
        0 <= j < rules.len() && marks[j] && replaces(
            rules[i],
            facts(#[trigger] rules[j]).id,
        );
    assert(every_rule().contains(rules[i]));
    supersessor_joins(select, ignore, rules[j], rules[i]);
}

proof fn closed_marks_are_exact(
    rules: Seq<RegisteredRule>,
    marks: Seq<bool>,
    select: Seq<String>,
    ignore: Seq<String>,
    i: int,
)
    requires
        sound(rules, marks, select, ignore),
        justified(rules, marks, select, ignore),
        forall|k: int| 0 <= k < rules.len() && pulled(rules, marks, k) ==> #[trigger] marks[k],
        0 <= i < rules.len(),
    ensures
        marks[i] == enables(select, ignore, rules[i]),
{
    if enables(select, ignore, rules[i]) {
        let wanted = choose|wanted: RegisteredRule| #[trigger]
            every_rule().contains(wanted) && wanted_directly(facts(wanted), select, ignore)
                && reachable(supersessors(), wanted, rules[i]);
        let inside = |rule: RegisteredRule|
            exists|k: int| 0 <= k < rules.len() && #[trigger] rules[k] == rule && marks[k];
        let w = choose|w: int| 0 <= w < rules.len() && rules[w] == wanted;
        assert(rules[w] == wanted && marks[w]);
        assert(inside(wanted));
        assert forall|a: RegisteredRule, b: RegisteredRule|
            inside(a) && #[trigger] supersessors()(a).contains(b) implies inside(b) by {
            let k = choose|k: int| 0 <= k < rules.len() && #[trigger] rules[k] == a && marks[k];
            replacing_is_exact(every_rule(), facts(a).id, b);
            let m = choose|m: int| 0 <= m < rules.len() && rules[m] == b;
            assert(replaces(rules[m], facts(rules[k]).id));
            assert(pulled(rules, marks, m));
            assert(marks[m]);
        }
        closed_holds_reachable(supersessors(), inside, wanted, rules[i]);
        let k = choose|k: int|
            0 <= k < rules.len() && #[trigger] rules[k] == rules[i] && marks[k];
        if wanted_directly(facts(rules[k]), select, ignore) {
            assert(marks[i]);
        } else {
            assert(pulled(rules, marks, k));
            let j = choose|j: int|
                0 <= j < rules.len() && marks[j] && replaces(
                    rules[k],
                    facts(#[trigger] rules[j]).id,
                );
            assert(replaces(rules[i], facts(rules[j]).id));
            assert(pulled(rules, marks, i));
        }
    }
}

/// Marks the rules that the selection wants directly.
fn mark_wanted(rules: &Vec<RegisteredRule>, select: &[String], ignore: &[String]) -> (marks: Vec<
    bool,
>)
    requires
        rules@ == every_rule(),
    ensures
        sound(rules@, marks@, select@, ignore@),
        justified(rules@, marks@, select@, ignore@),
{
    let mut marks: Vec<bool> = Vec::new();
    let mut i: usize = 0;
    while i < rules.len()
        invariant
            i <= rules@.len(),
            marks@.len() == i,
            forall|j: int|
                0 <= j < i ==> #[trigger] marks@[j] == wanted_directly(
                    facts(rules@[j]),
                    select@,
                    ignore@,
                ),
        decreases rules@.len() - i,
    {
        let metadata = facts_of(&rules[i]);
        marks.push(
            selector_enabled(metadata.id, select, ignore) && (metadata.default_enabled
                || is_named_exactly(select, metadata.id)),
        );
        i += 1;
    }
    assert forall|k: int| 0 <= k < rules@.len() && #[trigger] marks@[k] implies enables(
        select@,
        ignore@,
        rules@[k],
    ) by {
        assert(every_rule().contains(rules@[k]));
        wanted_is_enabled(select@, ignore@, rules@[k]);
    }
    marks
}

/// Marks supersessors of marked rules until none is left.
fn close_marks(
    rules: &Vec<RegisteredRule>,
    marks: &mut Vec<bool>,
    Ghost(select): Ghost<Seq<String>>,
    Ghost(ignore): Ghost<Seq<String>>,
)
    requires
        sound(rules@, old(marks)@, select, ignore),
        justified(rules@, old(marks)@, select, ignore),
    ensures
        sound(rules@, final(marks)@, select, ignore),
        justified(rules@, final(marks)@, select, ignore),
        forall|k: int|
            0 <= k < rules@.len() && pulled(rules@, final(marks)@, k)
                ==> #[trigger] final(marks)@[k],
{
    let mut grew: bool = true;
    while grew
        invariant
            sound(rules@, marks@, select, ignore),
            justified(rules@, marks@, select, ignore),
            !grew ==> forall|k: int|
                0 <= k < rules@.len() && pulled(rules@, marks@, k) ==> #[trigger] marks@[k],
        decreases unmarked(marks@), grew as int,
    {
        grew = false;
        let ghost start = marks@;
        let mut i: usize = 0;
        while i < rules.len()
            invariant
                i <= rules@.len(),
                sound(rules@, marks@, select, ignore),
                justified(rules@, marks@, select, ignore),
                !grew ==> marks@ == start,
                !grew ==> forall|k: int|
                    0 <= k < i && pulled(rules@, start, k) ==> #[trigger] start[k],
                grew ==> unmarked(marks@) < unmarked(start),
            decreases rules@.len() - i,
        {
            if !marks[i] && is_pulled(rules, marks, i) {
                let ghost before = marks@;
                proof {
                    pulled_is_enabled(rules@, marks@, select, ignore, i as int);
                    marking_shrinks(marks@, i as int);
                }
                marks.set(i, true);
                proof {
                    assert(marks@ == before.update(i as int, true));
                    assert forall|k: int| 0 <= k < rules@.len() && pulled(
                        rules@,
                        before,
                        k,
                    ) implies pulled(rules@, marks@, k) by {
                        let j = choose|j: int|
                            0 <= j < rules@.len() && before[j] && replaces(
                                rules@[k],
                                facts(#[trigger] rules@[j]).id,
                            );
                        assert(marks@[j]);
                    }
                    assert(pulled(rules@, before, i as int));
                    assert forall|k: int| 0 <= k < rules@.len() && #[trigger] marks@[k] implies
                        wanted_directly(facts(rules@[k]), select, ignore) || pulled(
                        rules@,
                        marks@,
                        k,
                    ) by {
                        if k != i {
                            assert(before[k]);
                        }
                    }
                }
                grew = true;
            }
            i += 1;
        }
    }
}

/// The registered rules a run must execute for a selection: every rule that
/// is selected and not ignored, plus, transitively, every rule that
/// supersedes one of them.
///
/// Opt-in rules join only when a selector names their exact id: a family
/// prefix never enables them.
///
/// Supersession is part of producing diagnostics: a superseding rule must
/// still run when only the generic rule is selected; otherwise the generic
/// diagnostic would come back at spans that the specific rule owns.
pub fn enabled_rules(select: &[String], ignore: &[String]) -> (rules: Vec<RegisteredRule>)
    ensures
        rules@ == enabled(select@, ignore@),
{
    let all: Vec<RegisteredRule> = all_rules();
    let mut marks: Vec<bool> = mark_wanted(&all, select, ignore);
    close_marks(&all, &mut marks, Ghost(select@), Ghost(ignore@));
    let ghost parts = enabled_parts(select@, ignore@);
    let mut rules: Vec<RegisteredRule> = Vec::new();
    let mut i: usize = 0;
    assert(rules@ =~= gather(0, parts));
    while i < all.len()
        invariant
            i <= all@.len(),
            sound(all@, marks@, select@, ignore@),
            justified(all@, marks@, select@, ignore@),
            forall|k: int|
                0 <= k < all@.len() && pulled(all@, marks@, k) ==> #[trigger] marks@[k],
            parts == enabled_parts(select@, ignore@),
            rules@ == gather(i as int, parts),
        decreases all@.len() - i,
    {
        proof {
            closed_marks_are_exact(all@, marks@, select@, ignore@, i as int);
        }
        let ghost before = rules@;
        if marks[i] {
            rules.push(all[i]);
            assert(rules@ =~= before + parts(i as int));
        } else {
            assert(rules@ =~= before + parts(i as int));
        }
        i += 1;
    }
    rules
}

// ---------------------------------------------------------------------------
// Capabilities.
// ---------------------------------------------------------------------------

/// Capability names in order, each once.
pub struct Capabilities {
    names: Vec<&'static str>,
}

impl View for Capabilities {
    type V = Seq<Seq<char>>;

    closed spec fn view(&self) -> Seq<Seq<char>> {
        crate::text::words(self.names@)
    }
}

impl Capabilities {
    /// Whether the set holds a capability.
    pub fn contains(&self, name: &str) -> (held: bool)
        ensures
            held == self@.contains(name@),
    {
        crate::text::has_word(self.names.as_slice(), name)
    }

    pub fn is_empty(&self) -> (empty: bool)
        ensures
            empty == (self@.len() == 0),
    {
        self.names.len() == 0
    }

    /// The capabilities in order.
    pub fn names(&self) -> (names: &[&'static str])
        ensures
            crate::text::words(names@) == self@,
    {
        self.names.as_slice()
    }
}

/// The capabilities of the first `n` words, added to a list at their places.
pub open spec fn with_words(list: Seq<Seq<char>>, more: Seq<Seq<char>>) -> Seq<Seq<char>>
    decreases more.len(),
{
    if more.len() == 0 {
        list
    } else {
        placed_name(with_words(list, more.drop_last()), more.last())
    }
}

/// The capabilities that the rules of a list require, in order, each once.
pub open spec fn required(rules: Seq<RegisteredRule>) -> Seq<Seq<char>>
    decreases rules.len(),
{
    if rules.len() == 0 {
        Seq::empty()
    } else {
        with_words(
            required(rules.drop_last()),
            facts(rules.last()).required_capabilities,
        )
    }
}

proof fn adding_words_is_exact(list: Seq<Seq<char>>, more: Seq<Seq<char>>)
    requires
        ascending_names(list),
    ensures
        ascending_names(with_words(list, more)),
        forall|name: Seq<char>|
            with_words(list, more).contains(name) <==> list.contains(name) || more.contains(name),
    decreases more.len(),
{
    if more.len() > 0 {
        let fewer = more.drop_last();
        adding_words_is_exact(list, fewer);
        crate::ordered::placing_name_keeps_order(with_words(list, fewer), more.last());
        assert forall|name: Seq<char>| more.contains(name) <==> fewer.contains(name) || name
            == more.last() by {
            if more.contains(name) {
                let k = choose|k: int| 0 <= k < more.len() && more[k] == name;
                if k < fewer.len() {
                    assert(fewer[k] == name);
                }
            }
            if fewer.contains(name) {
                let k = choose|k: int| 0 <= k < fewer.len() && fewer[k] == name;
                assert(more[k] == name);
            }
            if name == more.last() {
                assert(more[more.len() - 1] == name);
            }
        }
    }
}

/// The union of capabilities is ascending and holds exactly the
/// capabilities that some rule requires.
pub proof fn union_is_exact(rules: Seq<RegisteredRule>)
    ensures
        ascending_names(required(rules)),
        forall|name: Seq<char>| #[trigger]
            required(rules).contains(name) <==> exists|i: int|
                0 <= i < rules.len() && facts(#[trigger] rules[i]).required_capabilities.contains(name),
    decreases rules.len(),
{
    if rules.len() > 0 {
        let fewer = rules.drop_last();
        union_is_exact(fewer);
        adding_words_is_exact(required(fewer), facts(rules.last()).required_capabilities);
        assert forall|name: Seq<char>| #[trigger]
            required(rules).contains(name) <==> exists|i: int|
                0 <= i < rules.len() && facts(#[trigger] rules[i]).required_capabilities.contains(name) by {
            if required(rules).contains(name) {
                if required(fewer).contains(name) {
                    let i = choose|i: int|
                        0 <= i < fewer.len() && facts(#[trigger] fewer[i]).required_capabilities.contains(name);
                    assert(rules[i] == fewer[i]);
                } else {
                    assert(facts(rules[rules.len() - 1]).required_capabilities.contains(name));
                }
            }
            if exists|i: int|
                0 <= i < rules.len() && facts(#[trigger] rules[i]).required_capabilities.contains(name) {
                let i = choose|i: int|
                    0 <= i < rules.len() && facts(#[trigger] rules[i]).required_capabilities.contains(name);
                if i < fewer.len() {
                    assert(facts(fewer[i]).required_capabilities.contains(name));
                }
            }
        }
    }
}

/// The union of required capabilities over a rule set: the fact layers a run
/// that executes exactly these rules can ever consume.
pub fn capability_union(rules: &[RegisteredRule]) -> (capabilities: Capabilities)
    ensures
        capabilities@ == required(rules@),
{
    let mut names: Vec<&'static str> = Vec::new();
    let mut i: usize = 0;
    assert(crate::text::words(names@) =~= required(rules@.take(0)));
    while i < rules.len()
        invariant
            i <= rules@.len(),
            crate::text::words(names@) == required(rules@.take(i as int)),
        decreases rules@.len() - i,
    {
        assert(rules@.take(i + 1).drop_last() =~= rules@.take(i as int));
        let metadata = facts_of(&rules[i]);
        let more: &'static [&'static str] = metadata.required_capabilities;
        let ghost base = crate::text::words(names@);
        let ghost added = crate::text::words(more@);
        let mut k: usize = 0;
        assert(added.take(0) =~= Seq::empty());
        while k < more.len()
            invariant
                k <= more@.len(),
                added == crate::text::words(more@),
                crate::text::words(names@) == with_words(base, added.take(k as int)),
            decreases more@.len() - k,
        {
            assert(added.take(k + 1).drop_last() =~= added.take(k as int));
            assert(added.take(k + 1).last() == more@[k as int]@);
            place_word(&mut names, more[k]);
            k += 1;
        }
        assert(added.take(k as int) =~= added);
        i += 1;
    }
    assert(rules@.take(i as int) =~= rules@);
    Capabilities { names }
}

// ---------------------------------------------------------------------------
// Metadata.
// ---------------------------------------------------------------------------

/// What the first rule with this id declares, from position `i` on.
pub open spec fn declared_from(rules: Seq<RegisteredRule>, id: Seq<char>, i: int) -> Option<
    MetadataView,
>
    decreases rules.len() - i,
{
    if i < 0 || i >= rules.len() {
        None
    } else if facts(rules[i]).id == id {
        Some(facts(rules[i]))
    } else {
        declared_from(rules, id, i + 1)
    }
}

/// What the implemented rule with this id declares.
pub open spec fn metadata_of(id: Seq<char>) -> Option<MetadataView> {
    if id == syntax_error().id {
        Some(syntax_error())
    } else if id == invalid_suppression().id {
        Some(invalid_suppression())
    } else {
        declared_from(every_rule(), id, 0)
    }
}

/// Static metadata for an implemented rule id.
pub fn metadata_for(rule_id: &str) -> (metadata: Option<&'static RuleMetadata>)
    ensures
        match metadata {
            Some(found) => metadata_of(rule_id@) == Some(found@),
            None => metadata_of(rule_id@) is None,
        },
{
    if same_text(rule_id, SYNTAX_ERROR().id) {
        return Some(SYNTAX_ERROR());
    }
    if same_text(rule_id, INVALID_SUPPRESSION().id) {
        return Some(INVALID_SUPPRESSION());
    }
    let rules: Vec<RegisteredRule> = all_rules();
    let mut i: usize = 0;
    while i < rules.len()
        invariant
            i <= rules@.len(),
            rules@ == every_rule(),
            metadata_of(rule_id@) == declared_from(rules@, rule_id@, i as int),
        decreases rules@.len() - i,
    {
        let metadata = facts_of(&rules[i]);
        if same_text(metadata.id, rule_id) {
            return Some(metadata);
        }
        i += 1;
    }
    None
}

/// Whether the current build can emit this rule id.
pub fn is_implemented(rule_id: &str) -> (implemented: bool)
    ensures
        implemented == (metadata_of(rule_id@) is Some),
{
    metadata_for(rule_id).is_some()
}

// ---------------------------------------------------------------------------
// Reserved ids.
// ---------------------------------------------------------------------------

/// The value of a decimal digit.
pub open spec fn digit_of(c: char) -> Option<int> {
    if '0' <= c && c <= '9' {
        Some(c as int - '0' as int)
    } else {
        None
    }
}

/// The family and number of an id of six characters whose last three are
/// digits.
pub open spec fn split_id(id: Seq<char>) -> Option<(Seq<char>, int)> {
    if id.len() != 6 {
        None
    } else {
        match (digit_of(id[3]), digit_of(id[4]), digit_of(id[5])) {
            (Some(a), Some(b), Some(c)) => Some((id.take(3), 100 * a + 10 * b + c)),
            _ => None,
        }
    }
}

fn read_digit(c: char) -> (value: Option<u16>)
    ensures
        match value {
            Some(found) => digit_of(c) == Some(found as int) && found <= 9,
            None => digit_of(c) is None,
        },
{
    if '0' <= c && c <= '9' {
        Some((c as u32 - '0' as u32) as u16)
    } else {
        None
    }
}

fn split_rule_id(rule_id: &str) -> (parts: Option<(String, u16)>)
    ensures
        match parts {
            Some((prefix, number)) => split_id(rule_id@) == Some((prefix@, number as int)),
            None => split_id(rule_id@) is None,
        },
{
    if rule_id.unicode_len() != 6 {
        return None;
    }
    match (
        read_digit(rule_id.get_char(3)),
        read_digit(rule_id.get_char(4)),
        read_digit(rule_id.get_char(5)),
    ) {
        (Some(a), Some(b), Some(c)) => {
            assert(rule_id@.take(3) =~= rule_id@.subrange(0, 3));
            Some((rule_id.substring_char(0, 3).to_owned(), 100 * a + 10 * b + c))
        },
        _ => None,
    }
}

/// The numbers reserved in a family.
pub open spec fn in_family(prefix: Seq<char>, number: int) -> bool {
    (prefix == "MLC"@ && 101 <= number <= 129) || (prefix == "MLR"@ && 101 <= number <= 127) || (
    prefix == "MLP"@ && 201 <= number <= 227) || (prefix == "MLD"@ && 301 <= number <= 307)
}

fn is_in_family(prefix: &str, number: u16) -> (reserved: bool)
    ensures
        reserved == in_family(prefix@, number as int),
{
    (same_text(prefix, "MLC") && 101 <= number && number <= 129) || (same_text(prefix, "MLR")
        && 101 <= number && number <= 127) || (same_text(prefix, "MLP") && 201 <= number && number
        <= 227) || (same_text(prefix, "MLD") && 301 <= number && number <= 307)
}

/// Whether an id is reserved.
pub open spec fn reserved(id: Seq<char>) -> bool {
    pipeline_ids().contains(id) || match split_id(id) {
        Some((prefix, number)) => in_family(prefix, number),
        None => false,
    }
}

fn is_pipeline_id(rule_id: &str) -> (is: bool)
    ensures
        is == pipeline_ids().contains(rule_id@),
{
    let ids: [&'static str; 2] = PIPELINE_RULE_IDS();
    crate::text::has_word(&ids, rule_id)
}

/// Whether the id belongs to a rule, implemented or not.
pub fn is_reserved_rule_id(rule_id: &str) -> (is: bool)
    ensures
        is == reserved(rule_id@),
{
    if is_pipeline_id(rule_id) {
        return true;
    }
    match split_rule_id(rule_id) {
        Some((prefix, number)) => is_in_family(prefix.as_str(), number),
        None => false,
    }
}

/// Whether a selector names a family or a reserved id.
pub open spec fn known_selector(selector: Seq<char>) -> bool {
    family_prefixes().contains(selector) || reserved(selector)
}

/// The first selector of a list that is not known, from position `i` on.
pub open spec fn unknown_from(selectors: Seq<String>, i: int) -> Option<Seq<char>>
    decreases selectors.len() - i,
{
    if i < 0 || i >= selectors.len() {
        None
    } else if known_selector(selectors[i]@) {
        unknown_from(selectors, i + 1)
    } else {
        Some(selectors[i]@)
    }
}

/// Accepts selectors that name a family or a reserved id; the error names
/// the first other one.
pub fn validate_selectors(selectors: &[String], source: &str) -> (result: Result<(), String>)
    ensures
        match result {
            Ok(_) => unknown_from(selectors@, 0) is None,
            Err(message) => match unknown_from(selectors@, 0) {
                Some(selector) => message@ == "unknown rule selector in "@ + source@ + ": "@
                    + selector,
                None => false,
            },
        },
{
    let mut i: usize = 0;
    while i < selectors.len()
        invariant
            i <= selectors@.len(),
            unknown_from(selectors@, 0) == unknown_from(selectors@, i as int),
        decreases selectors@.len() - i,
    {
        let selector: &str = selectors[i].as_str();
        if !is_family_prefix(selector) && !is_reserved_rule_id(selector) {
            return Err(cat4("unknown rule selector in ", source, ": ", selector));
        }
        i += 1;
    }
    Ok(())
}

/// Selectors are accepted exactly when all of them are known.
pub proof fn accepted_iff_known(selectors: Seq<String>)
    ensures
        unknown_from(selectors, 0) is None <==> forall|i: int|
            0 <= i < selectors.len() ==> known_selector((#[trigger] selectors[i])@),
{
    known_from(selectors, 0);
}

proof fn known_from(selectors: Seq<String>, i: int)
    requires
        0 <= i <= selectors.len(),
    ensures
        unknown_from(selectors, i) is None <==> forall|j: int|
            i <= j < selectors.len() ==> known_selector((#[trigger] selectors[j])@),
    decreases selectors.len() - i,
{
    if i < selectors.len() {
        known_from(selectors, i + 1);
    }
}

/// Rendering rules that came with the renderer-specific phase.
pub open spec fn renderer_phase(number: int) -> bool {
    number == 107 || number == 108 || number == 109 || number == 111 || number == 112 || (118
        <= number <= 123)
}

/// Lifecycle rules that came with the first phase.
pub open spec fn direct_phase(number: int) -> bool {
    (101 <= number <= 106) || number == 109 || number == 122 || number == 126 || number == 127
}

/// The phase of a numbered rule.
pub open spec fn phase_in(prefix: Seq<char>, number: int) -> Option<u8> {
    if !in_family(prefix, number) {
        None
    } else if prefix == "MLP"@ {
        Some(3)
    } else if prefix == "MLD"@ {
        Some(4)
    } else if prefix == "MLR"@ {
        if renderer_phase(number) {
            Some(4)
        } else {
            Some(1)
        }
    } else if direct_phase(number) {
        Some(1)
    } else {
        Some(2)
    }
}

/// The phase of a rule id.
pub open spec fn phase_of(id: Seq<char>) -> Option<u8> {
    if pipeline_ids().contains(id) {
        Some(0)
    } else {
        match split_id(id) {
            Some((prefix, number)) => phase_in(prefix, number),
            None => None,
        }
    }
}

/// The phase in which a reserved rule is implemented.
pub fn implementation_phase(rule_id: &str) -> (phase: Option<u8>)
    ensures
        phase == phase_of(rule_id@),
{
    if is_pipeline_id(rule_id) {
        return Some(0);
    }
    let (prefix, number) = match split_rule_id(rule_id) {
        Some(parts) => parts,
        None => {
            return None;
        },
    };
    if !is_in_family(prefix.as_str(), number) {
        return None;
    }
    if same_text(prefix.as_str(), "MLP") {
        Some(3)
    } else if same_text(prefix.as_str(), "MLD") {
        Some(4)
    } else if same_text(prefix.as_str(), "MLR") {
        if number == 107 || number == 108 || number == 109 || number == 111 || number == 112 || (118
            <= number && number <= 123) {
            Some(4)
        } else {
            Some(1)
        }
    } else if (101 <= number && number <= 106) || number == 109 || number == 122 || number == 126
        || number == 127 {
        Some(1)
    } else {
        Some(2)
    }
}

/// Exactly the reserved ids have a phase.
pub proof fn reserved_iff_phased(id: Seq<char>)
    ensures
        reserved(id) <==> phase_of(id) is Some,
{
}

/// Ids of one family from number `low` to `high`.
pub open spec fn numbered(prefix: Seq<char>, low: int, high: int) -> Seq<Seq<char>> {
    Seq::new((high - low + 1) as nat, |i: int| prefix + numeral((low + i) as nat))
}

/// All reserved ids in order.
pub open spec fn reserved_ids() -> Seq<Seq<char>> {
    pipeline_ids() + numbered("MLC"@, 101, 129) + numbered("MLD"@, 301, 307) + numbered(
        "MLP"@,
        201,
        227,
    ) + numbered("MLR"@, 101, 127)
}

fn add_numbered(list: &mut Vec<String>, prefix: &str, low: u64, high: u64)
    requires
        low <= high < 1000,
    ensures
        texts(final(list)@) == texts(old(list)@) + numbered(prefix@, low as int, high as int),
{
    let ghost start = texts(list@);
    let ghost wanted = numbered(prefix@, low as int, high as int);
    let mut number: u64 = low;
    assert(texts(list@) =~= start + wanted.take(0));
    while number <= high
        invariant
            low <= number <= high + 1,
            high < 1000,
            wanted == numbered(prefix@, low as int, high as int),
            texts(list@) == start + wanted.take(number - low),
        decreases high + 1 - number,
    {
        let ghost before = list@;
        let id: String = cat2(prefix, decimal(number).as_str());
        list.push(id);
        assert(texts(list@) =~= texts(before).push(id@));
        assert(wanted.take(number - low + 1) =~= wanted.take(number - low).push(
            wanted[number - low],
        ));
        assert(texts(list@) =~= start + wanted.take(number - low + 1));
        number += 1;
    }
    assert(wanted.take(number - low) =~= wanted);
}

/// Every reserved rule id, sorted.
pub fn all_reserved_rule_ids() -> (ids: Vec<String>)
    ensures
        texts(ids@) == reserved_ids(),
{
    let mut ids: Vec<String> = vec!["MLC000".to_owned(), "MLC001".to_owned()];
    assert(texts(ids@) =~= pipeline_ids());
    add_numbered(&mut ids, "MLC", 101, 129);
    add_numbered(&mut ids, "MLD", 301, 307);
    add_numbered(&mut ids, "MLP", 201, 227);
    add_numbered(&mut ids, "MLR", 101, 127);
    ids
}

} // verus!
