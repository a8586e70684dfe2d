use manim_lint::rules::base::Rule;
use manim_lint::rules::registered::RegisteredRule;
use manim_lint::rules::registry::{
    all_reserved_rule_ids, all_rules, capability_union, enabled_rules, implementation_phase,
    is_implemented, is_reserved_rule_id, metadata_for, selector_matches, validate_selectors,
    PIPELINE_RULE_IDS, RULE_PREFIXES,
};
use manim_lint::rules::{lifecycle, performance, portability, rendering};

fn owned(selectors: &[&str]) -> Vec<String> {
    selectors.iter().map(|s| (*s).to_owned()).collect()
}

fn ids(rules: &[RegisteredRule]) -> Vec<&'static str> {
    rules.iter().map(|rule| rule.metadata().id).collect()
}

#[test]
fn selector_validation_rejects_unknown_ids() {
    assert!(validate_selectors(&["MLC".to_owned()], "select").is_ok());
    assert!(validate_selectors(&["MLC101".to_owned()], "select").is_ok());
    assert!(validate_selectors(&["MLC999".to_owned()], "select").is_err());
}

/// The builtin default select (all four prefixes) enables every
/// default-enabled registered rule, so a default run computes every fact
/// layer. Opt-in rules stay out.
#[test]
fn default_prefixes_enable_every_rule_and_every_capability() {
    let select = owned(&RULE_PREFIXES());
    let rules = enabled_rules(&select, &[]);
    let default_enabled = all_rules()
        .iter()
        .filter(|rule| rule.metadata().default_enabled)
        .count();
    assert_eq!(rules.len(), default_enabled);
    assert!(
        !ids(&rules).contains(&"MLP225"),
        "the opt-in MLP225 must not run under a prefix select"
    );
    let capabilities = capability_union(&rules);
    for capability in ["qualified-calls", "lifecycle", "cost-facts"] {
        assert!(capabilities.contains(capability), "missing {capability}");
    }
}

/// An opt-in rule needs its exact id in `select`.
#[test]
fn opt_in_rules_need_their_exact_id_in_select() {
    assert!(!ids(&enabled_rules(&owned(&["MLP"]), &[])).contains(&"MLP225"));
    let rules = enabled_rules(&owned(&["MLP225"]), &[]);
    assert_eq!(ids(&rules), ["MLP225"]);
    assert!(capability_union(&rules).contains("cost-report"));
    // An ignore still wins over the explicit opt-in.
    assert!(enabled_rules(&owned(&["MLP225"]), &owned(&["MLP225"])).is_empty());
}

/// A select matching no registered rule (`MLC000` is produced by the
/// pipeline) yields an empty capability union.
#[test]
fn pipeline_only_select_needs_no_fact_capability() {
    let rules = enabled_rules(&owned(&["MLC000"]), &[]);
    assert!(rules.is_empty());
    assert!(capability_union(&rules).is_empty());
}

/// A narrow deep-capability select keeps its own requirements.
#[test]
fn narrow_select_keeps_the_selected_rules_capabilities() {
    let rules = enabled_rules(&owned(&["MLP226"]), &[]);
    assert_eq!(ids(&rules), ["MLP226"]);
    let capabilities = capability_union(&rules);
    assert!(capabilities.contains("qualified-calls"));
    assert!(capabilities.contains("cost-facts"));
}

/// Selecting only a superseded generic rule still runs its superseding
/// specific rule.
#[test]
fn superseding_rules_join_the_enabled_set_of_their_generic_rule() {
    let rules = enabled_rules(&owned(&["MLP201"]), &[]);
    let ids = ids(&rules);
    assert!(ids.contains(&"MLP201"));
    assert!(ids.contains(&"MLP226"), "supersessor must run: {ids:?}");
    assert!(capability_union(&rules).contains("cost-facts"));
}

/// An ignored rule stays out of the directly selected set, but a supersessor
/// pulled back in via the closure still runs.
#[test]
fn ignored_supersessor_still_runs_for_its_superseded_rule() {
    let rules = enabled_rules(&owned(&["MLP"]), &owned(&["MLP226"]));
    assert!(ids(&rules).contains(&"MLP226"));
    // Ignoring the generic rule as well removes both.
    let rules = enabled_rules(&owned(&["MLP"]), &owned(&["MLP226", "MLP201"]));
    let ids = ids(&rules);
    assert!(!ids.contains(&"MLP201"));
    assert!(!ids.contains(&"MLP226"));
}

#[test]
fn unknown_selector_is_named_with_its_source() {
    assert_eq!(
        validate_selectors(&owned(&["MLC101", "MLX", "MLC999"]), "ignore"),
        Err("unknown rule selector in ignore: MLX".to_owned())
    );
    assert_eq!(validate_selectors(&owned(&["MLC000", "MLD"]), "select"), Ok(()));
    assert_eq!(validate_selectors(&[], "select"), Ok(()));
}

#[test]
fn reserved_ids_are_sorted_and_recognized() {
    let reserved = all_reserved_rule_ids();
    assert_eq!(reserved.len(), 2 + 29 + 27 + 27 + 7);
    assert_eq!(reserved[0], "MLC000");
    assert_eq!(reserved[1], "MLC001");
    assert_eq!(reserved[2], "MLC101");
    assert_eq!(reserved.last().map(String::as_str), Some("MLR127"));
    let mut sorted = reserved.clone();
    sorted.sort();
    assert_eq!(sorted, reserved);
    for id in &reserved {
        assert!(is_reserved_rule_id(id), "{id}");
        assert!(implementation_phase(id).is_some(), "{id}");
    }
    for id in ["MLC002", "MLC100", "MLC130", "MLR128", "MLP228", "MLD308", "MLX101", "MLC1O1", "MLC01", "mlc101", ""] {
        assert!(!is_reserved_rule_id(id), "{id}");
        assert_eq!(implementation_phase(id), None, "{id}");
    }
}

#[test]
fn phases_follow_the_rule_families() {
    assert_eq!(implementation_phase("MLC000"), Some(0));
    assert_eq!(implementation_phase("MLC101"), Some(1));
    assert_eq!(implementation_phase("MLC107"), Some(2));
    assert_eq!(implementation_phase("MLC127"), Some(1));
    assert_eq!(implementation_phase("MLC129"), Some(2));
    assert_eq!(implementation_phase("MLR104"), Some(1));
    assert_eq!(implementation_phase("MLR107"), Some(4));
    assert_eq!(implementation_phase("MLR110"), Some(1));
    assert_eq!(implementation_phase("MLR123"), Some(4));
    assert_eq!(implementation_phase("MLP201"), Some(3));
    assert_eq!(implementation_phase("MLD307"), Some(4));
}

#[test]
fn registered_rules_are_found_under_their_ids() {
    let rules = all_rules();
    for rule in &rules {
        let metadata = rule.metadata();
        assert!(is_reserved_rule_id(metadata.id));
        assert!(is_implemented(metadata.id));
        assert_eq!(implementation_phase(metadata.id), Some(metadata.implementation_phase));
        assert_eq!(metadata_for(metadata.id).map(|found| found.summary), Some(metadata.summary));
    }
    for id in PIPELINE_RULE_IDS() {
        assert!(is_implemented(id));
    }
    assert_eq!(
        metadata_for("MLC000").map(|found| found.summary),
        Some("Python source cannot be parsed")
    );
    assert!(metadata_for("MLC999").is_none());
}

#[test]
fn groups_register_in_id_order() {
    for (group, prefix) in [
        (lifecycle::rules(), "MLC"),
        (rendering::rules(), "MLR"),
        (performance::rules(), "MLP"),
        (portability::rules(), "MLD"),
    ] {
        let names = ids(&group);
        let mut sorted = names.clone();
        sorted.sort_unstable();
        sorted.dedup();
        assert_eq!(sorted, names);
        assert!(names.iter().all(|id| id.starts_with(prefix) && is_reserved_rule_id(id)));
    }
}

#[test]
fn whole_families_are_registered() {
    for (group, prefix, first, last) in [
        (lifecycle::rules(), "MLC", 101, 129),
        (performance::rules(), "MLP", 201, 227),
        (portability::rules(), "MLD", 301, 307),
    ] {
        let names: Vec<String> = (first..=last).map(|number| format!("{prefix}{number}")).collect();
        assert_eq!(ids(&group), names);
    }
    let rendering: Vec<String> = (101..=127)
        .filter(|number| ![109, 118, 122, 123].contains(number))
        .map(|number| format!("MLR{number}"))
        .collect();
    assert_eq!(ids(&rendering::rules()), rendering);
}

#[test]
fn reserved_ids_are_implemented_unless_open() {
    for id in all_reserved_rule_ids() {
        let open = ["MLR109", "MLR118", "MLR122", "MLR123"].contains(&id.as_str());
        assert_eq!(is_implemented(&id), !open, "{id}");
        let selected = enabled_rules(&owned(&[id.as_str()]), &[]);
        let pipeline = PIPELINE_RULE_IDS().contains(&id.as_str());
        assert_eq!(ids(&selected).contains(&id.as_str()), !open && !pipeline, "{id}");
    }
}

#[test]
fn selectors_match_families_and_exact_ids() {
    assert!(selector_matches("MLC", "MLC101"));
    assert!(selector_matches("MLC101", "MLC101"));
    assert!(!selector_matches("MLC10", "MLC101"));
    assert!(!selector_matches("ML", "MLC101"));
    assert!(!selector_matches("MLR", "MLC101"));
}

#[test]
fn wider_selection_keeps_rules_enabled() {
    let narrow = ids(&enabled_rules(&owned(&["MLP203"]), &owned(&["MLC"])));
    let wide = ids(&enabled_rules(&owned(&["MLP203", "MLD"]), &[]));
    assert_eq!(narrow, ["MLP203", "MLP224"]);
    for id in narrow {
        assert!(wide.contains(&id));
    }
    assert_eq!(wide.len(), 9);
}

#[test]
fn capability_names_are_sorted_and_unique() {
    let rules = all_rules();
    let union = capability_union(&rules);
    let mut sorted = union.names().to_vec();
    sorted.sort_unstable();
    sorted.dedup();
    assert_eq!(sorted, union.names());
    assert!(!union.contains("source"));
}
