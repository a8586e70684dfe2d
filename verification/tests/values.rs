use manim_lint::graph::{curated_reaches, purge_links, reaches, Link};
use manim_lint::json::{json_double, num_bounds_json, Evidence, Json};
use manim_lint::knowledge::{resolve_symbol, rsplit_dot, KnowledgeProfile, SymbolEntry, SymbolKind};
use manim_lint::numbers::{
    at_most, below, bits_of_whole, display_frames, display_seconds, finite, round_to_double, Num,
    NumLit, Real,
};
use manim_lint::ordered::{object_precedes, place, place_name, precedes, text_precedes};
use manim_lint::semantic::{Cardinality, ObjectId};
use manim_lint::source::{AllocationSite, FileId, SourceFile, TextRange};
use manim_lint::text::{decimal, find_part, has_part, is_whitespace, join, lowers_to, short_name, signed_decimal, trim};
use manim_lint::thresholds::{large_family, CAIRO_SURFACE_FACE_GATE, PER_FRAME_ALLOCATION_GATE};

const FILE: FileId = FileId { index: 0 };

fn shown(value: f64) -> Real {
    Real {
        bits: value.to_bits(),
        shown: format!("{value}"),
        rounded: format!("{value:.0}"),
        percent: String::new(),
        size: String::new(),
    }
}

fn exact(value: f64) -> Num {
    Num::Exact(NumLit::Float(shown(value)))
}

fn between(lo: Option<f64>, hi: Option<f64>) -> Num {
    Num::Interval { lo: lo.map(shown), hi: hi.map(shown) }
}

fn node(start: u32) -> ObjectId {
    ObjectId {
        site: AllocationSite::new(FILE, TextRange::new(start, start + 1)),
        cardinality: Cardinality::Singleton,
    }
}

#[test]
fn doubles_compare_as_their_values() {
    let values = [
        f64::NEG_INFINITY,
        -2.5,
        -f64::MIN_POSITIVE,
        -0.0,
        0.0,
        5e-324,
        1.0,
        1.0 + f64::EPSILON,
        f64::MAX,
        f64::INFINITY,
        f64::NAN,
        -f64::NAN,
    ];
    for a in values {
        assert_eq!(finite(a.to_bits()), a.is_finite(), "{a}");
        for b in values {
            assert_eq!(below(a.to_bits(), b.to_bits()), a < b, "{a} {b}");
            assert_eq!(at_most(a.to_bits(), b.to_bits()), a <= b, "{a} {b}");
        }
    }
}

#[test]
fn whole_numbers_become_the_nearest_double() {
    let mut whole: Vec<i64> = vec![0, 1, -1, 2, 3, 1000, i64::MAX, i64::MIN, i64::MAX - 511];
    for power in 52..63_u32 {
        let base = 1_i64 << power;
        for near in [-513, -3, -1, 0, 1, 2, 3, 5, 511, 512, 513] {
            whole.push(base + near);
            whole.push(-base - near);
        }
    }
    for value in whole {
        assert_eq!(bits_of_whole(value), (value as f64).to_bits(), "{value}");
    }
    assert_eq!(round_to_double(9_007_199_254_740_993), 9_007_199_254_740_992);
}

#[test]
fn frame_counts_read_as_estimates() {
    for (frames, text) in [
        (exact(120.0), "~120"),
        (between(Some(120.0), Some(480.5)), "~120 to ~480.5"),
        (between(Some(7.0), Some(7.0)), "~7"),
        (between(None, Some(60.0)), "up to ~60"),
        (between(Some(60.0), None), "at least ~60"),
        (between(Some(-0.0), Some(0.0)), "~0"),
        (Num::Unknown, "per-frame"),
        (Num::Symbol("F".to_owned()), "per-frame"),
        (Num::Exact(NumLit::Int(-3)), "~-3"),
        (Num::Exact(NumLit::Int(9_007_199_254_740_993)), "~9007199254740992"),
    ] {
        assert_eq!(display_frames(&frames), text);
    }
}

#[test]
fn durations_read_in_seconds() {
    for (seconds, text) in [
        (exact(2.0), "2 s"),
        (between(Some(2.0), Some(4.25)), "2 s to 4.25 s"),
        (between(Some(1.5), None), "at least 1.5 s"),
        (between(None, Some(3.0)), "up to 3 s"),
        (Num::Unknown, "unknown"),
    ] {
        assert_eq!(display_seconds(&seconds), text);
    }
}

#[test]
fn thresholds_pass_from_their_minimum_on() {
    let gate = CAIRO_SURFACE_FACE_GATE();
    assert_eq!(gate.minimum, 1024);
    for (value, passes) in [
        (Num::Exact(NumLit::Int(1023)), false),
        (Num::Exact(NumLit::Int(1024)), true),
        (exact(1023.999), false),
        (exact(1024.0), true),
        (exact(f64::NAN), false),
        (between(None, Some(5000.0)), false),
        (between(Some(5000.0), None), true),
        (Num::Unknown, false),
    ] {
        assert_eq!(gate.confirmed_by(&value), passes);
    }
    assert_eq!(PER_FRAME_ALLOCATION_GATE().minimum, 65536);
    assert!(large_family(100).citation().ends_with(" >= 100"));
}

#[test]
fn json_keeps_only_finite_doubles() {
    assert!(matches!(json_double(1.5_f64.to_bits()), Json::Double(bits) if bits == 1.5_f64.to_bits()));
    assert!(matches!(json_double(f64::INFINITY.to_bits()), Json::Null));
    assert!(matches!(json_double(f64::NAN.to_bits()), Json::Null));
    match num_bounds_json(&between(Some(1.0), None)) {
        Json::Object(members) => {
            assert_eq!(members[0].0, "lower");
            assert!(matches!(members[0].1, Json::Double(bits) if bits == 1.0_f64.to_bits()));
            assert_eq!(members[1].0, "upper");
            assert!(matches!(members[1].1, Json::Null));
        }
        _ => panic!("an object"),
    }
    assert!(matches!(num_bounds_json(&Num::Unknown), Json::Null));
}

#[test]
fn evidence_is_sorted_and_the_last_value_counts() {
    let mut evidence = Evidence::new();
    for (key, value) in [("scene", 1), ("call", 2), ("\u{e9}", 3), ("scene", 4), ("Z", 5)] {
        evidence.insert(key, Json::Whole(value));
    }
    let entries = evidence.entries();
    let keys: Vec<&str> = entries.iter().map(|entry| entry.0.as_str()).collect();
    assert_eq!(keys, ["Z", "call", "scene", "\u{e9}"]);
    assert!(matches!(entries[2].1, Json::Whole(4)));
}

#[test]
fn places_are_sorted_without_repetition() {
    let site = |start: u32, end: u32| AllocationSite::new(FILE, TextRange::new(start, end));
    let mut list = Vec::new();
    for (start, end) in [(5, 9), (1, 4), (5, 7), (1, 4), (0, 2)] {
        place(&mut list, site(start, end));
    }
    assert_eq!(list, [site(0, 2), site(1, 4), site(5, 7), site(5, 9)]);
    assert!(precedes(site(1, 4), site(5, 7)) && !precedes(site(1, 4), site(1, 4)));
    let many = ObjectId { cardinality: Cardinality::Many, ..node(1) };
    assert!(object_precedes(node(1), many) && object_precedes(many, node(2)));
}

#[test]
fn names_are_sorted_as_std_sorts_them() {
    let words = ["b", "", "ab", "a", "\u{10ffff}", "B", "a", "\u{e9}", "b"];
    let mut list = Vec::new();
    for word in words {
        place_name(&mut list, word.to_owned());
    }
    let mut expected: Vec<String> = words.iter().map(|word| (*word).to_owned()).collect();
    expected.sort();
    expected.dedup();
    assert_eq!(list, expected);
    for a in words {
        for b in words {
            assert_eq!(text_precedes(a, b), a < b, "{a:?} {b:?}");
        }
    }
}

#[test]
fn reachability_follows_links() {
    let link = |parent: u32, child: u32| Link { parent: node(parent), child: node(child) };
    let links = vec![link(1, 2), link(2, 3), link(3, 2), link(4, 1)];
    for (from, to, reached) in [(1, 3, true), (2, 2, true), (3, 1, false), (4, 3, true), (9, 9, true)] {
        assert_eq!(reaches(&links, node(from), node(to)), reached, "{from} {to}");
    }
    let left = purge_links(&links, node(2));
    assert_eq!(left.len(), 1);
    assert!(!reaches(&left, node(1), node(3)));
}

fn profile(classes: &[(&str, &[&str])]) -> KnowledgeProfile {
    KnowledgeProfile {
        symbols: classes
            .iter()
            .map(|(id, bases)| SymbolEntry {
                id: (*id).to_owned(),
                kind: SymbolKind::Mobject,
                bases: bases.iter().map(|base| (*base).to_owned()).collect(),
                returns_self: None,
                accepted_target: None,
                effects: None,
                renderer: None,
            })
            .collect(),
        exports: Vec::new(),
        svg_cache: None,
        tex_parallel_compile: None,
        fork_capabilities: false,
    }
}

#[test]
fn methods_are_found_along_the_bases() {
    let known = profile(&[
        ("m.A", &["m.B", "m.C"]),
        ("m.B", &["m.A"]),
        ("m.C", &[]),
        ("m.C.run", &[]),
        ("m.B.stop", &[]),
        ("m.C.stop", &[]),
    ]);
    let resolved = |candidate: &str| resolve_symbol(&known, candidate).map(|found| found.0);
    assert_eq!(resolved("m.A.run").as_deref(), Some("m.C.run"));
    // The nearer base wins.
    assert_eq!(resolved("m.A.stop").as_deref(), Some("m.B.stop"));
    assert_eq!(resolved("m.A").as_deref(), Some("m.A"));
    assert_eq!(resolved("m.A.missing"), None);
    assert_eq!(resolved("plain"), None);
    assert!(curated_reaches(&known, "m.B", "m.C"));
    assert!(!curated_reaches(&known, "m.C", "m.A"));
    assert_eq!(rsplit_dot("a.b.c"), Some(("a.b".to_owned(), "c".to_owned())));
    assert_eq!(rsplit_dot("abc"), None);
}

#[test]
fn columns_count_characters() {
    let text = "a = '\u{e9}\u{1f600}'\nb = 1\n";
    let file = SourceFile {
        relative_path: "x.py".to_owned(),
        text: text.to_owned(),
        tokens: Vec::new(),
        syntax: None,
    };
    for (part, line, column) in [("a", 1, 1), ("'\n", 1, 8), ("b", 2, 1), ("1", 2, 5)] {
        let at = text.find(part).expect("the part occurs") as u32;
        let position = file.position_of_byte(at);
        assert_eq!((position.line, position.column), (line, column), "{part:?}");
    }
    let start = text.find('\u{e9}').expect("the letter occurs") as u32;
    assert_eq!(file.slice(TextRange::new(start, start + 6)), "\u{e9}\u{1f600}");
}

#[test]
fn texts_are_cut_and_joined() {
    assert_eq!(decimal(0), "0");
    assert_eq!(decimal(u64::MAX), u64::MAX.to_string());
    assert_eq!(signed_decimal(i64::MIN), i64::MIN.to_string());
    assert_eq!(short_name("manim.a.Create"), "Create");
    assert_eq!(short_name("Create"), "Create");
    assert_eq!(join(&vec!["a".to_owned(), String::new(), "b".to_owned()], ", "), "a, , b");
    assert_eq!(find_part("abcabc", "ca"), Some(2));
    assert!(has_part("abc", "") && !has_part("abc", "ac"));
    assert_eq!(trim("\u{a0}\t x y \u{2003}"), "x y");
    for code in 0..=0x0010_ffff_u32 {
        if let Some(character) = char::from_u32(code) {
            assert_eq!(is_whitespace(character), character.is_whitespace(), "{code:x}");
        }
    }
    assert!(lowers_to("-INF", "-inf") && !lowers_to("\u{c9}", "\u{e9}"));
}
