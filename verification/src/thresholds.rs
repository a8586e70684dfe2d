//! Gates: quantities that must be proven large before a rule fires.
use crate::json::{bounds_view, json_object4, json_text, num_bounds_json, Json, JsonView};
use crate::numbers::Num;
use crate::text::{cat5, decimal, numeral, words};
use vstd::prelude::*;

verus! {

/// A quantity with the least value that counts.
pub struct Threshold {
    pub name: &'static str,
    pub quantity: &'static str,
    pub minimum: u32,
    /// Rules that fire on it.
    pub rule_ids: &'static [&'static str],
}

/// What a [`Threshold`] states.
#[verifier::ext_equal]
pub struct GateView {
    pub name: Seq<char>,
    pub quantity: Seq<char>,
    pub minimum: u32,
    pub rule_ids: Seq<Seq<char>>,
}

impl View for Threshold {
    type V = GateView;

    open spec fn view(&self) -> GateView {
        GateView {
            name: self.name@,
            quantity: self.quantity@,
            minimum: self.minimum,
            rule_ids: words(self.rule_ids@),
        }
    }
}

impl GateView {
    /// Whether the value is known to be at least the minimum.
    pub open spec fn passes(self, value: Num) -> bool {
        match value.spec_lower_bound() {
            Some(lower) => lower.reaches(self.minimum),
            None => false,
        }
    }

    /// The threshold and the value that was held against it.
    pub open spec fn evidence(self, value: Num) -> JsonView {
        JsonView::Object(
            seq![
                ("threshold"@, JsonView::Text(self.name)),
                ("quantity"@, JsonView::Text(self.quantity)),
                ("minimum"@, JsonView::Whole(self.minimum as int)),
                ("value"@, bounds_view(value)),
            ],
        )
    }

    /// The threshold in words.
    pub open spec fn citation(self) -> Seq<char> {
        self.name + ": "@ + self.quantity + " >= "@ + numeral(self.minimum as nat)
    }
}

impl Threshold {
    /// Whether the lower bound of `value` proves the minimum.
    pub fn confirmed_by(&self, value: &Num) -> (confirmed: bool)
        ensures
            confirmed == self@.passes(*value),
    {
        match value.lower_bound() {
            Some(lower) => lower.at_least(self.minimum),
            None => false,
        }
    }

    /// The threshold and the value that was held against it.
    pub fn evidence(&self, value: &Num) -> (evidence: Json)
        ensures
            evidence@ == self@.evidence(*value),
    {
        json_object4(
            "threshold",
            json_text(self.name),
            "quantity",
            json_text(self.quantity),
            "minimum",
            Json::Whole(self.minimum as i128),
            "value",
            num_bounds_json(value),
        )
    }

    /// The threshold in words.
    pub fn citation(&self) -> (text: String)
        ensures
            text@ == self@.citation(),
    {
        cat5(self.name, ": ", self.quantity, " >= ", decimal(self.minimum as u64).as_str())
    }
}

/// What [`TRANSFORM_FAMILY_GATE`] states.
pub open spec fn transform_family_gate() -> GateView {
    GateView {
        name: "transform-family-gate"@,
        quantity: "N_family"@,
        minimum: 32,
        rule_ids: seq!["MLP207"@],
    }
}

/// Source families from this size on are expensive to align.
#[allow(non_snake_case)]
pub fn TRANSFORM_FAMILY_GATE() -> (gate: &'static Threshold)
    ensures
        gate@ == transform_family_gate(),
{
    let gate: &'static Threshold = &Threshold {
        name: "transform-family-gate",
        quantity: "N_family",
        minimum: 32,
        rule_ids: &["MLP207"],
    };
    assert(gate@ =~= transform_family_gate());
    gate
}

/// What [`TRANSFORM_CURVE_INSERTION_GATE`] states.
pub open spec fn transform_curve_insertion_gate() -> GateView {
    GateView {
        name: "transform-curve-insertion-gate"@,
        quantity: "N_curve_insertion"@,
        minimum: 256,
        rule_ids: seq!["MLP207"@],
    }
}

/// Curve insertions from this count on are expensive.
#[allow(non_snake_case)]
pub fn TRANSFORM_CURVE_INSERTION_GATE() -> (gate: &'static Threshold)
    ensures
        gate@ == transform_curve_insertion_gate(),
{
    let gate: &'static Threshold = &Threshold {
        name: "transform-curve-insertion-gate",
        quantity: "N_curve_insertion",
        minimum: 256,
        rule_ids: &["MLP207"],
    };
    assert(gate@ =~= transform_curve_insertion_gate());
    gate
}

/// What [`PER_FRAME_ALLOCATION_GATE`] states.
pub open spec fn per_frame_allocation_gate() -> GateView {
    GateView {
        name: "per-frame-allocation-gate"@,
        quantity: "bytes_per_invocation"@,
        minimum: 65536,
        rule_ids: seq!["MLP211"@],
    }
}

/// Allocations of at least 64 KiB per invocation are large.
#[allow(non_snake_case)]
pub fn PER_FRAME_ALLOCATION_GATE() -> (gate: &'static Threshold)
    ensures
        gate@ == per_frame_allocation_gate(),
{
    let gate: &'static Threshold = &Threshold {
        name: "per-frame-allocation-gate",
        quantity: "bytes_per_invocation",
        minimum: 65536,
        rule_ids: &["MLP211"],
    };
    assert(gate@ =~= per_frame_allocation_gate());
    gate
}

/// What [`CAIRO_SURFACE_FACE_GATE`] states.
pub open spec fn cairo_surface_face_gate() -> GateView {
    GateView {
        name: "cairo-surface-face-gate"@,
        quantity: "N_faces"@,
        minimum: 1024,
        rule_ids: seq!["MLP213"@],
    }
}

/// Surfaces from this face count on are slow under Cairo.
#[allow(non_snake_case)]
pub fn CAIRO_SURFACE_FACE_GATE() -> (gate: &'static Threshold)
    ensures
        gate@ == cairo_surface_face_gate(),
{
    let gate: &'static Threshold = &Threshold {
        name: "cairo-surface-face-gate",
        quantity: "N_faces",
        minimum: 1024,
        rule_ids: &["MLP213"],
    };
    assert(gate@ =~= cairo_surface_face_gate());
    gate
}

/// What [`FULL_SCREEN_TRANSLUCENT_SECONDS_GATE`] states.
pub open spec fn full_screen_translucent_seconds_gate() -> GateView {
    GateView {
        name: "full-screen-translucent-seconds-gate"@,
        quantity: "seconds"@,
        minimum: 5,
        rule_ids: seq!["MLP212"@],
    }
}

/// Translucent full-screen layers are costly from this many seconds on.
#[allow(non_snake_case)]
pub fn FULL_SCREEN_TRANSLUCENT_SECONDS_GATE() -> (gate: &'static Threshold)
    ensures
        gate@ == full_screen_translucent_seconds_gate(),
{
    let gate: &'static Threshold = &Threshold {
        name: "full-screen-translucent-seconds-gate",
        quantity: "seconds",
        minimum: 5,
        rule_ids: &["MLP212"],
    };
    assert(gate@ =~= full_screen_translucent_seconds_gate());
    gate
}

/// Families from `minimum` members on are large.
pub open spec fn large_family_gate(minimum: u32) -> GateView {
    GateView {
        name: "large-family-gate"@,
        quantity: "N_family"@,
        minimum,
        rule_ids: seq!["MLP202"@, "MLP203"@],
    }
}

pub fn large_family(minimum: u32) -> (gate: Threshold)
    ensures
        gate@ == large_family_gate(minimum),
{
    let gate = Threshold {
        name: "large-family-gate",
        quantity: "N_family",
        minimum,
        rule_ids: &["MLP202", "MLP203"],
    };
    assert(gate@ =~= large_family_gate(minimum));
    gate
}

/// Mobjects from `minimum` points on are large.
pub open spec fn large_points_gate(minimum: u32) -> GateView {
    GateView {
        name: "large-points-gate"@,
        quantity: "N_points"@,
        minimum,
        rule_ids: seq!["MLP202"@, "MLP211"@, "MLP224"@],
    }
}

pub fn large_points(minimum: u32) -> (gate: Threshold)
    ensures
        gate@ == large_points_gate(minimum),
{
    let gate = Threshold {
        name: "large-points-gate",
        quantity: "N_points",
        minimum,
        rule_ids: &["MLP202", "MLP211", "MLP224"],
    };
    assert(gate@ =~= large_points_gate(minimum));
    gate
}

} // verus!
