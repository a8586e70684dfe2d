use manim_lint::ast::{
    BinaryOperator, Expr, Form, FunctionFact, LambdaFact, Parameters, Stmt, StmtKind, Syntax,
    UnaryOperator,
};
use manim_lint::config::{Platform, RenderProfile, Renderer, ResolvedConfig};
use manim_lint::cost::{
    CallCost, CallExecution, CostFacts, ExecutionCertainty, ExecutionPlay, GateCause,
    GateEvaluation, GateVerdict, GeometryFact, HotCall, HotContext, HotEntryKind, HotMutation,
    HotSymbol, HotTargetKind, HotTargetSizeFact, PlayGateOutcome, PlayTotals, ProfileForkPaths,
    SceneForkPaths, SceneMembershipEffect, SizeFact, TransformSize,
};
use manim_lint::diagnostic::{Confidence, Diagnostic, FixApplicability, Severity};
use manim_lint::frontend::{
    ArgShape, CallArgument, CallChain, CallContext, CallableSignature, FileBindingFacts, ImportBinding, LiteralFact,
    ParamKind, Parameter, ProjectIndex, QualifiedCall, QualifiedCallFacts, ReceiverKind, StatementFact, StatementRole,
    StrPrefix,
};
use manim_lint::json::Json;
use manim_lint::knowledge::{
    AcceptedTarget, EffectFacts, ExportEntry, KnowledgeProfile, RendererCompat, SvgCacheFacts, SymbolEntry,
    SymbolKind, TexParallelCompile,
};
use manim_lint::literals::{
    AssetFact, AssetProbe, AssetResolution, LiteralFacts, MarkupError, MarkupFact, TexCollision,
    TexFact,
};
use manim_lint::numbers::{Num, NumLit, Real};
use manim_lint::render_order::{DisplayFact, MemberEvidence, MovingReason, SuffixFact};
use manim_lint::rules::base::{Rule, RuleContext};
use manim_lint::rules::portability::paths::asset_candidates;
use manim_lint::rules::registered::RegisteredRule;
use manim_lint::semantic::{
    AnimateBuilderFact, AnimationState, CallbackRef, CameraKind, Cardinality, Event, FixedAction, FixedKind,
    FixedRegistrationFact, Heap, HeapEntry, KindSet, LifecycleFacts, MobjectState, MutationKind, ObjectId,
    ObjectOwnership, OwnershipInterval,
    PlayCost, PlayFact, PlayKind, PlayedAnimation, Presence, RendererRequirementKind,
    SceneLifecycle, SceneState, StateSnapshot, SuspendBehavior, TargetRequirement,
    TargetRequirementFact, TracedEvent, Truth, UpdaterBodyFact,
    UpdaterFact, UpdaterHost, UpdaterRegistration, UpdaterRemoval, WriteChannel,
};
use manim_lint::source::{AllocationSite, FileId, SourceFile, SourceManager, TextRange};
use manim_lint::supplied::{SuppliedEdit, SuppliedFinding, SuppliedFix, SuppliedPlace};

const PLAY: &str = "manim.scene.scene.Scene.play";
const WAIT: &str = "manim.scene.scene.Scene.wait";
const TEXT: &str = "manim.mobject.text.text_mobject.Text";
const MARKUP: &str = "manim.mobject.text.text_mobject.MarkupText";
const MATH_TEX: &str = "manim.mobject.text.tex_mobject.MathTex";
const SQUARE: &str = "manim.mobject.geometry.polygram.Square";
const SURFACE: &str = "manim.mobject.three_d.three_dimensions.Surface";
const SVG: &str = "manim.mobject.svg.svg_mobject.SVGMobject";
const IMAGE: &str = "manim.mobject.types.image_mobject.ImageMobject";
const REDRAW: &str = "manim.animation.updaters.mobject_update_utils.always_redraw";
const TRACED: &str = "manim.animation.changing.TracedPath";
const PARAMETRIC: &str = "manim.mobject.graphing.functions.ParametricFunction";
const SCREEN: &str = "manim.mobject.frame.FullScreenRectangle";
const ADD_UPDATER: &str = "manim.mobject.mobject.Mobject.add_updater";
const SCENE_ADD: &str = "manim.scene.scene.Scene.add";
const VGROUP: &str = "manim.mobject.types.vectorized_mobject.VGroup";
const TRANSFORM: &str = "manim.animation.transform.Transform";
const CREATE: &str = "manim.animation.creation.Create";
const FILE: FileId = FileId { index: 0 };

fn decimal(value: f64) -> Real {
    let size = if value >= 1024.0 * 1024.0 {
        format!("{:.1} MiB", value / (1024.0 * 1024.0))
    } else {
        format!("{:.0} KiB", value / 1024.0)
    };
    Real {
        bits: value.to_bits(),
        shown: format!("{value}"),
        rounded: format!("{value:.0}"),
        percent: format!("{:.0}", value * 100.0),
        size,
    }
}

fn whole(value: i64) -> Num {
    Num::Exact(NumLit::Int(value))
}

fn number(value: f64) -> Num {
    Num::Exact(NumLit::Float(decimal(value)))
}

fn span(start: u32, end: u32) -> TextRange {
    TextRange::new(start, end)
}

fn site(start: u32, end: u32) -> AllocationSite {
    AllocationSite::new(FILE, span(start, end))
}

fn single(start: u32, end: u32) -> ObjectId {
    ObjectId { site: site(start, end), cardinality: Cardinality::Singleton }
}

fn names(list: &[&str]) -> Vec<String> {
    list.iter().map(|name| (*name).to_owned()).collect()
}

fn kinds(list: &[&str]) -> KindSet {
    KindSet::Known(names(list))
}

/// Range of the first occurrence of a part of the source.
fn at(text: &str, part: &str) -> TextRange {
    let start = text.find(part).expect("the part occurs") as u32;
    span(start, start + part.len() as u32)
}

fn symbol(id: &str, kind: SymbolKind) -> SymbolEntry {
    SymbolEntry {
        id: id.to_owned(),
        kind,
        bases: Vec::new(),
        returns_self: None,
        accepted_target: None,
        effects: None,
        renderer: None,
    }
}

fn fluent(id: &str, returns_self: bool) -> SymbolEntry {
    SymbolEntry { returns_self: Some(returns_self), ..symbol(id, SymbolKind::Method) }
}

fn knowledge() -> KnowledgeProfile {
    let mut traced = symbol(TRACED, SymbolKind::Vmobject);
    traced.effects =
        Some(EffectFacts { registers_updater: Some(true), per_frame_callback: None });
    let mut camera = symbol(
        "manim.scene.moving_camera_scene.MovingCameraScene",
        SymbolKind::Scene,
    );
    camera.renderer = Some(RendererCompat { cairo: Some(true), opengl: Some(false) });
    let mut svg = symbol(SVG, SymbolKind::Vmobject);
    svg.bases = names(&["manim.mobject.mobject.Mobject"]);
    let mut square = symbol(SQUARE, SymbolKind::Vmobject);
    square.bases = names(&["manim.mobject.mobject.Mobject"]);
    KnowledgeProfile {
        symbols: vec![
            symbol(PLAY, SymbolKind::Method),
            symbol(WAIT, SymbolKind::Method),
            symbol(SCENE_ADD, SymbolKind::Method),
            symbol(ADD_UPDATER, SymbolKind::Method),
            symbol("manim.mobject.mobject.Mobject", SymbolKind::Mobject),
            fluent("manim.mobject.mobject.Mobject.shift", true),
            fluent("manim.mobject.mobject.Mobject.get_center", false),
            symbol("manim.mobject.mobject.Mobject.add", SymbolKind::Method),
            symbol("manim.scene.scene.Scene.replace", SymbolKind::Method),
            symbol("manim.scene.scene.Scene.add_updater", SymbolKind::Method),
            symbol(VGROUP, SymbolKind::Vmobject),
            symbol("manim.mobject.mobject.Group", SymbolKind::Mobject),
            symbol("manim.animation.composition.Succession", SymbolKind::Animation),
            symbol("manim.animation.transform.ApplyMethod", SymbolKind::Animation),
            symbol("manim.animation.transform.ApplyFunction", SymbolKind::Animation),
            symbol("manim.animation.animation.Wait", SymbolKind::Animation),
            symbol(TRANSFORM, SymbolKind::Animation),
            symbol(CREATE, SymbolKind::Animation),
            symbol("manim.mobject.mobject.Mobject.set_opacity", SymbolKind::Method),
            symbol(TEXT, SymbolKind::Vmobject),
            symbol(MARKUP, SymbolKind::Vmobject),
            symbol(MATH_TEX, SymbolKind::Vmobject),
            square,
            symbol(SURFACE, SymbolKind::Vmobject),
            svg,
            symbol(IMAGE, SymbolKind::Mobject),
            symbol(SCREEN, SymbolKind::Vmobject),
            symbol(REDRAW, SymbolKind::Function),
            symbol(PARAMETRIC, SymbolKind::Vmobject),
            symbol("manim.constants.RIGHT", SymbolKind::Constant),
            symbol("manim.mobject.text.text_mobject.register_font", SymbolKind::Function),
            traced,
            camera,
        ],
        exports: vec![
            ExportEntry { name: "RIGHT".to_owned(), id: "manim.constants.RIGHT".to_owned() },
            ExportEntry { name: "ParametricFunction".to_owned(), id: PARAMETRIC.to_owned() },
        ],
        svg_cache: Some(SvgCacheFacts {
            process_global: Some(true),
            unbounded: Some(true),
            copies_on_hit: Some(true),
            keyed_by: names(&["path"]),
        }),
        tex_parallel_compile: Some(TexParallelCompile {
            entry_points: names(&["submit", "collect"]),
            same_key_coalesced: Some(true),
            cache_hit_short_circuits: None,
            in_flight_blocks_cairo_fork: Some(false),
        }),
        fork_capabilities: true,
    }
}

fn profile(name: &str, renderer: Renderer, platform: Platform) -> RenderProfile {
    RenderProfile {
        name: name.to_owned(),
        renderer,
        platform,
        frame_rate: decimal(60.0),
        frame_seconds: decimal(1.0 / 60.0),
        pixel_width: 1920,
        pixel_height: 1080,
        working_directory: ".".to_owned(),
        assets_dir: "assets".to_owned(),
        allowed_fonts: Vec::new(),
    }
}

fn cairo() -> RenderProfile {
    profile("cairo", Renderer::Cairo, Platform::Linux)
}

/// Everything a rule reads.
struct World {
    sources: SourceManager,
    config: ResolvedConfig,
    knowledge: Option<KnowledgeProfile>,
    calls: QualifiedCallFacts,
    index: ProjectIndex,
    lifecycle: LifecycleFacts,
    cost: CostFacts,
    literals: LiteralFacts,
    supplied: Vec<SuppliedFinding>,
}

fn world(text: &str) -> World {
    World {
        sources: SourceManager {
            files: vec![SourceFile {
                relative_path: "scene.py".to_owned(),
                text: text.to_owned(),
                tokens: Vec::new(),
                syntax: None,
            }],
            project_root: "/project".to_owned(),
        },
        config: ResolvedConfig { active_profiles: vec![cairo()] },
        knowledge: Some(knowledge()),
        calls: QualifiedCallFacts::empty(),
        index: ProjectIndex::empty(),
        lifecycle: LifecycleFacts::empty(),
        cost: CostFacts::empty(),
        literals: LiteralFacts { tex: Vec::new(), markup: Vec::new(), assets: Vec::new() },
        supplied: Vec::new(),
    }
}

fn run(world: World, rule: RegisteredRule) -> Vec<Diagnostic> {
    let World { sources, config, knowledge, calls, index, lifecycle, cost, literals, supplied } =
        world;
    let mut context = RuleContext::new(&sources, &config);
    if let Some(profile) = &knowledge {
        context = context.with_knowledge(profile);
    }
    let context = context
        .with_frontend(index, calls)
        .with_lifecycle(lifecycle)
        .with_cost(cost)
        .with_literals(literals)
        .with_supplied(supplied);
    let diagnostics = rule.run(&context);
    let active: Vec<&str> =
        config.active_profiles.iter().map(|profile| profile.name.as_str()).collect();
    for diagnostic in &diagnostics {
        assert!(diagnostic.explanation.is_some());
        if rule != RegisteredRule::ForkFastPathLoss {
            assert!(diagnostic.applicable_profiles.iter().all(|name| active.contains(&name.as_str())));
        }
        if let Some(fix) = &diagnostic.fix {
            assert!(fix.edits.iter().all(|edit| edit.path == diagnostic.path));
        }
        assert_eq!(diagnostic.rule_id, rule.metadata().id);
        assert_eq!(diagnostic.severity, rule.metadata().default_severity);
    }
    diagnostics
}

/// Value of an evidence entry.
fn evidence<'d>(diagnostic: &'d Diagnostic, key: &str) -> &'d Json {
    let entries = diagnostic.evidence.entries();
    let entry = entries.into_iter().find(|entry| entry.0 == key).expect("the entry exists");
    &entry.1
}

fn text_of(value: &Json) -> &str {
    match value {
        Json::Text(text) => text,
        _ => panic!("a text"),
    }
}

fn call(range: TextRange, candidate: &str, receiver: ReceiverKind) -> QualifiedCall {
    QualifiedCall {
        file: FILE,
        call_range: range,
        callee_range: range,
        candidates: if candidate.is_empty() { Vec::new() } else { names(&[candidate]) },
        receiver,
        context: CallContext {
            module: "scene".to_owned(),
            class_name: Some("scene.Demo".to_owned()),
            function: Some("construct".to_owned()),
        },
        arguments: Vec::new(),
        positional_count: 0,
        keyword_names: Vec::new(),
        has_star_args: false,
        has_star_star_kwargs: false,
        callee_dotted: None,
        callee_chain: None,
    }
}

fn argument(range: TextRange, literal: Option<LiteralFact>, keyword: Option<&str>) -> CallArgument {
    CallArgument {
        shape: if literal.is_some() { ArgShape::Literal } else { ArgShape::Other },
        range,
        literal,
        keyword: keyword.map(str::to_owned),
        kind_candidates: Vec::new(),
        callable_signature: None,
    }
}

fn with_argument(mut call: QualifiedCall, argument: CallArgument) -> QualifiedCall {
    match &argument.keyword {
        Some(name) => call.keyword_names.push(name.clone()),
        None => call.positional_count += 1,
    }
    call.arguments.push(argument);
    call
}

fn string(value: &str, range: TextRange) -> LiteralFact {
    LiteralFact::Str {
        value: value.to_owned(),
        prefix: StrPrefix { raw: false, bytes: false, formatted: false },
        range,
    }
}

fn bindings(star: &[&str], imports: &[(&str, &str)], bound: &[&str]) -> FileBindingFacts {
    FileBindingFacts {
        file: FILE,
        star_modules: names(star),
        imports: imports
            .iter()
            .map(|(name, target)| ImportBinding {
                name: (*name).to_owned(),
                target: (*target).to_owned(),
            })
            .collect(),
        bound_names: names(bound),
    }
}

fn execution(proven: usize) -> CallExecution {
    CallExecution {
        proven: (0..proven)
            .map(|_| ExecutionPlay {
                site: site(0, 1),
                kind: PlayKind::Play,
                certainty: ExecutionCertainty::Proven,
            })
            .collect(),
        maybe: Vec::new(),
        unresolved: false,
    }
}

fn hot(call_index: usize, proven: usize) -> HotCall {
    HotCall {
        call_index,
        contexts: vec![HotContext {
            entry: HotEntryKind::MobjectUpdater,
            state_path: names(&["update"]),
        }],
        evidence: Json::Object(vec![("frames".to_owned(), Json::Whole(60))]),
        execution: execution(proven),
        proven_frames: Some(whole(120)),
        frame_evidence: Json::Null,
        allocation_bytes: Num::Unknown,
        target_points: Num::Unknown,
    }
}

fn object(kind: KindSet) -> MobjectState {
    MobjectState {
        kind,
        scene_membership: Presence::Present,
        family_membership: Presence::Present,
        updaters: Vec::new(),
        updating_suspended: Truth::No,
        fill_opacity: Num::Unknown,
        stroke_opacity: Num::Unknown,
        stroke_width: Num::Unknown,
        curve_count: Num::Unknown,
    }
}

fn heap(objects: Vec<(ObjectId, MobjectState)>) -> Heap {
    Heap {
        objects: objects.into_iter().map(|(id, state)| HeapEntry { id, state }).collect(),
        aliases: Vec::new(),
        scenes: vec![SceneState { scene: 0, scene_updaters: Vec::new() }],
    }
}

fn snapshot(start: u32, end: u32, heap: Heap) -> StateSnapshot {
    StateSnapshot { site: site(start, end), heap }
}

fn play(start: u32, end: u32, kind: PlayKind, duration: Num) -> PlayFact {
    PlayFact {
        site: site(start, end),
        play_group: u64::from(start),
        kind,
        certainty: Presence::Present,
        duration,
        dynamic_wait: Truth::No,
        frozen_frame: None,
        has_stop_condition: false,
        always_update_mobjects: Truth::No,
        star_args: false,
        animations: Vec::new(),
        cost: PlayCost { frames: whole(300), cairo_frames: whole(300), pixel_frames: Vec::new() },
        display: None,
    }
}

fn animation(start: u32, end: u32, kind: &str, target: ObjectId) -> PlayedAnimation {
    PlayedAnimation {
        site: site(start, end),
        convertible: Truth::Yes,
        from_builder: false,
        channels_known: Truth::Yes,
        replacement_target: None,
        state: Some(AnimationState {
            kind: kinds(&[kind]),
            targets: vec![target],
            write_channels: Vec::new(),
            introducer: Truth::No,
            remover: Truth::No,
            replacement: Truth::No,
            suspend: SuspendBehavior::Other,
        }),
    }
}

fn scene() -> SceneLifecycle {
    SceneLifecycle {
        qualified_name: "scene.Demo".to_owned(),
        scene_id: 0,
        mro: names(&["scene.Demo"]),
        events: Vec::new(),
        plays: Vec::new(),
        builders: Vec::new(),
        updaters: Vec::new(),
        updater_removals: Vec::new(),
        scene_removals: Vec::new(),
        target_requirements: Vec::new(),
        super_calls: Vec::new(),
        snapshots: Vec::new(),
        final_heap: heap(Vec::new()),
        camera_kind: CameraKind::Standard,
        constructor_state_unknown: false,
        fixed_registrations: Vec::new(),
        summary_derived_plays: Vec::new(),
        ownership: Vec::new(),
    }
}

fn updater(time_based: Truth) -> UpdaterFact {
    UpdaterFact { callback: CallbackRef::Lambda(site(3, 9)), time_based }
}

fn registration(host: UpdaterHost) -> UpdaterRegistration {
    UpdaterRegistration {
        host,
        site: site(0, 10),
        certainty: Presence::Present,
        fact: updater(Truth::Yes),
        body: UpdaterBodyFact {
            reads_frame_varying: Truth::No,
            uses_dt: Truth::No,
            mutates_target: Truth::No,
            calls_unknown: Truth::No,
            channels_known: Truth::Yes,
            pure_affine_on_target: Truth::Yes,
            write_channels: Vec::new(),
        },
    }
}

fn totals(plays: &[usize], seconds: f64) -> PlayTotals {
    PlayTotals {
        scene: "scene.Demo".to_owned(),
        plays: plays.to_vec(),
        seconds: number(seconds),
        seconds_frames: number(seconds * 60.0),
        frames: number(seconds * 60.0),
        cairo_frames: number(seconds * 60.0),
        estimated_frames: number(seconds * 60.0),
    }
}

fn call_cost(call_index: usize) -> CallCost {
    CallCost {
        call_index,
        frames: Num::Unknown,
        run_time: Num::Unknown,
        wait_time: Num::Unknown,
        samples: None,
    }
}

fn expr(range: TextRange, form: Form, parts: Vec<Expr>) -> Expr {
    Expr { range, form, parts }
}

fn name_expr(name: &str) -> Expr {
    expr(span(0, 0), Form::Name(name.to_owned()), Vec::new())
}

fn int_expr(value: i64) -> Expr {
    expr(span(0, 0), Form::Int(Some(value)), Vec::new())
}

fn attribute(value: Expr, attr: &str) -> Expr {
    expr(span(0, 0), Form::Attribute(attr.to_owned()), vec![value])
}

fn call_expr(range: TextRange, callee: Expr, arguments: Vec<Expr>) -> Expr {
    let count = arguments.len();
    let mut parts = vec![callee];
    parts.extend(arguments);
    expr(range, Form::Call { arguments: count, keywords: Vec::new() }, parts)
}

fn stmt(kind: StmtKind, values: Vec<Expr>, body: Vec<Stmt>) -> Stmt {
    Stmt { kind, values, targets: Vec::new(), body, rest: Vec::new() }
}

fn parameters(positional: &[&str]) -> Parameters {
    Parameters { positional: names(positional), others: Vec::new() }
}

fn syntax(module: Vec<Stmt>, lambdas: Vec<LambdaFact>, functions: Vec<FunctionFact>) -> Option<Syntax> {
    Some(Syntax { module, lambdas, functions })
}

// ---------------------------------------------------------------------------
// Lifecycle rules.
// ---------------------------------------------------------------------------

#[test]
fn empty_play_is_reported_with_its_place() {
    let text = "class Demo(Scene):\n    def construct(self):\n        self.play()\n";
    let mut world = world(text);
    world.calls.calls.push(call(at(text, "self.play()"), PLAY, ReceiverKind::SelfScene));
    let found = run(world, RegisteredRule::EmptyPlay);
    assert_eq!(found.len(), 1);
    assert_eq!(found[0].path, "scene.py");
    assert_eq!((found[0].primary_span.start.line, found[0].primary_span.start.column), (3, 9));
    assert_eq!(found[0].applicable_profiles, ["cairo"]);
}

#[test]
fn play_with_a_splat_is_not_known_to_be_empty() {
    let mut world = world("self.play(*animations)");
    let mut splat = call(span(0, 22), PLAY, ReceiverKind::SelfScene);
    splat.has_star_args = true;
    world.calls.calls.push(splat);
    assert!(run(world, RegisteredRule::EmptyPlay).is_empty());
}

#[test]
fn nothing_is_reported_without_knowledge() {
    let mut world = world("self.play()");
    world.knowledge = None;
    world.calls.calls.push(call(span(0, 11), PLAY, ReceiverKind::SelfScene));
    assert!(run(world, RegisteredRule::EmptyPlay).is_empty());
}

#[test]
fn no_rule_reports_about_nothing() {
    for rule in manim_lint::rules::registry::all_rules() {
        assert!(run(world(""), rule).is_empty());
    }
}

fn named(range: TextRange, kinds: &[&str]) -> CallArgument {
    let mut value = argument(range, None, None);
    value.shape = ArgShape::Name;
    value.kind_candidates = names(kinds);
    value
}

fn square_instance() -> ReceiverKind {
    ReceiverKind::KnownInstance(SQUARE.to_owned())
}

fn traced(event: Event, start: u32, end: u32) -> TracedEvent {
    TracedEvent { event, site: site(start, end), certainty: Presence::Present }
}

#[test]
fn keywords_alone_leave_a_play_empty() {
    let text = "self.play(run_time=2, rate=f)";
    let mut world = world(text);
    let mut bare = call(span(0, 29), PLAY, ReceiverKind::SelfScene);
    bare.keyword_names = names(&["run_time", "rate"]);
    world.calls.calls.push(bare);
    let found = run(world, RegisteredRule::EmptyPlay);
    assert!(found[0].message.contains("alone (`run_time=...`, `rate=...`) provide zero animations"));
    assert_eq!(found[0].confidence, Confidence::Certain);
}

#[test]
fn unresolved_bases_never_confirm_a_target() {
    for resolved in [true, false] {
        let mut world = world("self.play()");
        world.calls.calls.push(call(span(0, 11), PLAY, ReceiverKind::SelfScene));
        world.index.classes.push(manim_lint::frontend::ClassRecord {
            id: "scene.Demo".to_owned(),
            name: "Demo".to_owned(),
            file: FILE,
            methods: Vec::new(),
            kinds: Vec::new(),
            reached_bases: Vec::new(),
            bases_fully_resolved: resolved,
        });
        assert_eq!(run(world, RegisteredRule::EmptyPlay).len(), usize::from(resolved));
    }
    // Two targets are no target either.
    let mut mixed = world("self.play()");
    let mut either = call(span(0, 11), PLAY, ReceiverKind::SelfScene);
    either.candidates.push(WAIT.to_owned());
    mixed.calls.calls.push(either);
    assert!(run(mixed, RegisteredRule::EmptyPlay).is_empty());
}

fn play_of(text: &str, inner: QualifiedCall, range: TextRange) -> World {
    let mut world = world(text);
    let mut value = argument(range, None, None);
    value.shape = ArgShape::Call(0);
    world.calls.calls.push(inner);
    world.calls.calls.push(with_argument(
        call(span(0, text.len() as u32), PLAY, ReceiverKind::SelfScene),
        value,
    ));
    world
}

#[test]
fn method_result_in_a_play_gets_an_animate_fix() {
    let text = "self.play(sq.shift(UP))";
    let range = at(text, "sq.shift(UP)");
    let mut inner = call(range, "manim.mobject.geometry.polygram.Square.shift", square_instance());
    inner.callee_range = at(text, "sq.shift");
    let found = run(play_of(text, inner, range), RegisteredRule::NonAnimationPlayArgument);
    assert_eq!(found.len(), 1);
    assert_eq!(
        found[0].message,
        "`sq.shift(...)` mutates the mobject immediately and returns the mobject itself, not an \
         Animation; use `.animate` (e.g. `sq.animate.shift(...)`) inside `Scene.play()`."
    );
    let fix = found[0].fix.as_ref().expect("a fix");
    assert_eq!(fix.edits[0].replacement, "sq.animate.shift");
    assert_eq!(fix.edits[0].span.start.column, 11);
}

#[test]
fn only_simple_names_are_spliced() {
    for (callee, simple) in [("\u{e9}t\u{e9}_1.shift", true), ("a[0].shift", false), ("f().shift", false)] {
        let text = format!("self.play({callee}(UP))");
        let inner_text = format!("{callee}(UP)");
        let range = at(&text, &inner_text);
        let mut inner = call(range, "manim.mobject.geometry.polygram.Square.shift", square_instance());
        inner.callee_range = at(&text, callee);
        let found = run(play_of(&text, inner, range), RegisteredRule::NonAnimationPlayArgument);
        assert_eq!(found.len(), 1, "{callee}");
        assert_eq!(found[0].fix.is_some(), simple, "{callee}");
        assert_eq!(found[0].message.contains(" via .animate"), !simple, "{callee}");
    }
}

#[test]
fn constructed_and_named_mobjects_are_no_animations() {
    let text = "self.play(Square())";
    let range = at(text, "Square()");
    let found = run(
        play_of(text, call(range, SQUARE, ReceiverKind::Direct), range),
        RegisteredRule::NonAnimationPlayArgument,
    );
    assert_eq!(text_of(evidence(&found[0], "argument_kind")), "constructed-mobject");
    let fine = play_of(text, call(range, CREATE, ReceiverKind::Direct), range);
    assert!(run(fine, RegisteredRule::NonAnimationPlayArgument).is_empty());

    let text = "self.play(sq, 3)";
    let mut world = world(text);
    let play = with_argument(
        call(span(0, 16), PLAY, ReceiverKind::SelfScene),
        named(at(text, "sq"), &[SQUARE]),
    );
    world
        .calls
        .calls
        .push(with_argument(play, argument(at(text, "3"), Some(LiteralFact::Int(3)), None)));
    let found = run(world, RegisteredRule::NonAnimationPlayArgument);
    let shapes: Vec<&str> = found.iter().map(|item| text_of(evidence(item, "argument_kind"))).collect();
    assert_eq!(shapes, ["bare-mobject", "literal-number"]);
    assert!(found[0].message.contains("(e.g. `Create(sq)` or `FadeIn(sq)`)"));
}

#[test]
fn animate_chains_are_never_method_results() {
    let text = "self.play(sq.animate.shift(UP))";
    let range = at(text, "sq.animate.shift(UP)");
    let mut inner = call(range, "manim.mobject.geometry.polygram.Square.shift", square_instance());
    inner.callee_range = at(text, "sq.animate.shift");
    assert!(run(play_of(text, inner, range), RegisteredRule::NonAnimationPlayArgument).is_empty());
}

#[test]
fn bound_method_argument_is_the_removed_interface() {
    let text = "self.play(sq.shift, UP)";
    let mut world = world(text);
    let mut method = argument(at(text, "sq.shift"), None, None);
    method.shape = ArgShape::Attribute(manim_lint::frontend::AttributeFact {
        candidates: names(&["manim.mobject.geometry.polygram.Square.shift"]),
        receiver: square_instance(),
    });
    world
        .calls
        .calls
        .push(with_argument(call(span(0, 23), PLAY, ReceiverKind::SelfScene), method));
    let found = run(world, RegisteredRule::BoundMethodPlayArgument);
    assert_eq!(found.len(), 1);
    assert_eq!(
        text_of(evidence(&found[0], "resolved_argument")),
        "manim.mobject.mobject.Mobject.shift"
    );
}

#[test]
fn empty_group_names_its_class() {
    let mut world = world("Succession(lag_ratio=1)");
    world.calls.calls.push(call(
        span(0, 23),
        "manim.animation.composition.Succession",
        ReceiverKind::Direct,
    ));
    let found = run(world, RegisteredRule::EmptyAnimationGroup);
    assert!(found[0].message.starts_with("Pass at least one animation to `Succession(...)`:"));
}

#[test]
fn apply_method_call_result_is_unbundled() {
    let apply_world = |keyword: Option<&str>| {
        let text = "ApplyMethod(sq.shift(UP, 2))";
        let range = at(text, "sq.shift(UP, 2)");
        let mut world = world(text);
        let mut inner = call(range, "manim.mobject.geometry.polygram.Square.shift", square_instance());
        inner.callee_range = at(text, "sq.shift");
        let inner = with_argument(inner, argument(at(text, "UP"), None, None));
        world.calls.calls.push(with_argument(inner, argument(at(text, "2"), None, keyword)));
        let mut value = argument(range, None, None);
        value.shape = ArgShape::Call(0);
        world.calls.calls.push(with_argument(
            call(span(0, 28), "manim.animation.transform.ApplyMethod", ReceiverKind::Direct),
            value,
        ));
        world
    };
    let found = run(apply_world(None), RegisteredRule::ApplyMethodCallResult);
    assert_eq!(found.len(), 1);
    assert_eq!(found[0].fix.as_ref().expect("a fix").edits[0].replacement, "sq.shift, UP, 2");
    let keyword = run(apply_world(Some("scale")), RegisteredRule::ApplyMethodCallResult);
    assert!(keyword[0].fix.is_none());
}

#[test]
fn non_positive_durations_are_reported_once() {
    let duration_world = |run_time: LiteralFact| {
        let text = "self.play(Create(a, run_time=0))";
        let constructor = at(text, "Create(a, run_time=0)");
        let mut world = world(text);
        world.calls.calls.push(with_argument(
            call(constructor, CREATE, ReceiverKind::Direct),
            argument(at(text, "0"), Some(run_time), Some("run_time")),
        ));
        world.calls.calls.push(call(span(0, 32), PLAY, ReceiverKind::SelfScene));
        for name in ["scene.Demo", "scene.Other"] {
            let mut demo = scene();
            demo.qualified_name = name.to_owned();
            let mut step = play(0, 32, PlayKind::Play, Num::Unknown);
            step.animations.push(animation(
                constructor.start,
                constructor.end,
                CREATE,
                single(50, 51),
            ));
            demo.plays.push(step);
            world.lifecycle.scenes.push(demo);
        }
        world
    };
    let found = run(duration_world(LiteralFact::Int(0)), RegisteredRule::NonPositiveDuration);
    assert_eq!(found.len(), 1);
    assert_eq!(
        found[0].message,
        "Use a positive `run_time`: the literal `0` is non-positive and playing it aborts the render."
    );
    assert_eq!(text_of(evidence(&found[0], "model")), "animation-run-time");
    assert_eq!(
        run(duration_world(LiteralFact::Float(decimal(-0.5))), RegisteredRule::NonPositiveDuration).len(),
        1
    );
    assert!(run(duration_world(LiteralFact::Float(decimal(0.5))), RegisteredRule::NonPositiveDuration).is_empty());
    assert!(run(duration_world(LiteralFact::Float(decimal(f64::NAN))), RegisteredRule::NonPositiveDuration)
        .is_empty());
    // A play-level run time overrides the constructor's.
    let mut overridden = duration_world(LiteralFact::Int(0));
    let step = overridden.calls.calls.remove(1);
    overridden.calls.calls.push(with_argument(
        step,
        argument(span(10, 11), Some(LiteralFact::Int(2)), Some("run_time")),
    ));
    assert!(run(overridden, RegisteredRule::NonPositiveDuration).is_empty());
}

#[test]
fn frozen_wait_with_a_stop_condition_is_reported() {
    let wait_world = |condition: Option<LiteralFact>| {
        let text = "self.wait(stop_condition=f, frozen_frame=True)";
        let mut world = world(text);
        let wait = with_argument(
            call(span(0, 46), WAIT, ReceiverKind::SelfScene),
            argument(at(text, "f,"), condition, Some("stop_condition")),
        );
        world.calls.calls.push(with_argument(
            wait,
            argument(at(text, "True"), Some(LiteralFact::Bool(true)), Some("frozen_frame")),
        ));
        world
    };
    let found = run(wait_world(None), RegisteredRule::FrozenFrameStopCondition);
    assert_eq!(found.len(), 1);
    assert_eq!(found[0].fix.as_ref().expect("a fix").edits[0].replacement, "False");
    assert!(run(wait_world(Some(LiteralFact::NoneLit)), RegisteredRule::FrozenFrameStopCondition).is_empty());
}

#[test]
fn updater_must_bind_the_positional_call() {
    let bind_world = |target: &str, receiver: ReceiverKind, params: &[(&str, ParamKind, bool)]| {
        let mut world = world("x.add_updater(f)");
        let mut callback = argument(span(14, 15), None, None);
        callback.callable_signature = Some(CallableSignature {
            params: params
                .iter()
                .map(|(name, kind, has_default)| Parameter {
                    name: (*name).to_owned(),
                    kind: *kind,
                    has_default: *has_default,
                })
                .collect(),
        });
        world.calls.calls.push(with_argument(call(span(0, 16), target, receiver), callback));
        world
    };
    let plain = ParamKind::PositionalOrKeyword;
    let mobject: &[(&[(&str, ParamKind, bool)], bool)] = &[
        (&[("m", plain, false)], false),
        (&[("m", plain, false), ("dt", plain, false)], false),
        (&[("dt", plain, false)], true),
        (&[], true),
        (&[("m", plain, false), ("t", plain, false)], true),
        (&[("m", plain, false), ("t", plain, true)], false),
        (&[("args", ParamKind::VarArgs, false)], false),
        (&[("m", plain, false), ("dt", ParamKind::KeywordOnly, true)], true),
        (&[("kwargs", ParamKind::KwArgs, false)], true),
        (&[("self", plain, false), ("m", plain, false)], false),
    ];
    for (params, reported) in mobject {
        let world = bind_world(ADD_UPDATER, square_instance(), params);
        let found = run(world, RegisteredRule::UpdaterCannotBind);
        assert_eq!(found.len(), usize::from(*reported), "{params:?}");
    }
    let scene_world = bind_world(
        "manim.scene.scene.Scene.add_updater",
        ReceiverKind::SelfScene,
        &[("m", plain, false), ("dt", plain, false)],
    );
    let found = run(scene_world, RegisteredRule::UpdaterCannotBind);
    assert_eq!(text_of(evidence(&found[0], "simulated_call")), "callback(dt)");
    assert!(found[0].message.starts_with("Adjust this Scene updater's parameters (`m, dt`):"));
}

#[test]
fn missing_state_is_reported_in_source_order() {
    let mut world = world("Restore(b) MoveToTarget(a) Restore(c)");
    for name in ["scene.One", "scene.Two"] {
        let mut demo = scene();
        demo.qualified_name = name.to_owned();
        for (start, end, requirement, presence) in [
            (27, 37, TargetRequirement::SavedState, Presence::Absent),
            (11, 26, TargetRequirement::GeneratedTarget, Presence::Absent),
            (0, 10, TargetRequirement::SavedState, Presence::Absent),
            (5, 6, TargetRequirement::SavedState, Presence::Maybe),
        ] {
            demo.target_requirements.push(TargetRequirementFact {
                site: site(start, end),
                requirement,
                presence,
            });
        }
        world.lifecycle.scenes.push(demo);
    }
    let found = run(world, RegisteredRule::MissingSavedState);
    let messages: Vec<&str> = found.iter().map(|item| item.message.as_str()).collect();
    assert_eq!(messages.len(), 2);
    assert!(messages[0].contains("before `Restore(b)`"));
    assert!(messages[1].contains("before `Restore(c)`"));
    assert!(matches!(evidence(&found[0], "scenes"), Json::List(scenes) if scenes.len() == 2));
}

#[test]
fn shared_channel_of_one_target_conflicts() {
    let conflict_world = |first: WriteChannel, target: ObjectId, known: Truth| {
        let mut demo = scene();
        let mut step = play(0, 40, PlayKind::Play, Num::Unknown);
        for (start, channel) in [(10, first), (20, WriteChannel::Points)] {
            let mut item = animation(start, start + 5, CREATE, target);
            item.channels_known = known;
            item.state.as_mut().expect("a state").write_channels =
                vec![channel, WriteChannel::CameraState];
            step.animations.push(item);
        }
        demo.plays.push(step);
        let mut world = world("sq = Square()                                 ");
        world.lifecycle.scenes.push(demo);
        world
    };
    let found = run(
        conflict_world(WriteChannel::Points, single(5, 13), Truth::Yes),
        RegisteredRule::ConflictingPlayWrites,
    );
    assert_eq!(found.len(), 1);
    assert!(found[0].message.contains("channel(s) (points, camera-state) of the same"));
    assert_eq!(text_of(evidence(&found[0], "target_allocation")), "Square()");
    let other = run(
        conflict_world(WriteChannel::Style, single(5, 13), Truth::Yes),
        RegisteredRule::ConflictingPlayWrites,
    );
    assert!(other[0].message.contains("channel(s) (camera-state) of"));
    let many = ObjectId { site: site(5, 13), cardinality: Cardinality::Many };
    assert!(run(
        conflict_world(WriteChannel::Points, many, Truth::Yes),
        RegisteredRule::ConflictingPlayWrites
    )
    .is_empty());
    assert!(run(
        conflict_world(WriteChannel::Points, single(5, 13), Truth::Maybe),
        RegisteredRule::ConflictingPlayWrites
    )
    .is_empty());
}

#[test]
fn play_level_lag_ratio_is_no_stagger() {
    for (animations, count) in [(1, 0), (2, 1)] {
        let mut world = world("self.play(a, b, lag_ratio=0.5)");
        let mut step = call(span(0, 30), PLAY, ReceiverKind::SelfScene);
        for _ in 0..animations {
            step = with_argument(step, argument(span(10, 11), None, None));
        }
        world.calls.calls.push(with_argument(
            step,
            argument(span(26, 29), Some(LiteralFact::Float(decimal(0.5))), Some("lag_ratio")),
        ));
        assert_eq!(run(world, RegisteredRule::PlayLagRatioStagger).len(), count);
    }
}

#[test]
fn parent_cycle_is_closed_by_the_last_add() {
    let add = |parent: ObjectId, child: ObjectId| Event::AddChild { parent, child };
    let (a, b, c) = (single(0, 1), single(2, 3), single(4, 5));
    let cycle_world = |events: Vec<TracedEvent>| {
        let mut demo = scene();
        demo.events = events;
        let mut world = world("a.add(b) b.add(c) c.add(a) a.add(a) c.remove()");
        world.lifecycle.scenes.push(demo);
        world
    };
    let found = run(
        cycle_world(vec![
            traced(add(a, b), 0, 8),
            traced(add(b, c), 9, 17),
            traced(add(c, a), 18, 26),
            traced(add(a, a), 27, 35),
            traced(add(a, a), 27, 35),
        ]),
        RegisteredRule::SelfOrCyclicChild,
    );
    let reported: Vec<&str> = found.iter().map(|item| text_of(evidence(item, "kind"))).collect();
    assert_eq!(reported, ["parent-cycle", "self-add"]);
    assert!(found[0].message.starts_with("`c.add(a)` closes a parent cycle"));
    // A membership change of an object drops what was known of its links.
    let purged = cycle_world(vec![
        traced(add(a, b), 0, 8),
        traced(add(b, c), 9, 17),
        traced(Event::Mutate { target: b, kind: MutationKind::Membership }, 36, 46),
        traced(add(c, a), 18, 26),
    ]);
    assert!(run(purged, RegisteredRule::SelfOrCyclicChild).is_empty());
    // A reported link is not kept: the reverse of it stays silent.
    let once = run(
        cycle_world(vec![
            traced(add(a, b), 0, 8),
            traced(add(b, a), 9, 17),
            traced(add(a, b), 18, 26),
        ]),
        RegisteredRule::SelfOrCyclicChild,
    );
    assert_eq!(once.len(), 1);
}

#[test]
fn removed_child_reappears_with_its_parent() {
    let (parent, child) = (single(0, 1), single(2, 3));
    let removal_world = |between: Vec<TracedEvent>| {
        let mut demo = scene();
        demo.scene_removals.push(manim_lint::semantic::SceneRemovalFact {
            site: site(0, 14),
            certainty: Presence::Present,
            removed: child,
            surviving_parents: vec![parent],
        });
        demo.events.push(traced(Event::SceneRemove, 0, 14));
        demo.events.extend(between);
        demo.events.push(traced(Event::SceneAdd { objects: vec![parent] }, 15, 26));
        let mut world = world("self.remove(c) self.add(p)");
        world.lifecycle.scenes.push(demo);
        world
    };
    let found = run(removal_world(Vec::new()), RegisteredRule::RemovedChildReappears);
    assert_eq!(found.len(), 1);
    assert!(found[0].message.starts_with("`self.remove(c)` removes the child"));
    assert_eq!(found[0].related_locations[0].span.start.column, 16);
    for event in [
        Event::Mutate { target: parent, kind: MutationKind::Membership },
        Event::SceneAdd { objects: vec![child] },
        Event::UnknownMutation { values: vec![parent] },
    ] {
        let silent = removal_world(vec![traced(event, 14, 15)]);
        assert!(run(silent, RegisteredRule::RemovedChildReappears).is_empty());
    }
}

#[test]
fn replacing_a_fresh_object_is_reported() {
    let text = "self.replace(Square(), x)";
    let range = at(text, "Square()");
    let mut world = world(text);
    world.calls.calls.push(call(range, SQUARE, ReceiverKind::Direct));
    let mut old = argument(range, None, None);
    old.shape = ArgShape::Call(0);
    world.calls.calls.push(with_argument(
        call(span(0, 25), "manim.scene.scene.Scene.replace", ReceiverKind::SelfScene),
        old,
    ));
    let found = run(world, RegisteredRule::ReplaceMissingOld);
    assert_eq!(text_of(evidence(&found[0], "proof")), "fresh-construction");
}

#[test]
fn replacing_an_absent_object_is_reported() {
    let replace_world = |membership: Presence| {
        let text = "def construct(self):\n    sq = Square()\n    self.replace(sq, x)\n";
        let range = at(text, "self.replace(sq, x)");
        let mut world = world(text);
        world.calls.calls.push(with_argument(
            call(range, "manim.scene.scene.Scene.replace", ReceiverKind::SelfScene),
            named(span(range.start + 13, range.start + 15), &[SQUARE]),
        ));
        world.index.classes.push(manim_lint::frontend::ClassRecord {
            id: "scene.Demo".to_owned(),
            name: "Demo".to_owned(),
            file: FILE,
            methods: vec![manim_lint::frontend::MethodRecord {
                name: "construct".to_owned(),
                range: span(0, text.len() as u32),
            }],
            kinds: Vec::new(),
            reached_bases: Vec::new(),
            bases_fully_resolved: true,
        });
        let mut demo = scene();
        let mut state = object(kinds(&[SQUARE]));
        state.family_membership = membership;
        demo.snapshots.push(snapshot(25, 38, heap(vec![(single(30, 38), state)])));
        world.lifecycle.scenes.push(demo);
        world
    };
    let found = run(replace_world(Presence::Absent), RegisteredRule::ReplaceMissingOld);
    assert_eq!(text_of(evidence(&found[0], "proof")), "all-candidates-absent");
    for membership in [Presence::Present, Presence::Maybe] {
        assert!(run(replace_world(membership), RegisteredRule::ReplaceMissingOld).is_empty());
    }
}

#[test]
fn trailing_keywords_move_onto_animate() {
    let text = "sq.animate.shift(UP)(run_time=2)";
    let mut world = world(text);
    let mut inner = call(at(text, "sq.animate.shift(UP)"), "", ReceiverKind::Unknown);
    inner.callee_range = at(text, "sq.animate.shift");
    let mut outer = call(span(0, 32), "", ReceiverKind::Unknown);
    outer.callee_range = at(text, "sq.animate.shift(UP)");
    world.calls.calls.push(inner);
    world.calls.calls.push(outer);
    let mut demo = scene();
    demo.builders.push(AnimateBuilderFact {
        site: site(0, 10),
        methods: names(&["shift"]),
        target: Some(single(50, 51)),
        played: Truth::Yes,
        overwritten_by_later_builder: Truth::No,
        target_epoch_at_creation: 0,
        target_epoch_at_play: None,
    });
    world.lifecycle.scenes.push(demo);
    let found = run(world, RegisteredRule::AnimateKwargsAfterMethod);
    assert_eq!(found.len(), 1);
    assert!(found[0].message.contains("`sq.animate(run_time=2).<method>(...)`"));
    let fix = found[0].fix.as_ref().expect("a fix");
    assert_eq!(fix.applicability, FixApplicability::Safe);
    assert_eq!(fix.edits[0].replacement, "(run_time=2)");
    assert_eq!(fix.edits[0].span.start.column, 11);
    assert_eq!(fix.edits[1].replacement, "");
    assert_eq!(fix.edits[1].span.start.column, 21);
}

fn builder_world(overwritten: Truth, at_play: Option<u64>, between: Vec<TracedEvent>) -> World {
    let target = single(50, 51);
    let mut demo = scene();
    demo.builders.push(AnimateBuilderFact {
        site: site(0, 10),
        methods: names(&["get_center", "shift"]),
        target: Some(target),
        played: Truth::Yes,
        overwritten_by_later_builder: overwritten,
        target_epoch_at_creation: 1,
        target_epoch_at_play: at_play,
    });
    demo.events.push(traced(Event::Other, 0, 10));
    demo.events.extend(between);
    demo.events.push(traced(Event::BeginPlay { play_group: 30 }, 30, 40));
    let mut step = play(30, 40, PlayKind::Play, Num::Unknown);
    let mut built = animation(32, 36, TRANSFORM, target);
    built.from_builder = true;
    step.animations.push(built);
    demo.plays.push(step);
    demo.final_heap = heap(vec![(target, object(kinds(&[SQUARE])))]);
    let mut world = world("sq.animate.shift(UP)                              ");
    world.lifecycle.scenes.push(demo);
    world
}

#[test]
fn stale_builder_is_reported_at_the_mutation() {
    let mutation = |kind: MutationKind| {
        vec![traced(Event::Mutate { target: single(50, 51), kind }, 20, 25)]
    };
    let found = run(
        builder_world(Truth::No, Some(2), mutation(MutationKind::Points)),
        RegisteredRule::StaleAnimateBuilder,
    );
    assert_eq!(found.len(), 1);
    assert_eq!(text_of(evidence(&found[0], "kind")), "stale-target");
    assert_eq!(found[0].related_locations[0].span.start.column, 21);
    for silent in [
        builder_world(Truth::No, Some(1), mutation(MutationKind::Points)),
        builder_world(Truth::No, None, mutation(MutationKind::Points)),
        builder_world(Truth::No, Some(2), mutation(MutationKind::Updaters)),
        builder_world(Truth::No, Some(2), Vec::new()),
    ] {
        assert!(run(silent, RegisteredRule::StaleAnimateBuilder).is_empty());
    }
    let overwritten = run(
        builder_world(Truth::Yes, None, Vec::new()),
        RegisteredRule::StaleAnimateBuilder,
    );
    assert_eq!(text_of(evidence(&overwritten[0], "kind")), "overwritten-target");
}

#[test]
fn getter_on_a_builder_animates_nothing() {
    let found = run(
        builder_world(Truth::No, None, Vec::new()),
        RegisteredRule::NonMutatingAnimateMethod,
    );
    assert_eq!(found.len(), 1);
    assert_eq!(text_of(evidence(&found[0], "method")), "get_center");
    assert!(found[0].message.starts_with("`sq.animate.get_center(...)` chains a method"));
}

#[test]
fn timeline_call_from_a_callback_is_reported() {
    let mut world = world("self.play(x)");
    world.calls.calls.push(call(span(0, 12), PLAY, ReceiverKind::SelfScene));
    world.cost.hot_calls.push(hot(0, 1));
    let found = run(world, RegisteredRule::TimelineReentry);
    assert_eq!(found.len(), 1);
    assert!(found[0].message.starts_with(
        "`Scene.play` is called from a per-frame callback (mobject-updater);"
    ));
}

fn removal_of(callback: CallbackRef, host: UpdaterHost, events: Vec<TracedEvent>) -> World {
    let mut demo = scene();
    demo.updater_removals.push(UpdaterRemoval {
        site: site(0, 30),
        host,
        callback,
        matched: Truth::No,
    });
    demo.events = events;
    let mut world = world("sq.remove_updater(lambda m: m)");
    world.lifecycle.scenes.push(demo);
    world
}

#[test]
fn fresh_lambda_removes_no_updater() {
    let host = UpdaterHost::Mobject(single(50, 52));
    let found = run(
        removal_of(CallbackRef::Lambda(site(18, 29)), host, Vec::new()),
        RegisteredRule::RemoveUpdaterIdentityMismatch,
    );
    assert_eq!(text_of(evidence(&found[0], "identity")), "fresh-lambda");
    assert!(found[0].message.contains("no updater registered on this mobject;"));
}

#[test]
fn named_mismatch_needs_a_complete_trace() {
    let host = UpdaterHost::Mobject(single(50, 52));
    let removed = || {
        traced(Event::Mutate { target: single(50, 52), kind: MutationKind::Updaters }, 0, 30)
    };
    let unknown = || traced(Event::UnknownMutation { values: vec![single(50, 52)] }, 40, 45);
    let callback = || CallbackRef::Named("scene.f".to_owned());
    let rule = RegisteredRule::RemoveUpdaterIdentityMismatch;
    assert_eq!(run(removal_of(callback(), host, vec![removed(), unknown()]), rule).len(), 1);
    assert!(run(removal_of(callback(), host, vec![unknown(), removed()]), rule).is_empty());
    assert!(run(removal_of(callback(), host, Vec::new()), rule).is_empty());
}

#[test]
fn frozen_wait_hides_a_frame_varying_updater() {
    let frozen_world = |text: &str, reads: Truth| {
        let range = at(text, "self.wait");
        let host = single(0, 2);
        let mut demo = scene();
        let end = text.len() as u32;
        demo.plays.push(play(range.start, end, PlayKind::Wait, whole(1)));
        let mut varying = registration(UpdaterHost::Mobject(host));
        varying.body.reads_frame_varying = reads;
        demo.updaters.push(varying);
        let mut state = object(kinds(&[SQUARE]));
        state.updaters.push(updater(Truth::Yes));
        demo.snapshots.push(snapshot(0, 3, heap(vec![(host, state)])));
        let mut world = world(text);
        world.lifecycle.scenes.push(demo);
        world
    };
    let rule = RegisteredRule::FrozenWaitFrameVaryingUpdater;
    for (text, inserted, column) in [
        ("x.add_updater(f)\nself.wait()", "frozen_frame=False", 11),
        ("x.add_updater(f)\nself.wait(  )", "frozen_frame=False", 13),
        ("x.add_updater(f)\nself.wait(2)", ", frozen_frame=False", 12),
    ] {
        let found = run(frozen_world(text, Truth::Yes), rule);
        assert_eq!(found.len(), 1);
        let fix = found[0].fix.as_ref().expect("a fix");
        assert_eq!(fix.edits[0].replacement, inserted);
        assert_eq!((fix.edits[0].span.start.line, fix.edits[0].span.start.column), (2, column));
        assert_eq!(text_of(evidence(&found[0], "registration")), "scene.py:1");
    }
    assert!(run(frozen_world("x.add_updater(f)\nself.wait()", Truth::Maybe), rule).is_empty());
}

#[test]
fn suspended_updater_overlaps_the_animation() {
    let overlap_world = |channel: WriteChannel, suspend: SuspendBehavior| {
        let host = single(0, 2);
        let mut demo = scene();
        let mut state = object(kinds(&[SQUARE]));
        state.updaters.push(updater(Truth::Yes));
        demo.snapshots.push(snapshot(0, 10, heap(vec![(host, state)])));
        let mut step = play(20, 40, PlayKind::Play, whole(1));
        let mut moved = animation(25, 30, TRANSFORM, host);
        let moved_state = moved.state.as_mut().expect("a state");
        moved_state.suspend = suspend;
        moved_state.write_channels = vec![WriteChannel::Points];
        step.animations.push(moved);
        demo.plays.push(step);
        let mut writing = registration(UpdaterHost::Mobject(host));
        writing.body.mutates_target = Truth::Yes;
        writing.body.write_channels = vec![channel];
        demo.updaters.push(writing);
        let mut world = world("");
        world.lifecycle.scenes.push(demo);
        world
    };
    let rule = RegisteredRule::UpdaterSuspendResumeDivergence;
    let live = SuspendBehavior::SuspendsLiveTargets;
    let found = run(overlap_world(WriteChannel::Points, live), rule);
    assert_eq!(found.len(), 1);
    assert!(found[0].message.contains("updater that also writes points; `finish()` resumes it"));
    assert!(run(overlap_world(WriteChannel::Style, live), rule).is_empty());
    assert!(run(overlap_world(WriteChannel::Points, SuspendBehavior::Other), rule).is_empty());
}

#[test]
fn orphaned_updater_object_is_reported_once_per_stretch() {
    let text = "    sq.add_updater(f)\n    self.wait()\n    self.wait()\n";
    let mut world = world(text);
    let object_id = single(90, 92);
    let mut demo = scene();
    let mut orphan = registration(UpdaterHost::Mobject(object_id));
    orphan.site = AllocationSite::new(FILE, at(text, "sq.add_updater(f)"));
    demo.updaters.push(orphan);
    let mut intervals = Vec::new();
    for start in [26, 42] {
        demo.plays.push(play(start, start + 11, PlayKind::Wait, whole(1)));
        intervals.push(OwnershipInterval {
            site: site(start, start + 11),
            in_family: Presence::Absent,
            animation_target: Presence::Absent,
            has_updaters: Truth::Yes,
        });
    }
    demo.ownership.push(ObjectOwnership { object: object_id, intervals });
    world.lifecycle.scenes.push(demo);
    let found = run(world, RegisteredRule::OrphanedUpdaterObject);
    assert_eq!(found.len(), 1);
    assert!(found[0].message.contains("registered at line 1 is in neither"));
    let fix = found[0].fix.as_ref().expect("a fix");
    assert_eq!(fix.edits[0].replacement, "self.add(sq)\n    ");
    assert_eq!((fix.edits[0].span.start.line, fix.edits[0].span.start.column), (2, 5));
}

#[test]
fn animating_the_absent_target_of_a_transform_is_reported() {
    let identity_world = |target_membership: Presence, replacement: Truth| {
        let (source, target) = (single(0, 1), single(2, 3));
        let mut demo = scene();
        let mut first = play(20, 30, PlayKind::Play, whole(1));
        let mut transform = animation(22, 28, TRANSFORM, source);
        transform.replacement_target = Some(target);
        transform.state.as_mut().expect("a state").replacement = replacement;
        first.animations.push(transform);
        let mut second = play(40, 50, PlayKind::Play, whole(1));
        let mut later = animation(42, 48, TRANSFORM, target);
        later.from_builder = true;
        second.animations.push(later);
        demo.plays.push(first);
        demo.plays.push(second);
        let mut absent = object(kinds(&[SQUARE]));
        absent.family_membership = target_membership;
        demo.snapshots.push(snapshot(
            20,
            31,
            heap(vec![(source, object(kinds(&[SQUARE]))), (target, absent)]),
        ));
        let mut world = world("");
        world.lifecycle.scenes.push(demo);
        world
    };
    let rule = RegisteredRule::PostTransformTargetConfusion;
    assert_eq!(run(identity_world(Presence::Absent, Truth::No), rule).len(), 1);
    assert!(run(identity_world(Presence::Present, Truth::No), rule).is_empty());
    assert!(run(identity_world(Presence::Absent, Truth::Yes), rule).is_empty());
}

#[test]
fn callback_without_a_mobject_is_reported() {
    for (bare, fall_off, reason) in [
        (Truth::Yes, Truth::Yes, "returns nothing on some path"),
        (Truth::No, Truth::Yes, "falls off the end without a `return`"),
        (Truth::No, Truth::No, "provably returns a non-mobject value"),
    ] {
        let text = "ApplyFunction(lambda m: 1, sq)";
        let mut world = world(text);
        let mut callback = argument(at(text, "lambda m: 1"), None, None);
        callback.shape = ArgShape::Lambda;
        world.calls.calls.push(with_argument(
            call(span(0, 30), "manim.animation.transform.ApplyFunction", ReceiverKind::Direct),
            callback,
        ));
        world.lifecycle.callback_returns.lambdas.push(manim_lint::semantic::LambdaReturn {
            site: AllocationSite::new(FILE, at(text, "lambda m: 1")),
            fact: manim_lint::semantic::ReturnFact {
                returns_mobject: Truth::No,
                has_bare_return_path: bare,
                has_no_return_path: fall_off,
            },
        });
        let found = run(world, RegisteredRule::ApplyFunctionCallbackNoMobject);
        assert_eq!(found.len(), 1);
        assert!(found[0].message.contains(reason));
    }
}

fn group_world(text: &str, arguments: Vec<CallArgument>) -> World {
    let mut world = world(text);
    let mut group = call(span(0, text.len() as u32), VGROUP, ReceiverKind::Direct);
    for value in arguments {
        group = with_argument(group, value);
    }
    world.calls.calls.push(group);
    world
}

#[test]
fn family_accepts_only_its_kind() {
    let text = "VGroup(a, 1)";
    let rule = RegisteredRule::InvalidFamilyChild;
    for (kind, expected) in [
        (IMAGE, Some("non-vmobject-in-vectorized-family")),
        (SQUARE, None),
        (CREATE, Some("non-mobject")),
        (REDRAW, None),
    ] {
        let found = run(group_world(text, vec![named(at(text, "a"), &[kind])]), rule);
        assert_eq!(found.first().map(|item| text_of(evidence(item, "child_kind"))), expected);
    }
    let literal = argument(at(text, "1"), Some(LiteralFact::Int(1)), None);
    assert_eq!(run(group_world(text, vec![literal]), rule).len(), 1);
    let nothing = argument(at(text, "1"), Some(LiteralFact::NoneLit), None);
    assert!(run(group_world(text, vec![nothing]), rule).is_empty());
}

#[test]
fn duplicate_child_is_removed_with_its_comma() {
    for (text, fixed) in [
        ("VGroup(a,\u{a0}a)", true),
        ("VGroup(a, a)", true),
        ("VGroup(a, # c\na)", false),
    ] {
        let start = text.rfind('a').expect("a name") as u32;
        let arguments = vec![named(span(7, 8), &[SQUARE]), named(span(start, start + 1), &[SQUARE])];
        let found = run(group_world(text, arguments), RegisteredRule::DuplicateChild);
        assert_eq!(found.len(), 1);
        assert_eq!(found[0].fix.is_some(), fixed, "{text:?}");
        if fixed {
            let edit = &found[0].fix.as_ref().expect("a fix").edits[0];
            assert_eq!((edit.span.start.column, edit.replacement.as_str()), (9, ""));
        }
    }
}

#[test]
fn missing_base_constructor_is_reported() {
    for (body, reported) in [
        ("self.x = 1", true),
        ("super().__init__()", false),
        ("Scene.__init__(self)", false),
    ] {
        let text = format!("def __init__(self):\n    {body}\n");
        let mut world = world(&text);
        world.index.classes.push(manim_lint::frontend::ClassRecord {
            id: "scene.Demo".to_owned(),
            name: "Demo".to_owned(),
            file: FILE,
            methods: vec![manim_lint::frontend::MethodRecord {
                name: "__init__".to_owned(),
                range: span(0, text.len() as u32),
            }],
            kinds: Vec::new(),
            reached_bases: Vec::new(),
            bases_fully_resolved: true,
        });
        let mut demo = scene();
        demo.super_calls.push(manim_lint::semantic::SuperCallFact {
            method: "__init__".to_owned(),
            presence: Presence::Absent,
        });
        world.lifecycle.scenes.push(demo);
        let found = run(world, RegisteredRule::MissingSuperInit);
        assert_eq!(found.len(), usize::from(reported), "{body}");
    }
}

#[test]
fn rules_about_cairo_are_silent_without_it() {
    let mut opengl = display_world(8);
    opengl.config.active_profiles = vec![profile("gl", Renderer::OpenGl, Platform::Linux)];
    assert!(run(opengl, RegisteredRule::FrontLoadedStaticSuffix).is_empty());
    let mut opengl = display_world(8);
    opengl.config.active_profiles = vec![profile("gl", Renderer::OpenGl, Platform::Linux)];
    assert!(run(opengl, RegisteredRule::ImageInMovingSuffix).is_empty());
}

// ---------------------------------------------------------------------------
// Rendering rules.
// ---------------------------------------------------------------------------

#[test]
fn creation_needs_a_vectorized_target() {
    let creation_world = |kind: &str, literal: Option<LiteralFact>| {
        let text = "Create(x)";
        let mut world = world(text);
        if let Some(profile) = &mut world.knowledge {
            for entry in &mut profile.symbols {
                if entry.id == CREATE {
                    entry.accepted_target = Some(AcceptedTarget::Vmobject);
                }
            }
        }
        let mut target = named(at(text, "x"), &[kind]);
        target.literal = literal;
        world
            .calls
            .calls
            .push(with_argument(call(span(0, 9), CREATE, ReceiverKind::Direct), target));
        world
    };
    let rule = RegisteredRule::NonVmobjectCreationTarget;
    let found = run(creation_world(IMAGE, None), rule);
    assert_eq!(
        found[0].message,
        "`Create()` requires a vectorized mobject (VMobject); this target is a plain \
         (non-vectorized) `ImageMobject`"
    );
    assert!(run(creation_world(SQUARE, None), rule).is_empty());
    assert!(run(creation_world("scene.Unknown", None), rule).is_empty());
    let literal = run(creation_world(SQUARE, Some(LiteralFact::Int(1))), rule);
    assert!(literal[0].message.ends_with("this target is the literal `x`"));
}

#[test]
fn tex_escape_gets_a_raw_prefix() {
    let tex_world = |raw: bool, commands: &[&str]| {
        let text = "MathTex(\"\\\\frac\")";
        let literal = at(text, "\"\\\\frac\"");
        let mut world = world(text);
        world.sources.files[0].tokens =
            vec![manim_lint::source::TokenFact { range: literal, string: true }];
        let value = LiteralFact::Str {
            value: "frac".to_owned(),
            prefix: StrPrefix { raw, bytes: false, formatted: false },
            range: literal,
        };
        world.calls.calls.push(with_argument(
            call(span(0, text.len() as u32), MATH_TEX, ReceiverKind::Direct),
            argument(literal, Some(value), None),
        ));
        world.literals.tex.push(TexFact {
            site: AllocationSite::new(FILE, literal),
            collisions: commands
                .iter()
                .map(|command| TexCollision {
                    escape: format!("\\{}", &command[..1]),
                    command: (*command).to_owned(),
                    control_character: "form feed".to_owned(),
                })
                .collect(),
        });
        world
    };
    let rule = RegisteredRule::TexEscapeCollision;
    let found = run(tex_world(false, &["frac", "times"]), rule);
    assert_eq!(
        found[0].message,
        "Non-raw string passed to `MathTex()`: Python reads `\\f` in `\\frac` as a form feed \
         control character, so TeX never sees `\\frac` (2 colliding escapes in this literal: \
         \\frac, \\times)"
    );
    let edit = &found[0].fix.as_ref().expect("a fix").edits[0];
    assert_eq!((edit.replacement.as_str(), edit.span.start.column), ("r", 9));
    assert!(run(tex_world(true, &["frac"]), rule).is_empty());
    assert!(run(tex_world(false, &[]), rule).is_empty());
}

fn resolution_world(resolutions: Vec<AssetResolution>, profiles: Vec<RenderProfile>) -> World {
    let mut world = asset_world("Icon", profiles, Vec::new());
    let literal = at("SVGMobject(\"Icon\")", "\"Icon\"");
    world.sources.files[0].tokens =
        vec![manim_lint::source::TokenFact { range: literal, string: true }];
    world.literals.assets[0].resolutions = resolutions;
    world
}

#[test]
fn missing_asset_is_reported_for_its_profiles() {
    let found = run(
        resolution_world(
            vec![
                AssetResolution::NotFound { tried: names(&["a/Icon", "b/Icon.svg"]) },
                AssetResolution::Found,
                AssetResolution::NotFound { tried: names(&["c"]) },
            ],
            vec![
                profile("one", Renderer::Cairo, Platform::Linux),
                profile("two", Renderer::Cairo, Platform::Linux),
                profile("three", Renderer::Cairo, Platform::Linux),
            ],
        ),
        RegisteredRule::UnresolvedAssetPath,
    );
    assert_eq!(found.len(), 1);
    assert_eq!(found[0].applicable_profiles, ["one", "three"]);
    assert!(matches!(evidence(&found[0], "tried"), Json::List(tried) if tried.len() == 2));
    assert!(found[0].message.ends_with("Manim raises OSError before rendering"));
}

#[test]
fn case_mismatch_is_grouped_by_spelling() {
    let only = |corrected: &str| AssetResolution::CaseOnlyMismatch { corrected: corrected.to_owned() };
    let found = run(
        resolution_world(
            vec![only("icon"), only("iCON"), only("icon"), only("ICon")],
            vec![
                profile("one", Renderer::Cairo, Platform::Linux),
                profile("two", Renderer::Cairo, Platform::Linux),
                profile("three", Renderer::Cairo, Platform::Macos),
                profile("four", Renderer::Cairo, Platform::Windows),
            ],
        ),
        RegisteredRule::UnresolvedAssetPath,
    );
    let spellings: Vec<&str> = found.iter().map(|item| text_of(evidence(item, "corrected"))).collect();
    assert_eq!(spellings, ["iCON", "icon"]);
    assert!(found[0].message.ends_with("the lookup is case-sensitive on linux"));
    assert!(found[1].message.contains("case-insensitive filesystems may mask this locally"));
    assert_eq!(found[1].applicable_profiles, ["one"]);
    let fix = found[1].fix.as_ref().expect("a fix");
    assert_eq!(fix.edits[0].replacement, "\"icon\"");
}

#[test]
fn unclosed_markup_gets_a_closing_tag() {
    let text = "MarkupText(\"<b>x\")";
    let literal = at(text, "\"<b>x\"");
    let mut world = world(text);
    world.sources.files[0].tokens =
        vec![manim_lint::source::TokenFact { range: literal, string: true }];
    world.calls.calls.push(with_argument(
        call(span(0, 18), MARKUP, ReceiverKind::Direct),
        argument(literal, Some(string("<b>x", literal)), None),
    ));
    world.literals.markup.push(MarkupFact {
        site: AllocationSite::new(FILE, literal),
        error: Some(MarkupError {
            message: "unclosed tag <b>".to_owned(),
            unclosed: Some("b".to_owned()),
        }),
        matched_pair: None,
    });
    let found = run(world, RegisteredRule::InvalidMarkupLiteral);
    assert_eq!(found.len(), 1);
    assert_eq!(
        found[0].message,
        "`MarkupText()` literal is invalid Pango markup: unclosed tag <b>"
    );
    let fix = found[0].fix.as_ref().expect("a fix");
    assert_eq!(fix.applicability, FixApplicability::Unsafe);
    assert_eq!(fix.edits[0].replacement, "</b>");
    assert_eq!(fix.edits[0].span.start.column, 17);
    assert_eq!(fix.edits[0].span.end.column, 17);
}

#[test]
fn markup_in_plain_text_switches_the_constructor() {
    let text = "mn.Text(\"<i>x</i>\")";
    let literal = at(text, "\"<i>x</i>\"");
    let mut world = world(text);
    let mut plain = call(span(0, text.len() as u32), TEXT, ReceiverKind::ModuleAlias);
    plain.callee_range = at(text, "mn.Text");
    world.calls.calls.push(with_argument(
        plain,
        argument(literal, Some(string("<i>x</i>", literal)), Some("text")),
    ));
    world.literals.markup.push(MarkupFact {
        site: AllocationSite::new(FILE, literal),
        error: None,
        matched_pair: Some("i".to_owned()),
    });
    let found = run(world, RegisteredRule::MarkupInPlainText);
    assert_eq!(found.len(), 1);
    assert!(found[0].message.contains("`<i>...</i>`"));
    assert_eq!(found[0].fix.as_ref().expect("a fix").edits[0].replacement, "mn.MarkupText");
}

#[test]
fn float_of_infinity_reaches_geometry() {
    let text = "square.shift(float(\" -INF \"))";
    let inner = at(text, "float(\" -INF \")");
    let literal = at(text, "\" -INF \"");
    let mut world = world(text);
    let mut float = with_argument(
        call(inner, "", ReceiverKind::Direct),
        argument(literal, Some(string(" -INF ", literal)), None),
    );
    float.callee_range = at(text, "float");
    let mut value = argument(inner, None, None);
    value.shape = ArgShape::Call(0);
    world.calls.calls.push(float);
    world.calls.calls.push(with_argument(
        call(
            span(0, text.len() as u32),
            "manim.mobject.geometry.polygram.Square.shift",
            ReceiverKind::KnownInstance(SQUARE.to_owned()),
        ),
        value,
    ));
    world.calls.bindings.files.push(bindings(&[], &[], &[]));
    let found = run(world, RegisteredRule::NonFiniteGeometryLiteral);
    assert_eq!(found.len(), 1);
    assert!(found[0].message.starts_with("`float(\" -INF \")` is infinity; passing it to `.shift()`"));
    assert_eq!(
        text_of(evidence(&found[0], "target")),
        "manim.mobject.mobject.Mobject.shift"
    );
}

#[test]
fn imported_nan_reaches_geometry() {
    let text = "Square(nan)";
    let mut world = world(text);
    let mut value = argument(at(text, "nan"), None, None);
    value.shape = ArgShape::Name;
    world
        .calls
        .calls
        .push(with_argument(call(span(0, 11), SQUARE, ReceiverKind::Direct), value));
    world.calls.bindings.files.push(bindings(&[], &[("nan", "math.nan")], &["nan"]));
    let found = run(world, RegisteredRule::NonFiniteGeometryLiteral);
    assert_eq!(found.len(), 1);
    assert_eq!(text_of(evidence(&found[0], "value")), "NaN");
}

#[test]
fn font_size_must_be_positive() {
    for (value, reported) in [(-1.5, true), (0.0, true), (f64::NAN, true), (0.5, false)] {
        let text = "Text('x', font_size=12)";
        let mut world = world(text);
        world.calls.calls.push(with_argument(
            call(span(0, 23), TEXT, ReceiverKind::Direct),
            argument(at(text, "12"), Some(LiteralFact::Float(decimal(value))), Some("font_size")),
        ));
        let found = run(world, RegisteredRule::NonPositiveFontSize);
        assert_eq!(found.len(), usize::from(reported), "{value}");
    }
}

#[test]
fn opacity_stays_between_zero_and_one() {
    for (value, reported) in [(1.5, 1), (-0.1, 1), (1.0, 0), (0.0, 0), (-0.0, 0)] {
        let text = "square.set_opacity(1.5)";
        let mut world = world(text);
        world.calls.calls.push(with_argument(
            call(
                span(0, 23),
                "manim.mobject.geometry.polygram.Square.set_opacity",
                ReceiverKind::KnownInstance(SQUARE.to_owned()),
            ),
            argument(at(text, "1.5"), Some(LiteralFact::Float(decimal(value))), None),
        ));
        let found = run(world, RegisteredRule::OpacityStrokeRange);
        assert_eq!(found.len(), reported, "{value}");
        if reported > 0 {
            assert_eq!(
                found[0].message,
                "`.set_opacity()` opacity=1.5 is invalid: opacities are alpha values in [0.0, 1.0]"
            );
        }
    }
}

#[test]
fn style_keywords_are_checked_in_order() {
    let mut world = world("Square(stroke_width=-1, fill_opacity=2)");
    let square = with_argument(
        call(span(0, 39), SQUARE, ReceiverKind::Direct),
        argument(span(20, 22), Some(LiteralFact::Int(-1)), Some("stroke_width")),
    );
    world.calls.calls.push(with_argument(
        square,
        argument(span(37, 38), Some(LiteralFact::Int(2)), Some("fill_opacity")),
    ));
    let found = run(world, RegisteredRule::OpacityStrokeRange);
    let keywords: Vec<&str> = found.iter().map(|item| text_of(evidence(item, "keyword"))).collect();
    assert_eq!(keywords, ["fill_opacity", "stroke_width"]);
}

#[test]
fn bare_register_font_is_wrapped_at_its_indent() {
    let text = "def f():\n    register_font(\"a.ttf\")\n";
    let range = at(text, "register_font(\"a.ttf\")");
    let mut world = world(text);
    world.calls.calls.push(call(
        range,
        "manim.mobject.text.text_mobject.register_font",
        ReceiverKind::Direct,
    ));
    world.calls.statements.entries.push(StatementFact {
        call: AllocationSite::new(FILE, range),
        range,
        role: StatementRole::BareExpression,
    });
    let found = run(world, RegisteredRule::BareRegisterFont);
    assert_eq!(found.len(), 1);
    assert_eq!(
        found[0].fix.as_ref().expect("a fix").edits[0].replacement,
        "with register_font(\"a.ttf\"):\n        pass"
    );
}

#[test]
fn register_font_behind_other_code_gets_no_fix() {
    let text = "x = 1; register_font(\"a.ttf\")\n";
    let range = at(text, "register_font(\"a.ttf\")");
    let mut world = world(text);
    world.calls.calls.push(call(
        range,
        "manim.mobject.text.text_mobject.register_font",
        ReceiverKind::Direct,
    ));
    world.calls.statements.entries.push(StatementFact {
        call: AllocationSite::new(FILE, range),
        range,
        role: StatementRole::BareExpression,
    });
    let found = run(world, RegisteredRule::BareRegisterFont);
    assert_eq!(found.len(), 1);
    assert!(found[0].fix.is_none());
}

// ---------------------------------------------------------------------------
// Performance rules.
// ---------------------------------------------------------------------------

fn hot_world(symbol: &str, varying: bool, proven: usize) -> World {
    let mut world = world("label.add_updater(lambda m: m.become(MathTex(f'{x}')))");
    world.calls.calls.push(call(span(37, 51), symbol, ReceiverKind::Direct));
    world.cost.hot_calls.push(hot(0, proven));
    world.cost.constructions.push(HotSymbol { call_index: 0, symbol: symbol.to_owned() });
    if varying {
        world.cost.frame_varying_keys.push(HotSymbol { call_index: 0, symbol: symbol.to_owned() });
    }
    world
}

#[test]
fn hot_construction_is_reported_once_by_the_specific_rule() {
    assert_eq!(run(hot_world(MATH_TEX, false, 2), RegisteredRule::HotExpensiveConstruction).len(), 1);
    assert!(run(hot_world(MATH_TEX, false, 2), RegisteredRule::FrameVaryingResourceKey).is_empty());
    assert!(run(hot_world(MATH_TEX, true, 2), RegisteredRule::HotExpensiveConstruction).is_empty());
    let found = run(hot_world(MATH_TEX, true, 2), RegisteredRule::FrameVaryingResourceKey);
    assert_eq!(found.len(), 1);
    assert!(found[0].message.ends_with(
        " Across the 2 play(s) where this callback provably executes it may create ~120 distinct keys."
    ));
    // A callback that no play provably executes stays silent.
    assert!(run(hot_world(MATH_TEX, false, 0), RegisteredRule::HotExpensiveConstruction).is_empty());
}

#[test]
fn varying_label_reads_as_documented() {
    let mut world = hot_world(MATH_TEX, true, 1);
    world.cost.hot_calls[0].proven_frames =
        Some(Num::Interval { lo: Some(decimal(480.0)), hi: None });
    let found = run(world, RegisteredRule::FrameVaryingResourceKey);
    assert_eq!(
        found[0].message,
        "Each invocation constructs a `MathTex` and performs a cache-key lookup, and this f-string \
         key varies per frame: every rendered frame can mint a distinct Text/TeX cache key and disk \
         asset (`K_resource \u{2248} F`). Across the 1 play(s) where this callback provably executes \
         it may create at least ~480 distinct keys."
    );
}

#[test]
fn hot_construction_names_the_class_and_the_entry() {
    let found = run(hot_world(MATH_TEX, false, 1), RegisteredRule::HotExpensiveConstruction);
    assert_eq!(
        found[0].message,
        "`MathTex` is constructed inside a per-frame callback (mobject-updater): the full \
         construction cost runs once per rendered frame of 1 play(s) where the callback provably \
         executes."
    );
    assert_eq!(text_of(evidence(&found[0], "symbol")), MATH_TEX);
}

#[test]
fn no_place_carries_two_construction_reports() {
    let repeated = || {
        let mut world = hot_world(MATH_TEX, false, 1);
        world.calls.calls.push(call(span(0, 5), TEXT, ReceiverKind::Direct));
        world.cost.hot_calls.push(hot(1, 1));
        for _ in 0..2 {
            for (call_index, symbol) in [(0, MATH_TEX), (1, TEXT)] {
                world.cost.constructions.push(HotSymbol { call_index, symbol: symbol.to_owned() });
            }
            world.cost.frame_varying_keys.push(HotSymbol { call_index: 1, symbol: TEXT.to_owned() });
        }
        world
    };
    let plain = run(repeated(), RegisteredRule::HotExpensiveConstruction);
    let varying = run(repeated(), RegisteredRule::FrameVaryingResourceKey);
    assert_eq!((plain.len(), varying.len()), (1, 1));
    assert_ne!(plain[0].primary_span, varying[0].primary_span);
}

#[test]
fn cheap_hot_construction_is_no_finding() {
    assert!(run(hot_world(SQUARE, false, 2), RegisteredRule::HotExpensiveConstruction).is_empty());
}

#[test]
fn varying_key_grows_the_svg_cache_unless_switched_off() {
    assert_eq!(run(hot_world(MATH_TEX, true, 1), RegisteredRule::FrameVaryingSvgCacheGrowth).len(), 1);
    // Plain text does not use the cache by default.
    assert!(run(hot_world(TEXT, true, 1), RegisteredRule::FrameVaryingSvgCacheGrowth).is_empty());
    let mut off = hot_world(MATH_TEX, true, 1);
    let constructor = off.calls.calls.remove(0);
    off.calls.calls.push(with_argument(
        constructor,
        argument(span(0, 1), Some(LiteralFact::Bool(false)), Some("use_svg_cache")),
    ));
    assert!(run(off, RegisteredRule::FrameVaryingSvgCacheGrowth).is_empty());
}

fn sized_world(kind: HotTargetKind, method: &str, family: Num, points: Num) -> World {
    let mut world = world("m.copy()");
    world.calls.calls.push(call(span(0, 8), "", ReceiverKind::Unknown));
    world.cost.large_family = 100;
    world.cost.large_points = 1000;
    world.cost.hot_target_sizes.push(HotTargetSizeFact {
        call_index: 0,
        kind,
        method: method.to_owned(),
        scene: "scene.Demo".to_owned(),
        sizes: SizeFact { family, points, curves: Num::Unknown },
    });
    world
}

#[test]
fn large_copies_are_reported_from_the_threshold_on() {
    for (family, count) in [(99, 0), (100, 1), (101, 1)] {
        let found = run(
            sized_world(HotTargetKind::Copy, "copy", whole(family), Num::Unknown),
            RegisteredRule::HotFamilyCopy,
        );
        assert_eq!(found.len(), count, "{family}");
    }
    let found = run(
        sized_world(HotTargetKind::Copy, "copy", whole(100), Num::Unknown),
        RegisteredRule::HotFamilyCopy,
    );
    assert!(found[0].message.contains("at least 100 family members: each invocation deep-copies"));
}

#[test]
fn proportion_queries_belong_to_their_own_rule() {
    let world = || {
        sized_world(HotTargetKind::FamilyWalk, "point_from_proportion", whole(500), whole(5000))
    };
    assert!(run(world(), RegisteredRule::HotFamilyWalk).is_empty());
    assert!(run(world(), RegisteredRule::HotFamilyCopy).is_empty());
    assert_eq!(run(world(), RegisteredRule::HotPointFromProportion).len(), 1);
    let walk = sized_world(HotTargetKind::FamilyWalk, "get_family", whole(500), Num::Unknown);
    assert_eq!(run(walk, RegisteredRule::HotFamilyWalk).len(), 1);
}

#[test]
fn growing_scene_graph_needs_a_fresh_object() {
    for fresh in [true, false] {
        let mut world = world("self.add(Dot())");
        world.calls.calls.push(call(span(0, 15), SCENE_ADD, ReceiverKind::SelfScene));
        world.cost.hot_calls.push(hot(0, 1));
        world.cost.scene_mutations.push(HotMutation {
            call_index: 0,
            symbol: SCENE_ADD.to_owned(),
            effect: SceneMembershipEffect::Add,
            adds_fresh_allocation: fresh,
        });
        assert_eq!(run(world, RegisteredRule::HotSceneGraphGrowth).len(), usize::from(fresh));
    }
}

#[test]
fn unfrozen_wait_over_static_content_is_reported() {
    let wait_world = |seconds: f64, content: &str| {
        let mut demo = scene();
        let mut wait = play(20, 40, PlayKind::Wait, number(seconds));
        wait.frozen_frame = Some(false);
        demo.plays.push(wait);
        demo.snapshots.push(snapshot(0, 10, heap(vec![(single(0, 5), object(kinds(&[content])))])));
        let mut world = world("x = Square()\nself.wait(3, frozen_frame=False)\n");
        world.lifecycle.scenes.push(demo);
        world
    };
    let found = run(wait_world(3.0, SQUARE), RegisteredRule::StaticUnfrozenWait);
    assert_eq!(found.len(), 1);
    assert!(found[0].message.contains("re-render ~300 provably identical frames"));
    assert!(run(wait_world(1.5, SQUARE), RegisteredRule::StaticUnfrozenWait).is_empty());
    // A traced path updates itself.
    assert!(run(wait_world(3.0, TRACED), RegisteredRule::StaticUnfrozenWait).is_empty());
}

#[test]
fn duration_below_one_frame_is_reported() {
    for (seconds, count) in [(0.001, 1), (1.0 / 60.0, 0), (0.0, 0)] {
        let mut world = world("self.wait(0.001)");
        world.calls.calls.push(call(span(0, 16), WAIT, ReceiverKind::SelfScene));
        let mut cost = call_cost(0);
        cost.wait_time = number(seconds);
        world.cost.call_costs.push(cost);
        let found = run(world, RegisteredRule::SubFrameDuration);
        assert_eq!(found.len(), count, "{seconds}");
        if count > 0 {
            assert!(found[0].message.starts_with(
                "The literal duration 0.001 s is shorter than one frame at 60 fps: "
            ));
        }
    }
}

fn transform_world(source: &str, family: Num, delta: Num) -> World {
    let mut demo = scene();
    let mut step = play(30, 60, PlayKind::Play, number(1.0));
    let mut transform =
        animation(40, 55, "manim.animation.transform.Transform", single(0, 5));
    transform.replacement_target = Some(single(10, 15));
    step.animations.push(transform);
    demo.plays.push(step);
    demo.final_heap = heap(vec![
        (single(0, 5), object(kinds(&[source]))),
        (single(10, 15), object(kinds(&[SQUARE]))),
    ]);
    let mut world = world("");
    world.lifecycle.scenes.push(demo);
    world.cost.transforms.push(TransformSize {
        scene: "scene.Demo".to_owned(),
        play: site(30, 60),
        animation: site(40, 55),
        family,
        curve_delta: delta,
    });
    world
}

#[test]
fn large_transform_is_reported_by_one_rule() {
    let found = run(
        transform_world(SQUARE, whole(32), Num::Unknown),
        RegisteredRule::MismatchedTransformBegin,
    );
    assert_eq!(found.len(), 1);
    assert!(found[0].message.contains("a source family of at least 32 members"));
    assert!(run(
        transform_world(SQUARE, whole(31), whole(255)),
        RegisteredRule::MismatchedTransformBegin
    )
    .is_empty());
    assert_eq!(
        run(
            transform_world(SQUARE, Num::Unknown, whole(256)),
            RegisteredRule::MismatchedTransformBegin
        )
        .len(),
        1
    );
    let text = || transform_world(TEXT, whole(100), whole(1000));
    assert!(run(text(), RegisteredRule::MismatchedTransformBegin).is_empty());
    assert_eq!(run(text(), RegisteredRule::TextFamilyTransform).len(), 1);
}

fn display_world(suffix: i64) -> World {
    let mut demo = scene();
    let image = single(0, 5);
    let mover = single(6, 9);
    let mut step = play(30, 60, PlayKind::Play, number(5.0));
    step.display = Some(DisplayFact {
        members: Some(vec![mover, image]),
        suffix: Some(SuffixFact {
            first_moving_index: Some(whole(0)),
            suffix_len: whole(suffix),
            members_evidence: vec![MemberEvidence {
                id: mover,
                index: 0,
                reason: MovingReason::FamilyUpdater,
                certainty: Truth::Yes,
            }],
            sentence: Some("leads the suffix.".to_owned()),
        }),
    });
    demo.plays.push(step);
    demo.snapshots.push(snapshot(20, 29, heap(vec![(image, object(kinds(&[IMAGE])))])));
    let mut world = world("");
    world.lifecycle.scenes.push(demo);
    world.cost.totals.push(totals(&[0], 5.0));
    world
}

#[test]
fn static_suffix_counts_from_the_threshold_on() {
    assert!(run(display_world(7), RegisteredRule::FrontLoadedStaticSuffix).is_empty());
    let found = run(display_world(8), RegisteredRule::FrontLoadedStaticSuffix);
    assert_eq!(found.len(), 1);
    assert!(found[0].message.starts_with("An updater-bearing object leads the suffix. If z-order"));
    assert_eq!(found[0].confidence, Confidence::High);
    assert_eq!(text_of(evidence(&found[0], "camera_moving")), "No");
}

#[test]
fn image_behind_a_mover_is_reported_with_its_position() {
    let found = run(display_world(1), RegisteredRule::ImageInMovingSuffix);
    assert_eq!(found.len(), 1);
    assert!(found[0].message.contains("at position 2/2 of"));
    assert!(found[0].message.contains("for ~300 frames across 1 play(s)"));
    assert_eq!(found[0].related_locations.len(), 1);
    let mut unknown = display_world(1);
    unknown.lifecycle.scenes[0].plays[0].cost.frames = Num::Unknown;
    unknown.cost.totals.clear();
    let found = run(unknown, RegisteredRule::ImageInMovingSuffix);
    assert!(found[0].message.contains("for every frame of 1 play(s)"));
    // Below 720p the composite is cheap.
    let mut small = display_world(1);
    small.config.active_profiles[0].pixel_height = 479;
    assert!(run(small, RegisteredRule::ImageInMovingSuffix).is_empty());
}

fn loop_world(iter: Expr, kind: StmtKind) -> World {
    let text = "for i in range(8):\n    self.play(x)\n";
    let range = at(text, "self.play(x)");
    let mut world = world(text);
    world.calls.calls.push(call(range, PLAY, ReceiverKind::SelfScene));
    let body = vec![
        stmt(StmtKind::Expr, vec![expr(range, Form::Other, Vec::new())], Vec::new()),
        stmt(kind, Vec::new(), Vec::new()),
    ];
    world.sources.files[0].syntax = syntax(
        vec![stmt(
            StmtKind::Definition,
            Vec::new(),
            vec![stmt(StmtKind::For, vec![iter], body)],
        )],
        Vec::new(),
        Vec::new(),
    );
    world
}

fn range_call(arguments: Vec<Expr>) -> Expr {
    call_expr(span(0, 0), name_expr("range"), arguments)
}

#[test]
fn loop_of_plays_counts_its_trips() {
    let minus = expr(span(0, 0), Form::Unary(UnaryOperator::Minus), vec![int_expr(3)]);
    for (arguments, trips) in [
        (vec![int_expr(7)], None),
        (vec![int_expr(8)], Some(8)),
        (vec![minus, int_expr(6)], Some(9)),
        (vec![int_expr(0), int_expr(31), int_expr(4)], Some(8)),
        (vec![int_expr(0), int_expr(28), int_expr(4)], None),
        (vec![int_expr(100), int_expr(0), int_expr(-1)], None),
        (vec![name_expr("n")], None),
    ] {
        let found = run(loop_world(range_call(arguments), StmtKind::Pass), RegisteredRule::FixedCountLoopPlays);
        assert_eq!(found.len(), usize::from(trips.is_some()));
        if let Some(count) = trips {
            assert!(found[0].message.starts_with(&format!("This loop issues {count} sequential plays:")));
        }
    }
    let list = expr(span(0, 0), Form::List, (0..9).map(int_expr).collect());
    assert_eq!(run(loop_world(list, StmtKind::Pass), RegisteredRule::FixedCountLoopPlays).len(), 1);
    // A loop that may end early has no provable count.
    let early = loop_world(range_call(vec![int_expr(8)]), StmtKind::Break);
    assert!(run(early, RegisteredRule::FixedCountLoopPlays).is_empty());
}

#[test]
fn large_allocation_is_shown_in_binary_units() {
    for (bytes, shown) in [
        (65_535, None),
        (65_536, Some("64 KiB")),
        (819_200, Some("800 KiB")),
        (1_258_292, Some("1.2 MiB")),
        (1_048_576, Some("1.0 MiB")),
    ] {
        let mut world = world("np.zeros((1, 1))");
        world.calls.calls.push(call(span(0, 16), "", ReceiverKind::Unknown));
        let mut entry = hot(0, 1);
        entry.allocation_bytes = whole(bytes);
        world.cost.hot_calls.push(entry);
        let found = run(world, RegisteredRule::HotLargeAllocation);
        match shown {
            Some(size) => assert_eq!(
                found[0].message,
                format!(
                    "This call allocates at least {size} per invocation and runs once per rendered frame."
                )
            ),
            None => assert!(found.is_empty()),
        }
    }
}

fn layer_world(opacity: f64, seconds: f64) -> World {
    let mut demo = scene();
    let layer = single(0, 21);
    let mut state = object(kinds(&[SCREEN]));
    state.fill_opacity = number(opacity);
    demo.snapshots.push(snapshot(0, 22, heap(vec![(layer, state)])));
    let mut step = play(30, 60, PlayKind::Play, number(seconds));
    step.animations.push(animation(40, 50, "manim.animation.rotation.Rotate", layer));
    step.cost.pixel_frames.push(whole(600));
    demo.plays.push(step);
    let mut world = world("FullScreenRectangle()\n");
    world.calls.calls.push(call(span(0, 21), SCREEN, ReceiverKind::Direct));
    world.lifecycle.scenes.push(demo);
    world
}

#[test]
fn translucent_layer_over_five_seconds_is_reported() {
    let found = run(layer_world(0.25, 5.0), RegisteredRule::LongTranslucentFullScreenAnimation);
    assert_eq!(found.len(), 1);
    assert!(found[0].message.starts_with("This full-screen layer remains 25% opaque for 5 s (~300):"));
    for (opacity, seconds) in [(0.25, 4.5), (0.0, 5.0), (1.0, 5.0)] {
        let silent = layer_world(opacity, seconds);
        assert!(run(silent, RegisteredRule::LongTranslucentFullScreenAnimation).is_empty());
    }
    let mut square = layer_world(0.25, 5.0);
    square.config.active_profiles[0].pixel_width = 1080;
    assert!(run(square, RegisteredRule::LongTranslucentFullScreenAnimation).is_empty());
}

#[test]
fn large_surface_under_cairo_is_reported() {
    let surface_world = |side: i64, profiles: Vec<RenderProfile>| {
        let text = "Surface(f, resolution=(32, 32))";
        let range = at(text, text);
        let object_id = ObjectId {
            site: AllocationSite::new(FILE, range),
            cardinality: Cardinality::Singleton,
        };
        let mut demo = scene();
        demo.final_heap = heap(vec![(object_id, object(kinds(&[SURFACE])))]);
        let mut step = play(40, 60, PlayKind::Play, number(1.0));
        step.animations.push(animation(45, 55, "manim.animation.rotation.Rotate", object_id));
        demo.plays.push(step);
        let mut world = world(text);
        world.config.active_profiles = profiles;
        world.calls.calls.push(with_argument(
            call(range, SURFACE, ReceiverKind::Direct),
            argument(
                at(text, "(32, 32)"),
                Some(LiteralFact::Tuple(vec![LiteralFact::Int(side), LiteralFact::Int(32)])),
                Some("resolution"),
            ),
        ));
        world.lifecycle.scenes.push(demo);
        world.cost.totals.push(totals(&[0], 1.0));
        world
    };
    let found = run(surface_world(32, vec![cairo()]), RegisteredRule::CairoSurfaceMismatch);
    assert_eq!(found.len(), 1);
    assert!(found[0].message.starts_with("This 1024-face Surface is captured for ~300 under Cairo."));
    // A sum that is not whole comes with the cost facts, or is unknown.
    let mut summed = surface_world(32, vec![cairo()]);
    summed.lifecycle.scenes[0].plays[0].cost.cairo_frames = number(60.5);
    let found = run(summed, RegisteredRule::CairoSurfaceMismatch);
    assert!(found[0].message.contains("is captured for ~60 under Cairo."));
    let mut unknown = surface_world(32, vec![cairo()]);
    unknown.lifecycle.scenes[0].plays[0].cost.cairo_frames = number(60.5);
    unknown.cost.totals.clear();
    let found = run(unknown, RegisteredRule::CairoSurfaceMismatch);
    assert!(found[0].message.contains("is captured for per-frame under Cairo."));
    assert!(run(surface_world(31, vec![cairo()]), RegisteredRule::CairoSurfaceMismatch).is_empty());
    assert!(run(surface_world(i64::MAX, vec![cairo()]), RegisteredRule::CairoSurfaceMismatch).is_empty());
    let opengl = vec![profile("gl", Renderer::OpenGl, Platform::Linux)];
    assert!(run(surface_world(32, opengl), RegisteredRule::CairoSurfaceMismatch).is_empty());
}

#[test]
fn transparent_stroke_is_reported_while_nothing_shows_it() {
    let stroke_world = |later: Event| {
        let path = single(0, 5);
        let mut state = object(kinds(&[SQUARE]));
        state.stroke_opacity = whole(0);
        state.stroke_width = number(4.5);
        state.curve_count = whole(4);
        let mut demo = scene();
        demo.snapshots.push(snapshot(0, 6, heap(vec![(path, state)])));
        let mut step = play(30, 60, PlayKind::Play, number(1.0));
        step.animations.push(animation(40, 50, "manim.animation.rotation.Rotate", path));
        demo.plays.push(step);
        demo.events.push(TracedEvent {
            event: Event::BeginPlay { play_group: 30 },
            site: site(30, 60),
            certainty: Presence::Present,
        });
        demo.events.push(TracedEvent { event: later, site: site(70, 80), certainty: Presence::Present });
        let mut world = world("");
        world.lifecycle.scenes.push(demo);
        world
    };
    let found = run(stroke_world(Event::Other), RegisteredRule::TransparentStrokeCapture);
    assert_eq!(found.len(), 1);
    assert!(found[0].message.contains("stroke of width 4.5 for ~300."));
    assert!(run(stroke_world(Event::RegisterUpdater), RegisteredRule::TransparentStrokeCapture).is_empty());
    let touched = Event::UnknownMutation { values: vec![single(0, 5)] };
    assert!(run(stroke_world(touched), RegisteredRule::TransparentStrokeCapture).is_empty());
}

#[test]
fn distinct_tex_keys_before_the_first_play_are_counted() {
    let tex_world = |formulas: &[&str]| {
        let mut demo = scene();
        let mut world = world("");
        for (index, formula) in formulas.iter().enumerate() {
            let start = 10 * index as u32;
            let range = span(start, start + 5);
            world.calls.calls.push(with_argument(
                call(range, MATH_TEX, ReceiverKind::Direct),
                argument(range, Some(string(formula, range)), None),
            ));
            demo.events.push(TracedEvent {
                event: Event::Alloc { allocated: kinds(&[MATH_TEX]) },
                site: site(start, start + 5),
                certainty: Presence::Present,
            });
        }
        demo.events.push(TracedEvent {
            event: Event::BeginPlay { play_group: 1 },
            site: site(90, 99),
            certainty: Presence::Present,
        });
        world.lifecycle.scenes.push(demo);
        world
    };
    let found = run(tex_world(&["a", "b", "c", "d", "a"]), RegisteredRule::SerialTexCompileKeys);
    assert_eq!(found.len(), 1);
    assert!(found[0].message.starts_with("4 distinct TeX compile keys are constructed serially"));
    assert!(found[0].message.ends_with("API (`submit`, `collect`)."));
    assert_eq!(found[0].related_locations.len(), 3);
    let why = found[0].explanation.as_deref().expect("an explanation");
    assert!(why.contains("coalesced into one job."));
    assert!(!why.contains("in-flight TeX futures"));
    // An f-string key is never countable.
    let mut dynamic = tex_world(&["a", "b", "c", "d"]);
    if let Some(LiteralFact::Str { prefix, .. }) = &mut dynamic.calls.calls[3].arguments[0].literal {
        prefix.formatted = true;
    }
    assert!(run(dynamic, RegisteredRule::SerialTexCompileKeys).is_empty());
    // The same formula again is no further job.
    assert!(run(tex_world(&["a", "b", "c", "a", "b"]), RegisteredRule::SerialTexCompileKeys).is_empty());
}

fn waiting_scene(registration: UpdaterRegistration, extra: Option<UpdaterFact>) -> SceneLifecycle {
    let host = single(0, 2);
    let mut demo = scene();
    let mut state = object(kinds(&[SQUARE]));
    state.updaters.push(updater(Truth::Yes));
    if let Some(other) = extra {
        state.updaters.push(other);
    }
    demo.snapshots.push(snapshot(0, 10, heap(vec![(host, state)])));
    let mut wait = play(20, 40, PlayKind::Wait, number(5.0));
    wait.dynamic_wait = Truth::Yes;
    demo.plays.push(wait);
    demo.updaters.push(registration);
    demo
}

#[test]
fn no_op_updater_that_keeps_a_wait_dynamic_is_reported() {
    let host = UpdaterHost::Mobject(single(0, 2));
    let mut noop = world("");
    noop.lifecycle.scenes.push(waiting_scene(registration(host), None));
    let found = run(noop, RegisteredRule::NoOpUpdaterCost);
    assert_eq!(found.len(), 1);
    assert!(found[0].message.contains("it is the only reason 1 wait(s) render dynamically"));
    // Another updater on time is another cause.
    let mut shared = world("");
    let other = UpdaterFact { callback: CallbackRef::Unknown, time_based: Truth::Maybe };
    shared.lifecycle.scenes.push(waiting_scene(registration(host), Some(other)));
    assert!(run(shared, RegisteredRule::NoOpUpdaterCost).is_empty());
}

/// `{0: lambda: 0}`.
fn dict_with_lambda() -> Expr {
    let lambda = expr(span(0, 0), Form::Lambda, vec![int_expr(0)]);
    expr(span(0, 0), Form::Other, vec![int_expr(0), lambda])
}

#[test]
fn frame_invariant_updater_is_judged_by_its_body() {
    let invariant_world = |body: Expr| {
        let mut fixed = registration(UpdaterHost::Mobject(single(0, 2)));
        fixed.body.mutates_target = Truth::Yes;
        let mut world = world("");
        world.lifecycle.scenes.push(waiting_scene(fixed, None));
        world.sources.files[0].syntax = syntax(
            Vec::new(),
            vec![LambdaFact { range: span(3, 9), parameters: parameters(&["m", "dt"]), body }],
            Vec::new(),
        );
        world
    };
    let setter = |method: &str, argument: Expr| {
        call_expr(span(0, 0), attribute(name_expr("m"), method), vec![argument])
    };
    let plain = expr(span(0, 0), Form::Other, vec![int_expr(0), int_expr(1)]);
    assert_eq!(
        run(invariant_world(setter("set_style", plain)), RegisteredRule::FrameInvariantDynamicWait).len(),
        1
    );
    let found = run(
        invariant_world(setter("set_color", name_expr("RED"))),
        RegisteredRule::FrameInvariantDynamicWait,
    );
    assert_eq!(found.len(), 1);
    assert!(found[0].message.starts_with("This wait renders ~300 frames dynamically"));
    for body in [
        setter("shift", name_expr("RIGHT")),
        setter("move_to", call_expr(span(0, 0), attribute(name_expr("m"), "get_center"), Vec::new())),
        name_expr("m"),
        expr(span(0, 0), Form::Lambda, vec![name_expr("x")]),
        setter("set_style", dict_with_lambda()),
        setter("set_style", expr(span(0, 0), Form::Comprehension, vec![dict_with_lambda()])),
        dict_with_lambda(),
    ] {
        assert!(run(invariant_world(body), RegisteredRule::FrameInvariantDynamicWait).is_empty());
    }
}

#[test]
fn updater_over_three_long_plays_is_reported() {
    let live_world = |plays: usize, seconds: f64| {
        let host = single(0, 2);
        let mut demo = scene();
        demo.snapshots.push(snapshot(0, 10, heap(vec![(host, object(kinds(&[SQUARE])))])));
        let mut positions = Vec::new();
        for index in 0..plays {
            let start = 20 + 10 * index as u32;
            demo.plays.push(play(start, start + 5, PlayKind::Play, number(2.0)));
            positions.push(index);
        }
        demo.updaters.push(registration(UpdaterHost::Mobject(host)));
        let mut world = world("");
        world.lifecycle.scenes.push(demo);
        world.cost.totals.push(totals(&positions, seconds));
        world
    };
    let found = run(live_world(3, 6.0), RegisteredRule::LongLivedUpdater);
    assert_eq!(found.len(), 1);
    assert!(found[0].message.starts_with(
        "This updater stays registered for an estimated 6 s (~900 frames) across 3 subsequent plays."
    ));
    assert!(run(live_world(2, 6.0), RegisteredRule::LongLivedUpdater).is_empty());
    // Whole seconds are added up without help.
    let mut whole_world = live_world(3, 0.0);
    whole_world.cost.totals.clear();
    for play in &mut whole_world.lifecycle.scenes[0].plays {
        play.duration = whole(2);
    }
    let found = run(whole_world, RegisteredRule::LongLivedUpdater);
    assert!(found[0].message.starts_with(
        "This updater stays registered for an estimated 6 s (~900 frames) across 3 subsequent plays."
    ));
    assert!(run(live_world(3, 4.9), RegisteredRule::LongLivedUpdater).is_empty());
}

#[test]
fn redraw_of_one_leaf_is_stable_geometry() {
    let redraw_world = |guards_hold: bool| {
        let text = "always_redraw(lambda: Square())";
        let lambda = at(text, "lambda: Square()");
        let mut world = world(text);
        let mut factory = argument(lambda, None, None);
        factory.shape = ArgShape::Lambda;
        world
            .calls
            .calls
            .push(with_argument(call(span(0, 31), REDRAW, ReceiverKind::Direct), factory));
        world.calls.calls.push(call(at(text, "Square()"), SQUARE, ReceiverKind::Direct));
        world.lifecycle.callback_returns.lambdas.push(manim_lint::semantic::LambdaReturn {
            site: AllocationSite::new(FILE, lambda),
            fact: manim_lint::semantic::ReturnFact {
                returns_mobject: Truth::Yes,
                has_bare_return_path: Truth::No,
                has_no_return_path: Truth::No,
            },
        });
        let mut entry = hot(1, 1);
        entry.contexts[0].entry = HotEntryKind::AlwaysRedraw;
        world.cost.hot_calls.push(entry);
        world.cost.geometry.push(GeometryFact {
            call_index: 1,
            class: SQUARE.to_owned(),
            curves: 4,
            points: 16,
            guards_hold,
        });
        world
    };
    let found = run(redraw_world(true), RegisteredRule::StableGeometryRedraw);
    assert_eq!(found.len(), 1);
    assert!(found[0].message.contains("rebuilds a `Square` with identical topology (4 curves, 16 points)"));
    assert!(run(redraw_world(false), RegisteredRule::StableGeometryRedraw).is_empty());
}

#[test]
fn traced_path_over_five_seconds_is_reported() {
    let traced_world = |seconds: f64, dissipating: Option<LiteralFact>| {
        let text = "TracedPath(dot.get_center)";
        let range = span(0, text.len() as u32);
        let path = ObjectId {
            site: AllocationSite::new(FILE, range),
            cardinality: Cardinality::Singleton,
        };
        let mut demo = scene();
        demo.final_heap = heap(vec![(path, object(kinds(&[TRACED])))]);
        demo.snapshots.push(snapshot(0, 26, heap(vec![(path, object(kinds(&[TRACED])))])));
        demo.plays.push(play(30, 40, PlayKind::Play, number(seconds)));
        let mut world = world(text);
        let mut constructor = call(range, TRACED, ReceiverKind::Direct);
        if let Some(literal) = dissipating {
            constructor =
                with_argument(constructor, argument(span(0, 1), Some(literal), Some("dissipating_time")));
        }
        world.calls.calls.push(constructor);
        world.lifecycle.scenes.push(demo);
        world.cost.totals.push(totals(&[0], seconds));
        world
    };
    let found = run(traced_world(5.0, None), RegisteredRule::UnboundedTracedPath);
    assert_eq!(found.len(), 1);
    assert!(found[0].message.contains("in the scene for 5 s of subsequent plays"));
    assert!(found[0].message.contains("~300 points at the analyzed frame rates"));
    let none = run(traced_world(5.0, Some(LiteralFact::NoneLit)), RegisteredRule::UnboundedTracedPath);
    assert_eq!(text_of(evidence(&none[0], "dissipating_time")), "None");
    assert!(run(traced_world(4.0, None), RegisteredRule::UnboundedTracedPath).is_empty());
    let mut whole_world = traced_world(1.0, None);
    whole_world.cost.totals.clear();
    whole_world.lifecycle.scenes[0].plays[0].duration = whole(7);
    let found = run(whole_world, RegisteredRule::UnboundedTracedPath);
    assert!(found[0].message.contains("in the scene for 7 s of subsequent plays"));
    assert!(run(traced_world(5.0, Some(LiteralFact::Int(1))), RegisteredRule::UnboundedTracedPath).is_empty());
}

#[test]
fn sample_count_is_reported_from_the_threshold_on() {
    let sample_world = |samples: f64, candidate: &str| {
        let text = "ParametricFunction(f, t_range=(0, 10, 0.001))";
        let mut world = world(text);
        world.calls.calls.push(with_argument(
            call(span(0, 45), candidate, ReceiverKind::Direct),
            argument(
                at(text, "(0, 10, 0.001)"),
                Some(LiteralFact::Tuple(vec![
                    LiteralFact::Int(0),
                    LiteralFact::Int(10),
                    LiteralFact::Float(decimal(0.001)),
                ])),
                Some("t_range"),
            ),
        ));
        let mut cost = call_cost(0);
        cost.samples = Some(decimal(samples));
        world.cost.call_costs.push(cost);
        world
    };
    let found = run(sample_world(10000.0, PARAMETRIC), RegisteredRule::ExcessiveSampleCount);
    assert_eq!(found.len(), 1);
    assert!(found[0].message.starts_with(
        "The literal range (0, 10, 0.001) proves about 10000 samples: about 10000 Python callback"
    ));
    assert!(run(sample_world(9999.0, PARAMETRIC), RegisteredRule::ExcessiveSampleCount).is_empty());
    // A star import reaches the class through the exports.
    let exported = run(
        sample_world(10000.0, "manim.ParametricFunction"),
        RegisteredRule::ExcessiveSampleCount,
    );
    assert_eq!(text_of(evidence(&exported[0], "resolution")), "knowledge-profile");
    assert!(run(sample_world(10000.0, "other.Function"), RegisteredRule::ExcessiveSampleCount).is_empty());
}

#[test]
fn whole_ranges_are_counted_by_their_steps() {
    for (start, end, step, samples) in [
        (0, 10_000, 1, Some("10000")),
        (0, 9_999, 1, None),
        (-5, 30_000, 3, Some("10002")),
        (0, 29_998, 3, Some("10000")),
        (0, 29_997, 3, None),
        (0, 9_007_199_254_740_991, 900_000_000_000, Some("10008")),
        (10, 10, 1, None),
        (0, 10_000, -1, None),
    ] {
        let text = "ParametricFunction(f, t_range=(0, 10, 1))";
        let mut world = world(text);
        world.calls.calls.push(with_argument(
            call(span(0, 41), PARAMETRIC, ReceiverKind::Direct),
            argument(
                at(text, "(0, 10, 1)"),
                Some(LiteralFact::List(vec![
                    LiteralFact::Int(start),
                    LiteralFact::Int(end),
                    LiteralFact::Int(step),
                ])),
                Some("t_range"),
            ),
        ));
        let found = run(world, RegisteredRule::ExcessiveSampleCount);
        let float = ((end as f64 - start as f64) / step as f64).ceil();
        match samples {
            Some(count) => {
                assert_eq!(count, format!("{float:.0}"));
                assert!(found[0].message.contains(&format!("proves about {count} samples")));
            }
            None => assert!(found.is_empty(), "{start} {end} {step}"),
        }
    }
}

#[test]
fn supplied_findings_become_diagnostics_of_their_rule() {
    let finding = |rule_id: &str, renderer: Option<Renderer>| SuppliedFinding {
        rule_id: rule_id.to_owned(),
        file: FILE,
        range: span(3, 7),
        message: "a message".to_owned(),
        explanation: "a reason".to_owned(),
        evidence: Json::Object(vec![("kind".to_owned(), Json::Text("chain".to_owned()))]),
        places: vec![SuppliedPlace { site: site(0, 2), message: "there".to_owned() }],
        renderer,
        fix: Some(SuppliedFix {
            applicability: FixApplicability::Unsafe,
            message: "change it".to_owned(),
            edits: vec![SuppliedEdit { range: span(3, 4), replacement: "x".to_owned() }],
        }),
    };
    let supplied = || {
        let mut world = world("0123456789");
        world.config.active_profiles.push(profile("gl", Renderer::OpenGl, Platform::Linux));
        world.supplied = vec![
            finding("MLC114", None),
            finding("MLR119", Some(Renderer::OpenGl)),
            finding("MLC101", None),
        ];
        world
    };
    let found = run(supplied(), RegisteredRule::UnsupportedOverrideAnimateChain);
    assert_eq!(found.len(), 1);
    assert_eq!(found[0].message, "a message");
    assert_eq!((found[0].primary_span.start.column, found[0].primary_span.end.column), (4, 8));
    assert_eq!(found[0].related_locations[0].message, "there");
    assert_eq!(found[0].applicable_profiles, ["cairo", "gl"]);
    assert_eq!(found[0].fix.as_ref().expect("a fix").edits[0].replacement, "x");
    assert_eq!(text_of(evidence(&found[0], "kind")), "chain");
    let found = run(supplied(), RegisteredRule::MovingCameraUnderOpengl);
    assert_eq!(found[0].applicable_profiles, ["gl"]);
    // A rule of the library never takes findings from outside.
    assert!(run(supplied(), RegisteredRule::EmptyPlay).is_empty());
    let mut without = supplied();
    without.config.active_profiles.pop();
    assert!(run(without, RegisteredRule::MovingCameraUnderOpengl).is_empty());
}

#[test]
fn fork_losses_are_merged_across_profiles_and_sorted() {
    let outcome = |ordinal: usize| PlayGateOutcome {
        ordinal,
        site: site(0, 4),
        verdict: GateVerdict::Blocked(vec![GateCause {
            blocker: "scene_updater".to_owned(),
            site: Some(site(0, 2)),
            detail: "the updater".to_owned(),
        }]),
        description: "blocked".to_owned(),
    };
    let paths = |profile: &str| ProfileForkPaths {
        profile: profile.to_owned(),
        fork: GateEvaluation::Plays(vec![outcome(2), outcome(1)]),
        static_layers: GateEvaluation::Unrequested,
        bulk: GateEvaluation::Plays(vec![PlayGateOutcome {
            verdict: GateVerdict::MonotonicallyDisabled {
                first_ordinal: 1,
                first_site: site(0, 4),
                first_blocker: "scene_updater".to_owned(),
            },
            ..outcome(1)
        }]),
    };
    let mut world = world("play");
    world.cost.fork.fork_measured = Some("measured once".to_owned());
    world.cost.fork.scenes.push(SceneForkPaths {
        scene: "scene.Demo".to_owned(),
        profiles: vec![paths("low"), paths("high")],
    });
    let found = run(world, RegisteredRule::ForkFastPathLoss);
    let messages: Vec<&str> = found.iter().map(|item| item.message.as_str()).collect();
    assert_eq!(
        messages,
        [
            "fork-per-play: play #1 of scene.Demo: blocked",
            "fork-per-play: play #2 of scene.Demo: blocked",
            "bulk-interpolation: play #1 of scene.Demo: blocked",
        ]
    );
    assert_eq!(found[0].applicable_profiles, ["low", "high"]);
    assert!(found[0]
        .explanation
        .as_deref()
        .expect("an explanation")
        .ends_with(" Calibration evidence: measured once."));
    assert_eq!(found[2].related_locations[0].message.matches("parent encoder").count(), 1);
}

#[test]
fn forced_updates_over_a_static_wait_are_reported() {
    let forced_world = |camera: CameraKind| {
        let mut demo = scene();
        demo.camera_kind = camera;
        demo.snapshots.push(snapshot(0, 10, heap(vec![(single(0, 2), object(kinds(&[SQUARE])))])));
        let mut wait = play(20, 40, PlayKind::Wait, number(5.0));
        wait.always_update_mobjects = Truth::Yes;
        demo.plays.push(wait);
        let mut world = world("");
        world.lifecycle.scenes.push(demo);
        world
    };
    assert_eq!(run(forced_world(CameraKind::Standard), RegisteredRule::ForcedAlwaysUpdateWait).len(), 1);
    assert!(run(forced_world(CameraKind::Unknown), RegisteredRule::ForcedAlwaysUpdateWait).is_empty());
}

// ---------------------------------------------------------------------------
// Portability rules.
// ---------------------------------------------------------------------------

#[test]
fn fixed_step_without_dt_depends_on_the_frame_rate() {
    let motion_world = |params: &[&str], method: &str, step: Expr| {
        let text = "dot.add_updater(lambda m: m.shift(0.1 * RIGHT))";
        let lambda = at(text, "lambda m: m.shift(0.1 * RIGHT)");
        let mut world = world(text);
        let mut callback = argument(lambda, None, None);
        callback.shape = ArgShape::Lambda;
        world.calls.calls.push(with_argument(
            call(
                span(0, 47),
                "manim.mobject.mobject.Mobject.add_updater",
                ReceiverKind::KnownInstance(SQUARE.to_owned()),
            ),
            callback,
        ));
        world.calls.bindings.files.push(bindings(&["manim"], &[], &[]));
        let body = call_expr(
            at(text, "m.shift(0.1 * RIGHT)"),
            attribute(name_expr("m"), method),
            vec![step],
        );
        world.sources.files[0].syntax = syntax(
            Vec::new(),
            vec![LambdaFact { range: lambda, parameters: parameters(params), body }],
            Vec::new(),
        );
        world
    };
    let step = || {
        expr(
            span(0, 0),
            Form::Binary(BinaryOperator::Mult),
            vec![expr(span(0, 0), Form::Float, Vec::new()), name_expr("RIGHT")],
        )
    };
    let found = run(motion_world(&["m"], "shift", step()), RegisteredRule::FpsDependentUpdaterMotion);
    assert_eq!(found.len(), 1);
    assert!(found[0].message.starts_with("Updater lambda applies `shift` with a fixed step"));
    assert_eq!(found[0].related_locations[0].message, "updater registered here");
    // Time-based, absolute, and variable updates are fine.
    for silent in [
        motion_world(&["m", "dt"], "shift", step()),
        motion_world(&["m"], "next_to", step()),
        motion_world(&["m"], "shift", name_expr("step")),
    ] {
        assert!(run(silent, RegisteredRule::FpsDependentUpdaterMotion).is_empty());
    }
}

fn external_world(dotted: &[&str], imports: &[(&str, &str)]) -> World {
    let mut world = world("random.random()");
    let mut read = call(span(0, 15), "", ReceiverKind::ModuleAlias);
    read.callee_dotted = Some(names(dotted));
    world.calls.calls.push(read);
    world.calls.bindings.files.push(bindings(&[], imports, &[]));
    world.cost.hot_calls.push(hot(0, 1));
    world
}

#[test]
fn unseeded_random_state_is_reported_until_it_is_seeded() {
    let found = run(
        external_world(&["random", "random"], &[("random", "random")]),
        RegisteredRule::UnseededGlobalRandom,
    );
    assert_eq!(found.len(), 1);
    assert!(found[0].message.starts_with("`random.random` reads the unseeded"));
    let numpy = external_world(&["np", "random", "uniform"], &[("np", "numpy")]);
    assert_eq!(run(numpy, RegisteredRule::UnseededGlobalRandom).len(), 1);
    let generator = external_world(&["np", "random", "default_rng"], &[("np", "numpy")]);
    assert!(run(generator, RegisteredRule::UnseededGlobalRandom).is_empty());
    let mut seeded = external_world(&["random", "random"], &[("random", "random")]);
    let mut seed = with_argument(
        call(span(20, 30), "", ReceiverKind::ModuleAlias),
        argument(span(28, 29), Some(LiteralFact::Int(1)), None),
    );
    seed.callee_dotted = Some(names(&["random", "seed"]));
    seeded.calls.calls.push(seed);
    assert!(run(seeded, RegisteredRule::UnseededGlobalRandom).is_empty());
}

#[test]
fn project_module_is_no_library_function() {
    let mut project = world("random.random()");
    project.calls.calls.push(call(span(0, 15), "random.random", ReceiverKind::ModuleAlias));
    project.calls.bindings.files.push(bindings(&[], &[], &[]));
    project.cost.hot_calls.push(hot(0, 1));
    project.index.module_tree = names(&["random"]);
    assert!(run(project, RegisteredRule::UnseededGlobalRandom).is_empty());
}

#[test]
fn frame_callback_input_and_output_is_classified() {
    for (dotted, imports, label) in [
        (vec!["time", "time"], vec![("time", "time")], Some("wall-clock")),
        (vec!["requests", "get"], vec![("requests", "requests")], Some("network")),
        (vec!["open"], vec![], Some("filesystem")),
        (vec!["print"], vec![], None),
    ] {
        let found = run(external_world(&dotted, &imports), RegisteredRule::FrameCallbackIo);
        assert_eq!(found.len(), usize::from(label.is_some()), "{dotted:?}");
        if let Some(category) = label {
            assert_eq!(text_of(evidence(&found[0], "category")), category);
        }
    }
    let mut chained = external_world(&[], &[("Path", "pathlib.Path")]);
    chained.calls.calls[0].callee_dotted = None;
    chained.calls.calls[0].callee_chain =
        Some(CallChain { method: "read_text".to_owned(), inner: Some(names(&["Path"])) });
    let found = run(chained, RegisteredRule::FrameCallbackIo);
    assert_eq!(text_of(evidence(&found[0], "function")), "Path(...).read_text");
}

fn asset_world(value: &str, profiles: Vec<RenderProfile>, probes: Vec<AssetProbe>) -> World {
    let text = "SVGMobject(\"Icon\")";
    let literal = at(text, "\"Icon\"");
    let mut world = world(text);
    world.config.active_profiles = profiles;
    world.calls.calls.push(with_argument(
        call(span(0, 18), SVG, ReceiverKind::Direct),
        argument(literal, Some(string(value, literal)), None),
    ));
    world.literals.assets.push(AssetFact {
        site: AllocationSite::new(FILE, literal),
        resolutions: Vec::new(),
        next_to_source: false,
        outside_project: false,
        probes,
    });
    world
}

#[test]
fn path_syntax_must_fit_the_platform() {
    let linux = || profile("linux", Renderer::Cairo, Platform::Linux);
    let windows = || profile("windows", Renderer::Cairo, Platform::Windows);
    for (value, syntax, target) in [
        ("C:icon.svg", Some("windows"), "linux"),
        ("a\\icon.svg", Some("windows"), "linux"),
        ("/icon.svg", Some("posix-absolute"), "windows"),
        ("icon.svg", None, ""),
    ] {
        let found = run(
            asset_world(value, vec![linux(), windows()], Vec::new()),
            RegisteredRule::ForeignPlatformAssetPath,
        );
        assert_eq!(found.len(), usize::from(syntax.is_some()), "{value}");
        if let Some(expected) = syntax {
            assert_eq!(text_of(evidence(&found[0], "path_syntax")), expected);
            assert_eq!(found[0].applicable_profiles, [target]);
        }
    }
}

#[test]
fn assets_are_tried_below_both_directories() {
    let paths = |constructor: &str| -> Vec<(bool, String)> {
        asset_candidates(constructor, "a/Icon")
            .into_iter()
            .map(|candidate| (candidate.in_assets, candidate.relative))
            .collect()
    };
    let named = |in_assets: bool, name: &str| (in_assets, name.to_owned());
    assert_eq!(paths(SVG), [named(false, "a/Icon"), named(true, "a/Icon"), named(true, "a/Icon.svg")]);
    assert_eq!(
        paths(IMAGE)[2..],
        [
            named(true, "a/Icon.jpg"),
            named(true, "a/Icon.jpeg"),
            named(true, "a/Icon.png"),
            named(true, "a/Icon.gif"),
            named(true, "a/Icon.ico"),
        ]
    );
    assert_eq!(paths(TEXT).len(), 2);
}

#[test]
fn case_only_match_is_reported_for_linux() {
    let probe = |exact: bool, literal: bool| AssetProbe {
        working_directory: true,
        exact: vec![false, exact, false],
        literal_matches: vec![literal, false],
        extended_matches: vec![Some("icon.svg".to_owned())],
    };
    let linux = || vec![profile("linux", Renderer::Cairo, Platform::Linux)];
    let found = run(
        asset_world("Icon", linux(), vec![probe(false, false)]),
        RegisteredRule::CaseOnlyAssetMismatch,
    );
    assert_eq!(found.len(), 1);
    assert!(found[0].message.contains("exists on disk only as \"icon.svg\""));
    for silent in [
        asset_world("Icon", linux(), vec![probe(true, false)]),
        asset_world("Icon", linux(), vec![probe(false, true)]),
        asset_world("~/Icon", linux(), vec![probe(false, false)]),
        asset_world(
            "Icon",
            vec![profile("mac", Renderer::Cairo, Platform::Macos)],
            vec![probe(false, false)],
        ),
    ] {
        assert!(run(silent, RegisteredRule::CaseOnlyAssetMismatch).is_empty());
    }
}

#[test]
fn fonts_are_compared_without_case() {
    for (font, allowed, count) in [
        (" ÉCOLE ", vec!["école"], 0),
        ("Arial", vec!["Helvetica", " arial "], 0),
        ("Arial", vec!["Helvetica"], 1),
        ("Arial", vec![], 0),
        ("  ", vec!["Helvetica"], 0),
    ] {
        let mut world = world("Text('x', font='Arial')");
        world.config.active_profiles[0].allowed_fonts = names(&allowed);
        world.calls.calls.push(with_argument(
            call(span(0, 23), TEXT, ReceiverKind::Direct),
            argument(span(15, 22), Some(string(font, span(15, 22))), Some("font")),
        ));
        let found = run(world, RegisteredRule::FontOutsideAllowlist);
        assert_eq!(found.len(), count, "{font:?}");
    }
}

fn divergent_world(profiles: Vec<RenderProfile>) -> World {
    let mut demo = scene();
    let fixed = single(0, 3);
    let fact = |start: u32, action: FixedAction| FixedRegistrationFact {
        site: site(start, start + 5),
        action,
        kind: FixedKind::InFrame,
        object: fixed,
        certainty: Presence::Present,
        renderer_divergent: true,
    };
    demo.fixed_registrations.push(fact(10, FixedAction::Register));
    demo.fixed_registrations.push(fact(20, FixedAction::Remove));
    demo.events.push(TracedEvent {
        event: Event::RendererRequirement {
            requirement: RendererRequirementKind::DivergesBetweenRenderers,
            note: "removal".to_owned(),
        },
        site: site(20, 25),
        certainty: Presence::Present,
    });
    let mut world = world("");
    world.config.active_profiles = profiles;
    world.lifecycle.scenes.push(demo);
    world
}

#[test]
fn divergent_removal_matters_under_two_renderers() {
    let opengl = || profile("gl", Renderer::OpenGl, Platform::Linux);
    let found = run(divergent_world(vec![cairo(), opengl()]), RegisteredRule::UnguardedRendererDivergence);
    assert_eq!(found.len(), 1);
    assert!(found[0].message.contains("(cairo, opengl)"));
    assert_eq!(found[0].related_locations.len(), 1);
    assert!(run(divergent_world(vec![cairo()]), RegisteredRule::UnguardedRendererDivergence).is_empty());
}

#[test]
fn certain_camera_frame_use_matters_under_two_renderers() {
    let camera_world = |first: Stmt| {
        let mut world = divergent_world(vec![
            cairo(),
            profile("gl", Renderer::OpenGl, Platform::Linux),
        ]);
        let demo = &mut world.lifecycle.scenes[0];
        demo.events.clear();
        demo.camera_kind = CameraKind::MovingCamera;
        world.index.classes.push(manim_lint::frontend::ClassRecord {
            id: "scene.Demo".to_owned(),
            name: "Demo".to_owned(),
            file: FILE,
            methods: vec![manim_lint::frontend::MethodRecord {
                name: "construct".to_owned(),
                range: span(0, 50),
            }],
            kinds: Vec::new(),
            reached_bases: Vec::new(),
            bases_fully_resolved: true,
        });
        let frame = expr(
            span(30, 47),
            Form::Attribute("frame".to_owned()),
            vec![attribute(name_expr("self"), "camera")],
        );
        world.sources.files[0].syntax = syntax(
            Vec::new(),
            Vec::new(),
            vec![FunctionFact {
                name: "construct".to_owned(),
                range: span(0, 50),
                parameters: parameters(&["self"]),
                body: vec![first, stmt(StmtKind::Expr, vec![frame], Vec::new())],
            }],
        );
        world
    };
    let found = run(
        camera_world(stmt(StmtKind::Pass, Vec::new(), Vec::new())),
        RegisteredRule::UnguardedRendererDivergence,
    );
    assert_eq!(found.len(), 1);
    assert!(found[0].message.contains("`self.camera.frame` is reached without a renderer guard"));
    // Behind a branch the use is not certain.
    let branch = camera_world(stmt(StmtKind::Block, vec![name_expr("x")], Vec::new()));
    assert!(run(branch, RegisteredRule::UnguardedRendererDivergence).is_empty());
    // A rebound `self` is no longer certainly the scene.
    let mut rebound = stmt(StmtKind::Assign, vec![name_expr("x")], Vec::new());
    rebound.targets.push(expr(span(0, 0), Form::Tuple, vec![name_expr("self")]));
    assert!(run(camera_world(rebound), RegisteredRule::UnguardedRendererDivergence).is_empty());
}

#[test]
fn severities_are_those_of_the_metadata() {
    assert_eq!(RegisteredRule::EmptyPlay.metadata().default_severity, Severity::Error);
    assert_eq!(RegisteredRule::FontOutsideAllowlist.metadata().default_severity, Severity::Info);
}
