//! What selections, profile lists, supplied findings, and fixes are for.
use super::environment::leaves_out;
use super::meaning::names_are_split_at_the_last_dot;
use super::{owed, parts_stand, stand_at};
use crate::config::{cairo_names, renderer_names, Platform, RenderProfile, Renderer};
use crate::diagnostic::MetadataView;
use crate::numbers::{Num, NumLit};
use crate::render_order::MovingReason;
use crate::rules::base::RuleContext;
use crate::rules::lifecycle::builder_rules::{
    begin_before, builds_on, consuming_from, has_builder_on,
};
use crate::rules::lifecycle::play_args::animated;
use crate::rules::lifecycle::support::dotted_name;
use crate::rules::performance::sums::{sum_of, whole_sum, PlayQuantity};
use crate::rules::performance::updater_waste::{leg_at, updater_entry_from};
use crate::rules::portability::allowed_fonts::{forbidding_names, forbids};
use crate::rules::portability::paths::platform_names;
use crate::rules::registry::{any_selects, family_prefixes, selects, wanted_directly};
use crate::rules::rendering::assets::{quote_from, quote_run, requoted};
use crate::rules::supplied::{supplied_at, supplied_finder, supplied_findings};
use crate::semantic::{
    Cardinality, ObjectId, PlayFact, PlayKind, Presence, SceneLifecycle, Truth, UpdaterHost,
    UpdaterRegistration,
};
use crate::text::{found, gather, occurs_at};
use vstd::prelude::*;

verus! {

/// Whether a selector means a rule: it is its id, or one of the four family
/// prefixes and the id begins with it.
pub open spec fn means(selector: Seq<char>, id: Seq<char>) -> bool {
    ||| selector == id
    ||| (selector == "MLC"@ || selector == "MLR"@ || selector == "MLP"@ || selector == "MLD"@)
        && exists|rest: Seq<char>| id == #[trigger] (selector + rest)
}

proof fn meaning_is_told(selector: Seq<char>, id: Seq<char>)
    ensures
        means(selector, id) <==> selects(selector, id),
{
    let prefixes = family_prefixes();
    assert(prefixes[0] == "MLC"@ && prefixes[1] == "MLR"@ && prefixes[2] == "MLP"@ && prefixes[3]
        == "MLD"@);
    assert(prefixes.contains(selector) <==> selector == "MLC"@ || selector == "MLR"@ || selector
        == "MLP"@ || selector == "MLD"@) by {
        assert(prefixes.len() == 4);
        if prefixes.contains(selector) {
            let k = choose|k: int| 0 <= k < prefixes.len() && prefixes[k] == selector;
            assert(k == 0 || k == 1 || k == 2 || k == 3);
        }
    }
    if occurs_at(id, selector, 0) {
        assert(id =~= selector + id.skip(selector.len() as int));
    }
    if exists|rest: Seq<char>| id == #[trigger] (selector + rest) {
        let rest = choose|rest: Seq<char>| id == #[trigger] (selector + rest);
        assert(id.subrange(0, selector.len() as int) =~= selector);
    }
}

/// Whether some selector of a list means a rule.
pub open spec fn some_means(selectors: Seq<String>, id: Seq<char>) -> bool {
    exists|s: int| 0 <= s < selectors.len() && means((#[trigger] selectors[s])@, id)
}

proof fn some_meaning_is_told(selectors: Seq<String>, id: Seq<char>)
    ensures
        some_means(selectors, id) <==> any_selects(selectors, id),
{
    assert forall|s: int| 0 <= s < selectors.len() implies (means((#[trigger] selectors[s])@, id)
        <==> selects(selectors[s]@, id)) by {
        meaning_is_told(selectors[s]@, id);
    }
}

/// A rule is wanted when some selector means it, none that is ignored does, and
/// it is on by default or selected by its very id.
pub proof fn selections_are_exact(metadata: MetadataView, select: Seq<String>, ignore: Seq<String>)
    ensures
        wanted_directly(metadata, select, ignore) <==> some_means(select, metadata.id)
            && !some_means(ignore, metadata.id) && (metadata.default_enabled || exists|s: int|
            0 <= s < select.len() && (#[trigger] select[s])@ == metadata.id),
{
    some_meaning_is_told(select, metadata.id);
    some_meaning_is_told(ignore, metadata.id);
}

/// Whether some active profile is meant by a renderer: every profile, where
/// none is named.
pub open spec fn meets_renderer(profiles: Seq<RenderProfile>, renderer: Option<Renderer>) -> bool {
    match renderer {
        Some(wanted) => exists|p: int|
            0 <= p < profiles.len() && (#[trigger] profiles[p]).renderer == wanted,
        None => true,
    }
}

/// The findings handed in for a rule are reported, one for each, unless no
/// active profile uses the renderer that a finding is about; no others are.
pub proof fn supplied_findings_are_reported(metadata: MetadataView, context: RuleContext<'_>)
    ensures
        stand_at(
            context,
            supplied_findings(metadata, context),
            gather(
                context.supplied@.len() as int,
                |i: int|
                    owed(
                        context.supplied@[i].rule_id@ == metadata.id && meets_renderer(
                            context.config.active_profiles@,
                            context.supplied@[i].renderer,
                        ),
                        context.supplied@[i].file,
                        context.supplied@[i].range,
                    ),
            ),
        ),
{
    let n = context.supplied@.len() as int;
    let finder = supplied_finder(metadata, context);
    let profiles = context.config.active_profiles@;
    let places = |i: int|
        owed(
            context.supplied@[i].rule_id@ == metadata.id && meets_renderer(
                profiles,
                context.supplied@[i].renderer,
            ),
            context.supplied@[i].file,
            context.supplied@[i].range,
        );
    assert forall|i: int| 0 <= i < n implies stand_at(
        context,
        #[trigger] finder(i),
        places(i),
    ) by {
        assert(finder(i) == found(supplied_at(metadata, context, i)));
        match context.supplied@[i].renderer {
            Some(renderer) => {
                let names = renderer_names(profiles, renderer);
                if names.len() > 0 {
                    assert(names.contains(names[0]));
                    renderer_profiles_are_named(profiles, renderer, names[0]);
                }
                if meets_renderer(profiles, Some(renderer)) {
                    let p = choose|p: int|
                        0 <= p < profiles.len() && (#[trigger] profiles[p]).renderer == renderer;
                    renderer_profiles_are_named(profiles, renderer, profiles[p].name@);
                    assert(names.contains(profiles[p].name@));
                }
            },
            None => {},
        }
    }
    parts_stand(context, n, finder, places);
}

/// The profiles of a renderer are exactly those that use it.
pub proof fn renderer_profiles_are_named(profiles: Seq<RenderProfile>, renderer: Renderer, name: Seq<char>)
    ensures
        renderer_names(profiles, renderer).contains(name) <==> exists|p: int|
            0 <= p < profiles.len() && (#[trigger] profiles[p]).renderer == renderer && profiles[p].name@ == name,
    decreases profiles.len(),
{
    if profiles.len() > 0 {
        let rest = profiles.drop_last();
        let last = profiles.last();
        renderer_profiles_are_named(rest, renderer, name);
        let before = renderer_names(rest, renderer);
        let after = renderer_names(profiles, renderer);
        assert(last == profiles[profiles.len() - 1]);
        if last.renderer == renderer {
            assert(after == before.push(last.name@));
            assert(after[before.len() as int] == last.name@);
        } else {
            assert(after == before);
        }
        if before.contains(name) {
            let k = choose|k: int| 0 <= k < before.len() && before[k] == name;
            assert(after[k] == name);
            let p = choose|p: int|
                0 <= p < rest.len() && (#[trigger] rest[p]).renderer == renderer && rest[p].name@ == name;
            assert(profiles[p] == rest[p]);
        }
        if after.contains(name) && !before.contains(name) {
            let k = choose|k: int| 0 <= k < after.len() && after[k] == name;
            if k < before.len() {
                assert(before[k] == name);
            }
        }
        if exists|p: int|
            0 <= p < profiles.len() && (#[trigger] profiles[p]).renderer == renderer && profiles[p].name@ == name {
            let p = choose|p: int|
                0 <= p < profiles.len() && (#[trigger] profiles[p]).renderer == renderer && profiles[p].name@ == name;
            if p < rest.len() {
                assert(rest[p] == profiles[p]);
            }
        }
    }
}

/// The Cairo profiles are exactly those that use Cairo.
pub proof fn cairo_profiles_are_named(profiles: Seq<RenderProfile>, name: Seq<char>)
    ensures
        cairo_names(profiles).contains(name) <==> exists|p: int|
            0 <= p < profiles.len() && (#[trigger] profiles[p]).renderer == Renderer::Cairo && profiles[p].name@ == name,
    decreases profiles.len(),
{
    if profiles.len() > 0 {
        let rest = profiles.drop_last();
        let last = profiles.last();
        cairo_profiles_are_named(rest, name);
        let before = cairo_names(rest);
        let after = cairo_names(profiles);
        assert(last == profiles[profiles.len() - 1]);
        if last.renderer == Renderer::Cairo {
            assert(after == before.push(last.name@));
            assert(after[before.len() as int] == last.name@);
        } else {
            assert(after == before);
        }
        if before.contains(name) {
            let k = choose|k: int| 0 <= k < before.len() && before[k] == name;
            assert(after[k] == name);
            let p = choose|p: int|
                0 <= p < rest.len() && (#[trigger] rest[p]).renderer == Renderer::Cairo && rest[p].name@ == name;
            assert(profiles[p] == rest[p]);
        }
        if after.contains(name) && !before.contains(name) {
            let k = choose|k: int| 0 <= k < after.len() && after[k] == name;
            if k < before.len() {
                assert(before[k] == name);
            }
        }
        if exists|p: int|
            0 <= p < profiles.len() && (#[trigger] profiles[p]).renderer == Renderer::Cairo && profiles[p].name@ == name {
            let p = choose|p: int|
                0 <= p < profiles.len() && (#[trigger] profiles[p]).renderer == Renderer::Cairo && profiles[p].name@ == name;
            if p < rest.len() {
                assert(rest[p] == profiles[p]);
            }
        }
    }
}

/// The profiles of a side are exactly those that run on Windows, or those that
/// do not.
pub proof fn platform_profiles_are_named(profiles: Seq<RenderProfile>, windows: bool, name: Seq<char>)
    ensures
        platform_names(profiles, windows).contains(name) <==> exists|p: int|
            0 <= p < profiles.len() && ((#[trigger] profiles[p]).platform == Platform::Windows) == windows && profiles[p].name@ == name,
    decreases profiles.len(),
{
    if profiles.len() > 0 {
        let rest = profiles.drop_last();
        let last = profiles.last();
        platform_profiles_are_named(rest, windows, name);
        let before = platform_names(rest, windows);
        let after = platform_names(profiles, windows);
        assert(last == profiles[profiles.len() - 1]);
        if (last.platform == Platform::Windows) == windows {
            assert(after == before.push(last.name@));
            assert(after[before.len() as int] == last.name@);
        } else {
            assert(after == before);
        }
        if before.contains(name) {
            let k = choose|k: int| 0 <= k < before.len() && before[k] == name;
            assert(after[k] == name);
            let p = choose|p: int|
                0 <= p < rest.len() && ((#[trigger] rest[p]).platform == Platform::Windows) == windows && rest[p].name@ == name;
            assert(profiles[p] == rest[p]);
        }
        if after.contains(name) && !before.contains(name) {
            let k = choose|k: int| 0 <= k < after.len() && after[k] == name;
            if k < before.len() {
                assert(before[k] == name);
            }
        }
        if exists|p: int|
            0 <= p < profiles.len() && ((#[trigger] profiles[p]).platform == Platform::Windows) == windows && profiles[p].name@ == name {
            let p = choose|p: int|
                0 <= p < profiles.len() && ((#[trigger] profiles[p]).platform == Platform::Windows) == windows && profiles[p].name@ == name;
            if p < rest.len() {
                assert(rest[p] == profiles[p]);
            }
        }
    }
}

/// The profiles that forbid a font are exactly those that leave it out.
pub proof fn forbidding_profiles_are_named(profiles: Seq<RenderProfile>, font: Seq<char>, name: Seq<char>)
    ensures
        forbidding_names(profiles, font).contains(name) <==> exists|p: int|
            0 <= p < profiles.len() && leaves_out(#[trigger] profiles[p], font) && profiles[p].name@ == name,
    decreases profiles.len(),
{
    if profiles.len() > 0 {
        let rest = profiles.drop_last();
        let last = profiles.last();
        forbidding_profiles_are_named(rest, font, name);
        assert(forbids(last, font) <==> leaves_out(last, font));
        let before = forbidding_names(rest, font);
        let after = forbidding_names(profiles, font);
        assert(last == profiles[profiles.len() - 1]);
        if leaves_out(last, font) {
            assert(after == before.push(last.name@));
            assert(after[before.len() as int] == last.name@);
        } else {
            assert(after == before);
        }
        if before.contains(name) {
            let k = choose|k: int| 0 <= k < before.len() && before[k] == name;
            assert(after[k] == name);
            let p = choose|p: int|
                0 <= p < rest.len() && leaves_out(#[trigger] rest[p], font) && rest[p].name@ == name;
            assert(profiles[p] == rest[p]);
        }
        if after.contains(name) && !before.contains(name) {
            let k = choose|k: int| 0 <= k < after.len() && after[k] == name;
            if k < before.len() {
                assert(before[k] == name);
            }
        }
        if exists|p: int|
            0 <= p < profiles.len() && leaves_out(#[trigger] profiles[p], font) && profiles[p].name@ == name {
            let p = choose|p: int|
                0 <= p < profiles.len() && leaves_out(#[trigger] profiles[p], font) && profiles[p].name@ == name;
            if p < rest.len() {
                assert(rest[p] == profiles[p]);
            }
        }
    }
}

/// The fix of a played method call puts `.animate` before the method.
pub proof fn animation_goes_before_the_method(owner: Seq<char>, method: Seq<char>)
    requires
        !method.contains('.'),
        dotted_name(owner + "."@ + method),
    ensures
        animated(owner + "."@ + method) == Some(owner + ".animate."@ + method),
{
    names_are_split_at_the_last_dot(owner, method);
}

proof fn quote_is_found(text: Seq<char>, i: int, at: int)
    requires
        0 <= i <= at < text.len(),
        text[at] == '"' || text[at] == '\'',
        forall|j: int| i <= j < at ==> text[j] != '"' && text[j] != '\'',
    ensures
        quote_from(text, i) == Some(at),
    decreases at - i,
{
    if i < at {
        quote_is_found(text, i + 1, at);
    }
}

/// A string literal in single quotes keeps its prefix and its quotes, and gets
/// the new contents.
pub proof fn contents_are_replaced(
    prefix: Seq<char>,
    quote: char,
    old_contents: Seq<char>,
    contents: Seq<char>,
)
    requires
        quote == '"' || quote == '\'',
        forall|j: int|
            0 <= j < prefix.len() ==> (#[trigger] prefix[j]) != '"' && prefix[j] != '\'',
        old_contents.len() > 0,
        old_contents[0] != quote,
    ensures
        requoted(prefix + seq![quote] + old_contents + seq![quote], contents) == Some(
            prefix + seq![quote] + contents + seq![quote],
        ),
{
    let text = prefix + seq![quote] + old_contents + seq![quote];
    let at = prefix.len() as int;
    assert(text[at] == quote);
    assert forall|j: int| 0 <= j < at implies text[j] != '"' && text[j] != '\'' by {
        assert(text[j] == prefix[j]);
    }
    quote_is_found(text, 0, at);
    assert(text[at + 1] == old_contents[0]);
    assert(quote_run(text, at) == 1);
    assert(text.take(at + 1) =~= prefix + seq![quote]);
    assert(text.skip(text.len() - 1) =~= seq![quote]);
}

/// Whether the updaters of a host make it move in the play at `p`: a certain
/// later play whose display lists the host as moved by an updater.
pub open spec fn moved_in(
    scene: SceneLifecycle,
    registration: UpdaterRegistration,
    p: int,
) -> bool {
    let play = scene.plays@[p];
    &&& play.kind == PlayKind::Play
    &&& play.certainty == Presence::Present
    &&& play.site.file == registration.site.file
    &&& registration.site.end <= play.site.start
    &&& registration.host matches UpdaterHost::Mobject(host) && (play.display matches Some(display)
        && (display.suffix matches Some(suffix) && (scene.spec_state_at(
        play.site.file,
        play.site.end,
    ) matches Some(snapshot) && exists|e: int|
        0 <= e < suffix.members_evidence@.len() && (#[trigger] suffix.members_evidence@[e]).id
            == snapshot.heap.spec_resolve(host) && suffix.members_evidence@[e].reason
            == MovingReason::FamilyUpdater && suffix.members_evidence@[e].certainty == Truth::Yes)))
}

proof fn updater_entry_is_found(
    list: Seq<crate::render_order::MemberEvidence>,
    id: ObjectId,
    i: int,
)
    requires
        0 <= i <= list.len(),
    ensures
        updater_entry_from(list, id, i) is Some <==> exists|e: int|
            i <= e < list.len() && (#[trigger] list[e]).id == id && list[e].reason
                == MovingReason::FamilyUpdater && list[e].certainty == Truth::Yes,
    decreases list.len() - i,
{
    if i < list.len() {
        updater_entry_is_found(list, id, i + 1);
        if list[i].id == id {
        }
    }
}

/// An updater counts against a play exactly when it makes its host move there.
pub proof fn moving_hosts_are_told(
    scene: SceneLifecycle,
    registration: UpdaterRegistration,
    p: int,
)
    ensures
        leg_at(scene, registration, p) is Some <==> moved_in(scene, registration, p),
{
    let play = scene.plays@[p];
    match (registration.host, play.display) {
        (UpdaterHost::Mobject(host), Some(display)) => {
            match (display.suffix, scene.spec_state_at(play.site.file, play.site.end)) {
                (Some(suffix), Some(snapshot)) => updater_entry_is_found(
                    suffix.members_evidence@,
                    snapshot.heap.spec_resolve(host),
                    0,
                ),
                _ => {},
            }
        },
        _ => {},
    }
}

/// Whether a play runs a builder on this single object.
pub open spec fn plays_builder_on(play: PlayFact, target: ObjectId) -> bool {
    play.kind == PlayKind::Play && target.cardinality == Cardinality::Singleton && exists|a: int|
        0 <= a < play.animations@.len() && (#[trigger] play.animations@[a]).from_builder && (
        play.animations@[a].state matches Some(state) && state.targets@.contains(target))
}

/// A play has a builder on a target exactly when one of its animations is one.
pub proof fn builder_plays_are_told(play: PlayFact, target: ObjectId)
    ensures
        has_builder_on(play, target) <==> plays_builder_on(play, target),
{
    assert forall|a: int| 0 <= a < play.animations@.len() implies (builds_on(
        #[trigger] play.animations@[a],
        target,
    ) <==> play.animations@[a].from_builder && target.cardinality == Cardinality::Singleton && (
    play.animations@[a].state matches Some(state) && state.targets@.contains(target))) by {
        match play.animations@[a].state {
            Some(state) => {
                if state.targets@.contains(target) {
                    let t = choose|t: int|
                        0 <= t < state.targets@.len() && state.targets@[t] == target;
                    assert(state.targets@[t].same(target) <==> target.cardinality
                        == Cardinality::Singleton);
                }
            },
            None => {},
        }
    }
}

/// A builder is consumed by the first play that begins after it and has a
/// builder on its target.
pub proof fn consuming_plays_are_found(
    scene: SceneLifecycle,
    created: int,
    target: ObjectId,
    i: int,
    p: int,
)
    requires
        0 <= i <= p <= scene.plays@.len(),
        p < scene.plays@.len() ==> consumes(scene, created, target, p),
        forall|j: int| i <= j < p ==> !#[trigger] consumes(scene, created, target, j),
    ensures
        consuming_from(scene, created, target, i) == if p < scene.plays@.len() {
            begin_before(
                scene.events@,
                scene.plays@[p].play_group,
                scene.events@.len() as int,
            )
        } else {
            None
        },
    decreases p - i,
{
    if i < scene.plays@.len() {
        builder_plays_are_told(scene.plays@[i], target);
        if i < p {
            assert(!consumes(scene, created, target, i));
            consuming_plays_are_found(scene, created, target, i + 1, p);
        }
    }
}

/// Whether the play at `p` begins after an event and has a builder on a
/// target.
pub open spec fn consumes(scene: SceneLifecycle, created: int, target: ObjectId, p: int) -> bool {
    plays_builder_on(scene.plays@[p], target) && (begin_before(
        scene.events@,
        scene.plays@[p].play_group,
        scene.events@.len() as int,
    ) matches Some(begin) && begin > created)
}

/// How long some plays take together, where each takes a whole number of
/// seconds.
pub open spec fn seconds_together(plays: Seq<PlayFact>, positions: Seq<usize>) -> int
    decreases positions.len(),
{
    if positions.len() == 0 {
        0
    } else {
        seconds_together(plays, positions.drop_last()) + match plays[positions.last() as int].duration {
            Num::Exact(NumLit::Int(n)) => n as int,
            _ => 0,
        }
    }
}

/// Whether every one of some plays takes a whole number of seconds.
pub open spec fn all_take_whole_seconds(plays: Seq<PlayFact>, positions: Seq<usize>) -> bool {
    forall|k: int|
        0 <= k < positions.len() ==> (#[trigger] positions[k]) < plays.len() && (
        plays[positions[k] as int].duration matches Num::Exact(NumLit::Int(n)) && n >= 0)
}

proof fn seconds_add_up(context: RuleContext<'_>, plays: Seq<PlayFact>, positions: Seq<usize>, n: int)
    requires
        0 <= n <= positions.len(),
        all_take_whole_seconds(plays, positions),
        seconds_together(plays, positions.take(n)) < 0x20_0000_0000_0000,
    ensures
        seconds_together(plays, positions.take(n)) >= 0,
        whole_sum(context, plays, positions, PlayQuantity::Seconds, n) == Some(
            seconds_together(plays, positions.take(n)),
        ),
    decreases n,
{
    if n > 0 {
        let taken = positions.take(n);
        assert(taken.drop_last() =~= positions.take(n - 1));
        assert(taken.last() == positions[n - 1]);
        assert(positions[n - 1] < plays.len());
        seconds_add_up(context, plays, positions, n - 1);
    }
}

/// Plays that each take a whole number of seconds take their sum together.
pub proof fn whole_seconds_are_added(
    context: RuleContext<'_>,
    scene: SceneLifecycle,
    positions: Seq<usize>,
)
    requires
        all_take_whole_seconds(scene.plays@, positions),
        seconds_together(scene.plays@, positions) < 0x20_0000_0000_0000,
    ensures
        sum_of(context, scene, positions, PlayQuantity::Seconds) == Num::Exact(
            NumLit::Int(seconds_together(scene.plays@, positions) as i64),
        ),
{
    let n = positions.len() as int;
    assert(positions.take(n) =~= positions);
    seconds_add_up(context, scene.plays@, positions, n);
}

} // verus!
