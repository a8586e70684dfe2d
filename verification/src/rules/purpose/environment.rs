//! What the rules on calls that reach outside the scene are for.
use super::typesetting::names_only;
use super::{owed, parts_stand, stand_at, Place};
use crate::config::RenderProfile;
use crate::frontend::{FileBindingFacts, LiteralFact, QualifiedCall};
use crate::rules::base::{Rule, RuleContext};
use crate::rules::portability::allowed_fonts::{
    font_at, font_finder, forbidding_names, forbids, FontOutsideAllowlist,
};
use crate::rules::portability::io_hooks::{frame_io_at, frame_io_finder, io_of, FrameCallbackIo};
use crate::rules::portability::randomness::{
    after_prefix, random_at, random_finder, reads_global, seeded, seeds, UnseededGlobalRandom,
};
use crate::rules::portability::support::{
    all_external, external_targets, first_segment, sole_target,
};
use crate::text::{found, gather, lowercase, texts, trimmed};
use vstd::prelude::*;

verus! {

/// Whether the call at `i` is known to run on every frame.
pub open spec fn hot(context: RuleContext<'_>, i: int) -> bool {
    context.cost_facts.spec_hot(i) matches Some(entry) && entry.contexts@.len() > 0
}

/// Whether a dotted chain stands for this path through the imports of its
/// file.
pub open spec fn chain_is(
    parts: Option<Vec<String>>,
    bindings: FileBindingFacts,
    target: Seq<char>,
) -> bool {
    parts matches Some(list) && bindings.spec_resolve_parts(texts(list@)) == Some(target)
}

/// Whether a call can only reach this path outside the project: every
/// candidate names it, or none does and the imports give it.
pub open spec fn reaches_outside(
    context: RuleContext<'_>,
    call: QualifiedCall,
    bindings: FileBindingFacts,
    target: Seq<char>,
) -> bool {
    if call.candidates@.len() == 0 {
        chain_is(call.callee_dotted, bindings, target)
    } else {
        forall|c: int|
            0 <= c < call.candidates@.len() ==> (#[trigger] call.candidates@[c])@ == target
                && !texts(context.project_index.module_tree@).contains(
                first_segment(call.candidates@[c]@),
            )
    }
}

proof fn outside_is_exact(
    context: RuleContext<'_>,
    call: QualifiedCall,
    bindings: FileBindingFacts,
    target: Seq<char>,
)
    ensures
        reaches_outside(context, call, bindings, target) <==> sole_target(
            external_targets(context.project_index, call, bindings),
        ) == Some(target),
{
    let list = texts(call.candidates@);
    assert(forall|c: int| 0 <= c < list.len() ==> #[trigger] list[c] == call.candidates@[c]@);
    let targets = external_targets(context.project_index, call, bindings);
    if call.candidates@.len() > 0 {
        if reaches_outside(context, call, bindings, target) {
            assert(all_external(context.project_index, call.candidates@));
            assert(targets == list);
            assert forall|c: int| 0 <= c < targets.len() implies #[trigger] targets[c] == targets[0] by {
                assert(list[c] == call.candidates@[c]@);
                assert(list[0] == call.candidates@[0]@);
            }
            assert(list[0] == call.candidates@[0]@);
        }
        if sole_target(targets) == Some(target) {
            assert(targets == list);
            assert forall|c: int| 0 <= c < call.candidates@.len() implies (
            #[trigger] call.candidates@[c])@ == target && !texts(
                context.project_index.module_tree@,
            ).contains(first_segment(call.candidates@[c]@)) by {
                assert(list[c] == call.candidates@[c]@);
                assert(targets[c] == targets[0]);
            }
        }
    }
}

/// Whether some call of the file gives this function a seed.
pub open spec fn given_a_seed(
    context: RuleContext<'_>,
    call: QualifiedCall,
    bindings: FileBindingFacts,
    function: Seq<char>,
) -> bool {
    exists|j: int|
        0 <= j < context.qualified_calls.calls@.len() && {
            let other = #[trigger] context.qualified_calls.calls@[j];
            other.file == call.file && other.arguments@.len() > 0 && chain_is(
                other.callee_dotted,
                bindings,
                function,
            )
        }
}

/// Whether a function of Python's `random` draws from its global state.
pub open spec fn draws(function: Seq<char>) -> bool {
    seq![
        "betavariate"@,
        "choice"@,
        "choices"@,
        "expovariate"@,
        "gammavariate"@,
        "gauss"@,
        "getrandbits"@,
        "lognormvariate"@,
        "normalvariate"@,
        "paretovariate"@,
        "randbytes"@,
        "randint"@,
        "random"@,
        "randrange"@,
        "sample"@,
        "shuffle"@,
        "triangular"@,
        "uniform"@,
        "vonmisesvariate"@,
        "weibullvariate"@,
    ].contains(function)
}

/// Whether a name of `numpy.random` makes or seeds a generator, and so draws
/// nothing from the global one.
pub open spec fn makes_generator(function: Seq<char>) -> bool {
    seq![
        "BitGenerator"@,
        "Generator"@,
        "MT19937"@,
        "PCG64"@,
        "Philox"@,
        "RandomState"@,
        "SFC64"@,
        "SeedSequence"@,
        "default_rng"@,
        "seed"@,
    ].contains(function)
}

/// Whether a path is a function that draws from a global generator that this
/// file has not seeded.
pub open spec fn draws_unseeded(
    context: RuleContext<'_>,
    call: QualifiedCall,
    bindings: FileBindingFacts,
    target: Seq<char>,
) -> bool {
    ||| exists|function: Seq<char>|
        target == #[trigger] ("random."@ + function) && !function.contains('.') && draws(function)
            && !given_a_seed(context, call, bindings, "random.seed"@)
    ||| exists|function: Seq<char>|
        target == #[trigger] ("numpy.random."@ + function) && !function.contains('.')
            && !makes_generator(function) && !given_a_seed(
            context,
            call,
            bindings,
            "numpy.random.seed"@,
        )
}

proof fn seeding_is_exact(
    context: RuleContext<'_>,
    call: QualifiedCall,
    bindings: FileBindingFacts,
    function: Seq<char>,
)
    ensures
        given_a_seed(context, call, bindings, function) <==> seeded(
            context.qualified_calls.calls@,
            call.file,
            bindings,
            function,
        ),
{
    let calls = context.qualified_calls.calls@;
    assert(forall|j: int|
        0 <= j < calls.len() ==> (seeds(#[trigger] calls[j], call.file, bindings, function) <==> (
        calls[j].file == call.file && calls[j].arguments@.len() > 0 && chain_is(
            calls[j].callee_dotted,
            bindings,
            function,
        ))));
}

proof fn prefix_is_exact(text: Seq<char>, prefix: Seq<char>)
    ensures
        after_prefix(text, prefix) matches Some(rest) ==> text == prefix + rest,
        forall|rest: Seq<char>|
            text == #[trigger] (prefix + rest) ==> after_prefix(text, prefix) == Some(rest),
{
    if after_prefix(text, prefix) is Some {
        assert(text =~= prefix + text.skip(prefix.len() as int));
    }
    assert forall|rest: Seq<char>| text == #[trigger] (prefix + rest) implies after_prefix(
        text,
        prefix,
    ) == Some(rest) by {
        assert(text.subrange(0, prefix.len() as int) =~= prefix);
        assert(text.skip(prefix.len() as int) =~= rest);
    }
}

proof fn drawing_is_exact(
    context: RuleContext<'_>,
    call: QualifiedCall,
    bindings: FileBindingFacts,
    target: Seq<char>,
)
    ensures
        draws_unseeded(context, call, bindings, target) <==> reads_global(
            target,
            seeded(context.qualified_calls.calls@, call.file, bindings, "random.seed"@),
            seeded(context.qualified_calls.calls@, call.file, bindings, "numpy.random.seed"@),
        ),
{
    seeding_is_exact(context, call, bindings, "random.seed"@);
    seeding_is_exact(context, call, bindings, "numpy.random.seed"@);
    prefix_is_exact(target, "random."@);
    prefix_is_exact(target, "numpy.random."@);
    reveal_strlit("random.");
    reveal_strlit("numpy.random.");
    assert("random."@[0] != "numpy.random."@[0]);
    match after_prefix(target, "random."@) {
        Some(function) => {
            assert(target == "random."@ + function);
            assert(target[0] == "random."@[0]);
            assert forall|other: Seq<char>| target != #[trigger] ("numpy.random."@ + other) by {
                assert(("numpy.random."@ + other)[0] == "numpy.random."@[0]);
            }
        },
        None => match after_prefix(target, "numpy.random."@) {
            Some(function) => {
                assert(target == "numpy.random."@ + function);
            },
            None => {},
        },
    }
}

/// A call on every frame that draws from an unseeded generator.
pub open spec fn unseeded_draw_owed(context: RuleContext<'_>, i: int) -> Seq<Place> {
    let call = context.qualified_calls.calls@[i];
    match context.qualified_calls.bindings.spec_file(call.file) {
        Some(bindings) => owed(
            hot(context, i) && exists|target: Seq<char>|
                #[trigger] reaches_outside(context, call, bindings, target) && draws_unseeded(
                    context,
                    call,
                    bindings,
                    target,
                ),
            call.file,
            call.call_range,
        ),
        None => Seq::empty(),
    }
}

/// A call on every frame that draws from a global random generator that its
/// file has not seeded is reported, and nothing else is.
pub proof fn unseeded_draws_are_reported(context: RuleContext<'_>)
    ensures
        stand_at(
            context,
            UnseededGlobalRandom.findings(context),
            gather(
                context.qualified_calls.calls@.len() as int,
                |i: int| unseeded_draw_owed(context, i),
            ),
        ),
{
    let finder = random_finder(context);
    let places = |i: int| unseeded_draw_owed(context, i);
    let n = context.qualified_calls.calls@.len() as int;
    assert forall|i: int| 0 <= i < n implies stand_at(
        context,
        #[trigger] finder(i),
        places(i),
    ) by {
        let call = context.qualified_calls.calls@[i];
        assert(finder(i) == found(random_at(context, i)));
        if context.qualified_calls.bindings.spec_file(call.file) is Some {
            let bindings = context.qualified_calls.bindings.spec_file(call.file)->0;
            assert forall|target: Seq<char>| true implies (#[trigger] reaches_outside(
                context,
                call,
                bindings,
                target,
            ) <==> sole_target(external_targets(context.project_index, call, bindings)) == Some(
                target,
            )) by {
                outside_is_exact(context, call, bindings, target);
            }
            match sole_target(external_targets(context.project_index, call, bindings)) {
                Some(target) => {
                    drawing_is_exact(context, call, bindings, target);
                    assert(reaches_outside(context, call, bindings, target));
                },
                None => {},
            }
        }
    }
    parts_stand(context, n, finder, places);
}

/// Whether a path reads the clock.
pub open spec fn tells_time(target: Seq<char>) -> bool {
    seq![
        "datetime.date.today"@,
        "datetime.datetime.now"@,
        "datetime.datetime.today"@,
        "datetime.datetime.utcnow"@,
        "time.monotonic"@,
        "time.monotonic_ns"@,
        "time.perf_counter"@,
        "time.perf_counter_ns"@,
        "time.process_time"@,
        "time.process_time_ns"@,
        "time.time"@,
        "time.time_ns"@,
    ].contains(target)
}

/// Whether a path opens a connection.
pub open spec fn connects(target: Seq<char>) -> bool {
    seq![
        "http.client.HTTPConnection"@,
        "http.client.HTTPSConnection"@,
        "requests.delete"@,
        "requests.get"@,
        "requests.head"@,
        "requests.patch"@,
        "requests.post"@,
        "requests.put"@,
        "requests.request"@,
        "socket.create_connection"@,
        "socket.getaddrinfo"@,
        "socket.gethostbyname"@,
        "urllib.request.urlopen"@,
    ].contains(target)
}

/// Whether a call reads the clock, opens a file or a connection: the builtin
/// `open`, a method of a fresh `pathlib.Path`, or a function known to do so.
pub open spec fn does_io(
    context: RuleContext<'_>,
    call: QualifiedCall,
    bindings: FileBindingFacts,
) -> bool {
    ||| call.candidates@.len() == 0 && !texts(bindings.bound_names@).contains("open"@) && (
    call.callee_dotted matches Some(parts) && texts(parts@) == seq!["open"@])
    ||| call.callee_chain matches Some(chain) && seq![
        "open"@,
        "read_bytes"@,
        "read_text"@,
        "write_bytes"@,
        "write_text"@,
    ].contains(chain.method@) && chain_is(chain.inner, bindings, "pathlib.Path"@)
    ||| call.callee_chain is None && exists|target: Seq<char>|
        #[trigger] reaches_outside(context, call, bindings, target) && (tells_time(target)
            || connects(target))
}

/// A call on every frame that reaches outside.
pub open spec fn frame_io_owed(context: RuleContext<'_>, i: int) -> Seq<Place> {
    let call = context.qualified_calls.calls@[i];
    match context.qualified_calls.bindings.spec_file(call.file) {
        Some(bindings) => owed(
            hot(context, i) && does_io(context, call, bindings),
            call.file,
            call.call_range,
        ),
        None => Seq::empty(),
    }
}

/// A call on every frame that reads the clock, or opens a file or a connection,
/// is reported, and nothing else is.
pub proof fn frame_io_is_reported(context: RuleContext<'_>)
    ensures
        stand_at(
            context,
            FrameCallbackIo.findings(context),
            gather(
                context.qualified_calls.calls@.len() as int,
                |i: int| frame_io_owed(context, i),
            ),
        ),
{
    let finder = frame_io_finder(context);
    let places = |i: int| frame_io_owed(context, i);
    let n = context.qualified_calls.calls@.len() as int;
    assert forall|i: int| 0 <= i < n implies stand_at(
        context,
        #[trigger] finder(i),
        places(i),
    ) by {
        let call = context.qualified_calls.calls@[i];
        assert(finder(i) == found(frame_io_at(context, i)));
        if context.qualified_calls.bindings.spec_file(call.file) is Some {
            let bindings = context.qualified_calls.bindings.spec_file(call.file)->0;
            assert forall|target: Seq<char>| true implies (#[trigger] reaches_outside(
                context,
                call,
                bindings,
                target,
            ) <==> sole_target(external_targets(context.project_index, call, bindings)) == Some(
                target,
            )) by {
                outside_is_exact(context, call, bindings, target);
            }
            match sole_target(external_targets(context.project_index, call, bindings)) {
                Some(target) => {
                    assert(reaches_outside(context, call, bindings, target));
                },
                None => {},
            }
            assert(io_of(context.project_index, call, bindings) is Some <==> does_io(
                context,
                call,
                bindings,
            ));
        }
    }
    parts_stand(context, n, finder, places);
}

/// Whether a profile lists the fonts that may be used, and this is none of
/// them: case and white space do not matter.
pub open spec fn leaves_out(profile: RenderProfile, font: Seq<char>) -> bool {
    profile.allowed_fonts@.len() > 0 && forall|f: int|
        0 <= f < profile.allowed_fonts@.len() ==> lowercase(
            trimmed((#[trigger] profile.allowed_fonts@[f])@),
        ) != lowercase(font)
}

proof fn forbidding_is_exact(profiles: Seq<RenderProfile>, font: Seq<char>)
    ensures
        forbidding_names(profiles, font).len() > 0 <==> exists|p: int|
            0 <= p < profiles.len() && leaves_out(#[trigger] profiles[p], font),
    decreases profiles.len(),
{
    if profiles.len() > 0 {
        let rest = profiles.drop_last();
        forbidding_is_exact(rest, font);
        assert(forbids(profiles.last(), font) <==> leaves_out(profiles.last(), font));
        if forbidding_names(rest, font).len() > 0 {
            let p = choose|p: int| 0 <= p < rest.len() && leaves_out(#[trigger] rest[p], font);
            assert(profiles[p] == rest[p]);
        }
        if exists|p: int| 0 <= p < profiles.len() && leaves_out(#[trigger] profiles[p], font) {
            let p = choose|p: int|
                0 <= p < profiles.len() && leaves_out(#[trigger] profiles[p], font);
            if p < rest.len() {
                assert(leaves_out(rest[p], font));
            }
        }
        assert(profiles.last() == profiles[profiles.len() - 1]);
    }
}

/// The font of a text that a profile leaves out.
pub open spec fn font_owed(context: RuleContext<'_>, i: int) -> Seq<Place> {
    let call = context.qualified_calls.calls@[i];
    match call.spec_keyword("font"@) {
        Some(argument) => match argument.literal {
            Some(LiteralFact::Str { value, prefix: _, range }) => owed(
                (names_only(context, call, "manim.mobject.text.text_mobject.Text"@) || names_only(
                    context,
                    call,
                    "manim.mobject.text.text_mobject.MarkupText"@,
                )) && trimmed(value@).len() > 0 && exists|p: int|
                    0 <= p < context.config.active_profiles@.len() && leaves_out(
                        #[trigger] context.config.active_profiles@[p],
                        trimmed(value@),
                    ),
                call.file,
                range,
            ),
            _ => Seq::empty(),
        },
        None => Seq::empty(),
    }
}

/// A font of `Text` or `MarkupText` that some active profile leaves out of its
/// list is reported, and nothing else is.
pub proof fn foreign_fonts_are_reported(context: RuleContext<'_>)
    ensures
        stand_at(
            context,
            FontOutsideAllowlist.findings(context),
            gather(
                context.qualified_calls.calls@.len() as int,
                |i: int| font_owed(context, i),
            ),
        ),
{
    let finder = font_finder(context);
    let places = |i: int| font_owed(context, i);
    let n = context.qualified_calls.calls@.len() as int;
    assert forall|i: int| 0 <= i < n implies stand_at(
        context,
        #[trigger] finder(i),
        places(i),
    ) by {
        let call = context.qualified_calls.calls@[i];
        assert(finder(i) == found(font_at(context, i)));
        if call.spec_keyword("font"@) is Some {
            match call.spec_keyword("font"@)->0.literal {
                Some(LiteralFact::Str { value, prefix: _, range: _ }) => forbidding_is_exact(
                    context.config.active_profiles@,
                    trimmed(value@),
                ),
                _ => {},
            }
        }
    }
    parts_stand(context, n, finder, places);
}

} // verus!
