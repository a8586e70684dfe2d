//! What the building blocks of the rules mean.
use crate::ast::{mentions, Expr, Form, Stmt, StmtKind};
use crate::frontend::{ClassRecord, ProjectIndex};
use crate::graph::{without, Link};
use crate::knowledge::{
    bases_of, declared, last_dot, member_of, owner_of, qualified, resolved, resolved_method, search,
    KnowledgeProfile, SymbolKind,
};
use crate::numbers::{Bound, NumLit};
use crate::rules::base::RuleContext;
use crate::rules::lifecycle::builder_rules::{change_between, play_of_group, play_writes};
use crate::rules::lifecycle::structure::links_after;
use crate::rules::performance::loop_plays::{
    any_starred, direct_loop, evaluates, loop_among, loop_from, loop_in, steps, trip_count,
};
use crate::rules::performance::sampling::samples_of;
use crate::rules::performance::updater_waste::{
    holds_lambda, method_of_param, sets_absolutely, steady_shape,
};
use crate::rules::portability::support::{dot_from, first_segment};
use crate::rules::rendering::support::{vm_class, VmClass};
use crate::semantic::{
    Cardinality, Event, MutationKind, ObjectId, Presence, SceneLifecycle, TracedEvent,
};
use crate::source::TextRange;
use crate::text::{occurs_at, texts, trim_end, trim_start, trimmed, white_space};
use vstd::prelude::*;

verus! {

/// A curated symbol stands for itself.
pub proof fn curated_symbols_stand_for_themselves(profile: KnowledgeProfile, id: Seq<char>)
    requires
        profile.spec_symbol(id) is Some,
    ensures
        resolved(profile, id) == Some(id),
        resolved_method(profile, id) == if profile.spec_symbol(id)->0.kind == SymbolKind::Method {
            Some(id)
        } else {
            None
        },
{
}

proof fn dot_is_last(name: Seq<char>, end: int)
    requires
        -1 <= end < name.len(),
        end >= 0 ==> name[end] == '.',
        forall|j: int| end < j < name.len() ==> name[j] != '.',
    ensures
        last_dot(name) == end,
    decreases name.len(),
{
    if name.len() > 0 && end < name.len() - 1 {
        dot_is_last(name.drop_last(), end);
    }
}

/// A dotted name is split at its last dot; a name without a dot is not split.
pub proof fn names_are_split_at_the_last_dot(class: Seq<char>, method: Seq<char>)
    requires
        !method.contains('.'),
    ensures
        owner_of(class + "."@ + method) == Some(class),
        member_of(class + "."@ + method) == method,
        owner_of(method) is None,
{
    reveal_strlit(".");
    let name = class + "."@ + method;
    let at = class.len() as int;
    assert(name[at] == '.');
    assert forall|j: int| at < j < name.len() implies name[j] != '.' by {
        assert(name[j] == method[j - at - 1]);
        assert(method.contains(method[j - at - 1]));
    }
    dot_is_last(name, at);
    assert(name.take(at) =~= class);
    assert(name.skip(at + 1) =~= method);
    assert forall|j: int| 0 <= j < method.len() implies method[j] != '.' by {
        assert(method.contains(method[j]));
    }
    dot_is_last(method, -1);
}

proof fn search_reaches(
    profile: KnowledgeProfile,
    queue: Seq<Seq<char>>,
    cursor: int,
    method: Seq<char>,
    methods_only: bool,
    k: int,
)
    requires
        0 <= cursor <= k < queue.len(),
        forall|j: int|
            0 <= j < k ==> !declared(profile, (#[trigger] queue[j]) + "."@ + method, methods_only),
        declared(profile, queue[k] + "."@ + method, methods_only),
    ensures
        search(profile, queue, cursor, method, methods_only) == Some(queue[k] + "."@ + method),
    decreases k - cursor,
{
    if cursor == k {
        if queue.take(k).contains(queue[k]) {
            let j = choose|j: int| 0 <= j < k && queue.take(k)[j] == queue[k];
            assert(queue[j] == queue[k]);
            assert(!declared(profile, queue[j] + "."@ + method, methods_only));
        }
    } else {
        assert(!declared(profile, queue[cursor] + "."@ + method, methods_only));
        if queue.take(cursor).contains(queue[cursor]) {
            search_reaches(profile, queue, cursor + 1, method, methods_only, k);
        } else {
            let more = queue + bases_of(profile, queue[cursor]);
            assert forall|j: int| 0 <= j < k implies !declared(
                profile,
                (#[trigger] more[j]) + "."@ + method,
                methods_only,
            ) by {
                assert(more[j] == queue[j]);
            }
            assert(more[k] == queue[k]);
            search_reaches(profile, more, cursor + 1, method, methods_only, k);
        }
    }
}

/// A method that its own class does not declare stands for that of the first
/// base that declares it.
pub proof fn methods_are_inherited(
    profile: KnowledgeProfile,
    class: Seq<char>,
    method: Seq<char>,
    k: int,
)
    requires
        !method.contains('.'),
        profile.spec_symbol(class + "."@ + method) is None,
        profile.spec_symbol(class) is Some,
        0 <= k < profile.spec_symbol(class)->0.bases@.len(),
        profile.spec_symbol(
            profile.spec_symbol(class)->0.bases@[k]@ + "."@ + method,
        ) is Some,
        forall|j: int|
            0 <= j < k ==> profile.spec_symbol(
                (#[trigger] profile.spec_symbol(class)->0.bases@[j])@ + "."@ + method,
            ) is None,
    ensures
        resolved(profile, class + "."@ + method) == Some(
            profile.spec_symbol(class)->0.bases@[k]@ + "."@ + method,
        ),
{
    names_are_split_at_the_last_dot(class, method);
    let bases = profile.spec_symbol(class)->0.bases@;
    let queue = seq![class] + bases_of(profile, class);
    assert(bases_of(profile, class) == texts(bases));
    assert forall|j: int| 0 <= j < k + 1 implies !declared(
        profile,
        (#[trigger] queue[j]) + "."@ + method,
        false,
    ) by {
        if j > 0 {
            assert(queue[j] == texts(bases)[j - 1]);
            assert(queue[j] == bases[j - 1]@);
        }
    }
    assert(queue[k + 1] == bases[k]@);
    search_reaches(profile, queue, 1, method, false, k + 1);
    let start = seq![class];
    assert(start.take(0).len() == 0);
    assert(!start.take(0).contains(start[0]));
    assert(start[0] == class);
    assert(qualified(class, method) == class + "."@ + method);
    assert(search(profile, start, 0, method, false) == search(profile, queue, 1, method, false));
}

/// A candidate of a class that is not curated, and that names no curated
/// symbol itself, stands for nothing.
pub proof fn unknown_classes_stand_for_nothing(
    profile: KnowledgeProfile,
    class: Seq<char>,
    method: Seq<char>,
)
    requires
        !method.contains('.'),
        profile.spec_symbol(class + "."@ + method) is None,
        profile.spec_symbol(class) is None,
    ensures
        resolved(profile, class + "."@ + method) is None,
{
    names_are_split_at_the_last_dot(class, method);
    let start = seq![class];
    assert(!start.take(0).contains(start[0]));
    assert(qualified(class, method) == class + "."@ + method);
    assert(start + bases_of(profile, class) =~= start);
    assert(search(profile, start, 0, method, false) == search(profile, start, 1, method, false));
    assert(search(profile, start, 1, method, false) is None);
}

/// A curated class is vectorized or plain as its kind says, and unknown
/// otherwise.
pub proof fn curated_classes_are_told_apart(
    profile: KnowledgeProfile,
    index: ProjectIndex,
    id: Seq<char>,
    depth: nat,
)
    requires
        profile.spec_symbol(id) is Some,
    ensures
        vm_class(profile, index, id, depth) == VmClass::Vectorized <==> profile.spec_symbol(
            id,
        )->0.kind == SymbolKind::Vmobject,
        vm_class(profile, index, id, depth) == VmClass::Plain <==> profile.spec_symbol(id)->0.kind
            == SymbolKind::Mobject,
{
}

/// A class of the project whose reached bases are all curated is vectorized
/// when one of them is, and plain when all of them are and no base is open.
pub proof fn project_classes_are_told_apart(
    profile: KnowledgeProfile,
    index: ProjectIndex,
    id: Seq<char>,
    record: ClassRecord,
    depth: nat,
)
    requires
        depth > 0,
        profile.spec_symbol(id) is None,
        index.spec_class(id) == Some(record),
        forall|b: int|
            0 <= b < record.reached_bases@.len() ==> profile.spec_symbol(
                (#[trigger] record.reached_bases@[b])@,
            ) is Some,
    ensures
        vm_class(profile, index, id, depth) == VmClass::Vectorized <==> exists|b: int|
            0 <= b < record.reached_bases@.len() && profile.spec_symbol(
                (#[trigger] record.reached_bases@[b])@,
            )->0.kind == SymbolKind::Vmobject,
        vm_class(profile, index, id, depth) == VmClass::Plain <==> record.bases_fully_resolved
            && record.reached_bases@.len() > 0 && forall|b: int|
            0 <= b < record.reached_bases@.len() ==> profile.spec_symbol(
                (#[trigger] record.reached_bases@[b])@,
            )->0.kind == SymbolKind::Mobject,
{
    let below = (depth - 1) as nat;
    assert forall|b: int| 0 <= b < record.reached_bases@.len() implies ({
        let base = (#[trigger] record.reached_bases@[b])@;
        &&& vm_class(profile, index, base, below) == VmClass::Vectorized <==> profile.spec_symbol(
            base,
        )->0.kind == SymbolKind::Vmobject
        &&& vm_class(profile, index, base, below) == VmClass::Plain <==> profile.spec_symbol(
            base,
        )->0.kind == SymbolKind::Mobject
    }) by {
        curated_classes_are_told_apart(profile, index, record.reached_bases@[b]@, below);
    }
    if record.reached_bases@.len() > 0 {
        assert(profile.spec_symbol(record.reached_bases@[0]@) is Some);
    }
}

proof fn dot_is_first(text: Seq<char>, i: int, at: int)
    requires
        0 <= i <= at <= text.len(),
        at < text.len() ==> text[at] == '.',
        forall|j: int| i <= j < at ==> text[j] != '.',
    ensures
        dot_from(text, i) == at,
    decreases at - i,
{
    if i < at {
        dot_is_first(text, i + 1, at);
    }
}

/// The first segment of a path is what stands before its first dot, or all of
/// it.
pub proof fn first_segments_end_at_the_first_dot(first: Seq<char>, rest: Seq<char>)
    requires
        !first.contains('.'),
    ensures
        first_segment(first + "."@ + rest) == first,
        first_segment(first) == first,
{
    reveal_strlit(".");
    let path = first + "."@ + rest;
    let at = first.len() as int;
    assert forall|j: int| 0 <= j < at implies path[j] != '.' && first[j] != '.' by {
        assert(path[j] == first[j]);
        assert(first.contains(first[j]));
    }
    assert(path[at] == '.');
    dot_is_first(path, 0, at);
    dot_is_first(first, 0, at);
    assert(path.take(at) =~= first);
    assert(first.take(at) =~= first);
}

proof fn start_is_found(text: Seq<char>, i: int, at: int)
    requires
        0 <= i <= at <= text.len(),
        at < text.len() ==> !white_space(text[at]),
        forall|j: int| i <= j < at ==> white_space(#[trigger] text[j]),
    ensures
        trim_start(text, i) == at,
    decreases at - i,
{
    if i < at {
        assert(white_space(text[i]));
        start_is_found(text, i + 1, at);
    }
}

proof fn end_is_found(text: Seq<char>, start: int, end: int, at: int)
    requires
        0 <= start <= at <= end <= text.len(),
        at > start ==> !white_space(text[at - 1]),
        forall|j: int| at <= j < end ==> white_space(#[trigger] text[j]),
    ensures
        trim_end(text, start, end) == at,
    decreases end - at,
{
    if at < end {
        assert(white_space(text[end - 1]));
        end_is_found(text, start, end - 1, at);
    }
}

/// Trimming takes away exactly the white space around a text.
pub proof fn trimming_is_exact(before: Seq<char>, text: Seq<char>, after: Seq<char>)
    requires
        forall|j: int| 0 <= j < before.len() ==> white_space(#[trigger] before[j]),
        forall|j: int| 0 <= j < after.len() ==> white_space(#[trigger] after[j]),
        text.len() > 0,
        !white_space(text[0]),
        !white_space(text.last()),
    ensures
        trimmed(before + text + after) == text,
{
    let whole = before + text + after;
    let start = before.len() as int;
    let end = start + text.len();
    assert forall|j: int| 0 <= j < start implies white_space(#[trigger] whole[j]) by {
        assert(whole[j] == before[j]);
    }
    assert(whole[start] == text[0]);
    start_is_found(whole, 0, start);
    assert forall|j: int| end <= j < whole.len() implies white_space(#[trigger] whole[j]) by {
        assert(whole[j] == after[j - end]);
    }
    assert(whole[end - 1] == text.last());
    end_is_found(whole, start, whole.len() as int, end);
    assert(whole.subrange(start, end) =~= text);
}

/// Whether a method gives its mobject a state that does not depend on the one
/// before.
pub open spec fn sets_a_state(method: Seq<char>) -> bool {
    ||| exists|rest: Seq<char>| method == #[trigger] ("set_"@ + rest)
    ||| method == "move_to"@
    ||| method == "next_to"@
    ||| method == "to_edge"@
    ||| method == "to_corner"@
    ||| method == "align_to"@
    ||| method == "center"@
}

proof fn setting_is_told(method: Seq<char>)
    ensures
        sets_a_state(method) <==> sets_absolutely(method),
{
    reveal_strlit("set_");
    if occurs_at(method, "set_"@, 0) {
        assert(method =~= "set_"@ + method.skip(4));
    }
    if exists|rest: Seq<char>| method == #[trigger] ("set_"@ + rest) {
        let rest = choose|rest: Seq<char>| method == #[trigger] ("set_"@ + rest);
        assert(method.subrange(0, 4) =~= "set_"@);
    }
}

/// Whether an expression is a call of this method of `param`.
pub open spec fn calls_own_method(expr: Expr, param: Seq<char>, method: Seq<char>) -> bool {
    &&& expr.form is Call
    &&& expr.parts@.len() > 0
    &&& expr.parts@[0].form matches Form::Attribute(name) && name@ == method
    &&& expr.parts@[0].parts@.len() == 1
    &&& expr.parts@[0].parts@[0].form matches Form::Name(name) && name@ == param
    &&& expr.parts@[0].parts@[0].parts@.len() == 0
}

/// Whether an expression is a number or another constant on its own.
pub open spec fn is_plain(expr: Expr) -> bool {
    expr.parts@.len() == 0 && match expr.form {
        Form::Int(_) => true,
        Form::Float => true,
        Form::Constant => true,
        _ => false,
    }
}

/// A call of its own method with plain arguments gives a mobject the same state
/// again exactly when the method sets a state.
pub proof fn setters_are_steady(expr: Expr, param: Seq<char>, method: Seq<char>)
    requires
        calls_own_method(expr, param, method),
    ensures
        steady_shape(expr, param) ==> sets_a_state(method),
        sets_a_state(method) && (forall|i: int|
            1 <= i < expr.parts@.len() ==> is_plain(#[trigger] expr.parts@[i])) ==> steady_shape(
            expr,
            param,
        ),
        forall|i: int|
            1 <= i < expr.parts@.len() && mentions(#[trigger] expr.parts@[i], param)
                ==> !steady_shape(expr, param),
{
    setting_is_told(method);
    let callee = expr.parts@[0];
    assert(method_of_param(callee, param) == Some(method));
    assert(!holds_lambda(callee.parts@[0]));
    assert(!holds_lambda(callee));
    assert forall|i: int| 1 <= i < expr.parts@.len() && is_plain(#[trigger] expr.parts@[i]) implies
        !mentions(expr.parts@[i], param) && steady_shape(expr.parts@[i], param) by {
        assert(!holds_lambda(expr.parts@[i]));
    }
}

/// A literal range runs as often as it has values, and a display as often as
/// it has elements; a loop that runs never has no count.
pub proof fn loops_are_counted(iter: Expr)
    ensures
        iter.form is List || iter.form is Tuple ==> trip_count(iter) == if iter.parts@.len() > 0
            && iter.parts@.len() <= i64::MAX && forall|i: int|
            0 <= i < iter.parts@.len() ==> !((#[trigger] iter.parts@[i]).form is Starred) {
            Some(iter.parts@.len() as i64)
        } else {
            None
        },
        trip_count(iter) matches Some(count) ==> count > 0,
{
    if iter.form is List || iter.form is Tuple {
        assert(any_starred(iter.parts@) <==> exists|i: int|
            0 <= i < iter.parts@.len() && (#[trigger] iter.parts@[i]).form is Starred);
    }
}

/// Whether an expression is a call of `range` with these arguments.
pub open spec fn is_range(iter: Expr, count: int) -> bool {
    &&& iter.form matches Form::Call { arguments, keywords } && arguments == count && keywords@.len()
        == 0
    &&& iter.parts@.len() == count + 1
    &&& iter.parts@[0].form matches Form::Name(name) && name@ == "range"@
}

/// Whether an expression is this whole number.
pub open spec fn is_whole(expr: Expr, value: int) -> bool {
    expr.form matches Form::Int(Some(stated)) && stated == value
}

/// `range` of whole numbers runs up to its end, from 0 or from its start, in
/// steps of 1 or of its stride.
pub proof fn ranges_are_counted(iter: Expr, start: int, stop: int, stride: int, count: i64)
    requires
        stride > 0,
        count > 0,
    ensures
        is_range(iter, 1) && is_whole(iter.parts@[1], stop) ==> (trip_count(iter) == Some(count)
            <==> stop == count),
        is_range(iter, 2) && is_whole(iter.parts@[1], start) && is_whole(iter.parts@[2], stop) ==> (
        trip_count(iter) == Some(count) <==> stop - start == count),
        is_range(iter, 3) && is_whole(iter.parts@[1], start) && is_whole(iter.parts@[2], stop)
            && is_whole(iter.parts@[3], stride) ==> (trip_count(iter) == Some(count) <==> start + (
        count - 1) * stride < stop <= start + count * stride),
{
    let arguments = iter.parts@.skip(1);
    if iter.parts@.len() > 1 {
        assert(arguments[0] == iter.parts@[1]);
    }
    if iter.parts@.len() > 2 {
        assert(arguments[1] == iter.parts@[2]);
    }
    if iter.parts@.len() > 3 {
        assert(arguments[2] == iter.parts@[3]);
        let span = stop - start;
        let q = span / stride;
        let r = span % stride;
        let c = count as int;
        assert(span == q * stride + r && 0 <= r < stride) by (nonlinear_arith)
            requires
                stride > 0,
                q == span / stride,
                r == span % stride,
        ;
        let n = steps(start, stop, stride);
        assert(n == if r > 0 {
            q + 1
        } else {
            q
        });
        if n == c {
            assert(start + (c - 1) * stride < stop <= start + c * stride) by (nonlinear_arith)
                requires
                    stop - start == q * stride + r,
                    0 <= r < stride,
                    c == if r > 0 {
                        q + 1
                    } else {
                        q
                    },
            ;
        }
        if start + (c - 1) * stride < stop <= start + c * stride {
            assert(n == c) by (nonlinear_arith)
                requires
                    stop - start == q * stride + r,
                    0 <= r < stride,
                    start + (c - 1) * stride < stop <= start + c * stride,
                    n == if r > 0 {
                        q + 1
                    } else {
                        q
                    },
            ;
        }
    }
}

/// The number of samples of a whole range is how often its step fits.
pub proof fn whole_ranges_are_sampled(
    context: RuleContext<'_>,
    i: int,
    start: i64,
    end: i64,
    step: i64,
)
    requires
        0 < step <= 0x20_0000_0000_0000,
        -0x20_0000_0000_0000 <= start < end <= 0x20_0000_0000_0000,
        end - start < 0x20_0000_0000_0000,
    ensures
        samples_of(
            context,
            i,
            Bound::Whole(start),
            Bound::Whole(end),
            Bound::Whole(step),
        ) matches Some(NumLit::Int(count)) && start + (count - 1) * step < end <= start + count
            * step,
{
    let span = end - start;
    let stride = step as int;
    let q = span / stride;
    let r = span % stride;
    assert(span == q * stride + r && 0 <= r < stride && 0 <= q <= span) by (nonlinear_arith)
        requires
            stride > 0,
            span > 0,
            q == span / stride,
            r == span % stride,
    ;
    let c = steps(start as int, end as int, stride);
    assert(start + (c - 1) * stride < end <= start + c * stride) by (nonlinear_arith)
        requires
            end - start == q * stride + r,
            0 <= r < stride,
            c == if r > 0 {
                q + 1
            } else {
                q
            },
    ;
    assert(c as i64 == c);
}

/// The loop that is found around a statement is a `for` loop whose body holds
/// that statement itself.
pub proof fn loops_are_found_around(list: Seq<Stmt>, range: TextRange, i: int)
    requires
        0 <= i <= list.len(),
    ensures
        loop_among(list, range, i) matches Some(stmt) ==> is_loop_around(stmt, range),
    decreases list, list.len() - i, 2int,
{
    if i < list.len() {
        loop_is_found_in(list[i], range);
        loops_are_found_around(list, range, i + 1);
    }
}

/// Whether a statement is a `for` loop whose body evaluates the expression at
/// a range as a statement of its own.
pub open spec fn is_loop_around(stmt: Stmt, range: TextRange) -> bool {
    stmt.kind == StmtKind::For && exists|b: int|
        0 <= b < stmt.body@.len() && (#[trigger] stmt.body@[b]).kind == StmtKind::Expr
            && stmt.body@[b].values@.len() > 0 && stmt.body@[b].values@[0].range == range
}

proof fn loop_is_found_in(stmt: Stmt, range: TextRange)
    ensures
        is_loop_around(stmt, range) ==> loop_in(stmt, range) == Some(stmt),
        loop_in(stmt, range) matches Some(found) ==> is_loop_around(found, range),
    decreases stmt, stmt.body@.len() + stmt.rest@.len() + 1,
{
    assert(forall|b: int|
        0 <= b < stmt.body@.len() ==> (evaluates(#[trigger] stmt.body@[b], range) <==> (
        stmt.body@[b].kind == StmtKind::Expr && stmt.body@[b].values@.len() > 0
            && stmt.body@[b].values@[0].range == range)));
    assert(direct_loop(stmt, range) <==> is_loop_around(stmt, range));
    loop_is_found_from(stmt, range, 0);
}

proof fn loop_is_found_from(stmt: Stmt, range: TextRange, i: int)
    requires
        0 <= i <= stmt.body@.len() + stmt.rest@.len(),
    ensures
        loop_from(stmt, range, i) matches Some(found) ==> is_loop_around(found, range),
    decreases stmt, stmt.body@.len() + stmt.rest@.len() - i,
{
    if i < stmt.body@.len() {
        loop_is_found_in(stmt.body@[i], range);
        loop_is_found_from(stmt, range, i + 1);
    } else if i < stmt.body@.len() + stmt.rest@.len() {
        loop_is_found_in(stmt.rest@[i - stmt.body@.len()], range);
        loop_is_found_from(stmt, range, i + 1);
    }
}

/// Whether the event at `e` certainly changes `target`: its points, style,
/// opacity, or camera state, in an unknown way, or through a certain play that
/// writes it.
pub open spec fn changes_target(scene: SceneLifecycle, target: ObjectId, e: int) -> bool {
    scene.events@[e].certainty == Presence::Present && match scene.events@[e].event {
        Event::Mutate { target: mutated, kind } => mutated == target && target.cardinality
            == Cardinality::Singleton && kind != MutationKind::Membership && kind
            != MutationKind::Updaters && (kind == MutationKind::Points || kind
            == MutationKind::Style || kind == MutationKind::Opacity || kind
            == MutationKind::CameraState || kind == MutationKind::Unknown),
        Event::BeginPlay { play_group } => play_of_group(scene.plays@, play_group, 0) matches Some(
            play,
        ) && play.certainty == Presence::Present && play_writes(play, target),
        _ => false,
    }
}

/// Whether the event at `e` begins a play of which nothing is known.
pub open spec fn begins_unknown_play(scene: SceneLifecycle, e: int) -> bool {
    scene.events@[e].certainty == Presence::Present && (
    scene.events@[e].event matches Event::BeginPlay { play_group } && play_of_group(
        scene.plays@,
        play_group,
        0,
    ) is None)
}

/// A change of a target between two events is found at the first event that
/// changes it, unless an unknown play comes before.
pub proof fn changes_are_found(scene: SceneLifecycle, target: ObjectId, i: int, e: int, end: int)
    requires
        0 <= i <= e <= end <= scene.events@.len(),
        e < end ==> changes_target(scene, target, e) || begins_unknown_play(scene, e),
        forall|j: int|
            i <= j < e ==> !#[trigger] changes_target(scene, target, j) && !begins_unknown_play(
                scene,
                j,
            ),
    ensures
        change_between(scene, target, i, end) == if e < end && changes_target(scene, target, e) {
            Some(scene.events@[e].site)
        } else {
            None
        },
    decreases end - i,
{
    if i < end {
        if i < e {
            assert(!changes_target(scene, target, i));
            changes_are_found(scene, target, i + 1, e, end);
        }
    }
}

/// What the links are after one more event: a certain addition of one object
/// to another adds a link unless it closes a cycle, a change of membership
/// takes away the links of its target, and most events change nothing.
pub proof fn links_follow_events(events: Seq<TracedEvent>, n: int)
    requires
        0 <= n < events.len(),
    ensures
        ({
            let before = links_after(events, n);
            let after = links_after(events, n + 1);
            match events[n].event {
                Event::AddChild { parent, child } => {
                    &&& forall|link: Link| before.contains(link) ==> after.contains(link)
                    &&& forall|link: Link|
                        after.contains(link) && !before.contains(link) ==> link == (Link {
                            parent,
                            child,
                        })
                    &&& !(events[n].certainty == Presence::Present && parent.cardinality
                        == Cardinality::Singleton && child.cardinality == Cardinality::Singleton
                        && parent != child) ==> after == before
                },
                Event::Mutate { target, kind } => if kind == MutationKind::Membership {
                    after == without(before, target)
                } else {
                    after == before
                },
                Event::UnknownMutation { values: _ } => true,
                _ => after == before,
            }
        }),
        links_after(events, 0).len() == 0,
{
    let before = links_after(events, n);
    let after = links_after(events, n + 1);
    match events[n].event {
        Event::AddChild { parent, child } => {
            if after != before {
                assert(after == before.push(Link { parent, child }));
                assert forall|link: Link| before.contains(link) implies after.contains(link) by {
                    let k = choose|k: int| 0 <= k < before.len() && before[k] == link;
                    assert(after[k] == link);
                }
                assert forall|link: Link| after.contains(link) && !before.contains(link) implies link
                    == (Link { parent, child }) by {
                    let k = choose|k: int| 0 <= k < after.len() && after[k] == link;
                    if k < before.len() {
                        assert(before[k] == link);
                    }
                }
            }
        },
        _ => {},
    }
}

} // verus!
