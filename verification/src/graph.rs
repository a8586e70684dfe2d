//! Reachability: base classes of curated symbols, children of mobjects.
use crate::knowledge::{
    bases_of, declared, qualified, search, unseen, unseen_shrinks, KnowledgeProfile,
};
use crate::semantic::ObjectId;
use crate::text::{has_text, same_text, texts};
use vstd::prelude::*;

verus! {

/// Whether each node of `path` is followed by one of its successors.
pub open spec fn is_path<N>(next: spec_fn(N) -> Seq<N>, path: Seq<N>) -> bool {
    path.len() > 0 && forall|i: int|
        0 <= i < path.len() - 1 ==> next(path[i]).contains(#[trigger] path[i + 1])
}

/// Whether a path leads from `from` to `to`.
pub open spec fn reachable<N>(next: spec_fn(N) -> Seq<N>, from: N, to: N) -> bool {
    exists|path: Seq<N>| #[trigger] is_path(next, path) && path[0] == from && path.last() == to
}

/// Every node reaches itself.
pub proof fn reaches_itself<N>(next: spec_fn(N) -> Seq<N>, node: N)
    ensures
        reachable(next, node, node),
{
    let path = seq![node];
    assert(is_path(next, path));
}

/// A successor of a reachable node is reachable.
pub proof fn reaches_next<N>(next: spec_fn(N) -> Seq<N>, from: N, via: N, to: N)
    requires
        reachable(next, from, via),
        next(via).contains(to),
    ensures
        reachable(next, from, to),
{
    let path = choose|path: Seq<N>|
        #[trigger] is_path(next, path) && path[0] == from && path.last() == via;
    let longer = path.push(to);
    assert forall|i: int| 0 <= i < longer.len() - 1 implies next(longer[i]).contains(
        #[trigger] longer[i + 1],
    ) by {
        if i + 1 < path.len() {
            assert(next(path[i]).contains(path[i + 1]));
        }
    }
    assert(is_path(next, longer));
}

/// What is reachable from a closed set lies in it.
pub proof fn closed_holds_reachable<N>(
    next: spec_fn(N) -> Seq<N>,
    inside: spec_fn(N) -> bool,
    from: N,
    to: N,
)
    requires
        inside(from),
        forall|a: N, b: N| inside(a) && #[trigger] next(a).contains(b) ==> inside(b),
        reachable(next, from, to),
    ensures
        inside(to),
{
    let path = choose|path: Seq<N>|
        #[trigger] is_path(next, path) && path[0] == from && path.last() == to;
    path_stays_inside(next, inside, path, path.len() - 1);
}

proof fn path_stays_inside<N>(
    next: spec_fn(N) -> Seq<N>,
    inside: spec_fn(N) -> bool,
    path: Seq<N>,
    i: int,
)
    requires
        is_path(next, path),
        inside(path[0]),
        forall|a: N, b: N| inside(a) && #[trigger] next(a).contains(b) ==> inside(b),
        0 <= i < path.len(),
    ensures
        inside(path[i]),
    decreases i,
{
    if i > 0 {
        path_stays_inside(next, inside, path, i - 1);
        assert(next(path[i - 1]).contains(path[(i - 1) + 1]));
    }
}

/// Base classes of a curated class.
pub open spec fn base_step(profile: KnowledgeProfile) -> spec_fn(Seq<char>) -> Seq<Seq<char>> {
    |class: Seq<char>| bases_of(profile, class)
}

/// Whether some class that `class` reaches declares the method.
pub open spec fn declared_by(
    profile: KnowledgeProfile,
    class: Seq<char>,
    method: Seq<char>,
    methods_only: bool,
    owner: Seq<char>,
) -> bool {
    reachable(base_step(profile), class, owner) && declared(
        profile,
        qualified(owner, method),
        methods_only,
    )
}

proof fn search_from(
    profile: KnowledgeProfile,
    class: Seq<char>,
    queue: Seq<Seq<char>>,
    cursor: int,
    method: Seq<char>,
    methods_only: bool,
)
    requires
        0 <= cursor <= queue.len(),
        queue.contains(class),
        forall|i: int|
            0 <= i < queue.len() ==> reachable(base_step(profile), class, #[trigger] queue[i]),
        forall|i: int|
            0 <= i < cursor ==> !declared(
                profile,
                qualified(#[trigger] queue[i], method),
                methods_only,
            ),
        forall|i: int, base: Seq<char>|
            0 <= i < cursor && (#[trigger] bases_of(profile, queue[i])).contains(base)
                ==> #[trigger] queue.contains(base),
    ensures
        match search(profile, queue, cursor, method, methods_only) {
            Some(id) => exists|owner: Seq<char>|
                declared_by(profile, class, method, methods_only, owner) && id == #[trigger]
                    qualified(owner, method),
            None => forall|owner: Seq<char>|
                !#[trigger] declared_by(profile, class, method, methods_only, owner),
        },
    decreases unseen(profile.symbols@, queue.take(cursor)), queue.len() - cursor,
{
    let next = base_step(profile);
    if cursor >= queue.len() {
        let inside = |node: Seq<char>| queue.contains(node);
        assert forall|owner: Seq<char>| !#[trigger] declared_by(
            profile,
            class,
            method,
            methods_only,
            owner,
        ) by {
            if reachable(next, class, owner) {
                assert forall|a: Seq<char>, b: Seq<char>|
                    inside(a) && #[trigger] next(a).contains(b) implies inside(b) by {
                    let k = choose|k: int| 0 <= k < queue.len() && queue[k] == a;
                    assert(bases_of(profile, queue[k]).contains(b));
                }
                closed_holds_reachable(next, inside, class, owner);
                let k = choose|k: int| 0 <= k < queue.len() && queue[k] == owner;
                assert(!declared(profile, qualified(queue[k], method), methods_only));
            }
        }
    } else {
        let current = queue[cursor];
        assert(queue.take(cursor + 1) =~= queue.take(cursor).push(current));
        unseen_shrinks(profile.symbols@, queue.take(cursor), current);
        if queue.take(cursor).contains(current) {
            let k = choose|k: int| 0 <= k < cursor && queue.take(cursor)[k] == current;
            assert(queue[k] == current);
            search_from(profile, class, queue, cursor + 1, method, methods_only);
        } else if declared(profile, qualified(current, method), methods_only) {
            assert(declared_by(profile, class, method, methods_only, current));
        } else {
            let more = queue + bases_of(profile, current);
            assert(more.take(cursor + 1) =~= queue.take(cursor).push(current));
            if profile.spec_symbol(current) is None {
                assert(more =~= queue);
            }
            let c = choose|c: int| 0 <= c < queue.len() && queue[c] == class;
            assert(more[c] == class);
            assert forall|i: int| 0 <= i < more.len() implies reachable(
                next,
                class,
                #[trigger] more[i],
            ) by {
                if i < queue.len() {
                    assert(more[i] == queue[i]);
                } else {
                    let base = bases_of(profile, current)[i - queue.len()];
                    assert(next(current).contains(base));
                    assert(reachable(next, class, queue[cursor]));
                    reaches_next(next, class, current, base);
                }
            }
            assert forall|i: int, base: Seq<char>|
                0 <= i < cursor + 1 && (#[trigger] bases_of(profile, more[i])).contains(
                    base,
                ) implies #[trigger] more.contains(base) by {
                assert(more[i] == queue[i]);
                if i < cursor {
                    assert(bases_of(profile, queue[i]).contains(base));
                    assert(queue.contains(base));
                    let k = choose|k: int| 0 <= k < queue.len() && queue[k] == base;
                    assert(more[k] == base);
                } else {
                    let k = choose|k: int|
                        0 <= k < bases_of(profile, current).len() && bases_of(profile, current)[k]
                            == base;
                    assert(more[queue.len() + k] == base);
                }
            }
            assert forall|i: int| 0 <= i < cursor + 1 implies !declared(
                profile,
                qualified(#[trigger] more[i], method),
                methods_only,
            ) by {
                assert(more[i] == queue[i]);
            }
            search_from(profile, class, more, cursor + 1, method, methods_only);
        }
    }
}

/// The search over base classes finds a method exactly when some class that
/// is reached declares it, and finds it as one such class declares it.
pub proof fn search_is_exact(
    profile: KnowledgeProfile,
    class: Seq<char>,
    method: Seq<char>,
    methods_only: bool,
)
    ensures
        match search(profile, seq![class], 0, method, methods_only) {
            Some(id) => exists|owner: Seq<char>|
                declared_by(profile, class, method, methods_only, owner) && id == #[trigger]
                    qualified(owner, method),
            None => forall|owner: Seq<char>|
                !#[trigger] declared_by(profile, class, method, methods_only, owner),
        },
{
    let queue = seq![class];
    assert(queue[0] == class);
    reaches_itself(base_step(profile), class);
    search_from(profile, class, queue, 0, method, methods_only);
}

/// Whether the curated base chain of `kind` reaches `base`.
pub fn curated_reaches(profile: &KnowledgeProfile, kind: &str, base: &str) -> (reached: bool)
    ensures
        reached == reachable(base_step(*profile), kind@, base@),
{
    let ghost next = base_step(*profile);
    let mut queue: Vec<String> = vec![kind.to_owned()];
    let mut done: Vec<String> = Vec::new();
    proof {
        assert(texts(queue@) =~= seq![kind@]);
        assert(texts(done@) =~= Seq::<Seq<char>>::empty());
        assert(texts(queue@)[0] == kind@);
        reaches_itself(next, kind@);
    }
    while queue.len() > 0
        invariant
            next == base_step(*profile),
            texts(done@).contains(kind@) || texts(queue@).contains(kind@),
            !texts(done@).contains(base@),
            forall|i: int|
                0 <= i < queue@.len() ==> reachable(next, kind@, #[trigger] texts(queue@)[i]),
            forall|i: int|
                0 <= i < done@.len() ==> reachable(next, kind@, #[trigger] texts(done@)[i]),
            forall|a: Seq<char>, b: Seq<char>|
                texts(done@).contains(a) && #[trigger] next(a).contains(b) ==> texts(
                    done@,
                ).contains(b) || texts(queue@).contains(b),
        decreases unseen(profile.symbols@, texts(done@)), queue@.len(),
    {
        let ghost before = texts(queue@);
        let ghost seen = texts(done@);
        let current: String = match queue.pop() {
            Some(current) => current,
            None => {
                return false;
            },
        };
        let ghost rest = texts(queue@);
        proof {
            assert(before =~= rest.push(current@));
            assert(before[before.len() - 1] == current@);
            assert forall|x: Seq<char>| before.contains(x) implies rest.contains(x) || x
                == current@ by {
                let k = choose|k: int| 0 <= k < before.len() && before[k] == x;
                if k < rest.len() {
                    assert(rest[k] == x);
                }
            }
            assert forall|i: int| 0 <= i < queue@.len() implies reachable(
                next,
                kind@,
                #[trigger] texts(queue@)[i],
            ) by {
                assert(before[i] == rest[i]);
            }
            unseen_shrinks(profile.symbols@, seen, current@);
        }
        if has_text(&done, current.as_str()) {
            continue;
        }
        if same_text(current.as_str(), base) {
            return true;
        }
        let name: String = current.clone();
        done.push(name);
        proof {
            assert(texts(done@) =~= seen.push(current@));
            assert forall|x: Seq<char>| seen.contains(x) implies texts(done@).contains(x) by {
                let k = choose|k: int| 0 <= k < seen.len() && seen[k] == x;
                assert(texts(done@)[k] == x);
            }
            assert(texts(done@)[seen.len() as int] == current@);
            assert forall|x: Seq<char>| texts(done@).contains(x) implies seen.contains(x) || x
                == current@ by {
                let k = choose|k: int| 0 <= k < texts(done@).len() && texts(done@)[k] == x;
                if k < seen.len() {
                    assert(seen[k] == x);
                }
            }
            assert forall|i: int| 0 <= i < done@.len() implies reachable(
                next,
                kind@,
                #[trigger] texts(done@)[i],
            ) by {
                if i < seen.len() {
                    assert(seen[i] == texts(done@)[i]);
                }
            }
        }
        if let Some(entry) = profile.symbol(current.as_str()) {
            push_bases(&mut queue, &entry.bases);
            proof {
                let bases = texts(entry.bases@);
                assert(next(current@) == bases);
                assert(texts(queue@) == rest + bases);
                assert forall|x: Seq<char>| rest.contains(x) || bases.contains(x) implies texts(
                    queue@,
                ).contains(x) by {
                    if rest.contains(x) {
                        let k = choose|k: int| 0 <= k < rest.len() && rest[k] == x;
                        assert(texts(queue@)[k] == x);
                    } else {
                        let k = choose|k: int| 0 <= k < bases.len() && bases[k] == x;
                        assert(texts(queue@)[rest.len() + k] == x);
                    }
                }
                assert forall|i: int| 0 <= i < queue@.len() implies reachable(
                    next,
                    kind@,
                    #[trigger] texts(queue@)[i],
                ) by {
                    if i < rest.len() {
                        assert(texts(queue@)[i] == rest[i]);
                        assert(before[i] == rest[i]);
                    } else {
                        assert(texts(queue@)[i] == bases[i - rest.len()]);
                        assert(bases.contains(bases[i - rest.len()]));
                        reaches_next(next, kind@, current@, bases[i - rest.len()]);
                    }
                }
            }
        } else {
            assert(next(current@) =~= Seq::<Seq<char>>::empty());
        }
    }
    proof {
        assert(texts(queue@) =~= Seq::<Seq<char>>::empty());
        if reachable(next, kind@, base@) {
            let inside = |x: Seq<char>| texts(done@).contains(x);
            assert forall|a: Seq<char>, b: Seq<char>| inside(a) && #[trigger] next(a).contains(
                b,
            ) implies inside(b) by {
                assert(!texts(queue@).contains(b));
            }
            assert(inside(kind@));
            closed_holds_reachable(next, inside, kind@, base@);
        }
    }
    false
}

fn push_bases(list: &mut Vec<String>, more: &Vec<String>)
    ensures
        texts(final(list)@) == texts(old(list)@) + texts(more@),
{
    let mut i: usize = 0;
    assert(texts(list@) =~= texts(old(list)@) + texts(more@).take(0));
    while i < more.len()
        invariant
            i <= more@.len(),
            texts(list@) == texts(old(list)@) + texts(more@).take(i as int),
        decreases more@.len() - i,
    {
        let ghost before = list@;
        list.push(more[i].clone());
        assert(texts(list@) =~= texts(before).push(more@[i as int]@));
        i += 1;
        assert(texts(list@) =~= texts(old(list)@) + texts(more@).take(i as int));
    }
    assert(texts(more@).take(i as int) =~= texts(more@));
}

/// A definite parent-to-child link.
#[derive(Clone, Copy, Debug, PartialEq, Eq, Structural)]
pub struct Link {
    pub parent: ObjectId,
    pub child: ObjectId,
}

/// Children of `parent` among the links.
pub open spec fn children_of(links: Seq<Link>, parent: ObjectId) -> Seq<ObjectId>
    decreases links.len(),
{
    if links.len() == 0 {
        Seq::empty()
    } else if links.last().parent == parent {
        children_of(links.drop_last(), parent).push(links.last().child)
    } else {
        children_of(links.drop_last(), parent)
    }
}

/// Steps from parent to child.
pub open spec fn child_step(links: Seq<Link>) -> spec_fn(ObjectId) -> Seq<ObjectId> {
    |parent: ObjectId| children_of(links, parent)
}

/// Links whose parent is not among `seen`.
pub open spec fn open_links(links: Seq<Link>, seen: Seq<ObjectId>) -> nat
    decreases links.len(),
{
    if links.len() == 0 {
        0
    } else {
        open_links(links.drop_last(), seen) + if seen.contains(links.last().parent) {
            0nat
        } else {
            1nat
        }
    }
}

proof fn open_links_shrink(links: Seq<Link>, seen: Seq<ObjectId>, node: ObjectId)
    ensures
        open_links(links, seen.push(node)) <= open_links(links, seen),
        !seen.contains(node) && children_of(links, node).len() > 0 ==> open_links(
            links,
            seen.push(node),
        ) < open_links(links, seen),
    decreases links.len(),
{
    if links.len() > 0 {
        let parent = links.last().parent;
        open_links_shrink(links.drop_last(), seen, node);
        assert(seen.push(node).contains(parent) == (seen.contains(parent) || parent == node)) by {
            if seen.contains(parent) {
                let k = choose|k: int| 0 <= k < seen.len() && seen[k] == parent;
                assert(seen.push(node)[k] == parent);
            }
            if parent == node {
                assert(seen.push(node)[seen.len() as int] == node);
            }
        }
    }
}

fn has_object(list: &Vec<ObjectId>, object: ObjectId) -> (held: bool)
    ensures
        held == list@.contains(object),
{
    let mut i: usize = 0;
    while i < list.len()
        invariant
            i <= list@.len(),
            forall|j: int| 0 <= j < i ==> #[trigger] list@[j] != object,
        decreases list@.len() - i,
    {
        if list[i] == object {
            return true;
        }
        i += 1;
    }
    false
}

fn push_children(list: &mut Vec<ObjectId>, links: &Vec<Link>, parent: ObjectId)
    ensures
        final(list)@ == old(list)@ + children_of(links@, parent),
{
    let mut i: usize = 0;
    assert(list@ =~= old(list)@ + children_of(links@.take(0), parent));
    while i < links.len()
        invariant
            i <= links@.len(),
            list@ == old(list)@ + children_of(links@.take(i as int), parent),
        decreases links@.len() - i,
    {
        assert(links@.take(i + 1).drop_last() =~= links@.take(i as int));
        if links[i].parent == parent {
            list.push(links[i].child);
            assert(list@ =~= old(list)@ + children_of(links@.take(i + 1), parent));
        }
        i += 1;
    }
    assert(links@.take(i as int) =~= links@);
}

/// Whether `to` is reachable from `from` over the definite parent-to-child
/// links.
pub fn reaches(links: &Vec<Link>, from: ObjectId, to: ObjectId) -> (reached: bool)
    ensures
        reached == reachable(child_step(links@), from, to),
{
    let ghost next = child_step(links@);
    let mut queue: Vec<ObjectId> = vec![from];
    let mut done: Vec<ObjectId> = Vec::new();
    proof {
        assert(queue@[0] == from);
        reaches_itself(next, from);
    }
    while queue.len() > 0
        invariant
            next == child_step(links@),
            done@.contains(from) || queue@.contains(from),
            !done@.contains(to),
            forall|i: int| 0 <= i < queue@.len() ==> reachable(next, from, #[trigger] queue@[i]),
            forall|i: int| 0 <= i < done@.len() ==> reachable(next, from, #[trigger] done@[i]),
            forall|a: ObjectId, b: ObjectId|
                done@.contains(a) && #[trigger] next(a).contains(b) ==> done@.contains(b)
                    || queue@.contains(b),
        decreases open_links(links@, done@), queue@.len(),
    {
        let ghost before = queue@;
        let ghost seen = done@;
        let current: ObjectId = match queue.pop() {
            Some(current) => current,
            None => {
                return false;
            },
        };
        let ghost rest = queue@;
        proof {
            assert(before =~= rest.push(current));
            assert(before[before.len() - 1] == current);
            assert forall|x: ObjectId| before.contains(x) implies rest.contains(x) || x
                == current by {
                let k = choose|k: int| 0 <= k < before.len() && before[k] == x;
                if k < rest.len() {
                    assert(rest[k] == x);
                }
            }
            assert forall|i: int| 0 <= i < queue@.len() implies reachable(
                next,
                from,
                #[trigger] queue@[i],
            ) by {
                assert(before[i] == rest[i]);
            }
            open_links_shrink(links@, seen, current);
        }
        if current == to {
            return true;
        }
        if has_object(&done, current) {
            continue;
        }
        done.push(current);
        push_children(&mut queue, links, current);
        proof {
            let children = children_of(links@, current);
            assert(next(current) == children);
            assert(done@ =~= seen.push(current));
            assert(done@[seen.len() as int] == current);
            assert forall|x: ObjectId| seen.contains(x) implies done@.contains(x) by {
                let k = choose|k: int| 0 <= k < seen.len() && seen[k] == x;
                assert(done@[k] == x);
            }
            assert forall|x: ObjectId| done@.contains(x) implies seen.contains(x) || x
                == current by {
                let k = choose|k: int| 0 <= k < done@.len() && done@[k] == x;
                if k < seen.len() {
                    assert(seen[k] == x);
                }
            }
            assert forall|x: ObjectId| rest.contains(x) || children.contains(x) implies queue@.contains(
                x,
            ) by {
                if rest.contains(x) {
                    let k = choose|k: int| 0 <= k < rest.len() && rest[k] == x;
                    assert(queue@[k] == x);
                } else {
                    let k = choose|k: int| 0 <= k < children.len() && children[k] == x;
                    assert(queue@[rest.len() + k] == x);
                }
            }
            assert forall|i: int| 0 <= i < done@.len() implies reachable(
                next,
                from,
                #[trigger] done@[i],
            ) by {
                if i < seen.len() {
                    assert(seen[i] == done@[i]);
                }
            }
            assert forall|i: int| 0 <= i < queue@.len() implies reachable(
                next,
                from,
                #[trigger] queue@[i],
            ) by {
                if i < rest.len() {
                    assert(queue@[i] == rest[i]);
                    assert(before[i] == rest[i]);
                } else {
                    assert(queue@[i] == children[i - rest.len()]);
                    assert(children.contains(children[i - rest.len()]));
                    reaches_next(next, from, current, children[i - rest.len()]);
                }
            }
            if children.len() == 0 {
                assert(queue@ =~= rest);
            }
        }
    }
    proof {
        if reachable(next, from, to) {
            let inside = |x: ObjectId| done@.contains(x);
            assert forall|a: ObjectId, b: ObjectId| inside(a) && #[trigger] next(a).contains(
                b,
            ) implies inside(b) by {
                assert(!queue@.contains(b));
            }
            assert(inside(from));
            closed_holds_reachable(next, inside, from, to);
        }
    }
    false
}

/// Whether a link touches `object`.
pub open spec fn touches(link: Link, object: ObjectId) -> bool {
    link.parent == object || link.child == object
}

/// The links that do not touch `object`.
pub open spec fn without(links: Seq<Link>, object: ObjectId) -> Seq<Link>
    decreases links.len(),
{
    if links.len() == 0 {
        Seq::empty()
    } else if touches(links.last(), object) {
        without(links.drop_last(), object)
    } else {
        without(links.drop_last(), object).push(links.last())
    }
}

/// Drops every definite link at `object` (its membership was mutated in a
/// way this walk does not model).
pub fn purge_links(links: &Vec<Link>, object: ObjectId) -> (left: Vec<Link>)
    ensures
        left@ == without(links@, object),
{
    let mut left: Vec<Link> = Vec::new();
    let mut i: usize = 0;
    assert(left@ =~= without(links@.take(0), object));
    while i < links.len()
        invariant
            i <= links@.len(),
            left@ == without(links@.take(i as int), object),
        decreases links@.len() - i,
    {
        assert(links@.take(i + 1).drop_last() =~= links@.take(i as int));
        let link: Link = links[i];
        if !(link.parent == object || link.child == object) {
            left.push(link);
        }
        i += 1;
    }
    assert(links@.take(i as int) =~= links@);
    left
}

/// What a reachable node reaches is reachable.
pub proof fn reaches_through<N>(next: spec_fn(N) -> Seq<N>, from: N, via: N, to: N)
    requires
        reachable(next, from, via),
        reachable(next, via, to),
    ensures
        reachable(next, from, to),
{
    let inside = |node: N| reachable(next, from, node);
    assert forall|a: N, b: N| inside(a) && #[trigger] next(a).contains(b) implies inside(b) by {
        reaches_next(next, from, a, b);
    }
    closed_holds_reachable(next, inside, via, to);
}

/// Whether the links have no cycle: no child of a link reaches its parent.
pub open spec fn acyclic(links: Seq<Link>) -> bool {
    forall|i: int|
        0 <= i < links.len() ==> !reachable(
            child_step(links),
            (#[trigger] links[i]).child,
            links[i].parent,
        )
}

proof fn child_is_linked(links: Seq<Link>, parent: ObjectId, child: ObjectId)
    ensures
        children_of(links, parent).contains(child) == links.contains(Link { parent, child }),
    decreases links.len(),
{
    let link = Link { parent, child };
    if links.len() > 0 {
        let rest = links.drop_last();
        child_is_linked(rest, parent, child);
        assert(links =~= rest.push(links.last()));
        let list = children_of(rest, parent);
        if links.last().parent == parent {
            let longer = list.push(links.last().child);
            if list.contains(child) {
                let k = choose|k: int| 0 <= k < list.len() && list[k] == child;
                assert(longer[k] == child);
            }
            if links.last().child == child {
                assert(longer[list.len() as int] == child);
                assert(links[links.len() - 1] == link);
            }
        }
        if rest.contains(link) {
            let k = choose|k: int| 0 <= k < rest.len() && rest[k] == link;
            assert(links[k] == link);
        }
    }
}

/// Links among which no cycle is stay so when some of them are dropped.
pub proof fn fewer_links_stay_acyclic(links: Seq<Link>, fewer: Seq<Link>)
    requires
        acyclic(links),
        forall|i: int| 0 <= i < fewer.len() ==> links.contains(#[trigger] fewer[i]),
    ensures
        acyclic(fewer),
{
    let all = child_step(links);
    let some = child_step(fewer);
    assert forall|i: int| 0 <= i < fewer.len() implies !reachable(
        some,
        (#[trigger] fewer[i]).child,
        fewer[i].parent,
    ) by {
        let from = fewer[i].child;
        let to = fewer[i].parent;
        if reachable(some, from, to) {
            let inside = |node: ObjectId| reachable(all, from, node);
            reaches_itself(all, from);
            assert forall|a: ObjectId, b: ObjectId|
                inside(a) && #[trigger] some(a).contains(b) implies inside(b) by {
                child_is_linked(fewer, a, b);
                let k = choose|k: int|
                    0 <= k < fewer.len() && fewer[k] == (Link { parent: a, child: b });
                assert(links.contains(fewer[k]));
                child_is_linked(links, a, b);
                reaches_next(all, from, a, b);
            }
            closed_holds_reachable(some, inside, from, to);
            let k = choose|k: int| 0 <= k < links.len() && links[k] == fewer[i];
            assert(links[k].child == from);
        }
    }
}

/// A link whose child does not reach its parent closes no cycle.
pub proof fn harmless_link_stays_acyclic(links: Seq<Link>, parent: ObjectId, child: ObjectId)
    requires
        acyclic(links),
        !reachable(child_step(links), child, parent),
    ensures
        acyclic(links.push(Link { parent, child })),
{
    let longer = links.push(Link { parent, child });
    let old_step = child_step(links);
    let new_step = child_step(longer);
    assert forall|i: int| 0 <= i < longer.len() implies !reachable(
        new_step,
        (#[trigger] longer[i]).child,
        longer[i].parent,
    ) by {
        let from = longer[i].child;
        let to = longer[i].parent;
        if reachable(new_step, from, to) {
            let inside = |node: ObjectId|
                reachable(old_step, from, node) || (reachable(old_step, from, parent)
                    && reachable(old_step, child, node));
            reaches_itself(old_step, from);
            reaches_itself(old_step, child);
            assert forall|a: ObjectId, b: ObjectId|
                inside(a) && #[trigger] new_step(a).contains(b) implies inside(b) by {
                child_is_linked(longer, a, b);
                child_is_linked(links, a, b);
                let k = choose|k: int|
                    0 <= k < longer.len() && longer[k] == (Link { parent: a, child: b });
                if k < links.len() {
                    assert(links[k] == (Link { parent: a, child: b }));
                    if reachable(old_step, from, a) {
                        reaches_next(old_step, from, a, b);
                    } else {
                        reaches_next(old_step, child, a, b);
                    }
                }
            }
            closed_holds_reachable(new_step, inside, from, to);
            if i < links.len() {
                assert(links[i] == longer[i]);
                child_is_linked(links, to, from);
                assert(links.contains(Link { parent: to, child: from }));
                reaches_next(old_step, child, to, from);
                reaches_through(old_step, child, from, parent);
            }
        }
    }
}

/// Every link that is left by [`purge_links`] was there before.
pub proof fn left_links_were_there(links: Seq<Link>, object: ObjectId)
    ensures
        forall|i: int|
            0 <= i < without(links, object).len() ==> links.contains(
                #[trigger] without(links, object)[i],
            ),
    decreases links.len(),
{
    if links.len() > 0 {
        let rest = links.drop_last();
        left_links_were_there(rest, object);
        assert forall|i: int| 0 <= i < without(links, object).len() implies links.contains(
            #[trigger] without(links, object)[i],
        ) by {
            if i < without(rest, object).len() {
                let link = without(rest, object)[i];
                let k = choose|k: int| 0 <= k < rest.len() && rest[k] == link;
                assert(links[k] == link);
            } else {
                assert(links[links.len() - 1] == without(links, object)[i]);
            }
        }
    }
}

} // verus!
