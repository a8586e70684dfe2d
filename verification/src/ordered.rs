//! Ordered lists without repeats: sites by place, objects by their site, names
//! by their characters.
use crate::semantic::{Cardinality, ObjectId};
use crate::source::AllocationSite;
use crate::text::{same_text, texts, words};
use vstd::prelude::*;
use vstd::utf8::char_u32_cast;

verus! {

/// Whether `a` comes before `b`: by file, then start, then end.
pub open spec fn site_before(a: AllocationSite, b: AllocationSite) -> bool {
    a.file.index < b.file.index || (a.file.index == b.file.index && (a.start < b.start || (a.start
        == b.start && a.end < b.end)))
}

pub fn precedes(a: AllocationSite, b: AllocationSite) -> (before: bool)
    ensures
        before == site_before(a, b),
{
    a.file.index < b.file.index || (a.file.index == b.file.index && (a.start < b.start || (a.start
        == b.start && a.end < b.end)))
}

/// Whether a list of sites is strictly ascending.
pub open spec fn ascending(list: Seq<AllocationSite>) -> bool {
    forall|i: int, j: int| 0 <= i < j < list.len() ==> site_before(list[i], list[j])
}

/// First position, from `i` on, whose site does not come before `site`.
pub open spec fn rank(list: Seq<AllocationSite>, site: AllocationSite, i: int) -> int
    decreases list.len() - i,
{
    if i < 0 || i >= list.len() || !site_before(list[i], site) {
        i
    } else {
        rank(list, site, i + 1)
    }
}

/// The list with `site` at its place.
pub open spec fn placed(list: Seq<AllocationSite>, site: AllocationSite) -> Seq<AllocationSite> {
    let at = rank(list, site, 0);
    if at < list.len() && list[at] == site {
        list
    } else {
        list.insert(at, site)
    }
}

proof fn rank_splits(list: Seq<AllocationSite>, site: AllocationSite, i: int)
    requires
        0 <= i <= list.len(),
        forall|j: int| 0 <= j < i ==> site_before(#[trigger] list[j], site),
    ensures
        i <= rank(list, site, i) <= list.len(),
        forall|j: int|
            0 <= j < rank(list, site, i) ==> site_before(#[trigger] list[j], site),
        rank(list, site, i) < list.len() ==> !site_before(list[rank(list, site, i)], site),
    decreases list.len() - i,
{
    if i < list.len() && site_before(list[i], site) {
        rank_splits(list, site, i + 1);
    }
}

/// Placing a site keeps a list ascending and adds that site alone.
pub proof fn placing_keeps_order(list: Seq<AllocationSite>, site: AllocationSite)
    requires
        ascending(list),
    ensures
        ascending(placed(list, site)),
        forall|other: AllocationSite|
            placed(list, site).contains(other) <==> list.contains(other) || other == site,
{
    let at = rank(list, site, 0);
    rank_splits(list, site, 0);
    let after = placed(list, site);
    if !(at < list.len() && list[at] == site) {
        assert forall|i: int, j: int| 0 <= i < j < after.len() implies site_before(
            after[i],
            after[j],
        ) by {
            if i < at && j > at {
                assert(site_before(list[i], list[j - 1]));
            } else if i == at {
                if j - 1 > at {
                    assert(site_before(list[at], list[j - 1]));
                }
            } else if j < at {
                assert(site_before(list[i], list[j]));
            } else if i > at {
                assert(site_before(list[i - 1], list[j - 1]));
            }
        }
        assert forall|other: AllocationSite| after.contains(other) <==> list.contains(other)
            || other == site by {
            if after.contains(other) {
                let k = choose|k: int| 0 <= k < after.len() && after[k] == other;
                if k < at {
                    assert(list[k] == other);
                } else if k > at {
                    assert(list[k - 1] == other);
                }
            }
            if list.contains(other) {
                let k = choose|k: int| 0 <= k < list.len() && list[k] == other;
                if k < at {
                    assert(after[k] == other);
                } else {
                    assert(after[k + 1] == other);
                }
            }
            if other == site {
                assert(after[at] == site);
            }
        }
    } else {
        assert(list.contains(site));
    }
}

/// Puts a site at its place in an ordered list, once.
pub fn place(list: &mut Vec<AllocationSite>, site: AllocationSite)
    ensures
        final(list)@ == placed(old(list)@, site),
{
    let mut at: usize = 0;
    while at < list.len() && precedes(list[at], site)
        invariant
            at <= list@.len(),
            list@ == old(list)@,
            rank(list@, site, 0) == rank(list@, site, at as int),
        decreases list@.len() - at,
    {
        at += 1;
    }
    if at < list.len() && list[at] == site {
        return;
    }
    list.insert(at, site);
}

/// All sites of a sequence in order, each once.
pub open spec fn sorted_sites(sites: Seq<AllocationSite>) -> Seq<AllocationSite>
    decreases sites.len(),
{
    if sites.len() == 0 {
        Seq::empty()
    } else {
        placed(sorted_sites(sites.drop_last()), sites.last())
    }
}

/// A sorted list of sites is ascending and holds exactly the given sites.
pub proof fn sorting_is_exact(sites: Seq<AllocationSite>)
    ensures
        ascending(sorted_sites(sites)),
        forall|site: AllocationSite| sorted_sites(sites).contains(site) <==> sites.contains(site),
    decreases sites.len(),
{
    if sites.len() > 0 {
        let rest = sites.drop_last();
        sorting_is_exact(rest);
        placing_keeps_order(sorted_sites(rest), sites.last());
        assert forall|site: AllocationSite| sites.contains(site) <==> rest.contains(site) || site
            == sites.last() by {
            if sites.contains(site) {
                let k = choose|k: int| 0 <= k < sites.len() && sites[k] == site;
                if k < rest.len() {
                    assert(rest[k] == site);
                }
            }
            if rest.contains(site) {
                let k = choose|k: int| 0 <= k < rest.len() && rest[k] == site;
                assert(sites[k] == site);
            }
            if site == sites.last() {
                assert(sites[sites.len() - 1] == site);
            }
        }
    }
}

/// Whether object `a` comes before `b`: by site, then a singleton before
/// many.
pub open spec fn object_before(a: ObjectId, b: ObjectId) -> bool {
    site_before(a.site, b.site) || (a.site == b.site && a.cardinality == Cardinality::Singleton
        && b.cardinality == Cardinality::Many)
}

pub fn object_precedes(a: ObjectId, b: ObjectId) -> (before: bool)
    ensures
        before == object_before(a, b),
{
    precedes(a.site, b.site) || (a.site == b.site && a.cardinality == Cardinality::Singleton
        && b.cardinality == Cardinality::Many)
}

/// Whether a list of objects is strictly ascending.
pub open spec fn ascending_objects(list: Seq<ObjectId>) -> bool {
    forall|i: int, j: int| 0 <= i < j < list.len() ==> object_before(list[i], list[j])
}

/// First position, from `i` on, whose object does not come before `object`.
pub open spec fn object_rank(list: Seq<ObjectId>, object: ObjectId, i: int) -> int
    decreases list.len() - i,
{
    if i < 0 || i >= list.len() || !object_before(list[i], object) {
        i
    } else {
        object_rank(list, object, i + 1)
    }
}

/// The list with `object` at its place.
pub open spec fn placed_object(list: Seq<ObjectId>, object: ObjectId) -> Seq<ObjectId> {
    let at = object_rank(list, object, 0);
    if at < list.len() && list[at] == object {
        list
    } else {
        list.insert(at, object)
    }
}

proof fn object_rank_splits(list: Seq<ObjectId>, object: ObjectId, i: int)
    requires
        0 <= i <= list.len(),
        forall|j: int| 0 <= j < i ==> object_before(#[trigger] list[j], object),
    ensures
        i <= object_rank(list, object, i) <= list.len(),
        forall|j: int|
            0 <= j < object_rank(list, object, i) ==> object_before(#[trigger] list[j], object),
        object_rank(list, object, i) < list.len() ==> !object_before(list[object_rank(list, object, i)], object),
    decreases list.len() - i,
{
    if i < list.len() && object_before(list[i], object) {
        object_rank_splits(list, object, i + 1);
    }
}

/// Placing an object keeps a list ascending and adds that object alone.
pub proof fn placing_object_keeps_order(list: Seq<ObjectId>, object: ObjectId)
    requires
        ascending_objects(list),
    ensures
        ascending_objects(placed_object(list, object)),
        forall|other: ObjectId|
            placed_object(list, object).contains(other) <==> list.contains(other) || other == object,
{
    let at = object_rank(list, object, 0);
    object_rank_splits(list, object, 0);
    let after = placed_object(list, object);
    if !(at < list.len() && list[at] == object) {
        assert forall|i: int, j: int| 0 <= i < j < after.len() implies object_before(
            after[i],
            after[j],
        ) by {
            if i < at && j > at {
                assert(object_before(list[i], list[j - 1]));
            } else if i == at {
                if j - 1 > at {
                    assert(object_before(list[at], list[j - 1]));
                }
            } else if j < at {
                assert(object_before(list[i], list[j]));
            } else if i > at {
                assert(object_before(list[i - 1], list[j - 1]));
            }
        }
        assert forall|other: ObjectId| after.contains(other) <==> list.contains(other)
            || other == object by {
            if after.contains(other) {
                let k = choose|k: int| 0 <= k < after.len() && after[k] == other;
                if k < at {
                    assert(list[k] == other);
                } else if k > at {
                    assert(list[k - 1] == other);
                }
            }
            if list.contains(other) {
                let k = choose|k: int| 0 <= k < list.len() && list[k] == other;
                if k < at {
                    assert(after[k] == other);
                } else {
                    assert(after[k + 1] == other);
                }
            }
            if other == object {
                assert(after[at] == object);
            }
        }
    } else {
        assert(list.contains(object));
    }
}

/// Puts an object at its place in an ordered list, once.
pub fn place_object(list: &mut Vec<ObjectId>, object: ObjectId)
    ensures
        final(list)@ == placed_object(old(list)@, object),
{
    let mut at: usize = 0;
    while at < list.len() && object_precedes(list[at], object)
        invariant
            at <= list@.len(),
            list@ == old(list)@,
            object_rank(list@, object, 0) == object_rank(list@, object, at as int),
        decreases list@.len() - at,
    {
        at += 1;
    }
    if at < list.len() && list[at] == object {
        return;
    }
    list.insert(at, object);
}

/// All objects of a sequence in order, each once.
pub open spec fn sorted_objects(objects: Seq<ObjectId>) -> Seq<ObjectId>
    decreases objects.len(),
{
    if objects.len() == 0 {
        Seq::empty()
    } else {
        placed_object(sorted_objects(objects.drop_last()), objects.last())
    }
}

/// A sorted list of objects is ascending and holds exactly the given objects.
pub proof fn sorting_objects_is_exact(objects: Seq<ObjectId>)
    ensures
        ascending_objects(sorted_objects(objects)),
        forall|object: ObjectId| sorted_objects(objects).contains(object) <==> objects.contains(object),
    decreases objects.len(),
{
    if objects.len() > 0 {
        let rest = objects.drop_last();
        sorting_objects_is_exact(rest);
        placing_object_keeps_order(sorted_objects(rest), objects.last());
        assert forall|object: ObjectId| objects.contains(object) <==> rest.contains(object) || object
            == objects.last() by {
            if objects.contains(object) {
                let k = choose|k: int| 0 <= k < objects.len() && objects[k] == object;
                if k < rest.len() {
                    assert(rest[k] == object);
                }
            }
            if rest.contains(object) {
                let k = choose|k: int| 0 <= k < rest.len() && rest[k] == object;
                assert(objects[k] == object);
            }
            if object == objects.last() {
                assert(objects[objects.len() - 1] == object);
            }
        }
    }
}

/// Whether `a` comes before `b` in character order.
pub open spec fn text_before(a: Seq<char>, b: Seq<char>) -> bool
    decreases a.len(),
{
    if b.len() == 0 {
        false
    } else if a.len() == 0 {
        true
    } else if a[0] != b[0] {
        (a[0] as u32) < (b[0] as u32)
    } else {
        text_before(a.drop_first(), b.drop_first())
    }
}

pub proof fn text_before_irreflexive(a: Seq<char>)
    ensures
        !text_before(a, a),
    decreases a.len(),
{
    if a.len() > 0 {
        text_before_irreflexive(a.drop_first());
    }
}

pub proof fn text_before_transitive(a: Seq<char>, b: Seq<char>, c: Seq<char>)
    requires
        text_before(a, b),
        text_before(b, c),
    ensures
        text_before(a, c),
    decreases a.len(),
{
    if a.len() > 0 && b.len() > 0 && c.len() > 0 && a[0] == b[0] && b[0] == c[0] {
        text_before_transitive(a.drop_first(), b.drop_first(), c.drop_first());
    }
}

pub proof fn text_before_total(a: Seq<char>, b: Seq<char>)
    ensures
        text_before(a, b) || text_before(b, a) || a == b,
    decreases a.len(),
{
    if a.len() > 0 && b.len() > 0 && a[0] == b[0] {
        text_before_total(a.drop_first(), b.drop_first());
        if a.drop_first() == b.drop_first() {
            assert(a =~= seq![a[0]] + a.drop_first());
            assert(b =~= seq![b[0]] + b.drop_first());
        }
    } else if a.len() > 0 && b.len() > 0 {
        char_u32_cast(a[0], a[0] as u32);
        char_u32_cast(b[0], b[0] as u32);
    } else if a.len() == 0 && b.len() == 0 {
        assert(a =~= b);
    }
}

/// Whether `a` comes before `b` in character order.
pub fn text_precedes(a: &str, b: &str) -> (before: bool)
    ensures
        before == text_before(a@, b@),
{
    let a_len: usize = a.unicode_len();
    let b_len: usize = b.unicode_len();
    let mut i: usize = 0;
    assert(a@.skip(0) =~= a@);
    assert(b@.skip(0) =~= b@);
    while i < a_len && i < b_len
        invariant
            i <= a_len,
            i <= b_len,
            a_len == a@.len(),
            b_len == b@.len(),
            text_before(a@, b@) == text_before(a@.skip(i as int), b@.skip(i as int)),
        decreases a_len - i,
    {
        let x: char = a.get_char(i);
        let y: char = b.get_char(i);
        assert(a@.skip(i as int)[0] == x);
        assert(b@.skip(i as int)[0] == y);
        if x != y {
            return (x as u32) < (y as u32);
        }
        assert(a@.skip(i as int).drop_first() =~= a@.skip(i + 1));
        assert(b@.skip(i as int).drop_first() =~= b@.skip(i + 1));
        i += 1;
    }
    i < b_len
}

/// Whether a list of names is strictly ascending.
pub open spec fn ascending_names(list: Seq<Seq<char>>) -> bool {
    forall|i: int, j: int| 0 <= i < j < list.len() ==> text_before(list[i], list[j])
}

/// First position, from `i` on, whose name does not come before `name`.
pub open spec fn name_rank(list: Seq<Seq<char>>, name: Seq<char>, i: int) -> int
    decreases list.len() - i,
{
    if i < 0 || i >= list.len() || !text_before(list[i], name) {
        i
    } else {
        name_rank(list, name, i + 1)
    }
}

/// The list with `name` at its place.
pub open spec fn placed_name(list: Seq<Seq<char>>, name: Seq<char>) -> Seq<Seq<char>> {
    let at = name_rank(list, name, 0);
    if at < list.len() && list[at] == name {
        list
    } else {
        list.insert(at, name)
    }
}

proof fn name_rank_splits(list: Seq<Seq<char>>, name: Seq<char>, i: int)
    requires
        0 <= i <= list.len(),
        forall|j: int| 0 <= j < i ==> text_before(#[trigger] list[j], name),
    ensures
        i <= name_rank(list, name, i) <= list.len(),
        forall|j: int|
            0 <= j < name_rank(list, name, i) ==> text_before(#[trigger] list[j], name),
        name_rank(list, name, i) < list.len() ==> !text_before(list[name_rank(list, name, i)], name),
    decreases list.len() - i,
{
    if i < list.len() && text_before(list[i], name) {
        name_rank_splits(list, name, i + 1);
    }
}

/// Placing a name keeps a list ascending and adds that name alone.
pub proof fn placing_name_keeps_order(list: Seq<Seq<char>>, name: Seq<char>)
    requires
        ascending_names(list),
    ensures
        ascending_names(placed_name(list, name)),
        forall|other: Seq<char>|
            placed_name(list, name).contains(other) <==> list.contains(other) || other == name,
{
    let at = name_rank(list, name, 0);
    name_rank_splits(list, name, 0);
    let after = placed_name(list, name);
    if !(at < list.len() && list[at] == name) {
        if at < list.len() {
            text_before_total(list[at], name);
        }
        assert forall|i: int, j: int| 0 <= i < j < after.len() implies text_before(
            after[i],
            after[j],
        ) by {
            if i < at && j > at {
                assert(text_before(list[i], list[j - 1]));
            } else if i == at {
                if j - 1 > at {
                    assert(text_before(list[at], list[j - 1]));
                    text_before_transitive(name, list[at], list[j - 1]);
                }
            } else if j < at {
                assert(text_before(list[i], list[j]));
            } else if i > at {
                assert(text_before(list[i - 1], list[j - 1]));
            }
        }
        assert forall|other: Seq<char>| after.contains(other) <==> list.contains(other) || other
            == name by {
            if after.contains(other) {
                let k = choose|k: int| 0 <= k < after.len() && after[k] == other;
                if k < at {
                    assert(list[k] == other);
                } else if k > at {
                    assert(list[k - 1] == other);
                }
            }
            if list.contains(other) {
                let k = choose|k: int| 0 <= k < list.len() && list[k] == other;
                if k < at {
                    assert(after[k] == other);
                } else {
                    assert(after[k + 1] == other);
                }
            }
            if other == name {
                assert(after[at] == name);
            }
        }
    } else {
        assert(list.contains(name));
    }
}

/// Puts a name at its place in an ordered list, once.
pub fn place_name(list: &mut Vec<String>, name: String)
    ensures
        texts(final(list)@) == placed_name(texts(old(list)@), name@),
{
    let mut at: usize = 0;
    while at < list.len() && text_precedes(list[at].as_str(), name.as_str())
        invariant
            at <= list@.len(),
            list@ == old(list)@,
            name_rank(texts(list@), name@, 0) == name_rank(texts(list@), name@, at as int),
        decreases list@.len() - at,
    {
        at += 1;
    }
    if at < list.len() && same_text(list[at].as_str(), name.as_str()) {
        return;
    }
    list.insert(at, name);
    assert(texts(list@) =~= texts(old(list)@).insert(at as int, name@));
}

/// Puts a word at its place in an ordered list, once.
pub fn place_word(list: &mut Vec<&'static str>, word: &'static str)
    ensures
        words(final(list)@) == placed_name(words(old(list)@), word@),
{
    let mut at: usize = 0;
    while at < list.len() && text_precedes(list[at], word)
        invariant
            at <= list@.len(),
            list@ == old(list)@,
            name_rank(words(list@), word@, 0) == name_rank(words(list@), word@, at as int),
        decreases list@.len() - at,
    {
        at += 1;
    }
    if at < list.len() && same_text(list[at], word) {
        return;
    }
    list.insert(at, word);
    assert(words(list@) =~= words(old(list)@).insert(at as int, word@));
}

} // verus!
