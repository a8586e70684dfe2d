//! Curated knowledge about the Manim API.
use crate::text::{cat3, same_text, texts};
use vstd::prelude::*;

verus! {

#[derive(Clone, Copy, Debug, PartialEq, Eq, Structural)]
pub enum SymbolKind {
    Scene,
    Mobject,
    Vmobject,
    Animation,
    Camera,
    Function,
    Constant,
    Method,
}

/// What an animation class accepts as its target.
#[derive(Clone, Copy, Debug, PartialEq, Eq, Structural)]
pub enum AcceptedTarget {
    Mobject,
    Vmobject,
    Any,
}

/// Curated effects of a symbol; `None` where nothing is curated.
#[derive(Clone, Copy, Debug, PartialEq, Eq, Structural)]
pub struct EffectFacts {
    pub registers_updater: Option<bool>,
    pub per_frame_callback: Option<bool>,
}

/// Renderers a symbol works under.
#[derive(Clone, Copy, Debug, PartialEq, Eq, Structural)]
pub struct RendererCompat {
    pub cairo: Option<bool>,
    pub opengl: Option<bool>,
}

/// One curated symbol.
pub struct SymbolEntry {
    /// Canonical dotted id.
    pub id: String,
    pub kind: SymbolKind,
    /// Canonical ids of the base classes, in order.
    pub bases: Vec<String>,
    pub returns_self: Option<bool>,
    pub accepted_target: Option<AcceptedTarget>,
    pub effects: Option<EffectFacts>,
    pub renderer: Option<RendererCompat>,
}

/// A name that the `manim` package exports.
pub struct ExportEntry {
    pub name: String,
    /// Canonical id the name stands for.
    pub id: String,
}

/// Declared semantics of the SVG mobject cache.
pub struct SvgCacheFacts {
    pub process_global: Option<bool>,
    pub unbounded: Option<bool>,
    pub copies_on_hit: Option<bool>,
    pub keyed_by: Vec<String>,
}

/// Declared parallel TeX compilation of a fork.
pub struct TexParallelCompile {
    pub entry_points: Vec<String>,
    pub same_key_coalesced: Option<bool>,
    pub cache_hit_short_circuits: Option<bool>,
    pub in_flight_blocks_cairo_fork: Option<bool>,
}

/// A loaded knowledge profile.
pub struct KnowledgeProfile {
    /// Curated symbols, one entry per id.
    pub symbols: Vec<SymbolEntry>,
    pub exports: Vec<ExportEntry>,
    pub svg_cache: Option<SvgCacheFacts>,
    pub tex_parallel_compile: Option<TexParallelCompile>,
    /// Whether the profile declares fork fast paths.
    pub fork_capabilities: bool,
}

/// The first entry with id `id`.
pub open spec fn entry_in(symbols: Seq<SymbolEntry>, id: Seq<char>) -> Option<SymbolEntry>
    decreases symbols.len(),
{
    if symbols.len() == 0 {
        None
    } else if symbols[0].id@ == id {
        Some(symbols[0])
    } else {
        entry_in(symbols.drop_first(), id)
    }
}

/// The id an export stands for.
pub open spec fn export_in(exports: Seq<ExportEntry>, name: Seq<char>) -> Option<Seq<char>>
    decreases exports.len(),
{
    if exports.len() == 0 {
        None
    } else if exports[0].name@ == name {
        Some(exports[0].id@)
    } else {
        export_in(exports.drop_first(), name)
    }
}

impl KnowledgeProfile {
    pub open spec fn spec_symbol(&self, id: Seq<char>) -> Option<SymbolEntry> {
        entry_in(self.symbols@, id)
    }

    /// The curated entry of a canonical id.
    pub fn symbol(&self, id: &str) -> (entry: Option<&SymbolEntry>)
        ensures
            match entry {
                Some(found) => self.spec_symbol(id@) == Some(*found),
                None => self.spec_symbol(id@) is None,
            },
    {
        let mut i: usize = 0;
        assert(self.symbols@.skip(0) =~= self.symbols@);
        while i < self.symbols.len()
            invariant
                i <= self.symbols@.len(),
                self.spec_symbol(id@) == entry_in(self.symbols@.skip(i as int), id@),
            decreases self.symbols@.len() - i,
        {
            assert(self.symbols@.skip(i as int).drop_first() =~= self.symbols@.skip(i + 1));
            if same_text(self.symbols[i].id.as_str(), id) {
                return Some(&self.symbols[i]);
            }
            i += 1;
        }
        None
    }

    pub open spec fn spec_resolve_export(&self, name: Seq<char>) -> Option<SymbolEntry> {
        match export_in(self.exports@, name) {
            Some(id) => self.spec_symbol(id),
            None => None,
        }
    }

    /// The curated entry an exported name stands for.
    pub fn resolve_export(&self, name: &str) -> (entry: Option<&SymbolEntry>)
        ensures
            match entry {
                Some(found) => self.spec_resolve_export(name@) == Some(*found),
                None => self.spec_resolve_export(name@) is None,
            },
    {
        let mut i: usize = 0;
        assert(self.exports@.skip(0) =~= self.exports@);
        while i < self.exports.len()
            invariant
                i <= self.exports@.len(),
                export_in(self.exports@, name@) == export_in(self.exports@.skip(i as int), name@),
            decreases self.exports@.len() - i,
        {
            assert(self.exports@.skip(i as int).drop_first() =~= self.exports@.skip(i + 1));
            if same_text(self.exports[i].name.as_str(), name) {
                return self.symbol(self.exports[i].id.as_str());
            }
            i += 1;
        }
        None
    }
}

/// Position of the last `.` of a name, -1 without one.
pub open spec fn last_dot(name: Seq<char>) -> int
    decreases name.len(),
{
    if name.len() == 0 {
        -1
    } else if name.last() == '.' {
        name.len() - 1
    } else {
        last_dot(name.drop_last())
    }
}

proof fn last_dot_stable(name: Seq<char>, end: int)
    requires
        0 <= end <= name.len(),
        forall|j: int| end <= j < name.len() ==> name[j] != '.',
    ensures
        last_dot(name) == last_dot(name.take(end)),
    decreases name.len(),
{
    if end == name.len() {
        assert(name.take(end) =~= name);
    } else {
        assert(name.drop_last().take(end) =~= name.take(end));
        last_dot_stable(name.drop_last(), end);
    }
}

proof fn last_dot_bounds(name: Seq<char>)
    ensures
        -1 <= last_dot(name) < name.len(),
        last_dot(name) >= 0 ==> name[last_dot(name)] == '.',
    decreases name.len(),
{
    if name.len() > 0 && name.last() != '.' {
        last_dot_bounds(name.drop_last());
    }
}

/// The part of a dotted name before its last `.`, when it has one.
pub open spec fn owner_of(name: Seq<char>) -> Option<Seq<char>> {
    if last_dot(name) < 0 {
        None
    } else {
        Some(name.take(last_dot(name)))
    }
}

/// The part of a dotted name behind its last `.`.
pub open spec fn member_of(name: Seq<char>) -> Seq<char> {
    name.skip(last_dot(name) + 1)
}

/// Splits a name at its last `.`.
pub fn rsplit_dot(name: &str) -> (parts: Option<(String, String)>)
    ensures
        match parts {
            Some((owner, member)) => owner_of(name@) == Some(owner@) && member@ == member_of(
                name@,
            ),
            None => owner_of(name@) is None,
        },
{
    let len: usize = name.unicode_len();
    let mut i: usize = len;
    proof {
        last_dot_bounds(name@);
    }
    while i > 0
        invariant
            i <= len,
            len == name@.len(),
            forall|j: int| i <= j < len ==> name@[j] != '.',
        decreases i,
    {
        if name.get_char(i - 1) == '.' {
            proof {
                last_dot_stable(name@, i as int);
                assert(name@.take(i as int).last() == '.');
                assert(last_dot(name@) == i - 1);
                assert(name@.skip(i as int) =~= name@.subrange(i as int, len as int));
                assert(name@.take(i - 1) =~= name@.subrange(0, i - 1));
            }
            return Some(
                (name.substring_char(0, i - 1).to_owned(), name.substring_char(i, len).to_owned()),
            );
        }
        i -= 1;
    }
    proof {
        last_dot_stable(name@, 0);
        assert(name@.take(0).len() == 0);
    }
    None
}

/// Number of curated symbols whose id is not among `seen`.
pub open spec fn unseen(symbols: Seq<SymbolEntry>, seen: Seq<Seq<char>>) -> nat
    decreases symbols.len(),
{
    if symbols.len() == 0 {
        0
    } else {
        unseen(symbols.drop_last(), seen) + if seen.contains(symbols.last().id@) {
            0nat
        } else {
            1nat
        }
    }
}

/// One more id seen never leaves more symbols unseen, and leaves fewer when
/// it is new and curated.
pub proof fn unseen_shrinks(symbols: Seq<SymbolEntry>, seen: Seq<Seq<char>>, id: Seq<char>)
    ensures
        unseen(symbols, seen.push(id)) <= unseen(symbols, seen),
        !seen.contains(id) && entry_in(symbols, id) is Some ==> unseen(symbols, seen.push(id))
            < unseen(symbols, seen),
    decreases symbols.len(),
{
    if symbols.len() > 0 {
        let rest = symbols.drop_last();
        let last = symbols.last();
        unseen_shrinks(rest, seen, id);
        assert(seen.push(id).contains(last.id@) == (seen.contains(last.id@) || last.id@ == id))
            by {
            if seen.contains(last.id@) {
                let k = choose|k: int| 0 <= k < seen.len() && seen[k] == last.id@;
                assert(seen.push(id)[k] == last.id@);
            }
            if last.id@ == id {
                assert(seen.push(id)[seen.len() as int] == id);
            }
        }
        entry_in_prefix(symbols, id);
    }
}

proof fn entry_in_prefix(symbols: Seq<SymbolEntry>, id: Seq<char>)
    requires
        symbols.len() > 0,
    ensures
        entry_in(symbols, id) is Some ==> symbols.last().id@ == id || entry_in(
            symbols.drop_last(),
            id,
        ) is Some,
    decreases symbols.len(),
{
    if symbols.len() == 1 {
        assert(entry_in(symbols.drop_first(), id) is None);
    } else if symbols[0].id@ != id {
        entry_in_prefix(symbols.drop_first(), id);
        assert(symbols.drop_first().drop_last() =~= symbols.drop_last().drop_first());
    }
}

/// `class.method`.
pub open spec fn qualified(class: Seq<char>, method: Seq<char>) -> Seq<char> {
    class + "."@ + method
}

/// Base classes that processing `class` adds to the search.
pub open spec fn bases_of(profile: KnowledgeProfile, class: Seq<char>) -> Seq<Seq<char>> {
    match profile.spec_symbol(class) {
        Some(entry) => texts(entry.bases@),
        None => Seq::empty(),
    }
}

/// Whether `id` is curated; with `methods_only`, curated as a method.
pub open spec fn declared(profile: KnowledgeProfile, id: Seq<char>, methods_only: bool) -> bool {
    match profile.spec_symbol(id) {
        Some(entry) => !methods_only || entry.kind == SymbolKind::Method,
        None => false,
    }
}

/// Breadth-first search for the class that declares `method`: `queue` holds
/// the classes in the order they are met, those before `cursor` are done.
pub open spec fn search(
    profile: KnowledgeProfile,
    queue: Seq<Seq<char>>,
    cursor: int,
    method: Seq<char>,
    methods_only: bool,
) -> Option<Seq<char>>
    decreases unseen(profile.symbols@, queue.take(cursor)), queue.len() - cursor,
    when 0 <= cursor
    via search_ends
{
    if cursor >= queue.len() {
        None
    } else if queue.take(cursor).contains(queue[cursor]) {
        search(profile, queue, cursor + 1, method, methods_only)
    } else if declared(profile, qualified(queue[cursor], method), methods_only) {
        Some(qualified(queue[cursor], method))
    } else {
        search(
            profile,
            queue + bases_of(profile, queue[cursor]),
            cursor + 1,
            method,
            methods_only,
        )
    }
}

#[via_fn]
proof fn search_ends(
    profile: KnowledgeProfile,
    queue: Seq<Seq<char>>,
    cursor: int,
    method: Seq<char>,
    methods_only: bool,
) {
    if cursor < queue.len() {
        let more = queue + bases_of(profile, queue[cursor]);
        assert(queue.take(cursor + 1) =~= queue.take(cursor).push(queue[cursor]));
        assert(more.take(cursor + 1) =~= queue.take(cursor).push(queue[cursor]));
        unseen_shrinks(profile.symbols@, queue.take(cursor), queue[cursor]);
        if profile.spec_symbol(queue[cursor]) is None {
            assert(more =~= queue);
        }
    }
}

/// The curated id a candidate stands for: the candidate itself, or the
/// method as the nearest curated base class declares it.
pub open spec fn resolved(profile: KnowledgeProfile, candidate: Seq<char>) -> Option<Seq<char>> {
    if profile.spec_symbol(candidate) is Some {
        Some(candidate)
    } else {
        match owner_of(candidate) {
            Some(class) => search(profile, seq![class], 0, member_of(candidate), false),
            None => None,
        }
    }
}

/// The curated method a candidate stands for.
pub open spec fn resolved_method(profile: KnowledgeProfile, candidate: Seq<char>) -> Option<
    Seq<char>,
> {
    if profile.spec_symbol(candidate) is Some {
        if declared(profile, candidate, true) {
            Some(candidate)
        } else {
            None
        }
    } else {
        match owner_of(candidate) {
            Some(class) => search(profile, seq![class], 0, member_of(candidate), true),
            None => None,
        }
    }
}

/// Resolves one candidate id to a curated knowledge entry.
///
/// A direct hit wins; otherwise a `Class.method` candidate is resolved by
/// walking the curated base-class chain breadth first. `None` when the
/// candidate reaches no curated symbol.
pub fn resolve_symbol<'p>(profile: &'p KnowledgeProfile, candidate: &str) -> (found: Option<
    (String, &'p SymbolEntry),
>)
    ensures
        match found {
            Some((id, entry)) => resolved(*profile, candidate@) == Some(id@)
                && profile.spec_symbol(id@) == Some(*entry),
            None => resolved(*profile, candidate@) is None,
        },
{
    if let Some(entry) = profile.symbol(candidate) {
        return Some((candidate.to_owned(), entry));
    }
    match rsplit_dot(candidate) {
        Some((class, method)) => search_bases(profile, class, method.as_str(), false),
        None => None,
    }
}

/// Resolves one candidate id to a curated method, as [`resolve_symbol`]
/// does for every kind of symbol.
pub fn resolve_method_symbol<'p>(profile: &'p KnowledgeProfile, candidate: &str) -> (found: Option<
    (String, &'p SymbolEntry),
>)
    ensures
        match found {
            Some((id, entry)) => resolved_method(*profile, candidate@) == Some(id@)
                && profile.spec_symbol(id@) == Some(*entry),
            None => resolved_method(*profile, candidate@) is None,
        },
{
    if let Some(entry) = profile.symbol(candidate) {
        if entry.kind == SymbolKind::Method {
            return Some((candidate.to_owned(), entry));
        }
        return None;
    }
    match rsplit_dot(candidate) {
        Some((class, method)) => search_bases(profile, class, method.as_str(), true),
        None => None,
    }
}

fn search_bases<'p>(
    profile: &'p KnowledgeProfile,
    class: String,
    method: &str,
    methods_only: bool,
) -> (found: Option<(String, &'p SymbolEntry)>)
    ensures
        match found {
            Some((id, entry)) => search(*profile, seq![class@], 0, method@, methods_only) == Some(
                id@,
            ) && profile.spec_symbol(id@) == Some(*entry),
            None => search(*profile, seq![class@], 0, method@, methods_only) is None,
        },
{
    let ghost goal = search(*profile, seq![class@], 0, method@, methods_only);
    let mut queue: Vec<String> = vec![class];
    let mut cursor: usize = 0;
    assert(texts(queue@) =~= seq![class@]);
    while cursor < queue.len()
        invariant
            cursor <= queue@.len(),
            search(*profile, texts(queue@), cursor as int, method@, methods_only) == goal,
            goal == search(*profile, seq![class@], 0, method@, methods_only),
        decreases
                unseen(profile.symbols@, texts(queue@).take(cursor as int)),
                queue@.len() - cursor,
    {
        let current: String = queue[cursor].clone();
        let ghost before = texts(queue@);
        let ghost seen = before.take(cursor as int);
        proof {
            assert(before[cursor as int] == current@);
            assert(before.take(cursor + 1) =~= seen.push(current@));
            unseen_shrinks(profile.symbols@, seen, current@);
        }
        if visited(&queue, cursor) {
            cursor += 1;
            continue;
        }
        let name: String = cat3(current.as_str(), ".", method);
        if let Some(entry) = profile.symbol(name.as_str()) {
            if !methods_only || entry.kind == SymbolKind::Method {
                return Some((name, entry));
            }
        }
        cursor += 1;
        match profile.symbol(current.as_str()) {
            None => {
                assert(before + bases_of(*profile, current@) =~= before);
            },
            Some(class_entry) => {
                extend_texts(&mut queue, &class_entry.bases);
                assert(texts(queue@).take(cursor as int) =~= seen.push(current@));
            },
        }
    }
    None
}

/// Whether the item at `cursor` occurs earlier in the list.
fn visited(list: &Vec<String>, cursor: usize) -> (found: bool)
    requires
        cursor < list@.len(),
    ensures
        found == texts(list@).take(cursor as int).contains(list@[cursor as int]@),
{
    let mut i: usize = 0;
    while i < cursor
        invariant
            i <= cursor < list@.len(),
            forall|j: int| 0 <= j < i ==> (#[trigger] list@[j])@ != list@[cursor as int]@,
        decreases cursor - i,
    {
        if same_text(list[i].as_str(), list[cursor].as_str()) {
            assert(texts(list@).take(cursor as int)[i as int] == list@[cursor as int]@);
            return true;
        }
        i += 1;
    }
    false
}

fn extend_texts(list: &mut Vec<String>, more: &Vec<String>)
    ensures
        texts(final(list)@) == texts(old(list)@) + texts(more@),
{
    let mut i: usize = 0;
    assert(texts(list@) =~= texts(old(list)@) + texts(more@).take(0));
    while i < more.len()
        invariant
            i <= more@.len(),
            texts(list@) == texts(old(list)@) + texts(more@).take(i as int),
        decreases more@.len() - i,
    {
        let ghost before = list@;
        list.push(more[i].clone());
        assert(texts(list@) =~= texts(before).push(more@[i as int]@));
        assert(texts(more@).take(i + 1) =~= texts(more@).take(i as int).push(more@[i as int]@));
        i += 1;
        assert(texts(list@) =~= texts(old(list)@) + texts(more@).take(i as int));
    }
    assert(texts(more@).take(i as int) =~= texts(more@));
}

} // verus!
