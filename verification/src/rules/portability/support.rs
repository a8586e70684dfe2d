//! Fact helpers shared by the portability rules.
use crate::frontend::{FileBindingFacts, ProjectIndex, QualifiedCall};
use crate::text::{copy_texts, has_text, texts};
use vstd::prelude::*;

verus! {

/// Position of the first dot, from position `i` on; the end when there is
/// none.
pub open spec fn dot_from(text: Seq<char>, i: int) -> int
    decreases text.len() - i,
{
    if i < 0 || i >= text.len() || text[i] == '.' {
        i
    } else {
        dot_from(text, i + 1)
    }
}

/// The part of a dotted path before its first dot.
pub open spec fn first_segment(path: Seq<char>) -> Seq<char> {
    path.take(dot_from(path, 0))
}

fn head_of(path: &str) -> (head: String)
    ensures
        head@ == first_segment(path@),
{
    let len: usize = path.unicode_len();
    let mut i: usize = 0;
    while i < len && path.get_char(i) != '.'
        invariant
            i <= len,
            len == path@.len(),
            dot_from(path@, 0) == dot_from(path@, i as int),
        decreases len - i,
    {
        i += 1;
    }
    assert(path@.take(i as int) =~= path@.subrange(0, i as int));
    path.substring_char(0, i).to_owned()
}

/// Whether no candidate can name a symbol of the project.
pub open spec fn all_external(index: ProjectIndex, candidates: Seq<String>) -> bool {
    forall|i: int|
        0 <= i < candidates.len() ==> !texts(index.module_tree@).contains(
            first_segment((#[trigger] candidates[i])@),
        )
}

fn are_external(index: &ProjectIndex, candidates: &Vec<String>) -> (all: bool)
    ensures
        all == all_external(*index, candidates@),
{
    let mut i: usize = 0;
    while i < candidates.len()
        invariant
            i <= candidates@.len(),
            forall|j: int|
                0 <= j < i ==> !texts(index.module_tree@).contains(
                    first_segment((#[trigger] candidates@[j])@),
                ),
        decreases candidates@.len() - i,
    {
        if has_text(&index.module_tree, head_of(candidates[i].as_str()).as_str()) {
            return false;
        }
        i += 1;
    }
    true
}

/// The dotted path a plain dotted chain stands for, through the imports.
pub open spec fn resolved_chain(parts: Option<Vec<String>>, bindings: FileBindingFacts) -> Option<
    Seq<char>,
> {
    match parts {
        Some(list) => bindings.spec_resolve_parts(texts(list@)),
        None => None,
    }
}

pub fn resolve_chain(parts: &Option<Vec<String>>, bindings: &FileBindingFacts) -> (path: Option<
    String,
>)
    ensures
        match path {
            Some(found) => resolved_chain(*parts, *bindings) == Some(found@),
            None => resolved_chain(*parts, *bindings) is None,
        },
{
    match parts {
        Some(list) => bindings.resolve_parts(list),
        None => None,
    }
}

/// Dotted targets of a call to a function outside the project.
pub open spec fn external_targets(
    index: ProjectIndex,
    call: QualifiedCall,
    bindings: FileBindingFacts,
) -> Seq<Seq<char>> {
    if call.candidates@.len() == 0 {
        match resolved_chain(call.callee_dotted, bindings) {
            Some(target) => seq![target],
            None => Seq::empty(),
        }
    } else if all_external(index, call.candidates@) {
        texts(call.candidates@)
    } else {
        Seq::empty()
    }
}

/// Canonical dotted targets of a call to a (potential) external-library
/// function.
///
/// Candidates are preferred when present, but only when no candidate can name
/// a project symbol. Without candidates the file's conservative binding facts
/// resolve the callee's dotted chain.
pub fn external_call_targets(
    index: &ProjectIndex,
    call: &QualifiedCall,
    bindings: &FileBindingFacts,
) -> (targets: Vec<String>)
    ensures
        texts(targets@) == external_targets(*index, *call, *bindings),
{
    if call.candidates.len() == 0 {
        match resolve_chain(&call.callee_dotted, bindings) {
            Some(target) => {
                let targets: Vec<String> = vec![target];
                assert(texts(targets@) =~= seq![target@]);
                targets
            },
            None => {
                let targets: Vec<String> = Vec::new();
                assert(texts(targets@) =~= Seq::empty());
                targets
            },
        }
    } else if are_external(index, &call.candidates) {
        copy_texts(&call.candidates)
    } else {
        let targets: Vec<String> = Vec::new();
        assert(texts(targets@) =~= Seq::empty());
        targets
    }
}

/// The one target that a call has, however it resolves.
pub open spec fn sole_target(targets: Seq<Seq<char>>) -> Option<Seq<char>> {
    if targets.len() > 0 && forall|i: int|
        0 <= i < targets.len() ==> #[trigger] targets[i] == targets[0] {
        Some(targets[0])
    } else {
        None
    }
}

pub fn find_sole_target(targets: Vec<String>) -> (target: Option<String>)
    ensures
        match target {
            Some(found) => sole_target(texts(targets@)) == Some(found@),
            None => sole_target(texts(targets@)) is None,
        },
{
    if targets.len() == 0 {
        return None;
    }
    let ghost list = texts(targets@);
    let mut i: usize = 1;
    while i < targets.len()
        invariant
            1 <= i <= targets@.len(),
            list == texts(targets@),
            forall|j: int| 0 <= j < i ==> #[trigger] list[j] == list[0],
        decreases targets@.len() - i,
    {
        if !crate::text::same_text(targets[i].as_str(), targets[0].as_str()) {
            assert(list[i as int] != list[0]);
            return None;
        }
        assert(list[i as int] == list[0]);
        i += 1;
    }
    assert(list[0] == targets@[0]@);
    Some(targets[0].clone())
}

} // verus!
