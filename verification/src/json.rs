//! Machine-readable evidence values.
use crate::numbers::{finite, is_finite, Bound, Num};
use crate::ordered::{
    ascending_names, name_rank, placed_name, placing_name_keeps_order, text_before,
    text_before_irreflexive, text_precedes,
};
use crate::text::{same_text, texts};
use vstd::prelude::*;

verus! {

/// A JSON value. Object members are kept in the order they were written.
pub enum Json {
    Null,
    Flag(bool),
    Whole(i128),
    /// A double, by its bit pattern.
    Double(u64),
    Text(String),
    List(Vec<Json>),
    Object(Vec<(String, Json)>),
}

/// What a [`Json`] value says.
#[verifier::ext_equal]
pub enum JsonView {
    Null,
    Flag(bool),
    Whole(int),
    Double(u64),
    Text(Seq<char>),
    List(Seq<JsonView>),
    Object(Seq<(Seq<char>, JsonView)>),
}

impl View for Json {
    type V = JsonView;

    open spec fn view(&self) -> JsonView {
        self.meaning()
    }
}

impl Json {
    /// What the value says, member by member.
    pub open spec fn meaning(self) -> JsonView
        decreases self,
    {
        match self {
            Json::Null => JsonView::Null,
            Json::Flag(flag) => JsonView::Flag(flag),
            Json::Whole(n) => JsonView::Whole(n as int),
            Json::Double(bits) => JsonView::Double(bits),
            Json::Text(text) => JsonView::Text(text@),
            Json::List(items) => JsonView::List(
                Seq::new(
                    items@.len(),
                    |i: int|
                        if 0 <= i < items@.len() {
                            items@[i].meaning()
                        } else {
                            JsonView::Null
                        },
                ),
            ),
            Json::Object(members) => JsonView::Object(
                Seq::new(
                    members@.len(),
                    |i: int|
                        if 0 <= i < members@.len() {
                            (members@[i].0@, members@[i].1.meaning())
                        } else {
                            (Seq::empty(), JsonView::Null)
                        },
                ),
            ),
        }
    }
}

proof fn list_meaning(items: Vec<Json>)
    ensures
        Json::List(items)@ == JsonView::List(json_items(items@)),
{
    reveal_with_fuel(Json::meaning, 2);
    assert(Json::List(items)@->List_0 =~= json_items(items@));
}

pub proof fn object_meaning(members: Vec<(String, Json)>)
    ensures
        Json::Object(members)@ == JsonView::Object(json_members(members@)),
{
    reveal_with_fuel(Json::meaning, 2);
    assert(Json::Object(members)@->Object_0 =~= json_members(members@));
}

/// The members of a JSON object.
pub open spec fn json_members(members: Seq<(String, Json)>) -> Seq<(Seq<char>, JsonView)> {
    Seq::new(members.len(), |i: int| (members[i].0@, members[i].1@))
}

/// The values of a list of JSON values.
pub open spec fn json_items(items: Seq<Json>) -> Seq<JsonView> {
    Seq::new(items.len(), |i: int| items[i]@)
}

/// A JSON list of texts.
pub open spec fn text_list(list: Seq<Seq<char>>) -> JsonView {
    JsonView::List(Seq::new(list.len(), |i: int| JsonView::Text(list[i])))
}

/// A JSON text.
pub fn json_text(text: &str) -> (value: Json)
    ensures
        value@ == JsonView::Text(text@),
{
    Json::Text(text.to_owned())
}

/// A JSON count.
pub fn json_size(n: usize) -> (value: Json)
    ensures
        value@ == JsonView::Whole(n as int),
{
    Json::Whole(n as i128)
}

/// A JSON list of the given values.
pub fn json_list(items: Vec<Json>) -> (value: Json)
    ensures
        value@ == JsonView::List(json_items(items@)),
{
    proof {
        list_meaning(items);
    }
    Json::List(items)
}

/// A JSON list of texts.
pub fn json_texts(list: &Vec<String>) -> (value: Json)
    ensures
        value@ == text_list(texts(list@)),
{
    let mut items: Vec<Json> = Vec::new();
    let mut i: usize = 0;
    while i < list.len()
        invariant
            i <= list@.len(),
            items@.len() == i,
            forall|j: int|
                0 <= j < i ==> (#[trigger] items@[j])@ == JsonView::Text(list@[j]@),
        decreases list@.len() - i,
    {
        items.push(Json::Text(list[i].clone()));
        i += 1;
    }
    let value = Json::List(items);
    assert(value@->List_0 =~= text_list(texts(list@))->List_0);
    value
}

/// A JSON object with one member.
pub fn json_object1(key: &str, value: Json) -> (object: Json)
    ensures
        object@ == JsonView::Object(seq![(key@, value@)]),
{
    let object = Json::Object(vec![(key.to_owned(), value)]);
    assert(object@->Object_0 =~= seq![(key@, value@)]);
    object
}

/// A JSON object with two members.
pub fn json_object2(key0: &str, value0: Json, key1: &str, value1: Json) -> (object: Json)
    ensures
        object@ == JsonView::Object(seq![(key0@, value0@), (key1@, value1@)]),
{
    let object = Json::Object(vec![(key0.to_owned(), value0), (key1.to_owned(), value1)]);
    assert(object@->Object_0 =~= seq![(key0@, value0@), (key1@, value1@)]);
    object
}

/// A JSON object with three members.
pub fn json_object3(
    key0: &str,
    value0: Json,
    key1: &str,
    value1: Json,
    key2: &str,
    value2: Json,
) -> (object: Json)
    ensures
        object@ == JsonView::Object(
            seq![(key0@, value0@), (key1@, value1@), (key2@, value2@)],
        ),
{
    let object = Json::Object(
        vec![
            (key0.to_owned(), value0),
            (key1.to_owned(), value1),
            (key2.to_owned(), value2),
        ],
    );
    assert(object@->Object_0 =~= seq![(key0@, value0@), (key1@, value1@), (key2@, value2@)]);
    object
}

/// A JSON object with four members.
pub fn json_object4(
    key0: &str,
    value0: Json,
    key1: &str,
    value1: Json,
    key2: &str,
    value2: Json,
    key3: &str,
    value3: Json,
) -> (object: Json)
    ensures
        object@ == JsonView::Object(
            seq![
                (key0@, value0@),
                (key1@, value1@),
                (key2@, value2@),
                (key3@, value3@),
            ],
        ),
{
    let object = Json::Object(
        vec![
            (key0.to_owned(), value0),
            (key1.to_owned(), value1),
            (key2.to_owned(), value2),
            (key3.to_owned(), value3),
        ],
    );
    assert(object@->Object_0 =~= seq![
        (key0@, value0@),
        (key1@, value1@),
        (key2@, value2@),
        (key3@, value3@),
    ]);
    object
}

/// A JSON object with five members.
pub fn json_object5(
    key0: &str,
    value0: Json,
    key1: &str,
    value1: Json,
    key2: &str,
    value2: Json,
    key3: &str,
    value3: Json,
    key4: &str,
    value4: Json,
) -> (object: Json)
    ensures
        object@ == JsonView::Object(
            seq![
                (key0@, value0@),
                (key1@, value1@),
                (key2@, value2@),
                (key3@, value3@),
                (key4@, value4@),
            ],
        ),
{
    let object = Json::Object(
        vec![
            (key0.to_owned(), value0),
            (key1.to_owned(), value1),
            (key2.to_owned(), value2),
            (key3.to_owned(), value3),
            (key4.to_owned(), value4),
        ],
    );
    assert(object@->Object_0 =~= seq![
        (key0@, value0@),
        (key1@, value1@),
        (key2@, value2@),
        (key3@, value3@),
        (key4@, value4@),
    ]);
    object
}

/// A double as JSON; values that JSON cannot hold are null.
pub open spec fn double_view(bits: u64) -> JsonView {
    if is_finite(bits) {
        JsonView::Double(bits)
    } else {
        JsonView::Null
    }
}

pub fn json_double(bits: u64) -> (value: Json)
    ensures
        value@ == double_view(bits),
{
    if finite(bits) {
        Json::Double(bits)
    } else {
        Json::Null
    }
}

/// One end of a numeric fact as JSON: null when the end is open.
pub open spec fn bound_view(bound: Option<Bound<'_>>) -> JsonView {
    match bound {
        Some(value) => double_view(value.pattern()),
        None => JsonView::Null,
    }
}

fn json_bound(bound: Option<Bound<'_>>) -> (value: Json)
    ensures
        value@ == bound_view(bound),
{
    match bound {
        Some(end) => json_double(end.bits()),
        None => Json::Null,
    }
}

/// The bounds of a numeric fact: null when nothing bounds it.
pub open spec fn bounds_view(num: Num) -> JsonView {
    if num.spec_bounded() {
        JsonView::Object(
            seq![
                ("lower"@, bound_view(num.spec_lower_bound())),
                ("upper"@, bound_view(num.spec_upper_bound())),
            ],
        )
    } else {
        JsonView::Null
    }
}

/// `{"lower": .., "upper": ..}` of a bounded number, null otherwise.
pub fn num_bounds_json(num: &Num) -> (value: Json)
    ensures
        value@ == bounds_view(*num),
{
    if num.is_bounded() {
        json_object2(
            "lower",
            json_bound(num.lower_bound()),
            "upper",
            json_bound(num.upper_bound()),
        )
    } else {
        Json::Null
    }
}

/// A copy of a JSON value.
pub fn copy_json(value: &Json) -> (copy: Json)
    ensures
        copy@ == value@,
    decreases value,
{
    match value {
        Json::Null => Json::Null,
        Json::Flag(flag) => Json::Flag(*flag),
        Json::Whole(n) => Json::Whole(*n),
        Json::Double(bits) => Json::Double(*bits),
        Json::Text(text) => Json::Text(text.clone()),
        Json::List(items) => {
            let mut out: Vec<Json> = Vec::new();
            let mut i: usize = 0;
            while i < items.len()
                invariant
                    i <= items@.len(),
                    out@.len() == i,
                    value is List,
                    *items == value->List_0,
                    forall|j: int| 0 <= j < i ==> (#[trigger] out@[j])@ == items@[j]@,
                decreases items@.len() - i,
            {
                assert(decreases_to!(*items => items[i as int]));
                assert(decreases_to!(*value => value->List_0));
                out.push(copy_json(&items[i]));
                i += 1;
            }
            proof {
                list_meaning(out);
                list_meaning(*items);
                assert(json_items(out@) =~= json_items(items@));
            }
            Json::List(out)
        },
        Json::Object(members) => {
            let mut out: Vec<(String, Json)> = Vec::new();
            let mut i: usize = 0;
            while i < members.len()
                invariant
                    i <= members@.len(),
                    out@.len() == i,
                    value is Object,
                    *members == value->Object_0,
                    forall|j: int|
                        0 <= j < i ==> (#[trigger] out@[j]).0@ == members@[j].0@ && out@[j].1@
                            == members@[j].1@,
                decreases members@.len() - i,
            {
                assert(decreases_to!(*members => members[i as int]));
                assert(decreases_to!(*value => value->Object_0));
                assert(decreases_to!(members[i as int] => members[i as int].1));
                out.push((members[i].0.clone(), copy_json(&members[i].1)));
                i += 1;
            }
            proof {
                object_meaning(out);
                object_meaning(*members);
                assert(json_members(out@) =~= json_members(members@));
            }
            Json::Object(out)
        },
    }
}

/// Evidence of one diagnostic: values by name.
pub struct Evidence {
    entries: Vec<(String, Json)>,
}

/// What evidence holds.
pub type EvidenceView = Map<Seq<char>, JsonView>;

/// The map that a list of entries writes, later entries winning.
pub open spec fn written(entries: Seq<(String, Json)>) -> EvidenceView
    decreases entries.len(),
{
    if entries.len() == 0 {
        Map::empty()
    } else {
        written(entries.drop_last()).insert(entries.last().0@, entries.last().1@)
    }
}

proof fn overwrite(entries: Seq<(String, Json)>, i: int, entry: (String, Json))
    requires
        0 <= i < entries.len(),
        entries[i].0@ == entry.0@,
        forall|j: int| i < j < entries.len() ==> (#[trigger] entries[j]).0@ != entry.0@,
    ensures
        written(entries.update(i, entry)) == written(entries).insert(entry.0@, entry.1@),
    decreases entries.len(),
{
    let after = entries.update(i, entry);
    if i == entries.len() - 1 {
        assert(after.drop_last() =~= entries.drop_last());
        assert(written(after) =~= written(entries).insert(entry.0@, entry.1@));
    } else {
        overwrite(entries.drop_last(), i, entry);
        assert(after.drop_last() =~= entries.drop_last().update(i, entry));
        assert(written(after) =~= written(entries).insert(entry.0@, entry.1@));
    }
}

impl View for Evidence {
    type V = EvidenceView;

    closed spec fn view(&self) -> EvidenceView {
        written(self.entries@)
    }
}

impl Evidence {
    /// Evidence without entries.
    pub fn new() -> (evidence: Evidence)
        ensures
            evidence@ == EvidenceView::empty(),
    {
        Evidence { entries: Vec::new() }
    }

    /// Sets the value of `key`.
    pub fn insert(&mut self, key: &str, value: Json)
        ensures
            final(self)@ == old(self)@.insert(key@, value@),
    {
        let mut i: usize = self.entries.len();
        while i > 0
            invariant
                i <= self.entries@.len(),
                self.entries@ == old(self).entries@,
                forall|j: int|
                    i <= j < self.entries@.len() ==> (#[trigger] self.entries@[j]).0@ != key@,
            decreases i,
        {
            i -= 1;
            if same_text(self.entries[i].0.as_str(), key) {
                let entry = (key.to_owned(), value);
                proof {
                    overwrite(self.entries@, i as int, entry);
                }
                self.entries.set(i, entry);
                return;
            }
        }
        self.entries.push((key.to_owned(), value));
        assert(self.entries@.drop_last() =~= old(self).entries@);
    }

    /// The entries by name: each name once, in character order.
    pub fn entries(&self) -> (entries: Vec<&(String, Json)>)
        ensures
            ascending_names(names_of(entries@)),
            reads(entries@, self@),
    {
        let mut entries: Vec<&(String, Json)> = Vec::new();
        let mut i: usize = 0;
        assert(names_of(entries@) =~= Seq::empty());
        assert(self.entries@.take(0) =~= Seq::empty());
        while i < self.entries.len()
            invariant
                i <= self.entries@.len(),
                ascending_names(names_of(entries@)),
                reads(entries@, written(self.entries@.take(i as int))),
            decreases self.entries@.len() - i,
        {
            let entry: &(String, Json) = &self.entries[i];
            proof {
                assert(self.entries@.take(i + 1).drop_last() =~= self.entries@.take(i as int));
                assert(self.entries@.take(i + 1).last() == *entry);
            }
            place_entry(&mut entries, entry, Ghost(written(self.entries@.take(i as int))));
            i += 1;
        }
        assert(self.entries@.take(i as int) =~= self.entries@);
        entries
    }
}

/// The names of a list of entries.
pub open spec fn names_of(entries: Seq<&(String, Json)>) -> Seq<Seq<char>> {
    Seq::new(entries.len(), |i: int| entries[i].0@)
}

/// Whether a list of entries holds just what `map` holds.
pub open spec fn reads(entries: Seq<&(String, Json)>, map: EvidenceView) -> bool {
    &&& forall|name: Seq<char>|
        #[trigger] map.contains_key(name) <==> names_of(entries).contains(name)
    &&& forall|i: int|
        0 <= i < entries.len() ==> map[(#[trigger] entries[i]).0@] == entries[i].1@
}

/// Puts an entry at its place, over an entry of the same name.
fn place_entry<'e>(
    entries: &mut Vec<&'e (String, Json)>,
    entry: &'e (String, Json),
    Ghost(map): Ghost<EvidenceView>,
)
    requires
        ascending_names(names_of(old(entries)@)),
        reads(old(entries)@, map),
    ensures
        ascending_names(names_of(final(entries)@)),
        reads(final(entries)@, map.insert(entry.0@, entry.1@)),
{
    let ghost before = entries@;
    let ghost names = names_of(before);
    let mut at: usize = 0;
    while at < entries.len() && text_precedes(entries[at].0.as_str(), entry.0.as_str())
        invariant
            at <= entries@.len(),
            entries@ == before,
            names == names_of(before),
            name_rank(names, entry.0@, 0) == name_rank(names, entry.0@, at as int),
        decreases entries@.len() - at,
    {
        at += 1;
    }
    let ghost after_map = map.insert(entry.0@, entry.1@);
    proof {
        placing_name_keeps_order(names, entry.0@);
    }
    if at < entries.len() && same_text(entries[at].0.as_str(), entry.0.as_str()) {
        entries.set(at, entry);
        proof {
            assert(names_of(entries@) =~= names);
            assert forall|i: int| 0 <= i < entries@.len() implies after_map[(
            #[trigger] entries@[i]).0@] == entries@[i].1@ by {
                if i != at {
                    assert(entries@[i] == before[i]);
                    text_before_irreflexive(entry.0@);
                    assert(names[i] != names[at as int]) by {
                        if i < at {
                            assert(text_before(names[i], names[at as int]));
                        } else {
                            assert(text_before(names[at as int], names[i]));
                        }
                    }
                }
            }
            assert(names[at as int] == entry.0@);
            assert forall|name: Seq<char>| #[trigger] after_map.contains_key(name) <==> names_of(
                entries@,
            ).contains(name) by {
                assert(map.contains_key(name) <==> names.contains(name));
                assert(placed_name(names, entry.0@).contains(name) <==> names.contains(name)
                    || name == entry.0@);
            }
        }
    } else {
        entries.insert(at, entry);
        proof {
            assert(names_of(entries@) =~= names.insert(at as int, entry.0@));
            assert(names_of(entries@) =~= placed_name(names, entry.0@));
            assert forall|name: Seq<char>| #[trigger] after_map.contains_key(name) <==> names_of(
                entries@,
            ).contains(name) by {
                assert(map.contains_key(name) <==> names.contains(name));
                assert(placed_name(names, entry.0@).contains(name) <==> names.contains(name)
                    || name == entry.0@);
            }
            assert forall|i: int| 0 <= i < entries@.len() implies after_map[(
            #[trigger] entries@[i]).0@] == entries@[i].1@ by {
                if i < at {
                    assert(entries@[i] == before[i]);
                    assert(text_before(names_of(entries@)[i], names_of(entries@)[at as int]));
                    text_before_irreflexive(entry.0@);
                } else if i > at {
                    assert(entries@[i] == before[i - 1]);
                    assert(text_before(names_of(entries@)[at as int], names_of(entries@)[i]));
                    text_before_irreflexive(entry.0@);
                }
            }
        }
    }
}

/// `base` with the members of `object` written over it.
pub open spec fn merged(
    base: EvidenceView,
    members: Seq<(Seq<char>, JsonView)>,
) -> EvidenceView
    decreases members.len(),
{
    if members.len() == 0 {
        base
    } else {
        merged(base, members.drop_last()).insert(members.last().0, members.last().1)
    }
}

/// `base` with the members of a JSON object written over it; a value that is
/// no object adds nothing.
pub open spec fn merged_with(base: EvidenceView, value: JsonView) -> EvidenceView {
    match value {
        JsonView::Object(members) => merged(base, members),
        _ => base,
    }
}

/// Merges the members of a JSON object into `evidence`.
pub fn merge_evidence(evidence: &mut Evidence, value: &Json)
    ensures
        final(evidence)@ == merged_with(old(evidence)@, value@),
{
    if let Json::Object(members) = value {
        let ghost list = value@->Object_0;
        proof {
            object_meaning(*members);
        }
        let mut i: usize = 0;
        assert(list.take(0) =~= Seq::empty());
        while i < members.len()
            invariant
                i <= members@.len(),
                value == Json::Object(*members),
                list == value@->Object_0,
                list == json_members(members@),
                evidence@ == merged(old(evidence)@, list.take(i as int)),
            decreases members@.len() - i,
        {
            proof {
                assert(list.take(i + 1).drop_last() =~= list.take(i as int));
                assert(list[i as int] == (members@[i as int].0@, members@[i as int].1@));
            }
            evidence.insert(members[i].0.as_str(), copy_json(&members[i].1));
            i += 1;
        }
        assert(list.take(i as int) =~= list);
    }
}

} // verus!
