//! What the lookups give back: the first entry that fits, or nothing when none
//! does.
use crate::ast::{lambda_from, FunctionFact, LambdaFact};
use crate::cost::{
    call_cost_from, geometry_from, hot_entry, totals_from, transform_from, CallCost, CostFacts,
    GeometryFact, HotCall, PlayTotals, TransformSize,
};
use crate::frontend::{
    bindings_from, class_in, import_from, keyword_in, last_index_at, role_from, CallArgument,
    ClassRecord, FileBindingFacts, FunctionRecord, ImportBinding, MethodRecord, ProjectIndex,
    QualifiedCall, StatementFact,
};
use crate::knowledge::{entry_in, export_in, ExportEntry, KnowledgeProfile, SymbolEntry};
use crate::literals::{asset_from, markup_from, tex_from, AssetFact, MarkupFact, TexFact};
use crate::rules::lifecycle::builder_rules::{event_at, play_of_group};
use crate::rules::lifecycle::constructors::super_call_from;
use crate::rules::lifecycle::structure::method_from;
use crate::rules::performance::traced_path::object_from;
use crate::semantic::{
    alias_in, function_return_in, intervals_in, lambda_return_in, object_in, scene_in,
    scene_state_in, snapshot_in, FunctionReturn, HeapAlias, HeapEntry, LambdaReturn, ObjectId,
    ObjectOwnership, PlayFact, SceneLifecycle, SceneState, StateSnapshot, SuperCallFact,
    TracedEvent,
};
use crate::source::{site_of, AllocationSite, FileId, TextRange};
use vstd::prelude::*;

verus! {

/// A curated symbol is the first entry with its id.
pub proof fn symbols_are_found(list: Seq<SymbolEntry>, id: Seq<char>, k: int)
    requires
        0 <= k <= list.len(),
        k < list.len() ==> list[k].id@ == id,
        forall|j: int| 0 <= j < k ==> !((#[trigger] list[j]).id@ == id),
    ensures
        entry_in(list, id) == if k < list.len() {
            Some(list[k])
        } else {
            None
        },
    decreases list.len(),
{
    if list.len() > 0 && k > 0 {
        let rest = list.drop_first();
        assert forall|j: int| 0 <= j < k - 1 implies !((#[trigger] rest[j]).id@ == id) by {
            assert(rest[j] == list[j + 1]);
        }
        assert(!(list[0].id@ == id));
        symbols_are_found(rest, id, k - 1);
    }
}

/// An export is the first entry with its name.
pub proof fn exports_are_found(list: Seq<ExportEntry>, name: Seq<char>, k: int)
    requires
        0 <= k <= list.len(),
        k < list.len() ==> list[k].name@ == name,
        forall|j: int| 0 <= j < k ==> !((#[trigger] list[j]).name@ == name),
    ensures
        export_in(list, name) == if k < list.len() {
            Some(list[k].id@)
        } else {
            None
        },
    decreases list.len(),
{
    if list.len() > 0 && k > 0 {
        let rest = list.drop_first();
        assert forall|j: int| 0 <= j < k - 1 implies !((#[trigger] rest[j]).name@ == name) by {
            assert(rest[j] == list[j + 1]);
        }
        assert(!(list[0].name@ == name));
        exports_are_found(rest, name, k - 1);
    }
}

/// A keyword argument is the first that is passed under its name.
pub proof fn keywords_are_found(list: Seq<CallArgument>, name: Seq<char>, k: int)
    requires
        0 <= k <= list.len(),
        k < list.len() ==> list[k].keyword is Some && list[k].keyword->0@ == name,
        forall|j: int| 0 <= j < k ==> !((#[trigger] list[j]).keyword is Some && (#[trigger] list[j]).keyword->0@ == name),
    ensures
        keyword_in(list, name) == if k < list.len() {
            Some(list[k])
        } else {
            None
        },
    decreases list.len(),
{
    if list.len() > 0 && k > 0 {
        let rest = list.drop_first();
        assert forall|j: int| 0 <= j < k - 1 implies !((#[trigger] rest[j]).keyword is Some && (#[trigger] rest[j]).keyword->0@ == name) by {
            assert(rest[j] == list[j + 1]);
        }
        assert(!(list[0].keyword is Some && list[0].keyword->0@ == name));
        keywords_are_found(rest, name, k - 1);
    }
}

/// A class of the project is the first record with its id.
pub proof fn classes_are_found(list: Seq<ClassRecord>, id: Seq<char>, k: int)
    requires
        0 <= k <= list.len(),
        k < list.len() ==> list[k].id@ == id,
        forall|j: int| 0 <= j < k ==> !((#[trigger] list[j]).id@ == id),
    ensures
        class_in(list, id) == if k < list.len() {
            Some(list[k])
        } else {
            None
        },
    decreases list.len(),
{
    if list.len() > 0 && k > 0 {
        let rest = list.drop_first();
        assert forall|j: int| 0 <= j < k - 1 implies !((#[trigger] rest[j]).id@ == id) by {
            assert(rest[j] == list[j + 1]);
        }
        assert(!(list[0].id@ == id));
        classes_are_found(rest, id, k - 1);
    }
}

/// What is known of a per-frame call is the first entry about it.
pub proof fn hot_calls_are_found(list: Seq<HotCall>, call_index: int, k: int)
    requires
        0 <= k <= list.len(),
        k < list.len() ==> list[k].call_index == call_index,
        forall|j: int| 0 <= j < k ==> !((#[trigger] list[j]).call_index == call_index),
    ensures
        hot_entry(list, call_index) == if k < list.len() {
            Some(list[k])
        } else {
            None
        },
    decreases list.len(),
{
    if list.len() > 0 && k > 0 {
        let rest = list.drop_first();
        assert forall|j: int| 0 <= j < k - 1 implies !((#[trigger] rest[j]).call_index == call_index) by {
            assert(rest[j] == list[j + 1]);
        }
        assert(!(list[0].call_index == call_index));
        hot_calls_are_found(rest, call_index, k - 1);
    }
}

/// The state of an object is that of the first entry with its id.
pub proof fn objects_are_found(list: Seq<HeapEntry>, id: ObjectId, k: int)
    requires
        0 <= k <= list.len(),
        k < list.len() ==> list[k].id == id,
        forall|j: int| 0 <= j < k ==> !((#[trigger] list[j]).id == id),
    ensures
        object_in(list, id) == if k < list.len() {
            Some(list[k].state)
        } else {
            None
        },
    decreases list.len(),
{
    if list.len() > 0 && k > 0 {
        let rest = list.drop_first();
        assert forall|j: int| 0 <= j < k - 1 implies !((#[trigger] rest[j]).id == id) by {
            assert(rest[j] == list[j + 1]);
        }
        assert(!(list[0].id == id));
        objects_are_found(rest, id, k - 1);
    }
}

/// An object stands for what the first alias from it says, or for itself.
pub proof fn aliases_are_found(list: Seq<HeapAlias>, id: ObjectId, k: int)
    requires
        0 <= k <= list.len(),
        k < list.len() ==> list[k].from == id,
        forall|j: int| 0 <= j < k ==> !((#[trigger] list[j]).from == id),
    ensures
        alias_in(list, id) == if k < list.len() {
            list[k].to
        } else {
            id
        },
    decreases list.len(),
{
    if list.len() > 0 && k > 0 {
        let rest = list.drop_first();
        assert forall|j: int| 0 <= j < k - 1 implies !((#[trigger] rest[j]).from == id) by {
            assert(rest[j] == list[j + 1]);
        }
        assert(!(list[0].from == id));
        aliases_are_found(rest, id, k - 1);
    }
}

/// The state of a scene is the first with its number.
pub proof fn scene_states_are_found(list: Seq<SceneState>, scene: usize, k: int)
    requires
        0 <= k <= list.len(),
        k < list.len() ==> list[k].scene == scene,
        forall|j: int| 0 <= j < k ==> !((#[trigger] list[j]).scene == scene),
    ensures
        scene_state_in(list, scene) == if k < list.len() {
            Some(list[k])
        } else {
            None
        },
    decreases list.len(),
{
    if list.len() > 0 && k > 0 {
        let rest = list.drop_first();
        assert forall|j: int| 0 <= j < k - 1 implies !((#[trigger] rest[j]).scene == scene) by {
            assert(rest[j] == list[j + 1]);
        }
        assert(!(list[0].scene == scene));
        scene_states_are_found(rest, scene, k - 1);
    }
}

/// A scene is the first with its name.
pub proof fn scenes_are_found(list: Seq<SceneLifecycle>, name: Seq<char>, k: int)
    requires
        0 <= k <= list.len(),
        k < list.len() ==> list[k].qualified_name@ == name,
        forall|j: int| 0 <= j < k ==> !((#[trigger] list[j]).qualified_name@ == name),
    ensures
        scene_in(list, name) == if k < list.len() {
            Some(list[k])
        } else {
            None
        },
    decreases list.len(),
{
    if list.len() > 0 && k > 0 {
        let rest = list.drop_first();
        assert forall|j: int| 0 <= j < k - 1 implies !((#[trigger] rest[j]).qualified_name@ == name) by {
            assert(rest[j] == list[j + 1]);
        }
        assert(!(list[0].qualified_name@ == name));
        scenes_are_found(rest, name, k - 1);
    }
}

/// What a function returns is what the first entry of its name says.
pub proof fn function_returns_are_found(list: Seq<FunctionReturn>, name: Seq<char>, k: int)
    requires
        0 <= k <= list.len(),
        k < list.len() ==> list[k].name@ == name,
        forall|j: int| 0 <= j < k ==> !((#[trigger] list[j]).name@ == name),
    ensures
        function_return_in(list, name) == if k < list.len() {
            Some(list[k].fact)
        } else {
            None
        },
    decreases list.len(),
{
    if list.len() > 0 && k > 0 {
        let rest = list.drop_first();
        assert forall|j: int| 0 <= j < k - 1 implies !((#[trigger] rest[j]).name@ == name) by {
            assert(rest[j] == list[j + 1]);
        }
        assert(!(list[0].name@ == name));
        function_returns_are_found(rest, name, k - 1);
    }
}

/// What a lambda returns is what the first entry at its site says.
pub proof fn lambda_returns_are_found(list: Seq<LambdaReturn>, site: AllocationSite, k: int)
    requires
        0 <= k <= list.len(),
        k < list.len() ==> list[k].site == site,
        forall|j: int| 0 <= j < k ==> !((#[trigger] list[j]).site == site),
    ensures
        lambda_return_in(list, site) == if k < list.len() {
            Some(list[k].fact)
        } else {
            None
        },
    decreases list.len(),
{
    if list.len() > 0 && k > 0 {
        let rest = list.drop_first();
        assert forall|j: int| 0 <= j < k - 1 implies !((#[trigger] rest[j]).site == site) by {
            assert(rest[j] == list[j + 1]);
        }
        assert(!(list[0].site == site));
        lambda_returns_are_found(rest, site, k - 1);
    }
}

/// The intervals of an object are those of its first record.
pub proof fn intervals_are_found(list: Seq<ObjectOwnership>, object: ObjectId, k: int)
    requires
        0 <= k <= list.len(),
        k < list.len() ==> list[k].object == object,
        forall|j: int| 0 <= j < k ==> !((#[trigger] list[j]).object == object),
    ensures
        intervals_in(list, object) == if k < list.len() {
            list[k].intervals@
        } else {
            Seq::empty()
        },
    decreases list.len(),
{
    if list.len() > 0 && k > 0 {
        let rest = list.drop_first();
        assert forall|j: int| 0 <= j < k - 1 implies !((#[trigger] rest[j]).object == object) by {
            assert(rest[j] == list[j + 1]);
        }
        assert(!(list[0].object == object));
        intervals_are_found(rest, object, k - 1);
    }
}

proof fn lambdas_are_found_from(list: Seq<LambdaFact>, range: TextRange, i: int, k: int)
    requires
        0 <= i <= k <= list.len(),
        k < list.len() ==> list[k].range == range,
        forall|j: int| i <= j < k ==> !((#[trigger] list[j]).range == range),
    ensures
        lambda_from(list, range, i) == if k < list.len() {
            Some(list[k])
        } else {
            None
        },
    decreases list.len() - i,
{
    if i < k {
        assert(!(list[i].range == range));
        lambdas_are_found_from(list, range, i + 1, k);
    }
}

/// A lambda is the first at its range.
pub proof fn lambdas_are_found(list: Seq<LambdaFact>, range: TextRange, k: int)
    requires
        0 <= k <= list.len(),
        k < list.len() ==> list[k].range == range,
        forall|j: int| 0 <= j < k ==> !((#[trigger] list[j]).range == range),
    ensures
        lambda_from(list, range, 0) == if k < list.len() {
            Some(list[k])
        } else {
            None
        },
{
    lambdas_are_found_from(list, range, 0, k);
}

proof fn functions_are_found_from(list: Seq<FunctionFact>, range: TextRange, i: int, k: int)
    requires
        0 <= i <= k <= list.len(),
        k < list.len() ==> list[k].range == range,
        forall|j: int| i <= j < k ==> !((#[trigger] list[j]).range == range),
    ensures
        crate::ast::function_from(list, range, i) == if k < list.len() {
            Some(list[k])
        } else {
            None
        },
    decreases list.len() - i,
{
    if i < k {
        assert(!(list[i].range == range));
        functions_are_found_from(list, range, i + 1, k);
    }
}

/// A function is the first at its range.
pub proof fn functions_are_found(list: Seq<FunctionFact>, range: TextRange, k: int)
    requires
        0 <= k <= list.len(),
        k < list.len() ==> list[k].range == range,
        forall|j: int| 0 <= j < k ==> !((#[trigger] list[j]).range == range),
    ensures
        crate::ast::function_from(list, range, 0) == if k < list.len() {
            Some(list[k])
        } else {
            None
        },
{
    functions_are_found_from(list, range, 0, k);
}

proof fn call_costs_are_found_from(list: Seq<CallCost>, call_index: usize, i: int, k: int)
    requires
        0 <= i <= k <= list.len(),
        k < list.len() ==> list[k].call_index == call_index,
        forall|j: int| i <= j < k ==> !((#[trigger] list[j]).call_index == call_index),
    ensures
        call_cost_from(list, call_index, i) == if k < list.len() {
            Some(list[k])
        } else {
            None
        },
    decreases list.len() - i,
{
    if i < k {
        assert(!(list[i].call_index == call_index));
        call_costs_are_found_from(list, call_index, i + 1, k);
    }
}

/// The cost of a call is the first entry about it.
pub proof fn call_costs_are_found(list: Seq<CallCost>, call_index: usize, k: int)
    requires
        0 <= k <= list.len(),
        k < list.len() ==> list[k].call_index == call_index,
        forall|j: int| 0 <= j < k ==> !((#[trigger] list[j]).call_index == call_index),
    ensures
        call_cost_from(list, call_index, 0) == if k < list.len() {
            Some(list[k])
        } else {
            None
        },
{
    call_costs_are_found_from(list, call_index, 0, k);
}

proof fn geometry_is_found_from(list: Seq<GeometryFact>, call_index: usize, i: int, k: int)
    requires
        0 <= i <= k <= list.len(),
        k < list.len() ==> list[k].call_index == call_index,
        forall|j: int| i <= j < k ==> !((#[trigger] list[j]).call_index == call_index),
    ensures
        geometry_from(list, call_index, i) == if k < list.len() {
            Some(list[k])
        } else {
            None
        },
    decreases list.len() - i,
{
    if i < k {
        assert(!(list[i].call_index == call_index));
        geometry_is_found_from(list, call_index, i + 1, k);
    }
}

/// The geometry of a call is the first entry about it.
pub proof fn geometry_is_found(list: Seq<GeometryFact>, call_index: usize, k: int)
    requires
        0 <= k <= list.len(),
        k < list.len() ==> list[k].call_index == call_index,
        forall|j: int| 0 <= j < k ==> !((#[trigger] list[j]).call_index == call_index),
    ensures
        geometry_from(list, call_index, 0) == if k < list.len() {
            Some(list[k])
        } else {
            None
        },
{
    geometry_is_found_from(list, call_index, 0, k);
}

proof fn transform_sizes_are_found_from(list: Seq<TransformSize>, scene: Seq<char>, play: AllocationSite, animation: AllocationSite, i: int, k: int)
    requires
        0 <= i <= k <= list.len(),
        k < list.len() ==> list[k].scene@ == scene && list[k].play == play && list[k].animation == animation,
        forall|j: int| i <= j < k ==> !((#[trigger] list[j]).scene@ == scene && (#[trigger] list[j]).play == play && (#[trigger] list[j]).animation == animation),
    ensures
        transform_from(list, scene, play, animation, i) == if k < list.len() {
            Some(list[k])
        } else {
            None
        },
    decreases list.len() - i,
{
    if i < k {
        assert(!(list[i].scene@ == scene && list[i].play == play && list[i].animation == animation));
        transform_sizes_are_found_from(list, scene, play, animation, i + 1, k);
    }
}

/// The sizes of a transform are the first of its scene, play, and animation.
pub proof fn transform_sizes_are_found(list: Seq<TransformSize>, scene: Seq<char>, play: AllocationSite, animation: AllocationSite, k: int)
    requires
        0 <= k <= list.len(),
        k < list.len() ==> list[k].scene@ == scene && list[k].play == play && list[k].animation == animation,
        forall|j: int| 0 <= j < k ==> !((#[trigger] list[j]).scene@ == scene && (#[trigger] list[j]).play == play && (#[trigger] list[j]).animation == animation),
    ensures
        transform_from(list, scene, play, animation, 0) == if k < list.len() {
            Some(list[k])
        } else {
            None
        },
{
    transform_sizes_are_found_from(list, scene, play, animation, 0, k);
}

proof fn totals_are_found_from(list: Seq<PlayTotals>, scene: Seq<char>, plays: Seq<usize>, i: int, k: int)
    requires
        0 <= i <= k <= list.len(),
        k < list.len() ==> list[k].scene@ == scene && list[k].plays@ == plays,
        forall|j: int| i <= j < k ==> !((#[trigger] list[j]).scene@ == scene && (#[trigger] list[j]).plays@ == plays),
    ensures
        totals_from(list, scene, plays, i) == if k < list.len() {
            Some(list[k])
        } else {
            None
        },
    decreases list.len() - i,
{
    if i < k {
        assert(!(list[i].scene@ == scene && list[i].plays@ == plays));
        totals_are_found_from(list, scene, plays, i + 1, k);
    }
}

/// The totals of some plays are the first of that scene and those plays.
pub proof fn totals_are_found(list: Seq<PlayTotals>, scene: Seq<char>, plays: Seq<usize>, k: int)
    requires
        0 <= k <= list.len(),
        k < list.len() ==> list[k].scene@ == scene && list[k].plays@ == plays,
        forall|j: int| 0 <= j < k ==> !((#[trigger] list[j]).scene@ == scene && (#[trigger] list[j]).plays@ == plays),
    ensures
        totals_from(list, scene, plays, 0) == if k < list.len() {
            Some(list[k])
        } else {
            None
        },
{
    totals_are_found_from(list, scene, plays, 0, k);
}

proof fn allocations_are_found_from(list: Seq<HeapEntry>, site: AllocationSite, i: int, k: int)
    requires
        0 <= i <= k <= list.len(),
        k < list.len() ==> list[k].id.site == site,
        forall|j: int| i <= j < k ==> !((#[trigger] list[j]).id.site == site),
    ensures
        object_from(list, site, i) == if k < list.len() {
            Some(list[k].id)
        } else {
            None
        },
    decreases list.len() - i,
{
    if i < k {
        assert(!(list[i].id.site == site));
        allocations_are_found_from(list, site, i + 1, k);
    }
}

/// The object that a site allocates is the first entry from it.
pub proof fn allocations_are_found(list: Seq<HeapEntry>, site: AllocationSite, k: int)
    requires
        0 <= k <= list.len(),
        k < list.len() ==> list[k].id.site == site,
        forall|j: int| 0 <= j < k ==> !((#[trigger] list[j]).id.site == site),
    ensures
        object_from(list, site, 0) == if k < list.len() {
            Some(list[k].id)
        } else {
            None
        },
{
    allocations_are_found_from(list, site, 0, k);
}

proof fn methods_are_found_from(list: Seq<MethodRecord>, name: Seq<char>, i: int, k: int)
    requires
        0 <= i <= k <= list.len(),
        k < list.len() ==> list[k].name@ == name,
        forall|j: int| i <= j < k ==> !((#[trigger] list[j]).name@ == name),
    ensures
        method_from(list, name, i) == if k < list.len() {
            Some(list[k].range)
        } else {
            None
        },
    decreases list.len() - i,
{
    if i < k {
        assert(!(list[i].name@ == name));
        methods_are_found_from(list, name, i + 1, k);
    }
}

/// A method is the first of its name.
pub proof fn methods_are_found(list: Seq<MethodRecord>, name: Seq<char>, k: int)
    requires
        0 <= k <= list.len(),
        k < list.len() ==> list[k].name@ == name,
        forall|j: int| 0 <= j < k ==> !((#[trigger] list[j]).name@ == name),
    ensures
        method_from(list, name, 0) == if k < list.len() {
            Some(list[k].range)
        } else {
            None
        },
{
    methods_are_found_from(list, name, 0, k);
}

proof fn super_calls_are_found_from(list: Seq<SuperCallFact>, method: Seq<char>, i: int, k: int)
    requires
        0 <= i <= k <= list.len(),
        k < list.len() ==> list[k].method@ == method,
        forall|j: int| i <= j < k ==> !((#[trigger] list[j]).method@ == method),
    ensures
        super_call_from(list, method, i) == if k < list.len() {
            Some(list[k].presence)
        } else {
            None
        },
    decreases list.len() - i,
{
    if i < k {
        assert(!(list[i].method@ == method));
        super_calls_are_found_from(list, method, i + 1, k);
    }
}

/// Whether a method calls the one it overrides is what its first entry says.
pub proof fn super_calls_are_found(list: Seq<SuperCallFact>, method: Seq<char>, k: int)
    requires
        0 <= k <= list.len(),
        k < list.len() ==> list[k].method@ == method,
        forall|j: int| 0 <= j < k ==> !((#[trigger] list[j]).method@ == method),
    ensures
        super_call_from(list, method, 0) == if k < list.len() {
            Some(list[k].presence)
        } else {
            None
        },
{
    super_calls_are_found_from(list, method, 0, k);
}

proof fn tex_facts_are_found_from(list: Seq<TexFact>, site: AllocationSite, i: int, k: int)
    requires
        0 <= i <= k <= list.len(),
        k < list.len() ==> list[k].site == site,
        forall|j: int| i <= j < k ==> !((#[trigger] list[j]).site == site),
    ensures
        tex_from(list, site, i) == if k < list.len() {
            Some(list[k])
        } else {
            None
        },
    decreases list.len() - i,
{
    if i < k {
        assert(!(list[i].site == site));
        tex_facts_are_found_from(list, site, i + 1, k);
    }
}

/// The TeX facts of a literal are the first at its site.
pub proof fn tex_facts_are_found(list: Seq<TexFact>, site: AllocationSite, k: int)
    requires
        0 <= k <= list.len(),
        k < list.len() ==> list[k].site == site,
        forall|j: int| 0 <= j < k ==> !((#[trigger] list[j]).site == site),
    ensures
        tex_from(list, site, 0) == if k < list.len() {
            Some(list[k])
        } else {
            None
        },
{
    tex_facts_are_found_from(list, site, 0, k);
}

proof fn markup_facts_are_found_from(list: Seq<MarkupFact>, site: AllocationSite, i: int, k: int)
    requires
        0 <= i <= k <= list.len(),
        k < list.len() ==> list[k].site == site,
        forall|j: int| i <= j < k ==> !((#[trigger] list[j]).site == site),
    ensures
        markup_from(list, site, i) == if k < list.len() {
            Some(list[k])
        } else {
            None
        },
    decreases list.len() - i,
{
    if i < k {
        assert(!(list[i].site == site));
        markup_facts_are_found_from(list, site, i + 1, k);
    }
}

/// The markup facts of a literal are the first at its site.
pub proof fn markup_facts_are_found(list: Seq<MarkupFact>, site: AllocationSite, k: int)
    requires
        0 <= k <= list.len(),
        k < list.len() ==> list[k].site == site,
        forall|j: int| 0 <= j < k ==> !((#[trigger] list[j]).site == site),
    ensures
        markup_from(list, site, 0) == if k < list.len() {
            Some(list[k])
        } else {
            None
        },
{
    markup_facts_are_found_from(list, site, 0, k);
}

proof fn asset_facts_are_found_from(list: Seq<AssetFact>, site: AllocationSite, i: int, k: int)
    requires
        0 <= i <= k <= list.len(),
        k < list.len() ==> list[k].site == site,
        forall|j: int| i <= j < k ==> !((#[trigger] list[j]).site == site),
    ensures
        asset_from(list, site, i) == if k < list.len() {
            Some(list[k])
        } else {
            None
        },
    decreases list.len() - i,
{
    if i < k {
        assert(!(list[i].site == site));
        asset_facts_are_found_from(list, site, i + 1, k);
    }
}

/// The asset facts of a literal are the first at its site.
pub proof fn asset_facts_are_found(list: Seq<AssetFact>, site: AllocationSite, k: int)
    requires
        0 <= k <= list.len(),
        k < list.len() ==> list[k].site == site,
        forall|j: int| 0 <= j < k ==> !((#[trigger] list[j]).site == site),
    ensures
        asset_from(list, site, 0) == if k < list.len() {
            Some(list[k])
        } else {
            None
        },
{
    asset_facts_are_found_from(list, site, 0, k);
}

proof fn roles_are_found_from(list: Seq<StatementFact>, site: AllocationSite, i: int, k: int)
    requires
        0 <= i <= k <= list.len(),
        k < list.len() ==> list[k].call == site,
        forall|j: int| i <= j < k ==> !((#[trigger] list[j]).call == site),
    ensures
        role_from(list, site, i) == if k < list.len() {
            Some(list[k].role)
        } else {
            None
        },
    decreases list.len() - i,
{
    if i < k {
        assert(!(list[i].call == site));
        roles_are_found_from(list, site, i + 1, k);
    }
}

/// The role of a call in its statement is the first at its site.
pub proof fn roles_are_found(list: Seq<StatementFact>, site: AllocationSite, k: int)
    requires
        0 <= k <= list.len(),
        k < list.len() ==> list[k].call == site,
        forall|j: int| 0 <= j < k ==> !((#[trigger] list[j]).call == site),
    ensures
        role_from(list, site, 0) == if k < list.len() {
            Some(list[k].role)
        } else {
            None
        },
{
    roles_are_found_from(list, site, 0, k);
}

proof fn imports_are_found_from(list: Seq<ImportBinding>, name: Seq<char>, i: int, k: int)
    requires
        0 <= i <= k <= list.len(),
        k < list.len() ==> list[k].name@ == name,
        forall|j: int| i <= j < k ==> !((#[trigger] list[j]).name@ == name),
    ensures
        import_from(list, name, i) == if k < list.len() {
            Some(list[k].target@)
        } else {
            None
        },
    decreases list.len() - i,
{
    if i < k {
        assert(!(list[i].name@ == name));
        imports_are_found_from(list, name, i + 1, k);
    }
}

/// An import is the first that binds its name.
pub proof fn imports_are_found(list: Seq<ImportBinding>, name: Seq<char>, k: int)
    requires
        0 <= k <= list.len(),
        k < list.len() ==> list[k].name@ == name,
        forall|j: int| 0 <= j < k ==> !((#[trigger] list[j]).name@ == name),
    ensures
        import_from(list, name, 0) == if k < list.len() {
            Some(list[k].target@)
        } else {
            None
        },
{
    imports_are_found_from(list, name, 0, k);
}

proof fn bindings_are_found_from(list: Seq<FileBindingFacts>, file: FileId, i: int, k: int)
    requires
        0 <= i <= k <= list.len(),
        k < list.len() ==> list[k].file == file,
        forall|j: int| i <= j < k ==> !((#[trigger] list[j]).file == file),
    ensures
        bindings_from(list, file, i) == if k < list.len() {
            Some(list[k])
        } else {
            None
        },
    decreases list.len() - i,
{
    if i < k {
        assert(!(list[i].file == file));
        bindings_are_found_from(list, file, i + 1, k);
    }
}

/// The bindings of a file are the first with its id.
pub proof fn bindings_are_found(list: Seq<FileBindingFacts>, file: FileId, k: int)
    requires
        0 <= k <= list.len(),
        k < list.len() ==> list[k].file == file,
        forall|j: int| 0 <= j < k ==> !((#[trigger] list[j]).file == file),
    ensures
        bindings_from(list, file, 0) == if k < list.len() {
            Some(list[k])
        } else {
            None
        },
{
    bindings_are_found_from(list, file, 0, k);
}

proof fn events_are_found_from(list: Seq<TracedEvent>, site: AllocationSite, i: int, k: int)
    requires
        0 <= i <= k <= list.len(),
        k < list.len() ==> list[k].site == site,
        forall|j: int| i <= j < k ==> !((#[trigger] list[j]).site == site),
    ensures
        event_at(list, site, i) == if k < list.len() {
            Some(k)
        } else {
            None
        },
    decreases list.len() - i,
{
    if i < k {
        assert(!(list[i].site == site));
        events_are_found_from(list, site, i + 1, k);
    }
}

/// The event at a site is the first there.
pub proof fn events_are_found(list: Seq<TracedEvent>, site: AllocationSite, k: int)
    requires
        0 <= k <= list.len(),
        k < list.len() ==> list[k].site == site,
        forall|j: int| 0 <= j < k ==> !((#[trigger] list[j]).site == site),
    ensures
        event_at(list, site, 0) == if k < list.len() {
            Some(k)
        } else {
            None
        },
{
    events_are_found_from(list, site, 0, k);
}

proof fn plays_are_found_from(list: Seq<PlayFact>, group: u64, i: int, k: int)
    requires
        0 <= i <= k <= list.len(),
        k < list.len() ==> list[k].play_group == group,
        forall|j: int| i <= j < k ==> !((#[trigger] list[j]).play_group == group),
    ensures
        play_of_group(list, group, i) == if k < list.len() {
            Some(list[k])
        } else {
            None
        },
    decreases list.len() - i,
{
    if i < k {
        assert(!(list[i].play_group == group));
        plays_are_found_from(list, group, i + 1, k);
    }
}

/// The play of a group is the first with its number.
pub proof fn plays_are_found(list: Seq<PlayFact>, group: u64, k: int)
    requires
        0 <= k <= list.len(),
        k < list.len() ==> list[k].play_group == group,
        forall|j: int| 0 <= j < k ==> !((#[trigger] list[j]).play_group == group),
    ensures
        play_of_group(list, group, 0) == if k < list.len() {
            Some(list[k])
        } else {
            None
        },
{
    plays_are_found_from(list, group, 0, k);
}

proof fn signatures_are_found_from(list: Seq<FunctionRecord>, id: Seq<char>, i: int, k: int)
    requires
        0 <= i <= k <= list.len(),
        k < list.len() ==> list[k].id@ == id,
        forall|j: int| i <= j < k ==> !((#[trigger] list[j]).id@ == id),
    ensures
        crate::rules::lifecycle::callbacks::function_from(list, id, i) == if k < list.len() {
            Some(list[k].signature)
        } else {
            None
        },
    decreases list.len() - i,
{
    if i < k {
        assert(!(list[i].id@ == id));
        signatures_are_found_from(list, id, i + 1, k);
    }
}

/// The signature of a function of the project is that of the first record with its id.
pub proof fn signatures_are_found(list: Seq<FunctionRecord>, id: Seq<char>, k: int)
    requires
        0 <= k <= list.len(),
        k < list.len() ==> list[k].id@ == id,
        forall|j: int| 0 <= j < k ==> !((#[trigger] list[j]).id@ == id),
    ensures
        crate::rules::lifecycle::callbacks::function_from(list, id, 0) == if k < list.len() {
            Some(list[k].signature)
        } else {
            None
        },
{
    signatures_are_found_from(list, id, 0, k);
}

/// The call at a site is the last one that is written there.
pub proof fn calls_are_found(calls: Seq<QualifiedCall>, site: AllocationSite, k: int)
    requires
        -1 <= k < calls.len(),
        k >= 0 ==> site_of(calls[k].file, calls[k].call_range) == site,
        forall|j: int|
            k < j < calls.len() ==> site_of(
                (#[trigger] calls[j]).file,
                calls[j].call_range,
            ) != site,
    ensures
        last_index_at(calls, site) == if k >= 0 {
            Some(k)
        } else {
            None
        },
    decreases calls.len(),
{
    if calls.len() > 0 && k < calls.len() - 1 {
        let rest = calls.drop_last();
        assert(site_of(calls[calls.len() - 1].file, calls[calls.len() - 1].call_range) != site);
        assert forall|j: int| k < j < rest.len() implies site_of(
            (#[trigger] rest[j]).file,
            rest[j].call_range,
        ) != site by {
            assert(rest[j] == calls[j]);
        }
        calls_are_found(rest, site, k);
    }
}

/// The state at an offset is the last snapshot of the file that ends at or
/// before it.
pub proof fn snapshots_are_found(
    snapshots: Seq<StateSnapshot>,
    file: FileId,
    offset: u32,
    k: int,
)
    requires
        -1 <= k < snapshots.len(),
        k >= 0 ==> snapshots[k].site.file == file && snapshots[k].site.end <= offset,
        forall|j: int|
            k < j < snapshots.len() ==> !((#[trigger] snapshots[j]).site.file == file
                && snapshots[j].site.end <= offset),
    ensures
        snapshot_in(snapshots, file, offset) == if k >= 0 {
            Some(snapshots[k])
        } else {
            None
        },
    decreases snapshots.len(),
{
    if snapshots.len() > 0 && k < snapshots.len() - 1 {
        let rest = snapshots.drop_last();
        assert(!(snapshots[snapshots.len() - 1].site.file == file && snapshots[snapshots.len()
            - 1].site.end <= offset));
        assert forall|j: int| k < j < rest.len() implies !((#[trigger] rest[j]).site.file == file
            && rest[j].site.end <= offset) by {
            assert(rest[j] == snapshots[j]);
        }
        snapshots_are_found(rest, file, offset, k);
    }
}

/// The lookups by method are those in the lists that the values hold.
pub proof fn lookups_read_their_lists(
    profile: KnowledgeProfile,
    index: ProjectIndex,
    call: QualifiedCall,
    costs: CostFacts,
    scene: SceneLifecycle,
    id: Seq<char>,
    number: int,
    file: FileId,
    offset: u32,
    object: ObjectId,
)
    ensures
        profile.spec_symbol(id) == entry_in(profile.symbols@, id),
        profile.spec_resolve_export(id) == match export_in(profile.exports@, id) {
            Some(symbol) => entry_in(profile.symbols@, symbol),
            None => None,
        },
        index.spec_class(id) == class_in(index.classes@, id),
        call.spec_keyword(id) == keyword_in(call.arguments@, id),
        costs.spec_hot(number) == hot_entry(costs.hot_calls@, number),
        scene.spec_state_at(file, offset) == snapshot_in(scene.snapshots@, file, offset),
        scene.spec_intervals(object) == intervals_in(scene.ownership@, object),
        scene.final_heap.spec_object(object) == object_in(scene.final_heap.objects@, object),
        scene.final_heap.spec_resolve(object) == alias_in(scene.final_heap.aliases@, object),
        scene.spec_membership_at(object, file, offset) == match snapshot_in(
            scene.snapshots@,
            file,
            offset,
        ) {
            Some(snapshot) => match object_in(snapshot.heap.objects@, object) {
                Some(state) => Some((state.scene_membership, state.family_membership)),
                None => None,
            },
            None => None,
        },
{
}

} // verus!
