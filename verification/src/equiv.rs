//! Observable equality of nodes and pool states.
//!
//! Two values are observably equal when every field a caller can read holds
//! the same data. This is plain equality on scalar fields and equality of
//! contents on strings, byte blobs and property lists; it is what "the same
//! state" means for the round-trip guarantees of the command layer, which
//! may rebuild a string or a list with identical contents.

use vstd::prelude::*;

use crate::node::Node;
use crate::node::Property;
use crate::node::PropertyValue;
use crate::node::Script;
use crate::pool::Slot;
use crate::pool::SlotState;

verus! {

/// Observable equality of property values: text by contents.
pub open spec fn value_obs_eq(a: PropertyValue, b: PropertyValue) -> bool {
    match (a, b) {
        (PropertyValue::Text(x), PropertyValue::Text(y)) => x@ == y@,
        _ => a == b,
    }
}

/// Observable equality of properties.
pub open spec fn property_obs_eq(a: Property, b: Property) -> bool {
    a.name@ == b.name@ && value_obs_eq(a.value, b.value)
}

/// Observable equality of scripts: same type tag, same serialized state.
pub open spec fn script_obs_eq(a: Script, b: Script) -> bool {
    a.kind == b.kind && a.payload@ == b.payload@
}

/// Observable equality of optional scripts.
pub open spec fn opt_script_obs_eq(a: Option<Script>, b: Option<Script>) -> bool {
    match (a, b) {
        (Option::Some(x), Option::Some(y)) => script_obs_eq(x, y),
        (Option::None, Option::None) => true,
        _ => false,
    }
}

/// Observable equality of nodes: every field the editor can read.
pub open spec fn node_obs_eq(a: Node, b: Node) -> bool {
    &&& a.kind == b.kind
    &&& a.base.name@ == b.base.name@
    &&& a.base.tag@ == b.base.tag@
    &&& a.base.visibility == b.base.visibility
    &&& a.base.frustum_culling == b.base.frustum_culling
    &&& a.base.cast_shadows == b.base.cast_shadows
    &&& a.base.mobility == b.base.mobility
    &&& a.base.depth_offset_factor == b.base.depth_offset_factor
    &&& a.base.local_transform == b.base.local_transform
    &&& a.base.parent == b.base.parent
    &&& a.base.properties@.len() == b.base.properties@.len()
    &&& forall|i: int|
        0 <= i < a.base.properties@.len() ==> property_obs_eq(
            a.base.properties@[i],
            b.base.properties@[i],
        )
    &&& opt_script_obs_eq(a.base.script, b.base.script)
}

/// Observable equality of slots: same generation, same occupancy, and
/// observably equal payloads.
pub open spec fn slot_obs_eq(a: Slot<Node>, b: Slot<Node>) -> bool {
    &&& a.generation == b.generation
    &&& match (a.state, b.state) {
        (SlotState::Occupied(x), SlotState::Occupied(y)) => node_obs_eq(x, y),
        (SlotState::Free, SlotState::Free) => true,
        (SlotState::Reserved, SlotState::Reserved) => true,
        _ => false,
    }
}

/// Observable equality of whole pool states.
pub open spec fn slots_obs_eq(a: Seq<Slot<Node>>, b: Seq<Slot<Node>>) -> bool {
    a.len() == b.len() && forall|i: int| 0 <= i < a.len() ==> slot_obs_eq(a[i], b[i])
}

/// Equal slots are observably equal.
pub proof fn lemma_slot_eq_obs(a: Slot<Node>, b: Slot<Node>)
    requires
        a == b,
    ensures
        slot_obs_eq(a, b),
{
}

} // verus!
