//! One swap-style command for every simple node field.
//!
//! Name, tag, visibility, frustum culling, cast shadows, mobility, depth
//! offset and the six pivot/offset transform components are all edited the
//! same way, so a single command parameterized by a `FieldValue` accessor
//! serves the whole family, and the execute/revert symmetry is proved once.

use vstd::prelude::*;

use crate::handle::Handle;
use crate::node::FieldValue;
use crate::node::Node;
use crate::node::field_of;
use crate::node::with_field;
use crate::pool::Slot;
use crate::pool::occupy_one;
use crate::pool::slot_live;
use crate::pool::slot_payload;
use crate::scene::SceneContext;

verus! {

/// Sets one simple field of a node; undo restores the displaced value.
#[derive(Debug)]
pub struct SetNodeFieldCommand {
    pub node: Handle,
    pub value: FieldValue,
}

impl SetNodeFieldCommand {
    /// Captures the node and the value to write; the accessor variant of
    /// `value` selects the field.
    pub fn new(node: Handle, value: FieldValue) -> (c: SetNodeFieldCommand)
        ensures
            c == (SetNodeFieldCommand { node, value }),
    {
        SetNodeFieldCommand { node, value }
    }

    /// The display label of this command.
    pub fn name(&self, _context: &SceneContext) -> (r: String)
        ensures
            r@ == "Set Node Field"@,
    {
        "Set Node Field".to_owned()
    }

    /// Writes the held value onto the selected field and keeps the
    /// displaced value for the next call.
    pub fn execute(&mut self, context: &mut SceneContext)
        requires
            slot_live(old(context).scene.graph@, old(self).node),
        ensures
            final(self).node == old(self).node,
            final(self).value == field_of(
                slot_payload(old(context).scene.graph@, old(self).node),
                old(self).value,
            ),
            final(context).scene.graph@ == occupy_one(
                old(context).scene.graph@,
                old(self).node,
                with_field(
                    slot_payload(old(context).scene.graph@, old(self).node),
                    old(self).value,
                ),
            ),
            final(context).scene.graph.root_spec() == old(context).scene.graph.root_spec(),
            final(context).scene.animations == old(context).scene.animations,
    {
        let mut value = FieldValue::Visibility(false);
        std::mem::swap(&mut self.value, &mut value);
        let prior = context.scene.graph.replace_field(self.node, value);
        self.value = prior;
    }

    /// Identical to `execute`: the swap makes the operation symmetric.
    pub fn revert(&mut self, context: &mut SceneContext)
        requires
            slot_live(old(context).scene.graph@, old(self).node),
        ensures
            final(self).node == old(self).node,
            final(self).value == field_of(
                slot_payload(old(context).scene.graph@, old(self).node),
                old(self).value,
            ),
            final(context).scene.graph@ == occupy_one(
                old(context).scene.graph@,
                old(self).node,
                with_field(
                    slot_payload(old(context).scene.graph@, old(self).node),
                    old(self).value,
                ),
            ),
            final(context).scene.graph.root_spec() == old(context).scene.graph.root_spec(),
            final(context).scene.animations == old(context).scene.animations,
    {
        let mut value = FieldValue::Visibility(false);
        std::mem::swap(&mut self.value, &mut value);
        let prior = context.scene.graph.replace_field(self.node, value);
        self.value = prior;
    }
}

/// Writing a field back restores the node exactly: reading the field,
/// writing a new value and then writing the read value back is the
/// identity, and a further write of the new value reproduces the first
/// write's state. This is the involution law for the whole swap family.
pub proof fn lemma_field_execute_revert_execute(g: Seq<Slot<Node>>, h: Handle, v: FieldValue)
    requires
        slot_live(g, h),
    ensures
        ({
            let prior = field_of(slot_payload(g, h), v);
            let g1 = occupy_one(g, h, with_field(slot_payload(g, h), v));
            let g2 = occupy_one(g1, h, with_field(slot_payload(g1, h), prior));
            let g3 = occupy_one(g2, h, with_field(slot_payload(g2, h), v));
            g2 == g && g3 == g1 && field_of(slot_payload(g1, h), v) == v
        }),
{
    let prior = field_of(slot_payload(g, h), v);
    let g1 = occupy_one(g, h, with_field(slot_payload(g, h), v));
    let g2 = occupy_one(g1, h, with_field(slot_payload(g1, h), prior));
    let g3 = occupy_one(g2, h, with_field(slot_payload(g2, h), v));
    assert(with_field(slot_payload(g, h), prior) == slot_payload(g, h));
    assert(g2 =~= g);
    assert(g3 =~= g1);
}

} // verus!
