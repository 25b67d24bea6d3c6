//! Swap-style commands for a node's position, scale and rotation.
//!
//! Each command holds the old and the new value of one transform field.
//! `execute` and `revert` perform the identical action: swap old and new
//! inside the command, then apply the now-current value to the node. The
//! proofs show the action is an involution on the graph, so undo is exact.

use vstd::prelude::*;

use crate::graph::Graph;
use crate::handle::Handle;
use crate::node::Node;
use crate::node::Quaternion;
use crate::node::Vector3;
use crate::node::with_position;
use crate::node::with_rotation;
use crate::node::with_scale;
use crate::pool::Slot;
use crate::pool::occupy_one;
use crate::pool::slot_live;
use crate::pool::slot_payload;
use crate::scene::SceneContext;

verus! {

/// Moves a node to a new position; undo moves it back.
#[derive(Debug)]
pub struct MoveNodeCommand {
    pub node: Handle,
    pub old_position: Vector3,
    pub new_position: Vector3,
}

impl MoveNodeCommand {
    /// Captures the node, its position before the edit, and the target.
    pub fn new(node: Handle, old_position: Vector3, new_position: Vector3) -> (c:
        MoveNodeCommand)
        ensures
            c == (MoveNodeCommand { node, old_position, new_position }),
    {
        MoveNodeCommand { node, old_position, new_position }
    }

    /// Exchanges the held values, returning the one to apply now.
    fn swap(&mut self) -> (position: Vector3)
        ensures
            position == old(self).new_position,
            final(self).new_position == old(self).old_position,
            final(self).old_position == old(self).new_position,
            final(self).node == old(self).node,
    {
        let position = self.new_position;
        std::mem::swap(&mut self.new_position, &mut self.old_position);
        position
    }

    /// Writes a position onto the node.
    fn set_position(&self, graph: &mut Graph, position: Vector3)
        requires
            slot_live(old(graph)@, self.node),
        ensures
            final(graph)@ == occupy_one(
                old(graph)@,
                self.node,
                with_position(slot_payload(old(graph)@, self.node), position),
            ),
            final(graph).root_spec() == old(graph).root_spec(),
    {
        graph.set_position(self.node, position);
    }

    /// The display label of this command.
    pub fn name(&self, _context: &SceneContext) -> (r: String)
        ensures
            r@ == "Move Node"@,
    {
        "Move Node".to_owned()
    }

    /// Applies the stored target position and remembers the displaced one.
    pub fn execute(&mut self, context: &mut SceneContext)
        requires
            slot_live(old(context).scene.graph@, old(self).node),
        ensures
            final(self).node == old(self).node,
            final(self).old_position == old(self).new_position,
            final(self).new_position == old(self).old_position,
            final(context).scene.graph@ == occupy_one(
                old(context).scene.graph@,
                old(self).node,
                with_position(
                    slot_payload(old(context).scene.graph@, old(self).node),
                    old(self).new_position,
                ),
            ),
            final(context).scene.graph.root_spec() == old(context).scene.graph.root_spec(),
            final(context).scene.animations == old(context).scene.animations,
    {
        let position = self.swap();
        self.set_position(&mut context.scene.graph, position);
    }

    /// Identical to `execute`: the swap makes the operation symmetric.
    pub fn revert(&mut self, context: &mut SceneContext)
        requires
            slot_live(old(context).scene.graph@, old(self).node),
        ensures
            final(self).node == old(self).node,
            final(self).old_position == old(self).new_position,
            final(self).new_position == old(self).old_position,
            final(context).scene.graph@ == occupy_one(
                old(context).scene.graph@,
                old(self).node,
                with_position(
                    slot_payload(old(context).scene.graph@, old(self).node),
                    old(self).new_position,
                ),
            ),
            final(context).scene.graph.root_spec() == old(context).scene.graph.root_spec(),
            final(context).scene.animations == old(context).scene.animations,
    {
        let position = self.swap();
        self.set_position(&mut context.scene.graph, position);
    }
}

/// Execute, revert and execute again leave the node's position, and every
/// other slot of the graph, exactly as the first execute did.
pub proof fn lemma_move_execute_revert_execute(
    g: Seq<Slot<Node>>,
    h: Handle,
    p_old: Vector3,
    p_new: Vector3,
)
    requires
        slot_live(g, h),
    ensures
        ({
            let g1 = occupy_one(g, h, with_position(slot_payload(g, h), p_new));
            let g2 = occupy_one(g1, h, with_position(slot_payload(g1, h), p_old));
            let g3 = occupy_one(g2, h, with_position(slot_payload(g2, h), p_new));
            g3 == g1 && slot_payload(g1, h).base.local_transform.position == p_new
                && slot_payload(g2, h).base.local_transform.position == p_old
        }),
{
    let g1 = occupy_one(g, h, with_position(slot_payload(g, h), p_new));
    let g2 = occupy_one(g1, h, with_position(slot_payload(g1, h), p_old));
    let g3 = occupy_one(g2, h, with_position(slot_payload(g2, h), p_new));
    assert(g3 =~= g1);
}

/// Scales a node; undo restores the previous scale.
#[derive(Debug)]
pub struct ScaleNodeCommand {
    pub node: Handle,
    pub old_scale: Vector3,
    pub new_scale: Vector3,
}

impl ScaleNodeCommand {
    /// Captures the node, its scale before the edit, and the target.
    pub fn new(node: Handle, old_scale: Vector3, new_scale: Vector3) -> (c: ScaleNodeCommand)
        ensures
            c == (ScaleNodeCommand { node, old_scale, new_scale }),
    {
        ScaleNodeCommand { node, old_scale, new_scale }
    }

    /// Exchanges the held values, returning the one to apply now.
    fn swap(&mut self) -> (scale: Vector3)
        ensures
            scale == old(self).new_scale,
            final(self).new_scale == old(self).old_scale,
            final(self).old_scale == old(self).new_scale,
            final(self).node == old(self).node,
    {
        let scale = self.new_scale;
        std::mem::swap(&mut self.new_scale, &mut self.old_scale);
        scale
    }

    /// Writes a scale onto the node.
    fn set_scale(&self, graph: &mut Graph, scale: Vector3)
        requires
            slot_live(old(graph)@, self.node),
        ensures
            final(graph)@ == occupy_one(
                old(graph)@,
                self.node,
                with_scale(slot_payload(old(graph)@, self.node), scale),
            ),
            final(graph).root_spec() == old(graph).root_spec(),
    {
        graph.set_scale(self.node, scale);
    }

    /// The display label of this command.
    pub fn name(&self, _context: &SceneContext) -> (r: String)
        ensures
            r@ == "Scale Node"@,
    {
        "Scale Node".to_owned()
    }

    /// Applies the stored target scale and remembers the displaced one.
    pub fn execute(&mut self, context: &mut SceneContext)
        requires
            slot_live(old(context).scene.graph@, old(self).node),
        ensures
            final(self).node == old(self).node,
            final(self).old_scale == old(self).new_scale,
            final(self).new_scale == old(self).old_scale,
            final(context).scene.graph@ == occupy_one(
                old(context).scene.graph@,
                old(self).node,
                with_scale(
                    slot_payload(old(context).scene.graph@, old(self).node),
                    old(self).new_scale,
                ),
            ),
            final(context).scene.graph.root_spec() == old(context).scene.graph.root_spec(),
            final(context).scene.animations == old(context).scene.animations,
    {
        let scale = self.swap();
        self.set_scale(&mut context.scene.graph, scale);
    }

    /// Identical to `execute`: the swap makes the operation symmetric.
    pub fn revert(&mut self, context: &mut SceneContext)
        requires
            slot_live(old(context).scene.graph@, old(self).node),
        ensures
            final(self).node == old(self).node,
            final(self).old_scale == old(self).new_scale,
            final(self).new_scale == old(self).old_scale,
            final(context).scene.graph@ == occupy_one(
                old(context).scene.graph@,
                old(self).node,
                with_scale(
                    slot_payload(old(context).scene.graph@, old(self).node),
                    old(self).new_scale,
                ),
            ),
            final(context).scene.graph.root_spec() == old(context).scene.graph.root_spec(),
            final(context).scene.animations == old(context).scene.animations,
    {
        let scale = self.swap();
        self.set_scale(&mut context.scene.graph, scale);
    }
}

/// Execute, revert and execute again leave the node's scale, and every
/// other slot of the graph, exactly as the first execute did.
pub proof fn lemma_scale_execute_revert_execute(
    g: Seq<Slot<Node>>,
    h: Handle,
    s_old: Vector3,
    s_new: Vector3,
)
    requires
        slot_live(g, h),
    ensures
        ({
            let g1 = occupy_one(g, h, with_scale(slot_payload(g, h), s_new));
            let g2 = occupy_one(g1, h, with_scale(slot_payload(g1, h), s_old));
            let g3 = occupy_one(g2, h, with_scale(slot_payload(g2, h), s_new));
            g3 == g1 && slot_payload(g1, h).base.local_transform.scale == s_new
                && slot_payload(g2, h).base.local_transform.scale == s_old
        }),
{
    let g1 = occupy_one(g, h, with_scale(slot_payload(g, h), s_new));
    let g2 = occupy_one(g1, h, with_scale(slot_payload(g1, h), s_old));
    let g3 = occupy_one(g2, h, with_scale(slot_payload(g2, h), s_new));
    assert(g3 =~= g1);
}

/// Rotates a node; undo restores the previous rotation.
#[derive(Debug)]
pub struct RotateNodeCommand {
    pub node: Handle,
    pub old_rotation: Quaternion,
    pub new_rotation: Quaternion,
}

impl RotateNodeCommand {
    /// Captures the node, its rotation before the edit, and the target.
    pub fn new(node: Handle, old_rotation: Quaternion, new_rotation: Quaternion) -> (c:
        RotateNodeCommand)
        ensures
            c == (RotateNodeCommand { node, old_rotation, new_rotation }),
    {
        RotateNodeCommand { node, old_rotation, new_rotation }
    }

    /// Exchanges the held values, returning the one to apply now.
    fn swap(&mut self) -> (rotation: Quaternion)
        ensures
            rotation == old(self).new_rotation,
            final(self).new_rotation == old(self).old_rotation,
            final(self).old_rotation == old(self).new_rotation,
            final(self).node == old(self).node,
    {
        let rotation = self.new_rotation;
        std::mem::swap(&mut self.new_rotation, &mut self.old_rotation);
        rotation
    }

    /// Writes a rotation onto the node.
    fn set_rotation(&self, graph: &mut Graph, rotation: Quaternion)
        requires
            slot_live(old(graph)@, self.node),
        ensures
            final(graph)@ == occupy_one(
                old(graph)@,
                self.node,
                with_rotation(slot_payload(old(graph)@, self.node), rotation),
            ),
            final(graph).root_spec() == old(graph).root_spec(),
    {
        graph.set_rotation(self.node, rotation);
    }

    /// The display label of this command.
    pub fn name(&self, _context: &SceneContext) -> (r: String)
        ensures
            r@ == "Rotate Node"@,
    {
        "Rotate Node".to_owned()
    }

    /// Applies the stored target rotation and remembers the displaced one.
    pub fn execute(&mut self, context: &mut SceneContext)
        requires
            slot_live(old(context).scene.graph@, old(self).node),
        ensures
            final(self).node == old(self).node,
            final(self).old_rotation == old(self).new_rotation,
            final(self).new_rotation == old(self).old_rotation,
            final(context).scene.graph@ == occupy_one(
                old(context).scene.graph@,
                old(self).node,
                with_rotation(
                    slot_payload(old(context).scene.graph@, old(self).node),
                    old(self).new_rotation,
                ),
            ),
            final(context).scene.graph.root_spec() == old(context).scene.graph.root_spec(),
            final(context).scene.animations == old(context).scene.animations,
    {
        let rotation = self.swap();
        self.set_rotation(&mut context.scene.graph, rotation);
    }

    /// Identical to `execute`: the swap makes the operation symmetric.
    pub fn revert(&mut self, context: &mut SceneContext)
        requires
            slot_live(old(context).scene.graph@, old(self).node),
        ensures
            final(self).node == old(self).node,
            final(self).old_rotation == old(self).new_rotation,
            final(self).new_rotation == old(self).old_rotation,
            final(context).scene.graph@ == occupy_one(
                old(context).scene.graph@,
                old(self).node,
                with_rotation(
                    slot_payload(old(context).scene.graph@, old(self).node),
                    old(self).new_rotation,
                ),
            ),
            final(context).scene.graph.root_spec() == old(context).scene.graph.root_spec(),
            final(context).scene.animations == old(context).scene.animations,
    {
        let rotation = self.swap();
        self.set_rotation(&mut context.scene.graph, rotation);
    }
}

/// Execute, revert and execute again leave the node's rotation, and every
/// other slot of the graph, exactly as the first execute did.
pub proof fn lemma_rotate_execute_revert_execute(
    g: Seq<Slot<Node>>,
    h: Handle,
    q_old: Quaternion,
    q_new: Quaternion,
)
    requires
        slot_live(g, h),
    ensures
        ({
            let g1 = occupy_one(g, h, with_rotation(slot_payload(g, h), q_new));
            let g2 = occupy_one(g1, h, with_rotation(slot_payload(g1, h), q_old));
            let g3 = occupy_one(g2, h, with_rotation(slot_payload(g2, h), q_new));
            g3 == g1 && slot_payload(g1, h).base.local_transform.rotation == q_new
                && slot_payload(g2, h).base.local_transform.rotation == q_old
        }),
{
    let g1 = occupy_one(g, h, with_rotation(slot_payload(g, h), q_new));
    let g2 = occupy_one(g1, h, with_rotation(slot_payload(g1, h), q_old));
    let g3 = occupy_one(g2, h, with_rotation(slot_payload(g2, h), q_new));
    assert(g3 =~= g1);
}

} // verus!
