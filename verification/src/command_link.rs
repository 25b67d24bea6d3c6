//! Re-parenting a node, with exact undo.
//!
//! The command records the child's current parent while performing the
//! link, so the next invocation of the identical operation restores it:
//! the swap pattern generalized to the parent relation.

use vstd::prelude::*;

use crate::graph::Graph;
use crate::handle::Handle;
use crate::node::Node;
use crate::node::with_parent;
use crate::pool::Slot;
use crate::pool::occupy_one;
use crate::pool::slot_live;
use crate::pool::slot_payload;
use crate::scene::SceneContext;

verus! {

/// Links `child` under `parent`; undo links it back where it was.
#[derive(Debug)]
pub struct LinkNodesCommand {
    pub child: Handle,
    pub parent: Handle,
}

impl LinkNodesCommand {
    /// Captures the child to move and its destination parent.
    pub fn new(child: Handle, parent: Handle) -> (c: LinkNodesCommand)
        ensures
            c == (LinkNodesCommand { child, parent }),
    {
        LinkNodesCommand { child, parent }
    }

    /// Records the child's current parent, performs the link, and stores
    /// the recorded parent as the target of the next call.
    fn link(&mut self, graph: &mut Graph)
        requires
            slot_live(old(graph)@, old(self).child),
        ensures
            final(self).child == old(self).child,
            final(self).parent == slot_payload(old(graph)@, old(self).child).base.parent,
            final(graph)@ == occupy_one(
                old(graph)@,
                old(self).child,
                with_parent(slot_payload(old(graph)@, old(self).child), old(self).parent),
            ),
            final(graph).root_spec() == old(graph).root_spec(),
    {
        let old_parent = graph.node(self.child).parent();
        graph.link_nodes(self.child, self.parent);
        self.parent = old_parent;
    }

    /// The display label of this command.
    pub fn name(&self, _context: &SceneContext) -> (r: String)
        ensures
            r@ == "Link Nodes"@,
    {
        "Link Nodes".to_owned()
    }

    /// Links the child under the stored parent, remembering the old one.
    pub fn execute(&mut self, context: &mut SceneContext)
        requires
            slot_live(old(context).scene.graph@, old(self).child),
        ensures
            final(self).child == old(self).child,
            final(self).parent == slot_payload(
                old(context).scene.graph@,
                old(self).child,
            ).base.parent,
            final(context).scene.graph@ == occupy_one(
                old(context).scene.graph@,
                old(self).child,
                with_parent(
                    slot_payload(old(context).scene.graph@, old(self).child),
                    old(self).parent,
                ),
            ),
            final(context).scene.graph.root_spec() == old(context).scene.graph.root_spec(),
            final(context).scene.animations == old(context).scene.animations,
    {
        self.link(&mut context.scene.graph);
    }

    /// Identical to `execute`: the recorded parent makes it symmetric.
    pub fn revert(&mut self, context: &mut SceneContext)
        requires
            slot_live(old(context).scene.graph@, old(self).child),
        ensures
            final(self).child == old(self).child,
            final(self).parent == slot_payload(
                old(context).scene.graph@,
                old(self).child,
            ).base.parent,
            final(context).scene.graph@ == occupy_one(
                old(context).scene.graph@,
                old(self).child,
                with_parent(
                    slot_payload(old(context).scene.graph@, old(self).child),
                    old(self).parent,
                ),
            ),
            final(context).scene.graph.root_spec() == old(context).scene.graph.root_spec(),
            final(context).scene.animations == old(context).scene.animations,
    {
        self.link(&mut context.scene.graph);
    }
}

/// Linking to the stored target and then linking back restores the graph
/// exactly, and a further execute reproduces the first execute's state.
pub proof fn lemma_link_execute_revert_execute(g: Seq<Slot<Node>>, h: Handle, p: Handle)
    requires
        slot_live(g, h),
    ensures
        ({
            let q = slot_payload(g, h).base.parent;
            let g1 = occupy_one(g, h, with_parent(slot_payload(g, h), p));
            let g2 = occupy_one(g1, h, with_parent(slot_payload(g1, h), q));
            let g3 = occupy_one(g2, h, with_parent(slot_payload(g2, h), p));
            g2 == g && g3 == g1
        }),
{
    let q = slot_payload(g, h).base.parent;
    let g1 = occupy_one(g, h, with_parent(slot_payload(g, h), p));
    let g2 = occupy_one(g1, h, with_parent(slot_payload(g1, h), q));
    let g3 = occupy_one(g2, h, with_parent(slot_payload(g2, h), p));
    assert(with_parent(slot_payload(g, h), q) == slot_payload(g, h));
    assert(g2 =~= g);
    assert(g3 =~= g1);
}

} // verus!
