//! The mutable state a command operates on.

use vstd::prelude::*;

use crate::graph::Graph;
use crate::handle::Handle;
use crate::node::Node;
use crate::node::with_parent;
use crate::pool::Pool;
use crate::pool::Slot;
use crate::pool::SlotState;

verus! {

/// An animation instance, referenced from the scene's animation pool.
///
/// Model imports create animations retargeted to the imported node
/// hierarchy; undoing the import must detach them in lockstep with the
/// nodes, so they live in the same kind of generational pool.
#[derive(Debug)]
pub struct Animation {
    pub name: String,
    pub enabled: bool,
}

/// A scene: the node graph plus the pool of animation instances.
#[derive(Debug)]
pub struct Scene {
    pub graph: Graph,
    pub animations: Pool<Animation>,
}

impl Scene {
    /// Creates a scene whose graph holds only the given root node.
    pub fn new(root_node: Node) -> (s: Scene)
        ensures
            s.graph@ == Seq::<Slot<Node>>::empty().push(
                Slot {
                    generation: 1,
                    state: SlotState::Occupied(with_parent(root_node, Handle::none_spec())),
                },
            ),
            s.graph.root_spec() == (Handle { index: 0, generation: 1 }),
            s.animations@ == Seq::<Slot<Animation>>::empty(),
    {
        Scene { graph: Graph::new(root_node), animations: Pool::new() }
    }
}

/// Everything a command may read or mutate while it runs.
#[derive(Debug)]
pub struct SceneContext {
    pub scene: Scene,
}

impl SceneContext {
    /// Wraps a scene for command execution.
    pub fn new(scene: Scene) -> (c: SceneContext)
        ensures
            c.scene == scene,
    {
        SceneContext { scene }
    }
}

} // verus!
