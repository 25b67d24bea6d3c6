//! Adding and deleting a single node, with exact undo.
//!
//! Both commands are two-state machines over one node/ticket pair. The
//! pair is held together: both present while the node is outside the pool,
//! both absent while it is inside. Deletion reserves the slot rather than
//! freeing it, so undo restores the very same handle; only `finalize`,
//! called when the command can never be reverted again, releases the slot.

use vstd::prelude::*;

use crate::handle::Handle;
use crate::handle::Ticket;
use crate::node::Node;
use crate::node::with_parent;
use crate::pool::Slot;
use crate::pool::free_one;
use crate::pool::occupy_one;
use crate::pool::pool_add_spec;
use crate::pool::reserve_one;
use crate::pool::slot_live;
use crate::pool::slot_payload;
use crate::pool::slot_reserved;
use crate::scene::SceneContext;
use crate::text::concat_str;

verus! {

/// Deletes one node; undo puts it back under its recorded parent with the
/// same handle.
#[derive(Debug)]
pub struct DeleteNodeCommand {
    pub handle: Handle,
    pub ticket: Option<Ticket>,
    pub node: Option<Node>,
    pub parent: Handle,
}

impl DeleteNodeCommand {
    /// Targets the node at `handle`; nothing is held yet.
    pub fn new(handle: Handle) -> (c: DeleteNodeCommand)
        ensures
            c.handle == handle,
            c.ticket is None,
            c.node is None,
            c.parent == Handle::none_spec(),
    {
        DeleteNodeCommand { handle, ticket: None, node: None, parent: Handle::none() }
    }

    /// The display label of this command.
    pub fn name(&self, _context: &SceneContext) -> (r: String)
        ensures
            r@ == "Delete Node"@,
    {
        "Delete Node".to_owned()
    }

    /// Records the node's parent, then detaches the node, keeping its
    /// ticket and value so the deletion can be undone.
    pub fn execute(&mut self, context: &mut SceneContext)
        requires
            slot_live(old(context).scene.graph@, old(self).handle),
            old(self).handle != old(context).scene.graph.root_spec(),
            old(self).ticket is None,
            old(self).node is None,
        ensures
            final(self).handle == old(self).handle,
            final(self).parent == slot_payload(
                old(context).scene.graph@,
                old(self).handle,
            ).base.parent,
            final(self).ticket matches Some(t) && t.handle_spec() == old(self).handle,
            final(self).node == Some(
                with_parent(
                    slot_payload(old(context).scene.graph@, old(self).handle),
                    Handle::none_spec(),
                ),
            ),
            final(context).scene.graph@ == reserve_one(
                old(context).scene.graph@,
                old(self).handle,
            ),
            final(context).scene.graph.root_spec() == old(context).scene.graph.root_spec(),
            final(context).scene.animations == old(context).scene.animations,
    {
        self.parent = context.scene.graph.node(self.handle).parent();
        let (ticket, node) = context.scene.graph.take_reserve(self.handle);
        self.node = Some(node);
        self.ticket = Some(ticket);
    }

    /// Puts the node back under its original handle and re-links it to the
    /// recorded parent.
    pub fn revert(&mut self, context: &mut SceneContext)
        requires
            old(self).ticket matches Some(t) && slot_reserved(
                old(context).scene.graph@,
                t.handle_spec(),
            ),
            old(self).node is Some,
        ensures
            final(self).handle == old(self).ticket->0.handle_spec(),
            final(self).parent == old(self).parent,
            final(self).ticket is None,
            final(self).node is None,
            final(context).scene.graph@ == occupy_one(
                old(context).scene.graph@,
                old(self).ticket->0.handle_spec(),
                with_parent(old(self).node->0, old(self).parent),
            ),
            final(context).scene.graph.root_spec() == old(context).scene.graph.root_spec(),
            final(context).scene.animations == old(context).scene.animations,
    {
        let ghost g0 = context.scene.graph@;
        let mut ticket: Option<Ticket> = None;
        std::mem::swap(&mut self.ticket, &mut ticket);
        let mut node: Option<Node> = None;
        std::mem::swap(&mut self.node, &mut node);
        let (ticket, node) = match (ticket, node) {
            (Some(t), Some(n)) => (t, n),
            _ => vstd::pervasive::unreached(),
        };
        self.handle = context.scene.graph.put_back(ticket, node);
        context.scene.graph.link_nodes(self.handle, self.parent);
        proof {
            assert(context.scene.graph@ =~= occupy_one(
                g0,
                old(self).ticket->0.handle_spec(),
                with_parent(old(self).node->0, old(self).parent),
            ));
        }
    }

    /// Releases the slot for reuse if the deletion was never undone; the
    /// node value is dropped for good.
    pub fn finalize(&mut self, context: &mut SceneContext)
        requires
            old(self).ticket matches Some(t) ==> slot_reserved(
                old(context).scene.graph@,
                t.handle_spec(),
            ),
            old(self).ticket is Some ==> old(self).node is Some,
            old(self).ticket is None ==> old(self).node is None,
        ensures
            final(self).ticket is None,
            final(self).node is None,
            final(self).handle == old(self).handle,
            old(self).ticket matches Some(t) ==> final(context).scene.graph@ == free_one(
                old(context).scene.graph@,
                t.handle_spec(),
            ),
            old(self).ticket is None ==> final(context).scene.graph@ == old(context).scene.graph@ && final(self).node == old(self).node,
            final(context).scene.graph.root_spec() == old(context).scene.graph.root_spec(),
            final(context).scene.animations == old(context).scene.animations,
    {
        let mut ticket: Option<Ticket> = None;
        std::mem::swap(&mut self.ticket, &mut ticket);
        if let Some(ticket) = ticket {
            let mut node: Option<Node> = None;
            std::mem::swap(&mut self.node, &mut node);
            let node = match node {
                Some(n) => n,
                None => vstd::pervasive::unreached(),
            };
            context.scene.graph.forget_ticket(ticket, node);
        }
    }
}

/// Deleting a node and reverting the deletion restores the graph exactly,
/// handle included.
pub proof fn lemma_delete_execute_revert(g: Seq<Slot<Node>>, h: Handle)
    requires
        slot_live(g, h),
    ensures
        delete_revert_cycle(g, h) == g,
{
    let n0 = slot_payload(g, h);
    assert(with_parent(with_parent(n0, Handle::none_spec()), n0.base.parent) == n0);
    assert(delete_revert_cycle(g, h) =~= g);
}

/// One execute/revert round of `DeleteNodeCommand`, at the level of pool
/// states: reserve the slot, then restore the stored node and re-link it
/// to the recorded parent.
pub open spec fn delete_revert_cycle(g: Seq<Slot<Node>>, h: Handle) -> Seq<Slot<Node>> {
    let n0 = slot_payload(g, h);
    occupy_one(
        reserve_one(g, h),
        h,
        with_parent(with_parent(n0, Handle::none_spec()), n0.base.parent),
    )
}

/// `k` execute/revert rounds in a row.
pub open spec fn delete_revert_cycles(g: Seq<Slot<Node>>, h: Handle, k: nat) -> Seq<Slot<Node>>
    decreases k,
{
    if k == 0 {
        g
    } else {
        delete_revert_cycles(delete_revert_cycle(g, h), h, (k - 1) as nat)
    }
}

/// The node's handle is stable across any number of execute/revert rounds
/// that never call `finalize`: the graph, and with it the handle's slot,
/// is exactly the same after every round.
pub proof fn lemma_delete_handle_stable(g: Seq<Slot<Node>>, h: Handle, k: nat)
    requires
        slot_live(g, h),
    ensures
        delete_revert_cycles(g, h, k) == g,
    decreases k,
{
    if k > 0 {
        lemma_delete_execute_revert(g, h);
        lemma_delete_handle_stable(g, h, (k - 1) as nat);
    }
}

/// Adds a node under a chosen parent; undo detaches it but keeps its slot
/// reserved, so redo restores the very same handle.
#[derive(Debug)]
pub struct AddNodeCommand {
    pub ticket: Option<Ticket>,
    pub handle: Handle,
    pub node: Option<Node>,
    pub cached_name: String,
    pub parent: Handle,
}

impl AddNodeCommand {
    /// Captures the node to add and its destination parent. The display
    /// label embeds the node's name now, while the node is still at hand.
    pub fn new(node: Node, parent: Handle) -> (c: AddNodeCommand)
        ensures
            c.ticket is None,
            c.handle == Handle::none_spec(),
            c.node == Some(node),
            c.cached_name@ == "Add Node "@ + node.base.name@,
            c.parent == parent,
    {
        let cached_name = concat_str("Add Node ", node.name());
        AddNodeCommand { ticket: None, handle: Handle::none(), node: Some(node), cached_name, parent }
    }

    /// The display label captured at construction time.
    pub fn name(&self, _context: &SceneContext) -> (r: String)
        ensures
            r@ == self.cached_name@,
    {
        self.cached_name.clone()
    }

    /// First run: inserts the node fresh, which assigns its handle. After
    /// a revert: puts the node back, which must yield the same handle.
    /// Either way the node is then linked under the stored parent.
    pub fn execute(&mut self, context: &mut SceneContext)
        requires
            old(self).node is Some,
            old(self).ticket matches Some(t) ==> slot_reserved(
                old(context).scene.graph@,
                t.handle_spec(),
            ) && t.handle_spec() == old(self).handle,
        ensures
            final(self).ticket is None,
            final(self).node is None,
            final(self).parent == old(self).parent,
            final(self).cached_name == old(self).cached_name,
            old(self).ticket is None ==> ({
                let (g1, h) = pool_add_spec(
                    old(context).scene.graph@,
                    with_parent(old(self).node->0, old(context).scene.graph.root_spec()),
                );
                final(self).handle == h && final(context).scene.graph@ == occupy_one(
                    g1,
                    h,
                    with_parent(old(self).node->0, old(self).parent),
                )
            }),
            old(self).ticket is Some ==> final(self).handle == old(self).handle && final(context).scene.graph@ == occupy_one(
                old(context).scene.graph@,
                old(self).handle,
                with_parent(old(self).node->0, old(self).parent),
            ),
            final(context).scene.graph.root_spec() == old(context).scene.graph.root_spec(),
            final(context).scene.animations == old(context).scene.animations,
    {
        let ghost g0 = context.scene.graph@;
        let mut node_opt: Option<Node> = None;
        std::mem::swap(&mut self.node, &mut node_opt);
        let node = match node_opt {
            Some(n) => n,
            None => vstd::pervasive::unreached(),
        };
        let mut ticket_opt: Option<Ticket> = None;
        std::mem::swap(&mut self.ticket, &mut ticket_opt);
        match ticket_opt {
            None => {
                self.handle = context.scene.graph.add_node(node);
            },
            Some(ticket) => {
                let handle = context.scene.graph.put_back(ticket, node);
                assert(handle == self.handle);
            },
        }
        context.scene.graph.link_nodes(self.handle, self.parent);
        proof {
            if old(self).ticket is None {
                let (g1, h) = pool_add_spec(
                    g0,
                    with_parent(old(self).node->0, old(context).scene.graph.root_spec()),
                );
                assert(context.scene.graph@ =~= occupy_one(
                    g1,
                    h,
                    with_parent(old(self).node->0, old(self).parent),
                ));
            } else {
                assert(context.scene.graph@ =~= occupy_one(
                    g0,
                    old(self).handle,
                    with_parent(old(self).node->0, old(self).parent),
                ));
            }
        }
    }

    /// Detaches the node again, keeping its ticket and value; the slot
    /// stays reserved so the next execute restores the same handle.
    pub fn revert(&mut self, context: &mut SceneContext)
        requires
            slot_live(old(context).scene.graph@, old(self).handle),
            old(self).handle != old(context).scene.graph.root_spec(),
            old(self).ticket is None,
            old(self).node is None,
        ensures
            final(self).handle == old(self).handle,
            final(self).parent == old(self).parent,
            final(self).cached_name == old(self).cached_name,
            final(self).ticket matches Some(t) && t.handle_spec() == old(self).handle,
            final(self).node == Some(
                with_parent(
                    slot_payload(old(context).scene.graph@, old(self).handle),
                    Handle::none_spec(),
                ),
            ),
            final(context).scene.graph@ == reserve_one(
                old(context).scene.graph@,
                old(self).handle,
            ),
            final(context).scene.graph.root_spec() == old(context).scene.graph.root_spec(),
            final(context).scene.animations == old(context).scene.animations,
    {
        let (ticket, node) = context.scene.graph.take_reserve(self.handle);
        self.ticket = Some(ticket);
        self.node = Some(node);
    }

    /// Releases the slot for reuse if the addition stayed reverted.
    pub fn finalize(&mut self, context: &mut SceneContext)
        requires
            old(self).ticket matches Some(t) ==> slot_reserved(
                old(context).scene.graph@,
                t.handle_spec(),
            ),
            old(self).ticket is Some ==> old(self).node is Some,
            old(self).ticket is None ==> old(self).node is None,
        ensures
            final(self).ticket is None,
            final(self).node is None,
            final(self).handle == old(self).handle,
            old(self).ticket matches Some(t) ==> final(context).scene.graph@ == free_one(
                old(context).scene.graph@,
                t.handle_spec(),
            ),
            old(self).ticket is None ==> final(context).scene.graph@ == old(context).scene.graph@ && final(self).node == old(self).node,
            final(context).scene.graph.root_spec() == old(context).scene.graph.root_spec(),
            final(context).scene.animations == old(context).scene.animations,
    {
        let mut ticket: Option<Ticket> = None;
        std::mem::swap(&mut self.ticket, &mut ticket);
        if let Some(ticket) = ticket {
            let mut node: Option<Node> = None;
            std::mem::swap(&mut self.node, &mut node);
            let node = match node {
                Some(n) => n,
                None => vstd::pervasive::unreached(),
            };
            context.scene.graph.forget_ticket(ticket, node);
        }
    }
}

/// After a revert of `AddNodeCommand`, executing again restores the graph
/// the first execute produced, under the same handle: one revert/execute
/// round is the identity on the pool state.
pub proof fn lemma_add_revert_execute(g: Seq<Slot<Node>>, h: Handle, p: Handle)
    requires
        slot_live(g, h),
        slot_payload(g, h).base.parent == p,
    ensures
        occupy_one(
            reserve_one(g, h),
            h,
            with_parent(
                with_parent(slot_payload(g, h), Handle::none_spec()),
                p,
            ),
        ) == g,
{
    let n0 = slot_payload(g, h);
    assert(with_parent(with_parent(n0, Handle::none_spec()), p) == n0);
    assert(occupy_one(reserve_one(g, h), h, with_parent(with_parent(n0, Handle::none_spec()), p))
        =~= g);
}


/// One revert/execute round of `AddNodeCommand` on an already-added node,
/// at the level of pool states: reserve the slot, then restore the stored
/// node and re-link it to the stored parent.
pub open spec fn add_revert_execute_cycle(g: Seq<Slot<Node>>, h: Handle) -> Seq<Slot<Node>> {
    let n0 = slot_payload(g, h);
    occupy_one(
        reserve_one(g, h),
        h,
        with_parent(with_parent(n0, Handle::none_spec()), n0.base.parent),
    )
}

/// `k` revert/execute rounds in a row.
pub open spec fn add_revert_execute_cycles(g: Seq<Slot<Node>>, h: Handle, k: nat) -> Seq<
    Slot<Node>,
>
    decreases k,
{
    if k == 0 {
        g
    } else {
        add_revert_execute_cycles(add_revert_execute_cycle(g, h), h, (k - 1) as nat)
    }
}

/// The added node's handle is stable across any number of revert/execute
/// rounds that never call `finalize`: each round restores the pool state,
/// and with it the handle's slot, exactly.
pub proof fn lemma_add_handle_stable(g: Seq<Slot<Node>>, h: Handle, k: nat)
    requires
        slot_live(g, h),
    ensures
        add_revert_execute_cycles(g, h, k) == g,
    decreases k,
{
    if k > 0 {
        let n0 = slot_payload(g, h);
        lemma_add_revert_execute(g, h, n0.base.parent);
        lemma_add_handle_stable(g, h, (k - 1) as nat);
    }
}

} // verus!
