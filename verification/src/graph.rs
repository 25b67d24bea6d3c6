//! The live scene graph: a pool of nodes plus a distinguished root.
//!
//! The graph's structure is the parent relation stored on each node; a
//! node's children are exactly the live nodes whose parent handle points at
//! it. Structural edits go through `take_reserve`/`put_back`, so a removed
//! node keeps its handle for as long as its ticket is alive.

use vstd::prelude::*;

use crate::handle::Handle;
use crate::handle::Ticket;
use crate::node::Node;
use crate::node::Vector3;
use crate::node::Quaternion;
use crate::node::FieldValue;
use crate::node::with_field;
use crate::node::field_of;
use crate::node::with_parent;
use crate::node::with_position;
use crate::node::with_scale;
use crate::node::with_rotation;
use crate::node::with_script;
use crate::node::Script;
use crate::node::Property;
use crate::node::PropertyValue;
use crate::node::with_properties;
use crate::pool::Pool;
use crate::pool::Slot;
use crate::pool::SlotState;
use crate::pool::free_one;
use crate::pool::occupy_one;
use crate::pool::pool_add_spec;
use crate::pool::reserve_one;
use crate::pool::slot_live;
use crate::pool::slot_payload;
use crate::pool::slot_reserved;
use crate::pool::store_all;
use crate::pool::writes_in_bounds;
use crate::pool::distinct_write_indices;
use crate::pool::lemma_store_all_frame;
use crate::pool::lemma_store_all_len;
use crate::pool::lemma_store_all_at;

verus! {

/// The scene graph.
#[derive(Debug)]
pub struct Graph {
    pool: Pool<Node>,
    root: Handle,
}

impl View for Graph {
    type V = Seq<Slot<Node>>;

    closed spec fn view(&self) -> Seq<Slot<Node>> {
        self.pool@
    }
}

impl Graph {
    /// The distinguished root node's handle.
    pub closed spec fn root_spec(self) -> Handle {
        self.root
    }

    /// Returns the root handle.
    pub fn root(&self) -> (h: Handle)
        ensures
            h == self.root_spec(),
    {
        self.root
    }

    /// Creates a graph holding only the given root node.
    pub fn new(root_node: Node) -> (g: Graph)
        ensures
            g@ == Seq::<Slot<Node>>::empty().push(
                Slot {
                    generation: 1,
                    state: SlotState::Occupied(with_parent(root_node, Handle::none_spec())),
                },
            ),
            g.root_spec() == (Handle { index: 0, generation: 1 }),
            slot_live(g@, g.root_spec()),
    {
        let mut pool = Pool::<Node>::new();
        let mut root_node = root_node;
        root_node.base.parent = Handle::none();
        let root = pool.add(root_node);
        Graph { pool, root }
    }

    /// True when `h` resolves to a live node.
    pub fn is_valid_handle(&self, h: Handle) -> (r: bool)
        ensures
            r == slot_live(self@, h),
    {
        self.pool.is_valid(h)
    }

    /// Number of slots the graph has ever grown to.
    pub fn slot_count(&self) -> (n: usize)
        ensures
            n == self@.len(),
    {
        self.pool.slot_count()
    }

    /// Borrows the node `h` resolves to.
    pub fn node(&self, h: Handle) -> (r: &Node)
        requires
            slot_live(self@, h),
        ensures
            *r == slot_payload(self@, h),
    {
        self.pool.borrow(h)
    }

    /// Adds a fresh node, linking it under the root, and returns its handle.
    pub fn add_node(&mut self, node: Node) -> (h: Handle)
        ensures
            (final(self)@, h) == pool_add_spec(
                old(self)@,
                with_parent(node, old(self).root_spec()),
            ),
            slot_live(final(self)@, h),
            slot_payload(final(self)@, h) == with_parent(node, old(self).root_spec()),
            !slot_live(old(self)@, h),
            !slot_reserved(old(self)@, h),
            old(self)@.len() <= final(self)@.len(),
            forall|i: int|
                0 <= i < old(self)@.len() && i != h.index ==> final(self)@[i] == old(self)@[i],
            forall|x: Handle|
                slot_live(old(self)@, x) ==> slot_live(final(self)@, x) && slot_payload(
                    final(self)@,
                    x,
                ) == slot_payload(old(self)@, x),
            forall|x: Handle| slot_reserved(old(self)@, x) ==> slot_reserved(final(self)@, x),
            final(self).root_spec() == old(self).root_spec(),
    {
        let mut node = node;
        node.base.parent = self.root;
        self.pool.add(node)
    }

    /// Re-parents `child` under `parent`; the old parent link is simply
    /// overwritten, which detaches the child from it.
    pub fn link_nodes(&mut self, child: Handle, parent: Handle)
        requires
            slot_live(old(self)@, child),
        ensures
            final(self)@ == occupy_one(
                old(self)@,
                child,
                with_parent(slot_payload(old(self)@, child), parent),
            ),
            final(self).root_spec() == old(self).root_spec(),
    {
        let (ticket, mut node) = self.pool.take_reserve(child);
        node.base.parent = parent;
        let _ = self.pool.put_back(ticket, node);
        proof {
            assert(self@ =~= occupy_one(
                old(self)@,
                child,
                with_parent(slot_payload(old(self)@, child), parent),
            ));
        }
    }

    /// Detaches the node at `h` from the graph, returning it with a cleared
    /// parent link and the ticket that can restore it under the same handle.
    pub fn take_reserve(&mut self, h: Handle) -> (r: (Ticket, Node))
        requires
            slot_live(old(self)@, h),
            h != old(self).root_spec(),
        ensures
            r.0.handle_spec() == h,
            r.1 == with_parent(slot_payload(old(self)@, h), Handle::none_spec()),
            final(self)@ == reserve_one(old(self)@, h),
            final(self).root_spec() == old(self).root_spec(),
    {
        let (ticket, mut node) = self.pool.take_reserve(h);
        node.base.parent = Handle::none();
        (ticket, node)
    }

    /// Restores a detached node under its original handle; the node stays
    /// unlinked until `link_nodes` is called.
    pub fn put_back(&mut self, ticket: Ticket, node: Node) -> (h: Handle)
        requires
            slot_reserved(old(self)@, ticket.handle_spec()),
        ensures
            h == ticket.handle_spec(),
            final(self)@ == occupy_one(old(self)@, h, node),
            final(self).root_spec() == old(self).root_spec(),
    {
        self.pool.put_back(ticket, node)
    }

    /// Permanently frees a detached node's slot; the node is dropped and the
    /// slot may be reused by a later `add_node`.
    pub fn forget_ticket(&mut self, ticket: Ticket, node: Node)
        requires
            slot_reserved(old(self)@, ticket.handle_spec()),
        ensures
            final(self)@ == free_one(old(self)@, ticket.handle_spec()),
            final(self).root_spec() == old(self).root_spec(),
    {
        let _ = node;
        self.pool.forget_ticket(ticket);
    }

    /// Replaces the node's position, returning nothing; used by move edits.
    pub fn set_position(&mut self, h: Handle, v: Vector3)
        requires
            slot_live(old(self)@, h),
        ensures
            final(self)@ == occupy_one(
                old(self)@,
                h,
                with_position(slot_payload(old(self)@, h), v),
            ),
            final(self).root_spec() == old(self).root_spec(),
    {
        let (ticket, mut node) = self.pool.take_reserve(h);
        node.base.local_transform.position = v;
        let _ = self.pool.put_back(ticket, node);
        proof {
            assert(self@ =~= occupy_one(
                old(self)@,
                h,
                with_position(slot_payload(old(self)@, h), v),
            ));
        }
    }

    /// Replaces the node's scale; used by scale edits.
    pub fn set_scale(&mut self, h: Handle, v: Vector3)
        requires
            slot_live(old(self)@, h),
        ensures
            final(self)@ == occupy_one(old(self)@, h, with_scale(slot_payload(old(self)@, h), v)),
            final(self).root_spec() == old(self).root_spec(),
    {
        let (ticket, mut node) = self.pool.take_reserve(h);
        node.base.local_transform.scale = v;
        let _ = self.pool.put_back(ticket, node);
        proof {
            assert(self@ =~= occupy_one(
                old(self)@,
                h,
                with_scale(slot_payload(old(self)@, h), v),
            ));
        }
    }

    /// Replaces the node's rotation; used by rotate edits.
    pub fn set_rotation(&mut self, h: Handle, q: Quaternion)
        requires
            slot_live(old(self)@, h),
        ensures
            final(self)@ == occupy_one(
                old(self)@,
                h,
                with_rotation(slot_payload(old(self)@, h), q),
            ),
            final(self).root_spec() == old(self).root_spec(),
    {
        let (ticket, mut node) = self.pool.take_reserve(h);
        node.base.local_transform.rotation = q;
        let _ = self.pool.put_back(ticket, node);
        proof {
            assert(self@ =~= occupy_one(
                old(self)@,
                h,
                with_rotation(slot_payload(old(self)@, h), q),
            ));
        }
    }

    /// Writes the field selected by `v` and hands back the displaced value,
    /// wrapped in the same accessor variant.
    pub fn replace_field(&mut self, h: Handle, v: FieldValue) -> (prior: FieldValue)
        requires
            slot_live(old(self)@, h),
        ensures
            prior == field_of(slot_payload(old(self)@, h), v),
            final(self)@ == occupy_one(old(self)@, h, with_field(slot_payload(old(self)@, h), v)),
            final(self).root_spec() == old(self).root_spec(),
    {
        let (ticket, mut node) = self.pool.take_reserve(h);
        let prior = match v {
            FieldValue::Name(x) => {
                let mut x = x;
                std::mem::swap(&mut node.base.name, &mut x);
                FieldValue::Name(x)
            },
            FieldValue::Tag(x) => {
                let mut x = x;
                std::mem::swap(&mut node.base.tag, &mut x);
                FieldValue::Tag(x)
            },
            FieldValue::Visibility(x) => {
                let prior = node.base.visibility;
                node.base.visibility = x;
                FieldValue::Visibility(prior)
            },
            FieldValue::FrustumCulling(x) => {
                let prior = node.base.frustum_culling;
                node.base.frustum_culling = x;
                FieldValue::FrustumCulling(prior)
            },
            FieldValue::CastShadows(x) => {
                let prior = node.base.cast_shadows;
                node.base.cast_shadows = x;
                FieldValue::CastShadows(prior)
            },
            FieldValue::Mobility(x) => {
                let prior = node.base.mobility;
                node.base.mobility = x;
                FieldValue::Mobility(prior)
            },
            FieldValue::DepthOffsetFactor(x) => {
                let prior = node.base.depth_offset_factor;
                node.base.depth_offset_factor = x;
                FieldValue::DepthOffsetFactor(prior)
            },
            FieldValue::PostRotation(x) => {
                let prior = node.base.local_transform.post_rotation;
                node.base.local_transform.post_rotation = x;
                FieldValue::PostRotation(prior)
            },
            FieldValue::PreRotation(x) => {
                let prior = node.base.local_transform.pre_rotation;
                node.base.local_transform.pre_rotation = x;
                FieldValue::PreRotation(prior)
            },
            FieldValue::RotationOffset(x) => {
                let prior = node.base.local_transform.rotation_offset;
                node.base.local_transform.rotation_offset = x;
                FieldValue::RotationOffset(prior)
            },
            FieldValue::RotationPivot(x) => {
                let prior = node.base.local_transform.rotation_pivot;
                node.base.local_transform.rotation_pivot = x;
                FieldValue::RotationPivot(prior)
            },
            FieldValue::ScalingOffset(x) => {
                let prior = node.base.local_transform.scaling_offset;
                node.base.local_transform.scaling_offset = x;
                FieldValue::ScalingOffset(prior)
            },
            FieldValue::ScalingPivot(x) => {
                let prior = node.base.local_transform.scaling_pivot;
                node.base.local_transform.scaling_pivot = x;
                FieldValue::ScalingPivot(prior)
            },
        };
        let _ = self.pool.put_back(ticket, node);
        proof {
            assert(self@ =~= occupy_one(
                old(self)@,
                h,
                with_field(slot_payload(old(self)@, h), v),
            ));
        }
        prior
    }

    /// Replaces the node's attached script, returning the one displaced.
    pub fn replace_script(&mut self, h: Handle, script: Option<Script>) -> (prior: Option<
        Script,
    >)
        requires
            slot_live(old(self)@, h),
        ensures
            prior == slot_payload(old(self)@, h).base.script,
            final(self)@ == occupy_one(
                old(self)@,
                h,
                with_script(slot_payload(old(self)@, h), script),
            ),
            final(self).root_spec() == old(self).root_spec(),
    {
        let (ticket, mut node) = self.pool.take_reserve(h);
        let mut script = script;
        std::mem::swap(&mut node.base.script, &mut script);
        let _ = self.pool.put_back(ticket, node);
        proof {
            assert(self@ =~= occupy_one(
                old(self)@,
                h,
                with_script(slot_payload(old(self)@, h), node.base.script),
            ));
        }
        script
    }

    /// Replaces the value of the property at `index`, returning the one
    /// displaced; the property's name and every other entry stay in place.
    pub fn replace_property_value(&mut self, h: Handle, index: usize, value: PropertyValue) -> (prior: PropertyValue)
        requires
            slot_live(old(self)@, h),
            index < slot_payload(old(self)@, h).base.properties@.len(),
        ensures
            prior == slot_payload(old(self)@, h).base.properties@[index as int].value,
            final(self)@ == occupy_one(
                old(self)@,
                h,
                with_properties(
                    slot_payload(old(self)@, h),
                    slot_payload(final(self)@, h).base.properties,
                ),
            ),
            slot_payload(final(self)@, h).base.properties@ == slot_payload(
                old(self)@,
                h,
            ).base.properties@.update(
                index as int,
                Property {
                    name: slot_payload(old(self)@, h).base.properties@[index as int].name,
                    value,
                },
            ),
            final(self).root_spec() == old(self).root_spec(),
    {
        let (ticket, mut node) = self.pool.take_reserve(h);
        let mut value = value;
        let entry = &mut node.base.properties[index];
        std::mem::swap(&mut entry.value, &mut value);
        let _ = self.pool.put_back(ticket, node);
        proof {
            assert(self@ =~= occupy_one(
                old(self)@,
                h,
                with_properties(slot_payload(old(self)@, h), slot_payload(self@, h).base.properties),
            ));
            assert(slot_payload(self@, h).base.properties@ =~= slot_payload(
                old(self)@,
                h,
            ).base.properties@.update(
                index as int,
                Property {
                    name: slot_payload(old(self)@, h).base.properties@[index as int].name,
                    value: node.base.properties@[index as int].value,
                },
            ));
        }
        value
    }

    /// Replaces the name of the property at `index`, returning the one
    /// displaced; the property's value and every other entry stay in place.
    pub fn replace_property_name(&mut self, h: Handle, index: usize, name: String) -> (prior: String)
        requires
            slot_live(old(self)@, h),
            index < slot_payload(old(self)@, h).base.properties@.len(),
        ensures
            prior == slot_payload(old(self)@, h).base.properties@[index as int].name,
            final(self)@ == occupy_one(
                old(self)@,
                h,
                with_properties(
                    slot_payload(old(self)@, h),
                    slot_payload(final(self)@, h).base.properties,
                ),
            ),
            slot_payload(final(self)@, h).base.properties@ == slot_payload(
                old(self)@,
                h,
            ).base.properties@.update(
                index as int,
                Property {
                    name,
                    value: slot_payload(old(self)@, h).base.properties@[index as int].value,
                },
            ),
            final(self).root_spec() == old(self).root_spec(),
    {
        let (ticket, mut node) = self.pool.take_reserve(h);
        let mut name = name;
        let entry = &mut node.base.properties[index];
        std::mem::swap(&mut entry.name, &mut name);
        let _ = self.pool.put_back(ticket, node);
        proof {
            assert(self@ =~= occupy_one(
                old(self)@,
                h,
                with_properties(slot_payload(old(self)@, h), slot_payload(self@, h).base.properties),
            ));
            assert(slot_payload(self@, h).base.properties@ =~= slot_payload(
                old(self)@,
                h,
            ).base.properties@.update(
                index as int,
                Property {
                    name: node.base.properties@[index as int].name,
                    value: slot_payload(old(self)@, h).base.properties@[index as int].value,
                },
            ));
        }
        name
    }

    /// Inserts a property at `index`, shifting later entries up by one.
    pub fn insert_property(&mut self, h: Handle, index: usize, property: Property)
        requires
            slot_live(old(self)@, h),
            index <= slot_payload(old(self)@, h).base.properties@.len(),
        ensures
            final(self)@ == occupy_one(
                old(self)@,
                h,
                with_properties(
                    slot_payload(old(self)@, h),
                    slot_payload(final(self)@, h).base.properties,
                ),
            ),
            slot_payload(final(self)@, h).base.properties@ == slot_payload(
                old(self)@,
                h,
            ).base.properties@.insert(index as int, property),
            final(self).root_spec() == old(self).root_spec(),
    {
        let (ticket, mut node) = self.pool.take_reserve(h);
        node.base.properties.insert(index, property);
        let _ = self.pool.put_back(ticket, node);
        proof {
            assert(self@ =~= occupy_one(
                old(self)@,
                h,
                with_properties(slot_payload(old(self)@, h), slot_payload(self@, h).base.properties),
            ));
        }
    }

    /// Removes and returns the property at `index`, shifting later entries
    /// down by one.
    pub fn remove_property(&mut self, h: Handle, index: usize) -> (removed: Property)
        requires
            slot_live(old(self)@, h),
            index < slot_payload(old(self)@, h).base.properties@.len(),
        ensures
            removed == slot_payload(old(self)@, h).base.properties@[index as int],
            final(self)@ == occupy_one(
                old(self)@,
                h,
                with_properties(
                    slot_payload(old(self)@, h),
                    slot_payload(final(self)@, h).base.properties,
                ),
            ),
            slot_payload(final(self)@, h).base.properties@ == slot_payload(
                old(self)@,
                h,
            ).base.properties@.remove(index as int),
            final(self).root_spec() == old(self).root_spec(),
    {
        let (ticket, mut node) = self.pool.take_reserve(h);
        let removed = node.base.properties.remove(index);
        let _ = self.pool.put_back(ticket, node);
        proof {
            assert(self@ =~= occupy_one(
                old(self)@,
                h,
                with_properties(slot_payload(old(self)@, h), slot_payload(self@, h).base.properties),
            ));
        }
        removed
    }

    /// Collects the handles of the live nodes whose parent link points at
    /// `p`, in slot order.
    pub fn children_of(&self, p: Handle) -> (r: Vec<Handle>)
        ensures
            forall|x: Handle| #[trigger]
                r@.contains(x) <==> (slot_live(self@, x) && slot_payload(self@, x).base.parent
                    == p),
            forall|j: int, k: int|
                0 <= j < k < r@.len() ==> (#[trigger] r@[j]).index != (#[trigger] r@[k]).index,
    {
        let ghost s = self@;
        let n = self.pool.slot_count();
        let mut r: Vec<Handle> = Vec::new();
        let mut i: usize = 0;
        while i < n
            invariant
                n == s.len(),
                self@ == s,
                0 <= i <= n,
                forall|j: int|
                    0 <= j < r@.len() ==> slot_live(s, #[trigger] r@[j]) && slot_payload(
                        s,
                        r@[j],
                    ).base.parent == p && r@[j].index < i,
                forall|j: int, k: int|
                    0 <= j < k < r@.len() ==> (#[trigger] r@[j]).index != (
                    #[trigger] r@[k]).index,
                forall|x: Handle|
                    (slot_live(s, x) && slot_payload(s, x).base.parent == p && x.index < i)
                        ==> #[trigger] r@.contains(x),
            decreases n - i,
        {
            let ghost r0 = r@;
            let h = Handle { index: i, generation: self.pool_generation_at(i) };
            if self.pool.is_valid(h) && self.pool.borrow(h).base.parent == p {
                r.push(h);
            }
            proof {
                assert forall|x: Handle|
                    (slot_live(s, x) && slot_payload(s, x).base.parent == p && x.index < i
                        + 1) implies #[trigger] r@.contains(x) by {
                    if x.index < i {
                        assert(r0.contains(x));
                        let j = choose|j: int| 0 <= j < r0.len() && r0[j] == x;
                        assert(r@[j] == x);
                        assert(r@.contains(x));
                    } else {
                        assert(x == h);
                        assert(r@.last() == h);
                    }
                }
            }
            i = i + 1;
        }
        proof {
            assert forall|x: Handle| #[trigger]
                r@.contains(x) implies (slot_live(s, x) && slot_payload(s, x).base.parent
                == p) by {
                let j = choose|j: int| 0 <= j < r@.len() && r@[j] == x;
                assert(slot_live(s, r@[j]));
            }
        }
        r
    }

    /// Reads the generation counter of slot `i`.
    fn pool_generation_at(&self, i: usize) -> (g: u64)
        requires
            i < self@.len(),
        ensures
            g == self@[i as int].generation,
    {
        self.pool.generation_at(i)
    }
}


/// The parent chain starting at `x` hits `r` within `fuel` steps.
///
/// The parent relation is deterministic, so a node that can reach `r` at
/// all reaches it on a duplicate-free chain; a fuel of the slot count is
/// therefore always enough, and a chain trapped in a cycle simply runs out.
pub open spec fn reaches(s: Seq<Slot<Node>>, x: Handle, r: Handle, fuel: nat) -> bool
    decreases fuel,
{
    x == r || (fuel > 0 && slot_live(s, x) && reaches(
        s,
        slot_payload(s, x).base.parent,
        r,
        (fuel - 1) as nat,
    ))
}

/// `x` belongs to the sub-graph rooted at `r`: it is live and its parent
/// chain leads to `r`.
pub open spec fn in_sub_graph(s: Seq<Slot<Node>>, x: Handle, r: Handle) -> bool {
    slot_live(s, x) && reaches(s, x, r, s.len() as nat)
}

/// More fuel never loses reachability.
pub proof fn lemma_reaches_monotone(s: Seq<Slot<Node>>, x: Handle, r: Handle, f1: nat, f2: nat)
    requires
        reaches(s, x, r, f1),
        f1 <= f2,
    ensures
        reaches(s, x, r, f2),
    decreases f1,
{
    if x != r {
        lemma_reaches_monotone(
            s,
            slot_payload(s, x).base.parent,
            r,
            (f1 - 1) as nat,
            (f2 - 1) as nat,
        );
    }
}

/// The sub-graph is closed towards the root: the stored parent link of any
/// member other than the root leads to another member or to the root
/// itself, so extraction never severs an internal edge.
pub proof fn lemma_sub_graph_parents_internal(s: Seq<Slot<Node>>, x: Handle, r: Handle)
    requires
        in_sub_graph(s, x, r),
        x != r,
    ensures
        slot_payload(s, x).base.parent == r || in_sub_graph(
            s,
            slot_payload(s, x).base.parent,
            r,
        ),
{
    let parent = slot_payload(s, x).base.parent;
    assert(reaches(s, parent, r, (s.len() - 1) as nat));
    if parent != r {
        lemma_reaches_monotone(s, parent, r, (s.len() - 1) as nat, s.len() as nat);
    }
}

/// A detached rooted subtree: the root's ticket/node pair plus one pair per
/// descendant, each node stored verbatim so the whole tree can be reinserted
/// intact with its original handles, or forgotten as one unit.
#[derive(Debug)]
pub struct SubGraph {
    root: (Ticket, Node),
    descendants: Vec<(Ticket, Node)>,
}

impl SubGraph {
    /// All ticket/node pairs, root first.
    pub closed spec fn pairs(self) -> Seq<(Ticket, Node)> {
        seq![self.root].add(self.descendants@)
    }

    /// All handles held by the sub-graph, root first.
    pub open spec fn handles(self) -> Seq<Handle> {
        self.pairs().map_values(|p: (Ticket, Node)| p.0.handle_spec())
    }

    /// The root pair's handle.
    pub open spec fn root_handle_spec(self) -> Handle {
        self.pairs()[0].0.handle_spec()
    }

    /// The root pair's node.
    pub open spec fn root_node_spec(self) -> Node {
        self.pairs()[0].1
    }

    /// The batch of writes that detaching this sub-graph performed.
    pub open spec fn reserve_writes(self) -> Seq<(Handle, SlotState<Node>)> {
        self.pairs().map_values(|p: (Ticket, Node)| (p.0.handle_spec(), SlotState::<Node>::Reserved))
    }

    /// The batch of writes that reinserting this sub-graph performs.
    pub open spec fn occupy_writes(self) -> Seq<(Handle, SlotState<Node>)> {
        self.pairs().map_values(|p: (Ticket, Node)| (p.0.handle_spec(), SlotState::Occupied(p.1)))
    }

    /// The batch of writes that forgetting this sub-graph performs.
    pub open spec fn free_writes(self) -> Seq<(Handle, SlotState<Node>)> {
        self.pairs().map_values(|p: (Ticket, Node)| (p.0.handle_spec(), SlotState::<Node>::Free))
    }

    /// Every slot the sub-graph came from is still reserved for it, and no
    /// two pairs point at the same slot: reinsertion cannot collide.
    pub open spec fn fits(self, s: Seq<Slot<Node>>) -> bool {
        &&& forall|j: int|
            0 <= j < self.pairs().len() ==> slot_reserved(s, (#[trigger] self.pairs()[j]).0.handle_spec())
        &&& forall|j: int, k: int|
            0 <= j < k < self.pairs().len() ==> (#[trigger] self.pairs()[j]).0.handle_spec().index
                != (#[trigger] self.pairs()[k]).0.handle_spec().index
    }

    /// Shape facts every sub-graph satisfies by construction: there is at
    /// least the root pair, and the handle sequence mirrors the pairs.
    pub proof fn lemma_shape(self)
        ensures
            self.pairs().len() >= 1,
            self.handles().len() == self.pairs().len(),
            self.reserve_writes().len() == self.pairs().len(),
            self.occupy_writes().len() == self.pairs().len(),
            self.free_writes().len() == self.pairs().len(),
            forall|j: int|
                0 <= j < self.pairs().len() ==> self.handles()[j] == (
                #[trigger] self.pairs()[j]).0.handle_spec(),
            self.root_handle_spec() == self.handles()[0],
            self.root_node_spec() == self.pairs()[0].1,
    {
    }

    /// Returns the handle the root will be restored under.
    pub fn root_handle(&self) -> (h: Handle)
        ensures
            h == self.root_handle_spec(),
    {
        let t = &self.root.0;
        Handle { index: t.index(), generation: t.generation() }
    }
}

impl Graph {
    /// Executable test of `reaches` with fuel equal to the slot count.
    fn reaches_root(&self, x: Handle, r: Handle) -> (b: bool)
        ensures
            b == reaches(self@, x, r, self@.len() as nat),
    {
        let ghost s = self@;
        let ghost n = self@.len() as nat;
        let mut cur = x;
        let mut fuel = self.pool.slot_count();
        loop
            invariant
                self@ == s,
                n == s.len() as nat,
                fuel <= s.len(),
                reaches(s, x, r, n) == reaches(s, cur, r, fuel as nat),
            decreases fuel,
        {
            if cur == r {
                return true;
            }
            if fuel == 0 {
                return false;
            }
            if !self.pool.is_valid(cur) {
                return false;
            }
            let next = self.pool.borrow(cur).base.parent;
            proof {
                assert(reaches(s, cur, r, fuel as nat) == reaches(
                    s,
                    slot_payload(s, cur).base.parent,
                    r,
                    (fuel - 1) as nat,
                ));
            }
            cur = next;
            fuel = fuel - 1;
        }
    }

    /// Collects the handles of the proper descendants of `r`, in slot order.
    fn collect_descendants(&self, r: Handle) -> (hs: Vec<Handle>)
        requires
            slot_live(self@, r),
        ensures
            forall|j: int|
                0 <= j < hs@.len() ==> in_sub_graph(self@, #[trigger] hs@[j], r) && hs@[j] != r,
            forall|x: Handle|
                (in_sub_graph(self@, x, r) && x != r) ==> #[trigger] hs@.contains(x),
            forall|j: int, k: int|
                0 <= j < k < hs@.len() ==> (#[trigger] hs@[j]).index != (#[trigger] hs@[k]).index,
            forall|j: int| 0 <= j < hs@.len() ==> (#[trigger] hs@[j]).index != r.index,
    {
        let ghost s = self@;
        let n = self.pool.slot_count();
        let mut hs: Vec<Handle> = Vec::new();
        let mut i: usize = 0;
        while i < n
            invariant
                n == s.len(),
                self@ == s,
                0 <= i <= n,
                forall|j: int|
                    0 <= j < hs@.len() ==> in_sub_graph(s, #[trigger] hs@[j], r) && hs@[j] != r
                        && hs@[j].index < i,
                forall|x: Handle|
                    (in_sub_graph(s, x, r) && x != r && x.index < i) ==> #[trigger] hs@.contains(
                        x,
                    ),
                forall|j: int, k: int|
                    0 <= j < k < hs@.len() ==> (#[trigger] hs@[j]).index != (
                    #[trigger] hs@[k]).index,
            decreases n - i,
        {
            let ghost hs0 = hs@;
            let h = Handle { index: i, generation: self.pool_generation_at(i) };
            if h != r && self.pool.is_valid(h) && self.reaches_root(h, r) {
                hs.push(h);
            }
            proof {
                assert forall|x: Handle|
                    (in_sub_graph(s, x, r) && x != r && x.index < i + 1) implies #[trigger] hs@
                    .contains(x) by {
                    if x.index < i {
                        assert(hs0.contains(x));
                        let j = choose|j: int| 0 <= j < hs0.len() && hs0[j] == x;
                        assert(hs@[j] == x);
                        assert(hs@.contains(x));
                    } else {
                        assert(x == h);
                        assert(hs@.last() == h);
                    }
                }
            }
            i = i + 1;
        }
        proof {
            assert forall|j: int| 0 <= j < hs@.len() implies (#[trigger] hs@[j]).index
                != r.index by {
                if hs@[j].index == r.index {
                    assert(slot_live(s, hs@[j]));
                    assert(hs@[j].generation == s[r.index as int].generation);
                    assert(r.generation == s[r.index as int].generation);
                    assert(hs@[j] == r);
                }
            }
        }
        hs
    }
}


impl Graph {
    /// Detaches the node at `root` and its entire descendant subtree as one
    /// unit, preserving internal parent links and original handles.
    ///
    /// The returned sub-graph holds one ticket/node pair per extracted node;
    /// every slot of the subtree is left reserved, so no later addition can
    /// steal a handle before the sub-graph is reinserted or forgotten.
    pub fn take_reserve_sub_graph(&mut self, root: Handle) -> (sg: SubGraph)
        requires
            slot_live(old(self)@, root),
            root != old(self).root_spec(),
        ensures
            sg.root_handle_spec() == root,
            sg.root_node_spec() == with_parent(
                slot_payload(old(self)@, root),
                Handle::none_spec(),
            ),
            sg.handles()[0] == root,
            sg.handles().len() == sg.pairs().len(),
            forall|j: int|
                1 <= j < sg.handles().len() ==> in_sub_graph(
                    old(self)@,
                    #[trigger] sg.handles()[j],
                    root,
                ) && sg.handles()[j] != root,
            forall|j: int|
                1 <= j < sg.pairs().len() ==> (#[trigger] sg.pairs()[j]).1 == slot_payload(
                    old(self)@,
                    sg.handles()[j],
                ),
            forall|x: Handle|
                (in_sub_graph(old(self)@, x, root) && x != root) ==> #[trigger] sg.handles()
                    .contains(x),
            final(self)@ == store_all(old(self)@, sg.reserve_writes()),
            sg.fits(final(self)@),
            final(self).root_spec() == old(self).root_spec(),
    {
        let ghost s0 = self@;
        let hs = self.collect_descendants(root);
        let ghost hsv = hs@;
        let (root_ticket, root_node) = self.take_reserve(root);
        let ghost ws = seq![(root, SlotState::<Node>::Reserved)].add(
            hsv.map_values(|x: Handle| (x, SlotState::<Node>::Reserved)),
        );
        proof {
            assert(writes_in_bounds(ws, s0.len() as int)) by {
                assert forall|k: int| 0 <= k < ws.len() implies (#[trigger] ws[k]).0.index
                    < s0.len() by {
                    if k >= 1 {
                        assert(in_sub_graph(s0, hsv[k - 1], root));
                    }
                }
            }
            assert(distinct_write_indices(ws)) by {
                assert forall|j2: int, k: int| 0 <= j2 < k < ws.len() implies (
                #[trigger] ws[j2]).0.index != (#[trigger] ws[k]).0.index by {
                    if j2 >= 1 {
                        assert(ws[j2].0 == hsv[j2 - 1]);
                    }
                    if j2 == 0 {
                        assert(ws[k].0 == hsv[k - 1]);
                        assert(hsv[k - 1].index != root.index);
                    }
                }
            }
            assert(ws.take(1).drop_last() =~= Seq::<(Handle, SlotState<Node>)>::empty());
            assert(store_all(s0, ws.take(1).drop_last()) == s0);
            assert(ws.take(1).last() == (root, SlotState::<Node>::Reserved));
            assert(self@ =~= store_all(s0, ws.take(1)));
        }
        let mut descendants: Vec<(Ticket, Node)> = Vec::new();
        let n = hs.len();
        let mut j: usize = 0;
        while j < n
            invariant
                n == hsv.len(),
                hs@ == hsv,
                0 <= j <= n,
                s0.len() >= 1,
                slot_live(s0, root),
                forall|k: int|
                    0 <= k < hsv.len() ==> in_sub_graph(s0, #[trigger] hsv[k], root) && hsv[k]
                        != root,
                forall|j2: int, k: int|
                    0 <= j2 < k < hsv.len() ==> (#[trigger] hsv[j2]).index != (
                    #[trigger] hsv[k]).index,
                forall|k: int| 0 <= k < hsv.len() ==> (#[trigger] hsv[k]).index != root.index,
                ws.len() == 1 + hsv.len(),
                ws[0] == (root, SlotState::<Node>::Reserved),
                forall|k: int|
                    0 <= k < hsv.len() ==> ws[1 + k] == (#[trigger] hsv[k],
                    SlotState::<Node>::Reserved),
                writes_in_bounds(ws, s0.len() as int),
                distinct_write_indices(ws),
                self@ == store_all(s0, ws.take(1 + j)),
                self.root_spec() == old(self).root_spec(),
                descendants@.len() == j,
                forall|k: int|
                    0 <= k < j ==> (#[trigger] descendants@[k]).0.handle_spec() == hsv[k]
                        && descendants@[k].1 == slot_payload(s0, hsv[k]),
            decreases n - j,
        {
            let h = hs[j];
            proof {
                assert(writes_in_bounds(ws.take(1 + j), s0.len() as int));
                assert forall|k: int| 0 <= k < ws.take(1 + j as int).len() implies (
                #[trigger] ws.take(1 + j as int)[k]).0.index != h.index as int by {
                    if k >= 1 {
                        assert(ws[k].0 == hsv[k - 1]);
                    }
                }
                lemma_store_all_frame(s0, ws.take(1 + j as int), h.index as int);
                lemma_store_all_len(s0, ws.take(1 + j as int));
                assert(in_sub_graph(s0, h, root));
                assert(slot_live(self@, h));
            }
            let (t, nd) = self.pool.take_reserve(h);
            descendants.push((t, nd));
            proof {
                assert(ws.take(2 + j).drop_last() =~= ws.take(1 + j));
                assert(ws.take(2 + j).last() == (h, SlotState::<Node>::Reserved));
                assert(self@ =~= store_all(s0, ws.take(2 + j)));
            }
            j = j + 1;
        }
        let sg = SubGraph { root: (root_ticket, root_node), descendants };
        proof {
            assert(ws.take(1 + n) =~= ws);
            assert(sg.pairs().len() == 1 + n);
            assert(sg.pairs()[0] == (root_ticket, root_node));
            assert forall|k: int| 1 <= k < sg.pairs().len() implies #[trigger] sg.pairs()[k]
                == descendants@[k - 1] by {
                assert(sg.pairs()[k] == seq![(root_ticket, root_node)].add(descendants@)[k]);
            }
            assert(sg.handles() =~= seq![root].add(hsv));
            assert(sg.reserve_writes() =~= ws);
            assert(final(self)@ == store_all(s0, sg.reserve_writes()));
            assert forall|k: int| 0 <= k < sg.pairs().len() implies slot_reserved(
                final(self)@,
                (#[trigger] sg.pairs()[k]).0.handle_spec(),
            ) by {
                lemma_store_all_at(s0, ws, k);
                assert(sg.pairs()[k].0.handle_spec() == ws[k].0);
            }
            assert forall|x: Handle|
                (in_sub_graph(s0, x, root) && x != root) implies #[trigger] sg.handles()
                .contains(x) by {
                assert(hsv.contains(x));
                let k = choose|k: int| 0 <= k < hsv.len() && hsv[k] == x;
                assert(sg.handles()[1 + k] == x);
            }
        }
        sg
    }

    /// Reinserts a detached sub-graph, restoring every node under its
    /// original handle, and returns the root's handle. The root stays
    /// unlinked until `link_nodes` is called.
    pub fn put_sub_graph_back(&mut self, sub_graph: SubGraph) -> (h: Handle)
        requires
            sub_graph.fits(old(self)@),
        ensures
            h == sub_graph.root_handle_spec(),
            final(self)@ == store_all(old(self)@, sub_graph.occupy_writes()),
            final(self).root_spec() == old(self).root_spec(),
    {
        let ghost s0 = self@;
        let ghost pairs0 = sub_graph.pairs();
        let ghost ws = sub_graph.occupy_writes();
        proof {
            assert(writes_in_bounds(ws, s0.len() as int)) by {
                assert forall|k: int| 0 <= k < ws.len() implies (#[trigger] ws[k]).0.index
                    < s0.len() by {
                    assert(slot_reserved(s0, pairs0[k].0.handle_spec()));
                }
            }
            assert(distinct_write_indices(ws)) by {
                assert forall|j2: int, k: int| 0 <= j2 < k < ws.len() implies (
                #[trigger] ws[j2]).0.index != (#[trigger] ws[k]).0.index by {
                    assert(pairs0[j2].0.handle_spec().index != pairs0[k].0.handle_spec().index);
                }
            }
        }
        let SubGraph { root: root_pair, descendants } = sub_graph;
        let (root_ticket, root_node) = root_pair;
        proof {
            assert(pairs0[0] == (root_ticket, root_node));
            assert(slot_reserved(s0, pairs0[0].0.handle_spec()));
            assert(slot_reserved(s0, root_ticket.handle_spec()));
        }
        let h = self.pool.put_back(root_ticket, root_node);
        proof {
            assert(ws.take(1).drop_last() =~= Seq::<(Handle, SlotState<Node>)>::empty());
            assert(store_all(s0, ws.take(1).drop_last()) == s0);
            assert(ws[0] == (pairs0[0].0.handle_spec(), SlotState::Occupied(pairs0[0].1)));
            assert(ws.take(1).last() == ws[0]);
            assert(self@ =~= store_all(s0, ws.take(1)));
        }
        let ghost d0 = descendants@;
        proof {
            assert(pairs0 =~= seq![(root_ticket, root_node)].add(d0));
            assert(d0 =~= d0.skip(0));
            assert forall|k: int| 0 <= k < d0.len() implies pairs0[1 + k] == #[trigger] d0[k] by {}
        }
        let mut descendants = descendants;
        let n = descendants.len();
        let mut j: usize = 0;
        while j < n
            invariant
                n == d0.len(),
                0 <= j <= n,
                descendants@ == d0.skip(j as int),
                pairs0.len() == 1 + n,
                forall|k: int| 0 <= k < n ==> pairs0[1 + k] == #[trigger] d0[k],
                ws == pairs0.map_values(
                    |p: (Ticket, Node)| (p.0.handle_spec(), SlotState::<Node>::Occupied(p.1)),
                ),
                forall|k: int|
                    0 <= k < pairs0.len() ==> slot_reserved(
                        s0,
                        (#[trigger] pairs0[k]).0.handle_spec(),
                    ),
                writes_in_bounds(ws, s0.len() as int),
                distinct_write_indices(ws),
                self@ == store_all(s0, ws.take(1 + j)),
                self.root_spec() == old(self).root_spec(),
            decreases n - j,
        {
            let (t, nd) = descendants.remove(0);
            proof {
                assert(descendants@ =~= d0.skip(j + 1));
                assert(t == d0[j as int].0 && nd == d0[j as int].1);
                assert(pairs0[1 + j] == d0[j as int]);
                assert(writes_in_bounds(ws.take(1 + j), s0.len() as int));
                assert forall|k: int| 0 <= k < ws.take(1 + j as int).len() implies (
                #[trigger] ws.take(1 + j as int)[k]).0.index != t.handle_spec().index as int by {
                    assert(ws[k].0 == pairs0[k].0.handle_spec());
                    assert(ws[1 + j].0 == t.handle_spec());
                }
                lemma_store_all_frame(s0, ws.take(1 + j as int), t.handle_spec().index as int);
                lemma_store_all_len(s0, ws.take(1 + j as int));
                assert(slot_reserved(self@, t.handle_spec()));
            }
            let _ = self.pool.put_back(t, nd);
            proof {
                assert(ws.take(2 + j).drop_last() =~= ws.take(1 + j));
                assert(ws.take(2 + j).last() == (t.handle_spec(), SlotState::Occupied(nd)));
                assert(self@ =~= store_all(s0, ws.take(2 + j)));
            }
            j = j + 1;
        }
        proof {
            assert(ws.take(1 + n) =~= ws);
        }
        h
    }

    /// Permanently frees every slot a detached sub-graph came from; the
    /// nodes are dropped and the slots may be reused.
    pub fn forget_sub_graph(&mut self, sub_graph: SubGraph)
        requires
            sub_graph.fits(old(self)@),
        ensures
            final(self)@ == store_all(old(self)@, sub_graph.free_writes()),
            final(self).root_spec() == old(self).root_spec(),
    {
        let ghost s0 = self@;
        let ghost pairs0 = sub_graph.pairs();
        let ghost ws = sub_graph.free_writes();
        proof {
            assert(writes_in_bounds(ws, s0.len() as int)) by {
                assert forall|k: int| 0 <= k < ws.len() implies (#[trigger] ws[k]).0.index
                    < s0.len() by {
                    assert(slot_reserved(s0, pairs0[k].0.handle_spec()));
                }
            }
            assert(distinct_write_indices(ws)) by {
                assert forall|j2: int, k: int| 0 <= j2 < k < ws.len() implies (
                #[trigger] ws[j2]).0.index != (#[trigger] ws[k]).0.index by {
                    assert(pairs0[j2].0.handle_spec().index != pairs0[k].0.handle_spec().index);
                }
            }
        }
        let SubGraph { root: root_pair, descendants } = sub_graph;
        let (root_ticket, root_node) = root_pair;
        let _ = root_node;
        proof {
            assert(pairs0[0] == (root_ticket, root_node));
            assert(slot_reserved(s0, pairs0[0].0.handle_spec()));
            assert(slot_reserved(s0, root_ticket.handle_spec()));
        }
        self.pool.forget_ticket(root_ticket);
        proof {
            assert(ws.take(1).drop_last() =~= Seq::<(Handle, SlotState<Node>)>::empty());
            assert(store_all(s0, ws.take(1).drop_last()) == s0);
            assert(ws[0] == (pairs0[0].0.handle_spec(), SlotState::<Node>::Free));
            assert(ws.take(1).last() == ws[0]);
            assert(self@ =~= store_all(s0, ws.take(1)));
        }
        let ghost d0 = descendants@;
        proof {
            assert(pairs0 =~= seq![(root_ticket, root_node)].add(d0));
            assert(d0 =~= d0.skip(0));
            assert forall|k: int| 0 <= k < d0.len() implies pairs0[1 + k] == #[trigger] d0[k] by {}
        }
        let mut descendants = descendants;
        let n = descendants.len();
        let mut j: usize = 0;
        while j < n
            invariant
                n == d0.len(),
                0 <= j <= n,
                descendants@ == d0.skip(j as int),
                pairs0.len() == 1 + n,
                forall|k: int| 0 <= k < n ==> pairs0[1 + k] == #[trigger] d0[k],
                ws == pairs0.map_values(
                    |p: (Ticket, Node)| (p.0.handle_spec(), SlotState::<Node>::Free),
                ),
                forall|k: int|
                    0 <= k < pairs0.len() ==> slot_reserved(
                        s0,
                        (#[trigger] pairs0[k]).0.handle_spec(),
                    ),
                writes_in_bounds(ws, s0.len() as int),
                distinct_write_indices(ws),
                self@ == store_all(s0, ws.take(1 + j)),
                self.root_spec() == old(self).root_spec(),
            decreases n - j,
        {
            let (t, nd) = descendants.remove(0);
            let _ = nd;
            proof {
                assert(descendants@ =~= d0.skip(j + 1));
                assert(t == d0[j as int].0);
                assert(pairs0[1 + j] == d0[j as int]);
                assert(writes_in_bounds(ws.take(1 + j), s0.len() as int));
                assert forall|k: int| 0 <= k < ws.take(1 + j as int).len() implies (
                #[trigger] ws.take(1 + j as int)[k]).0.index != t.handle_spec().index as int by {
                    assert(ws[k].0 == pairs0[k].0.handle_spec());
                    assert(ws[1 + j] .0 == t.handle_spec());
                }
                lemma_store_all_frame(s0, ws.take(1 + j as int), t.handle_spec().index as int);
                lemma_store_all_len(s0, ws.take(1 + j as int));
                assert(slot_reserved(self@, t.handle_spec()));
            }
            self.pool.forget_ticket(t);
            proof {
                assert(ws.take(2 + j).drop_last() =~= ws.take(1 + j));
                assert(ws.take(2 + j).last() == (t.handle_spec(), SlotState::<Node>::Free));
                assert(self@ =~= store_all(s0, ws.take(2 + j)));
            }
            j = j + 1;
        }
        proof {
            assert(ws.take(1 + n) =~= ws);
        }
    }
}

} // verus!
