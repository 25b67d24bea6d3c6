//! Bulk commands: deleting a whole subtree, and adding an imported model
//! together with its animations.
//!
//! Both generalize the single-node pair to a detached `SubGraph`. The model
//! command additionally moves a set of animation ticket/animation pairs in
//! lockstep with the nodes: undoing a model load detaches both the nodes
//! and their animations, and redoing re-admits both under their original
//! handles.

use vstd::prelude::*;

use crate::graph::SubGraph;
use crate::graph::in_sub_graph;
use crate::handle::Handle;
use crate::handle::Ticket;
use crate::node::Node;
use crate::node::with_parent;
use crate::pool::Slot;
use crate::pool::SlotState;
use crate::pool::distinct_write_indices;
use crate::pool::lemma_store_all_at;
use crate::pool::lemma_store_all_frame;
use crate::pool::lemma_store_all_len;
use crate::pool::occupy_one;
use crate::pool::slot_live;
use crate::pool::slot_payload;
use crate::pool::slot_reserved;
use crate::pool::store_all;
use crate::pool::writes_in_bounds;
use crate::scene::Animation;
use crate::scene::SceneContext;

verus! {

/// Deletes the subtree rooted at one node; undo reinserts every node of
/// the subtree under its original handle and re-links the root to its
/// recorded parent.
#[derive(Debug)]
pub struct DeleteSubGraphCommand {
    pub sub_graph_root: Handle,
    pub sub_graph: Option<SubGraph>,
    pub parent: Handle,
}

impl DeleteSubGraphCommand {
    /// Targets the subtree rooted at `sub_graph_root`.
    pub fn new(sub_graph_root: Handle) -> (c: DeleteSubGraphCommand)
        ensures
            c.sub_graph_root == sub_graph_root,
            c.sub_graph is None,
            c.parent == Handle::none_spec(),
    {
        DeleteSubGraphCommand { sub_graph_root, sub_graph: None, parent: Handle::none() }
    }

    /// The display label of this command.
    pub fn name(&self, _context: &SceneContext) -> (r: String)
        ensures
            r@ == "Delete Sub Graph"@,
    {
        "Delete Sub Graph".to_owned()
    }

    /// Records the root's parent, then detaches the whole subtree.
    pub fn execute(&mut self, context: &mut SceneContext)
        requires
            slot_live(old(context).scene.graph@, old(self).sub_graph_root),
            old(self).sub_graph_root != old(context).scene.graph.root_spec(),
            old(self).sub_graph is None,
        ensures
            final(self).sub_graph_root == old(self).sub_graph_root,
            final(self).parent == slot_payload(
                old(context).scene.graph@,
                old(self).sub_graph_root,
            ).base.parent,
            final(self).sub_graph matches Some(sg) && {
                &&& sg.root_handle_spec() == old(self).sub_graph_root
                &&& sg.root_node_spec() == with_parent(
                    slot_payload(old(context).scene.graph@, old(self).sub_graph_root),
                    Handle::none_spec(),
                )
                &&& sg.handles()[0] == old(self).sub_graph_root
                &&& sg.handles().len() == sg.pairs().len()
                &&& forall|j: int|
                    1 <= j < sg.handles().len() ==> in_sub_graph(
                        old(context).scene.graph@,
                        #[trigger] sg.handles()[j],
                        old(self).sub_graph_root,
                    )
                &&& forall|j: int|
                    1 <= j < sg.pairs().len() ==> (#[trigger] sg.pairs()[j]).1 == slot_payload(
                        old(context).scene.graph@,
                        sg.handles()[j],
                    )
                &&& forall|x: Handle|
                    (in_sub_graph(old(context).scene.graph@, x, old(self).sub_graph_root) && x
                        != old(self).sub_graph_root) ==> #[trigger] sg.handles().contains(x)
                &&& final(context).scene.graph@ == store_all(
                    old(context).scene.graph@,
                    sg.reserve_writes(),
                )
                &&& sg.fits(final(context).scene.graph@)
            },
            !slot_live(final(context).scene.graph@, old(self).sub_graph_root),
            final(context).scene.graph.root_spec() == old(context).scene.graph.root_spec(),
            final(context).scene.animations == old(context).scene.animations,
    {
        self.parent = context.scene.graph.node(self.sub_graph_root).parent();
        let sg = context.scene.graph.take_reserve_sub_graph(self.sub_graph_root);
        proof {
            sg.lemma_shape();
            assert(slot_reserved(context.scene.graph@, sg.pairs()[0].0.handle_spec()));
        }
        self.sub_graph = Some(sg);
    }

    /// Reinserts the subtree and re-links its root to the recorded parent.
    pub fn revert(&mut self, context: &mut SceneContext)
        requires
            old(self).sub_graph matches Some(sg) && sg.fits(old(context).scene.graph@)
                && sg.root_handle_spec() == old(self).sub_graph_root,
        ensures
            final(self).sub_graph_root == old(self).sub_graph_root,
            final(self).parent == old(self).parent,
            final(self).sub_graph is None,
            final(context).scene.graph@ == occupy_one(
                store_all(
                    old(context).scene.graph@,
                    old(self).sub_graph->0.occupy_writes(),
                ),
                old(self).sub_graph_root,
                with_parent(old(self).sub_graph->0.root_node_spec(), old(self).parent),
            ),
            final(context).scene.graph.root_spec() == old(context).scene.graph.root_spec(),
            final(context).scene.animations == old(context).scene.animations,
    {
        let ghost g0 = context.scene.graph@;
        let mut sub_graph: Option<SubGraph> = None;
        std::mem::swap(&mut self.sub_graph, &mut sub_graph);
        let sg = match sub_graph {
            Some(sg) => sg,
            None => vstd::pervasive::unreached(),
        };
        let root = context.scene.graph.put_sub_graph_back(sg);
        proof {
            let sgv = old(self).sub_graph->0;
            let ws = sgv.occupy_writes();
            sgv.lemma_shape();
            assert(writes_in_bounds(ws, g0.len() as int)) by {
                assert forall|k: int| 0 <= k < ws.len() implies (#[trigger] ws[k]).0.index
                    < g0.len() by {
                    assert(slot_reserved(g0, sgv.pairs()[k].0.handle_spec()));
                }
            }
            assert(distinct_write_indices(ws)) by {
                assert forall|j2: int, k: int| 0 <= j2 < k < ws.len() implies (
                #[trigger] ws[j2]).0.index != (#[trigger] ws[k]).0.index by {
                    assert(sgv.pairs()[j2].0.handle_spec().index != sgv.pairs()[k].0.handle_spec().index);
                }
            }
            lemma_store_all_at(g0, ws, 0);
            assert(slot_reserved(g0, sgv.pairs()[0].0.handle_spec()));
            assert(slot_live(context.scene.graph@, root));
            assert(slot_payload(context.scene.graph@, root) == sgv.root_node_spec());
        }
        context.scene.graph.link_nodes(root, self.parent);
    }

    /// Permanently frees every slot of the subtree if the deletion was
    /// never undone.
    pub fn finalize(&mut self, context: &mut SceneContext)
        requires
            old(self).sub_graph matches Some(sg) ==> sg.fits(old(context).scene.graph@),
        ensures
            final(self).sub_graph is None,
            final(self).sub_graph_root == old(self).sub_graph_root,
            final(self).parent == old(self).parent,
            old(self).sub_graph matches Some(sg) ==> final(context).scene.graph@ == store_all(
                old(context).scene.graph@,
                sg.free_writes(),
            ),
            old(self).sub_graph is None ==> final(context).scene.graph@ == old(
                context,
            ).scene.graph@,
            final(context).scene.graph.root_spec() == old(context).scene.graph.root_spec(),
            final(context).scene.animations == old(context).scene.animations,
    {
        let mut sub_graph: Option<SubGraph> = None;
        std::mem::swap(&mut self.sub_graph, &mut sub_graph);
        if let Some(sg) = sub_graph {
            context.scene.graph.forget_sub_graph(sg);
        }
    }
}

/// Deleting a subtree and reverting the deletion restores the pool state
/// exactly: every extracted node returns to its original slot with its
/// original handle, and every internal parent link is as before.
pub proof fn lemma_delete_sub_graph_execute_revert(g: Seq<Slot<Node>>, sg: SubGraph, root: Handle)
    requires
        slot_live(g, root),
        sg.root_handle_spec() == root,
        sg.root_node_spec() == with_parent(slot_payload(g, root), Handle::none_spec()),
        sg.handles()[0] == root,
        sg.handles().len() == sg.pairs().len(),
        forall|j: int| 1 <= j < sg.handles().len() ==> slot_live(g, #[trigger] sg.handles()[j]),
        forall|j: int|
            1 <= j < sg.pairs().len() ==> (#[trigger] sg.pairs()[j]).1 == slot_payload(
                g,
                sg.handles()[j],
            ),
        forall|j: int, k: int|
            0 <= j < k < sg.pairs().len() ==> (#[trigger] sg.pairs()[j]).0.handle_spec().index != (
            #[trigger] sg.pairs()[k]).0.handle_spec().index,
    ensures
        occupy_one(
            store_all(store_all(g, sg.reserve_writes()), sg.occupy_writes()),
            root,
            with_parent(sg.root_node_spec(), slot_payload(g, root).base.parent),
        ) == g,
{
    sg.lemma_shape();
    let rws = sg.reserve_writes();
    let ows = sg.occupy_writes();
    let g1 = store_all(g, rws);
    let g2 = store_all(g1, ows);
    let g3 = occupy_one(g2, root, with_parent(sg.root_node_spec(), slot_payload(g, root).base.parent));
    assert forall|j: int| 0 <= j < sg.pairs().len() implies slot_live(
        g,
        (#[trigger] sg.pairs()[j]).0.handle_spec(),
    ) by {
        assert(sg.handles()[j] == sg.pairs()[j].0.handle_spec());
        if j == 0 {
        } else {
            assert(slot_live(g, sg.handles()[j]));
        }
    }
    assert(writes_in_bounds(rws, g.len() as int)) by {
        assert forall|k: int| 0 <= k < rws.len() implies (#[trigger] rws[k]).0.index
            < g.len() by {
            assert(slot_live(g, sg.pairs()[k].0.handle_spec()));
        }
    }
    assert(distinct_write_indices(rws));
    lemma_store_all_len(g, rws);
    assert(writes_in_bounds(ows, g1.len() as int));
    assert(distinct_write_indices(ows));
    lemma_store_all_len(g1, ows);
    assert forall|i: int| 0 <= i < g.len() implies g3[i] == g[i] by {
        if exists|j: int| 0 <= j < sg.pairs().len() && (#[trigger] sg.pairs()[j]).0.handle_spec().index == i {
            let j = choose|j: int|
                0 <= j < sg.pairs().len() && (#[trigger] sg.pairs()[j]).0.handle_spec().index == i;
            let hj = sg.pairs()[j].0.handle_spec();
            lemma_store_all_at(g1, ows, j);
            assert(g2[i] == (Slot { generation: hj.generation, state: SlotState::Occupied(sg.pairs()[j].1) }));
            if j == 0 {
                assert(hj == root);
                assert(i == root.index as int);
                assert(g3[i] == (Slot {
                    generation: root.generation,
                    state: SlotState::Occupied(
                        with_parent(sg.root_node_spec(), slot_payload(g, root).base.parent),
                    ),
                }));
                assert(with_parent(
                    with_parent(slot_payload(g, root), Handle::none_spec()),
                    slot_payload(g, root).base.parent,
                ) == slot_payload(g, root));
                assert(g3[i] == g[i]);
            } else {
                assert(i != root.index as int) by {
                    assert(sg.pairs()[0].0.handle_spec().index != sg.pairs()[j].0.handle_spec().index);
                }
                assert(g3[i] == g2[i]);
                assert(slot_live(g, hj));
                assert(g[i] == (Slot { generation: hj.generation, state: SlotState::Occupied(slot_payload(g, hj)) }));
                assert(g3[i] == g[i]);
            }
        } else {
            assert forall|k: int| 0 <= k < rws.len() implies (#[trigger] rws[k]).0.index != i by {
                assert(rws[k].0 == sg.pairs()[k].0.handle_spec());
            }
            assert forall|k: int| 0 <= k < ows.len() implies (#[trigger] ows[k]).0.index != i by {
                assert(ows[k].0 == sg.pairs()[k].0.handle_spec());
            }
            lemma_store_all_frame(g, rws, i);
            lemma_store_all_frame(g1, ows, i);
            assert(i != root.index as int) by {
                assert(sg.pairs()[0].0.handle_spec() == root);
            }
            assert(g3[i] == g2[i]);
        }
    }
    assert(g3 =~= g);
}


/// The handles a sequence of animation ticket/animation pairs points at.
pub open spec fn anim_handles(ps: Seq<(Ticket, Animation)>) -> Seq<Handle> {
    ps.map_values(|p: (Ticket, Animation)| p.0.handle_spec())
}

/// The batch of writes that putting the pairs back performs.
pub open spec fn anim_occupy_writes(ps: Seq<(Ticket, Animation)>) -> Seq<
    (Handle, SlotState<Animation>),
> {
    ps.map_values(|p: (Ticket, Animation)| (p.0.handle_spec(), SlotState::Occupied(p.1)))
}

/// The batch of writes that re-reserving the handles performs.
pub open spec fn anim_reserve_writes(hs: Seq<Handle>) -> Seq<(Handle, SlotState<Animation>)> {
    hs.map_values(|h: Handle| (h, SlotState::<Animation>::Reserved))
}

/// The batch of writes that forgetting the pairs performs.
pub open spec fn anim_free_writes(ps: Seq<(Ticket, Animation)>) -> Seq<
    (Handle, SlotState<Animation>),
> {
    ps.map_values(|p: (Ticket, Animation)| (p.0.handle_spec(), SlotState::<Animation>::Free))
}

/// Every pair's slot is still reserved for it.
pub open spec fn anim_pairs_reserved(
    s: Seq<Slot<Animation>>,
    ps: Seq<(Ticket, Animation)>,
) -> bool {
    forall|j: int|
        0 <= j < ps.len() ==> slot_reserved(s, (#[trigger] ps[j]).0.handle_spec())
}

/// No two pairs point at the same slot.
pub open spec fn anim_pairs_distinct(ps: Seq<(Ticket, Animation)>) -> bool {
    forall|j: int, k: int|
        0 <= j < k < ps.len() ==> (#[trigger] ps[j]).0.handle_spec().index != (
        #[trigger] ps[k]).0.handle_spec().index
}

/// Every listed animation handle is live.
pub open spec fn anim_handles_live(s: Seq<Slot<Animation>>, hs: Seq<Handle>) -> bool {
    forall|j: int| 0 <= j < hs.len() ==> slot_live(s, #[trigger] hs[j])
}

/// No two listed animation handles share a slot.
pub open spec fn anim_handles_distinct(hs: Seq<Handle>) -> bool {
    forall|j: int, k: int|
        0 <= j < k < hs.len() ==> (#[trigger] hs[j]).index != (#[trigger] hs[k]).index
}

/// Adds an imported model: a detached sub-graph of nodes plus the
/// animation instances created for it. Undo detaches nodes and animations
/// together; redo re-admits both under their original handles.
#[derive(Debug)]
pub struct AddModelCommand {
    pub model: Handle,
    pub animations: Vec<Handle>,
    pub sub_graph: Option<SubGraph>,
    pub animations_container: Vec<(Ticket, Animation)>,
}

impl AddModelCommand {
    /// Captures a freshly extracted model sub-graph and the ticket/value
    /// pairs of its animations. The animation handle list is captured on
    /// the first execute and treated as immutable thereafter.
    pub fn new(sub_graph: SubGraph, animations_container: Vec<(Ticket, Animation)>) -> (c:
        AddModelCommand)
        ensures
            c.model == Handle::none_spec(),
            c.animations@ == Seq::<Handle>::empty(),
            c.sub_graph == Some(sub_graph),
            c.animations_container == animations_container,
    {
        let c = AddModelCommand {
            model: Handle::none(),
            animations: Vec::new(),
            sub_graph: Some(sub_graph),
            animations_container,
        };
        proof {
            assert(c.animations@ =~= Seq::<Handle>::empty());
        }
        c
    }

    /// The display label of this command.
    pub fn name(&self, _context: &SceneContext) -> (r: String)
        ensures
            r@ == "Load Model"@,
    {
        "Load Model".to_owned()
    }

    /// Reinserts the whole sub-graph and puts every animation back,
    /// recording the animation handles the pairs restore to.
    #[verifier::loop_isolation(false)]
    pub fn execute(&mut self, context: &mut SceneContext)
        requires
            old(self).sub_graph matches Some(sg) && sg.fits(old(context).scene.graph@),
            anim_pairs_reserved(
                old(context).scene.animations@,
                old(self).animations_container@,
            ),
            anim_pairs_distinct(old(self).animations_container@),
        ensures
            final(self).model == old(self).sub_graph->0.root_handle_spec(),
            final(self).sub_graph is None,
            final(self).animations_container@ == Seq::<(Ticket, Animation)>::empty(),
            final(self).animations@ == anim_handles(old(self).animations_container@),
            final(context).scene.graph@ == store_all(
                old(context).scene.graph@,
                old(self).sub_graph->0.occupy_writes(),
            ),
            final(context).scene.animations@ == store_all(
                old(context).scene.animations@,
                anim_occupy_writes(old(self).animations_container@),
            ),
            final(context).scene.graph.root_spec() == old(context).scene.graph.root_spec(),
    {
        let ghost a0 = context.scene.animations@;
        let ghost c0 = self.animations_container@;
        let ghost ws = anim_occupy_writes(c0);
        let mut sub_graph: Option<SubGraph> = None;
        std::mem::swap(&mut self.sub_graph, &mut sub_graph);
        let sg = match sub_graph {
            Some(sg) => sg,
            None => vstd::pervasive::unreached(),
        };
        self.model = context.scene.graph.put_sub_graph_back(sg);
        proof {
            assert(writes_in_bounds(ws, a0.len() as int)) by {
                assert forall|k: int| 0 <= k < ws.len() implies (#[trigger] ws[k]).0.index
                    < a0.len() by {
                    assert(slot_reserved(a0, c0[k].0.handle_spec()));
                }
            }
            assert(distinct_write_indices(ws)) by {
                assert forall|j2: int, k: int| 0 <= j2 < k < ws.len() implies (
                #[trigger] ws[j2]).0.index != (#[trigger] ws[k]).0.index by {
                    assert(c0[j2].0.handle_spec().index != c0[k].0.handle_spec().index);
                }
            }
            assert(ws.take(0) =~= Seq::<(Handle, SlotState<Animation>)>::empty());
            assert(context.scene.animations@ == store_all(a0, ws.take(0)));
            assert(anim_handles(c0).take(0) =~= Seq::<Handle>::empty());
        }
        let mut handles: Vec<Handle> = Vec::new();
        let n = self.animations_container.len();
        let mut j: usize = 0;
        while j < n
            invariant
                n == c0.len(),
                0 <= j <= n,
                self.model == old(self).sub_graph->0.root_handle_spec(),
                self.sub_graph is None,
                context.scene.graph@ == store_all(
                    old(context).scene.graph@,
                    old(self).sub_graph->0.occupy_writes(),
                ),
                context.scene.graph.root_spec() == old(context).scene.graph.root_spec(),
                self.animations_container@ == c0.skip(j as int),
                ws == anim_occupy_writes(c0),
                ws.len() == c0.len(),
                forall|k: int|
                    0 <= k < c0.len() ==> slot_reserved(a0, (#[trigger] c0[k]).0.handle_spec()),
                writes_in_bounds(ws, a0.len() as int),
                distinct_write_indices(ws),
                context.scene.animations@ == store_all(a0, ws.take(j as int)),
                handles@ == anim_handles(c0).take(j as int),
            decreases n - j,
        {
            let (t, a) = self.animations_container.remove(0);
            proof {
                assert(self.animations_container@ =~= c0.skip(j + 1));
                assert(t == c0[j as int].0 && a == c0[j as int].1);
                assert(writes_in_bounds(ws.take(j as int), a0.len() as int));
                assert forall|k: int| 0 <= k < ws.take(j as int).len() implies (
                #[trigger] ws.take(j as int)[k]).0.index != t.handle_spec().index as int by {
                    assert(ws[k].0 == c0[k].0.handle_spec());
                    assert(ws[j as int].0 == t.handle_spec());
                }
                lemma_store_all_frame(a0, ws.take(j as int), t.handle_spec().index as int);
                lemma_store_all_len(a0, ws.take(j as int));
                assert(slot_reserved(context.scene.animations@, t.handle_spec()));
            }
            let h = context.scene.animations.put_back(t, a);
            handles.push(h);
            proof {
                assert(ws.take(j + 1).drop_last() =~= ws.take(j as int));
                assert(ws.take(j + 1).last() == (t.handle_spec(), SlotState::Occupied(a)));
                assert(context.scene.animations@ =~= store_all(a0, ws.take(j + 1)));
                assert(handles@ =~= anim_handles(c0).take(j + 1));
            }
            j = j + 1;
        }
        self.animations = handles;
        proof {
            assert(ws.take(n as int) =~= ws);
            assert(anim_handles(c0).take(n as int) =~= anim_handles(c0));
            assert(self.animations_container@ =~= Seq::<(Ticket, Animation)>::empty());
        }
    }

    /// Detaches the sub-graph again and re-reserves exactly the recorded
    /// animation handles, refilling the ticket/value pairs.
    #[verifier::loop_isolation(false)]
    pub fn revert(&mut self, context: &mut SceneContext)
        requires
            slot_live(old(context).scene.graph@, old(self).model),
            old(self).model != old(context).scene.graph.root_spec(),
            old(self).sub_graph is None,
            old(self).animations_container@.len() == 0,
            anim_handles_live(old(context).scene.animations@, old(self).animations@),
            anim_handles_distinct(old(self).animations@),
        ensures
            final(self).model == old(self).model,
            final(self).animations == old(self).animations,
            final(self).sub_graph matches Some(sg) && {
                &&& sg.root_handle_spec() == old(self).model
                &&& final(context).scene.graph@ == store_all(
                    old(context).scene.graph@,
                    sg.reserve_writes(),
                )
                &&& sg.fits(final(context).scene.graph@)
                &&& sg.root_node_spec() == with_parent(
                    slot_payload(old(context).scene.graph@, old(self).model),
                    Handle::none_spec(),
                )
                &&& sg.handles()[0] == old(self).model
                &&& sg.handles().len() == sg.pairs().len()
                &&& forall|j: int|
                    1 <= j < sg.pairs().len() ==> (#[trigger] sg.pairs()[j]).1 == slot_payload(
                        old(context).scene.graph@,
                        sg.handles()[j],
                    )
            },
            final(self).animations_container@.len() == old(self).animations@.len(),
            forall|k: int|
                0 <= k < old(self).animations@.len() ==> (
                #[trigger] final(self).animations_container@[k]).0.handle_spec() == old(
                    self,
                ).animations@[k] && final(self).animations_container@[k].1 == slot_payload(
                    old(context).scene.animations@,
                    old(self).animations@[k],
                ),
            final(context).scene.animations@ == store_all(
                old(context).scene.animations@,
                anim_reserve_writes(old(self).animations@),
            ),
            final(context).scene.graph.root_spec() == old(context).scene.graph.root_spec(),
    {
        let ghost a0 = context.scene.animations@;
        let ghost hs = self.animations@;
        let ghost ws = anim_reserve_writes(hs);
        let sg = context.scene.graph.take_reserve_sub_graph(self.model);
        self.sub_graph = Some(sg);
        let ghost sgv = self.sub_graph->0;
        let ghost gmid = context.scene.graph@;
        proof {
            assert(writes_in_bounds(ws, a0.len() as int)) by {
                assert forall|k: int| 0 <= k < ws.len() implies (#[trigger] ws[k]).0.index
                    < a0.len() by {
                    assert(slot_live(a0, hs[k]));
                }
            }
            assert(distinct_write_indices(ws)) by {
                assert forall|j2: int, k: int| 0 <= j2 < k < ws.len() implies (
                #[trigger] ws[j2]).0.index != (#[trigger] ws[k]).0.index by {
                    assert(hs[j2].index != hs[k].index);
                }
            }
            assert(ws.take(0) =~= Seq::<(Handle, SlotState<Animation>)>::empty());
            assert(context.scene.animations@ == store_all(a0, ws.take(0)));
            assert(self.animations_container@ =~= Seq::<(Ticket, Animation)>::empty());
        }
        let n = self.animations.len();
        let mut j: usize = 0;
        while j < n
            invariant
                n == hs.len(),
                0 <= j <= n,
                self.model == old(self).model,
                self.sub_graph == Some(sgv),
                context.scene.graph@ == gmid,
                context.scene.graph.root_spec() == old(context).scene.graph.root_spec(),
                self.animations == old(self).animations,
                self.animations@ == hs,
                ws == anim_reserve_writes(hs),
                ws.len() == hs.len(),
                forall|k: int| 0 <= k < hs.len() ==> slot_live(a0, #[trigger] hs[k]),
                forall|j2: int, k: int|
                    0 <= j2 < k < hs.len() ==> (#[trigger] hs[j2]).index != (
                    #[trigger] hs[k]).index,
                writes_in_bounds(ws, a0.len() as int),
                distinct_write_indices(ws),
                context.scene.animations@ == store_all(a0, ws.take(j as int)),
                self.animations_container@.len() == j,
                forall|k: int|
                    0 <= k < j ==> (#[trigger] self.animations_container@[k]).0.handle_spec()
                        == hs[k] && self.animations_container@[k].1 == slot_payload(a0, hs[k]),
            decreases n - j,
        {
            let h = self.animations[j];
            proof {
                assert(h == hs[j as int]);
                assert(writes_in_bounds(ws.take(j as int), a0.len() as int));
                assert forall|k: int| 0 <= k < ws.take(j as int).len() implies (
                #[trigger] ws.take(j as int)[k]).0.index != h.index as int by {
                    assert(ws[k].0 == hs[k]);
                }
                lemma_store_all_frame(a0, ws.take(j as int), h.index as int);
                lemma_store_all_len(a0, ws.take(j as int));
                assert(slot_live(context.scene.animations@, h));
                assert(slot_payload(context.scene.animations@, h) == slot_payload(a0, h));
            }
            let (t, a) = context.scene.animations.take_reserve(h);
            self.animations_container.push((t, a));
            proof {
                assert(ws.take(j + 1).drop_last() =~= ws.take(j as int));
                assert(ws.take(j + 1).last() == (h, SlotState::<Animation>::Reserved));
                assert(context.scene.animations@ =~= store_all(a0, ws.take(j + 1)));
            }
            j = j + 1;
        }
        proof {
            assert(ws.take(n as int) =~= ws);
        }
    }

    /// Permanently frees the sub-graph's slots and every animation slot
    /// still held, if the model load stayed reverted.
    #[verifier::loop_isolation(false)]
    pub fn finalize(&mut self, context: &mut SceneContext)
        requires
            old(self).sub_graph matches Some(sg) ==> sg.fits(old(context).scene.graph@),
            anim_pairs_reserved(
                old(context).scene.animations@,
                old(self).animations_container@,
            ),
            anim_pairs_distinct(old(self).animations_container@),
        ensures
            final(self).sub_graph is None,
            final(self).animations_container@ == Seq::<(Ticket, Animation)>::empty(),
            old(self).sub_graph matches Some(sg) ==> final(context).scene.graph@ == store_all(
                old(context).scene.graph@,
                sg.free_writes(),
            ),
            old(self).sub_graph is None ==> final(context).scene.graph@ == old(
                context,
            ).scene.graph@,
            final(context).scene.animations@ == store_all(
                old(context).scene.animations@,
                anim_free_writes(old(self).animations_container@),
            ),
            final(context).scene.graph.root_spec() == old(context).scene.graph.root_spec(),
    {
        let ghost a0 = context.scene.animations@;
        let ghost c0 = self.animations_container@;
        let ghost ws = anim_free_writes(c0);
        let mut sub_graph: Option<SubGraph> = None;
        std::mem::swap(&mut self.sub_graph, &mut sub_graph);
        if let Some(sg) = sub_graph {
            context.scene.graph.forget_sub_graph(sg);
        }
        let ghost gmid = context.scene.graph@;
        proof {
            assert(writes_in_bounds(ws, a0.len() as int)) by {
                assert forall|k: int| 0 <= k < ws.len() implies (#[trigger] ws[k]).0.index
                    < a0.len() by {
                    assert(slot_reserved(a0, c0[k].0.handle_spec()));
                }
            }
            assert(distinct_write_indices(ws)) by {
                assert forall|j2: int, k: int| 0 <= j2 < k < ws.len() implies (
                #[trigger] ws[j2]).0.index != (#[trigger] ws[k]).0.index by {
                    assert(c0[j2].0.handle_spec().index != c0[k].0.handle_spec().index);
                }
            }
            assert(ws.take(0) =~= Seq::<(Handle, SlotState<Animation>)>::empty());
            assert(context.scene.animations@ == store_all(a0, ws.take(0)));
        }
        let n = self.animations_container.len();
        let mut j: usize = 0;
        while j < n
            invariant
                n == c0.len(),
                0 <= j <= n,
                self.sub_graph is None,
                self.model == old(self).model,
                self.animations == old(self).animations,
                context.scene.graph@ == gmid,
                context.scene.graph.root_spec() == old(context).scene.graph.root_spec(),
                self.animations_container@ == c0.skip(j as int),
                ws == anim_free_writes(c0),
                ws.len() == c0.len(),
                forall|k: int|
                    0 <= k < c0.len() ==> slot_reserved(a0, (#[trigger] c0[k]).0.handle_spec()),
                writes_in_bounds(ws, a0.len() as int),
                distinct_write_indices(ws),
                context.scene.animations@ == store_all(a0, ws.take(j as int)),
            decreases n - j,
        {
            let (t, a) = self.animations_container.remove(0);
            let _ = a;
            proof {
                assert(self.animations_container@ =~= c0.skip(j + 1));
                assert(t == c0[j as int].0);
                assert(writes_in_bounds(ws.take(j as int), a0.len() as int));
                assert forall|k: int| 0 <= k < ws.take(j as int).len() implies (
                #[trigger] ws.take(j as int)[k]).0.index != t.handle_spec().index as int by {
                    assert(ws[k].0 == c0[k].0.handle_spec());
                    assert(ws[j as int].0 == t.handle_spec());
                }
                lemma_store_all_frame(a0, ws.take(j as int), t.handle_spec().index as int);
                lemma_store_all_len(a0, ws.take(j as int));
                assert(slot_reserved(context.scene.animations@, t.handle_spec()));
            }
            context.scene.animations.forget_ticket(t);
            proof {
                assert(ws.take(j + 1).drop_last() =~= ws.take(j as int));
                assert(ws.take(j + 1).last() == (t.handle_spec(), SlotState::<Animation>::Free));
                assert(context.scene.animations@ =~= store_all(a0, ws.take(j + 1)));
            }
            j = j + 1;
        }
        proof {
            assert(ws.take(n as int) =~= ws);
            assert(self.animations_container@ =~= Seq::<(Ticket, Animation)>::empty());
        }
    }
}

/// The animation half of the model command's life cycle: after execute
/// every recorded handle resolves to a live animation; after revert none
/// of them resolves; after finalize (with no execute pending) every slot
/// is free for reuse.
pub proof fn lemma_add_model_animation_lifecycle(
    a: Seq<Slot<Animation>>,
    ps: Seq<(Ticket, Animation)>,
)
    requires
        anim_pairs_reserved(a, ps),
        anim_pairs_distinct(ps),
    ensures
        ({
            let hs = anim_handles(ps);
            let after_execute = store_all(a, anim_occupy_writes(ps));
            let after_revert = store_all(after_execute, anim_reserve_writes(hs));
            let after_finalize = store_all(after_revert, anim_free_writes(ps));
            &&& forall|j: int|
                0 <= j < hs.len() ==> slot_live(after_execute, #[trigger] hs[j])
            &&& forall|j: int|
                0 <= j < hs.len() ==> !slot_live(after_revert, #[trigger] hs[j])
                    && slot_reserved(after_revert, hs[j])
            &&& forall|j: int|
                0 <= j < hs.len() ==> !slot_live(after_finalize, #[trigger] hs[j])
                    && after_finalize[hs[j].index as int].state is Free
        }),
{
    let hs = anim_handles(ps);
    let ows = anim_occupy_writes(ps);
    let rws = anim_reserve_writes(hs);
    let fws = anim_free_writes(ps);
    let after_execute = store_all(a, ows);
    let after_revert = store_all(after_execute, rws);
    let after_finalize = store_all(after_revert, fws);
    assert(writes_in_bounds(ows, a.len() as int)) by {
        assert forall|k: int| 0 <= k < ows.len() implies (#[trigger] ows[k]).0.index
            < a.len() by {
            assert(slot_reserved(a, ps[k].0.handle_spec()));
        }
    }
    assert(distinct_write_indices(ows)) by {
        assert forall|j2: int, k: int| 0 <= j2 < k < ows.len() implies (
        #[trigger] ows[j2]).0.index != (#[trigger] ows[k]).0.index by {
            assert(ps[j2].0.handle_spec().index != ps[k].0.handle_spec().index);
        }
    }
    lemma_store_all_len(a, ows);
    assert(writes_in_bounds(rws, after_execute.len() as int));
    assert(distinct_write_indices(rws)) by {
        assert forall|j2: int, k: int| 0 <= j2 < k < rws.len() implies (
        #[trigger] rws[j2]).0.index != (#[trigger] rws[k]).0.index by {
            assert(ps[j2].0.handle_spec().index != ps[k].0.handle_spec().index);
        }
    }
    lemma_store_all_len(after_execute, rws);
    assert(writes_in_bounds(fws, after_revert.len() as int));
    assert(distinct_write_indices(fws)) by {
        assert forall|j2: int, k: int| 0 <= j2 < k < fws.len() implies (
        #[trigger] fws[j2]).0.index != (#[trigger] fws[k]).0.index by {
            assert(ps[j2].0.handle_spec().index != ps[k].0.handle_spec().index);
        }
    }
    assert forall|j: int| 0 <= j < hs.len() implies slot_live(
        after_execute,
        #[trigger] hs[j],
    ) by {
        lemma_store_all_at(a, ows, j);
        assert(slot_reserved(a, ps[j].0.handle_spec()));
    }
    assert forall|j: int| 0 <= j < hs.len() implies !slot_live(after_revert, #[trigger] hs[j])
        && slot_reserved(after_revert, hs[j]) by {
        lemma_store_all_at(after_execute, rws, j);
        assert(slot_reserved(a, ps[j].0.handle_spec()));
    }
    assert forall|j: int| 0 <= j < hs.len() implies !slot_live(after_finalize, #[trigger] hs[j])
        && after_finalize[hs[j].index as int].state is Free by {
        lemma_store_all_at(after_revert, fws, j);
    }
}


/// The node half of the model command's round trip: reinserting a detached
/// sub-graph and then re-reserving exactly its slots restores the pool
/// state the command started from.
pub proof fn lemma_add_model_execute_revert(g: Seq<Slot<Node>>, sg: SubGraph)
    requires
        sg.fits(g),
    ensures
        store_all(store_all(g, sg.occupy_writes()), sg.reserve_writes()) == g,
{
    sg.lemma_shape();
    let ows = sg.occupy_writes();
    let rws = sg.reserve_writes();
    let g1 = store_all(g, ows);
    let g2 = store_all(g1, rws);
    assert(writes_in_bounds(ows, g.len() as int)) by {
        assert forall|k: int| 0 <= k < ows.len() implies (#[trigger] ows[k]).0.index
            < g.len() by {
            assert(slot_reserved(g, sg.pairs()[k].0.handle_spec()));
        }
    }
    assert(distinct_write_indices(ows)) by {
        assert forall|j2: int, k: int| 0 <= j2 < k < ows.len() implies (
        #[trigger] ows[j2]).0.index != (#[trigger] ows[k]).0.index by {
            assert(sg.pairs()[j2].0.handle_spec().index != sg.pairs()[k].0.handle_spec().index);
        }
    }
    lemma_store_all_len(g, ows);
    assert(writes_in_bounds(rws, g1.len() as int));
    assert(distinct_write_indices(rws)) by {
        assert forall|j2: int, k: int| 0 <= j2 < k < rws.len() implies (
        #[trigger] rws[j2]).0.index != (#[trigger] rws[k]).0.index by {
            assert(sg.pairs()[j2].0.handle_spec().index != sg.pairs()[k].0.handle_spec().index);
        }
    }
    lemma_store_all_len(g1, rws);
    assert forall|i: int| 0 <= i < g.len() implies g2[i] == g[i] by {
        if exists|j: int|
            0 <= j < sg.pairs().len() && (#[trigger] sg.pairs()[j]).0.handle_spec().index == i {
            let j = choose|j: int|
                0 <= j < sg.pairs().len() && (#[trigger] sg.pairs()[j]).0.handle_spec().index
                    == i;
            let hj = sg.pairs()[j].0.handle_spec();
            lemma_store_all_at(g1, rws, j);
            assert(g2[i] == (Slot { generation: hj.generation, state: SlotState::<
                Node,
            >::Reserved }));
            assert(slot_reserved(g, hj));
            assert(g[i] == (Slot { generation: hj.generation, state: SlotState::<
                Node,
            >::Reserved }));
        } else {
            assert forall|k: int| 0 <= k < ows.len() implies (#[trigger] ows[k]).0.index
                != i by {
                assert(ows[k].0 == sg.pairs()[k].0.handle_spec());
            }
            assert forall|k: int| 0 <= k < rws.len() implies (#[trigger] rws[k]).0.index
                != i by {
                assert(rws[k].0 == sg.pairs()[k].0.handle_spec());
            }
            lemma_store_all_frame(g, ows, i);
            lemma_store_all_frame(g1, rws, i);
        }
    }
    assert(g2 =~= g);
}

} // verus!
