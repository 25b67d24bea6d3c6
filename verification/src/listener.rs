//! The listener node payload: a point in the scene at which sound is
//! received. It carries no data of its own beyond the common base.

use vstd::prelude::*;

use crate::equiv::opt_script_obs_eq;
use crate::graph::Graph;
use crate::handle::Handle;
use crate::node::Base;
use crate::node::BaseBuilder;
use crate::node::Node;
use crate::node::NodeKind;
use crate::node::Property;
use crate::node::PropertyValue;
use crate::node::Script;
use crate::node::with_parent;
use crate::pool::pool_add_spec;
use crate::pool::slot_live;
use crate::pool::slot_payload;

verus! {

/// A sound listener node payload.
#[derive(Debug)]
pub struct Listener {
    pub base: Base,
}

impl Listener {
    /// A field-for-field copy of the listener: every observable field of
    /// the copy equals the original's.
    pub fn raw_copy(&self) -> (r: Listener)
        ensures
            r.base.name == self.base.name,
            r.base.tag == self.base.tag,
            r.base.visibility == self.base.visibility,
            r.base.frustum_culling == self.base.frustum_culling,
            r.base.cast_shadows == self.base.cast_shadows,
            r.base.mobility == self.base.mobility,
            r.base.depth_offset_factor == self.base.depth_offset_factor,
            r.base.local_transform == self.base.local_transform,
            r.base.parent == self.base.parent,
            r.base.properties@ == self.base.properties@,
            opt_script_obs_eq(r.base.script, self.base.script),
    {
        Listener { base: copy_base(&self.base) }
    }
}

/// Copies one property value; text is copied character for character.
fn copy_property_value(v: &PropertyValue) -> (r: PropertyValue)
    ensures
        r == *v,
{
    match v {
        PropertyValue::Integer(x) => PropertyValue::Integer(*x),
        PropertyValue::Unsigned(x) => PropertyValue::Unsigned(*x),
        PropertyValue::Boolean(x) => PropertyValue::Boolean(*x),
        PropertyValue::Text(s) => PropertyValue::Text(s.clone()),
        PropertyValue::NodeHandle(h) => PropertyValue::NodeHandle(*h),
    }
}

/// Copies a property list entry for entry.
fn copy_properties(ps: &Vec<Property>) -> (r: Vec<Property>)
    ensures
        r@ == ps@,
{
    let n = ps.len();
    let mut r: Vec<Property> = Vec::new();
    let mut i: usize = 0;
    while i < n
        invariant
            n == ps@.len(),
            0 <= i <= n,
            r@ == ps@.take(i as int),
        decreases n - i,
    {
        let p = Property { name: ps[i].name.clone(), value: copy_property_value(&ps[i].value) };
        r.push(p);
        proof {
            assert(p == ps@[i as int]);
            assert(r@ =~= ps@.take(i + 1));
        }
        i = i + 1;
    }
    proof {
        assert(ps@.take(n as int) =~= ps@);
    }
    r
}

/// Copies a byte buffer.
fn copy_bytes(b: &Vec<u8>) -> (r: Vec<u8>)
    ensures
        r@ == b@,
{
    let n = b.len();
    let mut r: Vec<u8> = Vec::new();
    let mut i: usize = 0;
    while i < n
        invariant
            n == b@.len(),
            0 <= i <= n,
            r@ == b@.take(i as int),
        decreases n - i,
    {
        r.push(b[i]);
        proof {
            assert(r@ =~= b@.take(i + 1));
        }
        i = i + 1;
    }
    proof {
        assert(b@.take(n as int) =~= b@);
    }
    r
}

/// Copies an optional script; the copy has the same type tag and the same
/// serialized state.
fn copy_opt_script(s: &Option<Script>) -> (r: Option<Script>)
    ensures
        opt_script_obs_eq(r, *s),
{
    match s {
        None => None,
        Some(sc) => Some(Script { kind: sc.kind, payload: copy_bytes(&sc.payload) }),
    }
}

/// Copies the common base data field for field.
fn copy_base(base: &Base) -> (r: Base)
    ensures
        r.name == base.name,
        r.tag == base.tag,
        r.visibility == base.visibility,
        r.frustum_culling == base.frustum_culling,
        r.cast_shadows == base.cast_shadows,
        r.mobility == base.mobility,
        r.depth_offset_factor == base.depth_offset_factor,
        r.local_transform == base.local_transform,
        r.parent == base.parent,
        r.properties@ == base.properties@,
        opt_script_obs_eq(r.script, base.script),
{
    Base {
        name: base.name.clone(),
        tag: base.tag.clone(),
        visibility: base.visibility,
        frustum_culling: base.frustum_culling,
        cast_shadows: base.cast_shadows,
        mobility: base.mobility,
        depth_offset_factor: base.depth_offset_factor,
        local_transform: base.local_transform,
        parent: base.parent,
        properties: copy_properties(&base.properties),
        script: copy_opt_script(&base.script),
    }
}

/// Builds listener nodes in a declarative manner.
#[derive(Debug)]
pub struct ListenerBuilder {
    base_builder: BaseBuilder,
}

impl ListenerBuilder {
    /// Starts from the given base builder.
    pub fn new(base_builder: BaseBuilder) -> (b: ListenerBuilder)
        ensures
            b.base_builder_spec() == base_builder,
    {
        ListenerBuilder { base_builder }
    }

    /// The wrapped base builder.
    pub closed spec fn base_builder_spec(self) -> BaseBuilder {
        self.base_builder
    }

    /// Builds the listener node.
    pub fn build_node(self) -> (n: Node)
        ensures
            n.kind == NodeKind::Listener,
            n.base.name == self.base_builder_spec().name_spec(),
            n.base.tag == self.base_builder_spec().tag_spec(),
            n.base.script is None,
            n.base.properties@ == Seq::<Property>::empty(),
    {
        Node { kind: NodeKind::Listener, base: self.base_builder.build_base() }
    }

    /// Builds the listener node and adds it to the graph, linked under the
    /// graph root.
    pub fn build(self, graph: &mut Graph) -> (h: Handle)
        ensures
            slot_live(final(graph)@, h),
            slot_payload(final(graph)@, h).kind == NodeKind::Listener,
            slot_payload(final(graph)@, h).base.name == self.base_builder_spec().name_spec(),
            slot_payload(final(graph)@, h).base.parent == old(graph).root_spec(),
            final(graph).root_spec() == old(graph).root_spec(),
            ({
                let node = Node {
                    kind: NodeKind::Listener,
                    base: slot_payload(final(graph)@, h).base,
                };
                (final(graph)@, h) == pool_add_spec(
                    old(graph)@,
                    with_parent(node, old(graph).root_spec()),
                )
            }),
    {
        graph.add_node(self.build_node())
    }
}

} // verus!
