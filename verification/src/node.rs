//! The scene-graph entity and its observable fields.
//!
//! A node owns identity-independent data only: its identity is the `Handle`
//! of the pool slot it lives in, and its place in the graph is the `parent`
//! handle stored here. Transform components are plain coordinate words: the
//! command layer never computes with them, it only stores and swaps them, so
//! every edit is exactly reversible, bit for bit.

use vstd::prelude::*;

use crate::handle::Handle;

verus! {

/// A three-component vector of plain coordinate words.
#[derive(Clone, Copy, PartialEq, Eq, Structural, Debug)]
pub struct Vector3 {
    pub x: i64,
    pub y: i64,
    pub z: i64,
}

impl Vector3 {
    /// Builds a vector from its components.
    pub fn new(x: i64, y: i64, z: i64) -> (v: Vector3)
        ensures
            v == (Vector3 { x, y, z }),
    {
        Vector3 { x, y, z }
    }

    /// The zero vector.
    pub fn zero() -> (v: Vector3)
        ensures
            v == (Vector3 { x: 0, y: 0, z: 0 }),
    {
        Vector3 { x: 0, y: 0, z: 0 }
    }
}

/// A four-component rotation, stored verbatim.
#[derive(Clone, Copy, PartialEq, Eq, Structural, Debug)]
pub struct Quaternion {
    pub x: i64,
    pub y: i64,
    pub z: i64,
    pub w: i64,
}

impl Quaternion {
    /// Builds a quaternion from its components.
    pub fn new(x: i64, y: i64, z: i64, w: i64) -> (q: Quaternion)
        ensures
            q == (Quaternion { x, y, z, w }),
    {
        Quaternion { x, y, z, w }
    }

    /// The identity rotation.
    pub fn identity() -> (q: Quaternion)
        ensures
            q == (Quaternion { x: 0, y: 0, z: 0, w: 1 }),
    {
        Quaternion { x: 0, y: 0, z: 0, w: 1 }
    }
}

/// Mobility class of a node.
#[derive(Clone, Copy, PartialEq, Eq, Structural, Debug)]
pub enum Mobility {
    Static,
    Stationary,
    Dynamic,
}

/// The value of one named node property.
#[derive(Clone, PartialEq, Eq, Debug)]
pub enum PropertyValue {
    Integer(i64),
    Unsigned(u64),
    Boolean(bool),
    Text(String),
    NodeHandle(Handle),
}

/// A name + value pair attached to a node; order-significant and indexed.
#[derive(Clone, PartialEq, Eq, Debug)]
pub struct Property {
    pub name: String,
    pub value: PropertyValue,
}

/// An optional behavior attached to a node.
///
/// The command layer treats a script as plain data: a type tag and the
/// serialized state of the behavior. Commands that undo script edits keep
/// only the serialized form, so behavior state survives undo exactly.
#[derive(Clone, PartialEq, Eq, Debug)]
pub struct Script {
    pub kind: u8,
    pub payload: Vec<u8>,
}

/// Local transform of a node: position, scale and rotation, plus the six
/// pivot/offset decomposition components.
#[derive(Clone, Copy, PartialEq, Eq, Structural, Debug)]
pub struct Transform {
    pub position: Vector3,
    pub scale: Vector3,
    pub rotation: Quaternion,
    pub pre_rotation: Quaternion,
    pub post_rotation: Quaternion,
    pub rotation_offset: Vector3,
    pub rotation_pivot: Vector3,
    pub scaling_offset: Vector3,
    pub scaling_pivot: Vector3,
}

impl Transform {
    /// The identity transform.
    pub fn identity() -> (t: Transform)
        ensures
            t == Transform::identity_spec(),
    {
        Transform {
            position: Vector3::zero(),
            scale: Vector3::new(1, 1, 1),
            rotation: Quaternion::identity(),
            pre_rotation: Quaternion::identity(),
            post_rotation: Quaternion::identity(),
            rotation_offset: Vector3::zero(),
            rotation_pivot: Vector3::zero(),
            scaling_offset: Vector3::zero(),
            scaling_pivot: Vector3::zero(),
        }
    }

    /// Spec-level identity transform.
    pub open spec fn identity_spec() -> Transform {
        Transform {
            position: Vector3 { x: 0, y: 0, z: 0 },
            scale: Vector3 { x: 1, y: 1, z: 1 },
            rotation: Quaternion { x: 0, y: 0, z: 0, w: 1 },
            pre_rotation: Quaternion { x: 0, y: 0, z: 0, w: 1 },
            post_rotation: Quaternion { x: 0, y: 0, z: 0, w: 1 },
            rotation_offset: Vector3 { x: 0, y: 0, z: 0 },
            rotation_pivot: Vector3 { x: 0, y: 0, z: 0 },
            scaling_offset: Vector3 { x: 0, y: 0, z: 0 },
            scaling_pivot: Vector3 { x: 0, y: 0, z: 0 },
        }
    }
}

/// Which engine payload a node carries.
///
/// Only the payloads the command layer observes are modelled; every payload
/// shares the common `Base` data that commands edit.
#[derive(Clone, Copy, PartialEq, Eq, Structural, Debug)]
pub enum NodeKind {
    Base,
    Listener,
}

/// The common data of every scene node.
#[derive(Debug)]
pub struct Base {
    pub name: String,
    pub tag: String,
    pub visibility: bool,
    pub frustum_culling: bool,
    pub cast_shadows: bool,
    pub mobility: Mobility,
    pub depth_offset_factor: i64,
    pub local_transform: Transform,
    pub parent: Handle,
    pub properties: Vec<Property>,
    pub script: Option<Script>,
}

/// A scene node: a payload kind plus the common base data.
#[derive(Debug)]
pub struct Node {
    pub kind: NodeKind,
    pub base: Base,
}

impl Node {
    /// The node's display name.
    pub fn name(&self) -> (r: &str)
        ensures
            r@ == self.base.name@,
    {
        self.base.name.as_str()
    }

    /// The parent handle recorded on the node.
    pub fn parent(&self) -> (p: Handle)
        ensures
            p == self.base.parent,
    {
        self.base.parent
    }
}

/// `n` with its parent handle replaced.
pub open spec fn with_parent(n: Node, p: Handle) -> Node {
    Node { base: Base { parent: p, ..n.base }, ..n }
}

/// `n` with its position replaced.
pub open spec fn with_position(n: Node, v: Vector3) -> Node {
    Node {
        base: Base {
            local_transform: Transform { position: v, ..n.base.local_transform },
            ..n.base
        },
        ..n
    }
}

/// `n` with its scale replaced.
pub open spec fn with_scale(n: Node, v: Vector3) -> Node {
    Node {
        base: Base { local_transform: Transform { scale: v, ..n.base.local_transform }, ..n.base },
        ..n
    }
}

/// `n` with its rotation replaced.
pub open spec fn with_rotation(n: Node, q: Quaternion) -> Node {
    Node {
        base: Base {
            local_transform: Transform { rotation: q, ..n.base.local_transform },
            ..n.base
        },
        ..n
    }
}

/// `n` with its attached script replaced.
pub open spec fn with_script(n: Node, s: Option<Script>) -> Node {
    Node { base: Base { script: s, ..n.base }, ..n }
}

/// `n` with its property list replaced by the given vector value.
pub open spec fn with_properties(n: Node, ps: Vec<Property>) -> Node {
    Node { base: Base { properties: ps, ..n.base }, ..n }
}

/// The value of one swappable node field.
///
/// Rather than one near-identical command type per field, a single command
/// is parameterized by this accessor value, so the identical execute/revert
/// symmetry holds for every field by one proof.
#[derive(Clone, PartialEq, Eq, Debug)]
pub enum FieldValue {
    Name(String),
    Tag(String),
    Visibility(bool),
    FrustumCulling(bool),
    CastShadows(bool),
    Mobility(Mobility),
    DepthOffsetFactor(i64),
    PostRotation(Quaternion),
    PreRotation(Quaternion),
    RotationOffset(Vector3),
    RotationPivot(Vector3),
    ScalingOffset(Vector3),
    ScalingPivot(Vector3),
}

/// `n` with the field selected by `v` set to `v`'s payload.
pub open spec fn with_field(n: Node, v: FieldValue) -> Node {
    match v {
        FieldValue::Name(x) => Node { base: Base { name: x, ..n.base }, ..n },
        FieldValue::Tag(x) => Node { base: Base { tag: x, ..n.base }, ..n },
        FieldValue::Visibility(x) => Node { base: Base { visibility: x, ..n.base }, ..n },
        FieldValue::FrustumCulling(x) => Node { base: Base { frustum_culling: x, ..n.base }, ..n },
        FieldValue::CastShadows(x) => Node { base: Base { cast_shadows: x, ..n.base }, ..n },
        FieldValue::Mobility(x) => Node { base: Base { mobility: x, ..n.base }, ..n },
        FieldValue::DepthOffsetFactor(x) => Node {
            base: Base { depth_offset_factor: x, ..n.base },
            ..n
        },
        FieldValue::PostRotation(x) => Node {
            base: Base {
                local_transform: Transform { post_rotation: x, ..n.base.local_transform },
                ..n.base
            },
            ..n
        },
        FieldValue::PreRotation(x) => Node {
            base: Base {
                local_transform: Transform { pre_rotation: x, ..n.base.local_transform },
                ..n.base
            },
            ..n
        },
        FieldValue::RotationOffset(x) => Node {
            base: Base {
                local_transform: Transform { rotation_offset: x, ..n.base.local_transform },
                ..n.base
            },
            ..n
        },
        FieldValue::RotationPivot(x) => Node {
            base: Base {
                local_transform: Transform { rotation_pivot: x, ..n.base.local_transform },
                ..n.base
            },
            ..n
        },
        FieldValue::ScalingOffset(x) => Node {
            base: Base {
                local_transform: Transform { scaling_offset: x, ..n.base.local_transform },
                ..n.base
            },
            ..n
        },
        FieldValue::ScalingPivot(x) => Node {
            base: Base {
                local_transform: Transform { scaling_pivot: x, ..n.base.local_transform },
                ..n.base
            },
            ..n
        },
    }
}

/// The current value of the field selected by `v`, wrapped in the same
/// accessor variant as `v`.
pub open spec fn field_of(n: Node, v: FieldValue) -> FieldValue {
    match v {
        FieldValue::Name(_) => FieldValue::Name(n.base.name),
        FieldValue::Tag(_) => FieldValue::Tag(n.base.tag),
        FieldValue::Visibility(_) => FieldValue::Visibility(n.base.visibility),
        FieldValue::FrustumCulling(_) => FieldValue::FrustumCulling(n.base.frustum_culling),
        FieldValue::CastShadows(_) => FieldValue::CastShadows(n.base.cast_shadows),
        FieldValue::Mobility(_) => FieldValue::Mobility(n.base.mobility),
        FieldValue::DepthOffsetFactor(_) => FieldValue::DepthOffsetFactor(
            n.base.depth_offset_factor,
        ),
        FieldValue::PostRotation(_) => FieldValue::PostRotation(
            n.base.local_transform.post_rotation,
        ),
        FieldValue::PreRotation(_) => FieldValue::PreRotation(n.base.local_transform.pre_rotation),
        FieldValue::RotationOffset(_) => FieldValue::RotationOffset(
            n.base.local_transform.rotation_offset,
        ),
        FieldValue::RotationPivot(_) => FieldValue::RotationPivot(
            n.base.local_transform.rotation_pivot,
        ),
        FieldValue::ScalingOffset(_) => FieldValue::ScalingOffset(
            n.base.local_transform.scaling_offset,
        ),
        FieldValue::ScalingPivot(_) => FieldValue::ScalingPivot(
            n.base.local_transform.scaling_pivot,
        ),
    }
}

/// Declarative construction of the common node data.
#[derive(Debug)]
pub struct BaseBuilder {
    name: String,
    tag: String,
}

impl BaseBuilder {
    /// Starts a builder with default field values.
    pub fn new() -> (b: BaseBuilder)
        ensures
            b.name_spec()@ == Seq::<char>::empty(),
            b.tag_spec()@ == Seq::<char>::empty(),
    {
        BaseBuilder { name: String::new(), tag: String::new() }
    }

    /// The pending name.
    pub closed spec fn name_spec(self) -> String {
        self.name
    }

    /// The pending tag.
    pub closed spec fn tag_spec(self) -> String {
        self.tag
    }

    /// Sets the node name.
    pub fn with_name(self, name: String) -> (b: BaseBuilder)
        ensures
            b.name_spec() == name,
            b.tag_spec() == self.tag_spec(),
    {
        BaseBuilder { name, ..self }
    }

    /// Sets the node tag.
    pub fn with_tag(self, tag: String) -> (b: BaseBuilder)
        ensures
            b.tag_spec() == tag,
            b.name_spec() == self.name_spec(),
    {
        BaseBuilder { tag, ..self }
    }

    /// Builds the base data: identity transform, visible, unlinked.
    pub fn build_base(self) -> (b: Base)
        ensures
            b == (Base {
                name: self.name_spec(),
                tag: self.tag_spec(),
                visibility: true,
                frustum_culling: true,
                cast_shadows: true,
                mobility: Mobility::Static,
                depth_offset_factor: 0,
                local_transform: Transform::identity_spec(),
                parent: Handle::none_spec(),
                properties: b.properties,
                script: Option::None,
            }),
            b.properties@ == Seq::<Property>::empty(),
    {
        let b = Base {
            name: self.name,
            tag: self.tag,
            visibility: true,
            frustum_culling: true,
            cast_shadows: true,
            mobility: Mobility::Static,
            depth_offset_factor: 0,
            local_transform: Transform::identity(),
            parent: Handle::none(),
            properties: Vec::new(),
            script: Option::None,
        };
        proof {
            assert(b.properties@ =~= Seq::<Property>::empty());
        }
        b
    }

    /// Builds a plain node around the base data.
    pub fn build_node(self) -> (n: Node)
        ensures
            n.kind == NodeKind::Base,
            n.base == (Base {
                name: self.name_spec(),
                tag: self.tag_spec(),
                visibility: true,
                frustum_culling: true,
                cast_shadows: true,
                mobility: Mobility::Static,
                depth_offset_factor: 0,
                local_transform: Transform::identity_spec(),
                parent: Handle::none_spec(),
                properties: n.base.properties,
                script: Option::None,
            }),
            n.base.properties@ == Seq::<Property>::empty(),
    {
        Node { kind: NodeKind::Base, base: self.build_base() }
    }
}

} // verus!
