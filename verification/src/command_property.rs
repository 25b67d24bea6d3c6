//! Editing a node's indexed property list, with exact undo.
//!
//! The set commands are swap-style: execute and revert exchange the held
//! value with the one at the stored index, touching no other entry. The
//! add/remove pair is a symmetric vector edit: add's revert is remove and
//! remove's revert is add, both at a fixed index, order-preserving.

use vstd::prelude::*;

use crate::handle::Handle;
use crate::node::Property;
use crate::node::PropertyValue;
use crate::node::with_properties;
use crate::pool::occupy_one;
use crate::pool::slot_live;
use crate::pool::slot_payload;
use crate::scene::SceneContext;

verus! {

/// Sets the value of one property; undo restores the displaced value at
/// the same index.
#[derive(Debug)]
pub struct SetPropertyValueCommand {
    pub handle: Handle,
    pub index: usize,
    pub value: PropertyValue,
}

impl SetPropertyValueCommand {
    /// Captures the node, the property index and the value to write.
    pub fn new(handle: Handle, index: usize, value: PropertyValue) -> (c:
        SetPropertyValueCommand)
        ensures
            c == (SetPropertyValueCommand { handle, index, value }),
    {
        SetPropertyValueCommand { handle, index, value }
    }

    /// Exchanges the held value with the one stored at the index.
    fn swap(&mut self, context: &mut SceneContext)
        requires
            slot_live(old(context).scene.graph@, old(self).handle),
            old(self).index < slot_payload(
                old(context).scene.graph@,
                old(self).handle,
            ).base.properties@.len(),
        ensures
            final(self).handle == old(self).handle,
            final(self).index == old(self).index,
            final(self).value == slot_payload(
                old(context).scene.graph@,
                old(self).handle,
            ).base.properties@[old(self).index as int].value,
            final(context).scene.graph@ == occupy_one(
                old(context).scene.graph@,
                old(self).handle,
                with_properties(
                    slot_payload(old(context).scene.graph@, old(self).handle),
                    slot_payload(
                        final(context).scene.graph@,
                        old(self).handle,
                    ).base.properties,
                ),
            ),
            slot_payload(final(context).scene.graph@, old(self).handle).base.properties@
                == slot_payload(
                old(context).scene.graph@,
                old(self).handle,
            ).base.properties@.update(
                old(self).index as int,
                Property {
                    name: slot_payload(
                        old(context).scene.graph@,
                        old(self).handle,
                    ).base.properties@[old(self).index as int].name,
                    value: old(self).value,
                },
            ),
            final(context).scene.graph.root_spec() == old(context).scene.graph.root_spec(),
            final(context).scene.animations == old(context).scene.animations,
    {
        let mut value = PropertyValue::Boolean(false);
        std::mem::swap(&mut self.value, &mut value);
        let prior = context.scene.graph.replace_property_value(self.handle, self.index, value);
        self.value = prior;
    }

    /// The display label of this command.
    pub fn name(&self, _context: &SceneContext) -> (r: String)
        ensures
            r@ == "Set Property Value"@,
    {
        "Set Property Value".to_owned()
    }

    /// Writes the held value at the stored index, keeping the displaced
    /// value for the next call.
    pub fn execute(&mut self, context: &mut SceneContext)
        requires
            slot_live(old(context).scene.graph@, old(self).handle),
            old(self).index < slot_payload(
                old(context).scene.graph@,
                old(self).handle,
            ).base.properties@.len(),
        ensures
            final(self).handle == old(self).handle,
            final(self).index == old(self).index,
            final(self).value == slot_payload(
                old(context).scene.graph@,
                old(self).handle,
            ).base.properties@[old(self).index as int].value,
            final(context).scene.graph@ == occupy_one(
                old(context).scene.graph@,
                old(self).handle,
                with_properties(
                    slot_payload(old(context).scene.graph@, old(self).handle),
                    slot_payload(
                        final(context).scene.graph@,
                        old(self).handle,
                    ).base.properties,
                ),
            ),
            slot_payload(final(context).scene.graph@, old(self).handle).base.properties@
                == slot_payload(
                old(context).scene.graph@,
                old(self).handle,
            ).base.properties@.update(
                old(self).index as int,
                Property {
                    name: slot_payload(
                        old(context).scene.graph@,
                        old(self).handle,
                    ).base.properties@[old(self).index as int].name,
                    value: old(self).value,
                },
            ),
            final(context).scene.graph.root_spec() == old(context).scene.graph.root_spec(),
            final(context).scene.animations == old(context).scene.animations,
    {
        self.swap(context)
    }

    /// Identical to `execute`: the swap makes the operation symmetric.
    pub fn revert(&mut self, context: &mut SceneContext)
        requires
            slot_live(old(context).scene.graph@, old(self).handle),
            old(self).index < slot_payload(
                old(context).scene.graph@,
                old(self).handle,
            ).base.properties@.len(),
        ensures
            final(self).handle == old(self).handle,
            final(self).index == old(self).index,
            final(self).value == slot_payload(
                old(context).scene.graph@,
                old(self).handle,
            ).base.properties@[old(self).index as int].value,
            slot_payload(final(context).scene.graph@, old(self).handle).base.properties@
                == slot_payload(
                old(context).scene.graph@,
                old(self).handle,
            ).base.properties@.update(
                old(self).index as int,
                Property {
                    name: slot_payload(
                        old(context).scene.graph@,
                        old(self).handle,
                    ).base.properties@[old(self).index as int].name,
                    value: old(self).value,
                },
            ),
            final(context).scene.graph@ == occupy_one(
                old(context).scene.graph@,
                old(self).handle,
                with_properties(
                    slot_payload(old(context).scene.graph@, old(self).handle),
                    slot_payload(
                        final(context).scene.graph@,
                        old(self).handle,
                    ).base.properties,
                ),
            ),
            final(context).scene.graph.root_spec() == old(context).scene.graph.root_spec(),
            final(context).scene.animations == old(context).scene.animations,
    {
        self.swap(context)
    }
}

/// Applying a property value and reverting restores exactly the prior
/// value at the same index and shifts no other property: every other entry
/// is untouched and the list keeps its length.
pub proof fn lemma_set_property_value_round_trip(ps: Seq<Property>, i: int, v: PropertyValue)
    requires
        0 <= i < ps.len(),
    ensures
        ({
            let ps1 = ps.update(i, Property { name: ps[i].name, value: v });
            let ps2 = ps1.update(i, Property { name: ps1[i].name, value: ps[i].value });
            &&& ps2 == ps
            &&& ps1.len() == ps.len()
            &&& forall|j: int| 0 <= j < ps.len() && j != i ==> ps1[j] == ps[j]
        }),
{
    let ps1 = ps.update(i, Property { name: ps[i].name, value: v });
    let ps2 = ps1.update(i, Property { name: ps1[i].name, value: ps[i].value });
    assert(ps2 =~= ps);
}

/// Renames one property; undo restores the displaced name at the same
/// index.
#[derive(Debug)]
pub struct SetPropertyNameCommand {
    pub handle: Handle,
    pub index: usize,
    pub name: String,
}

impl SetPropertyNameCommand {
    /// Captures the node, the property index and the name to write.
    pub fn new(handle: Handle, index: usize, name: String) -> (c: SetPropertyNameCommand)
        ensures
            c == (SetPropertyNameCommand { handle, index, name }),
    {
        SetPropertyNameCommand { handle, index, name }
    }

    /// Exchanges the held name with the one stored at the index.
    fn swap(&mut self, context: &mut SceneContext)
        requires
            slot_live(old(context).scene.graph@, old(self).handle),
            old(self).index < slot_payload(
                old(context).scene.graph@,
                old(self).handle,
            ).base.properties@.len(),
        ensures
            final(self).handle == old(self).handle,
            final(self).index == old(self).index,
            final(self).name == slot_payload(
                old(context).scene.graph@,
                old(self).handle,
            ).base.properties@[old(self).index as int].name,
            final(context).scene.graph@ == occupy_one(
                old(context).scene.graph@,
                old(self).handle,
                with_properties(
                    slot_payload(old(context).scene.graph@, old(self).handle),
                    slot_payload(
                        final(context).scene.graph@,
                        old(self).handle,
                    ).base.properties,
                ),
            ),
            slot_payload(final(context).scene.graph@, old(self).handle).base.properties@
                == slot_payload(
                old(context).scene.graph@,
                old(self).handle,
            ).base.properties@.update(
                old(self).index as int,
                Property {
                    name: old(self).name,
                    value: slot_payload(
                        old(context).scene.graph@,
                        old(self).handle,
                    ).base.properties@[old(self).index as int].value,
                },
            ),
            final(context).scene.graph.root_spec() == old(context).scene.graph.root_spec(),
            final(context).scene.animations == old(context).scene.animations,
    {
        let mut name = String::new();
        std::mem::swap(&mut self.name, &mut name);
        let prior = context.scene.graph.replace_property_name(self.handle, self.index, name);
        self.name = prior;
    }

    /// The display label of this command.
    pub fn name(&self, _context: &SceneContext) -> (r: String)
        ensures
            r@ == "Set Property Name"@,
    {
        "Set Property Name".to_owned()
    }

    /// Writes the held name at the stored index, keeping the displaced
    /// name for the next call.
    pub fn execute(&mut self, context: &mut SceneContext)
        requires
            slot_live(old(context).scene.graph@, old(self).handle),
            old(self).index < slot_payload(
                old(context).scene.graph@,
                old(self).handle,
            ).base.properties@.len(),
        ensures
            final(self).handle == old(self).handle,
            final(self).index == old(self).index,
            final(self).name == slot_payload(
                old(context).scene.graph@,
                old(self).handle,
            ).base.properties@[old(self).index as int].name,
            slot_payload(final(context).scene.graph@, old(self).handle).base.properties@
                == slot_payload(
                old(context).scene.graph@,
                old(self).handle,
            ).base.properties@.update(
                old(self).index as int,
                Property {
                    name: old(self).name,
                    value: slot_payload(
                        old(context).scene.graph@,
                        old(self).handle,
                    ).base.properties@[old(self).index as int].value,
                },
            ),
            final(context).scene.graph@ == occupy_one(
                old(context).scene.graph@,
                old(self).handle,
                with_properties(
                    slot_payload(old(context).scene.graph@, old(self).handle),
                    slot_payload(
                        final(context).scene.graph@,
                        old(self).handle,
                    ).base.properties,
                ),
            ),
            final(context).scene.graph.root_spec() == old(context).scene.graph.root_spec(),
            final(context).scene.animations == old(context).scene.animations,
    {
        self.swap(context)
    }

    /// Identical to `execute`: the swap makes the operation symmetric.
    pub fn revert(&mut self, context: &mut SceneContext)
        requires
            slot_live(old(context).scene.graph@, old(self).handle),
            old(self).index < slot_payload(
                old(context).scene.graph@,
                old(self).handle,
            ).base.properties@.len(),
        ensures
            final(self).handle == old(self).handle,
            final(self).index == old(self).index,
            final(self).name == slot_payload(
                old(context).scene.graph@,
                old(self).handle,
            ).base.properties@[old(self).index as int].name,
            slot_payload(final(context).scene.graph@, old(self).handle).base.properties@
                == slot_payload(
                old(context).scene.graph@,
                old(self).handle,
            ).base.properties@.update(
                old(self).index as int,
                Property {
                    name: old(self).name,
                    value: slot_payload(
                        old(context).scene.graph@,
                        old(self).handle,
                    ).base.properties@[old(self).index as int].value,
                },
            ),
            final(context).scene.graph@ == occupy_one(
                old(context).scene.graph@,
                old(self).handle,
                with_properties(
                    slot_payload(old(context).scene.graph@, old(self).handle),
                    slot_payload(
                        final(context).scene.graph@,
                        old(self).handle,
                    ).base.properties,
                ),
            ),
            final(context).scene.graph.root_spec() == old(context).scene.graph.root_spec(),
            final(context).scene.animations == old(context).scene.animations,
    {
        self.swap(context)
    }
}

/// Applying a property name and reverting restores exactly the prior name
/// at the same index, touching no other entry.
pub proof fn lemma_set_property_name_round_trip(ps: Seq<Property>, i: int, n: String)
    requires
        0 <= i < ps.len(),
    ensures
        ({
            let ps1 = ps.update(i, Property { name: n, value: ps[i].value });
            let ps2 = ps1.update(i, Property { name: ps[i].name, value: ps1[i].value });
            &&& ps2 == ps
            &&& ps1.len() == ps.len()
            &&& forall|j: int| 0 <= j < ps.len() && j != i ==> ps1[j] == ps[j]
        }),
{
    let ps1 = ps.update(i, Property { name: n, value: ps[i].value });
    let ps2 = ps1.update(i, Property { name: ps[i].name, value: ps1[i].value });
    assert(ps2 =~= ps);
}

/// Appends one property; undo removes it again from the end of the list.
#[derive(Debug)]
pub struct AddPropertyCommand {
    pub handle: Handle,
    pub value: Option<Property>,
}

impl AddPropertyCommand {
    /// Captures the node and the property to append.
    pub fn new(handle: Handle, property: Property) -> (c: AddPropertyCommand)
        ensures
            c.handle == handle,
            c.value == Some(property),
    {
        AddPropertyCommand { handle, value: Some(property) }
    }

    /// The display label of this command.
    pub fn name(&self, _context: &SceneContext) -> (r: String)
        ensures
            r@ == "Add Property"@,
    {
        "Add Property".to_owned()
    }

    /// Appends the held property to the node's list.
    pub fn execute(&mut self, context: &mut SceneContext)
        requires
            slot_live(old(context).scene.graph@, old(self).handle),
            old(self).value is Some,
        ensures
            final(self).handle == old(self).handle,
            final(self).value is None,
            final(context).scene.graph@ == occupy_one(
                old(context).scene.graph@,
                old(self).handle,
                with_properties(
                    slot_payload(old(context).scene.graph@, old(self).handle),
                    slot_payload(
                        final(context).scene.graph@,
                        old(self).handle,
                    ).base.properties,
                ),
            ),
            slot_payload(final(context).scene.graph@, old(self).handle).base.properties@
                == slot_payload(old(context).scene.graph@, old(self).handle).base.properties@.push(
                old(self).value->0,
            ),
            final(context).scene.graph.root_spec() == old(context).scene.graph.root_spec(),
            final(context).scene.animations == old(context).scene.animations,
    {
        let mut value: Option<Property> = None;
        std::mem::swap(&mut self.value, &mut value);
        let property = match value {
            Some(p) => p,
            None => vstd::pervasive::unreached(),
        };
        let len = context.scene.graph.node(self.handle).base.properties.len();
        context.scene.graph.insert_property(self.handle, len, property);
        proof {
            assert(slot_payload(context.scene.graph@, old(self).handle).base.properties@
                =~= slot_payload(
                old(context).scene.graph@,
                old(self).handle,
            ).base.properties@.push(old(self).value->0));
        }
    }

    /// Removes the appended property again, taking it back into the
    /// command.
    pub fn revert(&mut self, context: &mut SceneContext)
        requires
            slot_live(old(context).scene.graph@, old(self).handle),
            old(self).value is None,
            slot_payload(old(context).scene.graph@, old(self).handle).base.properties@.len() >= 1,
        ensures
            final(self).handle == old(self).handle,
            final(self).value == Some(
                slot_payload(old(context).scene.graph@, old(self).handle).base.properties@.last(),
            ),
            final(context).scene.graph@ == occupy_one(
                old(context).scene.graph@,
                old(self).handle,
                with_properties(
                    slot_payload(old(context).scene.graph@, old(self).handle),
                    slot_payload(
                        final(context).scene.graph@,
                        old(self).handle,
                    ).base.properties,
                ),
            ),
            slot_payload(final(context).scene.graph@, old(self).handle).base.properties@
                == slot_payload(
                old(context).scene.graph@,
                old(self).handle,
            ).base.properties@.drop_last(),
            final(context).scene.graph.root_spec() == old(context).scene.graph.root_spec(),
            final(context).scene.animations == old(context).scene.animations,
    {
        let len = context.scene.graph.node(self.handle).base.properties.len();
        let removed = context.scene.graph.remove_property(self.handle, len - 1);
        self.value = Some(removed);
        proof {
            assert(slot_payload(context.scene.graph@, old(self).handle).base.properties@
                =~= slot_payload(
                old(context).scene.graph@,
                old(self).handle,
            ).base.properties@.drop_last());
        }
    }
}

/// Removes the property at a fixed index; undo inserts it back there,
/// shifting every later entry to its original place.
#[derive(Debug)]
pub struct RemovePropertyCommand {
    pub handle: Handle,
    pub index: usize,
    pub value: Option<Property>,
}

impl RemovePropertyCommand {
    /// Captures the node and the index to remove at.
    pub fn new(handle: Handle, index: usize) -> (c: RemovePropertyCommand)
        ensures
            c.handle == handle,
            c.index == index,
            c.value is None,
    {
        RemovePropertyCommand { handle, index, value: None }
    }

    /// The display label of this command.
    pub fn name(&self, _context: &SceneContext) -> (r: String)
        ensures
            r@ == "Remove Property"@,
    {
        "Remove Property".to_owned()
    }

    /// Removes the property at the stored index, taking it into the
    /// command.
    pub fn execute(&mut self, context: &mut SceneContext)
        requires
            slot_live(old(context).scene.graph@, old(self).handle),
            old(self).value is None,
            old(self).index < slot_payload(
                old(context).scene.graph@,
                old(self).handle,
            ).base.properties@.len(),
        ensures
            final(self).handle == old(self).handle,
            final(self).index == old(self).index,
            final(self).value == Some(
                slot_payload(
                    old(context).scene.graph@,
                    old(self).handle,
                ).base.properties@[old(self).index as int],
            ),
            final(context).scene.graph@ == occupy_one(
                old(context).scene.graph@,
                old(self).handle,
                with_properties(
                    slot_payload(old(context).scene.graph@, old(self).handle),
                    slot_payload(
                        final(context).scene.graph@,
                        old(self).handle,
                    ).base.properties,
                ),
            ),
            slot_payload(final(context).scene.graph@, old(self).handle).base.properties@
                == slot_payload(
                old(context).scene.graph@,
                old(self).handle,
            ).base.properties@.remove(old(self).index as int),
            final(context).scene.graph.root_spec() == old(context).scene.graph.root_spec(),
            final(context).scene.animations == old(context).scene.animations,
    {
        let removed = context.scene.graph.remove_property(self.handle, self.index);
        self.value = Some(removed);
    }

    /// Inserts the removed property back at the stored index.
    pub fn revert(&mut self, context: &mut SceneContext)
        requires
            slot_live(old(context).scene.graph@, old(self).handle),
            old(self).value is Some,
            old(self).index <= slot_payload(
                old(context).scene.graph@,
                old(self).handle,
            ).base.properties@.len(),
        ensures
            final(self).handle == old(self).handle,
            final(self).index == old(self).index,
            final(self).value is None,
            final(context).scene.graph@ == occupy_one(
                old(context).scene.graph@,
                old(self).handle,
                with_properties(
                    slot_payload(old(context).scene.graph@, old(self).handle),
                    slot_payload(
                        final(context).scene.graph@,
                        old(self).handle,
                    ).base.properties,
                ),
            ),
            slot_payload(final(context).scene.graph@, old(self).handle).base.properties@
                == slot_payload(
                old(context).scene.graph@,
                old(self).handle,
            ).base.properties@.insert(old(self).index as int, old(self).value->0),
            final(context).scene.graph.root_spec() == old(context).scene.graph.root_spec(),
            final(context).scene.animations == old(context).scene.animations,
    {
        let mut value: Option<Property> = None;
        std::mem::swap(&mut self.value, &mut value);
        let property = match value {
            Some(p) => p,
            None => vstd::pervasive::unreached(),
        };
        context.scene.graph.insert_property(self.handle, self.index, property);
    }
}

/// Appending a property and reverting leaves the property list exactly as
/// it was.
pub proof fn lemma_add_property_round_trip(ps: Seq<Property>, p: Property)
    ensures
        ps.push(p).drop_last() == ps,
{
    assert(ps.push(p).drop_last() =~= ps);
}

/// Removing a property and reverting restores the list exactly: the entry
/// returns to its index and every other entry keeps its place.
pub proof fn lemma_remove_property_round_trip(ps: Seq<Property>, i: int)
    requires
        0 <= i < ps.len(),
    ensures
        ps.remove(i).insert(i, ps[i]) == ps,
{
    assert(ps.remove(i).insert(i, ps[i]) =~= ps);
}

} // verus!
