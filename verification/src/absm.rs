//! Animation blending state machine resource data.
//!
//! Only the resource's own data is modelled here: loading it from disk and
//! instantiating it into a scene are engine plumbing that lives outside
//! this crate.

use vstd::prelude::*;

verus! {

/// Definition of an animation blending state machine, as stored in its
/// resource: a name and the names of its states.
#[derive(Debug)]
pub struct MachineDefinition {
    pub name: String,
    pub states: Vec<String>,
}

impl Default for MachineDefinition {
    /// An empty definition: no name, no states.
    fn default() -> (d: MachineDefinition)
        ensures
            d.name@ == Seq::<char>::empty(),
            d.states@ == Seq::<String>::empty(),
    {
        let d = MachineDefinition { name: String::new(), states: Vec::new() };
        proof {
            assert(d.states@ =~= Seq::<String>::empty());
        }
        d
    }
}

/// State of an animation blending state machine resource.
#[derive(Debug)]
pub struct AbsmResourceState {
    /// A path to source.
    pub path: String,
    /// Animation blending state machine definition.
    pub absm_definition: MachineDefinition,
}

impl AbsmResourceState {
    /// Wraps a definition read from the given path.
    pub fn new(path: String, absm_definition: MachineDefinition) -> (s: AbsmResourceState)
        ensures
            s.path == path,
            s.absm_definition == absm_definition,
    {
        AbsmResourceState { path, absm_definition }
    }

    /// The path the resource was read from.
    pub fn path(&self) -> (r: &str)
        ensures
            r@ == self.path@,
    {
        self.path.as_str()
    }

    /// Moves the resource to a new path.
    pub fn set_path(&mut self, path: String)
        ensures
            final(self).path == path,
            final(self).absm_definition == old(self).absm_definition,
    {
        self.path = path;
    }
}

/// Import options for an animation blending state machine resource; the
/// format has none.
#[derive(Clone, Debug)]
pub struct AbsmImportOptions {}

impl Default for AbsmImportOptions {
    /// The one value of the type.
    fn default() -> (o: AbsmImportOptions)
        ensures
            o == (AbsmImportOptions {  }),
    {
        AbsmImportOptions {}
    }
}

} // verus!
