use vstd::prelude::*;

use crate::definition::{Definition, DefinitionModel};

verus! {

/// The result of one consumption attempt: whether a definition is available
/// and, if so, the definition.
pub struct InputState {
    available: bool,
    definition: Option<Definition>,
}

impl InputState {
    pub closed spec fn available_spec(&self) -> bool {
        self.available
    }

    pub closed spec fn definition_spec(&self) -> Option<DefinitionModel> {
        match self.definition {
            Some(d) => Some(d@),
            None => None,
        }
    }

    pub fn new(available: bool, definition: Option<Definition>) -> (r: InputState)
        ensures
            r.available_spec() == available,
            r.definition_spec() == (match definition {
                Some(d) => Some(d@),
                None => None,
            }),
    {
        InputState { available, definition }
    }

    pub fn available(&self) -> (r: bool)
        ensures
            r == self.available_spec(),
    {
        self.available
    }

    /// A copy of the definition, if there is one.
    pub fn definition(&self) -> (r: Option<Definition>)
        ensures
            self.definition_spec() matches Some(m) ==> (r matches Some(d) && d@ == m),
            self.definition_spec() is None ==> r is None,
    {
        match &self.definition {
            Some(d) => Some(d.duplicate()),
            None => None,
        }
    }
}

} // verus!
