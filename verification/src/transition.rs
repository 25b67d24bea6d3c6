//! Messages of the state-machine transition widget.

use vstd::prelude::*;

verus! {

/// A message a transition widget can receive.
#[derive(Debug, Clone, PartialEq, Eq, Structural)]
pub enum TransitionMessage {
    /// The transition became active and should light up.
    Activate,
}

impl TransitionMessage {
    /// Constructs the activation message.
    pub fn activate() -> (m: TransitionMessage)
        ensures
            m == TransitionMessage::Activate,
    {
        TransitionMessage::Activate
    }
}

} // verus!
