//! Session grammars: for each role, the phases of a conversation, the events
//! that each phase allows, and the wire messages that stand for them.

use vstd::prelude::*;

pub mod authentication;
pub mod backend;
pub mod frontend;
pub mod laws;
pub mod pre_startup;
pub mod server_authentication;
pub mod server_pre_startup;

verus! {

/// Which side chooses the next event.
#[derive(Clone, Copy, Debug, PartialEq, Eq, Hash, Structural)]
pub enum ChoiceKind {
    Internal,
    External,
    Mixed,
}

/// What an event does to the cleanliness of a connection.
#[derive(Clone, Copy, Debug, PartialEq, Eq, Hash, Structural)]
pub enum Effect {
    Unchanged,
    Dirty,
    Pristine,
}

impl ChoiceKind {
    /// The same choice seen from the peer.
    pub open spec fn flipped(self) -> ChoiceKind {
        match self {
            ChoiceKind::Internal => ChoiceKind::External,
            ChoiceKind::External => ChoiceKind::Internal,
            ChoiceKind::Mixed => ChoiceKind::Mixed,
        }
    }

    /// The same choice seen from the peer.
    pub fn dual(self) -> (choice: ChoiceKind)
        ensures
            choice == self.flipped(),
    {
        match self {
            ChoiceKind::Internal => ChoiceKind::External,
            ChoiceKind::External => ChoiceKind::Internal,
            ChoiceKind::Mixed => ChoiceKind::Mixed,
        }
    }
}

} // verus!
