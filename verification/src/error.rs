//! What can go wrong when a value is added to a rack.

use vstd::prelude::*;

verus! {

/// The ways in which adding a value to a rack can fail.
#[derive(Debug, Clone, Copy, PartialEq, Eq, Structural)]
pub enum AddUnitError {
    /// Every slot of the rack is held: it cannot accept another value.
    FullRack,
}

impl AddUnitError {
    /// The error in words.
    pub fn to_string(&self) -> (text: String)
        ensures
            text@ == "the rack is full"@,
    {
        match self {
            AddUnitError::FullRack => "the rack is full".to_owned(),
        }
    }
}

} // verus!
