//! The two participant identities and the pairing between them.

use vstd::prelude::*;

verus! {

/// Identity of one of the exactly two participants of the protocol.
///
/// The protocol does not generalize: every piece of shared coordination state
/// is indexed by this two-variant enumeration, which makes the two-participant
/// constraint structural.
#[derive(Clone, Copy, PartialEq, Eq, Structural, Debug)]
pub enum ProcessId {
    First,
    Second,
}

impl ProcessId {
    /// The identity of the remaining participant.
    pub open spec fn spec_other(self) -> ProcessId {
        match self {
            ProcessId::First => ProcessId::Second,
            ProcessId::Second => ProcessId::First,
        }
    }

    /// Executable form of [`ProcessId::spec_other`].
    pub fn other(self) -> (r: ProcessId)
        ensures
            r == self.spec_other(),
    {
        match self {
            ProcessId::First => ProcessId::Second,
            ProcessId::Second => ProcessId::First,
        }
    }
}

} // verus!
