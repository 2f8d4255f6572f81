//! The failures that the session core reports.

use vstd::prelude::*;

verus! {

/// Why an operation of the session core failed.
#[derive(Clone, Copy, Debug, PartialEq, Eq, Structural)]
pub enum Error {
    /// The registry holds no target of the requested name or chip identity.
    TargetNotFound,
    /// The chip gave no identifier to detect it by.
    ChipAutodetectFailed,
    /// No core of this index is declared by the target.
    CoreNotFound(usize),
    /// The live query for the access ports failed.
    AccessPortEnumerationFailed,
    /// The enumeration holds no access port at this position.
    AccessPortNotFound(usize),
    /// The component directory is malformed or could not be read.
    ComponentDirectoryParseError,
    /// A trace component is missing or one of its registers is out of reach.
    TraceSetupFailed,
    /// The transport failed.
    CommunicationError,
    /// Another operation holds the exclusive access window.
    AccessConflict,
}

} // verus!
