use vstd::prelude::*;

verus! {

/// The ways a call into the contract core can fail.
///
/// Business outcomes such as "message too long" or "reminder not found" are
/// not errors: they are successful answers carrying a descriptive status.
#[derive(Clone, Copy, Debug, PartialEq, Eq, Structural)]
pub enum Error {
    /// A required entry (the contract configuration) was absent on a typed
    /// load. After a successful `init` this marks an integrity fault.
    NotFound,
    /// Stored bytes did not parse back into the expected structure.
    Decode,
    /// An input was rejected before any state was touched.
    Validation,
    /// No candidate identity's viewing key matched. Deliberately carries no
    /// information about which candidate failed or why.
    Unauthorized,
}

} // verus!
