use vstd::prelude::*;

verus! {

/// The closed set of error kinds that the protocol reports.
#[derive(Clone, Copy, Debug, PartialEq, Eq, Structural)]
pub enum ErrorKind {
    /// `lock` was called on an entity whose logical lock flag was already set.
    AlreadyLocked,
    /// A nested storage rendering failed; this core defines no concrete cause.
    RenderFailure,
}

} // verus!
