//! Identifiers shared by the workspace pages.
use vstd::prelude::*;

verus! {

/// Identifier of a committed clipboard event (a UUID, held as its 128-bit value).
#[derive(Clone, Copy, Debug, PartialEq, Eq, Structural, Hash, PartialOrd, Ord)]
pub struct EventId(pub u128);

/// Identifier of a live peer session.
#[derive(Clone, Copy, Debug, PartialEq, Eq, Structural, Hash, PartialOrd, Ord)]
pub struct SessionId(pub u128);

/// Identifier of a saved direct seed.
#[derive(Clone, Copy, Debug, PartialEq, Eq, Structural, Hash, PartialOrd, Ord)]
pub struct DirectSeedId(pub u128);

/// Identifier of a pending direct connection request.
#[derive(Clone, Copy, Debug, PartialEq, Eq, Structural, Hash, PartialOrd, Ord)]
pub struct DirectRequestId(pub u128);

} // verus!
