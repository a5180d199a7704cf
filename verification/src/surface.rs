//! Surface identifiers.
use vstd::prelude::*;

verus! {

/// Identifier unique per surface within a single event loop.
///
/// Never zero, so consumers can store IDs in compact `Option<SurfaceId>`
/// slots.
#[derive(Debug, Clone, Copy, PartialEq, Eq, Hash, Structural)]
pub struct SurfaceId(u64);

impl SurfaceId {
    #[verifier::type_invariant]
    spec fn nonzero(self) -> bool {
        self.0 != 0
    }

    /// The raw value of the identifier.
    pub closed spec fn raw(self) -> u64 {
        self.0
    }

    /// Two identifiers are equal exactly when their raw values are.
    pub proof fn lemma_raw_injective(a: SurfaceId, b: SurfaceId)
        ensures
            (a == b) <==> (a.raw() == b.raw()),
    {
    }

    /// Construct a `SurfaceId` from a raw `u64`. `0` is reserved and
    /// returns `None`.
    pub fn from_raw(raw: u64) -> (r: Option<SurfaceId>)
        ensures
            r is Some <==> raw != 0,
            r matches Some(id) ==> id.raw() == raw,
    {
        if raw == 0 {
            None
        } else {
            Some(SurfaceId(raw))
        }
    }

    /// Extract the raw `u64`.
    pub fn as_u64(self) -> (r: u64)
        ensures
            r == self.raw(),
            r != 0,
    {
        proof {
            use_type_invariant(&self);
        }
        self.0
    }
}

} // verus!
