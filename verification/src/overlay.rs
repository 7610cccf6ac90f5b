//! The overlay lease: a capability token asserting that a given code overlay
//! of the game binary is currently loaded into its memory region.

use vstd::prelude::*;

verus! {

/// A capability token for overlay group `N`.
///
/// Holding a value of this type asserts that overlay `N` is loaded, which the
/// engine requires before any routine of that overlay is called. The token
/// itself carries no data; what matters is that every API that calls into the
/// overlay demands one.
#[derive(Clone, Copy)]
pub struct OverlayLoadLease<const N: u32> {
    _token: (),
}

impl<const N: u32> OverlayLoadLease<N> {
    /// Issues a lease without any check.
    ///
    /// The caller is responsible for the overlay actually being loaded; the
    /// unverified glue that loads overlays is the place to call this.
    pub fn acquire_unchecked() -> (r: Self) {
        OverlayLoadLease { _token: () }
    }
}

/// A type that is constructed from an overlay lease and keeps it for the
/// lifetime of the value, so that its methods may call into the overlay.
pub trait CreatableWithLease<const N: u32>: Sized {
    /// The value `_create` builds from a given lease.
    spec fn spec_created(lease: OverlayLoadLease<N>) -> Self;

    /// The lease the value was built from.
    spec fn spec_lease(&self) -> OverlayLoadLease<N>;

    /// A freshly built value keeps the lease it was built from.
    proof fn lemma_created_lease(lease: OverlayLoadLease<N>)
        ensures
            Self::spec_created(lease).spec_lease() == lease,
    ;

    /// Internal constructor: wraps the lease.
    fn _create(lease: OverlayLoadLease<N>) -> (r: Self)
        ensures
            r == Self::spec_created(lease),
    ;

    /// Builds the value from a lease.
    fn new(lease: OverlayLoadLease<N>) -> (r: Self)
        ensures
            r == Self::spec_created(lease),
    {
        Self::_create(lease)
    }

    /// Borrows the lease the value was built from.
    fn lease(&self) -> (r: &OverlayLoadLease<N>)
        ensures
            *r == self.spec_lease(),
    ;
}

} // verus!
