//! The descriptor guard: a minimal ownership wrapper around one open OS file
//! descriptor. Exactly one guard exists per live descriptor, and the
//! descriptor is released exactly once — when the guard is dropped, or never
//! by the guard once ownership was transferred out with [`FdGuard::release`].

use vstd::prelude::*;
use rustix::fd::AsRawFd;
use rustix::fd::IntoRawFd;

verus! {

#[verifier::external_type_specification]
#[verifier::external_body]
pub struct ExOwnedFd(rustix::fd::OwnedFd);

/// Ownership wrapper around one open OS file descriptor.
///
/// Dropping the guard closes the descriptor exactly once; a close failure at
/// that point is deliberately swallowed, since retrying a close on a
/// descriptor the OS may have reused risks closing an unrelated resource.
/// Further operations on a released guard are ruled out by ownership: both
/// [`FdGuard::release`] and the implicit destruction consume the guard.
pub struct FdGuard {
    pub(crate) fd: rustix::fd::OwnedFd,
}

impl FdGuard {
    /// The owned descriptor behind the guard.
    pub closed spec fn spec_fd(&self) -> rustix::fd::OwnedFd {
        self.fd
    }

    /// Takes ownership of an already-open descriptor; never fails.
    pub fn acquire(fd: rustix::fd::OwnedFd) -> (r: FdGuard)
        ensures
            r.spec_fd() == fd,
    {
        FdGuard { fd }
    }

    /// Consumes the guard and hands back the raw descriptor number without
    /// closing it; the caller becomes responsible for the descriptor.
    ///
    /// Relies on std's `IntoRawFd` for an owned descriptor: it returns the
    /// underlying descriptor and gives up ownership, so no close runs here.
    #[verifier::external_body]
    pub fn release(self) -> (r: i32) {
        self.fd.into_raw_fd()
    }

    /// The raw descriptor number, ownership unchanged.
    ///
    /// Relies on std's `AsRawFd` for an owned descriptor: it returns the
    /// underlying descriptor without affecting its lifetime.
    #[verifier::external_body]
    pub fn as_raw_fd(&self) -> (r: i32) {
        self.fd.as_raw_fd()
    }

    /// Borrows the owned descriptor, for handing to OS calls that take one.
    pub fn borrow_fd(&self) -> (r: &rustix::fd::OwnedFd)
        ensures
            *r == self.spec_fd(),
    {
        &self.fd
    }
}

} // verus!
