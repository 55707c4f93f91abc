//! The PTY allocator: the four-step manual bring-up protocol for a
//! pseudo-terminal pair — open an unused master, grant access to the slave
//! device node, unlock it, resolve the slave's path — and the combined
//! single-call allocation that hands back both sides already open.
//!
//! The sequencing invariant is enforced structurally: [`grant_access`],
//! [`unlock`] and [`resolve_slave_name`] only accept a live master handle,
//! and the only way to construct one is [`open_master`].

use vstd::prelude::*;
use rustix::fd::AsRawFd;
use crate::errors::Error;
use crate::flags::PtyOpenFlags;
use crate::guard::FdGuard;

verus! {

#[verifier::external_type_specification]
#[verifier::external_body]
pub struct ExNixPtyMaster(nix::pty::PtyMaster);

#[verifier::external_type_specification]
#[verifier::external_body]
pub struct ExTermios(nix::sys::termios::Termios);

/// The window size of a terminal: rows and columns in characters, and the
/// optional size in pixels (zero where unknown).
#[derive(Clone, Copy, Debug, PartialEq, Eq, Structural)]
pub struct Winsize {
    /// Height in character rows.
    pub rows: u16,
    /// Width in character columns.
    pub cols: u16,
    /// Width in pixels, or zero.
    pub xpixel: u16,
    /// Height in pixels, or zero.
    pub ypixel: u16,
}

/// The master side of an allocated PTY pair. One master maps to exactly one
/// slave device; the slave's descriptor is independently owned once opened
/// by the caller. Dropping the master closes its descriptor exactly once.
pub struct PtyMasterFd {
    inner: nix::pty::PtyMaster,
}

/// A master/slave pair from the combined allocation: both descriptors are
/// already open and owned by the caller. Beyond being a matched pair at
/// creation time, the two have no further tracked relationship.
pub struct OpenptyResult {
    /// The master side of the pair.
    pub master: FdGuard,
    /// The slave side of the pair.
    pub slave: FdGuard,
}

/// Requests an unused master PTY device from the kernel with the given
/// open-flags. Fails with `System` where no master slots are available or
/// the flags are invalid.
///
/// Relies on nix's `pty::posix_openpt`: it opens an unused master device
/// with the given open-flags and returns a handle owning its descriptor, or
/// the kernel's error code unchanged.
#[verifier::external_body]
pub fn open_master(flags: PtyOpenFlags) -> (r: Result<PtyMasterFd, Error>)
    ensures
        r matches Err(e) ==> e is System,
{
    let f = nix::fcntl::OFlag::from_bits_truncate(flags.bits());
    match nix::pty::posix_openpt(f) {
        Ok(m) => Ok(PtyMasterFd { inner: m }),
        Err(e) => Err(Error::System(e as i32)),
    }
}

/// Adjusts ownership and permissions of the slave device node corresponding
/// to this master, so an unprivileged process may open it. Must run before
/// the slave can be opened, and before [`unlock`]. Fails with `System`
/// where the operation is unsupported.
///
/// Relies on nix's `pty::grantpt`: it performs the grant on the slave
/// device of the given master, or returns the kernel's error code unchanged.
#[verifier::external_body]
pub fn grant_access(master: &PtyMasterFd) -> (r: Result<(), Error>)
    ensures
        r matches Err(e) ==> e is System,
{
    match nix::pty::grantpt(&master.inner) {
        Ok(()) => Ok(()),
        Err(e) => Err(Error::System(e as i32)),
    }
}

/// Removes the internal lock that prevents the slave device from being
/// opened. Must run after [`grant_access`] and before any attempt to open
/// the slave. Fails with `System` where the master handle is rejected.
///
/// Relies on nix's `pty::unlockpt`: it unlocks the slave device of the
/// given master, or returns the kernel's error code unchanged.
#[verifier::external_body]
pub fn unlock(master: &PtyMasterFd) -> (r: Result<(), Error>)
    ensures
        r matches Err(e) ==> e is System,
{
    match nix::pty::unlockpt(&master.inner) {
        Ok(()) => Ok(()),
        Err(e) => Err(Error::System(e as i32)),
    }
}

/// Returns the filesystem path of the slave device corresponding to this
/// master. This is the reentrant form: it fills a buffer of its own, is
/// safe to call from several threads at once, and is a non-portable
/// extension. Fails with `System` where the kernel returns no mapping, and
/// with `Decoding` — kept distinct from the kernel error — where the
/// resolved name is not valid text.
///
/// Relies on rustix's `pty::ptsname`: it asks the kernel for the slave's
/// device number through the master and builds the device path from it,
/// never empty, or returns the kernel's error code unchanged.
#[verifier::external_body]
pub fn resolve_slave_name(master: &PtyMasterFd) -> (r: Result<String, Error>)
    ensures
        r matches Ok(s) ==> s@.len() > 0,
        r matches Err(e) ==> (e is System || e is Decoding),
{
    match rustix::pty::ptsname(&master.inner, Vec::new()) {
        Ok(cs) => match cs.into_string() {
            Ok(s) => Ok(s),
            Err(_) => Err(Error::Decoding),
        },
        Err(e) => Err(Error::System(e.raw_os_error())),
    }
}

/// Creates a new pseudo-terminal pair in one kernel call, returning both
/// the master and slave descriptors already open and owned by the caller.
/// Where `winsize` is given, the slave's window size is set to it; where
/// `termios` is given, the slave's terminal settings are set to it; either
/// being absent leaves the kernel defaults.
///
/// Relies on nix's `pty::openpty`: it allocates the pair, provisions the
/// slave, applies the optional window size and terminal settings, and hands
/// back both open descriptors, or the kernel's error code unchanged.
#[verifier::external_body]
pub fn openpty(
    winsize: Option<Winsize>,
    termios: Option<nix::sys::termios::Termios>,
) -> (r: Result<OpenptyResult, Error>)
    ensures
        r matches Err(e) ==> e is System,
{
    let ws = match winsize {
        Some(w) => Some(
            nix::pty::Winsize { ws_row: w.rows, ws_col: w.cols, ws_xpixel: w.xpixel, ws_ypixel: w.ypixel },
        ),
        None => None,
    };
    match nix::pty::openpty(ws.as_ref(), termios.as_ref()) {
        Ok(p) => Ok(OpenptyResult {
            master: FdGuard { fd: p.master },
            slave: FdGuard { fd: p.slave },
        }),
        Err(e) => Err(Error::System(e as i32)),
    }
}

impl PtyMasterFd {
    /// The underlying master handle.
    pub closed spec fn spec_inner(&self) -> nix::pty::PtyMaster {
        self.inner
    }

    /// Borrows the underlying master handle, for handing to OS calls that
    /// take one.
    pub fn borrow_inner(&self) -> (r: &nix::pty::PtyMaster)
        ensures
            *r == self.spec_inner(),
    {
        &self.inner
    }

    /// The raw descriptor number of the master, ownership unchanged.
    ///
    /// Relies on std's `AsRawFd` for the master handle: it returns the
    /// underlying descriptor without affecting its lifetime.
    #[verifier::external_body]
    pub fn as_raw_fd(&self) -> (r: i32) {
        self.inner.as_raw_fd()
    }

    /// Consumes the master and hands its descriptor's guard to the caller;
    /// no further protocol step is possible on it.
    ///
    /// Relies on nix's `From<PtyMaster> for OwnedFd`: it moves the owned
    /// descriptor out of the handle without closing it.
    #[verifier::external_body]
    pub fn release(self) -> (r: FdGuard) {
        FdGuard { fd: self.inner.into() }
    }
}

} // verus!
