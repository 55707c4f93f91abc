//! The inotify watch manager: owns an inotify instance descriptor, adds and
//! removes path watches, and reads the raw event byte stream. The kernel is
//! the source of truth for the watch table; this crate tracks no watch state
//! of its own. Decoding of the raw bytes lives in [`crate::event`].

use vstd::prelude::*;
use crate::errors::Error;
use crate::flags::InotifyCreateFlags;
use crate::flags::InotifyEventMask;
use crate::guard::FdGuard;

verus! {

/// Identifier of one registered watch, meaningful only together with the
/// instance that issued it. Validity ends when the watch is removed or when
/// the owning instance is destroyed: the kernel then invalidates it.
#[derive(Clone, Copy, Debug, PartialEq, Eq, Structural)]
pub struct WatchFd(pub i32);

/// One inotify instance, holding the kernel descriptor through a guard that
/// closes it exactly once on destruction. Closing the instance invalidates
/// every watch registered on it.
pub struct InotifyFd {
    guard: FdGuard,
}

/// Creates a new inotify instance with the given creation flags.
///
/// Relies on rustix's `fs::inotify::init` (the `inotify_init1` call): on
/// success the kernel hands back a new instance descriptor; on failure the
/// kernel's error code is returned unchanged.
#[verifier::external_body]
pub fn inotify_init1(flags: InotifyCreateFlags) -> (r: Result<FdGuard, Error>)
    ensures
        r matches Err(e) ==> e is System,
{
    let f = rustix::fs::inotify::CreateFlags::from_bits_retain(flags.bits());
    match rustix::fs::inotify::init(f) {
        Ok(fd) => Ok(FdGuard { fd }),
        Err(e) => Err(Error::System(e.raw_os_error())),
    }
}

/// Registers interest in `path` for the event types in `mask` on the given
/// instance, returning the watch's identifier.
///
/// Relies on rustix's `fs::inotify::add_watch` (the `inotify_add_watch`
/// call): it registers a watch, or, where one already exists for the same
/// path on this instance, updates that watch's mask and returns its existing
/// identifier rather than creating a duplicate. Fails with the kernel's
/// error code, as when the path does not exist.
#[verifier::external_body]
pub fn inotify_add(fd: &FdGuard, path: &str, mask: InotifyEventMask) -> (r: Result<WatchFd, Error>)
    ensures
        r matches Err(e) ==> e is System,
{
    let f = rustix::fs::inotify::WatchFlags::from_bits_retain(mask.bits());
    match rustix::fs::inotify::add_watch(&fd.fd, path, f) {
        Ok(wd) => Ok(WatchFd(wd)),
        Err(e) => Err(Error::System(e.raw_os_error())),
    }
}

/// Deregisters a previously added watch on the given instance.
///
/// Relies on rustix's `fs::inotify::remove_watch` (the `inotify_rm_watch`
/// call): it removes the watch, and fails with the kernel's error code where
/// the identifier is unknown to the instance — already removed, issued by a
/// different instance, or auto-invalidated by the kernel.
#[verifier::external_body]
pub fn inotify_rm(fd: &FdGuard, wd: WatchFd) -> (r: Result<(), Error>)
    ensures
        r matches Err(e) ==> e is System,
{
    match rustix::fs::inotify::remove_watch(&fd.fd, wd.0) {
        Ok(()) => Ok(()),
        Err(e) => Err(Error::System(e.raw_os_error())),
    }
}

/// Reads at most `cap` bytes of raw event records from the instance.
///
/// Relies on rustix's `io::read`: the kernel fills the buffer with whole
/// event records only, never more than the buffer holds, and on failure —
/// as when a non-blocking instance has nothing pending — returns its error
/// code unchanged.
#[verifier::external_body]
pub fn read_raw_events(fd: &FdGuard, cap: usize) -> (r: Result<Vec<u8>, Error>)
    ensures
        r matches Ok(v) ==> v@.len() <= cap,
        r matches Err(e) ==> e is System,
{
    let mut buf = vec![0u8; cap];
    match rustix::io::read(&fd.fd, &mut buf[..]) {
        Ok(n) => {
            buf.truncate(n);
            Ok(buf)
        }
        Err(e) => Err(Error::System(e.raw_os_error())),
    }
}

impl InotifyFd {
    /// The guard owning the instance's descriptor.
    pub closed spec fn spec_guard(&self) -> FdGuard {
        self.guard
    }

    /// Creates a new inotify instance. Fails with `System` on kernel
    /// resource exhaustion or invalid flags.
    pub fn new(flags: InotifyCreateFlags) -> (r: Result<InotifyFd, Error>)
        ensures
            r matches Err(e) ==> e is System,
    {
        match inotify_init1(flags) {
            Ok(g) => Ok(InotifyFd { guard: g }),
            Err(e) => Err(e),
        }
    }

    /// Registers interest in `path` for the event types in `mask`. A second
    /// add for the identical path updates the existing watch instead of
    /// creating a duplicate. Fails with `System` where the path does not
    /// exist or the mask is rejected by the kernel.
    pub fn add(&self, path: &str, mask: InotifyEventMask) -> (r: Result<WatchFd, Error>)
        ensures
            r matches Err(e) ==> e is System,
    {
        inotify_add(&self.guard, path, mask)
    }

    /// Deregisters a previously added watch. Fails with `System` where the
    /// identifier is unknown to this instance.
    pub fn rm(&self, wd: WatchFd) -> (r: Result<(), Error>)
        ensures
            r matches Err(e) ==> e is System,
    {
        inotify_rm(&self.guard, wd)
    }

    /// Reads at most `cap` bytes of raw event records; decode them with
    /// [`crate::event::decode_events`]. Each read yields a fresh buffer.
    pub fn read_raw(&self, cap: usize) -> (r: Result<Vec<u8>, Error>)
        ensures
            r matches Ok(v) ==> v@.len() <= cap,
            r matches Err(e) ==> e is System,
    {
        read_raw_events(&self.guard, cap)
    }

    /// Consumes the instance and hands the descriptor's guard to the caller
    /// without closing it; no further watch operation is possible on it.
    pub fn release(self) -> (r: FdGuard)
        ensures
            r == self.spec_guard(),
    {
        self.guard
    }

    /// The raw descriptor number of the instance, ownership unchanged.
    pub fn as_raw_fd(&self) -> (r: i32) {
        self.guard.as_raw_fd()
    }
}

} // verus!
