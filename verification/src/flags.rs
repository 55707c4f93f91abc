//! Tagged bit-set types for the open-flags and event masks that the two
//! subsystems take, with standard union / intersection / containment
//! operations. Each constant mirrors the Linux value of the corresponding
//! kernel flag, so the bits travel to the kernel unchanged.

use vstd::prelude::*;

verus! {

/// Watch for read accesses.
pub const IN_ACCESS: u32 = 0x001;
/// Watch for modifications.
pub const IN_MODIFY: u32 = 0x002;
/// Watch for attribute changes.
pub const IN_ATTRIB: u32 = 0x004;
/// Watch for closes of files opened for writing.
pub const IN_CLOSE_WRITE: u32 = 0x008;
/// Watch for closes of files opened read-only.
pub const IN_CLOSE_NOWRITE: u32 = 0x010;
/// Watch for opens.
pub const IN_OPEN: u32 = 0x020;
/// Watch for renames out of the watched directory.
pub const IN_MOVED_FROM: u32 = 0x040;
/// Watch for renames into the watched directory.
pub const IN_MOVED_TO: u32 = 0x080;
/// Watch for file creation.
pub const IN_CREATE: u32 = 0x100;
/// Watch for file deletion.
pub const IN_DELETE: u32 = 0x200;
/// Watch for deletion of the watched path itself.
pub const IN_DELETE_SELF: u32 = 0x400;
/// Watch for a move of the watched path itself.
pub const IN_MOVE_SELF: u32 = 0x800;
/// Kernel signal: the backing filesystem was unmounted.
pub const IN_UNMOUNT: u32 = 0x2000;
/// Kernel signal: the event queue overflowed.
pub const IN_Q_OVERFLOW: u32 = 0x4000;
/// Kernel signal: the watch was removed.
pub const IN_IGNORED: u32 = 0x8000;

/// Every event bit this crate knows, kernel-generated signals included.
pub const IN_ALL_KNOWN: u32 = 0xefff;

/// A set of inotify event types, as a bit set over the `IN_*` constants.
#[derive(Clone, Copy, Debug, PartialEq, Eq, Structural)]
pub struct InotifyEventMask {
    bits: u32,
}

impl View for InotifyEventMask {
    type V = u32;

    closed spec fn view(&self) -> u32 {
        self.bits
    }
}

impl InotifyEventMask {
    /// The empty set: no event types selected.
    pub fn empty() -> (r: Self)
        ensures
            r@ == 0u32,
    {
        InotifyEventMask { bits: 0 }
    }

    /// The set holding exactly the given bits, unknown bits dropped.
    pub fn from_bits_truncate(bits: u32) -> (r: Self)
        ensures
            r@ == bits & IN_ALL_KNOWN,
    {
        InotifyEventMask { bits: bits & IN_ALL_KNOWN }
    }

    /// The raw bit pattern of the set.
    pub fn bits(&self) -> (r: u32)
        ensures
            r == self@,
    {
        self.bits
    }

    /// True when no event type is selected.
    pub fn is_empty(&self) -> (r: bool)
        ensures
            r == (self@ == 0u32),
    {
        self.bits == 0
    }

    /// The union of the two sets.
    pub fn union(&self, other: &Self) -> (r: Self)
        ensures
            r@ == (self@ | other@),
    {
        InotifyEventMask { bits: self.bits | other.bits }
    }

    /// The intersection of the two sets.
    pub fn intersection(&self, other: &Self) -> (r: Self)
        ensures
            r@ == (self@ & other@),
    {
        InotifyEventMask { bits: self.bits & other.bits }
    }

    /// True when every event type of `other` is also in this set.
    pub fn contains(&self, other: &Self) -> (r: bool)
        ensures
            r == ((self@ & other@) == other@),
    {
        (self.bits & other.bits) == other.bits
    }
}

/// Create the inotify instance non-blocking: reads fail instead of waiting.
pub const IN_NONBLOCK: u32 = 0x800;
/// Close the inotify descriptor on process replacement.
pub const IN_CLOEXEC: u32 = 0x80000;

/// Creation flags for an inotify instance, as a bit set over `IN_NONBLOCK`
/// and `IN_CLOEXEC`.
#[derive(Clone, Copy, Debug, PartialEq, Eq, Structural)]
pub struct InotifyCreateFlags {
    bits: u32,
}

impl View for InotifyCreateFlags {
    type V = u32;

    closed spec fn view(&self) -> u32 {
        self.bits
    }
}

impl InotifyCreateFlags {
    /// No creation flags: a blocking instance, kept across process replacement.
    pub fn empty() -> (r: Self)
        ensures
            r@ == 0u32,
    {
        InotifyCreateFlags { bits: 0 }
    }

    /// The set holding exactly the given bits, unknown bits dropped.
    pub fn from_bits_truncate(bits: u32) -> (r: Self)
        ensures
            r@ == bits & (IN_NONBLOCK | IN_CLOEXEC),
    {
        InotifyCreateFlags { bits: bits & (IN_NONBLOCK | IN_CLOEXEC) }
    }

    /// The raw bit pattern of the set.
    pub fn bits(&self) -> (r: u32)
        ensures
            r == self@,
    {
        self.bits
    }

    /// The union of the two sets.
    pub fn union(&self, other: &Self) -> (r: Self)
        ensures
            r@ == (self@ | other@),
    {
        InotifyCreateFlags { bits: self.bits | other.bits }
    }
}

/// Open the master for reading and writing.
pub const PTY_RDWR: i32 = 0x2;
/// Do not make the device the caller's controlling terminal.
pub const PTY_NOCTTY: i32 = 0x100;
/// Open the master non-blocking.
pub const PTY_NONBLOCK: i32 = 0x800;
/// Close the master descriptor on process replacement.
pub const PTY_CLOEXEC: i32 = 0x80000;

/// Open-flags for requesting a PTY master device, as a bit set over the
/// `PTY_*` constants.
#[derive(Clone, Copy, Debug, PartialEq, Eq, Structural)]
pub struct PtyOpenFlags {
    bits: i32,
}

impl View for PtyOpenFlags {
    type V = i32;

    closed spec fn view(&self) -> i32 {
        self.bits
    }
}

impl PtyOpenFlags {
    /// No flags set.
    pub fn empty() -> (r: Self)
        ensures
            r@ == 0i32,
    {
        PtyOpenFlags { bits: 0 }
    }

    /// The set holding exactly the given bits, unknown bits dropped.
    pub fn from_bits_truncate(bits: i32) -> (r: Self)
        ensures
            r@ == bits & (PTY_RDWR | PTY_NOCTTY | PTY_NONBLOCK | PTY_CLOEXEC),
    {
        PtyOpenFlags { bits: bits & (PTY_RDWR | PTY_NOCTTY | PTY_NONBLOCK | PTY_CLOEXEC) }
    }

    /// The raw bit pattern of the set.
    pub fn bits(&self) -> (r: i32)
        ensures
            r == self@,
    {
        self.bits
    }

    /// The union of the two sets.
    pub fn union(&self, other: &Self) -> (r: Self)
        ensures
            r@ == (self@ | other@),
    {
        PtyOpenFlags { bits: self.bits | other.bits }
    }
}

} // verus!
