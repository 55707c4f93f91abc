//! The error taxonomy: kernel-reported failures carrying the raw error code,
//! and decoding failures where kernel-returned bytes are not valid text or a
//! packed record is inconsistent with the bytes available.

use vstd::prelude::*;

verus! {

/// An error surfaced by any fallible operation of this crate.
///
/// Every kernel failure is propagated verbatim as `System` with the raw
/// error code; nothing is retried internally. `Decoding` is raised where
/// bytes handed back by the kernel cannot be interpreted: a slave device
/// name that is not valid text, or an event buffer whose declared record
/// length exceeds the bytes actually present.
#[derive(Clone, Copy, Debug, PartialEq, Eq, Structural)]
pub enum Error {
    /// A kernel-reported failure, with the raw error code.
    System(i32),
    /// Kernel-returned bytes could not be interpreted.
    Decoding,
}

impl Error {
    /// The raw kernel error code, where the error came from the kernel.
    pub fn code(&self) -> (r: Option<i32>)
        ensures
            r == (match *self {
                Error::System(c) => Some(c),
                Error::Decoding => None::<i32>,
            }),
    {
        match *self {
            Error::System(c) => Some(c),
            Error::Decoding => None,
        }
    }

    /// True of a kernel-reported failure.
    pub fn is_system(&self) -> (r: bool)
        ensures
            r == (*self is System),
    {
        match *self {
            Error::System(_) => true,
            Error::Decoding => false,
        }
    }
}

} // verus!
