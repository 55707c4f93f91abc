//! Safe access to two Unix kernel facilities: pseudo-terminal (PTY) pair
//! allocation and filesystem change notification (inotify).
//!
//! The crate owns kernel file descriptors through guards that release them
//! exactly once, drives the multi-step PTY bring-up protocol, manages the
//! inotify watch lifecycle, and decodes the kernel's packed variable-length
//! event records from raw bytes.

pub mod errors;
pub mod event;
pub mod flags;
pub mod guard;
pub mod inotify;
pub mod pty;
