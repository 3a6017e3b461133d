//! The core of a desktop utility that keeps the system audio output
//! device alive by producing an inaudible signal on it.
//!
//! [`session`] models the command protocol: which commands exist, how
//! each one moves the running flag, and how many stream acquisitions and
//! releases a command sequence causes. [`audio`] holds the keep-alive
//! session itself: an infinite silent source and the player that owns an
//! open output stream exactly while it runs. [`dispatch`] is the
//! first-in-first-out command queue that serializes every caller onto the
//! single worker owning that player, together with the reply handling of
//! a status query.
//!
//! Opening the OS audio device itself is platform work the verifier does
//! not see: the surrounding process performs it and hands the outcome to
//! the player, which is verified for every possible outcome.

pub mod audio;
pub mod dispatch;
pub mod session;
