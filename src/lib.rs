//! Futex-compatible synchronization decisions and guest-thread bookkeeping
//! for a memory-sandboxed host.
//!
//! The library holds the logic: which waiters a wake releases, which requeue
//! shapes are supported, how a priority-inheriting mutex word changes hands,
//! how a parked thread's outcome maps to a result, and how new guest threads
//! are numbered and registered. Parking native threads and touching guest
//! memory happen in the host program, which feeds the outcomes back in.
pub mod error;
pub mod word;
pub mod context;
pub mod park;
pub mod pi;
pub mod futex;
pub mod threads;
