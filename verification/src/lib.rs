//! A backend-agnostic bridge between blocking I/O handles and cooperative
//! schedulers.
//!
//! The heart of the crate is the readiness-driven adapter: a per-direction
//! state machine that attempts a blocking call only after a readiness
//! confirmation, absorbs stale readiness (a would-block outcome after a
//! confirmation) by clearing the stale signal and suspending again, and
//! resets cleanly when a pending attempt is cancelled. The state machine,
//! the loopback transport used to exercise it, the registration and
//! connection decisions, and the timer models are all verified here;
//! the asynchronous glue that drives them against a real scheduler is
//! ordinary unverified code kept outside this crate's core.

use vstd::prelude::*;

pub mod adapter;
pub mod channel;
pub mod driver;
pub mod errors;
pub mod handle;
pub mod net;
pub mod reactor;
pub mod roundtrip;
pub mod timer;

verus! {

/// Marker for the reactor composition built on the `async-io` readiness
/// primitive and timer facility. The capability implementations for this
/// backend are thin asynchronous glue and live outside the verified core;
/// the retry and suspension decisions they follow are the verified ones
/// in this crate.
#[derive(Clone, Copy, Debug, PartialEq, Eq, Structural)]
pub struct AsyncIo;

} // verus!
