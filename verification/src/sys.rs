//! Trusted bindings to the OS readiness-polling layer (mio 0.6) and to
//! `std::io::Error`, which carries OS-level failures.
//!
//! The readiness channel is a shared node created by `Registration::new2`:
//! the `Registration` is its read side, registered with a `Poll` instance,
//! and the `SetReadiness` handle is its write side. Readiness set through the
//! write side stays set until changed, so a wait issued after the signal
//! still observes it.

use vstd::prelude::*;

verus! {

#[verifier::external_type_specification]
#[verifier::external_body]
pub struct ExIoError(std::io::Error);

#[verifier::external_type_specification]
#[verifier::external_body]
pub struct ExPoll(mio::Poll);

#[verifier::external_type_specification]
#[verifier::external_body]
pub struct ExRegistration(mio::Registration);

#[verifier::external_type_specification]
#[verifier::external_body]
pub struct ExSetReadiness(mio::SetReadiness);

#[verifier::external_type_specification]
#[verifier::external_body]
pub struct ExEvents(mio::Events);

/// Relies on `mio::Poll::new`: creates a fresh OS polling instance, or
/// reports the OS failure (e.g. resource exhaustion).
#[verifier::external_body]
pub(crate) fn poll_new() -> (r: Result<mio::Poll, std::io::Error>) {
    mio::Poll::new()
}

/// Relies on `mio::Registration::new2`: creates a fresh readiness node,
/// not yet ready, shared by the returned read side and write side. It does
/// not fail.
#[verifier::external_body]
pub(crate) fn registration_new() -> (r: (mio::Registration, mio::SetReadiness)) {
    mio::Registration::new2()
}

/// Relies on `mio::Poll::register`: registers the readiness node's read side
/// with the polling instance under the given token, edge-triggered, for
/// readable readiness; reports the OS failure if registration cannot be made.
#[verifier::external_body]
pub(crate) fn register_readable(
    poll: &mio::Poll,
    registration: &mio::Registration,
    token: usize,
) -> (r: Result<(), std::io::Error>) {
    poll.register(registration, mio::Token(token), mio::Ready::readable(), mio::PollOpt::edge())
}

/// Relies on `mio::Events::with_capacity`: an empty, reusable event buffer.
#[verifier::external_body]
pub(crate) fn events_with_capacity(capacity: usize) -> (r: mio::Events) {
    mio::Events::with_capacity(capacity)
}

/// Relies on `mio::Poll::poll`: blocks the calling thread until a registered
/// source is ready or the timeout elapses, then fills the buffer with the
/// events received; a wait interrupted by a signal is retried internally.
/// Which events arrive depends on other threads and on the OS, so nothing is
/// promised of the returned token values; the caller classifies them. The
/// events are handed out as their plain token values.
#[verifier::external_body]
pub(crate) fn poll_wait(
    poll: &mio::Poll,
    events: &mut mio::Events,
    timeout: std::time::Duration,
) -> (r: Result<Vec<usize>, std::io::Error>) {
    poll.poll(events, Some(timeout))?;
    Ok(events.iter().map(|e| e.token().0).collect())
}

/// Relies on `mio::SetReadiness::set_readiness`: marks the shared readiness
/// node readable, waking a thread blocked in a poll on its read side; the
/// readiness stays set until changed. Safe to call concurrently from many
/// handles; a node whose read side is gone reports success without effect.
#[verifier::external_body]
pub(crate) fn set_ready(handle: &mio::SetReadiness) -> (r: Result<(), std::io::Error>) {
    handle.set_readiness(mio::Ready::readable())
}

/// Relies on `mio::SetReadiness::clone`: an independent handle to the same
/// readiness node, with the same rights.
#[verifier::external_body]
pub(crate) fn clone_handle(handle: &mio::SetReadiness) -> (r: mio::SetReadiness) {
    handle.clone()
}

} // verus!
