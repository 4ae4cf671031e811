//! The timer, its canceller, and the verified cancellation protocol.

use vstd::prelude::*;
use crate::sys;

verus! {

/// Why an operation did not complete normally: the timer was cancelled, or
/// an OS-level primitive failed. The two are never conflated.
#[derive(Debug)]
pub enum Error {
    /// A cancellation was observed through the associated `Canceller`.
    Cancelled,
    /// The OS polling, registration or signalling primitive failed; carries
    /// that error verbatim.
    Os(std::io::Error),
}

impl Error {
    /// True exactly on the cancellation outcome.
    pub fn is_cancelled(&self) -> (r: bool)
        ensures
            r == (self is Cancelled),
    {
        match self {
            Error::Cancelled => true,
            Error::Os(_) => false,
        }
    }
}

/// The cancellation outcome of a sleep: it ended because the timer was
/// cancelled, not because the time elapsed and not because the OS failed.
pub open spec fn cancelled_outcome(r: Result<(), Error>) -> bool {
    r matches Err(e) && e is Cancelled
}

/// True exactly when `tokens` holds `token`. This is the verified
/// classification of a wait's outcome: `Timer::sleep` applies it to the
/// token values of the events a poll returned, for every value the poll
/// could hand back.
pub fn token_seen(tokens: &Vec<usize>, token: usize) -> (r: bool)
    ensures
        r == tokens@.contains(token),
{
    let mut i: usize = 0;
    while i < tokens.len()
        invariant
            i <= tokens@.len(),
            forall|j: int| 0 <= j < i ==> tokens@[j] != token,
        decreases tokens@.len() - i,
    {
        if tokens[i] == token {
            assert(tokens@.contains(token)) by {
                assert(tokens@[i as int] == token);
            }
            return true;
        }
        i += 1;
    }
    false
}

/// A timer that puts the current thread to sleep for a bounded time, and
/// whose sleep the associated [`Canceller`] can end early from another
/// thread. One timer serves one sleeping thread at a time.
pub struct Timer {
    poll: mio::Poll,
    registration: mio::Registration,
    events: mio::Events,
    token: usize,
    latched: bool,
}

/// A cloneable handle that cancels the associated [`Timer`]. Any clone may
/// cancel, from any thread; none has special status.
pub struct Canceller {
    handle: mio::SetReadiness,
}

impl Timer {
    /// True once this timer has observed a cancellation. The state is
    /// latched: it never reverts, and while it holds, every `sleep` returns
    /// the cancellation outcome at once.
    pub closed spec fn cancelled(&self) -> bool {
        self.latched
    }

    /// Create a timer together with the handle that cancels it: a fresh
    /// readiness channel, its read side registered with a fresh polling
    /// instance, its write side held by the canceller.
    pub fn new2() -> (r: Result<(Timer, Canceller), Error>)
        ensures
            r matches Ok(pair) ==> !pair.0.cancelled(),
            r matches Err(e) ==> e is Os,
    {
        let poll = match sys::poll_new() {
            Ok(p) => p,
            Err(e) => {
                return Err(Error::Os(e));
            },
        };
        let (registration, handle) = sys::registration_new();
        let token: usize = 0;
        match sys::register_readable(&poll, &registration, token) {
            Ok(u) => u,
            Err(e) => {
                return Err(Error::Os(e));
            },
        }
        Ok((
            Timer {
                poll,
                registration,
                events: sys::events_with_capacity(4),
                token,
                latched: false,
            },
            Canceller { handle },
        ))
    }

    /// Put the current thread to sleep until `duration` has elapsed or the
    /// timer is cancelled.
    ///
    /// Returns `Ok(())` when the time elapsed with no cancellation observed;
    /// the cancellation outcome when one was observed — cancellation takes
    /// precedence over the elapsed time, and a cancellation observed by an
    /// earlier sleep is reported again at once, without waiting; or the OS
    /// error, verbatim, when the wait itself failed.
    pub fn sleep(&mut self, duration: std::time::Duration) -> (r: Result<(), Error>)
        ensures
            final(self).cancelled() == (old(self).cancelled() || cancelled_outcome(r)),
            old(self).cancelled() ==> cancelled_outcome(r),
            r is Ok ==> !final(self).cancelled(),
            r matches Err(e) && e is Os ==> final(self).cancelled() == old(self).cancelled(),
    {
        if self.latched {
            return Err(Error::Cancelled);
        }
        let tokens = match sys::poll_wait(&self.poll, &mut self.events, duration) {
            Ok(t) => t,
            Err(e) => {
                return Err(Error::Os(e));
            },
        };
        if token_seen(&tokens, self.token) {
            self.latched = true;
            Err(Error::Cancelled)
        } else {
            Ok(())
        }
    }
}

impl Canceller {
    /// Cancel the associated timer: mark the shared channel ready, so that
    /// the sleep in progress, and every sleep issued later on that timer,
    /// observes the cancellation. Safe to call any number of times, from any
    /// clone, concurrently; repeated calls have no further effect. Returns
    /// the OS error verbatim if the signal primitive failed — never the
    /// cancellation outcome.
    pub fn cancel(&self) -> (r: Result<(), Error>)
        ensures
            r matches Err(e) ==> e is Os,
    {
        match sys::set_ready(&self.handle) {
            Ok(u) => Ok(u),
            Err(e) => Err(Error::Os(e)),
        }
    }
}

impl Clone for Canceller {
    /// An independent handle to the same channel, with the same rights.
    fn clone(&self) -> (r: Self) {
        Canceller { handle: sys::clone_handle(&self.handle) }
    }
}

} // verus!
