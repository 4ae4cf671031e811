//! A cancellable sleep primitive.
//!
//! A [`Timer`] puts the current thread to sleep for a bounded time; the
//! associated [`Canceller`] — cloneable, shareable across threads — wakes the
//! sleeper early with a distinguished cancellation outcome. Cancellation is
//! latched: once a timer has observed it, every later sleep on that timer
//! reports cancellation at once.

mod sys;
mod timer;

pub use timer::Canceller;
pub use timer::Error;
pub use timer::Timer;
pub use timer::cancelled_outcome;
pub use timer::token_seen;
