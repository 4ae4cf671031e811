use cancellable_timer::{token_seen, Error, Timer};
use std::time::Duration;
use std::time::Instant;

#[test]
fn uninterrupted_sleep() {
    let (mut timer, _) = Timer::new2().unwrap();
    let r = timer.sleep(Duration::from_secs(1));
    assert!(r.is_ok());
}

#[test]
fn cancel_before_sleep() {
    let (mut timer, canceller) = Timer::new2().unwrap();
    canceller.cancel().unwrap();
    let r = timer.sleep(Duration::from_secs(1));
    assert!(r.unwrap_err().is_cancelled());
}

#[test]
fn sleep_lasts_full_duration() {
    let (mut timer, _canceller) = Timer::new2().unwrap();
    let start = Instant::now();
    let r = timer.sleep(Duration::from_millis(300));
    assert!(r.is_ok());
    assert!(start.elapsed() >= Duration::from_millis(290));
}

#[test]
fn cancel_before_sleep_is_prompt() {
    let (mut timer, canceller) = Timer::new2().unwrap();
    canceller.cancel().unwrap();
    let start = Instant::now();
    let r = timer.sleep(Duration::from_secs(5));
    assert!(matches!(r, Err(Error::Cancelled)));
    assert!(start.elapsed() < Duration::from_secs(2));
}

#[test]
fn cancel_is_idempotent() {
    let (mut timer, canceller) = Timer::new2().unwrap();
    canceller.cancel().unwrap();
    canceller.cancel().unwrap();
    canceller.cancel().unwrap();
    let r = timer.sleep(Duration::from_millis(100));
    assert!(matches!(r, Err(Error::Cancelled)));
}

#[test]
fn clone_cancels_like_the_original() {
    let (mut timer, canceller) = Timer::new2().unwrap();
    let other = canceller.clone();
    other.cancel().unwrap();
    let r = timer.sleep(Duration::from_millis(100));
    assert!(matches!(r, Err(Error::Cancelled)));
    // The original handle still works, and reports success as well.
    canceller.cancel().unwrap();
}

#[test]
fn cancellation_is_latched() {
    let (mut timer, canceller) = Timer::new2().unwrap();
    let r = timer.sleep(Duration::from_millis(200));
    assert!(r.is_ok());
    canceller.cancel().unwrap();
    let start = Instant::now();
    let r2 = timer.sleep(Duration::from_secs(5));
    assert!(matches!(r2, Err(Error::Cancelled)));
    let r3 = timer.sleep(Duration::from_secs(5));
    assert!(matches!(r3, Err(Error::Cancelled)));
    assert!(start.elapsed() < Duration::from_secs(2));
}

#[test]
fn zero_duration_distinguishes_outcomes() {
    let (mut timer, canceller) = Timer::new2().unwrap();
    let r = timer.sleep(Duration::from_millis(0));
    assert!(r.is_ok());
    canceller.cancel().unwrap();
    let r2 = timer.sleep(Duration::from_millis(0));
    assert!(matches!(r2, Err(Error::Cancelled)));
}

#[test]
fn token_seen_finds_the_token() {
    assert!(!token_seen(&vec![], 0));
    assert!(token_seen(&vec![0], 0));
    assert!(token_seen(&vec![7, 3, 0], 0));
    assert!(!token_seen(&vec![7, 3, 1], 0));
}

#[test]
fn cancel_after_timer_dropped_is_graceful() {
    let (timer, canceller) = Timer::new2().unwrap();
    drop(timer);
    // The channel's read side is gone: cancelling is a no-op that neither
    // blocks nor fails.
    assert!(canceller.cancel().is_ok());
}

#[test]
fn error_kinds_are_distinguished() {
    assert!(Error::Cancelled.is_cancelled());
    let os = Error::Os(std::io::Error::new(std::io::ErrorKind::Other, "boom"));
    assert!(!os.is_cancelled());
    assert!(!matches!(os, Error::Cancelled));
}
