use std::time::Duration;

use tilt_client::backoff::Backoff;
use tilt_client::identity::TiltColor;
use tilt_client::orchestrator::{Action, Event, Orchestrator, Phase};
use tilt_client::reading::TiltReading;
use tilt_client::throttle::UploadThrottle;
use tilt_client::time::Timestamp;

fn reading(color: TiltColor, n: i64) -> TiltReading {
    TiltReading::new(color, 68_000_000 + n, 1_050_000 - n, None, Timestamp { secs: n, nanos: 0 })
}

fn batch(from: i64, to: i64) -> Vec<TiltReading> {
    (from..to).map(|n| reading(TiltColor::Red, n)).collect()
}

fn clock(secs: u64) -> Duration {
    Duration::from_secs(secs)
}

fn plain(capacity: usize) -> Orchestrator {
    Orchestrator::new(capacity, Backoff::default(), None)
}

fn uploaded(action: Action) -> Vec<TiltReading> {
    match action {
        Action::Upload(readings) => readings,
        _ => panic!("no upload"),
    }
}

fn slept(action: Action) -> Duration {
    match action {
        Action::Sleep(delay) => delay,
        _ => panic!("no sleep"),
    }
}

#[test]
fn the_loop_begins_with_a_cycle() {
    let mut o = plain(100);
    assert_eq!(o.phase(), Phase::Idle);
    assert_eq!(o.buffered(), 0);
    assert!(matches!(o.step(Event::Wake, clock(0)), Action::Produce));
    assert_eq!(o.phase(), Phase::Producing);
}

#[test]
fn two_failures_then_a_success_send_the_backlog_first() {
    let mut o = plain(100);
    o.step(Event::Wake, clock(0));

    let first = batch(0, 3);
    assert_eq!(uploaded(o.step(Event::CycleComplete(first.clone()), clock(5))), first);
    assert_eq!(o.phase(), Phase::Uploading);
    assert_eq!(slept(o.step(Event::UploadFailed, clock(6))), Duration::from_secs(1));
    assert_eq!(o.phase(), Phase::Idle);
    assert_eq!(o.buffered(), 3);
    assert!(matches!(o.step(Event::Wake, clock(7)), Action::Produce));

    let second = batch(3, 5);
    let expected: Vec<TiltReading> = batch(0, 5);
    assert_eq!(uploaded(o.step(Event::CycleComplete(second), clock(12))), expected);
    assert_eq!(o.buffered(), 0);
    assert_eq!(slept(o.step(Event::UploadFailed, clock(13))), Duration::from_secs(2));
    assert_eq!(o.buffered(), 5);
    assert!(matches!(o.step(Event::Wake, clock(15)), Action::Produce));

    let third = batch(5, 9);
    assert_eq!(uploaded(o.step(Event::CycleComplete(third), clock(20))), batch(0, 9));
    assert!(matches!(o.step(Event::UploadSucceeded, clock(21)), Action::Produce));
    assert_eq!(o.phase(), Phase::Producing);
    assert_eq!(o.buffered(), 0);

    assert_eq!(uploaded(o.step(Event::CycleComplete(batch(9, 10)), clock(26))), batch(9, 10));
    assert_eq!(slept(o.step(Event::UploadFailed, clock(27))), Duration::from_secs(1));
}

#[test]
fn an_empty_batch_skips_the_upload() {
    let mut o = plain(100);
    o.step(Event::Wake, clock(0));
    assert!(matches!(o.step(Event::CycleComplete(Vec::new()), clock(5)), Action::Produce));
    assert_eq!(o.phase(), Phase::Producing);
}

#[test]
fn an_empty_batch_still_sends_the_backlog() {
    let mut o = plain(100);
    o.step(Event::Wake, clock(0));
    o.step(Event::CycleComplete(batch(0, 2)), clock(5));
    o.step(Event::UploadFailed, clock(6));
    o.step(Event::Wake, clock(7));
    assert_eq!(uploaded(o.step(Event::CycleComplete(Vec::new()), clock(12))), batch(0, 2));
}

#[test]
fn a_failed_scan_waits_five_seconds_whatever_the_backoff() {
    let mut o = plain(100);
    o.step(Event::Wake, clock(0));
    o.step(Event::CycleComplete(batch(0, 1)), clock(1));
    o.step(Event::UploadFailed, clock(2));
    o.step(Event::Wake, clock(3));
    assert_eq!(slept(o.step(Event::ScanFailed, clock(4))), Duration::from_secs(5));
    assert_eq!(o.phase(), Phase::Idle);
    assert_eq!(o.buffered(), 1);
    assert!(matches!(o.step(Event::Wake, clock(9)), Action::Produce));
    o.step(Event::CycleComplete(Vec::new()), clock(10));
    assert_eq!(slept(o.step(Event::UploadFailed, clock(11))), Duration::from_secs(2));
}

#[test]
fn a_long_outage_loses_the_oldest_readings() {
    let mut o = plain(4);
    o.step(Event::Wake, clock(0));
    assert_eq!(uploaded(o.step(Event::CycleComplete(batch(0, 3)), clock(1))), batch(0, 3));
    o.step(Event::UploadFailed, clock(2));
    o.step(Event::Wake, clock(3));
    assert_eq!(uploaded(o.step(Event::CycleComplete(batch(3, 6)), clock(4))), batch(0, 6));
    o.step(Event::UploadFailed, clock(5));
    assert_eq!(o.buffered(), 4);
    o.step(Event::Wake, clock(7));
    assert_eq!(uploaded(o.step(Event::CycleComplete(batch(6, 7)), clock(8))), batch(2, 7));
}

#[test]
fn backoff_grows_to_its_ceiling_over_an_outage() {
    let mut o = plain(10);
    o.step(Event::Wake, clock(0));
    let mut delays = Vec::new();
    for n in 0..9 {
        o.step(Event::CycleComplete(batch(n, n + 1)), clock(0));
        delays.push(slept(o.step(Event::UploadFailed, clock(0))).as_secs());
        o.step(Event::Wake, clock(0));
    }
    assert_eq!(delays, vec![1, 2, 4, 8, 16, 32, 60, 60, 60]);
}

#[test]
fn cancellation_ends_the_wait_for_a_batch_at_once() {
    let mut o = plain(100);
    o.step(Event::Wake, clock(0));
    assert!(matches!(o.step(Event::Cancelled, clock(1)), Action::Exit));
    assert_eq!(o.phase(), Phase::Shutdown);
    assert!(matches!(o.step(Event::Wake, clock(2)), Action::Exit));
    assert!(matches!(o.step(Event::CycleComplete(batch(0, 1)), clock(2)), Action::Exit));
    assert_eq!(o.phase(), Phase::Shutdown);
}

#[test]
fn cancellation_lets_an_upload_in_flight_finish() {
    let mut o = plain(100);
    o.step(Event::Wake, clock(0));
    o.step(Event::CycleComplete(batch(0, 1)), clock(1));
    assert!(matches!(o.step(Event::Cancelled, clock(2)), Action::Stay));
    assert_eq!(o.phase(), Phase::Uploading);
    assert!(matches!(o.step(Event::UploadSucceeded, clock(3)), Action::Exit));
    assert_eq!(o.phase(), Phase::Shutdown);
}

#[test]
fn cancellation_is_seen_after_the_backoff_sleep() {
    let mut o = plain(100);
    o.step(Event::Wake, clock(0));
    o.step(Event::CycleComplete(batch(0, 1)), clock(1));
    assert!(matches!(o.step(Event::Cancelled, clock(2)), Action::Stay));
    assert_eq!(slept(o.step(Event::UploadFailed, clock(3))), Duration::from_secs(1));
    assert_eq!(o.phase(), Phase::Idle);
    assert_eq!(o.buffered(), 1);
    assert!(matches!(o.step(Event::Wake, clock(4)), Action::Exit));
    assert_eq!(o.phase(), Phase::Shutdown);
}

#[test]
fn cancellation_during_a_sleep_is_seen_on_waking() {
    let mut o = plain(100);
    assert!(matches!(o.step(Event::Cancelled, clock(0)), Action::Stay));
    assert_eq!(o.phase(), Phase::Idle);
    assert!(matches!(o.step(Event::Wake, clock(1)), Action::Exit));
}

#[test]
fn events_that_fit_no_phase_change_nothing() {
    let mut o = plain(100);
    assert!(matches!(o.step(Event::UploadFailed, clock(0)), Action::Stay));
    assert!(matches!(o.step(Event::CycleComplete(batch(0, 2)), clock(0)), Action::Stay));
    assert_eq!(o.phase(), Phase::Idle);
    assert_eq!(o.buffered(), 0);
    o.step(Event::Wake, clock(0));
    assert!(matches!(o.step(Event::UploadSucceeded, clock(0)), Action::Stay));
    assert!(matches!(o.step(Event::Wake, clock(0)), Action::Stay));
    o.step(Event::CycleComplete(batch(0, 2)), clock(0));
    assert!(matches!(o.step(Event::CycleComplete(batch(2, 4)), clock(0)), Action::Stay));
    assert!(matches!(o.step(Event::ScanFailed, clock(0)), Action::Stay));
    assert_eq!(slept(o.step(Event::UploadFailed, clock(0))), Duration::from_secs(1));
    assert_eq!(o.buffered(), 2);
}

#[test]
fn the_throttle_holds_back_what_is_not_due() {
    let throttle = UploadThrottle::new(Duration::from_secs(60));
    let mut o = Orchestrator::new(100, Backoff::default(), Some(throttle));
    o.step(Event::Wake, clock(0));
    let red = reading(TiltColor::Red, 1);
    let blue = reading(TiltColor::Blue, 2);
    assert_eq!(uploaded(o.step(Event::CycleComplete(vec![red]), clock(5))), vec![red]);
    o.step(Event::UploadSucceeded, clock(6));
    let later = vec![reading(TiltColor::Red, 3), blue];
    assert_eq!(uploaded(o.step(Event::CycleComplete(later), clock(10))), vec![blue]);
    o.step(Event::UploadSucceeded, clock(11));
    let again = vec![reading(TiltColor::Red, 4), reading(TiltColor::Blue, 5)];
    assert!(matches!(o.step(Event::CycleComplete(again), clock(15)), Action::Produce));
    let due = reading(TiltColor::Red, 6);
    assert_eq!(uploaded(o.step(Event::CycleComplete(vec![due]), clock(65))), vec![due]);
}

#[test]
fn the_throttle_stamps_even_when_the_upload_fails() {
    let throttle = UploadThrottle::new(Duration::from_secs(60));
    let mut o = Orchestrator::new(100, Backoff::default(), Some(throttle));
    o.step(Event::Wake, clock(0));
    let red = reading(TiltColor::Red, 1);
    o.step(Event::CycleComplete(vec![red]), clock(5));
    o.step(Event::UploadFailed, clock(6));
    o.step(Event::Wake, clock(7));
    let next = vec![reading(TiltColor::Red, 2)];
    assert_eq!(uploaded(o.step(Event::CycleComplete(next), clock(12))), vec![red]);
}
