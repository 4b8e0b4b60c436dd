use std::time::{Duration, Instant};

use browser_wpe::pump::INITIAL_DESCRIPTOR_CAPACITY;
use browser_wpe::{
    MessagePump, PumpAction, PumpEvent, PumpTask, QueryOutcome, ReadinessQuery, WpePollFd,
    WpeReadiness,
};

const MAXIMUM_PUMP_INTERVAL: Duration = Duration::from_millis(1000 / 30);

/// A context with work in hand is not waited on at all, whatever timeout it
/// also reported: `ready` is `GLib` saying "dispatch me now".
#[test]
fn a_ready_context_is_iterated_without_waiting() {
    assert_eq!(
        WpeReadiness::new(true, 5_000, Vec::new()).wait(),
        Duration::ZERO
    );
}

/// The deadline `GLib` asked for is the deadline that is used. This is the
/// whole point of the readiness call: a background timer that wants to run
/// in 20 ms gets 20 ms, not a fixed tick.
#[test]
fn a_timer_deadline_is_taken_from_the_context() {
    assert_eq!(
        WpeReadiness::new(false, 20, Vec::new()).wait(),
        Duration::from_millis(20)
    );
}

/// A timer further out than the ceiling still gets looked at on the
/// ceiling, because a descriptor may signal long before that timer is due.
#[test]
fn a_distant_timer_is_capped_so_descriptors_are_still_looked_at() {
    assert_eq!(
        WpeReadiness::new(false, 60_000, Vec::new()).wait(),
        MAXIMUM_PUMP_INTERVAL
    );
}

/// `GLib` reports -1 when no source has a timeout at all: an idle page whose
/// only pending work is a socket. That is exactly the case the ceiling
/// exists for, and it must not become an infinite wait.
#[test]
fn a_context_with_no_timer_waits_the_ceiling_rather_than_forever() {
    let readiness = WpeReadiness::new(false, -1, Vec::new());

    assert_eq!(readiness.timeout(), None);
    assert_eq!(readiness.wait(), MAXIMUM_PUMP_INTERVAL);
}

/// A timer that is already due is a zero wait rather than a skipped one.
#[test]
fn an_expired_timer_is_iterated_immediately() {
    assert_eq!(
        WpeReadiness::new(false, 0, Vec::new()).wait(),
        Duration::ZERO
    );
}

/// The descriptors cross unchanged, so a host can put them straight into
/// its own `poll(2)` set.
#[test]
fn descriptors_are_reported_as_the_context_gave_them() {
    let readiness = WpeReadiness::new(false, -1, vec![WpePollFd::new(7, 0x1)]);

    assert_eq!(readiness.descriptors().len(), 1);
    assert_eq!(readiness.descriptors()[0].fd(), 7);
    assert_eq!(readiness.descriptors()[0].events(), 0x1);
}

#[test]
fn the_ceiling_is_a_thirtieth_of_a_second() {
    for (timeout, wait) in [(32, 32), (33, 33), (34, 33), (i32::MAX, 33), (i32::MIN, 33)] {
        assert_eq!(
            WpeReadiness::new(false, timeout, Vec::new()).wait(),
            Duration::from_millis(wait)
        );
    }
}

#[test]
fn a_report_keeps_the_timer_it_was_given() {
    let readiness = WpeReadiness::new(true, 60_000, Vec::new());
    assert!(readiness.is_ready());
    assert_eq!(readiness.timeout(), Some(Duration::from_secs(60)));
    let copy = readiness.clone();
    assert_eq!(copy.timeout(), readiness.timeout());
    assert_eq!(copy.is_ready(), readiness.is_ready());
    assert_eq!(copy.descriptors(), readiness.descriptors());
}

#[test]
fn a_deadline_is_the_wait_after_the_clock() {
    let readiness = WpeReadiness::new(false, 20, Vec::new());
    let now = Instant::now();
    let deadline = readiness.deadline_from(now).expect("20 ms from now exists");
    assert_eq!(deadline.instant(), now + Duration::from_millis(20));
    assert_eq!(deadline.remaining(now), Duration::from_millis(20));
    assert_eq!(
        deadline.remaining(now + Duration::from_millis(15)),
        Duration::from_millis(5)
    );
    assert_eq!(
        deadline.remaining(now + Duration::from_secs(5)),
        Duration::ZERO
    );
}

#[test]
fn a_sleep_ends_at_the_deadline_and_there_is_none_once_it_has_come() {
    let start = Instant::now();
    let deadline = WpeReadiness::new(false, 20, Vec::new())
        .deadline_from(start)
        .expect("20 ms from now exists");
    for millis in [0, 1, 19] {
        let now = start + Duration::from_millis(millis);
        assert_eq!(now + deadline.remaining(now), deadline.instant());
    }
    assert_eq!(deadline.remaining(deadline.instant()), Duration::ZERO);
    let past = deadline.instant() + Duration::from_nanos(1);
    assert_eq!(deadline.remaining(past), Duration::ZERO);
}

#[test]
fn waits_that_start_in_order_end_in_order() {
    let readiness = WpeReadiness::new(false, 20, Vec::new());
    let start = Instant::now();
    let ends: Vec<Instant> = [0, 1, 1, 500]
        .into_iter()
        .filter_map(|nanos| readiness.deadline_from(start + Duration::from_nanos(nanos)))
        .map(|deadline| deadline.instant())
        .collect();
    assert_eq!(ends.len(), 4);
    assert!(ends.windows(2).all(|pair| pair[0] <= pair[1]));
}

#[test]
fn the_deadline_of_a_report_counts_from_now() {
    let readiness = WpeReadiness::new(false, 20, Vec::new());
    let before = Instant::now();
    let deadline = readiness.deadline().expect("20 ms from now exists");
    let after = Instant::now();
    assert!(deadline.instant() >= before + Duration::from_millis(20));
    assert!(deadline.instant() <= after + Duration::from_millis(20));
}

#[test]
fn a_report_that_fits_is_cut_to_what_the_context_watches() {
    let query = ReadinessQuery::new();
    assert_eq!(query.capacity(), INITIAL_DESCRIPTOR_CAPACITY);
    assert_eq!(query.capacity(), 16);
    let mut written = vec![WpePollFd::new(0, 0); 16];
    written[0] = WpePollFd::new(3, 1);
    written[1] = WpePollFd::new(4, 5);
    let QueryOutcome::Report(report) = query.answer(false, 7, 2, written) else {
        panic!("two descriptors fit");
    };
    assert_eq!(
        report.descriptors(),
        [WpePollFd::new(3, 1), WpePollFd::new(4, 5)]
    );
    assert_eq!(report.timeout(), Some(Duration::from_millis(7)));
    assert!(!report.is_ready());
}

#[test]
fn a_report_that_fills_the_room_exactly_is_complete() {
    let written = vec![WpePollFd::new(3, 1); 16];
    assert!(matches!(
        ReadinessQuery::new().answer(true, -1, 16, written),
        QueryOutcome::Report(report) if report.descriptors().len() == 16 && report.is_ready()
    ));
}

#[test]
fn a_report_that_does_not_fit_is_asked_for_again_with_room() {
    let written = vec![WpePollFd::new(0, 0); 16];
    let QueryOutcome::AskAgain(query) = ReadinessQuery::new().answer(false, -1, 40, written) else {
        panic!("forty descriptors do not fit");
    };
    assert_eq!(query.capacity(), 40);
    let written = vec![WpePollFd::new(9, 1); 40];
    assert!(matches!(
        query.answer(false, -1, 40, written),
        QueryOutcome::Report(report) if report.descriptors().len() == 40
    ));
}

/// Asks a bridge whose context has these descriptors, with `junk` in the room.
fn report(descriptors: &[WpePollFd], junk: WpePollFd) -> WpeReadiness {
    let mut query = ReadinessQuery::new();
    loop {
        let mut room = vec![junk; query.capacity() as usize];
        if descriptors.len() <= room.len() {
            room[..descriptors.len()].copy_from_slice(descriptors);
        }
        match query.answer(false, 7, descriptors.len() as u32, room) {
            QueryOutcome::Report(report) => return report,
            QueryOutcome::AskAgain(next) => query = next,
        }
    }
}

#[test]
fn a_report_is_the_same_however_often_the_context_is_asked() {
    for count in [0, 1, 16, 17, 40] {
        let descriptors: Vec<WpePollFd> = (0..count).map(|fd| WpePollFd::new(fd, 1)).collect();
        for junk in [WpePollFd::new(0, 0), WpePollFd::new(-1, 9)] {
            let readiness = report(&descriptors, junk);
            assert_eq!(readiness.descriptors(), descriptors);
            assert_eq!(readiness.timeout(), Some(Duration::from_millis(7)));
            assert!(!readiness.is_ready());
        }
    }
}

#[test]
fn only_the_first_request_spawns_the_pump() {
    let mut pump = MessagePump::new();
    assert!(pump.start());
    assert!(!pump.start());
    assert!(!pump.start());
}

#[test]
fn the_pump_task_iterates_until_idle_and_then_sleeps_detached() {
    let deadline = WpeReadiness::new(false, 20, Vec::new())
        .deadline()
        .expect("20 ms from now exists");
    let mut task = PumpTask::new();
    assert!(matches!(
        task.step(PumpEvent::Upgraded(true)),
        PumpAction::Iterate
    ));
    assert!(matches!(
        task.step(PumpEvent::Iterated(true)),
        PumpAction::Iterate
    ));
    assert!(matches!(
        task.step(PumpEvent::Iterated(false)),
        PumpAction::QueryReadiness
    ));
    assert!(matches!(
        task.step(PumpEvent::Reported(deadline)),
        PumpAction::Sleep(until) if until == deadline
    ));
    assert!(matches!(task.step(PumpEvent::Slept), PumpAction::Upgrade));
    assert!(matches!(
        task.step(PumpEvent::Upgraded(false)),
        PumpAction::Stop
    ));
}
