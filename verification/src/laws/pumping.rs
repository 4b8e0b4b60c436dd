//! Readiness, deadlines and the pump task.

use std::time::{Duration, Instant};

use vstd::prelude::*;

use crate::outside::{duration_of_millis, duration_since, instant_le, instant_plus};
use crate::pump::{
    MessagePump, PumpAction, PumpDeadline, PumpEvent, PumpPhase, PumpTask, QueryOutcome,
    ReadinessQuery, WpePollFd, WpeReadiness, deadline_matches,
};

verus! {

/// A descriptor is watched as the context asked for it.
pub proof fn a_descriptor_is_what_it_was_made_of(
    fd: i32,
    events: i16,
    poll: WpePollFd,
    shown_fd: i32,
    shown_events: i16,
)
    requires
        call_ensures(WpePollFd::new, (fd, events), poll),
        call_ensures(WpePollFd::fd, (poll,), shown_fd),
        call_ensures(WpePollFd::events, (poll,), shown_events),
    ensures
        shown_fd == fd,
        shown_events == events,
{
}

/// A report tells what the context answered: a negative timeout is none, any other is
/// that many milliseconds, and the descriptors cross unchanged.
pub proof fn a_report_tells_what_the_context_answered(
    ready: bool,
    timeout_ms: i32,
    descriptors: Vec<WpePollFd>,
    report: WpeReadiness,
    shown_ready: bool,
    shown_timeout: Option<Duration>,
    shown_descriptors: &[WpePollFd],
)
    requires
        call_ensures(WpeReadiness::new, (ready, timeout_ms, descriptors), report),
        call_ensures(WpeReadiness::is_ready, (&report,), shown_ready),
        call_ensures(WpeReadiness::timeout, (&report,), shown_timeout),
        call_ensures(WpeReadiness::descriptors, (&report,), shown_descriptors),
    ensures
        shown_ready == ready,
        shown_timeout is None <==> timeout_ms < 0,
        shown_timeout matches Some(timeout) ==> timeout == duration_of_millis(timeout_ms as u64),
        shown_descriptors@ == descriptors@,
{
}

/// A report tells what it holds as it is, and its wait is its timer up to the
/// ceiling, whatever descriptors it holds.
pub proof fn a_report_tells_what_it_holds(
    report: WpeReadiness,
    ready: bool,
    timeout: Option<Duration>,
    descriptors: &[WpePollFd],
    wait: Duration,
)
    requires
        call_ensures(WpeReadiness::is_ready, (&report,), ready),
        call_ensures(WpeReadiness::timeout, (&report,), timeout),
        call_ensures(WpeReadiness::descriptors, (&report,), descriptors),
        call_ensures(WpeReadiness::wait, (&report,), wait),
    ensures
        ready == report@.ready,
        timeout is Some <==> report@.timeout_ms is Some,
        report@.timeout_ms matches Some(ms) ==> timeout == Some(duration_of_millis(ms)),
        descriptors@ == report@.descriptors,
        ready ==> wait == duration_of_millis(0),
        !ready ==> match report@.timeout_ms {
            Some(ms) if ms <= 33 => wait == duration_of_millis(ms),
            _ => wait == duration_of_millis(33),
        },
{
}

/// A copy of a report tells the same.
pub proof fn a_copied_report_tells_the_same(report: WpeReadiness, copy: WpeReadiness)
    requires
        call_ensures(<WpeReadiness as Clone>::clone, (&report,), copy),
    ensures
        copy@.ready == report@.ready,
        copy@.timeout_ms == report@.timeout_ms,
        copy@.descriptors == report@.descriptors,
{
}

/// A context with work in hand is not waited on; any other is waited on until its
/// timer is due, and for 33 milliseconds at most, which is also the wait where there
/// is no timer.
pub proof fn a_wait_is_the_timer_up_to_the_ceiling(
    ready: bool,
    timeout_ms: i32,
    descriptors: Vec<WpePollFd>,
    report: WpeReadiness,
    wait: Duration,
)
    requires
        call_ensures(WpeReadiness::new, (ready, timeout_ms, descriptors), report),
        call_ensures(WpeReadiness::wait, (&report,), wait),
    ensures
        ready ==> wait == duration_of_millis(0),
        !ready && 0 <= timeout_ms <= 33 ==> wait == duration_of_millis(timeout_ms as u64),
        !ready && (timeout_ms < 0 || timeout_ms > 33) ==> wait == duration_of_millis(33),
{
}

/// A report gives a deadline exactly where the clock can represent the start plus
/// the wait, and it is that instant, whatever else the report holds.
pub proof fn a_deadline_is_the_start_plus_the_wait(
    report: WpeReadiness,
    now: Instant,
    wait: Duration,
    deadline: Option<PumpDeadline>,
    instant: Instant,
)
    requires
        call_ensures(WpeReadiness::wait, (&report,), wait),
        call_ensures(WpeReadiness::deadline_from, (&report, now), deadline),
        deadline matches Some(deadline) ==> call_ensures(
            PumpDeadline::instant,
            (deadline,),
            instant,
        ),
    ensures
        deadline is Some <==> instant_plus(now, wait) is Some,
        deadline is Some ==> instant_plus(now, wait) == Some(instant),
{
}

/// A deadline that counts from the clock is the deadline from one start.
pub proof fn the_deadline_of_a_report_is_one_from_some_start(
    report: WpeReadiness,
    wait: Duration,
    deadline: Option<PumpDeadline>,
)
    requires
        call_ensures(WpeReadiness::wait, (&report,), wait),
        call_ensures(WpeReadiness::deadline, (&report,), deadline),
    ensures
        exists|now: Instant|
            match #[trigger] instant_plus(now, wait) {
                Some(end) => deadline matches Some(deadline) && deadline@ == end,
                None => deadline is None,
            },
{
    let now = choose|now: Instant|
        #[trigger] deadline_matches(deadline, now, report@);
    assert(instant_plus(now, wait) is Some <==> deadline is Some);
}

/// What decides a deadline is the start, the readiness and the timer: two reports
/// that agree on both give the same deadline from one start.
pub proof fn reports_that_agree_give_the_same_deadline(
    one: WpeReadiness,
    other: WpeReadiness,
    now: Instant,
    deadline: Option<PumpDeadline>,
    other_deadline: Option<PumpDeadline>,
)
    requires
        one@.ready == other@.ready,
        one@.timeout_ms == other@.timeout_ms,
        call_ensures(WpeReadiness::deadline_from, (&one, now), deadline),
        call_ensures(WpeReadiness::deadline_from, (&other, now), other_deadline),
    ensures
        match (deadline, other_deadline) {
            (Some(deadline), Some(other_deadline)) => deadline@ == other_deadline@,
            (None, None) => true,
            _ => false,
        },
{
}

/// A context that is ready is due at the start of the wait plus nothing, whatever its
/// timer says.
pub proof fn a_ready_context_is_due_at_once(
    timeout_ms: i32,
    descriptors: Vec<WpePollFd>,
    report: WpeReadiness,
    now: Instant,
    deadline: Option<PumpDeadline>,
)
    requires
        call_ensures(WpeReadiness::new, (true, timeout_ms, descriptors), report),
        call_ensures(WpeReadiness::deadline_from, (&report, now), deadline),
    ensures
        match instant_plus(now, duration_of_millis(0)) {
            Some(end) => deadline matches Some(deadline) && deadline@ == end,
            None => deadline is None,
        },
{
}

/// Nothing is left of a deadline that has come; else the span left ends exactly at
/// it.
pub proof fn what_is_left_of_a_deadline_ends_at_it(
    deadline: PumpDeadline,
    now: Instant,
    instant: Instant,
    left: Duration,
)
    requires
        call_ensures(PumpDeadline::instant, (deadline,), instant),
        call_ensures(PumpDeadline::remaining, (deadline, now), left),
    ensures
        instant_le(instant, now) ==> left == duration_of_millis(0),
        !instant_le(instant, now) ==> left == duration_since(instant, now),
        !instant_le(instant, now) ==> instant_plus(now, left) == Some(instant),
{
}

/// The first query has room for sixteen descriptors.
pub proof fn the_first_query_has_room_for_sixteen(query: ReadinessQuery, capacity: u32)
    requires
        call_ensures(ReadinessQuery::new, (), query),
        call_ensures(ReadinessQuery::capacity, (&query,), capacity),
    ensures
        capacity == 16,
{
}

/// An answer leads to a report exactly where its descriptors fit in the room: the
/// report is of all of them and of nothing behind them. Else the next query has just
/// the room that they need.
pub proof fn an_answer_is_taken_exactly_where_it_fits(
    query: ReadinessQuery,
    capacity: u32,
    ready: bool,
    timeout_ms: i32,
    needed: u32,
    written: Vec<WpePollFd>,
    outcome: QueryOutcome,
)
    requires
        call_ensures(ReadinessQuery::capacity, (&query,), capacity),
        written@.len() == capacity,
        call_ensures(ReadinessQuery::answer, (query, ready, timeout_ms, needed, written), outcome),
    ensures
        outcome is Report <==> needed <= capacity,
        outcome matches QueryOutcome::Report(report) ==> {
            &&& report@.ready == ready
            &&& report@.timeout_ms is None <==> timeout_ms < 0
            &&& report@.timeout_ms matches Some(timeout) ==> timeout == timeout_ms
            &&& report@.descriptors.len() == needed
            &&& forall|i: int|
                0 <= i < needed ==> #[trigger] report@.descriptors[i] == written@[i]
        },
        outcome matches QueryOutcome::AskAgain(next) ==> forall|room: u32|
            call_ensures(ReadinessQuery::capacity, (&next,), room) ==> room == needed,
{
}

/// What was answered is reported as a report of the same answer: the two ways to a
/// report agree.
pub proof fn an_answer_is_reported_as_it_is(
    query: ReadinessQuery,
    ready: bool,
    timeout_ms: i32,
    written: Vec<WpePollFd>,
    reported: WpeReadiness,
    report: WpeReadiness,
)
    requires
        written@.len() == query@,
        call_ensures(
            ReadinessQuery::answer,
            (query, ready, timeout_ms, query@, written),
            QueryOutcome::Report(reported),
        ),
        call_ensures(WpeReadiness::new, (ready, timeout_ms, written), report),
    ensures
        reported@.ready == report@.ready,
        reported@.timeout_ms == report@.timeout_ms,
        reported@.descriptors =~= report@.descriptors,
{
}

/// A pump is spawned by the request that finds it not running, and runs from then on.
pub proof fn a_pump_is_spawned_where_it_does_not_run(pump: &mut MessagePump, spawn: bool)
    requires
        call_ensures(MessagePump::start, (pump,), spawn),
    ensures
        spawn <==> !old(pump)@,
        final(pump)@,
{
}

/// A new pump does not run, and a new task holds nothing.
pub proof fn nothing_runs_at_first(pump: MessagePump, task: PumpTask)
    requires
        call_ensures(MessagePump::new, (), pump),
        call_ensures(PumpTask::new, (), task),
    ensures
        !pump@,
        task@ == PumpPhase::Detached,
{
}

/// What the task does about each event: it iterates a runtime that is there for as
/// long as an iteration dispatches something, asks once when none does, sleeps until
/// just the deadline that it is given, asks for the runtime when it wakes up, and
/// ends where that is gone.
pub proof fn the_task_answers_each_event(task: &mut PumpTask, event: PumpEvent, action: PumpAction)
    requires
        call_ensures(PumpTask::step, (task, event), action),
    ensures
        match event {
            PumpEvent::Upgraded(true) => action is Iterate && final(task)@ == PumpPhase::Iterating,
            PumpEvent::Upgraded(false) => action is Stop && final(task)@ == PumpPhase::Stopped,
            PumpEvent::Iterated(true) => action is Iterate && final(task)@ == PumpPhase::Iterating,
            PumpEvent::Iterated(false) => action is QueryReadiness && final(task)@
                == PumpPhase::Querying,
            PumpEvent::Reported(deadline) => action == PumpAction::Sleep(deadline) && final(task)@
                == PumpPhase::Sleeping,
            PumpEvent::Slept => action is Upgrade && final(task)@ == PumpPhase::Detached,
        },
{
}

/// The task takes the event that answers what it did last, in every phase but the
/// last.
pub proof fn the_task_takes_the_answer_to_what_it_did(
    task: &mut PumpTask,
    answered: bool,
    deadline: PumpDeadline,
)
    ensures
        old(task)@ == PumpPhase::Detached ==> call_requires(
            PumpTask::step,
            (task, PumpEvent::Upgraded(answered)),
        ),
        old(task)@ == PumpPhase::Iterating ==> call_requires(
            PumpTask::step,
            (task, PumpEvent::Iterated(answered)),
        ),
        old(task)@ == PumpPhase::Querying ==> call_requires(
            PumpTask::step,
            (task, PumpEvent::Reported(deadline)),
        ),
        old(task)@ == PumpPhase::Sleeping ==> call_requires(
            PumpTask::step,
            (task, PumpEvent::Slept),
        ),
{
}

/// Every report has a wait and a deadline from every start, every deadline something
/// left at every instant, and an answer is taken whatever it says.
pub proof fn whatever_the_context_answers_is_taken(
    ready: bool,
    timeout_ms: i32,
    needed: u32,
    written: Vec<WpePollFd>,
    report: WpeReadiness,
    query: ReadinessQuery,
    deadline: PumpDeadline,
    now: Instant,
)
    ensures
        call_requires(WpeReadiness::new, (ready, timeout_ms, written)),
        call_requires(WpeReadiness::wait, (&report,)),
        call_requires(WpeReadiness::deadline_from, (&report, now)),
        call_requires(WpeReadiness::deadline, (&report,)),
        call_requires(PumpDeadline::remaining, (deadline, now)),
        written@.len() == query@ ==> call_requires(
            ReadinessQuery::answer,
            (query, ready, timeout_ms, needed, written),
        ),
{
}

} // verus!
