//! When WPE's main loop has to run next.
//!
//! WPE's engine work is `GLib`'s: timers, socket completions from the network and
//! web processes, and the idle sources every DOM mutation is queued on all live
//! on one `GMainContext`. Nothing of that happens on its own, since a
//! `GMainContext` runs when somebody iterates it, so the question this module
//! answers is when the host has to iterate it again, taken from the context
//! itself rather than guessed at.

use std::time::{Duration, Instant};

use vstd::prelude::*;

use crate::outside::{
    duration_of_millis, duration_since, instant_at_most, instant_checked_add, instant_le,
    instant_now, instant_plus, instant_saturating_since, waiting_keeps_order,
};

verus! {

/// How many milliseconds the pump waits when nothing but a descriptor can wake
/// the engine.
///
/// `GLib`'s timeout says when the next *timer* is due, and nothing at all about
/// when one of [`WpeReadiness::descriptors`] becomes readable. A host that does
/// not watch those descriptors therefore has to look again on a bound of its
/// own, and this is that bound: a 30 Hz ceiling. It is a ceiling, never an
/// interval: a deadline `GLib` asked for is always at most this far away.
pub const MAXIMUM_PUMP_INTERVAL_MS: u64 = 1000 / 30;

/// How many descriptors a readiness report is asked for before it has to ask
/// again with a larger buffer.
///
/// A WPE main context watches its own wakeup descriptor plus a handful per web
/// and network process, so this is sized to answer in one call and grows from
/// the count the bridge reports when it does not.
pub const INITIAL_DESCRIPTOR_CAPACITY: u32 = 16;

/// One descriptor the runtime's `GLib` main context wants watched.
///
/// A host whose event loop can watch descriptors adds these to it and iterates
/// the runtime when one signals, which is what lets an idle web view answer a
/// network completion the moment it lands instead of at the next bound wakeup.
#[derive(Debug, Clone, Copy, PartialEq, Eq, Structural)]
pub struct WpePollFd {
    fd: i32,
    events: i16,
}

impl WpePollFd {
    /// The descriptor, as the context names it.
    pub closed spec fn spec_fd(self) -> i32 {
        self.fd
    }

    /// The event mask, as the context names it.
    pub closed spec fn spec_events(self) -> i16 {
        self.events
    }

    /// A descriptor and the events to watch on it.
    #[must_use]
    pub fn new(fd: i32, events: i16) -> (poll: Self)
        ensures
            poll.spec_fd() == fd,
            poll.spec_events() == events,
    {
        WpePollFd { fd, events }
    }

    /// The descriptor to watch.
    #[must_use]
    pub fn fd(self) -> (fd: i32)
        ensures
            fd == self.spec_fd(),
    {
        self.fd
    }

    /// The `poll(2)` event mask `GLib` asked for on it.
    #[must_use]
    pub fn events(self) -> (events: i16)
        ensures
            events == self.spec_events(),
    {
        self.events
    }
}

/// What the WPE runtime's `GLib` main context is currently waiting for.
///
/// One `g_main_context_prepare` / `g_main_context_query` pass, which asks every
/// source when it next wants to run and dispatches nothing.
#[derive(Debug)]
pub struct WpeReadiness {
    ready: bool,
    timeout_ms: Option<u64>,
    descriptors: Vec<WpePollFd>,
}

impl Clone for WpeReadiness {
    fn clone(&self) -> (copy: Self)
        ensures
            copy@ == self@,
    {
        let descriptors = self.descriptors.clone();
        assert(descriptors@ =~= self.descriptors@);
        WpeReadiness { ready: self.ready, timeout_ms: self.timeout_ms, descriptors }
    }
}

/// What a readiness report says.
pub struct ReadinessView {
    /// Whether a source can be dispatched right now.
    pub ready: bool,
    /// Milliseconds until the earliest timer is due, when there is a timer.
    pub timeout_ms: Option<u64>,
    /// The descriptors to watch.
    pub descriptors: Seq<WpePollFd>,
}

impl View for WpeReadiness {
    type V = ReadinessView;

    closed spec fn view(&self) -> ReadinessView {
        ReadinessView {
            ready: self.ready,
            timeout_ms: self.timeout_ms,
            descriptors: self.descriptors@,
        }
    }
}

/// The timeout behind the bridge's raw answer, in which a negative number means
/// that no source has one.
pub open spec fn timeout_from_abi(timeout_ms: i32) -> Option<u64> {
    if timeout_ms < 0 {
        None
    } else {
        Some(timeout_ms as u64)
    }
}

/// How many milliseconds a host that does not watch the descriptors may wait:
/// not at all for a context with work in hand, else until the next timer or the
/// ceiling, whichever comes first.
pub open spec fn wait_ms(report: ReadinessView) -> u64 {
    if report.ready {
        0
    } else {
        match report.timeout_ms {
            Some(timeout) if timeout < MAXIMUM_PUMP_INTERVAL_MS => timeout,
            _ => MAXIMUM_PUMP_INTERVAL_MS,
        }
    }
}

impl WpeReadiness {
    /// Builds a report from the raw ABI answer, where a negative timeout means
    /// no source has one.
    #[must_use]
    pub fn new(ready: bool, timeout_ms: i32, descriptors: Vec<WpePollFd>) -> (report: Self)
        ensures
            report@ == (ReadinessView {
                ready,
                timeout_ms: timeout_from_abi(timeout_ms),
                descriptors: descriptors@,
            }),
    {
        let timeout_ms: Option<u64> = if timeout_ms < 0 {
            None
        } else {
            Some(timeout_ms as u64)
        };
        WpeReadiness { ready, timeout_ms, descriptors }
    }

    /// Whether a source can be dispatched right now.
    #[must_use]
    pub fn is_ready(&self) -> (ready: bool)
        ensures
            ready == self@.ready,
    {
        self.ready
    }

    /// How long until the earliest timer source is due, when one exists.
    #[must_use]
    pub fn timeout(&self) -> (timeout: Option<Duration>)
        ensures
            timeout == (match self@.timeout_ms {
                Some(ms) => Some(duration_of_millis(ms)),
                None => None,
            }),
    {
        match self.timeout_ms {
            Some(ms) => Some(Duration::from_millis(ms)),
            None => None,
        }
    }

    /// The descriptors the context wants watched.
    #[must_use]
    pub fn descriptors(&self) -> (descriptors: &[WpePollFd])
        ensures
            descriptors@ == self@.descriptors,
    {
        self.descriptors.as_slice()
    }

    /// How long a host that does not watch [`Self::descriptors`] may wait.
    #[must_use]
    pub fn wait(&self) -> (wait: Duration)
        ensures
            wait == duration_of_millis(wait_ms(self@)),
    {
        if self.ready {
            return Duration::from_millis(0);
        }
        let wait: u64 = match self.timeout_ms {
            Some(timeout) => if timeout < MAXIMUM_PUMP_INTERVAL_MS {
                timeout
            } else {
                MAXIMUM_PUMP_INTERVAL_MS
            },
            None => MAXIMUM_PUMP_INTERVAL_MS,
        };
        Duration::from_millis(wait)
    }

    /// The instant the wait is over when it starts at `now`; `None` where the
    /// clock cannot represent that instant.
    #[must_use]
    pub fn deadline_from(&self, now: Instant) -> (deadline: Option<PumpDeadline>)
        ensures
            deadline_matches(deadline, now, self@),
    {
        match instant_checked_add(now, self.wait()) {
            Some(instant) => Some(PumpDeadline(instant)),
            None => None,
        }
    }

    /// The instant the wait is over when it starts now; `None` where the clock
    /// cannot represent that instant.
    ///
    /// Which instant the clock shows, and how that lies to other readings of the
    /// clock, is the host's: of any one start, [`Self::deadline_from`] says where
    /// the wait ends.
    #[must_use]
    pub fn deadline(&self) -> (deadline: Option<PumpDeadline>)
        ensures
            exists|now: Instant| #[trigger] deadline_matches(deadline, now, self@),
    {
        let now = instant_now();
        self.deadline_from(now)
    }
}

/// Whether `deadline` is where a wait on `report` that starts at `now` ends, and lies
/// to the ends of such waits as `now` lies to their starts.
pub open spec fn deadline_matches(
    deadline: Option<PumpDeadline>,
    now: Instant,
    report: ReadinessView,
) -> bool {
    let wait = duration_of_millis(wait_ms(report));
    match (instant_plus(now, wait), deadline) {
        (Some(instant), Some(deadline)) => deadline@ == instant && waiting_keeps_order(
            now,
            wait,
            instant,
        ),
        (None, None) => true,
        _ => false,
    }
}

/// The instant WPE's main loop next has to be iterated.
#[derive(Debug, Clone, Copy, PartialEq, Eq)]
pub struct PumpDeadline(Instant);

impl View for PumpDeadline {
    type V = Instant;

    closed spec fn view(&self) -> Instant {
        self.0
    }
}

impl PumpDeadline {
    /// Returns the requested instant.
    #[must_use]
    pub fn instant(self) -> (instant: Instant)
        ensures
            instant == self@,
    {
        self.0
    }

    /// How long is left until the deadline at `now`: nothing once it has come, and
    /// else the span that ends exactly there.
    #[must_use]
    pub fn remaining(self, now: Instant) -> (left: Duration)
        ensures
            instant_le(self@, now) ==> left == duration_of_millis(0),
            !instant_le(self@, now) ==> {
                &&& left == duration_since(self@, now)
                &&& instant_plus(now, left) == Some(self@)
            },
    {
        if instant_at_most(self.0, now) {
            return Duration::from_millis(0);
        }
        instant_saturating_since(self.0, now)
    }
}

/// A context with work in hand is iterated at once; any other is looked at again
/// no later than its next timer and no later than the ceiling, and one of the
/// two is exactly when.
pub proof fn no_wait_passes_the_timer_or_the_ceiling(report: ReadinessView)
    ensures
        report.ready ==> wait_ms(report) == 0,
        wait_ms(report) <= MAXIMUM_PUMP_INTERVAL_MS,
        report.timeout_ms matches Some(timeout) ==> wait_ms(report) <= timeout,
        !report.ready ==> (wait_ms(report) == MAXIMUM_PUMP_INTERVAL_MS || report.timeout_ms == Some(
            wait_ms(report),
        )),
{
}

/// A deadline lies between the ends of a wait that starts before and of one that
/// starts after: for any two instants around the one that it counts from.
pub proof fn a_deadline_lies_between_the_clock_before_and_after_plus_the_wait(
    before: Instant,
    now: Instant,
    after: Instant,
    report: ReadinessView,
    deadline: PumpDeadline,
)
    requires
        instant_le(before, now),
        instant_le(now, after),
        deadline_matches(Some(deadline), now, report),
    ensures
        instant_plus(before, duration_of_millis(wait_ms(report))) matches Some(earliest)
            ==> instant_le(earliest, deadline@),
        instant_plus(after, duration_of_millis(wait_ms(report))) matches Some(latest)
            ==> instant_le(deadline@, latest),
{
}

/// One readiness report in the making: how many descriptors the bridge is given
/// room for.
#[derive(Debug, Clone, Copy, PartialEq, Eq, Structural)]
pub struct ReadinessQuery {
    capacity: u32,
}

impl View for ReadinessQuery {
    type V = u32;

    closed spec fn view(&self) -> u32 {
        self.capacity
    }
}

/// What the bridge's answer to a query leads to.
#[derive(Debug)]
pub enum QueryOutcome {
    /// The report is complete.
    Report(WpeReadiness),
    /// The room was too small: ask again with this much.
    AskAgain(ReadinessQuery),
}

/// What an outcome of a query says.
#[verifier::ext_equal]
pub enum OutcomeView {
    /// The report is complete.
    Report(ReadinessView),
    /// The room was too small: ask again with this much.
    AskAgain(u32),
}

impl View for QueryOutcome {
    type V = OutcomeView;

    open spec fn view(&self) -> OutcomeView {
        match *self {
            QueryOutcome::Report(report) => OutcomeView::Report(report@),
            QueryOutcome::AskAgain(next) => OutcomeView::AskAgain(next@),
        }
    }
}

/// One answer of the bridge to a query.
pub struct BridgeAnswer {
    /// Whether a source can be dispatched right now.
    pub ready: bool,
    /// Milliseconds until the earliest timer is due, negative when there is none.
    pub timeout_ms: i32,
    /// How many descriptors the context has.
    pub needed: u32,
    /// The room that the bridge was given, with what it wrote there.
    pub written: Seq<WpePollFd>,
}

/// The report that a complete answer gives: the descriptors that the context has,
/// and none of the room behind them.
pub open spec fn answer_report(answer: BridgeAnswer) -> ReadinessView {
    ReadinessView {
        ready: answer.ready,
        timeout_ms: timeout_from_abi(answer.timeout_ms),
        descriptors: answer.written.take(answer.needed as int),
    }
}

/// What an answer to a query with this much room leads to.
pub open spec fn query_outcome(capacity: u32, answer: BridgeAnswer) -> OutcomeView {
    if answered(capacity, answer.needed) {
        OutcomeView::Report(answer_report(answer))
    } else {
        OutcomeView::AskAgain(next_capacity(capacity, answer.needed))
    }
}

impl ReadinessQuery {
    /// The first query of a report.
    #[must_use]
    pub fn new() -> (query: Self)
        ensures
            query@ == INITIAL_DESCRIPTOR_CAPACITY,
    {
        ReadinessQuery { capacity: INITIAL_DESCRIPTOR_CAPACITY }
    }

    /// How many descriptors the bridge may write.
    #[must_use]
    pub fn capacity(&self) -> (capacity: u32)
        ensures
            capacity == self@,
    {
        self.capacity
    }

    /// Takes the bridge's answer: the report it filled in, how many descriptors
    /// it has, and the room it was given with what it wrote there.
    ///
    /// Where the room is too small the bridge has written nothing and answered
    /// with the size it needs; the next query has room for that many, as
    /// `g_main_context_query` is used.
    #[must_use]
    pub fn answer(
        self,
        ready: bool,
        timeout_ms: i32,
        needed: u32,
        written: Vec<WpePollFd>,
    ) -> (outcome: QueryOutcome)
        requires
            written@.len() == self@,
        ensures
            outcome@ == query_outcome(
                self@,
                BridgeAnswer { ready, timeout_ms, needed, written: written@ },
            ),
    {
        if needed > self.capacity {
            return QueryOutcome::AskAgain(ReadinessQuery { capacity: needed });
        }
        let mut descriptors = written;
        descriptors.truncate(needed as usize);
        assert(descriptors@ =~= written@.take(needed as int));
        QueryOutcome::Report(WpeReadiness::new(ready, timeout_ms, descriptors))
    }
}

/// Whether the answer to a query with this much room leads to a report.
pub open spec fn answered(capacity: u32, needed: u32) -> bool {
    needed <= capacity
}

/// The room of the query after one with `capacity` that `needed` did not fit.
pub open spec fn next_capacity(capacity: u32, needed: u32) -> u32 {
    if answered(capacity, needed) {
        capacity
    } else {
        needed
    }
}

/// The room after a run of answers, each with the count that the bridge needed.
pub open spec fn capacity_after(capacity: u32, needed: Seq<u32>) -> u32
    decreases needed.len(),
{
    if needed.len() == 0 {
        capacity
    } else {
        capacity_after(next_capacity(capacity, needed[0]), needed.drop_first())
    }
}

/// Room is only ever added, and asking again pays: whatever counts came before,
/// the room is never below any of them, so a context that keeps to its count is
/// answered at the latest when it is asked again.
pub proof fn asking_again_makes_room(capacity: u32, needed: Seq<u32>, index: int)
    requires
        0 <= index < needed.len(),
    ensures
        capacity <= capacity_after(capacity, needed),
        answered(capacity_after(capacity, needed), needed[index]),
    decreases needed.len(),
{
    let next = next_capacity(capacity, needed[0]);
    let rest = needed.drop_first();
    if rest.len() > 0 {
        asking_again_makes_room(next, rest, if index == 0 {
            0
        } else {
            index - 1
        });
        if index > 0 {
            assert(rest[index - 1] == needed[index]);
        }
    } else {
        assert(capacity_after(next, rest) == next);
    }
}

/// The report that a run of answers leads to, where the first is to a query with
/// this much room; `None` where the last of them asks for another.
pub open spec fn report_of(capacity: u32, answers: Seq<BridgeAnswer>) -> Option<ReadinessView>
    decreases answers.len(),
{
    if answers.len() == 0 {
        None
    } else {
        match query_outcome(capacity, answers[0]) {
            OutcomeView::Report(report) => Some(report),
            OutcomeView::AskAgain(next) => report_of(next, answers.drop_first()),
        }
    }
}

/// Whether each of the answers is one to a query with the room that the bridge was
/// given.
pub open spec fn rooms_fit(capacity: u32, answers: Seq<BridgeAnswer>) -> bool
    decreases answers.len(),
{
    answers.len() == 0 || (answers[0].written.len() == capacity && rooms_fit(
        next_capacity(capacity, answers[0].needed),
        answers.drop_first(),
    ))
}

/// Whether the bridge said the same twice: whatever lies in the room behind the
/// descriptors that it counts, and in a room that was too small, it did not say.
pub open spec fn says_the_same(one: BridgeAnswer, other: BridgeAnswer) -> bool {
    &&& one.ready == other.ready
    &&& one.timeout_ms == other.timeout_ms
    &&& one.needed == other.needed
    &&& one.needed <= one.written.len() ==> one.written.take(one.needed as int)
        == other.written.take(one.needed as int)
}

/// Asking changes nothing: a report that is made from the same answers of the
/// bridge as another is equal to it.
pub proof fn the_same_answers_give_the_same_report(
    capacity: u32,
    first: Seq<BridgeAnswer>,
    second: Seq<BridgeAnswer>,
)
    requires
        rooms_fit(capacity, first),
        rooms_fit(capacity, second),
        first.len() == second.len(),
        forall|i: int| 0 <= i < first.len() ==> says_the_same(#[trigger] first[i], second[i]),
    ensures
        report_of(capacity, first) == report_of(capacity, second),
    decreases first.len(),
{
    if first.len() > 0 {
        assert(says_the_same(first[0], second[0]));
        if !answered(capacity, first[0].needed) {
            let rest = first.drop_first();
            assert forall|i: int| 0 <= i < rest.len() implies says_the_same(
                #[trigger] rest[i],
                second.drop_first()[i],
            ) by {
                assert(says_the_same(first[i + 1], second[i + 1]));
            }
            the_same_answers_give_the_same_report(
                next_capacity(capacity, first[0].needed),
                rest,
                second.drop_first(),
            );
        }
    }
}

/// The answer of a bridge whose context has these descriptors to a query with
/// `room`: it writes them at the start of the room where they fit, else nothing.
pub open spec fn context_answer(
    ready: bool,
    timeout_ms: i32,
    descriptors: Seq<WpePollFd>,
    room: Seq<WpePollFd>,
) -> BridgeAnswer {
    BridgeAnswer {
        ready,
        timeout_ms,
        needed: descriptors.len() as u32,
        written: if descriptors.len() <= room.len() {
            descriptors + room.skip(descriptors.len() as int)
        } else {
            room
        },
    }
}

/// A report is what the context waits for, all of it and in its order, however many
/// descriptors there are: the second answer is one at the latest.
pub proof fn a_report_is_what_the_context_waits_for(
    ready: bool,
    timeout_ms: i32,
    descriptors: Seq<WpePollFd>,
    first: Seq<WpePollFd>,
    second: Seq<WpePollFd>,
)
    requires
        descriptors.len() <= u32::MAX,
        first.len() == INITIAL_DESCRIPTOR_CAPACITY,
        second.len() == next_capacity(INITIAL_DESCRIPTOR_CAPACITY, descriptors.len() as u32),
    ensures
        report_of(
            INITIAL_DESCRIPTOR_CAPACITY,
            seq![
                context_answer(ready, timeout_ms, descriptors, first),
                context_answer(ready, timeout_ms, descriptors, second),
            ],
        ) == Some(
            ReadinessView { ready, timeout_ms: timeout_from_abi(timeout_ms), descriptors },
        ),
{
    reveal_with_fuel(report_of, 3);
    let answers = seq![
        context_answer(ready, timeout_ms, descriptors, first),
        context_answer(ready, timeout_ms, descriptors, second),
    ];
    assert(answers.drop_first()[0] == answers[1]);
    if answered(INITIAL_DESCRIPTOR_CAPACITY, descriptors.len() as u32) {
        assert(answers[0].written.take(descriptors.len() as int) =~= descriptors);
    } else {
        assert(answers[1].written.take(descriptors.len() as int) =~= descriptors);
    }
}

/// Whether a runtime's pump task was started.
///
/// Every controller that resolves a runtime asks for its pump, and one main
/// context needs exactly one loop driving it.
#[derive(Debug, Clone, Copy, PartialEq, Eq, Structural)]
pub struct MessagePump {
    running: bool,
}

impl View for MessagePump {
    type V = bool;

    closed spec fn view(&self) -> bool {
        self.running
    }
}

impl MessagePump {
    /// A pump that nobody has asked for yet.
    #[must_use]
    pub fn new() -> (pump: Self)
        ensures
            !pump@,
    {
        MessagePump { running: false }
    }

    /// Asks for the pump; whether the task has to be spawned for that.
    pub fn start(&mut self) -> (spawn: bool)
        ensures
            spawn == start_spawns(old(self)@),
            final(self)@,
    {
        let spawn = !self.running;
        self.running = true;
        spawn
    }
}

/// Whether asking for the pump spawns the task.
pub open spec fn start_spawns(running: bool) -> bool {
    !running
}

/// Which of `count` requests in a row spawn the task.
pub open spec fn spawns(running: bool, count: nat) -> Seq<bool>
    decreases count,
{
    if count == 0 {
        seq![]
    } else {
        seq![start_spawns(running)] + spawns(true, (count - 1) as nat)
    }
}

/// However often the pump of a runtime is asked for, the task is spawned once, on
/// the first request.
pub proof fn only_the_first_start_spawns(count: nat)
    ensures
        spawns(false, count) == Seq::new(count, |i: int| i == 0),
{
    if count > 0 {
        lemma_running_spawns_nothing((count - 1) as nat);
    }
    assert(spawns(false, count) =~= Seq::new(count, |i: int| i == 0));
}

/// A running pump is never spawned again.
proof fn lemma_running_spawns_nothing(count: nat)
    ensures
        spawns(true, count) == Seq::new(count, |i: int| false),
    decreases count,
{
    if count > 0 {
        lemma_running_spawns_nothing((count - 1) as nat);
    }
    assert(spawns(true, count) =~= Seq::new(count, |i: int| false));
}

/// Where the pump task is.
#[derive(Debug, Clone, Copy, PartialEq, Eq, Structural)]
pub enum PumpPhase {
    /// It holds no reference to the runtime and is about to ask for one.
    Detached,
    /// It holds the runtime and dispatches what is ready.
    Iterating,
    /// It holds the runtime and asks when to come back.
    Querying,
    /// It holds no reference and sleeps until the deadline.
    Sleeping,
    /// It has ended.
    Stopped,
}

/// What the host reports to the pump task.
#[derive(Debug, Clone, Copy)]
pub enum PumpEvent {
    /// Whether the runtime is still there.
    Upgraded(bool),
    /// Whether an iteration dispatched something.
    Iterated(bool),
    /// When the main context wants to be iterated next.
    Reported(PumpDeadline),
    /// The deadline has come.
    Slept,
}

/// What the pump task does next.
#[derive(Debug, Clone, Copy)]
pub enum PumpAction {
    /// Take a strong reference to the runtime, if it is still there.
    Upgrade,
    /// Dispatch what is ready.
    Iterate,
    /// Ask when to come back.
    QueryReadiness,
    /// Let go of the runtime and sleep until this deadline.
    Sleep(PumpDeadline),
    /// End.
    Stop,
}

/// The task that drives a runtime's main loop.
///
/// It runs whether or not anything is drawn: a page only produces frames while
/// its main context is iterated, so a pump that lived inside rendering would
/// deadlock the two against each other.
#[derive(Debug, Clone, Copy, PartialEq, Eq, Structural)]
pub struct PumpTask {
    phase: PumpPhase,
}

impl View for PumpTask {
    type V = PumpPhase;

    closed spec fn view(&self) -> PumpPhase {
        self.phase
    }
}

/// Whether this is the event that the task waits for.
pub open spec fn pump_expects(phase: PumpPhase, event: PumpEvent) -> bool {
    match phase {
        PumpPhase::Detached => event is Upgraded,
        PumpPhase::Iterating => event is Iterated,
        PumpPhase::Querying => event is Reported,
        PumpPhase::Sleeping => event is Slept,
        PumpPhase::Stopped => false,
    }
}

/// One decision of the task.
pub open spec fn pump_step(event: PumpEvent) -> (PumpPhase, PumpAction) {
    match event {
        PumpEvent::Upgraded(true) => (PumpPhase::Iterating, PumpAction::Iterate),
        PumpEvent::Upgraded(false) => (PumpPhase::Stopped, PumpAction::Stop),
        PumpEvent::Iterated(true) => (PumpPhase::Iterating, PumpAction::Iterate),
        PumpEvent::Iterated(false) => (PumpPhase::Querying, PumpAction::QueryReadiness),
        PumpEvent::Reported(deadline) => (PumpPhase::Sleeping, PumpAction::Sleep(deadline)),
        PumpEvent::Slept => (PumpPhase::Detached, PumpAction::Upgrade),
    }
}

/// Whether the task holds a strong reference to the runtime.
pub open spec fn holds_runtime(phase: PumpPhase) -> bool {
    phase is Iterating || phase is Querying
}

impl PumpTask {
    /// A task that is about to ask for the runtime.
    #[must_use]
    pub fn new() -> (task: Self)
        ensures
            task@ == PumpPhase::Detached,
    {
        PumpTask { phase: PumpPhase::Detached }
    }

    /// Takes an event and says what the task does next.
    pub fn step(&mut self, event: PumpEvent) -> (action: PumpAction)
        requires
            pump_expects(old(self)@, event),
        ensures
            (final(self)@, action) == pump_step(event),
    {
        match event {
            PumpEvent::Upgraded(alive) => if alive {
                self.phase = PumpPhase::Iterating;
                PumpAction::Iterate
            } else {
                self.phase = PumpPhase::Stopped;
                PumpAction::Stop
            },
            PumpEvent::Iterated(dispatched) => if dispatched {
                PumpAction::Iterate
            } else {
                self.phase = PumpPhase::Querying;
                PumpAction::QueryReadiness
            },
            PumpEvent::Reported(deadline) => {
                self.phase = PumpPhase::Sleeping;
                PumpAction::Sleep(deadline)
            },
            PumpEvent::Slept => {
                self.phase = PumpPhase::Detached;
                PumpAction::Upgrade
            },
        }
    }
}

/// The task never keeps the engine alive: it holds no reference while it sleeps
/// or once it has ended, and it ends as soon as it finds the runtime gone. It
/// dispatches and asks only while it holds one, and goes on to sleep only with
/// nothing left to dispatch, until the deadline it was given.
pub proof fn the_pump_task_never_keeps_the_runtime_alive(phase: PumpPhase, event: PumpEvent)
    requires
        pump_expects(phase, event),
    ensures
        ({
            let (next, action) = pump_step(event);
            &&& action is Sleep ==> !holds_runtime(next) && event == PumpEvent::Reported(action->0)
            &&& action is Stop <==> event == PumpEvent::Upgraded(false)
            &&& action is Stop ==> !holds_runtime(next)
            &&& action is Iterate || action is QueryReadiness ==> holds_runtime(next)
            &&& action is QueryReadiness <==> event == PumpEvent::Iterated(false)
        }),
{
}

/// A run of events: where it ends and what the task did on the way.
#[verifier::ext_equal]
pub struct PumpRun {
    /// The phase at the end.
    pub phase: PumpPhase,
    /// The actions, one per event.
    pub actions: Seq<PumpAction>,
}

/// What a run of events does.
pub open spec fn pump_run(phase: PumpPhase, events: Seq<PumpEvent>) -> PumpRun
    decreases events.len(),
{
    if events.len() == 0 {
        PumpRun { phase, actions: seq![] }
    } else {
        let (next, action) = pump_step(events[0]);
        let rest = pump_run(next, events.drop_first());
        PumpRun { phase: rest.phase, actions: seq![action] + rest.actions }
    }
}

/// Whether every event of a run is the one that is waited for.
pub open spec fn pump_run_expected(phase: PumpPhase, events: Seq<PumpEvent>) -> bool
    decreases events.len(),
{
    events.len() == 0 || (pump_expects(phase, events[0]) && pump_run_expected(
        pump_step(events[0]).0,
        events.drop_first(),
    ))
}

/// What the host reports once the task holds the runtime: this many iterations that
/// dispatched something, one that did not, and when to come back.
pub open spec fn turn_events(dispatched: nat, deadline: PumpDeadline) -> Seq<PumpEvent> {
    Seq::new(dispatched, |i: int| PumpEvent::Iterated(true)) + seq![
        PumpEvent::Iterated(false),
        PumpEvent::Reported(deadline),
    ]
}

/// What the task does about it: it iterates after each iteration that dispatched
/// something, then asks once, and then sleeps.
pub open spec fn turn_actions(dispatched: nat, deadline: PumpDeadline) -> Seq<PumpAction> {
    Seq::new(dispatched, |i: int| PumpAction::Iterate) + seq![
        PumpAction::QueryReadiness,
        PumpAction::Sleep(deadline),
    ]
}

/// The part of a turn in which the task holds the runtime.
proof fn lemma_turn_from_iterating(dispatched: nat, deadline: PumpDeadline)
    ensures
        pump_run_expected(PumpPhase::Iterating, turn_events(dispatched, deadline)),
        pump_run(PumpPhase::Iterating, turn_events(dispatched, deadline)) == (PumpRun {
            phase: PumpPhase::Sleeping,
            actions: turn_actions(dispatched, deadline),
        }),
    decreases dispatched,
{
    let events = turn_events(dispatched, deadline);
    let run = pump_run(PumpPhase::Iterating, events);
    if dispatched > 0 {
        let fewer = (dispatched - 1) as nat;
        lemma_turn_from_iterating(fewer, deadline);
        assert(events.drop_first() =~= turn_events(fewer, deadline));
        assert(events[0] == PumpEvent::Iterated(true));
    } else {
        reveal_with_fuel(pump_run, 3);
        reveal_with_fuel(pump_run_expected, 3);
        assert(events[0] == PumpEvent::Iterated(false));
        assert(events.drop_first()[0] == PumpEvent::Reported(deadline));
    }
    assert(run.actions =~= turn_actions(dispatched, deadline));
}

/// One turn of the pump, from waking up to the next sleep: the task takes a
/// reference to the runtime, iterates until an iteration dispatches nothing, however
/// many that takes, asks once when to come back, and sleeps until exactly then,
/// without the reference.
pub proof fn a_turn_dispatches_everything_and_sleeps_until_the_deadline(
    dispatched: nat,
    deadline: PumpDeadline,
)
    ensures
        ({
            let events = seq![PumpEvent::Slept, PumpEvent::Upgraded(true)] + turn_events(
                dispatched,
                deadline,
            );
            &&& pump_run_expected(PumpPhase::Sleeping, events)
            &&& pump_run(PumpPhase::Sleeping, events) == (PumpRun {
                phase: PumpPhase::Sleeping,
                actions: seq![PumpAction::Upgrade, PumpAction::Iterate] + turn_actions(
                    dispatched,
                    deadline,
                ),
            })
            &&& !holds_runtime(PumpPhase::Sleeping)
        }),
{
    let turn = turn_events(dispatched, deadline);
    let events = seq![PumpEvent::Slept, PumpEvent::Upgraded(true)] + turn;
    lemma_turn_from_iterating(dispatched, deadline);
    reveal_with_fuel(pump_run, 3);
    reveal_with_fuel(pump_run_expected, 3);
    let rest = events.drop_first();
    assert(rest[0] == PumpEvent::Upgraded(true));
    assert(rest.drop_first() =~= turn);
    assert(pump_run(PumpPhase::Sleeping, events).actions =~= seq![
        PumpAction::Upgrade,
        PumpAction::Iterate,
    ] + turn_actions(dispatched, deadline));
}

/// A task whose runtime goes while it sleeps ends at its next wakeup and never pumps
/// again: whatever run follows is over after it has found the runtime gone, and the
/// task neither dispatches nor asks in it.
pub proof fn a_task_whose_runtime_is_gone_ends_at_its_next_wakeup(events: Seq<PumpEvent>)
    requires
        pump_run_expected(PumpPhase::Sleeping, events),
        events.len() > 1 ==> events[1] == PumpEvent::Upgraded(false),
    ensures
        events.len() <= 2,
        events.len() == 2 ==> pump_run(PumpPhase::Sleeping, events) == (PumpRun {
            phase: PumpPhase::Stopped,
            actions: seq![PumpAction::Upgrade, PumpAction::Stop],
        }),
        forall|i: int|
            0 <= i < events.len() ==> {
                let action = #[trigger] pump_run(PumpPhase::Sleeping, events).actions[i];
                action is Upgrade || action is Stop
            },
{
    reveal_with_fuel(pump_run, 4);
    reveal_with_fuel(pump_run_expected, 4);
    let rest = events.drop_first();
    let last = rest.drop_first();
    if events.len() > 1 {
        assert(rest[0] == events[1]);
        assert(last.len() == 0);
        assert(pump_run(PumpPhase::Sleeping, events).actions =~= seq![
            PumpAction::Upgrade,
            PumpAction::Stop,
        ]);
    }
}

} // verus!
