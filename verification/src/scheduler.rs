//! When a refresh runs: the single-flight rule for triggers and the retry
//! policy of the first population at startup.

use crate::store::RefreshReport;
use vstd::prelude::*;

verus! {

/// The recurring refresh schedule as a six-field cron expression: at second
/// 0 of minute 30 of the hours 0, 6, 12 and 18 of every day.
pub const REFRESH_SCHEDULE: &'static str = "0 30 0,6,12,18 * * *";

/// Whether a refresh run is in flight.
#[derive(Clone, Copy, Debug, PartialEq, Eq, Structural)]
pub enum SchedulerState {
    Idle,
    Running,
}

/// What a trigger leads to.
#[derive(Clone, Copy, Debug, PartialEq, Eq, Structural)]
pub enum Decision {
    /// No run was in flight: the caller runs the refresh now and reports its
    /// end with [`RefreshScheduler::on_finished`].
    Start,
    /// A run is in flight: the trigger is dropped, not queued.
    Skip,
}

/// What happens to a scheduler: a trigger fires, or the run in flight ends.
#[derive(Clone, Copy, Debug, PartialEq, Eq, Structural)]
pub enum Event {
    Trigger,
    Finished,
}

/// The decision on a trigger that fires in `state`.
pub open spec fn decision_in(state: SchedulerState) -> Decision {
    match state {
        SchedulerState::Idle => Decision::Start,
        SchedulerState::Running => Decision::Skip,
    }
}

/// The state that follows `event` in `state`.
pub open spec fn state_after(state: SchedulerState, event: Event) -> SchedulerState {
    match event {
        Event::Trigger => SchedulerState::Running,
        Event::Finished => SchedulerState::Idle,
    }
}

/// The state after a sequence of events, the earliest first.
pub open spec fn state_after_all(state: SchedulerState, events: Seq<Event>) -> SchedulerState
    decreases events.len(),
{
    if events.len() == 0 {
        state
    } else {
        state_after(state_after_all(state, events.drop_last()), events.last())
    }
}

/// The number of runs that a sequence of events starts, from `state`.
pub open spec fn runs_started(state: SchedulerState, events: Seq<Event>) -> nat
    decreases events.len(),
{
    if events.len() == 0 {
        0
    } else {
        let before = state_after_all(state, events.drop_last());
        let earlier = runs_started(state, events.drop_last());
        if events.last() == Event::Trigger && decision_in(before) == Decision::Start {
            earlier + 1
        } else {
            earlier
        }
    }
}

/// The number of runs in flight in `state`: one when running, none when
/// idle.
pub open spec fn in_flight(state: SchedulerState) -> nat {
    match state {
        SchedulerState::Idle => 0,
        SchedulerState::Running => 1,
    }
}

/// The number of runs that a sequence of events ends, from `state`. A
/// `Finished` that arrives while idle ends nothing.
pub open spec fn runs_ended(state: SchedulerState, events: Seq<Event>) -> nat
    decreases events.len(),
{
    if events.len() == 0 {
        0
    } else {
        let before = state_after_all(state, events.drop_last());
        let earlier = runs_ended(state, events.drop_last());
        if events.last() == Event::Finished && before == SchedulerState::Running {
            earlier + 1
        } else {
            earlier
        }
    }
}

/// Serializes refresh runs: at most one is in flight.
#[derive(Debug)]
pub struct RefreshScheduler {
    state: SchedulerState,
}

impl RefreshScheduler {
    /// Whether a run is in flight.
    pub closed spec fn state(self) -> SchedulerState {
        self.state
    }

    /// A scheduler with no run in flight.
    pub fn new() -> (scheduler: Self)
        ensures
            scheduler.state() == SchedulerState::Idle,
    {
        RefreshScheduler { state: SchedulerState::Idle }
    }

    /// Whether a run is in flight.
    pub fn current(&self) -> (state: SchedulerState)
        ensures
            state == self.state(),
    {
        self.state
    }

    /// A startup, scheduled or manual trigger fires. When idle, the
    /// scheduler moves to running and tells the caller to start the run;
    /// when running, it stays so and tells the caller to skip.
    pub fn on_trigger(&mut self) -> (decision: Decision)
        ensures
            decision == decision_in(old(self).state()),
            final(self).state() == state_after(old(self).state(), Event::Trigger),
    {
        match self.state {
            SchedulerState::Idle => {
                self.state = SchedulerState::Running;
                Decision::Start
            },
            SchedulerState::Running => Decision::Skip,
        }
    }

    /// The run in flight has ended, whatever its outcome. The scheduler is
    /// idle again.
    pub fn on_finished(&mut self)
        ensures
            final(self).state() == state_after(old(self).state(), Event::Finished),
    {
        self.state = SchedulerState::Idle;
    }
}

/// While no run ends, triggers start at most one run, and none when a run is
/// already in flight: every further trigger is skipped.
pub proof fn lemma_single_flight(state: SchedulerState, events: Seq<Event>)
    requires
        forall|i: int| 0 <= i < events.len() ==> events[i] == Event::Trigger,
    ensures
        state == SchedulerState::Running ==> runs_started(state, events) == 0,
        state == SchedulerState::Idle && events.len() > 0 ==> runs_started(state, events) == 1,
        events.len() > 0 ==> state_after_all(state, events) == SchedulerState::Running,
    decreases events.len(),
{
    if events.len() > 0 {
        let earlier = events.drop_last();
        lemma_single_flight(state, earlier);
        if earlier.len() == 0 {
            assert(runs_started(state, earlier) == 0);
        }
    }
}

/// A run starts only from idle, so between two starts a run has ended: the
/// runs started never outnumber the runs ended by more than the one that may
/// be in flight.
pub proof fn lemma_starts_follow_finishes(state: SchedulerState, events: Seq<Event>)
    ensures
        runs_started(state, events) + in_flight(state) == runs_ended(state, events) + in_flight(
            state_after_all(state, events),
        ),
        in_flight(state_after_all(state, events)) <= 1,
    decreases events.len(),
{
    if events.len() > 0 {
        lemma_starts_follow_finishes(state, events.drop_last());
    }
}

/// How often and how patiently the first population is tried at startup.
#[derive(Clone, Copy, Debug, PartialEq, Eq, Structural)]
pub struct StartupPolicy {
    /// The number of attempts after which startup goes on without data.
    pub max_attempts: u32,
    /// The wait after the first failed attempt, in seconds; the wait after
    /// the n-th is n times as long.
    pub base_delay_secs: u64,
}

/// What to do after a startup attempt.
#[derive(Clone, Copy, Debug, PartialEq, Eq, Structural)]
pub enum StartupStep {
    /// The cache is populated.
    Ready,
    /// Wait this many seconds, then try again.
    RetryAfter { delay_secs: u64 },
    /// Stop trying and serve what is there; the schedule will try again.
    GiveUp,
}

/// The wait after the `attempt`-th failed attempt: `attempt` times the base
/// delay, capped at the largest `u64`.
pub open spec fn backoff_secs(base_delay_secs: u64, attempt: u32) -> u64 {
    if base_delay_secs * attempt <= u64::MAX {
        (base_delay_secs * attempt) as u64
    } else {
        u64::MAX
    }
}

impl StartupPolicy {
    /// The step after `attempt` attempts of which the last one `succeeded`
    /// or not.
    pub open spec fn step_after(self, attempt: u32, succeeded: bool) -> StartupStep {
        if succeeded {
            StartupStep::Ready
        } else if attempt >= self.max_attempts {
            StartupStep::GiveUp
        } else {
            StartupStep::RetryAfter { delay_secs: backoff_secs(self.base_delay_secs, attempt) }
        }
    }

    /// Three attempts, with waits of 5 and 10 seconds between them.
    pub fn standard() -> (policy: Self)
        ensures
            policy.max_attempts == 3,
            policy.base_delay_secs == 5,
    {
        StartupPolicy { max_attempts: 3, base_delay_secs: 5 }
    }

    /// Decides what follows the `attempt`-th startup attempt, counted from 1.
    /// Success ends startup. A failure is retried after a wait that grows
    /// with each attempt, until `max_attempts` attempts have been made.
    pub fn after_attempt(&self, attempt: u32, succeeded: bool) -> (step: StartupStep)
        ensures
            step == self.step_after(attempt, succeeded),
    {
        if succeeded {
            StartupStep::Ready
        } else if attempt >= self.max_attempts {
            StartupStep::GiveUp
        } else {
            let delay_secs = match self.base_delay_secs.checked_mul(attempt as u64) {
                Some(delay) => delay,
                None => u64::MAX,
            };
            StartupStep::RetryAfter { delay_secs }
        }
    }
}

/// The wait never shrinks from one failed attempt to the next.
pub proof fn lemma_backoff_grows(base_delay_secs: u64, earlier: u32, later: u32)
    requires
        earlier <= later,
    ensures
        backoff_secs(base_delay_secs, earlier) <= backoff_secs(base_delay_secs, later),
{
    assert(base_delay_secs * earlier <= base_delay_secs * later) by (nonlinear_arith)
        requires
            earlier <= later,
            0 <= base_delay_secs,
    ;
}

/// Whether every dataset of a refresh cycle got its new snapshot.
pub fn all_swapped(reports: &[RefreshReport]) -> (all: bool)
    ensures
        all == forall|i: int| 0 <= i < reports@.len() ==> (#[trigger] reports@[i]) is Swapped,
{
    let mut i: usize = 0;
    while i < reports.len()
        invariant
            i <= reports@.len(),
            forall|j: int| 0 <= j < i ==> (#[trigger] reports@[j]) is Swapped,
        decreases reports@.len() - i,
    {
        match &reports[i] {
            RefreshReport::Swapped { .. } => {},
            RefreshReport::Retained { .. } => {
                return false;
            },
        }
        i += 1;
    }
    true
}

} // verus!
