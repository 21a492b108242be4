use vstd::prelude::*;
use crate::dispatch::{DispatchPass, PassState};
use crate::registry::TenantRegistry;

verus! {

/// Seconds between two passes, unless configured otherwise: 12 hours.
pub const DEFAULT_PERIOD_SECS: u64 = 43_200;

/// Where the periodic loop stands.
#[derive(Clone, Copy, Debug, PartialEq, Eq, Structural)]
pub enum SchedulerPhase {
    /// Not started yet.
    Idle,
    /// Sleeping for this many seconds until the next pass.
    Waiting(u64),
    /// A pass over the registry is running.
    Dispatching,
}

/// What happens to the periodic loop.
#[derive(Clone, Copy, Debug, PartialEq, Eq, Structural)]
pub enum SchedulerEvent {
    /// The loop is started.
    Started,
    /// The wait is over, or a recurring trigger has fired.
    TimerElapsed,
    /// The running pass has finished.
    PassFinished,
}

/// What the driver of the loop has to do.
#[derive(Clone, Copy, Debug, PartialEq, Eq, Structural)]
pub enum SchedulerAction {
    /// Sleep this many seconds, then report `TimerElapsed`.
    Sleep(u64),
    /// Run a pass over the registry as it is now, then report `PassFinished`.
    Dispatch,
    /// The event asks for nothing.
    Nothing,
}

/// The periodic loop as a state machine: `Idle`, then `Waiting` and
/// `Dispatching` in turn, for ever.
///
/// Passes never overlap: a trigger that fires while a pass is running is
/// skipped, and the next pass starts only after the running one has
/// finished and the wait after it is over.
#[derive(Clone, Copy, Debug, PartialEq, Eq, Structural)]
pub struct Scheduler {
    pub phase: SchedulerPhase,
    /// Seconds to wait between two passes.
    pub period_secs: u64,
    /// Seconds to pause after each call within a pass.
    pub delay_secs: u64,
}

impl Scheduler {
    /// What `event` asks of the driver in this state.
    pub open spec fn asks(self, event: SchedulerEvent) -> SchedulerAction {
        match (self.phase, event) {
            (SchedulerPhase::Idle, SchedulerEvent::Started) => SchedulerAction::Sleep(
                self.period_secs,
            ),
            (SchedulerPhase::Waiting(_), SchedulerEvent::TimerElapsed) => SchedulerAction::Dispatch,
            (SchedulerPhase::Dispatching, SchedulerEvent::PassFinished) => SchedulerAction::Sleep(
                self.period_secs,
            ),
            _ => SchedulerAction::Nothing,
        }
    }

    /// The state after `event`. An event that asks for nothing changes
    /// nothing.
    pub open spec fn after(self, event: SchedulerEvent) -> Scheduler {
        match self.asks(event) {
            SchedulerAction::Sleep(secs) => Scheduler {
                phase: SchedulerPhase::Waiting(secs),
                period_secs: self.period_secs,
                delay_secs: self.delay_secs,
            },
            SchedulerAction::Dispatch => Scheduler {
                phase: SchedulerPhase::Dispatching,
                period_secs: self.period_secs,
                delay_secs: self.delay_secs,
            },
            SchedulerAction::Nothing => self,
        }
    }

    /// A loop that has not started.
    pub fn new(period_secs: u64, delay_secs: u64) -> (r: Scheduler)
        ensures
            r.phase == SchedulerPhase::Idle,
            r.period_secs == period_secs,
            r.delay_secs == delay_secs,
    {
        Scheduler { phase: SchedulerPhase::Idle, period_secs, delay_secs }
    }

    /// Starts the loop: the first wait begins.
    pub fn start(&mut self) -> (r: SchedulerAction)
        ensures
            r == old(self).asks(SchedulerEvent::Started),
            *final(self) == old(self).after(SchedulerEvent::Started),
    {
        match self.phase {
            SchedulerPhase::Idle => {
                self.phase = SchedulerPhase::Waiting(self.period_secs);
                SchedulerAction::Sleep(self.period_secs)
            },
            _ => SchedulerAction::Nothing,
        }
    }

    /// The wait is over. Where a pass is due, takes the snapshot of the
    /// registry and returns the pass over it; where one is still running or
    /// the loop has not started, returns nothing and changes nothing.
    pub fn wake(&mut self, registry: &TenantRegistry) -> (r: Option<DispatchPass>)
        ensures
            *final(self) == old(self).after(SchedulerEvent::TimerElapsed),
            r is Some <==> old(self).asks(SchedulerEvent::TimerElapsed)
                == SchedulerAction::Dispatch,
            r matches Some(pass) ==> pass@ == PassState::begin(registry@, old(self).delay_secs)
                && pass@.wf(),
    {
        match self.phase {
            SchedulerPhase::Waiting(_) => {
                self.phase = SchedulerPhase::Dispatching;
                Some(DispatchPass::over(registry.snapshot(), self.delay_secs))
            },
            _ => None,
        }
    }

    /// The running pass has finished: the next wait begins.
    pub fn pass_finished(&mut self) -> (r: SchedulerAction)
        ensures
            r == old(self).asks(SchedulerEvent::PassFinished),
            *final(self) == old(self).after(SchedulerEvent::PassFinished),
    {
        match self.phase {
            SchedulerPhase::Dispatching => {
                self.phase = SchedulerPhase::Waiting(self.period_secs);
                SchedulerAction::Sleep(self.period_secs)
            },
            _ => SchedulerAction::Nothing,
        }
    }
}

/// The state after each of `events` in turn.
pub open spec fn run(s: Scheduler, events: Seq<SchedulerEvent>) -> Scheduler
    decreases events.len(),
{
    if events.len() == 0 {
        s
    } else {
        run(s, events.drop_last()).after(events.last())
    }
}

/// Once started, the loop never stops and never goes back: after any
/// events whatever it is waiting or dispatching, with the period and the
/// delay it was made with, and there is an event that moves it on.
pub proof fn lemma_started_loop_runs_for_ever(s: Scheduler, events: Seq<SchedulerEvent>)
    requires
        s.phase != SchedulerPhase::Idle,
        s.phase matches SchedulerPhase::Waiting(secs) ==> secs == s.period_secs,
    ensures
        run(s, events).period_secs == s.period_secs,
        run(s, events).delay_secs == s.delay_secs,
        run(s, events).phase == SchedulerPhase::Waiting(s.period_secs) || run(s, events).phase
            == SchedulerPhase::Dispatching,
        run(s, events).phase == SchedulerPhase::Waiting(s.period_secs) ==> run(s, events).asks(
            SchedulerEvent::TimerElapsed,
        ) == SchedulerAction::Dispatch,
        run(s, events).phase == SchedulerPhase::Dispatching ==> run(s, events).asks(
            SchedulerEvent::PassFinished,
        ) == SchedulerAction::Sleep(s.period_secs),
    decreases events.len(),
{
    if events.len() > 0 {
        lemma_started_loop_runs_for_ever(s, events.drop_last());
    }
}

/// Passes do not overlap: while one is running a trigger asks for nothing
/// and changes nothing, and only the end of the pass opens the next wait.
pub proof fn lemma_passes_do_not_overlap(s: Scheduler)
    requires
        s.phase == SchedulerPhase::Dispatching,
    ensures
        s.asks(SchedulerEvent::TimerElapsed) == SchedulerAction::Nothing,
        s.after(SchedulerEvent::TimerElapsed) == s,
        s.after(SchedulerEvent::Started) == s,
        s.after(SchedulerEvent::PassFinished).phase == SchedulerPhase::Waiting(s.period_secs),
{
}

} // verus!
