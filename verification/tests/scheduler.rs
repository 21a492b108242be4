use nomoredm::action::OutcomeKind;
use nomoredm::dispatch::{PassAction, PassEvent};
use nomoredm::registry::TenantRegistry;
use nomoredm::scheduler::{Scheduler, SchedulerAction, SchedulerPhase, DEFAULT_PERIOD_SECS};
use nomoredm::tenant::TenantId;

#[test]
fn default_period_is_twelve_hours() {
    assert_eq!(DEFAULT_PERIOD_SECS, 12 * 60 * 60);
}

#[test]
fn new_scheduler_is_idle() {
    let scheduler = Scheduler::new(43_200, 2);
    assert_eq!(scheduler.phase, SchedulerPhase::Idle);
    assert_eq!(scheduler.period_secs, 43_200);
    assert_eq!(scheduler.delay_secs, 2);
}

#[test]
fn scheduler_waits_then_dispatches_in_turn() {
    let mut registry = TenantRegistry::new();
    registry.record(TenantId(1));
    let mut scheduler = Scheduler::new(60, 2);
    assert_eq!(scheduler.start(), SchedulerAction::Sleep(60));
    assert_eq!(scheduler.phase, SchedulerPhase::Waiting(60));
    let mut round: u32 = 0;
    while round < 5 {
        let pass = scheduler.wake(&registry);
        assert!(pass.is_some());
        assert_eq!(scheduler.phase, SchedulerPhase::Dispatching);
        assert_eq!(scheduler.pass_finished(), SchedulerAction::Sleep(60));
        assert_eq!(scheduler.phase, SchedulerPhase::Waiting(60));
        round += 1;
    }
}

#[test]
fn idle_scheduler_dispatches_nothing() {
    let registry = TenantRegistry::new();
    let mut scheduler = Scheduler::new(60, 2);
    assert!(scheduler.wake(&registry).is_none());
    assert_eq!(scheduler.phase, SchedulerPhase::Idle);
    assert_eq!(scheduler.pass_finished(), SchedulerAction::Nothing);
    assert_eq!(scheduler.phase, SchedulerPhase::Idle);
}

#[test]
fn scheduler_starts_only_once() {
    let mut scheduler = Scheduler::new(60, 2);
    assert_eq!(scheduler.start(), SchedulerAction::Sleep(60));
    assert_eq!(scheduler.start(), SchedulerAction::Nothing);
    assert_eq!(scheduler.phase, SchedulerPhase::Waiting(60));
}

#[test]
fn trigger_during_a_pass_is_skipped() {
    let mut registry = TenantRegistry::new();
    registry.record(TenantId(1));
    let mut scheduler = Scheduler::new(7, 2);
    scheduler.start();
    assert!(scheduler.wake(&registry).is_some());
    assert!(scheduler.wake(&registry).is_none());
    assert!(scheduler.wake(&registry).is_none());
    assert_eq!(scheduler.phase, SchedulerPhase::Dispatching);
    assert_eq!(scheduler.pass_finished(), SchedulerAction::Sleep(7));
    assert_eq!(scheduler.pass_finished(), SchedulerAction::Nothing);
    assert!(scheduler.wake(&registry).is_some());
}

#[test]
fn wake_runs_over_the_registry_as_it_is_then() {
    let mut registry = TenantRegistry::new();
    registry.record(TenantId(10));
    registry.record(TenantId(20));
    let mut scheduler = Scheduler::new(60, 4);
    scheduler.start();
    let mut pass = scheduler.wake(&registry).unwrap();
    registry.record(TenantId(30));
    assert_eq!(pass.due(), PassAction::Call(TenantId(10)));
    assert_eq!(pass.advance(PassEvent::CallFinished(OutcomeKind::Applied)), PassAction::Pause(4));
    assert_eq!(pass.advance(PassEvent::PauseElapsed), PassAction::Call(TenantId(20)));
    assert_eq!(pass.advance(PassEvent::CallFinished(OutcomeKind::Rejected)), PassAction::Pause(4));
    assert_eq!(pass.advance(PassEvent::PauseElapsed), PassAction::Finished);
    scheduler.pass_finished();
    let mut next = scheduler.wake(&registry).unwrap();
    assert_eq!(next.due(), PassAction::Call(TenantId(10)));
    next.advance(PassEvent::CallFinished(OutcomeKind::Applied));
    next.advance(PassEvent::PauseElapsed);
    next.advance(PassEvent::CallFinished(OutcomeKind::Applied));
    assert_eq!(next.advance(PassEvent::PauseElapsed), PassAction::Call(TenantId(30)));
}

#[test]
fn wake_over_an_empty_registry_gives_an_empty_pass() {
    let registry = TenantRegistry::new();
    let mut scheduler = Scheduler::new(60, 2);
    scheduler.start();
    let pass = scheduler.wake(&registry).unwrap();
    assert_eq!(pass.due(), PassAction::Finished);
}
