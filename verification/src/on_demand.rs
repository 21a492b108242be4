use vstd::prelude::*;
use vstd::string::StringExecFns;
use crate::action::{OutcomeView, ProtectiveActionResult};
use crate::tenant::TenantId;

verus! {

/// The name of the command that asks for the protective action at once.
pub open spec fn command_name() -> Seq<char> {
    "instant"@
}

/// The name of the command that asks for the protective action at once.
pub fn command() -> (r: &'static str)
    ensures
        r@ == command_name(),
{
    "instant"
}

/// What the caller of the command is told in the end.
#[derive(Clone, Debug, PartialEq, Eq)]
pub struct Report {
    pub success: bool,
    pub title: String,
    pub description: String,
}

pub struct ReportView {
    pub success: bool,
    pub title: Seq<char>,
    pub description: Seq<char>,
}

impl View for Report {
    type V = ReportView;

    open spec fn view(&self) -> ReportView {
        ReportView { success: self.success, title: self.title@, description: self.description@ }
    }
}

/// The report for a result. A rejection points at the permission that is
/// likely missing; a transport failure names its cause.
pub open spec fn report_of(outcome: OutcomeView) -> ReportView {
    match outcome {
        OutcomeView::Applied => ReportView {
            success: true,
            title: "Success"@,
            description: "Enabled security actions for 24 hours."@,
        },
        OutcomeView::Rejected => ReportView {
            success: false,
            title: "Error"@,
            description: "Failed to enable security actions. Maybe permissions are missing?"@,
        },
        OutcomeView::TransportFailure(cause) => ReportView {
            success: false,
            title: "Error"@,
            description: "Failed to enable security actions. Transport error: "@ + cause,
        },
    }
}

/// The report for a result.
pub fn report_for(result: &ProtectiveActionResult) -> (r: Report)
    ensures
        r@ == report_of(result@),
{
    match result {
        ProtectiveActionResult::Applied => Report {
            success: true,
            title: "Success".to_owned(),
            description: "Enabled security actions for 24 hours.".to_owned(),
        },
        ProtectiveActionResult::Rejected => Report {
            success: false,
            title: "Error".to_owned(),
            description: "Failed to enable security actions. Maybe permissions are missing?".to_owned(),
        },
        ProtectiveActionResult::TransportFailure(cause) => {
            let mut description =
                "Failed to enable security actions. Transport error: ".to_owned();
            description.append(cause.as_str());
            Report { success: false, title: "Error".to_owned(), description }
        },
    }
}

/// What the handler's driver reports back.
#[derive(Clone, Debug, PartialEq, Eq)]
pub enum HandlerEvent {
    /// The acknowledgement has gone out.
    AckSent,
    /// The one call has ended in this way.
    CallFinished(ProtectiveActionResult),
    /// The report has gone out.
    ReportSent,
}

pub enum EventView {
    AckSent,
    CallFinished(OutcomeView),
    ReportSent,
}

impl View for HandlerEvent {
    type V = EventView;

    open spec fn view(&self) -> EventView {
        match *self {
            HandlerEvent::AckSent => EventView::AckSent,
            HandlerEvent::CallFinished(result) => EventView::CallFinished(result@),
            HandlerEvent::ReportSent => EventView::ReportSent,
        }
    }
}

/// What the handler's driver has to do next.
#[derive(Clone, Debug, PartialEq, Eq)]
pub enum HandlerAction {
    /// Tell the caller at once that the command was received.
    Acknowledge,
    /// Issue the protective action for this tenant, once and without pause.
    Call(TenantId),
    /// Tell the caller how it ended.
    Deliver(Report),
    /// Nothing is left to do.
    Done,
}

pub enum ActionView {
    Acknowledge,
    Call(TenantId),
    Deliver(ReportView),
    Done,
}

impl View for HandlerAction {
    type V = ActionView;

    open spec fn view(&self) -> ActionView {
        match *self {
            HandlerAction::Acknowledge => ActionView::Acknowledge,
            HandlerAction::Call(tenant) => ActionView::Call(tenant),
            HandlerAction::Deliver(report) => ActionView::Deliver(report@),
            HandlerAction::Done => ActionView::Done,
        }
    }
}

/// How far the handling of one command has come.
pub enum HandlerPhase {
    /// The command has come in.
    Received,
    /// The caller knows that it was received.
    Acknowledged,
    /// The call has ended; its report is due.
    Answered(OutcomeView),
    /// The caller has the report.
    Delivered(OutcomeView),
}

/// The handling of one command, as a value.
pub struct HandlerState {
    pub tenant: TenantId,
    pub phase: HandlerPhase,
}

impl HandlerState {
    /// Where the handling of a command for `tenant` starts.
    pub open spec fn received(tenant: TenantId) -> HandlerState {
        HandlerState { tenant, phase: HandlerPhase::Received }
    }

    /// What is to be done in this state.
    pub open spec fn due(self) -> ActionView {
        match self.phase {
            HandlerPhase::Received => ActionView::Acknowledge,
            HandlerPhase::Acknowledged => ActionView::Call(self.tenant),
            HandlerPhase::Answered(outcome) => ActionView::Deliver(report_of(outcome)),
            HandlerPhase::Delivered(_) => ActionView::Done,
        }
    }

    /// The state after `event`. An event that does not answer what is due
    /// changes nothing.
    pub open spec fn after(self, event: EventView) -> HandlerState {
        match (self.phase, event) {
            (HandlerPhase::Received, EventView::AckSent) => HandlerState {
                tenant: self.tenant,
                phase: HandlerPhase::Acknowledged,
            },
            (HandlerPhase::Acknowledged, EventView::CallFinished(outcome)) => HandlerState {
                tenant: self.tenant,
                phase: HandlerPhase::Answered(outcome),
            },
            (HandlerPhase::Answered(outcome), EventView::ReportSent) => HandlerState {
                tenant: self.tenant,
                phase: HandlerPhase::Delivered(outcome),
            },
            _ => self,
        }
    }

    /// The result of the one call, once it has ended.
    pub open spec fn result(self) -> Option<OutcomeView> {
        match self.phase {
            HandlerPhase::Answered(outcome) => Some(outcome),
            HandlerPhase::Delivered(outcome) => Some(outcome),
            _ => None,
        }
    }
}

enum Phase {
    Received,
    Acknowledged,
    Answered(ProtectiveActionResult),
    Delivered(ProtectiveActionResult),
}

/// The handling of one command for one tenant, in two phases: first the
/// acknowledgement, then a single call and the report of its result.
///
/// The handler decides; its driver acts. The driver does what `due` says,
/// reports the event to `advance`, and goes on with the action that
/// `advance` returns, until that is `Done`.
pub struct OnDemandHandler {
    tenant: TenantId,
    phase: Phase,
}

impl View for OnDemandHandler {
    type V = HandlerState;

    closed spec fn view(&self) -> HandlerState {
        HandlerState {
            tenant: self.tenant,
            phase: match self.phase {
                Phase::Received => HandlerPhase::Received,
                Phase::Acknowledged => HandlerPhase::Acknowledged,
                Phase::Answered(result) => HandlerPhase::Answered(result@),
                Phase::Delivered(result) => HandlerPhase::Delivered(result@),
            },
        }
    }
}

fn copy_of(result: &ProtectiveActionResult) -> (r: ProtectiveActionResult)
    ensures
        r@ == result@,
{
    match result {
        ProtectiveActionResult::Applied => ProtectiveActionResult::Applied,
        ProtectiveActionResult::Rejected => ProtectiveActionResult::Rejected,
        ProtectiveActionResult::TransportFailure(cause) => ProtectiveActionResult::TransportFailure(
            cause.clone(),
        ),
    }
}

impl OnDemandHandler {
    /// Takes up a command. Only the command named `instant` is handled, and
    /// only where it says which tenant it is for: anything else is ignored.
    pub fn accept(name: &str, tenant: Option<TenantId>) -> (r: Option<OnDemandHandler>)
        ensures
            r is Some <==> name@ == command_name() && tenant is Some,
            r matches Some(handler) ==> handler@ == HandlerState::received(tenant->0),
    {
        let wanted = command().to_owned();
        let given = name.to_owned();
        match tenant {
            Some(tenant) => {
                if given.eq(&wanted) {
                    Some(OnDemandHandler { tenant, phase: Phase::Received })
                } else {
                    None
                }
            },
            None => None,
        }
    }

    /// What the driver has to do now.
    pub fn due(&self) -> (r: HandlerAction)
        ensures
            r@ == self@.due(),
    {
        match &self.phase {
            Phase::Received => HandlerAction::Acknowledge,
            Phase::Acknowledged => HandlerAction::Call(self.tenant),
            Phase::Answered(result) => HandlerAction::Deliver(report_for(result)),
            Phase::Delivered(_) => HandlerAction::Done,
        }
    }

    /// Takes in what the driver reports and returns what it has to do next.
    pub fn advance(&mut self, event: HandlerEvent) -> (r: HandlerAction)
        ensures
            final(self)@ == old(self)@.after(event@),
            r@ == final(self)@.due(),
    {
        let next = match (&self.phase, event) {
            (Phase::Received, HandlerEvent::AckSent) => Some(Phase::Acknowledged),
            (Phase::Acknowledged, HandlerEvent::CallFinished(result)) => Some(
                Phase::Answered(result),
            ),
            (Phase::Answered(result), HandlerEvent::ReportSent) => Some(
                Phase::Delivered(copy_of(result)),
            ),
            _ => None,
        };
        match next {
            Some(phase) => {
                self.phase = phase;
            },
            None => {},
        }
        self.due()
    }

    /// The result of the one call, once it has ended.
    pub fn result(&self) -> (r: Option<ProtectiveActionResult>)
        ensures
            match r {
                Some(result) => self@.result() == Some(result@),
                None => self@.result() is None,
            },
    {
        match &self.phase {
            Phase::Answered(result) => Some(copy_of(result)),
            Phase::Delivered(result) => Some(copy_of(result)),
            _ => None,
        }
    }
}

/// The state after each of `events` in turn.
pub open spec fn run(s: HandlerState, events: Seq<EventView>) -> HandlerState
    decreases events.len(),
{
    if events.len() == 0 {
        s
    } else {
        run(s, events.drop_last()).after(events.last())
    }
}

/// How far a phase is on the way from the command to its report.
pub open spec fn progress(phase: HandlerPhase) -> nat {
    match phase {
        HandlerPhase::Received => 0,
        HandlerPhase::Acknowledged => 1,
        HandlerPhase::Answered(_) => 2,
        HandlerPhase::Delivered(_) => 3,
    }
}

/// A handler never goes back, whatever is reported to it: it stays with its
/// tenant, and once its one call has ended the result stands. No later
/// report changes it, and no second call is asked for.
pub proof fn lemma_handler_never_goes_back(s: HandlerState, events: Seq<EventView>)
    ensures
        run(s, events).tenant == s.tenant,
        progress(s.phase) <= progress(run(s, events).phase),
        s.result() is Some ==> run(s, events).result() == s.result() && !(run(s, events).due()
            is Call),
    decreases events.len(),
{
    if events.len() > 0 {
        lemma_handler_never_goes_back(s, events.drop_last());
    }
}

/// Among `events`, an acknowledgement has gone out.
pub open spec fn acknowledged(events: Seq<EventView>) -> bool {
    exists|i: int| 0 <= i < events.len() && #[trigger] events[i] == EventView::AckSent
}

/// Among `events`, an acknowledgement has gone out and, later, a call has
/// ended with `outcome`.
pub open spec fn answered_after_acknowledgement(
    events: Seq<EventView>,
    outcome: OutcomeView,
) -> bool {
    exists|i: int, j: int|
        0 <= i < j < events.len() && #[trigger] events[i] == EventView::AckSent
            && #[trigger] events[j] == EventView::CallFinished(outcome)
}

/// The acknowledgement comes first: whatever is reported to a handler, and
/// in whatever order, it asks for the call only once the acknowledgement has
/// gone out, and it holds a result and asks for its report only once that
/// call has ended after the acknowledgement. The report it then asks for is
/// the report of that result. The tenant never changes.
pub proof fn lemma_acknowledgement_comes_first(tenant: TenantId, events: Seq<EventView>)
    ensures
        run(HandlerState::received(tenant), events).tenant == tenant,
        run(HandlerState::received(tenant), events).phase !is Received ==> acknowledged(events),
        run(HandlerState::received(tenant), events).result() matches Some(outcome)
            ==> answered_after_acknowledgement(events, outcome),
        run(HandlerState::received(tenant), events).due() matches ActionView::Deliver(report)
            ==> run(HandlerState::received(tenant), events).result() matches Some(outcome)
            && report == report_of(outcome),
    decreases events.len(),
{
    let start = HandlerState::received(tenant);
    if events.len() > 0 {
        let earlier = events.drop_last();
        let before = run(start, earlier);
        let now = run(start, events);
        let last = events.len() - 1;
        lemma_acknowledgement_comes_first(tenant, earlier);
        if acknowledged(earlier) {
            let i = choose|i: int|
                0 <= i < earlier.len() && #[trigger] earlier[i] == EventView::AckSent;
            assert(events[i] == EventView::AckSent);
        }
        if now.phase !is Received && before.phase is Received {
            assert(events[last] == EventView::AckSent);
        }
        if let Some(outcome) = now.result() {
            if before.result() is Some {
                assert(before.result() == Some(outcome));
                let (i, j) = choose|i: int, j: int|
                    0 <= i < j < earlier.len() && #[trigger] earlier[i] == EventView::AckSent
                        && #[trigger] earlier[j] == EventView::CallFinished(outcome);
                assert(events[i] == EventView::AckSent);
                assert(events[j] == EventView::CallFinished(outcome));
            } else {
                assert(before.phase is Acknowledged);
                let i = choose|i: int|
                    0 <= i < earlier.len() && #[trigger] earlier[i] == EventView::AckSent;
                assert(events[i] == EventView::AckSent);
                assert(events[last] == EventView::CallFinished(outcome));
            }
        }
    }
}

} // verus!
