use vstd::prelude::*;
use crate::action::OutcomeKind;
use crate::tenant::TenantId;

verus! {

/// Seconds of pause after each call, unless configured otherwise.
pub const DEFAULT_DELAY_SECS: u64 = 2;

/// What the driver of a pass has to do next.
#[derive(Clone, Copy, Debug, PartialEq, Eq, Structural)]
pub enum PassAction {
    /// Issue the protective action for this tenant, then report how it ended.
    Call(TenantId),
    /// Wait this many seconds, then report that the pause is over.
    Pause(u64),
    /// Every tenant has had its call and its pause.
    Finished,
}

/// What the driver reports back.
#[derive(Clone, Copy, Debug, PartialEq, Eq, Structural)]
pub enum PassEvent {
    /// The call that was due has ended in this way.
    CallFinished(OutcomeKind),
    /// The pause that was due is over.
    PauseElapsed,
}

/// How many calls ended in each way.
#[derive(Clone, Copy, Debug, PartialEq, Eq, Structural)]
pub struct PassSummary {
    pub applied: usize,
    pub rejected: usize,
    pub failed: usize,
}

/// How many of `outcomes` are of the given kind.
pub open spec fn count_of(outcomes: Seq<OutcomeKind>, kind: OutcomeKind) -> nat
    decreases outcomes.len(),
{
    if outcomes.len() == 0 {
        0
    } else {
        count_of(outcomes.drop_last(), kind) + if outcomes.last() == kind {
            1nat
        } else {
            0nat
        }
    }
}

/// One sweep over a snapshot of the registry, as a value.
///
/// `position` counts the tenants that have had both their call and their
/// pause. While `pausing`, the tenant at `position` has had its call and its
/// pause is due.
pub struct PassState {
    pub tenants: Seq<TenantId>,
    pub delay_secs: u64,
    pub position: nat,
    pub pausing: bool,
    pub outcomes: Seq<OutcomeKind>,
}

impl PassState {
    /// Where a pass over `tenants` starts.
    pub open spec fn begin(tenants: Seq<TenantId>, delay_secs: u64) -> PassState {
        PassState { tenants, delay_secs, position: 0, pausing: false, outcomes: Seq::empty() }
    }

    /// One outcome is held for each call that has ended.
    pub open spec fn wf(self) -> bool {
        &&& self.position <= self.tenants.len()
        &&& self.pausing ==> self.position < self.tenants.len()
        &&& self.outcomes.len() == self.position + if self.pausing { 1nat } else { 0nat }
    }

    /// What is to be done in this state.
    pub open spec fn due(self) -> PassAction {
        if self.position >= self.tenants.len() {
            PassAction::Finished
        } else if self.pausing {
            PassAction::Pause(self.delay_secs)
        } else {
            PassAction::Call(self.tenants[self.position as int])
        }
    }

    /// The state after `event`. An event that does not answer what is due
    /// changes nothing: a pause cannot be skipped, nor a call.
    pub open spec fn after(self, event: PassEvent) -> PassState {
        match (self.due(), event) {
            (PassAction::Call(_), PassEvent::CallFinished(kind)) => PassState {
                tenants: self.tenants,
                delay_secs: self.delay_secs,
                position: self.position,
                pausing: true,
                outcomes: self.outcomes.push(kind),
            },
            (PassAction::Pause(_), PassEvent::PauseElapsed) => PassState {
                tenants: self.tenants,
                delay_secs: self.delay_secs,
                position: self.position + 1,
                pausing: false,
                outcomes: self.outcomes,
            },
            _ => self,
        }
    }
}

/// One sweep over a snapshot of the registry: a call for each tenant, in the
/// snapshot's order, and a pause after each call.
///
/// The pass decides; its driver acts. The driver does what `due` says,
/// reports the event to `advance`, and goes on with the action that
/// `advance` returns, until that is `Finished`. How a call ended is kept and
/// never changes what is due next.
pub struct DispatchPass {
    tenants: Vec<TenantId>,
    delay_secs: u64,
    position: usize,
    pausing: bool,
    outcomes: Vec<OutcomeKind>,
}

impl View for DispatchPass {
    type V = PassState;

    closed spec fn view(&self) -> PassState {
        PassState {
            tenants: self.tenants@,
            delay_secs: self.delay_secs,
            position: self.position as nat,
            pausing: self.pausing,
            outcomes: self.outcomes@,
        }
    }
}

impl DispatchPass {
    /// A pass over `tenants` that pauses `delay_secs` seconds after each call.
    pub fn over(tenants: Vec<TenantId>, delay_secs: u64) -> (r: DispatchPass)
        ensures
            r@ == PassState::begin(tenants@, delay_secs),
            r@.wf(),
    {
        DispatchPass { tenants, delay_secs, position: 0, pausing: false, outcomes: Vec::new() }
    }

    /// What the driver has to do now.
    pub fn due(&self) -> (r: PassAction)
        ensures
            r == self@.due(),
    {
        if self.position >= self.tenants.len() {
            PassAction::Finished
        } else if self.pausing {
            PassAction::Pause(self.delay_secs)
        } else {
            PassAction::Call(self.tenants[self.position])
        }
    }

    /// Takes in what the driver reports and returns what it has to do next.
    pub fn advance(&mut self, event: PassEvent) -> (r: PassAction)
        ensures
            final(self)@ == old(self)@.after(event),
            r == final(self)@.due(),
            old(self)@.wf() ==> final(self)@.wf(),
    {
        if self.position < self.tenants.len() {
            match event {
                PassEvent::CallFinished(kind) => {
                    if !self.pausing {
                        self.outcomes.push(kind);
                        self.pausing = true;
                    }
                },
                PassEvent::PauseElapsed => {
                    if self.pausing {
                        self.position = self.position + 1;
                        self.pausing = false;
                    }
                },
            }
        }
        self.due()
    }

    /// How many of the calls made so far have ended in each way. Every call
    /// that has ended is counted once.
    pub fn summary(&self) -> (r: PassSummary)
        ensures
            r.applied == count_of(self@.outcomes, OutcomeKind::Applied),
            r.rejected == count_of(self@.outcomes, OutcomeKind::Rejected),
            r.failed == count_of(self@.outcomes, OutcomeKind::TransportFailure),
            r.applied + r.rejected + r.failed == self@.outcomes.len(),
    {
        let mut applied: usize = 0;
        let mut rejected: usize = 0;
        let mut failed: usize = 0;
        let mut i: usize = 0;
        while i < self.outcomes.len()
            invariant
                i <= self.outcomes.len(),
                applied == count_of(self.outcomes@.take(i as int), OutcomeKind::Applied),
                rejected == count_of(self.outcomes@.take(i as int), OutcomeKind::Rejected),
                failed == count_of(self.outcomes@.take(i as int), OutcomeKind::TransportFailure),
                applied + rejected + failed == i,
            decreases self.outcomes.len() - i,
        {
            proof {
                assert(self.outcomes@.take(i + 1).drop_last() =~= self.outcomes@.take(i as int));
            }
            match self.outcomes[i] {
                OutcomeKind::Applied => {
                    applied += 1;
                },
                OutcomeKind::Rejected => {
                    rejected += 1;
                },
                OutcomeKind::TransportFailure => {
                    failed += 1;
                },
            }
            i += 1;
        }
        proof {
            assert(self.outcomes@.take(self.outcomes@.len() as int) =~= self.outcomes@);
        }
        PassSummary { applied, rejected, failed }
    }

    /// How the calls made so far have ended, in the order of the calls.
    pub fn outcomes(&self) -> (r: Vec<OutcomeKind>)
        ensures
            r@ == self@.outcomes,
    {
        let mut out: Vec<OutcomeKind> = Vec::new();
        let mut i: usize = 0;
        while i < self.outcomes.len()
            invariant
                i <= self.outcomes.len(),
                out@ == self.outcomes@.take(i as int),
            decreases self.outcomes.len() - i,
        {
            out.push(self.outcomes[i]);
            proof {
                assert(self.outcomes@.take(i as int).push(self.outcomes@[i as int])
                    =~= self.outcomes@.take(i + 1));
            }
            i += 1;
        }
        proof {
            assert(self.outcomes@.take(self.outcomes@.len() as int) =~= self.outcomes@);
        }
        out
    }
}

/// The state after each of `events` in turn.
pub open spec fn run(s: PassState, events: Seq<PassEvent>) -> PassState
    decreases events.len(),
{
    if events.len() == 0 {
        s
    } else {
        run(s, events.drop_last()).after(events.last())
    }
}

/// Whatever is reported to a pass, and in whatever order: it keeps its
/// snapshot and its delay, it never goes back, and what it has recorded
/// stays recorded. The call that it asks for is always the call for the
/// tenant that follows those whose calls have ended, so that no tenant is
/// passed over and none is called twice.
pub proof fn lemma_pass_never_goes_back(s: PassState, events: Seq<PassEvent>)
    requires
        s.wf(),
    ensures
        run(s, events).wf(),
        run(s, events).tenants == s.tenants,
        run(s, events).delay_secs == s.delay_secs,
        s.position <= run(s, events).position,
        s.outcomes.is_prefix_of(run(s, events).outcomes),
        run(s, events).due() matches PassAction::Call(tenant) ==> tenant == s.tenants[run(
            s,
            events,
        ).outcomes.len() as int],
        run(s, events).due() matches PassAction::Pause(secs) ==> secs == s.delay_secs,
    decreases events.len(),
{
    if events.len() > 0 {
        lemma_pass_never_goes_back(s, events.drop_last());
    }
}

/// The actions that a driver performs from `s` on when it does what is due,
/// reports each event, and the calls it makes end as `results` say, one
/// after the other. A call for which no result is left never ends, and
/// nothing follows it.
pub open spec fn driven(s: PassState, results: Seq<OutcomeKind>) -> Seq<PassAction>
    decreases 2 * (s.tenants.len() - s.position) - if s.pausing { 1int } else { 0int },
{
    match s.due() {
        PassAction::Finished => seq![PassAction::Finished],
        PassAction::Pause(secs) => seq![PassAction::Pause(secs)] + driven(
            s.after(PassEvent::PauseElapsed),
            results,
        ),
        PassAction::Call(tenant) => if results.len() == 0 {
            seq![PassAction::Call(tenant)]
        } else {
            seq![PassAction::Call(tenant)] + driven(
                s.after(PassEvent::CallFinished(results[0])),
                results.skip(1),
            )
        },
    }
}

/// The state in which that driver comes to rest.
pub open spec fn settled(s: PassState, results: Seq<OutcomeKind>) -> PassState
    decreases 2 * (s.tenants.len() - s.position) - if s.pausing { 1int } else { 0int },
{
    match s.due() {
        PassAction::Finished => s,
        PassAction::Pause(_) => settled(s.after(PassEvent::PauseElapsed), results),
        PassAction::Call(_) => if results.len() == 0 {
            s
        } else {
            settled(s.after(PassEvent::CallFinished(results[0])), results.skip(1))
        },
    }
}

/// A full pass, written out: for each tenant in order its call and then a
/// pause, and `Finished` at the end.
pub open spec fn pass_trace(tenants: Seq<TenantId>, delay_secs: u64) -> Seq<PassAction> {
    Seq::new(
        2 * tenants.len() + 1,
        |i: int|
            if i == 2 * tenants.len() {
                PassAction::Finished
            } else if i % 2 == 0 {
                PassAction::Call(tenants[i / 2])
            } else {
                PassAction::Pause(delay_secs)
            },
    )
}

/// The tenants that a sequence of actions calls, in the order of the calls.
pub open spec fn calls_in(trace: Seq<PassAction>) -> Seq<TenantId>
    decreases trace.len(),
{
    if trace.len() == 0 {
        Seq::empty()
    } else {
        match trace.last() {
            PassAction::Call(tenant) => calls_in(trace.drop_last()).push(tenant),
            _ => calls_in(trace.drop_last()),
        }
    }
}

proof fn lemma_driven_from(s: PassState, results: Seq<OutcomeKind>)
    requires
        s.wf(),
        results.len() >= s.tenants.len() - s.outcomes.len(),
    ensures
        driven(s, results) == pass_trace(s.tenants, s.delay_secs).skip(
            2 * s.position + if s.pausing { 1int } else { 0int },
        ),
        settled(s, results).due() == PassAction::Finished,
        settled(s, results).wf(),
        settled(s, results).tenants == s.tenants,
        settled(s, results).outcomes == s.outcomes + results.take(
            s.tenants.len() - s.outcomes.len(),
        ),
    decreases 2 * (s.tenants.len() - s.position) - if s.pausing { 1int } else { 0int },
{
    let trace = pass_trace(s.tenants, s.delay_secs);
    let at = 2 * s.position + if s.pausing { 1int } else { 0int };
    let left = s.tenants.len() - s.outcomes.len();
    match s.due() {
        PassAction::Finished => {
            assert(trace.skip(at) =~= seq![PassAction::Finished]);
            assert(s.outcomes + results.take(left) =~= s.outcomes);
        },
        PassAction::Pause(secs) => {
            let next = s.after(PassEvent::PauseElapsed);
            lemma_driven_from(next, results);
            assert(trace[at] == PassAction::Pause(secs));
            assert(trace.skip(at) =~= seq![trace[at]] + trace.skip(at + 1));
        },
        PassAction::Call(tenant) => {
            let next = s.after(PassEvent::CallFinished(results[0]));
            lemma_driven_from(next, results.skip(1));
            assert(trace[at] == PassAction::Call(tenant));
            assert(trace.skip(at) =~= seq![trace[at]] + trace.skip(at + 1));
            assert(s.outcomes.push(results[0]) + results.skip(1).take(left - 1) =~= s.outcomes
                + results.take(left));
        },
    }
}

proof fn lemma_calls_in_prefix(tenants: Seq<TenantId>, delay_secs: u64, k: nat)
    requires
        k <= tenants.len(),
    ensures
        calls_in(pass_trace(tenants, delay_secs).take(2 * (k as int))) == tenants.take(k as int),
    decreases k,
{
    let trace = pass_trace(tenants, delay_secs);
    if k == 0 {
        assert(calls_in(trace.take(0)) =~= tenants.take(0));
    } else {
        lemma_calls_in_prefix(tenants, delay_secs, (k - 1) as nat);
        let with_pause = trace.take(2 * (k as int));
        let with_call = trace.take(2 * k - 1);
        let before = trace.take(2 * k - 2);
        assert(with_pause.drop_last() =~= with_call);
        assert(with_call.drop_last() =~= before);
        assert(with_pause.last() == PassAction::Pause(delay_secs));
        assert(with_call.last() == PassAction::Call(tenants[k - 1]));
        assert(calls_in(with_pause) == calls_in(with_call));
        assert(calls_in(with_call) == calls_in(before).push(tenants[k - 1]));
        assert(tenants.take(k - 1).push(tenants[k - 1]) =~= tenants.take(k as int));
    }
}

/// A pass calls every tenant of its snapshot exactly once, in the snapshot's
/// order, and pauses for the configured delay after every call, so that a
/// pause lies between any two consecutive calls. Then it is finished, and
/// it holds one outcome for each call, in the order of the calls. This is so
/// whenever each call that is made comes to an end.
pub proof fn lemma_pass_calls_every_tenant(
    tenants: Seq<TenantId>,
    delay_secs: u64,
    results: Seq<OutcomeKind>,
)
    requires
        results.len() >= tenants.len(),
    ensures
        driven(PassState::begin(tenants, delay_secs), results) == pass_trace(tenants, delay_secs),
        calls_in(pass_trace(tenants, delay_secs)) == tenants,
        pass_trace(tenants, delay_secs).last() == PassAction::Finished,
        forall|i: int|
            0 <= i < 2 * tenants.len() && #[trigger] pass_trace(tenants, delay_secs)[i] is Call
                ==> pass_trace(tenants, delay_secs)[i + 1] == PassAction::Pause(delay_secs),
        forall|k: int|
            0 <= k < tenants.len() ==> pass_trace(tenants, delay_secs)[2 * k] == PassAction::Call(
                #[trigger] tenants[k],
            ),
        settled(PassState::begin(tenants, delay_secs), results).due() == PassAction::Finished,
        settled(PassState::begin(tenants, delay_secs), results).outcomes == results.take(
            tenants.len() as int,
        ),
{
    let start = PassState::begin(tenants, delay_secs);
    let trace = pass_trace(tenants, delay_secs);
    lemma_driven_from(start, results);
    assert(trace.skip(0) =~= trace);
    assert(start.outcomes + results.take(tenants.len() as int) =~= results.take(
        tenants.len() as int,
    ));
    lemma_calls_in_prefix(tenants, delay_secs, tenants.len());
    assert(trace.drop_last() =~= trace.take(2 * (tenants.len() as int)));
    assert(tenants.take(tenants.len() as int) =~= tenants);
    assert(calls_in(trace) == calls_in(trace.drop_last()));
}

/// How the calls end does not steer a pass: over one snapshot the same
/// actions are performed whatever the outcomes are. A failure or a rejection
/// for one tenant takes no call from any tenant after it.
pub proof fn lemma_outcomes_do_not_steer(
    tenants: Seq<TenantId>,
    delay_secs: u64,
    first: Seq<OutcomeKind>,
    second: Seq<OutcomeKind>,
)
    requires
        first.len() >= tenants.len(),
        second.len() >= tenants.len(),
    ensures
        driven(PassState::begin(tenants, delay_secs), first) == driven(
            PassState::begin(tenants, delay_secs),
            second,
        ),
{
    lemma_pass_calls_every_tenant(tenants, delay_secs, first);
    lemma_pass_calls_every_tenant(tenants, delay_secs, second);
}

} // verus!
