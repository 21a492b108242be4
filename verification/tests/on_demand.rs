use nomoredm::action::{
    classify, prepare_at, Endpoint, ProtectiveActionRequest, ProtectiveActionResult, Verb,
};
use nomoredm::credential::CredentialStore;
use nomoredm::instant::Instant;
use nomoredm::on_demand::{command, report_for, HandlerAction, HandlerEvent, OnDemandHandler, Report};
use nomoredm::tenant::TenantId;

fn handle(tenant: u64, answer: Result<ProtectiveActionRequest, String>) -> (Vec<&'static str>, Option<ProtectiveActionResult>, Option<Report>) {
    let store = CredentialStore::set(Some(String::from("T1"))).unwrap();
    let endpoint = Endpoint { base_url: String::from("http://stub"), verb: Verb::Put };
    let mut handler = OnDemandHandler::accept("instant", Some(TenantId(tenant))).unwrap();
    let mut log = Vec::new();
    let mut report = None;
    let mut answer = Some(answer);
    let mut action = handler.due();
    loop {
        match action {
            HandlerAction::Acknowledge => {
                log.push("acknowledge");
                action = handler.advance(HandlerEvent::AckSent);
            }
            HandlerAction::Call(to) => {
                log.push("call");
                assert_eq!(to, TenantId(tenant));
                let call = prepare_at(&endpoint, to, &store, Instant { secs: 1_700_000_000, nanos: 0 })
                    .unwrap();
                assert_eq!(call.authorization, "Bearer T1");
                assert_eq!(call.url, format!("http://stub/tenants/{}/incident-actions", tenant));
                let result = classify(answer.take().unwrap());
                action = handler.advance(HandlerEvent::CallFinished(result));
            }
            HandlerAction::Deliver(r) => {
                log.push("deliver");
                report = Some(r);
                action = handler.advance(HandlerEvent::ReportSent);
            }
            HandlerAction::Done => {
                return (log, handler.result(), report);
            }
        }
    }
}

#[test]
fn command_is_named_instant() {
    assert_eq!(command(), "instant");
}

#[test]
fn confirmed_call_is_applied_and_acknowledged_first() {
    let answer = ProtectiveActionRequest {
        invites_disabled_until: None,
        dms_disabled_until: Some(String::from("2999-01-01T00:00:00+00:00")),
    };
    let (log, result, report) = handle(42, Ok(answer));
    assert_eq!(result, Some(ProtectiveActionResult::Applied));
    assert_eq!(log, vec!["acknowledge", "call", "deliver"]);
    let report = report.unwrap();
    assert!(report.success);
    assert_eq!(report.title, "Success");
    assert_eq!(report.description, "Enabled security actions for 24 hours.");
}

#[test]
fn unconfirmed_call_is_rejected_and_points_at_permissions() {
    let answer = ProtectiveActionRequest { invites_disabled_until: None, dms_disabled_until: None };
    let (log, result, report) = handle(42, Ok(answer));
    assert_eq!(result, Some(ProtectiveActionResult::Rejected));
    assert_eq!(log, vec!["acknowledge", "call", "deliver"]);
    let report = report.unwrap();
    assert!(!report.success);
    assert_eq!(report.title, "Error");
    assert_eq!(
        report.description,
        "Failed to enable security actions. Maybe permissions are missing?"
    );
    assert!(report.description.contains("permissions"));
}

#[test]
fn failed_call_reports_the_cause() {
    let (log, result, report) = handle(42, Err(String::from("connection refused")));
    assert_eq!(
        result,
        Some(ProtectiveActionResult::TransportFailure(String::from("connection refused")))
    );
    assert_eq!(log, vec!["acknowledge", "call", "deliver"]);
    let report = report.unwrap();
    assert!(!report.success);
    assert_eq!(report.title, "Error");
    assert_eq!(
        report.description,
        "Failed to enable security actions. Transport error: connection refused"
    );
}

#[test]
fn report_for_each_result() {
    assert_eq!(
        report_for(&ProtectiveActionResult::Applied),
        Report {
            success: true,
            title: String::from("Success"),
            description: String::from("Enabled security actions for 24 hours."),
        }
    );
    assert_eq!(
        report_for(&ProtectiveActionResult::Rejected),
        Report {
            success: false,
            title: String::from("Error"),
            description: String::from(
                "Failed to enable security actions. Maybe permissions are missing?"
            ),
        }
    );
    assert_eq!(
        report_for(&ProtectiveActionResult::TransportFailure(String::from("timed out"))),
        Report {
            success: false,
            title: String::from("Error"),
            description: String::from(
                "Failed to enable security actions. Transport error: timed out"
            ),
        }
    );
}

#[test]
fn other_commands_are_ignored() {
    assert!(OnDemandHandler::accept("instan", Some(TenantId(42))).is_none());
    assert!(OnDemandHandler::accept("instant ", Some(TenantId(42))).is_none());
    assert!(OnDemandHandler::accept("Instant", Some(TenantId(42))).is_none());
    assert!(OnDemandHandler::accept("", Some(TenantId(42))).is_none());
    assert!(OnDemandHandler::accept("instant", Some(TenantId(42))).is_some());
}

#[test]
fn command_without_tenant_is_ignored() {
    assert!(OnDemandHandler::accept("instant", None).is_none());
    assert!(OnDemandHandler::accept("other", None).is_none());
}

#[test]
fn nothing_is_called_before_the_acknowledgement() {
    let mut handler = OnDemandHandler::accept("instant", Some(TenantId(42))).unwrap();
    assert_eq!(handler.due(), HandlerAction::Acknowledge);
    assert_eq!(
        handler.advance(HandlerEvent::CallFinished(ProtectiveActionResult::Applied)),
        HandlerAction::Acknowledge
    );
    assert_eq!(handler.result(), None);
    assert_eq!(handler.advance(HandlerEvent::ReportSent), HandlerAction::Acknowledge);
    assert_eq!(handler.advance(HandlerEvent::AckSent), HandlerAction::Call(TenantId(42)));
    assert_eq!(handler.advance(HandlerEvent::AckSent), HandlerAction::Call(TenantId(42)));
    assert_eq!(handler.result(), None);
}

#[test]
fn only_the_first_result_counts() {
    let mut handler = OnDemandHandler::accept("instant", Some(TenantId(42))).unwrap();
    handler.advance(HandlerEvent::AckSent);
    let first = handler.advance(HandlerEvent::CallFinished(ProtectiveActionResult::Rejected));
    assert_eq!(first, HandlerAction::Deliver(report_for(&ProtectiveActionResult::Rejected)));
    let second = handler.advance(HandlerEvent::CallFinished(ProtectiveActionResult::Applied));
    assert_eq!(second, first);
    assert_eq!(handler.result(), Some(ProtectiveActionResult::Rejected));
    assert_eq!(handler.advance(HandlerEvent::ReportSent), HandlerAction::Done);
    assert_eq!(handler.advance(HandlerEvent::ReportSent), HandlerAction::Done);
    assert_eq!(handler.result(), Some(ProtectiveActionResult::Rejected));
}
