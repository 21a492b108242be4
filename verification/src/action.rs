use vstd::prelude::*;
use vstd::string::StringExecFns;
use crate::credential::CredentialStore;
use crate::instant::{clock_now, lemma_later_start_later_end, rfc3339_text, rfc3339_utc, Instant};
use crate::tenant::TenantId;
use crate::text::{append_decimal, decimal, text_of};

verus! {

/// Seconds after which the caller gives up on one outbound call.
pub const CALL_TIMEOUT_SECS: u64 = 30;

/// How the request is sent. Both are idempotent on the remote side.
#[derive(Clone, Copy, Debug, PartialEq, Eq, Structural)]
pub enum Verb {
    Put,
    Post,
}

/// Where the remote control plane is reached and how it is addressed.
#[derive(Clone, Debug)]
pub struct Endpoint {
    /// Scheme, host and any path prefix, without a trailing slash.
    pub base_url: String,
    pub verb: Verb,
}

pub struct EndpointView {
    pub base_url: Seq<char>,
    pub verb: Verb,
}

impl View for Endpoint {
    type V = EndpointView;

    open spec fn view(&self) -> EndpointView {
        EndpointView { base_url: self.base_url@, verb: self.verb }
    }
}

/// The payload of the protective action, sent and received in the same
/// shape. An absent field means "no change" when sent and "not active" when
/// received; a present one holds the moment at which the restriction lifts.
#[derive(Clone, Debug, PartialEq, Eq)]
pub struct ProtectiveActionRequest {
    pub invites_disabled_until: Option<String>,
    pub dms_disabled_until: Option<String>,
}

pub struct RequestView {
    pub invites_disabled_until: Option<Seq<char>>,
    pub dms_disabled_until: Option<Seq<char>>,
}

impl View for ProtectiveActionRequest {
    type V = RequestView;

    open spec fn view(&self) -> RequestView {
        RequestView {
            invites_disabled_until: text_of(self.invites_disabled_until),
            dms_disabled_until: text_of(self.dms_disabled_until),
        }
    }
}

/// How one call of the protective action ended.
#[must_use]
#[derive(Clone, Debug, PartialEq, Eq)]
pub enum ProtectiveActionResult {
    /// The remote side confirmed the restriction with an expiry.
    Applied,
    /// The remote side answered without confirming, as it does when the
    /// caller lacks the permission on that tenant.
    Rejected,
    /// The call could not be sent or its answer could not be read.
    TransportFailure(String),
}

pub enum OutcomeView {
    Applied,
    Rejected,
    TransportFailure(Seq<char>),
}

impl View for ProtectiveActionResult {
    type V = OutcomeView;

    open spec fn view(&self) -> OutcomeView {
        match *self {
            ProtectiveActionResult::Applied => OutcomeView::Applied,
            ProtectiveActionResult::Rejected => OutcomeView::Rejected,
            ProtectiveActionResult::TransportFailure(cause) => OutcomeView::TransportFailure(
                cause@,
            ),
        }
    }
}

/// A result without its cause.
#[derive(Clone, Copy, Debug, PartialEq, Eq, Structural)]
pub enum OutcomeKind {
    Applied,
    Rejected,
    TransportFailure,
}

/// The kind of a result.
pub open spec fn kind_of(outcome: OutcomeView) -> OutcomeKind {
    match outcome {
        OutcomeView::Applied => OutcomeKind::Applied,
        OutcomeView::Rejected => OutcomeKind::Rejected,
        OutcomeView::TransportFailure(_) => OutcomeKind::TransportFailure,
    }
}

impl ProtectiveActionResult {
    /// The kind of this result.
    pub fn kind(&self) -> (r: OutcomeKind)
        ensures
            r == kind_of(self@),
    {
        match self {
            ProtectiveActionResult::Applied => OutcomeKind::Applied,
            ProtectiveActionResult::Rejected => OutcomeKind::Rejected,
            ProtectiveActionResult::TransportFailure(_) => OutcomeKind::TransportFailure,
        }
    }
}

/// One outbound call, ready to be sent.
#[derive(Clone, Debug)]
pub struct OutboundCall {
    pub verb: Verb,
    pub url: String,
    /// Value of the `Authorization` header.
    pub authorization: String,
    pub body: ProtectiveActionRequest,
    pub timeout_secs: u64,
}

pub struct CallView {
    pub verb: Verb,
    pub url: Seq<char>,
    pub authorization: Seq<char>,
    pub body: RequestView,
    pub timeout_secs: u64,
}

impl View for OutboundCall {
    type V = CallView;

    open spec fn view(&self) -> CallView {
        CallView {
            verb: self.verb,
            url: self.url@,
            authorization: self.authorization@,
            body: self.body@,
            timeout_secs: self.timeout_secs,
        }
    }
}

/// The address of a tenant's incident actions under `base`.
pub open spec fn endpoint_url(base: Seq<char>, tenant: TenantId) -> Seq<char> {
    base + "/tenants/"@ + decimal(tenant.0 as nat) + "/incident-actions"@
}

/// The `Authorization` header value for a credential.
pub open spec fn bearer(credential: Seq<char>) -> Seq<char> {
    "Bearer "@ + credential
}

/// The request that restricts direct messages until the moment written in
/// `expiry_text` and leaves invitations as they are.
pub open spec fn window_request(expiry_text: Seq<char>) -> RequestView {
    RequestView { invites_disabled_until: None, dms_disabled_until: Some(expiry_text) }
}

/// The cause that is reported where the expiry cannot be written as a date.
pub open spec fn unwritable_expiry() -> Seq<char> {
    "the expiry lies outside the calendar"@
}

/// The call for `tenant` that asks for the restriction to last until the
/// moment written in `expiry_text`. Where there is no such text the request
/// cannot be written, which is a transport failure.
pub open spec fn assembled(
    endpoint: EndpointView,
    tenant: TenantId,
    credential: Seq<char>,
    expiry_text: Option<Seq<char>>,
) -> Result<CallView, OutcomeView> {
    match expiry_text {
        Some(text) => Ok(
            CallView {
                verb: endpoint.verb,
                url: endpoint_url(endpoint.base_url, tenant),
                authorization: bearer(credential),
                body: window_request(text),
                timeout_secs: CALL_TIMEOUT_SECS,
            },
        ),
        None => Err(OutcomeView::TransportFailure(unwritable_expiry())),
    }
}

/// The text of the moment 24 hours after `now`, where that moment can be
/// written as a date.
pub open spec fn expiry_text_at(now: Instant) -> Option<Seq<char>> {
    match now.window_end() {
        Some(end) => rfc3339_utc(end.secs, end.nanos),
        None => None,
    }
}

/// The call that is made for `tenant` at the moment `now`: the restriction
/// is to last 24 hours from `now`.
pub open spec fn planned(
    endpoint: EndpointView,
    tenant: TenantId,
    credential: Seq<char>,
    now: Instant,
) -> Result<CallView, OutcomeView> {
    assembled(endpoint, tenant, credential, expiry_text_at(now))
}

/// A prepared call, or the failure to prepare one, as a value.
pub open spec fn prepared_view(r: Result<OutboundCall, ProtectiveActionResult>) -> Result<
    CallView,
    OutcomeView,
> {
    match r {
        Ok(call) => Ok(call@),
        Err(failure) => Err(failure@),
    }
}

/// An answer confirms the restriction when it holds an expiry for direct
/// messages and that expiry is not empty.
pub open spec fn confirms(answer: RequestView) -> bool {
    answer.dms_disabled_until matches Some(expiry) && expiry.len() > 0
}

/// The result that a reply stands for. `Err` holds the cause for which the
/// call could not be sent or its answer could not be read.
pub open spec fn classified(reply: Result<RequestView, Seq<char>>) -> OutcomeView {
    match reply {
        Err(cause) => OutcomeView::TransportFailure(cause),
        Ok(answer) => if confirms(answer) {
            OutcomeView::Applied
        } else {
            OutcomeView::Rejected
        },
    }
}

/// The address of `tenant`'s incident actions.
pub fn tenant_url(endpoint: &Endpoint, tenant: TenantId) -> (r: String)
    ensures
        r@ == endpoint_url(endpoint@.base_url, tenant),
{
    let mut url = endpoint.base_url.clone();
    url.append("/tenants/");
    append_decimal(&mut url, tenant.0);
    url.append("/incident-actions");
    url
}

/// The `Authorization` header value that carries the stored credential.
pub fn authorization(credential: &CredentialStore) -> (r: String)
    ensures
        r@ == bearer(credential@),
{
    let mut header = "Bearer ".to_owned();
    let token = credential.get();
    header.append(token.as_str());
    header
}

/// The request that restricts direct messages until `expiry_text`.
pub fn request_until(expiry_text: String) -> (r: ProtectiveActionRequest)
    ensures
        r@ == window_request(expiry_text@),
{
    ProtectiveActionRequest { invites_disabled_until: None, dms_disabled_until: Some(expiry_text) }
}

/// Puts together the call for `tenant` that asks for the restriction to last
/// until the moment written in `expiry_text`.
pub fn assemble(
    endpoint: &Endpoint,
    tenant: TenantId,
    credential: &CredentialStore,
    expiry_text: Option<String>,
) -> (r: Result<OutboundCall, ProtectiveActionResult>)
    ensures
        prepared_view(r) == assembled(endpoint@, tenant, credential@, text_of(expiry_text)),
{
    match expiry_text {
        Some(text) => Ok(
            OutboundCall {
                verb: endpoint.verb,
                url: tenant_url(endpoint, tenant),
                authorization: authorization(credential),
                body: request_until(text),
                timeout_secs: CALL_TIMEOUT_SECS,
            },
        ),
        None => Err(
            ProtectiveActionResult::TransportFailure(
                "the expiry lies outside the calendar".to_owned(),
            ),
        ),
    }
}

/// Prepares the call for `tenant` as it is made at the moment `now`.
pub fn prepare_at(
    endpoint: &Endpoint,
    tenant: TenantId,
    credential: &CredentialStore,
    now: Instant,
) -> (r: Result<OutboundCall, ProtectiveActionResult>)
    ensures
        prepared_view(r) == planned(endpoint@, tenant, credential@, now),
{
    let expiry_text = match now.expiry() {
        Some(end) => rfc3339_text(end.secs, end.nanos),
        None => None,
    };
    assemble(endpoint, tenant, credential, expiry_text)
}

/// Prepares the call for `tenant` as it is made now, by the system clock.
pub fn prepare(endpoint: &Endpoint, tenant: TenantId, credential: &CredentialStore) -> (r: Result<
    OutboundCall,
    ProtectiveActionResult,
>)
    ensures
        exists|now: Instant| prepared_view(r) == planned(endpoint@, tenant, credential@, now),
{
    let now = clock_now();
    prepare_at(endpoint, tenant, credential, now)
}

/// Reads an answer. `Err` holds the cause for which the call could not be
/// sent or its answer could not be read; `Ok` holds the answer's body.
pub fn classify(reply: Result<ProtectiveActionRequest, String>) -> (r: ProtectiveActionResult)
    ensures
        r@ == classified(
            match reply {
                Ok(body) => Ok(body@),
                Err(cause) => Err(cause@),
            },
        ),
{
    match reply {
        Err(cause) => ProtectiveActionResult::TransportFailure(cause),
        Ok(body) => match body.dms_disabled_until {
            Some(expiry) => {
                if expiry.as_str().is_empty() {
                    ProtectiveActionResult::Rejected
                } else {
                    ProtectiveActionResult::Applied
                }
            },
            None => ProtectiveActionResult::Rejected,
        },
    }
}

/// Repeating the call is harmless. Made again later for the same tenant, it
/// goes to the same address by the same verb with the same credential, and
/// it asks for a window that ends 24 hours after the later moment, so no
/// earlier than the window asked for before. An answer that confirms the
/// restriction counts as applied each time it comes.
pub proof fn lemma_repeated_call_extends_window(
    endpoint: EndpointView,
    tenant: TenantId,
    credential: Seq<char>,
    first: Instant,
    second: Instant,
)
    requires
        first.at_or_before(second),
    ensures
        planned(endpoint, tenant, credential, first) matches Ok(before) ==> (planned(
            endpoint,
            tenant,
            credential,
            second,
        ) matches Ok(again) ==> {
            &&& again.verb == before.verb
            &&& again.url == before.url
            &&& again.authorization == before.authorization
            &&& first.window_end() matches Some(earlier) && second.window_end() matches Some(later)
                && earlier.at_or_before(later) && earlier.secs == first.secs + 86_400 && later.secs
                == second.secs + 86_400 && before.body.dms_disabled_until == rfc3339_utc(
                earlier.secs,
                earlier.nanos,
            ) && again.body.dms_disabled_until == rfc3339_utc(later.secs, later.nanos)
        }),
        forall|answer: RequestView|
            confirms(answer) ==> #[trigger] classified(Ok(answer)) == OutcomeView::Applied,
{
    if first.window_end() is Some && second.window_end() is Some {
        lemma_later_start_later_end(first, second);
    }
}

} // verus!
