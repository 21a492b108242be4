use vstd::prelude::*;
use crate::action::{Endpoint, Verb};
use crate::credential::{usable, ConfigurationError, CredentialStore};
use crate::dispatch::DEFAULT_DELAY_SECS;
use crate::registry::TenantRegistry;
use crate::scheduler::{Scheduler, SchedulerPhase, DEFAULT_PERIOD_SECS};
use crate::tenant::TenantId;
use crate::text::text_of;

verus! {

/// What the service is configured with.
pub struct Settings {
    /// The bearer credential, if one was supplied.
    pub credential: Option<String>,
    /// Scheme, host and any path prefix of the remote control plane.
    pub base_url: String,
    pub verb: Verb,
    /// Seconds between two passes.
    pub period_secs: u64,
    /// Seconds of pause after each call within a pass.
    pub delay_secs: u64,
}

impl Settings {
    /// Settings with the usual cadence: a pass every 12 hours, 2 seconds
    /// after each call, sent by `PUT`.
    pub fn new(credential: Option<String>, base_url: String) -> (r: Settings)
        ensures
            r.credential == credential,
            r.base_url == base_url,
            r.verb == Verb::Put,
            r.period_secs == DEFAULT_PERIOD_SECS,
            r.delay_secs == DEFAULT_DELAY_SECS,
    {
        Settings {
            credential,
            base_url,
            verb: Verb::Put,
            period_secs: DEFAULT_PERIOD_SECS,
            delay_secs: DEFAULT_DELAY_SECS,
        }
    }
}

/// Everything the running service owns. Each part can be put behind a lock
/// of its own: no function of this crate waits or performs a call, so a lock
/// held around one of them is never held across an outbound request.
pub struct Service {
    pub credential: CredentialStore,
    pub endpoint: Endpoint,
    pub registry: TenantRegistry,
    pub scheduler: Scheduler,
}

impl Service {
    /// The credential is not empty and the registry holds no tenant twice.
    pub open spec fn wf(&self) -> bool {
        self.credential.wf() && self.registry.wf()
    }
}

/// Brings the service up, or refuses to. Without a credential nothing is
/// made: no registry to serve and no loop to start. With one, the registry
/// starts empty and the loop stands idle, ready to be started.
pub fn startup(settings: Settings) -> (r: Result<Service, ConfigurationError>)
    ensures
        r is Ok <==> usable(text_of(settings.credential)),
        r matches Err(e) ==> e == ConfigurationError::MissingCredential,
        r matches Ok(service) ==> {
            &&& service.wf()
            &&& Some(service.credential@) == text_of(settings.credential)
            &&& service.endpoint@.base_url == settings.base_url@
            &&& service.endpoint@.verb == settings.verb
            &&& service.registry@ == Seq::<TenantId>::empty()
            &&& service.scheduler.phase == SchedulerPhase::Idle
            &&& service.scheduler.period_secs == settings.period_secs
            &&& service.scheduler.delay_secs == settings.delay_secs
        },
{
    match CredentialStore::set(settings.credential) {
        Ok(credential) => Ok(
            Service {
                credential,
                endpoint: Endpoint { base_url: settings.base_url, verb: settings.verb },
                registry: TenantRegistry::new(),
                scheduler: Scheduler::new(settings.period_secs, settings.delay_secs),
            },
        ),
        Err(e) => Err(e),
    }
}

} // verus!
