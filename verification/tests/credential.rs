use nomoredm::action::Verb;
use nomoredm::credential::{ConfigurationError, CredentialStore};
use nomoredm::scheduler::SchedulerPhase;
use nomoredm::service::{startup, Settings};

#[test]
fn missing_credential_is_a_configuration_error() {
    let r = CredentialStore::set(None);
    assert!(matches!(r, Err(ConfigurationError::MissingCredential)));
}

#[test]
fn empty_credential_is_a_configuration_error() {
    let r = CredentialStore::set(Some(String::new()));
    assert!(matches!(r, Err(ConfigurationError::MissingCredential)));
}

#[test]
fn credential_is_handed_back_as_it_was_set() {
    let store = CredentialStore::set(Some(String::from("T1"))).unwrap();
    assert_eq!(store.get(), "T1");
    assert_eq!(store.get(), "T1");
}

#[test]
fn startup_without_credential_makes_nothing() {
    let r = startup(Settings::new(None, String::from("https://remote.example/api")));
    assert!(matches!(r, Err(ConfigurationError::MissingCredential)));
    let r = startup(Settings::new(Some(String::new()), String::from("https://remote.example/api")));
    assert!(matches!(r, Err(ConfigurationError::MissingCredential)));
}

#[test]
fn startup_with_credential_stands_idle_and_empty() {
    let settings = Settings::new(Some(String::from("T1")), String::from("https://remote.example/api"));
    assert_eq!(settings.period_secs, 43_200);
    assert_eq!(settings.delay_secs, 2);
    assert_eq!(settings.verb, Verb::Put);
    let service = startup(settings).unwrap();
    assert_eq!(service.credential.get(), "T1");
    assert_eq!(service.endpoint.base_url, "https://remote.example/api");
    assert_eq!(service.endpoint.verb, Verb::Put);
    assert_eq!(service.registry.len(), 0);
    assert_eq!(service.scheduler.phase, SchedulerPhase::Idle);
    assert_eq!(service.scheduler.period_secs, 43_200);
    assert_eq!(service.scheduler.delay_secs, 2);
}

#[test]
fn startup_keeps_the_configured_cadence() {
    let settings = Settings {
        credential: Some(String::from("secret")),
        base_url: String::from("http://localhost:8080"),
        verb: Verb::Post,
        period_secs: 7,
        delay_secs: 1,
    };
    let service = startup(settings).unwrap();
    assert_eq!(service.endpoint.verb, Verb::Post);
    assert_eq!(service.scheduler.period_secs, 7);
    assert_eq!(service.scheduler.delay_secs, 1);
}
