use vstd::prelude::*;
use crate::text::text_of;

verus! {

/// Why the service cannot start.
#[derive(Clone, Copy, Debug, PartialEq, Eq, Structural)]
pub enum ConfigurationError {
    /// No bearer credential was supplied, or an empty one.
    MissingCredential,
}

/// Whether a configured value can serve as the credential: it is there and
/// it is not empty.
pub open spec fn usable(setting: Option<Seq<char>>) -> bool {
    setting matches Some(token) && token.len() > 0
}

/// Holds the one bearer credential that every outbound call uses.
///
/// A store exists only with a credential in it, and that credential is never
/// empty.
pub struct CredentialStore {
    token: String,
}

impl View for CredentialStore {
    type V = Seq<char>;

    closed spec fn view(&self) -> Seq<char> {
        self.token@
    }
}

impl CredentialStore {
    /// The credential is not empty. This holds of every store that `set`
    /// has made.
    pub open spec fn wf(&self) -> bool {
        self@.len() > 0
    }

    /// Makes the store from the configured value. Fails when the value is
    /// missing or empty; nothing else fails.
    pub fn set(setting: Option<String>) -> (r: Result<CredentialStore, ConfigurationError>)
        ensures
            r is Ok <==> usable(text_of(setting)),
            r matches Ok(store) ==> store.wf() && Some(store@) == text_of(setting),
            r matches Err(e) ==> e == ConfigurationError::MissingCredential,
    {
        match setting {
            Some(token) => {
                if token.as_str().is_empty() {
                    Err(ConfigurationError::MissingCredential)
                } else {
                    Ok(CredentialStore { token })
                }
            },
            None => Err(ConfigurationError::MissingCredential),
        }
    }

    /// A copy of the credential.
    pub fn get(&self) -> (r: String)
        ensures
            r@ == self@,
    {
        self.token.clone()
    }
}

} // verus!
