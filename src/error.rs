use vstd::prelude::*;
use vstd::string::StringExecFns;

verus! {

/// A required field was missing from the answer of the role-credential
/// service; the field's name is carried.
#[derive(Clone, Debug, PartialEq, Eq)]
pub enum SSOProviderError {
    RequiredConfigMissing(String),
}

impl SSOProviderError {
    /// The human-readable text of the error.
    pub fn message(&self) -> (r: String)
        ensures
            r@ == "SSOProviderError: Missing required config: "@ + self->RequiredConfigMissing_0@,
    {
        match self {
            SSOProviderError::RequiredConfigMissing(field) => {
                let mut text = "SSOProviderError: Missing required config: ".to_owned();
                text.append(field.as_str());
                text
            },
        }
    }
}

/// Why a credential request failed.
#[derive(Clone, Debug, PartialEq, Eq)]
pub enum CredentialsError {
    /// This source has nothing to offer: no complete profile settings, no
    /// usable cached token, or an empty answer from the service. A provider
    /// chain goes on to its next source.
    CredentialsNotLoaded,
    /// The call to the role-credential service failed; its description is
    /// carried.
    ProviderError(String),
    /// The service answered without a required field.
    Unhandled(SSOProviderError),
}

} // verus!
