use vstd::prelude::*;

verus! {

/// Transport-level failure reported by the HTTP client (carried through unchanged).
#[verifier::external_type_specification]
#[verifier::external_body]
pub struct ExHttpClientError(reqwest::Error);

/// Failure reported when reading configuration from the environment (carried through unchanged).
#[verifier::external_type_specification]
#[verifier::external_body]
pub struct ExEnvReadError(envy::Error);

/// Everything that can go wrong while talking to the portal.
#[derive(Debug)]
pub enum WorldlineError {
    /// The HTTP client failed (connection, timeout, body read, ...).
    Http(reqwest::Error),
    /// The portal rejected the credentials: it answered them with a non-2xx status, or from
    /// the login page again; carries the status of that answer.
    LoginFailed { status: u16 },
    /// No hidden `__CSRF` input was found in the page.
    CsrfNotFound,
    /// Switching to the merchant account answered with a non-2xx status.
    MerchantSwitchFailed { status: u16 },
    /// Opening the detailed turnover page answered with a non-2xx status.
    TurnoverPageFailed { status: u16 },
    /// The export request answered with a non-2xx status.
    ExportFailed { status: u16 },
}

/// Why configuration could not be loaded.
#[derive(Debug)]
pub enum ConfigError {
    /// A required variable was absent; carries the variable's name.
    Missing(String),
    /// The environment could not be deserialised.
    Envy(envy::Error),
}

} // verus!
