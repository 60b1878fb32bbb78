use vstd::prelude::*;

use crate::error::ConfigError;

verus! {

/// The configuration as read from the environment, each variable optional so that a
/// missing one can be named precisely.
pub struct RawSettings {
    /// `WORLDLINE_LOGIN`
    pub login: Option<String>,
    /// `WORLDLINE_PASSWORD`
    pub password: Option<String>,
    /// `WORLDLINE_ACCOUNT_ID`
    pub account_id: Option<String>,
}

/// Validated, ready-to-use configuration.
pub struct Settings {
    pub login: String,
    pub password: String,
    pub account_id: String,
}

/// The outcome of validating `raw`: the settings when every variable is present, otherwise
/// `Missing` naming the first absent variable in the order login, password, account id.
pub open spec fn settings_outcome(raw: RawSettings, r: Result<Settings, ConfigError>) -> bool {
    match (raw.login, raw.password, raw.account_id) {
        (Some(l), Some(p), Some(a)) => r matches Ok(s) && s.login == l && s.password == p
            && s.account_id == a,
        (None, _, _) => r matches Err(ConfigError::Missing(name)) && name@ == "WORLDLINE_LOGIN"@,
        (Some(_), None, _) => r matches Err(ConfigError::Missing(name)) && name@
            == "WORLDLINE_PASSWORD"@,
        (Some(_), Some(_), None) => r matches Err(ConfigError::Missing(name)) && name@
            == "WORLDLINE_ACCOUNT_ID"@,
    }
}

impl Settings {
    /// Checks that every required variable is present.
    pub fn from_raw(raw: RawSettings) -> (r: Result<Settings, ConfigError>)
        ensures
            settings_outcome(raw, r),
    {
        let login = match raw.login {
            Some(l) => l,
            None => return Err(ConfigError::Missing(String::from_str("WORLDLINE_LOGIN"))),
        };
        let password = match raw.password {
            Some(p) => p,
            None => return Err(ConfigError::Missing(String::from_str("WORLDLINE_PASSWORD"))),
        };
        let account_id = match raw.account_id {
            Some(a) => a,
            None => return Err(ConfigError::Missing(String::from_str("WORLDLINE_ACCOUNT_ID"))),
        };
        Ok(Settings { login, password, account_id })
    }
}

} // verus!
