//! The persisted application configuration and its rules. Reading and
//! writing the file is left to the host.

use vstd::prelude::*;
use crate::reporter::ReporterConfig;

verus! {

/// Application configuration as persisted.
#[derive(Clone, Debug)]
pub struct AppConfig {
    pub reporter: ReporterConfig,
}

impl Default for AppConfig {
    fn default() -> (r: AppConfig)
        ensures
            !r.reporter.enabled,
            r.reporter.ws_url@ == Seq::<char>::empty(),
            r.reporter.token@ == Seq::<char>::empty(),
    {
        AppConfig { reporter: ReporterConfig::default() }
    }
}

/// The configuration to persist when the reporter section is updated: the
/// loaded configuration with its reporter section replaced.
pub fn save_reporter_config(loaded: AppConfig, reporter_config: &ReporterConfig) -> (r: AppConfig)
    ensures
        r.reporter.enabled == reporter_config.enabled,
        r.reporter.ws_url@ == reporter_config.ws_url@,
        r.reporter.token@ == reporter_config.token@,
{
    let mut config = loaded;
    config.reporter = ReporterConfig {
        enabled: reporter_config.enabled,
        ws_url: reporter_config.ws_url.clone(),
        token: reporter_config.token.clone(),
    };
    config
}

/// The configuration in effect after loading: what was read and parsed,
/// or, where the file is missing, unreadable or corrupt, the disabled
/// default.
pub fn config_or_default(parsed: Option<AppConfig>) -> (r: AppConfig)
    ensures
        parsed is Some ==> r == parsed.unwrap(),
        parsed is None ==> !r.reporter.enabled && r.reporter.ws_url@.len() == 0
            && r.reporter.token@.len() == 0,
{
    match parsed {
        Some(config) => config,
        None => AppConfig::default(),
    }
}

} // verus!
