//! Configuration: the options of proxy pairing, and the application's
//! configuration as it is shown to clients.

use vstd::prelude::*;
use vstd::std_specs::convert::FromSpecImpl;

verus! {

/// The options of proxy pairing.
#[derive(Clone, Copy, Debug, PartialEq, Eq, Structural)]
pub struct ProxyPairingConfig {
    /// Accept a vouch from a trusted, directly paired voucher without asking
    /// the user.
    pub auto_accept_vouched: bool,
    /// After a direct pairing, vouch the new device to every other paired
    /// device.
    pub auto_vouch_to_all: bool,
    /// Seconds after which a vouch signature is too old to be accepted.
    pub vouch_signature_max_age: u64,
    /// Seconds that a target has to answer a vouch, and that a user has to
    /// decide on one.
    pub vouch_response_timeout: u64,
    /// How often a queued vouch is sent before it is given up.
    pub vouch_queue_retry_limit: u32,
}

impl ProxyPairingConfig {
    /// The options as they are when nothing was configured.
    pub open spec fn spec_default() -> ProxyPairingConfig {
        ProxyPairingConfig {
            auto_accept_vouched: true,
            auto_vouch_to_all: false,
            vouch_signature_max_age: 600,
            vouch_response_timeout: 300,
            vouch_queue_retry_limit: 5,
        }
    }
}

impl Default for ProxyPairingConfig {
    fn default() -> (config: ProxyPairingConfig)
        ensures
            config == ProxyPairingConfig::spec_default(),
    {
        ProxyPairingConfig {
            auto_accept_vouched: true,
            auto_vouch_to_all: false,
            vouch_signature_max_age: 600,
            vouch_response_timeout: 300,
            vouch_queue_retry_limit: 5,
        }
    }
}

/// What the user prefers.
#[derive(Debug, PartialEq, Eq)]
pub struct Preferences {
    pub theme: String,
    pub language: String,
}

/// How jobs are logged.
#[derive(Debug, PartialEq, Eq)]
pub struct JobLoggingConfig {
    pub enabled: bool,
    pub log_directory: String,
    pub max_file_size: u64,
    pub include_debug: bool,
    pub log_ephemeral_jobs: bool,
}

/// Which services run.
#[derive(Clone, Copy, Debug, PartialEq, Eq, Structural)]
pub struct ServiceConfig {
    pub networking_enabled: bool,
    pub volume_monitoring_enabled: bool,
    pub fs_watcher_enabled: bool,
    pub statistics_listener_enabled: bool,
}

/// How the daemon logs.
#[derive(Debug, PartialEq, Eq)]
pub struct LoggingConfig {
    pub main_filter: String,
}

/// The application's configuration.
#[derive(Debug, PartialEq, Eq)]
pub struct AppConfig {
    pub version: u32,
    pub data_dir: String,
    pub log_level: String,
    pub telemetry_enabled: bool,
    pub preferences: Preferences,
    pub job_logging: JobLoggingConfig,
    pub services: ServiceConfig,
    pub logging: LoggingConfig,
    pub proxy_pairing: ProxyPairingConfig,
}

/// The request for the application's configuration.
#[derive(Clone, Copy, Debug, PartialEq, Eq, Structural)]
pub struct GetAppConfigQueryInput {}

/// The user's preferences, as shown to clients.
#[derive(Debug, PartialEq, Eq)]
pub struct PreferencesOutput {
    pub theme: String,
    pub language: String,
}

/// The job logging options, as shown to clients.
#[derive(Debug, PartialEq, Eq)]
pub struct JobLoggingConfigOutput {
    pub enabled: bool,
    pub log_directory: String,
    pub max_file_size: u64,
    pub include_debug: bool,
    pub log_ephemeral_jobs: bool,
}

/// The service options, as shown to clients.
#[derive(Clone, Copy, Debug, PartialEq, Eq, Structural)]
pub struct ServiceConfigOutput {
    pub networking_enabled: bool,
    pub volume_monitoring_enabled: bool,
    pub fs_watcher_enabled: bool,
    pub statistics_listener_enabled: bool,
}

/// The daemon logging options, as shown to clients.
#[derive(Debug, PartialEq, Eq)]
pub struct LoggingConfigOutput {
    pub main_filter: String,
}

/// The proxy pairing options, as shown to clients.
#[derive(Clone, Copy, Debug, PartialEq, Eq, Structural)]
pub struct ProxyPairingConfigOutput {
    pub auto_accept_vouched: bool,
    pub auto_vouch_to_all: bool,
    pub vouch_signature_max_age: u64,
    pub vouch_response_timeout: u64,
    pub vouch_queue_retry_limit: u32,
}

/// The application's configuration with every field exposed, as shown to
/// clients.
#[derive(Debug, PartialEq, Eq)]
pub struct AppConfigOutput {
    pub version: u32,
    pub data_dir: String,
    pub log_level: String,
    pub telemetry_enabled: bool,
    pub preferences: PreferencesOutput,
    pub job_logging: JobLoggingConfigOutput,
    pub services: ServiceConfigOutput,
    pub logging: LoggingConfigOutput,
    pub proxy_pairing: ProxyPairingConfigOutput,
}

/// The configuration as shown to clients: every field as it is configured.
pub open spec fn shown(config: AppConfig) -> AppConfigOutput {
    AppConfigOutput {
        version: config.version,
        data_dir: config.data_dir,
        log_level: config.log_level,
        telemetry_enabled: config.telemetry_enabled,
        preferences: PreferencesOutput {
            theme: config.preferences.theme,
            language: config.preferences.language,
        },
        job_logging: JobLoggingConfigOutput {
            enabled: config.job_logging.enabled,
            log_directory: config.job_logging.log_directory,
            max_file_size: config.job_logging.max_file_size,
            include_debug: config.job_logging.include_debug,
            log_ephemeral_jobs: config.job_logging.log_ephemeral_jobs,
        },
        services: ServiceConfigOutput {
            networking_enabled: config.services.networking_enabled,
            volume_monitoring_enabled: config.services.volume_monitoring_enabled,
            fs_watcher_enabled: config.services.fs_watcher_enabled,
            statistics_listener_enabled: config.services.statistics_listener_enabled,
        },
        logging: LoggingConfigOutput { main_filter: config.logging.main_filter },
        proxy_pairing: ProxyPairingConfigOutput {
            auto_accept_vouched: config.proxy_pairing.auto_accept_vouched,
            auto_vouch_to_all: config.proxy_pairing.auto_vouch_to_all,
            vouch_signature_max_age: config.proxy_pairing.vouch_signature_max_age,
            vouch_response_timeout: config.proxy_pairing.vouch_response_timeout,
            vouch_queue_retry_limit: config.proxy_pairing.vouch_queue_retry_limit,
        },
    }
}

impl<'a> From<&'a AppConfig> for AppConfigOutput {
    fn from(config: &'a AppConfig) -> (output: AppConfigOutput) {
        AppConfigOutput {
            version: config.version,
            data_dir: config.data_dir.clone(),
            log_level: config.log_level.clone(),
            telemetry_enabled: config.telemetry_enabled,
            preferences: PreferencesOutput {
                theme: config.preferences.theme.clone(),
                language: config.preferences.language.clone(),
            },
            job_logging: JobLoggingConfigOutput {
                enabled: config.job_logging.enabled,
                log_directory: config.job_logging.log_directory.clone(),
                max_file_size: config.job_logging.max_file_size,
                include_debug: config.job_logging.include_debug,
                log_ephemeral_jobs: config.job_logging.log_ephemeral_jobs,
            },
            services: ServiceConfigOutput {
                networking_enabled: config.services.networking_enabled,
                volume_monitoring_enabled: config.services.volume_monitoring_enabled,
                fs_watcher_enabled: config.services.fs_watcher_enabled,
                statistics_listener_enabled: config.services.statistics_listener_enabled,
            },
            logging: LoggingConfigOutput { main_filter: config.logging.main_filter.clone() },
            proxy_pairing: ProxyPairingConfigOutput {
                auto_accept_vouched: config.proxy_pairing.auto_accept_vouched,
                auto_vouch_to_all: config.proxy_pairing.auto_vouch_to_all,
                vouch_signature_max_age: config.proxy_pairing.vouch_signature_max_age,
                vouch_response_timeout: config.proxy_pairing.vouch_response_timeout,
                vouch_queue_retry_limit: config.proxy_pairing.vouch_queue_retry_limit,
            },
        }
    }
}

impl<'a> FromSpecImpl<&'a AppConfig> for AppConfigOutput {
    open spec fn obeys_from_spec() -> bool {
        true
    }

    open spec fn from_spec(config: &'a AppConfig) -> AppConfigOutput {
        shown(*config)
    }
}

/// The query for the application's configuration.
#[derive(Clone, Copy, Debug, PartialEq, Eq, Structural)]
pub struct GetAppConfigQuery {}

impl GetAppConfigQuery {
    /// The query for a request.
    pub fn from_input(input: GetAppConfigQueryInput) -> (r: Result<GetAppConfigQuery, String>)
        ensures
            r == Ok::<GetAppConfigQuery, String>(GetAppConfigQuery {  }),
    {
        Ok(GetAppConfigQuery {  })
    }

    /// Answers the query from the configuration that was loaded.
    pub fn execute(self, config: &AppConfig) -> (output: AppConfigOutput)
        ensures
            output == shown(*config),
    {
        AppConfigOutput::from(config)
    }
}

} // verus!
