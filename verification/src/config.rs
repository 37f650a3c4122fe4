//! Live configuration: the values that the resolver pool and the expiration
//! sweeper poll on every cycle, held in memory by a `ConfigManager`.
//! Loading the configuration from disk and saving it back are the caller's
//! business; this module only keeps the current snapshot and hands out copies.

use vstd::prelude::*;

verus! {

/// The live configuration polled by the resolver pool and the sweeper.
pub struct AppConfig {
    /// Cache entries older than this many days are swept; zero disables sweeping.
    pub cache_expiration_days: u64,
    /// Proxy for outbound fetches, used only while `proxy_enabled` holds.
    pub proxy_url: Option<String>,
    pub proxy_enabled: bool,
    /// Display theme; irrelevant to the pipeline, carried for the UI.
    pub theme: String,
}

pub fn default_theme() -> (r: String)
    ensures
        r@ == "light"@,
{
    "light".to_owned()
}

impl Default for AppConfig {
    fn default() -> (c: AppConfig)
        ensures
            c.cache_expiration_days == 7,
            c.proxy_url is None,
            c.proxy_enabled == false,
            c.theme@ == "light"@,
    {
        AppConfig {
            cache_expiration_days: 7,
            proxy_url: None,
            proxy_enabled: false,
            theme: default_theme(),
        }
    }
}

/// Copies a configuration value field by field.
pub fn clone_config(c: &AppConfig) -> (r: AppConfig)
    ensures
        r == *c,
{
    AppConfig {
        cache_expiration_days: c.cache_expiration_days,
        proxy_url: match &c.proxy_url {
            Some(u) => Some(u.clone()),
            None => None,
        },
        proxy_enabled: c.proxy_enabled,
        theme: c.theme.clone(),
    }
}

/// Holds the current configuration snapshot.  Pure polling: readers call
/// `get_config` whenever they need the latest values, writers replace the
/// whole snapshot with `set_config`.
pub struct ConfigManager {
    config: AppConfig,
}

impl ConfigManager {
    /// The snapshot currently held.
    pub closed spec fn config(&self) -> AppConfig {
        self.config
    }

    /// Starts from a loaded configuration, or from the defaults when none
    /// could be loaded.
    pub fn new(initial: Option<AppConfig>) -> (m: ConfigManager)
        ensures
            initial is Some ==> m.config() == initial->0,
            initial is None ==> {
                &&& m.config().cache_expiration_days == 7
                &&& m.config().proxy_url is None
                &&& m.config().proxy_enabled == false
                &&& m.config().theme@ == "light"@
            },
    {
        let config = match initial {
            Some(c) => c,
            None => AppConfig::default(),
        };
        ConfigManager { config }
    }

    pub fn get_config(&self) -> (c: AppConfig)
        ensures
            c == self.config(),
    {
        clone_config(&self.config)
    }

    pub fn set_config(&mut self, new_config: AppConfig)
        ensures
            final(self).config() == new_config,
    {
        self.config = new_config;
    }
}

} // verus!
