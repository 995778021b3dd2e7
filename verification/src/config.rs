//! The notifier configuration: its defaults, the shared store that the
//! hooks read it from, and the choice made when it is loaded at start-up.
use std::sync::Arc;
use vstd::prelude::*;

verus! {

/// Where the notifier posts the game's traffic and whether it does.
pub struct Config {
    pub notifier_host: String,
    pub notifier_timeout_ms: u64,
    pub enable: bool,
}

/// `c` holds the value of every field that a configuration file may leave out.
pub open spec fn is_default_config(c: Config) -> bool {
    &&& c.notifier_host@ == "http://127.0.0.1:4693"@
    &&& c.notifier_timeout_ms == 100
    &&& c.enable
}

impl Config {
    /// The notifier address used when the configuration names none.
    pub fn default_notifier_host() -> (host: String)
        ensures
            host@ == "http://127.0.0.1:4693"@,
    {
        String::from_str("http://127.0.0.1:4693")
    }

    /// The request timeout, in milliseconds, used when none is configured.
    pub fn default_notifier_timeout_ms() -> (ms: u64)
        ensures
            ms == 100,
    {
        100
    }

    /// Notifications are on unless the configuration turns them off.
    pub fn default_notifier_enable() -> (enable: bool)
        ensures
            enable,
    {
        true
    }
}

impl Clone for Config {
    fn clone(&self) -> (c: Self)
        ensures
            c == *self,
    {
        Config {
            notifier_host: self.notifier_host.clone(),
            notifier_timeout_ms: self.notifier_timeout_ms,
            enable: self.enable,
        }
    }
}

impl Default for Config {
    /// The configuration read from an empty file: every field at its default.
    fn default() -> (c: Self)
        ensures
            is_default_config(c),
    {
        Config {
            notifier_host: Config::default_notifier_host(),
            notifier_timeout_ms: Config::default_notifier_timeout_ms(),
            enable: Config::default_notifier_enable(),
        }
    }
}

/// The current configuration, shared between the settings window and the
/// hooks. It holds an `arc_swap::ArcSwap<Config>`.
#[verifier::external_body]
pub struct ConfigStore {
    cell: arc_swap::ArcSwap<Config>,
}

/// The configuration that `store` holds at present.
pub uninterp spec fn stored_config(store: ConfigStore) -> Config;

impl View for ConfigStore {
    type V = Config;

    open spec fn view(&self) -> Config {
        stored_config(*self)
    }
}

impl ConfigStore {
    /// `ArcSwap::from_pointee`: a new cell that holds `initial`.
    #[verifier::external_body]
    fn from_pointee(initial: Config) -> (store: ConfigStore)
        ensures
            stored_config(store) == initial,
    {
        ConfigStore { cell: arc_swap::ArcSwap::from_pointee(initial) }
    }

    /// `ArcSwap::load_full`: a reference to what the cell holds. With no
    /// store in between (this takes the store shared), that is the value
    /// most recently put in.
    #[verifier::external_body]
    fn load_full(&self) -> (current: Arc<Config>)
        ensures
            *current == stored_config(*self),
    {
        self.cell.load_full()
    }

    /// `ArcSwap::store`: replaces what the cell holds; later loads yield
    /// `value`.
    #[verifier::external_body]
    fn store(&mut self, value: Arc<Config>)
        ensures
            stored_config(*final(self)) == *value,
    {
        self.cell.store(value)
    }

    /// A store that starts out holding `initial`.
    pub fn new(initial: Config) -> (store: ConfigStore)
        ensures
            store@ == initial,
    {
        ConfigStore::from_pointee(initial)
    }
}

/// The configuration in force now.
pub fn get_config(store: &ConfigStore) -> (current: Arc<Config>)
    ensures
        *current == store@,
{
    store.load_full()
}

/// Makes `new_config` the configuration in force. Writing it to the
/// configuration file is left to the caller.
pub fn save_config(store: &mut ConfigStore, new_config: &Config)
    ensures
        final(store)@ == *new_config,
{
    store.store(Arc::new(new_config.clone()));
}

/// What start-up learned of the configuration file.
pub enum ConfigSource {
    /// The plugin has no data directory on this platform.
    NoDataDir,
    /// The data directory was missing and could not be created.
    DirUnavailable,
    /// The file exists and was read and parsed into this configuration.
    Parsed(Config),
    /// The file is missing, unreadable or not a valid configuration.
    Unusable,
}

/// The configuration to start with, and whether the default configuration
/// is to be written out as the new configuration file.
pub struct ConfigLoad {
    pub config: Config,
    pub write_default: bool,
}

/// Chooses the start-up configuration: a parsed file wins; where there is
/// no data directory, or it cannot be created, the defaults are used and
/// nothing is written; where the file is missing or invalid, the defaults
/// are used and written out.
pub fn load_config(source: ConfigSource) -> (load: ConfigLoad)
    ensures
        match source {
            ConfigSource::Parsed(c) => load.config == c && !load.write_default,
            ConfigSource::Unusable => is_default_config(load.config) && load.write_default,
            _ => is_default_config(load.config) && !load.write_default,
        },
{
    match source {
        ConfigSource::Parsed(c) => ConfigLoad { config: c, write_default: false },
        ConfigSource::Unusable => ConfigLoad { config: Config::default(), write_default: true },
        _ => ConfigLoad { config: Config::default(), write_default: false },
    }
}

} // verus!
