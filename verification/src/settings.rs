//! The polling interval and the name of the bucket that heartbeats go to.

use vstd::prelude::*;
use vstd::string::StringExecFns;

verus! {

/// The configuration: the polling interval in seconds.
#[derive(Clone, Copy, Debug, PartialEq, Eq, Structural)]
pub struct AppConfig {
    pub polling_interval: u64,
}

/// The polling interval where none is configured: one second.
pub fn default_polling_interval() -> (secs: u64)
    ensures
        secs == 1,
{
    1
}

impl AppConfig {
    /// The built-in configuration.
    pub fn builtin() -> (config: AppConfig)
        ensures
            config.polling_interval == 1,
    {
        AppConfig { polling_interval: default_polling_interval() }
    }

    /// The configuration to run with: the one that was loaded, or the built-in
    /// one where loading gave none.
    pub fn or_builtin(loaded: Option<AppConfig>) -> (config: AppConfig)
        ensures
            config == (match loaded {
                Some(c) => c,
                None => (AppConfig { polling_interval: 1 }),
            }),
    {
        match loaded {
            Some(c) => c,
            None => AppConfig::builtin(),
        }
    }

    /// The interval to poll at: the one given on the command line, or the
    /// configured one where none was given.
    pub fn effective_interval(&self, poll_time: Option<u64>) -> (secs: u64)
        ensures
            secs == (match poll_time {
                Some(t) => t,
                None => self.polling_interval,
            }),
    {
        match poll_time {
            Some(t) => t,
            None => self.polling_interval,
        }
    }
}

/// The name that stands for the host where it cannot be resolved.
pub open spec fn unknown_host() -> Seq<char> {
    "unknown-host"@
}

/// The bucket's name for a host: a prefix, which differs in testing mode, and
/// the host's name.
pub open spec fn bucket_name(hostname: Seq<char>, testing: bool) -> Seq<char> {
    if testing {
        "aw-watcher-input-testing_"@ + hostname
    } else {
        "aw-watcher-input_"@ + hostname
    }
}

/// The host's name, or `unknown-host` where it could not be resolved.
pub fn hostname_or_unknown(resolved: Option<String>) -> (name: String)
    ensures
        name@ == (match resolved {
            Some(h) => h@,
            None => unknown_host(),
        }),
{
    match resolved {
        Some(h) => h,
        None => String::from_str("unknown-host"),
    }
}

/// The identifier of the bucket for a host.
pub fn bucket_id(hostname: &str, testing: bool) -> (id: String)
    ensures
        id@ == bucket_name(hostname@, testing),
{
    if testing {
        String::from_str("aw-watcher-input-testing_").concat(hostname)
    } else {
        String::from_str("aw-watcher-input_").concat(hostname)
    }
}

} // verus!
