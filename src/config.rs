use vstd::prelude::*;

verus! {

/// Seconds between two samples when none is configured.
pub const DEFAULT_INTERVAL: u64 = 60;

pub open spec fn default_log_path() -> Seq<char> {
    "locations.jsonl"@
}

pub open spec fn default_api_url() -> Seq<char> {
    "http://ip-api.com/json"@
}

/// Effective settings of one invocation: the sampling interval in seconds,
/// the log file's path and the location provider's URL.
#[derive(Debug)]
pub struct Config {
    pub interval: u64,
    pub log_path: String,
    pub api_url: String,
}

impl Default for Config {
    fn default() -> (r: Config)
        ensures
            r.interval == DEFAULT_INTERVAL,
            r.log_path@ == default_log_path(),
            r.api_url@ == default_api_url(),
    {
        Config {
            interval: DEFAULT_INTERVAL,
            log_path: "locations.jsonl".to_owned(),
            api_url: "http://ip-api.com/json".to_owned(),
        }
    }
}

impl Config {
    /// Builds the effective settings from what a configuration file gave:
    /// each key that is missing takes its default, independently of the others.
    pub fn from_parts(
        interval: Option<u64>,
        log_path: Option<String>,
        api_url: Option<String>,
    ) -> (r: Config)
        ensures
            r.interval == (match interval {
                Some(i) => i,
                None => DEFAULT_INTERVAL,
            }),
            r.log_path@ == (match log_path {
                Some(p) => p@,
                None => default_log_path(),
            }),
            r.api_url@ == (match api_url {
                Some(u) => u@,
                None => default_api_url(),
            }),
    {
        let d = Config::default();
        Config {
            interval: match interval {
                Some(i) => i,
                None => d.interval,
            },
            log_path: match log_path {
                Some(p) => p,
                None => d.log_path,
            },
            api_url: match api_url {
                Some(u) => u,
                None => d.api_url,
            },
        }
    }
}

} // verus!
