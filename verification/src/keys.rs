//! The names of the environment variables that hold the settings.

use vstd::prelude::*;

verus! {

/// The names under which each setting is looked up.
#[derive(Clone, Debug, PartialEq, Eq)]
pub struct EnvKeys {
    pub log: String,
    pub address: String,
    pub port: String,
    pub dir: String,
    pub not_found: String,
    pub timeout: String,
    pub metrics: String,
    pub metrics_address: String,
    pub metrics_port: String,
}

/// `text` in upper case, as Unicode defines it.
pub uninterp spec fn uppercase(text: Seq<char>) -> Seq<char>;

/// Trusted: calls `str::to_uppercase`. The result depends on the text alone
/// and is known here only by name.
#[verifier::external_body]
fn to_uppercase(text: &str) -> (upper: String)
    ensures
        upper@ == uppercase(text@),
{
    text.to_uppercase()
}

/// `prefix` and `suffix` in one text.
pub fn key(prefix: &str, suffix: &str) -> (name: String)
    ensures
        name@ == prefix@ + suffix@,
{
    let mut name: String = prefix.to_owned();
    name.append(suffix);
    name
}

impl EnvKeys {
    /// The names for the application called `name`: its name in upper case
    /// is the prefix of every setting of the site. The two settings that
    /// place the metrics listener carry no prefix.
    pub fn for_application(name: &str) -> (keys: EnvKeys)
        ensures
            keys.log@ == uppercase(name@) + "_LOG"@,
            keys.address@ == uppercase(name@) + "_ADDR"@,
            keys.port@ == uppercase(name@) + "_PORT"@,
            keys.dir@ == uppercase(name@) + "_DIR"@,
            keys.not_found@ == uppercase(name@) + "_404"@,
            keys.timeout@ == uppercase(name@) + "_TIMEOUT"@,
            keys.metrics@ == uppercase(name@) + "_METRICS"@,
            keys.metrics_address@ == "METRICS_ADDR"@,
            keys.metrics_port@ == "METRICS_PORT"@,
    {
        let prefix: String = to_uppercase(name);
        EnvKeys::with_prefix(prefix.as_str())
    }

    /// The names under the prefix `prefix`, taken as it is.
    pub fn with_prefix(prefix: &str) -> (keys: EnvKeys)
        ensures
            keys.log@ == prefix@ + "_LOG"@,
            keys.address@ == prefix@ + "_ADDR"@,
            keys.port@ == prefix@ + "_PORT"@,
            keys.dir@ == prefix@ + "_DIR"@,
            keys.not_found@ == prefix@ + "_404"@,
            keys.timeout@ == prefix@ + "_TIMEOUT"@,
            keys.metrics@ == prefix@ + "_METRICS"@,
            keys.metrics_address@ == "METRICS_ADDR"@,
            keys.metrics_port@ == "METRICS_PORT"@,
    {
        EnvKeys {
            log: key(prefix, "_LOG"),
            address: key(prefix, "_ADDR"),
            port: key(prefix, "_PORT"),
            dir: key(prefix, "_DIR"),
            not_found: key(prefix, "_404"),
            timeout: key(prefix, "_TIMEOUT"),
            metrics: key(prefix, "_METRICS"),
            metrics_address: "METRICS_ADDR".to_owned(),
            metrics_port: "METRICS_PORT".to_owned(),
        }
    }
}

} // verus!
