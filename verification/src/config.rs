//! Settings: their names, their defaults, and what their texts mean.
//!
//! The program reads each setting from its environment once and hands the
//! raw texts over as a [`Settings`] value. Nothing here looks at the
//! environment itself.

use crate::error::{Error, ErrorView};
use crate::level::{level_of_setting, LogLevel};
use crate::number::{parse_bounded, parse_decimal, NumberError};
use crate::path::{join, join_path, INDEX_FILE};
use crate::text::same_text;
use vstd::prelude::*;

verus! {

/// Directory served when none is configured.
pub const DEFAULT_DIR: &'static str = "public";

/// Not-found page, relative to the served directory, when none is configured.
pub const DEFAULT_NOT_FOUND: &'static str = "404.html";

/// Request timeout in milliseconds when none is configured: no timeout.
pub const DEFAULT_TIMEOUT: &'static str = "0";

/// Port of the site when none is configured.
pub const DEFAULT_PORT: &'static str = "8080";

/// Port of the metrics endpoint when none is configured.
pub const DEFAULT_METRICS_PORT: &'static str = "8081";

/// An IP address as its bits, most significant first.
#[derive(Clone, Copy, Debug, PartialEq, Eq, Structural)]
pub enum IpAddress {
    V4(u32),
    V6(u128),
}

/// What the environment holds for a bind address.
#[derive(Clone, Debug, PartialEq, Eq)]
pub enum AddressSetting {
    /// The variable is not set.
    Unset,
    /// The variable holds this address.
    Address(IpAddress),
    /// The variable holds something that is no IP address; the text says why.
    Invalid(String),
}

/// The raw settings, each as found: `None` where the variable is not set.
#[derive(Clone, Debug, PartialEq, Eq)]
pub struct Settings {
    pub log: Option<String>,
    pub address: AddressSetting,
    pub port: Option<String>,
    pub dir: Option<String>,
    pub not_found: Option<String>,
    pub timeout: Option<String>,
    pub metrics: Option<String>,
    pub metrics_address: AddressSetting,
    pub metrics_port: Option<String>,
}

/// Where a listener binds.
#[derive(Clone, Copy, Debug, PartialEq, Eq, Structural)]
pub struct Endpoint {
    pub address: IpAddress,
    pub port: u16,
}

/// What the site listener serves and how.
#[derive(Clone, Debug, PartialEq, Eq)]
pub struct SiteConfig {
    pub endpoint: Endpoint,
    /// The directory whose tree is served.
    pub root_dir: String,
    /// The page served for missing resources, relative to `root_dir`.
    pub not_found_file: String,
    /// Time allowed to each request in milliseconds; 0 allows any.
    pub timeout_ms: u64,
}

/// Everything that the settings say, read once when the program starts.
///
/// What is wrong with one listener's settings is held against that listener
/// alone: the other still comes up.
#[derive(Debug, PartialEq, Eq)]
pub struct ServerConfig {
    pub log_level: LogLevel,
    /// The site, or why it cannot come up.
    pub site: Result<SiteConfig, Error>,
    /// The metrics endpoint, or why it cannot come up; `None` where metrics
    /// are off.
    pub metrics: Option<Result<Endpoint, Error>>,
}

/// The text of a setting, or `default` where it is unset.
pub open spec fn text_or(setting: Option<String>, default: Seq<char>) -> Seq<char> {
    match setting {
        Some(text) => text@,
        None => default,
    }
}

/// The port that `text` names: a number from 1 to 65535.
pub open spec fn port_of(text: Seq<char>) -> Result<u16, NumberError> {
    match parse_bounded(text, 65535) {
        Err(cause) => Err(cause),
        Ok(n) => if n == 0 {
            Err(NumberError::Zero)
        } else {
            Ok(n as u16)
        },
    }
}

/// The address that a setting gives, every address when unset.
pub open spec fn address_of(setting: AddressSetting) -> Result<IpAddress, Seq<char>> {
    match setting {
        AddressSetting::Unset => Ok(IpAddress::V4(0)),
        AddressSetting::Address(ip) => Ok(ip),
        AddressSetting::Invalid(why) => Err(why@),
    }
}

/// The endpoint that an address setting and a port text give. A bad address
/// is reported before a bad port.
pub open spec fn endpoint_of(address: AddressSetting, port: Seq<char>) -> Result<
    Endpoint,
    ErrorView,
> {
    match address_of(address) {
        Err(why) => Err(ErrorView::IpAddr(why)),
        Ok(ip) => match port_of(port) {
            Err(cause) => Err(ErrorView::Port(cause)),
            Ok(number) => Ok(Endpoint { address: ip, port: number }),
        },
    }
}

/// The endpoint of the site.
pub open spec fn site_endpoint(settings: Settings) -> Result<Endpoint, ErrorView> {
    endpoint_of(settings.address, text_or(settings.port, DEFAULT_PORT@))
}

/// The endpoint of the metrics listener.
pub open spec fn metrics_endpoint(settings: Settings) -> Result<Endpoint, ErrorView> {
    endpoint_of(settings.metrics_address, text_or(settings.metrics_port, DEFAULT_METRICS_PORT@))
}

/// The request timeout that the settings give, in milliseconds.
pub open spec fn site_timeout(settings: Settings) -> Result<nat, NumberError> {
    parse_bounded(text_or(settings.timeout, DEFAULT_TIMEOUT@), u64::MAX as nat)
}

/// The first thing wrong with the site's settings: address, then port, then
/// timeout.
pub open spec fn site_error(settings: Settings) -> Option<ErrorView> {
    match site_endpoint(settings) {
        Err(e) => Some(e),
        Ok(_) => match site_timeout(settings) {
            Err(cause) => Some(ErrorView::Timeout(cause)),
            Ok(_) => None,
        },
    }
}

/// `result` is what the settings say of the site: the site with every
/// field as set or defaulted, or the first thing wrong.
pub open spec fn is_site_of(settings: Settings, result: Result<SiteConfig, Error>) -> bool {
    match result {
        Ok(site) => {
            &&& site_error(settings) is None
            &&& site_endpoint(settings) == Ok::<Endpoint, ErrorView>(site.endpoint)
            &&& site.root_dir@ == text_or(settings.dir, DEFAULT_DIR@)
            &&& site.not_found_file@ == text_or(settings.not_found, DEFAULT_NOT_FOUND@)
            &&& site_timeout(settings) == Ok::<nat, NumberError>(site.timeout_ms as nat)
        },
        Err(e) => site_error(settings) == Some(e@),
    }
}

/// `result` is what the settings say of the metrics endpoint.
pub open spec fn is_metrics_of(settings: Settings, result: Result<Endpoint, Error>) -> bool {
    match result {
        Ok(endpoint) => metrics_endpoint(settings) == Ok::<Endpoint, ErrorView>(endpoint),
        Err(e) => metrics_endpoint(settings) == Err::<Endpoint, ErrorView>(e@),
    }
}

/// Metrics are on unless the setting holds something other than `true` or `1`.
pub open spec fn metrics_on(setting: Option<String>) -> bool {
    match setting {
        None => true,
        Some(text) => text@ == "true"@ || text@ == "1"@,
    }
}

/// The text of a setting, or `default` where it is unset.
pub fn setting_or<'a>(setting: &'a Option<String>, default: &'a str) -> (text: &'a str)
    ensures
        text@ == text_or(*setting, default@),
{
    match setting {
        Some(text) => text.as_str(),
        None => default,
    }
}

/// Reads a port.
pub fn parse_port(text: &str) -> (result: Result<u16, Error>)
    ensures
        match result {
            Ok(port) => port_of(text@) == Ok::<u16, NumberError>(port),
            Err(e) => port_of(text@) is Err && e@ == ErrorView::Port(port_of(text@)->Err_0),
        },
{
    match parse_decimal(text, 65535) {
        Err(cause) => Err(Error::Port(cause)),
        Ok(n) => {
            if n == 0 {
                Err(Error::Port(NumberError::Zero))
            } else {
                Ok(n as u16)
            }
        },
    }
}

/// Reads a request timeout in milliseconds.
pub fn parse_timeout(text: &str) -> (result: Result<u64, Error>)
    ensures
        match result {
            Ok(ms) => parse_bounded(text@, u64::MAX as nat) == Ok::<nat, NumberError>(ms as nat),
            Err(e) => parse_bounded(text@, u64::MAX as nat) is Err && e@ == ErrorView::Timeout(
                parse_bounded(text@, u64::MAX as nat)->Err_0,
            ),
        },
{
    match parse_decimal(text, u64::MAX) {
        Err(cause) => Err(Error::Timeout(cause)),
        Ok(ms) => Ok(ms),
    }
}

/// Whether the metrics listener is wanted.
pub fn metrics_enabled(setting: &Option<String>) -> (on: bool)
    ensures
        on == metrics_on(*setting),
{
    match setting {
        None => true,
        Some(text) => same_text(text.as_str(), "true") || same_text(text.as_str(), "1"),
    }
}

impl Endpoint {
    /// The endpoint that an address setting and a port text give.
    pub fn from_settings(address: &AddressSetting, port: &str) -> (result: Result<Endpoint, Error>)
        ensures
            match result {
                Ok(endpoint) => endpoint_of(*address, port@) == Ok::<Endpoint, ErrorView>(endpoint),
                Err(e) => endpoint_of(*address, port@) == Err::<Endpoint, ErrorView>(e@),
            },
    {
        let ip: IpAddress = match address {
            AddressSetting::Unset => IpAddress::V4(0),
            AddressSetting::Address(ip) => *ip,
            AddressSetting::Invalid(why) => {
                return Err(Error::IpAddr(why.clone()));
            },
        };
        match parse_port(port) {
            Err(e) => Err(e),
            Ok(number) => Ok(Endpoint { address: ip, port: number }),
        }
    }

    /// The endpoint of the metrics listener.
    pub fn for_metrics(settings: &Settings) -> (result: Result<Endpoint, Error>)
        ensures
            is_metrics_of(*settings, result),
    {
        Endpoint::from_settings(
            &settings.metrics_address,
            setting_or(&settings.metrics_port, DEFAULT_METRICS_PORT),
        )
    }
}

impl SiteConfig {
    /// What the settings say of the site, or the first thing wrong with them.
    pub fn from_settings(settings: &Settings) -> (result: Result<SiteConfig, Error>)
        ensures
            is_site_of(*settings, result),
    {
        let endpoint: Endpoint = match Endpoint::from_settings(
            &settings.address,
            setting_or(&settings.port, DEFAULT_PORT),
        ) {
            Err(e) => {
                return Err(e);
            },
            Ok(endpoint) => endpoint,
        };
        let timeout_ms: u64 = match parse_timeout(setting_or(&settings.timeout, DEFAULT_TIMEOUT)) {
            Err(e) => {
                return Err(e);
            },
            Ok(ms) => ms,
        };
        Ok(
            SiteConfig {
                endpoint,
                root_dir: setting_or(&settings.dir, DEFAULT_DIR).to_owned(),
                not_found_file: setting_or(&settings.not_found, DEFAULT_NOT_FOUND).to_owned(),
                timeout_ms,
            },
        )
    }

    /// The document that answers a request for `/`.
    pub fn index_path(&self) -> (path: String)
        ensures
            path@ == join(self.root_dir@, INDEX_FILE@),
    {
        join_path(self.root_dir.as_str(), INDEX_FILE)
    }

    /// The page that answers a request for something missing.
    pub fn not_found_path(&self) -> (path: String)
        ensures
            path@ == join(self.root_dir@, self.not_found_file@),
    {
        join_path(self.root_dir.as_str(), self.not_found_file.as_str())
    }

    /// The time allowed to each request, in milliseconds, or `None` where
    /// requests may take as long as they need.
    pub fn timeout(&self) -> (limit: Option<u64>)
        ensures
            limit == if self.timeout_ms > 0 {
                Some(self.timeout_ms)
            } else {
                None
            },
    {
        if self.timeout_ms > 0 {
            Some(self.timeout_ms)
        } else {
            None
        }
    }
}

impl ServerConfig {
    /// Reads every setting.
    pub fn load(settings: &Settings) -> (config: ServerConfig)
        ensures
            config.log_level == level_of_setting(settings.log),
            is_site_of(*settings, config.site),
            match config.metrics {
                Some(result) => metrics_on(settings.metrics) && is_metrics_of(*settings, result),
                None => !metrics_on(settings.metrics),
            },
    {
        ServerConfig {
            log_level: LogLevel::from_setting(&settings.log),
            site: SiteConfig::from_settings(settings),
            metrics: if metrics_enabled(&settings.metrics) {
                Some(Endpoint::for_metrics(settings))
            } else {
                None
            },
        }
    }
}

} // verus!
