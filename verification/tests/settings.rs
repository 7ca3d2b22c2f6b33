use site_server::config::{
    metrics_enabled, parse_port, parse_timeout, setting_or, AddressSetting, Endpoint, IpAddress,
    ServerConfig, Settings, SiteConfig, DEFAULT_DIR, DEFAULT_METRICS_PORT, DEFAULT_NOT_FOUND,
    DEFAULT_PORT, DEFAULT_TIMEOUT,
};
use site_server::error::Error;
use site_server::keys::{key, EnvKeys};
use site_server::level::LogLevel;
use site_server::number::NumberError;
use site_server::text::same_text;

fn unset() -> Settings {
    Settings {
        log: None,
        address: AddressSetting::Unset,
        port: None,
        dir: None,
        not_found: None,
        timeout: None,
        metrics: None,
        metrics_address: AddressSetting::Unset,
        metrics_port: None,
    }
}

fn text(s: &str) -> Option<String> {
    Some(s.to_string())
}

#[test]
fn defaults_are_as_documented() {
    assert_eq!(DEFAULT_DIR, "public");
    assert_eq!(DEFAULT_NOT_FOUND, "404.html");
    assert_eq!(DEFAULT_TIMEOUT, "0");
    assert_eq!(DEFAULT_PORT, "8080");
    assert_eq!(DEFAULT_METRICS_PORT, "8081");
}

#[test]
fn unset_settings_give_the_defaults() {
    let site = SiteConfig::from_settings(&unset()).unwrap();
    assert_eq!(site.endpoint, Endpoint { address: IpAddress::V4(0), port: 8080 });
    assert_eq!(site.root_dir, "public");
    assert_eq!(site.not_found_file, "404.html");
    assert_eq!(site.timeout_ms, 0);
    assert_eq!(site.timeout(), None);
    assert_eq!(site.index_path(), "public/index.html");
    assert_eq!(site.not_found_path(), "public/404.html");
}

#[test]
fn set_settings_are_taken() {
    let mut s = unset();
    s.address = AddressSetting::Address(IpAddress::V4(0x7f00_0001));
    s.port = text("3000");
    s.dir = text("/srv/www");
    s.not_found = text("errors/missing.html");
    s.timeout = text("2500");
    let site = SiteConfig::from_settings(&s).unwrap();
    assert_eq!(site.endpoint, Endpoint { address: IpAddress::V4(0x7f00_0001), port: 3000 });
    assert_eq!(site.root_dir, "/srv/www");
    assert_eq!(site.not_found_file, "errors/missing.html");
    assert_eq!(site.timeout_ms, 2500);
    assert_eq!(site.timeout(), Some(2500));
    assert_eq!(site.index_path(), "/srv/www/index.html");
    assert_eq!(site.not_found_path(), "/srv/www/errors/missing.html");
}

#[test]
fn an_ipv6_address_is_carried_through() {
    let mut s = unset();
    s.address = AddressSetting::Address(IpAddress::V6(1));
    let site = SiteConfig::from_settings(&s).unwrap();
    assert_eq!(site.endpoint.address, IpAddress::V6(1));
}

#[test]
fn ports_run_from_1_to_65535() {
    assert_eq!(parse_port("1"), Ok(1));
    assert_eq!(parse_port("8080"), Ok(8080));
    assert_eq!(parse_port("65535"), Ok(65535));
    assert_eq!(parse_port("0"), Err(Error::Port(NumberError::Zero)));
    assert_eq!(parse_port("65536"), Err(Error::Port(NumberError::TooLarge)));
    assert_eq!(parse_port(""), Err(Error::Port(NumberError::Empty)));
    assert_eq!(parse_port("http"), Err(Error::Port(NumberError::InvalidDigit)));
    assert_eq!(parse_port("-80"), Err(Error::Port(NumberError::InvalidDigit)));
}

#[test]
fn timeouts_are_milliseconds_in_64_bits() {
    assert_eq!(parse_timeout("0"), Ok(0));
    assert_eq!(parse_timeout("1500"), Ok(1500));
    assert_eq!(parse_timeout("18446744073709551615"), Ok(u64::MAX));
    assert_eq!(parse_timeout("18446744073709551616"), Err(Error::Timeout(NumberError::TooLarge)));
    assert_eq!(parse_timeout("soon"), Err(Error::Timeout(NumberError::InvalidDigit)));
    assert_eq!(parse_timeout(""), Err(Error::Timeout(NumberError::Empty)));
    assert_eq!(parse_timeout("1.5"), Err(Error::Timeout(NumberError::InvalidDigit)));
}

#[test]
fn a_bad_address_is_reported_first() {
    let mut s = unset();
    s.address = AddressSetting::Invalid("invalid IP address syntax".to_string());
    s.port = text("99999");
    s.timeout = text("never");
    assert_eq!(
        SiteConfig::from_settings(&s),
        Err(Error::IpAddr("invalid IP address syntax".to_string()))
    );
}

#[test]
fn a_bad_port_is_reported_before_a_bad_timeout() {
    let mut s = unset();
    s.port = text("99999");
    s.timeout = text("never");
    assert_eq!(SiteConfig::from_settings(&s), Err(Error::Port(NumberError::TooLarge)));
}

#[test]
fn a_bad_timeout_is_reported_last() {
    let mut s = unset();
    s.timeout = text("never");
    assert_eq!(SiteConfig::from_settings(&s), Err(Error::Timeout(NumberError::InvalidDigit)));
}

#[test]
fn the_metrics_endpoint_has_its_own_settings() {
    let mut s = unset();
    s.port = text("bad");
    assert_eq!(
        Endpoint::for_metrics(&s),
        Ok(Endpoint { address: IpAddress::V4(0), port: 8081 })
    );
    s.metrics_port = text("9100");
    s.metrics_address = AddressSetting::Address(IpAddress::V4(0x0a00_0001));
    assert_eq!(
        Endpoint::for_metrics(&s),
        Ok(Endpoint { address: IpAddress::V4(0x0a00_0001), port: 9100 })
    );
    s.metrics_port = text("0");
    assert_eq!(Endpoint::for_metrics(&s), Err(Error::Port(NumberError::Zero)));
    s.metrics_address = AddressSetting::Invalid("no".to_string());
    assert_eq!(Endpoint::for_metrics(&s), Err(Error::IpAddr("no".to_string())));
}

#[test]
fn endpoint_from_settings_takes_address_and_port() {
    assert_eq!(
        Endpoint::from_settings(&AddressSetting::Unset, "80"),
        Ok(Endpoint { address: IpAddress::V4(0), port: 80 })
    );
    assert_eq!(
        Endpoint::from_settings(&AddressSetting::Address(IpAddress::V6(7)), "+443"),
        Ok(Endpoint { address: IpAddress::V6(7), port: 443 })
    );
}

#[test]
fn metrics_are_on_unless_told_otherwise() {
    assert!(metrics_enabled(&None));
    assert!(metrics_enabled(&text("true")));
    assert!(metrics_enabled(&text("1")));
    assert!(!metrics_enabled(&text("false")));
    assert!(!metrics_enabled(&text("0")));
    assert!(!metrics_enabled(&text("")));
    assert!(!metrics_enabled(&text("TRUE")));
    assert!(!metrics_enabled(&text("yes")));
    assert!(!metrics_enabled(&text(" true")));
}

#[test]
fn one_listener_s_mistake_leaves_the_other_alone() {
    let mut s = unset();
    s.port = text("http");
    let config = ServerConfig::load(&s);
    assert_eq!(config.site, Err(Error::Port(NumberError::InvalidDigit)));
    assert_eq!(config.metrics, Some(Ok(Endpoint { address: IpAddress::V4(0), port: 8081 })));
    assert_eq!(config.log_level, LogLevel::Warn);

    let mut s = unset();
    s.metrics_port = text("http");
    let config = ServerConfig::load(&s);
    assert!(config.site.is_ok());
    assert_eq!(config.metrics, Some(Err(Error::Port(NumberError::InvalidDigit))));
}

#[test]
fn metrics_switched_off_are_not_configured() {
    let mut s = unset();
    s.metrics = text("off");
    s.metrics_port = text("http");
    s.log = text("debug");
    let config = ServerConfig::load(&s);
    assert_eq!(config.metrics, None);
    assert_eq!(config.log_level, LogLevel::Debug);
}

#[test]
fn setting_or_prefers_the_setting() {
    assert_eq!(setting_or(&text("x"), "y"), "x");
    assert_eq!(setting_or(&text(""), "y"), "");
    assert_eq!(setting_or(&None, "y"), "y");
}

#[test]
fn same_text_compares_character_by_character() {
    assert!(same_text("", ""));
    assert!(same_text("/", "/"));
    assert!(same_text("héllo", "héllo"));
    assert!(!same_text("/", "//"));
    assert!(!same_text("a", "b"));
    assert!(!same_text("true", "True"));
}

#[test]
fn keys_carry_the_application_s_name_in_capitals() {
    let keys = EnvKeys::for_application("app");
    assert_eq!(keys.log, "APP_LOG");
    assert_eq!(keys.address, "APP_ADDR");
    assert_eq!(keys.port, "APP_PORT");
    assert_eq!(keys.dir, "APP_DIR");
    assert_eq!(keys.not_found, "APP_404");
    assert_eq!(keys.timeout, "APP_TIMEOUT");
    assert_eq!(keys.metrics, "APP_METRICS");
    assert_eq!(keys.metrics_address, "METRICS_ADDR");
    assert_eq!(keys.metrics_port, "METRICS_PORT");
}

#[test]
fn keys_of_a_name_with_underscores() {
    let keys = EnvKeys::for_application("site_server");
    assert_eq!(keys.port, "SITE_SERVER_PORT");
    assert_eq!(keys.not_found, "SITE_SERVER_404");
}

#[test]
fn keys_under_a_given_prefix_keep_it_as_it_is() {
    let keys = EnvKeys::with_prefix("app");
    assert_eq!(keys.log, "app_LOG");
    assert_eq!(keys.metrics_port, "METRICS_PORT");
    assert_eq!(key("A", "_B"), "A_B");
}

#[test]
fn error_messages_are_fixed() {
    assert_eq!(Error::Port(NumberError::Zero).message(), "port must be a positive integer (u16)");
    assert_eq!(
        Error::Timeout(NumberError::Empty).message(),
        "timeout must be a positive integer (u64)"
    );
    assert_eq!(Error::Io("address in use".to_string()).message(), "address in use");
    assert_eq!(Error::IpAddr("invalid IP address syntax".to_string()).message(), "invalid IP address syntax");
}

#[test]
fn errors_name_their_cause() {
    assert_eq!(Error::Port(NumberError::Zero).cause(), Some(NumberError::Zero));
    assert_eq!(Error::Timeout(NumberError::TooLarge).cause(), Some(NumberError::TooLarge));
    assert_eq!(Error::Io("x".to_string()).cause(), None);
    assert_eq!(Error::IpAddr("x".to_string()).cause(), None);
}
