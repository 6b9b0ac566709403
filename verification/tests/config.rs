//! Tests of configuration validation and of the produced texts.

use domain_watcher::config::{is_plausible_domain, validate_config, ConfigError, WatchConfig};
use domain_watcher::messages::{
    available_message, notification_body, notification_subject, still_taken_message,
};

fn good_config() -> WatchConfig {
    WatchConfig {
        smtp_server: "smtp.example.com".to_string(),
        smtp_port: 465,
        smtp_user: "watcher@example.com".to_string(),
        smtp_pass: "password".to_string(),
        domain_name: "example.com".to_string(),
        email: "operator@example.com".to_string(),
        log: false,
        provider: "whoisjson.com".to_string(),
        api_key: "key".to_string(),
        frequency: 1,
    }
}

#[test]
fn valid_config_passes() {
    assert_eq!(validate_config(&good_config()), Ok(()));
}

#[test]
fn invalid_sender_is_reported() {
    let mut c = good_config();
    c.smtp_user = "not an address".to_string();
    assert_eq!(
        validate_config(&c),
        Err(ConfigError::InvalidSenderAddress)
    );
}

#[test]
fn invalid_recipient_is_reported() {
    let mut c = good_config();
    c.email = "operator@".to_string();
    assert_eq!(
        validate_config(&c),
        Err(ConfigError::InvalidRecipientAddress)
    );
}

#[test]
fn implausible_domain_is_reported() {
    let mut c = good_config();
    c.domain_name = "nodot".to_string();
    assert_eq!(validate_config(&c), Err(ConfigError::ImplausibleDomain));
}

#[test]
fn zero_port_is_reported() {
    let mut c = good_config();
    c.smtp_port = 0;
    assert_eq!(validate_config(&c), Err(ConfigError::ZeroPort));
}

#[test]
fn zero_frequency_is_reported() {
    let mut c = good_config();
    c.frequency = 0;
    assert_eq!(validate_config(&c), Err(ConfigError::ZeroFrequency));
}

#[test]
fn first_fault_wins() {
    let mut c = good_config();
    c.smtp_user = "bad".to_string();
    c.domain_name = String::new();
    c.frequency = 0;
    assert_eq!(
        validate_config(&c),
        Err(ConfigError::InvalidSenderAddress)
    );
}

#[test]
fn plausible_domains() {
    for d in ["example.com", "a.b", "sub.domain.example.co.uk", "xn--bcher-kva.example"] {
        assert!(is_plausible_domain(d), "{d}");
    }
}

#[test]
fn implausible_domains() {
    for d in [
        "",
        "nodot",
        ".example.com",
        "-example.com",
        "example.com.",
        "example.com-",
        "exa mple.com",
        "exam_ple.com",
    ] {
        assert!(!is_plausible_domain(d), "{d}");
    }
}

#[test]
fn notification_texts_name_the_domain() {
    assert_eq!(
        notification_subject("example.com"),
        "Domain example.com is available!"
    );
    assert_eq!(notification_body(), "Domain available! Go get it!");
    assert_eq!(
        available_message("example.com"),
        "Domain example.com is available!"
    );
    assert_eq!(
        still_taken_message("example.com"),
        "Domain example.com is still not available. Keep lurking."
    );
}
