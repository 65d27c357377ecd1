//! Configuration construction and the file-value selection logic.
use qarnot::config::{Config, Error};

#[test]
fn explicit_values_build_a_config() {
    let c = Config::new(
        "https://api.example.test",
        "SECRET-REDACTED",
        Some("v2"),
        Some("https://storage.example.test".to_string()),
    );
    assert_eq!(c.api_url, "https://api.example.test");
    assert_eq!(c.version, "v2");
    assert_eq!(
        c.storage_url.as_deref(),
        Some("https://storage.example.test")
    );
}

#[test]
fn the_version_defaults_to_v1() {
    let c = Config::new("https://api.example.test", "SECRET-REDACTED", None, None);
    assert_eq!(c.version, "v1");
    assert!(c.storage_url.is_none());
}

#[test]
fn file_values_need_url_and_token() {
    let ok = Config::from_values(
        Some("https://api.example.test".to_string()),
        Some("SECRET-REDACTED".to_string()),
        None,
        None,
    )
    .expect("url and token suffice");
    assert_eq!(ok.version, "v1");

    let versioned = Config::from_values(
        Some("https://api.example.test".to_string()),
        Some("SECRET-REDACTED".to_string()),
        Some("v3".to_string()),
        Some("https://storage.example.test".to_string()),
    )
    .expect("all four load");
    assert_eq!(versioned.version, "v3");
    assert_eq!(
        versioned.storage_url.as_deref(),
        Some("https://storage.example.test")
    );

    assert!(matches!(
        Config::from_values(None, Some("SECRET-REDACTED".to_string()), None, None),
        Err(Error::InvalidConfig)
    ));
    assert!(matches!(
        Config::from_values(Some("https://api.example.test".to_string()), None, None, None),
        Err(Error::InvalidConfig)
    ));
    assert!(matches!(
        Config::from_values(None, None, None, None),
        Err(Error::InvalidConfig)
    ));
}
