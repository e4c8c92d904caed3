use fern::config::DEFAULT_RUNPOD_API_BASE;
use fern::{Config, Error};

#[test]
fn account_key_has_precedence() {
    let config =
        Config::from_values(Some("account-key".into()), Some("pod-key".into()), None).unwrap();

    assert_eq!(config.runpod_api_key(), "account-key");
    assert_eq!(config.credential_source(), "RUNPOD_ACCOUNT_API_KEY");
}

#[test]
fn pod_or_local_key_is_the_fallback() {
    let config = Config::from_values(None, Some("local-key".into()), None).unwrap();

    assert_eq!(config.runpod_api_key(), "local-key");
    assert_eq!(config.credential_source(), "RUNPOD_API_KEY");
}

#[test]
fn missing_key_is_rejected() {
    let error = Config::from_values(None, None, None).err().unwrap();
    assert!(error.to_string().contains("RUNPOD_API_KEY"));
}

#[test]
fn base_url_is_normalized() {
    let config = Config::from_values(
        Some("key".into()),
        None,
        Some("http://localhost:1234/v1".into()),
    )
    .unwrap();

    assert_eq!(
        config.runpod_api_base().as_str(),
        "http://localhost:1234/v1/"
    );
}

#[test]
fn insecure_remote_url_is_rejected() {
    let error = Config::from_values(
        Some("key".into()),
        None,
        Some("http://example.com/v1".into()),
    )
    .err()
    .unwrap();

    assert!(error.to_string().contains("must use HTTPS"));
}

#[test]
fn blank_account_key_falls_back_to_pod_key() {
    let config =
        Config::from_values(Some(" \t\n".into()), Some("pod-key".into()), None).unwrap();
    assert_eq!(config.runpod_api_key(), "pod-key");
    assert_eq!(config.credential_source(), "RUNPOD_API_KEY");
}

#[test]
fn blank_keys_are_missing_keys() {
    let error = Config::from_values(Some("   ".into()), Some("\u{3000}".into()), None)
        .err()
        .unwrap();
    match &error {
        Error::Config(message) => {
            assert_eq!(message, "set RUNPOD_ACCOUNT_API_KEY or RUNPOD_API_KEY")
        }
        other => panic!("unexpected error {other:?}"),
    }
    assert_eq!(
        error.to_string(),
        "configuration error: set RUNPOD_ACCOUNT_API_KEY or RUNPOD_API_KEY"
    );
}

#[test]
fn key_is_kept_untrimmed() {
    let config = Config::from_values(Some(" padded ".into()), None, None).unwrap();
    assert_eq!(config.runpod_api_key(), " padded ");
}

#[test]
fn default_base_is_runpod_rest_api() {
    let config = Config::from_values(Some("key".into()), None, None).unwrap();
    assert_eq!(config.runpod_api_base().as_str(), DEFAULT_RUNPOD_API_BASE);
    assert_eq!(config.runpod_api_base().scheme(), "https");
    assert_eq!(config.runpod_api_base().host_str(), Some("rest.runpod.io"));
}

#[test]
fn trailing_slash_is_not_doubled() {
    let config = Config::from_values(
        Some("key".into()),
        None,
        Some("https://api.example.com/v2/".into()),
    )
    .unwrap();
    assert_eq!(config.runpod_api_base().as_str(), "https://api.example.com/v2/");
}

#[test]
fn loopback_hosts_may_use_http() {
    for base in ["http://127.0.0.1:8080", "http://[::1]:9000/api"] {
        let config = Config::from_values(Some("key".into()), None, Some(base.into())).unwrap();
        assert_eq!(config.runpod_api_base().scheme(), "http");
    }
}

#[test]
fn unparsable_base_is_an_invalid_url() {
    let error = Config::from_values(Some("key".into()), None, Some("not a url".into()))
        .err()
        .unwrap();
    assert!(matches!(
        error,
        Error::InvalidUrl(fern::api_url::UrlError::RelativeUrlWithoutBase)
    ));
    assert_eq!(
        error.to_string(),
        "invalid Runpod API URL: relative URL without a base"
    );
}

#[test]
fn insecure_message_is_exact() {
    let error = Config::from_values(
        Some("key".into()),
        None,
        Some("ftp://localhost.example/".into()),
    )
    .err()
    .unwrap();
    assert_eq!(
        error.to_string(),
        "configuration error: FERN_RUNPOD_API_BASE must use HTTPS (HTTP is allowed only for localhost tests)"
    );
}

#[test]
fn bad_port_is_described() {
    let error = Config::from_values(
        Some("key".into()),
        None,
        Some("https://rest.runpod.io:99999/v1".into()),
    )
    .err()
    .unwrap();
    assert_eq!(
        error.to_string(),
        format!("invalid Runpod API URL: {}", url::ParseError::InvalidPort)
    );
}
