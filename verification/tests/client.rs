use catalog_client::assembly::{classify_proxy, retrying_client};
use catalog_client::error::{map_client_error, map_transport_error, HTTP_CLIENT};
use catalog_client::transport::MAX_DEFAULT_HEADERS;
use catalog_client::{ClientError, ClientOptions, ErrorKind, Jitter, RetryConfig};
use reqwest::header::HeaderName;
use reqwest::header::{HeaderMap, HeaderValue};
use std::time::Duration;

#[test]
fn builds_with_nothing_set() {
    assert!(ClientOptions::new().client().is_ok());
}

#[test]
fn builds_with_everything_set() {
    let mut headers = HeaderMap::new();
    headers.insert("x-catalog", HeaderValue::from_static("main"));
    let options = ClientOptions::new()
        .with_user_agent(HeaderValue::from_static("catalog-test/1.0"))
        .with_default_headers(headers)
        .with_proxy_url("http://proxy.example:8080")
        .with_timeout(Duration::from_secs(4))
        .with_connect_timeout(Duration::from_secs(5))
        .with_pool_idle_timeout(Duration::from_secs(6))
        .with_pool_max_idle_per_host(7)
        .with_http2_keep_alive_interval(Duration::from_secs(8))
        .with_http2_keep_alive_timeout(Duration::from_secs(9))
        .with_http2_keep_alive_while_idle()
        .with_http1_only()
        .with_allow_invalid_certificates(true)
        .with_allow_http(true)
        .with_retry_config(RetryConfig::new(1, 2, 1, Jitter::Bounded).unwrap());
    assert!(options.client().is_ok());
}

#[test]
fn builds_with_each_jitter() {
    for jitter in [Jitter::Off, Jitter::Full, Jitter::Bounded] {
        let cfg = RetryConfig::new(0, u32::MAX, u32::MAX, jitter).unwrap();
        assert!(ClientOptions::new().with_retry_config(cfg).client().is_ok());
    }
}

#[test]
fn builds_with_allow_http() {
    assert!(ClientOptions::new().with_allow_http(true).client().is_ok());
}

#[test]
fn builds_with_proxy_without_scheme() {
    assert!(ClientOptions::new().with_proxy_url("proxy.example:3128").client().is_ok());
}

/// Headers with `names` different names.
fn numbered_headers(names: usize) -> HeaderMap {
    let mut headers = HeaderMap::new();
    for i in 0..names {
        let name = HeaderName::from_bytes(format!("x-catalog-{i}").as_bytes()).unwrap();
        headers.insert(name, HeaderValue::from_static("main"));
    }
    headers
}

#[test]
fn empty_proxy_url_is_a_configuration_error() {
    let err = ClientOptions::new().with_proxy_url("").client().err().unwrap();
    assert_eq!(err.kind(), ErrorKind::Configuration);
    assert_eq!(err.catalog(), "HTTP client");
    match err {
        ClientError::InvalidProxy { source } => assert!(source.is_builder()),
        other => panic!("unexpected error: {other:?}"),
    }
}

#[test]
fn malformed_proxy_url_is_a_configuration_error() {
    for url in ["http://[::1", "not a url", "http://", "://proxy.example"] {
        let err = ClientOptions::new().with_proxy_url(url).client().err().unwrap();
        assert!(matches!(err, ClientError::InvalidProxy { .. }));
        assert_eq!(err.kind(), ErrorKind::Configuration);
        assert_eq!(err.catalog(), HTTP_CLIENT);
    }
}

#[test]
fn as_many_default_headers_as_allowed_are_taken() {
    assert_eq!(MAX_DEFAULT_HEADERS, 3274);
    let client =
        ClientOptions::new().with_default_headers(numbered_headers(3274)).client().unwrap();
    let shown = format!("{:?}", client);
    assert!(shown.contains("\"x-catalog-0\": \"main\""));
    assert!(shown.contains("\"x-catalog-3273\": \"main\""));
}

#[test]
fn one_default_header_too_many_is_a_configuration_error() {
    let err =
        ClientOptions::new().with_default_headers(numbered_headers(3275)).client().err().unwrap();
    assert!(matches!(err, ClientError::TooManyHeaders { names: 3275 }));
    assert_eq!(err.kind(), ErrorKind::Configuration);
    assert_eq!(err.catalog(), "HTTP client");
}

#[test]
fn repeated_header_names_count_once() {
    let mut headers = numbered_headers(3274);
    headers.append("x-catalog-0", HeaderValue::from_static("again"));
    assert_eq!(headers.len(), 3275);
    assert!(ClientOptions::new().with_default_headers(headers).client().is_ok());
}

#[test]
fn too_many_headers_are_reported_before_a_malformed_proxy() {
    let options = ClientOptions::new()
        .with_proxy_url("http://[::1")
        .with_default_headers(numbered_headers(4000));
    let err = options.client().err().unwrap();
    assert!(matches!(err, ClientError::TooManyHeaders { names: 4000 }));
}

#[test]
fn later_default_headers_decide() {
    let options = ClientOptions::new()
        .with_default_headers(numbered_headers(4000))
        .with_default_headers(numbered_headers(3));
    assert!(options.client().is_ok());
}

#[test]
fn malformed_proxy_url_fails_whatever_else_is_set() {
    let options = ClientOptions::new()
        .with_allow_http(true)
        .with_timeout(Duration::from_secs(1))
        .with_proxy_url("http://[::1")
        .with_http2_only()
        .with_retry_config(RetryConfig::with_max_retries(0));
    let err = options.client().err().unwrap();
    assert!(matches!(err, ClientError::InvalidProxy { .. }));
}

#[test]
fn later_proxy_url_decides() {
    let mended = ClientOptions::new()
        .with_proxy_url("http://[::1")
        .with_proxy_url("http://proxy.example:8080");
    assert!(mended.client().is_ok());
    let broken = ClientOptions::new()
        .with_proxy_url("http://proxy.example:8080")
        .with_proxy_url("http://[::1");
    assert!(broken.client().is_err());
}

#[test]
fn map_client_error_tags_a_configuration_error() {
    let cause = reqwest::Proxy::all("http://[::1").err().unwrap();
    let text = cause.to_string();
    let err = map_client_error(cause);
    assert_eq!(err.kind(), ErrorKind::Configuration);
    assert_eq!(err.catalog(), "HTTP client");
    match err {
        ClientError::InvalidProxy { source } => assert_eq!(source.to_string(), text),
        other => panic!("unexpected error: {other:?}"),
    }
}

#[test]
fn map_transport_error_tags_a_transport_error() {
    let cause = reqwest::Proxy::all("http://[::1").err().unwrap();
    let text = cause.to_string();
    let err = map_transport_error(cause);
    assert_eq!(err.kind(), ErrorKind::Transport);
    assert_eq!(err.catalog(), "HTTP client");
    match err {
        ClientError::Transport { source } => assert_eq!(source.to_string(), text),
        other => panic!("unexpected error: {other:?}"),
    }
}

#[test]
fn client_can_be_built_twice() {
    let options = ClientOptions::new().with_timeout(Duration::from_secs(3));
    assert!(options.client().is_ok());
    assert!(options.client().is_ok());
}

#[test]
fn classify_proxy_keeps_a_parsed_proxy() {
    assert!(classify_proxy(reqwest::Proxy::all("http://proxy.example:8080")).is_ok());
}

#[test]
fn classify_proxy_turns_a_parse_error_into_a_configuration_error() {
    let parsed = reqwest::Proxy::all("http://[::1");
    let text = parsed.as_ref().err().unwrap().to_string();
    match classify_proxy(parsed).err().unwrap() {
        ClientError::InvalidProxy { source } => assert_eq!(source.to_string(), text),
        other => panic!("unexpected error: {other:?}"),
    }
}

#[test]
fn retrying_client_wraps_a_built_transport() {
    let built = reqwest::Client::builder().build();
    assert!(built.is_ok());
    assert!(retrying_client(built, &RetryConfig::default_policy()).is_ok());
}

#[test]
fn retrying_client_turns_a_build_error_into_a_transport_error() {
    let built = reqwest::Client::builder().user_agent("line\nbreak").build();
    let text = built.as_ref().err().unwrap().to_string();
    match retrying_client(built, &RetryConfig::default_policy()).err().unwrap() {
        ClientError::Transport { source } => assert_eq!(source.to_string(), text),
        other => panic!("unexpected error: {other:?}"),
    }
}

#[test]
fn default_user_agent_is_installed() {
    let client = ClientOptions::new().client().unwrap();
    let shown = format!("{:?}", client);
    assert!(shown.contains("\"user-agent\": \"catalog_client/0.1.0\""));
    assert!(!shown.contains("TotalTimeout"));
    assert!(!shown.contains("Intercept"));
}

#[test]
fn configured_identification_and_headers_are_installed() {
    let mut headers = HeaderMap::new();
    headers.insert("x-catalog", HeaderValue::from_static("main"));
    let client = ClientOptions::new()
        .with_user_agent(HeaderValue::from_static("catalog-test/1.0"))
        .with_default_headers(headers)
        .client()
        .unwrap();
    let shown = format!("{:?}", client);
    assert!(shown.contains("\"user-agent\": \"catalog-test/1.0\""));
    assert!(shown.contains("\"x-catalog\": \"main\""));
    assert!(!shown.contains("catalog_client/0.1.0"));
}

#[test]
fn last_timeout_is_installed() {
    let client = ClientOptions::new()
        .with_timeout(Duration::from_secs(5))
        .with_timeout(Duration::from_secs(30))
        .client()
        .unwrap();
    let shown = format!("{:?}", client);
    assert!(shown.contains("TotalTimeout: 30s"));
    assert!(!shown.contains("TotalTimeout: 5s"));
}

#[test]
fn proxy_is_installed_for_all_traffic() {
    let client = ClientOptions::new().with_proxy_url("http://proxy.example:8080").client().unwrap();
    let shown = format!("{:?}", client);
    assert!(shown.contains("http: Intercept { uri: http://proxy.example:8080/ }"));
    assert!(shown.contains("https: Intercept { uri: http://proxy.example:8080/ }"));
}

#[test]
fn proxy_without_scheme_is_taken_as_http() {
    let client = ClientOptions::new().with_proxy_url("proxy.example:3128").client().unwrap();
    let shown = format!("{:?}", client);
    assert!(shown.contains("uri: http://proxy.example:3128/"));
}

#[test]
fn default_headers_replace_identification_of_the_same_name() {
    let mut headers = numbered_headers(3273);
    headers.insert("user-agent", HeaderValue::from_static("from-headers/1"));
    let client = ClientOptions::new()
        .with_user_agent(HeaderValue::from_static("from-setter/1"))
        .with_default_headers(headers)
        .client()
        .unwrap();
    let shown = format!("{:?}", client);
    assert!(shown.contains("\"user-agent\": \"from-headers/1\""));
    assert!(!shown.contains("from-setter/1"));
}
