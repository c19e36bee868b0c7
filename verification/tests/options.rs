use catalog_client::transport::DEFAULT_USER_AGENT;
use catalog_client::{ClientOptions, Protocol, TransportSetting};
use reqwest::header::{HeaderMap, HeaderValue};
use std::time::Duration;

#[test]
fn new_asks_for_identification_and_tls_only() {
    let options = ClientOptions::new();
    assert_eq!(
        options.transport_settings(),
        vec![TransportSetting::DefaultUserAgent, TransportSetting::HttpsOnly(true)]
    );
    assert_eq!(options.protocol(), Protocol::Negotiated);
}

#[test]
fn default_is_new() {
    let options = ClientOptions::default();
    assert_eq!(options.transport_settings(), ClientOptions::new().transport_settings());
    assert_eq!(options.retry_policy(), ClientOptions::new().retry_policy());
}

#[test]
fn default_user_agent_is_name_and_version() {
    assert_eq!(DEFAULT_USER_AGENT, "catalog_client/0.1.0");
}

#[test]
fn second_timeout_replaces_first() {
    let a = Duration::from_secs(5);
    let b = Duration::from_secs(30);
    let options = ClientOptions::new().with_timeout(a).with_timeout(b);
    assert_eq!(
        options.transport_settings(),
        vec![
            TransportSetting::DefaultUserAgent,
            TransportSetting::Timeout(b),
            TransportSetting::HttpsOnly(true),
        ]
    );
}

#[test]
fn last_value_wins_between_other_setters() {
    let options = ClientOptions::new()
        .with_proxy_url("http://first.example:3128")
        .with_allow_http(true)
        .with_connect_timeout(Duration::from_millis(100))
        .with_proxy_url("http://second.example:3128")
        .with_allow_http(false)
        .with_connect_timeout(Duration::from_millis(250));
    assert_eq!(
        options.transport_settings(),
        vec![
            TransportSetting::DefaultUserAgent,
            TransportSetting::Proxy("http://second.example:3128"),
            TransportSetting::ConnectTimeout(Duration::from_millis(250)),
            TransportSetting::HttpsOnly(true),
        ]
    );
}

#[test]
fn setters_commute_on_different_options() {
    let one = ClientOptions::new()
        .with_timeout(Duration::from_secs(1))
        .with_pool_max_idle_per_host(4)
        .with_http1_only();
    let other = ClientOptions::new()
        .with_http1_only()
        .with_pool_max_idle_per_host(4)
        .with_timeout(Duration::from_secs(1));
    assert_eq!(one.transport_settings(), other.transport_settings());
}

#[test]
fn every_option_shows_in_order() {
    let agent = HeaderValue::from_static("catalog-test/1.0");
    let mut headers = HeaderMap::new();
    headers.insert("x-catalog", HeaderValue::from_static("main"));
    let options = ClientOptions::new()
        .with_allow_http(true)
        .with_allow_invalid_certificates(true)
        .with_http2_only()
        .with_http1_only()
        .with_http2_keep_alive_while_idle()
        .with_http2_keep_alive_timeout(Duration::from_secs(9))
        .with_http2_keep_alive_interval(Duration::from_secs(8))
        .with_pool_max_idle_per_host(7)
        .with_pool_idle_timeout(Duration::from_secs(6))
        .with_connect_timeout(Duration::from_secs(5))
        .with_timeout(Duration::from_secs(4))
        .with_proxy_url("http://proxy.example:8080")
        .with_default_headers(headers.clone())
        .with_user_agent(agent.clone());
    assert_eq!(
        options.transport_settings(),
        vec![
            TransportSetting::UserAgent(&agent),
            TransportSetting::DefaultHeaders(&headers),
            TransportSetting::Proxy("http://proxy.example:8080"),
            TransportSetting::Timeout(Duration::from_secs(4)),
            TransportSetting::ConnectTimeout(Duration::from_secs(5)),
            TransportSetting::PoolIdleTimeout(Duration::from_secs(6)),
            TransportSetting::PoolMaxIdlePerHost(7),
            TransportSetting::Http2KeepAliveInterval(Duration::from_secs(8)),
            TransportSetting::Http2KeepAliveTimeout(Duration::from_secs(9)),
            TransportSetting::Http2KeepAliveWhileIdle,
            TransportSetting::Http1Only,
            TransportSetting::Http2PriorKnowledge,
            TransportSetting::AcceptInvalidCerts,
            TransportSetting::HttpsOnly(false),
        ]
    );
}

#[test]
fn user_agent_replaces_default_identification() {
    let agent = HeaderValue::from_static("first/1");
    let later = HeaderValue::from_static("second/2");
    let options = ClientOptions::new().with_user_agent(agent).with_user_agent(later.clone());
    assert_eq!(
        options.transport_settings(),
        vec![TransportSetting::UserAgent(&later), TransportSetting::HttpsOnly(true)]
    );
}

#[test]
fn flags_set_to_false_leave_no_step() {
    let options = ClientOptions::new()
        .with_allow_invalid_certificates(true)
        .with_allow_invalid_certificates(false)
        .with_allow_http(false);
    assert_eq!(
        options.transport_settings(),
        vec![TransportSetting::DefaultUserAgent, TransportSetting::HttpsOnly(true)]
    );
}

#[test]
fn http1_only_alone_restricts_to_http1() {
    let options = ClientOptions::new().with_http1_only();
    assert_eq!(options.protocol(), Protocol::Http1Only);
    assert_eq!(
        options.transport_settings(),
        vec![
            TransportSetting::DefaultUserAgent,
            TransportSetting::Http1Only,
            TransportSetting::HttpsOnly(true),
        ]
    );
}

#[test]
fn http2_only_alone_restricts_to_http2() {
    let options = ClientOptions::new().with_http2_only();
    assert_eq!(options.protocol(), Protocol::Http2PriorKnowledge);
}

#[test]
fn both_protocol_flags_leave_http2_in_force() {
    let one = ClientOptions::new().with_http1_only().with_http2_only();
    let other = ClientOptions::new().with_http2_only().with_http1_only();
    let expected = vec![
        TransportSetting::DefaultUserAgent,
        TransportSetting::Http1Only,
        TransportSetting::Http2PriorKnowledge,
        TransportSetting::HttpsOnly(true),
    ];
    assert_eq!(one.transport_settings(), expected);
    assert_eq!(other.transport_settings(), expected);
    assert_eq!(one.protocol(), Protocol::Http2PriorKnowledge);
    assert_eq!(other.protocol(), Protocol::Http2PriorKnowledge);
    assert!(one.client().is_ok());
}

#[test]
fn clone_keeps_every_option() {
    let options = ClientOptions::new()
        .with_timeout(Duration::from_secs(2))
        .with_proxy_url("http://proxy.example:8080")
        .with_http2_only();
    let copy = options.clone();
    assert_eq!(copy.transport_settings(), options.transport_settings());
    assert_eq!(copy.retry_policy(), options.retry_policy());
}
