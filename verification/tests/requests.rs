use catalog_client::{ClientOptions, Jitter, RetryConfig};
use reqwest_middleware::ClientWithMiddleware;
use reqwest_retry::RetryError;
use tokio::runtime::Builder;

/// An address on which nothing listens: connecting to it fails at once.
const UNREACHABLE: &str = "http://127.0.0.1:1/";

/// How often the request was retried, and the error of the last attempt.
fn failed_get(client: &ClientWithMiddleware, url: &str) -> (u32, reqwest::Error) {
    let runtime = Builder::new_current_thread().enable_all().build().unwrap();
    let err = runtime.block_on(client.get(url).send()).err().unwrap();
    let err = match err {
        reqwest_middleware::Error::Middleware(e) => e.downcast::<RetryError>().unwrap(),
        reqwest_middleware::Error::Reqwest(e) => panic!("not from the retry middleware: {e}"),
    };
    match err {
        RetryError::WithRetries { retries, err: reqwest_middleware::Error::Reqwest(e) } => {
            (retries, e)
        },
        RetryError::Error(reqwest_middleware::Error::Reqwest(e)) => (0, e),
        other => panic!("unexpected error: {other}"),
    }
}

fn quick_retries(max_retries: u32) -> RetryConfig {
    RetryConfig::new(1, 2, max_retries, Jitter::Off).unwrap()
}

#[test]
fn plain_http_is_refused_by_default() {
    let client = ClientOptions::new().with_retry_config(quick_retries(2)).client().unwrap();
    let (retries, err) = failed_get(&client, UNREACHABLE);
    assert!(err.is_builder());
    assert!(!err.is_connect());
    assert_eq!(retries, 0);
}

#[test]
fn plain_http_is_refused_after_allow_http_is_taken_back() {
    let client = ClientOptions::new()
        .with_allow_http(true)
        .with_allow_http(false)
        .with_retry_config(quick_retries(2))
        .client()
        .unwrap();
    let (_, err) = failed_get(&client, UNREACHABLE);
    assert!(err.is_builder());
}

#[test]
fn plain_http_is_attempted_when_allowed() {
    let client = ClientOptions::new()
        .with_allow_http(true)
        .with_retry_config(quick_retries(0))
        .client()
        .unwrap();
    let (_, err) = failed_get(&client, UNREACHABLE);
    assert!(err.is_connect());
    assert!(!err.is_builder());
}

#[test]
fn failing_request_is_retried_as_often_as_configured() {
    for max_retries in [1, 2, 5] {
        let client = ClientOptions::new()
            .with_allow_http(true)
            .with_retry_config(quick_retries(max_retries))
            .client()
            .unwrap();
        let (retries, err) = failed_get(&client, UNREACHABLE);
        assert!(err.is_connect());
        assert_eq!(retries, max_retries);
    }
}

#[test]
fn failing_request_is_not_retried_with_zero_retries() {
    let client = ClientOptions::new()
        .with_allow_http(true)
        .with_retry_config(quick_retries(0))
        .client()
        .unwrap();
    let (retries, _) = failed_get(&client, UNREACHABLE);
    assert_eq!(retries, 0);
}

#[test]
fn failing_request_is_retried_three_times_by_default() {
    let client = ClientOptions::new().with_allow_http(true).client().unwrap();
    let (retries, err) = failed_get(&client, UNREACHABLE);
    assert!(err.is_connect());
    assert_eq!(retries, 3);
}

#[test]
fn last_retry_config_decides_the_retries() {
    let client = ClientOptions::new()
        .with_retry_config(quick_retries(4))
        .with_allow_http(true)
        .with_retry_config(quick_retries(1))
        .client()
        .unwrap();
    let (retries, _) = failed_get(&client, UNREACHABLE);
    assert_eq!(retries, 1);
}

#[test]
fn each_jitter_retries_as_often_as_configured() {
    for jitter in [Jitter::Off, Jitter::Full, Jitter::Bounded] {
        let cfg = RetryConfig::new(1, 2, 2, jitter).unwrap();
        let client =
            ClientOptions::new().with_allow_http(true).with_retry_config(cfg).client().unwrap();
        let (retries, _) = failed_get(&client, UNREACHABLE);
        assert_eq!(retries, 2);
    }
}
