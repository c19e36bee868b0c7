//! The transport and retry crates as the verifier sees them.
//!
//! Everything in this module is taken on trust: the types are opaque, and the
//! contracts of the functions are believed, not proved. What a call returns
//! is given a name where it depends on the arguments alone; the names say
//! which call was made on what, and nothing of what the call does.

use crate::retry::Jitter;
use reqwest::header::{HeaderMap, HeaderValue};
use reqwest::{Client, ClientBuilder, Proxy};
use reqwest_middleware::ClientWithMiddleware;
use reqwest_retry::policies::ExponentialBackoff;
use reqwest_retry::RetryTransientMiddleware;
use std::time::Duration;
use vstd::prelude::*;

verus! {

/// `http::HeaderValue`, opaque.
#[verifier::external_type_specification]
#[verifier::external_body]
pub struct ExHeaderValue(reqwest::header::HeaderValue);

/// `http::HeaderMap`, opaque.
#[verifier::external_type_specification]
#[verifier::external_body]
#[verifier::reject_recursive_types(T)]
pub struct ExHeaderMap<T>(reqwest::header::HeaderMap<T>);

/// `reqwest::ClientBuilder`, opaque.
#[verifier::external_type_specification]
#[verifier::external_body]
pub struct ExClientBuilder(reqwest::ClientBuilder);

/// `reqwest::Client`, opaque.
#[verifier::external_type_specification]
#[verifier::external_body]
pub struct ExClient(reqwest::Client);

/// `reqwest::Proxy`, opaque.
#[verifier::external_type_specification]
#[verifier::external_body]
pub struct ExProxy(reqwest::Proxy);

/// `reqwest::Error`, opaque.
#[verifier::external_type_specification]
#[verifier::external_body]
pub struct ExTransportError(reqwest::Error);

/// `reqwest_middleware::ClientWithMiddleware`, opaque.
#[verifier::external_type_specification]
#[verifier::external_body]
pub struct ExClientWithMiddleware(reqwest_middleware::ClientWithMiddleware);

/// `retry_policies::policies::ExponentialBackoff`, opaque.
#[verifier::external_type_specification]
#[verifier::external_body]
pub struct ExExponentialBackoff(reqwest_retry::policies::ExponentialBackoff);

/// What `reqwest::Proxy::all` makes of `url`: a proxy for all traffic, or
/// `None` where it refuses the URL. The answer is a matter of URL syntax
/// alone, so it is the same wherever and whenever it is asked.
pub uninterp spec fn parsed_proxy(url: Seq<char>) -> Option<Proxy>;

/// `reqwest::Proxy::all` on a string: the proxy when the URL parses, and the
/// parse error when it does not.
#[verifier::external_body]
pub(crate) fn parse_proxy(url: &str) -> (parsed: Result<Proxy, reqwest::Error>)
    ensures
        parsed is Ok <==> parsed_proxy(url@) is Some,
        parsed matches Ok(proxy) ==> parsed_proxy(url@) == Some(proxy),
{
    Proxy::all(url)
}

/// `builder` is what `reqwest::ClientBuilder::new` returns: the transport's
/// defaults, with the one header name `accept`.
pub uninterp spec fn fresh(builder: ClientBuilder) -> bool;

/// `reqwest::ClientBuilder::new`.
pub assume_specification[ reqwest::ClientBuilder::new ]() -> (builder: ClientBuilder)
    ensures
        fresh(builder),
;

/// `builder` after `reqwest::ClientBuilder::user_agent` on the header value
/// `agent`.
pub uninterp spec fn agent_set(builder: ClientBuilder, agent: HeaderValue) -> ClientBuilder;

/// `reqwest::ClientBuilder::user_agent` on a header value.
#[verifier::external_body]
pub(crate) fn user_agent(builder: ClientBuilder, agent: &HeaderValue) -> (next: ClientBuilder)
    ensures
        next == agent_set(builder, *agent),
{
    builder.user_agent(agent)
}

/// `builder` after `reqwest::ClientBuilder::user_agent` on the text `agent`.
pub uninterp spec fn agent_text_set(builder: ClientBuilder, agent: Seq<char>) -> ClientBuilder;

/// `reqwest::ClientBuilder::user_agent` on text. Text that is no valid header
/// value makes the later `build` fail; the call itself returns.
#[verifier::external_body]
pub(crate) fn user_agent_text(builder: ClientBuilder, agent: &str) -> (next: ClientBuilder)
    ensures
        next == agent_text_set(builder, agent@),
{
    builder.user_agent(agent)
}

/// The header names that `headers` holds, each once however many values it
/// has.
pub uninterp spec fn header_names(headers: HeaderMap) -> Set<Seq<char>>;

/// `http::HeaderMap::keys_len`: how many header names the map holds.
#[verifier::external_body]
pub(crate) fn count_header_names(headers: &HeaderMap) -> (count: usize)
    ensures
        count == header_names(*headers).len(),
{
    headers.keys_len()
}

/// `builder` is a fresh builder that has taken a user agent and nothing
/// else, so that it holds at most the two header names `accept` and
/// `user-agent`.
pub open spec fn identified(builder: ClientBuilder) -> bool {
    ||| exists|start: ClientBuilder, agent: HeaderValue| #[trigger]
        fresh(start) && builder == #[trigger] agent_set(start, agent)
    ||| exists|start: ClientBuilder, agent: Seq<char>| #[trigger]
        fresh(start) && builder == #[trigger] agent_text_set(start, agent)
}

/// `builder` after `reqwest::ClientBuilder::default_headers` on `headers`.
pub uninterp spec fn headers_set(builder: ClientBuilder, headers: HeaderMap) -> ClientBuilder;

/// `reqwest::ClientBuilder::default_headers` on a copy of `headers`.
///
/// The builder inserts each name into its own header map, and
/// `http::HeaderMap::insert` panics when that map cannot grow. By its source
/// the map grows by doubling its table, and only a table of 32768 slots
/// cannot be doubled. A table gets that large only by doubling one of 16384
/// slots, which the map does when it holds 12288 names or, after long probe
/// sequences, at least a fifth of 16384, that is 3277 names. The
/// precondition keeps the map at 3276 names or fewer: at most the two that
/// an identified builder holds, and at most 3274 that it is given.
#[verifier::external_body]
pub(crate) fn default_headers(builder: ClientBuilder, headers: &HeaderMap) -> (next:
    ClientBuilder)
    requires
        identified(builder),
        header_names(*headers).len() <= 3274,
    ensures
        next == headers_set(builder, *headers),
{
    builder.default_headers(headers.clone())
}

/// `builder` after `reqwest::ClientBuilder::proxy` on `proxy`. Which traffic
/// the transport then routes through the proxy is the transport's matter.
pub uninterp spec fn proxy_set(builder: ClientBuilder, proxy: Proxy) -> ClientBuilder;

/// `reqwest::ClientBuilder::proxy`.
pub assume_specification[ reqwest::ClientBuilder::proxy ](
    builder: ClientBuilder,
    proxy: Proxy,
) -> (next: ClientBuilder)
    ensures
        next == proxy_set(builder, proxy),
;

/// `builder` after `reqwest::ClientBuilder::timeout` on `timeout`.
pub uninterp spec fn timeout_set(builder: ClientBuilder, timeout: Duration) -> ClientBuilder;

/// `reqwest::ClientBuilder::timeout`.
pub assume_specification[ reqwest::ClientBuilder::timeout ](
    builder: ClientBuilder,
    timeout: Duration,
) -> (next: ClientBuilder)
    ensures
        next == timeout_set(builder, timeout),
;

/// `builder` after `reqwest::ClientBuilder::connect_timeout` on `timeout`.
pub uninterp spec fn connect_timeout_set(builder: ClientBuilder, timeout: Duration) -> ClientBuilder;

/// `reqwest::ClientBuilder::connect_timeout`.
pub assume_specification[ reqwest::ClientBuilder::connect_timeout ](
    builder: ClientBuilder,
    timeout: Duration,
) -> (next: ClientBuilder)
    ensures
        next == connect_timeout_set(builder, timeout),
;

/// `builder` after `reqwest::ClientBuilder::pool_idle_timeout` on `timeout`.
pub uninterp spec fn pool_idle_timeout_set(
    builder: ClientBuilder,
    timeout: Duration,
) -> ClientBuilder;

/// `reqwest::ClientBuilder::pool_idle_timeout` on a duration.
#[verifier::external_body]
pub(crate) fn pool_idle_timeout(builder: ClientBuilder, timeout: Duration) -> (next:
    ClientBuilder)
    ensures
        next == pool_idle_timeout_set(builder, timeout),
{
    builder.pool_idle_timeout(timeout)
}

/// `builder` after `reqwest::ClientBuilder::pool_max_idle_per_host` on `max`.
pub uninterp spec fn pool_max_idle_set(builder: ClientBuilder, max: usize) -> ClientBuilder;

/// `reqwest::ClientBuilder::pool_max_idle_per_host`.
pub assume_specification[ reqwest::ClientBuilder::pool_max_idle_per_host ](
    builder: ClientBuilder,
    max: usize,
) -> (next: ClientBuilder)
    ensures
        next == pool_max_idle_set(builder, max),
;

/// `builder` after `reqwest::ClientBuilder::http2_keep_alive_interval` on
/// `interval`.
pub uninterp spec fn keep_alive_interval_set(
    builder: ClientBuilder,
    interval: Duration,
) -> ClientBuilder;

/// `reqwest::ClientBuilder::http2_keep_alive_interval` on a duration.
#[verifier::external_body]
pub(crate) fn http2_keep_alive_interval(builder: ClientBuilder, interval: Duration) -> (next:
    ClientBuilder)
    ensures
        next == keep_alive_interval_set(builder, interval),
{
    builder.http2_keep_alive_interval(interval)
}

/// `builder` after `reqwest::ClientBuilder::http2_keep_alive_timeout` on
/// `timeout`.
pub uninterp spec fn keep_alive_timeout_set(
    builder: ClientBuilder,
    timeout: Duration,
) -> ClientBuilder;

/// `reqwest::ClientBuilder::http2_keep_alive_timeout`.
pub assume_specification[ reqwest::ClientBuilder::http2_keep_alive_timeout ](
    builder: ClientBuilder,
    timeout: Duration,
) -> (next: ClientBuilder)
    ensures
        next == keep_alive_timeout_set(builder, timeout),
;

/// `builder` after `reqwest::ClientBuilder::http2_keep_alive_while_idle` on
/// `enabled`.
pub uninterp spec fn keep_alive_while_idle_set(
    builder: ClientBuilder,
    enabled: bool,
) -> ClientBuilder;

/// `reqwest::ClientBuilder::http2_keep_alive_while_idle`.
pub assume_specification[ reqwest::ClientBuilder::http2_keep_alive_while_idle ](
    builder: ClientBuilder,
    enabled: bool,
) -> (next: ClientBuilder)
    ensures
        next == keep_alive_while_idle_set(builder, enabled),
;

/// `builder` after `reqwest::ClientBuilder::http1_only`.
pub uninterp spec fn http1_only_set(builder: ClientBuilder) -> ClientBuilder;

/// `reqwest::ClientBuilder::http1_only`.
pub assume_specification[ reqwest::ClientBuilder::http1_only ](builder: ClientBuilder) -> (next:
    ClientBuilder)
    ensures
        next == http1_only_set(builder),
;

/// `builder` after `reqwest::ClientBuilder::http2_prior_knowledge`.
pub uninterp spec fn http2_prior_knowledge_set(builder: ClientBuilder) -> ClientBuilder;

/// `reqwest::ClientBuilder::http2_prior_knowledge`.
pub assume_specification[ reqwest::ClientBuilder::http2_prior_knowledge ](
    builder: ClientBuilder,
) -> (next: ClientBuilder)
    ensures
        next == http2_prior_knowledge_set(builder),
;

/// `builder` after `reqwest::ClientBuilder::danger_accept_invalid_certs` on
/// `accept`.
pub uninterp spec fn invalid_certs_set(builder: ClientBuilder, accept: bool) -> ClientBuilder;

/// `reqwest::ClientBuilder::danger_accept_invalid_certs`.
pub assume_specification[ reqwest::ClientBuilder::danger_accept_invalid_certs ](
    builder: ClientBuilder,
    accept_invalid_certs: bool,
) -> (next: ClientBuilder)
    ensures
        next == invalid_certs_set(builder, accept_invalid_certs),
;

/// `builder` after `reqwest::ClientBuilder::https_only` on `enabled`.
pub uninterp spec fn https_only_set(builder: ClientBuilder, enabled: bool) -> ClientBuilder;

/// `reqwest::ClientBuilder::https_only`.
pub assume_specification[ reqwest::ClientBuilder::https_only ](
    builder: ClientBuilder,
    enabled: bool,
) -> (next: ClientBuilder)
    ensures
        next == https_only_set(builder, enabled),
;

/// The builder that `client` was built from.
pub uninterp spec fn built_from(client: Client) -> ClientBuilder;

/// `reqwest::ClientBuilder::build`. Whether it succeeds depends on the
/// machine as well as on the builder, so nothing is said of that; a client
/// that comes back is the client of this builder.
pub assume_specification[ reqwest::ClientBuilder::build ](builder: ClientBuilder) -> (built:
    Result<Client, reqwest::Error>)
    ensures
        built matches Ok(client) ==> built_from(client) == builder,
;

/// The policy that `ExponentialBackoff::builder` builds from these delay
/// bounds in milliseconds, this jitter and this many retries. The builder
/// copies what it is given into the policy and draws on nothing else, so the
/// same values give the same policy.
pub uninterp spec fn backoff_policy(
    min_delay_ms: u32,
    max_delay_ms: u32,
    jitter: Jitter,
    max_retries: u32,
) -> ExponentialBackoff;

/// `ExponentialBackoff::builder`, then `retry_bounds`, `jitter` and
/// `build_with_max_retries` with the values given, the delays as
/// milliseconds. `retry_bounds` panics when the lower bound is above the
/// upper one, which the precondition rules out.
#[verifier::external_body]
pub(crate) fn exponential_backoff(
    min_delay_ms: u32,
    max_delay_ms: u32,
    jitter: Jitter,
    max_retries: u32,
) -> (policy: ExponentialBackoff)
    requires
        min_delay_ms <= max_delay_ms,
    ensures
        policy == backoff_policy(min_delay_ms, max_delay_ms, jitter, max_retries),
{
    let jitter = match jitter {
        Jitter::Off => reqwest_retry::Jitter::None,
        Jitter::Full => reqwest_retry::Jitter::Full,
        Jitter::Bounded => reqwest_retry::Jitter::Bounded,
    };
    ExponentialBackoff::builder()
        .retry_bounds(
            Duration::from_millis(min_delay_ms.into()),
            Duration::from_millis(max_delay_ms.into()),
        )
        .jitter(jitter)
        .build_with_max_retries(max_retries)
}

/// `client` behind a `RetryTransientMiddleware` that retries by `policy`, as
/// `reqwest_middleware::ClientBuilder` puts the two together.
pub uninterp spec fn retrying(client: Client, policy: ExponentialBackoff) -> ClientWithMiddleware;

/// `reqwest_middleware::ClientBuilder::new` on `client`, then `with` a
/// `RetryTransientMiddleware::new_with_policy(policy)`, then `build`.
#[verifier::external_body]
pub(crate) fn with_retry(client: Client, policy: ExponentialBackoff) -> (handle:
    ClientWithMiddleware)
    ensures
        handle == retrying(client, policy),
{
    reqwest_middleware::ClientBuilder::new(client)
        .with(RetryTransientMiddleware::new_with_policy(policy))
        .build()
}

} // verus!
