//! Building the client from a configuration.

use crate::backend::{
    built_from, count_header_names, default_headers, fresh, header_names, http2_keep_alive_interval,
    identified, parse_proxy, pool_idle_timeout, retrying, user_agent, user_agent_text,
    with_retry,
};
use crate::error::{map_client_error, map_transport_error, ClientError};
use crate::laws::{
    lemma_first_rejected_found, lemma_first_rejected_of_plan, lemma_headers_follow_identification,
    lemma_plan_in_order,
};
use crate::options::ClientOptions;
use crate::retry::RetryConfig;
use crate::transport::{
    first_rejected, in_order, steps_of, taken_all, TransportSetting, DEFAULT_USER_AGENT,
    MAX_DEFAULT_HEADERS,
};
use reqwest::{Client, ClientBuilder, Proxy};
use reqwest_middleware::ClientWithMiddleware;
use vstd::prelude::*;

verus! {

impl ClientOptions {
    /// Builds the client that this configuration describes.
    ///
    /// The transport settings are applied in the order of
    /// [`ClientOptions::transport_settings`], the transport is built, and the
    /// result is wrapped in a middleware that retries transient failures by
    /// [`ClientOptions::retry_policy`].
    ///
    /// Default headers with more than `MAX_DEFAULT_HEADERS` names fail the
    /// construction, and so does a proxy URL that does not parse, whatever
    /// else is set; the headers are looked at first. With settings that are
    /// well formed the outcome is the transport's: a transport error, or the
    /// client of a fresh builder that took the whole plan, retrying by the
    /// policy of the configuration.
    pub fn client(&self) -> (res: Result<ClientWithMiddleware, ClientError>)
        ensures
            match res {
                Ok(handle) => self@.headers_fit() && self@.proxy_accepted() && self@.built_as(
                    handle,
                ),
                Err(ClientError::TooManyHeaders { names }) => !self@.headers_fit() && names
                    == header_names(self@.default_headers.unwrap()).len(),
                Err(ClientError::InvalidProxy { .. }) => self@.headers_fit()
                    && !self@.proxy_accepted(),
                Err(ClientError::Transport { .. }) => self@.headers_fit()
                    && self@.proxy_accepted(),
            },
    {
        let settings = self.transport_settings();
        proof {
            lemma_first_rejected_of_plan(self@);
            lemma_plan_in_order(self@);
        }
        let start = ClientBuilder::new();
        match configure(start, &settings) {
            Ok(builder) => {
                let built = builder.build();
                assert(built matches Ok(transport) ==> fresh(start) && built_from(transport)
                    == taken_all(start, self@.transport_plan()));
                retrying_client(built, &self.retry_policy())
            },
            Err(e) => Err(e),
        }
    }
}

/// The outcome of parsing a proxy URL, classified: the proxy, or the parse
/// error as a configuration error.
pub fn classify_proxy(parsed: Result<Proxy, reqwest::Error>) -> (res: Result<Proxy, ClientError>)
    ensures
        match parsed {
            Ok(proxy) => res == Ok::<Proxy, ClientError>(proxy),
            Err(e) => res == Err::<Proxy, ClientError>(ClientError::InvalidProxy { source: e }),
        },
{
    match parsed {
        Ok(proxy) => Ok(proxy),
        Err(e) => Err(map_client_error(e)),
    }
}

/// The outcome of building the transport, completed: the transport behind a
/// middleware that retries transient failures by `policy`, or the build error
/// as a transport error.
pub fn retrying_client(built: Result<Client, reqwest::Error>, policy: &RetryConfig) -> (res:
    Result<ClientWithMiddleware, ClientError>)
    ensures
        match built {
            Ok(transport) => res == Ok::<ClientWithMiddleware, ClientError>(
                retrying(transport, policy@.backoff()),
            ),
            Err(e) => res == Err::<ClientWithMiddleware, ClientError>(
                ClientError::Transport { source: e },
            ),
        },
{
    match built {
        Ok(transport) => Ok(with_retry(transport, policy.backoff())),
        Err(e) => Err(map_transport_error(e)),
    }
}

/// `start` after it has taken `settings` in order, or the error of the first
/// setting that cannot be taken. The settings are a plan: identification
/// first, and every kind of step in its place.
fn configure(start: ClientBuilder, settings: &Vec<TransportSetting<'_>>) -> (res: Result<
    ClientBuilder,
    ClientError,
>)
    requires
        fresh(start),
        settings@.len() > 0,
        steps_of(settings@)[0].rank() == 0,
        in_order(steps_of(settings@)),
    ensures
        match res {
            Ok(builder) => first_rejected(steps_of(settings@)) is None && builder == taken_all(
                start,
                steps_of(settings@),
            ),
            Err(e) => first_rejected(steps_of(settings@)) matches Some(step) && step.rejected_as(
                e,
            ),
        },
{
    let ghost steps = steps_of(settings@);
    let mut builder = start;
    let mut i: usize = 0;
    assert(steps.take(0) =~= Seq::empty());
    while i < settings.len()
        invariant
            i <= settings@.len(),
            steps == steps_of(settings@),
            fresh(start),
            steps.len() > 0,
            steps[0].rank() == 0,
            in_order(steps),
            first_rejected(steps.take(i as int)) is None,
            builder == taken_all(start, steps.take(i as int)),
        decreases settings@.len() - i,
    {
        assert(steps[i as int] == settings@[i as int]@);
        proof {
            if steps[i as int] is DefaultHeaders {
                lemma_headers_follow_identification(start, steps, i as int);
            }
        }
        builder = match apply_setting(builder, &settings[i]) {
            Ok(builder) => builder,
            Err(e) => {
                proof {
                    lemma_first_rejected_found(steps, i as int);
                }
                return Err(e);
            },
        };
        assert(steps.take(i + 1).drop_last() =~= steps.take(i as int));
        assert(steps.take(i + 1).last() == steps[i as int]);
        i += 1;
    }
    assert(steps.take(i as int) =~= steps);
    Ok(builder)
}

/// `builder` after it has taken `setting`, or the error of a setting that
/// cannot be taken.
fn apply_setting(builder: ClientBuilder, setting: &TransportSetting<'_>) -> (res: Result<
    ClientBuilder,
    ClientError,
>)
    requires
        setting@ is DefaultHeaders ==> identified(builder),
    ensures
        res is Ok <==> setting@.accepted(),
        res matches Ok(next) ==> next == setting@.taken(builder),
        res matches Err(e) ==> setting@.rejected_as(e),
{
    match *setting {
        TransportSetting::UserAgent(agent) => Ok(user_agent(builder, agent)),
        TransportSetting::DefaultUserAgent => Ok(user_agent_text(builder, DEFAULT_USER_AGENT)),
        TransportSetting::DefaultHeaders(headers) => {
            let names = count_header_names(headers);
            if names <= MAX_DEFAULT_HEADERS {
                Ok(default_headers(builder, headers))
            } else {
                Err(ClientError::TooManyHeaders { names })
            }
        },
        TransportSetting::Proxy(url) => match classify_proxy(parse_proxy(url)) {
            Ok(proxy) => Ok(builder.proxy(proxy)),
            Err(e) => Err(e),
        },
        TransportSetting::Timeout(timeout) => Ok(builder.timeout(timeout)),
        TransportSetting::ConnectTimeout(timeout) => Ok(builder.connect_timeout(timeout)),
        TransportSetting::PoolIdleTimeout(timeout) => Ok(pool_idle_timeout(builder, timeout)),
        TransportSetting::PoolMaxIdlePerHost(max) => Ok(builder.pool_max_idle_per_host(max)),
        TransportSetting::Http2KeepAliveInterval(interval) => Ok(
            http2_keep_alive_interval(builder, interval),
        ),
        TransportSetting::Http2KeepAliveTimeout(timeout) => Ok(
            builder.http2_keep_alive_timeout(timeout),
        ),
        TransportSetting::Http2KeepAliveWhileIdle => Ok(builder.http2_keep_alive_while_idle(true)),
        TransportSetting::Http1Only => Ok(builder.http1_only()),
        TransportSetting::Http2PriorKnowledge => Ok(builder.http2_prior_knowledge()),
        TransportSetting::AcceptInvalidCerts => Ok(builder.danger_accept_invalid_certs(true)),
        TransportSetting::HttpsOnly(enabled) => Ok(builder.https_only(enabled)),
    }
}

} // verus!
