//! The transport settings that a configuration asks for, in the order in which
//! they are applied.

use crate::backend::{
    agent_set, agent_text_set, built_from, connect_timeout_set, fresh, header_names, headers_set,
    http1_only_set, http2_prior_knowledge_set, https_only_set, invalid_certs_set,
    keep_alive_interval_set, keep_alive_timeout_set, keep_alive_while_idle_set, parsed_proxy,
    pool_idle_timeout_set, pool_max_idle_set, proxy_set, retrying, timeout_set,
};
use crate::error::ClientError;
use crate::options::ClientOptionsView;
use reqwest::header::{HeaderMap, HeaderValue};
use reqwest::{Client, ClientBuilder};
use reqwest_middleware::ClientWithMiddleware;
use std::time::Duration;
use vstd::prelude::*;

verus! {

/// The identification sent when no user agent is configured.
pub const DEFAULT_USER_AGENT: &'static str = "catalog_client/0.1.0";

/// The most header names that the default headers may hold. With the two
/// names that the transport sets itself, more could outgrow its header map.
pub const MAX_DEFAULT_HEADERS: usize = 3274;

/// The transport takes `url` as the URL of a proxy.
pub open spec fn proxy_url_accepted(url: Seq<char>) -> bool {
    parsed_proxy(url) is Some
}

/// One setting handed to the transport builder.
#[derive(Clone, Copy, Debug, PartialEq)]
pub enum TransportSetting<'a> {
    /// Identify as the given user agent.
    UserAgent(&'a HeaderValue),
    /// Identify as `DEFAULT_USER_AGENT`.
    DefaultUserAgent,
    /// Send these headers with every request.
    DefaultHeaders(&'a HeaderMap),
    /// Route all traffic through the proxy at this URL.
    Proxy(&'a str),
    /// Deadline from the start of connecting to the end of the response body.
    Timeout(Duration),
    /// Deadline for establishing a connection.
    ConnectTimeout(Duration),
    /// How long an idle pooled connection is kept.
    PoolIdleTimeout(Duration),
    /// How many idle connections are kept per host.
    PoolMaxIdlePerHost(usize),
    /// Interval between HTTP/2 keep-alive pings.
    Http2KeepAliveInterval(Duration),
    /// Deadline for the acknowledgement of a keep-alive ping.
    Http2KeepAliveTimeout(Duration),
    /// Ping idle connections too.
    Http2KeepAliveWhileIdle,
    /// Speak HTTP/1 only.
    Http1Only,
    /// Speak HTTP/2 from the first byte, without an upgrade handshake.
    Http2PriorKnowledge,
    /// Accept any certificate.
    AcceptInvalidCerts,
    /// Refuse requests to endpoints without TLS, or allow them.
    HttpsOnly(bool),
}

/// A transport setting as contracts see it.
pub enum TransportStep {
    UserAgent(HeaderValue),
    DefaultUserAgent,
    DefaultHeaders(HeaderMap),
    Proxy(Seq<char>),
    Timeout(Duration),
    ConnectTimeout(Duration),
    PoolIdleTimeout(Duration),
    PoolMaxIdlePerHost(usize),
    Http2KeepAliveInterval(Duration),
    Http2KeepAliveTimeout(Duration),
    Http2KeepAliveWhileIdle,
    Http1Only,
    Http2PriorKnowledge,
    AcceptInvalidCerts,
    HttpsOnly(bool),
}

impl<'a> View for TransportSetting<'a> {
    type V = TransportStep;

    open spec fn view(&self) -> TransportStep {
        match *self {
            TransportSetting::UserAgent(agent) => TransportStep::UserAgent(*agent),
            TransportSetting::DefaultUserAgent => TransportStep::DefaultUserAgent,
            TransportSetting::DefaultHeaders(headers) => TransportStep::DefaultHeaders(*headers),
            TransportSetting::Proxy(url) => TransportStep::Proxy(url@),
            TransportSetting::Timeout(d) => TransportStep::Timeout(d),
            TransportSetting::ConnectTimeout(d) => TransportStep::ConnectTimeout(d),
            TransportSetting::PoolIdleTimeout(d) => TransportStep::PoolIdleTimeout(d),
            TransportSetting::PoolMaxIdlePerHost(n) => TransportStep::PoolMaxIdlePerHost(n),
            TransportSetting::Http2KeepAliveInterval(d) => TransportStep::Http2KeepAliveInterval(d),
            TransportSetting::Http2KeepAliveTimeout(d) => TransportStep::Http2KeepAliveTimeout(d),
            TransportSetting::Http2KeepAliveWhileIdle => TransportStep::Http2KeepAliveWhileIdle,
            TransportSetting::Http1Only => TransportStep::Http1Only,
            TransportSetting::Http2PriorKnowledge => TransportStep::Http2PriorKnowledge,
            TransportSetting::AcceptInvalidCerts => TransportStep::AcceptInvalidCerts,
            TransportSetting::HttpsOnly(enabled) => TransportStep::HttpsOnly(enabled),
        }
    }
}

/// The steps that a list of settings stands for.
pub open spec fn steps_of(settings: Seq<TransportSetting<'_>>) -> Seq<TransportStep> {
    settings.map_values(|setting: TransportSetting<'_>| setting@)
}

/// `step` if `present`, and nothing otherwise.
pub open spec fn step_if(present: bool, step: TransportStep) -> Seq<TransportStep> {
    if present {
        seq![step]
    } else {
        Seq::empty()
    }
}

impl TransportStep {
    /// The place of this kind of step in the order of application. The two
    /// identification steps share the first place.
    pub open spec fn rank(self) -> nat {
        match self {
            TransportStep::UserAgent(_) => 0,
            TransportStep::DefaultUserAgent => 0,
            TransportStep::DefaultHeaders(_) => 1,
            TransportStep::Proxy(_) => 2,
            TransportStep::Timeout(_) => 3,
            TransportStep::ConnectTimeout(_) => 4,
            TransportStep::PoolIdleTimeout(_) => 5,
            TransportStep::PoolMaxIdlePerHost(_) => 6,
            TransportStep::Http2KeepAliveInterval(_) => 7,
            TransportStep::Http2KeepAliveTimeout(_) => 8,
            TransportStep::Http2KeepAliveWhileIdle => 9,
            TransportStep::Http1Only => 10,
            TransportStep::Http2PriorKnowledge => 11,
            TransportStep::AcceptInvalidCerts => 12,
            TransportStep::HttpsOnly(_) => 13,
        }
    }

    /// The step can be taken: every step but default headers with too many
    /// names and a proxy whose URL does not parse.
    pub open spec fn accepted(self) -> bool {
        match self {
            TransportStep::DefaultHeaders(headers) => header_names(headers).len()
                <= MAX_DEFAULT_HEADERS,
            TransportStep::Proxy(url) => proxy_url_accepted(url),
            _ => true,
        }
    }

    /// The transport builder after it has taken this step: the result of the
    /// one builder call that the step stands for.
    pub open spec fn taken(self, builder: ClientBuilder) -> ClientBuilder {
        match self {
            TransportStep::UserAgent(agent) => agent_set(builder, agent),
            TransportStep::DefaultUserAgent => agent_text_set(builder, DEFAULT_USER_AGENT@),
            TransportStep::DefaultHeaders(headers) => headers_set(builder, headers),
            TransportStep::Proxy(url) => proxy_set(builder, parsed_proxy(url).unwrap()),
            TransportStep::Timeout(timeout) => timeout_set(builder, timeout),
            TransportStep::ConnectTimeout(timeout) => connect_timeout_set(builder, timeout),
            TransportStep::PoolIdleTimeout(timeout) => pool_idle_timeout_set(builder, timeout),
            TransportStep::PoolMaxIdlePerHost(max) => pool_max_idle_set(builder, max),
            TransportStep::Http2KeepAliveInterval(interval) => keep_alive_interval_set(
                builder,
                interval,
            ),
            TransportStep::Http2KeepAliveTimeout(timeout) => keep_alive_timeout_set(
                builder,
                timeout,
            ),
            TransportStep::Http2KeepAliveWhileIdle => keep_alive_while_idle_set(builder, true),
            TransportStep::Http1Only => http1_only_set(builder),
            TransportStep::Http2PriorKnowledge => http2_prior_knowledge_set(builder),
            TransportStep::AcceptInvalidCerts => invalid_certs_set(builder, true),
            TransportStep::HttpsOnly(enabled) => https_only_set(builder, enabled),
        }
    }

    /// `err` is the error of this step, which cannot be taken.
    pub open spec fn rejected_as(self, err: ClientError) -> bool {
        match self {
            TransportStep::DefaultHeaders(headers) => err matches ClientError::TooManyHeaders {
                names,
            } && names == header_names(headers).len(),
            TransportStep::Proxy(_) => err is InvalidProxy,
            _ => false,
        }
    }
}

/// The first of `steps` that cannot be taken, if there is one.
pub open spec fn first_rejected(steps: Seq<TransportStep>) -> Option<TransportStep>
    decreases steps.len(),
{
    if steps.len() == 0 {
        None
    } else if first_rejected(steps.drop_last()) is Some {
        first_rejected(steps.drop_last())
    } else if steps.last().accepted() {
        None
    } else {
        Some(steps.last())
    }
}

/// The transport builder after it has taken `steps`, first to last.
pub open spec fn taken_all(builder: ClientBuilder, steps: Seq<TransportStep>) -> ClientBuilder
    decreases steps.len(),
{
    if steps.len() == 0 {
        builder
    } else {
        steps.last().taken(taken_all(builder, steps.drop_last()))
    }
}

/// The steps stand in the order of application, each kind at most once.
pub open spec fn in_order(steps: Seq<TransportStep>) -> bool {
    forall|i: int, j: int|
        0 <= i < j < steps.len() ==> (#[trigger] steps[i]).rank() < (#[trigger] steps[j]).rank()
}

/// Which protocol versions the client may speak.
#[derive(Clone, Copy, Debug, PartialEq, Eq, Structural)]
pub enum Protocol {
    /// Whatever client and server agree on.
    Negotiated,
    /// HTTP/1 only.
    Http1Only,
    /// HTTP/2 from the first byte.
    Http2PriorKnowledge,
}

/// The protocol restriction in force after `steps`, starting from `before`.
/// The transport keeps one restriction: each step that sets it replaces what
/// was set before.
pub open spec fn protocol_after(before: Protocol, steps: Seq<TransportStep>) -> Protocol
    decreases steps.len(),
{
    if steps.len() == 0 {
        before
    } else {
        match steps.last() {
            TransportStep::Http1Only => Protocol::Http1Only,
            TransportStep::Http2PriorKnowledge => Protocol::Http2PriorKnowledge,
            _ => protocol_after(before, steps.drop_last()),
        }
    }
}

impl ClientOptionsView {
    /// Identification: the configured user agent, or the default one.
    pub open spec fn identification_steps(self) -> Seq<TransportStep> {
        seq![
            match self.user_agent {
                Some(agent) => TransportStep::UserAgent(agent),
                None => TransportStep::DefaultUserAgent,
            },
        ]
    }

    /// The default headers, if set.
    pub open spec fn header_steps(self) -> Seq<TransportStep> {
        step_if(
            self.default_headers is Some,
            TransportStep::DefaultHeaders(self.default_headers.unwrap()),
        )
    }

    /// The proxy, if set.
    pub open spec fn proxy_steps(self) -> Seq<TransportStep> {
        step_if(self.proxy_url is Some, TransportStep::Proxy(self.proxy_url.unwrap()))
    }

    /// The request and connect timeouts and the limits of the connection
    /// pool, each if set.
    pub open spec fn timeout_steps(self) -> Seq<TransportStep> {
        step_if(self.timeout is Some, TransportStep::Timeout(self.timeout.unwrap())) + step_if(
            self.connect_timeout is Some,
            TransportStep::ConnectTimeout(self.connect_timeout.unwrap()),
        ) + step_if(
            self.pool_idle_timeout is Some,
            TransportStep::PoolIdleTimeout(self.pool_idle_timeout.unwrap()),
        ) + step_if(
            self.pool_max_idle_per_host is Some,
            TransportStep::PoolMaxIdlePerHost(self.pool_max_idle_per_host.unwrap()),
        )
    }

    /// The HTTP/2 keep-alive interval, timeout and idle probing, each if set.
    pub open spec fn keep_alive_steps(self) -> Seq<TransportStep> {
        step_if(
            self.http2_keep_alive_interval is Some,
            TransportStep::Http2KeepAliveInterval(self.http2_keep_alive_interval.unwrap()),
        ) + step_if(
            self.http2_keep_alive_timeout is Some,
            TransportStep::Http2KeepAliveTimeout(self.http2_keep_alive_timeout.unwrap()),
        ) + step_if(self.http2_keep_alive_while_idle, TransportStep::Http2KeepAliveWhileIdle)
    }

    /// The protocol restrictions, each if set: HTTP/1 first, HTTP/2 second.
    pub open spec fn protocol_steps(self) -> Seq<TransportStep> {
        step_if(self.http1_only, TransportStep::Http1Only) + step_if(
            self.http2_only,
            TransportStep::Http2PriorKnowledge,
        )
    }

    /// Certificate validation is switched off if asked for; then endpoints
    /// without TLS are refused unless plain HTTP is allowed.
    pub open spec fn tls_steps(self) -> Seq<TransportStep> {
        step_if(self.allow_insecure, TransportStep::AcceptInvalidCerts)
            + seq![TransportStep::HttpsOnly(!self.allow_http)]
    }

    /// The steps that building a client from this configuration applies, in
    /// order. Identification comes first and the TLS requirement last; every
    /// step between them is there only if its option is set.
    pub open spec fn transport_plan(self) -> Seq<TransportStep> {
        self.identification_steps() + self.header_steps() + self.proxy_steps()
            + self.timeout_steps() + self.keep_alive_steps() + self.protocol_steps()
            + self.tls_steps()
    }

    /// The protocol restriction that the configuration results in. HTTP/2
    /// takes precedence where both restrictions are set.
    pub open spec fn protocol(self) -> Protocol {
        if self.http2_only {
            Protocol::Http2PriorKnowledge
        } else if self.http1_only {
            Protocol::Http1Only
        } else {
            Protocol::Negotiated
        }
    }

    /// `handle` is a client of this configuration: a transport built from a
    /// fresh builder that took the steps of the plan in order, behind a
    /// middleware that retries by the policy of the configuration.
    pub open spec fn built_as(self, handle: ClientWithMiddleware) -> bool {
        exists|start: ClientBuilder, transport: Client| #[trigger]
            fresh(start) && #[trigger] built_from(transport) == taken_all(
                start,
                self.transport_plan(),
            ) && handle == retrying(transport, self.retry_policy().backoff())
    }

    /// The default headers, if set, hold no more than `MAX_DEFAULT_HEADERS`
    /// names.
    pub open spec fn headers_fit(self) -> bool {
        self.default_headers matches Some(headers) ==> header_names(headers).len()
            <= MAX_DEFAULT_HEADERS
    }

    /// The proxy URL, if one is set, parses.
    pub open spec fn proxy_accepted(self) -> bool {
        self.proxy_url matches Some(url) ==> proxy_url_accepted(url)
    }
}

} // verus!
