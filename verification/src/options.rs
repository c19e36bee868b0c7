//! The client configuration and its setters.

use crate::retry::{RetryConfig, RetryConfigView};
use crate::transport::{steps_of, Protocol, TransportSetting};
use reqwest::header::{HeaderMap, HeaderValue};
use std::time::Duration;
use vstd::prelude::*;

verus! {

/// HTTP client configuration for remote catalogs.
///
/// Every setter consumes the configuration and returns it with one option
/// changed. Nothing is validated, and nothing happens, before
/// [`ClientOptions::client`] is called.
#[derive(Clone, Debug)]
pub struct ClientOptions {
    user_agent: Option<HeaderValue>,
    default_headers: Option<HeaderMap>,
    proxy_url: Option<String>,
    allow_http: bool,
    allow_insecure: bool,
    timeout: Option<Duration>,
    connect_timeout: Option<Duration>,
    pool_idle_timeout: Option<Duration>,
    pool_max_idle_per_host: Option<usize>,
    http2_keep_alive_interval: Option<Duration>,
    http2_keep_alive_timeout: Option<Duration>,
    http2_keep_alive_while_idle: bool,
    http1_only: bool,
    http2_only: bool,
    retry_config: Option<RetryConfig>,
}

/// A configuration as contracts see it: each option with the value it was
/// last set to, unset options as `None` or `false`.
pub struct ClientOptionsView {
    pub user_agent: Option<HeaderValue>,
    pub default_headers: Option<HeaderMap>,
    pub proxy_url: Option<Seq<char>>,
    pub allow_http: bool,
    pub allow_insecure: bool,
    pub timeout: Option<Duration>,
    pub connect_timeout: Option<Duration>,
    pub pool_idle_timeout: Option<Duration>,
    pub pool_max_idle_per_host: Option<usize>,
    pub http2_keep_alive_interval: Option<Duration>,
    pub http2_keep_alive_timeout: Option<Duration>,
    pub http2_keep_alive_while_idle: bool,
    pub http1_only: bool,
    pub http2_only: bool,
    pub retry_config: Option<RetryConfigView>,
}

/// One call of a setter, with its argument.
pub enum Update {
    UserAgent(HeaderValue),
    DefaultHeaders(HeaderMap),
    AllowHttp(bool),
    AllowInvalidCertificates(bool),
    Http1Only,
    Http2Only,
    ProxyUrl(Seq<char>),
    Timeout(Duration),
    ConnectTimeout(Duration),
    PoolIdleTimeout(Duration),
    PoolMaxIdlePerHost(usize),
    Http2KeepAliveInterval(Duration),
    Http2KeepAliveTimeout(Duration),
    Http2KeepAliveWhileIdle,
    RetryConfig(RetryConfigView),
}

/// The options of a configuration.
#[derive(Clone, Copy, Debug, PartialEq, Eq, Structural)]
pub enum Field {
    UserAgent,
    DefaultHeaders,
    ProxyUrl,
    AllowHttp,
    AllowInsecure,
    Timeout,
    ConnectTimeout,
    PoolIdleTimeout,
    PoolMaxIdlePerHost,
    Http2KeepAliveInterval,
    Http2KeepAliveTimeout,
    Http2KeepAliveWhileIdle,
    Http1Only,
    Http2Only,
    RetryConfig,
}

impl Update {
    /// The option that the setter writes.
    pub open spec fn field(self) -> Field {
        match self {
            Update::UserAgent(_) => Field::UserAgent,
            Update::DefaultHeaders(_) => Field::DefaultHeaders,
            Update::AllowHttp(_) => Field::AllowHttp,
            Update::AllowInvalidCertificates(_) => Field::AllowInsecure,
            Update::Http1Only => Field::Http1Only,
            Update::Http2Only => Field::Http2Only,
            Update::ProxyUrl(_) => Field::ProxyUrl,
            Update::Timeout(_) => Field::Timeout,
            Update::ConnectTimeout(_) => Field::ConnectTimeout,
            Update::PoolIdleTimeout(_) => Field::PoolIdleTimeout,
            Update::PoolMaxIdlePerHost(_) => Field::PoolMaxIdlePerHost,
            Update::Http2KeepAliveInterval(_) => Field::Http2KeepAliveInterval,
            Update::Http2KeepAliveTimeout(_) => Field::Http2KeepAliveTimeout,
            Update::Http2KeepAliveWhileIdle => Field::Http2KeepAliveWhileIdle,
            Update::RetryConfig(_) => Field::RetryConfig,
        }
    }
}

impl ClientOptionsView {
    /// The configuration in which nothing is set.
    pub open spec fn unset() -> ClientOptionsView {
        ClientOptionsView {
            user_agent: None,
            default_headers: None,
            proxy_url: None,
            allow_http: false,
            allow_insecure: false,
            timeout: None,
            connect_timeout: None,
            pool_idle_timeout: None,
            pool_max_idle_per_host: None,
            http2_keep_alive_interval: None,
            http2_keep_alive_timeout: None,
            http2_keep_alive_while_idle: false,
            http1_only: false,
            http2_only: false,
            retry_config: None,
        }
    }

    /// The configuration after one setter call: the option of that setter
    /// holds the new value, and every other option is as it was.
    pub open spec fn apply(self, update: Update) -> ClientOptionsView {
        match update {
            Update::UserAgent(agent) => ClientOptionsView { user_agent: Some(agent), ..self },
            Update::DefaultHeaders(headers) => ClientOptionsView {
                default_headers: Some(headers),
                ..self
            },
            Update::AllowHttp(allow) => ClientOptionsView { allow_http: allow, ..self },
            Update::AllowInvalidCertificates(allow) => ClientOptionsView {
                allow_insecure: allow,
                ..self
            },
            Update::Http1Only => ClientOptionsView { http1_only: true, ..self },
            Update::Http2Only => ClientOptionsView { http2_only: true, ..self },
            Update::ProxyUrl(url) => ClientOptionsView { proxy_url: Some(url), ..self },
            Update::Timeout(timeout) => ClientOptionsView { timeout: Some(timeout), ..self },
            Update::ConnectTimeout(timeout) => ClientOptionsView {
                connect_timeout: Some(timeout),
                ..self
            },
            Update::PoolIdleTimeout(timeout) => ClientOptionsView {
                pool_idle_timeout: Some(timeout),
                ..self
            },
            Update::PoolMaxIdlePerHost(max) => ClientOptionsView {
                pool_max_idle_per_host: Some(max),
                ..self
            },
            Update::Http2KeepAliveInterval(interval) => ClientOptionsView {
                http2_keep_alive_interval: Some(interval),
                ..self
            },
            Update::Http2KeepAliveTimeout(timeout) => ClientOptionsView {
                http2_keep_alive_timeout: Some(timeout),
                ..self
            },
            Update::Http2KeepAliveWhileIdle => ClientOptionsView {
                http2_keep_alive_while_idle: true,
                ..self
            },
            Update::RetryConfig(cfg) => ClientOptionsView { retry_config: Some(cfg), ..self },
        }
    }

    /// The configuration after the setter calls `updates`, first to last.
    pub open spec fn apply_all(self, updates: Seq<Update>) -> ClientOptionsView
        decreases updates.len(),
    {
        if updates.len() == 0 {
            self
        } else {
            self.apply_all(updates.drop_last()).apply(updates.last())
        }
    }

    /// The two configurations hold the same value in the option `field`.
    pub open spec fn agrees_on(self, other: ClientOptionsView, field: Field) -> bool {
        match field {
            Field::UserAgent => self.user_agent == other.user_agent,
            Field::DefaultHeaders => self.default_headers == other.default_headers,
            Field::ProxyUrl => self.proxy_url == other.proxy_url,
            Field::AllowHttp => self.allow_http == other.allow_http,
            Field::AllowInsecure => self.allow_insecure == other.allow_insecure,
            Field::Timeout => self.timeout == other.timeout,
            Field::ConnectTimeout => self.connect_timeout == other.connect_timeout,
            Field::PoolIdleTimeout => self.pool_idle_timeout == other.pool_idle_timeout,
            Field::PoolMaxIdlePerHost => self.pool_max_idle_per_host
                == other.pool_max_idle_per_host,
            Field::Http2KeepAliveInterval => self.http2_keep_alive_interval
                == other.http2_keep_alive_interval,
            Field::Http2KeepAliveTimeout => self.http2_keep_alive_timeout
                == other.http2_keep_alive_timeout,
            Field::Http2KeepAliveWhileIdle => self.http2_keep_alive_while_idle
                == other.http2_keep_alive_while_idle,
            Field::Http1Only => self.http1_only == other.http1_only,
            Field::Http2Only => self.http2_only == other.http2_only,
            Field::RetryConfig => self.retry_config == other.retry_config,
        }
    }

    /// The retry policy that a client built from this configuration follows:
    /// the configured one, or the default where none is configured.
    pub open spec fn retry_policy(self) -> RetryConfigView {
        match self.retry_config {
            Some(cfg) => cfg,
            None => RetryConfigView::default_policy(),
        }
    }
}

impl View for ClientOptions {
    type V = ClientOptionsView;

    closed spec fn view(&self) -> ClientOptionsView {
        ClientOptionsView {
            user_agent: self.user_agent,
            default_headers: self.default_headers,
            proxy_url: match self.proxy_url {
                Some(url) => Some(url@),
                None => None,
            },
            allow_http: self.allow_http,
            allow_insecure: self.allow_insecure,
            timeout: self.timeout,
            connect_timeout: self.connect_timeout,
            pool_idle_timeout: self.pool_idle_timeout,
            pool_max_idle_per_host: self.pool_max_idle_per_host,
            http2_keep_alive_interval: self.http2_keep_alive_interval,
            http2_keep_alive_timeout: self.http2_keep_alive_timeout,
            http2_keep_alive_while_idle: self.http2_keep_alive_while_idle,
            http1_only: self.http1_only,
            http2_only: self.http2_only,
            retry_config: match self.retry_config {
                Some(cfg) => Some(cfg@),
                None => None,
            },
        }
    }
}

impl Default for ClientOptions {
    fn default() -> (options: ClientOptions)
        ensures
            options@ == ClientOptionsView::unset(),
    {
        ClientOptions::new()
    }
}

impl ClientOptions {
    /// Create a new [`ClientOptions`] with default values.
    pub fn new() -> (options: ClientOptions)
        ensures
            options@ == ClientOptionsView::unset(),
    {
        ClientOptions {
            user_agent: None,
            default_headers: None,
            proxy_url: None,
            allow_http: false,
            allow_insecure: false,
            timeout: None,
            connect_timeout: None,
            pool_idle_timeout: None,
            pool_max_idle_per_host: None,
            http2_keep_alive_interval: None,
            http2_keep_alive_timeout: None,
            http2_keep_alive_while_idle: false,
            http1_only: false,
            http2_only: false,
            retry_config: None,
        }
    }

    /// Sets the User-Agent header to be used by this client.
    ///
    /// Default is `DEFAULT_USER_AGENT`.
    pub fn with_user_agent(self, agent: HeaderValue) -> (options: ClientOptions)
        ensures
            options@ == self@.apply(Update::UserAgent(agent)),
    {
        let mut options = self;
        options.user_agent = Some(agent);
        options
    }

    /// Sets the default headers for every request.
    pub fn with_default_headers(self, headers: HeaderMap) -> (options: ClientOptions)
        ensures
            options@ == self@.apply(Update::DefaultHeaders(headers)),
    {
        let mut options = self;
        options.default_headers = Some(headers);
        options
    }

    /// Sets what protocol is allowed. If `allow_http` is:
    /// * false (default): only HTTPS is allowed
    /// * true: HTTP and HTTPS are allowed
    pub fn with_allow_http(self, allow_http: bool) -> (options: ClientOptions)
        ensures
            options@ == self@.apply(Update::AllowHttp(allow_http)),
    {
        let mut options = self;
        options.allow_http = allow_http;
        options
    }

    /// Allows connections to invalid SSL certificates.
    /// * false (default): only valid HTTPS certificates are allowed
    /// * true: all HTTPS certificates are allowed
    ///
    /// # Warning
    ///
    /// You should think very carefully before using this method. If
    /// invalid certificates are trusted, *any* certificate for *any* site
    /// will be trusted for use. This includes expired certificates. This
    /// introduces significant vulnerabilities, and should only be used
    /// as a last resort or for testing.
    pub fn with_allow_invalid_certificates(self, allow_insecure: bool) -> (options: ClientOptions)
        ensures
            options@ == self@.apply(Update::AllowInvalidCertificates(allow_insecure)),
    {
        let mut options = self;
        options.allow_insecure = allow_insecure;
        options
    }

    /// Only use http1 connections.
    pub fn with_http1_only(self) -> (options: ClientOptions)
        ensures
            options@ == self@.apply(Update::Http1Only),
    {
        let mut options = self;
        options.http1_only = true;
        options
    }

    /// Only use http2 connections.
    pub fn with_http2_only(self) -> (options: ClientOptions)
        ensures
            options@ == self@.apply(Update::Http2Only),
    {
        let mut options = self;
        options.http2_only = true;
        options
    }

    /// Set an HTTP proxy to use for requests.
    pub fn with_proxy_url(self, proxy_url: &str) -> (options: ClientOptions)
        ensures
            options@ == self@.apply(Update::ProxyUrl(proxy_url@)),
    {
        let mut options = self;
        options.proxy_url = Some(proxy_url.to_owned());
        options
    }

    /// Set a request timeout.
    ///
    /// The timeout is applied from when the request starts connecting until the
    /// response body has finished.
    pub fn with_timeout(self, timeout: Duration) -> (options: ClientOptions)
        ensures
            options@ == self@.apply(Update::Timeout(timeout)),
    {
        let mut options = self;
        options.timeout = Some(timeout);
        options
    }

    /// Set a timeout for only the connect phase of a client.
    pub fn with_connect_timeout(self, timeout: Duration) -> (options: ClientOptions)
        ensures
            options@ == self@.apply(Update::ConnectTimeout(timeout)),
    {
        let mut options = self;
        options.connect_timeout = Some(timeout);
        options
    }

    /// Set the pool max idle timeout.
    ///
    /// This is the length of time an idle connection will be kept alive.
    ///
    /// Default is 90 seconds.
    pub fn with_pool_idle_timeout(self, timeout: Duration) -> (options: ClientOptions)
        ensures
            options@ == self@.apply(Update::PoolIdleTimeout(timeout)),
    {
        let mut options = self;
        options.pool_idle_timeout = Some(timeout);
        options
    }

    /// Set the maximum number of idle connections per host.
    ///
    /// Default is no limit.
    pub fn with_pool_max_idle_per_host(self, max: usize) -> (options: ClientOptions)
        ensures
            options@ == self@.apply(Update::PoolMaxIdlePerHost(max)),
    {
        let mut options = self;
        options.pool_max_idle_per_host = Some(max);
        options
    }

    /// Sets an interval at which HTTP2 ping frames are sent to keep a
    /// connection alive.
    ///
    /// Default is disabled.
    pub fn with_http2_keep_alive_interval(self, interval: Duration) -> (options: ClientOptions)
        ensures
            options@ == self@.apply(Update::Http2KeepAliveInterval(interval)),
    {
        let mut options = self;
        options.http2_keep_alive_interval = Some(interval);
        options
    }

    /// Sets a timeout for receiving an acknowledgement of the keep-alive ping.
    ///
    /// If the ping is not acknowledged within the timeout, the connection will
    /// be closed. Does nothing if the keep-alive interval is disabled.
    ///
    /// Default is disabled.
    pub fn with_http2_keep_alive_timeout(self, interval: Duration) -> (options: ClientOptions)
        ensures
            options@ == self@.apply(Update::Http2KeepAliveTimeout(interval)),
    {
        let mut options = self;
        options.http2_keep_alive_timeout = Some(interval);
        options
    }

    /// Enable HTTP2 keep alive pings for idle connections.
    ///
    /// If disabled, keep-alive pings are only sent while there are open
    /// request/response streams. If enabled, pings are also sent when no
    /// streams are active.
    ///
    /// Default is disabled.
    pub fn with_http2_keep_alive_while_idle(self) -> (options: ClientOptions)
        ensures
            options@ == self@.apply(Update::Http2KeepAliveWhileIdle),
    {
        let mut options = self;
        options.http2_keep_alive_while_idle = true;
        options
    }

    /// Sets the backoff policy of the retry middleware.
    ///
    /// Default is `RetryConfig::default_policy()`.
    pub fn with_retry_config(self, cfg: RetryConfig) -> (options: ClientOptions)
        ensures
            options@ == self@.apply(Update::RetryConfig(cfg@)),
    {
        let mut options = self;
        options.retry_config = Some(cfg);
        options
    }

    /// The retry policy that a client built from this configuration follows.
    pub fn retry_policy(&self) -> (policy: RetryConfig)
        ensures
            policy@ == self@.retry_policy(),
    {
        match self.retry_config {
            Some(cfg) => cfg,
            None => RetryConfig::default_policy(),
        }
    }

    /// The protocol restriction that the configuration results in.
    pub fn protocol(&self) -> (protocol: Protocol)
        ensures
            protocol == self@.protocol(),
    {
        if self.http2_only {
            Protocol::Http2PriorKnowledge
        } else if self.http1_only {
            Protocol::Http1Only
        } else {
            Protocol::Negotiated
        }
    }

    /// The settings that building a client hands to the transport, in the
    /// order in which it does.
    pub fn transport_settings(&self) -> (settings: Vec<TransportSetting<'_>>)
        ensures
            steps_of(settings@) == self@.transport_plan(),
    {
        let mut settings: Vec<TransportSetting<'_>> = Vec::new();
        assert(steps_of(settings@) =~= Seq::empty());
        self.push_identification(&mut settings);
        self.push_headers(&mut settings);
        self.push_proxy(&mut settings);
        self.push_timeouts(&mut settings);
        self.push_keep_alive(&mut settings);
        self.push_protocol(&mut settings);
        self.push_tls(&mut settings);
        assert(steps_of(settings@) =~= self@.transport_plan());
        settings
    }

    /// Appends the identification step.
    fn push_identification<'a>(&'a self, settings: &mut Vec<TransportSetting<'a>>)
        ensures
            steps_of(final(settings)@) == steps_of(old(settings)@) + self@.identification_steps(),
    {
        let identification = match &self.user_agent {
            Some(agent) => TransportSetting::UserAgent(agent),
            None => TransportSetting::DefaultUserAgent,
        };
        push_step(settings, Some(identification));
    }

    /// Appends the default headers, if set.
    fn push_headers<'a>(&'a self, settings: &mut Vec<TransportSetting<'a>>)
        ensures
            steps_of(final(settings)@) == steps_of(old(settings)@) + self@.header_steps(),
    {
        let headers = match &self.default_headers {
            Some(headers) => Some(TransportSetting::DefaultHeaders(headers)),
            None => None,
        };
        push_step(settings, headers);
    }

    /// Appends the proxy, if set.
    fn push_proxy<'a>(&'a self, settings: &mut Vec<TransportSetting<'a>>)
        ensures
            steps_of(final(settings)@) == steps_of(old(settings)@) + self@.proxy_steps(),
    {
        let proxy = match &self.proxy_url {
            Some(url) => Some(TransportSetting::Proxy(url.as_str())),
            None => None,
        };
        push_step(settings, proxy);
    }

    /// Appends the timeouts and pool limits that are set.
    fn push_timeouts<'a>(&'a self, settings: &mut Vec<TransportSetting<'a>>)
        ensures
            steps_of(final(settings)@) == steps_of(old(settings)@) + self@.timeout_steps(),
    {
        let timeout = match self.timeout {
            Some(timeout) => Some(TransportSetting::Timeout(timeout)),
            None => None,
        };
        push_step(settings, timeout);
        let connect_timeout = match self.connect_timeout {
            Some(timeout) => Some(TransportSetting::ConnectTimeout(timeout)),
            None => None,
        };
        push_step(settings, connect_timeout);
        let pool_idle_timeout = match self.pool_idle_timeout {
            Some(timeout) => Some(TransportSetting::PoolIdleTimeout(timeout)),
            None => None,
        };
        push_step(settings, pool_idle_timeout);
        let pool_max_idle = match self.pool_max_idle_per_host {
            Some(max) => Some(TransportSetting::PoolMaxIdlePerHost(max)),
            None => None,
        };
        push_step(settings, pool_max_idle);
        assert(steps_of(settings@) =~= steps_of(old(settings)@) + self@.timeout_steps());
    }

    /// Appends the HTTP/2 keep-alive settings that are set.
    fn push_keep_alive<'a>(&'a self, settings: &mut Vec<TransportSetting<'a>>)
        ensures
            steps_of(final(settings)@) == steps_of(old(settings)@) + self@.keep_alive_steps(),
    {
        let interval = match self.http2_keep_alive_interval {
            Some(interval) => Some(TransportSetting::Http2KeepAliveInterval(interval)),
            None => None,
        };
        push_step(settings, interval);
        let timeout = match self.http2_keep_alive_timeout {
            Some(timeout) => Some(TransportSetting::Http2KeepAliveTimeout(timeout)),
            None => None,
        };
        push_step(settings, timeout);
        let while_idle = if self.http2_keep_alive_while_idle {
            Some(TransportSetting::Http2KeepAliveWhileIdle)
        } else {
            None
        };
        push_step(settings, while_idle);
        assert(steps_of(settings@) =~= steps_of(old(settings)@) + self@.keep_alive_steps());
    }

    /// Appends the protocol restrictions that are set.
    fn push_protocol<'a>(&'a self, settings: &mut Vec<TransportSetting<'a>>)
        ensures
            steps_of(final(settings)@) == steps_of(old(settings)@) + self@.protocol_steps(),
    {
        let http1 = if self.http1_only {
            Some(TransportSetting::Http1Only)
        } else {
            None
        };
        push_step(settings, http1);
        let http2 = if self.http2_only {
            Some(TransportSetting::Http2PriorKnowledge)
        } else {
            None
        };
        push_step(settings, http2);
        assert(steps_of(settings@) =~= steps_of(old(settings)@) + self@.protocol_steps());
    }

    /// Appends the certificate bypass, if set, and the TLS requirement.
    fn push_tls<'a>(&'a self, settings: &mut Vec<TransportSetting<'a>>)
        ensures
            steps_of(final(settings)@) == steps_of(old(settings)@) + self@.tls_steps(),
    {
        let accept_invalid = if self.allow_insecure {
            Some(TransportSetting::AcceptInvalidCerts)
        } else {
            None
        };
        push_step(settings, accept_invalid);
        push_step(settings, Some(TransportSetting::HttpsOnly(!self.allow_http)));
        assert(steps_of(settings@) =~= steps_of(old(settings)@) + self@.tls_steps());
    }
}

/// Appends `setting`, if there is one.
fn push_step<'a>(settings: &mut Vec<TransportSetting<'a>>, setting: Option<TransportSetting<'a>>)
    ensures
        steps_of(final(settings)@) == steps_of(old(settings)@) + (match setting {
            Some(setting) => seq![setting@],
            None => Seq::empty(),
        }),
{
    if let Some(setting) = setting {
        settings.push(setting);
    }
    assert(steps_of(settings@) =~= steps_of(old(settings)@) + (match setting {
        Some(setting) => seq![setting@],
        None => Seq::empty(),
    }));
}

} // verus!
