//! How an endpoint's URL and the connect options become a transport endpoint.

use crate::client::ConnectOptions;
use crate::error::Error;
use crate::text::{has_prefix, joined, str_starts_with};
use core::time::Duration;
use http::uri::{InvalidUri, Uri};
use tonic::transport::{Channel, ClientTlsConfig, Endpoint, Error as TonicError};
use vstd::prelude::*;

verus! {

/// The scheme of a URL without TLS.
pub const HTTP_PREFIX: &'static str = "http://";

/// The scheme of a URL with TLS.
pub const HTTPS_PREFIX: &'static str = "https://";

/// A parsed URI.
#[verifier::external_type_specification]
#[verifier::external_body]
pub struct ExUri(Uri);

/// The error of a string that is no URI.
#[verifier::external_type_specification]
#[verifier::external_body]
pub struct ExInvalidUri(InvalidUri);

/// A transport endpoint with its settings.
#[verifier::external_type_specification]
#[verifier::external_body]
pub struct ExEndpoint(Endpoint);

/// TLS options.
#[verifier::external_type_specification]
#[verifier::external_body]
pub struct ExClientTlsConfig(ClientTlsConfig);

/// The error of a transport that rejects its configuration.
#[verifier::external_type_specification]
#[verifier::external_body]
pub struct ExTonicError(TonicError);

/// What an endpoint is set to. Whatever else can be set has the transport's
/// default.
pub struct Settings {
    pub uri: Uri,
    pub timeout: Option<Duration>,
    pub connect_timeout: Option<Duration>,
    pub tcp_keepalive: Option<Duration>,
    pub keep_alive_interval: Option<Duration>,
    pub keep_alive_timeout: Option<Duration>,
    pub keep_alive_while_idle: Option<bool>,
    pub tls: Option<ClientTlsConfig>,
}

/// The URI that a text parses to, as `Uri::from_str` returns it; `None` if that
/// fails.
pub uninterp spec fn parsed_uri(text: Seq<char>) -> Option<Uri>;

/// The settings that an endpoint holds.
pub uninterp spec fn endpoint_settings(endpoint: Endpoint) -> Settings;

/// `Uri::from_str`. Which texts are URIs is not spelled out here.
#[verifier::external_body]
fn parse_uri(text: &str) -> (r: Result<Uri, InvalidUri>)
    ensures
        match r {
            Ok(uri) => parsed_uri(text@) == Some(uri),
            Err(_) => parsed_uri(text@) is None,
        },
{
    text.parse::<Uri>()
}

/// `Channel::builder` makes an endpoint for the URI with nothing else set.
pub assume_specification[ Channel::builder ](uri: Uri) -> (r: Endpoint)
    ensures
        endpoint_settings(r) == unset(uri),
;

/// `Endpoint::tls_config` sets up TLS from the options and changes nothing else.
/// Whether it succeeds depends on the certificates, the host name and the process's
/// crypto provider, so that is not stated.
pub assume_specification[ Endpoint::tls_config ](endpoint: Endpoint, tls_config: ClientTlsConfig) -> (r:
    Result<Endpoint, TonicError>)
    ensures
        r matches Ok(e) ==> endpoint_settings(e) == (Settings {
            tls: Some(tls_config),
            ..endpoint_settings(endpoint)
        }),
;

/// `Endpoint::timeout` sets the timeout of each request and changes nothing else.
pub assume_specification[ Endpoint::timeout ](endpoint: Endpoint, dur: Duration) -> (r: Endpoint)
    ensures
        endpoint_settings(r) == (Settings { timeout: Some(dur), ..endpoint_settings(endpoint) }),
;

/// `Endpoint::connect_timeout` sets the timeout of connecting and changes nothing
/// else.
pub assume_specification[ Endpoint::connect_timeout ](endpoint: Endpoint, dur: Duration) -> (r:
    Endpoint)
    ensures
        endpoint_settings(r) == (Settings {
            connect_timeout: Some(dur),
            ..endpoint_settings(endpoint)
        }),
;

/// `Endpoint::tcp_keepalive` sets the TCP keepalive and changes nothing else.
pub assume_specification[ Endpoint::tcp_keepalive ](
    endpoint: Endpoint,
    tcp_keepalive: Option<Duration>,
) -> (r: Endpoint)
    ensures
        endpoint_settings(r) == (Settings { tcp_keepalive, ..endpoint_settings(endpoint) }),
;

/// `Endpoint::http2_keep_alive_interval` sets the interval of HTTP2 keep-alive pings
/// and changes nothing else.
pub assume_specification[ Endpoint::http2_keep_alive_interval ](
    endpoint: Endpoint,
    interval: Duration,
) -> (r: Endpoint)
    ensures
        endpoint_settings(r) == (Settings {
            keep_alive_interval: Some(interval),
            ..endpoint_settings(endpoint)
        }),
;

/// `Endpoint::keep_alive_timeout` sets how long a keep-alive ping may stay
/// unanswered and changes nothing else.
pub assume_specification[ Endpoint::keep_alive_timeout ](
    endpoint: Endpoint,
    duration: Duration,
) -> (r: Endpoint)
    ensures
        endpoint_settings(r) == (Settings {
            keep_alive_timeout: Some(duration),
            ..endpoint_settings(endpoint)
        }),
;

/// `Endpoint::keep_alive_while_idle` sets whether keep-alive pings are sent without
/// open streams and changes nothing else.
pub assume_specification[ Endpoint::keep_alive_while_idle ](
    endpoint: Endpoint,
    enabled: bool,
) -> (r: Endpoint)
    ensures
        endpoint_settings(r) == (Settings {
            keep_alive_while_idle: Some(enabled),
            ..endpoint_settings(endpoint)
        }),
;

/// `ClientTlsConfig::clone` returns the same options.
#[verifier::external_body]
pub(crate) fn clone_tls(tls: &ClientTlsConfig) -> (r: ClientTlsConfig)
    ensures
        r == *tls,
{
    tls.clone()
}

/// `ClientTlsConfig::new` returns TLS options with nothing set.
pub assume_specification[ ClientTlsConfig::new ]() -> (r: ClientTlsConfig);

/// Which TLS implementation the client is built with.
#[derive(Clone, Copy, Debug, PartialEq, Eq, Structural)]
pub enum TlsSupport {
    /// None: only plain HTTP is spoken.
    Disabled,
    /// The one that the transport brings along, configured per endpoint.
    Rustls,
    /// OpenSSL, configured per channel.
    OpenSsl,
}

/// An endpoint for the URI with nothing else set.
pub open spec fn unset(uri: Uri) -> Settings {
    Settings {
        uri,
        timeout: None,
        connect_timeout: None,
        tcp_keepalive: None,
        keep_alive_interval: None,
        keep_alive_timeout: None,
        keep_alive_while_idle: None,
        tls: None,
    }
}

/// The settings with those of the connect options applied.
pub open spec fn configured(options: ConnectOptions, base: Settings) -> Settings {
    Settings {
        timeout: if options.timeout is Some {
            options.timeout
        } else {
            base.timeout
        },
        connect_timeout: if options.connect_timeout is Some {
            options.connect_timeout
        } else {
            base.connect_timeout
        },
        tcp_keepalive: if options.tcp_keepalive is Some {
            options.tcp_keepalive
        } else {
            base.tcp_keepalive
        },
        keep_alive_interval: match options.keep_alive {
            Some((interval, _)) => Some(interval),
            None => base.keep_alive_interval,
        },
        keep_alive_timeout: match options.keep_alive {
            Some((_, timeout)) => Some(timeout),
            None => base.keep_alive_timeout,
        },
        keep_alive_while_idle: if options.keep_alive is Some {
            Some(options.keep_alive_while_idle)
        } else {
            base.keep_alive_while_idle
        },
        ..base
    }
}

/// What a URL stands for.
pub enum Target {
    /// An endpoint at this URL whose TLS, if any, is not set up here.
    Plain(Seq<char>),
    /// An endpoint at this URL with TLS set up here.
    Tls(Seq<char>),
    /// Nothing: the arguments are invalid, for this reason.
    Rejected(Seq<char>),
}

/// The URL with a scheme. One without gets `https` if TLS was asked for, and `http`
/// otherwise.
pub open spec fn full_url(
    url: Seq<char>,
    support: TlsSupport,
    tls: bool,
    openssl: bool,
) -> Seq<char> {
    if has_prefix(url, HTTP_PREFIX@) || has_prefix(url, HTTPS_PREFIX@) {
        url
    } else if (support == TlsSupport::Rustls && tls) || (support == TlsSupport::OpenSsl
        && openssl) {
        HTTPS_PREFIX@ + url
    } else {
        HTTP_PREFIX@ + url
    }
}

/// What a URL stands for.
pub open spec fn target(
    url: Seq<char>,
    support: TlsSupport,
    tls: bool,
    openssl: bool,
) -> Target {
    let full = full_url(url, support, tls, openssl);
    if has_prefix(url, HTTP_PREFIX@) {
        if support == TlsSupport::Rustls && tls {
            Target::Rejected("TLS options are only supported with HTTPS URLs"@)
        } else {
            Target::Plain(full)
        }
    } else if has_prefix(url, HTTPS_PREFIX@) {
        match support {
            TlsSupport::Disabled => Target::Rejected(
                "HTTPS URLs are only supported with the feature \"tls\""@,
            ),
            TlsSupport::OpenSsl => Target::Plain(full),
            TlsSupport::Rustls => Target::Tls(full),
        }
    } else if support == TlsSupport::Rustls && tls {
        Target::Tls(full)
    } else {
        Target::Plain(full)
    }
}

/// The TLS options that an endpoint is set up with: those of the connect options, or
/// new ones if there are none.
pub open spec fn tls_for(options: ConnectOptions, tls: ClientTlsConfig) -> bool {
    match options.tls {
        Some(given) => tls == given,
        None => call_ensures(ClientTlsConfig::new, (), tls),
    }
}

/// The transport was asked to set up TLS from the options, for an endpoint at the URI
/// with nothing else set, and refused.
pub open spec fn tls_refused(uri: Uri, tls: ClientTlsConfig) -> bool {
    exists|base: Endpoint, res: Result<Endpoint, TonicError>| #[trigger]
        call_ensures(Endpoint::tls_config, (base, tls), res) && res is Err && endpoint_settings(
            base,
        ) == unset(uri)
}

/// `r` is the endpoint, or the error, that a URL and the connect options give.
/// Where TLS is set up, the transport may reject its options.
pub open spec fn builds(
    url: Seq<char>,
    options: ConnectOptions,
    support: TlsSupport,
    r: Result<Endpoint, Error>,
) -> bool {
    match target(url, support, options.tls is Some, options.otls) {
        Target::Rejected(reason) => r matches Err(Error::InvalidArgs(message)) && message@
            == reason,
        Target::Plain(text) => match parsed_uri(text) {
            None => r matches Err(Error::InvalidUri),
            Some(uri) => r matches Ok(e) && endpoint_settings(e) == configured(
                options,
                unset(uri),
            ),
        },
        Target::Tls(text) => match parsed_uri(text) {
            None => r matches Err(Error::InvalidUri),
            Some(uri) => match r {
                Ok(e) => {
                    &&& endpoint_settings(e).tls matches Some(tls)
                    &&& tls_for(options, tls)
                    &&& endpoint_settings(e) == configured(
                        options,
                        Settings { tls: Some(tls), ..unset(uri) },
                    )
                },
                Err(e) => {
                    &&& e is TransportError
                    &&& exists|tls: ClientTlsConfig|
                        tls_for(options, tls) && #[trigger] tls_refused(uri, tls)
                },
            },
        },
    }
}

/// The URL with a scheme.
fn complete_url(url: &str, options: &ConnectOptions, support: TlsSupport) -> (r: String)
    ensures
        r@ == full_url(url@, support, options.tls is Some, options.otls),
{
    if str_starts_with(url, HTTP_PREFIX) || str_starts_with(url, HTTPS_PREFIX) {
        return url.to_owned();
    }
    let secure = match support {
        TlsSupport::Rustls => options.tls.is_some(),
        TlsSupport::OpenSsl => options.otls,
        TlsSupport::Disabled => false,
    };
    if secure {
        joined(HTTPS_PREFIX, url)
    } else {
        joined(HTTP_PREFIX, url)
    }
}

/// The endpoint with the settings of the connect options.
pub fn configure(endpoint: Endpoint, options: &ConnectOptions) -> (r: Endpoint)
    ensures
        endpoint_settings(r) == configured(*options, endpoint_settings(endpoint)),
{
    let mut endpoint = endpoint;
    if let Some((interval, timeout)) = options.keep_alive {
        endpoint =
        endpoint.keep_alive_while_idle(options.keep_alive_while_idle).http2_keep_alive_interval(
            interval,
        ).keep_alive_timeout(timeout);
    }
    if let Some(timeout) = options.timeout {
        endpoint = endpoint.timeout(timeout);
    }
    if let Some(timeout) = options.connect_timeout {
        endpoint = endpoint.connect_timeout(timeout);
    }
    if let Some(tcp_keepalive) = options.tcp_keepalive {
        endpoint = endpoint.tcp_keepalive(Some(tcp_keepalive));
    }
    endpoint
}

/// Takes the transport's answer to setting up TLS: the endpoint with the settings of
/// the connect options, or the error that it was refused.
pub fn configure_tls(res: Result<Endpoint, TonicError>, options: &ConnectOptions) -> (r: Result<
    Endpoint,
    Error,
>)
    ensures
        match res {
            Ok(base) => r matches Ok(e) && endpoint_settings(e) == configured(
                *options,
                endpoint_settings(base),
            ),
            Err(_) => r matches Err(Error::TransportError),
        },
{
    match res {
        Ok(endpoint) => Ok(configure(endpoint, options)),
        Err(_) => Err(Error::TransportError),
    }
}

/// The URI of the endpoint that a URL stands for.
pub fn endpoint_uri(url: &str, options: &ConnectOptions, support: TlsSupport) -> (r: Result<
    Uri,
    Error,
>)
    ensures
        match parsed_uri(full_url(url@, support, options.tls is Some, options.otls)) {
            Some(uri) => r == Ok::<Uri, Error>(uri),
            None => r matches Err(Error::InvalidUri),
        },
{
    let full = complete_url(url, options, support);
    match parse_uri(full.as_str()) {
        Ok(uri) => Ok(uri),
        Err(_) => Err(Error::InvalidUri),
    }
}

/// The endpoint for a URL, with the settings of the connect options.
pub fn build_endpoint(url: &str, options: &ConnectOptions, support: TlsSupport) -> (r: Result<
    Endpoint,
    Error,
>)
    ensures
        builds(url@, *options, support, r),
{
    let http = str_starts_with(url, HTTP_PREFIX);
    let https = !http && str_starts_with(url, HTTPS_PREFIX);
    if http && support == TlsSupport::Rustls && options.tls.is_some() {
        return Err(
            Error::InvalidArgs("TLS options are only supported with HTTPS URLs".to_string()),
        );
    }
    if https && support == TlsSupport::Disabled {
        return Err(
            Error::InvalidArgs(
                "HTTPS URLs are only supported with the feature \"tls\"".to_string(),
            ),
        );
    }
    let endpoint = Channel::builder(endpoint_uri(url, options, support)?);
    if support == TlsSupport::Rustls && (https || options.tls.is_some()) {
        let tls = match &options.tls {
            Some(tls) => clone_tls(tls),
            None => ClientTlsConfig::new(),
        };
        assert(tls_for(*options, tls));
        let res = endpoint.tls_config(tls);
        assert(res is Err ==> tls_refused(endpoint_settings(endpoint).uri, tls));
        configure_tls(res, options)
    } else {
        Ok(configure(endpoint, options))
    }
}

/// The URL that an endpoint was built from leads back to its URI.
pub proof fn law_url_leads_to_its_endpoint(
    url: Seq<char>,
    options: ConnectOptions,
    support: TlsSupport,
    endpoint: Endpoint,
)
    requires
        builds(url, options, support, Ok(endpoint)),
    ensures
        parsed_uri(full_url(url, support, options.tls is Some, options.otls)) == Some(
            endpoint_settings(endpoint).uri,
        ),
{
}

/// Without TLS a URL may leave out its scheme: it stands for the same endpoint as
/// with `http` spelled out.
pub proof fn law_bare_url_is_http(url: Seq<char>, support: TlsSupport)
    requires
        !has_prefix(url, HTTP_PREFIX@),
        !has_prefix(url, HTTPS_PREFIX@),
    ensures
        target(url, support, false, false) == target(HTTP_PREFIX@ + url, support, false, false),
{
    assert((HTTP_PREFIX@ + url).take(HTTP_PREFIX@.len() as int) =~= HTTP_PREFIX@);
}

/// TLS options are never dropped in silence: either TLS is set up with them, or the
/// URL is rejected.
pub proof fn law_tls_options_are_used(url: Seq<char>, openssl: bool)
    ensures
        target(url, TlsSupport::Rustls, true, openssl) !is Plain,
{
}

} // verus!
