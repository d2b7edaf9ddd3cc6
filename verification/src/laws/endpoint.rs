//! How URLs and connect options become transport endpoints.

use crate::client::ConnectOptions;
use crate::endpoint::{
    build_endpoint, configure, configure_tls, endpoint_settings, endpoint_uri, parsed_uri,
    TlsSupport,
};
use crate::error::Error;
use http::uri::Uri;
use tonic::transport::{ClientTlsConfig, Endpoint, Error as TonicError};
use vstd::prelude::*;

verus! {

/// The text begins with the scheme.
pub open spec fn begins(url: Seq<char>, scheme: Seq<char>) -> bool {
    exists|rest: Seq<char>| url == #[trigger] (scheme + rest)
}

/// The text has one of the two schemes.
pub open spec fn has_scheme(url: Seq<char>) -> bool {
    begins(url, "http://"@) || begins(url, "https://"@)
}

/// TLS was asked for: by TLS options where the transport brings TLS along, or by an
/// OpenSSL connector.
pub open spec fn wants_tls(options: ConnectOptions, support: TlsSupport) -> bool {
    match support {
        TlsSupport::Disabled => false,
        TlsSupport::Rustls => options.tls is Some,
        TlsSupport::OpenSsl => options.otls,
    }
}

/// The text with a scheme: its own, or else `https` if TLS was asked for, and `http`
/// otherwise.
pub open spec fn completed(url: Seq<char>, options: ConnectOptions, support: TlsSupport) -> Seq<char> {
    if has_scheme(url) {
        url
    } else if wants_tls(options, support) {
        "https://"@ + url
    } else {
        "http://"@ + url
    }
}

/// The text cannot be an endpoint: TLS options meet an `http` URL, or an `https` URL
/// meets a transport without TLS.
pub open spec fn contradicts(url: Seq<char>, options: ConnectOptions, support: TlsSupport) -> bool {
    ||| begins(url, "http://"@) && support == TlsSupport::Rustls && options.tls is Some
    ||| begins(url, "https://"@) && support == TlsSupport::Disabled
}

/// TLS is to be set up by the transport.
pub open spec fn secured(url: Seq<char>, options: ConnectOptions, support: TlsSupport) -> bool {
    support == TlsSupport::Rustls && (options.tls is Some || begins(url, "https://"@))
}

/// An endpoint at the URI of the text, with the options on it and TLS as they ask for.
pub open spec fn stands_for(
    e: Endpoint,
    url: Seq<char>,
    options: ConnectOptions,
    support: TlsSupport,
) -> bool {
    &&& !contradicts(url, options, support)
    &&& parsed_uri(completed(url, options, support)) == Some(endpoint_settings(e).uri)
    &&& carries(e, options)
    &&& endpoint_settings(e).tls is Some <==> secured(url, options, support)
    &&& endpoint_settings(e).tls is Some && options.tls is Some ==> endpoint_settings(e).tls
        == options.tls
}

/// The text builds no endpoint, and this is why.
pub open spec fn fails_with(
    url: Seq<char>,
    options: ConnectOptions,
    support: TlsSupport,
    e: Error,
) -> bool {
    if contradicts(url, options, support) {
        e matches Error::InvalidArgs(m) && m@ == if begins(url, "http://"@) {
            "TLS options are only supported with HTTPS URLs"@
        } else {
            "HTTPS URLs are only supported with the feature \"tls\""@
        }
    } else if parsed_uri(completed(url, options, support)) is None {
        e is InvalidUri
    } else {
        e is TransportError && secured(url, options, support)
    }
}

/// What building an endpoint gives, in terms of the text and the options.
pub proof fn lemma_builds(
    url: Seq<char>,
    options: ConnectOptions,
    support: TlsSupport,
    r: Result<Endpoint, Error>,
)
    requires
        crate::endpoint::builds(url, options, support, r),
    ensures
        r matches Ok(e) ==> stands_for(e, url, options, support),
        r matches Err(e) ==> fails_with(url, options, support, e),
{
    lemma_begins(url, "http://"@);
    lemma_begins(url, "https://"@);
    lemma_one_scheme(url);
}

/// A text begins with a scheme exactly if the scheme is its head.
pub proof fn lemma_begins(url: Seq<char>, scheme: Seq<char>)
    ensures
        begins(url, scheme) <==> crate::text::has_prefix(url, scheme),
{
    if begins(url, scheme) {
        let rest = choose|rest: Seq<char>| url == #[trigger] (scheme + rest);
        assert(url.take(scheme.len() as int) =~= scheme);
    }
    if crate::text::has_prefix(url, scheme) {
        assert(url =~= scheme + url.skip(scheme.len() as int));
    }
}

/// No text has both schemes.
proof fn lemma_one_scheme(url: Seq<char>)
    ensures
        !(begins(url, "http://"@) && begins(url, "https://"@)),
{
    reveal_strlit("http://");
    reveal_strlit("https://");
    if begins(url, "http://"@) && begins(url, "https://"@) {
        let a = choose|rest: Seq<char>| url == #[trigger] ("http://"@ + rest);
        let b = choose|rest: Seq<char>| url == #[trigger] ("https://"@ + rest);
        assert(url[4] == ':');
        assert(url[4] == 's');
    }
}

/// The settings of the connect options, and those only, are on the endpoint.
pub open spec fn carries(e: Endpoint, options: ConnectOptions) -> bool {
    let settings = endpoint_settings(e);
    &&& settings.timeout == options.timeout
    &&& settings.connect_timeout == options.connect_timeout
    &&& settings.tcp_keepalive == options.tcp_keepalive
    &&& match options.keep_alive {
        Some((interval, timeout)) => {
            &&& settings.keep_alive_interval == Some(interval)
            &&& settings.keep_alive_timeout == Some(timeout)
            &&& settings.keep_alive_while_idle == Some(options.keep_alive_while_idle)
        },
        None => {
            &&& settings.keep_alive_interval is None
            &&& settings.keep_alive_timeout is None
            &&& settings.keep_alive_while_idle is None
        },
    }
}

/// Every setting of the connect options is on a built endpoint, and what they leave
/// unset is unset there.
pub proof fn law_endpoint_carries_the_options(
    url: &str,
    options: ConnectOptions,
    support: TlsSupport,
    e: Endpoint,
)
    requires
        call_ensures(build_endpoint, (url, &options, support), Ok(e)),
    ensures
        carries(e, options),
        options.timeout is Some ==> endpoint_settings(e).timeout == options.timeout,
        options.timeout is None ==> endpoint_settings(e).timeout is None,
{
}

/// An endpoint is built for the URI of its URL. A URL with a scheme stands for itself;
/// one without gets `https://` if TLS was asked for, and `http://` otherwise.
pub proof fn law_endpoint_is_at_its_url(
    url: &str,
    options: ConnectOptions,
    support: TlsSupport,
    e: Endpoint,
)
    requires
        call_ensures(build_endpoint, (url, &options, support), Ok(e)),
    ensures
        parsed_uri(completed(url@, options, support)) == Some(endpoint_settings(e).uri),
{
    lemma_begins(url@, "http://"@);
    lemma_begins(url@, "https://"@);
}

/// TLS is set up on the endpoint exactly where the transport brings TLS along and the
/// URL or the options ask for it, and then with the given TLS options or new ones.
pub proof fn law_endpoint_tls(url: &str, options: ConnectOptions, support: TlsSupport, e: Endpoint)
    requires
        call_ensures(build_endpoint, (url, &options, support), Ok(e)),
    ensures
        endpoint_settings(e).tls is Some <==> support == TlsSupport::Rustls && (options.tls is Some
            || begins(url@, "https://"@)),
        endpoint_settings(e).tls is Some && options.tls is Some ==> endpoint_settings(e).tls
            == options.tls,
        endpoint_settings(e).tls is Some && options.tls is None ==> call_ensures(
            ClientTlsConfig::new,
            (),
            endpoint_settings(e).tls->0,
        ),
{
    lemma_begins(url@, "http://"@);
    lemma_begins(url@, "https://"@);
    lemma_one_scheme(url@);
}

/// When no endpoint is built, and why: TLS options with an `http` URL, an `https` URL
/// without TLS, a text that is no URI, or TLS options that the transport refused. On all
/// other inputs one is built.
pub proof fn law_endpoint_errors(
    url: &str,
    options: ConnectOptions,
    support: TlsSupport,
    r: Result<Endpoint, Error>,
)
    requires
        call_ensures(build_endpoint, (url, &options, support), r),
    ensures
        r matches Ok(e) ==> stands_for(e, url@, options, support),
        r matches Err(e) ==> fails_with(url@, options, support, e),
{
    lemma_builds(url@, options, support, r);
}

/// An endpoint fails to build with a transport error only if the transport was asked to
/// set up TLS at its URI, with the given TLS options or new ones, and refused.
pub proof fn law_transport_error_comes_from_the_transport(
    url: &str,
    options: ConnectOptions,
    support: TlsSupport,
) -> (asked: (Endpoint, ClientTlsConfig, Result<Endpoint, TonicError>))
    requires
        call_ensures(build_endpoint, (url, &options, support), Err(Error::TransportError)),
    ensures
        call_ensures(Endpoint::tls_config, (asked.0, asked.1), asked.2),
        asked.2 is Err,
        options.tls is Some ==> options.tls == Some(asked.1),
        options.tls is None ==> call_ensures(ClientTlsConfig::new, (), asked.1),
        endpoint_settings(asked.0).tls is None,
{
    lemma_begins(url@, "http://"@);
    lemma_begins(url@, "https://"@);
    let uri = parsed_uri(
        crate::endpoint::full_url(url@, support, options.tls is Some, options.otls),
    )->0;
    let tls = choose|tls: ClientTlsConfig|
        crate::endpoint::tls_for(options, tls) && #[trigger] crate::endpoint::tls_refused(
            uri,
            tls,
        );
    let (base, res) = choose|base: Endpoint, res: Result<Endpoint, TonicError>| #[trigger]
        call_ensures(Endpoint::tls_config, (base, tls), res) && res is Err && endpoint_settings(
            base,
        ) == crate::endpoint::unset(uri);
    (base, tls, res)
}

/// Configuring an endpoint puts what the options set on it and leaves the rest, its URI
/// and TLS among it, as it was.
pub proof fn law_configure_puts_what_is_set(base: Endpoint, options: ConnectOptions, e: Endpoint)
    requires
        call_ensures(configure, (base, &options), e),
    ensures
        ({
            let (old_settings, settings) = (endpoint_settings(base), endpoint_settings(e));
            &&& settings.uri == old_settings.uri
            &&& settings.tls == old_settings.tls
            &&& settings.timeout == if options.timeout is Some {
                options.timeout
            } else {
                old_settings.timeout
            }
            &&& settings.connect_timeout == if options.connect_timeout is Some {
                options.connect_timeout
            } else {
                old_settings.connect_timeout
            }
            &&& settings.tcp_keepalive == if options.tcp_keepalive is Some {
                options.tcp_keepalive
            } else {
                old_settings.tcp_keepalive
            }
            &&& options.keep_alive matches Some((interval, timeout)) ==> {
                &&& settings.keep_alive_interval == Some(interval)
                &&& settings.keep_alive_timeout == Some(timeout)
                &&& settings.keep_alive_while_idle == Some(options.keep_alive_while_idle)
            }
            &&& options.keep_alive is None ==> {
                &&& settings.keep_alive_interval == old_settings.keep_alive_interval
                &&& settings.keep_alive_timeout == old_settings.keep_alive_timeout
                &&& settings.keep_alive_while_idle == old_settings.keep_alive_while_idle
            }
        }),
{
}

/// The transport's answer decides: what it set up is configured like any other endpoint,
/// and a refusal is a transport error.
pub proof fn law_transport_answer(
    res: Result<Endpoint, TonicError>,
    options: ConnectOptions,
    r: Result<Endpoint, Error>,
    plain: Endpoint,
)
    requires
        call_ensures(configure_tls, (res, &options), r),
        res matches Ok(base) ==> call_ensures(configure, (base, &options), plain),
    ensures
        res is Err <==> r is Err,
        r matches Err(e) ==> e == Error::TransportError,
        r matches Ok(e) ==> endpoint_settings(e) == endpoint_settings(plain),
{
}

/// The text that builds an endpoint names its URI.
pub proof fn law_text_names_the_uri(
    url: &str,
    options: ConnectOptions,
    support: TlsSupport,
    e: Endpoint,
    r: Result<Uri, Error>,
)
    requires
        call_ensures(build_endpoint, (url, &options, support), Ok(e)),
        call_ensures(endpoint_uri, (url, &options, support), r),
    ensures
        r == Ok::<Uri, Error>(endpoint_settings(e).uri),
{
}

/// The URI that a text names: that of the text with its own scheme, or with the one that
/// it is given.
pub proof fn law_endpoint_uri(
    url: &str,
    options: ConnectOptions,
    support: TlsSupport,
    r: Result<Uri, Error>,
)
    requires
        call_ensures(endpoint_uri, (url, &options, support), r),
    ensures
        parsed_uri(completed(url@, options, support)) matches Some(uri) ==> r == Ok::<Uri, Error>(
            uri,
        ),
        parsed_uri(completed(url@, options, support)) is None ==> r == Err::<Uri, Error>(
            Error::InvalidUri,
        ),
{
    lemma_begins(url@, "http://"@);
    lemma_begins(url@, "https://"@);
}

} // verus!
