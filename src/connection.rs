//! A pooled HTTPS client, configured once with a connect timeout and a peer
//! certificate policy.
use hyper::client::connect::dns::GaiResolver;
use hyper::client::HttpConnector;
use hyper::{Body, Client};
use hyper_openssl::HttpsConnector;
use openssl::error::ErrorStack;
use openssl::ssl::{SslConnector, SslConnectorBuilder, SslMethod, SslVerifyMode};
use std::time::Duration;
use vstd::prelude::*;

verus! {

#[verifier::external_type_specification]
#[verifier::external_body]
#[verifier::reject_recursive_types(C)]
#[verifier::reject_recursive_types(B)]
pub struct ExClient<C, B>(hyper::Client<C, B>);

#[verifier::external_type_specification]
#[verifier::external_body]
pub struct ExBody(hyper::Body);

#[verifier::external_type_specification]
#[verifier::external_body]
#[verifier::reject_recursive_types(R)]
pub struct ExHttpConnector<R>(hyper::client::HttpConnector<R>);

#[verifier::external_type_specification]
#[verifier::external_body]
pub struct ExGaiResolver(hyper::client::connect::dns::GaiResolver);

#[verifier::external_type_specification]
#[verifier::external_body]
#[verifier::reject_recursive_types(T)]
pub struct ExHttpsConnector<T>(hyper_openssl::HttpsConnector<T>);

#[verifier::external_type_specification]
#[verifier::external_body]
pub struct ExSslConnectorBuilder(openssl::ssl::SslConnectorBuilder);

#[verifier::external_type_specification]
#[verifier::external_body]
pub struct ExErrorStack(openssl::error::ErrorStack);

/// hyper's TCP connector, with what is known of its settings.
struct TcpConnector {
    inner: HttpConnector<GaiResolver>,
    enforce_http: Ghost<bool>,
    connect_timeout: Ghost<Option<Duration>>,
}

impl TcpConnector {
    /// Whether the connector lets through `http` URIs only.
    closed spec fn enforces_http(&self) -> bool {
        self.enforce_http@
    }

    /// The bound on the time to establish a TCP connection, if any.
    closed spec fn timeout(&self) -> Option<Duration> {
        self.connect_timeout@
    }
}

/// An OpenSSL client context being set up, with whether it checks the peer.
struct TlsContext {
    inner: SslConnectorBuilder,
    verify_peer: Ghost<bool>,
}

impl TlsContext {
    /// Whether the peer's certificate is checked during the handshake.
    closed spec fn checks_peer(&self) -> bool {
        self.verify_peer@
    }
}

/// TLS by OpenSSL over hyper's TCP connector.
struct HttpsTransport {
    inner: HttpsConnector<HttpConnector<GaiResolver>>,
    enforce_http: Ghost<bool>,
    connect_timeout: Ghost<Option<Duration>>,
    verify_peer: Ghost<bool>,
}

/// hyper's pooled client over the HTTPS transport.
struct PooledClient {
    inner: Client<HttpsConnector<HttpConnector<GaiResolver>>, Body>,
    enforce_http: Ghost<bool>,
    connect_timeout: Ghost<Option<Duration>>,
    verify_peer: Ghost<bool>,
}

/// Relies on `HttpConnector::new`: a TCP connector that enforces the `http`
/// scheme and has no connect timeout (hyper's defaults).
#[verifier::external_body]
fn new_http_connector() -> (r: TcpConnector)
    ensures
        r.enforces_http(),
        r.timeout() is None,
{
    TcpConnector {
        inner: HttpConnector::new(),
        enforce_http: Ghost(true),
        connect_timeout: Ghost(None),
    }
}

/// Relies on `HttpConnector::enforce_http`: sets whether only `http` URIs
/// are let through, and nothing else.
#[verifier::external_body]
fn set_enforce_http(c: &mut TcpConnector, on: bool)
    ensures
        final(c).enforces_http() == on,
        final(c).timeout() == old(c).timeout(),
{
    c.inner.enforce_http(on);
    c.enforce_http = Ghost(on);
}

/// Relies on `HttpConnector::set_connect_timeout`: bounds the time to
/// establish a TCP connection by `t`, and changes nothing else.
#[verifier::external_body]
fn set_connect_timeout(c: &mut TcpConnector, t: Duration)
    ensures
        final(c).timeout() == Some(t),
        final(c).enforces_http() == old(c).enforces_http(),
{
    c.inner.set_connect_timeout(Some(t));
    c.connect_timeout = Ghost(Some(t));
}

/// Relies on `SslConnector::builder` with `SslMethod::tls()`: a TLS client
/// context that negotiates the protocol version and whose verify mode is
/// `PEER`, or OpenSSL's error.
#[verifier::external_body]
fn tls_context() -> (r: Result<TlsContext, ErrorStack>)
    ensures
        r matches Ok(b) ==> b.checks_peer(),
{
    match SslConnector::builder(SslMethod::tls()) {
        Ok(inner) => Ok(TlsContext { inner, verify_peer: Ghost(true) }),
        Err(e) => Err(e),
    }
}

/// Relies on `SslContextBuilder::set_verify` with `SslVerifyMode::NONE`:
/// the peer's certificate is no longer checked.
#[verifier::external_body]
fn accept_any_certificate(b: &mut TlsContext)
    ensures
        !final(b).checks_peer(),
{
    b.inner.set_verify(SslVerifyMode::NONE);
    b.verify_peer = Ghost(false);
}

/// Relies on `hyper_openssl::HttpsConnector::with_connector`: TLS with the
/// given context over the given TCP connector, whose settings it keeps (it
/// changes only the context's session cache), or OpenSSL's error.
#[verifier::external_body]
fn https_connector(http: TcpConnector, tls: TlsContext) -> (r: Result<HttpsTransport, ErrorStack>)
    ensures
        r matches Ok(t) ==> t.enforce_http@ == http.enforces_http() && t.connect_timeout@
            == http.timeout() && t.verify_peer@ == tls.checks_peer(),
{
    match HttpsConnector::with_connector(http.inner, tls.inner) {
        Ok(inner) => Ok(
            HttpsTransport {
                inner,
                enforce_http: http.enforce_http,
                connect_timeout: http.connect_timeout,
                verify_peer: tls.verify_peer,
            },
        ),
        Err(e) => Err(e),
    }
}

/// Relies on `Client::builder().build`: a pooled client with hyper's
/// defaults that connects through the given transport as it is.
#[verifier::external_body]
fn pooled_client(t: HttpsTransport) -> (r: PooledClient)
    ensures
        r.enforce_http == t.enforce_http,
        r.connect_timeout == t.connect_timeout,
        r.verify_peer == t.verify_peer,
{
    PooledClient {
        inner: Client::builder().build::<_, Body>(t.inner),
        enforce_http: t.enforce_http,
        connect_timeout: t.connect_timeout,
        verify_peer: t.verify_peer,
    }
}

/// Why a connection could not be set up.
#[derive(Debug)]
pub enum ConnectError {
    /// OpenSSL could not build the TLS client context.
    TlsContext(ErrorStack),
    /// The TLS layer could not be put over the TCP connector.
    HttpsConnector(ErrorStack),
}

/// A pooled HTTPS client together with the settings it was built with.
pub struct Connection {
    client: PooledClient,
    connect_timeout: Duration,
    verify: bool,
}

impl Connection {
    /// The recorded settings are those the client was built with.
    #[verifier::type_invariant]
    closed spec fn settings_match(self) -> bool {
        &&& self.client.connect_timeout@ == Some(self.connect_timeout)
        &&& self.client.verify_peer@ == self.verify
    }

    /// Whether the client's TCP connector lets through `http` URIs only.
    pub closed spec fn spec_enforces_http(&self) -> bool {
        self.client.enforce_http@
    }

    /// The bound the client's TCP connector puts on establishing a
    /// connection, if any.
    pub closed spec fn spec_connect_timeout(&self) -> Option<Duration> {
        self.client.connect_timeout@
    }

    /// Whether the client's TLS context checks the peer's certificate.
    pub closed spec fn spec_verify(&self) -> bool {
        self.client.verify_peer@
    }

    /// Builds a client whose TCP connector lets every URI scheme through to
    /// the TLS layer and gives up connecting after `connect_timeout`, and
    /// whose TLS context checks the peer's certificate exactly when `verify`.
    /// Fails only where OpenSSL does.
    pub fn new_for_client(connect_timeout: Duration, verify: bool) -> (r: Result<
        Connection,
        ConnectError,
    >)
        ensures
            r matches Ok(c) ==> {
                &&& !c.spec_enforces_http()
                &&& c.spec_connect_timeout() == Some(connect_timeout)
                &&& c.spec_verify() == verify
            },
    {
        let mut http = new_http_connector();
        set_enforce_http(&mut http, false);
        set_connect_timeout(&mut http, connect_timeout);
        let mut tls = match tls_context() {
            Ok(b) => b,
            Err(e) => {
                return Err(ConnectError::TlsContext(e));
            },
        };
        if !verify {
            accept_any_certificate(&mut tls);
        }
        let transport = match https_connector(http, tls) {
            Ok(t) => t,
            Err(e) => {
                return Err(ConnectError::HttpsConnector(e));
            },
        };
        let client = pooled_client(transport);
        Ok(Connection { client, connect_timeout, verify })
    }

    /// The pooled client that requests go through.
    pub fn client(&self) -> &Client<HttpsConnector<HttpConnector<GaiResolver>>, Body> {
        &self.client.inner
    }

    /// The time allowed to establish a TCP connection.
    pub fn connect_timeout(&self) -> (r: Duration)
        ensures
            self.spec_connect_timeout() == Some(r),
    {
        proof {
            use_type_invariant(self);
        }
        self.connect_timeout
    }

    /// Whether peer certificates are checked.
    pub fn verify(&self) -> (r: bool)
        ensures
            r == self.spec_verify(),
    {
        proof {
            use_type_invariant(self);
        }
        self.verify
    }
}

} // verus!
