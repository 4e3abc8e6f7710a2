//! The client identity presented to the Amplifier API, and the kinds of TLS
//! configuration a client can use.
use vstd::prelude::*;
use crate::propagation::{header_name_canonical, header_name_valid, MAX_HEADER_NAMES_BEFORE_INSERT};
use vstd::string::StringSliceAdditionalSpecFns;
use reqwest::Identity as PemIdentity;

verus! {

#[verifier::external_type_specification]
#[verifier::external_body]
pub struct ExReqwestIdentity(PemIdentity);

#[verifier::external_type_specification]
#[verifier::external_body]
pub struct ExReqwestError(reqwest::Error);

#[verifier::external_type_specification]
#[verifier::external_body]
#[verifier::reject_recursive_types(T)]
pub struct ExSecret<T: ?Sized>(redact::Secret<T>);

#[verifier::external_type_specification]
#[verifier::external_body]
pub struct ExRustlsClientConfig(rustls::ClientConfig);

#[verifier::external_type_specification]
#[verifier::external_body]
pub struct ExReqwestClient(reqwest::Client);

#[verifier::external_type_specification]
#[verifier::external_body]
pub struct ExReqwestClientBuilder(reqwest::ClientBuilder);

#[verifier::external_type_specification]
#[verifier::external_body]
pub struct ExUrlParseError(url::ParseError);

#[verifier::external_type_specification]
#[verifier::external_body]
pub struct ExSimdJsonError(simd_json::Error);

/// Whether reqwest accepts these bytes as a PEM identity (a private key and
/// a certificate chain).
pub uninterp spec fn pem_identity_valid(pem: Seq<u8>) -> bool;

/// The identity that reqwest reads from these PEM bytes.
pub uninterp spec fn pem_identity(pem: Seq<u8>) -> PemIdentity;

/// What a secret holds (`Secret::expose_secret`).
pub uninterp spec fn secret_value(secret: redact::Secret<PemIdentity>) -> PemIdentity;

/// Calls `reqwest::Identity::from_pem`. Claimed of reqwest: success depends
/// on the bytes alone (named `pem_identity_valid`), and so does the identity
/// read (named `pem_identity`).
#[verifier::external_body]
fn reqwest_identity_from_pem(pem: &[u8]) -> (r: Result<PemIdentity, reqwest::Error>)
    ensures
        r is Ok <==> pem_identity_valid(pem@),
        r matches Ok(identity) ==> identity == pem_identity(pem@),
{
    PemIdentity::from_pem(pem)
}

/// Calls `redact::Secret::new`. Claimed of redact: the secret holds exactly
/// the given identity.
#[verifier::external_body]
fn new_secret(identity: PemIdentity) -> (r: redact::Secret<PemIdentity>)
    ensures
        secret_value(r) == identity,
{
    redact::Secret::new(identity)
}

/// A `.pem` encoded client certificate and key, kept out of debug output.
#[derive(Debug)]
pub struct Identity(pub redact::Secret<PemIdentity>);

impl Identity {
    /// Wraps a reqwest identity.
    pub fn new(identity: PemIdentity) -> (r: Identity)
        ensures
            secret_value(r.0) == identity,
    {
        Identity(new_secret(identity))
    }

    /// The identity in `identity`, `.pem` encoded; fails exactly where
    /// reqwest does not accept the bytes.
    pub fn new_from_pem_bytes(identity: &[u8]) -> (r: Result<Identity, reqwest::Error>)
        ensures
            r is Ok <==> pem_identity_valid(identity@),
            r matches Ok(id) ==> secret_value(id.0) == pem_identity(identity@),
    {
        match reqwest_identity_from_pem(identity) {
            Ok(id) => Ok(Identity::new(id)),
            Err(e) => Err(e),
        }
    }
}

/// All identities compare equal: an identity that could be parsed is valid,
/// and the parsed identity cannot be inspected.
impl PartialEq for Identity {
    fn eq(&self, other: &Identity) -> (r: bool) {
        true
    }
}

impl vstd::std_specs::cmp::PartialEqSpecImpl for Identity {
    open spec fn obeys_eq_spec() -> bool {
        true
    }

    open spec fn eq_spec(&self, other: &Identity) -> bool {
        true
    }
}

/// The TLS configuration of an Amplifier API client.
pub enum TlsType {
    /// An embedded `.pem` client certificate.
    Certificate(Box<Identity>),
    /// A custom TLS configuration, such as one backed by an HSM.
    CustomProvider(Box<rustls::ClientConfig>),
}

/// Errors of the Amplifier API client.
#[derive(Debug)]
pub enum AmplifierApiError {
    /// The HTTP client failed.
    Reqwest(reqwest::Error),
    /// A URL could not be parsed.
    UrlParse(url::ParseError),
    /// A JSON body could not be read.
    Json(simd_json::Error),
}

/// The keep-alive interval of the client's HTTP/2 connections, in seconds.
pub const KEEP_ALIVE_INTERVAL_SECS: u64 = 15;

/// How an Amplifier API client is set up.
pub struct ClientSettings {
    /// Headers sent with every request, as (name, value).
    pub default_headers: Vec<(&'static str, &'static str)>,
    /// Interval of HTTP/2 keep-alive pings, in seconds.
    pub keep_alive_secs: u64,
    /// Whether keep-alive pings are sent while no request is under way.
    pub keep_alive_while_idle: bool,
    /// The TLS configuration.
    pub tls: TlsType,
}

/// The texts of a list of headers.
pub open spec fn header_texts(headers: Seq<(&'static str, &'static str)>) -> Seq<(Seq<char>, Seq<char>)> {
    headers.map_values(|h: (&'static str, &'static str)| (h.0@, h.1@))
}

/// The headers every Amplifier API request carries.
pub open spec fn amplifier_default_headers() -> Seq<(Seq<char>, Seq<char>)> {
    seq![
        ("Accept"@, "application/json"@),
        ("Accept-Encoding"@, "gzip, deflate"@),
        ("Content-Type"@, "application/json"@),
    ]
}

/// A header value that `HeaderValue::from_static` takes without panicking:
/// visible ASCII, spaces and tabs.
pub open spec fn static_header_value_ok(value: Seq<char>) -> bool {
    forall|i: int| 0 <= i < value.len() ==> {
        let c = #[trigger] value[i];
        c == '\t' || (' ' <= c && c <= '~')
    }
}

/// How reqwest's TLS back-end is chosen for a client.
pub ghost enum TlsBackendSetup {
    /// reqwest's default back-end.
    Default,
    /// rustls, configured by reqwest.
    Rustls,
    /// This ready-made rustls configuration.
    Preconfigured(rustls::ClientConfig),
}

/// The part of a reqwest client's configuration that the Amplifier API
/// client sets.
pub ghost struct ClientSetup {
    /// The default headers: each canonical name with its value's bytes.
    pub headers: Map<Seq<char>, Seq<u8>>,
    /// The TLS back-end.
    pub tls: TlsBackendSetup,
    /// The client certificate presented, if any.
    pub identity: Option<PemIdentity>,
    /// The HTTP/2 keep-alive interval in nanoseconds, if pings are sent.
    pub keep_alive_interval_nanos: Option<nat>,
    /// Whether keep-alive pings are also sent while no request is under way.
    pub keep_alive_while_idle: bool,
}

/// What a `reqwest::ClientBuilder` has been configured with so far.
pub uninterp spec fn builder_setup(builder: reqwest::ClientBuilder) -> ClientSetup;

/// What a `reqwest::Client` was built with.
pub uninterp spec fn client_setup(client: reqwest::Client) -> ClientSetup;

/// The default headers of a new builder: `Accept: */*`.
pub open spec fn initial_default_headers() -> Map<Seq<char>, Seq<u8>> {
    map!["accept"@ => "*/*".spec_bytes()]
}

/// Calls `reqwest::Client::builder()`. Claimed of reqwest: the builder's
/// default headers are `Accept: */*` alone, the TLS back-end is the
/// default, there is no identity, no HTTP/2 keep-alive and no keep-alive
/// while idle.
#[verifier::external_body]
fn new_client_builder() -> (r: reqwest::ClientBuilder)
    ensures
        builder_setup(r) == (ClientSetup {
            headers: initial_default_headers(),
            tls: TlsBackendSetup::Default,
            identity: None,
            keep_alive_interval_nanos: None,
            keep_alive_while_idle: false,
        }),
{
    reqwest::Client::builder()
}

/// Calls `ClientBuilder::use_rustls_tls`: the TLS back-end becomes rustls,
/// nothing else changes.
#[verifier::external_body]
fn builder_use_rustls_tls(builder: reqwest::ClientBuilder) -> (r: reqwest::ClientBuilder)
    ensures
        builder_setup(r) == (ClientSetup { tls: TlsBackendSetup::Rustls, ..builder_setup(builder) }),
{
    builder.use_rustls_tls()
}

/// Calls `ClientBuilder::identity`: the client certificate becomes
/// `identity`, nothing else changes.
#[verifier::external_body]
fn builder_identity(builder: reqwest::ClientBuilder, identity: PemIdentity) -> (r: reqwest::ClientBuilder)
    ensures
        builder_setup(r) == (ClientSetup { identity: Some(identity), ..builder_setup(builder) }),
{
    builder.identity(identity)
}

/// Calls `ClientBuilder::use_preconfigured_tls` with a rustls
/// configuration: the TLS back-end becomes that configuration, nothing else
/// changes.
#[verifier::external_body]
fn builder_use_preconfigured_tls(builder: reqwest::ClientBuilder, config: rustls::ClientConfig) -> (r: reqwest::ClientBuilder)
    ensures
        builder_setup(r) == (ClientSetup { tls: TlsBackendSetup::Preconfigured(config), ..builder_setup(builder) }),
{
    builder.use_preconfigured_tls(config)
}

/// Calls `ClientBuilder::http2_keep_alive_interval` with `secs` seconds:
/// the interval becomes that, nothing else changes.
#[verifier::external_body]
fn builder_http2_keep_alive_interval(builder: reqwest::ClientBuilder, secs: u64) -> (r: reqwest::ClientBuilder)
    ensures
        builder_setup(r) == (ClientSetup {
            keep_alive_interval_nanos: Some((secs * 1_000_000_000) as nat),
            ..builder_setup(builder)
        }),
{
    builder.http2_keep_alive_interval(core::time::Duration::from_secs(secs))
}

/// Calls `ClientBuilder::http2_keep_alive_while_idle`: the setting becomes
/// `enabled`, nothing else changes.
#[verifier::external_body]
fn builder_http2_keep_alive_while_idle(builder: reqwest::ClientBuilder, enabled: bool) -> (r: reqwest::ClientBuilder)
    ensures
        builder_setup(r) == (ClientSetup { keep_alive_while_idle: enabled, ..builder_setup(builder) }),
{
    builder.http2_keep_alive_while_idle(enabled)
}

/// Calls `ClientBuilder::default_headers` with a header map holding the one
/// header `name: value` (the name inserted as a static text, the value made
/// by `HeaderValue::from_static`). Claimed of reqwest and http: that header
/// replaces any default header of the same canonical name, nothing else
/// changes. The texts that `requires` admits are ones http takes without
/// panicking (a static name panics only when not `header_name_valid`,
/// `from_static` only on a value that is not `static_header_value_ok`), and
/// the builder's map has room for one more name.
#[verifier::external_body]
fn builder_default_header(builder: reqwest::ClientBuilder, name: &'static str, value: &'static str) -> (r: reqwest::ClientBuilder)
    requires
        header_name_valid(name@),
        static_header_value_ok(value@),
        builder_setup(builder).headers.dom().len() <= MAX_HEADER_NAMES_BEFORE_INSERT,
    ensures
        builder_setup(r) == (ClientSetup {
            headers: builder_setup(builder).headers.insert(header_name_canonical(name@), value.spec_bytes()),
            ..builder_setup(builder)
        }),
{
    let mut headers = reqwest::header::HeaderMap::new();
    headers.insert(name, reqwest::header::HeaderValue::from_static(value));
    builder.default_headers(headers)
}

/// Calls `ClientBuilder::build`. Nothing is claimed of success; a client
/// built carries the builder's configuration.
#[verifier::external_body]
fn builder_build(builder: reqwest::ClientBuilder) -> (r: Result<reqwest::Client, reqwest::Error>)
    ensures
        r matches Ok(client) ==> client_setup(client) == builder_setup(builder),
{
    builder.build()
}

/// Calls `Secret::expose_secret` and clones the identity it holds.
#[verifier::external_body]
fn expose_identity(secret: &redact::Secret<PemIdentity>) -> (r: PemIdentity)
    ensures
        r == secret_value(*secret),
{
    secret.expose_secret().clone()
}

/// The default headers after inserting each of `list` in order.
pub open spec fn with_default_headers(
    headers: Map<Seq<char>, Seq<u8>>,
    list: Seq<(&'static str, &'static str)>,
) -> Map<Seq<char>, Seq<u8>>
    decreases list.len(),
{
    if list.len() == 0 {
        headers
    } else {
        with_default_headers(headers, list.drop_last()).insert(
            header_name_canonical(list.last().0@),
            list.last().1.spec_bytes(),
        )
    }
}

/// The setup of a client built from `settings`.
pub open spec fn settings_setup(settings: ClientSettings) -> ClientSetup {
    ClientSetup {
        headers: with_default_headers(initial_default_headers(), settings.default_headers@),
        tls: match settings.tls {
            TlsType::Certificate(_) => TlsBackendSetup::Rustls,
            TlsType::CustomProvider(config) => TlsBackendSetup::Preconfigured(*config),
        },
        identity: match settings.tls {
            TlsType::Certificate(identity) => Some(secret_value(identity.0)),
            TlsType::CustomProvider(_) => None,
        },
        keep_alive_interval_nanos: Some((settings.keep_alive_secs * 1_000_000_000) as nat),
        keep_alive_while_idle: settings.keep_alive_while_idle,
    }
}

/// Builds a `reqwest::Client` from `settings`: rustls, then the client
/// certificate or the preconfigured TLS configuration, HTTP/2 keep-alive at
/// the interval and idle setting given, and the default headers on top of
/// reqwest's own. A client built is set up as `settings_setup` says.
pub fn build_client(settings: ClientSettings) -> (r: Result<reqwest::Client, reqwest::Error>)
    requires
        settings.default_headers@.len() < MAX_HEADER_NAMES_BEFORE_INSERT,
        forall|i: int| 0 <= i < settings.default_headers@.len() ==> header_name_valid(
            #[trigger] settings.default_headers@[i].0@,
        ) && static_header_value_ok(settings.default_headers@[i].1@),
    ensures
        r matches Ok(client) ==> client_setup(client) == settings_setup(settings),
{
    let ghost expected = settings_setup(settings);
    let mut builder = new_client_builder();
    builder = builder_use_rustls_tls(builder);
    builder = match settings.tls {
        TlsType::Certificate(identity) => builder_identity(builder, expose_identity(&identity.0)),
        TlsType::CustomProvider(config) => builder_use_preconfigured_tls(builder, *config),
    };
    builder = builder_http2_keep_alive_interval(builder, settings.keep_alive_secs);
    builder = builder_http2_keep_alive_while_idle(builder, settings.keep_alive_while_idle);
    let headers = settings.default_headers;
    let n = headers.len();
    let mut i: usize = 0;
    while i < n
        invariant
            n == headers@.len(),
            i <= n,
            n < MAX_HEADER_NAMES_BEFORE_INSERT,
            forall|j: int| 0 <= j < n ==> header_name_valid(#[trigger] headers@[j].0@) && static_header_value_ok(
                headers@[j].1@,
            ),
            builder_setup(builder) == (ClientSetup {
                headers: with_default_headers(initial_default_headers(), headers@.take(i as int)),
                ..expected
            }),
            builder_setup(builder).headers.dom().finite(),
            builder_setup(builder).headers.dom().len() <= i + 1,
        decreases n - i,
    {
        let (name, value) = headers[i];
        proof {
            assert(header_name_valid(headers@[i as int].0@));
        }
        builder = builder_default_header(builder, name, value);
        proof {
            let next = headers@.take(i + 1);
            assert(next.drop_last() =~= headers@.take(i as int));
            assert(next.last() == headers@[i as int]);
        }
        i = i + 1;
    }
    proof {
        assert(headers@.take(n as int) =~= headers@);
    }
    builder_build(builder)
}

/// The settings of an Amplifier API client: JSON requests and responses
/// (gzip or deflate encoded), HTTP/2 keep-alive every 15 s also while idle,
/// and the given TLS configuration.
pub fn client_settings(tls_type: TlsType) -> (r: ClientSettings)
    ensures
        header_texts(r.default_headers@) == amplifier_default_headers(),
        r.keep_alive_secs == KEEP_ALIVE_INTERVAL_SECS,
        r.keep_alive_while_idle,
        r.tls == tls_type,
{
    let mut default_headers: Vec<(&'static str, &'static str)> = Vec::new();
    default_headers.push(("Accept", "application/json"));
    default_headers.push(("Accept-Encoding", "gzip, deflate"));
    default_headers.push(("Content-Type", "application/json"));
    proof {
        assert(header_texts(default_headers@) =~= amplifier_default_headers());
    }
    ClientSettings {
        default_headers,
        keep_alive_secs: KEEP_ALIVE_INTERVAL_SECS,
        keep_alive_while_idle: true,
        tls: tls_type,
    }
}

/// Every default header is one that `http` takes as a static text.
proof fn lemma_amplifier_default_headers_ok()
    ensures
        forall|i: int| 0 <= i < amplifier_default_headers().len() ==> header_name_valid(
            #[trigger] amplifier_default_headers()[i].0,
        ) && static_header_value_ok(amplifier_default_headers()[i].1),
{
    reveal_strlit("Accept");
    reveal_strlit("application/json");
    reveal_strlit("Accept-Encoding");
    reveal_strlit("gzip, deflate");
    reveal_strlit("Content-Type");
    assert(header_name_valid("Accept"@));
    assert(header_name_valid("Accept-Encoding"@));
    assert(header_name_valid("Content-Type"@));
    assert(static_header_value_ok("application/json"@));
    assert(static_header_value_ok("gzip, deflate"@));
}

/// The setup of the Amplifier API client for `tls_type`: reqwest's default
/// headers with `Accept: application/json`, `Accept-Encoding: gzip, deflate`
/// and `Content-Type: application/json`; HTTP/2 keep-alive every 15 s, also
/// while idle; rustls with the client certificate, or the preconfigured
/// TLS configuration.
pub open spec fn amplifier_client_setup(tls_type: TlsType) -> ClientSetup {
    ClientSetup {
        headers: map![
            "accept"@ => "application/json".spec_bytes(),
            "accept-encoding"@ => "gzip, deflate".spec_bytes(),
            "content-type"@ => "application/json".spec_bytes(),
        ],
        tls: match tls_type {
            TlsType::Certificate(_) => TlsBackendSetup::Rustls,
            TlsType::CustomProvider(config) => TlsBackendSetup::Preconfigured(*config),
        },
        identity: match tls_type {
            TlsType::Certificate(identity) => Some(secret_value(identity.0)),
            TlsType::CustomProvider(_) => None,
        },
        keep_alive_interval_nanos: Some((KEEP_ALIVE_INTERVAL_SECS * 1_000_000_000) as nat),
        keep_alive_while_idle: true,
    }
}

/// A new authenticated `reqwest::Client` for the Amplifier API, built from
/// `client_settings(tls_type)`: a client built is set up as
/// `amplifier_client_setup` says, and a client that cannot be built gives
/// the reqwest error.
pub fn authenticated_client(tls_type: TlsType) -> (r: Result<reqwest::Client, AmplifierApiError>)
    ensures
        r matches Ok(client) ==> client_setup(client) == amplifier_client_setup(tls_type),
        r matches Err(e) ==> e is Reqwest,
{
    let settings = client_settings(tls_type);
    proof {
        lemma_amplifier_default_headers_ok();
        let texts = header_texts(settings.default_headers@);
        assert forall|i: int| 0 <= i < settings.default_headers@.len() implies header_name_valid(
            #[trigger] settings.default_headers@[i].0@,
        ) && static_header_value_ok(settings.default_headers@[i].1@) by {
            assert(texts.len() == settings.default_headers@.len());
            assert(texts[i] == (settings.default_headers@[i].0@, settings.default_headers@[i].1@));
            assert(texts[i] == amplifier_default_headers()[i]);
            assert(header_name_valid(amplifier_default_headers()[i].0));
        }
        lemma_amplifier_setup(settings);
    }
    match build_client(settings) {
        Ok(client) => Ok(client),
        Err(e) => Err(AmplifierApiError::Reqwest(e)),
    }
}

/// Built from the Amplifier settings, a client has the Amplifier setup.
proof fn lemma_amplifier_setup(settings: ClientSettings)
    requires
        header_texts(settings.default_headers@) == amplifier_default_headers(),
        settings.keep_alive_secs == KEEP_ALIVE_INTERVAL_SECS,
        settings.keep_alive_while_idle,
    ensures
        settings_setup(settings) == amplifier_client_setup(settings.tls),
{
    let list = settings.default_headers@;
    let texts = header_texts(list);
    let expected = amplifier_default_headers();
    assert(expected.len() == 3);
    assert(texts.len() == list.len());
    assert(texts[0] == (list[0].0@, list[0].1@) && texts[0] == expected[0]);
    assert(texts[1] == (list[1].0@, list[1].1@) && texts[1] == expected[1]);
    assert(texts[2] == (list[2].0@, list[2].1@) && texts[2] == expected[2]);
    reveal_strlit("Accept");
    reveal_strlit("accept");
    reveal_strlit("Accept-Encoding");
    reveal_strlit("accept-encoding");
    reveal_strlit("Content-Type");
    reveal_strlit("content-type");
    assert(header_name_canonical("Accept"@) =~= "accept"@);
    assert(header_name_canonical("Accept-Encoding"@) =~= "accept-encoding"@);
    assert(header_name_canonical("Content-Type"@) =~= "content-type"@);
    let l2 = list.drop_last();
    let l1 = l2.drop_last();
    let l0 = l1.drop_last();
    assert(l0.len() == 0);
    assert(l1.last() == list[0] && l2.last() == list[1] && list.last() == list[2]);
    let init = initial_default_headers();
    assert(with_default_headers(init, l0) == init);
    assert(with_default_headers(init, l1) == init.insert("accept"@, "application/json".spec_bytes()));
    assert(with_default_headers(init, l2) == init.insert("accept"@, "application/json".spec_bytes()).insert(
        "accept-encoding"@,
        "gzip, deflate".spec_bytes(),
    ));
    assert(with_default_headers(initial_default_headers(), list) =~= amplifier_client_setup(settings.tls).headers);
}

} // verus!
