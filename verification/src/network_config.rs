//! Trust and routing of connections.
use std::sync::Arc;
use vstd::prelude::*;

use crate::net_error::NetError;

verus! {

/// Whether connections pause while the network is unavailable.
#[derive(Clone, Copy, Debug, PartialEq, Eq, Structural)]
pub enum NetworkStatusPolicy {
    /// The status of the network is not looked at.
    Ignore,
    /// Attempts wait while the network is unavailable.
    PauseOnUnavailable,
}

impl Default for NetworkStatusPolicy {
    fn default() -> (policy: Self)
        ensures
            policy is Ignore,
    {
        NetworkStatusPolicy::Ignore
    }
}

/// How configured root certificates relate to the public ones.
#[derive(Clone, Copy, Debug, PartialEq, Eq, Structural)]
pub enum RootCertificateMode {
    /// They are trusted beside the public ones.
    Append,
    /// Only they are trusted.
    Only,
}

/// A proxy that tunnels are opened through.
#[derive(Debug)]
pub struct ProxyEndpoint {
    /// Its host.
    pub host: String,
    /// Its port.
    pub port: u16,
    /// Encoded credentials, if it wants any.
    pub credentials: Option<String>,
}

/// What to trust.
#[derive(Debug)]
pub struct TlsConfig {
    /// How the configured roots relate to the public ones.
    pub root_mode: RootCertificateMode,
    /// Configured root certificates, encoded in DER.
    pub roots: Vec<Vec<u8>>,
    /// The certificate and key that the client shows, if any.
    pub identity: Option<Arc<rustls::sign::CertifiedKey>>,
}

/// Trust and routing as they are configured.
#[derive(Debug)]
pub struct NetworkConfig {
    /// The proxy to use, if any.
    pub proxy: Option<ProxyEndpoint>,
    /// What to trust.
    pub tls: TlsConfig,
    /// Whether connections pause while the network is unavailable.
    pub network_status_policy: NetworkStatusPolicy,
}

impl NetworkConfig {
    /// Direct connections that trust the public roots and ignore the status of
    /// the network.
    pub fn new() -> (config: Self)
        ensures
            config.proxy is None,
            config.tls.root_mode is Append,
            config.tls.roots@.len() == 0,
            config.tls.identity is None,
            config.network_status_policy is Ignore,
    {
        NetworkConfig {
            proxy: None,
            tls: TlsConfig {
                root_mode: RootCertificateMode::Append,
                roots: Vec::new(),
                identity: None,
            },
            network_status_policy: NetworkStatusPolicy::Ignore,
        }
    }

    /// The same trust and routing with another policy.
    pub fn with_network_status_policy(self, policy: NetworkStatusPolicy) -> (config: Self)
        ensures
            config == (NetworkConfig { network_status_policy: policy, ..self }),
    {
        NetworkConfig { network_status_policy: policy, ..self }
    }
}

/// What a TLS client offers beyond a plain handshake.
#[derive(Clone, Copy, Debug, PartialEq, Eq, Structural)]
pub struct TlsPolicy {
    /// Whether data is sent before the handshake ends.
    pub early_data: bool,
    /// Whether sessions are resumed across connections.
    pub resumption: bool,
}

/// Declares `rustls::RootCertStore`, a collection of root certificates.
#[verifier::external_type_specification]
#[verifier::external_body]
pub struct ExRootCertStore(rustls::RootCertStore);

/// Declares `rustls::ClientConfig`, the compiled settings of a TLS client.
#[verifier::external_type_specification]
#[verifier::external_body]
pub struct ExClientConfig(rustls::ClientConfig);

/// Declares `rustls::sign::CertifiedKey`, which is only carried through.
#[verifier::external_type_specification]
#[verifier::external_body]
pub struct ExCertifiedKey(rustls::sign::CertifiedKey);

/// The certificates that were added to a store one by one, first to last.
pub uninterp spec fn added_roots(store: rustls::RootCertStore) -> Seq<Seq<u8>>;

/// Whether the public roots were added to a store.
pub uninterp spec fn holds_public_roots(store: rustls::RootCertStore) -> bool;

/// Whether the bytes are a certificate that can serve as a root.
pub uninterp spec fn is_root_certificate(der: Seq<u8>) -> bool;

/// What a TLS client trusts, shows and offers.
pub struct ClientSettings {
    /// The root certificates that were added one by one.
    pub roots: Seq<Seq<u8>>,
    /// Whether the public roots are trusted too.
    pub public_roots: bool,
    /// The certificate and key that the client shows, if any.
    pub identity: Option<Arc<rustls::sign::CertifiedKey>>,
    /// The application protocols that it offers.
    pub application_protocols: Seq<Seq<u8>>,
    /// Whether it tells the server's name.
    pub sends_server_name: bool,
    /// What it offers beyond a plain handshake.
    pub policy: TlsPolicy,
}

/// The settings that a TLS client was compiled from.
pub uninterp spec fn client_settings(config: rustls::ClientConfig) -> ClientSettings;

/// Calls `rustls::RootCertStore::empty`, which makes a store without roots.
#[verifier::external_body]
fn empty_roots() -> (store: rustls::RootCertStore)
    ensures
        added_roots(store) == Seq::<Seq<u8>>::empty(),
        !holds_public_roots(store),
{
    rustls::RootCertStore::empty()
}

/// Extends a store with `webpki_roots::TLS_SERVER_ROOTS`, the list of public
/// roots, which is not empty.
#[verifier::external_body]
fn add_public_roots(store: &mut rustls::RootCertStore)
    ensures
        added_roots(*final(store)) == added_roots(*old(store)),
        holds_public_roots(*final(store)),
{
    store.extend(webpki_roots::TLS_SERVER_ROOTS.iter().cloned());
}

/// Calls `rustls::RootCertStore::add`, which appends the certificate if it can
/// serve as a root and leaves the store alone otherwise.
#[verifier::external_body]
fn add_root(store: &mut rustls::RootCertStore, der: &Vec<u8>) -> (added: bool)
    ensures
        added == is_root_certificate(der@),
        holds_public_roots(*final(store)) == holds_public_roots(*old(store)),
        added_roots(*final(store)) == if added {
            added_roots(*old(store)).push(der@)
        } else {
            added_roots(*old(store))
        },
{
    store.add(rustls::pki_types::CertificateDer::from(der.as_slice())).is_ok()
}

/// Calls `rustls::RootCertStore::is_empty`, which tells whether a store holds
/// no root at all.
#[verifier::external_body]
fn roots_are_empty(store: &rustls::RootCertStore) -> (empty: bool)
    ensures
        empty == (added_roots(*store).len() == 0 && !holds_public_roots(*store)),
{
    store.is_empty()
}

/// Compiles the settings of a TLS client with `rustls::ClientConfig`'s builder
/// and the provider `aws_lc_rs`: it trusts the given store and shows the given
/// identity. The builder refuses only providers that lack cipher suites or key
/// exchange groups for the default protocol versions, which `aws_lc_rs` has, so
/// there always is a result. It starts with the builder's defaults: no
/// application protocol, the server's name, resumption and no early data.
#[verifier::external_body]
fn compile_client(
    store: rustls::RootCertStore,
    identity: Option<Arc<rustls::sign::CertifiedKey>>,
) -> (config: Option<rustls::ClientConfig>)
    ensures
        config is Some,
        client_settings(config->0) == (ClientSettings {
            roots: added_roots(store),
            public_roots: holds_public_roots(store),
            identity,
            application_protocols: Seq::<Seq<u8>>::empty(),
            sends_server_name: true,
            policy: TlsPolicy { early_data: false, resumption: true },
        }),
{
    let provider = Arc::new(rustls::crypto::aws_lc_rs::default_provider());
    let builder = rustls::ClientConfig::builder_with_provider(provider);
    let builder = builder.with_safe_default_protocol_versions().ok()?.with_root_certificates(store);
    Some(match identity {
        Some(key) => builder.with_client_cert_resolver(Arc::new(rustls::sign::SingleCertAndKey::from(key))),
        None => builder.with_no_client_auth(),
    })
}

/// Clears `rustls::ClientConfig::alpn_protocols`, the application protocols
/// that the client offers.
#[verifier::external_body]
fn clear_application_protocols(config: &mut rustls::ClientConfig)
    ensures
        client_settings(*final(config)) == (ClientSettings {
            application_protocols: Seq::<Seq<u8>>::empty(),
            ..client_settings(*old(config))
        }),
{
    config.alpn_protocols.clear();
}

/// Sets `rustls::ClientConfig::resumption` to `Resumption::disabled`, with which
/// no session is resumed.
#[verifier::external_body]
fn disable_resumption(config: &mut rustls::ClientConfig)
    ensures
        client_settings(*final(config)) == (ClientSettings {
            policy: TlsPolicy { resumption: false, ..client_settings(*old(config)).policy },
            ..client_settings(*old(config))
        }),
{
    config.resumption = rustls::client::Resumption::disabled();
}

/// Sets `rustls::ClientConfig::enable_early_data`, whether data is sent before
/// the handshake ends.
#[verifier::external_body]
fn set_early_data(config: &mut rustls::ClientConfig, enabled: bool)
    ensures
        client_settings(*final(config)) == (ClientSettings {
            policy: TlsPolicy { early_data: enabled, ..client_settings(*old(config)).policy },
            ..client_settings(*old(config))
        }),
{
    config.enable_early_data = enabled;
}

/// Trust and routing, ready for use.
#[derive(Debug)]
pub struct CompiledNetworkConfig {
    /// The proxy to use, if any.
    pub proxy: Option<ProxyEndpoint>,
    /// The settings of the TLS client.
    pub tls: rustls::ClientConfig,
    /// Whether connections pause while the network is unavailable.
    pub network_status_policy: NetworkStatusPolicy,
}

/// The configured roots as bytes.
pub open spec fn root_bytes(roots: Seq<Vec<u8>>) -> Seq<Seq<u8>> {
    roots.map_values(|root: Vec<u8>| root@)
}

/// Whether every configured root can serve as one.
pub open spec fn roots_are_usable(roots: Seq<Vec<u8>>) -> bool {
    forall|i: int| 0 <= i < roots.len() ==> is_root_certificate((#[trigger] roots[i])@)
}

/// The roots that a configuration trusts. A root that cannot serve as one, and
/// a configuration that trusts nothing, are configuration errors.
pub fn trusted_roots(tls: &TlsConfig) -> (roots: Result<rustls::RootCertStore, NetError>)
    ensures
        match roots {
            Ok(store) => {
                &&& roots_are_usable(tls.roots@)
                &&& tls.root_mode is Append || tls.roots@.len() > 0
                &&& added_roots(store) == root_bytes(tls.roots@)
                &&& holds_public_roots(store) == (tls.root_mode is Append)
            },
            Err(error) => {
                &&& error is ConfigError
                &&& !roots_are_usable(tls.roots@) || (tls.root_mode is Only && tls.roots@.len()
                    == 0)
            },
        },
{
    let mut store = empty_roots();
    if tls.root_mode == RootCertificateMode::Append {
        add_public_roots(&mut store);
    }
    let mut i: usize = 0;
    while i < tls.roots.len()
        invariant
            i <= tls.roots@.len(),
            added_roots(store) == root_bytes(tls.roots@.take(i as int)),
            holds_public_roots(store) == (tls.root_mode is Append),
            forall|j: int| 0 <= j < i ==> is_root_certificate((#[trigger] tls.roots@[j])@),
        decreases tls.roots@.len() - i,
    {
        if !add_root(&mut store, &tls.roots[i]) {
            assert(!is_root_certificate(tls.roots@[i as int]@));
            return Err(NetError::ConfigError);
        }
        i = i + 1;
        assert(added_roots(store) =~= root_bytes(tls.roots@.take(i as int)));
    }
    assert(tls.roots@.take(i as int) =~= tls.roots@);
    if roots_are_empty(&store) {
        return Err(NetError::ConfigError);
    }
    Ok(store)
}

impl CompiledNetworkConfig {
    /// Compiles trust and routing. No application protocol is offered, no
    /// session is resumed and no early data is sent.
    pub fn new(config: NetworkConfig) -> (compiled: Result<Self, NetError>)
        ensures
            match compiled {
                Ok(ready) => {
                    &&& roots_are_usable(config.tls.roots@)
                    &&& config.tls.root_mode is Append || config.tls.roots@.len() > 0
                    &&& ready.proxy == config.proxy
                    &&& ready.network_status_policy == config.network_status_policy
                    &&& client_settings(ready.tls) == (ClientSettings {
                        roots: root_bytes(config.tls.roots@),
                        public_roots: config.tls.root_mode is Append,
                        identity: config.tls.identity,
                        application_protocols: Seq::<Seq<u8>>::empty(),
                        sends_server_name: true,
                        policy: TlsPolicy { early_data: false, resumption: false },
                    })
                },
                Err(error) => {
                    &&& error is ConfigError
                    &&& !roots_are_usable(config.tls.roots@) || (config.tls.root_mode is Only
                        && config.tls.roots@.len() == 0)
                },
            },
    {
        let store = match trusted_roots(&config.tls) {
            Ok(store) => store,
            Err(error) => {
                return Err(error);
            },
        };
        let mut tls = match compile_client(store, config.tls.identity) {
            Some(tls) => tls,
            None => {
                return Err(NetError::ConfigError);
            },
        };
        clear_application_protocols(&mut tls);
        disable_resumption(&mut tls);
        set_early_data(&mut tls, false);
        Ok(
            CompiledNetworkConfig {
                proxy: config.proxy,
                tls,
                network_status_policy: config.network_status_policy,
            },
        )
    }

    /// Whether connections pause while the network is unavailable.
    pub fn network_status_policy(&self) -> (policy: NetworkStatusPolicy)
        ensures
            policy == self.network_status_policy,
    {
        self.network_status_policy
    }
}

/// Every configured root is trusted as it is, in its order, and one that cannot serve
/// as a root spoils the configuration wherever it stands.
pub proof fn every_root_counts(roots: Seq<Vec<u8>>, at: int)
    requires
        0 <= at < roots.len(),
    ensures
        root_bytes(roots).len() == roots.len(),
        root_bytes(roots)[at] == roots[at]@,
        !is_root_certificate(roots[at]@) ==> !roots_are_usable(roots),
{
}

} // verus!
