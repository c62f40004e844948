//! Dialling: from a host name to an upgraded connection.
//!
//! Every stage is bounded by the one deadline of the attempt.
use tokio_tungstenite::tungstenite::http::{HeaderMap, HeaderValue};
use vstd::prelude::*;
use vstd::string::StrSliceExecFns;

use crate::clock::Instant;
use crate::connection_failure::{WebSocketConnectStage, WebSocketConnectionFailure};
use crate::handshake_request;
use crate::handshake_request::{remove_header, TargetUri};
use crate::net_error::NetError;
use crate::network_config::ProxyEndpoint;

verus! {

/// The failure of a stage that did not end in time.
pub open spec fn late(stage: WebSocketConnectStage) -> WebSocketConnectionFailure {
    crate::connection_failure::plain_failure(NetError::TimeoutError, stage, true)
}

/// A failure without an HTTP answer.
pub fn failure(error: NetError, stage: WebSocketConnectStage, retryable: bool) -> (failure:
    WebSocketConnectionFailure)
    ensures
        failure == crate::connection_failure::plain_failure(error, stage, retryable),
{
    WebSocketConnectionFailure::new(error, stage, None, retryable)
}

/// The failure of a stage that did not end in time; worth another attempt.
pub fn timeout(stage: WebSocketConnectStage) -> (failure: WebSocketConnectionFailure)
    ensures
        failure == late(stage),
{
    self::failure(NetError::TimeoutError, stage, true)
}

/// Refuses to start a stage at or after the deadline.
pub fn ensure_deadline(now: Instant, deadline: Instant, stage: WebSocketConnectStage) -> (result:
    Result<(), WebSocketConnectionFailure>)
    ensures
        result == if now.reached(deadline) {
            Err::<(), WebSocketConnectionFailure>(late(stage))
        } else {
            Ok::<(), WebSocketConnectionFailure>(())
        },
{
    if now.has_reached(deadline) {
        Err(timeout(stage))
    } else {
        Ok(())
    }
}

/// What is known of a failed read or write below the handshake.
#[derive(Clone, Copy, Debug, PartialEq, Eq, Structural)]
pub struct TransportFault {
    /// Whether the TLS implementation is the source of the error.
    pub from_tls: bool,
    /// Whether the error says that data is invalid.
    pub invalid_data: bool,
}

/// Why an upgrade failed.
#[derive(Clone, Copy, Debug, PartialEq, Eq, Structural)]
pub enum UpgradeFault {
    /// The peer answered with another status code.
    Http(u16),
    /// Reading or writing failed.
    Io(TransportFault),
    /// The connection was closed.
    Closed {
        /// The error that stands for it.
        error: NetError,
    },
    /// Anything else.
    Other {
        /// The error that stands for it.
        error: NetError,
    },
}

/// The failure that a fault below the handshake stands for.
pub open spec fn transport_failure(
    fault: TransportFault,
    stage: WebSocketConnectStage,
) -> WebSocketConnectionFailure {
    if fault.from_tls || (stage is Tls && fault.invalid_data) {
        crate::connection_failure::plain_failure(
            NetError::TlsConnectError,
            WebSocketConnectStage::Tls,
            false,
        )
    } else {
        crate::connection_failure::plain_failure(NetError::NetworkError, stage, true)
    }
}

/// The failure that a failed upgrade stands for.
pub open spec fn upgrade_failure(fault: UpgradeFault) -> WebSocketConnectionFailure {
    match fault {
        UpgradeFault::Http(code) => WebSocketConnectionFailure {
            error: NetError::ConnectError,
            stage: WebSocketConnectStage::WebSocketUpgrade,
            http_status: Some(code),
            retryable: 500 <= code < 600 || code == 408 || code == 429,
        },
        UpgradeFault::Io(fault) => transport_failure(
            fault,
            WebSocketConnectStage::WebSocketUpgrade,
        ),
        UpgradeFault::Closed { error } => crate::connection_failure::plain_failure(
            error,
            WebSocketConnectStage::WebSocketUpgrade,
            true,
        ),
        UpgradeFault::Other { error } => crate::connection_failure::plain_failure(
            error,
            WebSocketConnectStage::WebSocketUpgrade,
            false,
        ),
    }
}

/// Classifies a failed read or write. An error of the TLS implementation is
/// one of the TLS stage wherever it shows, and final; invalid data is one only
/// during the TLS handshake itself.
pub fn classify_tls_io(fault: TransportFault, stage: WebSocketConnectStage) -> (failure:
    WebSocketConnectionFailure)
    ensures
        failure == transport_failure(fault, stage),
{
    if fault.from_tls || (stage == WebSocketConnectStage::Tls && fault.invalid_data) {
        self::failure(NetError::TlsConnectError, WebSocketConnectStage::Tls, false)
    } else {
        self::failure(NetError::NetworkError, stage, true)
    }
}

/// Classifies a failed upgrade. Of status codes, server errors, a request
/// timeout and too many requests are worth another attempt.
pub fn classify_upgrade_error(fault: UpgradeFault) -> (failure: WebSocketConnectionFailure)
    ensures
        failure == upgrade_failure(fault),
{
    let stage = WebSocketConnectStage::WebSocketUpgrade;
    match fault {
        UpgradeFault::Http(code) => WebSocketConnectionFailure::new(
            NetError::ConnectError,
            stage,
            Some(code),
            (500 <= code && code < 600) || code == 408 || code == 429,
        ),
        UpgradeFault::Io(fault) => classify_tls_io(fault, stage),
        UpgradeFault::Closed { error } => self::failure(error, stage, true),
        UpgradeFault::Other { error } => self::failure(error, stage, false),
    }
}

/// A host without the brackets of an IPv6 address.
pub open spec fn bare_host(host: Seq<char>) -> Seq<char> {
    if host.len() >= 2 && host[0] == '[' && host.last() == ']' {
        host.subrange(1, host.len() - 1)
    } else {
        host
    }
}

/// The host without the brackets of an IPv6 address.
pub fn normalize_host(host: &str) -> (bare: String)
    ensures
        bare@ == bare_host(host@),
{
    let len: usize = host.unicode_len();
    if len >= 2 && host.get_char(0) == '[' && host.get_char(len - 1) == ']' {
        host.substring_char(1, len - 1).to_owned()
    } else {
        host.to_owned()
    }
}

/// Where an attempt connects to, and how.
#[derive(Debug)]
pub struct DialPlan {
    /// Whether the connection is encrypted.
    pub tls_required: bool,
    /// The host of the WebSocket server.
    pub host: String,
    /// The port of the WebSocket server.
    pub port: u16,
    /// The host to open a TCP connection to.
    pub connect_host: String,
    /// The port to open a TCP connection to.
    pub connect_port: u16,
    /// Whether the TCP connection leads to a proxy.
    pub proxied: bool,
}

/// Whether a scheme is one of WebSocket, and if so whether it is encrypted.
pub open spec fn scheme_security(scheme: Option<Seq<char>>) -> Option<bool> {
    match scheme {
        Some(name) => if name == "ws"@ {
            Some(false)
        } else if name == "wss"@ {
            Some(true)
        } else {
            None
        },
        None => None,
    }
}

fn security_of(scheme: &Option<String>) -> (security: Option<bool>)
    ensures
        security == scheme_security(crate::handshake_request::text_of(*scheme)),
{
    match scheme {
        Some(name) => if *name == "ws".to_owned() {
            Some(false)
        } else if *name == "wss".to_owned() {
            Some(true)
        } else {
            None
        },
        None => None,
    }
}

/// Plans where an attempt connects to. Other schemes and a missing host are
/// final failures; a missing port is that of the scheme; a proxy takes the
/// place of the server as far as the TCP connection goes.
pub fn plan_dial(uri: &TargetUri, proxy: &Option<ProxyEndpoint>) -> (plan: Result<
    DialPlan,
    WebSocketConnectionFailure,
>)
    ensures
        match plan {
            Ok(plan) => {
                &&& scheme_security(uri@.scheme) == Some(plan.tls_required)
                &&& uri@.host matches Some(host) && plan.host@ == bare_host(host)
                &&& plan.port == match uri.port {
                    Some(port) => port,
                    None => if plan.tls_required {
                        443
                    } else {
                        80
                    },
                }
                &&& plan.proxied == proxy is Some
                &&& match proxy {
                    Some(endpoint) => plan.connect_host@ == endpoint.host@ && plan.connect_port
                        == endpoint.port,
                    None => plan.connect_host@ == plan.host@ && plan.connect_port == plan.port,
                }
            },
            Err(failure) => {
                &&& scheme_security(uri@.scheme) is None || uri@.host is None
                &&& failure == crate::connection_failure::plain_failure(
                    NetError::InvalidUrl,
                    WebSocketConnectStage::RequestBuild,
                    false,
                )
            },
        },
{
    let invalid = self::failure(NetError::InvalidUrl, WebSocketConnectStage::RequestBuild, false);
    let tls_required = match security_of(&uri.scheme) {
        Some(tls_required) => tls_required,
        None => {
            return Err(invalid);
        },
    };
    let host = match &uri.host {
        Some(host) => normalize_host(host.as_str()),
        None => {
            return Err(invalid);
        },
    };
    let port: u16 = match uri.port {
        Some(port) => port,
        None => if tls_required {
            443
        } else {
            80
        },
    };
    let (connect_host, connect_port) = match proxy {
        Some(endpoint) => (endpoint.host.clone(), endpoint.port),
        None => (host.clone(), port),
    };
    Ok(
        DialPlan {
            tls_required,
            host,
            port,
            connect_host,
            connect_port,
            proxied: proxy.is_some(),
        },
    )
}

/// Whether a host can be the name of a TLS server.
pub uninterp spec fn is_server_name(host: Seq<char>) -> bool;

/// Calls `rustls::pki_types::ServerName::try_from` and tells whether it accepts
/// the host, which depends on the host alone.
#[verifier::external_body]
fn server_name_is_accepted(host: &str) -> (accepted: bool)
    ensures
        accepted == is_server_name(host@),
{
    rustls::pki_types::ServerName::try_from(host).is_ok()
}

/// How far an attempt came.
#[derive(Clone, Copy, Debug, PartialEq, Eq, Structural)]
pub enum DialPhase {
    /// It has not started.
    Planned,
    /// The host is being resolved.
    Resolving,
    /// The next address is asked for.
    Choosing {
        /// Whether there was an address before.
        had_address: bool,
    },
    /// A TCP connection is being opened.
    Connecting,
    /// The TCP connection is being configured.
    Configuring,
    /// The tunnel is being opened.
    Tunnelling,
    /// The TLS handshake runs.
    Securing,
    /// The upgrade runs.
    Upgrading,
    /// The attempt is over.
    Over,
}

/// What an attempt learns.
#[derive(Clone, Copy, Debug, PartialEq, Eq)]
pub enum DialEvent {
    /// The attempt starts.
    Begin,
    /// The deadline was reached before the stage ended.
    DeadlineElapsed,
    /// The host was resolved, or could not be.
    Resolved(bool),
    /// There is another address, or there is none.
    Address(bool),
    /// The TCP connection was opened, or could not be.
    Connected(bool),
    /// The TCP connection was configured, or could not be.
    Configured(bool),
    /// The tunnel was opened, or failed.
    Tunnelled(Result<(), WebSocketConnectionFailure>),
    /// The TLS handshake succeeded, or failed.
    Secured(Result<(), TransportFault>),
    /// The upgrade succeeded, or failed.
    Upgraded(Result<(), UpgradeFault>),
}

/// What an attempt asks for.
#[derive(Clone, Copy, Debug, PartialEq, Eq, Structural)]
pub enum DialAction {
    /// Resolve the host to connect to.
    Resolve,
    /// Take the next address.
    NextAddress,
    /// Open a TCP connection to the address.
    Connect,
    /// Disable the delay of small packets.
    SetNodelay,
    /// Open a tunnel through the proxy.
    OpenTunnel,
    /// Start the TLS handshake.
    StartTls,
    /// Upgrade the connection.
    Upgrade {
        /// Whether credentials of the proxy are removed from the request first.
        drop_proxy_credentials: bool,
    },
    /// The connection is ready.
    Finish,
    /// The attempt failed.
    Fail(WebSocketConnectionFailure),
    /// The event does not belong to the phase.
    Ignore,
}

/// One attempt to connect.
#[derive(Clone, Copy, Debug, PartialEq, Eq, Structural)]
pub struct Dial {
    /// Whether the connection is encrypted.
    pub tls_required: bool,
    /// Whether it leads through a proxy.
    pub proxied: bool,
    /// Whether the delay of small packets is disabled.
    pub tcp_nodelay: bool,
    /// When the attempt has to be complete.
    pub deadline: Instant,
    /// How far it came.
    pub phase: DialPhase,
}

/// The stage that a phase belongs to.
pub open spec fn stage_of(phase: DialPhase) -> WebSocketConnectStage {
    match phase {
        DialPhase::Tunnelling => WebSocketConnectStage::ProxyConnect,
        DialPhase::Securing => WebSocketConnectStage::Tls,
        DialPhase::Upgrading => WebSocketConnectStage::WebSocketUpgrade,
        DialPhase::Connecting => WebSocketConnectStage::Tcp,
        DialPhase::Choosing { had_address } => WebSocketConnectStage::Tcp,
        DialPhase::Configuring => WebSocketConnectStage::Tcp,
        _ => WebSocketConnectStage::Dns,
    }
}

impl Dial {
    /// The attempt in another phase.
    pub open spec fn at(self, phase: DialPhase) -> Dial {
        Dial { phase, ..self }
    }

    /// The attempt ends with a failure.
    pub open spec fn failed(self, failure: WebSocketConnectionFailure) -> (Dial, DialAction) {
        (self.at(DialPhase::Over), DialAction::Fail(failure))
    }

    /// A stage is entered, unless the deadline was reached.
    pub open spec fn enter(self, phase: DialPhase, action: DialAction, now: Instant) -> (
        Dial,
        DialAction,
    ) {
        if now.reached(self.deadline) {
            self.failed(late(stage_of(phase)))
        } else {
            (self.at(phase), action)
        }
    }

    /// The upgrade is entered.
    pub open spec fn upgrade(self, now: Instant) -> (Dial, DialAction) {
        self.enter(
            DialPhase::Upgrading,
            DialAction::Upgrade { drop_proxy_credentials: self.proxied },
            now,
        )
    }

    /// The TLS handshake is entered, or the upgrade of a plain connection.
    pub open spec fn secure(self, server_name_ok: bool, now: Instant) -> (Dial, DialAction) {
        if !self.tls_required {
            self.upgrade(now)
        } else if !now.reached(self.deadline) && !server_name_ok {
            self.failed(
                crate::connection_failure::plain_failure(
                    NetError::InvalidUrl,
                    WebSocketConnectStage::Tls,
                    false,
                ),
            )
        } else {
            self.enter(DialPhase::Securing, DialAction::StartTls, now)
        }
    }

    /// What follows an open TCP connection.
    pub open spec fn proceed(self, server_name_ok: bool, now: Instant) -> (Dial, DialAction) {
        if self.proxied {
            self.enter(DialPhase::Tunnelling, DialAction::OpenTunnel, now)
        } else {
            self.secure(server_name_ok, now)
        }
    }

    /// One step of the attempt.
    pub open spec fn next(self, event: DialEvent, server_name_ok: bool, now: Instant) -> (
        Dial,
        DialAction,
    ) {
        match (self.phase, event) {
            (DialPhase::Planned, DialEvent::Begin) => self.enter(
                DialPhase::Resolving,
                DialAction::Resolve,
                now,
            ),
            (DialPhase::Resolving, DialEvent::Resolved(ok)) => if ok {
                (self.at(DialPhase::Choosing { had_address: false }), DialAction::NextAddress)
            } else {
                self.failed(
                    crate::connection_failure::plain_failure(
                        NetError::NetworkError,
                        WebSocketConnectStage::Dns,
                        true,
                    ),
                )
            },
            (DialPhase::Choosing { had_address }, DialEvent::Address(some)) => if some {
                self.enter(DialPhase::Connecting, DialAction::Connect, now)
            } else {
                self.failed(
                    crate::connection_failure::plain_failure(
                        NetError::NetworkError,
                        if had_address {
                            WebSocketConnectStage::Tcp
                        } else {
                            WebSocketConnectStage::Dns
                        },
                        true,
                    ),
                )
            },
            (DialPhase::Connecting, DialEvent::Connected(ok)) => if !ok {
                (self.at(DialPhase::Choosing { had_address: true }), DialAction::NextAddress)
            } else if self.tcp_nodelay {
                (self.at(DialPhase::Configuring), DialAction::SetNodelay)
            } else {
                self.proceed(server_name_ok, now)
            },
            (DialPhase::Configuring, DialEvent::Configured(ok)) => if ok {
                self.proceed(server_name_ok, now)
            } else {
                self.failed(
                    crate::connection_failure::plain_failure(
                        NetError::NetworkError,
                        WebSocketConnectStage::Tcp,
                        true,
                    ),
                )
            },
            (DialPhase::Tunnelling, DialEvent::Tunnelled(result)) => match result {
                Ok(()) => self.secure(server_name_ok, now),
                Err(failure) => self.failed(failure),
            },
            (DialPhase::Securing, DialEvent::Secured(result)) => match result {
                Ok(()) => self.upgrade(now),
                Err(fault) => self.failed(transport_failure(fault, WebSocketConnectStage::Tls)),
            },
            (DialPhase::Upgrading, DialEvent::Upgraded(result)) => match result {
                Ok(()) => (self.at(DialPhase::Over), DialAction::Finish),
                Err(fault) => self.failed(upgrade_failure(fault)),
            },
            (phase, DialEvent::DeadlineElapsed) => if self.waits() {
                self.failed(late(stage_of(phase)))
            } else {
                (self, DialAction::Ignore)
            },
            _ => (self, DialAction::Ignore),
        }
    }

    /// Whether the phase waits for the outside.
    pub open spec fn waits(self) -> bool {
        self.phase is Resolving || self.phase is Connecting || self.phase is Tunnelling
            || self.phase is Securing || self.phase is Upgrading
    }

    /// An attempt that follows a plan.
    pub fn new(plan: &DialPlan, tcp_nodelay: bool, deadline: Instant) -> (dial: Self)
        ensures
            dial == (Dial {
                tls_required: plan.tls_required,
                proxied: plan.proxied,
                tcp_nodelay,
                deadline,
                phase: DialPhase::Planned,
            }),
    {
        Dial {
            tls_required: plan.tls_required,
            proxied: plan.proxied,
            tcp_nodelay,
            deadline,
            phase: DialPhase::Planned,
        }
    }

    fn fail(&mut self, failure: WebSocketConnectionFailure) -> (action: DialAction)
        ensures
            (*final(self), action) == old(self).failed(failure),
    {
        self.phase = DialPhase::Over;
        DialAction::Fail(failure)
    }

    fn enter_stage(
        &mut self,
        phase: DialPhase,
        stage: WebSocketConnectStage,
        action: DialAction,
        now: Instant,
    ) -> (taken: DialAction)
        requires
            stage == stage_of(phase),
        ensures
            (*final(self), taken) == old(self).enter(phase, action, now),
    {
        match ensure_deadline(now, self.deadline, stage) {
            Ok(()) => {
                self.phase = phase;
                action
            },
            Err(failure) => self.fail(failure),
        }
    }

    fn start_upgrade(&mut self, now: Instant) -> (action: DialAction)
        ensures
            (*final(self), action) == old(self).upgrade(now),
    {
        let drop_proxy_credentials = self.proxied;
        self.enter_stage(
            DialPhase::Upgrading,
            WebSocketConnectStage::WebSocketUpgrade,
            DialAction::Upgrade { drop_proxy_credentials },
            now,
        )
    }

    fn start_security(&mut self, server_name_ok: bool, now: Instant) -> (action: DialAction)
        ensures
            (*final(self), action) == old(self).secure(server_name_ok, now),
    {
        if !self.tls_required {
            return self.start_upgrade(now);
        }
        if !now.has_reached(self.deadline) && !server_name_ok {
            return self.fail(
                self::failure(NetError::InvalidUrl, WebSocketConnectStage::Tls, false),
            );
        }
        self.enter_stage(
            DialPhase::Securing,
            WebSocketConnectStage::Tls,
            DialAction::StartTls,
            now,
        )
    }

    fn after_tcp(&mut self, server_name_ok: bool, now: Instant) -> (action: DialAction)
        ensures
            (*final(self), action) == old(self).proceed(server_name_ok, now),
    {
        if self.proxied {
            self.enter_stage(
                DialPhase::Tunnelling,
                WebSocketConnectStage::ProxyConnect,
                DialAction::OpenTunnel,
                now,
            )
        } else {
            self.start_security(server_name_ok, now)
        }
    }

    fn stage(&self) -> (stage: WebSocketConnectStage)
        ensures
            stage == stage_of(self.phase),
    {
        match self.phase {
            DialPhase::Tunnelling => WebSocketConnectStage::ProxyConnect,
            DialPhase::Securing => WebSocketConnectStage::Tls,
            DialPhase::Upgrading => WebSocketConnectStage::WebSocketUpgrade,
            DialPhase::Connecting => WebSocketConnectStage::Tcp,
            DialPhase::Choosing { had_address: _ } => WebSocketConnectStage::Tcp,
            DialPhase::Configuring => WebSocketConnectStage::Tcp,
            _ => WebSocketConnectStage::Dns,
        }
    }

    /// Takes the attempt one step further, given whether the host can be the
    /// name of a TLS server.
    pub fn advance(&mut self, event: DialEvent, server_name_ok: bool, now: Instant) -> (action:
        DialAction)
        ensures
            (*final(self), action) == old(self).next(event, server_name_ok, now),
    {
        match (self.phase, event) {
            (DialPhase::Planned, DialEvent::Begin) => self.enter_stage(
                DialPhase::Resolving,
                WebSocketConnectStage::Dns,
                DialAction::Resolve,
                now,
            ),
            (DialPhase::Resolving, DialEvent::Resolved(ok)) => {
                if ok {
                    self.phase = DialPhase::Choosing { had_address: false };
                    DialAction::NextAddress
                } else {
                    self.fail(
                        self::failure(NetError::NetworkError, WebSocketConnectStage::Dns, true),
                    )
                }
            },
            (DialPhase::Choosing { had_address }, DialEvent::Address(some)) => {
                if some {
                    self.enter_stage(
                        DialPhase::Connecting,
                        WebSocketConnectStage::Tcp,
                        DialAction::Connect,
                        now,
                    )
                } else {
                    let stage = if had_address {
                        WebSocketConnectStage::Tcp
                    } else {
                        WebSocketConnectStage::Dns
                    };
                    self.fail(self::failure(NetError::NetworkError, stage, true))
                }
            },
            (DialPhase::Connecting, DialEvent::Connected(ok)) => {
                if !ok {
                    self.phase = DialPhase::Choosing { had_address: true };
                    DialAction::NextAddress
                } else if self.tcp_nodelay {
                    self.phase = DialPhase::Configuring;
                    DialAction::SetNodelay
                } else {
                    self.after_tcp(server_name_ok, now)
                }
            },
            (DialPhase::Configuring, DialEvent::Configured(ok)) => {
                if ok {
                    self.after_tcp(server_name_ok, now)
                } else {
                    self.fail(
                        self::failure(NetError::NetworkError, WebSocketConnectStage::Tcp, true),
                    )
                }
            },
            (DialPhase::Tunnelling, DialEvent::Tunnelled(result)) => match result {
                Ok(()) => self.start_security(server_name_ok, now),
                Err(failure) => self.fail(failure),
            },
            (DialPhase::Securing, DialEvent::Secured(result)) => match result {
                Ok(()) => self.start_upgrade(now),
                Err(fault) => self.fail(classify_tls_io(fault, WebSocketConnectStage::Tls)),
            },
            (DialPhase::Upgrading, DialEvent::Upgraded(result)) => match result {
                Ok(()) => {
                    self.phase = DialPhase::Over;
                    DialAction::Finish
                },
                Err(fault) => self.fail(classify_upgrade_error(fault)),
            },
            (_, DialEvent::DeadlineElapsed) => {
                match self.phase {
                    DialPhase::Resolving | DialPhase::Connecting | DialPhase::Tunnelling
                        | DialPhase::Securing | DialPhase::Upgrading => {
                        let stage = self.stage();
                        self.fail(timeout(stage))
                    },
                    _ => DialAction::Ignore,
                }
            },
            _ => DialAction::Ignore,
        }
    }

    /// Takes an attempt to reach `host` one step further.
    pub fn dial(&mut self, event: DialEvent, host: &str, now: Instant) -> (action: DialAction)
        ensures
            (*final(self), action) == old(self).next(event, is_server_name(host@), now),
    {
        self.advance(event, server_name_is_accepted(host), now)
    }
}

/// The headers that the upgrade of a connection sends. Through a proxy the
/// credentials meant for it are not passed on to the server.
pub fn upgrade_headers(headers: HeaderMap<HeaderValue>, proxied: bool) -> (sent: HeaderMap<
    HeaderValue,
>)
    ensures
        handshake_request::header_entries(sent) == if proxied {
            handshake_request::header_entries(headers).remove("proxy-authorization"@)
        } else {
            handshake_request::header_entries(headers)
        },
{
    let mut sent = headers;
    if proxied {
        proof {
            reveal_strlit("proxy-authorization");
            assert(handshake_request::normal_name("proxy-authorization"@)
                =~= "proxy-authorization"@);
        }
        remove_header(&mut sent, "proxy-authorization");
    }
    sent
}

/// No stage starts at or after the deadline, and an expiry is reported for the
/// stage that was running.
pub proof fn the_deadline_bounds_every_stage(
    dial: Dial,
    event: DialEvent,
    server_name_ok: bool,
    now: Instant,
)
    requires
        now.reached(dial.deadline),
    ensures
        ({
            let action = dial.next(event, server_name_ok, now).1;
            !(action is Resolve) && !(action is Connect) && !(action is OpenTunnel)
                && !(action is StartTls) && !(action is Upgrade)
        }),
        dial.waits() ==> dial.next(DialEvent::DeadlineElapsed, server_name_ok, now).1
            == DialAction::Fail(late(stage_of(dial.phase))),
{
}

/// The upgrade of an encrypted connection never starts before its TLS
/// handshake succeeded, and one through a proxy never before its tunnel is
/// open and without the proxy's credentials being removed.
pub proof fn upgrades_follow_their_stages(
    dial: Dial,
    event: DialEvent,
    server_name_ok: bool,
    now: Instant,
)
    ensures
        dial.next(event, server_name_ok, now).1 matches DialAction::Upgrade {
            drop_proxy_credentials,
        } ==> {
            &&& dial.tls_required ==> dial.phase is Securing && (event matches DialEvent::Secured(
                result,
            ) && result is Ok)
            &&& dial.proxied ==> dial.phase is Securing || dial.phase is Tunnelling
            &&& drop_proxy_credentials == dial.proxied
        },
{
}

/// An attempt ends once and stays over.
pub proof fn attempts_end_once(dial: Dial, event: DialEvent, server_name_ok: bool, now: Instant)
    ensures
        dial.phase is Over ==> dial.next(event, server_name_ok, now) == (dial, DialAction::Ignore),
        !(dial.phase is Over) ==> ({
            let (after, action) = dial.next(event, server_name_ok, now);
            after.phase is Over <==> action is Finish || action is Fail
        }),
{
}

/// A final TLS failure is reported for the TLS stage, whichever stage it
/// showed in; a fault that TLS has no part in keeps its stage and is worth
/// another attempt.
pub proof fn tls_faults_are_final(fault: TransportFault, stage: WebSocketConnectStage)
    ensures
        fault.from_tls ==> transport_failure(fault, stage).stage is Tls && !transport_failure(
            fault,
            stage,
        ).retryable,
        !fault.from_tls && !fault.invalid_data ==> transport_failure(fault, stage).stage == stage
            && transport_failure(fault, stage).retryable,
{
}

/// Before the deadline each stage that succeeds leads to the next one: resolving,
/// trying addresses until one connects, and configuring the connection.
pub proof fn dialling_makes_progress(
    dial: Dial,
    had_address: bool,
    server_name_ok: bool,
    now: Instant,
)
    requires
        now.nanos < dial.deadline.nanos,
    ensures
        dial.phase is Planned ==> dial.next(DialEvent::Begin, server_name_ok, now) == (
            Dial { phase: DialPhase::Resolving, ..dial },
            DialAction::Resolve,
        ),
        dial.phase is Resolving ==> dial.next(DialEvent::Resolved(true), server_name_ok, now) == (
            Dial { phase: DialPhase::Choosing { had_address: false }, ..dial },
            DialAction::NextAddress,
        ),
        dial.phase is Choosing ==> dial.next(DialEvent::Address(true), server_name_ok, now) == (
            Dial { phase: DialPhase::Connecting, ..dial },
            DialAction::Connect,
        ),
        dial.phase is Connecting ==> dial.next(DialEvent::Connected(false), server_name_ok, now)
            == (
            Dial { phase: DialPhase::Choosing { had_address: true }, ..dial },
            DialAction::NextAddress,
        ),
        dial.phase is Connecting && dial.tcp_nodelay ==> dial.next(
            DialEvent::Connected(true),
            server_name_ok,
            now,
        ) == (Dial { phase: DialPhase::Configuring, ..dial }, DialAction::SetNodelay),
        dial.phase is Upgrading ==> dial.next(DialEvent::Upgraded(Ok(())), server_name_ok, now) == (
            Dial { phase: DialPhase::Over, ..dial },
            DialAction::Finish,
        ),
{
}

/// Before the deadline an open TCP connection is put to use: one to a proxy is
/// made a tunnel, an encrypted one begins its TLS handshake if the host can be
/// the name of a server, and a plain one is upgraded.
pub proof fn open_connections_are_put_to_use(dial: Dial, server_name_ok: bool, now: Instant)
    requires
        now.nanos < dial.deadline.nanos,
        dial.phase is Configuring || (dial.phase is Connecting && !dial.tcp_nodelay),
    ensures
        ({
            let event = if dial.phase is Configuring {
                DialEvent::Configured(true)
            } else {
                DialEvent::Connected(true)
            };
            let (after, action) = dial.next(event, server_name_ok, now);
            &&& dial.proxied ==> action is OpenTunnel && after == (Dial {
                phase: DialPhase::Tunnelling,
                ..dial
            })
            &&& !dial.proxied && dial.tls_required && server_name_ok ==> action is StartTls
                && after == (Dial { phase: DialPhase::Securing, ..dial })
            &&& !dial.proxied && !dial.tls_required ==> action == (DialAction::Upgrade {
                drop_proxy_credentials: false,
            }) && after == (Dial { phase: DialPhase::Upgrading, ..dial })
        }),
{
}

/// Before the deadline an open tunnel and a TLS handshake that succeeded lead on
/// towards the upgrade, which removes the credentials of a proxy.
pub proof fn tunnels_and_handshakes_lead_on(dial: Dial, server_name_ok: bool, now: Instant)
    requires
        now.nanos < dial.deadline.nanos,
    ensures
        dial.phase is Tunnelling && dial.tls_required && server_name_ok ==> dial.next(
            DialEvent::Tunnelled(Ok(())),
            server_name_ok,
            now,
        ) == (Dial { phase: DialPhase::Securing, ..dial }, DialAction::StartTls),
        dial.phase is Tunnelling && !dial.tls_required ==> dial.next(
            DialEvent::Tunnelled(Ok(())),
            server_name_ok,
            now,
        ) == (
            Dial { phase: DialPhase::Upgrading, ..dial },
            DialAction::Upgrade { drop_proxy_credentials: dial.proxied },
        ),
        dial.phase is Securing ==> dial.next(DialEvent::Secured(Ok(())), server_name_ok, now) == (
            Dial { phase: DialPhase::Upgrading, ..dial },
            DialAction::Upgrade { drop_proxy_credentials: dial.proxied },
        ),
{
}

/// An attempt fails only for a reason: a stage failed, a deadline was reached, or
/// an encrypted connection to a host that cannot be the name of a server was
/// about to begin. Only the last is reported as an invalid URL.
pub proof fn attempts_fail_only_for_a_reason(
    dial: Dial,
    event: DialEvent,
    server_name_ok: bool,
    now: Instant,
)
    ensures
        dial.next(event, server_name_ok, now).1 matches DialAction::Fail(failure) ==> {
            ||| now.nanos >= dial.deadline.nanos && failure.error is TimeoutError
                && failure.retryable
            ||| event is DeadlineElapsed && failure.error is TimeoutError && failure.retryable
            ||| dial.tls_required && !server_name_ok && now.nanos < dial.deadline.nanos
                && failure.error is InvalidUrl && failure.stage is Tls && !failure.retryable
            ||| event == DialEvent::Resolved(false) && failure.error is NetworkError
                && failure.stage is Dns && failure.retryable
            ||| event == DialEvent::Address(false) && failure.error is NetworkError
                && failure.retryable && (failure.stage is Tcp <==> dial.phase
                == DialPhase::Choosing { had_address: true }) && (failure.stage is Dns
                <==> dial.phase == DialPhase::Choosing { had_address: false })
            ||| event == DialEvent::Configured(false) && failure.error is NetworkError
                && failure.stage is Tcp && failure.retryable
            ||| event == DialEvent::Tunnelled(Err(failure))
            ||| event matches DialEvent::Secured(result) && result is Err && (failure.error
                is TlsConnectError || failure.error is NetworkError) && failure.stage is Tls
            ||| event matches DialEvent::Upgraded(result) && result is Err
        },
        dial.tls_required && !server_name_ok && now.nanos < dial.deadline.nanos && ((dial.phase
            is Configuring && !dial.proxied && event == DialEvent::Configured(true)) || (dial.phase
            is Tunnelling && event == DialEvent::Tunnelled(Ok(())))) ==> dial.next(
            event,
            server_name_ok,
            now,
        ).1 is Fail,
{
}

/// A stage that fails ends the attempt with what failed: nothing that failed is
/// passed over.
pub proof fn failed_stages_end_the_attempt(
    dial: Dial,
    failure: WebSocketConnectionFailure,
    fault: TransportFault,
    refused: UpgradeFault,
    server_name_ok: bool,
    now: Instant,
)
    ensures
        dial.phase is Resolving ==> dial.next(DialEvent::Resolved(false), server_name_ok, now).1
            is Fail,
        dial.phase is Choosing ==> dial.next(DialEvent::Address(false), server_name_ok, now).1
            is Fail,
        dial.phase is Configuring ==> dial.next(
            DialEvent::Configured(false),
            server_name_ok,
            now,
        ).1 is Fail,
        dial.phase is Tunnelling ==> dial.next(
            DialEvent::Tunnelled(Err(failure)),
            server_name_ok,
            now,
        ).1 == DialAction::Fail(failure),
        dial.phase is Securing ==> (dial.next(
            DialEvent::Secured(Err(fault)),
            server_name_ok,
            now,
        ).1 matches DialAction::Fail(end) && end.stage is Tls && end.http_status is None
            && (end.error is TlsConnectError <==> fault.from_tls || fault.invalid_data)
            && end.retryable == !(fault.from_tls || fault.invalid_data)),
        dial.phase is Upgrading ==> (dial.next(
            DialEvent::Upgraded(Err(refused)),
            server_name_ok,
            now,
        ).1 matches DialAction::Fail(end) && match refused {
            UpgradeFault::Http(code) => end.error is ConnectError && end.stage is WebSocketUpgrade
                && end.http_status == Some(code) && (end.retryable <==> (code >= 500 && code
                <= 599) || code == 408 || code == 429),
            UpgradeFault::Io(fault) => end.http_status is None && (if fault.from_tls {
                end.error is TlsConnectError && end.stage is Tls && !end.retryable
            } else {
                end.error is NetworkError && end.stage is WebSocketUpgrade && end.retryable
            }),
            UpgradeFault::Closed { error } => end.error == error && end.stage is WebSocketUpgrade
                && end.http_status is None && end.retryable,
            UpgradeFault::Other { error } => end.error == error && end.stage is WebSocketUpgrade
                && end.http_status is None && !end.retryable,
        }),
{
}

/// A stage that does not end in time is reported as late, as the stage that it
/// is, and is worth another attempt.
pub proof fn late_stages_are_named(dial: Dial, server_name_ok: bool, now: Instant)
    ensures
        ({
            let action = dial.next(DialEvent::DeadlineElapsed, server_name_ok, now).1;
            let stage = match dial.phase {
                DialPhase::Resolving => Some(WebSocketConnectStage::Dns),
                DialPhase::Connecting => Some(WebSocketConnectStage::Tcp),
                DialPhase::Tunnelling => Some(WebSocketConnectStage::ProxyConnect),
                DialPhase::Securing => Some(WebSocketConnectStage::Tls),
                DialPhase::Upgrading => Some(WebSocketConnectStage::WebSocketUpgrade),
                _ => None,
            };
            match stage {
                Some(stage) => action == DialAction::Fail(
                    WebSocketConnectionFailure {
                        error: NetError::TimeoutError,
                        stage,
                        http_status: None,
                        retryable: true,
                    },
                ),
                None => action is Ignore,
            }
        }),
{
}

/// Whatever an attempt meets, it stays the attempt that was planned, and an event
/// of another phase changes nothing.
pub proof fn attempts_keep_their_plan(
    dial: Dial,
    event: DialEvent,
    server_name_ok: bool,
    now: Instant,
)
    ensures
        ({
            let (after, action) = dial.next(event, server_name_ok, now);
            &&& after.tls_required == dial.tls_required
            &&& after.proxied == dial.proxied
            &&& after.tcp_nodelay == dial.tcp_nodelay
            &&& after.deadline == dial.deadline
            &&& action is Ignore ==> after == dial
        }),
{
}

/// The two schemes of WebSocket are told apart, and no other is one.
pub proof fn only_two_schemes_are_websocket(name: Seq<char>)
    ensures
        scheme_security(Some(seq!['w', 's'])) == Some(false),
        scheme_security(Some(seq!['w', 's', 's'])) == Some(true),
        name != seq!['w', 's'] && name != seq!['w', 's', 's'] ==> scheme_security(Some(name))
            is None,
        scheme_security(None) is None,
{
    reveal_strlit("ws");
    reveal_strlit("wss");
    assert("ws"@ =~= seq!['w', 's']);
    assert("wss"@ =~= seq!['w', 's', 's']);
    assert(seq!['w', 's'].len() == 2);
    assert(seq!['w', 's', 's'].len() == 3);
}

/// The brackets of an IPv6 address are removed, once, and nothing else is.
pub proof fn only_brackets_are_removed(host: Seq<char>)
    ensures
        bare_host(seq!['['] + host + seq![']']) == host,
        host.len() < 2 || host[0] != '[' || host.last() != ']' ==> bare_host(host) == host,
{
    let bracketed = seq!['['] + host + seq![']'];
    assert(bracketed.subrange(1, bracketed.len() - 1) =~= host);
}

/// A stage that would begin at or after the deadline is reported as late in its place,
/// and as the stage that it is.
pub proof fn late_starts_are_named(dial: Dial, server_name_ok: bool, now: Instant)
    requires
        now.nanos >= dial.deadline.nanos,
    ensures
        ({
            let begun = dial.next(DialEvent::Begin, server_name_ok, now).1;
            let chosen = dial.next(DialEvent::Address(true), server_name_ok, now).1;
            let ready = dial.next(DialEvent::Configured(true), server_name_ok, now).1;
            let tunnelled = dial.next(DialEvent::Tunnelled(Ok(())), server_name_ok, now).1;
            let secured = dial.next(DialEvent::Secured(Ok(())), server_name_ok, now).1;
            let next = if dial.tls_required {
                WebSocketConnectStage::Tls
            } else {
                WebSocketConnectStage::WebSocketUpgrade
            };
            &&& dial.phase is Planned ==> fails_late(begun, WebSocketConnectStage::Dns)
            &&& dial.phase is Choosing ==> fails_late(chosen, WebSocketConnectStage::Tcp)
            &&& dial.phase is Configuring && dial.proxied ==> fails_late(
                ready,
                WebSocketConnectStage::ProxyConnect,
            )
            &&& dial.phase is Configuring && !dial.proxied ==> fails_late(ready, next)
            &&& dial.phase is Tunnelling ==> fails_late(tunnelled, next)
            &&& dial.phase is Securing ==> fails_late(
                secured,
                WebSocketConnectStage::WebSocketUpgrade,
            )
        }),
{
}

/// Whether an attempt fails because it is too late for `stage`.
pub open spec fn fails_late(action: DialAction, stage: WebSocketConnectStage) -> bool {
    action matches DialAction::Fail(failure) && failure.error is TimeoutError && failure.stage
        == stage && failure.http_status is None && failure.retryable
}

} // verus!
