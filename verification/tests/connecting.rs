use open_net::clock::{Duration, Instant};
use open_net::connect_cycle::{
    local_cycle_failure, network_interruption_failure, publish_connected, request_failure,
    ConnectAttemptError, ConnectCycle, CycleAction, CycleEvent,
};
use open_net::connection_failure::{
    WebSocketConnectStage, WebSocketConnectionFailure, WebSocketTerminationReason,
};
use open_net::handshake_request::{
    assemble_request, build_connect_request, check_provider_deadline, provider_headers,
    ProviderReply,
};
use open_net::network_gate::{cycle_deadline, GateDecision, GateRun, GateWake, NetworkGate};
use open_net::network_status::{NetworkStatus, NetworkStatusSnapshot};
use open_net::proxy::{
    authority, connect_request, proxy_io, proxy_protocol, HeaderReader, ParsedResponse,
    ProxyTunnel,
};
use open_net::reconnect::ReconnectPolicy;
use open_net::retry::{full_jitter_delay, retry_allowed, JitterState};
use open_net::text::{blank, trim};
use open_net::NetError;

fn at(secs: u64) -> Instant {
    Instant { nanos: 0 }
        .checked_add(Duration::from_secs(secs))
        .unwrap()
}

fn seen(revision: u64, loss_epoch: u64, status: Option<NetworkStatus>) -> NetworkStatusSnapshot {
    NetworkStatusSnapshot {
        revision,
        loss_epoch,
        status,
    }
}

fn policy() -> ReconnectPolicy {
    ReconnectPolicy {
        enabled: true,
        initial_delay: Duration::from_millis(100),
        max_delay: Duration::from_millis(500),
        max_retries: 2,
        handshake_timeout: Duration::from_secs(10),
        max_elapsed: None,
    }
}

fn transient() -> WebSocketConnectionFailure {
    WebSocketConnectionFailure::new(
        NetError::NetworkError,
        WebSocketConnectStage::Tcp,
        None,
        true,
    )
}

#[test]
fn jitter_is_within_exponential_cap() {
    let policy = policy();
    let mut jitter = JitterState::new();
    for attempt in 1..10 {
        assert!(full_jitter_delay(&policy, attempt, &mut jitter).nanos <= policy.max_delay.nanos);
    }
}

#[test]
fn jitter_follows_its_sequence() {
    let mut jitter = JitterState::new();
    let mut value: u64 = 0x9e37_79b9_7f4a_7c15;
    for _ in 0..4 {
        value ^= value << 13;
        value ^= value >> 7;
        value ^= value << 17;
        assert_eq!(jitter.next_jitter_random(), value);
    }
    let still = ReconnectPolicy {
        initial_delay: Duration::zero(),
        ..policy()
    };
    let before = jitter;
    assert_eq!(
        full_jitter_delay(&still, 3, &mut jitter),
        Duration::zero()
    );
    assert_eq!(jitter, before);
}

#[test]
fn retries_are_limited_by_number_and_time() {
    let policy = ReconnectPolicy {
        max_elapsed: Some(Duration::from_secs(5)),
        ..policy()
    };
    assert!(retry_allowed(&policy, 0, Duration::from_secs(4)));
    assert!(retry_allowed(&policy, 1, Duration::from_secs(4)));
    assert!(!retry_allowed(&policy, 2, Duration::from_secs(4)));
    assert!(!retry_allowed(&policy, 0, Duration::from_secs(5)));
    let disabled = ReconnectPolicy {
        enabled: false,
        ..policy
    };
    assert!(!retry_allowed(&disabled, 0, Duration::zero()));
}

#[test]
fn unrepresentable_cycle_budget_is_a_configuration_error() {
    assert_eq!(
        cycle_deadline(at(0), Some(Duration::max_value())),
        Err(NetError::ConfigError)
    );
    assert_eq!(cycle_deadline(at(0), None), Ok(None));
}

#[test]
fn offline_wait_ends_at_the_original_cycle_deadline() {
    let offline = seen(1, 1, Some(NetworkStatus::Unavailable));
    let mut gate = NetworkGate::new(true);
    assert_eq!(
        gate.wait_available(&offline, Some(at(5)), at(0)),
        GateDecision::Sleep { until: at(5) }
    );
    assert_eq!(
        gate.wake(GateWake::DeadlineElapsed),
        Err(NetError::RetryExhausted)
    );
    assert_eq!(
        gate.wait_available(&offline, Some(at(5)), at(5)),
        GateDecision::Fail(NetError::RetryExhausted)
    );
}

#[test]
fn coalesced_loss_prevents_even_a_ready_operation_from_running() {
    let mut gate = NetworkGate::new(true);
    let epoch = match gate.wait_available(&seen(1, 0, Some(NetworkStatus::Available)), None, at(0))
    {
        GateDecision::Proceed(epoch) => epoch,
        other => panic!("no attempt: {other:?}"),
    };
    assert_eq!(
        gate.run(epoch, &seen(3, 1, Some(NetworkStatus::Available)), true),
        GateRun::Interrupted
    );
    assert_eq!(
        network_interruption_failure(NetError::NetworkError).error(),
        NetError::NetworkError
    );
}

#[test]
fn recovery_preserves_the_loss_epoch_and_unknown_allows_transport_probe() {
    let mut gate = NetworkGate::new(true);
    assert!(matches!(
        gate.wait_available(
            &seen(1, 7, Some(NetworkStatus::Unavailable)),
            Some(at(5)),
            at(0)
        ),
        GateDecision::Sleep { .. }
    ));
    assert_eq!(gate.wake(GateWake::Changed), Ok(()));
    assert_eq!(
        gate.wait_available(&seen(2, 7, None), Some(at(5)), at(1)),
        GateDecision::Proceed(Some(7))
    );
}

#[test]
fn paused_retry_backoff_cannot_extend_the_cycle_budget() {
    let mut gate = NetworkGate::new(true);
    assert_eq!(
        gate.backoff(Duration::from_secs(100), Some(at(5)), at(0)),
        Ok(Some(at(5)))
    );
    assert_eq!(
        gate.backoff(Duration::from_secs(3), Some(at(5)), at(0)),
        Ok(Some(at(3)))
    );
    assert_eq!(
        gate.backoff(Duration::max_value(), None, at(0)),
        Err(NetError::ConfigError)
    );
}

#[test]
fn network_loss_cancels_a_pending_attempt_without_waiting_for_its_timeout() {
    let mut gate = NetworkGate::new(true);
    let calm = seen(1, 0, Some(NetworkStatus::Available));
    assert_eq!(
        gate.wait_available(&calm, None, at(0)),
        GateDecision::Proceed(Some(0))
    );
    assert_eq!(gate.run(Some(0), &calm, false), GateRun::Pending);
    assert_eq!(
        gate.run(
            Some(0),
            &seen(2, 1, Some(NetworkStatus::Unavailable)),
            false
        ),
        GateRun::Interrupted
    );
}

#[test]
fn available_network_cannot_admit_an_attempt_after_the_cycle_deadline() {
    let gate = NetworkGate::new(true);
    assert_eq!(
        gate.wait_available(
            &seen(1, 0, Some(NetworkStatus::Available)),
            Some(at(0)),
            at(0)
        ),
        GateDecision::Fail(NetError::RetryExhausted)
    );
}

#[test]
fn interrupted_capacity_wait_cannot_restart_after_the_cycle_deadline() {
    let mut gate = NetworkGate::new(true);
    let calm = seen(1, 0, Some(NetworkStatus::Available));
    let back = seen(3, 1, Some(NetworkStatus::Available));
    assert_eq!(
        gate.wait_available(&calm, Some(at(5)), at(0)),
        GateDecision::Proceed(Some(0))
    );
    assert_eq!(gate.run(Some(0), &calm, false), GateRun::Pending);
    assert_eq!(gate.run(Some(0), &back, false), GateRun::Interrupted);
    assert_eq!(
        gate.wait_available(&back, Some(at(5)), at(5)),
        GateDecision::Fail(NetError::RetryExhausted)
    );
}

#[test]
fn an_unobserved_network_never_waits() {
    let mut gate = NetworkGate::new(false);
    let offline = seen(1, 1, Some(NetworkStatus::Unavailable));
    assert_eq!(
        gate.wait_available(&offline, Some(at(0)), at(9)),
        GateDecision::Proceed(None)
    );
    assert_eq!(gate.run(None, &offline, true), GateRun::Completed);
    let mut closed = NetworkGate::new(true);
    assert_eq!(closed.wake(GateWake::SourceClosed), Ok(()));
    assert!(matches!(
        closed.wait_available(&offline, None, at(0)),
        GateDecision::Proceed(_)
    ));
}

#[test]
fn a_cycle_repeats_transient_failures_and_then_ends() {
    let calm = seen(1, 0, Some(NetworkStatus::Available));
    let mut jitter = JitterState::new();
    let mut cycle = ConnectCycle::begin(7, policy(), false, at(0));
    let mut attempts = 0;
    let mut event = CycleEvent::Continue;
    loop {
        match cycle.connect_with_retry(event, &calm, &mut jitter, at(0)) {
            CycleAction::Attempt { epoch, deadline } => {
                assert_eq!((epoch, deadline), (None, at(10)));
                attempts += 1;
                event = CycleEvent::Failed(transient());
            }
            CycleAction::Backoff { until } => {
                assert!(until.nanos <= at(1).nanos);
                event = CycleEvent::Continue;
            }
            CycleAction::Fail {
                generation,
                failure,
                reason,
            } => {
                assert_eq!(generation, 7);
                assert_eq!(failure, transient());
                assert_eq!(reason, WebSocketTerminationReason::RetryExhausted);
                break;
            }
            other => panic!("unexpected {other:?}"),
        }
    }
    assert_eq!(attempts, 3);
    assert_eq!(
        cycle.connect_with_retry(CycleEvent::Opened, &calm, &mut jitter, at(0)),
        CycleAction::Ignore
    );
}

#[test]
fn a_cycle_ends_with_success_or_a_permanent_failure() {
    let calm = seen(1, 4, Some(NetworkStatus::Available));
    let mut jitter = JitterState::new();
    let mut cycle = ConnectCycle::begin(7, policy(), true, at(0));
    assert_eq!(
        cycle.connect_with_retry(CycleEvent::Continue, &calm, &mut jitter, at(0)),
        CycleAction::Attempt {
            epoch: Some(4),
            deadline: at(10)
        }
    );
    assert_eq!(
        cycle.connect_with_retry(CycleEvent::Opened, &calm, &mut jitter, at(1)),
        CycleAction::Publish {
            generation: 7,
            epoch: Some(4)
        }
    );
    assert_eq!(
        cycle.connect_with_retry(CycleEvent::Published(Ok(())), &calm, &mut jitter, at(1)),
        CycleAction::Finish { generation: 7 }
    );

    let permanent = WebSocketConnectionFailure::new(
        NetError::TlsConnectError,
        WebSocketConnectStage::Tls,
        None,
        false,
    );
    let mut cycle = ConnectCycle::begin(7, policy(), false, at(0));
    cycle.connect_with_retry(CycleEvent::Continue, &calm, &mut jitter, at(0));
    assert!(matches!(
        cycle.connect_with_retry(CycleEvent::Failed(permanent), &calm, &mut jitter, at(1)),
        CycleAction::Fail { failure, .. } if failure == permanent
    ));

    let endless = ReconnectPolicy {
        max_elapsed: Some(Duration::max_value()),
        ..policy()
    };
    let mut cycle = ConnectCycle::begin(7, endless, true, at(0));
    let (failure, reason) = local_cycle_failure(NetError::ConfigError);
    assert_eq!(
        cycle.connect_with_retry(CycleEvent::Continue, &calm, &mut jitter, at(0)),
        CycleAction::Fail {
            generation: 7,
            failure,
            reason
        }
    );
}

/// Runs a cycle whose first attempts fail; the events that the worker gets.
fn run_cycle(failures: usize, cancelled_at: Option<usize>) -> (usize, usize) {
    let mut cycle = ConnectCycle::begin(7, policy(), false, at(0));
    let mut jitter = JitterState::new();
    let unseen = seen(0, 0, None);
    let mut event = CycleEvent::Continue;
    let (mut attempts, mut sent) = (0, 0);
    for step in 0..32 {
        if cancelled_at == Some(step) {
            event = CycleEvent::Cancelled;
        }
        event = match cycle.connect_with_retry(event, &unseen, &mut jitter, at(step as u64)) {
            CycleAction::Backoff { .. } => CycleEvent::Continue,
            CycleAction::Attempt { .. } => {
                attempts += 1;
                if attempts <= failures {
                    CycleEvent::Failed(transient())
                } else {
                    CycleEvent::Opened
                }
            }
            CycleAction::Publish { generation, epoch } => {
                assert_eq!((generation, epoch), (7, None));
                sent += 1;
                CycleEvent::Published(publish_connected(epoch, true, None))
            }
            CycleAction::Fail { generation, .. } => {
                assert_eq!(generation, 7);
                sent += 1;
                break;
            }
            _ => break,
        };
    }
    (attempts, sent)
}

#[test]
fn a_cycle_hands_the_worker_one_event() {
    assert_eq!(run_cycle(0, None), (1, 1));
    assert_eq!(run_cycle(2, None), (3, 1));
    assert_eq!(run_cycle(9, None), (3, 1));
    assert_eq!(run_cycle(0, Some(0)), (0, 0));
    assert_eq!(run_cycle(9, Some(2)), (1, 0));
}

#[test]
fn a_cancelled_cycle_reports_nothing_in_any_phase() {
    let calm = seen(1, 0, Some(NetworkStatus::Available));
    let offline = seen(1, 1, Some(NetworkStatus::Unavailable));
    let bounded = ReconnectPolicy {
        max_elapsed: Some(Duration::from_secs(60)),
        ..policy()
    };
    let endless = ReconnectPolicy {
        max_elapsed: Some(Duration::max_value()),
        ..policy()
    };
    for (policy, snapshot, before) in [
        (bounded, calm, vec![]),
        (endless, calm, vec![]),
        (bounded, calm, vec![CycleEvent::Continue]),
        (bounded, offline, vec![CycleEvent::Continue]),
        (bounded, calm, vec![CycleEvent::Continue, CycleEvent::Opened]),
        (
            bounded,
            calm,
            vec![CycleEvent::Continue, CycleEvent::Failed(transient())],
        ),
    ] {
        let mut jitter = JitterState::new();
        let mut cycle = ConnectCycle::begin(7, policy, true, at(0));
        for event in before {
            cycle.connect_with_retry(event, &snapshot, &mut jitter, at(0));
        }
        assert_eq!(
            cycle.connect_with_retry(CycleEvent::Cancelled, &snapshot, &mut jitter, at(0)),
            CycleAction::Stop
        );
        for event in [CycleEvent::Continue, CycleEvent::Cancelled, CycleEvent::Opened] {
            assert_eq!(
                cycle.connect_with_retry(event, &snapshot, &mut jitter, at(0)),
                CycleAction::Ignore
            );
        }
    }
}

#[test]
fn a_connection_that_the_worker_refuses_is_tried_again_only_after_a_loss() {
    let calm = seen(1, 0, Some(NetworkStatus::Available));
    let publish = |result| {
        let mut jitter = JitterState::new();
        let mut cycle = ConnectCycle::begin(7, policy(), true, at(0));
        cycle.connect_with_retry(CycleEvent::Continue, &calm, &mut jitter, at(0));
        cycle.connect_with_retry(CycleEvent::Opened, &calm, &mut jitter, at(0));
        cycle.connect_with_retry(CycleEvent::Published(result), &calm, &mut jitter, at(0))
    };
    assert!(matches!(
        publish(Err(NetError::NetworkError)),
        CycleAction::Backoff { .. }
    ));
    assert!(matches!(
        publish(Err(NetError::Cancelled)),
        CycleAction::Fail {
            generation: 7,
            reason: WebSocketTerminationReason::ConnectFailed,
            ..
        }
    ));
}

#[test]
fn offline_initial_connect_has_a_finite_budget_without_opening_a_socket() {
    let offline = seen(1, 1, Some(NetworkStatus::Unavailable));
    let mut jitter = JitterState::new();
    let bounded = ReconnectPolicy {
        max_elapsed: Some(Duration::from_secs(5)),
        ..policy()
    };
    let mut cycle = ConnectCycle::begin(7, bounded, true, at(0));
    assert_eq!(
        cycle.connect_with_retry(CycleEvent::Continue, &offline, &mut jitter, at(0)),
        CycleAction::AwaitNetwork { until: at(5) }
    );
    let (failure, reason) = local_cycle_failure(NetError::RetryExhausted);
    assert_eq!(
        cycle.connect_with_retry(
            CycleEvent::Woke(GateWake::DeadlineElapsed),
            &offline,
            &mut jitter,
            at(5)
        ),
        CycleAction::Fail {
            generation: 7,
            failure,
            reason
        }
    );
    assert_eq!(failure.error(), NetError::RetryExhausted);
}

#[test]
fn connections_are_published_with_an_answer_only_when_observed() {
    assert_eq!(
        publish_connected(None, false, None),
        Err(NetError::EngineDropped)
    );
    assert_eq!(publish_connected(None, true, None), Ok(()));
    assert_eq!(
        publish_connected(Some(1), true, None),
        Err(NetError::EngineDropped)
    );
    assert_eq!(
        publish_connected(Some(1), true, Some(Err(NetError::NetworkError))),
        Err(NetError::NetworkError)
    );
}

/// Asks a provider that would answer, unless its time is up; how often it was
/// asked, and why the request cannot be built.
fn ask_provider(now: Instant, deadline: Instant) -> (usize, Option<WebSocketConnectionFailure>) {
    let mut invocations = 0;
    let reply = match check_provider_deadline(now, deadline) {
        Ok(()) => {
            invocations += 1;
            ProviderReply::Answered(Ok(Vec::new()))
        }
        Err(error) => {
            assert_eq!(error, ConnectAttemptError::ProviderTimedOut);
            ProviderReply::TimedOut
        }
    };
    let built = build_connect_request("ws://127.0.0.1:1", &Vec::new(), reply);
    (invocations, built.err().map(request_failure))
}

#[test]
fn expired_legacy_deadline_does_not_launch_dynamic_header_provider() {
    assert_eq!(
        check_provider_deadline(at(5), at(4)),
        Err(ConnectAttemptError::ProviderTimedOut)
    );
    assert_eq!(ask_provider(at(5), at(4)).0, 0);
    assert_eq!(ask_provider(at(5), at(5)).0, 0);
    assert_eq!(ask_provider(at(3), at(4)), (1, None));
}

#[test]
fn expired_context_deadline_returns_provider_timeout_without_launching_closure() {
    let (invocations, failure) = ask_provider(at(2), at(1));
    assert_eq!(invocations, 0);
    let failure = failure.expect("expired context request unexpectedly succeeded");
    assert_eq!(failure.error(), NetError::TimeoutError);
    assert_eq!(failure.stage(), WebSocketConnectStage::Provider);
    assert!(failure.http_status().is_none());
    assert!(!failure.retryable());
}

#[test]
fn providers_answer_or_fail_the_attempt() {
    assert_eq!(
        provider_headers(ProviderReply::Absent).unwrap(),
        Vec::<(String, String)>::new()
    );
    assert_eq!(
        provider_headers(ProviderReply::TimedOut).err(),
        Some(ConnectAttemptError::ProviderTimedOut)
    );
    assert_eq!(
        provider_headers(ProviderReply::Gone).err(),
        Some(ConnectAttemptError::Build(NetError::EngineDropped))
    );
    assert_eq!(
        provider_headers(ProviderReply::Answered(Err(NetError::InternalError))).err(),
        Some(ConnectAttemptError::Build(NetError::InternalError))
    );
}

fn pair(name: &str, value: &str) -> (String, String) {
    (name.to_string(), value.to_string())
}

#[test]
fn later_headers_replace_earlier_ones_whatever_their_case() {
    let request = build_connect_request(
        "wss://example.com:444/path",
        &vec![pair("X-One", "a"), pair("x-two", "b")],
        ProviderReply::Answered(Ok(vec![pair("X-ONE", "c")])),
    )
    .unwrap()
    .unwrap();
    assert_eq!(request.uri.scheme.as_deref(), Some("wss"));
    assert_eq!(request.uri.host.as_deref(), Some("example.com"));
    assert_eq!(request.uri.port, Some(444));
    assert_eq!(request.headers.get("x-one").unwrap(), "c");
    assert_eq!(request.headers.get("x-two").unwrap(), "b");
    assert_eq!(request.headers.len(), 2);
}

#[test]
fn many_headers_fit_and_too_many_give_no_request() {
    let names = |count: usize| -> Vec<(String, String)> {
        (0..count)
            .map(|number| (format!("x-{number}"), "v".to_string()))
            .collect()
    };
    let request = build_connect_request("ws://h", &names(7000), ProviderReply::Absent)
        .unwrap()
        .unwrap();
    assert_eq!(request.headers.len(), 7000);
    let repeated = vec![pair("x-same", "v"); 7000];
    let request = build_connect_request("ws://h", &repeated, ProviderReply::Absent)
        .unwrap()
        .unwrap();
    assert_eq!(request.headers.len(), 1);
    assert!(matches!(
        build_connect_request("ws://h", &names(40000), ProviderReply::Absent),
        Ok(None)
    ));
}

#[test]
fn requests_that_cannot_be_built_are_refused() {
    assert_eq!(
        build_connect_request("not a url", &Vec::new(), ProviderReply::Absent).err(),
        Some(ConnectAttemptError::Build(NetError::InvalidUrl))
    );
    assert_eq!(
        assemble_request(None, &Vec::new(), ProviderReply::Absent).err(),
        Some(ConnectAttemptError::Build(NetError::InvalidUrl))
    );
    for header in [pair("bad name", "v"), pair("", "v"), pair("name", "a\nb")] {
        assert_eq!(
            build_connect_request("ws://h", &vec![header], ProviderReply::Absent).err(),
            Some(ConnectAttemptError::Build(NetError::ConfigError))
        );
    }
}

#[test]
fn white_space_is_trimmed_at_both_ends() {
    assert_eq!(trim(" \t\u{2003}ws://h \n"), "ws://h");
    assert_eq!(trim("a b"), "a b");
    assert!(blank(" \u{3000}\r\n"));
    assert!(blank(""));
    assert!(!blank(" x "));
}

#[test]
fn tunnels_are_requested_for_an_authority() {
    assert_eq!(authority("example.com", 443), "example.com:443");
    assert_eq!(authority("::1", 80), "[::1]:80");
    assert_eq!(
        connect_request("h", 1, Some("QQ==")),
        "CONNECT h:1 HTTP/1.1\r\nHost: h:1\r\nProxy-Authorization: Basic QQ==\r\n\r\n"
    );
    assert_eq!(
        connect_request("h", 65535, None),
        "CONNECT h:65535 HTTP/1.1\r\nHost: h:65535\r\n\r\n"
    );
}

#[test]
fn headers_are_read_exactly_to_their_end() {
    let mut reader = HeaderReader::new(64);
    assert_eq!(reader.next_peek(), Ok(64));
    let first = reader.read_header_exactly(b"HTTP/1.1 200 OK\r\n\r").unwrap();
    assert_eq!((first.consume, first.complete), (18, false));
    let rest = reader.read_header_exactly(b"\ntunnel bytes").unwrap();
    assert_eq!((rest.consume, rest.complete), (1, true));
    assert_eq!(reader.response, b"HTTP/1.1 200 OK\r\n\r\n");

    let mut ended = HeaderReader::new(64);
    assert_eq!(ended.read_header_exactly(b"").err(), Some(proxy_io()));
    let mut full = HeaderReader::new(4);
    full.read_header_exactly(b"HTTP").unwrap();
    assert_eq!(full.next_peek(), Err(proxy_protocol()));
}

#[test]
fn proxies_open_refuse_or_postpone_a_tunnel() {
    let answer = |text: &str| ProxyTunnel::new().establish_tunnel(&text.as_bytes().to_vec());
    assert_eq!(answer("HTTP/1.1 200 OK\r\nA: b\r\n\r\n"), Ok(true));
    assert_eq!(answer("HTTP/1.1 100 Continue\r\n\r\n"), Ok(false));
    assert_eq!(
        answer("HTTP/1.1 101 Switching\r\n\r\n"),
        Err(proxy_protocol())
    );
    for (code, retryable) in [(403, false), (407, false), (408, true), (429, true), (502, true)] {
        assert_eq!(
            answer(&format!("HTTP/1.1 {code} X\r\n\r\n")),
            Err(WebSocketConnectionFailure::new(
                NetError::ConnectError,
                WebSocketConnectStage::ProxyConnect,
                Some(code),
                retryable
            ))
        );
    }
    assert_eq!(answer("garbage\r\n\r\n"), Err(proxy_protocol()));
    assert_eq!(answer("HTTP/1.1 200 OK\r\n"), Err(proxy_protocol()));
    assert_eq!(
        answer("HTTP/1.1 200 OK\r\n\r\nmore"),
        Err(proxy_protocol())
    );
    let many: String = (0..65).map(|i| format!("h{i}: v\r\n")).collect();
    assert_eq!(
        answer(&format!("HTTP/1.1 200 OK\r\n{many}\r\n")),
        Err(proxy_protocol())
    );
}

#[test]
fn interim_answers_share_one_budget() {
    let mut tunnel = ProxyTunnel::new();
    let interim = b"HTTP/1.1 102 Processing\r\n\r\n".to_vec();
    for _ in 0..4 {
        assert_eq!(tunnel.establish_tunnel(&interim), Ok(false));
    }
    assert_eq!(tunnel.establish_tunnel(&interim), Err(proxy_protocol()));
    let mut headers = ProxyTunnel::new();
    let complete = |code, count| ParsedResponse::Complete {
        consumed: 10,
        code: Some(code),
        headers: count,
    };
    assert_eq!(headers.judge(10, complete(100, 40)), Ok(false));
    assert_eq!(
        headers.judge(10, complete(200, 25)),
        Err(proxy_protocol())
    );
}
