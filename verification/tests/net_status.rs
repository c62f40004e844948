use open_net::net_status_client::{
    InnerNetStatusClient, MonitorStart, MonitorState, NetStatusClient, NetworkStatusListenerHandle,
};
use open_net::network_source::NetworkStatusSource;
use open_net::network_status::NetworkStatus;
use open_net::{IpStack, NetError};

#[test]
fn from_flags_covers_all_combinations() {
    assert_eq!(IpStack::from_flags(false, false), IpStack::Neither);
    assert_eq!(IpStack::from_flags(true, false), IpStack::V4Only);
    assert_eq!(IpStack::from_flags(false, true), IpStack::V6Only);
    assert_eq!(IpStack::from_flags(true, true), IpStack::DualStack);
}

#[test]
fn default_is_none() {
    assert_eq!(IpStack::default(), IpStack::Neither);
}

#[test]
fn has_ipv4_is_true_only_for_v4_and_dual() {
    assert!(!IpStack::Neither.has_ipv4());
    assert!(IpStack::V4Only.has_ipv4());
    assert!(!IpStack::V6Only.has_ipv4());
    assert!(IpStack::DualStack.has_ipv4());
}

#[test]
fn has_ipv6_is_true_only_for_v6_and_dual() {
    assert!(!IpStack::Neither.has_ipv6());
    assert!(!IpStack::V4Only.has_ipv6());
    assert!(IpStack::V6Only.has_ipv6());
    assert!(IpStack::DualStack.has_ipv6());
}

#[test]
fn is_dual_stack_is_true_only_for_dual() {
    assert!(!IpStack::Neither.is_dual_stack());
    assert!(!IpStack::V4Only.is_dual_stack());
    assert!(!IpStack::V6Only.is_dual_stack());
    assert!(IpStack::DualStack.is_dual_stack());
}

#[test]
fn name_and_display_agree() {
    for variant in [
        IpStack::Neither,
        IpStack::V4Only,
        IpStack::V6Only,
        IpStack::DualStack,
    ] {
        assert_eq!(variant.name(), variant.to_string());
    }
    assert_eq!(IpStack::DualStack.name(), "DualStack");
}

#[test]
fn names_are_stable_for_every_variant() {
    for (variant, expected) in [
        (IpStack::Neither, "None"),
        (IpStack::V4Only, "V4Only"),
        (IpStack::V6Only, "V6Only"),
        (IpStack::DualStack, "DualStack"),
    ] {
        assert_eq!(variant.name(), expected);
    }
}

#[test]
fn initial_unavailable_updates_internal_source_without_public_callback() {
    let mut source = NetworkStatusSource::new();
    let mut state = MonitorState::new();
    state.observation = Some(source.begin_generation().unwrap());
    let dispatch = state
        .update_state_inner(&mut source, NetworkStatus::Unavailable, IpStack::Neither)
        .unwrap();
    let snapshot = source.subscribe();
    assert_eq!(snapshot.status, Some(NetworkStatus::Unavailable));
    assert_eq!(snapshot.loss_epoch, 1);
    assert!(
        dispatch.is_none(),
        "initial Unavailable must reach internal subscribers without a public replay"
    );
}

#[test]
fn internal_observation_does_not_wait_for_public_callbacks() {
    let mut source = NetworkStatusSource::new();
    let mut state = MonitorState::new();
    state.observation = Some(source.begin_generation().unwrap());
    let handle = state.register().unwrap();
    // Accepted notifications are never executed here.
    for (status, told) in [
        (NetworkStatus::Available, true),
        (NetworkStatus::Unavailable, true),
        (NetworkStatus::Available, true),
    ] {
        let dispatch = state.update_reachability_inner(&mut source, status).unwrap();
        assert_eq!(dispatch.is_some(), told);
        let dispatch = dispatch.unwrap();
        assert_eq!(dispatch.status, status);
        assert_eq!(dispatch.listeners, vec![handle]);
    }
    let snapshot = source.subscribe();
    assert_eq!(
        snapshot.status,
        Some(NetworkStatus::Available),
        "public callback scheduling must not delay internal observations"
    );
    assert_eq!(snapshot.loss_epoch, 1);
}

#[test]
fn inactive_monitor_cannot_publish_internal_observation() {
    let mut source = NetworkStatusSource::new();
    let mut state = MonitorState::new();
    state.observation = Some(source.begin_generation().unwrap());
    state.active = false;
    state
        .update_state_inner(&mut source, NetworkStatus::Unavailable, IpStack::Neither)
        .unwrap();
    assert!(
        source.subscribe().status.is_none(),
        "retired monitor published a network state"
    );
}

#[test]
fn dropping_unpolled_monitor_task_clears_known_state() {
    let mut source = NetworkStatusSource::new();
    let publisher = source.begin_generation().unwrap();
    source
        .publish(publisher, Some(NetworkStatus::Unavailable))
        .unwrap();
    source.complete(publisher);
    let snapshot = source.subscribe();
    assert!(snapshot.status.is_none());
    assert_eq!(snapshot.loss_epoch, 1);
}

#[test]
fn stopped_generation_completion_cannot_clear_new_generation() {
    let mut source = NetworkStatusSource::new();
    let stopped = source.begin_generation().unwrap();
    let fresh = source.begin_generation().unwrap();
    source
        .publish(fresh, Some(NetworkStatus::Available))
        .unwrap();
    source.complete(stopped);
    assert_eq!(
        source.subscribe().status,
        Some(NetworkStatus::Available),
        "retiring completion cleared a replacement monitor"
    );
}

#[test]
fn completed_monitor_cannot_republish_a_late_platform_query() {
    let mut source = NetworkStatusSource::new();
    let publisher = source.begin_generation().unwrap();
    source
        .publish(publisher, Some(NetworkStatus::Unavailable))
        .unwrap();
    source.complete(publisher);
    source
        .publish(publisher, Some(NetworkStatus::Available))
        .unwrap();
    assert!(source.subscribe().status.is_none());
}

#[test]
fn public_default_state_remains_unavailable_without_internal_observation() {
    let state = MonitorState::new();
    assert_eq!(
        state.reachability,
        NetworkStatus::Unavailable,
        "public stopped-state compatibility changed"
    );
}

#[test]
fn subscribe_before_start_is_unknown_and_does_not_start_a_monitor() {
    let client = NetStatusClient {
        inner: InnerNetStatusClient::new(),
    };
    let snapshot = client.inner.subscribe();
    assert!(!client.is_started());
    assert!(
        snapshot.status.is_none(),
        "subscribing must neither start monitoring nor manufacture Unavailable"
    );
}

#[test]
fn stop_publishes_unknown_before_native_resource_completion() {
    let mut client = InnerNetStatusClient::new();
    let publisher = match client.start() {
        MonitorStart::Begin(publisher) => publisher,
        other => panic!("no monitor began: {other:?}"),
    };
    client
        .observations
        .publish(publisher, Some(NetworkStatus::Unavailable))
        .unwrap();
    assert!(client.request_stop(false));
    let stopped = client.subscribe();
    assert!(stopped.status.is_none());
    assert_eq!(stopped.loss_epoch, 1);
    assert!(!client.request_stop(false));
}

#[test]
fn exhausted_numbers_are_errors_and_change_nothing() {
    let mut source = NetworkStatusSource::new();
    source.generation = u64::MAX;
    assert_eq!(source.begin_generation(), Err(NetError::InternalError));
    source.generation = 1;
    let publisher = source.begin_generation().unwrap();
    source.snapshot.loss_epoch = u64::MAX;
    let before = source;
    assert_eq!(
        source.publish(publisher, Some(NetworkStatus::Unavailable)),
        Err(NetError::InternalError)
    );
    assert_eq!(source, before);
}

#[test]
fn losses_are_counted_once_each() {
    let mut source = NetworkStatusSource::new();
    let publisher = source.begin_generation().unwrap();
    let mut epochs = Vec::new();
    for status in [
        NetworkStatus::Available,
        NetworkStatus::Unavailable,
        NetworkStatus::Unavailable,
        NetworkStatus::Available,
        NetworkStatus::Unavailable,
    ] {
        source.publish(publisher, Some(status)).unwrap();
        epochs.push(source.subscribe().loss_epoch);
    }
    assert_eq!(epochs, vec![0, 1, 1, 1, 2]);
    assert_eq!(source.subscribe().revision, 5);
}

#[test]
fn a_stopped_client_knows_nothing_and_takes_no_listeners() {
    let mut client = NetStatusClient::new();
    assert!(client.is_shutdown());
    assert_eq!(
        client.local_network_reachability(),
        Ok(NetworkStatus::Unavailable)
    );
    assert_eq!(client.ip_stack(), Ok(IpStack::Neither));
    assert_eq!(client.has_ipv4(), Ok(false));
    assert_eq!(client.has_ipv6(), Ok(false));
    assert_eq!(client.register(), Ok(None));
    assert_eq!(
        client.unregister(NetworkStatusListenerHandle::from_raw(1)),
        Ok(false)
    );
    assert_eq!(client.clear_all_listener(), Err(NetError::NotStarted));
    assert_eq!(
        client.get_current_network_name(Some("home".to_string())),
        Ok(None)
    );
}

#[test]
fn a_started_client_reports_its_monitor() {
    let mut client = NetStatusClient::new();
    assert!(matches!(client.start(), MonitorStart::Begin(_)));
    assert_eq!(client.start(), MonitorStart::Reuse);
    assert!(client.is_started());
    let first = client.register().unwrap().unwrap();
    let second = client.register().unwrap().unwrap();
    assert_ne!(first, second);

    let mut state = client.inner.monitor.take().unwrap();
    let dispatch = state
        .update_state_inner(
            &mut client.inner.observations,
            NetworkStatus::Available,
            IpStack::V6Only,
        )
        .unwrap()
        .unwrap();
    client.inner.monitor = Some(state);
    assert_eq!(dispatch.listeners, vec![first, second]);
    assert_eq!(
        client.local_network_reachability(),
        Ok(NetworkStatus::Available)
    );
    assert_eq!(client.ip_stack(), Ok(IpStack::V6Only));
    assert_eq!(client.has_ipv4(), Ok(false));
    assert_eq!(client.has_ipv6(), Ok(true));
    assert_eq!(
        client.get_current_network_name(Some("home".to_string())),
        Ok(Some("home".to_string()))
    );

    assert_eq!(client.unregister(first), Ok(true));
    assert_eq!(client.unregister(first), Ok(false));
    assert_eq!(client.clear_all_listener(), Ok(()));
    assert_eq!(client.unregister(second), Ok(false));

    assert!(client.shutdown());
    assert!(client.is_shutdown());
    assert_eq!(client.ip_stack(), Ok(IpStack::Neither));
    assert!(matches!(client.start(), MonitorStart::Begin(_)));
    assert!(client.request_destroy());
    assert_eq!(client.start(), MonitorStart::Refused);
}

#[test]
fn a_failed_log_registration_keeps_the_listener_and_stopping_does_too() {
    let mut client = NetStatusClient::new();
    assert_eq!(client.try_set_log_listener::<()>(Some(Ok(1))), Ok(None));
    assert_eq!(
        client.try_set_log_listener(Some(Err("no thread"))),
        Err("no thread")
    );
    client.set_log_listener(Some(Err("no thread")));
    client.shutdown();
    assert_eq!(client.inner.log_listener, Some(1));
    assert_eq!(client.set_log_listener::<()>(None), Some(1));
    assert_eq!(client.inner.log_listener, None);
}

#[test]
fn a_client_starts_again_after_shutdown_with_its_log_listener() {
    let mut client = NetStatusClient::new();
    client.set_log_listener::<()>(Some(Ok(9)));
    assert!(matches!(client.start(), MonitorStart::Begin(_)));
    assert!(client.shutdown());
    assert_eq!(client.inner.log_listener, Some(9));
    assert!(matches!(client.start(), MonitorStart::Begin(_)));
    assert!(client.is_started());
    client.request_destroy();
    client.shutdown();
    assert_eq!(client.start(), MonitorStart::Refused);
}
