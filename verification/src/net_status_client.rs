//! The public view of the local network: reachability, IP versions and
//! listeners.
use vstd::prelude::*;

use crate::ip_stack::IpStack;
use crate::net_error::NetError;
use crate::network_source::{NetworkStatusPublisher, NetworkStatusSource};
use crate::network_status::{NetworkStatus, NetworkStatusSnapshot};

verus! {

/// Identifies a registered listener.
#[derive(Clone, Copy, Debug, PartialEq, Eq, Hash, Structural)]
pub struct NetworkStatusListenerHandle {
    /// Number of the listener.
    pub id: u64,
}

impl NetworkStatusListenerHandle {
    /// The handle of the listener with the given number.
    pub fn from_raw(id: u64) -> (handle: Self)
        ensures
            handle.id == id,
    {
        NetworkStatusListenerHandle { id }
    }
}

/// What one monitor has found out so far.
#[derive(Debug)]
pub struct MonitorState {
    /// Whether the monitor still counts.
    pub active: bool,
    /// Whether the network can be used.
    pub reachability: NetworkStatus,
    /// The IP versions that the network offers.
    pub ip_stack: IpStack,
    /// The monitor's right to publish, if it observes for connections too.
    pub observation: Option<NetworkStatusPublisher>,
    /// Registered listeners, oldest first.
    pub listeners: Vec<NetworkStatusListenerHandle>,
    /// Number of the next listener.
    pub next_listener_id: u64,
}

/// A change that listeners are told.
#[derive(Debug)]
pub struct StatusDispatch {
    /// The new status.
    pub status: NetworkStatus,
    /// The listeners that were registered when it changed.
    pub listeners: Vec<NetworkStatusListenerHandle>,
}

/// The source after an observation of a monitor.
pub open spec fn published(
    source: NetworkStatusSource,
    state: MonitorState,
    status: NetworkStatus,
) -> NetworkStatusSource {
    match state.observation {
        Some(publisher) => if state.active && source.admits(publisher) && source.has_numbers() {
            NetworkStatusSource {
                snapshot: crate::network_source::observed(source.snapshot, Some(status)),
                ..source
            }
        } else {
            source
        },
        None => source,
    }
}

/// Whether the source could not number an observation.
pub open spec fn exhausted(source: NetworkStatusSource, state: MonitorState) -> bool {
    state.active && (state.observation matches Some(publisher) && source.admits(publisher)
        && !source.has_numbers())
}

impl MonitorState {
    /// A monitor that has not found out anything: the network counts as
    /// unavailable.
    pub fn new() -> (state: Self)
        ensures
            state.active,
            state.reachability is Unavailable,
            state.ip_stack is Neither,
            state.observation is None,
            state.listeners@.len() == 0,
            state.next_listener_id == 1,
    {
        MonitorState {
            active: true,
            reachability: NetworkStatus::Unavailable,
            ip_stack: IpStack::Neither,
            observation: None,
            listeners: Vec::new(),
            next_listener_id: 1,
        }
    }

    /// Registered handles are older than the next one, so that none repeats.
    pub open spec fn wf(self) -> bool {
        forall|i: int|
            0 <= i < self.listeners@.len() ==> (#[trigger] self.listeners@[i]).id
                < self.next_listener_id
    }

    /// Whether a handle is registered.
    pub open spec fn has(self, handle: NetworkStatusListenerHandle) -> bool {
        self.listeners@.contains(handle)
    }

    /// Takes the next handle.
    pub fn next_listener_handle(&mut self) -> (handle: Result<NetworkStatusListenerHandle, NetError>)
        ensures
            match handle {
                Ok(handle) => {
                    &&& handle.id == old(self).next_listener_id
                    &&& *final(self) == (MonitorState {
                        next_listener_id: (handle.id + 1) as u64,
                        ..*old(self)
                    })
                    &&& handle.id < u64::MAX
                },
                Err(error) => {
                    &&& error is InternalError
                    &&& old(self).next_listener_id == u64::MAX
                    &&& *final(self) == *old(self)
                },
            },
    {
        match self.next_listener_id.checked_add(1) {
            Some(next) => {
                let id: u64 = self.next_listener_id;
                self.next_listener_id = next;
                Ok(NetworkStatusListenerHandle { id })
            },
            None => Err(NetError::InternalError),
        }
    }

    /// Registers a listener under a new handle.
    pub fn register(&mut self) -> (handle: Result<NetworkStatusListenerHandle, NetError>)
        requires
            old(self).wf(),
        ensures
            final(self).wf(),
            match handle {
                Ok(handle) => {
                    &&& handle.id == old(self).next_listener_id
                    &&& !old(self).has(handle)
                    &&& final(self).listeners@ == old(self).listeners@.push(handle)
                    &&& *final(self) == (MonitorState {
                        listeners: final(self).listeners,
                        next_listener_id: (handle.id + 1) as u64,
                        ..*old(self)
                    })
                },
                Err(error) => {
                    &&& error is InternalError
                    &&& old(self).next_listener_id == u64::MAX
                    &&& *final(self) == *old(self)
                },
            },
    {
        match self.next_listener_handle() {
            Ok(handle) => {
                self.listeners.push(handle);
                Ok(handle)
            },
            Err(error) => Err(error),
        }
    }

    /// Removes a listener, if it is registered.
    pub fn unregister(&mut self, handle: NetworkStatusListenerHandle) -> (removed: bool)
        requires
            old(self).wf(),
        ensures
            final(self).wf(),
            removed == old(self).has(handle),
            if removed {
                exists|i: int|
                    0 <= i < old(self).listeners@.len() && old(self).listeners@[i] == handle
                        && final(self).listeners@ == #[trigger] old(self).listeners@.remove(i)
            } else {
                final(self).listeners@ == old(self).listeners@
            },
            *final(self) == (MonitorState { listeners: final(self).listeners, ..*old(self) }),
    {
        let mut i: usize = 0;
        while i < self.listeners.len()
            invariant
                *self == *old(self),
                self.wf(),
                i <= self.listeners@.len(),
                forall|j: int| 0 <= j < i ==> self.listeners@[j] != handle,
            decreases self.listeners@.len() - i,
        {
            if self.listeners[i] == handle {
                assert(self.has(handle));
                let _ = self.listeners.remove(i);
                assert(self.listeners@ == old(self).listeners@.remove(i as int));
                return true;
            }
            i = i + 1;
        }
        false
    }

    /// Takes in what a monitor found: the observation of connections first,
    /// then the public state. Listeners are told only of a change. A monitor
    /// that no longer counts changes nothing.
    pub fn update_state_inner(
        &mut self,
        source: &mut NetworkStatusSource,
        status: NetworkStatus,
        ip_stack: IpStack,
    ) -> (dispatch: Result<Option<StatusDispatch>, NetError>)
        ensures
            *final(source) == published(*old(source), *old(self), status),
            match dispatch {
                Err(error) => error is InternalError && exhausted(*old(source), *old(self))
                    && *final(self) == *old(self),
                Ok(told) => {
                    &&& !exhausted(*old(source), *old(self))
                    &&& *final(self) == if old(self).active {
                        MonitorState { reachability: status, ip_stack, ..*old(self) }
                    } else {
                        *old(self)
                    }
                    &&& (told is Some) == (old(self).active && old(self).reachability != status)
                    &&& told matches Some(change) ==> change.status == status
                        && change.listeners@ == old(self).listeners@
                },
            },
    {
        if !self.active {
            return Ok(None);
        }
        match self.update_reachability_inner(source, status) {
            Ok(told) => {
                self.ip_stack = ip_stack;
                Ok(told)
            },
            Err(error) => Err(error),
        }
    }

    /// As before, where only the reachability was found.
    pub fn update_reachability_inner(
        &mut self,
        source: &mut NetworkStatusSource,
        status: NetworkStatus,
    ) -> (dispatch: Result<Option<StatusDispatch>, NetError>)
        ensures
            *final(source) == published(*old(source), *old(self), status),
            match dispatch {
                Err(error) => error is InternalError && exhausted(*old(source), *old(self))
                    && *final(self) == *old(self),
                Ok(told) => {
                    &&& !exhausted(*old(source), *old(self))
                    &&& *final(self) == if old(self).active {
                        MonitorState { reachability: status, ..*old(self) }
                    } else {
                        *old(self)
                    }
                    &&& (told is Some) == (old(self).active && old(self).reachability != status)
                    &&& told matches Some(change) ==> change.status == status
                        && change.listeners@ == old(self).listeners@
                },
            },
    {
        if !self.active {
            return Ok(None);
        }
        if let Some(publisher) = self.observation {
            match source.publish(publisher, Some(status)) {
                Ok(()) => {},
                Err(error) => {
                    return Err(error);
                },
            }
        }
        if self.reachability == status {
            return Ok(None);
        }
        self.reachability = status;
        let mut listeners: Vec<NetworkStatusListenerHandle> = Vec::new();
        let mut i: usize = 0;
        while i < self.listeners.len()
            invariant
                i <= self.listeners@.len(),
                listeners@ == self.listeners@.take(i as int),
            decreases self.listeners@.len() - i,
        {
            listeners.push(self.listeners[i]);
            i = i + 1;
            assert(listeners@ =~= self.listeners@.take(i as int));
        }
        assert(listeners@ =~= self.listeners@);
        Ok(Some(StatusDispatch { status, listeners }))
    }
}

/// What a request to start leads to.
#[derive(Clone, Copy, Debug, PartialEq, Eq)]
pub enum MonitorStart {
    /// A new monitor is to be started.
    Begin(NetworkStatusPublisher),
    /// The running monitor is used.
    Reuse,
    /// The client was destroyed.
    Refused,
    /// Monitors can no longer be numbered.
    Failed(NetError),
}

/// The state that clones of a client share.
#[derive(Debug)]
pub struct InnerNetStatusClient {
    /// What connections observe.
    pub observations: NetworkStatusSource,
    /// The running monitor.
    pub monitor: Option<MonitorState>,
    /// Whether the client can start no more.
    pub destroyed: bool,
    /// The log listener.
    pub log_listener: Option<u64>,
}

impl InnerNetStatusClient {
    /// The running monitor is consistent.
    pub open spec fn wf(self) -> bool {
        self.monitor matches Some(state) ==> state.wf()
    }

    /// Whether a request to start begins a new monitor.
    pub open spec fn can_start(self) -> bool {
        self.monitor is None && !self.destroyed && self.observations.generation < u64::MAX
    }

    /// The client once its monitor was stopped.
    pub open spec fn stopped(self, destroy: bool) -> InnerNetStatusClient {
        InnerNetStatusClient {
            observations: match self.monitor {
                Some(state) => match state.observation {
                    Some(publisher) => self.observations.completed(publisher),
                    None => self.observations,
                },
                None => self.observations,
            },
            monitor: None,
            destroyed: self.destroyed || destroy,
            ..self
        }
    }

    /// A client without a monitor.
    pub fn new() -> (client: Self)
        ensures
            client.wf(),
            client.monitor is None,
            !client.destroyed,
            client.log_listener is None,
            client.observations == (NetworkStatusSource {
                snapshot: NetworkStatusSnapshot { revision: 0, loss_epoch: 0, status: None },
                generation: 0,
                observing: false,
            }),
    {
        InnerNetStatusClient {
            observations: NetworkStatusSource::new(),
            monitor: None,
            destroyed: false,
            log_listener: None,
        }
    }

    /// What connections observe now. Asking does not start a monitor.
    pub fn subscribe(&self) -> (snapshot: NetworkStatusSnapshot)
        ensures
            snapshot == self.observations.snapshot,
    {
        self.observations.subscribe()
    }

    /// Starts a monitor, unless one runs or the client was destroyed.
    pub fn start(&mut self) -> (start: MonitorStart)
        requires
            old(self).wf(),
        ensures
            final(self).wf(),
            match start {
                MonitorStart::Begin(publisher) => {
                    &&& old(self).monitor is None
                    &&& !old(self).destroyed
                    &&& publisher.generation == old(self).observations.generation + 1
                    &&& final(self).observations == (NetworkStatusSource {
                        generation: publisher.generation,
                        observing: true,
                        ..old(self).observations
                    })
                    &&& final(self).monitor matches Some(state) && {
                        &&& state.active
                        &&& state.reachability is Unavailable
                        &&& state.ip_stack is Neither
                        &&& state.observation == Some(publisher)
                        &&& state.listeners@.len() == 0
                        &&& state.next_listener_id == 1
                    }
                    &&& *final(self) == (InnerNetStatusClient {
                        observations: final(self).observations,
                        monitor: final(self).monitor,
                        ..*old(self)
                    })
                },
                MonitorStart::Reuse => {
                    &&& old(self).monitor is Some
                    &&& !old(self).destroyed
                    &&& *final(self) == *old(self)
                },
                MonitorStart::Refused => old(self).destroyed && *final(self) == *old(self),
                MonitorStart::Failed(error) => {
                    &&& old(self).monitor is None
                    &&& !old(self).destroyed
                    &&& error is InternalError
                    &&& old(self).observations.generation == u64::MAX
                    &&& *final(self) == *old(self)
                },
            },
    {
        if self.destroyed {
            return MonitorStart::Refused;
        }
        if self.monitor.is_some() {
            return MonitorStart::Reuse;
        }
        match self.observations.begin_generation() {
            Ok(publisher) => {
                let mut state = MonitorState::new();
                state.observation = Some(publisher);
                self.monitor = Some(state);
                MonitorStart::Begin(publisher)
            },
            Err(error) => MonitorStart::Failed(error),
        }
    }

    /// Stops the monitor and clears its listeners. What connections observed
    /// is forgotten at once, before the monitor has released its resources;
    /// the answer tells whether there was one.
    pub fn request_stop(&mut self, destroy: bool) -> (stopping: bool)
        ensures
            stopping == old(self).monitor is Some,
            *final(self) == old(self).stopped(destroy),
    {
        if destroy {
            self.destroyed = true;
        }
        match self.monitor.take() {
            Some(state) => {
                if let Some(publisher) = state.observation {
                    self.observations.complete(publisher);
                }
                true
            },
            None => false,
        }
    }
}

/// A client for the state of the local network.
#[derive(Debug)]
pub struct NetStatusClient {
    /// The state that clones share.
    pub inner: InnerNetStatusClient,
}

impl NetStatusClient {
    /// The client is consistent.
    pub open spec fn wf(self) -> bool {
        self.inner.wf()
    }

    /// A client that does not observe anything yet.
    pub fn new() -> (client: Self)
        ensures
            client.wf(),
            client.inner.monitor is None,
            !client.inner.destroyed,
            client.inner.log_listener is None,
            client.inner.observations == (NetworkStatusSource {
                snapshot: NetworkStatusSnapshot { revision: 0, loss_epoch: 0, status: None },
                generation: 0,
                observing: false,
            }),
    {
        NetStatusClient { inner: InnerNetStatusClient::new() }
    }

    /// Starts observing; a running monitor is used again.
    pub fn start(&mut self) -> (start: MonitorStart)
        requires
            old(self).wf(),
        ensures
            final(self).wf(),
            start is Begin <==> old(self).inner.can_start(),
            start is Reuse <==> old(self).inner.monitor is Some && !old(self).inner.destroyed,
            start is Refused <==> old(self).inner.destroyed,
            start matches MonitorStart::Failed(error) ==> error is InternalError,
            !(start is Begin) ==> *final(self) == *old(self),
            start matches MonitorStart::Begin(publisher) ==> {
                &&& publisher.generation == old(self).inner.observations.generation + 1
                &&& final(self).inner.observations == (NetworkStatusSource {
                    generation: publisher.generation,
                    observing: true,
                    ..old(self).inner.observations
                })
                &&& final(self).inner.observations.admits(publisher)
                &&& final(self).inner.monitor matches Some(state) && {
                    &&& state.active
                    &&& state.reachability is Unavailable
                    &&& state.ip_stack is Neither
                    &&& state.observation == Some(publisher)
                    &&& state.listeners@.len() == 0
                    &&& state.next_listener_id == 1
                }
                &&& final(self).inner == (InnerNetStatusClient {
                    observations: final(self).inner.observations,
                    monitor: final(self).inner.monitor,
                    ..old(self).inner
                })
            },
    {
        self.inner.start()
    }

    /// Stops observing and clears the listeners.
    pub fn shutdown(&mut self) -> (stopping: bool)
        ensures
            stopping == old(self).inner.monitor is Some,
            final(self).inner == old(self).inner.stopped(false),
    {
        self.inner.request_stop(false)
    }

    /// Stops observing for good.
    pub fn request_destroy(&mut self) -> (stopping: bool)
        ensures
            stopping == old(self).inner.monitor is Some,
            final(self).inner == old(self).inner.stopped(true),
    {
        self.inner.request_stop(true)
    }

    /// Whether the network can be used; unavailable while stopped.
    pub open spec fn reachability(self) -> NetworkStatus {
        match self.inner.monitor {
            Some(state) => state.reachability,
            None => NetworkStatus::Unavailable,
        }
    }

    /// The IP versions that the network offers; none while stopped.
    pub open spec fn versions(self) -> IpStack {
        match self.inner.monitor {
            Some(state) => state.ip_stack,
            None => IpStack::Neither,
        }
    }

    /// Whether the network can be used; unavailable while stopped.
    pub fn local_network_reachability(&self) -> (status: Result<NetworkStatus, NetError>)
        ensures
            status == Ok::<NetworkStatus, NetError>(self.reachability()),
    {
        match &self.inner.monitor {
            Some(state) => Ok(state.reachability),
            None => Ok(NetworkStatus::Unavailable),
        }
    }

    /// The IP versions that the network offers; none while stopped.
    pub fn ip_stack(&self) -> (stack: Result<IpStack, NetError>)
        ensures
            stack == Ok::<IpStack, NetError>(self.versions()),
    {
        match &self.inner.monitor {
            Some(state) => Ok(state.ip_stack),
            None => Ok(IpStack::Neither),
        }
    }

    /// Whether the network offers IPv4.
    pub fn has_ipv4(&self) -> (has: Result<bool, NetError>)
        ensures
            has == Ok::<bool, NetError>(
                self.versions() is V4Only || self.versions() is DualStack,
            ),
    {
        match self.ip_stack() {
            Ok(stack) => Ok(stack.has_ipv4()),
            Err(error) => Err(error),
        }
    }

    /// Whether the network offers IPv6.
    pub fn has_ipv6(&self) -> (has: Result<bool, NetError>)
        ensures
            has == Ok::<bool, NetError>(
                self.versions() is V6Only || self.versions() is DualStack,
            ),
    {
        match self.ip_stack() {
            Ok(stack) => Ok(stack.has_ipv6()),
            Err(error) => Err(error),
        }
    }

    /// Registers a listener for later changes; nothing while stopped. The
    /// listener is not told the current status.
    pub fn register(&mut self) -> (handle: Result<Option<NetworkStatusListenerHandle>, NetError>)
        requires
            old(self).wf(),
        ensures
            final(self).wf(),
            match old(self).inner.monitor {
                None => handle == Ok::<Option<NetworkStatusListenerHandle>, NetError>(None)
                    && *final(self) == *old(self),
                Some(before) => match handle {
                    Ok(registered) => {
                        &&& registered matches Some(registered)
                        &&& !before.has(registered)
                        &&& final(self).inner.monitor matches Some(after) && {
                            &&& after.listeners@ == before.listeners@.push(registered)
                            &&& after == (MonitorState {
                                listeners: after.listeners,
                                next_listener_id: (registered.id + 1) as u64,
                                ..before
                            })
                        }
                        &&& *final(self) == (NetStatusClient {
                            inner: InnerNetStatusClient {
                                monitor: final(self).inner.monitor,
                                ..old(self).inner
                            },
                        })
                    },
                    Err(error) => {
                        &&& error is InternalError
                        &&& before.next_listener_id == u64::MAX
                        &&& *final(self) == *old(self)
                    },
                },
            },
    {
        match self.inner.monitor.take() {
            Some(mut state) => {
                let handle = state.register();
                self.inner.monitor = Some(state);
                match handle {
                    Ok(handle) => Ok(Some(handle)),
                    Err(error) => Err(error),
                }
            },
            None => Ok(None),
        }
    }

    /// Removes a listener and tells whether it was registered.
    pub fn unregister(&mut self, handle: NetworkStatusListenerHandle) -> (removed: Result<
        bool,
        NetError,
    >)
        requires
            old(self).wf(),
        ensures
            final(self).wf(),
            match old(self).inner.monitor {
                None => removed == Ok::<bool, NetError>(false) && *final(self) == *old(self),
                Some(before) => {
                    &&& removed == Ok::<bool, NetError>(before.has(handle))
                    &&& final(self).inner.monitor matches Some(after) && {
                        &&& after == (MonitorState { listeners: after.listeners, ..before })
                        &&& if before.has(handle) {
                            exists|i: int|
                                0 <= i < before.listeners@.len() && before.listeners@[i] == handle
                                    && after.listeners@ == #[trigger] before.listeners@.remove(i)
                        } else {
                            after.listeners@ == before.listeners@
                        }
                    }
                    &&& *final(self) == (NetStatusClient {
                        inner: InnerNetStatusClient {
                            monitor: final(self).inner.monitor,
                            ..old(self).inner
                        },
                    })
                },
            },
    {
        match self.inner.monitor.take() {
            Some(mut state) => {
                let removed = state.unregister(handle);
                self.inner.monitor = Some(state);
                Ok(removed)
            },
            None => Ok(false),
        }
    }

    /// Removes all listeners; an error while stopped.
    pub fn clear_all_listener(&mut self) -> (result: Result<(), NetError>)
        requires
            old(self).wf(),
        ensures
            final(self).wf(),
            match old(self).inner.monitor {
                None => result == Err::<(), NetError>(NetError::NotStarted) && *final(self)
                    == *old(self),
                Some(before) => {
                    &&& result is Ok
                    &&& final(self).inner.monitor matches Some(after) && {
                        &&& after.listeners@.len() == 0
                        &&& after == (MonitorState { listeners: after.listeners, ..before })
                    }
                    &&& *final(self) == (NetStatusClient {
                        inner: InnerNetStatusClient {
                            monitor: final(self).inner.monitor,
                            ..old(self).inner
                        },
                    })
                },
            },
    {
        match self.inner.monitor.take() {
            Some(mut state) => {
                state.listeners = Vec::new();
                self.inner.monitor = Some(state);
                Ok(())
            },
            None => Err(NetError::NotStarted),
        }
    }

    /// Whether a monitor runs.
    pub fn is_started(&self) -> (started: bool)
        ensures
            started == self.inner.monitor is Some,
    {
        self.inner.monitor.is_some()
    }

    /// Whether no monitor runs.
    pub fn is_shutdown(&self) -> (stopped: bool)
        ensures
            stopped == self.inner.monitor is None,
    {
        !self.is_started()
    }

    /// The name that the platform resolved for the network; nothing while
    /// stopped.
    pub fn get_current_network_name(&self, resolved: Option<String>) -> (name: Result<
        Option<String>,
        NetError,
    >)
        ensures
            name == Ok::<Option<String>, NetError>(
                if self.inner.monitor is Some {
                    resolved
                } else {
                    None
                },
            ),
    {
        if self.is_started() {
            Ok(resolved)
        } else {
            Ok(None)
        }
    }

    /// Replaces the log listener by one that was registered, or by none. A
    /// registration that failed leaves the old one in place. The answer is the
    /// listener to drop.
    pub fn try_set_log_listener<E>(&mut self, registration: Option<Result<u64, E>>) -> (previous:
        Result<Option<u64>, E>)
        ensures
            match registration {
                Some(Err(error)) => previous == Err::<Option<u64>, E>(error) && *final(self)
                    == *old(self),
                _ => previous == Ok::<Option<u64>, E>(old(self).inner.log_listener)
                    && final(self).inner == (InnerNetStatusClient {
                    log_listener: match registration {
                        Some(Ok(listener)) => Some(listener),
                        _ => None,
                    },
                    ..old(self).inner
                }),
            },
    {
        let replacement = match registration {
            Some(Ok(listener)) => Some(listener),
            Some(Err(error)) => {
                return Err(error);
            },
            None => None,
        };
        let previous = self.inner.log_listener;
        self.inner.log_listener = replacement;
        Ok(previous)
    }

    /// As before; a registration that failed is only logged.
    pub fn set_log_listener<E>(&mut self, registration: Option<Result<u64, E>>) -> (dropped: Option<
        u64,
    >)
        ensures
            match registration {
                Some(Err(_)) => dropped is None && *final(self) == *old(self),
                _ => dropped == old(self).inner.log_listener && final(self).inner == (
                InnerNetStatusClient {
                    log_listener: match registration {
                        Some(Ok(listener)) => Some(listener),
                        _ => None,
                    },
                    ..old(self).inner
                }),
            },
    {
        match self.try_set_log_listener(registration) {
            Ok(previous) => previous,
            Err(_) => None,
        }
    }
}

/// A stopped client reports an unavailable network without IP versions, and
/// connections observe nothing through it, yet no loss is counted. Its log
/// listener stays.
pub proof fn stopping_forgets_the_network(client: InnerNetStatusClient, destroy: bool)
    requires
        client.monitor matches Some(state) && (state.observation matches Some(publisher)
            && client.observations.admits(publisher)),
    ensures
        (NetStatusClient { inner: client.stopped(destroy) }).reachability() is Unavailable,
        (NetStatusClient { inner: client.stopped(destroy) }).versions() is Neither,
        client.stopped(destroy).observations.snapshot.status is None,
        client.stopped(destroy).observations.snapshot.loss_epoch
            == client.observations.snapshot.loss_epoch,
        client.stopped(destroy).log_listener == client.log_listener,
{
}

/// After a shutdown the client can be started again and keeps its log listener;
/// a destroyed one stays stopped.
pub proof fn shutdown_can_be_followed_by_a_start(client: InnerNetStatusClient)
    requires
        client.observations.generation < u64::MAX,
    ensures
        client.stopped(false).can_start() == !client.destroyed,
        client.stopped(false).log_listener == client.log_listener,
        !client.stopped(true).can_start(),
        client.stopped(true).stopped(false).destroyed,
{
}

/// What a running monitor finds reaches the connections exactly if it is the one
/// that may publish; a monitor that no longer counts, or that observes for nobody
/// else, changes nothing for them.
pub proof fn findings_reach_the_connections(
    source: NetworkStatusSource,
    state: MonitorState,
    status: NetworkStatus,
)
    requires
        source.snapshot.revision < u64::MAX,
        source.snapshot.loss_epoch < u64::MAX,
    ensures
        ({
            let after = published(source, state, status);
            let counts = state.active && source.observing && (state.observation matches Some(
                publisher,
            ) && publisher.generation == source.generation);
            &&& !counts ==> after == source
            &&& counts ==> {
                &&& after.snapshot.status == Some(status)
                &&& after.snapshot.revision == source.snapshot.revision + 1
                &&& after.snapshot.loss_epoch >= source.snapshot.loss_epoch
                &&& after.generation == source.generation && after.observing
            }
            &&& !exhausted(source, state)
        }),
{
}

/// A client reports what its running monitor found, and nothing without one; a stop
/// leaves no monitor, and only destroying it makes that final.
pub proof fn clients_report_their_monitor(client: NetStatusClient, destroy: bool)
    ensures
        client.inner.monitor matches Some(state) ==> client.reachability() == state.reachability
            && client.versions() == state.ip_stack,
        client.inner.monitor is None ==> client.reachability() is Unavailable && client.versions()
            is Neither,
        client.inner.stopped(destroy).monitor is None,
        client.inner.stopped(destroy).destroyed <==> client.inner.destroyed || destroy,
        client.inner.stopped(destroy).observations.generation
            == client.inner.observations.generation,
        client.inner.monitor is None ==> client.inner.stopped(destroy).observations
            == client.inner.observations,
        client.inner.can_start() <==> client.inner.monitor is None && !client.inner.destroyed
            && client.inner.observations.generation < u64::MAX,
{
}

} // verus!
