//! Limits and timeouts of a WebSocket client.
use vstd::prelude::*;

use crate::clock::{duration_fits_instant, Duration, Instant};
use crate::net_error::NetError;
use crate::permits::max_permits;

verus! {

/// How an idle TCP connection is probed.
#[derive(Clone, Copy, Debug, PartialEq, Eq, Structural)]
pub struct TcpKeepaliveConfig {
    /// Idle time before the first probe.
    pub idle: Duration,
    /// Time between probes.
    pub interval: Duration,
}

/// What the framing layer allows.
#[derive(Clone, Copy, Debug, PartialEq, Eq, Structural)]
pub struct FrameLimits {
    /// Least payload that a data frame may be limited to.
    pub min_data_frame_payload_size: usize,
    /// Most bytes that a client adds to a frame's payload.
    pub max_client_frame_overhead: usize,
}

/// Limits and timeouts of a client.
#[derive(Clone, Copy, Debug, PartialEq, Eq, Structural)]
pub struct WebSocketClientConfig {
    /// Data callbacks that may wait.
    pub callback_queue_capacity: usize,
    /// Bytes that waiting data callbacks may hold.
    pub callback_queue_max_bytes: usize,
    /// Data callbacks that may run at once.
    pub data_callback_concurrency: usize,
    /// Status callbacks that may wait.
    pub status_callback_queue_capacity: usize,
    /// Requests that may await a response.
    pub pending_request_capacity: usize,
    /// Ordinary messages that may be queued.
    pub business_queue_capacity: usize,
    /// Bytes of ordinary messages that may be queued.
    pub business_queue_max_bytes: usize,
    /// Urgent messages that may be queued.
    pub urgent_queue_capacity: usize,
    /// Bytes of urgent messages that may be queued.
    pub urgent_queue_max_bytes: usize,
    /// Time between heartbeats.
    pub heartbeat_interval: Duration,
    /// How long the answer to a heartbeat may take.
    pub pong_timeout: Duration,
    /// How long closing may take.
    pub close_timeout: Duration,
    /// How long one control frame may take.
    pub control_write_timeout: Duration,
    /// How long one data frame may take.
    pub data_frame_write_timeout: Duration,
    /// How long responses may be dispatched after their connection ended.
    pub response_dispatch_grace: Duration,
    /// Size of the read buffer.
    pub read_buffer_size: usize,
    /// Payload at which messages are divided into frames, if they are.
    pub data_frame_payload_size: Option<usize>,
    /// Bytes that are buffered before they are written.
    pub write_buffer_size: usize,
    /// Bytes that may be buffered at most.
    pub max_write_buffer_size: usize,
    /// Largest message that is accepted, if that is bounded.
    pub max_message_size: Option<usize>,
    /// Largest frame that is accepted, if that is bounded.
    pub max_frame_size: Option<usize>,
    /// Send buffer of the socket, if it is set.
    pub tcp_send_buffer_size: Option<usize>,
    /// Keepalive probes, if they are enabled.
    pub tcp_keepalive: Option<TcpKeepaliveConfig>,
}

/// Whether a limit is positive and can be counted by a semaphore.
pub open spec fn countable(limit: usize) -> bool {
    0 < limit <= crate::permits::permit_limit()
}

/// Whether a limit that is set is not zero.
pub open spec fn not_zero(limit: Option<usize>) -> bool {
    limit != Some(0usize)
}

impl WebSocketClientConfig {
    /// The largest payload of one outgoing frame.
    pub open spec fn largest_payload(self) -> usize {
        match self.data_frame_payload_size {
            Some(size) => size,
            None => if self.business_queue_max_bytes >= self.urgent_queue_max_bytes {
                self.business_queue_max_bytes
            } else {
                self.urgent_queue_max_bytes
            },
        }
    }

    /// The bounded lanes can be built.
    pub open spec fn lanes_usable(self) -> bool {
        &&& countable(self.callback_queue_capacity)
        &&& countable(self.callback_queue_max_bytes)
        &&& self.callback_queue_max_bytes <= u32::MAX
        &&& countable(self.data_callback_concurrency)
        &&& countable(self.status_callback_queue_capacity)
        &&& self.pending_request_capacity > 0
        &&& self.urgent_queue_capacity > 0
        &&& self.urgent_queue_max_bytes > 0
    }

    /// The timeouts are positive and can be expressed as deadlines, and a
    /// heartbeat is not missed before the next is due.
    pub open spec fn timeouts_usable(self, now: Instant) -> bool {
        &&& self.heartbeat_interval.nanos > 0
        &&& self.pong_timeout.nanos > self.heartbeat_interval.nanos
        &&& self.close_timeout.nanos > 0
        &&& self.control_write_timeout.nanos > 0
        &&& self.data_frame_write_timeout.nanos > 0
        &&& now.plus(self.heartbeat_interval) is Some
        &&& now.plus(self.pong_timeout) is Some
        &&& now.plus(self.close_timeout) is Some
        &&& now.plus(self.control_write_timeout) is Some
        &&& now.plus(self.data_frame_write_timeout) is Some
        &&& now.plus(self.response_dispatch_grace) is Some
    }

    /// The buffers hold at least one frame, and no limit is zero.
    pub open spec fn buffers_usable(self, limits: FrameLimits) -> bool {
        &&& self.read_buffer_size > 0
        &&& self.data_frame_payload_size matches Some(size) ==> size
            >= limits.min_data_frame_payload_size
        &&& self.max_write_buffer_size > self.write_buffer_size
        &&& self.max_write_buffer_size >= self.largest_payload() + limits.max_client_frame_overhead
        &&& not_zero(self.max_message_size)
        &&& not_zero(self.max_frame_size)
        &&& not_zero(self.tcp_send_buffer_size)
        &&& self.tcp_keepalive matches Some(keepalive) ==> keepalive.idle.nanos > 0
            && keepalive.interval.nanos > 0
    }

    /// Whether a client can be built.
    pub open spec fn usable(self, limits: FrameLimits, now: Instant) -> bool {
        self.lanes_usable() && self.timeouts_usable(now) && self.buffers_usable(limits)
    }

    fn lanes_are_usable(&self) -> (usable: bool)
        ensures
            usable == self.lanes_usable(),
    {
        let limit: usize = max_permits();
        !(self.callback_queue_capacity == 0 || self.callback_queue_capacity > limit
            || self.callback_queue_max_bytes == 0 || self.callback_queue_max_bytes
            > u32::MAX as usize || self.callback_queue_max_bytes > limit
            || self.data_callback_concurrency == 0 || self.data_callback_concurrency > limit
            || self.status_callback_queue_capacity == 0 || self.status_callback_queue_capacity
            > limit || self.pending_request_capacity == 0 || self.urgent_queue_capacity == 0
            || self.urgent_queue_max_bytes == 0)
    }

    fn timeouts_are_usable(&self, now: Instant) -> (usable: bool)
        ensures
            usable == self.timeouts_usable(now),
    {
        !(self.heartbeat_interval.nanos == 0 || self.pong_timeout.nanos
            <= self.heartbeat_interval.nanos || self.close_timeout.nanos == 0
            || self.control_write_timeout.nanos == 0 || self.data_frame_write_timeout.nanos == 0
            || !duration_fits_instant(now, self.heartbeat_interval) || !duration_fits_instant(
            now,
            self.pong_timeout,
        ) || !duration_fits_instant(now, self.close_timeout) || !duration_fits_instant(
            now,
            self.control_write_timeout,
        ) || !duration_fits_instant(now, self.data_frame_write_timeout) || !duration_fits_instant(
            now,
            self.response_dispatch_grace,
        ))
    }

    fn buffers_are_usable(&self, limits: FrameLimits) -> (usable: bool)
        ensures
            usable == self.buffers_usable(limits),
    {
        let payload: usize = match self.data_frame_payload_size {
            Some(size) => size,
            None => if self.business_queue_max_bytes >= self.urgent_queue_max_bytes {
                self.business_queue_max_bytes
            } else {
                self.urgent_queue_max_bytes
            },
        };
        let holds_one_frame = match payload.checked_add(limits.max_client_frame_overhead) {
            Some(required) => self.max_write_buffer_size >= required,
            None => false,
        };
        let frame_too_small = match self.data_frame_payload_size {
            Some(size) => size < limits.min_data_frame_payload_size,
            None => false,
        };
        let keepalive_unset = match self.tcp_keepalive {
            Some(keepalive) => keepalive.idle.nanos == 0 || keepalive.interval.nanos == 0,
            None => false,
        };
        !(self.read_buffer_size == 0 || frame_too_small || self.max_write_buffer_size
            <= self.write_buffer_size || !holds_one_frame || is_zero(self.max_message_size)
            || is_zero(self.max_frame_size) || is_zero(self.tcp_send_buffer_size)
            || keepalive_unset)
    }

    /// Refuses a configuration that no client can be built from, so that
    /// building one never fails halfway.
    pub fn validate(&self, limits: FrameLimits, now: Instant) -> (result: Result<(), NetError>)
        ensures
            result == if self.usable(limits, now) {
                Ok::<(), NetError>(())
            } else {
                Err::<(), NetError>(NetError::ConfigError)
            },
    {
        if self.lanes_are_usable() && self.timeouts_are_usable(now) && self.buffers_are_usable(
            limits,
        ) {
            Ok(())
        } else {
            Err(NetError::ConfigError)
        }
    }
}

fn is_zero(limit: Option<usize>) -> (zero: bool)
    ensures
        zero == !not_zero(limit),
{
    match limit {
        Some(value) => value == 0,
        None => false,
    }
}

/// A usable configuration buffers any message that its queues hold, or any
/// frame that it divides them into.
pub proof fn usable_buffers_hold_every_frame(
    config: WebSocketClientConfig,
    limits: FrameLimits,
    now: Instant,
    payload: usize,
)
    requires
        config.usable(limits, now),
        match config.data_frame_payload_size {
            Some(size) => payload <= size,
            None => payload <= config.business_queue_max_bytes || payload
                <= config.urgent_queue_max_bytes,
        },
    ensures
        payload + limits.max_client_frame_overhead <= config.max_write_buffer_size,
{
}

/// A configuration is usable exactly if nothing that has to be there is zero, every
/// lane can be counted, every deadline can be expressed, a pong has longer than the
/// time between heartbeats, and the write buffer holds the largest frame beside
/// what is written early.
pub proof fn usable_configurations_can_be_built(
    config: WebSocketClientConfig,
    limits: FrameLimits,
    now: Instant,
)
    ensures
        config.usable(limits, now) <==> {
            let most = crate::permits::permit_limit();
            let last = crate::clock::MAX_INSTANT_NANOS - now.nanos;
            let payload = match config.data_frame_payload_size {
                Some(size) => size as int,
                None => vstd::math::max(
                    config.business_queue_max_bytes as int,
                    config.urgent_queue_max_bytes as int,
                ),
            };
            &&& 0 < config.callback_queue_capacity <= most
            &&& 0 < config.callback_queue_max_bytes <= most
            &&& config.callback_queue_max_bytes <= u32::MAX
            &&& 0 < config.data_callback_concurrency <= most
            &&& 0 < config.status_callback_queue_capacity <= most
            &&& 0 < config.pending_request_capacity
            &&& 0 < config.urgent_queue_capacity && 0 < config.urgent_queue_max_bytes
            &&& 0 < config.heartbeat_interval.nanos < config.pong_timeout.nanos <= last
            &&& 0 < config.close_timeout.nanos <= last
            &&& 0 < config.control_write_timeout.nanos <= last
            &&& 0 < config.data_frame_write_timeout.nanos <= last
            &&& config.response_dispatch_grace.nanos <= last
            &&& 0 < config.read_buffer_size
            &&& config.data_frame_payload_size is None || config.data_frame_payload_size->0
                >= limits.min_data_frame_payload_size
            &&& config.write_buffer_size < config.max_write_buffer_size
            &&& payload + limits.max_client_frame_overhead <= config.max_write_buffer_size
            &&& config.max_message_size is None || config.max_message_size->0 > 0
            &&& config.max_frame_size is None || config.max_frame_size->0 > 0
            &&& config.tcp_send_buffer_size is None || config.tcp_send_buffer_size->0 > 0
            &&& config.tcp_keepalive is None || (config.tcp_keepalive->0.idle.nanos > 0
                && config.tcp_keepalive->0.interval.nanos > 0)
        },
{
}

} // verus!
