//! The uploader: each tick it makes sure it holds a registered connection
//! to the central server (backing off exponentially, from 1 s up to 60 s,
//! while connecting fails), sends a status heartbeat, forwards pending
//! events, and uploads the buffered readings and statuses as one batch.
//!
//! The decisions stand here as a state machine; the caller performs each
//! action and reports its outcome as the next event.

use vstd::prelude::*;
use vstd::arithmetic::power::lemma_pow0;
use vstd::arithmetic::power2::{lemma_pow2_pos, lemma_pow2_unfold, pow2};
use crate::domain::{
    DeviceDisconnectionRequest, DispatcherId, DispatcherStatusRequest, ForwardRequest, PrimeEvent,
};
use crate::ulid_codec::now_nanoseconds;

verus! {

/// The pause after the first failed connection, in seconds.
pub const INITIAL_BACKOFF_SECS: u64 = 1;

/// The longest pause between connection attempts, in seconds.
pub const MAX_BACKOFF_SECS: u64 = 60;

/// Where the uploader stands within a tick.
#[derive(Clone, Copy, Debug, PartialEq, Eq, Structural)]
pub enum UploaderPhase {
    /// Waiting for the next tick.
    Waiting,
    /// Connecting to and registering with the central server.
    Connecting,
    /// Sending the status heartbeat.
    SendingStatus,
    /// Forwarding pending disconnections and alerts.
    ForwardingEvents,
    /// Fetching the readings not yet uploaded.
    FetchingReadings,
    /// Fetching the statuses not yet uploaded.
    FetchingStatuses,
    /// Uploading the batch.
    Uploading,
    /// Shut down.
    Stopped,
}

/// The uploader's state.
#[derive(Clone, Copy, Debug, PartialEq, Eq, Structural)]
pub struct Uploader {
    pub phase: UploaderPhase,
    /// Whether a registered connection is held.
    pub connected: bool,
    /// The pause after the next failed connection, in seconds.
    pub backoff_secs: u64,
    /// How many readings the fetch of this tick found.
    pub pending_readings: usize,
}

/// What happened, as the caller reports it.
#[derive(Clone, Copy, Debug, PartialEq, Eq, Structural)]
pub enum UploaderEvent {
    Tick,
    Cancelled,
    ConnectSucceeded,
    ConnectFailed,
    StatusSent,
    StatusFailed,
    EventsForwarded,
    ReadingsFetched { count: usize },
    ReadingsFetchFailed,
    StatusesFetched { count: usize },
    StatusesFetchFailed,
    BatchUploaded,
    BatchFailed,
}

/// What the caller is to do next.
#[derive(Clone, Copy, Debug, PartialEq, Eq, Structural)]
pub enum UploaderAction {
    /// Connect and register, then report `ConnectSucceeded` or `ConnectFailed`.
    Connect,
    /// Sleep this many seconds, then wait for the next tick.
    Sleep { secs: u64 },
    /// Take the pending events and send the status heartbeat.
    SendStatus,
    /// Forward the events taken with the heartbeat.
    ForwardEvents,
    /// Fetch the pending readings.
    FetchReadings,
    /// Fetch the pending statuses.
    FetchStatuses,
    /// Upload the fetched readings and statuses as one batch.
    UploadBatch,
    /// Mark the uploaded readings and statuses, then wait for the next tick.
    MarkUploaded,
    /// Wait for the next tick.
    Wait,
    /// Shut down.
    Stop,
}

/// The pauses the backoff runs through: doubling from 1 s, capped at 60 s.
pub open spec fn is_backoff_step(secs: u64) -> bool {
    secs == 1 || secs == 2 || secs == 4 || secs == 8 || secs == 16 || secs == 32 || secs == 60
}

/// The pause after `secs` when another connection fails.
pub open spec fn next_backoff(secs: u64) -> u64 {
    if 2 * secs < MAX_BACKOFF_SECS { (2 * secs) as u64 } else { MAX_BACKOFF_SECS }
}

/// Whether `phase` is one in which the uploader uses its connection.
pub open spec fn uses_connection(phase: UploaderPhase) -> bool {
    ||| phase == UploaderPhase::SendingStatus
    ||| phase == UploaderPhase::ForwardingEvents
    ||| phase == UploaderPhase::FetchingReadings
    ||| phase == UploaderPhase::FetchingStatuses
    ||| phase == UploaderPhase::Uploading
}

/// Whether the uploader, in `phase`, expects `event`.
pub open spec fn expects(phase: UploaderPhase, event: UploaderEvent) -> bool {
    match phase {
        UploaderPhase::Waiting => event == UploaderEvent::Tick || event == UploaderEvent::Cancelled,
        UploaderPhase::Connecting => event == UploaderEvent::ConnectSucceeded
            || event == UploaderEvent::ConnectFailed,
        UploaderPhase::SendingStatus => event == UploaderEvent::StatusSent
            || event == UploaderEvent::StatusFailed,
        UploaderPhase::ForwardingEvents => event == UploaderEvent::EventsForwarded,
        UploaderPhase::FetchingReadings => event is ReadingsFetched
            || event == UploaderEvent::ReadingsFetchFailed,
        UploaderPhase::FetchingStatuses => event is StatusesFetched
            || event == UploaderEvent::StatusesFetchFailed,
        UploaderPhase::Uploading => event == UploaderEvent::BatchUploaded
            || event == UploaderEvent::BatchFailed,
        UploaderPhase::Stopped => false,
    }
}

impl Uploader {
    /// The uploader's invariant: the backoff is one of its steps and is back
    /// at 1 s while connected; the connection is held in the phases that use
    /// it and not held while connecting.
    pub open spec fn wf(self) -> bool {
        &&& is_backoff_step(self.backoff_secs)
        &&& self.connected ==> self.backoff_secs == INITIAL_BACKOFF_SECS
        &&& uses_connection(self.phase) ==> self.connected
        &&& self.phase == UploaderPhase::Connecting ==> !self.connected
    }

    /// The uploader at rest with `phase` and the given connection, keeping
    /// the backoff and the reading count.
    pub open spec fn to(self, phase: UploaderPhase, connected: bool) -> Uploader {
        Uploader { phase, connected, ..self }
    }

    /// The transition on `event` (which the phase expects): the next state
    /// and the action to perform.
    pub open spec fn next(self, event: UploaderEvent) -> (Uploader, UploaderAction) {
        match event {
            UploaderEvent::Tick => if self.connected {
                (self.to(UploaderPhase::SendingStatus, true), UploaderAction::SendStatus)
            } else {
                (self.to(UploaderPhase::Connecting, false), UploaderAction::Connect)
            },
            UploaderEvent::Cancelled => (self.to(UploaderPhase::Stopped, self.connected), UploaderAction::Stop),
            UploaderEvent::ConnectSucceeded => (
                Uploader {
                    phase: UploaderPhase::SendingStatus,
                    connected: true,
                    backoff_secs: INITIAL_BACKOFF_SECS,
                    pending_readings: self.pending_readings,
                },
                UploaderAction::SendStatus,
            ),
            UploaderEvent::ConnectFailed => (
                Uploader {
                    phase: UploaderPhase::Waiting,
                    connected: false,
                    backoff_secs: next_backoff(self.backoff_secs),
                    pending_readings: self.pending_readings,
                },
                UploaderAction::Sleep { secs: self.backoff_secs },
            ),
            UploaderEvent::StatusSent => (self.to(UploaderPhase::ForwardingEvents, true), UploaderAction::ForwardEvents),
            UploaderEvent::StatusFailed => (self.to(UploaderPhase::Waiting, false), UploaderAction::Wait),
            UploaderEvent::EventsForwarded => (self.to(UploaderPhase::FetchingReadings, true), UploaderAction::FetchReadings),
            UploaderEvent::ReadingsFetched { count } => (
                Uploader { phase: UploaderPhase::FetchingStatuses, pending_readings: count, ..self },
                UploaderAction::FetchStatuses,
            ),
            UploaderEvent::ReadingsFetchFailed => (self.to(UploaderPhase::Waiting, true), UploaderAction::Wait),
            UploaderEvent::StatusesFetched { count } => if self.pending_readings == 0 && count == 0 {
                (self.to(UploaderPhase::Waiting, true), UploaderAction::Wait)
            } else {
                (self.to(UploaderPhase::Uploading, true), UploaderAction::UploadBatch)
            },
            UploaderEvent::StatusesFetchFailed => (self.to(UploaderPhase::Waiting, true), UploaderAction::Wait),
            UploaderEvent::BatchUploaded => (self.to(UploaderPhase::Waiting, true), UploaderAction::MarkUploaded),
            UploaderEvent::BatchFailed => (self.to(UploaderPhase::Waiting, false), UploaderAction::Wait),
        }
    }

    /// A fresh uploader: waiting, not connected, with a 1 s backoff.
    pub fn new() -> (u: Uploader)
        ensures
            u.wf(),
            u.phase == UploaderPhase::Waiting,
            !u.connected,
            u.backoff_secs == INITIAL_BACKOFF_SECS,
            u.pending_readings == 0,
    {
        Uploader {
            phase: UploaderPhase::Waiting,
            connected: false,
            backoff_secs: INITIAL_BACKOFF_SECS,
            pending_readings: 0,
        }
    }

    /// Whether the uploader, as it stands, expects `event`.
    pub fn expects(&self, event: UploaderEvent) -> (b: bool)
        ensures
            b == expects(self.phase, event),
    {
        match self.phase {
            UploaderPhase::Waiting => matches!(event, UploaderEvent::Tick | UploaderEvent::Cancelled),
            UploaderPhase::Connecting => matches!(
                event,
                UploaderEvent::ConnectSucceeded | UploaderEvent::ConnectFailed
            ),
            UploaderPhase::SendingStatus => matches!(
                event,
                UploaderEvent::StatusSent | UploaderEvent::StatusFailed
            ),
            UploaderPhase::ForwardingEvents => matches!(event, UploaderEvent::EventsForwarded),
            UploaderPhase::FetchingReadings => matches!(
                event,
                UploaderEvent::ReadingsFetched { .. } | UploaderEvent::ReadingsFetchFailed
            ),
            UploaderPhase::FetchingStatuses => matches!(
                event,
                UploaderEvent::StatusesFetched { .. } | UploaderEvent::StatusesFetchFailed
            ),
            UploaderPhase::Uploading => matches!(
                event,
                UploaderEvent::BatchUploaded | UploaderEvent::BatchFailed
            ),
            UploaderPhase::Stopped => false,
        }
    }

    /// Takes `event` (which the phase expects), moves to the next state and
    /// returns the action to perform.
    pub fn step(&mut self, event: UploaderEvent) -> (action: UploaderAction)
        requires
            old(self).wf(),
            expects(old(self).phase, event),
        ensures
            (*final(self), action) == old(self).next(event),
            final(self).wf(),
    {
        match event {
            UploaderEvent::Tick => {
                if self.connected {
                    self.phase = UploaderPhase::SendingStatus;
                    UploaderAction::SendStatus
                } else {
                    self.phase = UploaderPhase::Connecting;
                    UploaderAction::Connect
                }
            },
            UploaderEvent::Cancelled => {
                self.phase = UploaderPhase::Stopped;
                UploaderAction::Stop
            },
            UploaderEvent::ConnectSucceeded => {
                self.phase = UploaderPhase::SendingStatus;
                self.connected = true;
                self.backoff_secs = INITIAL_BACKOFF_SECS;
                UploaderAction::SendStatus
            },
            UploaderEvent::ConnectFailed => {
                let secs = self.backoff_secs;
                self.phase = UploaderPhase::Waiting;
                self.connected = false;
                self.backoff_secs = if secs * 2 < MAX_BACKOFF_SECS { secs * 2 } else { MAX_BACKOFF_SECS };
                UploaderAction::Sleep { secs }
            },
            UploaderEvent::StatusSent => {
                self.phase = UploaderPhase::ForwardingEvents;
                UploaderAction::ForwardEvents
            },
            UploaderEvent::StatusFailed => {
                self.phase = UploaderPhase::Waiting;
                self.connected = false;
                UploaderAction::Wait
            },
            UploaderEvent::EventsForwarded => {
                self.phase = UploaderPhase::FetchingReadings;
                UploaderAction::FetchReadings
            },
            UploaderEvent::ReadingsFetched { count } => {
                self.phase = UploaderPhase::FetchingStatuses;
                self.pending_readings = count;
                UploaderAction::FetchStatuses
            },
            UploaderEvent::ReadingsFetchFailed => {
                self.phase = UploaderPhase::Waiting;
                UploaderAction::Wait
            },
            UploaderEvent::StatusesFetched { count } => {
                if self.pending_readings == 0 && count == 0 {
                    self.phase = UploaderPhase::Waiting;
                    UploaderAction::Wait
                } else {
                    self.phase = UploaderPhase::Uploading;
                    UploaderAction::UploadBatch
                }
            },
            UploaderEvent::StatusesFetchFailed => {
                self.phase = UploaderPhase::Waiting;
                UploaderAction::Wait
            },
            UploaderEvent::BatchUploaded => {
                self.phase = UploaderPhase::Waiting;
                UploaderAction::MarkUploaded
            },
            UploaderEvent::BatchFailed => {
                self.phase = UploaderPhase::Waiting;
                self.connected = false;
                UploaderAction::Wait
            },
        }
    }
}

/// The heartbeat of dispatcher `d`: the number of pending events is
/// truncated to 32 bits, as a `u32` cast does.
pub open spec fn is_status_request(
    r: DispatcherStatusRequest,
    d: DispatcherId,
    connected_devices: u32,
    uptime_seconds: u64,
    pending_events: nat,
) -> bool {
    &&& r.dispatcher_id == d
    &&& r.connected_devices == connected_devices
    &&& r.uptime_seconds == uptime_seconds
    &&& r.pending_uploads == pending_events % 0x1_0000_0000
}

/// The heartbeat of dispatcher `d`, taken at `timestamp`.
pub fn status_request(
    d: DispatcherId,
    connected_devices: u32,
    uptime_seconds: u64,
    pending_events: usize,
    timestamp: i128,
) -> (r: DispatcherStatusRequest)
    ensures
        is_status_request(r, d, connected_devices, uptime_seconds, pending_events as nat),
        r.timestamp == timestamp,
{
    let wide: u64 = pending_events as u64;
    DispatcherStatusRequest {
        dispatcher_id: d,
        connected_devices,
        uptime_seconds,
        pending_uploads: (wide % 0x1_0000_0000) as u32,
        timestamp,
    }
}

/// The heartbeat of dispatcher `d`, taken now.
pub fn status_request_now(
    d: DispatcherId,
    connected_devices: u32,
    uptime_seconds: u64,
    pending_events: usize,
) -> (r: DispatcherStatusRequest)
    ensures
        is_status_request(r, d, connected_devices, uptime_seconds, pending_events as nat),
{
    status_request(d, connected_devices, uptime_seconds, pending_events, now_nanoseconds())
}

/// `r` forwards `event` for dispatcher `d`: a disconnection becomes a
/// disconnection request that names the device and the reason, and an
/// alert is passed on as it is.
pub open spec fn forwards(r: ForwardRequest, event: PrimeEvent, d: DispatcherId) -> bool {
    match event {
        PrimeEvent::DeviceDisconnection { device_id, reason } => {
            &&& r is Disconnection
            &&& r->Disconnection_0.device_id == device_id
            &&& r->Disconnection_0.dispatcher_id == d
            &&& r->Disconnection_0.reason == Some(reason)
        },
        PrimeEvent::Alert(a) => r == ForwardRequest::Alert(a),
    }
}

/// The request that forwards `event`, a disconnection being stamped with `timestamp`.
pub fn forward_request(event: PrimeEvent, d: DispatcherId, timestamp: i128) -> (r: ForwardRequest)
    ensures
        forwards(r, event, d),
        r matches ForwardRequest::Disconnection(q) ==> q.timestamp == timestamp,
{
    match event {
        PrimeEvent::DeviceDisconnection { device_id, reason } => {
            ForwardRequest::Disconnection(DeviceDisconnectionRequest {
                device_id,
                dispatcher_id: d,
                timestamp,
                reason: Some(reason),
            })
        },
        PrimeEvent::Alert(a) => ForwardRequest::Alert(a),
    }
}

/// The requests that forward the pending events, one each and in order;
/// each disconnection is stamped with the time at which it is forwarded.
pub fn forward_requests(events: Vec<PrimeEvent>, d: DispatcherId) -> (rs: Vec<ForwardRequest>)
    ensures
        rs.len() == events.len(),
        forall|i: int| 0 <= i < events.len() ==> #[trigger] forwards(rs[i], events[i], d),
{
    let ghost all = events@;
    let mut rest = events;
    let mut rs: Vec<ForwardRequest> = Vec::new();
    while rest.len() > 0
        invariant
            rs.len() + rest.len() == all.len(),
            rest@ == all.skip(rs.len() as int),
            forall|i: int| 0 <= i < rs.len() ==> #[trigger] forwards(rs[i], all[i], d),
        decreases rest.len(),
    {
        let ghost k = rs.len() as int;
        let event = rest.remove(0);
        assert(event == all[k]);
        let r = forward_request(event, d, now_nanoseconds());
        rs.push(r);
        assert(rest@ =~= all.skip(rs.len() as int));
    }
    rs
}

/// `2^n` seconds, capped at the longest pause.
pub open spec fn capped_doubling(n: nat) -> nat {
    if pow2(n) < MAX_BACKOFF_SECS { pow2(n) } else { MAX_BACKOFF_SECS as nat }
}

/// The uploader after `n` ticks on each of which connecting failed.
pub open spec fn after_failed_attempts(u: Uploader, n: nat) -> Uploader
    decreases n,
{
    if n == 0 {
        u
    } else {
        let before = after_failed_attempts(u, (n - 1) as nat);
        before.next(UploaderEvent::Tick).0.next(UploaderEvent::ConnectFailed).0
    }
}

/// Cancellation shuts the uploader down: waiting for the next tick, with
/// or without a connection, the uploader stops on cancellation and expects
/// nothing afterwards.
pub proof fn lemma_cancellation_stops(u: Uploader)
    requires
        u.wf(),
        u.phase == UploaderPhase::Waiting,
    ensures
        u.next(UploaderEvent::Cancelled).1 == UploaderAction::Stop,
        u.next(UploaderEvent::Cancelled).0.phase == UploaderPhase::Stopped,
        forall|e: UploaderEvent| !expects(u.next(UploaderEvent::Cancelled).0.phase, e),
{
}

/// Only a failed connection, a failed heartbeat or a failed batch upload
/// lose the connection: every other transition keeps a held connection. In
/// particular a failure to fetch from local storage keeps it, and the next
/// tick goes straight to the heartbeat.
pub proof fn lemma_only_prime_failures_drop_the_connection(u: Uploader, event: UploaderEvent)
    requires
        u.wf(),
        expects(u.phase, event),
        event != UploaderEvent::ConnectFailed,
        event != UploaderEvent::StatusFailed,
        event != UploaderEvent::BatchFailed,
    ensures
        u.connected ==> u.next(event).0.connected,
        (event == UploaderEvent::ReadingsFetchFailed || event == UploaderEvent::StatusesFetchFailed) ==> {
            &&& u.next(event).0.connected
            &&& u.next(event).0.phase == UploaderPhase::Waiting
            &&& u.next(event).1 == UploaderAction::Wait
            &&& u.next(event).0.next(UploaderEvent::Tick).1 == UploaderAction::SendStatus
        },
{
}

/// Every transition that the phase expects keeps the uploader's invariant.
pub proof fn lemma_next_keeps_wf(u: Uploader, event: UploaderEvent)
    requires
        u.wf(),
        expects(u.phase, event),
    ensures
        u.next(event).0.wf(),
{
}

/// While connecting keeps failing, the pause doubles from 1 s up to 60 s:
/// starting disconnected with a 1 s backoff, after `n` failed attempts the
/// uploader waits disconnected, the next attempt's failure makes it sleep
/// `min(2^n, 60)` seconds, and each attempt begins with a connection.
pub proof fn lemma_backoff_doubles_up_to_cap(u: Uploader, n: nat)
    requires
        u.wf(),
        u.phase == UploaderPhase::Waiting,
        !u.connected,
        u.backoff_secs == INITIAL_BACKOFF_SECS,
    ensures
        after_failed_attempts(u, n).wf(),
        after_failed_attempts(u, n).phase == UploaderPhase::Waiting,
        !after_failed_attempts(u, n).connected,
        after_failed_attempts(u, n).backoff_secs == capped_doubling(n),
        after_failed_attempts(u, n).next(UploaderEvent::Tick).1 == UploaderAction::Connect,
        after_failed_attempts(u, n).next(UploaderEvent::Tick).0.next(UploaderEvent::ConnectFailed).1
            == (UploaderAction::Sleep { secs: capped_doubling(n) as u64 }),
    decreases n,
{
    if n == 0 {
        lemma_pow0(2);
    } else {
        let m = (n - 1) as nat;
        lemma_backoff_doubles_up_to_cap(u, m);
        lemma_pow2_unfold(n);
        lemma_pow2_pos(m);
    }
}

/// A successful connection brings the backoff back to 1 s and goes on to
/// the status heartbeat.
pub proof fn lemma_connect_success_resets_backoff(u: Uploader)
    requires
        u.wf(),
        u.phase == UploaderPhase::Connecting,
    ensures
        u.next(UploaderEvent::ConnectSucceeded).0.backoff_secs == INITIAL_BACKOFF_SECS,
        u.next(UploaderEvent::ConnectSucceeded).0.connected,
        u.next(UploaderEvent::ConnectSucceeded).1 == UploaderAction::SendStatus,
{
}

/// A failed heartbeat or a failed batch drops the connection, so the next
/// tick connects again.
pub proof fn lemma_failure_reconnects_on_next_tick(u: Uploader, event: UploaderEvent)
    requires
        u.wf(),
        expects(u.phase, event),
        event == UploaderEvent::StatusFailed || event == UploaderEvent::BatchFailed,
    ensures
        u.next(event).0.phase == UploaderPhase::Waiting,
        !u.next(event).0.connected,
        u.next(event).0.next(UploaderEvent::Tick).1 == UploaderAction::Connect,
{
}

/// A connected uploader's tick goes straight to the heartbeat, and a batch
/// is uploaded exactly when the fetch found a reading or a status.
pub proof fn lemma_connected_tick_uploads_only_pending_data(u: Uploader, readings: usize, statuses: usize)
    requires
        u.wf(),
        u.phase == UploaderPhase::Waiting,
        u.connected,
    ensures
        ({
            let sending = u.next(UploaderEvent::Tick);
            let forwarding = sending.0.next(UploaderEvent::StatusSent);
            let fetching = forwarding.0.next(UploaderEvent::EventsForwarded);
            let fetched_readings = fetching.0.next(UploaderEvent::ReadingsFetched { count: readings });
            let fetched = fetched_readings.0.next(UploaderEvent::StatusesFetched { count: statuses });
            &&& sending.1 == UploaderAction::SendStatus
            &&& forwarding.1 == UploaderAction::ForwardEvents
            &&& fetching.1 == UploaderAction::FetchReadings
            &&& fetched_readings.1 == UploaderAction::FetchStatuses
            &&& (fetched.1 == UploaderAction::UploadBatch <==> (readings > 0 || statuses > 0))
            &&& (fetched.1 == UploaderAction::Wait <==> (readings == 0 && statuses == 0))
        }),
{
}

} // verus!
