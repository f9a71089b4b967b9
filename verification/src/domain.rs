//! The values that flow through the gateway: identifiers, device statuses
//! reported by edge devices, and the requests sent on to the central server.

use vstd::prelude::*;

verus! {

/// Identifies a dispatcher (a ULID, as its 128-bit value).
#[derive(Clone, Copy, Debug, PartialEq, Eq, Structural)]
pub struct DispatcherId(pub u128);

/// Identifies an edge device (a ULID).
#[derive(Clone, Copy, Debug, PartialEq, Eq, Structural)]
pub struct DeviceId(pub u128);

/// Identifies a sensor of an edge device (a ULID).
#[derive(Clone, Copy, Debug, PartialEq, Eq, Structural)]
pub struct SensorId(pub u128);

/// Identifies an alert (a ULID).
#[derive(Clone, Copy, Debug, PartialEq, Eq, Structural)]
pub struct AlertId(pub u128);

/// Identifies a device status report (a ULID).
#[derive(Clone, Copy, Debug, PartialEq, Eq, Structural)]
pub struct StatusId(pub u128);

/// Identifies a sensor reading (a ULID).
#[derive(Clone, Copy, Debug, PartialEq, Eq, Structural)]
pub struct ReadingId(pub u128);

/// Identifies an uploaded batch (a ULID).
#[derive(Clone, Copy, Debug, PartialEq, Eq, Structural)]
pub struct BatchId(pub u128);

/// An H3 cell index giving a geographic area.
#[derive(Clone, Copy, Debug, PartialEq, Eq, Structural)]
pub struct H3Cell(pub u64);

/// A percentage, such as a battery level.
#[derive(Clone, Copy, Debug, PartialEq, Eq, Structural)]
pub struct Percentage(pub u8);

/// The state a sensor reports.
#[derive(Clone, Copy, Debug, PartialEq, Eq, Structural)]
pub enum SensorState {
    Active,
    Inactive,
    Faulty,
}

/// What a device reports of one of its sensors.
#[derive(Clone, Copy, Debug, PartialEq, Eq, Structural)]
pub struct SensorStatus {
    pub sensor_id: SensorId,
    pub state: SensorState,
}

/// A status report of an edge device, as far as the gateway reads it.
#[derive(Clone, Debug)]
pub struct DeviceStatus {
    pub id: StatusId,
    pub device_id: DeviceId,
    pub battery_percent: Percentage,
    pub sensor_statuses: Vec<SensorStatus>,
}

/// How severe an alert is.
#[derive(Clone, Copy, Debug, PartialEq, Eq, Structural)]
pub enum AlertSeverity {
    Info,
    Warning,
    Critical,
}

/// What an alert is about.
#[derive(Clone, Copy, Debug, PartialEq, Eq, Structural)]
pub enum AlertType {
    CriticalBattery,
    SensorFailure,
}

/// An alert sent to the central server. The timestamp is in nanoseconds
/// since the Unix epoch.
#[derive(Clone, Debug)]
pub struct AlertRequest {
    pub id: AlertId,
    pub dispatcher_id: DispatcherId,
    pub device_id: Option<DeviceId>,
    pub severity: AlertSeverity,
    pub alert_type: AlertType,
    pub message: String,
    pub timestamp: i128,
}

/// Why a device was disconnected.
#[derive(Clone, Copy, Debug, PartialEq, Eq, Structural)]
pub enum DisconnectionReason {
    Timeout,
    ConnectionClosed,
    ProtocolError,
}

/// An event waiting to be forwarded to the central server.
#[derive(Clone, Debug)]
pub enum PrimeEvent {
    DeviceDisconnection { device_id: DeviceId, reason: DisconnectionReason },
    Alert(AlertRequest),
}

/// Tells the central server that a device disconnected.
#[derive(Clone, Copy, Debug, PartialEq, Eq, Structural)]
pub struct DeviceDisconnectionRequest {
    pub device_id: DeviceId,
    pub dispatcher_id: DispatcherId,
    pub timestamp: i128,
    pub reason: Option<DisconnectionReason>,
}

/// The heartbeat a dispatcher sends before each upload.
#[derive(Clone, Copy, Debug, PartialEq, Eq, Structural)]
pub struct DispatcherStatusRequest {
    pub dispatcher_id: DispatcherId,
    pub connected_devices: u32,
    pub uptime_seconds: u64,
    pub pending_uploads: u32,
    pub timestamp: i128,
}

/// A request that forwards one pending event.
#[derive(Clone, Debug)]
pub enum ForwardRequest {
    Disconnection(DeviceDisconnectionRequest),
    Alert(AlertRequest),
}

/// The central server's answer to a dispatcher's registration.
#[derive(Clone, Debug)]
pub enum HelloResponse {
    Accepted { dispatcher_id: DispatcherId },
    Rejected { reason: String },
}

} // verus!
