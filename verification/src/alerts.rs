//! The alerts that a device status report raises: one critical alert when
//! the battery is below 10%, and one warning per sensor reported faulty.

use vstd::prelude::*;
use vstd::string::*;
use crate::domain::{
    AlertId, AlertRequest, AlertSeverity, AlertType, DeviceId, DeviceStatus, DispatcherId, SensorId,
    SensorState, SensorStatus,
};
use crate::text::{decimal, push_decimal};
use crate::ulid_codec::{fresh_ulid, now_nanoseconds};

verus! {

/// Whether a status report's battery level calls for a critical alert.
pub open spec fn battery_is_critical(status: DeviceStatus) -> bool {
    status.battery_percent.0 < 10
}

/// The text of a low-battery alert.
pub open spec fn battery_alert_text(percent: u8) -> Seq<char> {
    "Device battery critically low: "@ + decimal(percent as nat) + "%"@
}

/// The text of a sensor-failure alert; it names the sensor as the derived
/// `Debug` of its identifier writes it.
pub open spec fn sensor_alert_text(sensor: SensorId) -> Seq<char> {
    "Sensor SensorId(Ulid("@ + decimal(sensor.0 as nat) + ")) reported faulty state"@
}

/// The sensors reported faulty, in the order of the report.
pub open spec fn faulty_sensors(statuses: Seq<SensorStatus>) -> Seq<SensorId>
    decreases statuses.len(),
{
    if statuses.len() == 0 {
        Seq::empty()
    } else {
        let rest = faulty_sensors(statuses.drop_last());
        if statuses.last().state == SensorState::Faulty {
            rest.push(statuses.last().sensor_id)
        } else {
            rest
        }
    }
}

/// `a` is the low-battery alert of `status`, raised by dispatcher `d`.
pub open spec fn is_battery_alert(a: AlertRequest, status: DeviceStatus, d: DispatcherId) -> bool {
    &&& a.dispatcher_id == d
    &&& a.device_id == Some(status.device_id)
    &&& a.severity == AlertSeverity::Critical
    &&& a.alert_type == AlertType::CriticalBattery
    &&& a.message@ == battery_alert_text(status.battery_percent.0)
}

/// `a` is the failure alert of `sensor` on `device`, raised by dispatcher `d`.
pub open spec fn is_sensor_alert(a: AlertRequest, sensor: SensorId, device: DeviceId, d: DispatcherId) -> bool {
    &&& a.dispatcher_id == d
    &&& a.device_id == Some(device)
    &&& a.severity == AlertSeverity::Warning
    &&& a.alert_type == AlertType::SensorFailure
    &&& a.message@ == sensor_alert_text(sensor)
}

/// How many alerts a status report raises.
pub open spec fn alert_count(status: DeviceStatus) -> nat {
    (if battery_is_critical(status) { 1nat } else { 0nat }) + faulty_sensors(status.sensor_statuses@).len()
}

/// `alerts` are the alerts that `status` raises, in order: the low-battery
/// alert first where there is one, then one per faulty sensor.
pub open spec fn are_status_alerts(alerts: Seq<AlertRequest>, status: DeviceStatus, d: DispatcherId) -> bool {
    let offset: int = if battery_is_critical(status) { 1 } else { 0 };
    let faulty = faulty_sensors(status.sensor_statuses@);
    &&& alerts.len() == alert_count(status)
    &&& battery_is_critical(status) ==> is_battery_alert(alerts[0], status, d)
    &&& forall|j: int| 0 <= j < faulty.len() ==>
        #[trigger] is_sensor_alert(alerts[offset + j], faulty[j], status.device_id, d)
}

/// The text of a low-battery alert.
pub fn battery_alert_message(percent: u8) -> (m: String)
    ensures
        m@ == battery_alert_text(percent),
{
    let mut m = String::from_str("Device battery critically low: ");
    push_decimal(&mut m, percent as u128);
    m.append("%");
    m
}

/// The text of a sensor-failure alert.
pub fn sensor_alert_message(sensor: SensorId) -> (m: String)
    ensures
        m@ == sensor_alert_text(sensor),
{
    let mut m = String::from_str("Sensor SensorId(Ulid(");
    push_decimal(&mut m, sensor.0);
    m.append(")) reported faulty state");
    m
}

/// The low-battery alert of `status`, with the given identifier and time.
pub fn battery_alert(status: &DeviceStatus, dispatcher_id: DispatcherId, id: AlertId, timestamp: i128) -> (a: AlertRequest)
    ensures
        is_battery_alert(a, *status, dispatcher_id),
        a.id == id,
        a.timestamp == timestamp,
{
    AlertRequest {
        id,
        dispatcher_id,
        device_id: Some(status.device_id),
        severity: AlertSeverity::Critical,
        alert_type: AlertType::CriticalBattery,
        message: battery_alert_message(status.battery_percent.0),
        timestamp,
    }
}

/// The failure alert of `sensor` on `device`, with the given identifier and time.
pub fn sensor_alert(
    sensor: SensorId,
    device: DeviceId,
    dispatcher_id: DispatcherId,
    id: AlertId,
    timestamp: i128,
) -> (a: AlertRequest)
    ensures
        is_sensor_alert(a, sensor, device, dispatcher_id),
        a.id == id,
        a.timestamp == timestamp,
{
    AlertRequest {
        id,
        dispatcher_id,
        device_id: Some(device),
        severity: AlertSeverity::Warning,
        alert_type: AlertType::SensorFailure,
        message: sensor_alert_message(sensor),
        timestamp,
    }
}

/// The alerts that a status report raises, each with a fresh identifier and
/// the current time.
pub fn alerts_for_status(status: &DeviceStatus, dispatcher_id: DispatcherId) -> (alerts: Vec<AlertRequest>)
    ensures
        are_status_alerts(alerts@, *status, dispatcher_id),
{
    let mut alerts: Vec<AlertRequest> = Vec::new();
    if status.battery_percent.0 < 10 {
        let id = AlertId(fresh_ulid());
        let timestamp = now_nanoseconds();
        alerts.push(battery_alert(status, dispatcher_id, id, timestamp));
    }
    let ghost offset: int = if battery_is_critical(*status) { 1 } else { 0 };
    let ghost s = status.sensor_statuses@;
    let n = status.sensor_statuses.len();
    let mut i: usize = 0;
    while i < n
        invariant
            n == s.len(),
            s == status.sensor_statuses@,
            0 <= i <= n,
            offset == (if battery_is_critical(*status) { 1int } else { 0int }),
            alerts.len() == offset + faulty_sensors(s.take(i as int)).len(),
            battery_is_critical(*status) ==> is_battery_alert(alerts@[0], *status, dispatcher_id),
            forall|j: int| 0 <= j < faulty_sensors(s.take(i as int)).len() ==>
                #[trigger] is_sensor_alert(
                    alerts@[offset + j],
                    faulty_sensors(s.take(i as int))[j],
                    status.device_id,
                    dispatcher_id,
                ),
        decreases n - i,
    {
        let sensor_status = status.sensor_statuses[i];
        assert(s.take(i + 1).drop_last() =~= s.take(i as int));
        assert(s.take(i + 1).last() == sensor_status);
        if sensor_status.state == SensorState::Faulty {
            let id = AlertId(fresh_ulid());
            let timestamp = now_nanoseconds();
            let a = sensor_alert(sensor_status.sensor_id, status.device_id, dispatcher_id, id, timestamp);
            alerts.push(a);
        }
        i = i + 1;
    }
    assert(s.take(n as int) =~= s);
    alerts
}

} // verus!
