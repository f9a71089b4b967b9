use ersha_dispatch::alerts::{alerts_for_status, battery_alert_message, sensor_alert_message};
use ersha_dispatch::domain::{
    AlertSeverity, AlertType, DeviceId, DeviceStatus, DispatcherId, Percentage, SensorId, SensorState,
    SensorStatus, StatusId,
};

fn status(battery: u8, sensors: Vec<(u128, SensorState)>) -> DeviceStatus {
    DeviceStatus {
        id: StatusId(1),
        device_id: DeviceId(42),
        battery_percent: Percentage(battery),
        sensor_statuses: sensors
            .into_iter()
            .map(|(id, state)| SensorStatus { sensor_id: SensorId(id), state })
            .collect(),
    }
}

#[test]
fn healthy_status_raises_nothing() {
    let s = status(10, vec![(1, SensorState::Active), (2, SensorState::Inactive)]);
    assert!(alerts_for_status(&s, DispatcherId(9)).is_empty());
}

#[test]
fn battery_below_ten_percent_raises_a_critical_alert() {
    let s = status(9, vec![]);
    let alerts = alerts_for_status(&s, DispatcherId(9));
    assert_eq!(alerts.len(), 1);
    let a = &alerts[0];
    assert_eq!(a.dispatcher_id, DispatcherId(9));
    assert_eq!(a.device_id, Some(DeviceId(42)));
    assert_eq!(a.severity, AlertSeverity::Critical);
    assert_eq!(a.alert_type, AlertType::CriticalBattery);
    assert_eq!(a.message, "Device battery critically low: 9%");
}

#[test]
fn each_faulty_sensor_raises_a_warning_in_order() {
    let s = status(3, vec![(5, SensorState::Faulty), (6, SensorState::Active), (7, SensorState::Faulty)]);
    let alerts = alerts_for_status(&s, DispatcherId(9));
    assert_eq!(alerts.len(), 3);
    assert_eq!(alerts[0].alert_type, AlertType::CriticalBattery);
    assert_eq!(alerts[1].severity, AlertSeverity::Warning);
    assert_eq!(alerts[1].alert_type, AlertType::SensorFailure);
    assert_eq!(alerts[1].message, "Sensor SensorId(Ulid(5)) reported faulty state");
    assert_eq!(alerts[2].message, "Sensor SensorId(Ulid(7)) reported faulty state");
    assert_ne!(alerts[1].id, alerts[2].id);
}

#[derive(Debug)]
struct Ulid(u128);

#[derive(Debug)]
struct SensorIdText(Ulid);

#[test]
fn alert_texts() {
    assert_eq!(battery_alert_message(0), "Device battery critically low: 0%");
    assert_eq!(battery_alert_message(100), "Device battery critically low: 100%");
    let v = 0x41414141414141414141414141414141u128;
    let debug = format!("{:?}", SensorIdText(Ulid(v))).replace("SensorIdText", "SensorId");
    assert_eq!(sensor_alert_message(SensorId(v)), format!("Sensor {} reported faulty state", debug));
}
