use ersha_dispatch::domain::{DeviceId, H3Cell, HelloResponse, SensorId, DispatcherId};
use ersha_dispatch::registration::{
    device_registration, devices_endpoint, dispatchers_endpoint, hello_outcome, prime_http_url,
    registration_tally, MockDeviceInfo,
};

#[test]
fn http_url_swaps_the_rpc_port_for_the_http_port() {
    assert_eq!(prime_http_url("127.0.0.1:9000"), "http://127.0.0.1:8080");
    assert_eq!(prime_http_url("prime:9000"), "http://prime:8080");
    assert_eq!(prime_http_url("prime:7000"), "http://prime:7000");
    assert_eq!(prime_http_url("prime:90001"), "http://prime:80801");
}

#[test]
fn endpoints_extend_the_base_url() {
    assert_eq!(dispatchers_endpoint("http://p:8080"), "http://p:8080/api/dispatchers");
    assert_eq!(devices_endpoint("http://p:8080"), "http://p:8080/api/devices");
}

#[test]
fn device_record_pairs_sensors_with_kinds() {
    let device = MockDeviceInfo {
        device_id: DeviceId(0x41414141414141414141414141414141),
        location: H3Cell(99),
        sensor_ids: (0..7).map(|i| SensorId(i)).collect(),
    };
    let r = device_registration(&device);
    assert_eq!(r.id, "21850M2GA1850M2GA1850M2GA1");
    assert_eq!(r.location, 99);
    assert_eq!(r.kind, "sensor");
    assert_eq!(r.manufacturer, "ersha-mock");
    let kinds: Vec<&str> = r.sensors.iter().map(|s| s.kind.as_str()).collect();
    assert_eq!(kinds, vec!["soil_moisture", "soil_temp", "air_temp", "humidity", "rainfall"]);
    assert_eq!(r.sensors[1].id, "00000000000000000000000001");
}

#[test]
fn device_with_fewer_sensors_registers_only_those() {
    let device = MockDeviceInfo { device_id: DeviceId(1), location: H3Cell(1), sensor_ids: vec![SensorId(31)] };
    let r = device_registration(&device);
    assert_eq!(r.sensors.len(), 1);
    assert_eq!(r.sensors[0].id, "0000000000000000000000000Z");
    assert_eq!(r.sensors[0].kind, "soil_moisture");
}

#[test]
fn tally_counts_every_device_once() {
    assert_eq!(registration_tally(&vec![true, false, true, true]), (3, 1));
    assert_eq!(registration_tally(&vec![]), (0, 0));
}

#[test]
fn hello_answer_decides_registration() {
    assert_eq!(hello_outcome(HelloResponse::Accepted { dispatcher_id: DispatcherId(4) }), Ok(DispatcherId(4)));
    assert_eq!(
        hello_outcome(HelloResponse::Rejected { reason: "suspended".to_string() }),
        Err("suspended".to_string())
    );
}
