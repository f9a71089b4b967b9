//! Registration of the dispatcher and its simulated devices with the
//! central server's HTTP API: the URL derived from the RPC address, the
//! records to send, and the count of outcomes. The registration is best
//! effort: a failure is counted, never fatal.

use vstd::prelude::*;
use vstd::string::*;
use crate::domain::{DeviceId, DispatcherId, H3Cell, HelloResponse, SensorId};
use crate::text::{concat_str, replace_all, replace_all_str};
use crate::ulid_codec::{encode_ulid, ulid_text};

verus! {

/// The HTTP base URL of the central server: `http://` and its RPC address,
/// with every `:9000` replaced by `:8080`.
pub open spec fn prime_http_url_text(rpc_addr: Seq<char>) -> Seq<char> {
    replace_all("http://"@ + rpc_addr, ":9000"@, ":8080"@)
}

/// The HTTP base URL of the central server for its RPC address.
pub fn prime_http_url(rpc_addr: &str) -> (url: String)
    ensures
        url@ == prime_http_url_text(rpc_addr@),
{
    let with_scheme = concat_str("http://", rpc_addr);
    proof { reveal_strlit(":9000"); }
    replace_all_str(with_scheme.as_str(), ":9000", ":8080")
}

/// The endpoint that registers dispatchers.
pub fn dispatchers_endpoint(base: &str) -> (url: String)
    ensures
        url@ == base@ + "/api/dispatchers"@,
{
    concat_str(base, "/api/dispatchers")
}

/// The endpoint that registers devices.
pub fn devices_endpoint(base: &str) -> (url: String)
    ensures
        url@ == base@ + "/api/devices"@,
{
    concat_str(base, "/api/devices")
}

/// A simulated device: its identifier, location and sensors, the sensors in
/// the order in which the device creates them.
#[derive(Clone, Debug)]
pub struct MockDeviceInfo {
    pub device_id: DeviceId,
    pub location: H3Cell,
    pub sensor_ids: Vec<SensorId>,
}

/// The kinds of a simulated device's sensors, in the order in which it
/// creates them.
pub open spec fn sensor_kinds() -> Seq<Seq<char>> {
    seq!["soil_moisture"@, "soil_temp"@, "air_temp"@, "humidity"@, "rainfall"@]
}

/// The number of sensor kinds a simulated device has.
pub const SENSOR_KIND_COUNT: usize = 5;

/// The kind of a simulated device's sensor at position `i`.
pub fn sensor_kind(i: usize) -> (kind: &'static str)
    requires
        i < SENSOR_KIND_COUNT,
    ensures
        kind@ == sensor_kinds()[i as int],
{
    if i == 0 {
        "soil_moisture"
    } else if i == 1 {
        "soil_temp"
    } else if i == 2 {
        "air_temp"
    } else if i == 3 {
        "humidity"
    } else {
        "rainfall"
    }
}

/// The registration record of a dispatcher.
#[derive(Clone, Debug)]
pub struct DispatcherRegistration {
    pub id: String,
    pub location: u64,
}

/// The registration record of one sensor.
#[derive(Clone, Debug)]
pub struct SensorRegistration {
    pub id: String,
    pub kind: String,
}

/// The registration record of a simulated device.
#[derive(Clone, Debug)]
pub struct DeviceRegistration {
    pub id: String,
    pub location: u64,
    pub kind: String,
    pub manufacturer: String,
    pub sensors: Vec<SensorRegistration>,
}

/// The registration record of dispatcher `d` at `location`.
pub fn dispatcher_registration(d: DispatcherId, location: H3Cell) -> (r: DispatcherRegistration)
    ensures
        r.id@ == ulid_text(d.0),
        r.location == location.0,
{
    DispatcherRegistration { id: encode_ulid(d.0), location: location.0 }
}

/// `r` registers `device`: its identifier's text, its location, the kind
/// "sensor", the manufacturer "ersha-mock", and its sensors paired in order
/// with the sensor kinds, as far as both go.
pub open spec fn registers_device(r: DeviceRegistration, device: MockDeviceInfo) -> bool {
    let n: nat = device.sensor_ids.len() as nat;
    let paired: nat = if n < sensor_kinds().len() { n } else { sensor_kinds().len() };
    &&& r.id@ == ulid_text(device.device_id.0)
    &&& r.location == device.location.0
    &&& r.kind@ == "sensor"@
    &&& r.manufacturer@ == "ersha-mock"@
    &&& r.sensors.len() == paired
    &&& forall|i: int| 0 <= i < paired ==> {
        &&& (#[trigger] r.sensors[i]).id@ == ulid_text(device.sensor_ids[i].0)
        &&& r.sensors[i].kind@ == sensor_kinds()[i]
    }
}

/// The registration record of a simulated device.
pub fn device_registration(device: &MockDeviceInfo) -> (r: DeviceRegistration)
    ensures
        registers_device(r, *device),
{
    let n = device.sensor_ids.len();
    let paired = if n < SENSOR_KIND_COUNT { n } else { SENSOR_KIND_COUNT };
    let mut sensors: Vec<SensorRegistration> = Vec::new();
    let mut i: usize = 0;
    while i < paired
        invariant
            n == device.sensor_ids.len(),
            paired <= n,
            paired <= SENSOR_KIND_COUNT,
            0 <= i <= paired,
            sensors.len() == i,
            forall|k: int| 0 <= k < i ==> {
                &&& (#[trigger] sensors[k]).id@ == ulid_text(device.sensor_ids[k].0)
                &&& sensors[k].kind@ == sensor_kinds()[k]
            },
        decreases paired - i,
    {
        let sensor = device.sensor_ids[i];
        let kind = sensor_kind(i);
        sensors.push(SensorRegistration { id: encode_ulid(sensor.0), kind: String::from_str(kind) });
        i = i + 1;
    }
    DeviceRegistration {
        id: encode_ulid(device.device_id.0),
        location: device.location.0,
        kind: String::from_str("sensor"),
        manufacturer: String::from_str("ersha-mock"),
        sensors,
    }
}

/// The number of `true` entries in `outcomes`.
pub open spec fn count_true(outcomes: Seq<bool>) -> nat
    decreases outcomes.len(),
{
    if outcomes.len() == 0 {
        0
    } else {
        count_true(outcomes.drop_last()) + if outcomes.last() { 1nat } else { 0nat }
    }
}

/// How many device registrations succeeded and how many failed, given
/// whether each one did.
pub fn registration_tally(outcomes: &Vec<bool>) -> (counts: (u32, u32))
    requires
        outcomes.len() <= u32::MAX,
    ensures
        counts.0 == count_true(outcomes@),
        counts.0 + counts.1 == outcomes.len(),
{
    let mut registered: u32 = 0;
    let mut failed: u32 = 0;
    let mut i: usize = 0;
    while i < outcomes.len()
        invariant
            outcomes.len() <= u32::MAX,
            0 <= i <= outcomes.len(),
            registered == count_true(outcomes@.take(i as int)),
            registered + failed == i,
        decreases outcomes.len() - i,
    {
        assert(outcomes@.take(i + 1).drop_last() =~= outcomes@.take(i as int));
        if outcomes[i] {
            registered = registered + 1;
        } else {
            failed = failed + 1;
        }
        i = i + 1;
    }
    assert(outcomes@.take(outcomes.len() as int) =~= outcomes@);
    (registered, failed)
}

/// What the central server's answer to a registration means: the
/// dispatcher's identifier when accepted, the reason when rejected.
pub fn hello_outcome(response: HelloResponse) -> (res: Result<DispatcherId, String>)
    ensures
        response matches HelloResponse::Accepted { dispatcher_id } ==> res == Ok::<DispatcherId, String>(dispatcher_id),
        response matches HelloResponse::Rejected { reason } ==> res == Err::<DispatcherId, String>(reason),
{
    match response {
        HelloResponse::Accepted { dispatcher_id } => Ok(dispatcher_id),
        HelloResponse::Rejected { reason } => Err(reason),
    }
}

} // verus!
