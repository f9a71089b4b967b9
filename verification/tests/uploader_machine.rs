use ersha_dispatch::domain::{
    AlertId, AlertRequest, AlertSeverity, AlertType, DeviceId, DisconnectionReason, DispatcherId,
    ForwardRequest, PrimeEvent,
};
use ersha_dispatch::uploader::{
    forward_request, forward_requests, status_request, Uploader, UploaderAction, UploaderEvent,
    UploaderPhase,
};

fn run(u: &mut Uploader, e: UploaderEvent) -> UploaderAction {
    assert!(u.expects(e));
    u.step(e)
}

#[test]
fn failed_connections_back_off_up_to_a_minute() {
    let mut u = Uploader::new();
    let mut sleeps = Vec::new();
    for _ in 0..8 {
        assert_eq!(run(&mut u, UploaderEvent::Tick), UploaderAction::Connect);
        match run(&mut u, UploaderEvent::ConnectFailed) {
            UploaderAction::Sleep { secs } => sleeps.push(secs),
            other => panic!("expected a sleep, got {:?}", other),
        }
    }
    assert_eq!(sleeps, vec![1, 2, 4, 8, 16, 32, 60, 60]);
}

#[test]
fn a_successful_connection_resets_the_backoff() {
    let mut u = Uploader::new();
    run(&mut u, UploaderEvent::Tick);
    run(&mut u, UploaderEvent::ConnectFailed);
    run(&mut u, UploaderEvent::Tick);
    run(&mut u, UploaderEvent::ConnectFailed);
    assert_eq!(u.backoff_secs, 4);
    run(&mut u, UploaderEvent::Tick);
    assert_eq!(run(&mut u, UploaderEvent::ConnectSucceeded), UploaderAction::SendStatus);
    assert_eq!(u.backoff_secs, 1);
    assert!(u.connected);
}

#[test]
fn a_full_tick_uploads_then_marks() {
    let mut u = Uploader::new();
    run(&mut u, UploaderEvent::Tick);
    run(&mut u, UploaderEvent::ConnectSucceeded);
    assert_eq!(run(&mut u, UploaderEvent::StatusSent), UploaderAction::ForwardEvents);
    assert_eq!(run(&mut u, UploaderEvent::EventsForwarded), UploaderAction::FetchReadings);
    assert_eq!(run(&mut u, UploaderEvent::ReadingsFetched { count: 3 }), UploaderAction::FetchStatuses);
    assert_eq!(run(&mut u, UploaderEvent::StatusesFetched { count: 0 }), UploaderAction::UploadBatch);
    assert_eq!(run(&mut u, UploaderEvent::BatchUploaded), UploaderAction::MarkUploaded);
    assert_eq!(u.phase, UploaderPhase::Waiting);
    assert_eq!(run(&mut u, UploaderEvent::Tick), UploaderAction::SendStatus);
}

#[test]
fn nothing_pending_means_no_upload() {
    let mut u = Uploader::new();
    run(&mut u, UploaderEvent::Tick);
    run(&mut u, UploaderEvent::ConnectSucceeded);
    run(&mut u, UploaderEvent::StatusSent);
    run(&mut u, UploaderEvent::EventsForwarded);
    run(&mut u, UploaderEvent::ReadingsFetched { count: 0 });
    assert_eq!(run(&mut u, UploaderEvent::StatusesFetched { count: 0 }), UploaderAction::Wait);
}

#[test]
fn failed_heartbeat_or_batch_reconnects_next_tick() {
    let mut u = Uploader::new();
    run(&mut u, UploaderEvent::Tick);
    run(&mut u, UploaderEvent::ConnectSucceeded);
    assert_eq!(run(&mut u, UploaderEvent::StatusFailed), UploaderAction::Wait);
    assert_eq!(run(&mut u, UploaderEvent::Tick), UploaderAction::Connect);
    run(&mut u, UploaderEvent::ConnectSucceeded);
    run(&mut u, UploaderEvent::StatusSent);
    run(&mut u, UploaderEvent::EventsForwarded);
    run(&mut u, UploaderEvent::ReadingsFetched { count: 0 });
    run(&mut u, UploaderEvent::StatusesFetched { count: 2 });
    assert_eq!(run(&mut u, UploaderEvent::BatchFailed), UploaderAction::Wait);
    assert!(!u.connected);
    assert_eq!(run(&mut u, UploaderEvent::Tick), UploaderAction::Connect);
}

#[test]
fn fetch_failures_keep_the_connection() {
    let mut u = Uploader::new();
    run(&mut u, UploaderEvent::Tick);
    run(&mut u, UploaderEvent::ConnectSucceeded);
    run(&mut u, UploaderEvent::StatusSent);
    run(&mut u, UploaderEvent::EventsForwarded);
    assert_eq!(run(&mut u, UploaderEvent::ReadingsFetchFailed), UploaderAction::Wait);
    assert_eq!(run(&mut u, UploaderEvent::Tick), UploaderAction::SendStatus);
}

#[test]
fn cancellation_stops_and_nothing_follows() {
    let mut u = Uploader::new();
    assert_eq!(run(&mut u, UploaderEvent::Cancelled), UploaderAction::Stop);
    assert!(!u.expects(UploaderEvent::Tick));
}

#[test]
fn unexpected_events_are_reported() {
    let u = Uploader::new();
    assert!(!u.expects(UploaderEvent::BatchUploaded));
    assert!(!u.expects(UploaderEvent::ConnectSucceeded));
}

#[test]
fn heartbeat_truncates_pending_count_to_32_bits() {
    let r = status_request(DispatcherId(1), 3, 99, 5, 17);
    assert_eq!(r.pending_uploads, 5);
    assert_eq!(r.connected_devices, 3);
    assert_eq!(r.uptime_seconds, 99);
    assert_eq!(r.timestamp, 17);
    if usize::BITS == 64 {
        let big = (1usize << 32) + 7;
        assert_eq!(status_request(DispatcherId(1), 0, 0, big, 0).pending_uploads, 7);
    }
}

fn alert(id: u128) -> AlertRequest {
    AlertRequest {
        id: AlertId(id),
        dispatcher_id: DispatcherId(1),
        device_id: Some(DeviceId(2)),
        severity: AlertSeverity::Info,
        alert_type: AlertType::SensorFailure,
        message: "m".to_string(),
        timestamp: 5,
    }
}

#[test]
fn events_are_forwarded_one_each_in_order() {
    let events = vec![
        PrimeEvent::DeviceDisconnection { device_id: DeviceId(8), reason: DisconnectionReason::Timeout },
        PrimeEvent::Alert(alert(11)),
    ];
    let rs = forward_requests(events, DispatcherId(3));
    assert_eq!(rs.len(), 2);
    match &rs[0] {
        ForwardRequest::Disconnection(d) => {
            assert_eq!(d.device_id, DeviceId(8));
            assert_eq!(d.dispatcher_id, DispatcherId(3));
            assert_eq!(d.reason, Some(DisconnectionReason::Timeout));
        }
        _ => panic!("first request forwards the disconnection"),
    }
    match &rs[1] {
        ForwardRequest::Alert(a) => assert_eq!(a.id, AlertId(11)),
        _ => panic!("second request forwards the alert"),
    }
    match forward_request(
        PrimeEvent::DeviceDisconnection { device_id: DeviceId(1), reason: DisconnectionReason::ConnectionClosed },
        DispatcherId(2),
        123,
    ) {
        ForwardRequest::Disconnection(d) => assert_eq!(d.timestamp, 123),
        _ => panic!("a disconnection is forwarded as one"),
    }
}
