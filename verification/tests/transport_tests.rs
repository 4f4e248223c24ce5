use my_telemetry::{GrpcClient, MyTelemetryContext, TelemetryEvent, TelemetryEventTag};
use my_telemetry::grpc_writer::make_grpc_events;
use my_telemetry::telemetry_collector::TelemtryCollector;
use my_telemetry::telemetry_interface::TelemetryInterface;
use my_telemetry::MyTelemetryToConsole;

fn sample_event(id: i64) -> TelemetryEvent {
    TelemetryEvent {
        process_id: id,
        started: 10,
        finished: 20,
        data: "op".to_string(),
        success: Some("done".to_string()),
        fail: None,
        tags: None,
    }
}

#[test]
fn drain_returns_batch_once_then_none() {
    let mut collector = TelemtryCollector::new();
    collector.write(sample_event(1));
    collector.write(sample_event(2));
    let batch = collector.get_events().unwrap();
    assert_eq!(batch.len(), 2);
    assert_eq!(batch[0].process_id, 1);
    assert_eq!(batch[1].process_id, 2);
    assert!(collector.get_events().is_none());
}

#[test]
fn fresh_collector_has_nothing_pending() {
    let mut collector = TelemtryCollector::new();
    assert!(collector.get_events().is_none());
}

#[test]
fn writes_after_drain_land_in_next_batch() {
    let mut collector = TelemtryCollector::new();
    collector.write(sample_event(1));
    assert_eq!(collector.get_events().unwrap().len(), 1);
    collector.write_events(vec![sample_event(2), sample_event(3)]);
    collector.write(sample_event(4));
    let batch = collector.get_events().unwrap();
    let ids: Vec<i64> = batch.iter().map(|e| e.process_id).collect();
    assert_eq!(ids, vec![2, 3, 4]);
    assert!(collector.get_events().is_none());
}

#[test]
fn export_timeout_reports_failure_and_forces_reconnect() {
    let mut client = GrpcClient::new();
    assert!(!client.connected);

    // establish a healthy connection
    assert!(client.is_grpc(true, true));
    assert!(client.connected);

    // the upload times out: failure reported, cached connection dropped
    assert!(!client.write_events(true, false));
    assert!(!client.connected);

    // the next health check re-establishes from scratch
    assert!(client.is_grpc(true, true));
    assert!(client.connected);
}

#[test]
fn health_check_failures_clear_the_connection() {
    let mut client = GrpcClient::new();
    // cannot even connect
    assert!(!client.is_grpc(false, false));
    assert!(!client.connected);
    // connects but the ping times out: not cached
    assert!(!client.is_grpc(true, false));
    assert!(!client.connected);
    // healthy connection, then a failing ping on the cached one clears it
    assert!(client.is_grpc(true, true));
    assert!(!client.is_grpc(false, false));
    assert!(!client.connected);
}

#[test]
fn export_reuses_cached_connection() {
    let mut client = GrpcClient::new();
    assert!(client.is_grpc(true, true));
    // connect_ok is irrelevant while a connection is cached
    assert!(client.write_events(false, true));
    assert!(client.connected);
}

#[test]
fn wire_records_carry_service_label_and_fields() {
    let mut event = sample_event(42);
    event.tags = Some(vec![TelemetryEventTag {
        key: "k".to_string(),
        value: "v".to_string(),
    }]);
    let wire = make_grpc_events("svcA", vec![event, sample_event(43)]);
    assert_eq!(wire.len(), 2);
    assert_eq!(wire[0].process_id, 42);
    assert_eq!(wire[0].started_at, 10);
    assert_eq!(wire[0].finished_at, 20);
    assert_eq!(wire[0].service_name, "svcA");
    assert_eq!(wire[0].event_data, "op");
    assert_eq!(wire[0].success, Some("done".to_string()));
    assert_eq!(wire[0].fail, None);
    assert_eq!(wire[0].tags.len(), 1);
    assert_eq!(wire[0].tags[0].key, "k");
    assert_eq!(wire[0].tags[0].value, "v");
    // an absent tag list transmits as an empty one
    assert_eq!(wire[1].tags.len(), 0);
    assert_eq!(wire[1].service_name, "svcA");
}

#[test]
fn end_to_end_single_tracked_operation() {
    // create context, track an operation, buffer through the gateway,
    // drain, and convert for export
    let ctx = MyTelemetryContext::restore(100);
    let mut gw = TelemetryInterface::new();
    gw.attach_sink();

    let mut tracker = ctx.start_event_tracking("op".to_string());
    tracker.set_ok_result("done".to_string());
    let events = tracker.complete(gw.is_telemetry_set_up(), 555);
    gw.write_telemetry_events(events);

    let batch = gw.telemetry_collector.get_events().unwrap();
    assert_eq!(batch.len(), 1);
    assert_eq!(batch[0].process_id, 100);
    assert_eq!(batch[0].data, "op");
    assert_eq!(batch[0].success, Some("done".to_string()));
    assert_eq!(batch[0].fail, None);
    assert!(gw.telemetry_collector.get_events().is_none());

    let wire = make_grpc_events("svcA", batch);
    assert_eq!(wire.len(), 1);
    assert_eq!(wire[0].service_name, "svcA");
    assert_eq!(wire[0].process_id, 100);
    assert_eq!(wire[0].event_data, "op");
    assert_eq!(wire[0].success, Some("done".to_string()));
}

#[test]
fn gateway_buffers_events_once_configured() {
    let mut gw = TelemetryInterface::new();
    gw.write_telemetry_event(sample_event(4));
    assert!(gw.telemetry_collector.get_events().is_none());
    gw.attach_sink();
    gw.write_telemetry_event(sample_event(5));
    let batch = gw.telemetry_collector.get_events().unwrap();
    assert_eq!(batch.len(), 1);
    assert_eq!(batch[0].process_id, 5);
}

#[test]
fn console_line_has_exact_format() {
    let sink = MyTelemetryToConsole {};
    let line = sink.format_track_line(7, 10, 20, "op", true, 200);
    assert_eq!(
        line,
        "MyTelemetryToConsole: process_id: 7, started: 10, finished: 20, data: op, success: true, status_code: 200"
    );
    let line = sink.format_track_line(-1, 0, 0, "x", false, -7);
    assert_eq!(
        line,
        "MyTelemetryToConsole: process_id: -1, started: 0, finished: 0, data: x, success: false, status_code: -7"
    );
}
