use my_telemetry::{EventDurationTracker, MyTelemetryContext, TelemetryEventTagsBuilder};
use my_telemetry::telemetry_interface::TelemetryInterface;

#[test]
fn failure_wins_over_earlier_success() {
    let ctx = MyTelemetryContext::restore(1);
    let mut tracker = ctx.start_event_tracking("op".to_string());
    tracker.set_ok_result("all good".to_string());
    tracker.set_fail_result("x".to_string());
    let events = tracker.complete(true, 50);
    assert_eq!(events.len(), 1);
    assert_eq!(events[0].success, None);
    assert_eq!(events[0].fail, Some("x".to_string()));
}

#[test]
fn failure_wins_even_if_success_set_afterwards() {
    let ctx = MyTelemetryContext::restore(1);
    let mut tracker = ctx.start_event_tracking("op".to_string());
    tracker.set_fail_result("x".to_string());
    tracker.set_ok_result("late".to_string());
    let events = tracker.complete(true, 50);
    assert_eq!(events.len(), 1);
    assert_eq!(events[0].success, None);
    assert_eq!(events[0].fail, Some("x".to_string()));
}

#[test]
fn unmarked_tracker_emits_default_success() {
    let ctx = MyTelemetryContext::restore(2);
    let tracker = ctx.start_event_tracking("op".to_string());
    let events = tracker.complete(true, 50);
    assert_eq!(events.len(), 1);
    assert_eq!(events[0].success, Some("Duration tracking".to_string()));
    assert_eq!(events[0].fail, None);
}

#[test]
fn ignored_tracker_emits_nothing() {
    let ctx = MyTelemetryContext::restore(3);
    let mut tracker = ctx.start_event_tracking("op".to_string());
    tracker.set_ok_result("done".to_string());
    tracker.set_fail_result("broken".to_string());
    tracker.ignore_this_event();
    let events = tracker.complete(true, 50);
    assert_eq!(events.len(), 0);
}

#[test]
fn unignored_tracker_emits_again() {
    let ctx = MyTelemetryContext::restore(3);
    let mut tracker = ctx.start_event_tracking("op".to_string());
    tracker.ignore_this_event();
    tracker.do_not_ignore_this_event();
    let events = tracker.complete(true, 50);
    assert_eq!(events.len(), 1);
}

#[test]
fn unconfigured_gateway_means_no_events() {
    let ctx = MyTelemetryContext::restore(4);
    let mut tracker = ctx.start_event_tracking("op".to_string());
    tracker.set_ok_result("done".to_string());
    let events = tracker.complete(false, 50);
    assert_eq!(events.len(), 0);
}

#[test]
fn multi_id_tracker_fans_out_identically() {
    let mut ctx = MyTelemetryContext::restore(10);
    ctx.merge_process(&MyTelemetryContext::restore(20));
    assert_eq!(ctx, MyTelemetryContext::Multiple(vec![10, 20]));
    let mut tracker = ctx.start_event_tracking("fanned".to_string());
    tracker.set_ok_result("fine".to_string());
    let tracker = tracker.add_tag("k".to_string(), "v".to_string());
    let events = tracker.complete(true, 777);
    assert_eq!(events.len(), 2);
    assert_eq!(events[0].process_id, 10);
    assert_eq!(events[1].process_id, 20);
    assert_eq!(events[0].data, events[1].data);
    assert_eq!(events[0].success, events[1].success);
    assert_eq!(events[0].fail, events[1].fail);
    assert_eq!(events[0].tags, events[1].tags);
    assert_eq!(events[0].started, events[1].started);
    assert_eq!(events[0].finished, events[1].finished);
    assert_eq!(events[0].finished, 777);
}

#[test]
fn empty_context_tracker_emits_nothing() {
    let ctx = MyTelemetryContext::create_empty();
    let tracker = ctx.start_event_tracking("op".to_string());
    let events = tracker.complete(true, 50);
    assert_eq!(events.len(), 0);
}

#[test]
fn fresh_tracker_id_is_its_start_time() {
    let tracker = MyTelemetryContext::start_duration_tracking("timer".to_string());
    let events = tracker.complete(true, 50);
    assert_eq!(events.len(), 1);
    assert_eq!(events[0].process_id, events[0].started);
    assert_eq!(events[0].data, "timer".to_string());
}

#[test]
fn timer_duration_name_still_works() {
    let tracker = MyTelemetryContext::track_timer_duration("t".to_string());
    let events = tracker.complete(true, 50);
    assert_eq!(events.len(), 1);
}

#[test]
fn tracker_new_carries_initial_success() {
    let tracker = EventDurationTracker::new("op".to_string(), Some("preset".to_string()));
    let events = tracker.complete(true, 50);
    assert_eq!(events.len(), 1);
    assert_eq!(events[0].success, Some("preset".to_string()));
}

#[test]
fn add_tag_accumulates() {
    let ctx = MyTelemetryContext::restore(5);
    let tracker = ctx
        .start_event_tracking("op".to_string())
        .add_tag("a".to_string(), "1".to_string())
        .add_tag("b".to_string(), "2".to_string());
    let events = tracker.complete(true, 50);
    let tags = events[0].tags.as_ref().unwrap();
    assert_eq!(tags.len(), 2);
    assert_eq!(tags[0].key, "a");
    assert_eq!(tags[0].value, "1");
    assert_eq!(tags[1].key, "b");
    assert_eq!(tags[1].value, "2");
}

#[test]
fn tags_builder_collects_pairs() {
    let mut builder = TelemetryEventTagsBuilder::new();
    builder.add_as_ref("k1".to_string(), "v1".to_string());
    let builder = builder
        .add("k2".to_string(), "v2".to_string())
        .add_ip("127.0.0.1".to_string());
    let tags = builder.build().unwrap();
    assert_eq!(tags.len(), 3);
    assert_eq!(tags[2].key, "ip");
    assert_eq!(tags[2].value, "127.0.0.1");
}

#[test]
fn empty_tags_builder_builds_none() {
    let builder = TelemetryEventTagsBuilder::new();
    assert!(builder.build().is_none());
}

#[test]
fn take_tags_moves_and_clears() {
    let mut builder =
        TelemetryEventTagsBuilder::new().add("k".to_string(), "v".to_string());
    let taken = builder.take_tags();
    assert!(builder.build().is_none());
    let tags = taken.build().unwrap();
    assert_eq!(tags.len(), 1);
    assert_eq!(tags[0].key, "k");
}

#[test]
fn gateway_write_is_noop_until_sink_attached() {
    let mut gw = TelemetryInterface::new();
    assert!(!gw.is_telemetry_set_up());
    let ctx = MyTelemetryContext::restore(1);
    gw.write_success(&ctx, 10, "op".to_string(), "done".to_string(), None);
    assert!(gw.telemetry_collector.get_events().is_none());
}

#[test]
fn gateway_fans_out_per_id() {
    let mut gw = TelemetryInterface::new();
    gw.attach_sink();
    assert!(gw.is_telemetry_set_up());
    let ctx = MyTelemetryContext::Multiple(vec![7, 8, 9]);
    gw.write_fail(&ctx, 10, "op".to_string(), "broke".to_string(), None);
    let events = gw.telemetry_collector.get_events().unwrap();
    assert_eq!(events.len(), 3);
    for (i, id) in [7, 8, 9].into_iter().enumerate() {
        assert_eq!(events[i].process_id, id);
        assert_eq!(events[i].success, None);
        assert_eq!(events[i].fail, Some("broke".to_string()));
    }
}

#[test]
fn gateway_write_outcome_sets_success_side() {
    let mut gw = TelemetryInterface::new();
    gw.attach_sink();
    let ctx = MyTelemetryContext::restore(1);
    gw.write_outcome(&ctx, 10, 20, "op".to_string(), "fine".to_string(), true, None);
    let events = gw.telemetry_collector.get_events().unwrap();
    assert_eq!(events.len(), 1);
    assert_eq!(events[0].started, 10);
    assert_eq!(events[0].finished, 20);
    assert_eq!(events[0].success, Some("fine".to_string()));
    assert_eq!(events[0].fail, None);
}
