use loguinho::errors::ErrorAction;
use loguinho::errors::ErrorKind;
use loguinho::errors::FetchError;
use loguinho::event::events_of_response;
use loguinho::event::LogEvent;
use loguinho::scheduler::window_start;
use loguinho::scheduler::PollConfig;
use loguinho::scheduler::Scheduler;
use loguinho::Watch;

fn event(id: &str, ts: i64, msg: &str) -> LogEvent {
    LogEvent {
        event_id: Some(id.to_string()),
        timestamp_millis: Some(ts),
        message: Some(msg.to_string()),
    }
}

fn names(v: &[&str]) -> Vec<String> {
    v.iter().map(|s| s.to_string()).collect()
}

fn emitted_ids(events: &[LogEvent]) -> Vec<String> {
    events
        .iter()
        .map(|e| e.event_id.clone().expect("an identifier"))
        .collect()
}

#[test]
fn window_start_is_now_minus_lookback() {
    assert_eq!(window_start(100_000, 30_000), 70_000);
    assert_eq!(window_start(30_000, 30_000), 0);
}

#[test]
fn current_window_lies_one_lookback_before_now() {
    let s = Scheduler::new(Vec::new(), PollConfig::default());
    let (now, start) = s.current_window().expect("a window");
    assert_eq!(start, now - 30_000);
}

#[test]
fn default_config_matches_the_documented_constants() {
    let c = PollConfig::default();
    assert_eq!(c.lookback_millis, 30_000);
    assert_eq!(c.batch_size, 5);
    assert_eq!(c.group_delay_millis, 50);
    assert_eq!(c.batch_delay_millis, 250);
    assert_eq!(c.cycle_delay_millis, 5_000);
    assert_eq!(c.rate_limit_delay_millis, 1_000);
    assert_eq!(c.cooldown_millis, 20_000);
    assert_eq!(c.dedup_capacity, 100_000);
}

#[test]
fn batches_partition_the_catalog_in_order() {
    let s = Scheduler::new(
        names(&["a", "b", "c", "d", "e", "f", "g"]),
        PollConfig::default(),
    );
    assert_eq!(s.batch_end(0), 5);
    assert_eq!(s.batch_end(5), 7);
}

#[test]
fn a_short_catalog_is_one_batch() {
    let s = Scheduler::new(names(&["a", "b"]), PollConfig::default());
    assert_eq!(s.batch_end(0), 2);
}

#[test]
fn overlapping_windows_emit_each_event_once() {
    // One group; two fetch cycles with overlapping windows return event "1",
    // then events "1" and "2"; the sink receives "1" once and "2" once, in
    // that order.
    let mut s = Scheduler::new(names(&["svc-a"]), PollConfig::default());

    let first = vec![event("1", 1000, "x")];
    let emitted = s.handle_fetch_success(&first);
    assert_eq!(emitted_ids(&emitted), vec!["1".to_string()]);

    let second = vec![event("1", 1000, "x"), event("2", 2000, "y")];
    let emitted = s.handle_fetch_success(&second);
    assert_eq!(emitted_ids(&emitted), vec!["2".to_string()]);
}

#[test]
fn emitted_events_keep_the_returned_order() {
    let mut s = Scheduler::new(names(&["svc-a"]), PollConfig::default());
    let events = vec![event("b", 2, "late"), event("a", 1, "early")];
    let emitted = s.handle_fetch_success(&events);
    assert_eq!(emitted_ids(&emitted), vec!["b".to_string(), "a".to_string()]);
    assert_eq!(emitted[0].message.as_deref(), Some("late"));
    assert_eq!(emitted[1].message.as_deref(), Some("early"));
}

#[test]
fn keyless_events_are_always_emitted() {
    let mut s = Scheduler::new(names(&["svc-a"]), PollConfig::default());
    let keyless = LogEvent {
        event_id: None,
        timestamp_millis: Some(1),
        message: Some("m".to_string()),
    };
    let events = vec![keyless];
    assert_eq!(s.handle_fetch_success(&events).len(), 1);
    assert_eq!(s.handle_fetch_success(&events).len(), 1);
}

#[test]
fn rate_limited_fetch_pauses_the_batch_and_continues() {
    // A fetch fails with a rate-limit-shaped error: the scheduler recommends
    // the configured backoff and goes on with the next group.
    let s = Scheduler::new(names(&["svc-b"]), PollConfig::default());
    let e = FetchError::Api("Rate exceeded".to_string());
    let o = s.handle_fetch_failure(&e);
    assert_eq!(o.classification.kind, ErrorKind::RateLimited);
    assert_eq!(o.classification.action, ErrorAction::PauseBatch);
    assert_eq!(o.pause_millis, 1_000);
}

#[test]
fn other_failures_impose_no_pause() {
    let s = Scheduler::new(names(&["svc-b"]), PollConfig::default());
    let o = s.handle_fetch_failure(&FetchError::Transport("timed out".to_string()));
    assert_eq!(o.classification.kind, ErrorKind::Transport);
    assert_eq!(o.pause_millis, 0);
}

#[test]
fn crossing_capacity_triggers_cooldown_before_the_next_cycle() {
    // Capacity 3: accepting "a","b","c" then "d" leaves four identifiers
    // recorded, so the end-of-cycle check resets the set and asks for the
    // cooldown pause.
    let mut config = PollConfig::default();
    config.dedup_capacity = 3;
    let mut s = Scheduler::new(names(&["svc-a"]), config);

    let events = vec![
        event("a", 1, "1"),
        event("b", 2, "2"),
        event("c", 3, "3"),
        event("d", 4, "4"),
    ];
    let emitted = s.handle_fetch_success(&events);
    assert_eq!(emitted.len(), 4);
    assert!(s.end_cycle());

    // The reset forgot every identifier: an old one is emitted again.
    let again = vec![event("a", 1, "1")];
    assert_eq!(s.handle_fetch_success(&again).len(), 1);
    assert!(!s.end_cycle());
}

#[test]
fn absent_event_list_is_no_events() {
    assert!(events_of_response(None).is_empty());
    let v = events_of_response(Some(vec![event("1", 1, "m")]));
    assert_eq!(v.len(), 1);
    assert_eq!(v[0].event_id.as_deref(), Some("1"));
}

#[test]
fn watch_filter_defaults_to_matching_everything() {
    let w = Watch { input: None };
    assert_eq!(w.filter(), "".to_string());
    let w = Watch {
        input: Some("svc".to_string()),
    };
    assert_eq!(w.filter(), "svc".to_string());
}
