use pipeline_schema::handle::HandleLifecycle;

#[test]
fn teardown_stops_once_without_explicit_stop() {
    let mut h = HandleLifecycle::build();
    assert_eq!(h.stop_invocations, 0);
    h.teardown();
    assert_eq!(h.stop_invocations, 1);
    assert!(h.torn_down);
}

#[test]
fn teardown_adds_exactly_one_stop_after_explicit_stops() {
    let mut h = HandleLifecycle::build();
    h.invoke_start();
    h.invoke_stop();
    assert_eq!(h.stop_invocations, 1);
    h.teardown();
    assert_eq!(h.stop_invocations, 2);
    assert_eq!(h.start_invocations, 1);
    assert!(h.torn_down);
}
