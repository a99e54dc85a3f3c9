use flyrust::tick::tick_schedule;

#[test]
fn an_early_consumer_waits_for_the_deadline() {
    // previous deadline 1000, period 100: next deadline 1100, wait 200
    assert_eq!(tick_schedule(1000, 900, 100, 1000), (1100, 200));
}

#[test]
fn a_consumer_on_the_deadline_does_not_wait() {
    assert_eq!(tick_schedule(1000, 1100, 100, 1000), (1100, 0));
}

#[test]
fn a_slow_consumer_within_the_allowance_keeps_the_schedule() {
    // 400 late: the deadline still advances by exactly one period
    assert_eq!(tick_schedule(1000, 1500, 100, 1000), (1100, 0));
    // exactly at the allowance boundary
    assert_eq!(tick_schedule(1000, 2100, 100, 1000), (1100, 0));
}

#[test]
fn a_consumer_past_the_allowance_resynchronizes_to_now() {
    // 1100 past the planned deadline: the backlog is dropped
    assert_eq!(tick_schedule(1000, 2201, 100, 1000), (2201, 0));
}
