use restock_monitor::utils::{delay_until, delay_until_next, get_scheduler, ScheduleError, Scheduler};

#[test]
fn delay_is_the_difference_in_milliseconds() {
    assert_eq!(delay_until(1_000, Some(4_500)), Ok(3_500));
    assert_eq!(delay_until(-2_000, Some(1_000)), Ok(3_000));
}

#[test]
fn delay_to_the_same_instant_is_zero() {
    assert_eq!(delay_until(5, Some(5)), Ok(0));
}

#[test]
fn delay_to_the_past_is_an_error() {
    assert_eq!(delay_until(10, Some(9)), Err(ScheduleError::Negative));
}

#[test]
fn delay_without_occurrence_is_an_error() {
    assert_eq!(delay_until(10, None), Err(ScheduleError::Undefined));
}

#[test]
fn delay_across_the_whole_range_fits() {
    assert_eq!(delay_until(i64::MIN, Some(i64::MAX)), Ok(u64::MAX));
}

#[test]
fn accepted_expression_is_kept() {
    assert_eq!(get_scheduler(Some("*/5 * * * *")).as_str(), "*/5 * * * *");
    assert!(Scheduler::parse("0 12 * * MON").is_some());
}

#[test]
fn refused_expression_falls_back_to_hourly() {
    assert_eq!(get_scheduler(Some("every now and then")).as_str(), "@hourly");
    assert_eq!(get_scheduler(Some("")).as_str(), "@hourly");
    assert_eq!(get_scheduler(Some("* * * * * *")).as_str(), "@hourly");
    assert!(Scheduler::parse("61 * * * *").is_none());
}

#[test]
fn missing_expression_falls_back_to_hourly() {
    assert_eq!(get_scheduler(None).as_str(), "@hourly");
    assert_eq!(Scheduler::hourly().as_str(), "@hourly");
}

#[test]
fn refused_expression_waits_as_the_hourly_rule_does() {
    let now_ms: i64 = 1_700_000_000_000;
    let fallback = delay_until_next(&get_scheduler(Some("not a rule")), now_ms);
    let hourly = delay_until_next(&get_scheduler(Some("@hourly")), now_ms);
    assert_eq!(fallback, hourly);
    assert!(fallback.is_ok());
}

#[test]
fn hourly_wait_is_positive_and_at_most_an_hour() {
    let now_ms: i64 = 1_700_000_000_000;
    let delay = delay_until_next(&Scheduler::hourly(), now_ms).unwrap();
    assert!(delay > 0);
    assert!(delay <= 3_600_000);
}

#[test]
fn wait_on_an_exact_occurrence_goes_to_the_next_one() {
    let every_minute = Scheduler::parse("* * * * *").unwrap();
    let on_the_minute: i64 = 1_700_000_040_000;
    assert_eq!(delay_until_next(&every_minute, on_the_minute), Ok(60_000));
    assert_eq!(delay_until_next(&every_minute, on_the_minute + 1), Ok(59_999));
    assert_eq!(delay_until_next(&every_minute, on_the_minute - 1), Ok(1));
}

#[test]
fn next_occurrence_lies_after_the_instant() {
    let every_minute = Scheduler::parse("* * * * *").unwrap();
    let now_ms: i64 = 1_700_000_012_345;
    assert_eq!(every_minute.next_occurrence(now_ms), Some(1_700_000_040_000));
}

#[test]
fn instant_off_the_calendar_has_no_wait() {
    let scheduler = Scheduler::hourly();
    assert_eq!(delay_until_next(&scheduler, i64::MAX), Err(ScheduleError::Undefined));
    assert_eq!(delay_until_next(&scheduler, i64::MIN), Err(ScheduleError::Undefined));
    assert_eq!(scheduler.next_occurrence(i64::MAX), None);
}

#[test]
fn schedule_without_any_occurrence_has_no_wait() {
    let never = Scheduler::parse("0 0 31 2 *").unwrap();
    assert_eq!(delay_until_next(&never, 1_700_000_000_000), Err(ScheduleError::Undefined));
}
