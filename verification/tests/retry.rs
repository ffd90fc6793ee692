use kommemeorate::retry::retry_delay;
use kommemeorate::retry::Directive;
use kommemeorate::retry::Driver;
use kommemeorate::retry::Failure;
use kommemeorate::retry::Phase;
use kommemeorate::retry::RpcError;
use kommemeorate::retry::FLOOD;

fn flood(seconds: Option<u32>) -> Failure {
    Failure::Rpc(RpcError { code: 420, name: "FLOOD_WAIT".to_string(), value: seconds })
}

#[test]
fn the_flood_code() {
    assert_eq!(FLOOD, 420);
}

#[test]
fn a_flood_wait_asks_for_its_seconds() {
    assert_eq!(retry_delay(&flood(Some(17))), Some(17));
    assert_eq!(retry_delay(&flood(Some(0))), Some(0));
    assert_eq!(retry_delay(&flood(Some(u32::MAX))), Some(u32::MAX));
}

#[test]
fn any_other_failure_asks_for_no_wait() {
    assert_eq!(retry_delay(&flood(None)), None);
    assert_eq!(retry_delay(&Failure::Other), None);
    let other = Failure::Rpc(RpcError { code: 400, name: "BAD_REQUEST".to_string(), value: Some(17) });
    assert_eq!(retry_delay(&other), None);
    let other = Failure::Rpc(RpcError { code: -420, name: "FLOOD_WAIT".to_string(), value: Some(17) });
    assert_eq!(retry_delay(&other), None);
}

#[test]
fn the_retry_starts_no_earlier_than_asked() {
    let mut driver = Driver::new(vec!["sent before"]);
    assert_eq!(driver.standing(), Phase::Running);
    assert_eq!(driver.on_exit(Err(flood(Some(30))), 1000), Directive::Sleep { seconds: 30 });
    assert_eq!(driver.standing(), Phase::Waiting { since: 1000, delay: 30 });

    assert_eq!(driver.on_wake(1000), Directive::Sleep { seconds: 30 });
    assert_eq!(driver.on_wake(1001), Directive::Sleep { seconds: 29 });
    assert_eq!(driver.on_wake(1029), Directive::Sleep { seconds: 1 });
    assert_eq!(driver.standing(), Phase::Waiting { since: 1000, delay: 30 });
    assert_eq!(driver.on_wake(1030), Directive::Connect);
    assert_eq!(driver.standing(), Phase::Running);
    assert_eq!(driver.handle(), &vec!["sent before"]);
    assert_eq!(driver.into_output(), vec!["sent before"]);
}

#[test]
fn a_wait_of_no_seconds_is_over_at_once() {
    let mut driver = Driver::new(());
    assert_eq!(driver.on_exit(Err(flood(Some(0))), 5), Directive::Sleep { seconds: 0 });
    assert_eq!(driver.on_wake(5), Directive::Connect);
}

#[test]
fn a_late_wake_lets_the_run_start() {
    let mut driver = Driver::new(());
    assert_eq!(driver.on_exit(Err(flood(Some(10))), 5), Directive::Sleep { seconds: 10 });
    assert_eq!(driver.on_wake(u64::MAX), Directive::Connect);
}

#[test]
fn a_clock_that_ran_back_counts_as_no_time_passed() {
    let mut driver = Driver::new(());
    assert_eq!(driver.on_exit(Err(flood(Some(10))), 500), Directive::Sleep { seconds: 10 });
    assert_eq!(driver.on_wake(499), Directive::Sleep { seconds: 10 });
    assert_eq!(driver.on_wake(0), Directive::Sleep { seconds: 10 });
}

#[test]
fn the_longest_wait_is_not_cut_short() {
    let mut driver = Driver::new(());
    assert_eq!(
        driver.on_exit(Err(flood(Some(u32::MAX))), u64::MAX),
        Directive::Sleep { seconds: u32::MAX as u64 }
    );
    assert_eq!(driver.on_wake(u64::MAX), Directive::Sleep { seconds: u32::MAX as u64 });
}

#[test]
fn retries_go_on_as_long_as_the_limit_is_reached() {
    let mut driver = Driver::new(());
    let mut now = 0;
    for round in 0..100_u32 {
        assert_eq!(driver.on_exit(Err(flood(Some(round))), now), Directive::Sleep { seconds: round as u64 });
        now += round as u64;
        assert_eq!(driver.on_wake(now), Directive::Connect);
    }
    assert_eq!(driver.on_exit(Ok(()), now), Directive::Return);
    assert_eq!(driver.standing(), Phase::Finished);
}

#[test]
fn any_other_failure_ends_the_worker() {
    let mut driver = Driver::new(7);
    assert_eq!(driver.on_exit(Err(Failure::Other), 3), Directive::Fail);
    assert_eq!(driver.standing(), Phase::Failed);
    assert_eq!(driver.on_wake(1000), Directive::Fail);
    assert_eq!(driver.on_exit(Ok(()), 1000), Directive::Fail);
    assert_eq!(driver.on_exit(Err(flood(Some(1))), 1000), Directive::Fail);
    assert_eq!(driver.standing(), Phase::Failed);
    assert_eq!(driver.into_output(), 7);

    let mut driver = Driver::new(7);
    assert_eq!(driver.on_exit(Err(flood(None)), 3), Directive::Fail);
}

#[test]
fn a_run_that_ends_well_ends_the_worker() {
    let mut driver = Driver::new("output");
    assert_eq!(driver.on_exit(Ok(()), 3), Directive::Return);
    assert_eq!(driver.standing(), Phase::Finished);
    assert_eq!(driver.on_wake(4), Directive::Return);
    assert_eq!(driver.on_exit(Err(flood(Some(1))), 5), Directive::Return);
    assert_eq!(driver.into_output(), "output");
}

#[test]
fn a_wake_during_a_run_changes_nothing() {
    let mut driver = Driver::new(());
    assert_eq!(driver.on_wake(10), Directive::Proceed);
    assert_eq!(driver.standing(), Phase::Running);
}

#[test]
fn an_exit_during_a_wait_does_not_start_a_run() {
    let mut driver = Driver::new(());
    assert_eq!(driver.on_exit(Err(flood(Some(10))), 100), Directive::Sleep { seconds: 10 });
    assert_eq!(driver.on_exit(Ok(()), 105), Directive::Sleep { seconds: 5 });
    assert_eq!(driver.standing(), Phase::Waiting { since: 100, delay: 10 });
}
