use libaegis::{AegisError, Component, Config, Retry, RunStep};

fn component(reconnect: bool, max: u32, delay: u128, longest: u128) -> Component {
    let cfg = Config {
        socket_path: String::new(),
        session_token: String::new(),
        component_name: "c".to_string(),
        version: String::new(),
        supported_symbols: vec![],
        supported_timeframes: vec![],
        supported_orderbook_speeds: vec![],
        requires_streams: vec![],
        reconnect,
        max_reconnect_attempts: max,
        reconnect_delay: delay,
        max_reconnect_delay: longest,
        ping_timeout: 0,
    };
    Component::new(cfg, 0)
}

fn lost() -> Result<(), AegisError> {
    Err(AegisError::Timeout)
}

fn finished(step: RunStep) -> Result<(), AegisError> {
    match step {
        RunStep::Finish(r) => r,
        RunStep::Sleep { .. } => panic!("goes on"),
    }
}

#[test]
fn a_clean_end_is_final() {
    let c = component(true, 0, 1, 10);
    let mut r = c.first_retry();
    assert_eq!(finished(c.run(&mut r, Ok(()))), Ok(()));
    assert_eq!(r, Retry { attempts: 0, delay: 1 });
}

#[test]
fn a_refused_registration_is_not_retried() {
    let c = component(true, 0, 1, 10);
    let mut r = c.first_retry();
    let refused = Err(AegisError::Registration("no".to_string()));
    assert_eq!(finished(c.run(&mut r, refused.clone())), refused);
    assert_eq!(r.attempts, 0);
}

#[test]
fn reconnect_can_be_turned_off() {
    let c = component(false, 0, 1, 10);
    let mut r = c.first_retry();
    assert_eq!(
        finished(c.run(&mut r, lost())),
        Err(AegisError::Connection("reconnect disabled".to_string()))
    );
    assert_eq!(r.attempts, 0);
}

#[test]
fn the_limit_ends_the_run() {
    let c = component(true, 12, 1, 10);
    let mut r = c.first_retry();
    for n in 1..12 {
        match c.run(&mut r, lost()) {
            RunStep::Sleep { attempt, .. } => assert_eq!(attempt, n),
            RunStep::Finish(_) => panic!("gave up early"),
        }
    }
    assert_eq!(
        finished(c.run(&mut r, lost())),
        Err(AegisError::Connection("max reconnect attempts (12) reached".to_string()))
    );
}

#[test]
fn a_limit_of_one_allows_no_reconnect() {
    let c = component(true, 1, 1, 10);
    let mut r = c.first_retry();
    assert_eq!(
        finished(c.run(&mut r, lost())),
        Err(AegisError::Connection("max reconnect attempts (1) reached".to_string()))
    );
}

#[test]
fn large_counts_are_written_in_full() {
    let c = component(true, 4_294_967_295, 1, 10);
    let mut r = Retry { attempts: 4_294_967_294, delay: 1 };
    assert_eq!(
        finished(c.run(&mut r, lost())),
        Err(AegisError::Connection("max reconnect attempts (4294967295) reached".to_string()))
    );
}

#[test]
fn without_a_limit_it_goes_on() {
    let c = component(true, 0, 1, 10);
    let mut r = Retry { attempts: 1_000_000, delay: 10 };
    assert!(matches!(
        c.run(&mut r, lost()),
        RunStep::Sleep { delay: 10, attempt: 1_000_001 }
    ));
}

#[test]
fn waits_double_up_to_the_longest() {
    let c = component(true, 0, 3, 20);
    let mut r = c.first_retry();
    let mut waits = Vec::new();
    for _ in 0..5 {
        match c.run(&mut r, lost()) {
            RunStep::Sleep { delay, .. } => {
                waits.push(delay);
                c.back_off(&mut r, 2 * delay);
            }
            RunStep::Finish(_) => panic!("gave up"),
        }
    }
    assert_eq!(waits, vec![3, 6, 12, 20, 20]);
}

#[test]
fn the_first_wait_is_not_cut() {
    let c = component(true, 0, 50, 20);
    let mut r = c.first_retry();
    assert!(matches!(c.run(&mut r, lost()), RunStep::Sleep { delay: 50, attempt: 1 }));
    c.back_off(&mut r, 100);
    assert_eq!(r.delay, 20);
}
