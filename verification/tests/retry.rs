use connection_pool::{
    AcquireConnection, AcquireFailure, AcquireStep, ConnectStep, ConnectionPool, Duration,
    TestTemplate,
};

fn pool() -> ConnectionPool {
    let plan = match ConnectionPool::builder("postgres://localhost/main", 3).build() {
        Ok(plan) => plan,
        Err(error) => panic!("{}", error.context()),
    };
    match plan.pending.connected(Ok(())) {
        Ok((pool, ())) => pool,
        Err(error) => panic!("{}", error.context()),
    }
}

/// Fails until `failures` attempts have failed, and returns how many attempts there were, how many
/// of them were preceded by an observation of the pool, and how it ended.
fn acquire(failures: u32) -> (u32, u32, Result<u32, AcquireFailure<u32>>) {
    let mut acquire: AcquireConnection = pool().acquire_connection_retried();
    let mut attempts: u32 = 0;
    let mut observed: u32 = 0;
    loop {
        if acquire.observes_pool() {
            observed += 1;
        }
        let outcome = if attempts < failures { Err(attempts) } else { Ok(attempts) };
        attempts += 1;
        match acquire.attempted(outcome) {
            AcquireStep::Acquired(conn) => return (attempts, observed, Ok(conn)),
            AcquireStep::BackOff { error, average, next } => {
                assert_eq!(error, attempts - 1);
                assert_eq!(average, Duration::from_secs(1));
                acquire = next;
            }
            AcquireStep::Exhausted(failure) => return (attempts, observed, Err(failure)),
        }
    }
}

#[test]
fn first_connection_is_taken() {
    for failures in 0..=2u32 {
        let (attempts, observed, outcome) = acquire(failures);
        assert_eq!(attempts, failures + 1);
        assert_eq!(observed, attempts.min(2));
        assert_eq!(outcome.unwrap(), failures);
    }
}

#[test]
fn last_failure_to_acquire_is_final() {
    let (attempts, observed, outcome) = acquire(100);
    assert_eq!(attempts, 3);
    assert_eq!(observed, 2);
    let failure = outcome.unwrap_err();
    assert_eq!(failure.error, 2);
    assert!(!failure.traced);
}

#[test]
fn failure_text_of_an_untraced_pool() {
    let failure = AcquireFailure { error: (), traced: false };
    assert_eq!(
        failure.message("not tagged", "pool timed out", "[]"),
        "Run out of retries getting a DB connection (not tagged), last error: pool timed out"
    );
}

#[test]
fn failure_text_of_a_traced_pool() {
    let failure = AcquireFailure { error: (), traced: true };
    assert_eq!(
        failure.message("component `api`", "pool timed out", "[1, 2]"),
        "Run out of retries getting a DB connection (component `api`), last error: pool timed out\n\
         Active connections: [1, 2]"
    );
}

/// Fails until `failures` attempts have failed, and returns how many attempts there were and how it
/// ended.
fn connect(failures: u32) -> (u32, Result<u32, u32>) {
    let mut connect = TestTemplate::connect_to("postgres://localhost");
    let mut attempts: u32 = 0;
    loop {
        assert_eq!(connect.db_url(), "postgres://localhost");
        let outcome = if attempts < failures { Err(attempts) } else { Ok(attempts) };
        attempts += 1;
        match connect.attempted(outcome) {
            ConnectStep::Connected(conn) => return (attempts, Ok(conn)),
            ConnectStep::Retry { pause, next } => {
                assert_eq!(pause, Duration::from_millis(100));
                connect = next;
            }
            ConnectStep::Failed(error) => return (attempts, Err(error)),
        }
    }
}

#[test]
fn first_connection_that_opens_is_used() {
    assert_eq!(connect(0), (1, Ok(0)));
    assert_eq!(connect(1), (2, Ok(1)));
    assert_eq!(connect(9), (10, Ok(9)));
}

#[test]
fn last_failure_to_connect_is_final() {
    assert_eq!(connect(10), (10, Err(9)));
    assert_eq!(connect(1_000), (10, Err(9)));
}
