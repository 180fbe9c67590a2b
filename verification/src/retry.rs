//! Repeated attempts at something that may fail: opening a connection to a database and taking
//! one out of a pool.
//!
//! The attempts themselves are made by the caller, who reports how each of them ended and is
//! told what to do next.

use crate::duration::Duration;
use crate::duration::NANOS_PER_MILLI;
use crate::duration::NANOS_PER_SEC;
use vstd::prelude::*;

verus! {

/// What one attempt leads to.
pub enum Reaction<C, E> {
    /// The attempt succeeded; there is no further one.
    Succeeded(C),
    /// The attempt failed; after a pause there is another one.
    Retried(E),
    /// The attempt failed and was the last one.
    GaveUp(E),
}

/// What an attempt leads to after `failures` failed ones, where `limit` attempts are made at
/// most.
pub open spec fn reaction<C, E>(
    limit: nat,
    failures: nat,
    outcome: Result<C, E>,
) -> Reaction<C, E> {
    match outcome {
        Ok(value) => Reaction::Succeeded(value),
        Err(error) => if failures + 1 < limit {
            Reaction::Retried(error)
        } else {
            Reaction::GaveUp(error)
        },
    }
}

/// What the attempts of one run lead to, one after another, where attempt `i` ends as
/// `outcomes[i]` if it is made at all.
pub open spec fn reactions<C, E>(
    limit: nat,
    failures: nat,
    outcomes: Seq<Result<C, E>>,
) -> Seq<Reaction<C, E>>
    decreases outcomes.len(),
{
    if outcomes.len() == 0 {
        Seq::empty()
    } else {
        let first = reaction(limit, failures, outcomes[0]);
        if first is Retried {
            seq![first] + reactions(limit, failures + 1, outcomes.skip(1))
        } else {
            seq![first]
        }
    }
}

/// No run makes more attempts than its limit.
pub proof fn attempts_are_bounded<C, E>(
    limit: nat,
    failures: nat,
    outcomes: Seq<Result<C, E>>,
)
    requires
        failures < limit,
    ensures
        reactions(limit, failures, outcomes).len() <= limit - failures,
    decreases outcomes.len(),
{
    if outcomes.len() > 0 && failures + 1 < limit {
        attempts_are_bounded(limit, failures + 1, outcomes.skip(1));
    }
}

/// A run whose first success comes within its limit ends with that success, and every attempt
/// before it is retried.
pub proof fn first_success_ends_the_run<C, E>(
    limit: nat,
    failures: nat,
    outcomes: Seq<Result<C, E>>,
    k: int,
)
    requires
        0 <= k < outcomes.len(),
        failures + k < limit,
        outcomes[k] is Ok,
        forall|i: int| 0 <= i < k ==> (#[trigger] outcomes[i]) is Err,
    ensures
        reactions(limit, failures, outcomes).len() == k + 1,
        reactions(limit, failures, outcomes)[k] == Reaction::<C, E>::Succeeded(
            outcomes[k]->Ok_0,
        ),
        forall|i: int|
            0 <= i < k ==> #[trigger] reactions(limit, failures, outcomes)[i] == Reaction::<
                C,
                E,
            >::Retried(outcomes[i]->Err_0),
    decreases k,
{
    if k > 0 {
        assert(outcomes[0] is Err);
        let rest = outcomes.skip(1);
        assert(rest[k - 1] == outcomes[k]);
        assert forall|i: int| 0 <= i < k - 1 implies (#[trigger] rest[i]) is Err by {
            assert(rest[i] == outcomes[i + 1]);
        }
        first_success_ends_the_run(limit, failures + 1, rest, k - 1);
        let tail = reactions(limit, failures + 1, rest);
        let all = reactions(limit, failures, outcomes);
        assert(all[k] == tail[k - 1]);
        assert forall|i: int| 0 <= i < k implies #[trigger] all[i] == Reaction::<
            C,
            E,
        >::Retried(outcomes[i]->Err_0) by {
            if i > 0 {
                assert(all[i] == tail[i - 1]);
                assert(rest[i - 1] == outcomes[i]);
            }
        }
    }
}

/// A run gives up with the error of its last attempt once as many attempts as its limit allows
/// have failed; every attempt before the last one is retried.
pub proof fn failures_up_to_the_limit_end_the_run<C, E>(
    limit: nat,
    failures: nat,
    outcomes: Seq<Result<C, E>>,
)
    requires
        failures < limit,
        limit - failures <= outcomes.len(),
        forall|i: int| 0 <= i < limit - failures ==> (#[trigger] outcomes[i]) is Err,
    ensures
        reactions(limit, failures, outcomes).len() == limit - failures,
        reactions(limit, failures, outcomes)[limit - failures - 1] == Reaction::<
            C,
            E,
        >::GaveUp(outcomes[limit - failures - 1]->Err_0),
        forall|i: int|
            0 <= i < limit - failures - 1 ==> #[trigger] reactions(limit, failures, outcomes)[i]
                == Reaction::<C, E>::Retried(outcomes[i]->Err_0),
    decreases limit - failures,
{
    assert(outcomes[0] is Err);
    if failures + 1 < limit {
        let rest = outcomes.skip(1);
        assert forall|i: int| 0 <= i < limit - failures - 1 implies (#[trigger] rest[i]) is Err by {
            assert(rest[i] == outcomes[i + 1]);
        }
        failures_up_to_the_limit_end_the_run(limit, failures + 1, rest);
        let tail = reactions(limit, failures + 1, rest);
        let all = reactions(limit, failures, outcomes);
        let last = limit - failures - 1;
        assert(all[last] == tail[last - 1]);
        assert(rest[last - 1] == outcomes[last]);
        assert forall|i: int| 0 <= i < last implies #[trigger] all[i] == Reaction::<
            C,
            E,
        >::Retried(outcomes[i]->Err_0) by {
            if i > 0 {
                assert(all[i] == tail[i - 1]);
                assert(rest[i - 1] == outcomes[i]);
            }
        }
    }
}

/// How often it is tried to open a connection to a database.
pub const CONNECT_ATTEMPTS: u32 = 10;

/// The pause between two attempts to open a connection, in milliseconds.
pub const CONNECT_PAUSE_MILLIS: u64 = 100;

/// How often it is tried to take a connection out of a pool.
pub const ACQUIRE_ATTEMPTS: u32 = 3;

/// The mean pause between two attempts to take a connection out of a pool, in seconds.
pub const AVG_BACKOFF_SECS: u64 = 1;

/// Opening a connection to a database, over several attempts.
pub struct ConnectTo {
    db_url: String,
    attempts: u32,
}

/// What follows an attempt to open a connection.
pub enum ConnectStep<C, E> {
    /// The connection is open.
    Connected(C),
    /// Wait for `pause`, then make the next attempt.
    Retry { pause: Duration, next: ConnectTo },
    /// All attempts failed, the last one with this error.
    Failed(E),
}

impl ConnectTo {
    #[verifier::type_invariant]
    spec fn inv(self) -> bool {
        1 <= self.attempts <= CONNECT_ATTEMPTS
    }

    /// The URL of the database.
    pub closed spec fn target(self) -> Seq<char> {
        self.db_url@
    }

    /// How many attempts have failed so far.
    pub closed spec fn failures(self) -> nat {
        (CONNECT_ATTEMPTS - self.attempts) as nat
    }

    /// Begins to connect to the database at `db_url`.
    pub(crate) fn new(db_url: &str) -> (connect: Self)
        ensures
            connect.target() == db_url@,
            connect.failures() == 0,
    {
        ConnectTo { db_url: db_url.to_owned(), attempts: CONNECT_ATTEMPTS }
    }

    /// The URL that the next attempt connects to.
    pub fn db_url(&self) -> (url: &str)
        ensures
            url@ == self.target(),
    {
        self.db_url.as_str()
    }

    /// Takes note of how an attempt ended.
    pub fn attempted<C, E>(self, outcome: Result<C, E>) -> (step: ConnectStep<C, E>)
        ensures
            match reaction(CONNECT_ATTEMPTS as nat, self.failures(), outcome) {
                Reaction::Succeeded(conn) => step == ConnectStep::<C, E>::Connected(conn),
                Reaction::Retried(_) => {
                    &&& step matches ConnectStep::Retry { pause, next }
                    &&& pause@ == CONNECT_PAUSE_MILLIS * NANOS_PER_MILLI
                    &&& next.target() == self.target()
                    &&& next.failures() == self.failures() + 1
                },
                Reaction::GaveUp(error) => step == ConnectStep::<C, E>::Failed(error),
            },
    {
        proof {
            use_type_invariant(&self);
        }
        match outcome {
            Ok(conn) => ConnectStep::Connected(conn),
            Err(error) => {
                let attempts: u32 = self.attempts - 1;
                if attempts == 0 {
                    ConnectStep::Failed(error)
                } else {
                    ConnectStep::Retry {
                        pause: Duration::from_millis(CONNECT_PAUSE_MILLIS),
                        next: ConnectTo { db_url: self.db_url, attempts },
                    }
                }
            },
        }
    }
}

/// Taking a connection out of a pool, over several attempts.
pub struct AcquireConnection {
    failures: u32,
    traced: bool,
}

/// What follows an attempt to take a connection out of a pool.
pub enum AcquireStep<C, E> {
    /// The connection is taken.
    Acquired(C),
    /// Report `error`, wait for `average` give or take a random share of it, then make the next
    /// attempt.
    BackOff { error: E, average: Duration, next: AcquireConnection },
    /// Report the error of this failure: all attempts failed.
    Exhausted(AcquireFailure<E>),
}

/// All attempts to take a connection out of a pool failed.
#[derive(Debug)]
pub struct AcquireFailure<E> {
    /// The error of the last attempt.
    pub error: E,
    /// Whether the pool traces its active connections.
    pub traced: bool,
}

impl AcquireConnection {
    #[verifier::type_invariant]
    spec fn inv(self) -> bool {
        self.failures < ACQUIRE_ATTEMPTS
    }

    /// How many attempts have failed so far.
    pub closed spec fn failures(self) -> nat {
        self.failures as nat
    }

    /// Whether the pool traces its active connections.
    pub closed spec fn traced(self) -> bool {
        self.traced
    }

    /// How many attempts are made at most.
    pub open spec fn limit() -> nat {
        ACQUIRE_ATTEMPTS as nat
    }

    /// Begins to take a connection out of a pool that traces its active connections if `traced`
    /// says so.
    pub(crate) fn new(traced: bool) -> (acquire: Self)
        ensures
            acquire.failures() == 0,
            acquire.traced() == traced,
    {
        AcquireConnection { failures: 0, traced }
    }

    /// Whether the size of the pool and the number of its idle connections are to be observed
    /// before the next attempt. They are before each attempt but the last possible one.
    pub fn observes_pool(&self) -> (observes: bool)
        ensures
            observes == (self.failures() + 1 < Self::limit()),
    {
        proof {
            use_type_invariant(self);
        }
        self.failures + 1 < ACQUIRE_ATTEMPTS
    }

    /// Takes note of how an attempt ended.
    pub fn attempted<C, E>(self, outcome: Result<C, E>) -> (step: AcquireStep<C, E>)
        ensures
            match reaction(Self::limit(), self.failures(), outcome) {
                Reaction::Succeeded(conn) => step == AcquireStep::<C, E>::Acquired(conn),
                Reaction::Retried(cause) => {
                    &&& step matches AcquireStep::BackOff { error, average, next }
                    &&& error == cause
                    &&& average@ == AVG_BACKOFF_SECS * NANOS_PER_SEC
                    &&& next.failures() == self.failures() + 1
                    &&& next.traced() == self.traced()
                },
                Reaction::GaveUp(error) => step == AcquireStep::<C, E>::Exhausted(
                    AcquireFailure { error, traced: self.traced() },
                ),
            },
    {
        proof {
            use_type_invariant(&self);
        }
        match outcome {
            Ok(conn) => AcquireStep::Acquired(conn),
            Err(error) => {
                if self.failures + 1 < ACQUIRE_ATTEMPTS {
                    AcquireStep::BackOff {
                        error,
                        average: Duration::from_secs(AVG_BACKOFF_SECS),
                        next: AcquireConnection {
                            failures: self.failures + 1,
                            traced: self.traced,
                        },
                    }
                } else {
                    AcquireStep::Exhausted(AcquireFailure { error, traced: self.traced })
                }
            },
        }
    }
}

/// The text of a failure to take a connection out of a pool: who asked for the connection, the
/// error of the last attempt and, where the pool traces them, the active connections.
pub open spec fn exhausted_text(
    tags: Seq<char>,
    error: Seq<char>,
    active: Option<Seq<char>>,
) -> Seq<char> {
    let cause = "Run out of retries getting a DB connection ("@ + tags + "), last error: "@ + error;
    match active {
        Some(active) => cause + "\nActive connections: "@ + active,
        None => cause,
    }
}

/// Where active connections are traced, their text stands behind that of the failure itself.
pub proof fn exhausted_text_shows_active_connections(
    tags: Seq<char>,
    error: Seq<char>,
    active: Seq<char>,
)
    ensures
        exhausted_text(tags, error, Some(active)) == exhausted_text(tags, error, None)
            + "\nActive connections: "@ + active,
{
}

impl<E> AcquireFailure<E> {
    /// The text of this failure. `tags` says who asked for the connection, `error` is the text of
    /// the last error, and `active` that of the active connections, which is left out unless the
    /// pool traces them.
    pub fn message(&self, tags: &str, error: &str, active: &str) -> (text: String)
        ensures
            text@ == exhausted_text(
                tags@,
                error@,
                if self.traced {
                    Some(active@)
                } else {
                    None
                },
            ),
    {
        let mut text = "Run out of retries getting a DB connection (".to_owned();
        text.append(tags);
        text.append("), last error: ");
        text.append(error);
        if self.traced {
            text.append("\nActive connections: ");
            text.append(active);
        }
        text
    }
}

/// An attempt to open a connection that succeeds is the last one. One that fails is followed by
/// another one to the same database after a tenth of a second, unless it was the tenth: its error
/// is what remains.
pub proof fn connecting_is_tried_ten_times<C, E>(
    connect: ConnectTo,
    outcome: Result<C, E>,
    step: ConnectStep<C, E>,
)
    requires
        call_ensures(ConnectTo::attempted::<C, E>, (connect, outcome), step),
    ensures
        outcome matches Ok(conn) ==> step == ConnectStep::<C, E>::Connected(conn),
        outcome is Err && connect.failures() + 1 < 10 ==> {
            &&& step matches ConnectStep::Retry { pause, next }
            &&& pause@ == 100_000_000
            &&& next.target() == connect.target()
            &&& next.failures() == connect.failures() + 1
        },
        outcome is Err && connect.failures() + 1 >= 10 ==> step == ConnectStep::<C, E>::Failed(
            outcome->Err_0,
        ),
{
}

/// An attempt to take a connection out of a pool that succeeds is the last one. One that fails is
/// followed by another one after about a second, unless it was the third: its error is what
/// remains. Whether the pool traces its connections is handed on.
pub proof fn acquiring_is_tried_three_times<C, E>(
    acquire: AcquireConnection,
    outcome: Result<C, E>,
    step: AcquireStep<C, E>,
)
    requires
        call_ensures(AcquireConnection::attempted::<C, E>, (acquire, outcome), step),
    ensures
        outcome matches Ok(conn) ==> step == AcquireStep::<C, E>::Acquired(conn),
        outcome is Err && acquire.failures() + 1 < 3 ==> {
            &&& step matches AcquireStep::BackOff { error, average, next }
            &&& error == outcome->Err_0
            &&& average@ == 1_000_000_000
            &&& next.failures() == acquire.failures() + 1
            &&& next.traced() == acquire.traced()
        },
        outcome is Err && acquire.failures() + 1 >= 3 ==> {
            &&& step matches AcquireStep::Exhausted(failure)
            &&& failure.error == outcome->Err_0
            &&& failure.traced == acquire.traced()
        },
{
}

/// A pool is observed before an attempt exactly if there would be another attempt after its
/// failure.
pub proof fn pool_is_observed_before_attempts_that_are_retried<C, E>(
    acquire: AcquireConnection,
    observes: bool,
    error: E,
    step: AcquireStep<C, E>,
)
    requires
        call_ensures(AcquireConnection::observes_pool, (&acquire,), observes),
        call_ensures(
            AcquireConnection::attempted::<C, E>,
            (acquire, Err::<C, E>(error)),
            step,
        ),
    ensures
        observes <==> step is BackOff,
        !observes <==> step is Exhausted,
{
}

/// The URL that is connected to is the one of the attempts.
pub proof fn target_is_read(connect: ConnectTo, url: &str)
    requires
        call_ensures(ConnectTo::db_url, (&connect,), url),
    ensures
        url@ == connect.target(),
{
}

/// The text of a failure begins with who asked for the connection, between brackets, and goes on
/// with the whole error of the last attempt. The active connections stand at its end, whole, if the
/// pool traces them; otherwise the error does.
pub proof fn failure_is_told_whole<E>(
    failure: AcquireFailure<E>,
    tags: &str,
    error: &str,
    active: &str,
    text: String,
)
    requires
        call_ensures(AcquireFailure::<E>::message, (&failure, tags, error, active), text),
    ensures
        ("Run out of retries getting a DB connection ("@ + tags@ + "), last error: "@
            + error@).is_prefix_of(text@),
        failure.traced ==> {
            &&& ("\nActive connections: "@ + active@).is_suffix_of(text@)
            &&& text@.len() == "Run out of retries getting a DB connection ("@.len() + tags@.len()
                + "), last error: "@.len() + error@.len() + "\nActive connections: "@.len()
                + active@.len()
        },
        !failure.traced ==> {
            &&& error@.is_suffix_of(text@)
            &&& text@.len() == "Run out of retries getting a DB connection ("@.len() + tags@.len()
                + "), last error: "@.len() + error@.len()
        },
{
    let cause = "Run out of retries getting a DB connection ("@ + tags@ + "), last error: "@
        + error@;
    let shown = "\nActive connections: "@ + active@;
    if failure.traced {
        assert(text@ == cause + shown);
        assert(cause == text@.take(cause.len() as int));
        assert(shown == text@.skip(cause.len() as int));
    } else {
        assert(error@ == text@.skip(text@.len() - error@.len()));
    }
}

} // verus!
