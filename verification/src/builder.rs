//! Settings of a connection pool, and the pool that comes of them.

use crate::duration::Duration;
use crate::duration::NANOS_PER_SEC;
use crate::external;
use crate::external::add_startup_option;
use crate::external::duration_string;
use crate::external::parse_connect_options;
use crate::pool::ConnectionPool;
use crate::pool::PoolView;
use crate::text;
use crate::text::decimal_string;
use crate::url_text;
use crate::url_text::test_countable;
use sqlx::postgres::PgConnectOptions;
use vstd::prelude::*;

verus! {

/// Builder for [`ConnectionPool`]s.
pub struct ConnectionPoolBuilder {
    database_url: String,
    max_size: u32,
    acquire_timeout: Duration,
    statement_timeout: Option<Duration>,
}

/// The settings of a builder, with spans of time in nanoseconds.
pub struct BuilderView {
    pub database_url: Seq<char>,
    pub max_size: u32,
    pub acquire_timeout: nat,
    pub statement_timeout: Option<nat>,
}

/// The nanoseconds of a span of time, if there is one.
pub open spec fn nanos_of(timeout: Option<Duration>) -> Option<nat> {
    match timeout {
        Some(timeout) => Some(timeout@),
        None => None,
    }
}

impl BuilderView {
    /// These settings with another maximum number of connections.
    pub open spec fn with_max_size(self, max_size: u32) -> Self {
        BuilderView { max_size, ..self }
    }

    /// These settings with another acquire timeout, if one is given.
    pub open spec fn with_acquire_timeout(self, timeout: Option<nat>) -> Self {
        match timeout {
            Some(timeout) => BuilderView { acquire_timeout: timeout, ..self },
            None => self,
        }
    }

    /// These settings with another statement timeout, or without one.
    pub open spec fn with_statement_timeout(self, timeout: Option<nat>) -> Self {
        BuilderView { statement_timeout: timeout, ..self }
    }

    /// The text that a builder with these settings is shown as.
    pub open spec fn debug_text(self) -> Seq<char> {
        "ConnectionPoolBuilder { max_size: "@ + text::decimal(self.max_size as nat)
            + ", acquire_timeout: "@ + timeout_text(self.acquire_timeout)
            + ", statement_timeout: "@ + match self.statement_timeout {
            Some(timeout) => "Some("@ + timeout_text(timeout) + ")"@,
            None => "None"@,
        } + " }"@
    }

    /// The connection options that come of those which the database URL is parsed to.
    pub open spec fn connect_options(self, parsed: PgConnectOptions) -> PgConnectOptions {
        match self.statement_timeout {
            Some(timeout) => external::with_startup_option(
                parsed,
                "statement_timeout"@,
                statement_timeout_text(timeout),
            ),
            None => parsed,
        }
    }
}

impl BuilderView {
    /// The options that are sent to the server when a connection starts, where the database URL is
    /// parsed to `parsed`.
    pub open spec fn startup_options(self, parsed: PgConnectOptions) -> Option<Seq<char>> {
        match self.statement_timeout {
            Some(timeout) => Some(
                external::appended_option(
                    external::startup_options(parsed),
                    "statement_timeout"@,
                    statement_timeout_text(timeout),
                ),
            ),
            None => external::startup_options(parsed),
        }
    }
}

/// The text that a span of `nanos` nanoseconds is shown as.
pub open spec fn timeout_text(nanos: nat) -> Seq<char> {
    external::duration_text(nanos / NANOS_PER_SEC as nat, nanos % NANOS_PER_SEC as nat)
}

/// Returns the text that a span of time is shown as.
fn timeout_string(timeout: Duration) -> (text: String)
    ensures
        text@ == timeout_text(timeout@),
{
    duration_string(timeout.as_secs(), timeout.subsec_nanos())
}

/// The value that limits statements to a span of `nanos` nanoseconds: its whole seconds.
pub open spec fn statement_timeout_text(nanos: nat) -> Seq<char> {
    text::decimal(nanos / NANOS_PER_SEC as nat) + "s"@
}

impl View for ConnectionPoolBuilder {
    type V = BuilderView;

    closed spec fn view(&self) -> BuilderView {
        BuilderView {
            database_url: self.database_url@,
            max_size: self.max_size,
            acquire_timeout: self.acquire_timeout@,
            statement_timeout: nanos_of(self.statement_timeout),
        }
    }
}

impl Clone for ConnectionPoolBuilder {
    fn clone(&self) -> (builder: Self)
        ensures
            builder@ == self@,
    {
        ConnectionPoolBuilder {
            database_url: self.database_url.clone(),
            max_size: self.max_size,
            acquire_timeout: self.acquire_timeout,
            statement_timeout: self.statement_timeout,
        }
    }
}

/// What is left to do to get a pool: connect with these options.
pub struct PoolPlan {
    /// How many connections the pool holds at most.
    pub max_connections: u32,
    /// How long a single attempt to take a connection out of the pool may last.
    pub acquire_timeout: Duration,
    /// Where and how to connect.
    pub connect_options: PgConnectOptions,
    /// The pool, once it is connected.
    pub pending: PendingPool,
}

/// A pool that is not connected yet.
pub struct PendingPool {
    database_url: String,
    max_size: u32,
}

/// Why there is no pool.
#[derive(Debug)]
pub enum BuildError {
    /// The database URL is not one.
    InvalidUrl(sqlx::Error),
    /// The database cannot be connected to.
    Connect(sqlx::Error),
}

impl BuildError {
    /// What was being done when the error came.
    pub fn context(&self) -> (text: &'static str)
        ensures
            text@ == match self {
                BuildError::InvalidUrl(_) => "Failed parsing database URL"@,
                BuildError::Connect(_) => "Failed connecting to database"@,
            },
    {
        match self {
            BuildError::InvalidUrl(_) => "Failed parsing database URL",
            BuildError::Connect(_) => "Failed connecting to database",
        }
    }
}

impl ConnectionPoolBuilder {
    /// The builder for a pool of at most `max_pool_size` connections to the database at
    /// `database_url`. An attempt to take a connection out of the pool may last for 30 seconds,
    /// and statements are not limited.
    pub(crate) fn new(database_url: &str, max_pool_size: u32) -> (builder: Self)
        ensures
            builder@ == (BuilderView {
                database_url: database_url@,
                max_size: max_pool_size,
                acquire_timeout: 30 * NANOS_PER_SEC as nat,
                statement_timeout: None,
            }),
    {
        ConnectionPoolBuilder {
            database_url: database_url.to_owned(),
            max_size: max_pool_size,
            acquire_timeout: Duration::from_secs(30),
            statement_timeout: None,
        }
    }

    /// Overrides the maximum number of connections that can be allocated by the pool.
    pub fn set_max_size(&mut self, max_size: u32) -> (builder: &mut Self)
        ensures
            builder@ == old(self)@.with_max_size(max_size),
            *final(self) == *final(builder),
    {
        self.max_size = max_size;
        self
    }

    /// Sets how long a single attempt to take a connection out of the pool may last. There are
    /// multiple attempts (currently 3) before access to the storage ends in an error. If not
    /// specified, the acquire timeout stays as it is.
    pub fn set_acquire_timeout(&mut self, timeout: Option<Duration>) -> (builder: &mut Self)
        ensures
            builder@ == old(self)@.with_acquire_timeout(nanos_of(timeout)),
            *final(self) == *final(builder),
    {
        if let Some(timeout) = timeout {
            self.acquire_timeout = timeout;
        }
        self
    }

    /// Sets the statement timeout for the pool. If not specified, statements are not limited.
    pub fn set_statement_timeout(&mut self, timeout: Option<Duration>) -> (builder: &mut Self)
        ensures
            builder@ == old(self)@.with_statement_timeout(nanos_of(timeout)),
            *final(self) == *final(builder),
    {
        self.statement_timeout = timeout;
        self
    }

    /// Returns the maximum number of connections that can be allocated by the pool.
    pub fn max_size(&self) -> (max_size: u32)
        ensures
            max_size == self@.max_size,
    {
        self.max_size
    }

    /// Returns how long a single attempt to take a connection out of the pool may last.
    pub fn acquire_timeout(&self) -> (timeout: Duration)
        ensures
            timeout@ == self@.acquire_timeout,
    {
        self.acquire_timeout
    }

    /// Returns the statement timeout, if there is one.
    pub fn statement_timeout(&self) -> (timeout: Option<Duration>)
        ensures
            nanos_of(timeout) == self@.statement_timeout,
    {
        self.statement_timeout
    }

    /// Returns the URL of the database.
    pub fn database_url(&self) -> (url: &str)
        ensures
            url@ == self@.database_url,
    {
        self.database_url.as_str()
    }

    /// Returns the text that the builder is shown as. The database URL is not part of it, since it
    /// may hold a password.
    pub fn debug_string(&self) -> (text: String)
        ensures
            text@ == self@.debug_text(),
    {
        let mut text = "ConnectionPoolBuilder { max_size: ".to_owned();
        text.append(decimal_string(self.max_size as u64).as_str());
        text.append(", acquire_timeout: ");
        text.append(timeout_string(self.acquire_timeout).as_str());
        text.append(", statement_timeout: ");
        match self.statement_timeout {
            Some(timeout) => {
                text.append("Some(");
                text.append(timeout_string(timeout).as_str());
                text.append(")");
            },
            None => text.append("None"),
        }
        text.append(" }");
        assert(text@ == self@.debug_text());
        text
    }

    /// The connection options that come of those which the database URL is parsed to: with the
    /// statement timeout among the options for the server, if one is set.
    pub fn connect_options(&self, parsed: PgConnectOptions) -> (options: PgConnectOptions)
        ensures
            options == self@.connect_options(parsed),
            external::startup_options(options) == self@.startup_options(parsed),
    {
        if let Some(timeout) = self.statement_timeout {
            let mut timeout_string = decimal_string(timeout.as_secs());
            timeout_string.append("s");
            add_startup_option(parsed, "statement_timeout", timeout_string.as_str())
        } else {
            parsed
        }
    }

    /// Whether `result` is how the pool that this builder describes is to be connected, or why it
    /// cannot be.
    pub open spec fn is_built_as(self, result: Result<PoolPlan, BuildError>) -> bool {
        let outcomes = external::connect_options_of(self@.database_url, usize::MAX as nat);
        let url = external::parsed_url(self@.database_url);
        &&& match result {
            Ok(plan) => {
                &&& outcomes is Ok
                &&& plan.max_connections == self@.max_size
                &&& plan.acquire_timeout@ == self@.acquire_timeout
                &&& exists|parsed: PgConnectOptions| #[trigger]
                    outcomes->Ok_0.contains(parsed) && plan.connect_options
                        == self@.connect_options(parsed) && external::startup_options(
                        plan.connect_options,
                    ) == self@.startup_options(parsed)
                &&& plan.pending.pool() == (PoolView {
                    database_url: self@.database_url,
                    max_size: self@.max_size,
                    traced: false,
                })
            },
            Err(error) => {
                &&& outcomes is Err
                &&& error == BuildError::InvalidUrl(outcomes->Err_0)
            },
        }
        &&& url is Err ==> result is Err
        &&& url is Ok && !self@.database_url.contains('?') && !self@.database_url.contains('%')
            ==> result is Ok
    }

    /// Works out how to connect the pool that this builder describes, unless its URL is too long to
    /// be parsed.
    pub fn checked_build(&self) -> (result: Option<Result<PoolPlan, BuildError>>)
        ensures
            match result {
                Some(result) => url_text::is_countable(self@.database_url) && self.is_built_as(
                    result,
                ),
                None => !url_text::is_countable(self@.database_url),
            },
    {
        if test_countable(self.database_url.as_str()) {
            Some(self.build())
        } else {
            None
        }
    }

    /// Works out how to connect the pool that this builder describes.
    pub fn build(&self) -> (result: Result<PoolPlan, BuildError>)
        requires
            url_text::is_countable(self@.database_url),
        ensures
            self.is_built_as(result),
    {
        match parse_connect_options(self.database_url.as_str()) {
            Ok(parsed) => {
                let connect_options = self.connect_options(parsed);
                Ok(
                    PoolPlan {
                        max_connections: self.max_size,
                        acquire_timeout: self.acquire_timeout,
                        connect_options,
                        pending: PendingPool {
                            database_url: self.database_url.clone(),
                            max_size: self.max_size,
                        },
                    },
                )
            },
            Err(error) => Err(BuildError::InvalidUrl(error)),
        }
    }
}

impl PendingPool {
    /// The pool that this becomes.
    pub closed spec fn pool(self) -> PoolView {
        PoolView { database_url: self.database_url@, max_size: self.max_size, traced: false }
    }

    /// Takes note of whether the pool was connected, and hands on what it is connected by.
    pub fn connected<P>(self, outcome: Result<P, sqlx::Error>) -> (result: Result<
        (ConnectionPool, P),
        BuildError,
    >)
        ensures
            match outcome {
                Ok(inner) => {
                    &&& result matches Ok(built)
                    &&& built.0@ == self.pool()
                    &&& built.1 == inner
                },
                Err(error) => result == Err::<(ConnectionPool, P), BuildError>(
                    BuildError::Connect(error),
                ),
            },
    {
        match outcome {
            Ok(inner) => Ok((ConnectionPool::new(self.database_url, self.max_size), inner)),
            Err(error) => Err(BuildError::Connect(error)),
        }
    }
}

/// Two spans of time limit statements in the same way exactly if they have the same whole seconds.
pub proof fn statement_timeouts_go_by_whole_seconds(a: nat, b: nat)
    ensures
        statement_timeout_text(a) == statement_timeout_text(b) <==> a / NANOS_PER_SEC as nat == b
            / NANOS_PER_SEC as nat,
{
    if statement_timeout_text(a) == statement_timeout_text(b) {
        reveal_strlit("s");
        let secs_a = a / NANOS_PER_SEC as nat;
        let secs_b = b / NANOS_PER_SEC as nat;
        assert(statement_timeout_text(a).drop_last() == text::decimal(secs_a));
        assert(statement_timeout_text(b).drop_last() == text::decimal(secs_b));
        text::decimal_is_injective(secs_a, secs_b);
    }
}

/// What a builder is shown as does not depend on its database URL.
pub proof fn debug_text_hides_the_url(settings: BuilderView, other_url: Seq<char>)
    ensures
        settings.debug_text() == (BuilderView { database_url: other_url, ..settings }).debug_text(),
{
}

/// The order in which different settings are made does not matter.
pub proof fn setters_commute(
    settings: BuilderView,
    max_size: u32,
    acquire: Option<nat>,
    statement: Option<nat>,
)
    ensures
        settings.with_max_size(max_size).with_acquire_timeout(acquire)
            == settings.with_acquire_timeout(acquire).with_max_size(max_size),
        settings.with_max_size(max_size).with_statement_timeout(statement)
            == settings.with_statement_timeout(statement).with_max_size(max_size),
        settings.with_acquire_timeout(acquire).with_statement_timeout(statement)
            == settings.with_statement_timeout(statement).with_acquire_timeout(acquire),
{
}

/// The last value of a setting is the one that counts. An acquire timeout that is not given
/// counts for nothing.
pub proof fn last_setting_counts(
    settings: BuilderView,
    first_size: u32,
    size: u32,
    first: Option<nat>,
    timeout: nat,
    statement: Option<nat>,
)
    ensures
        settings.with_max_size(first_size).with_max_size(size) == settings.with_max_size(size),
        settings.with_acquire_timeout(first).with_acquire_timeout(Some(timeout))
            == settings.with_acquire_timeout(Some(timeout)),
        settings.with_acquire_timeout(first).with_acquire_timeout(None)
            == settings.with_acquire_timeout(first),
        settings.with_statement_timeout(first).with_statement_timeout(statement)
            == settings.with_statement_timeout(statement),
{
}

/// Once a maximum size is set, it is the one that was given, and the other settings are as they
/// were.
pub proof fn set_max_size_is_read(
    builder: &mut ConnectionPoolBuilder,
    max_size: u32,
    set: &mut ConnectionPoolBuilder,
)
    requires
        call_ensures(ConnectionPoolBuilder::set_max_size, (builder, max_size), set),
    ensures
        old(set)@.max_size == max_size,
        old(set)@.database_url == old(builder)@.database_url,
        old(set)@.acquire_timeout == old(builder)@.acquire_timeout,
        old(set)@.statement_timeout == old(builder)@.statement_timeout,
        *final(builder) == *final(set),
{
}

/// Once an acquire timeout is set, it is the one that was given, or the one that there was if none
/// was given. The other settings are as they were.
pub proof fn set_acquire_timeout_is_read(
    builder: &mut ConnectionPoolBuilder,
    timeout: Option<Duration>,
    set: &mut ConnectionPoolBuilder,
)
    requires
        call_ensures(ConnectionPoolBuilder::set_acquire_timeout, (builder, timeout), set),
    ensures
        timeout matches Some(timeout) ==> old(set)@.acquire_timeout == timeout@,
        timeout is None ==> old(set)@.acquire_timeout == old(builder)@.acquire_timeout,
        old(set)@.database_url == old(builder)@.database_url,
        old(set)@.max_size == old(builder)@.max_size,
        old(set)@.statement_timeout == old(builder)@.statement_timeout,
        *final(builder) == *final(set),
{
}

/// Once a statement timeout is set, it is the one that was given, or there is none if none was
/// given. The other settings are as they were.
pub proof fn set_statement_timeout_is_read(
    builder: &mut ConnectionPoolBuilder,
    timeout: Option<Duration>,
    set: &mut ConnectionPoolBuilder,
)
    requires
        call_ensures(ConnectionPoolBuilder::set_statement_timeout, (builder, timeout), set),
    ensures
        timeout matches Some(timeout) ==> old(set)@.statement_timeout == Some(timeout@),
        timeout is None ==> old(set)@.statement_timeout is None,
        old(set)@.database_url == old(builder)@.database_url,
        old(set)@.max_size == old(builder)@.max_size,
        old(set)@.acquire_timeout == old(builder)@.acquire_timeout,
        *final(builder) == *final(set),
{
}

/// A setting changes nothing but itself, whatever it is set to.
pub proof fn settings_are_independent(
    settings: BuilderView,
    max_size: u32,
    timeout: Option<nat>,
)
    ensures
        settings.with_max_size(max_size).max_size == max_size,
        settings.with_max_size(max_size).database_url == settings.database_url,
        settings.with_max_size(max_size).acquire_timeout == settings.acquire_timeout,
        settings.with_max_size(max_size).statement_timeout == settings.statement_timeout,
        settings.with_acquire_timeout(timeout).acquire_timeout == timeout.unwrap_or(
            settings.acquire_timeout,
        ),
        settings.with_acquire_timeout(timeout).database_url == settings.database_url,
        settings.with_acquire_timeout(timeout).max_size == settings.max_size,
        settings.with_acquire_timeout(timeout).statement_timeout == settings.statement_timeout,
        settings.with_statement_timeout(timeout).statement_timeout == timeout,
        settings.with_statement_timeout(timeout).database_url == settings.database_url,
        settings.with_statement_timeout(timeout).max_size == settings.max_size,
        settings.with_statement_timeout(timeout).acquire_timeout == settings.acquire_timeout,
{
}

/// The settings that are read are those of the builder, and a cloned builder has the same ones.
pub proof fn settings_are_read(
    builder: ConnectionPoolBuilder,
    copy: ConnectionPoolBuilder,
    url: &str,
    max_size: u32,
    acquire_timeout: Duration,
    statement_timeout: Option<Duration>,
)
    requires
        call_ensures(ConnectionPoolBuilder::clone, (&builder,), copy),
        call_ensures(ConnectionPoolBuilder::database_url, (&copy,), url),
        call_ensures(ConnectionPoolBuilder::max_size, (&copy,), max_size),
        call_ensures(ConnectionPoolBuilder::acquire_timeout, (&copy,), acquire_timeout),
        call_ensures(ConnectionPoolBuilder::statement_timeout, (&copy,), statement_timeout),
    ensures
        url@ == builder@.database_url,
        max_size == builder@.max_size,
        acquire_timeout@ == builder@.acquire_timeout,
        statement_timeout is Some <==> builder@.statement_timeout is Some,
        statement_timeout matches Some(timeout) ==> builder@.statement_timeout == Some(timeout@),
{
}

/// Whether `options` is `before` with the server told besides to limit statements to the whole
/// seconds of `nanos` nanoseconds.
pub open spec fn limits_statements(
    options: Option<Seq<char>>,
    before: Option<Seq<char>>,
    nanos: nat,
) -> bool {
    let front = match before {
        Some(before) if before.len() > 0 => before + " "@,
        _ => Seq::empty(),
    };
    exists|secs: Seq<char>|
        {
            &&& #[trigger] text::reads_as(secs, (nanos / 1_000_000_000) as int)
            &&& options == Some(front + "-c statement_timeout="@ + secs + "s"@)
        }
}

/// What is sent to the server when a connection starts tells it to limit statements exactly if a
/// statement timeout is set, whatever the other settings are: to its whole seconds, behind what the
/// URL asks for.
proof fn startup_options_limit_statements(settings: BuilderView, parsed: PgConnectOptions)
    ensures
        settings.statement_timeout matches Some(timeout) ==> limits_statements(
            settings.startup_options(parsed),
            external::startup_options(parsed),
            timeout,
        ),
        settings.statement_timeout is None ==> settings.startup_options(parsed)
            == external::startup_options(parsed),
{
    if let Some(timeout) = settings.statement_timeout {
        reveal_strlit("-c ");
        reveal_strlit("statement_timeout");
        reveal_strlit("=");
        reveal_strlit("-c statement_timeout=");
        reveal_strlit(" ");
        let before = external::startup_options(parsed);
        let secs = text::decimal(timeout / 1_000_000_000);
        text::decimal_reads_back(timeout / 1_000_000_000);
        let setting = "-c statement_timeout="@ + secs + "s"@;
        assert("-c "@ + "statement_timeout"@ + "="@ == "-c statement_timeout="@);
        assert("-c "@ + "statement_timeout"@ + "="@ + (secs + "s"@) == setting);
        let front = match before {
            Some(before) if before.len() > 0 => before + " "@,
            _ => Seq::empty(),
        };
        assert(settings.startup_options(parsed) == Some(
            front + "-c statement_timeout="@ + secs + "s"@,
        )) by {
            assert(front + "-c statement_timeout="@ + secs + "s"@ == front + setting);
            assert(Seq::<char>::empty() + setting == setting);
        }
    }
}

/// The connection options of a builder tell the server to limit statements exactly if a statement
/// timeout is set, whatever the other settings are: to its whole seconds, behind what the URL asks
/// for. Otherwise they are those that the URL is parsed to.
pub proof fn connect_options_limit_statements(
    builder: ConnectionPoolBuilder,
    parsed: PgConnectOptions,
    options: PgConnectOptions,
)
    requires
        call_ensures(ConnectionPoolBuilder::connect_options, (&builder, parsed), options),
    ensures
        builder@.statement_timeout matches Some(timeout) ==> limits_statements(
            external::startup_options(options),
            external::startup_options(parsed),
            timeout,
        ),
        builder@.statement_timeout is None ==> options == parsed,
{
    startup_options_limit_statements(builder@, parsed);
}

/// The connection options depend on the statement timeout and on what the URL is parsed to, and on
/// no other setting.
pub proof fn connect_options_go_by_the_statement_timeout(
    a: ConnectionPoolBuilder,
    b: ConnectionPoolBuilder,
    parsed: PgConnectOptions,
    options_a: PgConnectOptions,
    options_b: PgConnectOptions,
)
    requires
        a@.statement_timeout == b@.statement_timeout,
        call_ensures(ConnectionPoolBuilder::connect_options, (&a, parsed), options_a),
        call_ensures(ConnectionPoolBuilder::connect_options, (&b, parsed), options_b),
    ensures
        options_a == options_b,
{
}

/// A pool is planned with the settings of its builder, whatever they are, and with connection
/// options that the URL is parsed to, with the statement timeout added if there is one. There is no
/// plan exactly if the URL is refused.
pub proof fn plan_has_the_settings(
    builder: ConnectionPoolBuilder,
    result: Result<PoolPlan, BuildError>,
)
    requires
        call_ensures(ConnectionPoolBuilder::build, (&builder,), result),
    ensures
        result matches Ok(plan) ==> {
            &&& plan.max_connections == builder@.max_size
            &&& plan.acquire_timeout@ == builder@.acquire_timeout
            &&& plan.pending.pool().database_url == builder@.database_url
            &&& plan.pending.pool().max_size == builder@.max_size
            &&& !plan.pending.pool().traced
            &&& exists|parsed: PgConnectOptions|
                #[trigger] external::connect_options_of(
                    builder@.database_url,
                    usize::MAX as nat,
                )->Ok_0.contains(parsed) && match builder@.statement_timeout {
                    Some(timeout) => limits_statements(
                        external::startup_options(plan.connect_options),
                        external::startup_options(parsed),
                        timeout,
                    ),
                    None => plan.connect_options == parsed,
                }
        },
        result is Ok <==> external::connect_options_of(
            builder@.database_url,
            usize::MAX as nat,
        ) is Ok,
        result matches Err(error) ==> error == BuildError::InvalidUrl(
            external::connect_options_of(builder@.database_url, usize::MAX as nat)->Err_0,
        ),
        external::parsed_url(builder@.database_url) is Err ==> result is Err,
        external::parsed_url(builder@.database_url) is Ok && !builder@.database_url.contains('?')
            && !builder@.database_url.contains('%') ==> result is Ok,
{
    if let Ok(plan) = result {
        let outcomes = external::connect_options_of(builder@.database_url, usize::MAX as nat);
        let parsed = choose|parsed: PgConnectOptions| #[trigger]
            outcomes->Ok_0.contains(parsed) && plan.connect_options == builder@.connect_options(
                parsed,
            ) && external::startup_options(plan.connect_options) == builder@.startup_options(
                parsed,
            );
        startup_options_limit_statements(builder@, parsed);
        assert(outcomes->Ok_0.contains(parsed));
    }
}

/// A plan is withheld exactly for a URL of more than 2,147,483,647 characters. Any other result is
/// one that the settings lead to.
pub proof fn checked_plan_has_the_settings(
    builder: ConnectionPoolBuilder,
    result: Option<Result<PoolPlan, BuildError>>,
)
    requires
        call_ensures(ConnectionPoolBuilder::checked_build, (&builder,), result),
    ensures
        result is None <==> builder@.database_url.len() > 2_147_483_647,
        result matches Some(Ok(plan)) ==> {
            &&& plan.max_connections == builder@.max_size
            &&& plan.acquire_timeout@ == builder@.acquire_timeout
            &&& plan.pending.pool().database_url == builder@.database_url
            &&& plan.pending.pool().max_size == builder@.max_size
            &&& exists|parsed: PgConnectOptions|
                #[trigger] external::connect_options_of(
                    builder@.database_url,
                    usize::MAX as nat,
                )->Ok_0.contains(parsed) && match builder@.statement_timeout {
                    Some(timeout) => limits_statements(
                        external::startup_options(plan.connect_options),
                        external::startup_options(parsed),
                        timeout,
                    ),
                    None => plan.connect_options == parsed,
                }
        },
        result matches Some(result) ==> (result is Ok <==> external::connect_options_of(
            builder@.database_url,
            usize::MAX as nat,
        ) is Ok),
        result matches Some(Err(error)) ==> error == BuildError::InvalidUrl(
            external::connect_options_of(builder@.database_url, usize::MAX as nat)->Err_0,
        ),
{
    if let Some(Ok(plan)) = result {
        let outcomes = external::connect_options_of(builder@.database_url, usize::MAX as nat);
        let parsed = choose|parsed: PgConnectOptions| #[trigger]
            outcomes->Ok_0.contains(parsed) && plan.connect_options == builder@.connect_options(
                parsed,
            ) && external::startup_options(plan.connect_options) == builder@.startup_options(
                parsed,
            );
        startup_options_limit_statements(builder@, parsed);
        assert(outcomes->Ok_0.contains(parsed));
    }
}

/// A pool that is planned and connected has the URL and the size of its builder, does not trace its
/// connections, and is connected by what was handed in. If it cannot be connected, the error says
/// so.
pub proof fn built_pool_has_the_settings<P>(
    builder: ConnectionPoolBuilder,
    plan: PoolPlan,
    outcome: Result<P, sqlx::Error>,
    result: Result<(ConnectionPool, P), BuildError>,
)
    requires
        call_ensures(
            ConnectionPoolBuilder::build,
            (&builder,),
            Ok::<PoolPlan, BuildError>(plan),
        ),
        call_ensures(PendingPool::connected::<P>, (plan.pending, outcome), result),
    ensures
        outcome matches Ok(inner) ==> {
            &&& result matches Ok(built)
            &&& built.0@.database_url == builder@.database_url
            &&& built.0@.max_size == builder@.max_size
            &&& !built.0@.traced
            &&& built.1 == inner
        },
        outcome matches Err(error) ==> result == Err::<(ConnectionPool, P), BuildError>(
            BuildError::Connect(error),
        ),
{
}

/// What a builder is shown as has its size in digits, and its timeouts split into whole seconds and
/// nanoseconds.
pub proof fn debug_string_shows_the_settings(builder: ConnectionPoolBuilder, text: String)
    requires
        call_ensures(ConnectionPoolBuilder::debug_string, (&builder,), text),
    ensures
        exists|size: Seq<char>, acquire: Seq<char>, statement: Seq<char>|
            {
                &&& text@ == "ConnectionPoolBuilder { max_size: "@ + size + ", acquire_timeout: "@
                    + acquire + ", statement_timeout: "@ + statement + " }"@
                &&& #[trigger] text::reads_as(size, builder@.max_size as int)
                &&& #[trigger] shows_span(acquire, builder@.acquire_timeout)
                &&& #[trigger] shows_optional_span(statement, builder@.statement_timeout)
            },
{
    let settings = builder@;
    text::decimal_reads_back(settings.max_size as nat);
    let acquire = timeout_text(settings.acquire_timeout);
    timeout_text_shows_the_span(settings.acquire_timeout);
    let statement = match settings.statement_timeout {
        Some(timeout) => {
            timeout_text_shows_the_span(timeout);
            "Some("@ + timeout_text(timeout) + ")"@
        },
        None => "None"@,
    };
    assert(shows_optional_span(statement, settings.statement_timeout));
}

/// Whether `text` is what the span of `nanos` nanoseconds is shown as.
pub open spec fn shows_span(text: Seq<char>, nanos: nat) -> bool {
    exists|secs: nat, rest: nat|
        secs * 1_000_000_000 + rest == nanos && rest < 1_000_000_000 && text
            == #[trigger] external::duration_text(secs, rest)
}

/// Whether `text` is what a span, or the lack of one, is shown as.
pub open spec fn shows_optional_span(text: Seq<char>, nanos: Option<nat>) -> bool {
    match nanos {
        Some(nanos) => exists|span: Seq<char>|
            #[trigger] shows_span(span, nanos) && text == "Some("@ + span + ")"@,
        None => text == "None"@,
    }
}

/// A span is shown as its whole seconds and nanoseconds are.
proof fn timeout_text_shows_the_span(nanos: nat)
    ensures
        shows_span(timeout_text(nanos), nanos),
{
    let secs = nanos / 1_000_000_000;
    let rest = nanos % 1_000_000_000;
    assert(timeout_text(nanos) == external::duration_text(secs, rest));
}

} // verus!
