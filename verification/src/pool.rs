//! Connection pools.

use crate::builder::BuilderView;
use crate::builder::ConnectionPoolBuilder;
use crate::duration::Duration;
use crate::duration::NANOS_PER_SEC;
use crate::external;
use crate::retry::AcquireConnection;
use crate::template;
use crate::template::test_countable_if_set;
use crate::template::CreateDb;
use crate::template::TemplateError;
use crate::template::TestTemplate;
use crate::text;
use crate::text::decimal_string;
use vstd::prelude::*;

verus! {

/// A pool of connections to one database.
pub struct ConnectionPool {
    database_url: String,
    max_size: u32,
    traced: bool,
}

/// What is known of a pool.
pub struct PoolView {
    pub database_url: Seq<char>,
    pub max_size: u32,
    /// Whether the pool traces its active connections.
    pub traced: bool,
}

impl View for ConnectionPool {
    type V = PoolView;

    closed spec fn view(&self) -> PoolView {
        PoolView { database_url: self.database_url@, max_size: self.max_size, traced: self.traced }
    }
}

impl Clone for ConnectionPool {
    fn clone(&self) -> (pool: Self)
        ensures
            pool@ == self@,
    {
        ConnectionPool {
            database_url: self.database_url.clone(),
            max_size: self.max_size,
            traced: self.traced,
        }
    }
}

impl ConnectionPool {
    /// The pool of at most `max_size` connections to the database at `database_url`, which does
    /// not trace its active connections.
    pub(crate) fn new(database_url: String, max_size: u32) -> (pool: Self)
        ensures
            pool@ == (PoolView { database_url: database_url@, max_size, traced: false }),
    {
        ConnectionPool { database_url, max_size, traced: false }
    }

    /// Initializes a builder for connection pools.
    pub fn builder(database_url: &str, max_pool_size: u32) -> (builder: ConnectionPoolBuilder)
        ensures
            builder@ == default_settings(database_url@, max_pool_size),
    {
        ConnectionPoolBuilder::new(database_url, max_pool_size)
    }

    /// Initializes a builder for connection pools with a single connection. This is equivalent to
    /// calling `Self::builder(database_url, 1)`.
    pub fn singleton(database_url: &str) -> (builder: ConnectionPoolBuilder)
        ensures
            builder@ == default_settings(database_url@, 1),
    {
        Self::builder(database_url, 1)
    }

    /// Returns the maximum number of connections in this pool specified during its creation. This
    /// number may be distinct from the current number of connections in the pool (including idle
    /// ones).
    pub fn max_size(&self) -> (max_size: u32)
        ensures
            max_size == self@.max_size,
    {
        self.max_size
    }

    /// Returns the URL of the database.
    pub fn database_url(&self) -> (url: &str)
        ensures
            url@ == self@.database_url,
    {
        self.database_url.as_str()
    }

    /// Begins to take a connection out of the pool.
    pub fn acquire_connection_retried(&self) -> (acquire: AcquireConnection)
        ensures
            acquire.failures() == 0,
            acquire.traced() == self@.traced,
    {
        AcquireConnection::new(self.traced)
    }

    /// Begins to get access to the storage, over several attempts to take a connection out of the
    /// pool.
    pub fn access_storage(&self) -> (request: StorageRequest)
        ensures
            request.acquire.failures() == 0,
            request.acquire.traced() == self@.traced,
            request.pending.tags() is None,
            request.pending.traced() == self@.traced,
    {
        self.access_storage_inner(None)
    }

    /// A version of `access_storage` that also exposes the duration of the connection acquisition
    /// tagged to the `requester` name, and keeps the place in the code that asks for access.
    pub fn access_storage_tagged(&self, requester: &'static str, location: CodeLocation) -> (request:
        StorageRequest)
        ensures
            request.acquire.failures() == 0,
            request.acquire.traced() == self@.traced,
            request.pending.tags() == Some(StorageProcessorTags { requester, location }),
            request.pending.traced() == self@.traced,
    {
        self.access_storage_inner(Some(StorageProcessorTags { requester, location }))
    }

    /// Begins to get access to the storage for the one whom `tags` describe, if they are given.
    fn access_storage_inner(&self, tags: Option<StorageProcessorTags>) -> (request: StorageRequest)
        ensures
            request.acquire.failures() == 0,
            request.acquire.traced() == self@.traced,
            request.pending.tags() == tags,
            request.pending.traced() == self@.traced,
    {
        StorageRequest {
            acquire: self.acquire_connection_retried(),
            pending: PendingAccess { tags, traced: self.traced },
        }
    }

    /// Begins to create a test pool with a reasonably large number of connections.
    ///
    /// Test pools trace their active connections. If acquiring a connection fails (e.g., with a
    /// timeout), the returned error contains information on all active connections.
    pub fn test_pool() -> (test_pool: TestPool)
        ensures
            test_pool.connections() == 50,
    {
        // Expected to be enough for any unit test.
        Self::constrained_test_pool(50)
    }

    /// Same as [`Self::test_pool()`], but with a configurable number of connections. This is useful
    /// to test behavior of components that rely on singleton / constrained pools in production.
    pub fn constrained_test_pool(connections: u32) -> (test_pool: TestPool)
        requires
            connections > 0,
        ensures
            test_pool.connections() == connections,
    {
        TestPool { connections }
    }

    /// Returns the text that the pool is shown as. The database URL is not part of it, since it may
    /// hold a password.
    pub fn debug_string(&self) -> (text: String)
        ensures
            text@ == self@.debug_text(),
    {
        let mut text = "ConnectionPool { max_size: ".to_owned();
        text.append(decimal_string(self.max_size as u64).as_str());
        text.append(", .. }");
        text
    }
}

impl PoolView {
    /// The text that a pool is shown as.
    pub open spec fn debug_text(self) -> Seq<char> {
        "ConnectionPool { max_size: "@ + text::decimal(self.max_size as nat) + ", .. }"@
    }
}

/// What a pool is shown as does not depend on its database URL.
pub proof fn debug_text_hides_the_url(pool: PoolView, other_url: Seq<char>)
    ensures
        pool.debug_text() == (PoolView { database_url: other_url, ..pool }).debug_text(),
{
}

/// A place in the code.
#[derive(Clone, Copy, Debug, PartialEq, Eq)]
pub struct CodeLocation {
    pub file: &'static str,
    pub line: u32,
    pub column: u32,
}

/// Who asks for access to the storage.
#[derive(Clone, Copy, Debug, PartialEq, Eq)]
pub struct StorageProcessorTags {
    pub requester: &'static str,
    pub location: CodeLocation,
}

/// Access to the storage that has been asked for.
pub struct StorageRequest {
    /// The attempts to take a connection out of the pool.
    pub acquire: AcquireConnection,
    /// The access, once there is a connection.
    pub pending: PendingAccess,
}

/// Access to the storage that lacks a connection.
pub struct PendingAccess {
    tags: Option<StorageProcessorTags>,
    traced: bool,
}

/// Access to the storage over a connection.
#[derive(Debug)]
pub struct StorageAccess<C> {
    pub connection: C,
    /// Who asked for access, if this is known.
    pub tags: Option<StorageProcessorTags>,
    /// Whether the connection is to be traced.
    pub traced: bool,
}

/// There is no access to the storage, because no connection could be taken out of the pool.
#[derive(Debug)]
pub struct AccessError<E>(pub E);

impl<E> AccessError<E> {
    /// What was being done when the error came.
    pub fn context(&self) -> (text: &'static str)
        ensures
            text@ == "acquire_connection_retried()"@,
    {
        "acquire_connection_retried()"
    }
}

impl PendingAccess {
    /// Who asks for access, if this is known.
    pub closed spec fn tags(self) -> Option<StorageProcessorTags> {
        self.tags
    }

    /// Whether the connection is to be traced.
    pub closed spec fn traced(self) -> bool {
        self.traced
    }

    /// Returns who asks for access, if this is known.
    pub fn requested_by(&self) -> (tags: Option<StorageProcessorTags>)
        ensures
            tags == self.tags(),
    {
        self.tags
    }

    /// Takes note of whether there is a connection.
    pub fn acquired<C, E>(self, outcome: Result<C, E>) -> (result: Result<
        StorageAccess<C>,
        AccessError<E>,
    >)
        ensures
            match outcome {
                Ok(connection) => result == Ok::<StorageAccess<C>, AccessError<E>>(
                    StorageAccess { connection, tags: self.tags(), traced: self.traced() },
                ),
                Err(error) => result == Err::<StorageAccess<C>, AccessError<E>>(
                    AccessError(error),
                ),
            },
    {
        match outcome {
            Ok(connection) => Ok(
                StorageAccess { connection, tags: self.tags, traced: self.traced },
            ),
            Err(error) => Err(AccessError(error)),
        }
    }
}

impl<C> StorageAccess<C> {
    /// Returns the name that the time it took to get access is counted under, besides being
    /// counted for the pool as a whole. There is one where it is known who asked for access.
    pub fn observed_requester(&self) -> (requester: Option<&'static str>)
        ensures
            requester == match self.tags {
                Some(tags) => Some(tags.requester),
                None => None,
            },
    {
        match &self.tags {
            Some(tags) => Some(tags.requester),
            None => None,
        }
    }
}

/// How long a single attempt to take a connection out of a test pool may last, in seconds.
pub const TEST_ACQUIRE_TIMEOUT_SECS: u64 = 1;

/// A test pool that is being created: a template for its database is needed.
pub struct TestPool {
    connections: u32,
}

/// A test pool that is being created: its database has to be made.
pub struct TestPoolDatabase {
    template: TestTemplate,
    connections: u32,
}

/// A test pool that is being created: it has to be built.
pub struct TestPoolBuild {
    /// The builder to use.
    pub builder: ConnectionPoolBuilder,
}

/// Why there is no test pool.
#[derive(Debug)]
pub enum TestPoolError<E> {
    /// There is no template to make the database from.
    Template(E),
    /// The database could not be made.
    Database(E),
    /// The pool could not be built.
    Pool(E),
}

impl<E> TestPoolError<E> {
    /// The text of the error.
    pub fn message(&self) -> (text: &'static str)
        ensures
            text@ == match self {
                TestPoolError::Template(_) => "failed creating test template"@,
                TestPoolError::Database(_) => "failed creating database for tests"@,
                TestPoolError::Pool(_) => "cannot build connection pool"@,
            },
    {
        match self {
            TestPoolError::Template(_) => "failed creating test template",
            TestPoolError::Database(_) => "failed creating database for tests",
            TestPoolError::Pool(_) => "cannot build connection pool",
        }
    }
}

impl TestPool {
    /// How many connections the pool holds at most.
    pub closed spec fn connections(self) -> u32 {
        self.connections
    }

    /// Whether `result` is what comes of looking for the template at the URL `db_url`.
    pub open spec fn has_template(
        self,
        db_url: Option<&str>,
        result: Result<TestPoolDatabase, TestPoolError<TemplateError>>,
    ) -> bool {
        match template::template_at(db_url) {
            Ok(text) => {
                &&& result matches Ok(next)
                &&& next.template() == text
                &&& next.connections() == self.connections()
            },
            Err(error) => result == Err::<TestPoolDatabase, TestPoolError<TemplateError>>(
                TestPoolError::Template(error),
            ),
        }
    }

    /// Looks for the template at the URL `db_url`, which is what the environment variable
    /// `TEST_DATABASE_URL` holds, if it is set.
    pub fn template(self, db_url: Option<&str>) -> (result: Result<
        TestPoolDatabase,
        TestPoolError<TemplateError>,
    >)
        requires
            template::is_countable_if_set(db_url),
        ensures
            self.has_template(db_url, result),
    {
        match TestTemplate::empty(db_url) {
            Ok(template) => Ok(TestPoolDatabase { template, connections: self.connections }),
            Err(error) => Err(TestPoolError::Template(error)),
        }
    }

    /// Looks for the template at the URL `db_url`, as for `template`, unless the URL is too long to
    /// be parsed.
    pub fn checked_template(self, db_url: Option<&str>) -> (result: Option<
        Result<TestPoolDatabase, TestPoolError<TemplateError>>,
    >)
        ensures
            match result {
                Some(result) => template::is_countable_if_set(db_url) && self.has_template(
                    db_url,
                    result,
                ),
                None => !template::is_countable_if_set(db_url),
            },
    {
        if test_countable_if_set(db_url) {
            Some(self.template(db_url))
        } else {
            None
        }
    }
}

impl TestPoolDatabase {
    /// The text of the URL of the template.
    pub closed spec fn template(self) -> Seq<char> {
        self.template.text()
    }

    /// How many connections the pool holds at most.
    pub closed spec fn connections(self) -> u32 {
        self.connections
    }

    /// Begins to make the database, if its URL stays within the supported size.
    pub fn checked_create_db(&self) -> (create: Option<CreateDb>)
        ensures
            match create {
                Some(create) => {
                    &&& template::has_room_for_test_db(self.template())
                    &&& create.template() == self.template()
                    &&& create.connections() == self.connections()
                },
                None => !template::has_room_for_test_db(self.template()),
            },
    {
        self.template.checked_create_db(self.connections)
    }

    /// Takes note of whether the database was made, and shortens the time that an attempt to take
    /// a connection out of the pool may last.
    pub fn created<E>(self, outcome: Result<ConnectionPoolBuilder, E>) -> (result: Result<
        TestPoolBuild,
        TestPoolError<E>,
    >)
        ensures
            match outcome {
                Ok(builder) => {
                    &&& result matches Ok(next)
                    &&& next.builder@ == builder@.with_acquire_timeout(
                        Some(TEST_ACQUIRE_TIMEOUT_SECS as nat * NANOS_PER_SEC as nat),
                    )
                },
                Err(error) => result == Err::<TestPoolBuild, TestPoolError<E>>(
                    TestPoolError::Database(error),
                ),
            },
    {
        match outcome {
            Ok(builder) => {
                let mut builder = builder;
                builder.set_acquire_timeout(Some(Duration::from_secs(TEST_ACQUIRE_TIMEOUT_SECS)));
                Ok(TestPoolBuild { builder })
            },
            Err(error) => Err(TestPoolError::Database(error)),
        }
    }
}

impl TestPoolBuild {
    /// Takes note of whether the pool was built, and makes it trace its active connections.
    pub fn built<P, E>(self, outcome: Result<(ConnectionPool, P), E>) -> (result: Result<
        (ConnectionPool, P),
        TestPoolError<E>,
    >)
        ensures
            match outcome {
                Ok(built) => {
                    &&& result matches Ok(pool)
                    &&& pool.0@ == (PoolView { traced: true, ..built.0@ })
                    &&& pool.1 == built.1
                },
                Err(error) => result == Err::<(ConnectionPool, P), TestPoolError<E>>(
                    TestPoolError::Pool(error),
                ),
            },
    {
        match outcome {
            Ok((pool, inner)) => {
                let mut pool = pool;
                pool.traced = true;
                Ok((pool, inner))
            },
            Err(error) => Err(TestPoolError::Pool(error)),
        }
    }
}

/// A test pool is built with the number of connections that was asked for, an acquire timeout of
/// one second and no statement timeout.
pub proof fn test_pool_settings(database_url: Seq<char>, connections: u32)
    ensures
        default_settings(database_url, connections).with_acquire_timeout(
            Some(TEST_ACQUIRE_TIMEOUT_SECS as nat * NANOS_PER_SEC as nat),
        ) == (BuilderView {
            database_url,
            max_size: connections,
            acquire_timeout: NANOS_PER_SEC as nat,
            statement_timeout: None,
        }),
{
}

/// The settings that a builder begins with.
pub open spec fn default_settings(database_url: Seq<char>, max_pool_size: u32) -> BuilderView {
    BuilderView {
        database_url,
        max_size: max_pool_size,
        acquire_timeout: 30 * NANOS_PER_SEC as nat,
        statement_timeout: None,
    }
}

/// A builder begins with the URL and the size that it is made for, with an acquire timeout of 30
/// seconds and without a statement timeout. One for a single connection is that for a size of 1.
pub proof fn builders_begin_with_what_they_are_made_for(
    database_url: &str,
    max_pool_size: u32,
    builder: ConnectionPoolBuilder,
    single: ConnectionPoolBuilder,
)
    requires
        call_ensures(ConnectionPool::builder, (database_url, max_pool_size), builder),
        call_ensures(ConnectionPool::singleton, (database_url,), single),
    ensures
        builder@.database_url == database_url@,
        builder@.max_size == max_pool_size,
        builder@.acquire_timeout == 30_000_000_000,
        builder@.statement_timeout is None,
        single@ == (BuilderView { max_size: 1, ..builder@ }),
{
}

/// What is read of a pool is what it was built for, and a cloned pool is the same.
pub proof fn pools_are_read(pool: ConnectionPool, copy: ConnectionPool, max_size: u32, url: &str)
    requires
        call_ensures(ConnectionPool::clone, (&pool,), copy),
        call_ensures(ConnectionPool::max_size, (&copy,), max_size),
        call_ensures(ConnectionPool::database_url, (&copy,), url),
    ensures
        max_size == pool@.max_size,
        url@ == pool@.database_url,
        copy@.traced == pool@.traced,
{
}

/// What a pool is shown as has its size in digits, and nothing besides.
pub proof fn debug_string_shows_the_size(pool: ConnectionPool, text: String)
    requires
        call_ensures(ConnectionPool::debug_string, (&pool,), text),
    ensures
        "ConnectionPool { max_size: "@.is_prefix_of(text@),
        ", .. }"@.is_suffix_of(text@),
        text::reads_as(
            text@.subrange(
                "ConnectionPool { max_size: "@.len() as int,
                text@.len() - ", .. }"@.len(),
            ),
            pool@.max_size as int,
        ),
{
    let front = "ConnectionPool { max_size: "@;
    let back = ", .. }"@;
    let digits = text::decimal(pool@.max_size as nat);
    text::decimal_reads_back(pool@.max_size as nat);
    let all = front + digits + back;
    assert(all.subrange(front.len() as int, all.len() - back.len()) == digits);
    assert(front == all.take(front.len() as int));
    assert(back == all.skip(all.len() - back.len()));
}

/// Access that is asked for without tags is without them once there is a connection; it is over
/// that connection, and traced if the pool traces its connections.
pub proof fn access_is_over_the_acquired_connection<C, E>(
    pool: ConnectionPool,
    request: StorageRequest,
    outcome: Result<C, E>,
    result: Result<StorageAccess<C>, AccessError<E>>,
)
    requires
        call_ensures(ConnectionPool::access_storage, (&pool,), request),
        call_ensures(PendingAccess::acquired::<C, E>, (request.pending, outcome), result),
    ensures
        request.acquire.failures() == 0,
        request.acquire.traced() == pool@.traced,
        outcome matches Ok(connection) ==> {
            &&& result matches Ok(access)
            &&& access.connection == connection
            &&& access.tags is None
            &&& access.traced == pool@.traced
        },
        outcome matches Err(error) ==> result == Err::<StorageAccess<C>, AccessError<E>>(
            AccessError(error),
        ),
{
}

/// Access that is asked for with tags keeps who asked for it, and where, up to the connection, and
/// its time is counted under that name.
pub proof fn tagged_access_keeps_who_asked<C, E>(
    pool: ConnectionPool,
    requester: &'static str,
    location: CodeLocation,
    request: StorageRequest,
    tags: Option<StorageProcessorTags>,
    connection: C,
    access: StorageAccess<C>,
    observed: Option<&'static str>,
)
    requires
        call_ensures(
            ConnectionPool::access_storage_tagged,
            (&pool, requester, location),
            request,
        ),
        call_ensures(PendingAccess::requested_by, (&request.pending,), tags),
        call_ensures(
            PendingAccess::acquired::<C, E>,
            (request.pending, Ok::<C, E>(connection)),
            Ok::<StorageAccess<C>, AccessError<E>>(access),
        ),
        call_ensures(StorageAccess::<C>::observed_requester, (&access,), observed),
    ensures
        request.acquire.failures() == 0,
        request.acquire.traced() == pool@.traced,
        tags == Some(StorageProcessorTags { requester, location }),
        access.connection == connection,
        access.tags == tags,
        access.traced == pool@.traced,
        observed == Some(requester),
{
}

/// Where it is not known who asked for access, its time is counted under no name.
pub proof fn untagged_access_is_not_counted<C>(
    access: StorageAccess<C>,
    observed: Option<&'static str>,
)
    requires
        access.tags is None,
        call_ensures(StorageAccess::<C>::observed_requester, (&access,), observed),
    ensures
        observed is None,
{
}

/// A connection is taken out of a pool from the first attempt on, and traced as those of the pool
/// are.
pub proof fn acquiring_begins_without_failures(pool: ConnectionPool, acquire: AcquireConnection)
    requires
        call_ensures(ConnectionPool::acquire_connection_retried, (&pool,), acquire),
    ensures
        acquire.failures() == 0,
        acquire.traced() == pool@.traced,
{
}

/// A test pool has 50 connections, or as many as were asked for.
pub proof fn test_pools_are_as_large_as_asked_for(
    connections: u32,
    constrained: TestPool,
    default_pool: TestPool,
)
    requires
        call_ensures(ConnectionPool::constrained_test_pool, (connections,), constrained),
        call_ensures(ConnectionPool::test_pool, (), default_pool),
    ensures
        constrained.connections() == connections,
        default_pool.connections() == 50,
{
}

/// A test pool looks for its template where the URL says: without one it is told so, a URL that is
/// accepted is the template's, and one that is not is told with its error.
pub proof fn test_pool_has_the_template_at_the_url(
    test_pool: TestPool,
    db_url: Option<&str>,
    result: Result<TestPoolDatabase, TestPoolError<TemplateError>>,
    checked: Option<Result<TestPoolDatabase, TestPoolError<TemplateError>>>,
)
    requires
        call_ensures(TestPool::template, (test_pool, db_url), result),
        call_ensures(TestPool::checked_template, (test_pool, db_url), checked),
    ensures
        checked is None <==> db_url is Some && db_url->Some_0@.len() > 2_147_483_647,
        is_looked_for_at(test_pool, db_url, result),
        checked is Some ==> is_looked_for_at(test_pool, db_url, checked->Some_0),
{
    template::template_is_at_the_url(db_url);
}

/// Whether `result` is due to the URL `db_url`: its absence, its text or the error that it is
/// refused with.
pub open spec fn is_looked_for_at(
    test_pool: TestPool,
    db_url: Option<&str>,
    result: Result<TestPoolDatabase, TestPoolError<TemplateError>>,
) -> bool {
    &&& db_url is None <==> result == Err::<TestPoolDatabase, TestPoolError<TemplateError>>(
        TestPoolError::Template(TemplateError::UrlNotSet),
    )
    &&& db_url matches Some(url) ==> match external::parsed_url(url@) {
        Ok(_) => {
            &&& result matches Ok(next)
            &&& next.template() == url@
            &&& next.connections() == test_pool.connections()
        },
        Err(error) => result == Err::<TestPoolDatabase, TestPoolError<TemplateError>>(
            TestPoolError::Template(TemplateError::InvalidUrl(error)),
        ),
    }
}

/// The database of a test pool is made from the template that was found, for as many connections as
/// were asked for; only a URL near the largest size is refused.
pub proof fn test_pool_database_is_made_from_the_template(
    database: TestPoolDatabase,
    create: Option<CreateDb>,
)
    requires
        call_ensures(TestPoolDatabase::checked_create_db, (&database,), create),
    ensures
        create matches Some(create) ==> {
            &&& create.template() == database.template()
            &&& create.connections() == database.connections()
        },
        external::parsed_url(database.template())->Ok_0.len() <= 4_294_966_000 ==> create is Some,
{
    if external::parsed_url(database.template())->Ok_0.len() <= 4_294_966_000 {
        template::urls_have_room_for_a_test_db(database.template());
    }
}

/// A test pool is built with the settings of its database, except that an attempt to take a
/// connection out of it may last for one second.
pub proof fn test_pool_is_impatient<E>(
    database: TestPoolDatabase,
    outcome: Result<ConnectionPoolBuilder, E>,
    result: Result<TestPoolBuild, TestPoolError<E>>,
)
    requires
        call_ensures(TestPoolDatabase::created::<E>, (database, outcome), result),
    ensures
        outcome matches Ok(builder) ==> {
            &&& result matches Ok(next)
            &&& next.builder@.acquire_timeout == 1_000_000_000
            &&& next.builder@.database_url == builder@.database_url
            &&& next.builder@.max_size == builder@.max_size
            &&& next.builder@.statement_timeout == builder@.statement_timeout
        },
        outcome matches Err(error) ==> result == Err::<TestPoolBuild, TestPoolError<E>>(
            TestPoolError::Database(error),
        ),
{
}

/// A test pool that is built traces its connections, and is otherwise the pool that was built.
pub proof fn test_pool_traces_its_connections<P, E>(
    build: TestPoolBuild,
    outcome: Result<(ConnectionPool, P), E>,
    result: Result<(ConnectionPool, P), TestPoolError<E>>,
)
    requires
        call_ensures(TestPoolBuild::built::<P, E>, (build, outcome), result),
    ensures
        outcome matches Ok(built) ==> {
            &&& result matches Ok(pool)
            &&& pool.0@.traced
            &&& pool.0@.max_size == built.0@.max_size
            &&& pool.0@.database_url == built.0@.database_url
            &&& pool.1 == built.1
        },
        outcome matches Err(error) ==> result == Err::<(ConnectionPool, P), TestPoolError<E>>(
            TestPoolError::Pool(error),
        ),
{
}

} // verus!
