//! Databases for tests, which are made by copying a template database.

use crate::builder::ConnectionPoolBuilder;
use crate::external;
use crate::external::parse_url;
use crate::external::path_of_url;
use crate::external::random_u64;
use crate::external::replace_path_of_url;
use crate::pool;
use crate::pool::ConnectionPool;
use crate::retry::AcquireConnection;
use crate::retry::ConnectTo;
use crate::text;
use crate::text::decimal_string;
use crate::url_text;
use crate::url_text::test_countable;
use vstd::prelude::*;

verus! {

/// The URL of a database that others are made from.
#[derive(Debug)]
pub struct TestTemplate {
    db_url: String,
}

/// Why there is no template.
#[derive(Debug)]
pub enum TemplateError {
    /// The environment variable with the URL is not set.
    UrlNotSet,
    /// The URL is not one.
    InvalidUrl(url::ParseError),
}

impl TemplateError {
    /// What to say besides the cause of the error, if there is anything to say.
    pub fn context(&self) -> (text: Option<&'static str>)
        ensures
            match self {
                TemplateError::UrlNotSet => text is Some && text->Some_0@
                    == "TEST_DATABASE_URL must be set. Normally, this is done by the 'zk' tool. Make sure that you are running the tests with 'zk test rust' command or equivalent."@,
                TemplateError::InvalidUrl(_) => text is None,
            },
    {
        match self {
            TemplateError::UrlNotSet => Some(
                "TEST_DATABASE_URL must be set. Normally, this is done by the 'zk' tool. Make sure that you are running the tests with 'zk test rust' command or equivalent.",
            ),
            TemplateError::InvalidUrl(_) => None,
        }
    }
}

/// Whether a URL with the path `path` names a database.
pub open spec fn names_database(path: Seq<char>) -> bool {
    path.len() > 0 && path[0] == '/'
}

/// Returns the name of the database in a URL with the path `path`: what comes behind the slash
/// that the path begins with.
pub fn database_in_path(path: &str) -> (name: Option<String>)
    ensures
        match name {
            Some(name) => names_database(path@) && name@ == path@.skip(1),
            None => !names_database(path@),
        },
{
    let len: usize = path.unicode_len();
    if len > 0 && path.get_char(0) == '/' {
        let name = path.substring_char(1, len).to_owned();
        assert(name@ == path@.skip(1));
        Some(name)
    } else {
        None
    }
}

/// How many characters the name of a test database has at most.
pub const TEST_DB_NAME_LEN: usize = 25;

/// Whether the URL with the text `template` stays within the supported size when its path becomes
/// `db_name`.
pub open spec fn has_room_for(template: Seq<char>, db_name: Seq<char>) -> bool {
    external::fits_with_path(external::parsed_url(template)->Ok_0, db_name)
}

/// Whether the URL with the text `template` stays within the supported size when its path becomes
/// the name of a test database.
pub open spec fn has_room_for_test_db(template: Seq<char>) -> bool {
    forall|db_name: Seq<char>|
        db_name.len() <= TEST_DB_NAME_LEN ==> #[trigger] has_room_for(template, db_name)
}

/// Whether a URL, where there is one, is short enough to be parsed.
pub open spec fn is_countable_if_set(db_url: Option<&str>) -> bool {
    match db_url {
        Some(db_url) => url_text::is_countable(db_url@),
        None => true,
    }
}

/// Tests whether a URL, where there is one, is short enough to be parsed.
pub fn test_countable_if_set(db_url: Option<&str>) -> (countable: bool)
    ensures
        countable == is_countable_if_set(db_url),
{
    match db_url {
        Some(db_url) => test_countable(db_url),
        None => true,
    }
}

/// The text of the template at the URL `db_url`, or why there is none.
pub open spec fn template_at(db_url: Option<&str>) -> Result<Seq<char>, TemplateError> {
    match db_url {
        Some(db_url) => match external::parsed_url(db_url@) {
            Ok(_) => Ok(db_url@),
            Err(error) => Err(TemplateError::InvalidUrl(error)),
        },
        None => Err(TemplateError::UrlNotSet),
    }
}

/// The name of the test database with the number `number`.
pub open spec fn test_db_name(number: u64) -> Seq<char> {
    "test-"@ + text::decimal(number as nat)
}

/// The statement that makes the database `db_new` out of the database `db_old`.
pub open spec fn create_statement(db_new: Seq<char>, db_old: Seq<char>) -> Seq<char> {
    "CREATE DATABASE \""@ + db_new + "\" WITH TEMPLATE \""@ + db_old + "\""@
}

impl TestTemplate {
    #[verifier::type_invariant]
    spec fn inv(self) -> bool {
        let url = external::parsed_url(self.db_url@);
        &&& url_text::is_countable(self.db_url@)
        &&& url is Ok
        &&& url_text::has_authority(self.db_url@) ==> {
            &&& url_text::has_authority(url->Ok_0)
            &&& url_text::scheme(url->Ok_0) == url_text::scheme(self.db_url@)
        }
        &&& url_text::has_authority(url->Ok_0) ==> external::url_path(self.db_url@)
            == url_text::path_part(url->Ok_0)
    }

    /// The text of the URL.
    pub closed spec fn text(self) -> Seq<char> {
        self.db_url@
    }

    /// The URL of the database `db_name` on the same server.
    pub open spec fn url_of(self, db_name: Seq<char>) -> Seq<char> {
        external::url_with_path(self.text(), db_name)
    }

    /// Whether `db_name` is the name of the template database itself, and a plain one.
    pub open spec fn is_own_name(self, db_name: Seq<char>) -> bool {
        &&& url_text::has_authority(external::parsed_url(self.text())->Ok_0)
        &&& names_database(external::url_path(self.text()))
        &&& external::url_path(self.text()).skip(1) == db_name
        &&& url_text::is_plain_name(db_name)
        &&& db_name.len() > 0
    }

    /// The template at the URL `db_url`.
    fn parse(db_url: &str) -> (result: Result<Self, TemplateError>)
        requires
            url_text::is_countable(db_url@),
        ensures
            match external::parsed_url(db_url@) {
                Ok(_) => result matches Ok(template) && template.text() == db_url@,
                Err(error) => result == Err::<Self, TemplateError>(
                    TemplateError::InvalidUrl(error),
                ),
            },
    {
        match parse_url(db_url) {
            Ok(_) => Ok(TestTemplate { db_url: db_url.to_owned() }),
            Err(error) => Err(TemplateError::InvalidUrl(error)),
        }
    }

    /// The template at the URL `db_url`, which is what the environment variable
    /// `TEST_DATABASE_URL` holds, if it is set.
    pub fn empty(db_url: Option<&str>) -> (result: Result<Self, TemplateError>)
        requires
            is_countable_if_set(db_url),
        ensures
            match template_at(db_url) {
                Ok(text) => result matches Ok(template) && template.text() == text,
                Err(error) => result == Err::<Self, TemplateError>(error),
            },
    {
        match db_url {
            Some(db_url) => Self::parse(db_url),
            None => Err(TemplateError::UrlNotSet),
        }
    }

    /// The template at the URL `db_url`, as for `empty`, unless the URL is too long to be parsed.
    pub fn checked_empty(db_url: Option<&str>) -> (result: Option<Result<Self, TemplateError>>)
        ensures
            match result {
                Some(result) => {
                    &&& is_countable_if_set(db_url)
                    &&& match template_at(db_url) {
                        Ok(text) => result matches Ok(template) && template.text() == text,
                        Err(error) => result == Err::<Self, TemplateError>(error),
                    }
                },
                None => !is_countable_if_set(db_url),
            },
    {
        if test_countable_if_set(db_url) {
            Some(Self::empty(db_url))
        } else {
            None
        }
    }

    /// Returns the name of the template database.
    pub fn db_name(&self) -> (name: String)
        requires
            names_database(external::url_path(self.text())),
        ensures
            name@ == external::url_path(self.text()).skip(1),
    {
        proof {
            use_type_invariant(self);
        }
        database_in_path(path_of_url(self.db_url.as_str()).as_str()).unwrap()
    }

    /// Returns the name of the template database, if the URL names one.
    pub fn checked_db_name(&self) -> (name: Option<String>)
        ensures
            match name {
                Some(name) => {
                    &&& names_database(external::url_path(self.text()))
                    &&& name@ == external::url_path(self.text()).skip(1)
                },
                None => !names_database(external::url_path(self.text())),
            },
    {
        proof {
            use_type_invariant(self);
        }
        if database_in_path(path_of_url(self.db_url.as_str()).as_str()).is_some() {
            Some(self.db_name())
        } else {
            None
        }
    }

    /// Returns the URL of the database `db_name` on the same server.
    ///
    /// In a URL with an authority, a name of letters, digits and hyphens becomes the path, and
    /// nothing else changes; unless the host is encoded, the name is the one that the new URL
    /// names. With the name of the template database itself, the URL is that of the template. For a
    /// PostgreSQL server, an empty name makes the URL name no database.
    pub fn url(&self, db_name: &str) -> (url: String)
        requires
            has_room_for(self.text(), db_name@),
        ensures
            url@ == self.url_of(db_name@),
            external::has_path_replaced(self.text(), db_name@, url@),
            self.is_own_name(db_name@) ==> url@ == external::parsed_url(self.text())->Ok_0,
    {
        proof {
            use_type_invariant(self);
            if self.is_own_name(db_name@) {
                let own = external::parsed_url(self.text())->Ok_0;
                url_text::url_is_the_sum_of_its_parts(own);
                reveal_strlit("/");
                assert("/"@ + db_name@ == url_text::path_part(own));
            }
        }
        replace_path_of_url(self.db_url.as_str(), db_name)
    }

    /// Whether the URL stays within the supported size when its path becomes a name of `len`
    /// characters.
    fn has_room(&self, len: usize) -> (has_room: bool)
        ensures
            forall|db_name: Seq<char>|
                db_name.len() == len ==> has_room == #[trigger] has_room_for(self.text(), db_name),
    {
        proof {
            use_type_invariant(self);
        }
        match parse_url(self.db_url.as_str()) {
            Ok(url) => {
                url.as_str().unicode_len() as u128 + 12 * len as u128 + 16 <= u32::MAX as u128
            },
            Err(_) => false,
        }
    }

    /// Returns the URL of the database `db_name` on the same server, if it stays within the
    /// supported size.
    pub fn checked_url(&self, db_name: &str) -> (url: Option<String>)
        ensures
            match url {
                Some(url) => {
                    &&& has_room_for(self.text(), db_name@)
                    &&& url@ == self.url_of(db_name@)
                    &&& external::has_path_replaced(self.text(), db_name@, url@)
                    &&& self.is_own_name(db_name@) ==> url@ == external::parsed_url(
                        self.text(),
                    )->Ok_0
                },
                None => !has_room_for(self.text(), db_name@),
            },
    {
        if self.has_room(db_name.unicode_len()) {
            Some(self.url(db_name))
        } else {
            None
        }
    }

    /// Begins to connect to the database at `db_url`.
    pub fn connect_to(db_url: &str) -> (connect: ConnectTo)
        ensures
            connect.target() == db_url@,
            connect.failures() == 0,
    {
        ConnectTo::new(db_url)
    }

    /// Begins to turn the database of `pool` into a template: with taking a connection out of the
    /// pool.
    pub fn freeze(pool: ConnectionPool) -> (begun: (AcquireConnection, Freeze))
        ensures
            begun.0.failures() == 0,
            begun.0.traced() == pool@.traced,
            begun.1.database_url() == pool@.database_url,
    {
        (
            pool.acquire_connection_retried(),
            Freeze { database_url: pool.database_url().to_owned() },
        )
    }

    /// Begins to make a database out of the template: with connecting to its server. The new
    /// database is meant for a pool of at most `connections` connections.
    pub fn create_db(&self, connections: u32) -> (create: CreateDb)
        requires
            has_room_for_test_db(self.text()),
        ensures
            create.template() == self.text(),
            create.connections() == connections,
    {
        proof {
            use_type_invariant(self);
        }
        CreateDb { template: TestTemplate { db_url: self.db_url.clone() }, connections }
    }

    /// Begins to make a database out of the template, if the URL of the new database stays within
    /// the supported size.
    pub fn checked_create_db(&self, connections: u32) -> (create: Option<CreateDb>)
        ensures
            match create {
                Some(create) => {
                    &&& has_room_for_test_db(self.text())
                    &&& create.template() == self.text()
                    &&& create.connections() == connections
                },
                None => !has_room_for_test_db(self.text()),
            },
    {
        proof {
            let longest = Seq::new(TEST_DB_NAME_LEN as nat, |i: int| '0');
            assert(has_room_for(self.text(), longest) == has_room_for_test_db(self.text()));
        }
        if self.has_room(TEST_DB_NAME_LEN) {
            Some(self.create_db(connections))
        } else {
            None
        }
    }
}

/// The statement that keeps everybody from connecting to the current database.
pub open spec fn freeze_statement() -> Seq<char> {
    "UPDATE pg_database SET datallowconn = false WHERE datname = current_database()"@
}

/// A database that is being turned into a template: a connection to it is needed.
pub struct Freeze {
    database_url: String,
}

/// A database that is being turned into a template: a statement has to be executed.
pub struct FreezeUpdate {
    database_url: String,
}

/// A database that is being turned into a template: its pool has to be closed.
pub struct FreezeClose {
    database_url: String,
}

/// The statement that turns a database into a template failed.
#[derive(Debug)]
pub struct FreezeError<E>(pub E);

impl<E> FreezeError<E> {
    /// What was being done when the error came.
    pub fn context(&self) -> (text: &'static str)
        ensures
            text@ == "SET dataallowconn = false"@,
    {
        "SET dataallowconn = false"
    }
}

impl Freeze {
    /// The URL of the database.
    pub closed spec fn database_url(self) -> Seq<char> {
        self.database_url@
    }

    /// Takes note of whether there is a connection. Without one nothing more is done.
    pub fn acquired<C, E>(self, outcome: Result<C, E>) -> (result: Result<(C, FreezeUpdate), E>)
        ensures
            match outcome {
                Ok(conn) => {
                    &&& result matches Ok(next)
                    &&& next.0 == conn
                    &&& next.1.database_url() == self.database_url()
                },
                Err(error) => result == Err::<(C, FreezeUpdate), E>(error),
            },
    {
        match outcome {
            Ok(conn) => Ok((conn, FreezeUpdate { database_url: self.database_url })),
            Err(error) => Err(error),
        }
    }
}

impl FreezeUpdate {
    /// The URL of the database.
    pub closed spec fn database_url(self) -> Seq<char> {
        self.database_url@
    }

    /// Returns the statement to execute.
    pub fn statement(&self) -> (text: &'static str)
        ensures
            text@ == freeze_statement(),
    {
        "UPDATE pg_database SET datallowconn = false WHERE datname = current_database()"
    }

    /// Takes note of whether the statement was executed. If it was not, the pool stays open.
    pub fn executed<R, E>(self, outcome: Result<R, E>) -> (result: Result<
        FreezeClose,
        FreezeError<E>,
    >)
        ensures
            match outcome {
                Ok(_) => {
                    &&& result matches Ok(next)
                    &&& next.database_url() == self.database_url()
                },
                Err(error) => result == Err::<FreezeClose, FreezeError<E>>(FreezeError(error)),
            },
    {
        match outcome {
            Ok(_) => Ok(FreezeClose { database_url: self.database_url }),
            Err(error) => Err(FreezeError(error)),
        }
    }
}

impl FreezeClose {
    /// The URL of the database.
    pub closed spec fn database_url(self) -> Seq<char> {
        self.database_url@
    }

    /// Takes note that the pool is closed, and returns the template.
    pub fn closed(self) -> (result: Result<TestTemplate, TemplateError>)
        requires
            url_text::is_countable(self.database_url()),
        ensures
            match external::parsed_url(self.database_url()) {
                Ok(_) => result matches Ok(template) && template.text() == self.database_url(),
                Err(error) => result == Err::<TestTemplate, TemplateError>(
                    TemplateError::InvalidUrl(error),
                ),
            },
    {
        TestTemplate::parse(self.database_url.as_str())
    }

    /// Takes note that the pool is closed, and returns the template, unless its URL is too long to
    /// be parsed.
    pub fn checked_closed(self) -> (result: Option<Result<TestTemplate, TemplateError>>)
        ensures
            match result {
                Some(result) => {
                    &&& url_text::is_countable(self.database_url())
                    &&& match external::parsed_url(self.database_url()) {
                        Ok(_) => result matches Ok(template) && template.text()
                            == self.database_url(),
                        Err(error) => result == Err::<TestTemplate, TemplateError>(
                            TemplateError::InvalidUrl(error),
                        ),
                    }
                },
                None => !url_text::is_countable(self.database_url()),
            },
    {
        if test_countable(self.database_url.as_str()) {
            Some(self.closed())
        } else {
            None
        }
    }
}

/// A test database that is being made: a connection to the server of its template is needed.
pub struct CreateDb {
    template: TestTemplate,
    connections: u32,
}

/// A test database that is being made: a statement has to be executed.
pub struct CreateDbStatement {
    template: TestTemplate,
    connections: u32,
    number: u64,
    db_new: String,
    statement: String,
}

/// Why there is no test database.
#[derive(Debug)]
pub enum CreateDbError<E> {
    /// The server cannot be connected to.
    Connect(E),
    /// The statement that makes the database failed.
    Create(E),
}

impl<E> CreateDbError<E> {
    /// What was being done when the error came.
    pub fn context(&self) -> (text: &'static str)
        ensures
            text@ == match self {
                CreateDbError::Connect(_) => "connect_to()"@,
                CreateDbError::Create(_) => "CREATE DATABASE"@,
            },
    {
        match self {
            CreateDbError::Connect(_) => "connect_to()",
            CreateDbError::Create(_) => "CREATE DATABASE",
        }
    }
}

impl CreateDbStatement {
    #[verifier::type_invariant]
    spec fn inv(self) -> bool {
        &&& has_room_for_test_db(self.template.text())
        &&& self.db_new@ == test_db_name(self.number)
        &&& self.statement@ == create_statement(
            self.db_new@,
            external::url_path(self.template.text()).skip(1),
        )
    }

    /// The text of the URL of the template.
    pub closed spec fn template(self) -> Seq<char> {
        self.template.text()
    }

    /// How many connections the pool of the new database holds at most.
    pub closed spec fn connections(self) -> u32 {
        self.connections
    }

    /// The number that the new database is named after.
    pub closed spec fn number(self) -> u64 {
        self.number
    }

    /// Returns the statement to execute.
    pub fn statement(&self) -> (text: &str)
        ensures
            text@ == create_statement(
                test_db_name(self.number()),
                external::url_path(self.template()).skip(1),
            ),
    {
        proof {
            use_type_invariant(self);
        }
        self.statement.as_str()
    }

    /// Takes note of whether the statement was executed, and returns a builder for pools of the
    /// new database. In the URL of a PostgreSQL server, the new database is the one that the URL
    /// of these pools names.
    pub fn executed<R, E>(self, outcome: Result<R, E>) -> (result: Result<
        ConnectionPoolBuilder,
        CreateDbError<E>,
    >)
        ensures
            match outcome {
                Ok(_) => {
                    &&& result matches Ok(builder)
                    &&& builder@ == pool::default_settings(
                        external::url_with_path(self.template(), test_db_name(self.number())),
                        self.connections(),
                    )
                    &&& external::has_path_replaced(
                        self.template(),
                        test_db_name(self.number()),
                        builder@.database_url,
                    )
                    &&& url_text::is_postgres_url(self.template()) && url_text::is_countable(
                        builder@.database_url,
                    ) ==> {
                        &&& external::parsed_url(builder@.database_url) is Ok
                        &&& external::url_path(builder@.database_url) == "/"@ + test_db_name(
                            self.number(),
                        )
                    }
                },
                Err(error) => result == Err::<ConnectionPoolBuilder, CreateDbError<E>>(
                    CreateDbError::Create(error),
                ),
            },
    {
        proof {
            use_type_invariant(&self);
            use_type_invariant(&self.template);
            if url_text::is_postgres_url(self.template()) {
                url_text::postgres_urls_have_an_authority(self.template());
            }
            test_db_name_is_plain(self.number);
            assert(has_room_for(self.template.text(), self.db_new@));
        }
        match outcome {
            Ok(_) => {
                let url = self.template.url(self.db_new.as_str());
                Ok(ConnectionPool::builder(url.as_str(), self.connections))
            },
            Err(error) => Err(CreateDbError::Create(error)),
        }
    }
}

/// The name of a test database consists of letters, digits and hyphens, and is not too long.
pub proof fn test_db_name_is_plain(number: u64)
    ensures
        url_text::is_plain_name(test_db_name(number)),
        0 < test_db_name(number).len() <= TEST_DB_NAME_LEN,
{
    reveal_strlit("test-");
    text::decimal_of_u64_is_short(number);
    text::decimal_consists_of_digits(number as nat);
    let digits = text::decimal(number as nat);
    assert forall|i: int| 0 <= i < test_db_name(number).len() implies url_text::is_plain(
        #[trigger] test_db_name(number)[i],
    ) by {
        if i >= 5 {
            assert(test_db_name(number)[i] == digits[i - 5]);
            assert(text::is_digit(digits[i - 5]));
        }
    }
}

/// Test databases with different numbers have different names.
pub proof fn test_db_names_differ(a: u64, b: u64)
    requires
        a != b,
    ensures
        test_db_name(a) != test_db_name(b),
{
    if test_db_name(a) == test_db_name(b) {
        reveal_strlit("test-");
        assert(test_db_name(a).skip(5) == text::decimal(a as nat));
        assert(test_db_name(b).skip(5) == text::decimal(b as nat));
        text::decimal_is_injective(a as nat, b as nat);
    }
}

impl CreateDb {
    #[verifier::type_invariant]
    spec fn inv(self) -> bool {
        has_room_for_test_db(self.template.text())
    }

    /// The text of the URL of the template.
    pub closed spec fn template(self) -> Seq<char> {
        self.template.text()
    }

    /// How many connections the pool of the new database holds at most.
    pub closed spec fn connections(self) -> u32 {
        self.connections
    }

    /// Begins to connect to the server of the template, without naming a database.
    pub fn connect(&self) -> (connect: ConnectTo)
        ensures
            connect.target() == external::url_with_path(self.template(), ""@),
            connect.failures() == 0,
            url_text::is_postgres_url(self.template()) && url_text::is_countable(connect.target())
                ==> {
                &&& external::parsed_url(connect.target()) is Ok
                &&& !names_database(external::url_path(connect.target()))
            },
            external::has_path_replaced(self.template(), ""@, connect.target()),
    {
        proof {
            use_type_invariant(self);
            use_type_invariant(&self.template);
            if url_text::is_postgres_url(self.template()) {
                url_text::postgres_urls_have_an_authority(self.template());
            }
            reveal_strlit("");
            assert(has_room_for(self.template.text(), ""@));
        }
        TestTemplate::connect_to(self.template.url("").as_str())
    }

    /// Takes note of whether there is a connection. The new database is named after `number`.
    pub fn connected_with<C, E>(self, outcome: Result<C, E>, number: u64) -> (result: Result<
        (C, CreateDbStatement),
        CreateDbError<E>,
    >)
        requires
            outcome is Ok ==> names_database(external::url_path(self.template())),
        ensures
            match outcome {
                Ok(conn) => {
                    &&& result matches Ok(next)
                    &&& next.0 == conn
                    &&& next.1.template() == self.template()
                    &&& next.1.connections() == self.connections()
                    &&& next.1.number() == number
                },
                Err(error) => result == Err::<(C, CreateDbStatement), CreateDbError<E>>(
                    CreateDbError::Connect(error),
                ),
            },
    {
        proof {
            use_type_invariant(&self);
        }
        match outcome {
            Ok(conn) => {
                let db_old = self.template.db_name();
                let mut db_new = "test-".to_owned();
                db_new.append(decimal_string(number).as_str());
                let mut statement = "CREATE DATABASE \"".to_owned();
                statement.append(db_new.as_str());
                statement.append("\" WITH TEMPLATE \"");
                statement.append(db_old.as_str());
                statement.append("\"");
                Ok(
                    (
                        conn,
                        CreateDbStatement {
                            template: self.template,
                            connections: self.connections,
                            number,
                            db_new,
                            statement,
                        },
                    ),
                )
            },
            Err(error) => Err(CreateDbError::Connect(error)),
        }
    }

    /// Takes note of whether there is a connection. The new database is named after a random
    /// number.
    pub fn connected<C, E>(self, outcome: Result<C, E>) -> (result: Result<
        (C, CreateDbStatement),
        CreateDbError<E>,
    >)
        requires
            outcome is Ok ==> names_database(external::url_path(self.template())),
        ensures
            match outcome {
                Ok(conn) => {
                    &&& result matches Ok(next)
                    &&& next.0 == conn
                    &&& next.1.template() == self.template()
                    &&& next.1.connections() == self.connections()
                },
                Err(error) => result == Err::<(C, CreateDbStatement), CreateDbError<E>>(
                    CreateDbError::Connect(error),
                ),
            },
    {
        let number: u64 = random_u64();
        self.connected_with(outcome, number)
    }

    /// Takes note of whether there is a connection. The new database is named after a random
    /// number. There is no result where there is a connection but the URL of the template names
    /// no database.
    pub fn checked_connected<C, E>(self, outcome: Result<C, E>) -> (result: Option<
        Result<(C, CreateDbStatement), CreateDbError<E>>,
    >)
        ensures
            match outcome {
                Ok(conn) => match result {
                    Some(result) => {
                        &&& names_database(external::url_path(self.template()))
                        &&& result matches Ok(next)
                        &&& next.0 == conn
                        &&& next.1.template() == self.template()
                        &&& next.1.connections() == self.connections()
                    },
                    None => !names_database(external::url_path(self.template())),
                },
                Err(error) => result == Some(
                    Err::<(C, CreateDbStatement), CreateDbError<E>>(
                        CreateDbError::Connect(error),
                    ),
                ),
            },
    {
        if outcome.is_ok() && self.template.checked_db_name().is_none() {
            None
        } else {
            Some(self.connected(outcome))
        }
    }
}

/// The template at a URL is missing exactly if there is no URL. It has the text of the URL if that
/// is accepted, whatever it looks like; otherwise there is the error that it is refused with.
pub proof fn template_is_at_the_url(db_url: Option<&str>)
    ensures
        db_url is None <==> template_at(db_url) == Err::<Seq<char>, TemplateError>(
            TemplateError::UrlNotSet,
        ),
        db_url matches Some(url) ==> match external::parsed_url(url@) {
            Ok(_) => template_at(db_url) == Ok::<Seq<char>, TemplateError>(url@),
            Err(error) => template_at(db_url) == Err::<Seq<char>, TemplateError>(
                TemplateError::InvalidUrl(error),
            ),
        },
{
}

/// Whether `result` is due to the URL `db_url`: its absence, its text or the error that it is
/// refused with.
pub open spec fn is_looked_for_at(
    db_url: Option<&str>,
    result: Result<TestTemplate, TemplateError>,
) -> bool {
    &&& db_url is None <==> result == Err::<TestTemplate, TemplateError>(TemplateError::UrlNotSet)
    &&& db_url matches Some(url) ==> match external::parsed_url(url@) {
        Ok(_) => result matches Ok(template) && template.text() == url@,
        Err(error) => result == Err::<TestTemplate, TemplateError>(
            TemplateError::InvalidUrl(error),
        ),
    }
}

/// A template is looked for where the URL says: without one it is told so, a URL that is accepted
/// is the template's, and one that is not is told with its error. Only a URL of more than
/// 2,147,483,647 characters is not looked at.
pub proof fn empty_is_at_the_url(
    db_url: Option<&str>,
    result: Result<TestTemplate, TemplateError>,
    checked: Option<Result<TestTemplate, TemplateError>>,
)
    requires
        call_ensures(TestTemplate::empty, (db_url,), result),
        call_ensures(TestTemplate::checked_empty, (db_url,), checked),
    ensures
        is_looked_for_at(db_url, result),
        checked is None <==> db_url is Some && db_url->Some_0@.len() > 2_147_483_647,
        checked is Some ==> is_looked_for_at(db_url, checked->Some_0),
{
    template_is_at_the_url(db_url);
}

/// A database that is frozen is the template: its URL is that of the pool, which is handed on from
/// step to step.
pub proof fn frozen_database_is_the_template<C, R, E, F>(
    pool: ConnectionPool,
    acquire: AcquireConnection,
    freeze: Freeze,
    conn: C,
    update: FreezeUpdate,
    done: R,
    close: FreezeClose,
    result: Result<TestTemplate, TemplateError>,
    checked: Option<Result<TestTemplate, TemplateError>>,
)
    requires
        call_ensures(TestTemplate::freeze, (pool,), (acquire, freeze)),
        call_ensures(
            Freeze::acquired::<C, E>,
            (freeze, Ok::<C, E>(conn)),
            Ok::<(C, FreezeUpdate), E>((conn, update)),
        ),
        call_ensures(
            FreezeUpdate::executed::<R, F>,
            (update, Ok::<R, F>(done)),
            Ok::<FreezeClose, FreezeError<F>>(close),
        ),
        call_ensures(FreezeClose::closed, (close,), result),
        call_ensures(FreezeClose::checked_closed, (close,), checked),
    ensures
        acquire.failures() == 0,
        acquire.traced() == pool@.traced,
        is_frozen(pool@.database_url, result),
        checked is None <==> pool@.database_url.len() > 2_147_483_647,
        checked is Some ==> is_frozen(pool@.database_url, checked->Some_0),
{
}

/// Whether `result` is the template at the URL `url`, or the error that the URL is refused with.
pub open spec fn is_frozen(url: Seq<char>, result: Result<TestTemplate, TemplateError>) -> bool {
    match external::parsed_url(url) {
        Ok(_) => result matches Ok(template) && template.text() == url,
        Err(error) => result == Err::<TestTemplate, TemplateError>(
            TemplateError::InvalidUrl(error),
        ),
    }
}

/// A connection that cannot be had, and a statement that fails, stop a database from being frozen,
/// with the error as it came.
pub proof fn freezing_stops_at_the_first_error<C, R, E>(
    freeze: Freeze,
    update: FreezeUpdate,
    error: E,
    acquired: Result<(C, FreezeUpdate), E>,
    executed: Result<FreezeClose, FreezeError<E>>,
)
    requires
        call_ensures(Freeze::acquired::<C, E>, (freeze, Err::<C, E>(error)), acquired),
        call_ensures(FreezeUpdate::executed::<R, E>, (update, Err::<R, E>(error)), executed),
    ensures
        acquired == Err::<(C, FreezeUpdate), E>(error),
        executed == Err::<FreezeClose, FreezeError<E>>(FreezeError(error)),
{
}

/// The name of the database in a path is all of the path behind the slash that it begins with. A
/// path that begins with anything else has none.
pub proof fn name_is_the_path_behind_the_slash(path: &str, name: Option<String>)
    requires
        call_ensures(database_in_path, (path,), name),
    ensures
        name matches Some(name) ==> path@ == seq!['/'] + name@,
        name is None <==> path@.len() == 0 || path@[0] != '/',
{
    if let Some(name) = name {
        assert(path@ == seq!['/'] + path@.skip(1));
    }
}

/// The name of the template database is all of the path of the URL behind its slash. Without a
/// slash there is none.
pub proof fn db_name_is_the_path_behind_the_slash(
    template: TestTemplate,
    checked: Option<String>,
    name: String,
)
    requires
        call_ensures(TestTemplate::checked_db_name, (&template,), checked),
        call_ensures(TestTemplate::db_name, (&template,), name),
    ensures
        checked is Some <==> external::url_path(template.text()).len() > 0 && external::url_path(
            template.text(),
        )[0] == '/',
        checked matches Some(checked) ==> {
            &&& external::url_path(template.text()) == seq!['/'] + checked@
            &&& name@ == checked@
        },
{
    let path = external::url_path(template.text());
    if checked is Some {
        assert(path == seq!['/'] + path.skip(1));
    }
}

/// Any URL that leaves 1,295 characters to the largest size has room for the name of a test
/// database.
pub proof fn urls_have_room_for_a_test_db(template: Seq<char>)
    ensures
        external::parsed_url(template)->Ok_0.len() <= 4_294_966_000 ==> has_room_for_test_db(
            template,
        ),
{
}

/// The URL of another database on the server is refused only near the largest size, and it is the
/// same whether or not the size is tested.
pub proof fn urls_of_other_databases_are_given(
    template: TestTemplate,
    db_name: &str,
    url: String,
    checked: Option<String>,
)
    requires
        call_ensures(TestTemplate::url, (&template, db_name), url),
        call_ensures(TestTemplate::checked_url, (&template, db_name), checked),
    ensures
        external::parsed_url(template.text())->Ok_0.len() + 12 * db_name@.len() <= 4_294_967_279
            ==> checked is Some,
        checked matches Some(checked) ==> checked@ == url@,
        url@ == external::url_with_path(template.text(), db_name@),
{
}

/// In a URL with an authority, the URL of a database with a plain name has the parts of the
/// template's before and behind its path, and the name, behind a slash, between them.
pub proof fn urls_of_other_databases_have_their_name(
    template: TestTemplate,
    db_name: &str,
    url: String,
)
    requires
        call_ensures(TestTemplate::url, (&template, db_name), url),
        url_text::has_authority(external::parsed_url(template.text())->Ok_0),
        url_text::is_plain_name(db_name@),
        db_name@.len() > 0,
    ensures
        url_text::before_path(url@) == url_text::before_path(
            external::parsed_url(template.text())->Ok_0,
        ),
        url_text::path_part(url@) == seq!['/'] + db_name@,
        url_text::after_path(url@) == url_text::after_path(
            external::parsed_url(template.text())->Ok_0,
        ),
{
    reveal_strlit("/");
    url_text::only_the_path_is_replaced(external::parsed_url(template.text())->Ok_0, db_name@);
    assert("/"@ == seq!['/']);
}

/// The name of a test database is `test-` and the digits of its number.
pub proof fn test_db_name_has_its_number(number: u64)
    ensures
        "test-"@.is_prefix_of(test_db_name(number)),
        text::reads_as(test_db_name(number).skip("test-"@.len() as int), number as int),
{
    let digits = text::decimal(number as nat);
    text::decimal_reads_back(number as nat);
    assert(test_db_name(number).skip("test-"@.len() as int) == digits);
    assert("test-"@ == test_db_name(number).take("test-"@.len() as int));
}

/// The statement that makes a database begins with the whole name of the new one, in quotes, ends
/// with the whole name of the old one, in quotes, and has nothing else between them than that the
/// old one is the template.
pub proof fn create_statement_has_both_names(db_new: Seq<char>, db_old: Seq<char>)
    ensures
        ("CREATE DATABASE \""@ + db_new + "\" "@).is_prefix_of(create_statement(db_new, db_old)),
        ("WITH TEMPLATE \""@ + db_old + "\""@).is_suffix_of(create_statement(db_new, db_old)),
        create_statement(db_new, db_old).len() == "CREATE DATABASE \""@.len() + db_new.len()
            + "\" "@.len() + "WITH TEMPLATE \""@.len() + db_old.len() + "\""@.len(),
{
    reveal_strlit("\" WITH TEMPLATE \"");
    reveal_strlit("\" ");
    reveal_strlit("WITH TEMPLATE \"");
    let front = "CREATE DATABASE \""@ + db_new + "\" "@;
    let back = "WITH TEMPLATE \""@ + db_old + "\""@;
    assert("\" WITH TEMPLATE \""@ == "\" "@ + "WITH TEMPLATE \""@);
    assert(create_statement(db_new, db_old) == front + back);
    assert(front == (front + back).take(front.len() as int));
    assert(back == (front + back).skip(front.len() as int));
}

/// Statements that make a database out of different ones differ, and so do statements that make
/// different databases out of the same one.
pub proof fn create_statements_differ(
    db_new: Seq<char>,
    db_old: Seq<char>,
    other_new: Seq<char>,
    other_old: Seq<char>,
)
    ensures
        db_old != other_old ==> create_statement(db_new, db_old) != create_statement(
            db_new,
            other_old,
        ),
        db_new != other_new ==> create_statement(db_new, db_old) != create_statement(
            other_new,
            db_old,
        ),
{
    let a = create_statement(db_new, db_old);
    let b = create_statement(db_new, other_old);
    let c = create_statement(other_new, db_old);
    let front = "CREATE DATABASE \""@;
    let middle = "\" WITH TEMPLATE \""@;
    let start = front.len() + db_new.len() + middle.len();
    let back = "\""@;
    if a == b {
        assert(db_old == a.subrange(start as int, a.len() - back.len()));
        assert(other_old == b.subrange(start as int, b.len() - back.len()));
    }
    if a == c {
        let behind = middle.len() + db_old.len() + back.len();
        assert(db_new == a.subrange(front.len() as int, a.len() - behind));
        assert(other_new == c.subrange(front.len() as int, c.len() - behind));
    }
}

/// The statement of a new database names, in quotes, the new one after its number and the template
/// database as its URL has it, each of them whole.
pub proof fn statement_copies_the_template<C, E>(
    create: CreateDb,
    conn: C,
    number: u64,
    result: Result<(C, CreateDbStatement), CreateDbError<E>>,
    text: &str,
)
    requires
        call_ensures(
            CreateDb::connected_with::<C, E>,
            (create, Ok::<C, E>(conn), number),
            result,
        ),
        result is Ok ==> call_ensures(CreateDbStatement::statement, (&result->Ok_0.1,), text),
    ensures
        result is Ok,
        result->Ok_0.0 == conn,
        result->Ok_0.1.template() == create.template(),
        result->Ok_0.1.connections() == create.connections(),
        exists|digits: Seq<char>|
            {
                &&& #[trigger] text::reads_as(digits, number as int)
                &&& ("CREATE DATABASE \"test-"@ + digits + "\" "@).is_prefix_of(text@)
                &&& text@.len() == "CREATE DATABASE \"test-"@.len() + digits.len() + "\" "@.len()
                    + "WITH TEMPLATE \""@.len() + external::url_path(create.template()).skip(
                    1,
                ).len() + "\""@.len()
            },
        ("WITH TEMPLATE \""@ + external::url_path(create.template()).skip(1)
            + "\""@).is_suffix_of(text@),
{
    reveal_strlit("CREATE DATABASE \"test-");
    reveal_strlit("CREATE DATABASE \"");
    reveal_strlit("test-");
    let name = test_db_name(number);
    let digits = name.skip("test-"@.len() as int);
    test_db_name_has_its_number(number);
    create_statement_has_both_names(name, external::url_path(create.template()).skip(1));
    assert("test-"@ + digits == name);
    assert("CREATE DATABASE \"test-"@ == "CREATE DATABASE \""@ + "test-"@);
    assert("CREATE DATABASE \"test-"@ + digits + "\" "@ == "CREATE DATABASE \""@ + name
        + "\" "@);
    assert(text::reads_as(digits, number as int));
}

/// The database that a statement makes is the one in the URL of the pools for it, which hold as
/// many connections as were asked for and are otherwise as any pool is to begin with.
pub proof fn pools_are_for_the_new_database<R, E>(
    made: CreateDbStatement,
    text: &str,
    done: R,
    builder: ConnectionPoolBuilder,
)
    requires
        call_ensures(CreateDbStatement::statement, (&made,), text),
        call_ensures(
            CreateDbStatement::executed::<R, E>,
            (made, Ok::<R, E>(done)),
            Ok::<ConnectionPoolBuilder, CreateDbError<E>>(builder),
        ),
    ensures
        builder@.max_size == made.connections(),
        builder@.acquire_timeout == 30_000_000_000,
        builder@.statement_timeout is None,
        exists|name: Seq<char>|
            {
                &&& builder@.database_url == #[trigger] external::url_with_path(
                    made.template(),
                    name,
                )
                &&& ("CREATE DATABASE \""@ + name + "\" "@).is_prefix_of(text@)
                &&& "test-"@.is_prefix_of(name)
                &&& text::reads_as(name.skip("test-"@.len() as int), made.number() as int)
                &&& url_text::is_postgres_url(made.template()) && builder@.database_url.len()
                    <= 2_147_483_647 ==> external::url_path(builder@.database_url) == seq!['/']
                    + name
            },
{
    reveal_strlit("/");
    assert("/"@ == seq!['/']);
    let name = test_db_name(made.number());
    test_db_name_has_its_number(made.number());
    create_statement_has_both_names(name, external::url_path(made.template()).skip(1));
    assert(builder@.database_url == external::url_with_path(made.template(), name));
}

/// A connection that cannot be had, and a statement that fails, stop a database from being made,
/// with the error as it came.
pub proof fn making_a_database_stops_at_the_first_error<C, R, E>(
    create: CreateDb,
    made: CreateDbStatement,
    error: E,
    number: u64,
    connected_with: Result<(C, CreateDbStatement), CreateDbError<E>>,
    connected: Result<(C, CreateDbStatement), CreateDbError<E>>,
    checked: Option<Result<(C, CreateDbStatement), CreateDbError<E>>>,
    executed: Result<ConnectionPoolBuilder, CreateDbError<E>>,
)
    requires
        call_ensures(
            CreateDb::connected_with::<C, E>,
            (create, Err::<C, E>(error), number),
            connected_with,
        ),
        call_ensures(CreateDb::connected::<C, E>, (create, Err::<C, E>(error)), connected),
        call_ensures(CreateDb::checked_connected::<C, E>, (create, Err::<C, E>(error)), checked),
        call_ensures(CreateDbStatement::executed::<R, E>, (made, Err::<R, E>(error)), executed),
    ensures
        connected_with == Err::<(C, CreateDbStatement), CreateDbError<E>>(
            CreateDbError::Connect(error),
        ),
        connected == connected_with,
        checked == Some(connected_with),
        executed == Err::<ConnectionPoolBuilder, CreateDbError<E>>(CreateDbError::Create(error)),
{
}

/// Once there is a connection, a database of any number is made from the same template and for as
/// many connections; only a template URL that names no database stops this.
pub proof fn connected_goes_on_with_the_template<C, E>(
    create: CreateDb,
    conn: C,
    connected: Result<(C, CreateDbStatement), CreateDbError<E>>,
    checked: Option<Result<(C, CreateDbStatement), CreateDbError<E>>>,
)
    requires
        call_ensures(CreateDb::connected::<C, E>, (create, Ok::<C, E>(conn)), connected),
        call_ensures(CreateDb::checked_connected::<C, E>, (create, Ok::<C, E>(conn)), checked),
    ensures
        goes_on_with(create, conn, connected),
        checked is Some <==> external::url_path(create.template()).len() > 0 && external::url_path(
            create.template(),
        )[0] == '/',
        checked is Some ==> goes_on_with(create, conn, checked->Some_0),
{
}

/// Whether `result` goes on with the connection, and with the template and the number of
/// connections of `create`.
pub open spec fn goes_on_with<C, E>(
    create: CreateDb,
    conn: C,
    result: Result<(C, CreateDbStatement), CreateDbError<E>>,
) -> bool {
    &&& result matches Ok(next)
    &&& next.0 == conn
    &&& next.1.template() == create.template()
    &&& next.1.connections() == create.connections()
}

/// A database is made from the template and for the number of connections that it is asked for,
/// over a connection that begins at the URL of the server without a name.
pub proof fn making_a_database_begins_at_the_server(
    template: TestTemplate,
    connections: u32,
    create: CreateDb,
    checked: Option<CreateDb>,
    connect: ConnectTo,
)
    requires
        call_ensures(TestTemplate::create_db, (&template, connections), create),
        call_ensures(TestTemplate::checked_create_db, (&template, connections), checked),
        call_ensures(CreateDb::connect, (&create,), connect),
    ensures
        create.template() == template.text(),
        create.connections() == connections,
        checked matches Some(checked) ==> {
            &&& checked.template() == template.text()
            &&& checked.connections() == connections
        },
        external::parsed_url(template.text())->Ok_0.len() <= 4_294_966_000 ==> checked is Some,
        connect.failures() == 0,
        connect.target() == external::url_with_path(template.text(), Seq::empty()),
        url_text::is_postgres_url(template.text()) && connect.target().len() <= 2_147_483_647
            ==> external::url_path(connect.target()).len() == 0 || external::url_path(
            connect.target(),
        )[0] != '/',
{
    reveal_strlit("");
    assert(""@ == Seq::<char>::empty());
    urls_have_room_for_a_test_db(template.text());
}

/// Connecting begins at the URL that is given, without a failure.
pub proof fn connecting_begins_at_the_url(db_url: &str, connect: ConnectTo)
    requires
        call_ensures(TestTemplate::connect_to, (db_url,), connect),
    ensures
        connect.target() == db_url@,
        connect.failures() == 0,
{
}

/// The URL of the template database itself, under its own plain name, is that of the template.
pub proof fn own_name_gives_the_own_url(template: TestTemplate, db_name: &str, url: String)
    requires
        call_ensures(TestTemplate::url, (&template, db_name), url),
    ensures
        url_text::has_authority(external::parsed_url(template.text())->Ok_0)
            && external::url_path(template.text()) == seq!['/'] + db_name@
            && url_text::is_plain_name(db_name@) && db_name@.len() > 0 ==> url@
            == external::parsed_url(template.text())->Ok_0,
{
    let path = external::url_path(template.text());
    if path == seq!['/'] + db_name@ {
        assert(path.skip(1) == db_name@);
    }
}

/// Whatever database is frozen, the statement is the one that keeps everybody from connecting to
/// the current one.
pub proof fn freezing_forbids_to_connect(update: FreezeUpdate, text: &'static str)
    requires
        call_ensures(FreezeUpdate::statement, (&update,), text),
    ensures
        text@
            == "UPDATE pg_database SET datallowconn = false WHERE datname = current_database()"@,
{
}

/// A URL is too long exactly if there is one and it has more than 2,147,483,647 characters.
pub proof fn long_urls_are_told(db_url: Option<&str>, countable: bool)
    requires
        call_ensures(test_countable_if_set, (db_url,), countable),
    ensures
        !countable <==> db_url is Some && db_url->Some_0@.len() > 2_147_483_647,
{
}

} // verus!
