//! Pools of connections to a PostgreSQL database: how they are set up, how a connection is taken
//! out of them, and how databases for tests are made. Besides, the keys that proofs of L1 batches
//! are stored under.
//!
//! Nothing here talks to a database. Where it takes several steps that do, such as making a
//! database and building a pool for it, each step is a value that says what to do and that is told
//! how this ended.

pub mod builder;
pub mod config;
pub mod duration;
pub mod external;
pub mod outputs;
pub mod pool;
pub mod retry;
pub mod template;
pub mod text;
pub mod url_text;

pub use builder::{BuildError, ConnectionPoolBuilder, PendingPool, PoolPlan};
pub use config::{GlobalConnectionPoolConfig, ThresholdError};
pub use duration::Duration;
pub use outputs::{Bucket, L1BatchNumber, L1BatchProofForL1};
pub use pool::{
    AccessError, CodeLocation, ConnectionPool, PendingAccess, StorageAccess, StorageProcessorTags,
    StorageRequest, TestPool, TestPoolBuild, TestPoolDatabase, TestPoolError,
};
pub use retry::{AcquireConnection, AcquireFailure, AcquireStep, ConnectStep, ConnectTo};
pub use template::{
    CreateDb, CreateDbError, CreateDbStatement, Freeze, FreezeClose, FreezeError, FreezeUpdate,
    TemplateError, TestTemplate,
};
