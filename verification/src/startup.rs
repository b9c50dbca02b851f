//! The order of work at startup: the schema is brought up to date before
//! any request is served, and a failure on the way ends the process.

use vstd::prelude::*;

verus! {

/// How many seconds a request waits for a connection of the pool before the
/// pool gives up on it.
pub const ACQUIRE_WAIT_SECONDS: u64 = 30;

/// Why the service did not start.
#[derive(Clone, Debug, PartialEq, Eq)]
pub enum StartupError {
    /// The database connection string is not set.
    Configuration,
    /// The pool could not be built, or gave no connection.
    Pool(String),
    /// A migration failed; the schema may be behind.
    Migration(String),
}

/// How far startup has come.
#[derive(Debug, PartialEq, Eq)]
pub enum Boot {
    /// Nothing was done yet.
    Started,
    /// The environment was asked for the database connection string, and
    /// gave this.
    Configured(Option<String>),
    /// The pool was built from the connection string.
    PoolBuilt,
    /// The pool could not be built.
    PoolFailed(String),
    /// The pool handed out the connection that the migrations run on.
    Connected,
    /// The pool gave no connection.
    ConnectionFailed(String),
    /// Every pending migration was applied.
    Migrated,
    /// A migration failed.
    MigrationFailed(String),
}

/// What to do next at startup.
#[derive(Clone, Debug, PartialEq, Eq)]
pub enum BootStep {
    /// Read the database connection string from the environment.
    ReadDatabaseUrl,
    /// Build the pool for this connection string; a request that finds it
    /// exhausted waits this many seconds for a connection, and no longer.
    BuildPool { url: String, wait_seconds: u64 },
    /// Acquire a connection from the pool.
    Acquire,
    /// Run the pending migrations on the connection, in their order.
    Migrate,
    /// Start serving requests.
    Serve,
    /// End the process with this error.
    Abort(StartupError),
}

/// Mathematical value of a [`StartupError`].
pub enum StartupErrorView {
    Configuration,
    Pool(Seq<char>),
    Migration(Seq<char>),
}

/// Mathematical value of a [`BootStep`].
pub enum BootStepView {
    ReadDatabaseUrl,
    BuildPool { url: Seq<char>, wait_seconds: int },
    Acquire,
    Migrate,
    Serve,
    Abort(StartupErrorView),
}

impl View for StartupError {
    type V = StartupErrorView;

    open spec fn view(&self) -> StartupErrorView {
        match self {
            StartupError::Configuration => StartupErrorView::Configuration,
            StartupError::Pool(description) => StartupErrorView::Pool(description@),
            StartupError::Migration(description) => StartupErrorView::Migration(description@),
        }
    }
}

impl View for BootStep {
    type V = BootStepView;

    open spec fn view(&self) -> BootStepView {
        match self {
            BootStep::ReadDatabaseUrl => BootStepView::ReadDatabaseUrl,
            BootStep::BuildPool { url, wait_seconds } => BootStepView::BuildPool {
                url: url@,
                wait_seconds: *wait_seconds as int,
            },
            BootStep::Acquire => BootStepView::Acquire,
            BootStep::Migrate => BootStepView::Migrate,
            BootStep::Serve => BootStepView::Serve,
            BootStep::Abort(error) => BootStepView::Abort(error@),
        }
    }
}

/// The step that follows each point of startup.
pub open spec fn boot_step(boot: Boot) -> BootStepView {
    match boot {
        Boot::Started => BootStepView::ReadDatabaseUrl,
        Boot::Configured(None) => BootStepView::Abort(StartupErrorView::Configuration),
        Boot::Configured(Some(url)) => BootStepView::BuildPool {
            url: url@,
            wait_seconds: ACQUIRE_WAIT_SECONDS as int,
        },
        Boot::PoolBuilt => BootStepView::Acquire,
        Boot::PoolFailed(description) => BootStepView::Abort(StartupErrorView::Pool(description@)),
        Boot::Connected => BootStepView::Migrate,
        Boot::ConnectionFailed(description) => BootStepView::Abort(
            StartupErrorView::Pool(description@),
        ),
        Boot::Migrated => BootStepView::Serve,
        Boot::MigrationFailed(description) => BootStepView::Abort(
            StartupErrorView::Migration(description@),
        ),
    }
}

/// Decides the next step of startup.
pub fn bootstrap(boot: Boot) -> (step: BootStep)
    ensures
        step@ == boot_step(boot),
{
    match boot {
        Boot::Started => BootStep::ReadDatabaseUrl,
        Boot::Configured(None) => BootStep::Abort(StartupError::Configuration),
        Boot::Configured(Some(url)) => BootStep::BuildPool {
            url,
            wait_seconds: ACQUIRE_WAIT_SECONDS,
        },
        Boot::PoolBuilt => BootStep::Acquire,
        Boot::PoolFailed(description) => BootStep::Abort(StartupError::Pool(description)),
        Boot::Connected => BootStep::Migrate,
        Boot::ConnectionFailed(description) => BootStep::Abort(StartupError::Pool(description)),
        Boot::Migrated => BootStep::Serve,
        Boot::MigrationFailed(description) => BootStep::Abort(StartupError::Migration(description)),
    }
}

} // verus!
