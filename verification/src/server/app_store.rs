//! The build store: one session on the database, with the operations that the rollout
//! authority needs, each failing under a name of its own.

use crate::bridge::{id_text, now_millis, random_id, uuid_text};
use crate::server::config::Config;
use crate::server::database::{
    after_failure, after_success, fetch, has_id, is_granted, is_updated_client, latest_is_unique,
    locks_after_attempt, locks_without, making_room, place_of, position, Application,
    ApplicationBuild, ApplicationVersion, Client, Database,
};
use crate::text::join_text;
use vstd::prelude::*;
use vstd::string::*;

verus! {

/// What the database says of a query that found no row where one was expected.
pub const NO_ROWS: &'static str =
    "no rows returned by a query that expected to return at least one row";

/// What the database says of a row that breaks a rule of its table: an identifier that
/// is taken, or a reference to a row that is not there.
pub const CONSTRAINT_VIOLATED: &'static str = "the row violates a constraint of its table";

/// What the database says of a counter that cannot go higher.
pub const OUT_OF_RANGE: &'static str = "integer out of range";

/// What the database says when it can begin no further transaction.
pub const NO_TRANSACTION: &'static str = "no further transaction can begin";

/// A failure of the build store.
#[derive(Debug)]
pub enum AppStoreError {
    RowNotFound { id: String, message: String },
    ConnectionError,
    RecordCreationError { message: String },
    TransactionFailure { message: String },
    VersionCreationError { message: String },
    BuildCreationError { message: String },
}

/// How a failure of the build store reads.
pub open spec fn store_error_text(e: AppStoreError) -> Seq<char> {
    match e {
        AppStoreError::RowNotFound { id, message } => "Client "@ + id@ + " not found: "@
            + message@,
        AppStoreError::ConnectionError => "Connection error"@,
        AppStoreError::RecordCreationError { message } => "Failed to create client: "@
            + message@,
        AppStoreError::TransactionFailure { message } => "Transaction failure: "@ + message@,
        AppStoreError::VersionCreationError { message } => "Failed to create version: "@
            + message@,
        AppStoreError::BuildCreationError { message } => "Failed to build client: "@ + message@,
    }
}

/// Whether `e` says that the row `id` was not found, for the reason `message`.
pub open spec fn is_row_not_found(e: AppStoreError, id: Seq<char>, message: Seq<char>) -> bool {
    e matches AppStoreError::RowNotFound { id: i, message: m } && i@ == id && m@ == message
}

/// How the build store names a build that it looked for by application and architecture.
pub open spec fn exact_build_name(app_id: u128, architecture: Seq<char>) -> Seq<char> {
    "App Version ID: "@ + uuid_text(app_id) + ", Architecture: "@ + architecture
}

/// How the build store names the latest build that it looked for.
pub open spec fn latest_build_name(app_id: u128, build_version: Seq<char>) -> Seq<char> {
    "App ID: "@ + uuid_text(app_id) + ", Version: "@ + build_version
}

/// How the build store names a build that it looked for by its identifier.
pub open spec fn build_name(id: u128) -> Seq<char> {
    "App build ID: "@ + uuid_text(id)
}

impl AppStoreError {
    /// The text of this failure.
    pub fn message(&self) -> (r: String)
        ensures
            r@ == store_error_text(*self),
    {
        match self {
            AppStoreError::RowNotFound { id, message } => {
                let mut r = String::from_str("Client ");
                r.append(id.as_str());
                r.append(" not found: ");
                r.append(message.as_str());
                r
            },
            AppStoreError::ConnectionError => String::from_str("Connection error"),
            AppStoreError::RecordCreationError { message } => join_text(
                "Failed to create client: ",
                message.as_str(),
            ),
            AppStoreError::TransactionFailure { message } => join_text(
                "Transaction failure: ",
                message.as_str(),
            ),
            AppStoreError::VersionCreationError { message } => join_text(
                "Failed to create version: ",
                message.as_str(),
            ),
            AppStoreError::BuildCreationError { message } => join_text(
                "Failed to build client: ",
                message.as_str(),
            ),
        }
    }
}

/// Whether `r` and `post` are what entering a client of the application `app_id`
/// under the identifier `id` at `now` comes to: the client is entered with the
/// configured default version, unless the identifier is taken or there is no such
/// application, which is a `RecordCreationError`.
pub open spec fn client_entered(
    pre: Database,
    default_version: Seq<char>,
    id: u128,
    app_id: u128,
    now: i64,
    post: Database,
    r: Result<Client, AppStoreError>,
) -> bool {
    match r {
        Ok(c) => {
            &&& !has_id(pre.clients@, id)
            &&& has_id(pre.applications@, app_id)
            &&& c.id == id
            &&& c.app_id == app_id
            &&& c.version@ == default_version
            &&& c.enabled
            &&& c.created_at == now
            &&& c.updated_at == now
            &&& post.clients@ == pre.clients@.push(c)
            &&& pre.same_but_clients(post)
        },
        Err(e) => {
            &&& has_id(pre.clients@, id) || !has_id(
                pre.applications@,
                app_id,
            )
            &&& pre.unchanged(post)
            &&& e matches AppStoreError::RecordCreationError { message }
            &&& message@ == CONSTRAINT_VIOLATED@
        },
    }
}

/// Whether the tables of `post` are what noting at `now` that the client `client_id`
/// runs `new_version` makes of those of `pre`; a client that is not there is no failure,
/// and nothing is noted.
pub open spec fn client_noted(
    pre: Database,
    client_id: u128,
    new_version: Seq<char>,
    now: i64,
    post: Database,
) -> bool {
    let before = pre.clients@;
    let after = post.clients@;
    &&& post.applications@ == pre.applications@
    &&& post.versions@ == pre.versions@
    &&& post.builds@ == pre.builds@
    &&& if has_id(before, client_id) {
        &&& after.len() == before.len()
        &&& is_updated_client(
            before[place_of(before, client_id)],
            new_version,
            now,
            after[place_of(before, client_id)],
        )
        &&& forall|k: int|
            0 <= k < before.len() && k != place_of(before, client_id) ==> after[k]
                == before[k]
    } else {
        after == before
    }
}

/// Whether `r` and `post` are what entering a release of the application `app_id`
/// under the identifier `id` comes to: a `VersionCreationError` where the identifier
/// is taken or there is no such application.
pub open spec fn version_entered(
    pre: Database,
    id: u128,
    app_id: u128,
    version: Seq<char>,
    latest: bool,
    post: Database,
    r: Result<ApplicationVersion, AppStoreError>,
) -> bool {
    match r {
        Ok(v) => {
            &&& !has_id(pre.versions@, id)
            &&& has_id(pre.applications@, app_id)
            &&& v.id == id
            &&& v.app_id == app_id
            &&& v.version@ == version
            &&& v.latest == latest
            &&& post.versions@ == making_room(pre.versions@, app_id, latest).push(v)
            &&& post.applications@ == pre.applications@
            &&& post.builds@ == pre.builds@
            &&& post.clients@ == pre.clients@
            &&& post.locks@ == pre.locks@
            &&& post.transactions == pre.transactions
        },
        Err(e) => {
            &&& has_id(pre.versions@, id) || !has_id(
                pre.applications@,
                app_id,
            )
            &&& pre.unchanged(post)
            &&& e matches AppStoreError::VersionCreationError { message }
            &&& message@ == CONSTRAINT_VIOLATED@
        },
    }
}

/// Whether `r` and `post` are what entering a build of the release `app_version_id`
/// under the identifier `id` comes to: a `BuildCreationError` where the identifier
/// is taken or there is no such release.
pub open spec fn build_entered(
    pre: Database,
    id: u128,
    app_version_id: u128,
    build_version: Seq<char>,
    url: Seq<char>,
    post: Database,
    r: Result<ApplicationBuild, AppStoreError>,
) -> bool {
    match r {
        Ok(b) => {
            &&& !has_id(pre.builds@, id)
            &&& has_id(pre.versions@, app_version_id)
            &&& b.id == id
            &&& b.app_version_id == app_version_id
            &&& b.build_version@ == build_version
            &&& b.url@ == url
            &&& b.success_count == 0
            &&& b.failed_count == 0
            &&& !b.disabled
            &&& post.builds@ == pre.builds@.push(b)
            &&& pre.same_but_builds(post)
        },
        Err(e) => {
            &&& has_id(pre.builds@, id) || !has_id(
                pre.versions@,
                app_version_id,
            )
            &&& pre.unchanged(post)
            &&& e matches AppStoreError::BuildCreationError { message }
            &&& message@ == CONSTRAINT_VIOLATED@
        },
    }
}

/// Whether `r` and `post` are what entering an application under the identifier
/// `id` at `now` comes to: a `RecordCreationError` where the identifier is taken.
pub open spec fn application_entered(
    pre: Database,
    id: u128,
    now: i64,
    name: Seq<char>,
    description: Seq<char>,
    post: Database,
    r: Result<Application, AppStoreError>,
) -> bool {
    match r {
        Ok(a) => {
            &&& !has_id(pre.applications@, id)
            &&& a.id == id
            &&& a.name@ == name
            &&& a.description@ == description
            &&& a.created_at == now
            &&& post.applications@
                == pre.applications@.push(a)
            &&& post.versions@ == pre.versions@
            &&& post.builds@ == pre.builds@
            &&& post.clients@ == pre.clients@
            &&& post.locks@ == pre.locks@
            &&& post.transactions == pre.transactions
        },
        Err(e) => {
            &&& has_id(pre.applications@, id)
            &&& pre.unchanged(post)
            &&& e matches AppStoreError::RecordCreationError { message }
            &&& message@ == CONSTRAINT_VIOLATED@
        },
    }
}

/// A session of the rollout authority on its database.
#[derive(Debug)]
pub struct AppStore {
    pub app_config: Config,
    /// The database that this session works on.
    pub connection_pool: Database,
    /// The transaction that is open, if one is.
    pub transaction: Option<u64>,
}

/// A `RowNotFound` for the row `id`, for the reason `message`.
fn row_not_found(id: String, message: &str) -> (e: AppStoreError)
    ensures
        is_row_not_found(e, id@, message@),
{
    AppStoreError::RowNotFound { id, message: String::from_str(message) }
}

impl AppStore {
    /// Whether `post` is this session still: same configuration, same transaction.
    pub open spec fn same_session(self, post: AppStore) -> bool {
        post.app_config == self.app_config && post.transaction == self.transaction
    }

    /// Whether `post` is this session with nothing changed in its database.
    pub open spec fn untouched(self, post: AppStore) -> bool {
        self.same_session(post) && self.connection_pool.unchanged(post.connection_pool)
    }

    /// A session on a new, empty database, with a transaction begun.
    pub fn from_config(app_config: Config) -> (r: Result<AppStore, AppStoreError>)
        ensures
            r matches Ok(store) && store.app_config == app_config && store.transaction == Some(
                0u64,
            ) && store.connection_pool.transactions == 1
                && store.connection_pool.applications@.len() == 0
                && store.connection_pool.versions@.len() == 0
                && store.connection_pool.builds@.len() == 0
                && store.connection_pool.clients@.len() == 0
                && store.connection_pool.locks@.len() == 0
                && store.connection_pool.keys_are_unique(),
    {
        AppStore::from_pool_connection(app_config, Database::new())
    }

    /// A session on the database `connection_pool`, with a transaction begun; a
    /// `TransactionFailure` where none can begin.
    pub fn from_pool_connection(app_config: Config, connection_pool: Database) -> (r: Result<
        AppStore,
        AppStoreError,
    >)
        ensures
            match r {
                Ok(store) => {
                    &&& connection_pool.transactions < u64::MAX
                    &&& store.app_config == app_config
                    &&& store.transaction == Some(connection_pool.transactions)
                    &&& store.connection_pool.transactions == connection_pool.transactions + 1
                    &&& connection_pool.same_tables(store.connection_pool)
                    &&& store.connection_pool.locks@ == connection_pool.locks@
                },
                Err(e) => {
                    &&& connection_pool.transactions == u64::MAX
                    &&& e matches AppStoreError::TransactionFailure { message }
                    &&& message@ == NO_TRANSACTION@
                },
            },
    {
        let mut store = AppStore { app_config, connection_pool, transaction: None };
        match store.begin() {
            Ok(_) => Ok(store),
            Err(e) => Err(e),
        }
    }

    /// Hands the database back, with whatever transaction is open on it left open.
    pub fn into_connection(self) -> (db: Database)
        ensures
            db == self.connection_pool,
    {
        self.connection_pool
    }

    /// Begins a transaction, unless one is open; a `TransactionFailure` where none can
    /// begin.
    pub fn begin(&mut self) -> (r: Result<(), AppStoreError>)
        ensures
            final(self).app_config == old(self).app_config,
            old(self).connection_pool.same_tables(final(self).connection_pool),
            final(self).connection_pool.locks@ == old(self).connection_pool.locks@,
            old(self).transaction is Some ==> r is Ok && old(self).untouched(*final(self)),
            old(self).transaction is None ==> match r {
                Ok(_) => {
                    &&& final(self).transaction == Some(old(self).connection_pool.transactions)
                    &&& final(self).connection_pool.transactions == old(self).connection_pool.transactions + 1
                },
                Err(e) => {
                    &&& old(self).connection_pool.transactions == u64::MAX
                    &&& old(self).untouched(*final(self))
                    &&& e matches AppStoreError::TransactionFailure { message }
                    &&& message@ == NO_TRANSACTION@
                },
            },
    {
        if self.transaction.is_some() {
            return Ok(());
        }
        match self.connection_pool.begin() {
            Some(transaction) => {
                self.transaction = Some(transaction);
                Ok(())
            },
            None => Err(
                AppStoreError::TransactionFailure { message: String::from_str(NO_TRANSACTION) },
            ),
        }
    }

    /// Ends the transaction that is open: what it changed stays, and the advisory locks
    /// it holds are free again.
    pub fn end_transaction(&mut self) -> (r: Result<(), AppStoreError>)
        ensures
            r is Ok,
            final(self).app_config == old(self).app_config,
            final(self).transaction is None,
            old(self).connection_pool.same_tables(final(self).connection_pool),
            final(self).connection_pool.transactions == old(self).connection_pool.transactions,
            final(self).connection_pool.locks@ == match old(self).transaction {
                Some(transaction) => locks_without(old(self).connection_pool.locks@, transaction),
                None => old(self).connection_pool.locks@,
            },
    {
        match self.transaction {
            Some(transaction) => {
                self.connection_pool.end_transaction(transaction);
                self.transaction = None;
            },
            None => {},
        }
        Ok(())
    }


    /// Enters a client of the application `app_id` under the identifier `id`, at `now`.
    pub fn create_client_with(&mut self, id: u128, now: i64, app_id: u128, build_ver: &str) -> (r:
        Result<Client, AppStoreError>)
        ensures
            old(self).same_session(*final(self)),
            client_entered(
                old(self).connection_pool,
                old(self).app_config.default_version@,
                id,
                app_id,
                now,
                final(self).connection_pool,
                r,
            ),
            old(self).connection_pool.keys_are_unique()
                ==> final(self).connection_pool.keys_are_unique(),
    {
        match self.connection_pool.insert_client(
            id,
            app_id,
            self.app_config.default_version.as_str(),
            now,
        ) {
            Some(c) => Ok(c),
            None => Err(
                AppStoreError::RecordCreationError {
                    message: String::from_str(CONSTRAINT_VIOLATED),
                },
            ),
        }
    }

    /// Enters a client of the application `app_id`, under an identifier drawn at random
    /// and at the time the clock shows. `build_ver` names the architecture that the
    /// client asks builds for; the record of the client does not hold it.
    pub fn create_client(&mut self, app_id: u128, build_ver: &str) -> (r: Result<
        Client,
        AppStoreError,
    >)
        ensures
            old(self).same_session(*final(self)),
            exists|id: u128, now: i64| client_entered(
                old(self).connection_pool,
                old(self).app_config.default_version@,
                id,
                app_id,
                now,
                final(self).connection_pool,
                r,
            ),
            old(self).connection_pool.keys_are_unique()
                ==> final(self).connection_pool.keys_are_unique(),
    {
        let id = random_id();
        let now = now_millis();
        self.create_client_with(id, now, app_id, build_ver)
    }

    /// Takes the client `client_id` out; one that is not there is no failure.
    pub fn delete_client(&mut self, client_id: u128) -> (r: Result<(), AppStoreError>)
        ensures
            r is Ok,
            old(self).same_session(*final(self)),
            has_id(old(self).connection_pool.clients@, client_id)
                ==> final(self).connection_pool.clients@
                == old(self).connection_pool.clients@.remove(
                place_of(old(self).connection_pool.clients@, client_id),
            ) && old(self).connection_pool.same_but_clients(final(self).connection_pool),
            !has_id(old(self).connection_pool.clients@, client_id)
                ==> old(self).connection_pool.unchanged(final(self).connection_pool),
            old(self).connection_pool.keys_are_unique()
                ==> final(self).connection_pool.keys_are_unique(),
    {
        let _ = self.connection_pool.remove_client(client_id);
        Ok(())
    }

    /// The build of the release `version` of the application `app_id` for
    /// `architecture`: the first that is not disabled, or `RowNotFound`. With
    /// `for_update` a store over a shared database keeps the row locked until the
    /// transaction ends. This store takes up one statement at a time, so that the lock
    /// is never contended and changes nothing here.
    pub fn get_application_build(
        &mut self,
        app_id: u128,
        version: &str,
        architecture: &str,
        for_update: bool,
    ) -> (r: Result<ApplicationBuild, AppStoreError>)
        ensures
            old(self).untouched(*final(self)),
            match r {
                Ok(b) => {
                    &&& !b.disabled
                    &&& exists|i: int|
                        old(self).connection_pool.is_first_offer(
                            i,
                            app_id,
                            Some(version@),
                            architecture@,
                        ) && b == old(self).connection_pool.builds@[i]
                },
                Err(e) => {
                    &&& old(self).connection_pool.offers_nothing(
                        app_id,
                        Some(version@),
                        architecture@,
                    )
                    &&& is_row_not_found(e, exact_build_name(app_id, architecture@), NO_ROWS@)
                },
            },
    {
        match self.connection_pool.find_build(app_id, Some(version), architecture) {
            Some(b) => Ok(b),
            None => {
                let mut name = String::from_str("App Version ID: ");
                name.append(id_text(app_id).as_str());
                name.append(", Architecture: ");
                name.append(architecture);
                Err(row_not_found(name, NO_ROWS))
            },
        }
    }

    /// Counts one success for the build `id`; `RowNotFound` where there is no such build
    /// or its counter cannot go higher.
    pub fn increment_success_count_by_id(&mut self, id: u128) -> (r: Result<(), AppStoreError>)
        ensures
            old(self).same_session(*final(self)),
            r is Ok <==> old(self).connection_pool.can_count_success(id),
            r is Ok ==> final(self).connection_pool.builds@ == after_success(
                old(self).connection_pool.builds@,
                id,
            ) && old(self).connection_pool.same_but_builds(final(self).connection_pool),
            r matches Err(e) ==> old(self).connection_pool.unchanged(final(self).connection_pool)
                && is_row_not_found(
                e,
                build_name(id),
                if has_id(old(self).connection_pool.builds@, id) {
                    OUT_OF_RANGE@
                } else {
                    NO_ROWS@
                },
            ),
            old(self).connection_pool.keys_are_unique()
                ==> final(self).connection_pool.keys_are_unique(),
    {
        let found = position(&self.connection_pool.builds, id).is_some();
        if self.connection_pool.increment_success_count(id) {
            Ok(())
        } else {
            let name = join_text("App build ID: ", id_text(id).as_str());
            Err(
                row_not_found(
                    name,
                    if found {
                        OUT_OF_RANGE
                    } else {
                        NO_ROWS
                    },
                ),
            )
        }
    }

    /// Counts one failure for the build `id`; `RowNotFound` where there is no such build
    /// or its counter cannot go higher.
    pub fn increment_failure_count_by_id(&mut self, id: u128) -> (r: Result<(), AppStoreError>)
        ensures
            old(self).same_session(*final(self)),
            r is Ok <==> old(self).connection_pool.can_count_failure(id),
            r is Ok ==> final(self).connection_pool.builds@ == after_failure(
                old(self).connection_pool.builds@,
                id,
            ) && old(self).connection_pool.same_but_builds(final(self).connection_pool),
            r matches Err(e) ==> old(self).connection_pool.unchanged(final(self).connection_pool)
                && is_row_not_found(
                e,
                build_name(id),
                if has_id(old(self).connection_pool.builds@, id) {
                    OUT_OF_RANGE@
                } else {
                    NO_ROWS@
                },
            ),
            old(self).connection_pool.keys_are_unique()
                ==> final(self).connection_pool.keys_are_unique(),
    {
        let found = position(&self.connection_pool.builds, id).is_some();
        if self.connection_pool.increment_failure_count(id) {
            Ok(())
        } else {
            let name = join_text("App build ID: ", id_text(id).as_str());
            Err(
                row_not_found(
                    name,
                    if found {
                        OUT_OF_RANGE
                    } else {
                        NO_ROWS
                    },
                ),
            )
        }
    }


    /// Notes at `now` that the client `client_id` runs `new_version`.
    pub fn update_client_version_at(&mut self, client_id: u128, new_version: &str, now: i64) -> (r:
        Result<(), AppStoreError>)
        ensures
            r is Ok,
            old(self).same_session(*final(self)),
            final(self).connection_pool.locks@ == old(self).connection_pool.locks@,
            final(self).connection_pool.transactions == old(self).connection_pool.transactions,
            client_noted(
                old(self).connection_pool,
                client_id,
                new_version@,
                now,
                final(self).connection_pool,
            ),
            old(self).connection_pool.keys_are_unique()
                ==> final(self).connection_pool.keys_are_unique(),
    {
        let _ = self.connection_pool.set_client_version(client_id, new_version, now);
        Ok(())
    }

    /// Notes that the client `client_id` runs `new_version`, at the time the clock
    /// shows.
    pub fn update_client_version(&mut self, client_id: u128, new_version: &str) -> (r: Result<
        (),
        AppStoreError,
    >)
        ensures
            r is Ok,
            old(self).same_session(*final(self)),
            final(self).connection_pool.locks@ == old(self).connection_pool.locks@,
            final(self).connection_pool.transactions == old(self).connection_pool.transactions,
            exists|now: i64| client_noted(
                old(self).connection_pool,
                client_id,
                new_version@,
                now,
                final(self).connection_pool,
            ),
            old(self).connection_pool.keys_are_unique()
                ==> final(self).connection_pool.keys_are_unique(),
    {
        let now = now_millis();
        self.update_client_version_at(client_id, new_version, now)
    }

    /// The client `client_id`, or `RowNotFound`.
    pub fn get_client_by_id(&mut self, client_id: u128) -> (r: Result<Client, AppStoreError>)
        ensures
            old(self).untouched(*final(self)),
            r is Ok <==> has_id(old(self).connection_pool.clients@, client_id),
            r matches Ok(c) ==> c == old(self).connection_pool.clients@[place_of(
                old(self).connection_pool.clients@,
                client_id,
            )] && c.id == client_id,
            r matches Err(e) ==> is_row_not_found(e, NO_ROWS@, NO_ROWS@),
    {
        match fetch(&self.connection_pool.clients, client_id) {
            Some(c) => Ok(c),
            None => Err(row_not_found(String::from_str(NO_ROWS), NO_ROWS)),
        }
    }


    /// Enters a release of the application `app_id` under the identifier `id`. One that
    /// is entered as the latest takes that flag from every other release of the
    /// application, so that the latest release of an application is always one.
    pub fn create_application_version_with(
        &mut self,
        id: u128,
        app_id: u128,
        version: &str,
        latest: bool,
    ) -> (r: Result<ApplicationVersion, AppStoreError>)
        ensures
            old(self).same_session(*final(self)),
            version_entered(
                old(self).connection_pool,
                id,
                app_id,
                version@,
                latest,
                final(self).connection_pool,
                r,
            ),
            latest_is_unique(old(self).connection_pool.versions@) ==> latest_is_unique(
                final(self).connection_pool.versions@,
            ),
            old(self).connection_pool.keys_are_unique()
                ==> final(self).connection_pool.keys_are_unique(),
    {
        match self.connection_pool.insert_application_version(id, app_id, version, latest) {
            Some(v) => Ok(v),
            None => Err(
                AppStoreError::VersionCreationError {
                    message: String::from_str(CONSTRAINT_VIOLATED),
                },
            ),
        }
    }

    /// Enters a release of the application `app_id`, under an identifier drawn at
    /// random.
    pub fn create_application_version(&mut self, app_id: u128, version: &str, latest: bool) -> (r:
        Result<ApplicationVersion, AppStoreError>)
        ensures
            old(self).same_session(*final(self)),
            exists|id: u128| version_entered(
                old(self).connection_pool,
                id,
                app_id,
                version@,
                latest,
                final(self).connection_pool,
                r,
            ),
            latest_is_unique(old(self).connection_pool.versions@) ==> latest_is_unique(
                final(self).connection_pool.versions@,
            ),
            old(self).connection_pool.keys_are_unique()
                ==> final(self).connection_pool.keys_are_unique(),
    {
        let id = random_id();
        self.create_application_version_with(id, app_id, version, latest)
    }

    /// The release `id`; where there is none, a `VersionCreationError`.
    pub fn get_application_version_by_id(&mut self, id: u128) -> (r: Result<
        ApplicationVersion,
        AppStoreError,
    >)
        ensures
            old(self).untouched(*final(self)),
            r is Ok <==> has_id(old(self).connection_pool.versions@, id),
            r matches Ok(v) ==> v == old(self).connection_pool.versions@[place_of(
                old(self).connection_pool.versions@,
                id,
            )] && v.id == id,
            r matches Err(e) ==> e matches AppStoreError::VersionCreationError { message }
                && message@ == NO_ROWS@,
    {
        match fetch(&self.connection_pool.versions, id) {
            Some(v) => Ok(v),
            None => Err(AppStoreError::VersionCreationError { message: String::from_str(NO_ROWS) }),
        }
    }


    /// Enters a build of the release `app_version_id` under the identifier `id`.
    pub fn create_application_build_with(
        &mut self,
        id: u128,
        app_version_id: u128,
        build_version: &str,
        url: &str,
    ) -> (r: Result<ApplicationBuild, AppStoreError>)
        ensures
            old(self).same_session(*final(self)),
            build_entered(
                old(self).connection_pool,
                id,
                app_version_id,
                build_version@,
                url@,
                final(self).connection_pool,
                r,
            ),
            old(self).connection_pool.keys_are_unique()
                ==> final(self).connection_pool.keys_are_unique(),
    {
        match self.connection_pool.insert_application_build(id, app_version_id, build_version, url) {
            Some(b) => Ok(b),
            None => Err(
                AppStoreError::BuildCreationError { message: String::from_str(CONSTRAINT_VIOLATED) },
            ),
        }
    }

    /// Enters a build of the release `app_version_id`, under an identifier drawn at
    /// random.
    pub fn create_application_build(&mut self, app_version_id: u128, build_version: &str, url: &str) -> (r:
        Result<ApplicationBuild, AppStoreError>)
        ensures
            old(self).same_session(*final(self)),
            exists|id: u128| build_entered(
                old(self).connection_pool,
                id,
                app_version_id,
                build_version@,
                url@,
                final(self).connection_pool,
                r,
            ),
            old(self).connection_pool.keys_are_unique()
                ==> final(self).connection_pool.keys_are_unique(),
    {
        let id = random_id();
        self.create_application_build_with(id, app_version_id, build_version, url)
    }

    /// The build of the latest release of the application `app_id` for the architecture
    /// `build_version`: the first that is not disabled, or `RowNotFound`.
    pub fn get_latest_application_version_build(&mut self, app_id: u128, build_version: &str) -> (r:
        Result<ApplicationBuild, AppStoreError>)
        ensures
            old(self).untouched(*final(self)),
            match r {
                Ok(b) => {
                    &&& !b.disabled
                    &&& exists|i: int|
                        old(self).connection_pool.is_first_offer(i, app_id, None, build_version@)
                            && b == old(self).connection_pool.builds@[i]
                },
                Err(e) => {
                    &&& old(self).connection_pool.offers_nothing(app_id, None, build_version@)
                    &&& is_row_not_found(e, latest_build_name(app_id, build_version@), NO_ROWS@)
                },
            },
    {
        match self.connection_pool.find_build(app_id, None, build_version) {
            Some(b) => Ok(b),
            None => {
                let mut name = String::from_str("App ID: ");
                name.append(id_text(app_id).as_str());
                name.append(", Version: ");
                name.append(build_version);
                Err(row_not_found(name, NO_ROWS))
            },
        }
    }


    /// Enters an application under the identifier `id`, at `now`.
    pub fn create_application_with(&mut self, id: u128, now: i64, name: &str, description: &str) -> (r:
        Result<Application, AppStoreError>)
        ensures
            old(self).same_session(*final(self)),
            application_entered(
                old(self).connection_pool,
                id,
                now,
                name@,
                description@,
                final(self).connection_pool,
                r,
            ),
            old(self).connection_pool.keys_are_unique()
                ==> final(self).connection_pool.keys_are_unique(),
    {
        match self.connection_pool.insert_application(id, name, description, now) {
            Some(a) => Ok(a),
            None => Err(
                AppStoreError::RecordCreationError {
                    message: String::from_str(CONSTRAINT_VIOLATED),
                },
            ),
        }
    }

    /// Enters an application, under an identifier drawn at random and at the time the
    /// clock shows.
    pub fn create_application(&mut self, name: &str, description: &str) -> (r: Result<
        Application,
        AppStoreError,
    >)
        ensures
            old(self).same_session(*final(self)),
            exists|id: u128, now: i64| application_entered(
                old(self).connection_pool,
                id,
                now,
                name@,
                description@,
                final(self).connection_pool,
                r,
            ),
            old(self).connection_pool.keys_are_unique()
                ==> final(self).connection_pool.keys_are_unique(),
    {
        let id = random_id();
        let now = now_millis();
        self.create_application_with(id, now, name, description)
    }

    /// The application `app_id`, or `RowNotFound`.
    pub fn get_application_by_id(&mut self, app_id: u128) -> (r: Result<
        Application,
        AppStoreError,
    >)
        ensures
            old(self).untouched(*final(self)),
            r is Ok <==> has_id(old(self).connection_pool.applications@, app_id),
            r matches Ok(a) ==> a == old(self).connection_pool.applications@[place_of(
                old(self).connection_pool.applications@,
                app_id,
            )] && a.id == app_id,
            r matches Err(e) ==> is_row_not_found(e, uuid_text(app_id), NO_ROWS@),
    {
        match fetch(&self.connection_pool.applications, app_id) {
            Some(a) => Ok(a),
            None => Err(row_not_found(id_text(app_id), NO_ROWS)),
        }
    }

    /// Takes the application `app_id` out, and says how many rows went: one, or none
    /// where there is no such application.
    pub fn delete_application_by_id(&mut self, app_id: u128) -> (r: Result<u64, AppStoreError>)
        ensures
            old(self).same_session(*final(self)),
            r == Ok::<u64, AppStoreError>(
                if has_id(old(self).connection_pool.applications@, app_id) {
                    1u64
                } else {
                    0u64
                },
            ),
            has_id(old(self).connection_pool.applications@, app_id)
                ==> final(self).connection_pool.applications@
                == old(self).connection_pool.applications@.remove(
                place_of(old(self).connection_pool.applications@, app_id),
            ),
            !has_id(old(self).connection_pool.applications@, app_id)
                ==> final(self).connection_pool.applications@ == old(self).connection_pool.applications@,
            final(self).connection_pool.versions@ == old(self).connection_pool.versions@,
            final(self).connection_pool.builds@ == old(self).connection_pool.builds@,
            final(self).connection_pool.clients@ == old(self).connection_pool.clients@,
            final(self).connection_pool.locks@ == old(self).connection_pool.locks@,
            final(self).connection_pool.transactions == old(self).connection_pool.transactions,
            old(self).connection_pool.keys_are_unique()
                ==> final(self).connection_pool.keys_are_unique(),
    {
        Ok(self.connection_pool.remove_application(app_id))
    }

    /// Tries for the advisory lock on `lock_id`, without waiting: `true` where the lock
    /// is now held by the open transaction, until it ends; `false` where another
    /// transaction holds it. Without an open transaction the answer is the same, and
    /// nothing is held afterwards.
    pub fn query_advisory_lock(&mut self, lock_id: u128) -> (r: Result<bool, AppStoreError>)
        ensures
            old(self).same_session(*final(self)),
            old(self).connection_pool.same_tables(final(self).connection_pool),
            final(self).connection_pool.transactions == old(self).connection_pool.transactions,
            match old(self).transaction {
                Some(transaction) => {
                    &&& r == Ok::<bool, AppStoreError>(
                        is_granted(old(self).connection_pool.locks@, lock_id, transaction),
                    )
                    &&& final(self).connection_pool.locks@ == locks_after_attempt(
                        old(self).connection_pool.locks@,
                        lock_id,
                        transaction,
                    )
                },
                None => {
                    &&& r == Ok::<bool, AppStoreError>(
                        forall|i: int|
                            0 <= i < old(self).connection_pool.locks@.len() ==> (
                            #[trigger] old(self).connection_pool.locks@[i]).key != lock_id,
                    )
                    &&& final(self).connection_pool.locks@ == old(self).connection_pool.locks@
                },
            },
    {
        match self.transaction {
            Some(transaction) => Ok(self.connection_pool.try_advisory_lock(transaction, lock_id)),
            None => {
                let mut i: usize = 0;
                while i < self.connection_pool.locks.len()
                    invariant
                        i <= self.connection_pool.locks@.len(),
                        *self == *old(self),
                        self.transaction is None,
                        forall|k: int|
                            0 <= k < i ==> (#[trigger] self.connection_pool.locks@[k]).key
                                != lock_id,
                    decreases self.connection_pool.locks@.len() - i,
                {
                    if self.connection_pool.locks[i].key == lock_id {
                        return Ok(false);
                    }
                    i = i + 1;
                }
                Ok(true)
            },
        }
    }
}

} // verus!
