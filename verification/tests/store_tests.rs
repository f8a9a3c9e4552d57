use cvm::server::app_store::{AppStore, AppStoreError};
use cvm::server::config::{load_config, Config, DEFAULT_VERSION};
use cvm::server::database::{fetch, position, AdvisoryLock, Database};
use cvm::server::db_commands::{application_build_query, QUERY_APPLICATION_BUILD_VERSION};

fn test_config() -> Config {
    load_config(None, None, None, None, true)
}

fn setup() -> Result<AppStore, AppStoreError> {
    AppStore::from_config(test_config())
}

fn setup_context() -> AppStore {
    setup().expect("Failed to setup database pool")
}

const LINUX: &str = "x86_64-unknown-linux-gnu";
const WINDOWS: &str = "x86_64-pc-windows-gnu";

#[test]
fn test_new_client_store() {
    let store = setup_context();
    assert_eq!(store.transaction, Some(0));
    assert!(store.connection_pool.applications.is_empty());
    assert!(store.connection_pool.locks.is_empty());
}

#[test]
fn test_create_client() {
    let mut store = setup_context();
    let app = store.create_application(&"abc", "abcd").unwrap();
    let result = store.create_client(app.id, "0.0.1");
    assert!(result.is_ok());
    let client = result.unwrap();
    assert_eq!(client.version, DEFAULT_VERSION);
    assert_eq!(client.enabled, true);
}

#[test]
fn test_update_client_version() {
    let mut store = setup_context();
    let app = store.create_application(&"abc", "abcd").unwrap();
    let client = store.create_client(app.id, "0.0.1").unwrap();
    let update_result = store.update_client_version(client.id, "0.0.2");
    assert!(update_result.is_ok());
    let updated_client = store.get_client_by_id(client.id).unwrap();
    assert_eq!(updated_client.version, "0.0.2");
}

#[test]
fn test_delete_client() {
    let mut store = setup_context();
    let app = store.create_application(&"abc", "abcd").unwrap();
    let client = store.create_client(app.id, "0.0.1").unwrap();
    let delete_result = store.delete_client(client.id);
    assert!(delete_result.is_ok());
    assert!(store.get_client_by_id(client.id).is_err());
}

#[test]
fn test_create_application_build() {
    let mut store = setup_context();
    let build_version = "x86_64";
    let url = "http://example.com";
    let app = store.create_application(&"abc", "abcd").unwrap();
    let app_version = store.create_application_version(app.id, "0.0.1", true).unwrap();
    let build = store.create_application_build(app_version.id, build_version, url).unwrap();
    assert_eq!(build.url, url);
    assert_eq!(build.build_version, build_version);
    assert_eq!(build.success_count, 0);
    assert_eq!(build.failed_count, 0);
    assert!(!build.disabled);
}

#[test]
fn the_configuration_has_its_defaults() {
    let config = load_config(None, None, None, None, false);
    assert_eq!(config.db_host, "127.0.0.1");
    assert_eq!(config.db_user, "postgres");
    assert_eq!(config.db_pwd, "");
    assert_eq!(config.db_name, "client_version_manager");
    assert_eq!(config.db_url, "postgresql://postgres@127.0.0.1:5432/client_version_manager");
    assert_eq!(config.content_url, "https://hello-versioned.s3.us-east-1.amazonaws.com/");
    assert_eq!(config.default_version, "0.0.0");
    assert_eq!(test_config().db_name, "client_version_manager_test");
    assert_eq!(
        test_config().db_url,
        "postgresql://postgres@127.0.0.1:5432/client_version_manager_test"
    );
}

#[test]
fn the_configuration_takes_what_is_set() {
    let config = load_config(
        Some("db.internal".to_string()),
        Some("cvm".to_string()),
        Some("secret".to_string()),
        Some("https://content.example/".to_string()),
        false,
    );
    assert_eq!(config.db_url, "postgresql://cvm@db.internal:5432/client_version_manager");
    assert_eq!(config.db_pwd, "secret");
    assert_eq!(config.content_url, "https://content.example/");
    let odd = load_config(None, Some("{host}".to_string()), None, None, false);
    assert_eq!(odd.db_url, "postgresql://127.0.0.1@127.0.0.1:5432/client_version_manager");
}

#[test]
fn the_exact_query_locks_its_row_on_request() {
    assert_eq!(application_build_query(false), QUERY_APPLICATION_BUILD_VERSION);
    assert_eq!(
        application_build_query(true),
        format!("{} FOR UPDATE", QUERY_APPLICATION_BUILD_VERSION)
    );
}

#[test]
fn rows_are_found_by_their_identifier() {
    let mut db = Database::new();
    assert!(db.insert_application(7, "a", "first", 1).is_some());
    assert!(db.insert_application(9, "b", "second", 2).is_some());
    assert_eq!(position(&db.applications, 7), Some(0));
    assert_eq!(position(&db.applications, 9), Some(1));
    assert_eq!(position(&db.applications, 8), None);
    assert_eq!(fetch(&db.applications, 9).unwrap().name, "b");
    assert!(fetch(&db.applications, 8).is_none());
}

#[test]
fn an_identifier_is_given_once() {
    let mut db = Database::new();
    let app = db.insert_application(1, "a", "d", 5).unwrap();
    assert_eq!((app.id, app.created_at), (1, 5));
    assert!(db.insert_application(1, "b", "d", 6).is_none());
    assert_eq!(db.applications.len(), 1);
    assert_eq!(db.applications[0].name, "a");
    assert!(db.insert_application_version(10, 1, "0.1.0", true).is_some());
    assert!(db.insert_application_version(10, 1, "0.2.0", true).is_none());
    assert!(db.insert_application_build(100, 10, LINUX, "u").is_some());
    assert!(db.insert_application_build(100, 10, WINDOWS, "u").is_none());
    assert!(db.insert_client(1000, 1, "0.0.0", 7).is_some());
    assert!(db.insert_client(1000, 1, "0.0.0", 8).is_none());
    assert_eq!((db.versions.len(), db.builds.len(), db.clients.len()), (1, 1, 1));
}

#[test]
fn a_row_needs_the_row_it_refers_to() {
    let mut db = Database::new();
    assert!(db.insert_application_version(10, 1, "0.1.0", true).is_none());
    assert!(db.insert_application_build(100, 10, LINUX, "u").is_none());
    assert!(db.insert_client(1000, 1, "0.0.0", 7).is_none());
    let mut store = AppStore::from_pool_connection(test_config(), db).unwrap();
    assert!(matches!(
        store.create_application_version_with(10, 1, "0.1.0", true),
        Err(AppStoreError::VersionCreationError { .. })
    ));
    assert!(matches!(
        store.create_application_build_with(100, 10, LINUX, "u"),
        Err(AppStoreError::BuildCreationError { .. })
    ));
    assert!(matches!(
        store.create_client_with(1000, 0, 1, LINUX),
        Err(AppStoreError::RecordCreationError { .. })
    ));
    assert!(store.create_application_with(1, 0, "a", "d").is_ok());
    assert!(matches!(
        store.create_application_with(1, 0, "a", "d"),
        Err(AppStoreError::RecordCreationError { .. })
    ));
}

fn store_with_two_releases() -> AppStore {
    let mut store = setup_context();
    store.create_application_with(1, 0, "hello", "says hello").unwrap();
    store.create_application_with(2, 0, "other", "another product").unwrap();
    store.create_application_version_with(10, 1, "0.1.0", false).unwrap();
    store.create_application_version_with(11, 1, "0.2.0", true).unwrap();
    store.create_application_version_with(20, 2, "0.2.0", true).unwrap();
    store.create_application_build_with(100, 10, LINUX, "https://c.example/hello_0.1.0").unwrap();
    store.create_application_build_with(101, 10, WINDOWS, "https://c.example/hello_0.1.0.exe").unwrap();
    store.create_application_build_with(110, 11, LINUX, "https://c.example/hello_0.2.0").unwrap();
    store.create_application_build_with(200, 20, LINUX, "https://c.example/other_0.2.0").unwrap();
    store
}

#[test]
fn the_exact_build_is_found_by_application_version_and_architecture() {
    let mut store = store_with_two_releases();
    assert_eq!(store.get_application_build(1, "0.1.0", LINUX, false).unwrap().id, 100);
    assert_eq!(store.get_application_build(1, "0.1.0", WINDOWS, true).unwrap().id, 101);
    assert_eq!(store.get_application_build(1, "0.2.0", LINUX, true).unwrap().id, 110);
    assert_eq!(store.get_application_build(2, "0.2.0", LINUX, true).unwrap().id, 200);
    assert!(store.get_application_build(1, "0.2.0", WINDOWS, true).is_err());
    assert!(store.get_application_build(1, "0.3.0", LINUX, true).is_err());
    assert!(store.get_application_build(3, "0.1.0", LINUX, true).is_err());
}

#[test]
fn the_latest_build_is_that_of_the_release_flagged_latest() {
    let mut store = store_with_two_releases();
    assert_eq!(store.get_latest_application_version_build(1, LINUX).unwrap().id, 110);
    assert_eq!(store.get_latest_application_version_build(2, LINUX).unwrap().id, 200);
    assert!(store.get_latest_application_version_build(1, WINDOWS).is_err());
    assert!(store.get_latest_application_version_build(3, LINUX).is_err());
}

#[test]
fn a_disabled_build_is_never_found() {
    let mut store = store_with_two_releases();
    store.increment_success_count_by_id(110).unwrap();
    store.increment_failure_count_by_id(110).unwrap();
    store.connection_pool.builds[2].disabled = true;
    assert_eq!(store.connection_pool.builds[2].id, 110);
    assert!(store.get_latest_application_version_build(1, LINUX).is_err());
    assert!(store.get_application_build(1, "0.2.0", LINUX, true).is_err());
    assert!(store.get_application_build(1, "0.2.0", LINUX, false).is_err());
    assert!(store.connection_pool.find_build(1, None, LINUX).is_none());
    assert!(store.connection_pool.find_build(1, Some("0.2.0"), LINUX).is_none());
    assert_eq!(store.get_application_build(1, "0.1.0", LINUX, true).unwrap().id, 100);
    store.connection_pool.builds[2].disabled = false;
    assert_eq!(store.get_latest_application_version_build(1, LINUX).unwrap().id, 110);
}

#[test]
fn the_first_enabled_build_is_found_behind_a_disabled_one() {
    let mut store = store_with_two_releases();
    store.create_application_build_with(111, 11, LINUX, "https://c.example/hello_0.2.0b").unwrap();
    assert_eq!(store.get_latest_application_version_build(1, LINUX).unwrap().id, 110);
    store.connection_pool.builds[2].disabled = true;
    let build = store.get_latest_application_version_build(1, LINUX).unwrap();
    assert_eq!(build.id, 111);
    assert_eq!(build.url, "https://c.example/hello_0.2.0b");
}

#[test]
fn every_report_is_counted() {
    let mut store = store_with_two_releases();
    for _ in 0..25 {
        store.increment_success_count_by_id(100).unwrap();
    }
    for _ in 0..4 {
        store.increment_failure_count_by_id(100).unwrap();
    }
    let build = store.get_application_build(1, "0.1.0", LINUX, true).unwrap();
    assert_eq!((build.success_count, build.failed_count), (25, 4));
    let other = store.get_application_build(1, "0.2.0", LINUX, true).unwrap();
    assert_eq!((other.success_count, other.failed_count), (0, 0));
}

#[test]
fn a_report_for_no_build_is_not_found() {
    let mut store = store_with_two_releases();
    match store.increment_success_count_by_id(5) {
        Err(AppStoreError::RowNotFound { id, message }) => {
            assert_eq!(id, "App build ID: 00000000-0000-0000-0000-000000000005");
            assert_eq!(
                message,
                "no rows returned by a query that expected to return at least one row"
            );
        }
        other => panic!("unexpected {:?}", other),
    }
    assert!(matches!(
        store.increment_failure_count_by_id(5),
        Err(AppStoreError::RowNotFound { .. })
    ));
}

#[test]
fn a_counter_at_its_end_counts_no_further() {
    let mut store = store_with_two_releases();
    store.connection_pool.builds[0].success_count = u32::MAX - 1;
    store.connection_pool.builds[0].failed_count = u32::MAX;
    assert!(store.increment_success_count_by_id(100).is_ok());
    assert_eq!(store.connection_pool.builds[0].success_count, u32::MAX);
    match store.increment_success_count_by_id(100) {
        Err(AppStoreError::RowNotFound { id, message }) => {
            assert_eq!(id, "App build ID: 00000000-0000-0000-0000-000000000064");
            assert_eq!(message, "integer out of range");
        }
        other => panic!("unexpected {:?}", other),
    }
    assert!(store.increment_failure_count_by_id(100).is_err());
    assert_eq!(store.connection_pool.builds[0].success_count, u32::MAX);
    assert_eq!(store.connection_pool.builds[0].failed_count, u32::MAX);
}

#[test]
fn lookups_by_identifier_fail_under_their_names() {
    let mut store = store_with_two_releases();
    assert_eq!(store.get_application_by_id(2).unwrap().name, "other");
    match store.get_application_by_id(0xa1a2a3a4b1b2c1c2d1d2d3d4d5d6d7d8) {
        Err(AppStoreError::RowNotFound { id, .. }) => {
            assert_eq!(id, "a1a2a3a4-b1b2-c1c2-d1d2-d3d4d5d6d7d8")
        }
        other => panic!("unexpected {:?}", other),
    }
    assert_eq!(store.get_application_version_by_id(11).unwrap().version, "0.2.0");
    assert!(matches!(
        store.get_application_version_by_id(12),
        Err(AppStoreError::VersionCreationError { .. })
    ));
    assert!(matches!(store.get_client_by_id(1), Err(AppStoreError::RowNotFound { .. })));
    match store.get_application_build(1, "9.9.9", LINUX, true) {
        Err(AppStoreError::RowNotFound { id, .. }) => assert_eq!(
            id,
            "App Version ID: 00000000-0000-0000-0000-000000000001, Architecture: x86_64-unknown-linux-gnu"
        ),
        other => panic!("unexpected {:?}", other),
    }
    match store.get_latest_application_version_build(9, WINDOWS) {
        Err(AppStoreError::RowNotFound { id, .. }) => assert_eq!(
            id,
            "App ID: 00000000-0000-0000-0000-000000000009, Version: x86_64-pc-windows-gnu"
        ),
        other => panic!("unexpected {:?}", other),
    }
}

#[test]
fn store_errors_have_their_texts() {
    let text = |e: AppStoreError| e.message();
    assert_eq!(
        text(AppStoreError::RowNotFound { id: "7".to_string(), message: "gone".to_string() }),
        "Client 7 not found: gone"
    );
    assert_eq!(text(AppStoreError::ConnectionError), "Connection error");
    assert_eq!(
        text(AppStoreError::RecordCreationError { message: "m".to_string() }),
        "Failed to create client: m"
    );
    assert_eq!(
        text(AppStoreError::TransactionFailure { message: "m".to_string() }),
        "Transaction failure: m"
    );
    assert_eq!(
        text(AppStoreError::VersionCreationError { message: "m".to_string() }),
        "Failed to create version: m"
    );
    assert_eq!(
        text(AppStoreError::BuildCreationError { message: "m".to_string() }),
        "Failed to build client: m"
    );
}

#[test]
fn clients_are_noted_and_taken_out() {
    let mut store = store_with_two_releases();
    let client = store.create_client_with(1000, 50, 1, LINUX).unwrap();
    assert_eq!((client.id, client.app_id, client.created_at, client.updated_at), (1000, 1, 50, 50));
    store.create_client_with(1001, 51, 1, LINUX).unwrap();
    assert!(store.update_client_version_at(1000, "0.1.0", 60).is_ok());
    let noted = store.get_client_by_id(1000).unwrap();
    assert_eq!((noted.version.as_str(), noted.updated_at, noted.created_at), ("0.1.0", 60, 50));
    let other = store.get_client_by_id(1001).unwrap();
    assert_eq!((other.version.as_str(), other.updated_at), ("0.0.0", 51));
    assert!(store.update_client_version_at(4000, "0.1.0", 61).is_ok());
    assert_eq!(store.connection_pool.clients.len(), 2);
    assert!(store.delete_client(1000).is_ok());
    assert!(store.delete_client(1000).is_ok());
    assert_eq!(store.connection_pool.clients.len(), 1);
    assert_eq!(store.connection_pool.clients[0].id, 1001);
}

#[test]
fn deleting_an_application_says_how_many_rows_went() {
    let mut store = store_with_two_releases();
    assert_eq!(store.delete_application_by_id(2).unwrap(), 1);
    assert_eq!(store.delete_application_by_id(2).unwrap(), 0);
    assert!(store.get_application_by_id(2).is_err());
    assert!(store.get_application_by_id(1).is_ok());
    assert_eq!(store.connection_pool.versions.len(), 3);
}

#[test]
fn identifiers_drawn_at_random_differ() {
    let mut store = setup_context();
    let a = store.create_application("a", "d").unwrap();
    let b = store.create_application("b", "d").unwrap();
    assert_ne!(a.id, b.id);
    assert!(a.created_at > 1_600_000_000_000);
    assert_eq!(uuid::Uuid::from_u128(a.id).get_version_num(), 4);
    assert_eq!(store.get_application_by_id(b.id).unwrap().name, "b");
}

#[test]
fn of_two_transactions_one_gets_the_lock() {
    let mut db = Database::new();
    let first = db.begin().unwrap();
    let second = db.begin().unwrap();
    assert_ne!(first, second);
    let key = 0x50b473ee35b342528998_6be4d4130d3a;
    assert!(db.try_advisory_lock(first, key));
    assert!(!db.try_advisory_lock(second, key));
    assert!(db.try_advisory_lock(first, key));
    assert!(db.try_advisory_lock(second, key + 1));
    db.end_transaction(first);
    assert_eq!(db.locks, vec![AdvisoryLock { key: key + 1, holder: second }]);
    let third = db.begin().unwrap();
    assert!(db.try_advisory_lock(third, key));
    assert!(!db.try_advisory_lock(second, key));
    assert!(!db.try_advisory_lock(third, key + 1));
}

#[test]
fn the_lock_goes_to_whoever_comes_first() {
    let key = 42;
    let mut db = Database::new();
    let (first, second) = (db.begin().unwrap(), db.begin().unwrap());
    assert!(db.try_advisory_lock(second, key));
    assert!(!db.try_advisory_lock(first, key));
    db.end_transaction(second);
    assert!(db.locks.is_empty());
    assert!(db.try_advisory_lock(first, key));
}

#[test]
fn sessions_on_one_database_contend_for_a_lock() {
    let key = 7;
    let mut one = setup_context();
    assert_eq!(one.query_advisory_lock(key).unwrap(), true);
    assert_eq!(one.query_advisory_lock(key).unwrap(), true);
    let db = one.into_connection();
    let mut two = AppStore::from_pool_connection(test_config(), db).unwrap();
    assert_eq!(two.transaction, Some(1));
    assert_eq!(two.query_advisory_lock(key).unwrap(), false);
    assert_eq!(two.query_advisory_lock(key + 1).unwrap(), true);
    let mut db = two.into_connection();
    db.end_transaction(0);
    let mut two = AppStore { app_config: test_config(), connection_pool: db, transaction: Some(1) };
    assert_eq!(two.query_advisory_lock(key).unwrap(), true);
    assert!(two.end_transaction().is_ok());
    assert_eq!(two.transaction, None);
    assert!(two.connection_pool.locks.is_empty());
    assert_eq!(two.query_advisory_lock(key).unwrap(), true);
    assert!(two.connection_pool.locks.is_empty());
    assert!(two.begin().is_ok());
    assert_eq!(two.transaction, Some(2));
    assert!(two.begin().is_ok());
    assert_eq!(two.transaction, Some(2));
}

#[test]
fn a_database_out_of_transactions_begins_none() {
    let mut db = Database::new();
    db.transactions = u64::MAX;
    assert_eq!(db.begin(), None);
    match AppStore::from_pool_connection(test_config(), db) {
        Err(AppStoreError::TransactionFailure { message }) => {
            assert_eq!(message, "no further transaction can begin")
        }
        other => panic!("unexpected {:?}", other.map(|s| s.transaction)),
    }
}

#[test]
fn an_application_has_one_latest_release() {
    let mut store = store_with_two_releases();
    let flags = |store: &AppStore| -> Vec<(u128, bool)> {
        store.connection_pool.versions.iter().map(|v| (v.id, v.latest)).collect()
    };
    assert_eq!(flags(&store), vec![(10, false), (11, true), (20, true)]);
    store.create_application_version_with(12, 1, "0.3.0", true).unwrap();
    assert_eq!(flags(&store), vec![(10, false), (11, false), (20, true), (12, true)]);
    store.create_application_version_with(13, 1, "0.2.5", false).unwrap();
    assert_eq!(
        flags(&store),
        vec![(10, false), (11, false), (20, true), (12, true), (13, false)]
    );
    assert!(store.get_latest_application_version_build(1, LINUX).is_err());
    store.create_application_build_with(120, 12, LINUX, "https://c.example/hello_0.3.0").unwrap();
    assert_eq!(store.get_latest_application_version_build(1, LINUX).unwrap().id, 120);
    assert_eq!(store.get_latest_application_version_build(2, LINUX).unwrap().id, 200);
    assert!(store.create_application_version_with(12, 1, "0.4.0", true).is_err());
    assert_eq!(store.connection_pool.versions[3].latest, true);
}
