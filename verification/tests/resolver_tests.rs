use cvm::bridge::Precedence;
use cvm::server::app_store::AppStore;
use cvm::server::config::load_config;
use cvm::server::resolver::{
    app_store_error, bad_request, compare_versions, create_application, get_latest_version, health,
    internal_error, latest_version_response, report_build_failure, report_build_success,
    perform, serialize_architecture, Architecture, ClientDetails, CreateApplication,
};
use cvm::server::app_store::AppStoreError;
use cvm::server::database::{ApplicationBuild, ApplicationVersion};
use cvm::server::exchange::{step, Answer, Asked, Move, Stage, StoreQuery, StoreReply};

const LINUX: &str = "x86_64-unknown-linux-gnu";
const WINDOWS: &str = "x86_64-pc-windows-gnu";

const APP: u128 = 0x50b473ee_35b3_4252_8998_6be4d4130d3a;
const CLIENT: u128 = 0xf944fc73_e1ca_442a_88bb_642d42a38a6c;

/// A store with the releases 0.1.0 and `latest` of one application, the second flagged
/// latest, each with a build for Linux, and one client.
fn store_with_latest(latest: &str) -> AppStore {
    let mut store = AppStore::from_config(load_config(None, None, None, None, true)).unwrap();
    store.create_application_with(APP, 0, "infinite_hello", "says hello forever").unwrap();
    store.create_application_version_with(10, APP, "0.1.0", false).unwrap();
    store.create_application_version_with(11, APP, latest, true).unwrap();
    store
        .create_application_build_with(100, 10, LINUX, "https://c.example/linux/infinite_hello_0.1.0")
        .unwrap();
    store
        .create_application_build_with(110, 11, LINUX, "https://c.example/linux/infinite_hello_0.2.0")
        .unwrap();
    store.create_client_with(CLIENT, 0, APP, LINUX).unwrap();
    store
}

fn running(version: &str) -> ClientDetails {
    ClientDetails {
        client_id: CLIENT,
        app_id: APP,
        current_running_version: version.to_string(),
        architecture: Architecture::X86_64Linux,
    }
}

#[test]
fn a_report_is_counted_for_the_build_that_runs() {
    let mut store = store_with_latest("0.2.0");
    assert!(report_build_success(&mut store, running("0.1.0")).is_ok());
    assert!(report_build_failure(&mut store, running("0.1.0")).is_ok());
    assert!(report_build_failure(&mut store, running("0.1.0")).is_ok());
    assert_eq!(store.connection_pool.builds[0].success_count, 1);
    assert_eq!(store.connection_pool.builds[0].failed_count, 2);
    assert_eq!(store.connection_pool.builds[1].success_count, 0);
    assert_eq!(store.connection_pool.builds[1].failed_count, 0);
}

#[test]
fn a_client_behind_the_latest_release_is_to_update() {
    let mut store = store_with_latest("0.2.0");
    let answer = get_latest_version(&mut store, running("0.1.0")).unwrap();
    assert_eq!(answer.build_id, 110);
    assert_eq!(answer.version, "0.2.0");
    assert_eq!(answer.url, "https://c.example/linux/infinite_hello_0.2.0");
    assert!(answer.update_required);
}

#[test]
fn a_client_at_or_ahead_of_the_latest_release_is_not_to_update() {
    let mut store = store_with_latest("0.2.0");
    let answer = get_latest_version(&mut store, running("0.2.0")).unwrap();
    assert_eq!(answer.version, "0.2.0");
    assert!(!answer.update_required);
    let answer = get_latest_version(&mut store, running("0.3.0")).unwrap();
    assert_eq!(answer.version, "0.2.0");
    assert!(!answer.update_required);
}

#[test]
fn versions_are_ordered_as_semantic_versions() {
    let cases = [
        ("1.19.0", "1.5.0", true),
        ("1.5.0", "1.19.0", false),
        ("1.0.0", "1.0.0-alpha.1", true),
        ("1.0.0-alpha.1", "1.0.0", false),
        ("1.0.0-pre.12", "1.0.0-pre.8", true),
        ("1.0.0-pre8", "1.0.0-pre12", true),
        ("1.0.0-pre.x", "1.0.0-pre.1", true),
        ("2.0.0", "10.0.0", false),
        ("1.0.0+build.2", "1.0.0+build.1", true),
        ("1.0.0", "1.0.0", false),
    ];
    for (latest, current, update_required) in cases {
        let mut store = store_with_latest(latest);
        let answer = get_latest_version(&mut store, running(current)).unwrap();
        assert_eq!(answer.update_required, update_required, "{} against {}", latest, current);
        assert_eq!(answer.version, latest);
    }
}

#[test]
fn the_order_is_read_the_same_from_both_sides() {
    assert_eq!(compare_versions("1.5.0", "1.19.0"), Ok(Precedence::Lower));
    assert_eq!(compare_versions("1.19.0", "1.5.0"), Ok(Precedence::Higher));
    assert_eq!(compare_versions("0.2.0", "0.2.0"), Ok(Precedence::Same));
    assert_eq!(compare_versions("1.0.0-rc.1", "1.0.0"), Ok(Precedence::Lower));
    assert_eq!(compare_versions("1.0.0-alpha", "1.0.0-alpha.1"), Ok(Precedence::Lower));
}

#[test]
fn a_version_that_is_none_is_a_bad_request() {
    assert_eq!(
        compare_versions("1.q.r", "1.0.0"),
        Err("unexpected character 'q' while parsing minor version number".to_string())
    );
    assert_eq!(
        compare_versions("1.0.0", ""),
        Err("empty string, expected a semver version".to_string())
    );
    assert!(compare_versions("1.0", "1.0.0").is_err());
    assert!(compare_versions("01.0.0", "1.0.0").is_err());
    assert!(compare_versions(" 1.0.0", "1.0.0").is_err());
    let mut store = store_with_latest("0.2.0");
    let (status, message) = get_latest_version(&mut store, running("latest")).unwrap_err();
    assert_eq!(status, 400);
    assert_eq!(message, "unexpected character 'l' while parsing major version number");
    assert_eq!(store.connection_pool.clients[0].version, "0.0.0");
    let mut store = store_with_latest("two");
    let (status, _) = get_latest_version(&mut store, running("0.1.0")).unwrap_err();
    assert_eq!(status, 400);
    assert_eq!(store.connection_pool.clients[0].version, "0.0.0");
}

#[test]
fn the_version_that_the_client_runs_is_noted() {
    let mut store = store_with_latest("0.2.0");
    get_latest_version(&mut store, running("0.1.0")).unwrap();
    assert_eq!(store.connection_pool.clients[0].version, "0.1.0");
    assert!(store.connection_pool.clients[0].updated_at > 0);
    let mut unknown = running("0.1.5");
    unknown.client_id = 1;
    assert!(get_latest_version(&mut store, unknown).is_ok());
    assert_eq!(store.connection_pool.clients.len(), 1);
    assert_eq!(store.connection_pool.clients[0].version, "0.1.0");
}

#[test]
fn a_request_ends_its_transaction() {
    let mut store = store_with_latest("0.2.0");
    assert_eq!(store.query_advisory_lock(9).unwrap(), true);
    assert_eq!(store.connection_pool.locks.len(), 1);
    get_latest_version(&mut store, running("0.1.0")).unwrap();
    assert_eq!(store.transaction, None);
    assert!(store.connection_pool.locks.is_empty());
    store.begin().unwrap();
    store.query_advisory_lock(9).unwrap();
    assert!(report_build_success(&mut store, running("7.7.7")).is_err());
    assert_eq!(store.transaction, None);
    assert!(store.connection_pool.locks.is_empty());
}

#[test]
fn no_build_for_the_client_fails_the_request() {
    let mut store = store_with_latest("0.2.0");
    let mut windows = running("0.1.0");
    windows.architecture = Architecture::X86_64Intel;
    let (status, message) = get_latest_version(&mut store, windows).unwrap_err();
    let mut windows = running("0.1.0");
    windows.architecture = Architecture::X86_64Intel;
    assert_eq!(status, 500);
    assert_eq!(
        message,
        "Client App ID: 50b473ee-35b3-4252-8998-6be4d4130d3a, Version: x86_64-pc-windows-gnu \
         not found: no rows returned by a query that expected to return at least one row"
    );
    assert_eq!(store.connection_pool.clients[0].version, "0.0.0");
    let (status, message) = report_build_success(&mut store, windows).unwrap_err();
    assert_eq!(status, 500);
    assert_eq!(
        message,
        "Client App Version ID: 50b473ee-35b3-4252-8998-6be4d4130d3a, Architecture: \
         x86_64-pc-windows-gnu not found: no rows returned by a query that expected to return \
         at least one row"
    );
}

#[test]
fn a_disabled_build_is_neither_offered_nor_counted() {
    let mut store = store_with_latest("0.2.0");
    store.connection_pool.builds[1].disabled = true;
    store.connection_pool.builds[1].success_count = 1000;
    assert!(get_latest_version(&mut store, running("0.1.0")).is_err());
    assert!(report_build_success(&mut store, running("0.2.0")).is_err());
    assert!(report_build_failure(&mut store, running("0.2.0")).is_err());
    assert_eq!(store.connection_pool.builds[1].success_count, 1000);
    assert_eq!(store.connection_pool.builds[1].failed_count, 0);
    assert!(report_build_success(&mut store, running("0.1.0")).is_ok());
}

#[test]
fn reports_go_to_the_build_that_runs_not_to_the_latest() {
    let mut store = store_with_latest("0.2.0");
    for _ in 0..12 {
        report_build_success(&mut store, running("0.1.0")).unwrap();
    }
    for _ in 0..5 {
        report_build_failure(&mut store, running("0.2.0")).unwrap();
    }
    let builds = &store.connection_pool.builds;
    assert_eq!((builds[0].success_count, builds[0].failed_count), (12, 0));
    assert_eq!((builds[1].success_count, builds[1].failed_count), (0, 5));
}

#[test]
fn a_full_counter_fails_the_report() {
    let mut store = store_with_latest("0.2.0");
    store.connection_pool.builds[0].success_count = u32::MAX;
    let (status, message) = report_build_success(&mut store, running("0.1.0")).unwrap_err();
    assert_eq!(status, 500);
    assert_eq!(
        message,
        "Client App build ID: 00000000-0000-0000-0000-000000000064 not found: integer out of range"
    );
    assert!(report_build_failure(&mut store, running("0.1.0")).is_ok());
}

#[test]
fn an_application_is_entered_and_answered_with() {
    let mut store = store_with_latest("0.2.0");
    let params =
        CreateApplication { name: "second".to_string(), description: "another".to_string() };
    let answer = create_application(&mut store, params).unwrap();
    assert_eq!(answer.name, "second");
    assert_eq!(answer.description, "another");
    let entered = store.connection_pool.applications.last().unwrap();
    assert_eq!((entered.id, entered.name.as_str()), (answer.id, "second"));
    assert_eq!(store.connection_pool.applications.len(), 2);
    assert_eq!(store.transaction, None);
}

#[test]
fn architectures_have_their_tags() {
    assert_eq!(Architecture::X86_64Intel.to_string(), WINDOWS);
    assert_eq!(Architecture::X86_64Linux.to_string(), LINUX);
    assert_eq!(serialize_architecture(Architecture::X86_64Intel), WINDOWS);
    assert_eq!(serialize_architecture(Architecture::X86_64Linux), LINUX);
    assert_eq!(Architecture::from_tag(WINDOWS), Some(Architecture::X86_64Intel));
    assert_eq!(Architecture::from_tag(LINUX), Some(Architecture::X86_64Linux));
    assert_eq!(Architecture::from_tag("aarch64-apple-darwin"), None);
    assert_eq!(Architecture::from_tag(""), None);
    assert_eq!(Architecture::from_tag("X86_64-unknown-linux-gnu"), None);
    assert_eq!(Architecture::from_tag("\"x86_64-unknown-linux-gnu\""), None);
}

#[test]
fn answers_carry_their_status() {
    assert_eq!(internal_error("boom".to_string()), (500, "boom".to_string()));
    assert_eq!(bad_request("what".to_string()), (400, "what".to_string()));
    assert_eq!(
        app_store_error(AppStoreError::ConnectionError),
        (500, "Connection error".to_string())
    );
    assert_eq!(
        app_store_error(AppStoreError::TransactionFailure { message: "m".to_string() }),
        (500, "Transaction failure: m".to_string())
    );
    assert!(health().is_ok());
}

#[test]
fn an_update_is_required_by_a_higher_release_only() {
    let build = |id| ApplicationBuild {
        id,
        app_version_id: 11,
        build_version: LINUX.to_string(),
        success_count: 3,
        failed_count: 1,
        url: "u".to_string(),
        disabled: false,
    };
    let release = || ApplicationVersion {
        id: 11,
        app_id: APP,
        version: "0.2.0".to_string(),
        latest: true,
    };
    let answer = latest_version_response(build(1), release(), Precedence::Higher);
    assert!(answer.update_required);
    assert_eq!((answer.build_id, answer.version.as_str(), answer.url.as_str()), (1, "0.2.0", "u"));
    assert!(!latest_version_response(build(2), release(), Precedence::Same).update_required);
    assert!(!latest_version_response(build(3), release(), Precedence::Lower).update_required);
}

#[test]
fn a_request_asks_the_store_one_thing_after_the_other() {
    let mut store = store_with_latest("0.2.0");
    let (stage, next) = step(Stage::Begin(Asked::Latest(running("0.1.0"))), None);
    let query = match next {
        Move::Ask(query) => query,
        other => panic!("unexpected {:?}", other),
    };
    match &query {
        StoreQuery::LatestBuild { app_id, architecture } => {
            assert_eq!((*app_id, architecture.as_str()), (APP, LINUX))
        }
        other => panic!("unexpected {:?}", other),
    }
    let (stage, next) = step(stage, Some(perform(&mut store, query)));
    assert!(matches!(next, Move::Ask(StoreQuery::Version { id: 11 })));
    let (stage, next) = step(stage, Some(perform(&mut store, StoreQuery::Version { id: 11 })));
    let query = match next {
        Move::Ask(query) => query,
        other => panic!("unexpected {:?}", other),
    };
    match &query {
        StoreQuery::NoteClient { client_id, version } => {
            assert_eq!((*client_id, version.as_str()), (CLIENT, "0.1.0"))
        }
        other => panic!("unexpected {:?}", other),
    }
    let (stage, next) = step(stage, Some(perform(&mut store, query)));
    assert!(matches!(next, Move::Ask(StoreQuery::EndTransaction)));
    assert!(store.transaction.is_some());
    let (stage, next) = step(stage, Some(perform(&mut store, StoreQuery::EndTransaction)));
    assert!(store.transaction.is_none());
    assert!(matches!(stage, Stage::Finished));
    match next {
        Move::Respond(Ok(Answer::Latest(answer))) => {
            assert_eq!(answer.version, "0.2.0");
            assert!(answer.update_required);
        }
        other => panic!("unexpected {:?}", other),
    }
}

#[test]
fn a_report_asks_for_the_exact_build_with_its_row_locked() {
    let asked = Asked::Report { params: running("0.1.0"), healthy: false };
    let (stage, next) = step(Stage::Begin(asked), None);
    match next {
        Move::Ask(StoreQuery::ExactBuild { app_id, version, architecture, for_update }) => {
            assert_eq!(app_id, APP);
            assert_eq!(version, "0.1.0");
            assert_eq!(architecture, LINUX);
            assert!(for_update);
        }
        other => panic!("unexpected {:?}", other),
    }
    let mut store = store_with_latest("0.2.0");
    let build = store.get_application_build(APP, "0.1.0", LINUX, true);
    let (stage, next) = step(stage, Some(StoreReply::Build(build)));
    assert!(matches!(next, Move::Ask(StoreQuery::CountFailure { id: 100 })));
    let failed = AppStoreError::RowNotFound { id: "x".to_string(), message: "y".to_string() };
    let (stage, next) = step(stage, Some(StoreReply::Done(Err(failed))));
    assert!(matches!(stage, Stage::Closing { .. }));
    assert!(matches!(next, Move::Ask(StoreQuery::EndTransaction)));
    let (_, next) = step(stage, Some(StoreReply::Done(Ok(()))));
    match next {
        Move::Respond(Err((status, message))) => {
            assert_eq!(status, 500);
            assert_eq!(message, "Client x not found: y");
        }
        other => panic!("unexpected {:?}", other),
    }
}

#[test]
fn an_answer_out_of_turn_fails_the_request() {
    let (stage, _) = step(Stage::Begin(Asked::Latest(running("0.1.0"))), None);
    let (stage, next) = step(stage, Some(StoreReply::Done(Ok(()))));
    assert!(matches!(stage, Stage::Finished));
    match next {
        Move::Respond(Err((status, message))) => {
            assert_eq!(status, 500);
            assert_eq!(message, "the build store answered out of turn");
        }
        other => panic!("unexpected {:?}", other),
    }
    let (_, next) = step(Stage::Finished, None);
    assert!(matches!(next, Move::Respond(Err((500, _)))));
}
