use cvm::config::{
    get_architecture, get_env_var_or, Config, ConfigError, DEFAULT_APP_ID, DEFAULT_CLIENT_ID,
    DEFAULT_CVM_SERVER_URL,
};
use cvm::errors::{map_io_error, map_reqwuest_error, map_serialize_error, CvmError};
use cvm::graceful_shutdown;
use cvm::http_client::{
    download_file_name, file_name_from_segments, CvmHttpClient, LatestVersionResponse,
};
use cvm::process::decimal;
use cvm::strip_version_from_file_name;

fn linux_config() -> Config {
    Config::new(None, None, None, "linux", "x86_64").expect("Failed to parse config")
}

fn create_http_client() -> CvmHttpClient {
    CvmHttpClient::new(linux_config(), "0.1.0")
}

fn response(version: &str, url: &str, update_required: bool) -> LatestVersionResponse {
    LatestVersionResponse {
        build_id: "b".to_string(),
        version: version.to_string(),
        url: url.to_string(),
        update_required,
    }
}

#[test]
fn an_answer_names_the_version_that_counts_as_running() {
    let mut http_client = create_http_client();
    let answer = response(
        "0.2.0",
        "https://hello-versioned.s3.us-east-1.amazonaws.com/linux/infinite_hello_0.2.0",
        true,
    );
    let result = http_client.check_latest(Ok(answer)).unwrap();
    assert_eq!(result.version, "0.2.0");
    assert!(result.update_required);
    assert_eq!(http_client.client_details.current_running_version, "0.2.0");
}

#[test]
fn a_failed_request_leaves_the_running_version() {
    let mut http_client = create_http_client();
    let result =
        http_client.check_latest(Err(CvmError::ServerUnreachable { message: "down".to_string() }));
    assert!(matches!(result, Err(CvmError::ServerUnreachable { .. })));
    assert_eq!(http_client.client_details.current_running_version, "0.1.0");
}

#[test]
fn config_takes_defaults_where_nothing_is_set() {
    let config = linux_config();
    assert_eq!(config.cvm_server_url, DEFAULT_CVM_SERVER_URL);
    assert_eq!(config.client_id, DEFAULT_CLIENT_ID);
    assert_eq!(config.app_id, DEFAULT_APP_ID);
    assert_eq!(config.architecture, "x86_64-unknown-linux-gnu");
}

#[test]
fn config_takes_what_is_set() {
    let config = Config::new(
        Some("http://cvm.example:8080".to_string()),
        Some("c".to_string()),
        Some("a".to_string()),
        "windows",
        "x86_64",
    )
    .unwrap();
    assert_eq!(config.cvm_server_url, "http://cvm.example:8080");
    assert_eq!(config.client_id, "c");
    assert_eq!(config.app_id, "a");
    assert_eq!(config.architecture, "x86_64-pc-windows-gnu");
}

#[test]
fn architecture_is_refused_before_the_operating_system() {
    assert_eq!(get_architecture("linux", "aarch64"), Err(ConfigError::ArchitectureNotSupported));
    assert_eq!(get_architecture("macos", "aarch64"), Err(ConfigError::ArchitectureNotSupported));
    assert_eq!(get_architecture("macos", "x86_64"), Err(ConfigError::OSNotSupported));
    assert_eq!(get_architecture("linux", "x86_64"), Ok("x86_64-unknown-linux-gnu".to_string()));
    assert_eq!(get_architecture("windows", "x86_64"), Ok("x86_64-pc-windows-gnu".to_string()));
    assert!(Config::new(None, None, None, "freebsd", "x86_64").is_err());
}

#[test]
fn config_errors_name_the_machine() {
    assert_eq!(
        ConfigError::OSNotSupported.message("macos", "x86_64"),
        "OS is not supported for macos"
    );
    assert_eq!(
        ConfigError::ArchitectureNotSupported.message("linux", "arm"),
        "Architecture is not supported for arm"
    );
}

#[test]
fn a_setting_falls_back_to_its_default() {
    assert_eq!(get_env_var_or(None, "d"), "d");
    assert_eq!(get_env_var_or(Some("v".to_string()), "d"), "v");
    assert_eq!(get_env_var_or(Some(String::new()), "d"), "");
}

#[test]
fn every_failure_has_its_text() {
    let text = |e: CvmError| e.message();
    assert_eq!(
        text(CvmError::UnableToCompareVersions { old: "1".to_string(), new: "2".to_string() }),
        "Unable to compare old and new version: old version: 1 | new version: 2"
    );
    assert_eq!(
        text(CvmError::LatestVersionNotFound { current_version: "0.1.0".to_string() }),
        "Latest version not found: currently running: 0.1.0"
    );
    assert_eq!(
        text(CvmError::TemporaryDirectoryFailedToCreate { message: "m".to_string() }),
        "Unable to create temporary directory: m"
    );
    assert_eq!(
        text(CvmError::NewVersionDownloadFailed { message: "m".to_string() }),
        "Unable to download new version: m"
    );
    assert_eq!(
        text(CvmError::ProcessExitEarly { status: "exit status: 1".to_string() }),
        "Exited with status code: exit status: 1"
    );
    assert_eq!(
        text(CvmError::ProcessFailedToStart { message: "m".to_string() }),
        "Unable to start process: m"
    );
    assert_eq!(
        text(CvmError::ShutdownFailed { message: "m".to_string() }),
        "Shutdown process failed: m"
    );
    assert_eq!(
        text(CvmError::ServerUnreachable { message: "m".to_string() }),
        "Update server error: m"
    );
    assert_eq!(
        text(CvmError::SerializingClientDetailsFailed { message: "m".to_string() }),
        "Unable to serialize client details: m"
    );
}

#[test]
fn outside_errors_become_named_failures() {
    let io = std::io::Error::new(std::io::ErrorKind::Other, "disk is full");
    match map_io_error(io) {
        CvmError::TemporaryDirectoryFailedToCreate { message } => {
            assert_eq!(message, "disk is full")
        }
        other => panic!("unexpected {:?}", other),
    }
    let json = serde_json::from_str::<serde_json::Value>("{").unwrap_err();
    let words = json.to_string();
    match map_serialize_error(json) {
        CvmError::SerializingClientDetailsFailed { message } => assert_eq!(message, words),
        other => panic!("unexpected {:?}", other),
    }
    let request = reqwest::Client::new().get("no url at all").build().unwrap_err();
    let words = request.to_string();
    match map_reqwuest_error(request) {
        CvmError::NewVersionDownloadFailed { message } => assert_eq!(message, words),
        other => panic!("unexpected {:?}", other),
    }
}

#[test]
fn the_file_name_is_the_end_of_the_url() {
    let answer = response(
        "0.2.0",
        "https://hello-versioned.s3.us-east-1.amazonaws.com/linux/infinite_hello_0.2.0",
        true,
    );
    assert_eq!(answer.get_file_name(), "infinite_hello_0.2.0");
    assert_eq!(response("1", "no-slash", false).get_file_name(), "no-slash");
    assert_eq!(response("1", "ends/in/slash/", false).get_file_name(), "");
    assert_eq!(response("1", "", false).get_file_name(), "");
}

#[test]
fn the_version_is_behind_the_last_underscore() {
    assert_eq!(strip_version_from_file_name("infinite_hello_0.3.2"), "0.3.2");
    assert_eq!(strip_version_from_file_name("infinite_hello_0.1.0"), "0.1.0");
    assert_eq!(strip_version_from_file_name("hello"), "hello");
    assert_eq!(strip_version_from_file_name("hello_"), "");
    assert_eq!(strip_version_from_file_name(""), "");
    assert_eq!(strip_version_from_file_name("a_b_1.0.0-rc.1"), "1.0.0-rc.1");
}

#[test]
fn the_client_knows_its_three_addresses() {
    let client = create_http_client();
    assert_eq!(client.latest_version_url, "http://127.0.0.1:3000/application/latest");
    assert_eq!(client.report_success_url, "http://127.0.0.1:3000/client/success");
    assert_eq!(client.report_failure_url, "http://127.0.0.1:3000/client/failure");
    assert_eq!(client.client_details.client_id, DEFAULT_CLIENT_ID);
    assert_eq!(client.client_details.app_id, DEFAULT_APP_ID);
    assert_eq!(client.client_details.architecture, "x86_64-unknown-linux-gnu");
    assert_eq!(client.client_details.current_running_version, "0.1.0");
}

#[test]
fn addresses_come_in_normal_form() {
    let config = Config::new(Some("HTTP://Example.COM:80".to_string()), None, None, "linux", "x86_64")
        .unwrap();
    let client = CvmHttpClient::try_new(config, "0.0.0").unwrap();
    assert_eq!(client.latest_version_url, "http://example.com/application/latest");
    assert_eq!(client.report_success_url, "http://example.com/client/success");
    assert_eq!(client.report_failure_url, "http://example.com/client/failure");
}

#[test]
fn an_authority_that_is_no_url_makes_no_client() {
    let config = Config::new(Some("not a url".to_string()), None, None, "linux", "x86_64").unwrap();
    assert!(CvmHttpClient::try_new(config, "0.0.0").is_none());
    let config = Config::new(Some(String::new()), None, None, "linux", "x86_64").unwrap();
    assert!(CvmHttpClient::try_new(config, "0.0.0").is_none());
}

#[test]
fn set_version_changes_the_version_only() {
    let mut client = create_http_client();
    client.set_version("9.9.9");
    assert_eq!(client.client_details.current_running_version, "9.9.9");
    assert_eq!(client.client_details.client_id, DEFAULT_CLIENT_ID);
    assert_eq!(client.latest_version_url, "http://127.0.0.1:3000/application/latest");
}

#[test]
fn a_download_is_named_by_the_last_piece_of_its_path() {
    assert_eq!(
        download_file_name(
            "https://hello-versioned.s3.us-east-1.amazonaws.com/linux/infinite_hello_0.1.0"
        ),
        "infinite_hello_0.1.0"
    );
    assert_eq!(download_file_name("https://example.com/a/b?x=1#frag"), "b");
    assert_eq!(download_file_name("https://example.com/a%20b"), "a%20b");
    assert_eq!(download_file_name("https://example.com/a/../b"), "b");
}

#[test]
fn a_download_without_a_name_takes_the_default() {
    assert_eq!(download_file_name("https://example.com"), "tmp.bin");
    assert_eq!(download_file_name("https://example.com/"), "tmp.bin");
    assert_eq!(download_file_name("https://example.com/dir/"), "tmp.bin");
    assert_eq!(download_file_name("mailto:someone@example.com"), "tmp.bin");
    assert_eq!(download_file_name("not a url"), "tmp.bin");
    assert_eq!(file_name_from_segments(None), "tmp.bin");
    assert_eq!(file_name_from_segments(Some(vec![])), "tmp.bin");
    assert_eq!(file_name_from_segments(Some(vec!["a".to_string(), String::new()])), "tmp.bin");
    assert_eq!(file_name_from_segments(Some(vec![String::new(), "b".to_string()])), "b");
}

#[test]
fn numbers_are_written_in_decimal() {
    assert_eq!(decimal(0), "0");
    assert_eq!(decimal(7), "7");
    assert_eq!(decimal(10), "10");
    assert_eq!(decimal(1234), "1234");
    assert_eq!(decimal(100200), "100200");
    assert_eq!(decimal(u32::MAX), "4294967295");
    for n in [1u32, 9, 11, 99, 101, 65535, 65536, 999_999_999] {
        assert_eq!(decimal(n), n.to_string());
    }
}

#[test]
fn the_child_is_asked_to_end_not_forced() {
    let command = graceful_shutdown(4321);
    assert_eq!(command.program, "kill");
    assert_eq!(command.args, vec!["-s".to_string(), "SIGTERM".to_string(), "4321".to_string()]);
}

#[test]
fn it_reports_to_the_address_of_each_report() {
    let http_client = create_http_client();
    let healthy = http_client.report_healthy();
    assert_eq!(healthy.url, "http://127.0.0.1:3000/client/success");
    assert_eq!(healthy.body.current_running_version, "0.1.0");
    let failed = http_client.report_failure();
    assert_eq!(failed.url, "http://127.0.0.1:3000/client/failure");
    assert_eq!(failed.body.client_id, DEFAULT_CLIENT_ID);
    let asks = http_client.latest_request();
    assert_eq!(asks.url, "http://127.0.0.1:3000/application/latest");
    assert_eq!(asks.body.app_id, DEFAULT_APP_ID);
    assert_eq!(
        http_client.download_version("https://c.example/linux/infinite_hello_0.1.0"),
        "infinite_hello_0.1.0"
    );
}
