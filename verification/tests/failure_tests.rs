use rogue_logging::{Action, Failure, Severity};
use std::io;

#[derive(Debug)]
enum TestAction {
    ReadConfig,
    WriteFile,
    LoadConfig,
    ParseJson,
    Connect,
    Authenticate,
    UploadFile,
    FetchData,
}

impl Action for TestAction {
    fn describe(&self) -> String {
        match self {
            TestAction::ReadConfig => "read config".to_owned(),
            TestAction::WriteFile => "write file".to_owned(),
            TestAction::LoadConfig => "load config".to_owned(),
            TestAction::ParseJson => "parse json".to_owned(),
            TestAction::Connect => "connect".to_owned(),
            TestAction::Authenticate => "authenticate".to_owned(),
            TestAction::UploadFile => "upload file".to_owned(),
            TestAction::FetchData => "fetch data".to_owned(),
        }
    }

    fn identity(&self) -> String {
        format!("{self:?}")
    }

    fn type_path(&self) -> &'static str {
        "failure_tests::TestAction"
    }
}

fn io_error() -> io::Error {
    io::Error::new(io::ErrorKind::NotFound, "file not found")
}

#[test]
fn read_config_failure_scenario() {
    let failure = Failure::new(TestAction::ReadConfig, io_error());
    assert_eq!(failure.display(), "Failed to read config");
    assert!(failure.code().ends_with("::ReadConfig"));
    assert_eq!(failure.to_error().message, "file not found");
}

#[test]
fn display_shows_action() {
    let failure = Failure::new(TestAction::ReadConfig, io_error());
    assert_eq!(failure.display(), "Failed to read config");
}

#[test]
fn display_with_additional_context() {
    let failure = Failure::new(TestAction::ReadConfig, io_error())
        .with("path", "/etc/config.yaml")
        .with("attempt", "3");
    let expected = "Failed to read config\n\u{25B7} path: /etc/config.yaml\n\u{25B7} attempt: 3";
    assert_eq!(failure.display(), expected);
}

#[test]
fn with_path_adds_path_context() {
    let failure = Failure::new(TestAction::WriteFile, io_error()).with_path("/tmp/output.txt");
    assert_eq!(failure.get("path"), Some("/tmp/output.txt".to_owned()));
}

#[test]
fn wrap_with_path_adds_path_context() {
    let result: Result<(), std::io::Error> = Err(io_error());
    let failure = result
        .map_err(Failure::wrap_with_path(
            TestAction::WriteFile,
            "/tmp/output.txt",
        ))
        .unwrap_err();
    assert_eq!(failure.get("path"), Some("/tmp/output.txt".to_owned()));
}

#[test]
fn wrap_turns_an_error_into_a_failure() {
    let result: Result<(), std::io::Error> = Err(io_error());
    let failure = result
        .map_err(Failure::wrap(TestAction::ReadConfig))
        .unwrap_err();
    assert_eq!(failure.display(), "Failed to read config");
    assert_eq!(
        failure.source_message(),
        Some(&"file not found".to_owned())
    );
}

#[test]
fn wrap_with_applies_configuration() {
    let result: Result<(), std::io::Error> = Err(io_error());
    let failure = result
        .map_err(Failure::wrap_with(TestAction::ReadConfig, |f: Failure<TestAction>| {
            f.with_path("/etc/config.yaml")
                .with_help("Check file permissions")
        }))
        .unwrap_err();
    assert_eq!(failure.get("path"), Some("/etc/config.yaml".to_owned()));
    assert_eq!(failure.help(), Some(&"Check file permissions".to_owned()));
}

#[test]
fn get_returns_none_for_missing_key() {
    let failure = Failure::new(TestAction::ReadConfig, io_error());
    assert!(failure.get("nonexistent").is_none());
}

#[test]
fn get_returns_value_for_existing_key() {
    let failure = Failure::new(TestAction::ReadConfig, io_error()).with("key", "value");
    assert_eq!(failure.get("key"), Some("value".to_owned()));
}

#[test]
fn get_returns_first_value_for_repeated_key() {
    let failure = Failure::new(TestAction::ReadConfig, io_error())
        .with("key", "first")
        .with("key", "second");
    assert_eq!(failure.get("key"), Some("first".to_owned()));
    assert_eq!(failure.additional.len(), 2);
}

#[test]
fn set_updates_existing_key() {
    let failure = Failure::new(TestAction::ReadConfig, io_error())
        .with("key", "original")
        .set("key", "updated");
    assert_eq!(failure.get("key"), Some("updated".to_owned()));
}

#[test]
fn set_adds_new_key_if_missing() {
    let failure = Failure::new(TestAction::ReadConfig, io_error()).set("new_key", "new_value");
    assert_eq!(failure.get("new_key"), Some("new_value".to_owned()));
}

#[test]
fn set_twice_reads_and_counts_as_set_once() {
    let twice = Failure::new(TestAction::ReadConfig, io_error())
        .set("key", "a")
        .set("key", "b");
    let once = Failure::new(TestAction::ReadConfig, io_error()).set("key", "b");
    assert_eq!(twice.get("key"), once.get("key"));
    assert_eq!(twice.additional.len(), once.additional.len());
}

#[test]
fn source_returns_underlying_error() {
    let failure = Failure::new(TestAction::ReadConfig, io_error());
    let source = failure.source_message().expect("should have source");
    assert_eq!(source, "file not found");
}

#[test]
fn to_error_converts_correctly() {
    let failure = Failure::new(TestAction::LoadConfig, io_error()).with("domain", "configuration");
    let error = failure.to_error();
    assert_eq!(error.action, "load config");
    assert_eq!(error.message, "file not found");
    assert_eq!(error.domain, Some("configuration".to_owned()));
}

#[test]
fn to_error_uses_type_name_when_no_domain() {
    let failure = Failure::new(TestAction::ReadConfig, io_error());
    let error = failure.to_error();
    let domain = error.domain.expect("domain should be set");
    assert!(domain.contains("TestAction"));
}

#[test]
fn diagnostic_code_returns_type_path() {
    let failure = Failure::new(TestAction::ParseJson, io_error());
    let code = failure.code();
    assert!(code.ends_with("TestAction::ParseJson"));
}

#[test]
fn diagnostic_code_returns_custom_code() {
    let failure = Failure::new(TestAction::ParseJson, io_error()).with_code("custom::code");
    let code = failure.code();
    assert_eq!(code, "custom::code");
}

#[test]
fn diagnostic_help_returns_help_text() {
    let failure =
        Failure::new(TestAction::Connect, io_error()).with_help("Check your network connection");
    let help = failure.help().expect("should have help");
    assert_eq!(help, "Check your network connection");
}

#[test]
fn diagnostic_url_returns_url() {
    let failure = Failure::new(TestAction::Authenticate, io_error())
        .with_url("https://docs.example.com/auth");
    let url = failure.url().expect("should have url");
    assert_eq!(url, "https://docs.example.com/auth");
}

#[test]
fn diagnostic_related_returns_none_when_empty() {
    let failure = Failure::new(TestAction::ReadConfig, io_error());
    assert!(failure.related().is_empty());
}

#[test]
fn diagnostic_related_keeps_insertion_order() {
    let first = Failure::new(TestAction::ReadConfig, io_error()).to_error();
    let second = Failure::new(TestAction::WriteFile, io_error()).to_error();
    let failure = Failure::new(TestAction::LoadConfig, io_error())
        .with_related(first)
        .with_related(second);
    let related = failure.related();
    assert_eq!(related.len(), 2);
    assert_eq!(related[0].action, "read config");
    assert_eq!(related[1].action, "write file");
}

#[test]
fn diagnostic_severity_returns_severity() {
    let failure = Failure::new(TestAction::ReadConfig, io_error()).with_severity(Severity::Warning);
    assert_eq!(failure.severity(), Some(Severity::Warning));
}

#[test]
fn diagnostic_severity_defaults_to_none() {
    let failure = Failure::new(TestAction::ReadConfig, io_error());
    assert!(failure.severity().is_none());
}

#[test]
fn debug_impl_works() {
    let failure = Failure::new(TestAction::ReadConfig, io_error());
    let debug = format!("{failure:?}");
    assert!(debug.contains("Failure"));
    assert!(debug.contains("ReadConfig"));
}

#[test]
fn chained_builder_methods() {
    let failure = Failure::new(TestAction::UploadFile, io_error())
        .with_path("/data/file.bin")
        .with("size", "1024")
        .with("retry", "true");
    let expected = "Failed to upload file\n\u{25B7} path: /data/file.bin\n\u{25B7} size: 1024\n\u{25B7} retry: true";
    assert_eq!(failure.display(), expected);
}

#[test]
fn to_error_snapshot() {
    let failure = Failure::new(TestAction::FetchData, io_error())
        .with("domain", "network")
        .with("endpoint", "/api/v1/data");
    let error = failure.to_error();
    let expected = "Failed to fetch data\nA network error occurred\nfile not found";
    assert_eq!(error.display(), expected);
}
