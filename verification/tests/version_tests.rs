use astra_launcher::error::UpdateError;
use astra_launcher::version_store::{
    get_installed_version, new_version_record, recorded_version, stamped_record, version_record,
    RecordFile,
};

fn content(text: &str) -> RecordFile {
    RecordFile::Content(text.to_string())
}

#[test]
fn no_record_means_nothing_installed() {
    assert_eq!(get_installed_version(&RecordFile::Missing), Ok(None));
}

#[test]
fn record_gives_its_version() {
    let record = r#"{"version": "1.4.2", "installed_at": "2024-05-01T10:00:00+00:00"}"#;
    assert_eq!(get_installed_version(&content(record)), Ok(Some("1.4.2".to_string())));
}

#[test]
fn record_without_version_is_corrupt() {
    let corrupt = Err(UpdateError::CorruptState("Version record names no version".to_string()));
    assert_eq!(get_installed_version(&content("{}")), corrupt);
    assert_eq!(get_installed_version(&content(r#"{"version": 5}"#)), corrupt);
    assert_eq!(get_installed_version(&content(r#"{"version": null}"#)), corrupt);
    assert_eq!(get_installed_version(&content("[]")), corrupt);
    assert_eq!(get_installed_version(&content(r#"["version"]"#)), corrupt);
    assert_eq!(get_installed_version(&content(r#""1.0.0""#)), corrupt);
    assert_eq!(get_installed_version(&content(r#"{"installed_at": "2024-05-01T10:00:00+00:00"}"#)), corrupt);
    assert_eq!(get_installed_version(&content(r#"{"Version": "1.0.0"}"#)), corrupt);
}

#[test]
fn record_with_an_empty_version_names_it() {
    assert_eq!(get_installed_version(&content(r#"{"version": ""}"#)), Ok(Some(String::new())));
}

#[test]
fn malformed_record_is_corrupt() {
    assert!(matches!(get_installed_version(&content("")), Err(UpdateError::CorruptState(_))));
    assert!(matches!(get_installed_version(&content("{\"version\": ")), Err(UpdateError::CorruptState(_))));
    assert!(matches!(get_installed_version(&content("version=1.0.0")), Err(UpdateError::CorruptState(_))));
}

#[test]
fn corrupt_record_carries_a_cause() {
    match get_installed_version(&content("{oops")) {
        Err(UpdateError::CorruptState(cause)) => assert!(!cause.is_empty()),
        other => panic!("unexpected outcome: {:?}", other),
    }
}

#[test]
fn version_record_is_written_as_pretty_json() {
    let content = version_record("2.0.0", "2024-05-01T10:00:00+00:00").unwrap();
    assert_eq!(
        content,
        "{\n  \"installed_at\": \"2024-05-01T10:00:00+00:00\",\n  \"version\": \"2.0.0\"\n}"
    );
}

#[test]
fn version_record_escapes_what_json_must() {
    let content = version_record("2.0 \"beta\"\\", "now").unwrap();
    assert_eq!(content, "{\n  \"installed_at\": \"now\",\n  \"version\": \"2.0 \\\"beta\\\"\\\\\"\n}");
}

#[test]
fn written_record_reads_back() {
    let content = version_record("2.0.0", "2024-05-01T10:00:00+00:00").unwrap();
    assert_eq!(get_installed_version(&RecordFile::Content(content)), Ok(Some("2.0.0".to_string())));
    let content = version_record("weird \"v\" \n é", "t").unwrap();
    assert_eq!(get_installed_version(&RecordFile::Content(content)), Ok(Some("weird \"v\" \n é".to_string())));
}

#[test]
fn new_record_holds_the_version_and_a_moment() {
    let content = new_version_record("2.0.0").unwrap();
    assert_eq!(get_installed_version(&RecordFile::Content(content.clone())), Ok(Some("2.0.0".to_string())));
    let document: serde_json::Value = serde_json::from_str(&content).unwrap();
    let stamp = document.get("installed_at").and_then(|stamp| stamp.as_str()).unwrap();
    assert!(chrono::DateTime::parse_from_rfc3339(stamp).is_ok());
    assert_eq!(document.as_object().unwrap().len(), 2);
}

#[test]
fn unreadable_record_is_a_file_system_error() {
    assert_eq!(
        get_installed_version(&RecordFile::Unreadable("Permission denied (os error 13)".to_string())),
        Err(UpdateError::Filesystem("Permission denied (os error 13)".to_string()))
    );
}

#[test]
fn corrupt_record_is_told_in_the_parsers_words() {
    assert_eq!(
        get_installed_version(&content("version=1.0.0")),
        Err(UpdateError::CorruptState("expected value at line 1 column 1".to_string()))
    );
    for text in ["", "{", "{\"version\": ", "[1, 2", "nul"] {
        let wording = serde_json::from_str::<serde_json::Value>(text).unwrap_err().to_string();
        assert_eq!(get_installed_version(&content(text)), Err(UpdateError::CorruptState(wording)));
    }
}

#[test]
fn recorded_version_reads_the_member() {
    assert_eq!(recorded_version(r#"{"version": "1.4.2"}"#), Ok("1.4.2".to_string()));
    assert_eq!(
        recorded_version("{}"),
        Err(UpdateError::CorruptState("Version record names no version".to_string()))
    );
    assert_eq!(
        recorded_version("{"),
        Err(UpdateError::CorruptState("EOF while parsing an object at line 1 column 1".to_string()))
    );
}

#[test]
fn record_without_a_moment_is_not_written() {
    assert_eq!(
        stamped_record("2.0.0", None),
        Err(UpdateError::Filesystem("System clock is out of range".to_string()))
    );
}

#[test]
fn record_with_a_moment_is_the_record_of_that_moment() {
    assert_eq!(
        stamped_record("2.0.0", Some("2024-05-01T10:00:00+00:00".to_string())),
        version_record("2.0.0", "2024-05-01T10:00:00+00:00")
    );
    assert_eq!(
        stamped_record("2.0.0", Some("t".to_string())),
        Ok("{\n  \"installed_at\": \"t\",\n  \"version\": \"2.0.0\"\n}".to_string())
    );
}

#[test]
fn every_written_record_names_its_version() {
    for version in ["2.0.0", "", "v1", "a\"b", "tab\there", "é😀", "{\"version\": \"9\"}"] {
        let written = version_record(version, "2024-05-01T10:00:00+00:00").unwrap();
        assert_eq!(recorded_version(&written), Ok(version.to_string()));
        assert_eq!(
            get_installed_version(&RecordFile::Content(written)),
            Ok(Some(version.to_string()))
        );
    }
}

#[test]
fn new_record_is_stamped_with_a_recent_moment() {
    let before = chrono::Utc::now();
    let written = new_version_record("2.0.0").unwrap();
    let after = chrono::Utc::now();
    let document: serde_json::Value = serde_json::from_str(&written).unwrap();
    let stamp = document.get("installed_at").and_then(|stamp| stamp.as_str()).unwrap();
    let moment = chrono::DateTime::parse_from_rfc3339(stamp).unwrap();
    assert!(before <= moment && moment <= after);
    assert!(stamp.ends_with("+00:00"));
}
