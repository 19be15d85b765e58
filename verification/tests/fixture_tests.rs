use mock_data::get_mock_config;
use mock_data::get_mock_system_info;
use mock_data::mock_set_config_success;

#[test]
fn config_fixture_is_byte_identical_across_calls() {
    let a = get_mock_config();
    let b = get_mock_config();
    assert_eq!(a.as_bytes(), b.as_bytes());
}

#[test]
fn system_info_fixture_is_byte_identical_across_calls() {
    let a = get_mock_system_info();
    let b = get_mock_system_info();
    assert_eq!(a.as_bytes(), b.as_bytes());
}

#[test]
fn config_fixture_holds_expected_payload() {
    let c = get_mock_config();
    assert!(c.starts_with("{"));
    assert!(c.ends_with("}"));
    assert!(c.contains("\"version\": \"2.2.0\""));
    assert!(c.contains("\"is_admin\": true"));
    assert!(c.contains("\"full_name\": \"Intel AI Assistant\""));
    assert!(c.contains("\"features\": [\"chat\", \"rag\", \"file_upload\"]"));
    assert!(c.contains("bge-reranker-base"));
}

#[test]
fn system_info_fixture_holds_expected_payload() {
    let s = get_mock_system_info();
    assert!(s.starts_with("{"));
    assert!(s.ends_with("}"));
    assert!(s.contains("\"CurrentVersion\": \"2.2.0\""));
    assert!(s.contains("\"IsMinHWReqMet\": true"));
    assert!(s.contains("\"Name\": \"Intel(R) Core(TM) i7-12700K\""));
    assert!(s.contains("\"hasNpu\": true"));
}

#[test]
fn set_config_acknowledgement_is_success() {
    assert_eq!(mock_set_config_success(), "success");
    assert_eq!(mock_set_config_success(), mock_set_config_success());
}
