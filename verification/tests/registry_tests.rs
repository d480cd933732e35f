use cartridge::registry::RegistryError;
use cartridge::registry::parse_builds;
use cartridge::registry::parse_versions;

#[test]
fn versions_come_back_in_response_order() {
    let body = r#"{"project_id":"paper","versions":["1.20.2","1.19.4","1.20.1"]}"#;
    let versions = parse_versions(body).unwrap();
    assert_eq!(versions, vec!["1.20.2", "1.19.4", "1.20.1"]);
}

#[test]
fn missing_versions_field_is_a_registry_error() {
    let body = r#"{"project_id":"paper","builds":[1,2,3]}"#;
    assert_eq!(parse_versions(body), Err(RegistryError::MissingField));
}

#[test]
fn unparseable_versions_response_is_a_registry_error() {
    assert_eq!(parse_versions("not json at all"), Err(RegistryError::MissingField));
    assert_eq!(parse_versions(""), Err(RegistryError::MissingField));
}

#[test]
fn versions_field_that_is_not_an_array_is_rejected() {
    let body = r#"{"versions":"1.20.2"}"#;
    assert_eq!(parse_versions(body), Err(RegistryError::MissingField));
}

#[test]
fn non_string_version_entries_become_empty_strings() {
    let body = r#"{"versions":["1.20.1",7,"1.20.2"]}"#;
    let versions = parse_versions(body).unwrap();
    assert_eq!(versions, vec!["1.20.1", "", "1.20.2"]);
}

#[test]
fn numeric_builds_render_as_their_digits() {
    let body = r#"{"builds":[100,101]}"#;
    let builds = parse_builds(body).unwrap();
    assert_eq!(builds, vec!["100", "101"]);
}

#[test]
fn string_builds_come_back_verbatim_without_quotes() {
    let body = r#"{"builds":["beta"]}"#;
    let builds = parse_builds(body).unwrap();
    assert_eq!(builds, vec!["beta"]);
}

#[test]
fn missing_builds_field_is_a_registry_error() {
    let body = r#"{"versions":["1.20.2"]}"#;
    assert_eq!(parse_builds(body), Err(RegistryError::MissingField));
}
