use update_notifier::error::ErrorKind;
use update_notifier::registry::{
    get_base_url, get_latest_from_json, get_latest_version, JsonError, RegistryClient, Request,
    Version, VersionResponse,
};

fn versions(nums: &[&str]) -> Vec<Version> {
    nums.iter().map(|num| Version { num: num.to_string() }).collect()
}

fn errors(details: &[&str]) -> Vec<JsonError> {
    details.iter().map(|detail| JsonError { detail: detail.to_string() }).collect()
}

#[test]
fn test_latest_version() {
    let client = RegistryClient::new("http://127.0.0.1:1234/api/v1/crates".to_string());
    let request = client.request("asdev");
    assert_eq!(request.url, "http://127.0.0.1:1234/api/v1/crates/asdev/versions");
    let body = VersionResponse { versions: Some(versions(&["0.1.3"])), errors: None };
    let latest_version = get_latest_version(&Ok(body)).unwrap();
    assert_eq!(latest_version, "0.1.3")
}

#[test]
fn test_no_crates_io_entry() {
    let client = RegistryClient::new("http://127.0.0.1:1234/api/v1/crates".to_string());
    let request = client.request("kefjhkajvcnklsajdfhwksajnceknc");
    assert_eq!(
        request.url,
        "http://127.0.0.1:1234/api/v1/crates/kefjhkajvcnklsajdfhwksajnceknc/versions"
    );
    let body = VersionResponse { versions: None, errors: Some(errors(&["Not Found"])) };
    let latest_version = get_latest_version(&Ok(body)).expect_err("Should be an error");
    assert_eq!(
        latest_version.describe(),
        ErrorKind::RegistryError("Not Found".to_string()).describe()
    );
    assert_eq!(latest_version, ErrorKind::RegistryError("Not Found".to_string()));
    assert_eq!(latest_version.message(), "Not Found");
}

#[test]
fn first_version_wins_whatever_follows() {
    for rest in 0..5usize {
        let mut nums = vec!["9.9.9"];
        nums.extend(std::iter::repeat("0.0.1").take(rest));
        let resp = VersionResponse { versions: Some(versions(&nums)), errors: None };
        assert_eq!(get_latest_from_json(&resp), Ok("9.9.9".to_string()));
    }
}

#[test]
fn first_version_is_not_the_greatest() {
    let resp = VersionResponse { versions: Some(versions(&["0.1.0", "2.0.0"])), errors: None };
    assert_eq!(get_latest_from_json(&resp), Ok("0.1.0".to_string()));
}

#[test]
fn versions_win_over_errors() {
    let resp = VersionResponse {
        versions: Some(versions(&["1.2.3"])),
        errors: Some(errors(&["Not Found"])),
    };
    assert_eq!(get_latest_from_json(&resp), Ok("1.2.3".to_string()));
}

#[test]
fn first_error_is_passed_on_verbatim() {
    let resp = VersionResponse {
        versions: None,
        errors: Some(errors(&["  crate `x` does not exist\n", "second"])),
    };
    assert_eq!(
        get_latest_from_json(&resp),
        Err(ErrorKind::RegistryError("  crate `x` does not exist\n".to_string()))
    );
}

#[test]
fn empty_versions_are_malformed() {
    let resp = VersionResponse { versions: Some(vec![]), errors: None };
    assert_eq!(
        get_latest_from_json(&resp),
        Err(ErrorKind::MalformedResponse("versions array is empty".to_string()))
    );
}

#[test]
fn empty_versions_are_malformed_even_beside_errors() {
    let resp = VersionResponse { versions: Some(vec![]), errors: Some(errors(&["Not Found"])) };
    assert_eq!(
        get_latest_from_json(&resp),
        Err(ErrorKind::MalformedResponse("versions array is empty".to_string()))
    );
}

#[test]
fn empty_errors_are_malformed() {
    let resp = VersionResponse { versions: None, errors: Some(vec![]) };
    assert_eq!(
        get_latest_from_json(&resp),
        Err(ErrorKind::MalformedResponse("errors array is empty".to_string()))
    );
}

#[test]
fn neither_list_is_malformed() {
    let resp = VersionResponse { versions: None, errors: None };
    assert_eq!(
        get_latest_from_json(&resp),
        Err(ErrorKind::MalformedResponse("response has neither versions nor errors".to_string()))
    );
}

#[test]
fn transport_failure_is_passed_on() {
    let outcome = get_latest_version(&Err("[6] Couldn't resolve host name".to_string()));
    assert_eq!(
        outcome,
        Err(ErrorKind::TransportError("[6] Couldn't resolve host name".to_string()))
    );
}

#[test]
fn public_registry_address() {
    assert_eq!(get_base_url(), "https://crates.io/api/v1/crates");
    assert_eq!(RegistryClient::crates_io().base_url, "https://crates.io/api/v1/crates");
    assert_eq!(
        RegistryClient::crates_io().request("serde"),
        Request {
            url: "https://crates.io/api/v1/crates/serde/versions".to_string(),
            user_agent: "User-Agent: Update-notifier (teshaq@mozilla.com)".to_string(),
        }
    );
}

#[test]
fn request_of_an_empty_name() {
    let client = RegistryClient::new("http://localhost".to_string());
    assert_eq!(client.request("").url, "http://localhost//versions");
}

#[test]
fn errors_describe_themselves() {
    assert_eq!(
        ErrorKind::RegistryError("Not Found".to_string()).describe(),
        "Error received from registry: Not Found"
    );
    assert_eq!(
        ErrorKind::MalformedResponse("versions array is empty".to_string()).describe(),
        "Error while parsing json: versions array is empty"
    );
    assert_eq!(ErrorKind::TransportError("timed out".to_string()).describe(), "timed out");
    assert_eq!(ErrorKind::PersistenceError("disk full".to_string()).describe(), "disk full");
}

#[test]
fn errors_carry_their_text() {
    assert_eq!(ErrorKind::RegistryError("Not Found".to_string()).message(), "Not Found");
    assert_eq!(ErrorKind::MalformedResponse("why".to_string()).message(), "why");
    assert_eq!(ErrorKind::TransportError("timed out".to_string()).message(), "timed out");
    assert_eq!(ErrorKind::PersistenceError("disk full".to_string()).message(), "disk full");
}
