use deltabeer_tui::client::ApiClient;
use deltabeer_tui::error::{ApiClientError, ApiErrorCode};
use deltabeer_tui::model::UserId;

#[test]
fn rejects_insecure_http_url() {
    let client = ApiClient::new("http://localhost:3000");
    assert!(client.is_err());
    let err = client.err().unwrap();
    assert!(err.contains("scheme must be 'https'"));
}

#[test]
fn rejects_malformed_urls() {
    assert!(ApiClient::new("localhost:3000").is_err());
    assert!(ApiClient::new("https://").is_err());
    assert!(ApiClient::new("ftp://localhost:3000").is_err());
    assert!(ApiClient::new("not a url").is_err());
}

#[test]
fn accepts_valid_https_urls() {
    let client = ApiClient::new("https://localhost:3000");
    assert!(client.is_ok());
    let client_ip = ApiClient::new("https://127.0.0.1:3000");
    assert!(client_ip.is_ok());
}

#[test]
fn preserves_https_after_endpoint_construction() {
    let client = ApiClient::new("https://localhost:3000").unwrap();
    let url = client.endpoint_url(&["v1", "users"]).unwrap();
    assert_eq!(url.scheme, "https");
    assert_eq!(url.as_str(), "https://localhost:3000/v1/users");
}

#[test]
fn dynamic_path_construction_with_user_id() {
    let client = ApiClient::new("https://localhost:3000").unwrap();
    let user_id = UserId(0);
    let user_id_text = user_id.to_text();
    let url = client
        .endpoint_url(&["v1", "admins", "user_management", &user_id_text, "admin"])
        .unwrap();
    assert_eq!(url.scheme, "https");
    assert_eq!(
        url.as_str(),
        format!("https://localhost:3000/v1/admins/user_management/{user_id_text}/admin")
    );
}

#[test]
fn no_accidental_double_slashes() {
    let client = ApiClient::new("https://localhost:3000/").unwrap();
    let url = client.endpoint_url(&["/v1/", "/users/"]).unwrap();
    assert_eq!(url.scheme, "https");
    assert_eq!(url.as_str(), "https://localhost:3000/v1/users");
    assert!(!url.path.contains("//"));
}

#[test]
fn no_accidental_loss_of_base_path() {
    let client_no_slash = ApiClient::new("https://localhost:3000/api").unwrap();
    let url = client_no_slash.endpoint_url(&["v1", "users"]).unwrap();
    assert_eq!(url.scheme, "https");
    assert_eq!(url.as_str(), "https://localhost:3000/api/v1/users");

    let client_with_slash = ApiClient::new("https://localhost:3000/api/").unwrap();
    let url2 = client_with_slash.endpoint_url(&["v1", "users"]).unwrap();
    assert_eq!(url2.scheme, "https");
    assert_eq!(url2.as_str(), "https://localhost:3000/api/v1/users");
}

#[test]
fn base_url_error_messages_name_the_url() {
    let err = ApiClient::new("not a url").err().unwrap();
    assert_eq!(err, "malformed or invalid API base URL 'not a url'");
    let err = ApiClient::new("ftp://localhost:3000").err().unwrap();
    assert!(err.contains("scheme must be 'https'"));
}

#[test]
fn nil_user_id_is_written_hyphenated() {
    assert_eq!(UserId(0).to_text(), "00000000-0000-0000-0000-000000000000");
    assert_eq!(
        UserId(u128::MAX).to_text(),
        "ffffffff-ffff-ffff-ffff-ffffffffffff"
    );
    assert_eq!(
        UserId(0x0123_4567_89ab_cdef_0011_2233_4455_6677).to_text(),
        "01234567-89ab-cdef-0011-223344556677"
    );
}

#[test]
fn client_errors_are_described_for_the_log() {
    let transport = ApiClientError::Transport { message: "timed out".to_string() };
    assert_eq!(transport.describe(), "API request failed: timed out");
    let api = ApiClientError::Api {
        status: 404,
        code: ApiErrorCode::NotFound,
        message: Some("no such user".to_string()),
    };
    assert_eq!(api.describe(), "HTTP 404 Not Found [not_found]: no such user");
    let bare = ApiClientError::Api { status: 409, code: ApiErrorCode::Conflict, message: None };
    assert_eq!(bare.describe(), "HTTP 409 Conflict [conflict]");
    let unknown = ApiClientError::Api { status: 599, code: ApiErrorCode::InternalError, message: None };
    assert_eq!(unknown.describe(), "HTTP 599 <unknown status code> [internal_error]");
    let invalid = ApiClientError::InvalidResponse { message: "bad json".to_string() };
    assert_eq!(invalid.describe(), "Invalid API response: bad json");
}
