use gdom::redact::{redact_secrets, REDACTED};

#[test]
fn redacts_bearer_access_and_refresh_material() {
    let input = "Authorization: Bearer ya29.abc-secret Authorization: bearer tok123";
    let redacted = redact_secrets(input);
    assert!(redacted.contains(REDACTED));
    assert!(!redacted.contains("abc-secret"));
    assert!(!redacted.contains("tok123"));
    assert!(redacted.contains("Bearer"));
}

#[test]
fn redacts_keyed_json_and_form_secrets() {
    let input = r#"{"access_token":"secret-a","email":"ada@gmail.com"} refresh_token=secret-b clientSecret: "secret-c""#;
    let redacted = redact_secrets(input);
    assert!(!redacted.contains("secret-a"));
    assert!(!redacted.contains("secret-b"));
    assert!(!redacted.contains("secret-c"));
    assert!(redacted.contains("ada@gmail.com"));
    assert!(redacted.contains(REDACTED));
}

#[test]
fn redacts_google_refresh_prefix_without_touching_http_urls() {
    let input = "token=1//0refresh http://127.0.0.1//callback http://example.com/file";
    let redacted = redact_secrets(input);
    assert!(!redacted.contains("0refresh"));
    assert!(redacted.contains("http://127.0.0.1//callback"));
    assert!(redacted.contains("http://example.com/file"));
}

#[test]
fn redacts_google_authorization_code_query() {
    let input = "redirect ?code=4/0Asecret-value&state=xyz encode=4/not-a-code code=200";
    let redacted = redact_secrets(input);
    assert!(!redacted.contains("0Asecret-value"));
    assert!(redacted.contains("encode=4/not-a-code"));
    assert!(redacted.contains("code=200"));
    assert!(redacted.contains("state=xyz"));
}

#[test]
fn keeps_job_metadata() {
    let input = "job=22 file_id=1AbC status=READY_FOR_REVIEW source=ada@gmail.com";
    assert_eq!(redact_secrets(input), input);
}

#[test]
fn redacts_a_bare_access_token() {
    assert_eq!(redact_secrets("token ya29.abc"), "token ya29.[REDACTED]");
}

#[test]
fn empty_text_stays_empty() {
    assert_eq!(redact_secrets(""), "");
}
