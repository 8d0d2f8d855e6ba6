use onise::client::{decode_envelope, KrakenClient};
use onise::error::KrakenError;
use onise::models::ServerTimeResponse;

fn fields(xs: &[(&str, &str)]) -> Vec<(String, String)> {
    xs.iter().map(|(k, v)| (k.to_string(), v.to_string())).collect()
}

#[test]
fn new_defaults_to_public_endpoint() {
    let c = KrakenClient::new(None, None, None);
    assert_eq!(c.base_url, "https://api.kraken.com");
    let c2 = KrakenClient::new(None, None, Some("http://127.0.0.1:9".to_string()));
    assert_eq!(c2.base_url, "http://127.0.0.1:9");
}

#[test]
fn private_call_without_key_fails_naming_the_key() {
    let c = KrakenClient::new(None, None, None);
    match c.prepare_private_request("/0/private/Balance", &Vec::new(), 1) {
        Err(KrakenError::InvalidUsage(m)) => assert_eq!(m, "API key not set"),
        _ => panic!("a private call without a key must fail at once"),
    }
}

#[test]
fn private_call_without_secret_fails_naming_the_secret() {
    let c = KrakenClient::new(Some("key".to_string()), None, None);
    match c.prepare_private_request("/0/private/Balance", &Vec::new(), 1) {
        Err(KrakenError::InvalidUsage(m)) => assert_eq!(m, "API secret not set"),
        _ => panic!("a private call without a secret must fail at once"),
    }
}

#[test]
fn private_call_with_bad_secret_fails_on_the_secret() {
    let c = KrakenClient::new(Some("key".to_string()), Some("///bad???".to_string()), None);
    match c.prepare_private_request("/0/private/Balance", &Vec::new(), 1) {
        Err(KrakenError::InvalidUsage(m)) => {
            assert_eq!(m, "Could not decode API secret from base64")
        }
        _ => panic!("a malformed secret must fail before any transport work"),
    }
}

#[test]
fn prepared_request_puts_nonce_first_and_keeps_order() {
    let secret = "kQH5HW/8p1uGOVjbgWA7FunAmGO8lsSUXNsu3eow76sz84Q18fWxnyRzBHCd3pd5nE9qa99HAZtuZuj6F1huXg==";
    let c = KrakenClient::new(Some("api-key".to_string()), Some(secret.to_string()), None);
    let params = fields(&[("pair", "XBTUSD"), ("type", "buy")]);
    let req = c
        .prepare_private_request("/0/private/AddOrder", &params, 1616492376594)
        .expect("complete credentials must prepare");
    assert_eq!(req.path, "/0/private/AddOrder");
    assert_eq!(req.api_key, "api-key");
    assert_eq!(req.fields[0], ("nonce".to_string(), "1616492376594".to_string()));
    assert_eq!(req.fields[1], ("pair".to_string(), "XBTUSD".to_string()));
    assert_eq!(req.fields[2], ("type".to_string(), "buy".to_string()));
    // the signature matches signing the same fields directly
    let direct = onise::signing::sign(secret, "/0/private/AddOrder", &req.fields, 1616492376594)
        .unwrap();
    assert_eq!(req.signature, direct);
}

#[test]
fn envelope_with_empty_error_list_yields_the_payload() {
    let body = r#"{
      "error": [],
      "result": {
        "unixtime": 1672531199,
        "rfc1123": "Mon, 01 Jan 2023 00:59:59 GMT"
      }
    }"#;
    let payload = decode_envelope(body).expect("a clean envelope must succeed");
    let time = ServerTimeResponse::from_json(&payload).expect("a time payload must decode");
    assert_eq!(time.unixtime, 1672531199);
    assert_eq!(time.rfc1123, "Mon, 01 Jan 2023 00:59:59 GMT");
}

#[test]
fn envelope_with_errors_is_classified() {
    let body = r#"{"error":["EOrder:Invalid price"],"result":null}"#;
    match decode_envelope(body) {
        Err(KrakenError::OrderError { message }) => assert_eq!(message, "EOrder:Invalid price"),
        _ => panic!("a non-empty error list must be classified"),
    }
}

#[test]
fn envelope_malformed_bodies_are_transport_failures() {
    match decode_envelope("not json at all") {
        Err(KrakenError::Transport(m)) => assert_eq!(m, "response body is not valid JSON"),
        _ => panic!("unparsable bodies are transport-level failures"),
    }
    match decode_envelope(r#"{"result": 1}"#) {
        Err(KrakenError::Transport(m)) => assert_eq!(m, "response envelope malformed"),
        _ => panic!("an envelope without an error list is malformed"),
    }
    match decode_envelope(r#"{"error": [1], "result": null}"#) {
        Err(KrakenError::Transport(m)) => assert_eq!(m, "response envelope malformed"),
        _ => panic!("non-string error entries are malformed"),
    }
}

#[test]
fn check_envelope_gates_on_the_error_list() {
    assert!(KrakenClient::check_envelope(Vec::new()).is_ok());
    match KrakenClient::check_envelope(vec!["EService:Unavailable".to_string()]) {
        Err(KrakenError::ServiceError { message }) => {
            assert_eq!(message, "EService:Unavailable")
        }
        _ => panic!("a non-empty list must classify"),
    }
}
