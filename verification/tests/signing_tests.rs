use onise::error::KrakenError;
use onise::signing::{encode_form, sign};

fn fields(xs: &[(&str, &str)]) -> Vec<(String, String)> {
    xs.iter().map(|(k, v)| (k.to_string(), v.to_string())).collect()
}

#[test]
fn encode_form_joins_pairs_in_order() {
    let f = fields(&[("nonce", "17"), ("pair", "XBTUSD"), ("type", "buy")]);
    assert_eq!(encode_form(&f), "nonce=17&pair=XBTUSD&type=buy");
    assert_eq!(encode_form(&Vec::new()), "");
    assert_eq!(encode_form(&fields(&[("a", "b")])), "a=b");
}

// The documented signature example of the exchange's REST interface.
const DOC_SECRET: &str =
    "kQH5HW/8p1uGOVjbgWA7FunAmGO8lsSUXNsu3eow76sz84Q18fWxnyRzBHCd3pd5nE9qa99HAZtuZuj6F1huXg==";

fn doc_fields() -> Vec<(String, String)> {
    fields(&[
        ("nonce", "1616492376594"),
        ("ordertype", "limit"),
        ("pair", "XBTUSD"),
        ("price", "37500"),
        ("type", "buy"),
        ("volume", "1.25"),
    ])
}

#[test]
fn sign_matches_documented_example() {
    let sig = sign(DOC_SECRET, "/0/private/AddOrder", &doc_fields(), 1616492376594)
        .expect("valid secret must sign");
    assert_eq!(
        sig,
        "4/dpxb3iT4tp/ZCVEwSnEsLxx0bqyhLpdfOpc6fn7OR8+UClSV5n9E6aSS8MPtnRfp32bAb0nmbRn6H8ndwLUQ=="
    );
}

#[test]
fn sign_is_deterministic() {
    let a = sign(DOC_SECRET, "/0/private/AddOrder", &doc_fields(), 1616492376594).unwrap();
    let b = sign(DOC_SECRET, "/0/private/AddOrder", &doc_fields(), 1616492376594).unwrap();
    assert_eq!(a, b);
}

#[test]
fn sign_changes_with_any_input() {
    let base = sign(DOC_SECRET, "/0/private/AddOrder", &doc_fields(), 1616492376594).unwrap();
    let other_nonce = sign(DOC_SECRET, "/0/private/AddOrder", &doc_fields(), 1616492376595).unwrap();
    assert_ne!(base, other_nonce);
    let other_path = sign(DOC_SECRET, "/0/private/Balance", &doc_fields(), 1616492376594).unwrap();
    assert_ne!(base, other_path);
    let mut changed = doc_fields();
    changed[3].1 = "37501".to_string();
    let other_fields = sign(DOC_SECRET, "/0/private/AddOrder", &changed, 1616492376594).unwrap();
    assert_ne!(base, other_fields);
}

#[test]
fn sign_rejects_malformed_secret() {
    match sign("not base64 !!", "/0/private/Balance", &doc_fields(), 1) {
        Err(KrakenError::InvalidUsage(m)) => {
            assert_eq!(m, "Could not decode API secret from base64")
        }
        _ => panic!("a malformed secret must be an invalid-usage failure"),
    }
}
