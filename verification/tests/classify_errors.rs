use onise::error::KrakenError;

fn strings(xs: &[&str]) -> Vec<String> {
    xs.iter().map(|s| s.to_string()).collect()
}

#[test]
fn classify_empty_list_is_generic_and_empty() {
    match KrakenError::from_kraken_errors(Vec::new()) {
        KrakenError::Kraken(v) => assert!(v.is_empty()),
        _ => panic!("empty list must classify as the generic category"),
    }
}

#[test]
fn classify_order_error_keeps_message() {
    match KrakenError::from_kraken_errors(strings(&["EOrder:Invalid price"])) {
        KrakenError::OrderError { message } => assert_eq!(message, "EOrder:Invalid price"),
        _ => panic!("expected the order category"),
    }
}

#[test]
fn classify_first_match_wins() {
    match KrakenError::from_kraken_errors(strings(&["EGeneral:Unknown error", "Rate limit exceeded"])) {
        KrakenError::GeneralError { message } => assert_eq!(message, "EGeneral:Unknown error"),
        _ => panic!("the first matching string must decide the category"),
    }
}

#[test]
fn classify_api_prefix_wins_over_later_strings() {
    match KrakenError::from_kraken_errors(strings(&["EAPI:Invalid key", "EOrder:Invalid price"])) {
        KrakenError::ApiError { message } => assert_eq!(message, "EAPI:Invalid key"),
        _ => panic!("expected the API category"),
    }
}

#[test]
fn classify_rate_limit_substring_beats_prefix_in_same_string() {
    match KrakenError::from_kraken_errors(strings(&["EAPI:Rate limit exceeded"])) {
        KrakenError::RateLimitExceeded { message } => {
            assert_eq!(message, "EAPI:Rate limit exceeded")
        }
        _ => panic!("the rate-limit text must take precedence over the prefix"),
    }
}

#[test]
fn classify_each_known_prefix() {
    let cases: &[(&str, fn(&KrakenError) -> bool)] = &[
        ("EGeneral:x", |e| matches!(e, KrakenError::GeneralError { .. })),
        ("EQuery:x", |e| matches!(e, KrakenError::GeneralError { .. })),
        ("EMarket:x", |e| matches!(e, KrakenError::GeneralError { .. })),
        ("EData:x", |e| matches!(e, KrakenError::GeneralError { .. })),
        ("EFunding:x", |e| matches!(e, KrakenError::GeneralError { .. })),
        ("EService:x", |e| matches!(e, KrakenError::ServiceError { .. })),
        ("EOrder:x", |e| matches!(e, KrakenError::OrderError { .. })),
        ("ETrade:x", |e| matches!(e, KrakenError::TradingError { .. })),
        ("EAPI:x", |e| matches!(e, KrakenError::ApiError { .. })),
    ];
    for (input, check) in cases {
        let e = KrakenError::from_kraken_errors(strings(&[input]));
        assert!(check(&e), "wrong category for {input}");
    }
}

#[test]
fn classify_unmatched_list_is_kept_verbatim() {
    let inputs = strings(&["WUnknown:odd", "nothing known"]);
    match KrakenError::from_kraken_errors(inputs.clone()) {
        KrakenError::Kraken(v) => assert_eq!(v, inputs),
        _ => panic!("unmatched strings must be kept verbatim"),
    }
}

#[test]
fn describe_names_the_category() {
    let e = KrakenError::from_kraken_errors(strings(&["EOrder:Invalid price"]));
    assert_eq!(e.describe(), "Kraken order error: EOrder:Invalid price");
}
