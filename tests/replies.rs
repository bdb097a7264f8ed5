use kraken_client::reply::{balance_of, is_success, read_envelope, sell_volume, Envelope, Reply};

fn entries(pairs: &[(&str, &str)]) -> Vec<(String, String)> {
    pairs.iter().map(|(k, v)| (k.to_string(), v.to_string())).collect()
}

#[test]
fn success_envelope_yields_the_balances() {
    let env = Envelope { error: vec![], result: Some(entries(&[("USDC", "12.5")])) };
    let reply = read_envelope(env);
    assert_eq!(reply, Reply::Data(entries(&[("USDC", "12.5")])));
    assert_eq!(reply.into_balances(), Some(entries(&[("USDC", "12.5")])));
}

#[test]
fn error_envelope_yields_no_balance_and_its_errors() {
    let env = Envelope { error: vec!["EAPI:Invalid nonce".to_string()], result: None };
    let reply = read_envelope(env);
    assert_eq!(reply, Reply::ApiErrors(vec!["EAPI:Invalid nonce".to_string()]));
    assert_eq!(reply.into_balances(), None);
}

#[test]
fn errors_win_over_a_result() {
    let env = Envelope {
        error: vec!["EGeneral:Internal error".to_string()],
        result: Some(entries(&[("USDC", "1")])),
    };
    assert_eq!(read_envelope(env), Reply::ApiErrors(vec!["EGeneral:Internal error".to_string()]));
}

#[test]
fn envelope_without_result_yields_no_data() {
    let env = Envelope { error: vec![], result: None };
    let reply = read_envelope(env);
    assert_eq!(reply, Reply::NoData);
    assert_eq!(reply.into_balances(), None);
}

#[test]
fn success_statuses() {
    assert!(is_success(200));
    assert!(is_success(204));
    assert!(is_success(299));
    assert!(!is_success(199));
    assert!(!is_success(300));
    assert!(!is_success(404));
    assert!(!is_success(500));
}

#[test]
fn balance_lookup() {
    let b = entries(&[("ZUSD", "5.0"), ("USDC", "12.5"), ("USDC", "9")]);
    assert_eq!(balance_of(&b, "USDC"), Some("12.5".to_string()));
    assert_eq!(balance_of(&b, "ZUSD"), Some("5.0".to_string()));
    assert_eq!(balance_of(&b, "XXBT"), None);
    assert_eq!(balance_of(&Vec::new(), "USDC"), None);
}

#[test]
fn zero_balance_places_no_order() {
    assert_eq!(sell_volume(&entries(&[("USDC", "0.0")])), None);
}

#[test]
fn positive_balance_is_sold_whole() {
    assert_eq!(sell_volume(&entries(&[("USDC", "3.2")])), Some("3.2".to_string()));
    assert_eq!(
        sell_volume(&entries(&[("ZUSD", "100"), ("USDC", "12.5")])),
        Some("12.5".to_string())
    );
}

#[test]
fn missing_or_unreadable_balance_places_no_order() {
    assert_eq!(sell_volume(&entries(&[("ZUSD", "100")])), None);
    assert_eq!(sell_volume(&entries(&[("USDC", "abc")])), None);
    assert_eq!(sell_volume(&entries(&[("USDC", "-1.0")])), None);
    assert_eq!(sell_volume(&Vec::new()), None);
}
