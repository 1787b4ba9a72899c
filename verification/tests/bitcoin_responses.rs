use blockchain_gateway::client::bitcoin::responses::{decimal_string_to_satoshis, UtxoResponse};
use blockchain_gateway::models::amount::Amount;
use blockchain_gateway::models::utxo::Utxo;

#[test]
fn test_decimal_string_to_satoshis() {
    let cases = [
        ("0.123", Some(12300000)),
        ("0.12300000", Some(12300000)),
        ("10.123", Some(1012300000)),
        ("10456789.123", Some(1045678912300000)),
        ("0.12345678", Some(12345678)),
        ("0.123456789", None),
        ("1.12345670", Some(112345670)),
    ];

    for case in cases.iter() {
        let case = case.clone();
        assert_eq!(decimal_string_to_satoshis(case.0), case.1.map(Amount::new));
    }
}

#[test]
fn decimal_string_edges() {
    // without a dot the text is a whole number of bitcoins
    assert_eq!(decimal_string_to_satoshis("1"), Some(Amount::new(100_000_000)));
    assert_eq!(decimal_string_to_satoshis("5"), Some(Amount::new(500_000_000)));
    assert_eq!(decimal_string_to_satoshis("0"), Some(Amount::new(0)));
    assert_eq!(decimal_string_to_satoshis("21000000"), Some(Amount::new(2_100_000_000_000_000)));
    assert_eq!(decimal_string_to_satoshis("x"), None);
    assert_eq!(decimal_string_to_satoshis("3402823669209384634633746074318"), None);
    // the formula: whole * 10^8 + fraction * 10^(8 - digits)
    assert_eq!(decimal_string_to_satoshis("0.5"), Some(Amount::new(50_000_000)));
    assert_eq!(decimal_string_to_satoshis("0.79"), Some(Amount::new(79_000_000)));
    assert_eq!(decimal_string_to_satoshis("21000000.00000001"), Some(Amount::new(2_100_000_000_000_001)));
    assert_eq!(decimal_string_to_satoshis("1."), Some(Amount::new(100_000_000)));
    assert_eq!(decimal_string_to_satoshis(".5"), Some(Amount::new(50_000_000)));
    assert_eq!(decimal_string_to_satoshis("."), Some(Amount::new(0)));
    // what follows a second dot is not read
    assert_eq!(decimal_string_to_satoshis("1.2.3"), Some(Amount::new(120_000_000)));
    // no digits
    assert_eq!(decimal_string_to_satoshis("a.1"), None);
    assert_eq!(decimal_string_to_satoshis("1.x"), None);
    assert_eq!(decimal_string_to_satoshis("-1.0"), None);
    assert_eq!(decimal_string_to_satoshis("+1.0"), Some(Amount::new(100_000_000)));
    // the largest amount and the one beyond it
    assert_eq!(
        decimal_string_to_satoshis("3402823669209384634633746074317.68211455"),
        Some(Amount::new(u128::MAX))
    );
    assert_eq!(decimal_string_to_satoshis("3402823669209384634633746074317.68211456"), None);
}

#[test]
fn utxo_from_response() {
    let utxo = Utxo::from(UtxoResponse {
        tx_hash_big_endian: "abcd".to_string(),
        tx_output_n: 3,
        value: Amount::new(17),
    });
    assert_eq!(utxo, Utxo { tx_hash: "abcd".to_string(), index: 3, value: Amount::new(17) });
}
