use stock_analysis::{ApiResponse, QuoteError};

fn value_of(number: stock_analysis::Float64) -> f64 {
    f64::from_bits(number.to_bits())
}

fn rejected(body: &str) -> bool {
    matches!(ApiResponse::decode(body), Err(QuoteError::DecodeFailure))
}

#[test]
fn decode_reads_the_three_numbers() {
    let answer =
        ApiResponse::decode("{\"price\":150.5,\"volume\":12345,\"market_cap\":2500000000.0}")
            .unwrap();
    assert_eq!(value_of(answer.price), 150.5);
    assert_eq!(answer.volume, 12345);
    assert_eq!(value_of(answer.market_cap), 2500000000.0);
}

#[test]
fn decode_ignores_order_and_space() {
    let answer = ApiResponse::decode(
        " {\n \"market_cap\": 3e12, \"volume\": 7,\n \"price\": 2.25 } ",
    )
    .unwrap();
    assert_eq!(value_of(answer.price), 2.25);
    assert_eq!(answer.volume, 7);
    assert_eq!(value_of(answer.market_cap), 3e12);
}

#[test]
fn decode_rejects_a_further_member() {
    assert!(rejected("{\"price\":1.0,\"volume\":2,\"market_cap\":3.0,\"extra\":0}"));
    assert!(rejected("{\"extra\":0,\"price\":1.0,\"volume\":2,\"market_cap\":3.0}"));
    assert!(rejected("{\"price\":1.0,\"volume\":2,\"market_cap\":3.0,\"\":null}"));
    assert!(rejected("{\"price\":1.0,\"volume\":2,\"market_cap\":3.0,\"Price\":1.0}"));
    assert!(rejected(
        "{\"name\":\"Apple\",\"market_cap\":3e12,\"volume\":7,\"nested\":{\"price\":1},\"price\":2.25}"
    ));
    assert!(rejected(
        "{\"price\":1.0,\"volume\":2,\"market_cap\":3.0,\"a\":1,\"b\":2,\"c\":3}"
    ));
}

#[test]
fn decode_rejects_three_members_of_which_one_is_another() {
    assert!(rejected("{\"price\":1.0,\"volume\":2,\"cap\":3.0}"));
    assert!(rejected("{\"price\":1.0,\"market_cap\":3.0,\"extra\":0}"));
    assert!(rejected("{\"a\":1.0,\"b\":2,\"c\":3.0}"));
}

#[test]
fn decode_converts_integers_to_doubles() {
    let answer =
        ApiResponse::decode("{\"price\":7,\"volume\":0,\"market_cap\":-3}").unwrap();
    assert_eq!(answer.price.to_bits(), 7.0f64.to_bits());
    assert_eq!(answer.volume, 0);
    assert_eq!(answer.market_cap.to_bits(), (-3.0f64).to_bits());
    let answer = ApiResponse::decode(
        "{\"price\":18446744073709551615,\"volume\":18446744073709551615,\"market_cap\":9007199254740993}",
    )
    .unwrap();
    assert_eq!(answer.price.to_bits(), 18446744073709551616.0f64.to_bits());
    assert_eq!(answer.volume, u64::MAX);
    assert_eq!(answer.market_cap.to_bits(), 9007199254740992.0f64.to_bits());
}

#[test]
fn decode_accepts_negative_numbers() {
    let answer =
        ApiResponse::decode("{\"price\":-150.5,\"volume\":1,\"market_cap\":-0.0}").unwrap();
    assert_eq!(answer.price.to_bits(), (-150.5f64).to_bits());
    assert_eq!(answer.market_cap.to_bits(), (-0.0f64).to_bits());
}

#[test]
fn decode_rejects_what_is_not_json() {
    assert!(rejected("not json"));
    assert!(rejected(""));
    assert!(rejected("{\"price\":1.0,\"volume\":2,\"market_cap\":3.0"));
    assert!(rejected("{\"price\":1.0,\"volume\":2,\"market_cap\":3.0} x"));
    assert!(rejected("{price:1.0,volume:2,market_cap:3.0}"));
}

#[test]
fn decode_rejects_a_missing_member() {
    assert!(rejected("{}"));
    assert!(rejected("{\"price\":1.0}"));
    assert!(rejected("{\"volume\":2,\"market_cap\":3.0}"));
    assert!(rejected("{\"price\":1.0,\"market_cap\":3.0}"));
    assert!(rejected("{\"price\":1.0,\"volume\":2}"));
    assert!(rejected("{\"price\":1.0,\"volume\":2,\"marketCap\":3.0}"));
}

#[test]
fn decode_rejects_a_member_that_is_no_number() {
    assert!(rejected("{\"price\":\"1.0\",\"volume\":2,\"market_cap\":3.0}"));
    assert!(rejected("{\"price\":null,\"volume\":2,\"market_cap\":3.0}"));
    assert!(rejected("{\"price\":1.0,\"volume\":true,\"market_cap\":3.0}"));
    assert!(rejected("{\"price\":1.0,\"volume\":2,\"market_cap\":[3.0]}"));
    assert!(rejected("{\"price\":1.0,\"volume\":2,\"market_cap\":{\"value\":3.0}}"));
}

#[test]
fn decode_rejects_a_volume_that_is_no_unsigned_integer() {
    assert!(rejected("{\"price\":1.0,\"volume\":-2,\"market_cap\":3.0}"));
    assert!(rejected("{\"price\":1.0,\"volume\":2.0,\"market_cap\":3.0}"));
    assert!(rejected("{\"price\":1.0,\"volume\":2e3,\"market_cap\":3.0}"));
    assert!(rejected("{\"price\":1.0,\"volume\":18446744073709551616,\"market_cap\":3.0}"));
}

#[test]
fn decode_rejects_what_is_no_object() {
    assert!(rejected("[150.5,12345,2500000000.0]"));
    assert!(rejected("150.5"));
    assert!(rejected("\"price\""));
    assert!(rejected("null"));
    assert!(rejected("[{\"price\":1.0,\"volume\":2,\"market_cap\":3.0}]"));
    assert!(rejected("{\"data\":{\"price\":1.0,\"volume\":2,\"market_cap\":3.0}}"));
}

#[test]
fn from_value_reads_a_built_document() {
    let mut members = serde_json::Map::new();
    members.insert("price".to_string(), serde_json::Value::from(150.5));
    members.insert("volume".to_string(), serde_json::Value::from(12345u64));
    members.insert("market_cap".to_string(), serde_json::Value::from(2500000000.0));
    let answer = ApiResponse::from_value(&serde_json::Value::Object(members)).unwrap();
    assert_eq!(value_of(answer.price), 150.5);
    assert_eq!(answer.volume, 12345);
    assert_eq!(value_of(answer.market_cap), 2500000000.0);
}

#[test]
fn from_value_rejects_a_further_member() {
    let mut members = serde_json::Map::new();
    members.insert("price".to_string(), serde_json::Value::from(150.5));
    members.insert("volume".to_string(), serde_json::Value::from(12345u64));
    members.insert("market_cap".to_string(), serde_json::Value::from(2500000000.0));
    assert!(ApiResponse::from_value(&serde_json::Value::Object(members.clone())).is_some());
    members.insert("extra".to_string(), serde_json::Value::from(0u64));
    assert!(ApiResponse::from_value(&serde_json::Value::Object(members)).is_none());
}

#[test]
fn from_value_rejects_other_documents() {
    assert!(ApiResponse::from_value(&serde_json::Value::Null).is_none());
    assert!(ApiResponse::from_value(&serde_json::Value::from(150.5)).is_none());
    let mut members = serde_json::Map::new();
    members.insert("price".to_string(), serde_json::Value::from(150.5));
    members.insert("volume".to_string(), serde_json::Value::from(-1i64));
    members.insert("market_cap".to_string(), serde_json::Value::from(2500000000.0));
    assert!(ApiResponse::from_value(&serde_json::Value::Object(members)).is_none());
    let list = serde_json::Value::Array(vec![
        serde_json::Value::from(150.5),
        serde_json::Value::from(12345u64),
        serde_json::Value::from(2500000000.0),
    ]);
    assert!(ApiResponse::from_value(&list).is_none());
}
