use commerce::services::shipping_rate::ShippingRateService;

#[test]
fn encode_countries_empty_is_none() {
    assert_eq!(ShippingRateService::encode_countries(vec![]), None);
}

#[test]
fn encode_countries_joins_with_commas() {
    assert_eq!(
        ShippingRateService::encode_countries(vec![276, 40, 756]),
        Some("276,40,756".to_string())
    );
    assert_eq!(ShippingRateService::encode_countries(vec![0]), Some("0".to_string()));
    assert_eq!(
        ShippingRateService::encode_countries(vec![-5, i32::MIN, i32::MAX]),
        Some("-5,-2147483648,2147483647".to_string())
    );
}

#[test]
fn decode_countries_reads_numbers() {
    assert_eq!(ShippingRateService::decode_countries(None), Vec::<i32>::new());
    assert_eq!(
        ShippingRateService::decode_countries(Some("276,40,756".to_string())),
        vec![276, 40, 756]
    );
    assert_eq!(
        ShippingRateService::decode_countries(Some("+7,-0012".to_string())),
        vec![7, -12]
    );
}

#[test]
fn countries_round_trip() {
    let cases: Vec<Vec<i32>> = vec![
        vec![],
        vec![1],
        vec![10, 20, 30],
        vec![i32::MIN, -1, 0, 1, i32::MAX],
    ];
    for codes in cases {
        let encoded = ShippingRateService::encode_countries(codes.clone());
        assert!(ShippingRateService::countries_decodable(&encoded));
        assert_eq!(ShippingRateService::decode_countries(encoded), codes);
    }
}

#[test]
fn countries_decodable_refuses_bad_pieces() {
    assert!(ShippingRateService::countries_decodable(&None));
    assert!(!ShippingRateService::countries_decodable(&Some("".to_string())));
    assert!(!ShippingRateService::countries_decodable(&Some("1,,2".to_string())));
    assert!(!ShippingRateService::countries_decodable(&Some("1, 2".to_string())));
    assert!(!ShippingRateService::countries_decodable(&Some("-".to_string())));
    assert!(!ShippingRateService::countries_decodable(&Some("2147483648".to_string())));
    assert!(ShippingRateService::countries_decodable(&Some("-2147483648".to_string())));
    assert!(!ShippingRateService::countries_decodable(&Some("12a".to_string())));
}
