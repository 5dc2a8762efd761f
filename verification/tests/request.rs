use coinbase_pro_api::decimal::to_decimal;
use coinbase_pro_api::instant::UtcInstant;
use coinbase_pro_api::instant::MAX_TIMESTAMP;
use coinbase_pro_api::instant::MIN_TIMESTAMP;
use coinbase_pro_api::request::EndpointRequest;
use coinbase_pro_api::request::Granularity;
use coinbase_pro_api::request::OBLevel;

fn pair(key: &str, value: &str) -> (String, String) {
    (key.to_string(), value.to_string())
}

#[test]
fn numbers_are_written_in_decimal() {
    assert_eq!(to_decimal(0), "0");
    assert_eq!(to_decimal(7), "7");
    assert_eq!(to_decimal(9), "9");
    assert_eq!(to_decimal(10), "10");
    assert_eq!(to_decimal(43), "43");
    assert_eq!(to_decimal(86400), "86400");
    assert_eq!(to_decimal(1_000_000), "1000000");
    assert_eq!(to_decimal(u64::MAX as u128), u64::MAX.to_string());
    assert_eq!(to_decimal(u128::MAX), u128::MAX.to_string());
}

#[test]
fn an_order_book_level_is_sent_as_its_number() {
    assert_eq!(OBLevel::Level1.param_tuple(), pair("level", "1"));
    assert_eq!(OBLevel::Level2.param_tuple(), pair("level", "2"));
    assert_eq!(OBLevel::Level3.param_tuple(), pair("level", "3"));
    assert_eq!(OBLevel::Level1.number(), 1);
    assert_eq!(OBLevel::Level2.number(), 2);
    assert_eq!(OBLevel::Level3.number(), 3);
}

#[test]
fn a_granularity_is_sent_as_its_seconds() {
    assert_eq!(Granularity::Minute1.param_tuple(), pair("granularity", "60"));
    assert_eq!(Granularity::Minute5.param_tuple(), pair("granularity", "300"));
    assert_eq!(Granularity::Minute15.param_tuple(), pair("granularity", "900"));
    assert_eq!(Granularity::Hour1.param_tuple(), pair("granularity", "3600"));
    assert_eq!(Granularity::Hour6.param_tuple(), pair("granularity", "21600"));
    assert_eq!(Granularity::Hour24.param_tuple(), pair("granularity", "86400"));
    assert_eq!(Granularity::Minute1.seconds(), 60);
    assert_eq!(Granularity::Hour24.seconds(), 86400);
}

#[test]
fn requests_without_arguments_have_a_fixed_path_and_no_query() {
    let request = EndpointRequest::products();
    assert_eq!((request.path.as_str(), request.params), ("/products", None));
    let request = EndpointRequest::currencies();
    assert_eq!((request.path.as_str(), request.params), ("/currencies", None));
    let request = EndpointRequest::time();
    assert_eq!((request.path.as_str(), request.params), ("/time", None));
}

#[test]
fn requests_for_a_product_put_its_identifier_in_the_path() {
    let request = EndpointRequest::product("ETH-USD");
    assert_eq!((request.path.as_str(), request.params), ("/products/ETH-USD", None));
    let request = EndpointRequest::ticker("eth-usd");
    assert_eq!((request.path.as_str(), request.params), ("/products/eth-usd/ticker", None));
    let request = EndpointRequest::stats("ETH-USD");
    assert_eq!((request.path.as_str(), request.params), ("/products/ETH-USD/stats", None));
    let request = EndpointRequest::product("");
    assert_eq!(request.path, "/products/");
}

#[test]
fn an_order_book_request_at_level_2_carries_exactly_that_level() {
    let request = EndpointRequest::order_book("eth-usd", OBLevel::Level2);
    assert_eq!(request.path, "/products/eth-usd/book");
    assert_eq!(request.params, Some(vec![pair("level", "2")]));
    let request = EndpointRequest::order_book("eth-usd", OBLevel::Level1);
    assert_eq!(request.params, Some(vec![pair("level", "1")]));
    let request = EndpointRequest::order_book("eth-usd", OBLevel::Level3);
    assert_eq!(request.params, Some(vec![pair("level", "3")]));
}

#[test]
fn a_trades_request_moves_the_cursor_one_on() {
    let request = EndpointRequest::trades("eth-usd", Some(42));
    assert_eq!(request.path, "/products/eth-usd/trades");
    assert_eq!(request.params, Some(vec![pair("after", "43")]));
    let request = EndpointRequest::trades("eth-usd", Some(0));
    assert_eq!(request.params, Some(vec![pair("after", "1")]));
    let request = EndpointRequest::trades("eth-usd", Some(9));
    assert_eq!(request.params, Some(vec![pair("after", "10")]));
}

#[test]
fn a_trades_request_without_a_cursor_has_no_query() {
    let request = EndpointRequest::trades("eth-usd", None);
    assert_eq!(request.path, "/products/eth-usd/trades");
    assert_eq!(request.params, None);
}

#[test]
fn the_largest_cursor_does_not_wrap() {
    let request = EndpointRequest::trades("eth-usd", Some(u64::MAX));
    assert_eq!(request.params, Some(vec![pair("after", "18446744073709551616")]));
}

#[test]
fn a_historic_rates_request_with_nothing_given_has_no_query() {
    let request = EndpointRequest::historic_rates("eth-usd", None, None, None);
    assert_eq!(request.path, "/products/eth-usd/candles");
    assert_eq!(request.params, None);
}

#[test]
fn a_historic_rates_request_with_only_a_granularity_carries_only_that() {
    let request = EndpointRequest::historic_rates("eth-usd", None, None, Some(Granularity::Hour1));
    assert_eq!(request.params, Some(vec![pair("granularity", "3600")]));
}

#[test]
fn a_historic_rates_request_sends_start_end_and_granularity_in_that_order() {
    let start = UtcInstant::from_timestamp(1_431_648_000, 0);
    let end = UtcInstant::from_timestamp(1_431_651_600, 0);
    let request =
        EndpointRequest::historic_rates("BTC-USD", start, end, Some(Granularity::Minute5));
    assert_eq!(request.path, "/products/BTC-USD/candles");
    assert_eq!(
        request.params,
        Some(vec![
            pair("start", "2015-05-15T00:00:00+00:00"),
            pair("end", "2015-05-15T01:00:00+00:00"),
            pair("granularity", "300"),
        ])
    );
}

#[test]
fn a_historic_rates_request_leaves_out_what_is_not_given() {
    let start = UtcInstant::from_timestamp(0, 0);
    let request = EndpointRequest::historic_rates("eth-usd", start, None, None);
    assert_eq!(request.params, Some(vec![pair("start", "1970-01-01T00:00:00+00:00")]));
    let end = UtcInstant::from_timestamp(86_400, 0);
    let request = EndpointRequest::historic_rates("eth-usd", None, end, None);
    assert_eq!(request.params, Some(vec![pair("end", "1970-01-02T00:00:00+00:00")]));
    let end = UtcInstant::from_timestamp(86_400, 0);
    let request =
        EndpointRequest::historic_rates("eth-usd", None, end, Some(Granularity::Hour24));
    assert_eq!(
        request.params,
        Some(vec![pair("end", "1970-01-02T00:00:00+00:00"), pair("granularity", "86400")])
    );
}

#[test]
fn a_request_can_be_made_for_any_path() {
    let request = EndpointRequest::new("/time", None);
    assert_eq!((request.path.as_str(), request.params), ("/time", None));
    let request = EndpointRequest::new("/x", Some(vec![pair("a", "b"), pair("c", "d")]));
    assert_eq!(request.path, "/x");
    assert_eq!(request.params, Some(vec![pair("a", "b"), pair("c", "d")]));
    let request = EndpointRequest::new("/x", Some(Vec::new()));
    assert_eq!(request.params, Some(Vec::new()));
}

#[test]
fn an_instant_is_written_in_rfc_3339() {
    let at = UtcInstant::from_timestamp(1_431_648_000, 0).expect("within the calendar");
    assert_eq!(at.to_rfc3339(), "2015-05-15T00:00:00+00:00");
    assert_eq!(at.timestamp(), 1_431_648_000);
    assert_eq!(at.timestamp_subsec_nanos(), 0);
    let at = UtcInstant::from_timestamp(0, 500_000_000).expect("within the calendar");
    assert_eq!(at.to_rfc3339(), "1970-01-01T00:00:00.500+00:00");
    let at = UtcInstant::from_timestamp(0, 1).expect("within the calendar");
    assert_eq!(at.to_rfc3339(), "1970-01-01T00:00:00.000000001+00:00");
    let at = UtcInstant::from_timestamp(-1, 0).expect("within the calendar");
    assert_eq!(at.to_rfc3339(), "1969-12-31T23:59:59+00:00");
    assert_eq!(at.timestamp(), -1);
}

#[test]
fn an_instant_agrees_with_the_calendar_library() {
    let stamps: [(i64, u32); 5] =
        [(0, 0), (1_431_648_000, 123_456_789), (-1, 999_999_999), (951_782_400, 0), (59, 0)];
    for (secs, nanos) in stamps {
        let expected = chrono::DateTime::<chrono::Utc>::from_timestamp(secs, nanos)
            .expect("within the calendar")
            .to_rfc3339();
        let at = UtcInstant::from_timestamp(secs, nanos).expect("within the calendar");
        assert_eq!(at.to_rfc3339(), expected);
        assert_eq!((at.timestamp(), at.timestamp_subsec_nanos()), (secs, nanos));
    }
}

#[test]
fn the_calendar_ends_where_it_is_said_to_end() {
    assert_eq!(MIN_TIMESTAMP, -8_334_601_228_800);
    assert_eq!(MAX_TIMESTAMP, 8_210_266_876_799);
    let first = UtcInstant::from_timestamp(MIN_TIMESTAMP, 0).expect("the first second");
    assert_eq!(first.to_rfc3339(), "-262143-01-01T00:00:00+00:00");
    let last = UtcInstant::from_timestamp(MAX_TIMESTAMP, 999_999_999).expect("the last second");
    assert_eq!(last.to_rfc3339(), "+262142-12-31T23:59:59.999999999+00:00");
    assert!(UtcInstant::from_timestamp(MIN_TIMESTAMP - 1, 0).is_none());
    assert!(UtcInstant::from_timestamp(MAX_TIMESTAMP + 1, 0).is_none());
    assert!(UtcInstant::from_timestamp(i64::MIN, 0).is_none());
    assert!(UtcInstant::from_timestamp(i64::MAX, 0).is_none());
}

#[test]
fn a_leap_second_is_taken_only_at_the_end_of_a_minute() {
    assert!(UtcInstant::from_timestamp(59, 1_000_000_000).is_some());
    assert!(UtcInstant::from_timestamp(59, 1_999_999_999).is_some());
    assert!(UtcInstant::from_timestamp(59, 2_000_000_000).is_none());
    assert!(UtcInstant::from_timestamp(58, 1_000_000_000).is_none());
    assert!(UtcInstant::from_timestamp(0, 1_000_000_000).is_none());
    assert!(UtcInstant::from_timestamp(0, 999_999_999).is_some());
    assert!(UtcInstant::from_timestamp(-1, 1_000_000_000).is_some());
    assert!(UtcInstant::from_timestamp(-2, 1_000_000_000).is_none());
    assert!(UtcInstant::from_timestamp(-61, 1_500_000_000).is_some());
    assert!(UtcInstant::from_timestamp(MAX_TIMESTAMP, 1_999_999_999).is_some());
    assert!(UtcInstant::from_timestamp(0, u32::MAX).is_none());
}
