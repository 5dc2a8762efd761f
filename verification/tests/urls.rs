use coinbase_pro_api::urls::assemble_url;
use coinbase_pro_api::urls::has_room_for;
use url::ParseError;

fn pair(key: &str, value: &str) -> (String, String) {
    (key.to_string(), value.to_string())
}

#[test]
fn base_and_path_are_joined_and_parsed() {
    let url = assemble_url("https://api.pro.coinbase.com", "/products", &None);
    assert_eq!(url, Ok("https://api.pro.coinbase.com/products".to_string()));
    let url = assemble_url("https://api.pro.coinbase.com", "/products/ETH-USD/book", &None);
    assert_eq!(url, Ok("https://api.pro.coinbase.com/products/ETH-USD/book".to_string()));
}

#[test]
fn parsing_puts_the_url_in_its_normal_form() {
    let url = assemble_url("HTTPS://API.pro.coinbase.com", "", &None);
    assert_eq!(url, Ok("https://api.pro.coinbase.com/".to_string()));
    let url = assemble_url("https://example.test:443", "/a b", &None);
    assert_eq!(url, Ok("https://example.test/a%20b".to_string()));
}

#[test]
fn parameters_are_appended_in_the_order_given() {
    let params = Some(vec![pair("level", "2")]);
    let url = assemble_url("https://api.pro.coinbase.com", "/products/eth-usd/book", &params);
    assert_eq!(url, Ok("https://api.pro.coinbase.com/products/eth-usd/book?level=2".to_string()));
    let params = Some(vec![pair("b", "1"), pair("a", "2"), pair("b", "3")]);
    let url = assemble_url("https://example.test", "/x", &params);
    assert_eq!(url, Ok("https://example.test/x?b=1&a=2&b=3".to_string()));
}

#[test]
fn parameters_are_form_encoded() {
    let params = Some(vec![pair("start", "2015-05-15T00:00:00+00:00"), pair("q", "a b&c=d")]);
    let url = assemble_url("https://example.test", "/candles", &params);
    assert_eq!(
        url,
        Ok("https://example.test/candles?start=2015-05-15T00%3A00%3A00%2B00%3A00&q=a+b%26c%3Dd"
            .to_string())
    );
}

#[test]
fn parameters_that_are_present_but_empty_leave_an_empty_query() {
    let url = assemble_url("https://example.test", "/x", &Some(Vec::new()));
    assert_eq!(url, Ok("https://example.test/x?".to_string()));
    let url = assemble_url("https://example.test", "/x", &None);
    assert_eq!(url, Ok("https://example.test/x".to_string()));
}

#[test]
fn parameters_are_added_to_a_query_that_is_there() {
    let params = Some(vec![pair("lang", "rust")]);
    let url = assemble_url("https://example.net", "?dont=clobberme", &params);
    assert_eq!(url, Ok("https://example.net/?dont=clobberme&lang=rust".to_string()));
}

#[test]
fn a_string_that_is_no_absolute_url_is_refused_with_the_reason() {
    let url = assemble_url("api.pro.coinbase.com", "/products", &None);
    assert_eq!(url, Err(ParseError::RelativeUrlWithoutBase));
    let url = assemble_url("", "/products", &None);
    assert_eq!(url, Err(ParseError::RelativeUrlWithoutBase));
    let url = assemble_url("https://", "", &None);
    assert_eq!(url, Err(ParseError::EmptyHost));
    let url = assemble_url("https://example.test:99999", "/products", &None);
    assert_eq!(url, Err(ParseError::InvalidPort));
    let url = assemble_url("https://exa mple.test", "/products", &None);
    assert_eq!(url, Err(ParseError::IdnaError));
    let url = assemble_url("https://[::1", "/products", &None);
    assert_eq!(url, Err(ParseError::InvalidIpv6Address));
}

#[test]
fn parameters_do_not_change_the_reason() {
    let params = Some(vec![pair("level", "2")]);
    let url = assemble_url("api.pro.coinbase.com", "/products", &params);
    assert_eq!(url, Err(ParseError::RelativeUrlWithoutBase));
    let url = assemble_url("https://", "", &params);
    assert_eq!(url, Err(ParseError::EmptyHost));
}

#[test]
fn the_same_inputs_give_the_same_url() {
    let params = Some(vec![pair("after", "43"), pair("x", "é ü")]);
    let first = assemble_url("https://api.pro.coinbase.com", "/products/eth-usd/trades", &params);
    let second = assemble_url("https://api.pro.coinbase.com", "/products/eth-usd/trades", &params);
    assert_eq!(first, second);
    assert_eq!(
        first,
        Ok("https://api.pro.coinbase.com/products/eth-usd/trades?after=43&x=%C3%A9+%C3%BC"
            .to_string())
    );
    let first = assemble_url("nonsense", "", &params);
    let second = assemble_url("nonsense", "", &params);
    assert_eq!(first, second);
}

#[test]
fn ordinary_parameters_fit() {
    assert!(has_room_for("https://example.test/", &Vec::new()));
    assert!(has_room_for("https://example.test/", &vec![pair("level", "2")]));
    assert!(has_room_for("", &vec![pair("", "")]));
    let long = "x".repeat(1 << 20);
    assert!(has_room_for(&long, &vec![pair(&long, &long), pair(&long, &long)]));
}
