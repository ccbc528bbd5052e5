use flickr_api::encoding::percent_encode;
use flickr_api::oauth::{
    build_request, make_nonce, sign_request, timestamp_of, ApiKey, RequestTarget, Token,
};
use flickr_api::signature::{
    base_string, compute_signature, excluded_from_signature, make_signing_key,
};

fn text(bytes: Vec<u8>) -> String {
    String::from_utf8(bytes).unwrap()
}

fn key(key: &str, secret: &str) -> ApiKey {
    ApiKey { key: key.to_string(), secret: secret.to_string() }
}

fn value_of<'a>(params: &'a [(&'static str, String)], name: &str) -> &'a str {
    let found: Vec<&(&'static str, String)> = params.iter().filter(|p| p.0 == name).collect();
    assert_eq!(found.len(), 1, "{name} occurs {} times", found.len());
    found[0].1.as_str()
}

#[test]
fn percent_encoding_keeps_unreserved_bytes() {
    let all = "ABCDEFGHIJKLMNOPQRSTUVWXYZabcdefghijklmnopqrstuvwxyz0123456789-._~";
    assert_eq!(text(percent_encode(all.as_bytes())), all);
}

#[test]
fn percent_encoding_escapes_everything_else() {
    assert_eq!(text(percent_encode(b"a b")), "a%20b");
    assert_eq!(text(percent_encode(b"/")), "%2F");
    assert_eq!(text(percent_encode(b"+*=&%")), "%2B%2A%3D%26%25");
    assert_eq!(text(percent_encode("é".as_bytes())), "%C3%A9");
    assert_eq!(text(percent_encode(&[0x00, 0x7f, 0xff])), "%00%7F%FF");
    assert_eq!(text(percent_encode(b"")), "");
}

#[test]
fn percent_encoding_twice_only_escapes_the_percent_signs() {
    let once = percent_encode(b"a b/c~d%");
    assert_eq!(text(once.clone()), "a%20b%2Fc~d%25");
    assert_eq!(text(percent_encode(&once)), "a%2520b%252Fc~d%2525");
    let plain = percent_encode(b"plain-text_1.0~");
    assert_eq!(percent_encode(&plain), plain);
}

#[test]
fn signing_key_joins_the_encoded_secrets() {
    assert_eq!(text(make_signing_key("S", None)), "S&");
    assert_eq!(text(make_signing_key("S", Some("T"))), "S&T");
    assert_eq!(text(make_signing_key("S&s", Some("t s/é"))), "S%26s&t%20s%2F%C3%A9");
}

#[test]
fn only_the_payload_parameter_is_excluded() {
    assert!(excluded_from_signature("photo"));
    assert!(!excluded_from_signature("photos"));
    assert!(!excluded_from_signature("Photo"));
    assert!(!excluded_from_signature(""));
    assert!(!excluded_from_signature("oauth_token"));
}

#[test]
fn base_string_of_the_echo_request() {
    let params = vec![
        ("method", "test.echo".to_string()),
        ("api_key", "K".to_string()),
        ("oauth_consumer_key", "K".to_string()),
        ("oauth_nonce", "abcdef0123456789".to_string()),
        ("oauth_signature_method", "HMAC-SHA1".to_string()),
        ("oauth_timestamp", "1700000000".to_string()),
        ("oauth_version", "1.0".to_string()),
    ];
    let target = RequestTarget::Get("https://api.example.com/rest/");
    assert_eq!(
        text(base_string(&target, &params)),
        "GET&https%3A%2F%2Fapi.example.com%2Frest%2F&api_key%3DK%26method%3Dtest.echo%26oauth_consumer_key%3DK%26oauth_nonce%3Dabcdef0123456789%26oauth_signature_method%3DHMAC-SHA1%26oauth_timestamp%3D1700000000%26oauth_version%3D1.0"
    );
}

#[test]
fn signature_of_the_echo_request_matches_the_reference_vector() {
    let mut params = vec![("method", "test.echo".to_string()), ("api_key", "K".to_string())];
    let target = RequestTarget::Get("https://api.example.com/rest/");
    sign_request(&target, &mut params, &key("K", "S"), None, 1_700_000_000, "abcdef0123456789");
    let expected = vec![
        ("api_key", "K".to_string()),
        ("method", "test.echo".to_string()),
        ("oauth_consumer_key", "K".to_string()),
        ("oauth_nonce", "abcdef0123456789".to_string()),
        ("oauth_signature_method", "HMAC-SHA1".to_string()),
        ("oauth_timestamp", "1700000000".to_string()),
        ("oauth_version", "1.0".to_string()),
        ("oauth_signature", "Sj5zpiUwFCJlebSibVpkZ6ZjZiE=".to_string()),
    ];
    assert_eq!(params, expected);
}

#[test]
fn signature_of_the_protocol_example() {
    let params = vec![
        ("oauth_consumer_key", "dpf43f3p2l4k3l03".to_string()),
        ("oauth_token", "nnch734d00sl2jdk".to_string()),
        ("oauth_signature_method", "HMAC-SHA1".to_string()),
        ("oauth_timestamp", "1191242096".to_string()),
        ("oauth_nonce", "kllo9940pd9333jh".to_string()),
        ("oauth_version", "1.0".to_string()),
        ("file", "vacation.jpg".to_string()),
        ("size", "original".to_string()),
    ];
    let target = RequestTarget::Get("http://photos.example.net/photos");
    assert_eq!(
        compute_signature(&target, &params, "kd94hf93k423kf44", Some("pfkkdhi9sl3r4s00")),
        "tR3+Ty81lMeYAr/Fid0kMTYa/WM="
    );
}

#[test]
fn signature_with_a_token_and_an_excluded_payload() {
    let mut params = vec![
        ("photo", "xx".to_string()),
        ("method", "test.echo".to_string()),
        ("api_key", "K".to_string()),
    ];
    let target = RequestTarget::Post("https://up.example.com/services/upload/");
    let token = Token { token: "T k".to_string(), secret: "t s/é".to_string() };
    sign_request(
        &target,
        &mut params,
        &key("K", "S&s"),
        Some(&token),
        1_700_000_000,
        "abcdef0123456789",
    );
    assert_eq!(params.len(), 10);
    assert_eq!(value_of(&params, "photo"), "xx");
    assert_eq!(value_of(&params, "oauth_token"), "T k");
    assert_eq!(params[9], ("oauth_signature", "IHTekBZG/z7iWPEX6evnXNbPUQc=".to_string()));
    let with_other_payload = {
        let mut p = vec![
            ("photo", "another payload".to_string()),
            ("method", "test.echo".to_string()),
            ("api_key", "K".to_string()),
        ];
        sign_request(
            &target,
            &mut p,
            &key("K", "S&s"),
            Some(&token),
            1_700_000_000,
            "abcdef0123456789",
        );
        p
    };
    assert_eq!(value_of(&with_other_payload, "oauth_signature"), "IHTekBZG/z7iWPEX6evnXNbPUQc=");
}

#[test]
fn signature_is_twenty_eight_characters_of_base64() {
    let target = RequestTarget::Get("https://api.example.com/rest/");
    for secret in ["", "S", "a longer secret with spaces"] {
        let params = vec![("a", secret.to_string())];
        let signature = compute_signature(&target, &params, secret, None);
        assert_eq!(signature.len(), 28);
        assert!(signature.ends_with('='));
        assert!(signature[..27].chars().all(|c| c.is_ascii_alphanumeric() || c == '+' || c == '/'));
    }
}

#[test]
fn signature_is_the_same_for_equal_inputs() {
    let params = vec![("b", "2".to_string()), ("a", "1".to_string())];
    let target = RequestTarget::Get("https://api.example.com/rest/");
    let first = compute_signature(&target, &params, "S", Some("T"));
    let second = compute_signature(&target, &params, "S", Some("T"));
    assert_eq!(first, second);
}

#[test]
fn signature_changes_with_a_value_a_secret_the_method_or_the_uri() {
    let params = vec![("b", "2".to_string()), ("a", "1".to_string())];
    let changed = vec![("b", "3".to_string()), ("a", "1".to_string())];
    let get = RequestTarget::Get("https://api.example.com/rest/");
    let post = RequestTarget::Post("https://api.example.com/rest/");
    let elsewhere = RequestTarget::Get("https://api.example.com/other/");
    let reference = compute_signature(&get, &params, "S", Some("T"));
    assert_ne!(compute_signature(&get, &changed, "S", Some("T")), reference);
    assert_ne!(compute_signature(&get, &params, "S2", Some("T")), reference);
    assert_ne!(compute_signature(&get, &params, "S", Some("T2")), reference);
    assert_ne!(compute_signature(&get, &params, "S", None), reference);
    assert_ne!(compute_signature(&post, &params, "S", Some("T")), reference);
    assert_ne!(compute_signature(&elsewhere, &params, "S", Some("T")), reference);
}

#[test]
fn signature_does_not_depend_on_the_order_of_the_parameters() {
    let target = RequestTarget::Get("https://api.example.com/rest/");
    let one = vec![
        ("b", "2".to_string()),
        ("a", "z".to_string()),
        ("a", "1".to_string()),
        ("c~", "3".to_string()),
        ("c é", "4".to_string()),
    ];
    let other = vec![
        ("c é", "4".to_string()),
        ("a", "1".to_string()),
        ("c~", "3".to_string()),
        ("a", "z".to_string()),
        ("b", "2".to_string()),
    ];
    assert_eq!(base_string(&target, &one), base_string(&target, &other));
    assert_eq!(
        text(base_string(&target, &one)),
        "GET&https%3A%2F%2Fapi.example.com%2Frest%2F&a%3D1%26a%3Dz%26b%3D2%26c%2520%25C3%25A9%3D4%26c~%3D3"
    );
    assert_eq!(
        compute_signature(&target, &one, "S", None),
        compute_signature(&target, &other, "S", None)
    );
}

#[test]
fn parameters_are_ordered_by_encoded_name_then_by_encoded_value() {
    let target = RequestTarget::Get("http://h/");
    let mut params = vec![
        ("n", "b".to_string()),
        ("n", "B".to_string()),
        ("n", "a b".to_string()),
        ("n", "a".to_string()),
        ("m~", "1".to_string()),
        ("m ", "2".to_string()),
        ("m", "3".to_string()),
    ];
    sign_request(&target, &mut params, &key("K", "S"), None, 0, "n");
    let order: Vec<(&str, &str)> = params.iter().map(|p| (p.0, p.1.as_str())).take(3).collect();
    assert_eq!(order, vec![("m", "3"), ("m ", "2"), ("m~", "1")]);
    let values: Vec<&str> =
        params.iter().filter(|p| p.0 == "n").map(|p| p.1.as_str()).collect();
    assert_eq!(values, vec!["B", "a", "a b", "b"]);
}

#[test]
fn clock_before_the_epoch_counts_as_second_zero() {
    assert_eq!(timestamp_of(None), 0);
    assert_eq!(timestamp_of(Some(0)), 0);
    assert_eq!(timestamp_of(Some(1_700_000_000)), 1_700_000_000);
    assert_eq!(timestamp_of(Some(u64::MAX)), u64::MAX);
}

#[test]
fn nonce_is_thirty_two_hexadecimal_digits() {
    assert_eq!(make_nonce(0, 0), "00000000000000000000000000000000");
    assert_eq!(make_nonce(u64::MAX, 1), "ffffffffffffffff0000000000000001");
    assert_eq!(make_nonce(0x0123_4567_89ab_cdef, 0xfedc_ba98_7654_3210), "0123456789abcdeffedcba9876543210");
}

#[test]
fn build_request_adds_the_protocol_parameters_and_a_valid_signature() {
    let api = key("consumer", "secret");
    let token = Token { token: "tok".to_string(), secret: "toksecret".to_string() };
    let mut params = vec![("method", "flickr.test.login".to_string())];
    build_request(RequestTarget::Get("https://api.example.com/rest/"), &mut params, &api, Some(&token));
    assert_eq!(params.len(), 8);
    assert_eq!(params[7].0, "oauth_signature");
    assert_eq!(value_of(&params, "method"), "flickr.test.login");
    assert_eq!(value_of(&params, "oauth_consumer_key"), "consumer");
    assert_eq!(value_of(&params, "oauth_signature_method"), "HMAC-SHA1");
    assert_eq!(value_of(&params, "oauth_version"), "1.0");
    assert_eq!(value_of(&params, "oauth_token"), "tok");
    let nonce = value_of(&params, "oauth_nonce");
    assert_eq!(nonce.len(), 32);
    assert!(nonce.chars().all(|c| c.is_ascii_hexdigit() && !c.is_ascii_uppercase()));
    let timestamp = value_of(&params, "oauth_timestamp");
    assert!(timestamp.parse::<u64>().unwrap() > 1_600_000_000);
    let unsigned: Vec<(&'static str, String)> = params[..7].to_vec();
    let expected = compute_signature(
        &RequestTarget::Get("https://api.example.com/rest/"),
        &unsigned,
        "secret",
        Some("toksecret"),
    );
    assert_eq!(params[7].1, expected);
}

#[test]
fn build_request_draws_a_new_nonce_each_time() {
    let api = key("consumer", "secret");
    let mut first = vec![];
    let mut second = vec![];
    build_request(RequestTarget::Get("https://api.example.com/rest/"), &mut first, &api, None);
    build_request(RequestTarget::Get("https://api.example.com/rest/"), &mut second, &api, None);
    assert_eq!(first.len(), 6);
    assert_ne!(value_of(&first, "oauth_nonce"), value_of(&second, "oauth_nonce"));
}
