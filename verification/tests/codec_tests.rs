use easy_apply::codec::generate_encoded_url;

const APPLY_PREFIX: &str = "https://www.dice.com/apply?";

fn decode_payload(url: &str) -> serde_json::Value {
    assert!(url.starts_with(APPLY_PREFIX));
    let encoded = &url[APPLY_PREFIX.len()..];
    let bytes = base64::decode_config(encoded, base64::URL_SAFE).unwrap();
    serde_json::from_slice(&bytes).unwrap()
}

#[test]
fn deep_link_round_trips_id_and_title() {
    let url = generate_encoded_url("abc", "Engineer", "q=go");
    let v = decode_payload(&url);
    assert_eq!(v["jobId"], "abc");
    assert_eq!(v["jobTitle"], "Engineer");
}

#[test]
fn deep_link_payload_fields_are_complete() {
    let url = generate_encoded_url("abc", "Engineer", "q=go");
    let v = decode_payload(&url);
    assert_eq!(v["djvVersion"], "new");
    assert_eq!(v["jobUrl"], "https://www.dice.com/job-detail/abc?q=go");
    assert_eq!(v["searchLink"], "?searchlink=search%2F%3Fq=go");
    assert_eq!(v["searchParams"], "?q=go");
}

#[test]
fn deep_link_escapes_title_characters() {
    let url = generate_encoded_url("abc", "C++ \"Senior\" \\ dev\ttab", "");
    let v = decode_payload(&url);
    assert_eq!(v["jobTitle"], "C++ \"Senior\" \\ dev\ttab");
}

#[test]
fn deep_link_matches_reference_encoding() {
    let expected_json = "{\"djvVersion\":\"new\",\"jobId\":\"abc\",\"jobTitle\":\"Engineer\",\
         \"jobUrl\":\"https://www.dice.com/job-detail/abc?q=go\",\
         \"searchLink\":\"?searchlink=search%2F%3Fq=go\",\"searchParams\":\"?q=go\"}";
    let expected = format!(
        "{}{}",
        APPLY_PREFIX,
        base64::encode_config(expected_json, base64::URL_SAFE)
    );
    assert_eq!(generate_encoded_url("abc", "Engineer", "q=go"), expected);
}

#[test]
fn deep_link_with_empty_inputs() {
    let url = generate_encoded_url("", "", "");
    let v = decode_payload(&url);
    assert_eq!(v["jobId"], "");
    assert_eq!(v["jobUrl"], "https://www.dice.com/job-detail/?");
}
