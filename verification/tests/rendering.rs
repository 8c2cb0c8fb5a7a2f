use kilt_submit::call_data_hex;
use kilt_submit::request_url;

#[test]
fn call_data_hex_is_prefixed_lowercase() {
    assert_eq!(call_data_hex(&[0x00, 0x01, 0xab, 0xff]), "0x0001abff");
    assert_eq!(call_data_hex(&[]), "0x");
}

#[test]
fn call_data_hex_matches_the_hex_crate() {
    let call = b"Hello World!";
    assert_eq!(call_data_hex(call), format!("0x{}", hex::encode(call)));
}

#[test]
fn request_url_joins_endpoint_and_path() {
    assert_eq!(
        request_url("https://txd.trusted-entity.io", "/api/v1/submission"),
        "https://txd.trusted-entity.io/api/v1/submission"
    );
    assert_eq!(request_url("", "/x"), "/x");
}
