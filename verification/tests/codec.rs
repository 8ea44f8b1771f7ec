use safe_gateway::codec::{decode, encode, to_result};
use safe_gateway::errors::ApiError;

#[test]
fn encode_prefixes_the_status() {
    assert_eq!(encode(200, "hello"), "200hello");
    assert_eq!(encode(404, ""), "404");
    assert_eq!(encode(599, "x"), "599x");
}

#[test]
fn round_trip_plain_body() {
    let encoded = encode(200, "response body");
    assert_eq!(decode(&encoded), Some((200, "response body".to_string())));
}

#[test]
fn round_trip_body_with_digits_and_delimiters() {
    for (status, body) in [
        (100u16, "503;404;200"),
        (301, "123456"),
        (404, ";;;"),
        (500, "a;b@c*d_e"),
        (599, ""),
    ] {
        let encoded = encode(status, body);
        assert_eq!(decode(&encoded), Some((status, body.to_string())));
    }
}

#[test]
fn decode_rejects_malformed_values() {
    assert_eq!(decode(""), None);
    assert_eq!(decode("20"), None);
    assert_eq!(decode("2x0body"), None);
    assert_eq!(decode("099body"), None);
    assert_eq!(decode("600body"), None);
    assert_eq!(decode("abcbody"), None);
}

#[test]
fn to_result_success_below_400() {
    let encoded = encode(200, "the body");
    assert_eq!(to_result(&encoded), Ok("the body".to_string()));
    let redirect = encode(399, "still fine");
    assert_eq!(to_result(&redirect), Ok("still fine".to_string()));
}

#[test]
fn to_result_error_at_400_and_above() {
    let encoded = encode(404, "not found");
    assert_eq!(
        to_result(&encoded),
        Err(ApiError::Upstream {
            status: 404,
            body: "not found".to_string()
        })
    );
    let server = encode(503, "unavailable");
    assert_eq!(
        to_result(&server),
        Err(ApiError::Upstream {
            status: 503,
            body: "unavailable".to_string()
        })
    );
}

#[test]
fn to_result_malformed_is_serialization_error() {
    match to_result("not-a-tagged-value") {
        Err(ApiError::Serialization { .. }) => {}
        other => panic!("expected a serialization error, got {:?}", other),
    }
}
