use zuora_rest_client::decode::{decode, decode_as, read, status_is_success};
use zuora_rest_client::error::{DecodeFault, ZuoraError};
use zuora_rest_client::token::Grant;
use zuora_rest_client::{Subscription, ZuoraSubscriptionResponse};

#[test]
fn success_range_is_200_to_299() {
    assert!(!status_is_success(199));
    assert!(status_is_success(200));
    assert!(status_is_success(204));
    assert!(status_is_success(299));
    assert!(!status_is_success(300));
    assert!(!status_is_success(0));
    assert!(!status_is_success(u16::MAX));
}

#[test]
fn malformed_body_on_success_is_a_decode_error() {
    let expected = ZuoraError::Decode(DecodeFault::Malformed);
    assert_eq!(decode(200, "{\"done\": tru").unwrap_err(), expected);
    assert_eq!(decode(200, "").unwrap_err(), expected);
    assert_eq!(decode(200, "{} trailing").unwrap_err(), expected);
    let typed: Result<ZuoraSubscriptionResponse, ZuoraError> = decode_as(200, "not json");
    assert_eq!(typed.unwrap_err(), expected);
}

#[test]
fn status_outside_success_is_an_api_error_with_the_raw_body() {
    let body = "{\"done\": true, \"records\": []}";
    for status in [100u16, 199, 300, 301, 400, 401, 404, 500, 503, 599, 600] {
        let expected = ZuoraError::Api {
            status,
            body: String::from(body),
        };
        assert_eq!(decode(status, body).unwrap_err(), expected);
        let typed: Result<ZuoraSubscriptionResponse, ZuoraError> = decode_as(status, body);
        assert_eq!(typed.unwrap_err(), expected);
    }
}

#[test]
fn document_is_the_parsed_body() {
    let v = decode(201, "[1, \"two\", null]").unwrap();
    let items = v.as_array().unwrap();
    assert_eq!(items.len(), 3);
    assert_eq!(items[0].as_u64(), Some(1));
    assert_eq!(items[1].as_str(), Some("two"));
    assert!(items[2].is_null());
}

#[test]
fn query_round_trip() {
    let body = "{\"done\":true, \"records\":[{\"Id\":\"1\",\"Name\":\"N\",\"Version\":2}]}";
    let result: ZuoraSubscriptionResponse = decode_as(200, body).unwrap();
    assert_eq!(
        result,
        ZuoraSubscriptionResponse {
            done: true,
            records: vec![Subscription {
                id: String::from("1"),
                name: String::from("N"),
                version: 2,
            }],
        }
    );
}

#[test]
fn records_keep_their_order_and_ignore_other_members() {
    let body = r#"{"size": 2, "done": false, "records": [
        {"Id": "a", "Name": "first", "Version": 1, "Status": "Active"},
        {"Version": 4294967295, "Name": "second", "Id": "b"}
    ]}"#;
    let result: ZuoraSubscriptionResponse = decode_as(200, body).unwrap();
    assert!(!result.done);
    assert_eq!(result.records.len(), 2);
    assert_eq!(result.records[0].id, "a");
    assert_eq!(result.records[0].name, "first");
    assert_eq!(result.records[0].version, 1);
    assert_eq!(result.records[1].id, "b");
    assert_eq!(result.records[1].name, "second");
    assert_eq!(result.records[1].version, u32::MAX);
}

#[test]
fn shape_mismatch_is_a_decode_error() {
    let expected = ZuoraError::Decode(DecodeFault::Mismatch);
    let cases = [
        "[]",
        "null",
        "{}",
        "{\"done\": true}",
        "{\"records\": []}",
        "{\"done\": \"true\", \"records\": []}",
        "{\"done\": true, \"records\": {}}",
        "{\"done\": true, \"records\": [{\"Id\": \"1\", \"Name\": \"N\"}]}",
        "{\"done\": true, \"records\": [{\"Id\": 1, \"Name\": \"N\", \"Version\": 2}]}",
        "{\"done\": true, \"records\": [{\"Id\": \"1\", \"Name\": \"N\", \"Version\": -2}]}",
        "{\"done\": true, \"records\": [{\"Id\": \"1\", \"Name\": \"N\", \"Version\": 2.5}]}",
        "{\"done\": true, \"records\": [{\"Id\": \"1\", \"Name\": \"N\", \"Version\": 4294967296}]}",
        "{\"done\": true, \"records\": [{\"Id\": \"1\", \"Name\": \"N\", \"Version\": 2}, 7]}",
    ];
    for body in cases {
        let typed: Result<ZuoraSubscriptionResponse, ZuoraError> = decode_as(200, body);
        assert_eq!(typed.unwrap_err(), expected, "body {}", body);
    }
}

#[test]
fn read_takes_a_document_apart() {
    let doc: serde_json::Value =
        serde_json::from_str("{\"Id\": \"x\", \"Name\": \"y\", \"Version\": 0}").unwrap();
    let record: Subscription = read(&doc).unwrap();
    assert_eq!(
        record,
        Subscription {
            id: String::from("x"),
            name: String::from("y"),
            version: 0,
        }
    );
    let other: Result<ZuoraSubscriptionResponse, ZuoraError> = read(&doc);
    assert_eq!(other.unwrap_err(), ZuoraError::Decode(DecodeFault::Mismatch));
}

#[test]
fn grant_is_read_member_by_member() {
    let body = r#"{"jti": "j", "scope": "s", "expires_in": 3599,
        "token_type": "bearer", "access_token": "t", "extra": [1]}"#;
    let grant: Grant = decode_as(200, body).unwrap();
    assert_eq!(
        grant,
        Grant {
            access_token: String::from("t"),
            token_type: String::from("bearer"),
            expires_in: 3599,
            scope: String::from("s"),
            jti: String::from("j"),
        }
    );
}

#[test]
fn grant_needs_every_member_with_its_type() {
    let expected = ZuoraError::Decode(DecodeFault::Mismatch);
    let cases = [
        r#"{"token_type": "b", "expires_in": 1, "scope": "s", "jti": "j"}"#,
        r#"{"access_token": "t", "expires_in": 1, "scope": "s", "jti": "j"}"#,
        r#"{"access_token": "t", "token_type": "b", "scope": "s", "jti": "j"}"#,
        r#"{"access_token": "t", "token_type": "b", "expires_in": 1, "jti": "j"}"#,
        r#"{"access_token": "t", "token_type": "b", "expires_in": 1, "scope": "s"}"#,
        r#"{"access_token": 5, "token_type": "b", "expires_in": 1, "scope": "s", "jti": "j"}"#,
        r#"{"access_token": "t", "token_type": "b", "expires_in": "1", "scope": "s", "jti": "j"}"#,
        r#"{"access_token": "t", "token_type": "b", "expires_in": -1, "scope": "s", "jti": "j"}"#,
        r#"{"access_token": "t", "token_type": "b", "expires_in": 1.0, "scope": "s", "jti": "j"}"#,
        r#"["t", "b", 1, "s", "j"]"#,
    ];
    for body in cases {
        let typed: Result<Grant, ZuoraError> = decode_as(200, body);
        assert_eq!(typed.unwrap_err(), expected, "body {}", body);
    }
}

#[test]
fn decoding_twice_gives_equal_results() {
    let body = "{\"products\": [{\"sku\": \"A-1\"}], \"success\": true}";
    assert_eq!(decode(200, body), decode(200, body));
    assert_eq!(decode(404, body), decode(404, body));
    assert_eq!(decode(200, "{"), decode(200, "{"));
}
