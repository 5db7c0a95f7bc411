use http_client::json::{json_from_body, json_outcome};
use http_client::{HttpMethod, HttpRequestBuilder};
use std::collections::BTreeMap;

#[derive(Debug)]
enum BodyError {
    Read(String),
    Json(String),
}

impl From<serde_json::Error> for BodyError {
    fn from(why: serde_json::Error) -> Self {
        BodyError::Json(why.to_string())
    }
}

fn content_type() -> (String, String) {
    ("Content-Type".to_string(), "application/json".to_string())
}

#[test]
fn json_sets_body_and_content_type() {
    let mut payload: BTreeMap<String, i32> = BTreeMap::new();
    payload.insert("value".to_string(), 42);
    let request = HttpRequestBuilder::new(HttpMethod::Post, "http://h/post")
        .json(&payload)
        .unwrap()
        .build();
    assert_eq!(request.body, Some(b"{\"value\":42}".to_vec()));
    assert_eq!(request.headers, vec![content_type()]);
    assert_eq!(request.url, "http://h/post");
    assert!(request.query.is_empty());
}

#[test]
fn json_round_trips_through_the_body() {
    let payload: (String, i32, Vec<bool>) = ("test".to_string(), 42, vec![true, false]);
    let request = HttpRequestBuilder::new(HttpMethod::Post, "http://h/post")
        .json(&payload)
        .unwrap()
        .build();
    let sent: Result<Vec<u8>, BodyError> = Ok(request.body.unwrap());
    let back: (String, i32, Vec<bool>) = json_from_body(sent).unwrap();
    assert_eq!(back, payload);
}

#[test]
fn json_adds_the_header_once_per_call() {
    let request = HttpRequestBuilder::new(HttpMethod::Post, "http://h")
        .header("Accept", "*/*")
        .json(&1u8)
        .unwrap()
        .build();
    assert_eq!(request.headers, vec![("Accept".to_string(), "*/*".to_string()), content_type()]);
    let twice = HttpRequestBuilder::new(HttpMethod::Post, "http://h")
        .json(&1u8)
        .unwrap()
        .json(&2u8)
        .unwrap()
        .build();
    assert_eq!(twice.headers, vec![content_type(), content_type()]);
    assert_eq!(twice.body, Some(b"2".to_vec()));
}

#[test]
fn json_replaces_an_earlier_body() {
    let request = HttpRequestBuilder::new(HttpMethod::Post, "http://h")
        .body(b"old".to_vec())
        .json(&"new")
        .unwrap()
        .build();
    assert_eq!(request.body, Some(b"\"new\"".to_vec()));
}

#[test]
fn json_fails_on_a_value_without_encoding() {
    let mut payload: BTreeMap<Vec<u8>, i32> = BTreeMap::new();
    payload.insert(vec![1, 2], 3);
    let built = HttpRequestBuilder::new(HttpMethod::Post, "http://h").json(&payload);
    assert!(built.is_err());
}

#[test]
fn json_body_takes_bytes_as_they_are() {
    let request = HttpRequestBuilder::new(HttpMethod::Put, "http://h")
        .query("k", "v")
        .json_body(b"[1,2]".to_vec())
        .build();
    assert_eq!(request.body, Some(b"[1,2]".to_vec()));
    assert_eq!(request.headers, vec![content_type()]);
    assert_eq!(request.query, vec![("k".to_string(), "v".to_string())]);
    assert_eq!(request.method, HttpMethod::Put);
}

#[test]
fn json_from_body_decodes_what_was_read() {
    let read: Result<Vec<u8>, BodyError> = Ok(b"{\"a\":[1,2,3]}".to_vec());
    let value: BTreeMap<String, Vec<u8>> = json_from_body(read).unwrap();
    assert_eq!(value.get("a"), Some(&vec![1u8, 2, 3]));
}

#[test]
fn json_from_body_hands_on_the_error_of_reading() {
    let read: Result<Vec<u8>, BodyError> = Err(BodyError::Read("connection dropped".to_string()));
    let value: Result<i32, BodyError> = json_from_body(read);
    match value {
        Err(BodyError::Read(why)) => assert_eq!(why, "connection dropped"),
        other => panic!("expected the error of reading, got {:?}", other),
    }
}

#[test]
fn json_from_body_reports_what_does_not_decode() {
    let read: Result<Vec<u8>, BodyError> = Ok(b"not json".to_vec());
    let value: Result<i32, BodyError> = json_from_body(read);
    assert!(matches!(value, Err(BodyError::Json(_))));
    let wrong_type: Result<Vec<u8>, BodyError> = Ok(b"\"text\"".to_vec());
    let number: Result<i32, BodyError> = json_from_body(wrong_type);
    assert!(matches!(number, Err(BodyError::Json(_))));
}

#[test]
fn json_outcome_keeps_value_and_converts_error() {
    let fine: Result<i32, serde_json::Error> = serde_json::from_slice(b"7");
    let kept: Result<i32, BodyError> = json_outcome(fine);
    assert_eq!(kept.unwrap(), 7);
    let broken: Result<i32, serde_json::Error> = serde_json::from_slice(b"{");
    let expected = serde_json::from_slice::<i32>(b"{").unwrap_err().to_string();
    let converted: Result<i32, BodyError> = json_outcome(broken);
    match converted {
        Err(BodyError::Json(why)) => assert_eq!(why, expected),
        other => panic!("expected the error of decoding, got {:?}", other),
    }
}

#[test]
fn json_encoded_sets_bytes_or_hands_on_the_error() {
    let fine = HttpRequestBuilder::new(HttpMethod::Post, "http://h")
        .header("Accept", "*/*")
        .body(b"old".to_vec())
        .json_encoded(serde_json::to_vec(&7u8))
        .unwrap()
        .build();
    assert_eq!(fine.body, Some(b"7".to_vec()));
    assert_eq!(fine.headers, vec![("Accept".to_string(), "*/*".to_string()), content_type()]);
    assert_eq!(fine.url, "http://h");

    let mut payload: BTreeMap<Vec<u8>, i32> = BTreeMap::new();
    payload.insert(vec![1], 2);
    let expected = serde_json::to_vec(&payload).unwrap_err().to_string();
    let failed = HttpRequestBuilder::new(HttpMethod::Post, "http://h")
        .json_encoded(serde_json::to_vec(&payload));
    assert_eq!(failed.unwrap_err().to_string(), expected);
}
