use realtime::record::{frame_record, Event, User};
use realtime::body::ndjson_content_type;

fn encode(name: &str, age: i8) -> Vec<u8> {
    let user = User {
        name: name.to_string(),
        age,
    };
    let event = Event::ndjson(user).unwrap();
    event.commit().to_vec()
}

#[test]
fn single_record_bytes() {
    let bytes = encode("Adam Aho", 31);
    assert_eq!(bytes, b"{\"name\":\"Adam Aho\",\"age\":31}\n".to_vec());
}

#[test]
fn three_records() {
    let user = User {
        name: "Adam Aho".to_string(),
        age: 31,
    };
    let mut chunks: Vec<Vec<u8>> = Vec::new();
    for _ in 0..3 {
        let event = Event::ndjson(user.clone()).unwrap();
        chunks.push(event.commit().to_vec());
    }
    assert_eq!(chunks.len(), 3);
    let expected = b"{\"name\":\"Adam Aho\",\"age\":31}\n".to_vec();
    for chunk in &chunks {
        assert_eq!(chunk, &expected);
    }
    let joined: Vec<u8> = chunks.concat();
    let mut triple = Vec::new();
    triple.extend_from_slice(&expected);
    triple.extend_from_slice(&expected);
    triple.extend_from_slice(&expected);
    assert_eq!(joined, triple);
}

#[test]
fn delimiter_only_at_end() {
    let bytes = encode("line one\nline two", 5);
    assert_eq!(*bytes.last().unwrap(), b'\n');
    let newline_count = bytes.iter().filter(|&&b| b == b'\n').count();
    assert_eq!(newline_count, 1);
    assert_eq!(bytes, b"{\"name\":\"line one\\nline two\",\"age\":5}\n".to_vec());
}

#[test]
fn empty_name() {
    let bytes = encode("", 0);
    assert_eq!(bytes, b"{\"name\":\"\",\"age\":0}\n".to_vec());
}

#[test]
fn extreme_ages() {
    assert_eq!(encode("x", -128), b"{\"name\":\"x\",\"age\":-128}\n".to_vec());
    assert_eq!(encode("x", 127), b"{\"name\":\"x\",\"age\":127}\n".to_vec());
}

#[test]
fn round_trip_value() {
    let bytes = encode("Adam \"A.\" Aho", -7);
    let payload = &bytes[..bytes.len() - 1];
    let value: serde_json::Value = serde_json::from_slice(payload).unwrap();
    assert_eq!(value.get("name").unwrap().as_str().unwrap(), "Adam \"A.\" Aho");
    assert_eq!(value.get("age").unwrap().as_i64().unwrap(), -7);
    assert_eq!(value.as_object().unwrap().len(), 2);
}

#[test]
fn frame_record_appends_delimiter() {
    let event = frame_record(b"abc".to_vec());
    assert_eq!(event.commit().to_vec(), b"abc\n".to_vec());
}

#[test]
fn frame_record_empty_payload() {
    let event = frame_record(Vec::new());
    assert_eq!(event.commit().to_vec(), b"\n".to_vec());
}

#[test]
fn content_type_is_ndjson() {
    assert_eq!(ndjson_content_type(), "application/ndjson");
}
