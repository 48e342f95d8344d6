use peer_protocol::error::{Cause, DecodeError, MessageError};
use peer_protocol::fields::{Field, FieldValue};
use peer_protocol::identifier::PeerIdentifier;
use peer_protocol::message::Message;
use peer_protocol::timestamp::Timestamp;

const DST: &str = "a1a2a3a4-b1b2-c1c2-d1d2-d3d4d5d6d7d8";
const SRC: &str = "67e55044-10b1-426f-9247-bb680e5fe0c8";
const TIME: &str = "2024-02-07T12:34:56.5+01:00";

fn dst() -> PeerIdentifier {
    PeerIdentifier { value: 0xa1a2a3a4b1b2c1c2d1d2d3d4d5d6d7d8 }
}

fn src() -> PeerIdentifier {
    PeerIdentifier { value: 0x67e5504410b1426f9247bb680e5fe0c8 }
}

fn time() -> Timestamp {
    Timestamp::parse(TIME).unwrap()
}

fn document(dst: Option<&str>, src: Option<&str>, data: Option<&str>, time: Option<&str>)
    -> json::JsonValue
{
    let mut document = json::JsonValue::new_object();
    if let Some(text) = dst {
        document["dst_uuid"] = json::JsonValue::from(text);
    }
    if let Some(text) = src {
        document["src_uuid"] = json::JsonValue::from(text);
    }
    if let Some(text) = data {
        document["data"] = json::JsonValue::from(text);
    }
    if let Some(text) = time {
        document["creation_time"] = json::JsonValue::from(text);
    }
    document
}

fn error_of(outcome: Result<Message, MessageError>) -> DecodeError {
    match outcome {
        Err(MessageError::JsonParseError(cause)) => cause,
        other => panic!("expected a parse error, got {:?}", other),
    }
}

#[test]
fn new_with_timestamp_keeps_its_arguments() {
    let message = Message::new_with_timestamp(dst(), src(), "hello", time()).unwrap();
    assert_eq!(message.dst_uuid, dst());
    assert_eq!(message.src_uuid, src());
    assert_eq!(message.data, "hello");
    assert_eq!(message.creation_time.text(), TIME);
}

#[test]
fn a_message_to_oneself_is_accepted() {
    let message = Message::new_with_timestamp(dst(), dst(), "note to self", time()).unwrap();
    assert_eq!(message.dst_uuid, message.src_uuid);
    let back = Message::decode(&message.encode()).unwrap();
    assert_eq!(back.dst_uuid, dst());
    assert_eq!(back.src_uuid, dst());
}

#[test]
fn new_stamps_the_current_time() {
    let message = Message::new(dst(), src(), "now").unwrap();
    assert_eq!(message.dst_uuid, dst());
    assert_eq!(message.src_uuid, src());
    assert_eq!(message.data, "now");
    assert!(message.creation_time.seconds() > 1704067200);
}

#[test]
fn message_to_json_writes_the_four_fields() {
    let message = Message::new_with_timestamp(dst(), src(), "hello", time()).unwrap();
    let document = message.to_json();
    assert!(document.is_object());
    assert_eq!(document.len(), 4);
    assert_eq!(document["dst_uuid"].as_str(), Some(DST));
    assert_eq!(document["src_uuid"].as_str(), Some(SRC));
    assert_eq!(document["data"].as_str(), Some("hello"));
    assert_eq!(document["creation_time"].as_str(), Some(TIME));
}

#[test]
fn message_from_json_reads_the_four_fields() {
    let message =
        Message::from_json(document(Some(DST), Some(SRC), Some("hello"), Some(TIME))).unwrap();
    assert_eq!(message.dst_uuid, dst());
    assert_eq!(message.src_uuid, src());
    assert_eq!(message.data, "hello");
    assert_eq!(message.creation_time.text(), TIME);
    assert_eq!(message.creation_time.seconds(), 1707305696);
    assert_eq!(message.creation_time.nanos(), 500_000_000);
}

#[test]
fn message_from_json_undoes_to_json() {
    let message = Message::new_with_timestamp(dst(), src(), "a \"quoted\"\nline", time()).unwrap();
    let back = Message::from_json(message.to_json()).unwrap();
    assert_eq!(back.dst_uuid, message.dst_uuid);
    assert_eq!(back.src_uuid, message.src_uuid);
    assert_eq!(back.data, message.data);
    assert_eq!(back.creation_time.text(), message.creation_time.text());
}

#[test]
fn message_decode_undoes_encode() {
    let texts = vec!["", "hello", "héllo ☃ 𝄞", "tab\there", "{\"nested\":\"json\"}", "\\\\"];
    for text in texts {
        let message = Message::new_with_timestamp(dst(), src(), text, time()).unwrap();
        let bytes = message.encode();
        assert!(bytes.len() <= 1024);
        let back = Message::decode(&bytes).unwrap();
        assert_eq!(back.dst_uuid, dst());
        assert_eq!(back.src_uuid, src());
        assert_eq!(back.data, text);
        assert_eq!(back.creation_time.text(), TIME);
    }
}

#[test]
fn message_encode_writes_the_wire_format() {
    let message = Message::new_with_timestamp(dst(), src(), "hi", time()).unwrap();
    let expected = format!(
        "{{\"dst_uuid\":\"{}\",\"src_uuid\":\"{}\",\"data\":\"hi\",\"creation_time\":\"{}\"}}",
        DST, SRC, TIME
    );
    assert_eq!(message.encode(), expected.into_bytes());
}

#[test]
fn a_message_too_long_for_a_datagram_does_not_read_back() {
    let mut text = String::new();
    while text.len() < 1000 {
        text.push('x');
    }
    let message = Message::new_with_timestamp(dst(), src(), &text, time()).unwrap();
    let bytes = message.encode();
    assert!(bytes.len() > 1024);
    assert_eq!(Message::decode(&bytes).unwrap_err(), DecodeError::Malformed);
    assert_eq!(Message::decode(&bytes[..1024]).unwrap_err(), DecodeError::Malformed);
}

#[test]
fn message_decode_reads_any_order_of_fields_and_skips_others() {
    let text = format!(
        "  {{ \"extra\": [1, 2], \"creation_time\": \"{}\", \"data\": \"hi\",\n \"src_uuid\": \"{}\", \"dst_uuid\": \"{}\" }} ",
        TIME, SRC, DST
    );
    let message = Message::decode(text.as_bytes()).unwrap();
    assert_eq!(message.dst_uuid, dst());
    assert_eq!(message.src_uuid, src());
    assert_eq!(message.data, "hi");
}

#[test]
fn message_decode_reports_a_malformed_datagram() {
    assert_eq!(Message::decode(b"not json").unwrap_err(), DecodeError::Malformed);
    assert_eq!(Message::decode(b"").unwrap_err(), DecodeError::Malformed);
    assert_eq!(Message::decode(&[0xff, 0x00]).unwrap_err(), DecodeError::Malformed);
}

#[test]
fn message_decode_reports_a_truncated_datagram() {
    let message = Message::new_with_timestamp(dst(), src(), "hello", time()).unwrap();
    let bytes = message.encode();
    let mut length = 0;
    while length < bytes.len() {
        assert_eq!(Message::decode(&bytes[..length]).unwrap_err(), DecodeError::Malformed);
        length += 1;
    }
}

#[test]
fn message_decode_reports_json_that_is_no_object() {
    assert_eq!(
        Message::decode(b"[]").unwrap_err(),
        DecodeError::MissingField(Field::DstUuid)
    );
    assert_eq!(
        Message::decode(b"\"text\"").unwrap_err(),
        DecodeError::MissingField(Field::DstUuid)
    );
    assert_eq!(Message::decode(b"5").unwrap_err(), DecodeError::MissingField(Field::DstUuid));
    assert_eq!(
        Message::decode(b"null").unwrap_err(),
        DecodeError::MissingField(Field::DstUuid)
    );
    assert_eq!(Message::decode(b"{}").unwrap_err(), DecodeError::MissingField(Field::DstUuid));
}

#[test]
fn message_from_json_reports_each_missing_field() {
    assert_eq!(
        error_of(Message::from_json(document(None, Some(SRC), Some("x"), Some(TIME)))),
        DecodeError::MissingField(Field::DstUuid)
    );
    assert_eq!(
        error_of(Message::from_json(document(Some(DST), None, Some("x"), Some(TIME)))),
        DecodeError::MissingField(Field::SrcUuid)
    );
    assert_eq!(
        error_of(Message::from_json(document(Some(DST), Some(SRC), None, Some(TIME)))),
        DecodeError::MissingField(Field::Data)
    );
    assert_eq!(
        error_of(Message::from_json(document(Some(DST), Some(SRC), Some("x"), None))),
        DecodeError::MissingField(Field::CreationTime)
    );
}

#[test]
fn message_from_json_reports_each_invalid_field() {
    assert_eq!(
        error_of(Message::from_json(document(Some("nobody"), Some(SRC), Some("x"), Some(TIME)))),
        DecodeError::InvalidField(Field::DstUuid, Cause::NotAnIdentifier)
    );
    assert_eq!(
        error_of(Message::from_json(document(Some(DST), Some(""), Some("x"), Some(TIME)))),
        DecodeError::InvalidField(Field::SrcUuid, Cause::NotAnIdentifier)
    );
    assert_eq!(
        error_of(Message::from_json(document(Some(DST), Some(SRC), Some("x"), Some("0")))),
        DecodeError::InvalidField(Field::CreationTime, Cause::NotATimestamp)
    );
}

#[test]
fn message_from_json_reports_fields_that_are_no_strings() {
    let mut number = document(Some(DST), Some(SRC), None, Some(TIME));
    number["data"] = json::JsonValue::from(5);
    assert_eq!(
        error_of(Message::from_json(number)),
        DecodeError::InvalidField(Field::Data, Cause::NotText)
    );
    let mut null = document(None, Some(SRC), Some("x"), Some(TIME));
    null["dst_uuid"] = json::JsonValue::Null;
    assert_eq!(
        error_of(Message::from_json(null)),
        DecodeError::InvalidField(Field::DstUuid, Cause::NotText)
    );
    let mut flag = document(Some(DST), Some(SRC), Some("x"), None);
    flag["creation_time"] = json::JsonValue::from(true);
    assert_eq!(
        error_of(Message::from_json(flag)),
        DecodeError::InvalidField(Field::CreationTime, Cause::NotText)
    );
    let mut list = document(Some(DST), None, Some("x"), Some(TIME));
    list["src_uuid"] = json::JsonValue::new_array();
    assert_eq!(
        error_of(Message::from_json(list)),
        DecodeError::InvalidField(Field::SrcUuid, Cause::NotText)
    );
}

#[test]
fn message_from_json_reports_the_first_field_at_fault() {
    assert_eq!(
        error_of(Message::from_json(document(None, None, None, None))),
        DecodeError::MissingField(Field::DstUuid)
    );
    assert_eq!(
        error_of(Message::from_json(document(Some("bad"), None, None, Some("bad")))),
        DecodeError::InvalidField(Field::DstUuid, Cause::NotAnIdentifier)
    );
    assert_eq!(
        error_of(Message::from_json(document(Some(DST), Some("bad"), None, None))),
        DecodeError::InvalidField(Field::SrcUuid, Cause::NotAnIdentifier)
    );
    assert_eq!(
        error_of(Message::from_json(document(Some(DST), Some(SRC), None, Some("bad")))),
        DecodeError::MissingField(Field::Data)
    );
}

#[test]
fn message_assemble_makes_a_message_of_four_values() {
    let message = Message::assemble(
        FieldValue::Present(dst()),
        FieldValue::Present(src()),
        FieldValue::Present("hello".to_string()),
        FieldValue::Present(time()),
    )
    .unwrap();
    assert_eq!(message.dst_uuid, dst());
    assert_eq!(message.src_uuid, src());
    assert_eq!(message.data, "hello");
    assert_eq!(message.creation_time.text(), TIME);
}

#[test]
fn message_assemble_reports_the_first_value_at_fault() {
    assert_eq!(
        Message::assemble(
            FieldValue::Missing,
            FieldValue::Invalid(Cause::NotText),
            FieldValue::Present("x".to_string()),
            FieldValue::Present(time()),
        )
        .unwrap_err(),
        DecodeError::MissingField(Field::DstUuid)
    );
    assert_eq!(
        Message::assemble(
            FieldValue::Present(dst()),
            FieldValue::Invalid(Cause::NotAnIdentifier),
            FieldValue::Missing,
            FieldValue::Present(time()),
        )
        .unwrap_err(),
        DecodeError::InvalidField(Field::SrcUuid, Cause::NotAnIdentifier)
    );
    assert_eq!(
        Message::assemble(
            FieldValue::Present(dst()),
            FieldValue::Present(src()),
            FieldValue::Invalid(Cause::NotText),
            FieldValue::Missing,
        )
        .unwrap_err(),
        DecodeError::InvalidField(Field::Data, Cause::NotText)
    );
    assert_eq!(
        Message::assemble(
            FieldValue::Present(dst()),
            FieldValue::Present(src()),
            FieldValue::Present("x".to_string()),
            FieldValue::Invalid(Cause::NotATimestamp),
        )
        .unwrap_err(),
        DecodeError::InvalidField(Field::CreationTime, Cause::NotATimestamp)
    );
}

#[test]
fn message_clone_keeps_the_message() {
    let message = Message::new_with_timestamp(dst(), src(), "hello", time()).unwrap();
    let copy = message.clone();
    assert_eq!(copy.dst_uuid, dst());
    assert_eq!(copy.src_uuid, src());
    assert_eq!(copy.data, "hello");
    assert_eq!(copy.creation_time.text(), TIME);
}
