use chat_protocol::error::{DecodeError, EncodeError};
use chat_protocol::message::{ReqData, Request, ResData, Response};
use chat_protocol::tags::{Action, MsgStatus, MsgType, ReType, Status};
use chat_protocol::timestamp::Timestamp;

// 2024-01-01 00:00:00 UTC
const NEW_YEAR_2024: i64 = 1_704_067_200;

fn hello_request() -> Request {
    Request {
        m_type: ReType::Request,
        action: Action::SendMessage,
        data: ReqData {
            message_id: 12345,
            sender_id: 98765,
            sender_nickname: "Alice".to_string(),
            message_type: MsgType::Text,
            content: b"Hello, world!".to_vec(),
            receiver: "Bob".to_string(),
            timestamp: Timestamp { secs: NEW_YEAR_2024, nanos: 0 },
        },
    }
}

fn read_response() -> Response {
    Response {
        m_type: ReType::Response,
        status: Status::Success,
        data: ResData {
            message_id: 12345,
            message_status: MsgStatus::Read,
            timestamp: Timestamp { secs: NEW_YEAR_2024, nanos: 250_000_000 },
        },
    }
}

const HELLO_TEXT: &str = "{\"type\":\"Request\",\"action\":\"SendMessage\",\"data\":{\"message_id\":12345,\"sender_id\":98765,\"sender_nickname\":\"Alice\",\"message_type\":\"Text\",\"content\":\"SGVsbG8sIHdvcmxkIQ==\",\"receiver\":\"Bob\",\"timestamp\":\"2024-01-01 00:00:00 UTC\"}}";

const READ_TEXT: &str = "{\"type\":\"Response\",\"status\":\"Success\",\"data\":{\"message_id\":12345,\"message_status\":\"Read\",\"timestamp\":\"2024-01-01 00:00:00.250 UTC\"}}";

#[test]
fn test_request_serialization_and_deserialization() {
    let now = chrono::Utc::now();
    let request = Request {
        m_type: ReType::Request,
        action: Action::SendMessage,
        data: ReqData {
            message_id: 12345,
            sender_id: 98765,
            sender_nickname: "Alice".to_string(),
            message_type: MsgType::Text,
            content: b"Hello, world!".to_vec(),
            receiver: "Bob".to_string(),
            timestamp: Timestamp::new(now.timestamp(), now.timestamp_subsec_nanos()).unwrap(),
        },
    };

    let json_string = request.to_json().unwrap();

    let deserialized_request = Request::from_json(&json_string).unwrap();
    assert_eq!(deserialized_request, request);
    assert_eq!(deserialized_request.to_json().unwrap(), json_string);
}

#[test]
fn request_scenario_round_trips_field_by_field() {
    let request = hello_request();
    let text = request.to_json().unwrap();
    let back = Request::from_json(&text).unwrap();
    assert_eq!(back.m_type, ReType::Request);
    assert_eq!(back.action, Action::SendMessage);
    assert_eq!(back.data.message_id, 12345);
    assert_eq!(back.data.sender_id, 98765);
    assert_eq!(back.data.sender_nickname, "Alice");
    assert_eq!(back.data.message_type, MsgType::Text);
    assert_eq!(back.data.content, b"Hello, world!".to_vec());
    assert_eq!(String::from_utf8(back.data.content.clone()).unwrap(), "Hello, world!");
    assert_eq!(back.data.receiver, "Bob");
    assert_eq!(back.data.timestamp, Timestamp { secs: NEW_YEAR_2024, nanos: 0 });
    assert_eq!(back, request);
}

#[test]
fn request_text_is_the_documented_form() {
    assert_eq!(hello_request().to_json().unwrap(), HELLO_TEXT);
}

#[test]
fn request_is_read_from_the_documented_form() {
    assert_eq!(Request::from_json(HELLO_TEXT), Ok(hello_request()));
}

#[test]
fn response_text_is_the_documented_form() {
    assert_eq!(read_response().to_json().unwrap(), READ_TEXT);
}

#[test]
fn response_round_trips() {
    let response = read_response();
    let text = response.to_json().unwrap();
    assert_eq!(Response::from_json(&text), Ok(response));
    assert_eq!(Response::from_json(READ_TEXT), Ok(response));
}

#[test]
fn every_tag_combination_round_trips() {
    for action in [Action::Login, Action::SendMessage] {
        for message_type in [MsgType::Text, MsgType::Image, MsgType::File] {
            let mut request = hello_request();
            request.action = action;
            request.data.message_type = message_type;
            let text = request.to_json().unwrap();
            assert_eq!(Request::from_json(&text), Ok(request));
        }
    }
    for status in [Status::Success, Status::Error] {
        for state in [MsgStatus::Delivered, MsgStatus::Read, MsgStatus::Undelivered] {
            let mut response = read_response();
            response.status = status;
            response.data.message_status = state;
            let text = response.to_json().unwrap();
            assert_eq!(Response::from_json(&text), Ok(response));
        }
    }
}

#[test]
fn content_bytes_are_kept_exactly() {
    let mut request = hello_request();
    request.data.content = vec![0x00, 0xFF, 0x10];
    let text = request.to_json().unwrap();
    assert!(text.contains("\"content\":\"AP8Q\""));
    let back = Request::from_json(&text).unwrap();
    assert_eq!(back.data.content, vec![0x00, 0xFF, 0x10]);
}

#[test]
fn every_byte_value_round_trips() {
    let mut request = hello_request();
    request.data.content = (0..=255u8).collect();
    let text = request.to_json().unwrap();
    assert_eq!(Request::from_json(&text).unwrap().data.content, request.data.content);
    for len in 0..7usize {
        request.data.content = vec![0xA5; len];
        let text = request.to_json().unwrap();
        assert_eq!(Request::from_json(&text), Ok(request.clone()));
    }
}

#[test]
fn empty_content_is_the_empty_string() {
    let mut request = hello_request();
    request.data.content = Vec::new();
    let text = request.to_json().unwrap();
    assert!(text.contains("\"content\":\"\""));
    assert_eq!(Request::from_json(&text), Ok(request));
}

#[test]
fn content_is_read_with_or_without_padding() {
    let padded = HELLO_TEXT;
    let unpadded = HELLO_TEXT.replace("SGVsbG8sIHdvcmxkIQ==", "SGVsbG8sIHdvcmxkIQ");
    assert_eq!(Request::from_json(padded), Ok(hello_request()));
    assert_eq!(Request::from_json(&unpadded), Ok(hello_request()));
}

#[test]
fn strings_with_quotes_and_other_scripts_round_trip() {
    let mut request = hello_request();
    request.data.sender_nickname = "Al\"ice\\ \n\t\u{1}\u{7f}".to_string();
    request.data.receiver = "Боб 鲍勃 \u{1F600}".to_string();
    let text = request.to_json().unwrap();
    assert_eq!(Request::from_json(&text), Ok(request));
}

#[test]
fn empty_nickname_is_not_refused() {
    let mut request = hello_request();
    request.data.sender_nickname = String::new();
    let text = request.to_json().unwrap();
    assert_eq!(Request::from_json(&text), Ok(request));
}

#[test]
fn largest_identifiers_round_trip() {
    let mut request = hello_request();
    request.data.message_id = u64::MAX;
    request.data.sender_id = 0;
    let text = request.to_json().unwrap();
    assert!(text.contains("\"message_id\":18446744073709551615"));
    assert_eq!(Request::from_json(&text), Ok(request));
}

#[test]
fn unrecognized_kind_is_rejected() {
    let text = HELLO_TEXT.replace("\"type\":\"Request\"", "\"type\":\"Notice\"");
    assert_eq!(Request::from_json(&text), Err(DecodeError::UnknownTag));
    let text = READ_TEXT.replace("\"type\":\"Response\"", "\"type\":\"Notice\"");
    assert_eq!(Response::from_json(&text), Err(DecodeError::UnknownTag));
}

#[test]
fn video_message_type_is_rejected() {
    let text = HELLO_TEXT.replace("\"message_type\":\"Text\"", "\"message_type\":\"Video\"");
    assert_eq!(Request::from_json(&text), Err(DecodeError::UnknownTag));
}

#[test]
fn tags_outside_the_other_closed_sets_are_rejected() {
    let text = HELLO_TEXT.replace("\"action\":\"SendMessage\"", "\"action\":\"Logout\"");
    assert_eq!(Request::from_json(&text), Err(DecodeError::UnknownTag));
    let text = READ_TEXT.replace("\"status\":\"Success\"", "\"status\":\"success\"");
    assert_eq!(Response::from_json(&text), Err(DecodeError::UnknownTag));
    let text = READ_TEXT.replace("\"message_status\":\"Read\"", "\"message_status\":\"Seen\"");
    assert_eq!(Response::from_json(&text), Err(DecodeError::UnknownTag));
}

#[test]
fn the_other_kind_is_a_mismatch() {
    assert_eq!(Request::from_json(READ_TEXT), Err(DecodeError::KindMismatch));
    assert_eq!(Response::from_json(HELLO_TEXT), Err(DecodeError::KindMismatch));
}

#[test]
fn malformed_text_is_a_syntax_error() {
    assert_eq!(Request::from_json(""), Err(DecodeError::Syntax));
    assert_eq!(Request::from_json("{\"type\":\"Request\""), Err(DecodeError::Syntax));
    assert_eq!(Response::from_json("not json"), Err(DecodeError::Syntax));
    let trailing = format!("{} x", HELLO_TEXT);
    assert_eq!(Request::from_json(&trailing), Err(DecodeError::Syntax));
}

#[test]
fn missing_fields_are_reported() {
    assert_eq!(Request::from_json("{}"), Err(DecodeError::MissingField));
    assert_eq!(Request::from_json("[]"), Err(DecodeError::MissingField));
    assert_eq!(Request::from_json("null"), Err(DecodeError::MissingField));
    assert_eq!(
        Request::from_json("{\"type\":\"Request\",\"action\":\"Login\"}"),
        Err(DecodeError::MissingField)
    );
    let text = HELLO_TEXT.replace("\"receiver\":\"Bob\",", "");
    assert_eq!(Request::from_json(&text), Err(DecodeError::MissingField));
    let text = READ_TEXT.replace("\"message_id\":12345,", "");
    assert_eq!(Response::from_json(&text), Err(DecodeError::MissingField));
    let text = READ_TEXT.replace("{\"message_id\":12345,\"message_status\":\"Read\",\"timestamp\":\"2024-01-01 00:00:00.250 UTC\"}", "7");
    assert_eq!(Response::from_json(&text), Err(DecodeError::MissingField));
}

#[test]
fn fields_of_the_wrong_type_are_reported() {
    let text = HELLO_TEXT.replace("\"type\":\"Request\"", "\"type\":1");
    assert_eq!(Request::from_json(&text), Err(DecodeError::WrongType));
    let text = HELLO_TEXT.replace("\"message_id\":12345", "\"message_id\":\"12345\"");
    assert_eq!(Request::from_json(&text), Err(DecodeError::WrongType));
    let text = HELLO_TEXT.replace("\"message_id\":12345", "\"message_id\":-1");
    assert_eq!(Request::from_json(&text), Err(DecodeError::WrongType));
    let text = HELLO_TEXT.replace("\"sender_id\":98765", "\"sender_id\":98765.0");
    assert_eq!(Request::from_json(&text), Err(DecodeError::WrongType));
    let text = HELLO_TEXT.replace("\"sender_id\":98765", "\"sender_id\":18446744073709551616");
    assert_eq!(Request::from_json(&text), Err(DecodeError::WrongType));
    let text = HELLO_TEXT.replace("\"receiver\":\"Bob\"", "\"receiver\":null");
    assert_eq!(Request::from_json(&text), Err(DecodeError::WrongType));
    let text = READ_TEXT.replace("\"message_status\":\"Read\"", "\"message_status\":true");
    assert_eq!(Response::from_json(&text), Err(DecodeError::WrongType));
}

#[test]
fn content_that_is_not_base64_is_rejected() {
    let text = HELLO_TEXT.replace("SGVsbG8sIHdvcmxkIQ==", "SGVsbG8s*HdvcmxkIQ==");
    assert_eq!(Request::from_json(&text), Err(DecodeError::BadContent));
    let text = HELLO_TEXT.replace("SGVsbG8sIHdvcmxkIQ==", "SGVsb");
    assert_eq!(Request::from_json(&text), Err(DecodeError::BadContent));
    let text = HELLO_TEXT.replace("SGVsbG8sIHdvcmxkIQ==", "SGVsbG8sIHdvcmxkIR==");
    assert_eq!(Request::from_json(&text), Err(DecodeError::BadContent));
}

#[test]
fn timestamp_that_is_not_an_instant_is_rejected() {
    let text = HELLO_TEXT.replace("2024-01-01 00:00:00 UTC", "yesterday");
    assert_eq!(Request::from_json(&text), Err(DecodeError::BadTimestamp));
    let text = HELLO_TEXT.replace("2024-01-01 00:00:00 UTC", "2024-02-30 00:00:00 UTC");
    assert_eq!(Request::from_json(&text), Err(DecodeError::BadTimestamp));
    let text = READ_TEXT.replace("2024-01-01 00:00:00.250 UTC", "2024-01-01 00:00:00.250");
    assert_eq!(Response::from_json(&text), Err(DecodeError::BadTimestamp));
    let text = READ_TEXT.replace("2024-01-01 00:00:00.250 UTC", "");
    assert_eq!(Response::from_json(&text), Err(DecodeError::BadTimestamp));
}

#[test]
fn the_first_unreadable_field_decides_the_error() {
    // both the content and the timestamp are bad: the content comes first
    let text = HELLO_TEXT
        .replace("SGVsbG8sIHdvcmxkIQ==", "!")
        .replace("2024-01-01 00:00:00 UTC", "yesterday");
    assert_eq!(Request::from_json(&text), Err(DecodeError::BadContent));
    // a missing receiver is found before the content is looked at
    let text = HELLO_TEXT
        .replace("SGVsbG8sIHdvcmxkIQ==", "!")
        .replace("\"receiver\":\"Bob\",", "");
    assert_eq!(Request::from_json(&text), Err(DecodeError::MissingField));
    // an unknown kind is found before the unknown action
    let text = HELLO_TEXT
        .replace("\"type\":\"Request\"", "\"type\":7")
        .replace("\"action\":\"SendMessage\"", "\"action\":\"Logout\"");
    assert_eq!(Request::from_json(&text), Err(DecodeError::WrongType));
}

#[test]
fn members_under_other_keys_and_field_order_do_not_matter() {
    let text = "  {\"data\" : {\"timestamp\":\"2024-01-01T00:00:00.25Z\", \"extra\":[1.5, -2, {\"deep\":null}], \"message_status\":\"Read\", \"message_id\":12345}, \"status\":\"Success\", \"note\":\"x\", \"type\":\"Response\"}\n";
    assert_eq!(Response::from_json(text), Ok(read_response()));
}

#[test]
fn timestamps_in_other_spellings_are_read_as_the_same_instant() {
    let text = HELLO_TEXT.replace("2024-01-01 00:00:00 UTC", "2024-01-01T01:00:00+01:00");
    assert_eq!(Request::from_json(&text), Ok(hello_request()));
}

#[test]
fn a_request_with_the_wrong_tag_is_not_written() {
    let mut request = hello_request();
    request.m_type = ReType::Response;
    assert!(!request.is_wf());
    assert_eq!(request.to_json(), Err(EncodeError::KindMismatch));
    assert_eq!(request.to_wire(), Err(EncodeError::KindMismatch));
    let mut response = read_response();
    response.m_type = ReType::Request;
    assert!(!response.is_wf());
    assert_eq!(response.to_json(), Err(EncodeError::KindMismatch));
    // the tag is looked at before the timestamp
    response.data.timestamp = Timestamp { secs: 0, nanos: 2_000_000_000 };
    assert_eq!(response.to_json(), Err(EncodeError::KindMismatch));
}

#[test]
fn a_message_with_an_invalid_timestamp_is_not_written() {
    let mut request = hello_request();
    request.data.timestamp = Timestamp { secs: i64::MAX, nanos: 0 };
    assert!(!request.is_wf());
    assert_eq!(request.to_json(), Err(EncodeError::TimestampOutOfRange));
    let mut response = read_response();
    response.data.timestamp = Timestamp { secs: 0, nanos: 1_000_000_000 };
    assert!(!response.is_wf());
    assert_eq!(response.to_json(), Err(EncodeError::TimestampOutOfRange));
    assert_eq!(response.to_wire(), Err(EncodeError::TimestampOutOfRange));
}

#[test]
fn well_formed_messages_say_so() {
    assert!(hello_request().is_wf());
    assert!(read_response().is_wf());
}

#[test]
fn what_is_read_is_well_formed() {
    assert!(Request::from_json(HELLO_TEXT).unwrap().is_wf());
    assert!(Response::from_json(READ_TEXT).unwrap().is_wf());
}
