use campaign_consumer::clock::Timestamp;
use campaign_consumer::json::{read_integer, read_string};
use campaign_consumer::message::{Field, Message, Payload, ValidationError};
use serde_json::Value;

fn json(text: &str) -> Value {
    serde_json::from_str(text).expect("the test's own JSON is valid")
}

fn full_payload() -> Payload {
    Payload {
        identifier: Some("msg-1".to_string()),
        message: Some("hello".to_string()),
        phone_number: Some("+5511999990000".to_string()),
        campaign_id: Some("camp-1".to_string()),
        total: Some(3),
    }
}

#[test]
fn build_accepts_a_complete_payload() {
    let data = json(
        r#"{"identifier":"msg-1","message":"hello","phoneNumber":"+5511999990000","campaignId":"camp-1","total":3}"#,
    );
    let message = Message::build(data).expect("all four members are present");
    assert_eq!(message.identifier, "msg-1");
    assert_eq!(message.message, "hello");
    assert_eq!(message.phone_number, "+5511999990000");
    assert_eq!(message.campaign_id, "camp-1");
    assert!(!message.deleted);
    assert_eq!(message.updated_at, message.created_at);
}

#[test]
fn build_stamps_the_message_with_the_current_time() {
    let before = chrono::Utc::now().timestamp();
    let data = json(r#"{"identifier":"a","message":"b","phoneNumber":"c","campaignId":"d"}"#);
    let message = Message::build(data).unwrap();
    let after = chrono::Utc::now().timestamp();
    assert!(before <= message.created_at.seconds);
    assert!(message.created_at.seconds <= after);
    assert!(message.created_at.nanos < 2_000_000_000);
    assert!(message.created_at.seconds > 1_600_000_000);
}

#[test]
fn build_names_the_missing_identifier() {
    let data = json(r#"{"message":"b","phoneNumber":"c","campaignId":"d"}"#);
    assert_eq!(Message::build(data), Err(ValidationError::Missing(Field::Identifier)));
}

#[test]
fn build_names_the_missing_message() {
    let data = json(r#"{"identifier":"a","phoneNumber":"c","campaignId":"d"}"#);
    assert_eq!(Message::build(data), Err(ValidationError::Missing(Field::Message)));
}

#[test]
fn build_names_the_missing_phone_number() {
    let data = json(r#"{"identifier":"a","message":"b","campaignId":"d"}"#);
    assert_eq!(Message::build(data), Err(ValidationError::Missing(Field::PhoneNumber)));
}

#[test]
fn build_names_the_missing_campaign() {
    let data = json(r#"{"identifier":"a","message":"b","phoneNumber":"c"}"#);
    assert_eq!(Message::build(data), Err(ValidationError::Missing(Field::CampaignId)));
}

#[test]
fn build_names_the_first_of_several_missing_members() {
    let data = json(r#"{"identifier":"a"}"#);
    assert_eq!(Message::build(data), Err(ValidationError::Missing(Field::Message)));
    assert_eq!(Message::build(json("{}")), Err(ValidationError::Missing(Field::Identifier)));
}

#[test]
fn build_takes_a_member_of_the_wrong_kind_as_missing() {
    let data = json(r#"{"identifier":7,"message":"b","phoneNumber":"c","campaignId":"d"}"#);
    assert_eq!(Message::build(data), Err(ValidationError::Missing(Field::Identifier)));
    let data = json(r#"{"identifier":"a","message":"b","phoneNumber":null,"campaignId":"d"}"#);
    assert_eq!(Message::build(data), Err(ValidationError::Missing(Field::PhoneNumber)));
}

#[test]
fn build_rejects_a_value_that_is_no_object() {
    assert_eq!(Message::build(json("[1,2]")), Err(ValidationError::Missing(Field::Identifier)));
    assert_eq!(Message::build(json("\"text\"")), Err(ValidationError::Missing(Field::Identifier)));
    assert_eq!(Message::build(Value::Null), Err(ValidationError::Missing(Field::Identifier)));
}

#[test]
fn build_rejects_an_empty_message_text() {
    let data = json(r#"{"identifier":"a","message":"","phoneNumber":"c","campaignId":"d"}"#);
    assert_eq!(Message::build(data), Err(ValidationError::Empty(Field::Message)));
}

#[test]
fn build_accepts_empty_text_in_the_other_members() {
    let data = json(r#"{"identifier":"","message":"b","phoneNumber":"","campaignId":""}"#);
    let message = Message::build(data).unwrap();
    assert_eq!(message.identifier, "");
    assert_eq!(message.phone_number, "");
    assert_eq!(message.campaign_id, "");
}

#[test]
fn from_payload_makes_the_record_exactly() {
    let now = Timestamp { seconds: 1_700_000_000, nanos: 123_456_789 };
    let message = Message::from_payload(full_payload(), now).unwrap();
    assert_eq!(
        message,
        Message {
            identifier: "msg-1".to_string(),
            message: "hello".to_string(),
            phone_number: "+5511999990000".to_string(),
            campaign_id: "camp-1".to_string(),
            created_at: now,
            updated_at: now,
            deleted: false,
        }
    );
}

#[test]
fn from_payload_reports_each_defect_in_order() {
    let now = Timestamp { seconds: 0, nanos: 0 };
    let mut payload = full_payload();
    payload.campaign_id = None;
    assert_eq!(
        Message::from_payload(payload.clone(), now),
        Err(ValidationError::Missing(Field::CampaignId))
    );
    payload.phone_number = None;
    assert_eq!(
        Message::from_payload(payload.clone(), now),
        Err(ValidationError::Missing(Field::PhoneNumber))
    );
    payload.message = Some(String::new());
    assert_eq!(
        Message::from_payload(payload.clone(), now),
        Err(ValidationError::Empty(Field::Message))
    );
    payload.message = None;
    assert_eq!(
        Message::from_payload(payload.clone(), now),
        Err(ValidationError::Missing(Field::Message))
    );
    payload.identifier = None;
    assert_eq!(
        Message::from_payload(payload, now),
        Err(ValidationError::Missing(Field::Identifier))
    );
}

#[test]
fn payload_read_takes_the_five_members() {
    let data = json(
        r#"{"identifier":"msg-1","message":"hello","phoneNumber":"+5511999990000","campaignId":"camp-1","total":3,"extra":true}"#,
    );
    assert_eq!(Payload::read(&data), full_payload());
}

#[test]
fn payload_read_marks_absent_members() {
    let data = json(r#"{"identifier":"msg-1","total":"3"}"#);
    assert_eq!(
        Payload::read(&data),
        Payload {
            identifier: Some("msg-1".to_string()),
            message: None,
            phone_number: None,
            campaign_id: None,
            total: None,
        }
    );
}

#[test]
fn read_string_and_read_integer_tell_kinds_apart() {
    let data = json(r#"{"s":"text","i":-12,"f":1.5,"big":18446744073709551615,"o":{"s":"in"}}"#);
    assert_eq!(read_string(&data, "s"), Some("text".to_string()));
    assert_eq!(read_string(&data, "i"), None);
    assert_eq!(read_string(&data, "absent"), None);
    assert_eq!(read_integer(&data, "i"), Some(-12));
    assert_eq!(read_integer(&data, "f"), None);
    assert_eq!(read_integer(&data, "big"), None);
    assert_eq!(read_integer(&data, "s"), None);
    assert_eq!(read_integer(&data, "absent"), None);
}

#[test]
fn validation_messages_name_the_member() {
    assert_eq!(
        ValidationError::Missing(Field::Identifier).message(),
        "Missing 'identifier' field"
    );
    assert_eq!(ValidationError::Missing(Field::Message).message(), "Missing 'message' field");
    assert_eq!(
        ValidationError::Missing(Field::PhoneNumber).message(),
        "Missing 'phone_number' field"
    );
    assert_eq!(
        ValidationError::Missing(Field::CampaignId).message(),
        "Missing 'campaign_id' field"
    );
    assert_eq!(ValidationError::Missing(Field::Data).message(), "Missing 'data' field");
    assert_eq!(ValidationError::Empty(Field::Message).message(), "Empty 'message' field");
    assert_eq!(ValidationError::Malformed.message(), "Malformed payload");
}

#[test]
fn field_keys_are_the_wire_names() {
    assert_eq!(Field::Data.key(), "data");
    assert_eq!(Field::Identifier.key(), "identifier");
    assert_eq!(Field::Message.key(), "message");
    assert_eq!(Field::PhoneNumber.key(), "phoneNumber");
    assert_eq!(Field::CampaignId.key(), "campaignId");
    assert_eq!(Field::PhoneNumber.label(), "phone_number");
    assert_eq!(Field::CampaignId.label(), "campaign_id");
}

#[test]
fn a_cloned_message_equals_its_source() {
    let now = Timestamp { seconds: 10, nanos: 20 };
    let message = Message::from_payload(full_payload(), now).unwrap();
    assert_eq!(message.clone(), message);
}
