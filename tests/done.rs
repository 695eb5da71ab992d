use ruma_event_content::compile::{expand_event_content, HasDeserializeFields};
use ruma_event_content::content::ContentError;
use ruma_event_content::done::{
    DoneEventContent, DoneToDeviceEventContent, RedactedDoneEventContent, Relation,
};
use ruma_event_content::kind::{ContentKind, MarkerTrait};

fn parse(text: &str) -> serde_json::Value {
    serde_json::from_str(text).unwrap()
}

#[test]
fn serialization() {
    let event_id = "$1598361704261elfgc:localhost".to_string();

    let json_data = parse(
        r#"{"m.relates_to": {"rel_type": "m.reference", "event_id": "$1598361704261elfgc:localhost"}}"#,
    );

    let content = DoneEventContent { relates_to: Relation { event_id } };

    assert_eq!(parse(&content.to_json()), json_data);
}

#[test]
fn deserialization() {
    let id = "$1598361704261elfgc:localhost";

    let json_data = r#"{"m.relates_to": {"rel_type": "m.reference", "event_id": "$1598361704261elfgc:localhost"}}"#;

    let content = DoneEventContent::from_parts("m.key.verification.done", json_data).unwrap();
    assert!(matches!(
        content,
        DoneEventContent { relates_to: Relation { event_id } } if event_id == id
    ));
}

#[test]
fn done_to_json_is_exact() {
    let content = DoneEventContent::new(Relation { event_id: "$a:b".to_string() });
    assert_eq!(
        content.to_json(),
        r#"{"m.relates_to":{"rel_type":"m.reference","event_id":"$a:b"}}"#
    );
}

#[test]
fn done_to_json_escapes_strings() {
    let content = DoneEventContent::new(Relation { event_id: "a\"b".to_string() });
    assert_eq!(
        content.to_json(),
        r#"{"m.relates_to":{"rel_type":"m.reference","event_id":"a\"b"}}"#
    );
}

#[test]
fn done_round_trip() {
    let content = DoneEventContent::new(Relation { event_id: "$x:y".to_string() });
    let back = DoneEventContent::from_parts(content.event_type(), &content.to_json()).unwrap();
    assert_eq!(back.relates_to.event_id, "$x:y");
}

#[test]
fn done_from_parts_wrong_type() {
    let r = DoneEventContent::from_parts("m.wrong.type", "not json at all");
    match r {
        Err(ContentError::TypeMismatch { expected, found }) => {
            assert_eq!(expected, "m.key.verification.done");
            assert_eq!(found, "m.wrong.type");
        }
        other => panic!("unexpected {:?}", other),
    }
}

#[test]
fn done_from_parts_bad_payloads() {
    let t = "m.key.verification.done";
    assert!(matches!(DoneEventContent::from_parts(t, "[1]"), Err(ContentError::Json(_))));
    assert!(matches!(DoneEventContent::from_parts(t, "{}"), Err(ContentError::MissingField(f)) if f == "m.relates_to"));
    assert!(DoneEventContent::from_parts(t, r#"{"m.relates_to":{"rel_type":"m.other","event_id":"$e"}}"#).is_err());
    assert!(DoneEventContent::from_parts(t, r#"{"m.relates_to":{"rel_type":"m.reference"}}"#).is_err());
}

#[test]
fn done_scenario() {
    let x = expand_event_content(&DoneEventContent::decl()).unwrap();
    let redacted = x.redacted.as_ref().unwrap();
    assert_eq!(redacted.content.fields.len(), 0);
    assert_eq!(redacted.content.ident, "RedactedDoneEventContent");
    assert_eq!(redacted.has_deserialize_fields, HasDeserializeFields::False);
    assert!(redacted.has_constructor);

    let content = DoneEventContent::new(Relation { event_id: "$e:h".to_string() });
    let r = content.redact("1");
    assert_eq!(r, RedactedDoneEventContent::new());
    assert_eq!(RedactedDoneEventContent::empty("m.key.verification.done").unwrap(), r);
    assert!(matches!(
        RedactedDoneEventContent::empty("m.other.type"),
        Err(ContentError::TypeMismatch { .. })
    ));
}

#[test]
fn done_descriptors() {
    assert_eq!(DoneEventContent::kind(), ContentKind::Message { redacted: false });
    assert_eq!(RedactedDoneEventContent::kind(), ContentKind::Message { redacted: true });
    assert_eq!(DoneToDeviceEventContent::kind(), ContentKind::ToDevice);
    assert_eq!(DoneEventContent::marker(), MarkerTrait::MessageEventContent);
    assert_eq!(RedactedDoneEventContent::marker(), MarkerTrait::RedactedMessageEventContent);
    assert_eq!(DoneToDeviceEventContent::marker(), MarkerTrait::ToDeviceEventContent);
    let r = RedactedDoneEventContent::new();
    assert!(!r.has_serialize_fields());
    assert_eq!(RedactedDoneEventContent::has_deserialize_fields(), HasDeserializeFields::False);
    assert_eq!(r.event_type(), "m.key.verification.done");
}

#[test]
fn done_to_device() {
    let c = DoneToDeviceEventContent::new("tx1".to_string());
    assert_eq!(c.transaction_id, "tx1");
    assert_eq!(c.event_type(), "m.key.verification.done");
    let x = expand_event_content(&DoneToDeviceEventContent::decl()).unwrap();
    assert!(x.redacted.is_none());
    assert_eq!(x.marker, Some(MarkerTrait::ToDeviceEventContent));
    assert_eq!(x.static_descriptor.unwrap().kind, ContentKind::ToDevice);
}

#[test]
fn relation_round_trip() {
    let rel = Relation { event_id: "$q".to_string() };
    let back = Relation::from_json(&rel.to_json()).unwrap();
    assert_eq!(back.event_id, "$q");
}
