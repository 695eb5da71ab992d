use ruma_event_content::compile::expand_event_content;
use ruma_event_content::content::{encode_object, find_member, Content, ContentError};
use ruma_event_content::kind::EventKind;
use ruma_event_content::schema::{ContentDecl, EventMeta, FieldDecl};

fn field(name: &str, optional: bool, keep: bool) -> FieldDecl {
    let attrs = if keep { vec![EventMeta::SkipRedaction] } else { vec![] };
    FieldDecl { name: name.to_string(), ty: "String".to_string(), optional, attrs }
}

fn topic_decl(kind: EventKind) -> ContentDecl {
    ContentDecl {
        ident: "TopicEventContent".to_string(),
        attrs: vec![EventMeta::Type("m.room.topic".to_string()), EventMeta::Kind(kind)],
        fields: vec![field("topic", false, true), field("lang", true, false), field("by", false, false)],
    }
}

fn some(s: &str) -> Option<String> {
    Some(s.to_string())
}

#[test]
fn from_parts_reads_fields() {
    let x = expand_event_content(&topic_decl(EventKind::State)).unwrap();
    let c = x.content.from_parts("m.room.topic", r#"{"topic":"hi","by":7,"other":true}"#).unwrap();
    assert_eq!(c.values, vec![some("\"hi\""), None, some("7")]);
}

#[test]
fn from_parts_round_trip() {
    let x = expand_event_content(&topic_decl(EventKind::Message)).unwrap();
    for values in [vec![some("\"hi\""), None, some("[1,2]")], vec![some("\"a\""), some("\"en\""), some("{\"k\":1}")]] {
        let c = Content { values };
        let text = x.content.to_json(&c);
        let back = x.content.from_parts(x.content.event_type(), &text).unwrap();
        assert_eq!(back.values, c.values);
        let members = x.content.to_members(&c);
        let back = x.content.from_members("m.room.topic", &members).unwrap();
        assert_eq!(back.values, c.values);
    }
}

#[test]
fn from_parts_type_mismatch() {
    let x = expand_event_content(&topic_decl(EventKind::State)).unwrap();
    match x.content.from_parts("m.wrong.type", "this is not json") {
        Err(ContentError::TypeMismatch { expected, found }) => {
            assert_eq!(expected, "m.room.topic");
            assert_eq!(found, "m.wrong.type");
        }
        other => panic!("unexpected {:?}", other),
    }
}

#[test]
fn from_parts_structural_errors() {
    let x = expand_event_content(&topic_decl(EventKind::State)).unwrap();
    assert!(matches!(x.content.from_parts("m.room.topic", "[]"), Err(ContentError::Json(_))));
    assert!(matches!(
        x.content.from_parts("m.room.topic", r#"{"topic":"t"}"#),
        Err(ContentError::MissingField(f)) if f == "by"
    ));
    assert!(matches!(
        x.content.from_parts("m.room.topic", r#"{"lang":"en"}"#),
        Err(ContentError::MissingField(f)) if f == "topic"
    ));
}

#[test]
fn to_json_exact() {
    let x = expand_event_content(&topic_decl(EventKind::State)).unwrap();
    let c = Content { values: vec![some("\"hi\""), None, some("3")] };
    assert_eq!(x.content.to_json(&c), r#"{"topic":"hi","by":3}"#);
}

#[test]
fn encode_object_quotes_keys() {
    let es = vec![("a\"b".to_string(), "1".to_string()), ("c".to_string(), "null".to_string())];
    assert_eq!(encode_object(&es), r#"{"a\"b":1,"c":null}"#);
    assert_eq!(encode_object(&vec![]), "{}");
}

#[test]
fn find_member_takes_first() {
    let es = vec![
        ("a".to_string(), "1".to_string()),
        ("b".to_string(), "2".to_string()),
        ("a".to_string(), "3".to_string()),
    ];
    assert_eq!(find_member(&es, "a"), some("1"));
    assert_eq!(find_member(&es, "b"), some("2"));
    assert_eq!(find_member(&es, "z"), None);
}

#[test]
fn redact_keeps_marked_fields() {
    let x = expand_event_content(&topic_decl(EventKind::State)).unwrap();
    let c = Content { values: vec![some("\"hi\""), some("\"en\""), some("5")] };
    let r = x.redact(c, "9");
    assert_eq!(r.values, vec![some("\"hi\"")]);
    let rd = x.redacted.as_ref().unwrap();
    assert_eq!(rd.content.fields.len(), 1);
    assert_eq!(rd.content.fields[0].name, "topic");
}

#[test]
fn redact_ignores_room_version() {
    let x = expand_event_content(&topic_decl(EventKind::Message)).unwrap();
    let c = Content { values: vec![some("\"hi\""), None, some("5")] };
    assert_eq!(x.redact(c.clone(), "1").values, x.redact(c, "11").values);
}

#[test]
fn empty_with_kept_fields_fails() {
    let x = expand_event_content(&topic_decl(EventKind::State)).unwrap();
    let rd = x.redacted.as_ref().unwrap();
    assert!(matches!(rd.empty("m.room.topic"), Err(ContentError::RedactedFieldsNotConstructible)));
    assert!(matches!(rd.empty("m.other"), Err(ContentError::TypeMismatch { .. })));
    let c = Content { values: vec![some("1")] };
    assert!(rd.has_serialize_fields(&c));
}

#[test]
fn empty_without_kept_fields_succeeds() {
    let d = ContentDecl {
        ident: "NoteEventContent".to_string(),
        attrs: vec![EventMeta::Type("m.note".to_string()), EventMeta::Kind(EventKind::Message)],
        fields: vec![field("body", false, false)],
    };
    let x = expand_event_content(&d).unwrap();
    let rd = x.redacted.as_ref().unwrap();
    let e = rd.empty("m.note").unwrap();
    assert!(e.values.is_empty());
    assert_eq!(rd.new().values, e.values);
    assert!(!rd.has_serialize_fields(&e));
    let r = x.redact(Content { values: vec![some("\"b\"")] }, "1");
    assert_eq!(r.values, e.values);
    assert!(matches!(rd.empty("m.other"), Err(ContentError::TypeMismatch { .. })));
}

#[test]
fn compiled_types_carry_declared_type() {
    let x = expand_event_content(&topic_decl(EventKind::Message)).unwrap();
    assert_eq!(x.content.event_type(), "m.room.topic");
    assert_eq!(x.redacted.as_ref().unwrap().content.event_type(), "m.room.topic");
    assert_eq!(x.redacted.as_ref().unwrap().static_descriptor.event_type, "m.room.topic");
}
