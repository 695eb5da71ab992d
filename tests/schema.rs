use ruma_event_content::compile::{expand_event_content, needs_redacted, HasDeserializeFields};
use ruma_event_content::kind::{ContentKind, EventKind, MarkerTrait};
use ruma_event_content::schema::{
    ContentDecl, EventMeta, EventSchema, FieldDecl, SchemaError,
};

fn field(name: &str, optional: bool, attrs: Vec<EventMeta>) -> FieldDecl {
    FieldDecl { name: name.to_string(), ty: "String".to_string(), optional, attrs }
}

fn decl(attrs: Vec<EventMeta>, fields: Vec<FieldDecl>) -> ContentDecl {
    ContentDecl { ident: "AliasesEventContent".to_string(), attrs, fields }
}

fn ty(s: &str) -> EventMeta {
    EventMeta::Type(s.to_string())
}

#[test]
fn kind_tokens() {
    assert_eq!(EventKind::from_token("Message"), Some(EventKind::Message));
    assert_eq!(EventKind::from_token("State"), Some(EventKind::State));
    assert_eq!(EventKind::from_token("EphemeralRoom"), Some(EventKind::EphemeralRoomData));
    assert_eq!(EventKind::from_token("GlobalAccountData"), Some(EventKind::GlobalAccountData));
    assert_eq!(EventKind::from_token("RoomAccountData"), Some(EventKind::RoomAccountData));
    assert_eq!(EventKind::from_token("ToDevice"), Some(EventKind::ToDevice));
    assert_eq!(EventKind::from_token("Redaction"), Some(EventKind::Redaction));
    assert_eq!(EventKind::from_token("Presence"), Some(EventKind::Presence));
    assert_eq!(EventKind::from_token("Decrypted"), Some(EventKind::Decrypted));
    assert_eq!(EventKind::from_token("message"), None);
    assert!(!EventKind::Presence.derivable());
    assert!(EventKind::ToDevice.derivable());
    assert!(EventKind::State.redactable());
    assert!(!EventKind::ToDevice.redactable());
    assert_eq!(EventKind::Decrypted.content_kind(false), None);
    assert_eq!(EventKind::State.content_kind(true), Some(ContentKind::State { redacted: true }));
    assert_eq!(EventKind::Redaction.marker(), None);
    assert_eq!(EventKind::State.redacted_marker(), Some(MarkerTrait::RedactedStateEventContent));
}

#[test]
fn meta_parse() {
    assert!(matches!(EventMeta::parse("type", Some("m.room.name")), EventMeta::Type(t) if t == "m.room.name"));
    assert!(matches!(EventMeta::parse("kind", Some("State")), EventMeta::Kind(EventKind::State)));
    assert!(matches!(EventMeta::parse("kind", Some("Bogus")), EventMeta::Unrecognized(t) if t == "Bogus"));
    assert!(matches!(EventMeta::parse("skip_redaction", None), EventMeta::SkipRedaction));
    assert!(matches!(EventMeta::parse("custom_redacted", None), EventMeta::CustomRedacted));
    assert!(matches!(EventMeta::parse("skip_redaction", Some("x")), EventMeta::Unrecognized(t) if t == "skip_redaction"));
    assert!(matches!(EventMeta::parse("other", None), EventMeta::Unrecognized(t) if t == "other"));
}

#[test]
fn missing_type_is_refused() {
    let r = expand_event_content(&decl(vec![EventMeta::Kind(EventKind::State)], vec![]));
    assert!(matches!(r, Err(SchemaError::MissingEventType)));
}

#[test]
fn multiple_types_are_refused() {
    let r = expand_event_content(&decl(vec![ty("a"), ty("b")], vec![]));
    assert!(matches!(r, Err(SchemaError::MultipleEventTypes)));
}

#[test]
fn multiple_kinds_are_refused() {
    let r = expand_event_content(&decl(
        vec![ty("a"), EventMeta::Kind(EventKind::State), EventMeta::Kind(EventKind::Message)],
        vec![],
    ));
    assert!(matches!(r, Err(SchemaError::MultipleEventKinds)));
}

#[test]
fn non_derivable_kinds_are_refused() {
    for k in [EventKind::Redaction, EventKind::Presence, EventKind::Decrypted] {
        let r = expand_event_content(&decl(
            vec![ty("m.room.redaction"), EventMeta::Kind(k)],
            vec![field("reason", true, vec![EventMeta::SkipRedaction])],
        ));
        assert!(matches!(r, Err(SchemaError::InvalidEventKind)));
    }
}

#[test]
fn unrecognized_tokens_are_refused() {
    let r = expand_event_content(&decl(
        vec![ty("a"), EventMeta::Unrecognized("bogus".to_string())],
        vec![],
    ));
    assert!(matches!(r, Err(SchemaError::UnrecognizedAttribute(t)) if t == "bogus"));
    // on a field that redaction never reads, too
    let r = expand_event_content(&decl(
        vec![ty("a"), EventMeta::Kind(EventKind::ToDevice)],
        vec![field("x", false, vec![EventMeta::Unrecognized("keep".to_string())])],
    ));
    assert!(matches!(r, Err(SchemaError::UnrecognizedAttribute(t)) if t == "keep"));
}

#[test]
fn duplicate_field_names_are_refused() {
    let r = expand_event_content(&decl(
        vec![ty("a")],
        vec![field("x", false, vec![]), field("x", true, vec![])],
    ));
    assert!(matches!(r, Err(SchemaError::DuplicateFieldName)));
}

#[test]
fn schema_is_read() {
    let d = decl(
        vec![ty("m.room.aliases"), EventMeta::Kind(EventKind::State), EventMeta::CustomRedacted],
        vec![field("aliases", false, vec![EventMeta::SkipRedaction]), field("note", true, vec![])],
    );
    let s = EventSchema::parse(&d).unwrap();
    assert_eq!(s.type_string, "m.room.aliases");
    assert_eq!(s.kind, Some(EventKind::State));
    assert!(s.custom_redacted);
    assert!(s.fields[0].kept_on_redact);
    assert!(!s.fields[1].kept_on_redact);
    assert!(s.fields[1].optional);
    assert!(!needs_redacted(&s));
}

#[test]
fn custom_redacted_yields_no_redacted_type() {
    let d = decl(
        vec![ty("m.room.aliases"), EventMeta::Kind(EventKind::State), EventMeta::CustomRedacted],
        vec![field("aliases", false, vec![EventMeta::SkipRedaction])],
    );
    let x = expand_event_content(&d).unwrap();
    assert!(x.redacted.is_none());
    assert_eq!(x.marker, Some(MarkerTrait::StateEventContent));
}

#[test]
fn no_kind_yields_only_serialization() {
    let x = expand_event_content(&decl(vec![ty("m.custom")], vec![field("a", false, vec![])])).unwrap();
    assert!(x.redacted.is_none());
    assert!(x.static_descriptor.is_none());
    assert!(x.marker.is_none());
    assert_eq!(x.content.event_type, "m.custom");
    assert_eq!(x.content.event_type(), "m.custom");
}

#[test]
fn state_with_kept_fields() {
    let d = decl(
        vec![ty("m.room.join_rules"), EventMeta::Kind(EventKind::State)],
        vec![
            field("note", true, vec![]),
            field("join_rule", false, vec![EventMeta::SkipRedaction]),
            field("extra", false, vec![]),
            field("allow", true, vec![EventMeta::SkipRedaction]),
        ],
    );
    let x = expand_event_content(&d).unwrap();
    let sd = x.static_descriptor.as_ref().unwrap();
    assert_eq!(sd.kind, ContentKind::State { redacted: false });
    assert_eq!(sd.event_type, "m.room.join_rules");
    let r = x.redacted.as_ref().unwrap();
    assert_eq!(r.content.ident, "RedactedAliasesEventContent");
    assert_eq!(r.content.event_type, "m.room.join_rules");
    assert_eq!(r.kept, vec![1, 3]);
    let names: Vec<&str> = r.content.fields.iter().map(|f| f.name.as_str()).collect();
    assert_eq!(names, vec!["join_rule", "allow"]);
    assert!(!r.content.fields[0].optional);
    assert!(r.content.fields[1].optional);
    assert_eq!(r.has_deserialize_fields, HasDeserializeFields::True);
    assert!(!r.has_constructor);
    assert_eq!(r.static_descriptor.kind, ContentKind::State { redacted: true });
    assert_eq!(r.marker, MarkerTrait::RedactedStateEventContent);
}
