//! Content of the `m.key.verification.done` event, in its in-room and to-device forms.

use vstd::prelude::*;

use crate::content::{
    ContentError, decode_json_string, encode_object, find_member, json_object_members,
    json_string_literal, json_string_value, lookup, object_members, object_text,
    quote_json_string,
};
use crate::kind::{ContentKind, EventKind, MarkerTrait};
use crate::schema::{ContentDecl, EventMeta, FieldDecl};
use crate::text::str_eq;

verus! {

/// The wire type string of both forms of the event.
pub open spec fn done_type() -> Seq<char> {
    "m.key.verification.done"@
}

/// The relation naming the verification request an in-room event responds to.
#[derive(Clone, Debug)]
pub struct Relation {
    pub event_id: String,
}

/// The payload for a to-device `m.key.verification.done` event.
#[derive(Clone, Debug)]
pub struct DoneToDeviceEventContent {
    /// An opaque identifier for the verification process; the same as the one used for the
    /// `m.key.verification.start` message.
    pub transaction_id: String,
}

/// The payload for an in-room `m.key.verification.done` event.
#[derive(Clone, Debug)]
pub struct DoneEventContent {
    /// The verification request this event responds to.
    pub relates_to: Relation,
}

/// The payload for a redacted `DoneEventContent`: no field survives redaction.
#[derive(Clone, Copy, Debug, PartialEq, Eq, Structural)]
pub struct RedactedDoneEventContent {}

/// The JSON text of a relation.
pub open spec fn relation_text(event_id: Seq<char>) -> Seq<char> {
    object_text(
        seq![
            ("rel_type"@, json_string_literal("m.reference"@)),
            ("event_id"@, json_string_literal(event_id)),
        ],
    )
}

/// The event id that the JSON text of a relation holds: an object whose `rel_type` is
/// `m.reference` and whose `event_id` is a string.
pub open spec fn relation_event_id(text: Seq<char>) -> Option<Seq<char>> {
    match json_object_members(text) {
        None => None,
        Some(m) => match (lookup(m, "rel_type"@), lookup(m, "event_id"@)) {
            (Some(t), Some(e)) => if json_string_value(t) == Some("m.reference"@) {
                json_string_value(e)
            } else {
                None
            },
            _ => None,
        },
    }
}

/// The event id that a payload of `DoneEventContent` holds.
pub open spec fn done_event_id(raw: Seq<char>) -> Option<Seq<char>> {
    match json_object_members(raw) {
        None => None,
        Some(m) => match lookup(m, "m.relates_to"@) {
            None => None,
            Some(t) => relation_event_id(t),
        },
    }
}

/// Checks the wire type string of either form.
fn check_done_type(ev_type: &str) -> (r: Result<(), ContentError>)
    ensures
        r is Ok <==> ev_type@ == done_type(),
        r matches Err(e) ==> (e matches ContentError::TypeMismatch { expected, found }
            && expected@ == done_type() && found@ == ev_type@),
{
    if str_eq(ev_type, "m.key.verification.done") {
        Ok(())
    } else {
        Err(
            ContentError::TypeMismatch {
                expected: String::from_str("m.key.verification.done"),
                found: ev_type.to_owned(),
            },
        )
    }
}

impl Relation {
    /// The JSON text of the relation.
    pub fn to_json(&self) -> (r: String)
        ensures
            r@ == relation_text(self.event_id@),
    {
        let mut es: Vec<(String, String)> = Vec::new();
        es.push((String::from_str("rel_type"), quote_json_string("m.reference")));
        es.push((String::from_str("event_id"), quote_json_string(self.event_id.as_str())));
        let r = encode_object(&es);
        proof {
            assert(crate::content::entries_view(es@) =~= seq![
                ("rel_type"@, json_string_literal("m.reference"@)),
                ("event_id"@, json_string_literal(self.event_id@)),
            ]);
        }
        r
    }

    /// Reads a relation from its JSON text.
    pub fn from_json(text: &str) -> (r: Result<Relation, ContentError>)
        ensures
            r is Ok <==> relation_event_id(text@) is Some,
            r matches Ok(rel) ==> rel.event_id@ == relation_event_id(text@).unwrap(),
            r matches Err(e) ==> !(e is TypeMismatch),
    {
        let es = match object_members(text) {
            Ok(es) => es,
            Err(msg) => {
                return Err(ContentError::Json(msg));
            },
        };
        let rel_type = match find_member(&es, "rel_type") {
            Some(t) => t,
            None => {
                return Err(ContentError::MissingField(String::from_str("rel_type")));
            },
        };
        let event_id = match find_member(&es, "event_id") {
            Some(t) => t,
            None => {
                return Err(ContentError::MissingField(String::from_str("event_id")));
            },
        };
        let matches_reference = match decode_json_string(rel_type.as_str()) {
            Some(t) => str_eq(t.as_str(), "m.reference"),
            None => false,
        };
        if !matches_reference {
            return Err(ContentError::Json(String::from_str("unknown relation type")));
        }
        match decode_json_string(event_id.as_str()) {
            Some(id) => Ok(Relation { event_id: id }),
            None => Err(ContentError::Json(String::from_str("event_id is not a string"))),
        }
    }
}

impl DoneToDeviceEventContent {
    /// Creates a new `DoneToDeviceEventContent` with the given transaction ID.
    pub fn new(transaction_id: String) -> (r: Self)
        ensures
            r.transaction_id == transaction_id,
    {
        Self { transaction_id }
    }

    /// The wire type string, whatever the value.
    pub fn event_type(&self) -> (r: &'static str)
        ensures
            r@ == done_type(),
    {
        "m.key.verification.done"
    }

    /// The static descriptor's category.
    pub fn kind() -> (r: ContentKind)
        ensures
            r == ContentKind::ToDevice,
    {
        ContentKind::ToDevice
    }

    /// The category marker.
    pub fn marker() -> (r: MarkerTrait)
        ensures
            r == MarkerTrait::ToDeviceEventContent,
    {
        MarkerTrait::ToDeviceEventContent
    }

    /// The declaration this type is compiled from.
    pub fn decl() -> (r: ContentDecl)
        ensures
            r.ident@ == "DoneToDeviceEventContent"@,
            r.attrs@.len() == 2,
            r.attrs@[0] matches EventMeta::Type(t) && t@ == done_type(),
            r.attrs@[1] == EventMeta::Kind(EventKind::ToDevice),
            r.fields@.len() == 1,
            r.fields@[0].name@ == "transaction_id"@,
            !r.fields@[0].optional,
            r.fields@[0].attrs@.len() == 0,
    {
        let mut attrs: Vec<EventMeta> = Vec::new();
        attrs.push(EventMeta::Type(String::from_str("m.key.verification.done")));
        attrs.push(EventMeta::Kind(EventKind::ToDevice));
        let mut fields: Vec<FieldDecl> = Vec::new();
        fields.push(
            FieldDecl {
                name: String::from_str("transaction_id"),
                ty: String::from_str("String"),
                optional: false,
                attrs: Vec::new(),
            },
        );
        ContentDecl { ident: String::from_str("DoneToDeviceEventContent"), attrs, fields }
    }
}

impl DoneEventContent {
    /// Creates a new `DoneEventContent` with the given relation.
    pub fn new(relates_to: Relation) -> (r: Self)
        ensures
            r.relates_to == relates_to,
    {
        Self { relates_to }
    }

    /// The wire type string, whatever the value.
    pub fn event_type(&self) -> (r: &'static str)
        ensures
            r@ == done_type(),
    {
        "m.key.verification.done"
    }

    /// The static descriptor's category.
    pub fn kind() -> (r: ContentKind)
        ensures
            r == (ContentKind::Message { redacted: false }),
    {
        ContentKind::Message { redacted: false }
    }

    /// The category marker.
    pub fn marker() -> (r: MarkerTrait)
        ensures
            r == MarkerTrait::MessageEventContent,
    {
        MarkerTrait::MessageEventContent
    }

    /// The declaration this type is compiled from; its one field is not kept on redaction.
    pub fn decl() -> (r: ContentDecl)
        ensures
            r.ident@ == "DoneEventContent"@,
            r.attrs@.len() == 2,
            r.attrs@[0] matches EventMeta::Type(t) && t@ == done_type(),
            r.attrs@[1] == EventMeta::Kind(EventKind::Message),
            r.fields@.len() == 1,
            r.fields@[0].name@ == "relates_to"@,
            !r.fields@[0].optional,
            r.fields@[0].attrs@.len() == 0,
    {
        let mut attrs: Vec<EventMeta> = Vec::new();
        attrs.push(EventMeta::Type(String::from_str("m.key.verification.done")));
        attrs.push(EventMeta::Kind(EventKind::Message));
        let mut fields: Vec<FieldDecl> = Vec::new();
        fields.push(
            FieldDecl {
                name: String::from_str("relates_to"),
                ty: String::from_str("Relation"),
                optional: false,
                attrs: Vec::new(),
            },
        );
        ContentDecl { ident: String::from_str("DoneEventContent"), attrs, fields }
    }

    /// The JSON text of the content.
    pub fn to_json(&self) -> (r: String)
        ensures
            r@ == object_text(seq![("m.relates_to"@, relation_text(self.relates_to.event_id@))]),
    {
        let mut es: Vec<(String, String)> = Vec::new();
        es.push((String::from_str("m.relates_to"), self.relates_to.to_json()));
        let r = encode_object(&es);
        proof {
            assert(crate::content::entries_view(es@) =~= seq![
                ("m.relates_to"@, relation_text(self.relates_to.event_id@)),
            ]);
        }
        r
    }

    /// Reads the content from its wire type string and JSON payload; the type string is
    /// checked first, and a mismatch is reported without reading the payload.
    pub fn from_parts(ev_type: &str, raw: &str) -> (r: Result<Self, ContentError>)
        ensures
            ev_type@ != done_type() ==> (r matches Err(e) && e is TypeMismatch),
            ev_type@ == done_type() ==> {
                &&& r is Ok <==> done_event_id(raw@) is Some
                &&& r matches Ok(c) ==> c.relates_to.event_id@ == done_event_id(raw@).unwrap()
                &&& r matches Err(e) ==> !(e is TypeMismatch)
            },
    {
        match check_done_type(ev_type) {
            Ok(()) => {},
            Err(e) => {
                return Err(e);
            },
        }
        let es = match object_members(raw) {
            Ok(es) => es,
            Err(msg) => {
                return Err(ContentError::Json(msg));
            },
        };
        match find_member(&es, "m.relates_to") {
            Some(t) => match Relation::from_json(t.as_str()) {
                Ok(relates_to) => Ok(DoneEventContent { relates_to }),
                Err(e) => Err(e),
            },
            None => Err(ContentError::MissingField(String::from_str("m.relates_to"))),
        }
    }

    /// Redacts the content: no field survives. The room version does not change the result.
    pub fn redact(self, room_version: &str) -> (r: RedactedDoneEventContent)
        ensures
            r == RedactedDoneEventContent::new_spec(),
    {
        RedactedDoneEventContent {}
    }
}

impl RedactedDoneEventContent {
    pub open spec fn new_spec() -> RedactedDoneEventContent {
        RedactedDoneEventContent {}
    }

    /// Creates an empty `RedactedDoneEventContent`.
    pub fn new() -> (r: Self)
        ensures
            r == Self::new_spec(),
    {
        RedactedDoneEventContent {}
    }

    /// The wire type string, whatever the value.
    pub fn event_type(&self) -> (r: &'static str)
        ensures
            r@ == done_type(),
    {
        "m.key.verification.done"
    }

    /// The static descriptor's category.
    pub fn kind() -> (r: ContentKind)
        ensures
            r == (ContentKind::Message { redacted: true }),
    {
        ContentKind::Message { redacted: true }
    }

    /// The category marker.
    pub fn marker() -> (r: MarkerTrait)
        ensures
            r == MarkerTrait::RedactedMessageEventContent,
    {
        MarkerTrait::RedactedMessageEventContent
    }

    /// Builds the value from an empty payload: succeeds exactly when the type string matches.
    pub fn empty(ev_type: &str) -> (r: Result<Self, ContentError>)
        ensures
            ev_type@ == done_type() ==> r == Ok::<Self, ContentError>(Self::new_spec()),
            ev_type@ != done_type() ==> (r matches Err(e) && e is TypeMismatch),
    {
        match check_done_type(ev_type) {
            Ok(()) => Ok(RedactedDoneEventContent {}),
            Err(e) => Err(e),
        }
    }

    /// The value has no field to write.
    pub fn has_serialize_fields(&self) -> (r: bool)
        ensures
            !r,
    {
        false
    }

    /// The type has no field to read.
    pub fn has_deserialize_fields() -> (r: crate::compile::HasDeserializeFields)
        ensures
            r == crate::compile::HasDeserializeFields::False,
    {
        crate::compile::HasDeserializeFields::False
    }
}

} // verus!
