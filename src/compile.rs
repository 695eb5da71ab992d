use vstd::prelude::*;

use crate::kind::{ContentKind, MarkerTrait};
use crate::schema::{
    ContentDecl, EventSchema, SchemaError, SchemaField, decl_error, decl_valid, schema_of,
};

verus! {

/// A field of a compiled content type.
#[derive(Clone, Debug)]
pub struct ContentField {
    pub name: String,
    pub ty: String,
    pub optional: bool,
}

/// The serialization contract of a compiled content type: its name, its fixed wire type
/// string and its fields, in order.
#[derive(Clone, Debug)]
pub struct ContentType {
    pub ident: String,
    pub event_type: String,
    pub fields: Vec<ContentField>,
}

/// Whether a redacted type has fields to read from a payload.
#[derive(Clone, Copy, Debug, PartialEq, Eq, Structural)]
pub enum HasDeserializeFields {
    True,
    False,
}

/// The static descriptor used by dispatch tables.
#[derive(Clone, Debug)]
pub struct StaticDescriptor {
    pub kind: ContentKind,
    pub event_type: String,
}

/// The generated redacted counterpart of a message or state content type.
#[derive(Clone, Debug)]
pub struct RedactedContentType {
    pub content: ContentType,
    /// For each field of the redacted type, its position in the unredacted type.
    pub kept: Vec<usize>,
    pub has_deserialize_fields: HasDeserializeFields,
    /// Whether the redacted type gets a niladic `new`.
    pub has_constructor: bool,
    pub static_descriptor: StaticDescriptor,
    pub marker: MarkerTrait,
}

/// Everything compiled from one content declaration.
#[derive(Clone, Debug)]
pub struct ExpandedContent {
    pub schema: EventSchema,
    pub content: ContentType,
    pub redacted: Option<RedactedContentType>,
    pub static_descriptor: Option<StaticDescriptor>,
    pub marker: Option<MarkerTrait>,
}

/// The positions of the fields kept on redaction, in order.
pub open spec fn kept_positions(fs: Seq<SchemaField>) -> Seq<int>
    decreases fs.len(),
{
    if fs.len() == 0 {
        Seq::empty()
    } else {
        let r = kept_positions(fs.drop_last());
        if fs.last().kept_on_redact {
            r.push(fs.len() - 1)
        } else {
            r
        }
    }
}

/// The kept positions are, in increasing order, exactly the positions of the fields marked
/// to survive redaction.
pub proof fn lemma_kept_positions(fs: Seq<SchemaField>)
    ensures
        forall|j: int|
            0 <= j < kept_positions(fs).len() ==> 0 <= #[trigger] kept_positions(fs)[j] < fs.len()
                && fs[kept_positions(fs)[j]].kept_on_redact,
        forall|j: int, m: int|
            0 <= j < m < kept_positions(fs).len() ==> #[trigger] kept_positions(fs)[j]
                < #[trigger] kept_positions(fs)[m],
        forall|i: int|
            0 <= i < fs.len() && (#[trigger] fs[i]).kept_on_redact ==> kept_positions(
                fs,
            ).contains(i),
    decreases fs.len(),
{
    if fs.len() > 0 {
        let d = fs.drop_last();
        lemma_kept_positions(d);
        let r = kept_positions(d);
        assert forall|i: int| 0 <= i < fs.len() && (#[trigger] fs[i]).kept_on_redact implies kept_positions(
            fs,
        ).contains(i) by {
            if i < fs.len() - 1 {
                assert(d[i] == fs[i]);
                assert(r.contains(i));
                let j = choose|j: int| 0 <= j < r.len() && r[j] == i;
                assert(kept_positions(fs)[j] == i);
            } else {
                assert(kept_positions(fs)[r.len() as int] == i);
            }
        }
    }
}

/// Whether a schema gets a generated redacted counterpart.
pub open spec fn spec_needs_redacted(s: EventSchema) -> bool {
    !s.custom_redacted && s.kind is Some && s.kind.unwrap().is_redactable()
}

/// `c` is the serialization contract of the schema `s`, under the name `ident`, with the
/// schema fields at `positions`.
pub open spec fn content_type_of(
    s: EventSchema,
    ident: Seq<char>,
    positions: Seq<int>,
    c: ContentType,
) -> bool {
    &&& c.ident@ == ident
    &&& c.event_type@ == s.type_string@
    &&& c.fields@.len() == positions.len()
    &&& forall|j: int|
        0 <= j < positions.len() ==> {
            &&& (#[trigger] c.fields@[j]).name@ == s.fields@[positions[j]].name@
            &&& c.fields@[j].ty@ == s.fields@[positions[j]].ty@
            &&& c.fields@[j].optional == s.fields@[positions[j]].optional
        }
}

/// All positions of a schema's fields.
pub open spec fn all_positions(n: nat) -> Seq<int> {
    Seq::new(n, |i: int| i)
}

/// `r` is the redacted counterpart that the schema `s` gets.
pub open spec fn redacted_of(s: EventSchema, r: RedactedContentType) -> bool {
    let kept = kept_positions(s.fields@);
    let empty = kept.len() == 0;
    &&& content_type_of(s, "Redacted"@ + s.ident@, kept, r.content)
    &&& r.kept@.len() == kept.len()
    &&& forall|j: int| 0 <= j < kept.len() ==> #[trigger] r.kept@[j] as int == kept[j]
    &&& r.has_deserialize_fields == (if empty {
        HasDeserializeFields::False
    } else {
        HasDeserializeFields::True
    })
    &&& r.has_constructor == empty
    &&& r.static_descriptor.kind == s.kind.unwrap().spec_content_kind(true).unwrap()
    &&& r.static_descriptor.event_type@ == s.type_string@
    &&& r.marker == s.kind.unwrap().spec_redacted_marker().unwrap()
}

impl ExpandedContent {
    /// The artifacts are those that the schema they carry calls for.
    pub open spec fn wf(self) -> bool {
        let s = self.schema;
        &&& content_type_of(s, s.ident@, all_positions(s.fields@.len()), self.content)
        &&& (self.redacted is Some <==> spec_needs_redacted(s))
        &&& (self.redacted matches Some(r) ==> redacted_of(s, r))
        &&& match s.kind {
            None => self.static_descriptor is None && self.marker is None,
            Some(k) => {
                &&& self.static_descriptor matches Some(d) && d.kind
                    == k.spec_content_kind(false).unwrap() && d.event_type@ == s.type_string@
                &&& self.marker == k.spec_marker()
            },
        }
    }
}

/// Copies a string.
fn copy_string(s: &String) -> (r: String)
    ensures
        r@ == s@,
{
    s.clone()
}

/// Whether the schema gets a generated redacted counterpart: it is message or state content
/// and does not opt out.
pub fn needs_redacted(s: &EventSchema) -> (r: bool)
    ensures
        r == spec_needs_redacted(*s),
{
    !s.custom_redacted && match s.kind {
        Some(k) => k.redactable(),
        None => false,
    }
}

/// The serialization contract of the schema's own type.
pub fn generate_event_content_impl(s: &EventSchema) -> (r: ContentType)
    ensures
        content_type_of(*s, s.ident@, all_positions(s.fields@.len()), r),
{
    let mut fields: Vec<ContentField> = Vec::new();
    let mut i: usize = 0;
    while i < s.fields.len()
        invariant
            i <= s.fields@.len(),
            fields@.len() == i,
            forall|j: int|
                0 <= j < i ==> {
                    &&& (#[trigger] fields@[j]).name@ == s.fields@[j].name@
                    &&& fields@[j].ty@ == s.fields@[j].ty@
                    &&& fields@[j].optional == s.fields@[j].optional
                },
        decreases s.fields@.len() - i,
    {
        let f = &s.fields[i];
        fields.push(
            ContentField { name: copy_string(&f.name), ty: copy_string(&f.ty), optional: f.optional },
        );
        i = i + 1;
    }
    ContentType {
        ident: copy_string(&s.ident),
        event_type: copy_string(&s.type_string),
        fields,
    }
}

/// The redacted counterpart of a message or state schema: the kept fields, in order, under
/// the name `Redacted<Name>`.
pub fn generate_redacted_event_content(s: &EventSchema) -> (r: RedactedContentType)
    requires
        s.kind matches Some(k) && k.is_redactable(),
    ensures
        redacted_of(*s, r),
{
    let kind = s.kind.unwrap();
    let mut fields: Vec<ContentField> = Vec::new();
    let mut kept: Vec<usize> = Vec::new();
    let mut i: usize = 0;
    while i < s.fields.len()
        invariant
            i <= s.fields@.len(),
            kept_positions(s.fields@.subrange(0, i as int)).len() == kept@.len(),
            fields@.len() == kept@.len(),
            forall|j: int|
                0 <= j < kept@.len() ==> {
                    &&& #[trigger] kept@[j] as int == kept_positions(
                        s.fields@.subrange(0, i as int),
                    )[j]
                    &&& kept@[j] < s.fields@.len()
                    &&& fields@[j].name@ == s.fields@[kept@[j] as int].name@
                    &&& fields@[j].ty@ == s.fields@[kept@[j] as int].ty@
                    &&& fields@[j].optional == s.fields@[kept@[j] as int].optional
                },
        decreases s.fields@.len() - i,
    {
        assert(s.fields@.subrange(0, i as int + 1).drop_last() =~= s.fields@.subrange(
            0,
            i as int,
        ));
        let f = &s.fields[i];
        if f.kept_on_redact {
            fields.push(
                ContentField {
                    name: copy_string(&f.name),
                    ty: copy_string(&f.ty),
                    optional: f.optional,
                },
            );
            kept.push(i);
        }
        i = i + 1;
    }
    assert(s.fields@.subrange(0, s.fields@.len() as int) =~= s.fields@);
    let mut ident = String::from_str("Redacted");
    ident.append(s.ident.as_str());
    proof {
        reveal_strlit("Redacted");
    }
    let empty = kept.len() == 0;
    let content = ContentType { ident, event_type: copy_string(&s.type_string), fields };
    let static_kind = kind.content_kind(true).unwrap();
    let marker = kind.redacted_marker().unwrap();
    assert forall|j: int| 0 <= j < kept@.len() implies #[trigger] content.fields@[j].name@
        == s.fields@[kept_positions(s.fields@)[j]].name@ by {
        assert(kept@[j] as int == kept_positions(s.fields@)[j]);
    }
    assert forall|j: int| 0 <= j < kept@.len() implies #[trigger] content.fields@[j].ty@
        == s.fields@[kept_positions(s.fields@)[j]].ty@ && content.fields@[j].optional
        == s.fields@[kept_positions(s.fields@)[j]].optional by {
        assert(kept@[j] as int == kept_positions(s.fields@)[j]);
    }
    RedactedContentType {
        content,
        kept,
        has_deserialize_fields: if empty {
            HasDeserializeFields::False
        } else {
            HasDeserializeFields::True
        },
        has_constructor: empty,
        static_descriptor: StaticDescriptor {
            kind: static_kind,
            event_type: copy_string(&s.type_string),
        },
        marker,
    }
}

/// Compiles a validated schema into its artifacts.
pub fn compile(s: EventSchema) -> (r: ExpandedContent)
    requires
        s.kind matches Some(k) ==> k.is_derivable(),
    ensures
        r.wf(),
        r.schema == s,
{
    let redacted = if needs_redacted(&s) {
        Some(generate_redacted_event_content(&s))
    } else {
        None
    };
    let content = generate_event_content_impl(&s);
    let (static_descriptor, marker) = match s.kind {
        Some(k) => {
            let kind = k.content_kind(false).unwrap();
            (
                Some(StaticDescriptor { kind, event_type: copy_string(&s.type_string) }),
                k.marker(),
            )
        },
        None => (None, None),
    };
    ExpandedContent { schema: s, content, redacted, static_descriptor, marker }
}

/// Validates a content declaration and compiles it.
///
/// Fails exactly on the declarations that break a schema rule, with the first rule broken;
/// a declaration naming `Redaction`, `Presence` or `Decrypted` is always refused.
pub fn expand_event_content(d: &ContentDecl) -> (r: Result<ExpandedContent, SchemaError>)
    ensures
        r is Ok <==> decl_valid(*d),
        r matches Err(e) ==> decl_error(*d, e),
        r matches Ok(x) ==> x.wf() && schema_of(*d, x.schema),
{
    match EventSchema::parse(d) {
        Ok(s) => Ok(compile(s)),
        Err(e) => Err(e),
    }
}

} // verus!
