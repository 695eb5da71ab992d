use vstd::prelude::*;

use crate::kind::EventKind;
use crate::text::str_eq;

verus! {

/// One item of an event content type's declarative metadata, as written by its author
/// (`type = "m.room.alias"`, `kind = State`, `skip_redaction`, `custom_redacted`).
#[derive(Clone, Debug)]
pub enum EventMeta {
    /// The wire value of the event's `type` field.
    Type(String),
    /// The category of the content.
    Kind(EventKind),
    /// On a field: the field is kept when the event is redacted.
    SkipRedaction,
    /// The redacted form is written by hand and must not be generated.
    CustomRedacted,
    /// A token outside the vocabulary, kept to be reported.
    Unrecognized(String),
}

/// One named field of a content type.
#[derive(Clone, Debug)]
pub struct FieldDecl {
    pub name: String,
    /// The field's type, carried unchanged into generated types.
    pub ty: String,
    /// Whether the field may be absent from a payload.
    pub optional: bool,
    /// The metadata attached to the field.
    pub attrs: Vec<EventMeta>,
}

/// A content type as its author declared it: its name, its metadata and its named fields
/// (none for a tuple or unit type).
#[derive(Clone, Debug)]
pub struct ContentDecl {
    pub ident: String,
    pub attrs: Vec<EventMeta>,
    pub fields: Vec<FieldDecl>,
}

/// A field of a validated schema.
#[derive(Clone, Debug)]
pub struct SchemaField {
    pub name: String,
    pub ty: String,
    pub optional: bool,
    pub kept_on_redact: bool,
}

/// The validated metadata of one content type.
#[derive(Clone, Debug)]
pub struct EventSchema {
    pub ident: String,
    pub type_string: String,
    pub kind: Option<EventKind>,
    pub custom_redacted: bool,
    pub fields: Vec<SchemaField>,
}

/// Why a content declaration cannot be compiled.
#[derive(Clone, Debug)]
pub enum SchemaError {
    /// No `type = "..."` item.
    MissingEventType,
    /// More than one `type = "..."` item.
    MultipleEventTypes,
    /// More than one `kind = ...` item.
    MultipleEventKinds,
    /// A category that cannot be derived (`Redaction`, `Presence`, `Decrypted`).
    InvalidEventKind,
    /// A token outside the vocabulary, on the type or on one of its fields.
    UnrecognizedAttribute(String),
    /// Two fields with one name.
    DuplicateFieldName,
}

/// The type strings among the items, in order.
pub open spec fn type_strings(a: Seq<EventMeta>) -> Seq<Seq<char>>
    decreases a.len(),
{
    if a.len() == 0 {
        Seq::empty()
    } else {
        let r = type_strings(a.drop_last());
        match a.last() {
            EventMeta::Type(s) => r.push(s@),
            _ => r,
        }
    }
}

/// The kinds among the items, in order.
pub open spec fn kinds_of(a: Seq<EventMeta>) -> Seq<EventKind>
    decreases a.len(),
{
    if a.len() == 0 {
        Seq::empty()
    } else {
        let r = kinds_of(a.drop_last());
        match a.last() {
            EventMeta::Kind(k) => r.push(k),
            _ => r,
        }
    }
}

/// The first token outside the vocabulary among the items.
pub open spec fn first_unrecognized(a: Seq<EventMeta>) -> Option<Seq<char>>
    decreases a.len(),
{
    if a.len() == 0 {
        None
    } else {
        match first_unrecognized(a.drop_last()) {
            Some(t) => Some(t),
            None => match a.last() {
                EventMeta::Unrecognized(t) => Some(t@),
                _ => None,
            },
        }
    }
}

/// The first token outside the vocabulary on any of the fields.
pub open spec fn fields_unrecognized(fs: Seq<FieldDecl>) -> Option<Seq<char>>
    decreases fs.len(),
{
    if fs.len() == 0 {
        None
    } else {
        match fields_unrecognized(fs.drop_last()) {
            Some(t) => Some(t),
            None => first_unrecognized(fs.last().attrs@),
        }
    }
}

pub open spec fn has_custom(a: Seq<EventMeta>) -> bool {
    exists|i: int| 0 <= i < a.len() && #[trigger] a[i] is CustomRedacted
}

pub open spec fn is_kept(f: FieldDecl) -> bool {
    exists|i: int| 0 <= i < f.attrs@.len() && #[trigger] f.attrs@[i] is SkipRedaction
}

pub open spec fn names_distinct(fs: Seq<FieldDecl>) -> bool {
    forall|i: int, j: int|
        0 <= i < j < fs.len() ==> #[trigger] fs[i].name@ != #[trigger] fs[j].name@
}

/// The kind a declaration names, if it names exactly one.
pub open spec fn declared_kind(d: ContentDecl) -> Option<EventKind> {
    if kinds_of(d.attrs@).len() == 1 {
        Some(kinds_of(d.attrs@)[0])
    } else {
        None
    }
}

/// Whether a declaration compiles: no unknown token, one type string, at most one kind and
/// a derivable one, distinct field names.
pub open spec fn decl_valid(d: ContentDecl) -> bool {
    &&& first_unrecognized(d.attrs@) is None
    &&& type_strings(d.attrs@).len() == 1
    &&& kinds_of(d.attrs@).len() <= 1
    &&& (declared_kind(d) matches Some(k) ==> k.is_derivable())
    &&& fields_unrecognized(d.fields@) is None
    &&& names_distinct(d.fields@)
}

/// `s` is the schema that the declaration `d` describes.
pub open spec fn schema_of(d: ContentDecl, s: EventSchema) -> bool {
    &&& s.ident@ == d.ident@
    &&& s.type_string@ == type_strings(d.attrs@)[0]
    &&& s.kind == declared_kind(d)
    &&& s.custom_redacted == has_custom(d.attrs@)
    &&& s.fields@.len() == d.fields@.len()
    &&& forall|i: int|
        0 <= i < d.fields@.len() ==> {
            &&& (#[trigger] s.fields@[i]).name@ == d.fields@[i].name@
            &&& s.fields@[i].ty@ == d.fields@[i].ty@
            &&& s.fields@[i].optional == d.fields@[i].optional
            &&& s.fields@[i].kept_on_redact == is_kept(d.fields@[i])
        }
}

/// The error a declaration that does not compile gets: the first rule it breaks, in the order
/// unknown type-level token, type string, kind, unknown field token, field names.
pub open spec fn decl_error(d: ContentDecl, e: SchemaError) -> bool {
    let types = type_strings(d.attrs@);
    let kinds = kinds_of(d.attrs@);
    match first_unrecognized(d.attrs@) {
        Some(t) => (e matches SchemaError::UnrecognizedAttribute(u) && u@ == t),
        None => if types.len() == 0 {
            e is MissingEventType
        } else if types.len() > 1 {
            e is MultipleEventTypes
        } else if kinds.len() > 1 {
            e is MultipleEventKinds
        } else if declared_kind(d) is Some && !declared_kind(d).unwrap().is_derivable() {
            e is InvalidEventKind
        } else {
            match fields_unrecognized(d.fields@) {
                Some(t) => (e matches SchemaError::UnrecognizedAttribute(u) && u@ == t),
                None => e is DuplicateFieldName,
            }
        },
    }
}

/// The first token outside the vocabulary among `a`.
pub fn find_unrecognized(a: &Vec<EventMeta>) -> (r: Option<String>)
    ensures
        match r {
            Some(t) => first_unrecognized(a@) == Some(t@),
            None => first_unrecognized(a@) is None,
        },
{
    let mut found: Option<String> = None;
    let mut i: usize = 0;
    while i < a.len()
        invariant
            i <= a@.len(),
            match found {
                Some(t) => first_unrecognized(a@.subrange(0, i as int)) == Some(t@),
                None => first_unrecognized(a@.subrange(0, i as int)) is None,
            },
        decreases a@.len() - i,
    {
        assert(a@.subrange(0, i as int + 1).drop_last() =~= a@.subrange(0, i as int));
        if found.is_none() {
            match &a[i] {
                EventMeta::Unrecognized(t) => {
                    found = Some(t.clone());
                },
                _ => {},
            }
        }
        i = i + 1;
    }
    assert(a@.subrange(0, a@.len() as int) =~= a@);
    found
}

/// The first token outside the vocabulary on any field of `fs`.
pub fn find_unrecognized_in_fields(fs: &Vec<FieldDecl>) -> (r: Option<String>)
    ensures
        match r {
            Some(t) => fields_unrecognized(fs@) == Some(t@),
            None => fields_unrecognized(fs@) is None,
        },
{
    let mut found: Option<String> = None;
    let mut i: usize = 0;
    while i < fs.len()
        invariant
            i <= fs@.len(),
            match found {
                Some(t) => fields_unrecognized(fs@.subrange(0, i as int)) == Some(t@),
                None => fields_unrecognized(fs@.subrange(0, i as int)) is None,
            },
        decreases fs@.len() - i,
    {
        assert(fs@.subrange(0, i as int + 1).drop_last() =~= fs@.subrange(0, i as int));
        if found.is_none() {
            found = find_unrecognized(&fs[i].attrs);
        }
        i = i + 1;
    }
    assert(fs@.subrange(0, fs@.len() as int) =~= fs@);
    found
}

/// The single type string among `a`.
pub fn event_type_of(a: &Vec<EventMeta>) -> (r: Result<String, SchemaError>)
    ensures
        type_strings(a@).len() == 0 ==> (r matches Err(SchemaError::MissingEventType)),
        type_strings(a@).len() > 1 ==> (r matches Err(SchemaError::MultipleEventTypes)),
        type_strings(a@).len() == 1 ==> (r matches Ok(t) && t@ == type_strings(a@)[0]),
{
    let mut first: Option<String> = None;
    let mut count: usize = 0;
    let mut i: usize = 0;
    while i < a.len()
        invariant
            i <= a@.len(),
            count == type_strings(a@.subrange(0, i as int)).len(),
            count <= i,
            first is Some <==> count > 0,
            first matches Some(t) ==> t@ == type_strings(a@.subrange(0, i as int))[0],
        decreases a@.len() - i,
    {
        assert(a@.subrange(0, i as int + 1).drop_last() =~= a@.subrange(0, i as int));
        match &a[i] {
            EventMeta::Type(t) => {
                if first.is_none() {
                    first = Some(t.clone());
                }
                count = count + 1;
            },
            _ => {},
        }
        i = i + 1;
    }
    assert(a@.subrange(0, a@.len() as int) =~= a@);
    if count > 1 {
        return Err(SchemaError::MultipleEventTypes);
    }
    match first {
        Some(t) => Ok(t),
        None => Err(SchemaError::MissingEventType),
    }
}

/// The kind among `a`, if any.
pub fn event_kind_of(a: &Vec<EventMeta>) -> (r: Result<Option<EventKind>, SchemaError>)
    ensures
        kinds_of(a@).len() > 1 <==> (r matches Err(SchemaError::MultipleEventKinds)),
        kinds_of(a@).len() == 0 ==> r == Ok::<Option<EventKind>, SchemaError>(None),
        kinds_of(a@).len() == 1 ==> r == Ok::<Option<EventKind>, SchemaError>(
            Some(kinds_of(a@)[0]),
        ),
{
    let mut first: Option<EventKind> = None;
    let mut count: usize = 0;
    let mut i: usize = 0;
    while i < a.len()
        invariant
            i <= a@.len(),
            count == kinds_of(a@.subrange(0, i as int)).len(),
            count <= i,
            first is Some <==> count > 0,
            first matches Some(k) ==> k == kinds_of(a@.subrange(0, i as int))[0],
        decreases a@.len() - i,
    {
        assert(a@.subrange(0, i as int + 1).drop_last() =~= a@.subrange(0, i as int));
        match &a[i] {
            EventMeta::Kind(k) => {
                if first.is_none() {
                    first = Some(*k);
                }
                count = count + 1;
            },
            _ => {},
        }
        i = i + 1;
    }
    assert(a@.subrange(0, a@.len() as int) =~= a@);
    if count > 1 {
        Err(SchemaError::MultipleEventKinds)
    } else {
        Ok(first)
    }
}

/// Whether `a` holds `custom_redacted`.
pub fn is_custom(a: &Vec<EventMeta>) -> (r: bool)
    ensures
        r == has_custom(a@),
{
    let mut i: usize = 0;
    while i < a.len()
        invariant
            i <= a@.len(),
            forall|k: int| 0 <= k < i ==> !(#[trigger] a@[k] is CustomRedacted),
        decreases a@.len() - i,
    {
        if let EventMeta::CustomRedacted = &a[i] {
            return true;
        }
        i = i + 1;
    }
    false
}

/// Whether the field carries `skip_redaction`.
pub fn field_kept(f: &FieldDecl) -> (r: bool)
    ensures
        r == is_kept(*f),
{
    let mut i: usize = 0;
    while i < f.attrs.len()
        invariant
            i <= f.attrs@.len(),
            forall|k: int| 0 <= k < i ==> !(#[trigger] f.attrs@[k] is SkipRedaction),
        decreases f.attrs@.len() - i,
    {
        if let EventMeta::SkipRedaction = &f.attrs[i] {
            return true;
        }
        i = i + 1;
    }
    false
}

/// Whether two fields share a name.
pub fn has_duplicate_names(fs: &Vec<FieldDecl>) -> (r: bool)
    ensures
        r == !names_distinct(fs@),
{
    let mut j: usize = 0;
    while j < fs.len()
        invariant
            j <= fs@.len(),
            forall|a: int, b: int|
                0 <= a < b < j ==> #[trigger] fs@[a].name@ != #[trigger] fs@[b].name@,
        decreases fs@.len() - j,
    {
        let mut i: usize = 0;
        while i < j
            invariant
                i <= j < fs@.len(),
                forall|a: int| 0 <= a < i ==> #[trigger] fs@[a].name@ != fs@[j as int].name@,
            decreases j - i,
        {
            if fs[i].name == fs[j].name {
                return true;
            }
            i = i + 1;
        }
        j = j + 1;
    }
    false
}

impl EventSchema {
    /// Validates a declaration and reads its schema.
    pub fn parse(d: &ContentDecl) -> (r: Result<EventSchema, SchemaError>)
        ensures
            r is Ok <==> decl_valid(*d),
            r matches Ok(s) ==> schema_of(*d, s),
            r matches Err(e) ==> decl_error(*d, e),
    {
        if let Some(t) = find_unrecognized(&d.attrs) {
            return Err(SchemaError::UnrecognizedAttribute(t));
        }
        let type_string = match event_type_of(&d.attrs) {
            Ok(t) => t,
            Err(e) => {
                return Err(e);
            },
        };
        let kind = match event_kind_of(&d.attrs) {
            Ok(k) => k,
            Err(e) => {
                return Err(e);
            },
        };
        if let Some(k) = kind {
            if !k.derivable() {
                return Err(SchemaError::InvalidEventKind);
            }
        }
        if let Some(t) = find_unrecognized_in_fields(&d.fields) {
            return Err(SchemaError::UnrecognizedAttribute(t));
        }
        if has_duplicate_names(&d.fields) {
            return Err(SchemaError::DuplicateFieldName);
        }
        let mut fields: Vec<SchemaField> = Vec::new();
        let mut i: usize = 0;
        while i < d.fields.len()
            invariant
                i <= d.fields@.len(),
                fields@.len() == i,
                forall|k: int|
                    0 <= k < i ==> {
                        &&& (#[trigger] fields@[k]).name@ == d.fields@[k].name@
                        &&& fields@[k].ty@ == d.fields@[k].ty@
                        &&& fields@[k].optional == d.fields@[k].optional
                        &&& fields@[k].kept_on_redact == is_kept(d.fields@[k])
                    },
            decreases d.fields@.len() - i,
        {
            let f = &d.fields[i];
            let kept = field_kept(f);
            fields.push(
                SchemaField {
                    name: f.name.clone(),
                    ty: f.ty.clone(),
                    optional: f.optional,
                    kept_on_redact: kept,
                },
            );
            i = i + 1;
        }
        Ok(
            EventSchema {
                ident: d.ident.clone(),
                type_string,
                kind,
                custom_redacted: is_custom(&d.attrs),
                fields,
            },
        )
    }
}

impl EventMeta {
    /// Reads one item from its name and, for `type` and `kind`, its value.
    ///
    /// A name outside the vocabulary, a value where none belongs or a missing value, and a
    /// `kind` value that names no category all give `Unrecognized` with the offending token.
    pub fn parse(name: &str, value: Option<&str>) -> (r: EventMeta)
        ensures
            name@ == "type"@ && value is Some ==> (r matches EventMeta::Type(s) && s@
                == value.unwrap()@),
            name@ == "kind"@ && value is Some ==> match EventKind::spec_from_token(
                value.unwrap()@,
            ) {
                Some(k) => r == EventMeta::Kind(k),
                None => (r matches EventMeta::Unrecognized(t) && t@ == value.unwrap()@),
            },
            name@ == "skip_redaction"@ && value is None ==> r is SkipRedaction,
            name@ == "custom_redacted"@ && value is None ==> r is CustomRedacted,
            !((name@ == "type"@ && value is Some) || (name@ == "kind"@ && value is Some) || (
            name@ == "skip_redaction"@ && value is None) || (name@ == "custom_redacted"@
                && value is None)) ==> (r matches EventMeta::Unrecognized(t) && t@ == name@),
    {
        proof {
            reveal_strlit("type");
            reveal_strlit("kind");
            reveal_strlit("skip_redaction");
            reveal_strlit("custom_redacted");
            assert("type"@[0] != "kind"@[0]);
            assert("skip_redaction"@.len() != "custom_redacted"@.len());
        }
        match value {
            Some(v) => {
                if str_eq(name, "type") {
                    EventMeta::Type(v.to_owned())
                } else if str_eq(name, "kind") {
                    match EventKind::from_token(v) {
                        Some(k) => EventMeta::Kind(k),
                        None => EventMeta::Unrecognized(v.to_owned()),
                    }
                } else {
                    EventMeta::Unrecognized(name.to_owned())
                }
            },
            None => {
                if str_eq(name, "skip_redaction") {
                    EventMeta::SkipRedaction
                } else if str_eq(name, "custom_redacted") {
                    EventMeta::CustomRedacted
                } else {
                    EventMeta::Unrecognized(name.to_owned())
                }
            },
        }
    }
}

} // verus!
