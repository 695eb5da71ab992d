use vstd::prelude::*;

use crate::compile::{
    ContentField, ContentType, ExpandedContent, HasDeserializeFields, RedactedContentType,
    all_positions, kept_positions, lemma_kept_positions,
};
use crate::text::str_eq;

verus! {

/// The members of the JSON object that `raw` spells, each value as compact JSON text, as
/// serde_json reads them; `None` where `raw` is not a JSON object.
pub uninterp spec fn json_object_members(raw: Seq<char>) -> Option<Seq<(Seq<char>, Seq<char>)>>;

/// The JSON string literal that encodes `s`, as serde_json writes it.
pub uninterp spec fn json_string_literal(s: Seq<char>) -> Seq<char>;

/// Relies on serde_json::from_str into a serde_json::Map, and on serde_json::Value's
/// Display for each member's value: splits a JSON object into its members.
#[verifier::external_body]
pub(crate) fn object_members(raw: &str) -> (r: Result<Vec<(String, String)>, String>)
    ensures
        r is Ok <==> json_object_members(raw@) is Some,
        r matches Ok(v) ==> entries_view(v@) == json_object_members(raw@).unwrap(),
{
    match serde_json::from_str::<serde_json::Map<String, serde_json::Value>>(raw) {
        Ok(m) => Ok(m.into_iter().map(|(k, v)| (k, v.to_string())).collect()),
        Err(e) => Err(e.to_string()),
    }
}

/// The string that the JSON text `s` encodes, as serde_json reads it; `None` where `s` is
/// not a JSON string.
pub uninterp spec fn json_string_value(s: Seq<char>) -> Option<Seq<char>>;

/// Relies on serde_json::from_str into a `String`: decodes a JSON string literal.
#[verifier::external_body]
pub(crate) fn decode_json_string(s: &str) -> (r: Option<String>)
    ensures
        opt_view(r) == json_string_value(s@),
{
    serde_json::from_str::<String>(s).ok()
}

/// Relies on serde_json::to_string on a `str`: a quoted, escaped JSON string.
#[verifier::external_body]
pub(crate) fn quote_json_string(s: &str) -> (r: String)
    ensures
        r@ == json_string_literal(s@),
{
    serde_json::to_string(s).unwrap_or_default()
}

/// A value of a compiled content type: for each field, in order, its JSON text if present.
#[derive(Clone, Debug)]
pub struct Content {
    pub values: Vec<Option<String>>,
}

/// Why a payload cannot become a value of a compiled type.
#[derive(Clone, Debug)]
pub enum ContentError {
    /// The wire type string is not the compiled one.
    TypeMismatch { expected: String, found: String },
    /// The payload is not a JSON object.
    Json(String),
    /// A required field is missing from the payload.
    MissingField(String),
    /// An empty payload was given for a redacted type that keeps fields.
    RedactedFieldsNotConstructible,
}

pub open spec fn opt_view(o: Option<String>) -> Option<Seq<char>> {
    match o {
        Some(s) => Some(s@),
        None => None,
    }
}

pub open spec fn entries_view(es: Seq<(String, String)>) -> Seq<(Seq<char>, Seq<char>)> {
    es.map_values(|e: (String, String)| (e.0@, e.1@))
}

impl View for Content {
    type V = Seq<Option<Seq<char>>>;

    open spec fn view(&self) -> Seq<Option<Seq<char>>> {
        self.values@.map_values(|o: Option<String>| opt_view(o))
    }
}

/// The value of the first member named `k`.
pub open spec fn lookup(es: Seq<(Seq<char>, Seq<char>)>, k: Seq<char>) -> Option<Seq<char>>
    decreases es.len(),
{
    if es.len() == 0 {
        None
    } else {
        match lookup(es.drop_last(), k) {
            Some(v) => Some(v),
            None => if es.last().0 == k {
                Some(es.last().1)
            } else {
                None
            },
        }
    }
}

/// The members that the first `n` fields give: one for each field that is present.
pub open spec fn members_upto(fs: Seq<ContentField>, vals: Seq<Option<Seq<char>>>, n: int) -> Seq<
    (Seq<char>, Seq<char>),
>
    decreases n,
{
    if n <= 0 {
        Seq::empty()
    } else {
        let r = members_upto(fs, vals, n - 1);
        match vals[n - 1] {
            Some(v) => r.push((fs[n - 1].name@, v)),
            None => r,
        }
    }
}

/// A required field that the members lack.
pub open spec fn field_missing(f: ContentField, es: Seq<(Seq<char>, Seq<char>)>) -> bool {
    !f.optional && lookup(es, f.name@) is None
}

/// The JSON text of an object with the given members, keys encoded as JSON strings.
pub open spec fn object_text(es: Seq<(Seq<char>, Seq<char>)>) -> Seq<char> {
    "{"@ + members_text(es) + "}"@
}

/// The members of an object, separated by commas.
pub open spec fn members_text(es: Seq<(Seq<char>, Seq<char>)>) -> Seq<char>
    decreases es.len(),
{
    if es.len() == 0 {
        Seq::empty()
    } else {
        let prev = members_text(es.drop_last());
        let sep = if es.len() == 1 {
            Seq::empty()
        } else {
            ","@
        };
        prev + sep + json_string_literal(es.last().0) + ":"@ + es.last().1
    }
}

impl ContentType {
    pub open spec fn field_names_distinct(self) -> bool {
        forall|i: int, j: int|
            0 <= i < j < self.fields@.len() ==> #[trigger] self.fields@[i].name@
                != #[trigger] self.fields@[j].name@
    }

    /// `c` is a value of this type: one entry per field, required fields present.
    pub open spec fn is_instance(self, c: Content) -> bool {
        &&& c.values@.len() == self.fields@.len()
        &&& forall|i: int|
            0 <= i < self.fields@.len() && !(#[trigger] self.fields@[i]).optional
                ==> c.values@[i] is Some
    }

    /// The members a value serializes to: present fields, in order.
    pub open spec fn spec_members(self, c: Content) -> Seq<(Seq<char>, Seq<char>)> {
        members_upto(self.fields@, c@, self.fields@.len() as int)
    }

    /// The wire type string; the same for every value of the type.
    pub fn event_type(&self) -> (r: &str)
        ensures
            r@ == self.event_type@,
    {
        self.event_type.as_str()
    }

    /// Checks a wire type string against this type's.
    pub fn check_event_type(&self, ev_type: &str) -> (r: Result<(), ContentError>)
        ensures
            r is Ok <==> ev_type@ == self.event_type@,
            r matches Err(e) ==> (e matches ContentError::TypeMismatch { expected, found }
                && expected@ == self.event_type@ && found@ == ev_type@),
    {
        if str_eq(self.event_type.as_str(), ev_type) {
            Ok(())
        } else {
            Err(
                ContentError::TypeMismatch {
                    expected: self.event_type.clone(),
                    found: ev_type.to_owned(),
                },
            )
        }
    }

    /// Serializes a value into its members: each present field under its name; absent
    /// optional fields are left out.
    pub fn to_members(&self, c: &Content) -> (r: Vec<(String, String)>)
        requires
            c.values@.len() == self.fields@.len(),
        ensures
            entries_view(r@) == self.spec_members(*c),
    {
        let mut r: Vec<(String, String)> = Vec::new();
        let mut i: usize = 0;
        while i < self.fields.len()
            invariant
                i <= self.fields@.len(),
                c.values@.len() == self.fields@.len(),
                entries_view(r@) == members_upto(self.fields@, c@, i as int),
            decreases self.fields@.len() - i,
        {
            match &c.values[i] {
                Some(v) => {
                    let ghost before = r@;
                    r.push((self.fields[i].name.clone(), v.clone()));
                    assert(entries_view(r@) =~= entries_view(before).push(
                        (self.fields@[i as int].name@, v@),
                    ));
                },
                None => {},
            }
            assert(c@[i as int] == opt_view(c.values@[i as int]));
            i = i + 1;
        }
        r
    }

    /// Reads a value from a payload's members, after checking the wire type string.
    ///
    /// Each field takes the value of the first member of its name; members of no field are
    /// ignored; a missing optional field is absent; the first missing required field fails.
    pub fn from_members(&self, ev_type: &str, es: &Vec<(String, String)>) -> (r: Result<
        Content,
        ContentError,
    >)
        ensures
            ev_type@ != self.event_type@ ==> (r matches Err(e) && e is TypeMismatch),
            ev_type@ == self.event_type@ ==> {
                &&& r is Ok <==> forall|i: int|
                    0 <= i < self.fields@.len() ==> !field_missing(
                        #[trigger] self.fields@[i],
                        entries_view(es@),
                    )
                &&& r matches Ok(c) ==> c@.len() == self.fields@.len() && forall|i: int|
                    0 <= i < self.fields@.len() ==> #[trigger] c@[i] == lookup(
                        entries_view(es@),
                        self.fields@[i].name@,
                    )
                &&& r matches Err(e) ==> (e matches ContentError::MissingField(n) && exists|
                    i: int,
                |
                    0 <= i < self.fields@.len() && field_missing(
                        #[trigger] self.fields@[i],
                        entries_view(es@),
                    ) && n@ == self.fields@[i].name@ && forall|j: int|
                        0 <= j < i ==> !field_missing(
                            #[trigger] self.fields@[j],
                            entries_view(es@),
                        ))
            },
    {
        match self.check_event_type(ev_type) {
            Ok(()) => {},
            Err(e) => {
                return Err(e);
            },
        }
        let ghost ev = entries_view(es@);
        let mut values: Vec<Option<String>> = Vec::new();
        let mut i: usize = 0;
        while i < self.fields.len()
            invariant
                i <= self.fields@.len(),
                ev == entries_view(es@),
                ev_type@ == self.event_type@,
                values@.len() == i,
                forall|j: int|
                    0 <= j < i ==> opt_view(#[trigger] values@[j]) == lookup(
                        ev,
                        self.fields@[j].name@,
                    ),
                forall|j: int| 0 <= j < i ==> !field_missing(#[trigger] self.fields@[j], ev),
            decreases self.fields@.len() - i,
        {
            let found = find_member(es, self.fields[i].name.as_str());
            if found.is_none() && !self.fields[i].optional {
                return Err(ContentError::MissingField(self.fields[i].name.clone()));
            }
            values.push(found);
            i = i + 1;
        }
        let c = Content { values };
        assert forall|j: int| 0 <= j < self.fields@.len() implies #[trigger] c@[j] == lookup(
            ev,
            self.fields@[j].name@,
        ) by {
            assert(opt_view(values@[j]) == lookup(ev, self.fields@[j].name@));
        }
        Ok(c)
    }

    /// Reads a value from a raw JSON payload; the wire type string is checked first, and a
    /// mismatch is reported without reading the payload.
    pub fn from_parts(&self, ev_type: &str, raw: &str) -> (r: Result<Content, ContentError>)
        ensures
            ev_type@ != self.event_type@ ==> (r matches Err(e) && e is TypeMismatch),
            ev_type@ == self.event_type@ && json_object_members(raw@) is None ==> (r matches Err(
                e,
            ) && e is Json),
            ev_type@ == self.event_type@ && json_object_members(raw@) is Some ==> {
                let es = json_object_members(raw@).unwrap();
                &&& r is Ok <==> forall|i: int|
                    0 <= i < self.fields@.len() ==> !field_missing(#[trigger] self.fields@[i], es)
                &&& r matches Ok(c) ==> c@.len() == self.fields@.len() && forall|i: int|
                    0 <= i < self.fields@.len() ==> #[trigger] c@[i] == lookup(
                        es,
                        self.fields@[i].name@,
                    )
                &&& r matches Err(e) ==> e is MissingField
            },
    {
        match self.check_event_type(ev_type) {
            Ok(()) => {},
            Err(e) => {
                return Err(e);
            },
        }
        match object_members(raw) {
            Ok(es) => self.from_members(ev_type, &es),
            Err(msg) => Err(ContentError::Json(msg)),
        }
    }

    /// Serializes a value into the JSON text of an object.
    pub fn to_json(&self, c: &Content) -> (r: String)
        requires
            c.values@.len() == self.fields@.len(),
        ensures
            r@ == object_text(self.spec_members(*c)),
    {
        let es = self.to_members(c);
        encode_object(&es)
    }
}

impl RedactedContentType {
    /// The single value of a redacted type without fields.
    pub fn new(&self) -> (r: Content)
        requires
            self.content.fields@.len() == 0,
        ensures
            r@.len() == 0,
            self.content.is_instance(r),
    {
        Content { values: Vec::new() }
    }

    /// Builds a value from an empty payload: succeeds, with the single value, exactly when
    /// the type keeps no field and the wire type string matches.
    pub fn empty(&self, ev_type: &str) -> (r: Result<Content, ContentError>)
        ensures
            ev_type@ != self.content.event_type@ ==> (r matches Err(e) && e is TypeMismatch),
            ev_type@ == self.content.event_type@ ==> {
                &&& r is Ok <==> self.content.fields@.len() == 0
                &&& r matches Ok(c) ==> c@.len() == 0
                &&& r matches Err(e) ==> e is RedactedFieldsNotConstructible
            },
    {
        match self.content.check_event_type(ev_type) {
            Ok(()) => {},
            Err(e) => {
                return Err(e);
            },
        }
        if self.content.fields.len() == 0 {
            Ok(Content { values: Vec::new() })
        } else {
            Err(ContentError::RedactedFieldsNotConstructible)
        }
    }

    /// Whether values of this type have fields to write; the same for every value.
    pub fn has_serialize_fields(&self, c: &Content) -> (r: bool)
        ensures
            r == (self.content.fields@.len() > 0),
    {
        self.content.fields.len() > 0
    }

    /// Whether this type has fields to read from a payload.
    pub fn has_deserialize_fields(&self) -> (r: HasDeserializeFields)
        ensures
            r == self.has_deserialize_fields,
    {
        self.has_deserialize_fields
    }
}

impl ExpandedContent {
    /// Projects a value onto its redacted counterpart: the kept fields, with their values,
    /// and nothing else. The room version does not change the result.
    pub fn redact(&self, c: Content, room_version: &str) -> (r: Content)
        requires
            self.wf(),
            self.redacted is Some,
            self.content.is_instance(c),
        ensures
            r@.len() == kept_positions(self.schema.fields@).len(),
            forall|j: int|
                0 <= j < r@.len() ==> #[trigger] r@[j] == c@[kept_positions(
                    self.schema.fields@,
                )[j]],
            self.redacted.unwrap().content.is_instance(r),
    {
        let rd = self.redacted.as_ref().unwrap();
        let ghost kept = kept_positions(self.schema.fields@);
        let mut values: Vec<Option<String>> = Vec::new();
        let mut j: usize = 0;
        while j < rd.kept.len()
            invariant
                self.wf(),
                self.redacted == Some(*rd),
                kept == kept_positions(self.schema.fields@),
                self.content.is_instance(c),
                j <= rd.kept@.len(),
                rd.kept@.len() == kept.len(),
                values@.len() == j,
                forall|m: int| 0 <= m < j ==> opt_view(#[trigger] values@[m]) == c@[kept[m]],
            decreases rd.kept@.len() - j,
        {
            let k = rd.kept[j];
            proof {
                lemma_kept_positions(self.schema.fields@);
                assert(k as int == kept[j as int]);
            }
            let v = match &c.values[k] {
                Some(s) => Some(s.clone()),
                None => None,
            };
            values.push(v);
            j = j + 1;
        }
        let r = Content { values };
        proof {
            lemma_kept_positions(self.schema.fields@);
            assert forall|m: int| 0 <= m < r@.len() implies #[trigger] r@[m] == c@[kept[m]] by {
                assert(opt_view(values@[m]) == c@[kept[m]]);
            }
            let rc = rd.content;
            assert forall|m: int|
                0 <= m < rc.fields@.len() && !(#[trigger] rc.fields@[m]).optional implies r.values@[m] is Some by {
                let p = kept[m];
                assert(rc.fields@[m].optional == self.schema.fields@[p].optional);
                assert(all_positions(self.schema.fields@.len())[p] == p);
                assert(self.content.fields@[p].optional == self.schema.fields@[p].optional);
                assert(c.values@[p] is Some);
                assert(c@[p] == opt_view(c.values@[p]));
                assert(opt_view(values@[m]) == c@[p]);
            }
        }
        r
    }
}

/// The value of the first member named `k`.
pub fn find_member(es: &Vec<(String, String)>, k: &str) -> (r: Option<String>)
    ensures
        opt_view(r) == lookup(entries_view(es@), k@),
{
    let ghost ev = entries_view(es@);
    let mut i: usize = 0;
    while i < es.len()
        invariant
            i <= es@.len(),
            ev == entries_view(es@),
            lookup(ev.subrange(0, i as int), k@) is None,
        decreases es@.len() - i,
    {
        assert(ev.subrange(0, i as int + 1).drop_last() =~= ev.subrange(0, i as int));
        if str_eq(es[i].0.as_str(), k) {
            let v = es[i].1.clone();
            proof {
                lemma_lookup_prefix(ev, k@, i as int + 1);
            }
            return Some(v);
        }
        i = i + 1;
    }
    assert(ev.subrange(0, ev.len() as int) =~= ev);
    None
}

/// A member found within a prefix is the one found in the whole.
pub proof fn lemma_lookup_prefix(es: Seq<(Seq<char>, Seq<char>)>, k: Seq<char>, n: int)
    requires
        0 <= n <= es.len(),
        lookup(es.subrange(0, n), k) is Some,
    ensures
        lookup(es, k) == lookup(es.subrange(0, n), k),
    decreases es.len() - n,
{
    if n < es.len() {
        assert(es.subrange(0, n + 1).drop_last() =~= es.subrange(0, n));
        lemma_lookup_prefix(es, k, n + 1);
    } else {
        assert(es.subrange(0, n) =~= es);
    }
}

/// The JSON text of an object with the given members.
pub fn encode_object(es: &Vec<(String, String)>) -> (r: String)
    ensures
        r@ == object_text(entries_view(es@)),
{
    let ghost ev = entries_view(es@);
    let mut body = String::new();
    let mut i: usize = 0;
    while i < es.len()
        invariant
            i <= es@.len(),
            ev == entries_view(es@),
            body@ == members_text(ev.subrange(0, i as int)),
        decreases es@.len() - i,
    {
        assert(ev.subrange(0, i as int + 1).drop_last() =~= ev.subrange(0, i as int));
        if i > 0 {
            body.append(",");
        }
        let key = quote_json_string(es[i].0.as_str());
        body.append(key.as_str());
        body.append(":");
        body.append(es[i].1.as_str());
        proof {
            reveal_strlit(",");
            reveal_strlit(":");
            let p = ev.subrange(0, i as int + 1);
            assert(p.last() == ev[i as int]);
            assert(members_text(p) =~= body@);
        }
        i = i + 1;
    }
    assert(ev.subrange(0, ev.len() as int) =~= ev);
    let mut r = String::from_str("{");
    r.append(body.as_str());
    r.append("}");
    r
}

} // verus!
