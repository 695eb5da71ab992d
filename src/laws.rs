use vstd::prelude::*;

use crate::compile::{
    ContentField, ExpandedContent, all_positions, kept_positions, lemma_kept_positions,
};
use crate::content::{Content, field_missing, lookup, members_upto, opt_view};
use crate::kind::EventKind;
use crate::schema::{ContentDecl, decl_valid, declared_kind, kinds_of, schema_of, type_strings};

verus! {

/// Every artifact compiled from a declaration carries the type string the declaration names:
/// the serialization contract, the static descriptor, and the redacted counterpart with its
/// own descriptor.
pub proof fn lemma_type_string_fidelity(d: ContentDecl, x: ExpandedContent)
    requires
        x.wf(),
        schema_of(d, x.schema),
    ensures
        x.content.event_type@ == type_strings(d.attrs@)[0],
        x.static_descriptor matches Some(s) ==> s.event_type@ == type_strings(d.attrs@)[0],
        x.redacted matches Some(r) ==> r.content.event_type@ == type_strings(d.attrs@)[0]
            && r.static_descriptor.event_type@ == type_strings(d.attrs@)[0],
{
}

/// In the members that the first `n` fields give, each of those fields finds its own value
/// and each later field finds nothing, when field names are distinct.
pub proof fn lemma_members_lookup(fs: Seq<ContentField>, vals: Seq<Option<Seq<char>>>, n: int)
    requires
        0 <= n <= fs.len(),
        vals.len() == fs.len(),
        forall|i: int, j: int|
            0 <= i < j < fs.len() ==> #[trigger] fs[i].name@ != #[trigger] fs[j].name@,
    ensures
        forall|i: int|
            0 <= i < n ==> lookup(members_upto(fs, vals, n), (#[trigger] fs[i]).name@)
                == vals[i],
        forall|i: int|
            n <= i < fs.len() ==> lookup(members_upto(fs, vals, n), (#[trigger] fs[i]).name@)
                is None,
    decreases n,
{
    if n > 0 {
        lemma_members_lookup(fs, vals, n - 1);
        let r = members_upto(fs, vals, n - 1);
        let m = members_upto(fs, vals, n);
        if let Some(v) = vals[n - 1] {
            assert(m.drop_last() =~= r);
        }
        assert forall|i: int| 0 <= i < n implies lookup(m, (#[trigger] fs[i]).name@)
            == vals[i] by {
            if i < n - 1 {
                assert(fs[i].name@ != fs[n - 1].name@);
            }
        }
        assert forall|i: int| n <= i < fs.len() implies lookup(m, (#[trigger] fs[i]).name@)
            is None by {
            assert(fs[i].name@ != fs[n - 1].name@);
        }
    }
}

/// Reading back what a value serializes to gives the value: every required field is found,
/// and each field finds exactly its own value, present or absent.
pub proof fn lemma_round_trip(d: ContentDecl, x: ExpandedContent, c: Content)
    requires
        decl_valid(d),
        x.wf(),
        schema_of(d, x.schema),
        x.content.is_instance(c),
    ensures
        forall|i: int|
            0 <= i < x.content.fields@.len() ==> !field_missing(
                #[trigger] x.content.fields@[i],
                x.content.spec_members(c),
            ),
        forall|i: int|
            0 <= i < x.content.fields@.len() ==> lookup(
                x.content.spec_members(c),
                (#[trigger] x.content.fields@[i]).name@,
            ) == c@[i],
{
    let fs = x.content.fields@;
    let n = fs.len() as int;
    assert forall|i: int, j: int| 0 <= i < j < fs.len() implies #[trigger] fs[i].name@
        != #[trigger] fs[j].name@ by {
        assert(all_positions(x.schema.fields@.len())[i] == i);
        assert(all_positions(x.schema.fields@.len())[j] == j);
        assert(d.fields@[i].name@ != d.fields@[j].name@);
    }
    lemma_members_lookup(fs, c@, n);
    assert forall|i: int| 0 <= i < n implies !field_missing(
        #[trigger] fs[i],
        x.content.spec_members(c),
    ) by {
        assert(c@[i] == opt_view(c.values@[i]));
    }
}

/// The redacted counterpart's fields are, in order, exactly the fields marked to survive,
/// with their names, types and optionality; no other field is in it.
pub proof fn lemma_redaction_projection(x: ExpandedContent)
    requires
        x.wf(),
        x.redacted is Some,
    ensures
        ({
            let r = x.redacted.unwrap().content;
            let fs = x.schema.fields@;
            let kept = kept_positions(fs);
            &&& r.fields@.len() == kept.len()
            &&& forall|j: int|
                0 <= j < kept.len() ==> {
                    &&& fs[#[trigger] kept[j]].kept_on_redact
                    &&& r.fields@[j].name@ == fs[kept[j]].name@
                    &&& r.fields@[j].ty@ == fs[kept[j]].ty@
                    &&& r.fields@[j].optional == fs[kept[j]].optional
                }
            &&& forall|j: int, m: int| 0 <= j < m < kept.len() ==> #[trigger] kept[j] < #[trigger] kept[m]
            &&& forall|i: int| 0 <= i < fs.len() && (#[trigger] fs[i]).kept_on_redact ==> kept.contains(i)
        }),
{
    lemma_kept_positions(x.schema.fields@);
}

/// The redacted counterpart has no field exactly when no field is marked to survive; its
/// `empty` then succeeds, and otherwise fails.
pub proof fn lemma_empty_redaction(x: ExpandedContent)
    requires
        x.wf(),
        x.redacted is Some,
    ensures
        x.redacted.unwrap().content.fields@.len() == 0 <==> forall|i: int|
            0 <= i < x.schema.fields@.len() ==> !(#[trigger] x.schema.fields@[i]).kept_on_redact,
{
    let fs = x.schema.fields@;
    lemma_kept_positions(fs);
    if x.redacted.unwrap().content.fields@.len() != 0 {
        let p = kept_positions(fs)[0];
        assert(fs[p].kept_on_redact);
    }
}

/// A declaration naming `Redaction`, `Presence` or `Decrypted` as its kind never compiles.
pub proof fn lemma_category_exclusivity(d: ContentDecl, k: EventKind)
    requires
        kinds_of(d.attrs@).contains(k),
        !k.is_derivable(),
    ensures
        !decl_valid(d),
{
    let ks = kinds_of(d.attrs@);
    if ks.len() == 1 {
        assert(declared_kind(d) == Some(ks[0]));
        assert(ks[0] == k);
    }
}

} // verus!
