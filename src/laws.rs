//! Properties of the analysis, stated over the specifications that the
//! executable functions meet.
use vstd::prelude::*;
use crate::field::{FieldView, RawFieldView, raw_valid, field_of, has_default, is_id};
use crate::fields::{
    KeyError, count_true, is_first, markers, id_flags, lemma_count_zero,
    lemma_count_two, lemma_first_unique,
};
use crate::emit::{after_insert, create_of, first_at_default, required_of, required_upto};
use crate::model::{DeclView, ModelErrorView, ModelView, Shape, analysis_of};

verus! {

/// The declaration is a struct with named fields whose options are all consistent.
pub open spec fn well_formed(d: DeclView) -> bool {
    d.shape == Shape::NamedStruct && forall|i: int| 0 <= i < d.fields.len() ==> raw_valid(#[trigger] d.fields[i])
}

proof fn lemma_count_one(b: Seq<bool>, i: int)
    requires
        0 <= i < b.len(),
        b[i],
        forall|j: int| 0 <= j < b.len() && j != i ==> !b[j],
    ensures
        count_true(b) == 1,
    decreases b.len(),
{
    let p = b.drop_last();
    if i == b.len() - 1 {
        assert(!p.contains(true)) by {
            if p.contains(true) {
                let j = choose|j: int| 0 <= j < p.len() && p[j] == true;
                assert(b[j]);
            }
        }
        lemma_count_zero(p);
    } else {
        lemma_count_one(p, i);
    }
}

/// A struct with exactly one explicitly marked field gets that field as its
/// primary key, and the analysis succeeds.
pub proof fn law_marked_field_is_key(d: DeclView, table: Seq<char>, i: int)
    requires
        well_formed(d),
        0 <= i < d.fields.len(),
        d.fields[i].primary_key,
        forall|j: int| 0 <= j < d.fields.len() && j != i ==> !(#[trigger] d.fields[j]).primary_key,
    ensures
        analysis_of(d, table) is Ok,
        analysis_of(d, table)->Ok_0.primary_key == i,
{
    let s = d.fields.map_values(|v: RawFieldView| field_of(v));
    let b = markers(s);
    assert forall|j: int| 0 <= j < b.len() && j != i implies !b[j] by {
        assert(!d.fields[j].primary_key);
    }
    lemma_count_one(b, i);
    lemma_first_unique(b, i);
}

/// With no marked field, the field named `id` is the primary key.
pub proof fn law_id_is_fallback_key(d: DeclView, table: Seq<char>, i: int)
    requires
        well_formed(d),
        0 <= i < d.fields.len(),
        is_id(d.fields[i].ident),
        forall|j: int| 0 <= j < d.fields.len() && j != i ==> (#[trigger] d.fields[j]).ident != d.fields[i].ident,
        forall|j: int| 0 <= j < d.fields.len() ==> !(#[trigger] d.fields[j]).primary_key,
    ensures
        analysis_of(d, table) is Ok,
        analysis_of(d, table)->Ok_0.primary_key == i,
{
    let s = d.fields.map_values(|v: RawFieldView| field_of(v));
    let b = markers(s);
    let f = id_flags(s);
    assert(!b.contains(true));
    lemma_count_zero(b);
    assert(is_first(f, i)) by {
        assert forall|j: int| 0 <= j < i implies !f[j] by {
            assert(d.fields[j].ident != d.fields[i].ident);
        }
    }
    assert(f.contains(true));
    lemma_first_unique(f, i);
}

/// With no marked field and no field named `id`, the analysis fails with a
/// missing primary key.
pub proof fn law_no_key_is_missing(d: DeclView, table: Seq<char>)
    requires
        well_formed(d),
        forall|j: int| 0 <= j < d.fields.len() ==> !(#[trigger] d.fields[j]).primary_key,
        forall|j: int| 0 <= j < d.fields.len() ==> !is_id((#[trigger] d.fields[j]).ident),
    ensures
        analysis_of(d, table) == Err::<ModelView, ModelErrorView>(ModelErrorView::Key(KeyError::Missing)),
{
    let s = d.fields.map_values(|v: RawFieldView| field_of(v));
    let b = markers(s);
    let f = id_flags(s);
    assert(!b.contains(true));
    lemma_count_zero(b);
    assert(!f.contains(true)) by {
        if f.contains(true) {
            let j = choose|j: int| 0 <= j < f.len() && f[j] == true;
            assert(!is_id(d.fields[j].ident));
        }
    }
}

/// Two or more marked fields make the analysis fail with an ambiguous
/// primary key.
pub proof fn law_two_markers_are_ambiguous(d: DeclView, table: Seq<char>, i: int, j: int)
    requires
        well_formed(d),
        0 <= i < j < d.fields.len(),
        d.fields[i].primary_key,
        d.fields[j].primary_key,
    ensures
        analysis_of(d, table) == Err::<ModelView, ModelErrorView>(ModelErrorView::Key(KeyError::Ambiguous)),
{
    let s = d.fields.map_values(|v: RawFieldView| field_of(v));
    let b = markers(s);
    assert(b[i] && b[j]);
    lemma_count_two(b, i, j);
}

/// The analysis is a function of the declaration and the effective table name
/// alone: the same input gives the same result, method for method. (With an
/// override the table name is the override; a derived one comes from
/// pluralizer's process-wide rule tables.)
pub proof fn law_analysis_is_deterministic(
    d1: DeclView,
    t1: Seq<char>,
    d2: DeclView,
    t2: Seq<char>,
)
    requires
        d1 == d2,
        t1 == t2,
    ensures
        analysis_of(d1, t1) == analysis_of(d2, t2),
{
}

proof fn lemma_required_members(s: Seq<FieldView>, n: nat)
    requires
        n <= s.len() <= usize::MAX,
    ensures
        forall|k: int| 0 <= k < required_upto(s, n).len() ==> #[trigger] required_upto(s, n)[k] < n,
        forall|i: int| 0 <= i < n && !has_default(#[trigger] s[i]) ==> required_upto(s, n).contains(i as usize),
    decreases n,
{
    if n > 0 {
        let p = required_upto(s, (n - 1) as nat);
        lemma_required_members(s, (n - 1) as nat);
        let r = required_upto(s, n);
        assert forall|i: int| 0 <= i < n && !has_default(#[trigger] s[i]) implies r.contains(i as usize) by {
            if i < n - 1 {
                let k = choose|k: int| 0 <= k < p.len() && p[k] == i as usize;
                assert(r[k] == i as usize);
            } else {
                assert(r[r.len() - 1] == i as usize);
            }
        }
    }
}

proof fn lemma_only_one_at_default(required: Seq<usize>, at_default: Seq<bool>, i: usize)
    requires
        required.contains(i),
        at_default[i as int],
        forall|k: int| 0 <= k < required.len() && at_default[#[trigger] required[k] as int] ==> required[k] == i,
    ensures
        first_at_default(required, at_default) == Some(i),
    decreases required.len(),
{
    if required[0] != i {
        let k = choose|k: int| 0 <= k < required.len() && required[k] == i;
        let t = required.drop_first();
        assert(t[k - 1] == i);
        assert forall|m: int| 0 <= m < t.len() && at_default[#[trigger] t[m] as int] implies t[m] == i by {
            assert(required[m + 1] == t[m]);
        }
        lemma_only_one_at_default(t, at_default, i);
    }
}

proof fn lemma_none_at_default(required: Seq<usize>, at_default: Seq<bool>)
    requires
        forall|k: int| 0 <= k < required.len() ==> !at_default[#[trigger] required[k] as int],
    ensures
        first_at_default(required, at_default) is None,
    decreases required.len(),
{
    if required.len() > 0 {
        let t = required.drop_first();
        assert forall|m: int| 0 <= m < t.len() implies !at_default[#[trigger] t[m] as int] by {
            assert(required[m + 1] == t[m]);
        }
        lemma_none_at_default(t, at_default);
    }
}

/// The emitted `create` rejects a record whose only field at its type's
/// default is a field without a default rule, naming that field; with no field
/// at its default, the check passes.
pub proof fn law_required_field_is_checked(s: Seq<FieldView>, key: int, i: int, at_default: Seq<bool>)
    requires
        s.len() <= usize::MAX,
        0 <= i < s.len(),
        !has_default(s[i]),
        at_default.len() == s.len(),
    ensures
        (at_default[i] && forall|j: int| 0 <= j < s.len() && j != i ==> !at_default[j])
            ==> first_at_default(create_of(s, key).required, at_default) == Some(i as usize),
        (forall|j: int| 0 <= j < s.len() ==> !at_default[j])
            ==> first_at_default(create_of(s, key).required, at_default) is None,
{
    let req = required_of(s);
    lemma_required_members(s, s.len());
    if at_default[i] && forall|j: int| 0 <= j < s.len() && j != i ==> !at_default[j] {
        assert forall|k: int| 0 <= k < req.len() && at_default[#[trigger] req[k] as int] implies req[k] == i as usize by {
            assert(req[k] < s.len());
        }
        lemma_only_one_at_default(req, at_default, i as usize);
    }
    if forall|j: int| 0 <= j < s.len() ==> !at_default[j] {
        assert forall|k: int| 0 <= k < req.len() implies !at_default[#[trigger] req[k] as int] by {
            assert(req[k] < s.len());
        }
        lemma_none_at_default(req, at_default);
    }
}

/// After the insert, an auto-incremented primary key holds the inserted value;
/// any other primary key, like every other field, is unchanged.
pub proof fn law_increments_take_inserted_value<T>(s: Seq<FieldView>, key: int, record: Seq<T>, inserted: T)
    requires
        s.len() <= usize::MAX,
        0 <= key < s.len(),
        record.len() == s.len(),
    ensures
        s[key].rule is Increments ==> after_insert(create_of(s, key), record, inserted)[key] == inserted,
        !(s[key].rule is Increments) ==> after_insert(create_of(s, key), record, inserted) == record,
        forall|j: int| 0 <= j < s.len() && j != key
            ==> #[trigger] after_insert(create_of(s, key), record, inserted)[j] == record[j],
{
}

} // verus!
