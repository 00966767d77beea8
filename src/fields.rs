//! The ordered collection of a record's fields, and primary-key resolution.
use vstd::prelude::*;
use crate::field::{Field, FieldError, FieldView, RawField, RawFieldView, raw_valid, field_of, is_id};

verus! {

/// Why no primary key can be chosen.
#[derive(Clone, Copy, Debug, PartialEq, Eq)]
pub enum KeyError {
    /// No field is marked and none is named `id`.
    Missing,
    /// Two or more fields are marked.
    Ambiguous,
}

/// The normalized fields of one record, in declaration order.
#[derive(Clone, Debug)]
pub struct Fields {
    pub fields: Vec<Field>,
}

impl View for Fields {
    type V = Seq<FieldView>;

    open spec fn view(&self) -> Seq<FieldView> {
        self.fields@.map_values(|f: Field| f@)
    }
}

pub open spec fn raw_views(s: Seq<RawField>) -> Seq<RawFieldView> {
    s.map_values(|r: RawField| r@)
}

/// The names of the fields, in order.
pub open spec fn keys_of(s: Seq<FieldView>) -> Seq<Seq<char>> {
    s.map_values(|f: FieldView| f.ident)
}

/// How many entries are `true`.
pub open spec fn count_true(b: Seq<bool>) -> nat
    decreases b.len(),
{
    if b.len() == 0 {
        0
    } else {
        count_true(b.drop_last()) + if b.last() { 1nat } else { 0nat }
    }
}

/// `i` is the first position that holds `true`.
pub open spec fn is_first(b: Seq<bool>, i: int) -> bool {
    0 <= i < b.len() && b[i] && forall|j: int| 0 <= j < i ==> !b[j]
}

/// The first position that holds `true` (meaningful where one does).
pub open spec fn first_of(b: Seq<bool>) -> int {
    choose|i: int| is_first(b, i)
}

/// Which fields carry an explicit primary-key marker.
pub open spec fn markers(s: Seq<FieldView>) -> Seq<bool> {
    s.map_values(|f: FieldView| f.primary_key)
}

/// Which fields are named `id`.
pub open spec fn id_flags(s: Seq<FieldView>) -> Seq<bool> {
    s.map_values(|f: FieldView| is_id(f.ident))
}

/// The primary key of a field collection: the one marked field; with no
/// marker, the first field named `id`; otherwise an error.
pub open spec fn resolve_key(s: Seq<FieldView>) -> Result<int, KeyError> {
    let c = count_true(markers(s));
    if c >= 2 {
        Err(KeyError::Ambiguous)
    } else if c == 1 {
        Ok(first_of(markers(s)))
    } else if id_flags(s).contains(true) {
        Ok(first_of(id_flags(s)))
    } else {
        Err(KeyError::Missing)
    }
}

pub proof fn lemma_first_exists(b: Seq<bool>, k: int)
    requires
        0 <= k < b.len(),
        b[k],
    ensures
        is_first(b, first_of(b)),
        first_of(b) <= k,
    decreases k,
{
    if forall|j: int| 0 <= j < k ==> !b[j] {
        assert(is_first(b, k));
        let f = first_of(b);
        assert(f <= k) by {
            if f > k {
                assert(!b[k]);
            }
        }
    } else {
        let j = choose|j: int| 0 <= j < k && b[j];
        lemma_first_exists(b, j);
    }
}

pub proof fn lemma_first_unique(b: Seq<bool>, i: int)
    requires
        is_first(b, i),
    ensures
        first_of(b) == i,
{
    lemma_first_exists(b, i);
    let f = first_of(b);
    if f < i {
        assert(!b[f]);
    }
}

pub proof fn lemma_count_zero(b: Seq<bool>)
    ensures
        count_true(b) == 0 <==> !b.contains(true),
    decreases b.len(),
{
    if b.len() > 0 {
        let p = b.drop_last();
        lemma_count_zero(p);
        if p.contains(true) {
            let j = choose|j: int| 0 <= j < p.len() && p[j] == true;
            assert(b[j]);
        }
        if b.contains(true) {
            let j = choose|j: int| 0 <= j < b.len() && b[j] == true;
            if j < b.len() - 1 {
                assert(p[j]);
            }
        }
    }
}

pub proof fn lemma_count_two(b: Seq<bool>, i: int, j: int)
    requires
        0 <= i < j < b.len(),
        b[i],
        b[j],
    ensures
        count_true(b) >= 2,
    decreases b.len(),
{
    let p = b.drop_last();
    if j < b.len() - 1 {
        lemma_count_two(p, i, j);
    } else {
        assert(p[i]);
        assert(p.contains(true));
        lemma_count_zero(p);
    }
}

proof fn lemma_count_step(b: Seq<bool>, i: int)
    requires
        0 <= i < b.len(),
    ensures
        count_true(b.take(i + 1)) == count_true(b.take(i)) + if b[i] { 1nat } else { 0nat },
{
    assert(b.take(i + 1).drop_last() =~= b.take(i));
}

impl Fields {
    /// Builds the descriptor of every declared field, in order; fails on the
    /// first field whose options conflict.
    pub fn from_raw(raw: &Vec<RawField>) -> (r: Result<Fields, FieldError>)
        ensures
            (forall|i: int| 0 <= i < raw@.len() ==> raw_valid(#[trigger] raw@[i]@)) <==> r is Ok,
            r matches Ok(fs) ==> fs@ == raw_views(raw@).map_values(|v: RawFieldView| field_of(v)),
            r matches Err(e) ==> exists|i: int|
                0 <= i < raw@.len() && !raw_valid(raw@[i]@)
                && (forall|j: int| 0 <= j < i ==> raw_valid(#[trigger] raw@[j]@))
                && e == FieldError::ConflictingDefault(raw@[i].ident),
    {
        let mut fields: Vec<Field> = Vec::new();
        let mut i: usize = 0;
        while i < raw.len()
            invariant
                i <= raw@.len(),
                fields@.len() == i,
                forall|j: int| 0 <= j < i ==> raw_valid(#[trigger] raw@[j]@),
                forall|j: int| 0 <= j < i ==> (#[trigger] fields@[j])@ == field_of(raw@[j]@),
            decreases raw@.len() - i,
        {
            match Field::from_raw(&raw[i]) {
                Ok(f) => fields.push(f),
                Err(e) => {
                    return Err(e);
                },
            }
            i = i + 1;
        }
        let r = Fields { fields };
        assert(r@ =~= raw_views(raw@).map_values(|v: RawFieldView| field_of(v)));
        Ok(r)
    }

    /// The names of all fields, in declaration order.
    pub fn keys(&self) -> (r: Vec<String>)
        ensures
            r@.map_values(|k: String| k@) == keys_of(self@),
    {
        let mut keys: Vec<String> = Vec::new();
        let mut i: usize = 0;
        while i < self.fields.len()
            invariant
                i <= self.fields@.len(),
                keys@.len() == i,
                forall|j: int| 0 <= j < i ==> (#[trigger] keys@[j])@ == self.fields@[j].ident@,
            decreases self.fields@.len() - i,
        {
            keys.push(self.fields[i].ident.clone());
            i = i + 1;
        }
        assert(keys@.map_values(|k: String| k@) =~= keys_of(self@));
        keys
    }

    /// Resolves the primary key with one scan over the fields, counting the
    /// explicit markers and noting the first marked field and the first `id`.
    /// Returns the position of the primary key.
    pub fn primary_key(&self) -> (r: Result<usize, KeyError>)
        ensures
            match r {
                Ok(i) => i < self@.len() && resolve_key(self@) == Ok::<int, KeyError>(i as int),
                Err(e) => resolve_key(self@) == Err::<int, KeyError>(e),
            },
    {
        let ghost s = self@;
        let ghost b = markers(s);
        let ghost d = id_flags(s);
        let mut count: usize = 0;
        let mut first_marked: Option<usize> = None;
        let mut first_id: Option<usize> = None;
        let mut i: usize = 0;
        while i < self.fields.len()
            invariant
                s == self@,
                b == markers(s),
                d == id_flags(s),
                i <= s.len(),
                count == count_true(b.take(i as int)),
                count <= i,
                match first_marked {
                    Some(k) => k < i && is_first(b, k as int),
                    None => forall|j: int| 0 <= j < i ==> !b[j],
                },
                match first_id {
                    Some(k) => k < i && is_first(d, k as int),
                    None => forall|j: int| 0 <= j < i ==> !d[j],
                },
            decreases s.len() - i,
        {
            proof {
                lemma_count_step(b, i as int);
            }
            let f = &self.fields[i];
            if f.primary_key {
                count = count + 1;
                if first_marked.is_none() {
                    first_marked = Some(i);
                }
            }
            if f.is_named_id() && first_id.is_none() {
                first_id = Some(i);
            }
            i = i + 1;
        }
        proof {
            assert(b.take(s.len() as int) =~= b);
            lemma_count_zero(b);
        }
        if count >= 2 {
            return Err(KeyError::Ambiguous);
        }
        match first_marked {
            Some(k) => {
                proof {
                    assert(b.contains(true)) by {
                        assert(b[k as int]);
                    }
                    lemma_first_unique(b, k as int);
                }
                return Ok(k);
            },
            None => {
                assert(!b.contains(true));
            },
        }
        match first_id {
            Some(k) => {
                proof {
                    lemma_first_unique(d, k as int);
                    assert(d[k as int]);
                }
                Ok(k)
            },
            None => {
                assert(!d.contains(true));
                Err(KeyError::Missing)
            },
        }
    }
}

} // verus!
