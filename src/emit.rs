//! The method emitters: each turns the field model and the resolved primary
//! key into the data of one method of the `Model` implementation.
use vstd::prelude::*;
use crate::field::{DefaultRule, FieldView, RuleView, has_default};
use crate::fields::{Fields, keys_of};
use crate::naming::{table_name, is_ascii_text};

verus! {

/// What the emitted `create` does around the insert.
#[derive(Clone, Debug)]
pub struct CreateFragment {
    /// Positions of the fields without a default rule, in order: each is
    /// checked against its type's default before the insert.
    pub required: Vec<usize>,
    /// Position of the primary key where it is auto-incremented: it takes the
    /// value that the insert hands back.
    pub increments: Option<usize>,
}

/// One method of the `Model` implementation.
#[derive(Clone, Debug)]
pub enum Fragment {
    All,
    Keys(Vec<String>),
    /// `find`, keyed by the field at this position.
    Find(usize),
    Save,
    Fresh,
    Create(CreateFragment),
    Delete,
    TableName(String),
    /// `PRIMARY_KEY` and `primary_key()`, for the field at this position.
    PrimaryKey(usize),
}

/// How the companion default constructor sets one field.
#[derive(Clone, Debug)]
pub enum DefaultInit {
    /// The explicit default expression, as source text.
    Expr(String),
    /// The field type's own default.
    TypeDefault,
}

pub struct CreateView {
    pub required: Seq<usize>,
    pub increments: Option<usize>,
}

pub enum FragmentView {
    All,
    Keys(Seq<Seq<char>>),
    Find(usize),
    Save,
    Fresh,
    Create(CreateView),
    Delete,
    TableName(Seq<char>),
    PrimaryKey(usize),
}

pub enum DefaultInitView {
    Expr(Seq<char>),
    TypeDefault,
}

impl View for CreateFragment {
    type V = CreateView;

    open spec fn view(&self) -> CreateView {
        CreateView { required: self.required@, increments: self.increments }
    }
}

impl View for Fragment {
    type V = FragmentView;

    open spec fn view(&self) -> FragmentView {
        match self {
            Fragment::All => FragmentView::All,
            Fragment::Keys(k) => FragmentView::Keys(k@.map_values(|s: String| s@)),
            Fragment::Find(i) => FragmentView::Find(*i),
            Fragment::Save => FragmentView::Save,
            Fragment::Fresh => FragmentView::Fresh,
            Fragment::Create(c) => FragmentView::Create(c@),
            Fragment::Delete => FragmentView::Delete,
            Fragment::TableName(t) => FragmentView::TableName(t@),
            Fragment::PrimaryKey(i) => FragmentView::PrimaryKey(*i),
        }
    }
}

impl View for DefaultInit {
    type V = DefaultInitView;

    open spec fn view(&self) -> DefaultInitView {
        match self {
            DefaultInit::Expr(e) => DefaultInitView::Expr(e@),
            DefaultInit::TypeDefault => DefaultInitView::TypeDefault,
        }
    }
}

/// Positions of the fields among the first `n` that have no default rule.
pub open spec fn required_upto(s: Seq<FieldView>, n: nat) -> Seq<usize>
    decreases n,
{
    if n == 0 {
        seq![]
    } else {
        let p = required_upto(s, (n - 1) as nat);
        if has_default(s[n - 1]) {
            p
        } else {
            p.push((n - 1) as usize)
        }
    }
}

/// Positions of the fields that `create` requires, in order.
pub open spec fn required_of(s: Seq<FieldView>) -> Seq<usize> {
    required_upto(s, s.len())
}

/// The key that `create` overwrites after the insert, if any.
pub open spec fn increments_of(s: Seq<FieldView>, key: int) -> Option<usize> {
    if s[key].rule is Increments {
        Some(key as usize)
    } else {
        None
    }
}

pub open spec fn create_of(s: Seq<FieldView>, key: int) -> CreateView {
    CreateView { required: required_of(s), increments: increments_of(s, key) }
}

/// How the default constructor sets a field.
pub open spec fn default_init_of(f: FieldView) -> DefaultInitView {
    match f.rule {
        RuleView::Value(e) => DefaultInitView::Expr(e),
        _ => DefaultInitView::TypeDefault,
    }
}

pub open spec fn defaults_of(s: Seq<FieldView>) -> Seq<DefaultInitView> {
    s.map_values(|f: FieldView| default_init_of(f))
}

pub fn impl_all() -> (r: Fragment)
    ensures
        r@ == FragmentView::All,
{
    Fragment::All
}

pub fn impl_save() -> (r: Fragment)
    ensures
        r@ == FragmentView::Save,
{
    Fragment::Save
}

pub fn impl_fresh() -> (r: Fragment)
    ensures
        r@ == FragmentView::Fresh,
{
    Fragment::Fresh
}

pub fn impl_delete() -> (r: Fragment)
    ensures
        r@ == FragmentView::Delete,
{
    Fragment::Delete
}

/// `find`, keyed by the primary key at position `key`.
pub fn impl_find(key: usize) -> (r: Fragment)
    ensures
        r@ == FragmentView::Find(key),
{
    Fragment::Find(key)
}

/// `PRIMARY_KEY` and `primary_key()`, for the primary key at position `key`.
pub fn impl_primary_key(key: usize) -> (r: Fragment)
    ensures
        r@ == FragmentView::PrimaryKey(key),
{
    Fragment::PrimaryKey(key)
}

/// `keys()`: every field name, in declaration order.
pub fn impl_keys(fields: &Fields) -> (r: Fragment)
    ensures
        r@ == FragmentView::Keys(keys_of(fields@)),
{
    Fragment::Keys(fields.keys())
}

/// `TABLE_NAME`: the override, or the name derived from the record's name.
pub fn impl_table_name(struct_name: &str, custom_name: Option<String>) -> (r: Fragment)
    requires
        custom_name is None ==> is_ascii_text(struct_name@),
    ensures
        r@ is TableName,
        custom_name matches Some(c) ==> r@ == FragmentView::TableName(c@),
{
    Fragment::TableName(table_name(struct_name, custom_name))
}

/// `create`: the fields without a default rule are required, and an
/// auto-incremented primary key at position `key` takes the inserted value.
pub fn impl_create(fields: &Fields, key: usize) -> (r: Fragment)
    requires
        key < fields@.len(),
    ensures
        r@ == FragmentView::Create(create_of(fields@, key as int)),
{
    let ghost s = fields@;
    let mut required: Vec<usize> = Vec::new();
    let mut i: usize = 0;
    while i < fields.fields.len()
        invariant
            s == fields@,
            i <= s.len(),
            required@ == required_upto(s, i as nat),
        decreases s.len() - i,
    {
        if !fields.fields[i].has_default() {
            required.push(i);
        }
        i = i + 1;
    }
    let increments = match fields.fields[key].rule {
        DefaultRule::Increments => Some(key),
        _ => None,
    };
    Fragment::Create(CreateFragment { required, increments })
}

/// The companion default constructor: each field's explicit default
/// expression, or its type's default.
pub fn impl_default(fields: &Fields) -> (r: Vec<DefaultInit>)
    ensures
        r@.map_values(|d: DefaultInit| d@) == defaults_of(fields@),
{
    let ghost s = fields@;
    let mut inits: Vec<DefaultInit> = Vec::new();
    let mut i: usize = 0;
    while i < fields.fields.len()
        invariant
            s == fields@,
            i <= s.len(),
            inits@.len() == i,
            forall|j: int| 0 <= j < i ==> (#[trigger] inits@[j])@ == default_init_of(s[j]),
        decreases s.len() - i,
    {
        let init = match &fields.fields[i].rule {
            DefaultRule::Value(e) => DefaultInit::Expr(e.clone()),
            _ => DefaultInit::TypeDefault,
        };
        inits.push(init);
        i = i + 1;
    }
    assert(inits@.map_values(|d: DefaultInit| d@) =~= defaults_of(s));
    inits
}

/// The error that the emitted `create` raises before the insert.
#[derive(Clone, Debug, PartialEq, Eq)]
pub enum CreateError {
    /// A required field still holds its type's default; holds the field's name.
    Required(String),
}

/// The first of the required positions whose field is at its type's default.
pub open spec fn first_at_default(required: Seq<usize>, at_default: Seq<bool>) -> Option<usize>
    decreases required.len(),
{
    if required.len() == 0 {
        None
    } else if at_default[required[0] as int] {
        Some(required[0])
    } else {
        first_at_default(required.drop_first(), at_default)
    }
}

/// A record's field values after the emitted `create` has handled the
/// insert's result: an auto-incremented key takes the inserted value.
pub open spec fn after_insert<T>(c: CreateView, record: Seq<T>, inserted: T) -> Seq<T> {
    match c.increments {
        Some(k) => record.update(k as int, inserted),
        None => record,
    }
}

impl CreateFragment {
    /// The check that the emitted `create` makes before the insert, on a
    /// record where `at_default[i]` tells whether field `i` equals its type's
    /// default: the required fields are checked in order, and the first one
    /// at its default fails the check with its name.
    pub fn check(&self, fields: &Fields, at_default: &Vec<bool>) -> (r: Result<(), CreateError>)
        requires
            at_default@.len() == fields@.len(),
            forall|k: int| 0 <= k < self.required@.len() ==> #[trigger] self.required@[k] < fields@.len(),
        ensures
            match first_at_default(self.required@, at_default@) {
                None => r is Ok,
                Some(i) => r matches Err(CreateError::Required(n)) && n@ == fields@[i as int].ident,
            },
    {
        let ghost req = self.required@;
        assert(req.subrange(0, req.len() as int) =~= req);
        let mut k: usize = 0;
        while k < self.required.len()
            invariant
                k <= req.len(),
                req == self.required@,
                at_default@.len() == fields@.len(),
                forall|j: int| 0 <= j < req.len() ==> #[trigger] req[j] < fields@.len(),
                first_at_default(req, at_default@) == first_at_default(req.subrange(k as int, req.len() as int), at_default@),
            decreases req.len() - k,
        {
            let i = self.required[k];
            assert(req.subrange(k as int, req.len() as int).drop_first() =~= req.subrange(k + 1, req.len() as int));
            if at_default[i] {
                return Err(CreateError::Required(fields.fields[i].ident.clone()));
            }
            k = k + 1;
        }
        Ok(())
    }

    /// What the emitted `create` does with the insert's result, on a record
    /// given as its field values: an auto-incremented primary key takes the
    /// value that the insert assigned; otherwise the record is unchanged.
    pub fn finish<T>(&self, record: Vec<T>, inserted: T) -> (r: Vec<T>)
        requires
            self.increments matches Some(k) ==> k < record@.len(),
        ensures
            r@ == after_insert(self@, record@, inserted),
    {
        let mut record = record;
        match self.increments {
            Some(k) => {
                record.set(k, inserted);
            },
            None => {},
        }
        record
    }
}

} // verus!
