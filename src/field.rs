//! Field descriptors: one normalized record per declared field.
use vstd::prelude::*;

verus! {

/// The options that a field's attribute carries, as written.
#[derive(Clone, Debug)]
pub struct FieldAttrs {
    pub primary_key: bool,
    pub increments: bool,
    /// The source text of an explicit default expression.
    pub default: Option<String>,
}

/// A field as declared: its name, the source text of its type, its options.
#[derive(Clone, Debug)]
pub struct RawField {
    pub ident: String,
    pub ty: String,
    pub attrs: FieldAttrs,
}

/// How a field gets its value when none is supplied.
#[derive(Clone, Debug)]
pub enum DefaultRule {
    /// The type's own default; the field is required on `create`.
    Absent,
    /// An explicit default expression, given as source text.
    Value(String),
    /// The store assigns the value on insert.
    Increments,
}

/// A normalized field.
#[derive(Clone, Debug)]
pub struct Field {
    pub ident: String,
    pub ty: String,
    pub rule: DefaultRule,
    pub primary_key: bool,
}

/// Why a field's options cannot be accepted.
#[derive(Clone, Debug, PartialEq, Eq)]
pub enum FieldError {
    /// Both an explicit default expression and `increments` were given; holds the field's name.
    ConflictingDefault(String),
}

pub enum RuleView {
    Absent,
    Value(Seq<char>),
    Increments,
}

pub struct FieldView {
    pub ident: Seq<char>,
    pub ty: Seq<char>,
    pub rule: RuleView,
    pub primary_key: bool,
}

pub struct RawFieldView {
    pub ident: Seq<char>,
    pub ty: Seq<char>,
    pub primary_key: bool,
    pub increments: bool,
    pub default: Option<Seq<char>>,
}

impl View for DefaultRule {
    type V = RuleView;

    open spec fn view(&self) -> RuleView {
        match self {
            DefaultRule::Absent => RuleView::Absent,
            DefaultRule::Value(e) => RuleView::Value(e@),
            DefaultRule::Increments => RuleView::Increments,
        }
    }
}

impl View for Field {
    type V = FieldView;

    open spec fn view(&self) -> FieldView {
        FieldView { ident: self.ident@, ty: self.ty@, rule: self.rule@, primary_key: self.primary_key }
    }
}

impl View for RawField {
    type V = RawFieldView;

    open spec fn view(&self) -> RawFieldView {
        RawFieldView {
            ident: self.ident@,
            ty: self.ty@,
            primary_key: self.attrs.primary_key,
            increments: self.attrs.increments,
            default: match self.attrs.default {
                Some(e) => Some(e@),
                None => None,
            },
        }
    }
}

/// A declared field's options are consistent: at most one default rule.
pub open spec fn raw_valid(r: RawFieldView) -> bool {
    !(r.increments && r.default is Some)
}

/// The default rule that a declared field's options give.
pub open spec fn rule_of(r: RawFieldView) -> RuleView {
    if r.increments {
        RuleView::Increments
    } else {
        match r.default {
            Some(e) => RuleView::Value(e),
            None => RuleView::Absent,
        }
    }
}

/// The descriptor of a declared field whose options are consistent.
pub open spec fn field_of(r: RawFieldView) -> FieldView {
    FieldView { ident: r.ident, ty: r.ty, rule: rule_of(r), primary_key: r.primary_key }
}

/// Whether a field carries a default rule of its own, which exempts it from the
/// required-field check of `create`. Computed once per field, from its rule.
pub open spec fn has_default(f: FieldView) -> bool {
    !(f.rule is Absent)
}

/// The name `id`, the fallback primary key.
pub open spec fn is_id(s: Seq<char>) -> bool {
    s == seq!['i', 'd']
}

impl DefaultRule {
    pub fn is_absent(&self) -> (r: bool)
        ensures
            r == (self@ is Absent),
    {
        match self {
            DefaultRule::Absent => true,
            _ => false,
        }
    }
}

impl Field {
    /// Builds the descriptor of a declared field; fails on a field that has both
    /// an explicit default expression and `increments`.
    pub fn from_raw(raw: &RawField) -> (r: Result<Field, FieldError>)
        ensures
            raw_valid(raw@) <==> r is Ok,
            r matches Ok(f) ==> f@ == field_of(raw@),
            r matches Err(e) ==> e == FieldError::ConflictingDefault(raw.ident),
    {
        let rule = match &raw.attrs.default {
            Some(e) => {
                if raw.attrs.increments {
                    return Err(FieldError::ConflictingDefault(raw.ident.clone()));
                }
                DefaultRule::Value(e.clone())
            },
            None => {
                if raw.attrs.increments {
                    DefaultRule::Increments
                } else {
                    DefaultRule::Absent
                }
            },
        };
        Ok(Field { ident: raw.ident.clone(), ty: raw.ty.clone(), rule, primary_key: raw.attrs.primary_key })
    }

    /// Whether this field has a default rule of its own (see `has_default`).
    pub fn has_default(&self) -> (r: bool)
        ensures
            r == has_default(self@),
    {
        !self.rule.is_absent()
    }

    /// Whether this field is named `id`.
    pub fn is_named_id(&self) -> (r: bool)
        ensures
            r == is_id(self.ident@),
    {
        let s = self.ident.as_str();
        let n = s.unicode_len();
        if n != 2 {
            return false;
        }
        let r = s.get_char(0) == 'i' && s.get_char(1) == 'd';
        assert(r ==> s@ =~= seq!['i', 'd']);
        r
    }
}

} // verus!
