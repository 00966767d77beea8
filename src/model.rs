//! The assembler: runs the whole analysis of one record declaration and
//! gathers what every method of its `Model` implementation needs.
use vstd::prelude::*;
use crate::field::{FieldError, FieldView, RawField, RawFieldView, raw_valid, field_of};
use crate::fields::{Fields, KeyError, raw_views, resolve_key, keys_of};
use crate::naming::is_ascii_text;
use crate::emit::{
    DefaultInit, DefaultInitView, Fragment, FragmentView, create_of, defaults_of, impl_all,
    impl_create, impl_default, impl_delete, impl_find, impl_fresh, impl_keys, impl_primary_key,
    impl_save, impl_table_name,
};

verus! {

/// Record-level options.
#[derive(Clone, Debug, Default)]
pub struct Opts {
    /// Overrides the derived table name.
    pub table_name: Option<String>,
}

/// The shape of the declared type.
#[derive(Clone, Copy, Debug, PartialEq, Eq)]
pub enum Shape {
    NamedStruct,
    TupleStruct,
    UnitStruct,
    Enum,
    Union,
}

/// A record declaration: its name, its shape and, for a struct with named
/// fields, those fields in order.
#[derive(Clone, Debug)]
pub struct StructDecl {
    pub name: String,
    pub shape: Shape,
    pub fields: Vec<RawField>,
}

/// Why no implementation can be derived.
#[derive(Clone, Debug, PartialEq, Eq)]
pub enum ModelError {
    /// The declaration is not a struct.
    NotStruct,
    /// The struct's fields are not named.
    UnnamedFields,
    /// A field's options are inconsistent.
    Field(FieldError),
    /// No unique primary key.
    Key(KeyError),
}

/// Everything the `Model` implementation of one record is emitted from.
#[derive(Clone, Debug)]
pub struct ModelImpl {
    pub name: String,
    pub fields: Fields,
    /// Position of the primary key among the fields.
    pub primary_key: usize,
    /// all, keys, find, save, fresh, create, delete, table name, primary key.
    pub methods: Vec<Fragment>,
    /// How the companion default constructor sets each field.
    pub defaults: Vec<DefaultInit>,
}

pub enum ModelErrorView {
    NotStruct,
    UnnamedFields,
    ConflictingDefault(Seq<char>),
    Key(KeyError),
}

impl View for ModelError {
    type V = ModelErrorView;

    open spec fn view(&self) -> ModelErrorView {
        match self {
            ModelError::NotStruct => ModelErrorView::NotStruct,
            ModelError::UnnamedFields => ModelErrorView::UnnamedFields,
            ModelError::Field(FieldError::ConflictingDefault(n)) => ModelErrorView::ConflictingDefault(n@),
            ModelError::Key(e) => ModelErrorView::Key(*e),
        }
    }
}

pub struct ModelView {
    pub name: Seq<char>,
    pub fields: Seq<FieldView>,
    pub primary_key: int,
    pub methods: Seq<FragmentView>,
    pub defaults: Seq<DefaultInitView>,
}

impl View for ModelImpl {
    type V = ModelView;

    open spec fn view(&self) -> ModelView {
        ModelView {
            name: self.name@,
            fields: self.fields@,
            primary_key: self.primary_key as int,
            methods: self.methods@.map_values(|m: Fragment| m@),
            defaults: self.defaults@.map_values(|d: DefaultInit| d@),
        }
    }
}

pub struct DeclView {
    pub name: Seq<char>,
    pub shape: Shape,
    pub fields: Seq<RawFieldView>,
}

impl View for StructDecl {
    type V = DeclView;

    open spec fn view(&self) -> DeclView {
        DeclView { name: self.name@, shape: self.shape, fields: raw_views(self.fields@) }
    }
}

/// The methods of the implementation, in emission order.
pub open spec fn methods_of(s: Seq<FieldView>, key: int, table: Seq<char>) -> Seq<FragmentView> {
    seq![
        FragmentView::All,
        FragmentView::Keys(keys_of(s)),
        FragmentView::Find(key as usize),
        FragmentView::Save,
        FragmentView::Fresh,
        FragmentView::Create(create_of(s, key)),
        FragmentView::Delete,
        FragmentView::TableName(table),
        FragmentView::PrimaryKey(key as usize),
    ]
}

/// The first field whose options are inconsistent, if any.
pub open spec fn first_invalid(s: Seq<RawFieldView>) -> Option<int> {
    if exists|i: int| 0 <= i < s.len() && !raw_valid(s[i]) {
        Some(choose|i: int| 0 <= i < s.len() && !raw_valid(s[i]) && forall|j: int| 0 <= j < i ==> raw_valid(#[trigger] s[j]))
    } else {
        None
    }
}

/// What the analysis of a declaration yields, given the effective table name:
/// the shape is checked first, then each field's options, then the primary key.
pub open spec fn analysis_of(d: DeclView, table: Seq<char>) -> Result<ModelView, ModelErrorView> {
    if d.shape == Shape::Enum || d.shape == Shape::Union {
        Err(ModelErrorView::NotStruct)
    } else if d.shape != Shape::NamedStruct {
        Err(ModelErrorView::UnnamedFields)
    } else if first_invalid(d.fields) is Some {
        Err(ModelErrorView::ConflictingDefault(d.fields[first_invalid(d.fields)->Some_0].ident))
    } else {
        let s = d.fields.map_values(|v: RawFieldView| field_of(v));
        match resolve_key(s) {
            Err(e) => Err(ModelErrorView::Key(e)),
            Ok(k) => Ok(ModelView {
                name: d.name,
                fields: s,
                primary_key: k,
                methods: methods_of(s, k, table),
                defaults: defaults_of(s),
            }),
        }
    }
}

/// The effective table name that an analysis result carries.
pub open spec fn table_of(m: ModelView) -> Seq<char> {
    m.methods[7]->TableName_0
}

/// Analyses a record declaration: checks its shape, builds the field model,
/// resolves the primary key once, and runs every emitter on the result.
/// Without an override, the table name is derived from the type's name, which
/// must then be ASCII.
pub fn analyze(decl: &StructDecl, opts: Opts) -> (r: Result<ModelImpl, ModelError>)
    requires
        opts.table_name is None ==> is_ascii_text(decl.name@),
    ensures
        match r {
            Ok(m) => analysis_of(decl@, table_of(m@)) == Ok::<ModelView, ModelErrorView>(m@)
                && (opts.table_name matches Some(c) ==> table_of(m@) == c@),
            Err(e) => forall|t: Seq<char>| #[trigger] analysis_of(decl@, t) == Err::<ModelView, ModelErrorView>(e@),
        },
{
    match decl.shape {
        Shape::Enum | Shape::Union => {
            return Err(ModelError::NotStruct);
        },
        Shape::TupleStruct | Shape::UnitStruct => {
            return Err(ModelError::UnnamedFields);
        },
        Shape::NamedStruct => {},
    }
    let ghost d = decl@;
    let fields = match Fields::from_raw(&decl.fields) {
        Ok(fs) => fs,
        Err(e) => {
            proof {
                let i = choose|i: int|
                    0 <= i < decl.fields@.len() && !raw_valid(decl.fields@[i]@)
                    && (forall|j: int| 0 <= j < i ==> raw_valid(#[trigger] decl.fields@[j]@))
                    && e == FieldError::ConflictingDefault(decl.fields@[i].ident);
                assert(!raw_valid(d.fields[i]));
                let f = first_invalid(d.fields)->Some_0;
                if f < i {
                    assert(raw_valid(decl.fields@[f]@));
                }
                if i < f {
                    assert(raw_valid(d.fields[i]));
                }
            }
            return Err(ModelError::Field(e));
        },
    };
    assert(first_invalid(d.fields) is None) by {
        if exists|i: int| 0 <= i < d.fields.len() && !raw_valid(d.fields[i]) {
            let i = choose|i: int| 0 <= i < d.fields.len() && !raw_valid(d.fields[i]);
            assert(raw_valid(decl.fields@[i]@));
        }
    }
    let key = match fields.primary_key() {
        Ok(k) => k,
        Err(e) => {
            return Err(ModelError::Key(e));
        },
    };
    let mut methods: Vec<Fragment> = Vec::new();
    methods.push(impl_all());
    methods.push(impl_keys(&fields));
    methods.push(impl_find(key));
    methods.push(impl_save());
    methods.push(impl_fresh());
    methods.push(impl_create(&fields, key));
    methods.push(impl_delete());
    methods.push(impl_table_name(decl.name.as_str(), opts.table_name));
    methods.push(impl_primary_key(key));
    let defaults = impl_default(&fields);
    let m = ModelImpl { name: decl.name.clone(), fields, primary_key: key, methods, defaults };
    assert(m@.methods =~= methods_of(m@.fields, key as int, table_of(m@)));
    Ok(m)
}

} // verus!
