//! The schema data model: typed arenas of object types, scalar types, server
//! fields and resolvers, addressed by dense integer handles.
//!
//! A handle is an index into the owning arena; arenas are append-only, so a
//! handle minted by a schema stays valid for that schema's whole life.
//! `UnvalidatedSchema` is the mutable build-phase form, in which type
//! references are raw names; `ValidatedSchema` is the immutable form produced
//! by validation, in which every reference is a handle.

use vstd::prelude::*;

use crate::selection_types::{
    Selection, SelectionView, ValidatedSelection, ValidatedSelectionView,
};

verus! {

broadcast use vstd::seq::group_seq_axioms, vstd::std_specs::vec::group_vec_axioms;

/// A handle to a defined type, namespaced by kind.
#[derive(Clone, Copy, Debug, PartialEq, Eq, Structural)]
pub enum TypeId {
    Object(usize),
    Scalar(usize),
}

/// What an object's field-name table knows about one field name: a
/// server-defined field (with its raw output type name) or a resolver field
/// (with its field name).
#[derive(Clone, Debug, PartialEq, Eq)]
pub enum DefinedField {
    ServerField(String),
    ResolverField(String),
}

/// A scalar type: a name plus the target-language primitive it maps to.
#[derive(Clone, Debug, PartialEq, Eq)]
pub struct SchemaScalar {
    pub name: String,
    pub id: usize,
    pub javascript_name: String,
}

/// An object type: an ordered list of server field handles, an ordered list
/// of resolver handles, and a lookup table from field name to its definition,
/// used for duplicate checks and for name resolution.
#[derive(Clone, Debug, PartialEq, Eq)]
pub struct SchemaObject {
    pub name: String,
    pub id: usize,
    pub fields: Vec<usize>,
    pub resolvers: Vec<usize>,
    pub encountered_field_names: Vec<(String, DefinedField)>,
}

/// A server-defined field. `T` is the form of the field's output type: a raw
/// type name before validation, a `TypeId` after.
#[derive(Clone, Debug, PartialEq, Eq)]
pub struct SchemaField<T> {
    pub name: String,
    pub id: usize,
    pub parent_object_id: usize,
    pub field_type: T,
}

impl<T> SchemaField<T> {
    /// Splits a field into its type-independent part and its type.
    pub fn split(self) -> (r: (SchemaField<()>, T))
        ensures
            r.0.name == self.name,
            r.0.id == self.id,
            r.0.parent_object_id == self.parent_object_id,
            r.1 == self.field_type,
    {
        let SchemaField { name, id, parent_object_id, field_type } = self;
        (SchemaField { name, id, parent_object_id, field_type: () }, field_type)
    }
}

/// How a resolver is rendered at runtime: eagerly computed value, or a
/// component bound to a framework function.
#[derive(Clone, Copy, Debug, PartialEq, Eq, Structural)]
pub enum ResolverVariant {
    Component,
    Eager,
}

impl ResolverVariant {
    /// The variant's name as it appears in generated artifact text.
    pub fn variant_name(&self) -> (r: String)
        ensures
            r@ == spec_variant_name(*self),
    {
        match self {
            ResolverVariant::Component => "Component".to_owned(),
            ResolverVariant::Eager => "Eager".to_owned(),
        }
    }
}

pub open spec fn spec_variant_name(v: ResolverVariant) -> Seq<char> {
    match v {
        ResolverVariant::Component => "Component"@,
        ResolverVariant::Eager => "Eager"@,
    }
}

/// A type annotation from the schema sub-language. `T` is the form of the
/// named inner type: a raw name before validation, a handle after.
pub enum TypeAnnotation<T> {
    Named(T),
    List(Box<TypeAnnotation<T>>),
    NonNull(Box<NonNullTypeAnnotation<T>>),
}

pub enum NonNullTypeAnnotation<T> {
    Named(T),
    List(Box<TypeAnnotation<T>>),
}

/// A query variable declared by a resolver, e.g. `$id: ID!`.
pub struct VariableDefinition<T> {
    pub name: String,
    pub type_: TypeAnnotation<T>,
}

/// A resolver attached to a parent object type: the synthetic field it
/// defines, the path of the bound function, its declared selection set and
/// variables, and the flags derived from its directives.
pub struct SchemaResolverDefinitionInfo<TSel, TVar> {
    pub name: String,
    pub id: usize,
    pub parent_object_id: usize,
    pub resolver_definition_path: String,
    pub selection_set: Option<Vec<TSel>>,
    pub variable_definitions: Vec<VariableDefinition<TVar>>,
    pub variant: Option<ResolverVariant>,
    pub is_fetchable: bool,
    pub has_associated_js_function: bool,
    pub type_and_field: String,
}

/// The type arenas shared by both schema stages: object types, scalar types,
/// and the global table from defined type name to its handle.
#[derive(Clone, Debug, PartialEq, Eq)]
pub struct SchemaData {
    pub objects: Vec<SchemaObject>,
    pub scalars: Vec<SchemaScalar>,
    pub defined_types: Vec<(String, TypeId)>,
}

/// The build-phase schema: mutable, append-only, with raw type names.
pub struct UnvalidatedSchema {
    pub fields: Vec<SchemaField<String>>,
    pub resolvers: Vec<SchemaResolverDefinitionInfo<Selection, String>>,
    pub schema_data: SchemaData,
    pub id_type: usize,
    pub string_type: usize,
    pub query_type: Option<usize>,
}

/// The validated schema: structurally identical to the unvalidated one, but
/// every textual type reference is resolved to a handle. Immutable once made.
pub struct ValidatedSchema {
    pub fields: Vec<SchemaField<TypeId>>,
    pub resolvers: Vec<SchemaResolverDefinitionInfo<ValidatedSelection, usize>>,
    pub schema_data: SchemaData,
    pub id_type: usize,
    pub string_type: usize,
    pub query_type: Option<usize>,
}

// ---------------------------------------------------------------------------
// Views
// ---------------------------------------------------------------------------

#[verifier::ext_equal]
pub enum DefinedFieldView {
    ServerField(Seq<char>),
    ResolverField(Seq<char>),
}

#[verifier::ext_equal]
pub struct SchemaScalarView {
    pub name: Seq<char>,
    pub id: usize,
    pub javascript_name: Seq<char>,
}

#[verifier::ext_equal]
pub struct SchemaObjectView {
    pub name: Seq<char>,
    pub id: usize,
    pub fields: Seq<usize>,
    pub resolvers: Seq<usize>,
    pub encountered_field_names: Seq<(Seq<char>, DefinedFieldView)>,
}

#[verifier::ext_equal]
pub struct SchemaFieldView<TV> {
    pub name: Seq<char>,
    pub id: usize,
    pub parent_object_id: usize,
    pub field_type: TV,
}

#[verifier::ext_equal]
pub struct VariableDefinitionView<TV> {
    pub name: Seq<char>,
    pub type_: TypeAnnotation<TV>,
}

#[verifier::ext_equal]
pub struct SchemaResolverView<SelV, TV> {
    pub name: Seq<char>,
    pub id: usize,
    pub parent_object_id: usize,
    pub resolver_definition_path: Seq<char>,
    pub selection_set: Option<Seq<SelV>>,
    pub variable_definitions: Seq<VariableDefinitionView<TV>>,
    pub variant: Option<ResolverVariant>,
    pub is_fetchable: bool,
    pub has_associated_js_function: bool,
    pub type_and_field: Seq<char>,
}

#[verifier::ext_equal]
pub struct SchemaDataView {
    pub objects: Seq<SchemaObjectView>,
    pub scalars: Seq<SchemaScalarView>,
    pub defined_types: Seq<(Seq<char>, TypeId)>,
}

#[verifier::ext_equal]
pub struct UnvalidatedSchemaView {
    pub fields: Seq<SchemaFieldView<Seq<char>>>,
    pub resolvers: Seq<SchemaResolverView<SelectionView, Seq<char>>>,
    pub schema_data: SchemaDataView,
    pub id_type: usize,
    pub string_type: usize,
    pub query_type: Option<usize>,
}

#[verifier::ext_equal]
pub struct ValidatedSchemaView {
    pub fields: Seq<SchemaFieldView<TypeId>>,
    pub resolvers: Seq<SchemaResolverView<ValidatedSelectionView, usize>>,
    pub schema_data: SchemaDataView,
    pub id_type: usize,
    pub string_type: usize,
    pub query_type: Option<usize>,
}

impl DeepView for TypeId {
    type V = TypeId;

    open spec fn deep_view(&self) -> TypeId {
        *self
    }
}

impl DeepView for DefinedField {
    type V = DefinedFieldView;

    open spec fn deep_view(&self) -> DefinedFieldView {
        match self {
            DefinedField::ServerField(t) => DefinedFieldView::ServerField(t@),
            DefinedField::ResolverField(n) => DefinedFieldView::ResolverField(n@),
        }
    }
}

impl DeepView for SchemaScalar {
    type V = SchemaScalarView;

    open spec fn deep_view(&self) -> SchemaScalarView {
        SchemaScalarView { name: self.name@, id: self.id, javascript_name: self.javascript_name@ }
    }
}

impl DeepView for SchemaObject {
    type V = SchemaObjectView;

    open spec fn deep_view(&self) -> SchemaObjectView {
        SchemaObjectView {
            name: self.name@,
            id: self.id,
            fields: self.fields@,
            resolvers: self.resolvers@,
            encountered_field_names: self.encountered_field_names.deep_view(),
        }
    }
}

impl<T: DeepView> DeepView for SchemaField<T> {
    type V = SchemaFieldView<T::V>;

    open spec fn deep_view(&self) -> SchemaFieldView<T::V> {
        SchemaFieldView {
            name: self.name@,
            id: self.id,
            parent_object_id: self.parent_object_id,
            field_type: self.field_type.deep_view(),
        }
    }
}

pub open spec fn type_annotation_view<T: DeepView>(t: TypeAnnotation<T>) -> TypeAnnotation<T::V>
    decreases t,
{
    match t {
        TypeAnnotation::Named(x) => TypeAnnotation::Named(x.deep_view()),
        TypeAnnotation::List(inner) => TypeAnnotation::List(Box::new(type_annotation_view(*inner))),
        TypeAnnotation::NonNull(inner) => TypeAnnotation::NonNull(
            Box::new(
                match *inner {
                    NonNullTypeAnnotation::Named(x) => NonNullTypeAnnotation::Named(x.deep_view()),
                    NonNullTypeAnnotation::List(i2) => NonNullTypeAnnotation::List(
                        Box::new(type_annotation_view(*i2)),
                    ),
                },
            ),
        ),
    }
}

impl<T: DeepView> DeepView for TypeAnnotation<T> {
    type V = TypeAnnotation<T::V>;

    open spec fn deep_view(&self) -> TypeAnnotation<T::V> {
        type_annotation_view(*self)
    }
}

impl<T: DeepView> DeepView for VariableDefinition<T> {
    type V = VariableDefinitionView<T::V>;

    open spec fn deep_view(&self) -> VariableDefinitionView<T::V> {
        VariableDefinitionView { name: self.name@, type_: self.type_.deep_view() }
    }
}

impl<TSel: DeepView, TVar: DeepView> DeepView for SchemaResolverDefinitionInfo<TSel, TVar> {
    type V = SchemaResolverView<TSel::V, TVar::V>;

    open spec fn deep_view(&self) -> SchemaResolverView<TSel::V, TVar::V> {
        SchemaResolverView {
            name: self.name@,
            id: self.id,
            parent_object_id: self.parent_object_id,
            resolver_definition_path: self.resolver_definition_path@,
            selection_set: self.selection_set.deep_view(),
            variable_definitions: self.variable_definitions.deep_view(),
            variant: self.variant,
            is_fetchable: self.is_fetchable,
            has_associated_js_function: self.has_associated_js_function,
            type_and_field: self.type_and_field@,
        }
    }
}

impl DeepView for SchemaData {
    type V = SchemaDataView;

    open spec fn deep_view(&self) -> SchemaDataView {
        SchemaDataView {
            objects: self.objects.deep_view(),
            scalars: self.scalars.deep_view(),
            defined_types: self.defined_types.deep_view(),
        }
    }
}

impl DeepView for UnvalidatedSchema {
    type V = UnvalidatedSchemaView;

    open spec fn deep_view(&self) -> UnvalidatedSchemaView {
        UnvalidatedSchemaView {
            fields: self.fields.deep_view(),
            resolvers: self.resolvers.deep_view(),
            schema_data: self.schema_data.deep_view(),
            id_type: self.id_type,
            string_type: self.string_type,
            query_type: self.query_type,
        }
    }
}

impl DeepView for ValidatedSchema {
    type V = ValidatedSchemaView;

    open spec fn deep_view(&self) -> ValidatedSchemaView {
        ValidatedSchemaView {
            fields: self.fields.deep_view(),
            resolvers: self.resolvers.deep_view(),
            schema_data: self.schema_data.deep_view(),
            id_type: self.id_type,
            string_type: self.string_type,
            query_type: self.query_type,
        }
    }
}

// ---------------------------------------------------------------------------
// Name tables
// ---------------------------------------------------------------------------

/// First value associated with `name` in `entries`, searching from index `i`.
pub open spec fn lookup_pair_from<V>(entries: Seq<(Seq<char>, V)>, name: Seq<char>, i: int) -> Option<V>
    decreases entries.len() - i,
{
    if i < 0 || i >= entries.len() {
        None
    } else if entries[i].0 == name {
        Some(entries[i].1)
    } else {
        lookup_pair_from(entries, name, i + 1)
    }
}

/// First value associated with `name` in `entries`: the name-table lookup.
pub open spec fn lookup_pair<V>(entries: Seq<(Seq<char>, V)>, name: Seq<char>) -> Option<V> {
    lookup_pair_from(entries, name, 0)
}

/// A successful lookup returns a value the table holds.
pub proof fn lemma_lookup_pair_found<V>(entries: Seq<(Seq<char>, V)>, name: Seq<char>, i: int)
    ensures
        lookup_pair_from(entries, name, i) matches Some(v) ==> exists|j: int|
            i <= j < entries.len() && #[trigger] entries[j].1 == v && entries[j].0 == name,
    decreases entries.len() - i,
{
    if 0 <= i < entries.len() && !(entries[i].0 == name) {
        lemma_lookup_pair_found(entries, name, i + 1);
    }
}

/// Whether `name` is already a key of the name table `entries`.
pub fn pair_table_contains<V: DeepView>(entries: &Vec<(String, V)>, name: &String) -> (found:
    bool)
    ensures
        found == (lookup_pair(entries.deep_view(), name@) is Some),
{
    let mut i: usize = 0;
    while i < entries.len()
        invariant
            i <= entries.len(),
            lookup_pair_from(entries.deep_view(), name@, 0) == lookup_pair_from(
                entries.deep_view(),
                name@,
                i as int,
            ),
        decreases entries.len() - i,
    {
        proof {
            assert(entries.deep_view()[i as int] == entries@[i as int].deep_view());
        }
        if entries[i].0.eq(name) {
            return true;
        }
        i = i + 1;
    }
    false
}

/// The handle registered in the global type-name table for `name`, if any.
pub open spec fn spec_lookup_defined_type(data: SchemaDataView, name: Seq<char>) -> Option<TypeId> {
    lookup_pair(data.defined_types, name)
}

/// What an object's field-name table has under `name`, if anything.
pub open spec fn spec_lookup_encountered_field(
    object: SchemaObjectView,
    name: Seq<char>,
) -> Option<DefinedFieldView> {
    lookup_pair(object.encountered_field_names, name)
}

impl SchemaData {
    /// Look up a type name in the global type-name table.
    pub fn lookup_defined_type(&self, name: &String) -> (r: Option<TypeId>)
        ensures
            r == spec_lookup_defined_type(self.deep_view(), name@),
    {
        let mut i: usize = 0;
        while i < self.defined_types.len()
            invariant
                i <= self.defined_types.len(),
                lookup_pair_from(self.defined_types.deep_view(), name@, 0) == lookup_pair_from(
                    self.defined_types.deep_view(),
                    name@,
                    i as int,
                ),
            decreases self.defined_types.len() - i,
        {
            proof {
                assert(self.defined_types.deep_view()[i as int]
                    == self.defined_types@[i as int].deep_view());
            }
            if self.defined_types[i].0.eq(name) {
                return Some(self.defined_types[i].1);
            }
            i = i + 1;
        }
        None
    }

    /// The object with the given handle. A handle from another schema or out
    /// of range is a programming error, excluded by precondition.
    pub fn object(&self, object_id: usize) -> (r: &SchemaObject)
        requires
            object_id < self.objects@.len(),
        ensures
            r == self.objects@[object_id as int],
    {
        &self.objects[object_id]
    }

    /// The scalar with the given handle.
    pub fn scalar(&self, scalar_id: usize) -> (r: &SchemaScalar)
        requires
            scalar_id < self.scalars@.len(),
        ensures
            r == self.scalars@[scalar_id as int],
    {
        &self.scalars[scalar_id]
    }

    /// The type with fields behind an object handle.
    pub fn lookup_type_with_fields(&self, object_id: usize) -> (r: SchemaTypeWithFields<'_>)
        requires
            object_id < self.objects@.len(),
        ensures
            r matches SchemaTypeWithFields::Object(o) && o == self.objects@[object_id as int],
    {
        SchemaTypeWithFields::Object(&self.objects[object_id])
    }

    /// The type without fields behind a scalar handle.
    pub fn lookup_type_without_fields(&self, scalar_id: usize) -> (r: SchemaTypeWithoutFields<'_>)
        requires
            scalar_id < self.scalars@.len(),
        ensures
            r matches SchemaTypeWithoutFields::Scalar(s) && s == self.scalars@[scalar_id as int],
    {
        SchemaTypeWithoutFields::Scalar(&self.scalars[scalar_id])
    }

    /// The defined type behind any handle.
    pub fn lookup_unvalidated_type(&self, type_id: TypeId) -> (r: SchemaType<'_>)
        requires
            (type_id matches TypeId::Object(id) ==> id < self.objects@.len()),
            (type_id matches TypeId::Scalar(id) ==> id < self.scalars@.len()),
        ensures
            (match type_id {
                TypeId::Object(id) => r matches SchemaType::Object(o) && o == self.objects@[
                    id as int
                ],
                TypeId::Scalar(id) => r matches SchemaType::Scalar(s) && s == self.scalars@[
                    id as int
                ],
            }),
    {
        match type_id {
            TypeId::Object(id) => SchemaType::Object(&self.objects[id]),
            TypeId::Scalar(id) => SchemaType::Scalar(&self.scalars[id]),
        }
    }

    /// The output type behind a resolved field type handle.
    pub fn lookup_output_type(&self, output_type_id: TypeId) -> (r: SchemaOutputType<'_>)
        requires
            (output_type_id matches TypeId::Object(id) ==> id < self.objects@.len()),
            (output_type_id matches TypeId::Scalar(id) ==> id < self.scalars@.len()),
        ensures
            (match output_type_id {
                TypeId::Object(id) => r matches SchemaOutputType::Object(o) && o == self.objects@[
                    id as int
                ],
                TypeId::Scalar(id) => r matches SchemaOutputType::Scalar(s) && s == self.scalars@[
                    id as int
                ],
            }),
    {
        match output_type_id {
            TypeId::Object(id) => SchemaOutputType::Object(&self.objects[id]),
            TypeId::Scalar(id) => SchemaOutputType::Scalar(&self.scalars[id]),
        }
    }

    /// The input type behind a resolved variable type handle.
    pub fn lookup_input_type(&self, input_type_id: usize) -> (r: SchemaInputType<'_>)
        requires
            input_type_id < self.scalars@.len(),
        ensures
            r matches SchemaInputType::Scalar(s) && s == self.scalars@[input_type_id as int],
    {
        SchemaInputType::Scalar(&self.scalars[input_type_id])
    }
}

impl SchemaObject {
    /// Look up a field name in this object's field-name table.
    pub fn lookup_encountered_field(&self, name: &String) -> (r: Option<&DefinedField>)
        ensures
            match r {
                Some(df) => spec_lookup_encountered_field(self.deep_view(), name@) == Some(
                    df.deep_view(),
                ),
                None => spec_lookup_encountered_field(self.deep_view(), name@) is None,
            },
    {
        let mut i: usize = 0;
        while i < self.encountered_field_names.len()
            invariant
                i <= self.encountered_field_names.len(),
                lookup_pair_from(self.encountered_field_names.deep_view(), name@, 0)
                    == lookup_pair_from(self.encountered_field_names.deep_view(), name@, i as int),
            decreases self.encountered_field_names.len() - i,
        {
            proof {
                assert(self.encountered_field_names.deep_view()[i as int]
                    == self.encountered_field_names@[i as int].deep_view());
            }
            if self.encountered_field_names[i].0.eq(name) {
                return Some(&self.encountered_field_names[i].1);
            }
            i = i + 1;
        }
        None
    }
}

impl UnvalidatedSchema {
    /// The server field with the given handle.
    pub fn field(&self, field_id: usize) -> (r: &SchemaField<String>)
        requires
            field_id < self.fields@.len(),
        ensures
            r == self.fields@[field_id as int],
    {
        &self.fields[field_id]
    }
}

impl ValidatedSchema {
    /// The server field with the given handle.
    pub fn field(&self, field_id: usize) -> (r: &SchemaField<TypeId>)
        requires
            field_id < self.fields@.len(),
        ensures
            r == self.fields@[field_id as int],
    {
        &self.fields[field_id]
    }

    /// The resolver with the given handle.
    pub fn resolver(&self, resolver_id: usize) -> (r: &SchemaResolverDefinitionInfo<
        ValidatedSelection,
        usize,
    >)
        requires
            resolver_id < self.resolvers@.len(),
        ensures
            r == self.resolvers@[resolver_id as int],
    {
        &self.resolvers[resolver_id]
    }
}

// ---------------------------------------------------------------------------
// Borrowed views of the arenas
// ---------------------------------------------------------------------------

/// A defined type that has fields. Only object types do.
pub enum SchemaTypeWithFields<'a> {
    Object(&'a SchemaObject),
}

impl<'a> SchemaTypeWithFields<'a> {
    /// The type's field-name table.
    pub fn encountered_field_names(&self) -> (r: &'a Vec<(String, DefinedField)>)
        ensures
            (match *self {
                SchemaTypeWithFields::Object(o) => r == &o.encountered_field_names,
            }),
    {
        match self {
            SchemaTypeWithFields::Object(object) => &object.encountered_field_names,
        }
    }

    /// The type's server field handles, in declaration order.
    pub fn fields(&self) -> (r: &'a Vec<usize>)
        ensures
            (match *self {
                SchemaTypeWithFields::Object(o) => r == &o.fields,
            }),
    {
        match self {
            SchemaTypeWithFields::Object(object) => &object.fields,
        }
    }

    /// The type's name.
    pub fn name(&self) -> (r: &'a String)
        ensures
            (match *self {
                SchemaTypeWithFields::Object(o) => r == &o.name,
            }),
    {
        match self {
            SchemaTypeWithFields::Object(object) => &object.name,
        }
    }
}

/// Any defined type.
pub enum SchemaType<'a> {
    Object(&'a SchemaObject),
    Scalar(&'a SchemaScalar),
}

/// A defined type usable as a field's output type.
pub enum SchemaOutputType<'a> {
    Object(&'a SchemaObject),
    Scalar(&'a SchemaScalar),
}

impl<'a> SchemaOutputType<'a> {
    /// The type's name.
    pub fn name(&self) -> (r: &'a String)
        ensures
            (match *self {
                SchemaOutputType::Object(o) => r == &o.name,
                SchemaOutputType::Scalar(s) => r == &s.name,
            }),
    {
        match self {
            SchemaOutputType::Object(object) => &object.name,
            SchemaOutputType::Scalar(scalar) => &scalar.name,
        }
    }
}

/// A defined type usable as a variable's input type. Only scalars are.
pub enum SchemaInputType<'a> {
    Scalar(&'a SchemaScalar),
}

impl<'a> SchemaInputType<'a> {
    /// The type's name.
    pub fn name(&self) -> (r: &'a String)
        ensures
            (match *self {
                SchemaInputType::Scalar(s) => r == &s.name,
            }),
    {
        match self {
            SchemaInputType::Scalar(scalar) => &scalar.name,
        }
    }
}

/// A defined type without fields. Only scalars are.
pub enum SchemaTypeWithoutFields<'a> {
    Scalar(&'a SchemaScalar),
}

impl<'a> SchemaTypeWithoutFields<'a> {
    /// The type's name.
    pub fn name(&self) -> (r: &'a String)
        ensures
            (match *self {
                SchemaTypeWithoutFields::Scalar(s) => r == &s.name,
            }),
    {
        match self {
            SchemaTypeWithoutFields::Scalar(scalar) => &scalar.name,
        }
    }

    /// The target-language primitive the type maps to.
    pub fn javascript_name(&self) -> (r: &'a String)
        ensures
            (match *self {
                SchemaTypeWithoutFields::Scalar(s) => r == &s.javascript_name,
            }),
    {
        match self {
            SchemaTypeWithoutFields::Scalar(scalar) => &scalar.javascript_name,
        }
    }
}

// ---------------------------------------------------------------------------
// Well-formedness
// ---------------------------------------------------------------------------

/// Every entry of the global type-name table points into the owning arenas.
pub open spec fn wf_schema_data(d: SchemaDataView) -> bool {
    forall|i: int|
        0 <= i < d.defined_types.len() ==> match #[trigger] d.defined_types[i].1 {
            TypeId::Object(o) => o < d.objects.len(),
            TypeId::Scalar(s) => s < d.scalars.len(),
        }
}

/// Every resolver handle held by an object points into the resolver arena,
/// and every resolver-field entry of an object's field-name table is backed
/// by a resolver of that object with the same field name.
pub open spec fn wf_object_resolvers<SelV, TV>(
    o: SchemaObjectView,
    resolvers: Seq<SchemaResolverView<SelV, TV>>,
) -> bool {
    &&& forall|k: int| 0 <= k < o.resolvers.len() ==> #[trigger] o.resolvers[k] < resolvers.len()
    &&& forall|e: int|
        0 <= e < o.encountered_field_names.len()
            ==> (#[trigger] o.encountered_field_names[e].1 matches DefinedFieldView::ResolverField(
            n,
        ) ==> o.encountered_field_names[e].0 == n && exists|k: int|
            0 <= k < o.resolvers.len() && resolvers[#[trigger] o.resolvers[k] as int].name == n)
}

/// The build-phase invariant: the type-name table points into the arenas,
/// every resolver knows a real parent object, and objects' resolver lists and
/// field-name tables agree.
pub open spec fn wf_unvalidated_schema(s: UnvalidatedSchemaView) -> bool {
    &&& wf_schema_data(s.schema_data)
    &&& (s.query_type matches Some(q) ==> q < s.schema_data.objects.len())
    &&& forall|i: int|
        0 <= i < s.resolvers.len() ==> #[trigger] s.resolvers[i].parent_object_id
            < s.schema_data.objects.len()
    &&& forall|j: int|
        0 <= j < s.schema_data.objects.len() ==> wf_object_resolvers(
            #[trigger] s.schema_data.objects[j],
            s.resolvers,
        )
}

/// The initial schema is well formed.
pub proof fn lemma_initial_schema_wf()
    ensures
        wf_unvalidated_schema(initial_unvalidated_schema_view()),
{
}

// ---------------------------------------------------------------------------
// The empty schema
// ---------------------------------------------------------------------------

/// The scalars every schema defines before any document is processed.
pub open spec fn initial_scalars_view() -> Seq<SchemaScalarView> {
    seq![
        SchemaScalarView { name: "ID"@, id: 0, javascript_name: "string"@ },
        SchemaScalarView { name: "String"@, id: 1, javascript_name: "string"@ },
    ]
}

pub open spec fn initial_defined_types_view() -> Seq<(Seq<char>, TypeId)> {
    seq![("ID"@, TypeId::Scalar(0)), ("String"@, TypeId::Scalar(1))]
}

/// The state of a schema before any document is processed.
pub open spec fn initial_unvalidated_schema_view() -> UnvalidatedSchemaView {
    UnvalidatedSchemaView {
        fields: Seq::empty(),
        resolvers: Seq::empty(),
        schema_data: SchemaDataView {
            objects: Seq::empty(),
            scalars: initial_scalars_view(),
            defined_types: initial_defined_types_view(),
        },
        id_type: 0,
        string_type: 1,
        query_type: None,
    }
}

/// Appends a schema-defined scalar type to the scalar arena and registers its
/// name in the global type-name table, returning the new scalar's handle.
fn add_schema_defined_scalar_type(
    scalars: &mut Vec<SchemaScalar>,
    defined_types: &mut Vec<(String, TypeId)>,
    field_name: &str,
    javascript_name: &str,
) -> (scalar_id: usize)
    ensures
        scalar_id == old(scalars)@.len(),
        final(scalars).deep_view() == old(scalars).deep_view().push(
            SchemaScalarView {
                name: field_name@,
                id: old(scalars)@.len() as usize,
                javascript_name: javascript_name@,
            },
        ),
        final(defined_types).deep_view() == old(defined_types).deep_view().push(
            (field_name@, TypeId::Scalar(old(scalars)@.len() as usize)),
        ),
{
    let scalar_id = scalars.len();
    scalars.push(
        SchemaScalar {
            name: field_name.to_owned(),
            id: scalar_id,
            javascript_name: javascript_name.to_owned(),
        },
    );
    defined_types.push((field_name.to_owned(), TypeId::Scalar(scalar_id)));
    proof {
        assert(scalars.deep_view() =~= old(scalars).deep_view().push(
            SchemaScalarView {
                name: field_name@,
                id: scalar_id,
                javascript_name: javascript_name@,
            },
        ));
        assert(defined_types.deep_view() =~= old(defined_types).deep_view().push(
            (field_name@, TypeId::Scalar(scalar_id)),
        ));
    }
    scalar_id
}

impl UnvalidatedSchema {
    /// The empty schema: no objects, no fields, no resolvers, and the two
    /// schema-defined scalars `ID` and `String`, both mapping to `string`.
    pub fn new() -> (r: UnvalidatedSchema)
        ensures
            r.deep_view() == initial_unvalidated_schema_view(),
    {
        let fields: Vec<SchemaField<String>> = Vec::new();
        let resolvers: Vec<SchemaResolverDefinitionInfo<Selection, String>> = Vec::new();
        let objects: Vec<SchemaObject> = Vec::new();
        let mut scalars: Vec<SchemaScalar> = Vec::new();
        let mut defined_types: Vec<(String, TypeId)> = Vec::new();

        let id_type_id = add_schema_defined_scalar_type(
            &mut scalars,
            &mut defined_types,
            "ID",
            "string",
        );
        let string_type_id = add_schema_defined_scalar_type(
            &mut scalars,
            &mut defined_types,
            "String",
            "string",
        );

        let r = UnvalidatedSchema {
            fields,
            resolvers,
            schema_data: SchemaData { objects, scalars, defined_types },
            id_type: id_type_id,
            string_type: string_type_id,
            query_type: None,
        };
        proof {
            assert(r.deep_view() =~~= initial_unvalidated_schema_view());
        }
        r
    }
}

} // verus!
