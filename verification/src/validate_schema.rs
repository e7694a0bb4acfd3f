//! Validation: the one-way transition from an `UnvalidatedSchema` to a
//! `ValidatedSchema`.
//!
//! Every textual type reference is resolved to its handle: server field
//! output types, resolver variable types (which must name scalars), and every
//! selection in every resolver's selection set, which must name a field of
//! its parent type of the right kind — a scalar selection must reach a scalar
//! or a sibling resolver, a linked selection must reach an object type.
//! Validation is fail-fast: the first unresolvable reference aborts it.

use vstd::prelude::*;

use crate::schema_types::{
    lookup_pair, wf_schema_data, DefinedField, DefinedFieldView, NonNullTypeAnnotation, SchemaData,
    SchemaDataView, SchemaField, SchemaFieldView, SchemaObject, SchemaObjectView,
    SchemaResolverDefinitionInfo, SchemaResolverView, TypeAnnotation, TypeId, UnvalidatedSchema,
    UnvalidatedSchemaView, ValidatedSchema, ValidatedSchemaView, VariableDefinition,
    VariableDefinitionView,
};
use crate::selection_types::{
    Selection, SelectionView, ValidatedFieldRef,
    ValidatedLinkedFieldSelection, ValidatedScalarFieldSelection, ValidatedSelection,
    ValidatedSelectionView,
};

verus! {

broadcast use vstd::seq::group_seq_axioms, vstd::std_specs::vec::group_vec_axioms;

// ---------------------------------------------------------------------------
// Errors
// ---------------------------------------------------------------------------

/// Why validation rejected the schema.
#[derive(Clone, Debug, PartialEq, Eq)]
pub enum ValidationError {
    /// A field or variable names a type that is not defined.
    UnresolvedTypeReference { type_reference: String },
    /// A selection names a field its parent type does not have.
    FieldNotFoundOnParent { field_name: String, parent_type_name: String },
    /// A scalar selection reaches an object type, or a linked selection
    /// reaches a scalar or a resolver.
    SelectionKindMismatch { field_name: String, parent_type_name: String },
    /// A variable's type must name a scalar, but names an object type.
    InvalidInputType { type_reference: String },
}

#[verifier::ext_equal]
pub enum ValidationErrorView {
    UnresolvedTypeReference { type_reference: Seq<char> },
    FieldNotFoundOnParent { field_name: Seq<char>, parent_type_name: Seq<char> },
    SelectionKindMismatch { field_name: Seq<char>, parent_type_name: Seq<char> },
    InvalidInputType { type_reference: Seq<char> },
}

impl DeepView for ValidationError {
    type V = ValidationErrorView;

    open spec fn deep_view(&self) -> ValidationErrorView {
        match self {
            ValidationError::UnresolvedTypeReference { type_reference } =>
                ValidationErrorView::UnresolvedTypeReference { type_reference: type_reference@ },
            ValidationError::FieldNotFoundOnParent { field_name, parent_type_name } =>
                ValidationErrorView::FieldNotFoundOnParent {
                    field_name: field_name@,
                    parent_type_name: parent_type_name@,
                },
            ValidationError::SelectionKindMismatch { field_name, parent_type_name } =>
                ValidationErrorView::SelectionKindMismatch {
                    field_name: field_name@,
                    parent_type_name: parent_type_name@,
                },
            ValidationError::InvalidInputType { type_reference } =>
                ValidationErrorView::InvalidInputType { type_reference: type_reference@ },
        }
    }
}

impl ValidationError {
    /// A human-readable description of the error.
    pub fn message(&self) -> String {
        match self {
            ValidationError::UnresolvedTypeReference { type_reference } => {
                let mut m = "Unresolved type reference `".to_owned();
                m.append(type_reference.as_str());
                m.append("`");
                m
            },
            ValidationError::FieldNotFoundOnParent { field_name, parent_type_name } => {
                let mut m = "The field `".to_owned();
                m.append(field_name.as_str());
                m.append("` does not exist on type `");
                m.append(parent_type_name.as_str());
                m.append("`");
                m
            },
            ValidationError::SelectionKindMismatch { field_name, parent_type_name } => {
                let mut m = "The selection of field `".to_owned();
                m.append(field_name.as_str());
                m.append("` on type `");
                m.append(parent_type_name.as_str());
                m.append("` does not match the field's kind");
                m
            },
            ValidationError::InvalidInputType { type_reference } => {
                let mut m = "The type `".to_owned();
                m.append(type_reference.as_str());
                m.append("` cannot be used as an input type");
                m
            },
        }
    }
}

// ---------------------------------------------------------------------------
// Specification
// ---------------------------------------------------------------------------

/// Resolving one variable type annotation: every named type must be a
/// defined scalar.
pub open spec fn spec_validate_annotation(
    defined_types: Seq<(Seq<char>, TypeId)>,
    t: TypeAnnotation<Seq<char>>,
) -> Result<TypeAnnotation<usize>, ValidationErrorView>
    decreases t,
{
    match t {
        TypeAnnotation::Named(name) => match lookup_pair(defined_types, name) {
            None => Err(ValidationErrorView::UnresolvedTypeReference { type_reference: name }),
            Some(TypeId::Scalar(sid)) => Ok(TypeAnnotation::Named(sid)),
            Some(TypeId::Object(_)) => Err(
                ValidationErrorView::InvalidInputType { type_reference: name },
            ),
        },
        TypeAnnotation::List(inner) => match spec_validate_annotation(defined_types, *inner) {
            Err(e) => Err(e),
            Ok(v) => Ok(TypeAnnotation::List(Box::new(v))),
        },
        TypeAnnotation::NonNull(inner) => match *inner {
            NonNullTypeAnnotation::Named(name) => match lookup_pair(defined_types, name) {
                None => Err(ValidationErrorView::UnresolvedTypeReference { type_reference: name }),
                Some(TypeId::Scalar(sid)) => Ok(
                    TypeAnnotation::NonNull(Box::new(NonNullTypeAnnotation::Named(sid))),
                ),
                Some(TypeId::Object(_)) => Err(
                    ValidationErrorView::InvalidInputType { type_reference: name },
                ),
            },
            NonNullTypeAnnotation::List(i2) => match spec_validate_annotation(defined_types, *i2) {
                Err(e) => Err(e),
                Ok(v) => Ok(TypeAnnotation::NonNull(Box::new(NonNullTypeAnnotation::List(Box::new(v))))),
            },
        },
    }
}

/// Resolving a resolver's variable definitions, in order.
pub open spec fn spec_validate_variable_definitions(
    defined_types: Seq<(Seq<char>, TypeId)>,
    vds: Seq<VariableDefinitionView<Seq<char>>>,
) -> Result<Seq<VariableDefinitionView<usize>>, ValidationErrorView>
    decreases vds.len(),
{
    if vds.len() == 0 {
        Ok(Seq::empty())
    } else {
        match spec_validate_annotation(defined_types, vds[0].type_) {
            Err(e) => Err(e),
            Ok(t) => match spec_validate_variable_definitions(defined_types, vds.drop_first()) {
                Err(e) => Err(e),
                Ok(rest) => Ok(
                    seq![VariableDefinitionView { name: vds[0].name, type_: t }] + rest,
                ),
            },
        }
    }
}

/// Validating one selection against its parent object type.
pub open spec fn spec_validate_selection(
    data: SchemaDataView,
    parent: SchemaObjectView,
    sel: SelectionView,
) -> Result<ValidatedSelectionView, ValidationErrorView>
    decreases sel,
{
    match sel {
        SelectionView::ScalarField { name, alias, arguments } => match lookup_pair(
            parent.encountered_field_names,
            name,
        ) {
            None => Err(ValidationErrorView::FieldNotFoundOnParent {
                field_name: name,
                parent_type_name: parent.name,
            }),
            Some(DefinedFieldView::ResolverField(_)) => Ok(ValidatedSelectionView::ScalarField {
                name,
                alias,
                arguments,
                field: ValidatedFieldRef::Resolver,
            }),
            Some(DefinedFieldView::ServerField(target)) => match lookup_pair(
                data.defined_types,
                target,
            ) {
                None => Err(ValidationErrorView::UnresolvedTypeReference {
                    type_reference: target,
                }),
                Some(TypeId::Scalar(sid)) => Ok(ValidatedSelectionView::ScalarField {
                    name,
                    alias,
                    arguments,
                    field: ValidatedFieldRef::Server(sid),
                }),
                Some(TypeId::Object(_)) => Err(ValidationErrorView::SelectionKindMismatch {
                    field_name: name,
                    parent_type_name: parent.name,
                }),
            },
        },
        SelectionView::LinkedField { name, alias, arguments, selections } => match lookup_pair(
            parent.encountered_field_names,
            name,
        ) {
            None => Err(ValidationErrorView::FieldNotFoundOnParent {
                field_name: name,
                parent_type_name: parent.name,
            }),
            Some(DefinedFieldView::ResolverField(_)) => Err(
                ValidationErrorView::SelectionKindMismatch {
                    field_name: name,
                    parent_type_name: parent.name,
                },
            ),
            Some(DefinedFieldView::ServerField(target)) => match lookup_pair(
                data.defined_types,
                target,
            ) {
                None => Err(ValidationErrorView::UnresolvedTypeReference {
                    type_reference: target,
                }),
                Some(TypeId::Scalar(_)) => Err(ValidationErrorView::SelectionKindMismatch {
                    field_name: name,
                    parent_type_name: parent.name,
                }),
                Some(TypeId::Object(oid)) => match spec_validate_selections(
                    data,
                    data.objects[oid as int],
                    selections,
                ) {
                    Err(e) => Err(e),
                    Ok(nested) => Ok(ValidatedSelectionView::LinkedField {
                        name,
                        alias,
                        arguments,
                        object_id: oid,
                        selections: nested,
                    }),
                },
            },
        },
    }
}

/// Validating a selection set is validating its entries in order.
pub open spec fn spec_validate_selections(
    data: SchemaDataView,
    parent: SchemaObjectView,
    sels: Seq<SelectionView>,
) -> Result<Seq<ValidatedSelectionView>, ValidationErrorView>
    decreases sels,
{
    if sels.len() == 0 {
        Ok(Seq::empty())
    } else {
        match spec_validate_selection(data, parent, sels[0]) {
            Err(e) => Err(e),
            Ok(v) => match spec_validate_selections(data, parent, sels.drop_first()) {
                Err(e) => Err(e),
                Ok(rest) => Ok(seq![v] + rest),
            },
        }
    }
}

/// Resolving one server field's output type name.
pub open spec fn spec_validate_field(
    defined_types: Seq<(Seq<char>, TypeId)>,
    f: SchemaFieldView<Seq<char>>,
) -> Result<SchemaFieldView<TypeId>, ValidationErrorView> {
    match lookup_pair(defined_types, f.field_type) {
        None => Err(ValidationErrorView::UnresolvedTypeReference { type_reference: f.field_type }),
        Some(tid) => Ok(
            SchemaFieldView {
                name: f.name,
                id: f.id,
                parent_object_id: f.parent_object_id,
                field_type: tid,
            },
        ),
    }
}

pub open spec fn spec_validate_fields(
    defined_types: Seq<(Seq<char>, TypeId)>,
    fs: Seq<SchemaFieldView<Seq<char>>>,
) -> Result<Seq<SchemaFieldView<TypeId>>, ValidationErrorView>
    decreases fs.len(),
{
    if fs.len() == 0 {
        Ok(Seq::empty())
    } else {
        match spec_validate_field(defined_types, fs[0]) {
            Err(e) => Err(e),
            Ok(v) => match spec_validate_fields(defined_types, fs.drop_first()) {
                Err(e) => Err(e),
                Ok(rest) => Ok(seq![v] + rest),
            },
        }
    }
}

/// Validating one resolver: its selection set against its parent type, and
/// its variable definitions.
pub open spec fn spec_validate_resolver(
    data: SchemaDataView,
    r: SchemaResolverView<SelectionView, Seq<char>>,
) -> Result<SchemaResolverView<ValidatedSelectionView, usize>, ValidationErrorView> {
    let parent = data.objects[r.parent_object_id as int];
    let sels = match r.selection_set {
        None => Ok(None),
        Some(sels) => match spec_validate_selections(data, parent, sels) {
            Err(e) => Err(e),
            Ok(v) => Ok(Some(v)),
        },
    };
    match sels {
        Err(e) => Err(e),
        Ok(selection_set) => match spec_validate_variable_definitions(
            data.defined_types,
            r.variable_definitions,
        ) {
            Err(e) => Err(e),
            Ok(variable_definitions) => Ok(
                SchemaResolverView {
                    name: r.name,
                    id: r.id,
                    parent_object_id: r.parent_object_id,
                    resolver_definition_path: r.resolver_definition_path,
                    selection_set,
                    variable_definitions,
                    variant: r.variant,
                    is_fetchable: r.is_fetchable,
                    has_associated_js_function: r.has_associated_js_function,
                    type_and_field: r.type_and_field,
                },
            ),
        },
    }
}

pub open spec fn spec_validate_resolvers(
    data: SchemaDataView,
    rs: Seq<SchemaResolverView<SelectionView, Seq<char>>>,
) -> Result<Seq<SchemaResolverView<ValidatedSelectionView, usize>>, ValidationErrorView>
    decreases rs.len(),
{
    if rs.len() == 0 {
        Ok(Seq::empty())
    } else {
        match spec_validate_resolver(data, rs[0]) {
            Err(e) => Err(e),
            Ok(v) => match spec_validate_resolvers(data, rs.drop_first()) {
                Err(e) => Err(e),
                Ok(rest) => Ok(seq![v] + rest),
            },
        }
    }
}

/// What validating a whole schema does: resolve every server field's type,
/// then every resolver's selections and variables, keeping everything else
/// (the arenas, the name tables, the well-known handles) as it is.
pub open spec fn spec_validate_schema(s: UnvalidatedSchemaView) -> Result<
    ValidatedSchemaView,
    ValidationErrorView,
> {
    match spec_validate_fields(s.schema_data.defined_types, s.fields) {
        Err(e) => Err(e),
        Ok(fields) => match spec_validate_resolvers(s.schema_data, s.resolvers) {
            Err(e) => Err(e),
            Ok(resolvers) => Ok(
                ValidatedSchemaView {
                    fields,
                    resolvers,
                    schema_data: s.schema_data,
                    id_type: s.id_type,
                    string_type: s.string_type,
                    query_type: s.query_type,
                },
            ),
        },
    }
}

// ---------------------------------------------------------------------------
// Well-formedness of the validated schema
// ---------------------------------------------------------------------------

/// Every named type in a resolved variable annotation is a scalar handle in
/// range.
pub open spec fn wf_input_annotation(scalars_len: int, t: TypeAnnotation<usize>) -> bool
    decreases t,
{
    match t {
        TypeAnnotation::Named(sid) => sid < scalars_len,
        TypeAnnotation::List(inner) => wf_input_annotation(scalars_len, *inner),
        TypeAnnotation::NonNull(inner) => match *inner {
            NonNullTypeAnnotation::Named(sid) => sid < scalars_len,
            NonNullTypeAnnotation::List(i2) => wf_input_annotation(scalars_len, *i2),
        },
    }
}

/// Every handle a validated selection carries points into its arena, and a
/// resolver-field selection is backed by a resolver of its parent type under
/// the selection's field name.
pub open spec fn wf_validated_selection(
    s: ValidatedSchemaView,
    parent: SchemaObjectView,
    sel: ValidatedSelectionView,
) -> bool
    decreases sel,
{
    match sel {
        ValidatedSelectionView::ScalarField { name, field, .. } => match field {
            ValidatedFieldRef::Server(sid) => sid < s.schema_data.scalars.len(),
            ValidatedFieldRef::Resolver => exists|k: int|
                0 <= k < parent.resolvers.len() && #[trigger] parent.resolvers[k]
                    < s.resolvers.len() && s.resolvers[parent.resolvers[k] as int].name == name,
        },
        ValidatedSelectionView::LinkedField { object_id, selections, .. } => {
            &&& object_id < s.schema_data.objects.len()
            &&& wf_validated_selections(s, s.schema_data.objects[object_id as int], selections)
        },
    }
}

pub open spec fn wf_validated_selections(
    s: ValidatedSchemaView,
    parent: SchemaObjectView,
    sels: Seq<ValidatedSelectionView>,
) -> bool
    decreases sels,
{
    if sels.len() == 0 {
        true
    } else {
        wf_validated_selection(s, parent, sels[0]) && wf_validated_selections(
            s,
            parent,
            sels.drop_first(),
        )
    }
}

/// The invariant of a validated schema that artifact generation relies on:
/// every handle points into its arena, every object's resolver list is in
/// range, every resolver's selection set is well formed against its parent
/// type, and every variable type names a scalar in range.
pub open spec fn wf_validated_schema(s: ValidatedSchemaView) -> bool {
    &&& (s.query_type matches Some(q) ==> q < s.schema_data.objects.len())
    &&& forall|j: int, k: int|
        0 <= j < s.schema_data.objects.len() && 0 <= k
            < s.schema_data.objects[j].resolvers.len()
            ==> #[trigger] s.schema_data.objects[j].resolvers[k] < s.resolvers.len()
    &&& forall|i: int|
        0 <= i < s.resolvers.len() ==> #[trigger] s.resolvers[i].parent_object_id
            < s.schema_data.objects.len()
    &&& forall|i: int|
        0 <= i < s.resolvers.len() ==> (#[trigger] s.resolvers[i].selection_set matches Some(sels)
            ==> wf_validated_selections(
            s,
            s.schema_data.objects[s.resolvers[i].parent_object_id as int],
            sels,
        ))
    &&& forall|i: int, v: int|
        0 <= i < s.resolvers.len() && 0 <= v < s.resolvers[i].variable_definitions.len()
            ==> wf_input_annotation(
            s.schema_data.scalars.len() as int,
            #[trigger] s.resolvers[i].variable_definitions[v].type_,
        )
}

// ---------------------------------------------------------------------------
// Validation establishes the validated invariant
// ---------------------------------------------------------------------------

/// A resolved annotation's scalar handles are in range.
pub proof fn lemma_validate_annotation_wf(data: SchemaDataView, t: TypeAnnotation<Seq<char>>)
    requires
        wf_schema_data(data),
    ensures
        spec_validate_annotation(data.defined_types, t) matches Ok(v) ==> wf_input_annotation(
            data.scalars.len() as int,
            v,
        ),
    decreases t,
{
    match t {
        TypeAnnotation::Named(name) => {
            crate::schema_types::lemma_lookup_pair_found(data.defined_types, name, 0);
        },
        TypeAnnotation::List(inner) => {
            lemma_validate_annotation_wf(data, *inner);
        },
        TypeAnnotation::NonNull(inner) => match *inner {
            NonNullTypeAnnotation::Named(name) => {
                crate::schema_types::lemma_lookup_pair_found(data.defined_types, name, 0);
            },
            NonNullTypeAnnotation::List(i2) => {
                lemma_validate_annotation_wf(data, *i2);
            },
        },
    }
}

/// All resolved variable annotations have scalar handles in range.
pub proof fn lemma_validate_variable_definitions_wf(
    data: SchemaDataView,
    vds: Seq<VariableDefinitionView<Seq<char>>>,
)
    requires
        wf_schema_data(data),
    ensures
        spec_validate_variable_definitions(data.defined_types, vds) matches Ok(v) ==> forall|
            i: int,
        |
            0 <= i < v.len() ==> wf_input_annotation(
                data.scalars.len() as int,
                #[trigger] v[i].type_,
            ),
    decreases vds.len(),
{
    if vds.len() > 0 {
        lemma_validate_annotation_wf(data, vds[0].type_);
        lemma_validate_variable_definitions_wf(data, vds.drop_first());
        if spec_validate_variable_definitions(data.defined_types, vds) is Ok {
            let v = spec_validate_variable_definitions(data.defined_types, vds)->Ok_0;
            let t = spec_validate_annotation(data.defined_types, vds[0].type_)->Ok_0;
            let rest = spec_validate_variable_definitions(
                data.defined_types,
                vds.drop_first(),
            )->Ok_0;
            assert(v[0] == (seq![VariableDefinitionView { name: vds[0].name, type_: t }] + rest)[0]);
            assert forall|i: int| 0 <= i < v.len() implies wf_input_annotation(
                data.scalars.len() as int,
                #[trigger] v[i].type_,
            ) by {
                if i > 0 {
                    assert(v[i] == rest[i - 1]);
                }
            }
        }
    }
}

/// Validated resolvers parallel the unvalidated ones entry by entry.
pub proof fn lemma_validate_resolvers_pointwise(
    data: SchemaDataView,
    rs: Seq<SchemaResolverView<SelectionView, Seq<char>>>,
)
    ensures
        spec_validate_resolvers(data, rs) matches Ok(vrs) ==> vrs.len() == rs.len() && forall|
            i: int,
        |
            0 <= i < rs.len() ==> spec_validate_resolver(data, rs[i]) == Ok::<
                _,
                ValidationErrorView,
            >(#[trigger] vrs[i]),
    decreases rs.len(),
{
    if rs.len() > 0 && spec_validate_resolvers(data, rs) is Ok {
        lemma_validate_resolvers_pointwise(data, rs.drop_first());
        let vrs = spec_validate_resolvers(data, rs)->Ok_0;
        let v0 = spec_validate_resolver(data, rs[0])->Ok_0;
        let rest = spec_validate_resolvers(data, rs.drop_first())->Ok_0;
        assert(vrs == seq![v0] + rest);
        assert forall|i: int| 0 <= i < rs.len() implies spec_validate_resolver(data, rs[i]) == Ok::<
            _,
            ValidationErrorView,
        >(#[trigger] vrs[i]) by {
            if i == 0 {
                assert(vrs[0] == v0);
            } else {
                assert(vrs[i] == rest[i - 1]);
                assert(rs.drop_first()[i - 1] == rs[i]);
            }
        }
    }
}

/// Validated selections are well formed against the validated schema,
/// provided its resolvers keep the unvalidated resolvers' names.
pub proof fn lemma_validate_selections_wf(
    u: UnvalidatedSchemaView,
    v: ValidatedSchemaView,
    parent: SchemaObjectView,
    sels: Seq<SelectionView>,
)
    requires
        crate::schema_types::wf_unvalidated_schema(u),
        v.schema_data == u.schema_data,
        v.resolvers.len() == u.resolvers.len(),
        forall|i: int|
            0 <= i < u.resolvers.len() ==> (#[trigger] v.resolvers[i]).name
                == u.resolvers[i].name,
        crate::schema_types::wf_object_resolvers(parent, u.resolvers),
    ensures
        spec_validate_selections(u.schema_data, parent, sels) matches Ok(vsels)
            ==> wf_validated_selections(v, parent, vsels),
    decreases sels, 1int,
{
    if sels.len() > 0 && spec_validate_selections(u.schema_data, parent, sels) is Ok {
        lemma_validate_selection_wf(u, v, parent, sels[0]);
        lemma_validate_selections_wf(u, v, parent, sels.drop_first());
        let vsels = spec_validate_selections(u.schema_data, parent, sels)->Ok_0;
        let v0 = spec_validate_selection(u.schema_data, parent, sels[0])->Ok_0;
        let rest = spec_validate_selections(u.schema_data, parent, sels.drop_first())->Ok_0;
        assert(vsels == seq![v0] + rest);
        assert(vsels[0] == v0);
        assert(vsels.drop_first() =~= rest);
    }
}

pub proof fn lemma_validate_selection_wf(
    u: UnvalidatedSchemaView,
    v: ValidatedSchemaView,
    parent: SchemaObjectView,
    sel: SelectionView,
)
    requires
        crate::schema_types::wf_unvalidated_schema(u),
        v.schema_data == u.schema_data,
        v.resolvers.len() == u.resolvers.len(),
        forall|i: int|
            0 <= i < u.resolvers.len() ==> (#[trigger] v.resolvers[i]).name
                == u.resolvers[i].name,
        crate::schema_types::wf_object_resolvers(parent, u.resolvers),
    ensures
        spec_validate_selection(u.schema_data, parent, sel) matches Ok(vsel)
            ==> wf_validated_selection(v, parent, vsel),
    decreases sel, 0int,
{
    match sel {
        SelectionView::ScalarField { name, .. } => {
            crate::schema_types::lemma_lookup_pair_found(parent.encountered_field_names, name, 0);
            match crate::schema_types::lookup_pair(parent.encountered_field_names, name) {
                Some(DefinedFieldView::ServerField(target)) => {
                    crate::schema_types::lemma_lookup_pair_found(
                        u.schema_data.defined_types,
                        target,
                        0,
                    );
                },
                Some(DefinedFieldView::ResolverField(n)) => {
                    let e = choose|j: int|
                        0 <= j < parent.encountered_field_names.len()
                            && #[trigger] parent.encountered_field_names[j].1
                            == DefinedFieldView::ResolverField(n)
                            && parent.encountered_field_names[j].0 == name;
                    assert(parent.encountered_field_names[e].0 == n);
                    let k0 = choose|k: int|
                        0 <= k < parent.resolvers.len() && u.resolvers[
                        #[trigger] parent.resolvers[k] as int
                    ].name == n;
                    assert(v.resolvers[parent.resolvers[k0] as int].name == name);
                },
                None => {},
            }
        },
        SelectionView::LinkedField { name, selections, .. } => {
            crate::schema_types::lemma_lookup_pair_found(parent.encountered_field_names, name, 0);
            match crate::schema_types::lookup_pair(parent.encountered_field_names, name) {
                Some(DefinedFieldView::ServerField(target)) => {
                    crate::schema_types::lemma_lookup_pair_found(
                        u.schema_data.defined_types,
                        target,
                        0,
                    );
                    match crate::schema_types::lookup_pair(u.schema_data.defined_types, target) {
                        Some(TypeId::Object(oid)) => {
                            assert(crate::schema_types::wf_object_resolvers(
                                u.schema_data.objects[oid as int],
                                u.resolvers,
                            ));
                            lemma_validate_selections_wf(
                                u,
                                v,
                                u.schema_data.objects[oid as int],
                                selections,
                            );
                        },
                        _ => {},
                    }
                },
                _ => {},
            }
        },
    }
}

/// A schema that validates is well formed for artifact generation.
pub proof fn lemma_validate_schema_wf(s: UnvalidatedSchemaView)
    requires
        crate::schema_types::wf_unvalidated_schema(s),
    ensures
        spec_validate_schema(s) matches Ok(v) ==> wf_validated_schema(v),
{
    if spec_validate_schema(s) is Ok {
        let v = spec_validate_schema(s)->Ok_0;
        lemma_validate_resolvers_pointwise(s.schema_data, s.resolvers);
        let vrs = spec_validate_resolvers(s.schema_data, s.resolvers)->Ok_0;
        assert forall|i: int| 0 <= i < v.resolvers.len() implies ((
        #[trigger] v.resolvers[i].selection_set) matches Some(sels) ==> wf_validated_selections(
            v,
            v.schema_data.objects[v.resolvers[i].parent_object_id as int],
            sels,
        )) by {
            let r = s.resolvers[i];
            let vr = v.resolvers[i];
            assert(spec_validate_resolver(s.schema_data, r) == Ok::<_, ValidationErrorView>(vr));
            let parent = s.schema_data.objects[r.parent_object_id as int];
            assert(crate::schema_types::wf_object_resolvers(parent, s.resolvers));
            match r.selection_set {
                Some(ss) => {
                    lemma_validate_selections_wf(s, v, parent, ss);
                },
                None => {},
            }
        }
        assert forall|i: int, vd: int|
            0 <= i < v.resolvers.len() && 0 <= vd
                < v.resolvers[i].variable_definitions.len() implies wf_input_annotation(
            v.schema_data.scalars.len() as int,
            #[trigger] v.resolvers[i].variable_definitions[vd].type_,
        ) by {
            let r = s.resolvers[i];
            assert(spec_validate_resolver(s.schema_data, r) == Ok::<_, ValidationErrorView>(
                v.resolvers[i],
            ));
            lemma_validate_variable_definitions_wf(s.schema_data, r.variable_definitions);
        }
    }
}

// ---------------------------------------------------------------------------
// Executable code
// ---------------------------------------------------------------------------

/// Resolves one variable type annotation to scalar handles.
fn validate_annotation(data: &SchemaData, t: &TypeAnnotation<String>) -> (r: Result<
    TypeAnnotation<usize>,
    ValidationError,
>)
    ensures
        match r {
            Ok(v) => spec_validate_annotation(data.deep_view().defined_types, t.deep_view())
                == Ok::<_, ValidationErrorView>(v.deep_view()),
            Err(e) => spec_validate_annotation(data.deep_view().defined_types, t.deep_view())
                == Err::<TypeAnnotation<usize>, _>(e.deep_view()),
        },
    decreases t,
{
    match t {
        TypeAnnotation::Named(name) => match data.lookup_defined_type(name) {
            None => Err(ValidationError::UnresolvedTypeReference { type_reference: name.clone() }),
            Some(TypeId::Scalar(sid)) => Ok(TypeAnnotation::Named(sid)),
            Some(TypeId::Object(_)) => Err(
                ValidationError::InvalidInputType { type_reference: name.clone() },
            ),
        },
        TypeAnnotation::List(inner) => match validate_annotation(data, inner) {
            Err(e) => Err(e),
            Ok(v) => Ok(TypeAnnotation::List(Box::new(v))),
        },
        TypeAnnotation::NonNull(inner) => match &**inner {
            NonNullTypeAnnotation::Named(name) => match data.lookup_defined_type(name) {
                None => Err(
                    ValidationError::UnresolvedTypeReference { type_reference: name.clone() },
                ),
                Some(TypeId::Scalar(sid)) => Ok(
                    TypeAnnotation::NonNull(Box::new(NonNullTypeAnnotation::Named(sid))),
                ),
                Some(TypeId::Object(_)) => Err(
                    ValidationError::InvalidInputType { type_reference: name.clone() },
                ),
            },
            NonNullTypeAnnotation::List(i2) => match validate_annotation(data, i2) {
                Err(e) => Err(e),
                Ok(v) => Ok(
                    TypeAnnotation::NonNull(Box::new(NonNullTypeAnnotation::List(Box::new(v)))),
                ),
            },
        },
    }
}

/// Resolves a resolver's variable definitions, in order.
fn validate_variable_definitions(
    data: &SchemaData,
    vds: &Vec<VariableDefinition<String>>,
) -> (r: Result<Vec<VariableDefinition<usize>>, ValidationError>)
    ensures
        match r {
            Ok(v) => spec_validate_variable_definitions(
                data.deep_view().defined_types,
                vds.deep_view(),
            ) == Ok::<_, ValidationErrorView>(v.deep_view()),
            Err(e) => spec_validate_variable_definitions(
                data.deep_view().defined_types,
                vds.deep_view(),
            ) == Err::<Seq<VariableDefinitionView<usize>>, _>(e.deep_view()),
        },
    decreases vds@.len(),
{
    let ghost all = vds.deep_view();
    let mut out: Vec<VariableDefinition<usize>> = Vec::new();
    let mut i: usize = 0;
    proof {
        assert(all.subrange(0, all.len() as int) =~= all);
    }
    while i < vds.len()
        invariant
            i <= vds@.len(),
            all == vds.deep_view(),
            match spec_validate_variable_definitions(
                data.deep_view().defined_types,
                all.subrange(i as int, all.len() as int),
            ) {
                Ok(rest) => spec_validate_variable_definitions(data.deep_view().defined_types, all)
                    == Ok::<_, ValidationErrorView>(out.deep_view() + rest),
                Err(e) => spec_validate_variable_definitions(data.deep_view().defined_types, all)
                    == Err::<Seq<VariableDefinitionView<usize>>, _>(e),
            },
        decreases vds@.len() - i,
    {
        let ghost suffix = all.subrange(i as int, all.len() as int);
        proof {
            assert(suffix[0] == all[i as int]);
            assert(all[i as int] == vds@[i as int].deep_view());
            assert(suffix.drop_first() =~= all.subrange(i as int + 1, all.len() as int));
        }
        let vd = &vds[i];
        let ghost out_pre = out.deep_view();
        match validate_annotation(data, &vd.type_) {
            Err(e) => {
                return Err(e);
            },
            Ok(t) => {
                let ghost vdv = VariableDefinitionView { name: vd.name@, type_: t.deep_view() };
                out.push(VariableDefinition { name: vd.name.clone(), type_: t });
                proof {
                    assert(out.deep_view() =~= out_pre.push(vdv));
                    let dts = data.deep_view().defined_types;
                    match spec_validate_variable_definitions(dts, suffix.drop_first()) {
                        Ok(rest) => {
                            assert(out.deep_view() + rest =~= out_pre + (seq![vdv] + rest));
                        },
                        Err(_) => {},
                    }
                }
            },
        }
        i = i + 1;
    }
    proof {
        assert(all.subrange(i as int, all.len() as int).len() == 0);
        assert(out.deep_view() + Seq::<VariableDefinitionView<usize>>::empty() =~= out.deep_view());
    }
    Ok(out)
}

/// Validates one declared selection against its parent object type.
fn validate_selection(data: &SchemaData, parent: &SchemaObject, sel: &Selection) -> (r: Result<
    ValidatedSelection,
    ValidationError,
>)
    requires
        wf_schema_data(data.deep_view()),
    ensures
        match r {
            Ok(v) => spec_validate_selection(data.deep_view(), parent.deep_view(), sel.deep_view())
                == Ok::<_, ValidationErrorView>(v.deep_view()),
            Err(e) => spec_validate_selection(
                data.deep_view(),
                parent.deep_view(),
                sel.deep_view(),
            ) == Err::<ValidatedSelectionView, _>(e.deep_view()),
        },
    decreases sel, 0int,
{
    match sel {
        Selection::ScalarField(f) => match parent.lookup_encountered_field(&f.name) {
            None => Err(
                ValidationError::FieldNotFoundOnParent {
                    field_name: f.name.clone(),
                    parent_type_name: parent.name.clone(),
                },
            ),
            Some(DefinedField::ResolverField(_)) => {
                let v = ValidatedSelection::ScalarField(
                    ValidatedScalarFieldSelection {
                        name: f.name.clone(),
                        alias: crate::selection_types::clone_alias(&f.alias),
                        arguments: crate::selection_types::clone_arguments(&f.arguments),
                        field: ValidatedFieldRef::Resolver,
                    },
                );
                proof {
                    let tw = spec_validate_selection(
                        data.deep_view(),
                        parent.deep_view(),
                        sel.deep_view(),
                    );
                    assert(sel.deep_view() matches SelectionView::ScalarField { .. });
                    assert(tw is Ok);
                    assert(v.deep_view() =~~= tw->Ok_0);
                }
                Ok(v)
            },
            Some(DefinedField::ServerField(target)) => match data.lookup_defined_type(target) {
                None => Err(
                    ValidationError::UnresolvedTypeReference { type_reference: target.clone() },
                ),
                Some(TypeId::Scalar(sid)) => {
                    let v = ValidatedSelection::ScalarField(
                        ValidatedScalarFieldSelection {
                            name: f.name.clone(),
                            alias: crate::selection_types::clone_alias(&f.alias),
                            arguments: crate::selection_types::clone_arguments(&f.arguments),
                            field: ValidatedFieldRef::Server(sid),
                        },
                    );
                    proof {
                        let tw = spec_validate_selection(
                            data.deep_view(),
                            parent.deep_view(),
                            sel.deep_view(),
                        );
                        assert(tw is Ok);
                        assert(v.deep_view() =~~= tw->Ok_0);
                    }
                    Ok(v)
                },
                Some(TypeId::Object(_)) => Err(
                    ValidationError::SelectionKindMismatch {
                        field_name: f.name.clone(),
                        parent_type_name: parent.name.clone(),
                    },
                ),
            },
        },
        Selection::LinkedField(f) => match parent.lookup_encountered_field(&f.name) {
            None => Err(
                ValidationError::FieldNotFoundOnParent {
                    field_name: f.name.clone(),
                    parent_type_name: parent.name.clone(),
                },
            ),
            Some(DefinedField::ResolverField(_)) => Err(
                ValidationError::SelectionKindMismatch {
                    field_name: f.name.clone(),
                    parent_type_name: parent.name.clone(),
                },
            ),
            Some(DefinedField::ServerField(target)) => match data.lookup_defined_type(target) {
                None => Err(
                    ValidationError::UnresolvedTypeReference { type_reference: target.clone() },
                ),
                Some(TypeId::Scalar(_)) => Err(
                    ValidationError::SelectionKindMismatch {
                        field_name: f.name.clone(),
                        parent_type_name: parent.name.clone(),
                    },
                ),
                Some(TypeId::Object(oid)) => {
                    proof {
                        crate::schema_types::lemma_lookup_pair_found(
                            data.deep_view().defined_types,
                            target@,
                            0,
                        );
                        assert(data.objects.deep_view()[oid as int]
                            == data.objects@[oid as int].deep_view());
                        crate::selection_types::lemma_selections_view(f.selections@);
                        assert(f.selections.deep_view() =~= crate::selection_types::selections_view(
                            f.selections@,
                        ));
                    }
                    match validate_selection_set(data, data.object(oid), &f.selections) {
                        Err(e) => Err(e),
                        Ok(nested) => {
                            let v = ValidatedSelection::LinkedField(
                                ValidatedLinkedFieldSelection {
                                    name: f.name.clone(),
                                    alias: crate::selection_types::clone_alias(&f.alias),
                                    arguments: crate::selection_types::clone_arguments(&f.arguments),
                                    object_id: oid,
                                    selections: nested,
                                },
                            );
                            proof {
                                let tw = spec_validate_selection(
                                    data.deep_view(),
                                    parent.deep_view(),
                                    sel.deep_view(),
                                );
                                assert(tw is Ok);
                                crate::selection_types::lemma_validated_selections_view(
                                    v->LinkedField_0.selections@,
                                );
                                assert(v->LinkedField_0.selections.deep_view()
                                    =~= crate::selection_types::validated_selections_view(
                                    v->LinkedField_0.selections@,
                                ));
                                assert(v.deep_view() =~~= tw->Ok_0);
                            }
                            Ok(v)
                        },
                    }
                },
            },
        },
    }
}

/// Validates a declared selection set, entry by entry, fail-fast.
fn validate_selection_set(data: &SchemaData, parent: &SchemaObject, sels: &Vec<Selection>) -> (r:
    Result<Vec<ValidatedSelection>, ValidationError>)
    requires
        wf_schema_data(data.deep_view()),
    ensures
        match r {
            Ok(v) => spec_validate_selections(
                data.deep_view(),
                parent.deep_view(),
                sels.deep_view(),
            ) == Ok::<_, ValidationErrorView>(v.deep_view()),
            Err(e) => spec_validate_selections(
                data.deep_view(),
                parent.deep_view(),
                sels.deep_view(),
            ) == Err::<Seq<ValidatedSelectionView>, _>(e.deep_view()),
        },
    decreases sels@, 1int,
{
    proof {
        assert(sels.deep_view().subrange(0, sels.deep_view().len() as int) =~= sels.deep_view());
    }
    validate_selections_from(data, parent, sels, 0)
}

/// Validates the tail `sels[i..]` of a declared selection set.
fn validate_selections_from(
    data: &SchemaData,
    parent: &SchemaObject,
    sels: &Vec<Selection>,
    i: usize,
) -> (r: Result<Vec<ValidatedSelection>, ValidationError>)
    requires
        wf_schema_data(data.deep_view()),
        i <= sels@.len(),
    ensures
        match r {
            Ok(v) => spec_validate_selections(
                data.deep_view(),
                parent.deep_view(),
                sels.deep_view().subrange(i as int, sels.deep_view().len() as int),
            ) == Ok::<_, ValidationErrorView>(v.deep_view()),
            Err(e) => spec_validate_selections(
                data.deep_view(),
                parent.deep_view(),
                sels.deep_view().subrange(i as int, sels.deep_view().len() as int),
            ) == Err::<Seq<ValidatedSelectionView>, _>(e.deep_view()),
        },
    decreases sels@, 0int, sels@.len() - i,
{
    let ghost suffix = sels.deep_view().subrange(i as int, sels.deep_view().len() as int);
    if i == sels.len() {
        let out: Vec<ValidatedSelection> = Vec::new();
        proof {
            assert(out.deep_view() =~= Seq::<ValidatedSelectionView>::empty());
        }
        Ok(out)
    } else {
        proof {
            assert(suffix[0] == sels.deep_view()[i as int]);
            assert(sels.deep_view()[i as int] == sels@[i as int].deep_view());
            assert(suffix.drop_first() =~= sels.deep_view().subrange(
                i as int + 1,
                sels.deep_view().len() as int,
            ));
        }
        let v = match validate_selection(data, parent, &sels[i]) {
            Err(e) => {
                return Err(e);
            },
            Ok(v) => v,
        };
        let rest = match validate_selections_from(data, parent, sels, i + 1) {
            Err(e) => {
                return Err(e);
            },
            Ok(rest) => rest,
        };
        let mut out: Vec<ValidatedSelection> = Vec::new();
        let ghost vdv = v.deep_view();
        let ghost restdv = rest.deep_view();
        out.push(v);
        let mut rest = rest;
        out.append(&mut rest);
        proof {
            assert(out.deep_view() =~= seq![vdv] + restdv);
        }
        Ok(out)
    }
}

/// Resolves every server field's output type name, in order.
fn validate_fields(data: &SchemaData, fields: &Vec<SchemaField<String>>) -> (r: Result<
    Vec<SchemaField<TypeId>>,
    ValidationError,
>)
    ensures
        match r {
            Ok(v) => spec_validate_fields(data.deep_view().defined_types, fields.deep_view())
                == Ok::<_, ValidationErrorView>(v.deep_view()),
            Err(e) => spec_validate_fields(data.deep_view().defined_types, fields.deep_view())
                == Err::<Seq<SchemaFieldView<TypeId>>, _>(e.deep_view()),
        },
{
    let ghost all = fields.deep_view();
    let ghost dts = data.deep_view().defined_types;
    let mut out: Vec<SchemaField<TypeId>> = Vec::new();
    let mut i: usize = 0;
    proof {
        assert(all.subrange(0, all.len() as int) =~= all);
    }
    while i < fields.len()
        invariant
            i <= fields@.len(),
            all == fields.deep_view(),
            dts == data.deep_view().defined_types,
            match spec_validate_fields(dts, all.subrange(i as int, all.len() as int)) {
                Ok(rest) => spec_validate_fields(dts, all) == Ok::<_, ValidationErrorView>(
                    out.deep_view() + rest,
                ),
                Err(e) => spec_validate_fields(dts, all) == Err::<
                    Seq<SchemaFieldView<TypeId>>,
                    _,
                >(e),
            },
        decreases fields@.len() - i,
    {
        let ghost suffix = all.subrange(i as int, all.len() as int);
        proof {
            assert(suffix[0] == all[i as int]);
            assert(all[i as int] == fields@[i as int].deep_view());
            assert(suffix.drop_first() =~= all.subrange(i as int + 1, all.len() as int));
        }
        let f = &fields[i];
        match data.lookup_defined_type(&f.field_type) {
            None => {
                return Err(
                    ValidationError::UnresolvedTypeReference {
                        type_reference: f.field_type.clone(),
                    },
                );
            },
            Some(tid) => {
                let validated = SchemaField {
                    name: f.name.clone(),
                    id: f.id,
                    parent_object_id: f.parent_object_id,
                    field_type: tid,
                };
                let ghost fv = validated.deep_view();
                let ghost pre = out.deep_view();
                out.push(validated);
                proof {
                    assert(out.deep_view() =~= pre.push(fv));
                    match spec_validate_fields(dts, suffix.drop_first()) {
                        Ok(rest) => {
                            assert(pre.push(fv) + rest =~= pre + (seq![fv] + rest));
                        },
                        Err(_) => {},
                    }
                }
            },
        }
        i = i + 1;
    }
    proof {
        assert(all.subrange(i as int, all.len() as int).len() == 0);
        assert(out.deep_view() + Seq::<SchemaFieldView<TypeId>>::empty() =~= out.deep_view());
    }
    Ok(out)
}

/// Validates one resolver: its selection set against its parent object type,
/// then its variable definitions.
fn validate_resolver(
    data: &SchemaData,
    resolver: SchemaResolverDefinitionInfo<Selection, String>,
) -> (r: Result<SchemaResolverDefinitionInfo<ValidatedSelection, usize>, ValidationError>)
    requires
        wf_schema_data(data.deep_view()),
        resolver.parent_object_id < data.objects@.len(),
    ensures
        match r {
            Ok(v) => spec_validate_resolver(data.deep_view(), resolver.deep_view()) == Ok::<
                _,
                ValidationErrorView,
            >(v.deep_view()),
            Err(e) => spec_validate_resolver(data.deep_view(), resolver.deep_view()) == Err::<
                SchemaResolverView<ValidatedSelectionView, usize>,
                _,
            >(e.deep_view()),
        },
{
    proof {
        assert(data.objects.deep_view()[resolver.parent_object_id as int]
            == data.objects@[resolver.parent_object_id as int].deep_view());
    }
    let parent = data.object(resolver.parent_object_id);
    let selection_set = match &resolver.selection_set {
        None => None,
        Some(sels) => match validate_selection_set(data, parent, sels) {
            Err(e) => {
                return Err(e);
            },
            Ok(v) => Some(v),
        },
    };
    let variable_definitions = match validate_variable_definitions(
        data,
        &resolver.variable_definitions,
    ) {
        Err(e) => {
            return Err(e);
        },
        Ok(v) => v,
    };
    Ok(
        SchemaResolverDefinitionInfo {
            name: resolver.name,
            id: resolver.id,
            parent_object_id: resolver.parent_object_id,
            resolver_definition_path: resolver.resolver_definition_path,
            selection_set,
            variable_definitions,
            variant: resolver.variant,
            is_fetchable: resolver.is_fetchable,
            has_associated_js_function: resolver.has_associated_js_function,
            type_and_field: resolver.type_and_field,
        },
    )
}

/// Validates the schema: the one-way transition to a `ValidatedSchema`.
/// Fails with the first unresolvable type reference, unknown field, or
/// selection of the wrong kind, scoped per declaration.
#[verifier::loop_isolation(false)]
pub fn validate_schema(schema: UnvalidatedSchema) -> (r: Result<ValidatedSchema, ValidationError>)
    requires
        crate::schema_types::wf_unvalidated_schema(schema.deep_view()),
    ensures
        match r {
            Ok(v) => spec_validate_schema(schema.deep_view()) == Ok::<_, ValidationErrorView>(
                v.deep_view(),
            ),
            Err(e) => spec_validate_schema(schema.deep_view()) == Err::<ValidatedSchemaView, _>(
                e.deep_view(),
            ),
        },
{
    let ghost sv = schema.deep_view();
    let UnvalidatedSchema { fields, mut resolvers, schema_data, id_type, string_type, query_type } =
        schema;

    let validated_fields = match validate_fields(&schema_data, &fields) {
        Err(e) => {
            return Err(e);
        },
        Ok(v) => v,
    };

    let ghost all_resolvers = resolvers.deep_view();
    let mut validated_resolvers: Vec<SchemaResolverDefinitionInfo<ValidatedSelection, usize>> =
        Vec::new();
    proof {
        assert(all_resolvers.subrange(0, all_resolvers.len() as int) =~= all_resolvers);
    }
    let ghost mut i: int = 0;
    while resolvers.len() > 0
        invariant
            0 <= i,
            i + resolvers@.len() == all_resolvers.len(),
            wf_schema_data(schema_data.deep_view()),
            forall|j: int|
                0 <= j < all_resolvers.len() ==> #[trigger] all_resolvers[j].parent_object_id
                    < schema_data.objects@.len(),
            resolvers.deep_view() =~= all_resolvers.subrange(i, all_resolvers.len() as int),
            match spec_validate_resolvers(
                schema_data.deep_view(),
                all_resolvers.subrange(i, all_resolvers.len() as int),
            ) {
                Ok(rest) => spec_validate_resolvers(schema_data.deep_view(), all_resolvers)
                    == Ok::<_, ValidationErrorView>(validated_resolvers.deep_view() + rest),
                Err(e) => spec_validate_resolvers(schema_data.deep_view(), all_resolvers) == Err::<
                    Seq<SchemaResolverView<ValidatedSelectionView, usize>>,
                    _,
                >(e),
            },
        decreases resolvers@.len(),
    {
        let ghost suffix = all_resolvers.subrange(i, all_resolvers.len() as int);
        proof {
            assert(suffix[0] == all_resolvers[i]);
            assert(suffix.drop_first() =~= all_resolvers.subrange(
                i + 1,
                all_resolvers.len() as int,
            ));
        }
        let resolver = resolvers.remove(0);
        proof {
            assert(resolver.deep_view() == all_resolvers[i]);
            assert(resolvers.deep_view() =~= all_resolvers.subrange(
                i + 1,
                all_resolvers.len() as int,
            ));
        }
        match validate_resolver(&schema_data, resolver) {
            Err(e) => {
                proof {
                    let dv = schema_data.deep_view();
                    assert(spec_validate_resolver(dv, suffix[0]) == Err::<
                        SchemaResolverView<ValidatedSelectionView, usize>,
                        _,
                    >(e.deep_view()));
                    assert(spec_validate_resolvers(dv, suffix) == Err::<
                        Seq<SchemaResolverView<ValidatedSelectionView, usize>>,
                        _,
                    >(e.deep_view()));
                    assert(spec_validate_resolvers(dv, all_resolvers) == Err::<
                        Seq<SchemaResolverView<ValidatedSelectionView, usize>>,
                        _,
                    >(e.deep_view()));
                    assert(spec_validate_schema(sv) == Err::<ValidatedSchemaView, _>(
                        e.deep_view(),
                    ));
                }
                return Err(e);
            },
            Ok(v) => {
                let ghost vv = v.deep_view();
                let ghost pre = validated_resolvers.deep_view();
                validated_resolvers.push(v);
                proof {
                    assert(validated_resolvers.deep_view() =~= pre.push(vv));
                    match spec_validate_resolvers(schema_data.deep_view(), suffix.drop_first()) {
                        Ok(rest) => {
                            assert(pre.push(vv) + rest =~= pre + (seq![vv] + rest));
                        },
                        Err(_) => {},
                    }
                }
            },
        }
        proof {
            i = i + 1;
        }
    }
    proof {
        assert(all_resolvers.subrange(i, all_resolvers.len() as int).len() == 0);
        assert(validated_resolvers.deep_view() + Seq::<
            SchemaResolverView<ValidatedSelectionView, usize>,
        >::empty() =~= validated_resolvers.deep_view());
    }

    let r = ValidatedSchema {
        fields: validated_fields,
        resolvers: validated_resolvers,
        schema_data,
        id_type,
        string_type,
        query_type,
    };
    proof {
        assert(spec_validate_schema(sv) == Ok::<_, ValidationErrorView>(r.deep_view()));
    }
    Ok(r)
}

} // verus!
