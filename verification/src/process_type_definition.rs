//! Ingesting type-system documents: each object type definition allocates the
//! next object handle, adds one server field per declared field, and registers
//! the type name in the global type-name table.
//!
//! Duplicate type names across definitions and duplicate field names within
//! one definition are build-time errors; the schema is left unchanged by a
//! failed definition.

use vstd::prelude::*;

use crate::schema_types::{
    lookup_pair, pair_table_contains, DefinedField, DefinedFieldView, NonNullTypeAnnotation, SchemaField,
    SchemaFieldView, SchemaObject, SchemaObjectView, TypeAnnotation, TypeId, UnvalidatedSchema,
    UnvalidatedSchemaView,
};

verus! {

broadcast use vstd::seq::group_seq_axioms, vstd::std_specs::vec::group_vec_axioms;

// ---------------------------------------------------------------------------
// The type-system syntax tree
// ---------------------------------------------------------------------------

/// A parsed schema-definition document: a list of top-level definitions.
pub struct TypeSystemDocument(pub Vec<TypeSystemDefinition>);

/// A top-level definition. Only object type definitions are handled.
pub enum TypeSystemDefinition {
    ObjectTypeDefinition(ObjectTypeDefinition),
}

/// `type Name { field: Type, ... }`.
pub struct ObjectTypeDefinition {
    pub name: String,
    pub fields: Vec<OutputFieldDefinition>,
}

/// One field of an object type definition.
pub struct OutputFieldDefinition {
    pub name: String,
    pub type_: TypeAnnotation<String>,
}

#[verifier::ext_equal]
pub struct OutputFieldDefinitionView {
    pub name: Seq<char>,
    pub type_: TypeAnnotation<Seq<char>>,
}

#[verifier::ext_equal]
pub struct ObjectTypeDefinitionView {
    pub name: Seq<char>,
    pub fields: Seq<OutputFieldDefinitionView>,
}

impl DeepView for OutputFieldDefinition {
    type V = OutputFieldDefinitionView;

    open spec fn deep_view(&self) -> OutputFieldDefinitionView {
        OutputFieldDefinitionView { name: self.name@, type_: self.type_.deep_view() }
    }
}

impl DeepView for ObjectTypeDefinition {
    type V = ObjectTypeDefinitionView;

    open spec fn deep_view(&self) -> ObjectTypeDefinitionView {
        ObjectTypeDefinitionView { name: self.name@, fields: self.fields.deep_view() }
    }
}

impl DeepView for TypeSystemDefinition {
    type V = ObjectTypeDefinitionView;

    open spec fn deep_view(&self) -> ObjectTypeDefinitionView {
        match self {
            TypeSystemDefinition::ObjectTypeDefinition(d) => d.deep_view(),
        }
    }
}

// ---------------------------------------------------------------------------
// The inner name of a type annotation
// ---------------------------------------------------------------------------

/// The named type at the core of an annotation, stripping list and non-null
/// wrappers.
pub open spec fn spec_annotation_inner<T>(t: TypeAnnotation<T>) -> T
    decreases t,
{
    match t {
        TypeAnnotation::Named(x) => x,
        TypeAnnotation::List(inner) => spec_annotation_inner(*inner),
        TypeAnnotation::NonNull(inner) => match *inner {
            NonNullTypeAnnotation::Named(x) => x,
            NonNullTypeAnnotation::List(i2) => spec_annotation_inner(*i2),
        },
    }
}

impl TypeAnnotation<String> {
    /// The named type at the core of this annotation.
    pub fn inner(&self) -> (r: &String)
        ensures
            r@ == spec_annotation_inner(self.deep_view()),
        decreases self,
    {
        match self {
            TypeAnnotation::Named(x) => x,
            TypeAnnotation::List(inner) => inner.inner(),
            TypeAnnotation::NonNull(inner) => match &**inner {
                NonNullTypeAnnotation::Named(x) => x,
                NonNullTypeAnnotation::List(i2) => i2.inner(),
            },
        }
    }
}

// ---------------------------------------------------------------------------
// Errors
// ---------------------------------------------------------------------------

/// Why a type-system definition was rejected.
#[derive(Clone, Debug, PartialEq, Eq)]
pub enum ProcessTypeDefinitionError {
    DuplicateTypeDefinition { type_definition_type: String, name: String },
    DuplicateField { field_name: String, parent_type: String },
}

#[verifier::ext_equal]
pub enum ProcessTypeDefinitionErrorView {
    DuplicateTypeDefinition { type_definition_type: Seq<char>, name: Seq<char> },
    DuplicateField { field_name: Seq<char>, parent_type: Seq<char> },
}

impl DeepView for ProcessTypeDefinitionError {
    type V = ProcessTypeDefinitionErrorView;

    open spec fn deep_view(&self) -> ProcessTypeDefinitionErrorView {
        match self {
            ProcessTypeDefinitionError::DuplicateTypeDefinition { type_definition_type, name } =>
                ProcessTypeDefinitionErrorView::DuplicateTypeDefinition {
                    type_definition_type: type_definition_type@,
                    name: name@,
                },
            ProcessTypeDefinitionError::DuplicateField { field_name, parent_type } =>
                ProcessTypeDefinitionErrorView::DuplicateField {
                    field_name: field_name@,
                    parent_type: parent_type@,
                },
        }
    }
}

impl ProcessTypeDefinitionError {
    /// A human-readable description of the error.
    pub fn message(&self) -> String {
        match self {
            ProcessTypeDefinitionError::DuplicateTypeDefinition { type_definition_type, name } => {
                let mut m = "Duplicate type definition (".to_owned();
                m.append(type_definition_type.as_str());
                m.append(") named \"");
                m.append(name.as_str());
                m.append("\"");
                m
            },
            ProcessTypeDefinitionError::DuplicateField { field_name, parent_type } => {
                let mut m = "Duplicate field named \"".to_owned();
                m.append(field_name.as_str());
                m.append("\" on type \"");
                m.append(parent_type.as_str());
                m.append("\"");
                m
            },
        }
    }
}

// ---------------------------------------------------------------------------
// Specification
// ---------------------------------------------------------------------------

/// One row of the field table under construction: the accumulated fields,
/// their handles, and the name table, after some prefix of the declared
/// fields has been taken in.
#[verifier::ext_equal]
pub struct FieldRowsView {
    pub fields: Seq<SchemaFieldView<Seq<char>>>,
    pub field_ids: Seq<usize>,
    pub encountered_field_names: Seq<(Seq<char>, DefinedFieldView)>,
}

/// Walks the declared fields in order, allocating consecutive handles from
/// `next_field_id` and rejecting the first field whose name was already seen.
pub open spec fn spec_field_rows(
    fields: Seq<OutputFieldDefinitionView>,
    next_field_id: int,
    parent_object_id: usize,
    acc: FieldRowsView,
) -> Result<FieldRowsView, Seq<char>>
    decreases fields.len(),
{
    if fields.len() == 0 {
        Ok(acc)
    } else {
        let f = fields[0];
        if lookup_pair(acc.encountered_field_names, f.name) is Some {
            Err(f.name)
        } else {
            spec_field_rows(
                fields.drop_first(),
                next_field_id + 1,
                parent_object_id,
                FieldRowsView {
                    fields: acc.fields.push(
                        SchemaFieldView {
                            name: f.name,
                            id: next_field_id as usize,
                            parent_object_id: parent_object_id,
                            field_type: spec_annotation_inner(f.type_),
                        },
                    ),
                    field_ids: acc.field_ids.push(next_field_id as usize),
                    encountered_field_names: acc.encountered_field_names.push(
                        (f.name, DefinedFieldView::ServerField(spec_annotation_inner(f.type_))),
                    ),
                },
            )
        }
    }
}

pub open spec fn empty_field_rows() -> FieldRowsView {
    FieldRowsView {
        fields: Seq::empty(),
        field_ids: Seq::empty(),
        encountered_field_names: Seq::empty(),
    }
}

/// What processing one object type definition does to a schema: reject a
/// name already in the type-name table, reject a duplicate field name, and
/// otherwise append the object, its fields, and its table entry, recording it
/// as the query root when it is named `Query`.
pub open spec fn spec_process_object_type_definition(
    s: UnvalidatedSchemaView,
    d: ObjectTypeDefinitionView,
) -> Result<UnvalidatedSchemaView, ProcessTypeDefinitionErrorView> {
    if lookup_pair(s.schema_data.defined_types, d.name) is Some {
        Err(ProcessTypeDefinitionErrorView::DuplicateTypeDefinition {
            type_definition_type: "object"@,
            name: d.name,
        })
    } else {
        let next_object_id = s.schema_data.objects.len() as usize;
        match spec_field_rows(d.fields, s.fields.len() as int, next_object_id, empty_field_rows()) {
            Err(field_name) => Err(ProcessTypeDefinitionErrorView::DuplicateField {
                field_name: field_name,
                parent_type: d.name,
            }),
            Ok(rows) => Ok(UnvalidatedSchemaView {
                fields: s.fields + rows.fields,
                resolvers: s.resolvers,
                schema_data: crate::schema_types::SchemaDataView {
                    objects: s.schema_data.objects.push(
                        SchemaObjectView {
                            name: d.name,
                            id: next_object_id,
                            fields: rows.field_ids,
                            resolvers: Seq::empty(),
                            encountered_field_names: rows.encountered_field_names,
                        },
                    ),
                    scalars: s.schema_data.scalars,
                    defined_types: s.schema_data.defined_types.push(
                        (d.name, TypeId::Object(next_object_id)),
                    ),
                },
                id_type: s.id_type,
                string_type: s.string_type,
                query_type: if d.name == "Query"@ {
                    Some(next_object_id)
                } else {
                    s.query_type
                },
            }),
        }
    }
}

/// Processing a sequence of definitions in order, stopping at the first
/// error: the result is the schema state reached (definitions before a
/// failing one stay committed) and the error, if one stopped the walk.
pub open spec fn spec_process_type_system_definitions(
    s: UnvalidatedSchemaView,
    defs: Seq<ObjectTypeDefinitionView>,
) -> (UnvalidatedSchemaView, Option<ProcessTypeDefinitionErrorView>)
    decreases defs.len(),
{
    if defs.len() == 0 {
        (s, None)
    } else {
        match spec_process_object_type_definition(s, defs[0]) {
            Err(e) => (s, Some(e)),
            Ok(s2) => spec_process_type_system_definitions(s2, defs.drop_first()),
        }
    }
}

/// Total number of fields declared by a sequence of definitions.
pub open spec fn spec_total_declared_fields(defs: Seq<ObjectTypeDefinitionView>) -> int
    decreases defs.len(),
{
    if defs.len() == 0 {
        0
    } else {
        defs[0].fields.len() + spec_total_declared_fields(defs.drop_first())
    }
}

pub proof fn lemma_total_declared_fields_nonneg(defs: Seq<ObjectTypeDefinitionView>)
    ensures
        spec_total_declared_fields(defs) >= 0,
    decreases defs.len(),
{
    if defs.len() > 0 {
        lemma_total_declared_fields_nonneg(defs.drop_first());
    }
}

/// A successful field walk adds exactly one row per declared field.
pub proof fn lemma_field_rows_len(
    fields: Seq<OutputFieldDefinitionView>,
    next_field_id: int,
    parent_object_id: usize,
    acc: FieldRowsView,
)
    ensures
        spec_field_rows(fields, next_field_id, parent_object_id, acc) matches Ok(rows) ==> rows.fields.len()
            == acc.fields.len() + fields.len(),
    decreases fields.len(),
{
    if fields.len() > 0 {
        let f = fields[0];
        if !(lookup_pair(acc.encountered_field_names, f.name) is Some) {
            lemma_field_rows_len(
                fields.drop_first(),
                next_field_id + 1,
                parent_object_id,
                FieldRowsView {
                    fields: acc.fields.push(
                        SchemaFieldView {
                            name: f.name,
                            id: next_field_id as usize,
                            parent_object_id: parent_object_id,
                            field_type: spec_annotation_inner(f.type_),
                        },
                    ),
                    field_ids: acc.field_ids.push(next_field_id as usize),
                    encountered_field_names: acc.encountered_field_names.push(
                        (f.name, DefinedFieldView::ServerField(spec_annotation_inner(f.type_))),
                    ),
                },
            );
        }
    }
}

/// A successful definition adds exactly its declared fields to the arena.
pub proof fn lemma_process_object_type_definition_fields_len(
    s: UnvalidatedSchemaView,
    d: ObjectTypeDefinitionView,
)
    ensures
        spec_process_object_type_definition(s, d) matches Ok(s2) ==> s2.fields.len()
            == s.fields.len() + d.fields.len(),
{
    lemma_field_rows_len(
        d.fields,
        s.fields.len() as int,
        s.schema_data.objects.len() as usize,
        empty_field_rows(),
    );
}

/// Every field-name-table entry produced by a field walk describes a server
/// field, never a resolver.
pub proof fn lemma_field_rows_server_only(
    fields: Seq<OutputFieldDefinitionView>,
    next_field_id: int,
    parent_object_id: usize,
    acc: FieldRowsView,
)
    requires
        forall|e: int|
            0 <= e < acc.encountered_field_names.len()
                ==> (#[trigger] acc.encountered_field_names[e].1) matches DefinedFieldView::ServerField(_),
    ensures
        spec_field_rows(fields, next_field_id, parent_object_id, acc) matches Ok(rows) ==> forall|
            e: int,
        |
            0 <= e < rows.encountered_field_names.len()
                ==> (#[trigger] rows.encountered_field_names[e].1) matches DefinedFieldView::ServerField(_),
    decreases fields.len(),
{
    if fields.len() > 0 {
        let f = fields[0];
        if !(crate::schema_types::lookup_pair(acc.encountered_field_names, f.name) is Some) {
            let acc2 = FieldRowsView {
                fields: acc.fields.push(
                    SchemaFieldView {
                        name: f.name,
                        id: next_field_id as usize,
                        parent_object_id: parent_object_id,
                        field_type: spec_annotation_inner(f.type_),
                    },
                ),
                field_ids: acc.field_ids.push(next_field_id as usize),
                encountered_field_names: acc.encountered_field_names.push(
                    (f.name, DefinedFieldView::ServerField(spec_annotation_inner(f.type_))),
                ),
            };
            lemma_field_rows_server_only(
                fields.drop_first(),
                next_field_id + 1,
                parent_object_id,
                acc2,
            );
        }
    }
}

/// A definition that is accepted keeps the schema well formed.
pub proof fn lemma_process_object_type_definition_preserves_wf(
    s: UnvalidatedSchemaView,
    d: ObjectTypeDefinitionView,
)
    requires
        crate::schema_types::wf_unvalidated_schema(s),
    ensures
        spec_process_object_type_definition(s, d) matches Ok(s2)
            ==> crate::schema_types::wf_unvalidated_schema(s2),
{
    if spec_process_object_type_definition(s, d) is Ok {
        let s2 = spec_process_object_type_definition(s, d)->Ok_0;
        lemma_field_rows_server_only(
            d.fields,
            s.fields.len() as int,
            s.schema_data.objects.len() as usize,
            empty_field_rows(),
        );
        assert forall|j: int| 0 <= j < s2.schema_data.objects.len() implies
            crate::schema_types::wf_object_resolvers(
                #[trigger] s2.schema_data.objects[j],
                s2.resolvers,
            ) by {
            if j < s.schema_data.objects.len() {
                assert(s2.schema_data.objects[j] == s.schema_data.objects[j]);
                assert(crate::schema_types::wf_object_resolvers(
                    s.schema_data.objects[j],
                    s.resolvers,
                ));
            }
        }
    }
}

/// A document whose definitions are all accepted, or rejected fail-fast,
/// leaves the schema well formed in every case.
pub proof fn lemma_process_type_system_definitions_preserves_wf(
    s: UnvalidatedSchemaView,
    defs: Seq<ObjectTypeDefinitionView>,
)
    requires
        crate::schema_types::wf_unvalidated_schema(s),
    ensures
        crate::schema_types::wf_unvalidated_schema(
            spec_process_type_system_definitions(s, defs).0,
        ),
    decreases defs.len(),
{
    if defs.len() > 0 {
        lemma_process_object_type_definition_preserves_wf(s, defs[0]);
        match spec_process_object_type_definition(s, defs[0]) {
            Err(_) => {},
            Ok(s2) => {
                lemma_process_type_system_definitions_preserves_wf(s2, defs.drop_first());
            },
        }
    }
}

// ---------------------------------------------------------------------------
// Executable code
// ---------------------------------------------------------------------------

/// Given the declared fields of one object type, returns the unvalidated
/// field rows, their handles (consecutive from `next_field_id`), and the
/// object's field-name table; or the first duplicated field name.
fn get_field_objects_ids_and_names(
    new_fields: &Vec<OutputFieldDefinition>,
    next_field_id: usize,
    parent_object_id: usize,
) -> (r: Result<(Vec<SchemaField<String>>, Vec<usize>, Vec<(String, DefinedField)>), String>)
    requires
        next_field_id + new_fields@.len() <= usize::MAX,
    ensures
        match r {
            Ok(rows) => spec_field_rows(
                new_fields.deep_view(),
                next_field_id as int,
                parent_object_id,
                empty_field_rows(),
            ) == Ok::<_, Seq<char>>(
                FieldRowsView {
                    fields: rows.0.deep_view(),
                    field_ids: rows.1.deep_view(),
                    encountered_field_names: rows.2.deep_view(),
                },
            ),
            Err(field_name) => spec_field_rows(
                new_fields.deep_view(),
                next_field_id as int,
                parent_object_id,
                empty_field_rows(),
            ) == Err::<FieldRowsView, _>(field_name@),
        },
{
    let mut unvalidated_fields: Vec<SchemaField<String>> = Vec::new();
    let mut field_ids: Vec<usize> = Vec::new();
    let mut field_names_to_type_name: Vec<(String, DefinedField)> = Vec::new();
    let ghost all = new_fields.deep_view();
    proof {
        assert(all.subrange(0, all.len() as int) =~= all);
        assert(unvalidated_fields.deep_view() =~= Seq::<SchemaFieldView<Seq<char>>>::empty());
        assert(field_ids.deep_view() =~= Seq::<usize>::empty());
        assert(field_names_to_type_name.deep_view() =~= Seq::<
            (Seq<char>, DefinedFieldView),
        >::empty());
        assert(FieldRowsView {
            fields: unvalidated_fields.deep_view(),
            field_ids: field_ids.deep_view(),
            encountered_field_names: field_names_to_type_name.deep_view(),
        } =~= empty_field_rows());
    }
    let mut i: usize = 0;
    while i < new_fields.len()
        invariant
            i <= new_fields@.len(),
            next_field_id + new_fields@.len() <= usize::MAX,
            all == new_fields.deep_view(),
            spec_field_rows(all, next_field_id as int, parent_object_id, empty_field_rows())
                == spec_field_rows(
                all.subrange(i as int, all.len() as int),
                next_field_id + i,
                parent_object_id,
                FieldRowsView {
                    fields: unvalidated_fields.deep_view(),
                    field_ids: field_ids.deep_view(),
                    encountered_field_names: field_names_to_type_name.deep_view(),
                },
            ),
        decreases new_fields@.len() - i,
    {
        let ghost pre = FieldRowsView {
            fields: unvalidated_fields.deep_view(),
            field_ids: field_ids.deep_view(),
            encountered_field_names: field_names_to_type_name.deep_view(),
        };
        proof {
            assert(all.subrange(i as int, all.len() as int)[0] == all[i as int]);
            assert(all[i as int] == new_fields@[i as int].deep_view());
        }
        let field = &new_fields[i];
        if pair_table_contains(&field_names_to_type_name, &field.name) {
            return Err(field.name.clone());
        }
        let id: usize = next_field_id + i;
        unvalidated_fields.push(
            SchemaField {
                name: field.name.clone(),
                id,
                parent_object_id,
                field_type: field.type_.inner().clone(),
            },
        );
        field_ids.push(id);
        field_names_to_type_name.push(
            (field.name.clone(), DefinedField::ServerField(field.type_.inner().clone())),
        );
        proof {
            let post = FieldRowsView {
                fields: unvalidated_fields.deep_view(),
                field_ids: field_ids.deep_view(),
                encountered_field_names: field_names_to_type_name.deep_view(),
            };
            let f = all[i as int];
            assert(post.fields =~= pre.fields.push(
                SchemaFieldView {
                    name: f.name,
                    id: id,
                    parent_object_id: parent_object_id,
                    field_type: spec_annotation_inner(f.type_),
                },
            ));
            assert(post.field_ids =~= pre.field_ids.push(id));
            assert(post.encountered_field_names =~= pre.encountered_field_names.push(
                (f.name, DefinedFieldView::ServerField(spec_annotation_inner(f.type_))),
            ));
            assert(post =~= FieldRowsView {
                fields: pre.fields.push(
                    SchemaFieldView {
                        name: f.name,
                        id: id,
                        parent_object_id: parent_object_id,
                        field_type: spec_annotation_inner(f.type_),
                    },
                ),
                field_ids: pre.field_ids.push(id),
                encountered_field_names: pre.encountered_field_names.push(
                    (f.name, DefinedFieldView::ServerField(spec_annotation_inner(f.type_))),
                ),
            });
            assert(all.subrange(i as int, all.len() as int).drop_first() =~= all.subrange(
                i as int + 1,
                all.len() as int,
            ));
        }
        i = i + 1;
    }
    proof {
        assert(all.subrange(i as int, all.len() as int).len() == 0);
    }
    Ok((unvalidated_fields, field_ids, field_names_to_type_name))
}

impl UnvalidatedSchema {
    /// Adds one object type definition to the schema: allocates the next
    /// object handle, appends the declared fields to the field arena,
    /// registers the type name, and records the query root when the type is
    /// named `Query`. Rejects a duplicate type name or a duplicate field
    /// name, leaving the schema unchanged.
    pub fn process_object_type_definition(
        &mut self,
        object_type_definition: &ObjectTypeDefinition,
    ) -> (r: Result<(), ProcessTypeDefinitionError>)
        requires
            old(self).fields@.len() + object_type_definition.fields@.len() <= usize::MAX,
        ensures
            match r {
                Ok(()) => spec_process_object_type_definition(
                    old(self).deep_view(),
                    object_type_definition.deep_view(),
                ) == Ok::<_, ProcessTypeDefinitionErrorView>(final(self).deep_view()),
                Err(e) => spec_process_object_type_definition(
                    old(self).deep_view(),
                    object_type_definition.deep_view(),
                ) == Err::<UnvalidatedSchemaView, _>(e.deep_view()) && final(self).deep_view()
                    == old(self).deep_view(),
            },
    {
        let next_object_id = self.schema_data.objects.len();
        if self.schema_data.lookup_defined_type(&object_type_definition.name).is_some() {
            return Err(
                ProcessTypeDefinitionError::DuplicateTypeDefinition {
                    type_definition_type: "object".to_owned(),
                    name: object_type_definition.name.clone(),
                },
            );
        }
        match get_field_objects_ids_and_names(
            &object_type_definition.fields,
            self.fields.len(),
            next_object_id,
        ) {
            Err(field_name) => Err(
                ProcessTypeDefinitionError::DuplicateField {
                    field_name,
                    parent_type: object_type_definition.name.clone(),
                },
            ),
            Ok((mut new_fields, field_ids, encountered_field_names)) => {
                let ghost rows = FieldRowsView {
                    fields: new_fields.deep_view(),
                    field_ids: field_ids.deep_view(),
                    encountered_field_names: encountered_field_names.deep_view(),
                };
                self.schema_data.objects.push(
                    SchemaObject {
                        name: object_type_definition.name.clone(),
                        id: next_object_id,
                        fields: field_ids,
                        resolvers: Vec::new(),
                        encountered_field_names,
                    },
                );
                if object_type_definition.name.eq(&"Query".to_owned()) {
                    self.query_type = Some(next_object_id);
                }
                self.fields.append(&mut new_fields);
                self.schema_data.defined_types.push(
                    (object_type_definition.name.clone(), TypeId::Object(next_object_id)),
                );
                proof {
                    let tv = spec_process_object_type_definition(
                        old(self).deep_view(),
                        object_type_definition.deep_view(),
                    );
                    assert(tv is Ok);
                    assert(self.fields.deep_view() =~= old(self).fields.deep_view() + rows.fields);
                    assert(self.schema_data.objects.deep_view()
                        =~~= old(self).schema_data.objects.deep_view().push(
                        SchemaObjectView {
                            name: object_type_definition.name@,
                            id: next_object_id,
                            fields: rows.field_ids,
                            resolvers: Seq::empty(),
                            encountered_field_names: rows.encountered_field_names,
                        },
                    ));
                    assert(self.schema_data.defined_types.deep_view()
                        =~= old(self).schema_data.defined_types.deep_view().push(
                        (object_type_definition.name@, TypeId::Object(next_object_id)),
                    ));
                    assert(self.deep_view() =~~= tv->Ok_0);
                }
                Ok(())
            },
        }
    }

    /// Processes every definition of a type-system document in order,
    /// stopping at the first error; definitions before a failing one stay.
    pub fn process_type_system_document(
        &mut self,
        type_system_document: &TypeSystemDocument,
    ) -> (r: Result<(), ProcessTypeDefinitionError>)
        requires
            old(self).fields@.len() + spec_total_declared_fields(
                type_system_document.0.deep_view(),
            ) <= usize::MAX,
        ensures
            final(self).deep_view() == spec_process_type_system_definitions(
                old(self).deep_view(),
                type_system_document.0.deep_view(),
            ).0,
            match r {
                Ok(()) => spec_process_type_system_definitions(
                    old(self).deep_view(),
                    type_system_document.0.deep_view(),
                ).1 is None,
                Err(e) => spec_process_type_system_definitions(
                    old(self).deep_view(),
                    type_system_document.0.deep_view(),
                ).1 == Some(e.deep_view()),
            },
    {
        let ghost all = type_system_document.0.deep_view();
        proof {
            assert(all.subrange(0, all.len() as int) =~= all);
        }
        let mut i: usize = 0;
        while i < type_system_document.0.len()
            invariant
                i <= type_system_document.0@.len(),
                all == type_system_document.0.deep_view(),
                self.fields@.len() + spec_total_declared_fields(
                    all.subrange(i as int, all.len() as int),
                ) <= usize::MAX,
                spec_process_type_system_definitions(old(self).deep_view(), all)
                    == spec_process_type_system_definitions(
                    self.deep_view(),
                    all.subrange(i as int, all.len() as int),
                ),
            decreases type_system_document.0@.len() - i,
        {
            let ghost pre = self.deep_view();
            let ghost suffix = all.subrange(i as int, all.len() as int);
            proof {
                assert(suffix[0] == all[i as int]);
                assert(all[i as int] == type_system_document.0@[i as int].deep_view());
                assert(suffix.drop_first() =~= all.subrange(i as int + 1, all.len() as int));
                lemma_process_object_type_definition_fields_len(pre, suffix[0]);
                lemma_total_declared_fields_nonneg(suffix.drop_first());
            }
            let TypeSystemDefinition::ObjectTypeDefinition(d) = &type_system_document.0[i];
            match self.process_object_type_definition(d) {
                Ok(()) => {},
                Err(e) => {
                    return Err(e);
                },
            }
            i = i + 1;
        }
        proof {
            assert(all.subrange(i as int, all.len() as int).len() == 0);
        }
        Ok(())
    }
}

} // verus!
