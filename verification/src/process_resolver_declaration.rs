//! Registering resolver declarations: each declaration attaches a synthetic
//! field to its parent object type, allocates the next resolver handle, and
//! derives the resolver's variant and fetchability from its directives.
//!
//! A declaration whose parent type is undefined, whose parent is a scalar,
//! whose field name collides with an existing field or resolver, or which is
//! a `@component` resolver without a bound function, is rejected, and the
//! schema is left unchanged.

use vstd::prelude::*;

use crate::schema_types::{
    lookup_pair, DefinedField, DefinedFieldView, ResolverVariant, SchemaDataView, SchemaObjectView,
    SchemaResolverDefinitionInfo, SchemaResolverView, TypeId, UnvalidatedSchema,
    UnvalidatedSchemaView, VariableDefinition, wf_schema_data,
};
use crate::selection_types::Selection;

verus! {

broadcast use vstd::seq::group_seq_axioms, vstd::std_specs::vec::group_vec_axioms;

// ---------------------------------------------------------------------------
// The resolver declaration syntax tree
// ---------------------------------------------------------------------------

/// A directive attached to a resolver declaration, e.g. `@eager`.
pub struct FragmentDirectiveUsage {
    pub name: String,
}

#[verifier::ext_equal]
pub struct FragmentDirectiveUsageView {
    pub name: Seq<char>,
}

impl DeepView for FragmentDirectiveUsage {
    type V = FragmentDirectiveUsageView;

    open spec fn deep_view(&self) -> FragmentDirectiveUsageView {
        FragmentDirectiveUsageView { name: self.name@ }
    }
}

/// A parsed resolver declaration: the parent type name, the synthetic field
/// name, the path of the bound function, the declared selection set and
/// variables, and the directives.
pub struct ResolverDeclaration {
    pub parent_type: String,
    pub resolver_field_name: String,
    pub resolver_definition_path: String,
    pub selection_set: Option<Vec<Selection>>,
    pub variable_definitions: Vec<VariableDefinition<String>>,
    pub directives: Vec<FragmentDirectiveUsage>,
    pub has_associated_js_function: bool,
}

#[verifier::ext_equal]
pub struct ResolverDeclarationView {
    pub parent_type: Seq<char>,
    pub resolver_field_name: Seq<char>,
    pub resolver_definition_path: Seq<char>,
    pub selection_set: Option<Seq<crate::selection_types::SelectionView>>,
    pub variable_definitions: Seq<crate::schema_types::VariableDefinitionView<Seq<char>>>,
    pub directives: Seq<FragmentDirectiveUsageView>,
    pub has_associated_js_function: bool,
}

impl DeepView for ResolverDeclaration {
    type V = ResolverDeclarationView;

    open spec fn deep_view(&self) -> ResolverDeclarationView {
        ResolverDeclarationView {
            parent_type: self.parent_type@,
            resolver_field_name: self.resolver_field_name@,
            resolver_definition_path: self.resolver_definition_path@,
            selection_set: self.selection_set.deep_view(),
            variable_definitions: self.variable_definitions.deep_view(),
            directives: self.directives.deep_view(),
            has_associated_js_function: self.has_associated_js_function,
        }
    }
}

// ---------------------------------------------------------------------------
// Errors
// ---------------------------------------------------------------------------

/// Why a resolver declaration was rejected.
#[derive(Clone, Debug, PartialEq, Eq)]
pub enum ProcessResolverDeclarationError {
    MissingParent { parent_type_name: String },
    InvalidParentType { parent_type: String, parent_type_name: String },
    ParentAlreadyHasField {
        parent_type: String,
        parent_type_name: String,
        resolver_field_name: String,
    },
    ComponentResolverMissingJsFunction,
}

#[verifier::ext_equal]
pub enum ProcessResolverDeclarationErrorView {
    MissingParent { parent_type_name: Seq<char> },
    InvalidParentType { parent_type: Seq<char>, parent_type_name: Seq<char> },
    ParentAlreadyHasField {
        parent_type: Seq<char>,
        parent_type_name: Seq<char>,
        resolver_field_name: Seq<char>,
    },
    ComponentResolverMissingJsFunction,
}

impl DeepView for ProcessResolverDeclarationError {
    type V = ProcessResolverDeclarationErrorView;

    open spec fn deep_view(&self) -> ProcessResolverDeclarationErrorView {
        match self {
            ProcessResolverDeclarationError::MissingParent { parent_type_name } =>
                ProcessResolverDeclarationErrorView::MissingParent {
                    parent_type_name: parent_type_name@,
                },
            ProcessResolverDeclarationError::InvalidParentType { parent_type, parent_type_name } =>
                ProcessResolverDeclarationErrorView::InvalidParentType {
                    parent_type: parent_type@,
                    parent_type_name: parent_type_name@,
                },
            ProcessResolverDeclarationError::ParentAlreadyHasField {
                parent_type,
                parent_type_name,
                resolver_field_name,
            } => ProcessResolverDeclarationErrorView::ParentAlreadyHasField {
                parent_type: parent_type@,
                parent_type_name: parent_type_name@,
                resolver_field_name: resolver_field_name@,
            },
            ProcessResolverDeclarationError::ComponentResolverMissingJsFunction =>
                ProcessResolverDeclarationErrorView::ComponentResolverMissingJsFunction,
        }
    }
}

impl ProcessResolverDeclarationError {
    /// A human-readable description of the error.
    pub fn message(&self) -> String {
        match self {
            ProcessResolverDeclarationError::MissingParent { parent_type_name } => {
                let mut m = "Missing parent type. Type: `".to_owned();
                m.append(parent_type_name.as_str());
                m.append("`");
                m
            },
            ProcessResolverDeclarationError::InvalidParentType { parent_type, parent_type_name } => {
                let mut m = "Invalid parent type. `".to_owned();
                m.append(parent_type_name.as_str());
                m.append("` is a ");
                m.append(parent_type.as_str());
                m.append(", but it should be an object or interface.");
                m
            },
            ProcessResolverDeclarationError::ParentAlreadyHasField {
                parent_type,
                parent_type_name,
                resolver_field_name,
            } => {
                let mut m = "The ".to_owned();
                m.append(parent_type.as_str());
                m.append(" ");
                m.append(parent_type_name.as_str());
                m.append(" already has a field named `");
                m.append(resolver_field_name.as_str());
                m.append("`.");
                m
            },
            ProcessResolverDeclarationError::ComponentResolverMissingJsFunction => {
                "Resolvers with @component must have an associated javascript function".to_owned()
            },
        }
    }
}

// ---------------------------------------------------------------------------
// Directive scanning
// ---------------------------------------------------------------------------

/// The resolver variant declared by the first `@eager` or `@component`
/// directive; later duplicates are ignored, not an error.
pub open spec fn spec_get_resolver_variant(
    directives: Seq<FragmentDirectiveUsageView>,
) -> Option<ResolverVariant>
    decreases directives.len(),
{
    if directives.len() == 0 {
        None
    } else if directives[0].name == "eager"@ {
        Some(ResolverVariant::Eager)
    } else if directives[0].name == "component"@ {
        Some(ResolverVariant::Component)
    } else {
        spec_get_resolver_variant(directives.drop_first())
    }
}

/// Whether some directive is `@fetchable`.
pub open spec fn spec_is_fetchable(directives: Seq<FragmentDirectiveUsageView>) -> bool
    decreases directives.len(),
{
    if directives.len() == 0 {
        false
    } else {
        directives[0].name == "fetchable"@ || spec_is_fetchable(directives.drop_first())
    }
}

/// Scans a declaration's directives for the first `@eager` or `@component`.
pub fn get_resolver_variant(directives: &Vec<FragmentDirectiveUsage>) -> (r: Option<
    ResolverVariant,
>)
    ensures
        r == spec_get_resolver_variant(directives.deep_view()),
{
    let ghost all = directives.deep_view();
    let mut i: usize = 0;
    proof {
        assert(all.subrange(0, all.len() as int) =~= all);
    }
    while i < directives.len()
        invariant
            i <= directives@.len(),
            all == directives.deep_view(),
            spec_get_resolver_variant(all) == spec_get_resolver_variant(
                all.subrange(i as int, all.len() as int),
            ),
        decreases directives@.len() - i,
    {
        proof {
            assert(all.subrange(i as int, all.len() as int)[0] == all[i as int]);
            assert(all[i as int] == directives@[i as int].deep_view());
            assert(all.subrange(i as int, all.len() as int).drop_first() =~= all.subrange(
                i as int + 1,
                all.len() as int,
            ));
        }
        if directives[i].name.eq(&"eager".to_owned()) {
            return Some(ResolverVariant::Eager);
        } else if directives[i].name.eq(&"component".to_owned()) {
            return Some(ResolverVariant::Component);
        }
        i = i + 1;
    }
    None
}

/// Scans a declaration's directives for `@fetchable`.
pub fn is_fetchable(directives: &Vec<FragmentDirectiveUsage>) -> (r: bool)
    ensures
        r == spec_is_fetchable(directives.deep_view()),
{
    let ghost all = directives.deep_view();
    let mut i: usize = 0;
    proof {
        assert(all.subrange(0, all.len() as int) =~= all);
    }
    while i < directives.len()
        invariant
            i <= directives@.len(),
            all == directives.deep_view(),
            spec_is_fetchable(all) == spec_is_fetchable(
                all.subrange(i as int, all.len() as int),
            ),
        decreases directives@.len() - i,
    {
        proof {
            assert(all.subrange(i as int, all.len() as int)[0] == all[i as int]);
            assert(all[i as int] == directives@[i as int].deep_view());
            assert(all.subrange(i as int, all.len() as int).drop_first() =~= all.subrange(
                i as int + 1,
                all.len() as int,
            ));
        }
        if directives[i].name.eq(&"fetchable".to_owned()) {
            return true;
        }
        i = i + 1;
    }
    false
}

// ---------------------------------------------------------------------------
// Specification
// ---------------------------------------------------------------------------

/// What attaching a resolver to the object `parent_object_id` does: reject a
/// field-name collision or a `@component` resolver without a bound function;
/// otherwise allocate the next resolver handle, record it on the object, and
/// enter the synthetic field into the object's field-name table.
pub open spec fn spec_add_resolver_field_to_object(
    s: UnvalidatedSchemaView,
    parent_object_id: usize,
    d: ResolverDeclarationView,
) -> Result<UnvalidatedSchemaView, ProcessResolverDeclarationErrorView> {
    let o = s.schema_data.objects[parent_object_id as int];
    if lookup_pair(o.encountered_field_names, d.resolver_field_name) is Some {
        Err(ProcessResolverDeclarationErrorView::ParentAlreadyHasField {
            parent_type: "object"@,
            parent_type_name: o.name,
            resolver_field_name: d.resolver_field_name,
        })
    } else {
        let variant = spec_get_resolver_variant(d.directives);
        if variant == Some(ResolverVariant::Component) && !d.has_associated_js_function {
            Err(ProcessResolverDeclarationErrorView::ComponentResolverMissingJsFunction)
        } else {
            let next_resolver_id = s.resolvers.len() as usize;
            Ok(UnvalidatedSchemaView {
                fields: s.fields,
                resolvers: s.resolvers.push(
                    SchemaResolverView {
                        name: d.resolver_field_name,
                        id: next_resolver_id,
                        parent_object_id: parent_object_id,
                        resolver_definition_path: d.resolver_definition_path,
                        selection_set: d.selection_set,
                        variable_definitions: d.variable_definitions,
                        variant: variant,
                        is_fetchable: spec_is_fetchable(d.directives),
                        has_associated_js_function: d.has_associated_js_function,
                        type_and_field: o.name + "__"@ + d.resolver_field_name,
                    },
                ),
                schema_data: SchemaDataView {
                    objects: s.schema_data.objects.update(
                        parent_object_id as int,
                        SchemaObjectView {
                            name: o.name,
                            id: o.id,
                            fields: o.fields,
                            resolvers: o.resolvers.push(next_resolver_id),
                            encountered_field_names: o.encountered_field_names.push(
                                (
                                    d.resolver_field_name,
                                    DefinedFieldView::ResolverField(d.resolver_field_name),
                                ),
                            ),
                        },
                    ),
                    scalars: s.schema_data.scalars,
                    defined_types: s.schema_data.defined_types,
                },
                id_type: s.id_type,
                string_type: s.string_type,
                query_type: s.query_type,
            })
        }
    }
}

/// What processing a resolver declaration does: reject an undefined parent
/// type name or a scalar parent; otherwise attach the resolver to the parent
/// object.
pub open spec fn spec_process_resolver_declaration(
    s: UnvalidatedSchemaView,
    d: ResolverDeclarationView,
) -> Result<UnvalidatedSchemaView, ProcessResolverDeclarationErrorView> {
    match lookup_pair(s.schema_data.defined_types, d.parent_type) {
        None => Err(ProcessResolverDeclarationErrorView::MissingParent {
            parent_type_name: d.parent_type,
        }),
        Some(TypeId::Object(object_id)) => spec_add_resolver_field_to_object(s, object_id, d),
        Some(TypeId::Scalar(scalar_id)) => Err(
            ProcessResolverDeclarationErrorView::InvalidParentType {
                parent_type: "scalar"@,
                parent_type_name: s.schema_data.scalars[scalar_id as int].name,
            },
        ),
    }
}

/// A resolver declaration that is accepted keeps the schema well formed.
pub proof fn lemma_process_resolver_declaration_preserves_wf(
    s: UnvalidatedSchemaView,
    d: ResolverDeclarationView,
)
    requires
        crate::schema_types::wf_unvalidated_schema(s),
        s.resolvers.len() < usize::MAX,
    ensures
        spec_process_resolver_declaration(s, d) matches Ok(s2)
            ==> crate::schema_types::wf_unvalidated_schema(s2),
{
    crate::schema_types::lemma_lookup_pair_found(s.schema_data.defined_types, d.parent_type, 0);
    if spec_process_resolver_declaration(s, d) is Ok {
        let s2 = spec_process_resolver_declaration(s, d)->Ok_0;
        match lookup_pair(s.schema_data.defined_types, d.parent_type) {
            Some(TypeId::Object(parent_object_id)) => {
                let o = s.schema_data.objects[parent_object_id as int];
                let next_resolver_id = s.resolvers.len() as usize;
                assert forall|j: int| 0 <= j < s2.schema_data.objects.len() implies
                    crate::schema_types::wf_object_resolvers(
                        #[trigger] s2.schema_data.objects[j],
                        s2.resolvers,
                    ) by {
                    assert(crate::schema_types::wf_object_resolvers(
                        s.schema_data.objects[j],
                        s.resolvers,
                    ));
                    let o2 = s2.schema_data.objects[j];
                    if j == parent_object_id {
                        assert forall|e: int|
                            0 <= e < o2.encountered_field_names.len() implies ((
                        #[trigger] o2.encountered_field_names[e].1) matches DefinedFieldView::ResolverField(
                            n,
                        ) ==> o2.encountered_field_names[e].0 == n && exists|k: int|
                            0 <= k < o2.resolvers.len() && s2.resolvers[
                            #[trigger] o2.resolvers[k] as int
                        ].name == n) by {
                            match o2.encountered_field_names[e].1 {
                                DefinedFieldView::ServerField(_) => {},
                                DefinedFieldView::ResolverField(n) => {
                                if e < o.encountered_field_names.len() {
                                    assert(o.encountered_field_names[e]
                                        == o2.encountered_field_names[e]);
                                    let k0 = choose|k: int|
                                        0 <= k < o.resolvers.len() && s.resolvers[
                                        #[trigger] o.resolvers[k] as int
                                    ].name == n;
                                    assert(o2.resolvers[k0] == o.resolvers[k0]);
                                    assert(s2.resolvers[o.resolvers[k0] as int]
                                        == s.resolvers[o.resolvers[k0] as int]);
                                } else {
                                    let k0 = o2.resolvers.len() - 1;
                                    assert(o2.resolvers[k0] == next_resolver_id);
                                    assert(o2.encountered_field_names[e]
                                        == o.encountered_field_names.push(
                                        (
                                            d.resolver_field_name,
                                            DefinedFieldView::ResolverField(d.resolver_field_name),
                                        ),
                                    )[e]);
                                    assert(n == d.resolver_field_name);
                                    let rec = SchemaResolverView {
                                        name: d.resolver_field_name,
                                        id: next_resolver_id,
                                        parent_object_id: parent_object_id,
                                        resolver_definition_path: d.resolver_definition_path,
                                        selection_set: d.selection_set,
                                        variable_definitions: d.variable_definitions,
                                        variant: spec_get_resolver_variant(d.directives),
                                        is_fetchable: spec_is_fetchable(d.directives),
                                        has_associated_js_function: d.has_associated_js_function,
                                        type_and_field: o.name + "__"@ + d.resolver_field_name,
                                    };
                                    assert(s2.resolvers == s.resolvers.push(rec));
                                    assert(s2.resolvers[next_resolver_id as int] == rec);
                                    assert(s2.resolvers[next_resolver_id as int].name
                                        == d.resolver_field_name);
                                }
                                },
                            }
                        }
                    } else {
                        assert(o2 == s.schema_data.objects[j]);
                        assert forall|e: int|
                            0 <= e < o2.encountered_field_names.len() implies ((
                        #[trigger] o2.encountered_field_names[e].1) matches DefinedFieldView::ResolverField(
                            n,
                        ) ==> o2.encountered_field_names[e].0 == n && exists|k: int|
                            0 <= k < o2.resolvers.len() && s2.resolvers[
                            #[trigger] o2.resolvers[k] as int
                        ].name == n) by {
                            match o2.encountered_field_names[e].1 {
                                DefinedFieldView::ServerField(_) => {},
                                DefinedFieldView::ResolverField(n) => {
                                    let k0 = choose|k: int|
                                        0 <= k < o2.resolvers.len() && s.resolvers[
                                        #[trigger] o2.resolvers[k] as int
                                    ].name == n;
                                    assert(s2.resolvers[o2.resolvers[k0] as int]
                                        == s.resolvers[o2.resolvers[k0] as int]);
                                },
                            }
                        }
                    }
                }
            },
            _ => {},
        }
    }
}

// ---------------------------------------------------------------------------
// Executable code
// ---------------------------------------------------------------------------

impl UnvalidatedSchema {
    /// Attaches a resolver declaration to its parent object type, or rejects
    /// it, leaving the schema unchanged.
    pub fn process_resolver_declaration(
        &mut self,
        resolver_declaration: ResolverDeclaration,
    ) -> (r: Result<(), ProcessResolverDeclarationError>)
        requires
            wf_schema_data(old(self).deep_view().schema_data),
        ensures
            match r {
                Ok(()) => spec_process_resolver_declaration(
                    old(self).deep_view(),
                    resolver_declaration.deep_view(),
                ) == Ok::<_, ProcessResolverDeclarationErrorView>(final(self).deep_view()),
                Err(e) => spec_process_resolver_declaration(
                    old(self).deep_view(),
                    resolver_declaration.deep_view(),
                ) == Err::<UnvalidatedSchemaView, _>(e.deep_view()) && final(self).deep_view()
                    == old(self).deep_view(),
            },
    {
        proof {
            crate::schema_types::lemma_lookup_pair_found(
                self.schema_data.deep_view().defined_types,
                resolver_declaration.parent_type@,
                0,
            );
        }
        match self.schema_data.lookup_defined_type(&resolver_declaration.parent_type) {
            None => Err(
                ProcessResolverDeclarationError::MissingParent {
                    parent_type_name: resolver_declaration.parent_type.clone(),
                },
            ),
            Some(TypeId::Object(object_id)) => self.add_resolver_field_to_object(
                object_id,
                resolver_declaration,
            ),
            Some(TypeId::Scalar(scalar_id)) => {
                let scalar_name = self.schema_data.scalars[scalar_id].name.clone();
                Err(
                    ProcessResolverDeclarationError::InvalidParentType {
                        parent_type: "scalar".to_owned(),
                        parent_type_name: scalar_name,
                    },
                )
            },
        }
    }

    /// Attaches a resolver to the object with handle `parent_object_id`.
    fn add_resolver_field_to_object(
        &mut self,
        parent_object_id: usize,
        resolver_declaration: ResolverDeclaration,
    ) -> (r: Result<(), ProcessResolverDeclarationError>)
        requires
            parent_object_id < old(self).schema_data.objects@.len(),
        ensures
            match r {
                Ok(()) => spec_add_resolver_field_to_object(
                    old(self).deep_view(),
                    parent_object_id,
                    resolver_declaration.deep_view(),
                ) == Ok::<_, ProcessResolverDeclarationErrorView>(final(self).deep_view()),
                Err(e) => spec_add_resolver_field_to_object(
                    old(self).deep_view(),
                    parent_object_id,
                    resolver_declaration.deep_view(),
                ) == Err::<UnvalidatedSchemaView, _>(e.deep_view()) && final(self).deep_view()
                    == old(self).deep_view(),
            },
    {
        proof {
            assert(self.schema_data.objects.deep_view()[parent_object_id as int]
                == self.schema_data.objects@[parent_object_id as int].deep_view());
        }
        let resolver_field_name = resolver_declaration.resolver_field_name;
        let object_name = self.schema_data.objects[parent_object_id].name.clone();
        if crate::schema_types::pair_table_contains(
            &self.schema_data.objects[parent_object_id].encountered_field_names,
            &resolver_field_name,
        ) {
            return Err(
                ProcessResolverDeclarationError::ParentAlreadyHasField {
                    parent_type: "object".to_owned(),
                    parent_type_name: object_name,
                    resolver_field_name,
                },
            );
        }

        let variant = get_resolver_variant(&resolver_declaration.directives);
        let has_associated_js_function = resolver_declaration.has_associated_js_function;
        if matches!(variant, Some(ResolverVariant::Component)) && !has_associated_js_function {
            return Err(ProcessResolverDeclarationError::ComponentResolverMissingJsFunction);
        }

        let next_resolver_id = self.resolvers.len();
        let mut type_and_field = object_name;
        type_and_field.append("__");
        type_and_field.append(resolver_field_name.as_str());

        let fetchable = is_fetchable(&resolver_declaration.directives);
        self.schema_data.objects[parent_object_id].resolvers.push(next_resolver_id);
        self.schema_data.objects[parent_object_id].encountered_field_names.push(
            (resolver_field_name.clone(), DefinedField::ResolverField(resolver_field_name.clone())),
        );
        self.resolvers.push(
            SchemaResolverDefinitionInfo {
                name: resolver_field_name,
                id: next_resolver_id,
                parent_object_id,
                resolver_definition_path: resolver_declaration.resolver_definition_path,
                selection_set: resolver_declaration.selection_set,
                variable_definitions: resolver_declaration.variable_definitions,
                variant,
                is_fetchable: fetchable,
                has_associated_js_function,
                type_and_field,
            },
        );
        proof {
            let tv = spec_add_resolver_field_to_object(
                old(self).deep_view(),
                parent_object_id,
                resolver_declaration.deep_view(),
            );
            assert(tv is Ok);
            assert(self.resolvers.deep_view() =~~= tv->Ok_0.resolvers);
            assert(self.schema_data.objects.deep_view() =~~= tv->Ok_0.schema_data.objects);
            assert(self.deep_view() =~~= tv->Ok_0);
        }
        Ok(())
    }
}

} // verus!
