//! Building schemas from type-system documents and resolver declarations.

use boulton::process_resolver_declaration::{
    get_resolver_variant, is_fetchable, FragmentDirectiveUsage, ProcessResolverDeclarationError,
    ResolverDeclaration,
};
use boulton::process_type_definition::{
    ObjectTypeDefinition, OutputFieldDefinition, ProcessTypeDefinitionError, TypeSystemDefinition,
    TypeSystemDocument,
};
use boulton::schema_types::{
    ResolverVariant, TypeAnnotation, TypeId, UnvalidatedSchema, VariableDefinition,
};

fn field(name: &str, target: &str) -> OutputFieldDefinition {
    OutputFieldDefinition {
        name: name.to_owned(),
        type_: TypeAnnotation::Named(target.to_owned()),
    }
}

fn object(name: &str, fields: Vec<OutputFieldDefinition>) -> ObjectTypeDefinition {
    ObjectTypeDefinition { name: name.to_owned(), fields }
}

fn plain_declaration(parent: &str, name: &str, directives: Vec<&str>) -> ResolverDeclaration {
    ResolverDeclaration {
        parent_type: parent.to_owned(),
        resolver_field_name: name.to_owned(),
        resolver_definition_path: "src/components.ts".to_owned(),
        selection_set: Some(vec![]),
        variable_definitions: vec![],
        directives: directives
            .into_iter()
            .map(|d| FragmentDirectiveUsage { name: d.to_owned() })
            .collect(),
        has_associated_js_function: true,
    }
}

#[test]
fn new_schema_defines_id_and_string_scalars() {
    let schema = UnvalidatedSchema::new();
    assert_eq!(schema.schema_data.scalars.len(), 2);
    assert_eq!(schema.schema_data.scalars[0].name, "ID");
    assert_eq!(schema.schema_data.scalars[1].name, "String");
    assert_eq!(schema.schema_data.scalars[0].javascript_name, "string");
    assert_eq!(schema.id_type, 0);
    assert_eq!(schema.string_type, 1);
    assert!(schema.query_type.is_none());
    assert_eq!(
        schema.schema_data.lookup_defined_type(&"ID".to_owned()),
        Some(TypeId::Scalar(0))
    );
}

#[test]
fn processing_an_object_records_fields_and_query_root() {
    let mut schema = UnvalidatedSchema::new();
    let doc = TypeSystemDocument(vec![TypeSystemDefinition::ObjectTypeDefinition(object(
        "Query",
        vec![field("greeting", "String"), field("me", "User")],
    ))]);
    schema.process_type_system_document(&doc).unwrap();
    assert_eq!(schema.query_type, Some(0));
    assert_eq!(schema.schema_data.objects.len(), 1);
    assert_eq!(schema.schema_data.objects[0].name, "Query");
    assert_eq!(schema.schema_data.objects[0].fields, vec![0, 1]);
    assert_eq!(schema.fields.len(), 2);
    assert_eq!(schema.fields[0].name, "greeting");
    assert_eq!(schema.fields[0].field_type, "String");
    assert_eq!(schema.fields[1].parent_object_id, 0);
    assert_eq!(
        schema.schema_data.lookup_defined_type(&"Query".to_owned()),
        Some(TypeId::Object(0))
    );
}

#[test]
fn non_query_object_does_not_become_query_root() {
    let mut schema = UnvalidatedSchema::new();
    schema
        .process_object_type_definition(&object("User", vec![field("id", "ID")]))
        .unwrap();
    assert!(schema.query_type.is_none());
}

#[test]
fn duplicate_type_definition_is_rejected() {
    let mut schema = UnvalidatedSchema::new();
    schema
        .process_object_type_definition(&object("User", vec![field("id", "ID")]))
        .unwrap();
    let err = schema
        .process_object_type_definition(&object("User", vec![]))
        .unwrap_err();
    assert_eq!(
        err,
        ProcessTypeDefinitionError::DuplicateTypeDefinition {
            type_definition_type: "object".to_owned(),
            name: "User".to_owned(),
        }
    );
    // the failed definition left nothing behind
    assert_eq!(schema.schema_data.objects.len(), 1);
}

#[test]
fn type_name_clashing_with_a_scalar_is_rejected() {
    let mut schema = UnvalidatedSchema::new();
    let err = schema
        .process_object_type_definition(&object("String", vec![]))
        .unwrap_err();
    assert!(matches!(
        err,
        ProcessTypeDefinitionError::DuplicateTypeDefinition { .. }
    ));
}

#[test]
fn duplicate_field_is_rejected() {
    let mut schema = UnvalidatedSchema::new();
    let err = schema
        .process_object_type_definition(&object(
            "User",
            vec![field("id", "ID"), field("id", "String")],
        ))
        .unwrap_err();
    assert_eq!(
        err,
        ProcessTypeDefinitionError::DuplicateField {
            field_name: "id".to_owned(),
            parent_type: "User".to_owned(),
        }
    );
    assert_eq!(schema.schema_data.objects.len(), 0);
    assert_eq!(schema.fields.len(), 0);
}

#[test]
fn resolver_with_missing_parent_is_rejected() {
    let mut schema = UnvalidatedSchema::new();
    let err = schema
        .process_resolver_declaration(plain_declaration("Query", "Greeting", vec![]))
        .unwrap_err();
    assert_eq!(
        err,
        ProcessResolverDeclarationError::MissingParent {
            parent_type_name: "Query".to_owned(),
        }
    );
}

#[test]
fn resolver_on_a_scalar_parent_is_rejected() {
    let mut schema = UnvalidatedSchema::new();
    let err = schema
        .process_resolver_declaration(plain_declaration("String", "Greeting", vec![]))
        .unwrap_err();
    assert_eq!(
        err,
        ProcessResolverDeclarationError::InvalidParentType {
            parent_type: "scalar".to_owned(),
            parent_type_name: "String".to_owned(),
        }
    );
}

#[test]
fn resolver_colliding_with_a_server_field_is_rejected() {
    let mut schema = UnvalidatedSchema::new();
    schema
        .process_object_type_definition(&object("Query", vec![field("greeting", "String")]))
        .unwrap();
    let err = schema
        .process_resolver_declaration(plain_declaration("Query", "greeting", vec![]))
        .unwrap_err();
    assert_eq!(
        err,
        ProcessResolverDeclarationError::ParentAlreadyHasField {
            parent_type: "object".to_owned(),
            parent_type_name: "Query".to_owned(),
            resolver_field_name: "greeting".to_owned(),
        }
    );
}

#[test]
fn component_resolver_without_bound_function_is_rejected() {
    let mut schema = UnvalidatedSchema::new();
    schema
        .process_object_type_definition(&object("Query", vec![field("greeting", "String")]))
        .unwrap();
    let mut declaration = plain_declaration("Query", "Banner", vec!["component"]);
    declaration.has_associated_js_function = false;
    let err = schema.process_resolver_declaration(declaration).unwrap_err();
    assert_eq!(
        err,
        ProcessResolverDeclarationError::ComponentResolverMissingJsFunction
    );
    // nothing was attached
    assert_eq!(schema.resolvers.len(), 0);
    assert_eq!(schema.schema_data.objects[0].resolvers.len(), 0);
}

#[test]
fn accepted_resolver_is_attached_with_identity_and_flags() {
    let mut schema = UnvalidatedSchema::new();
    schema
        .process_object_type_definition(&object("Query", vec![field("greeting", "String")]))
        .unwrap();
    schema
        .process_resolver_declaration(plain_declaration(
            "Query",
            "Greeting",
            vec!["eager", "fetchable"],
        ))
        .unwrap();
    assert_eq!(schema.resolvers.len(), 1);
    let r = &schema.resolvers[0];
    assert_eq!(r.name, "Greeting");
    assert_eq!(r.id, 0);
    assert_eq!(r.parent_object_id, 0);
    assert_eq!(r.type_and_field, "Query__Greeting");
    assert_eq!(r.variant, Some(ResolverVariant::Eager));
    assert!(r.is_fetchable);
    assert_eq!(schema.schema_data.objects[0].resolvers, vec![0]);
}

#[test]
fn first_variant_directive_wins_and_duplicates_are_ignored() {
    let directives: Vec<FragmentDirectiveUsage> = ["other", "component", "eager"]
        .iter()
        .map(|d| FragmentDirectiveUsage {
            name: (*d).to_owned(),
        })
        .collect();
    assert_eq!(
        get_resolver_variant(&directives),
        Some(ResolverVariant::Component)
    );
    assert!(!is_fetchable(&directives));
    let none: Vec<FragmentDirectiveUsage> = vec![];
    assert_eq!(get_resolver_variant(&none), None);
}

#[test]
fn variant_names_render_for_artifacts() {
    assert_eq!(ResolverVariant::Component.variant_name(), "Component");
    assert_eq!(ResolverVariant::Eager.variant_name(), "Eager");
}

#[test]
fn error_messages_name_the_offenders() {
    let e = ProcessTypeDefinitionError::DuplicateTypeDefinition {
        type_definition_type: "object".to_owned(),
        name: "User".to_owned(),
    };
    assert_eq!(e.message(), "Duplicate type definition (object) named \"User\"");
    let e = ProcessResolverDeclarationError::MissingParent {
        parent_type_name: "Ghost".to_owned(),
    };
    assert_eq!(e.message(), "Missing parent type. Type: `Ghost`");
}

#[test]
fn split_separates_a_field_from_its_type() {
    let f = boulton::schema_types::SchemaField {
        name: "id".to_owned(),
        id: 7,
        parent_object_id: 3,
        field_type: "ID".to_owned(),
    };
    let (bare, t) = f.split();
    assert_eq!(bare.name, "id");
    assert_eq!(bare.id, 7);
    assert_eq!(bare.parent_object_id, 3);
    assert_eq!(t, "ID");
}

#[test]
fn compiling_twice_gives_identical_schemas() {
    let build = || {
        let mut schema = UnvalidatedSchema::new();
        schema
            .process_object_type_definition(&object(
                "Query",
                vec![field("greeting", "String"), field("me", "User")],
            ))
            .unwrap();
        schema
            .process_object_type_definition(&object("User", vec![field("id", "ID")]))
            .unwrap();
        schema
            .process_resolver_declaration(ResolverDeclaration {
                parent_type: "Query".to_owned(),
                resolver_field_name: "Greeting".to_owned(),
                resolver_definition_path: "src/greeting.ts".to_owned(),
                selection_set: Some(vec![]),
                variable_definitions: vec![VariableDefinition {
                    name: "id".to_owned(),
                    type_: TypeAnnotation::Named("ID".to_owned()),
                }],
                directives: vec![FragmentDirectiveUsage {
                    name: "fetchable".to_owned(),
                }],
                has_associated_js_function: true,
            })
            .unwrap();
        schema
    };
    let a = build();
    let b = build();
    assert_eq!(a.fields, b.fields);
    assert_eq!(a.schema_data, b.schema_data);
    assert_eq!(a.query_type, b.query_type);
    assert_eq!(a.resolvers.len(), b.resolvers.len());
    for (x, y) in a.resolvers.iter().zip(b.resolvers.iter()) {
        assert_eq!(x.name, y.name);
        assert_eq!(x.id, y.id);
        assert_eq!(x.type_and_field, y.type_and_field);
    }
}
