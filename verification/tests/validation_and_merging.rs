//! Validating schemas and merging selection sets.

use boulton::merge_selection_set::{merge_selection_set, MergeError};
use boulton::process_resolver_declaration::{FragmentDirectiveUsage, ResolverDeclaration};
use boulton::process_type_definition::{ObjectTypeDefinition, OutputFieldDefinition};
use boulton::schema_types::{TypeAnnotation, TypeId, UnvalidatedSchema};
use boulton::selection_types::{
    clone_validated_selections, LinkedFieldSelection, NonConstantValue, ScalarFieldSelection,
    Selection, SelectionFieldArgument, ValidatedFieldRef, ValidatedLinkedFieldSelection,
    ValidatedScalarFieldSelection, ValidatedSelection,
};
use boulton::validate_schema::{validate_schema, ValidationError};


fn expect_err<T, E>(r: Result<T, E>) -> E {
    match r {
        Err(e) => e,
        Ok(_) => panic!("expected an error"),
    }
}

fn field(name: &str, target: &str) -> OutputFieldDefinition {
    OutputFieldDefinition {
        name: name.to_owned(),
        type_: TypeAnnotation::Named(target.to_owned()),
    }
}

fn object(name: &str, fields: Vec<OutputFieldDefinition>) -> ObjectTypeDefinition {
    ObjectTypeDefinition { name: name.to_owned(), fields }
}

fn scalar_selection(name: &str) -> Selection {
    Selection::ScalarField(ScalarFieldSelection {
        name: name.to_owned(),
        alias: None,
        arguments: vec![],
    })
}

fn linked_selection(name: &str, selections: Vec<Selection>) -> Selection {
    Selection::LinkedField(LinkedFieldSelection {
        name: name.to_owned(),
        alias: None,
        arguments: vec![],
        selections,
    })
}

/// A schema with `Query { greeting: String, me: User }` and
/// `User { id: ID, name: String, best_friend: User }`.
fn demo_schema() -> UnvalidatedSchema {
    let mut schema = UnvalidatedSchema::new();
    schema
        .process_object_type_definition(&object(
            "Query",
            vec![field("greeting", "String"), field("me", "User")],
        ))
        .unwrap();
    schema
        .process_object_type_definition(&object(
            "User",
            vec![
                field("id", "ID"),
                field("name", "String"),
                field("best_friend", "User"),
            ],
        ))
        .unwrap();
    schema
}

fn declaration_with_selections(name: &str, selections: Vec<Selection>) -> ResolverDeclaration {
    ResolverDeclaration {
        parent_type: "Query".to_owned(),
        resolver_field_name: name.to_owned(),
        resolver_definition_path: "src/demo.ts".to_owned(),
        selection_set: Some(selections),
        variable_definitions: vec![],
        directives: vec![FragmentDirectiveUsage {
            name: "fetchable".to_owned(),
        }],
        has_associated_js_function: true,
    }
}

#[test]
fn validation_resolves_fields_and_selections_to_handles() {
    let mut schema = demo_schema();
    schema
        .process_resolver_declaration(declaration_with_selections(
            "Profile",
            vec![
                scalar_selection("greeting"),
                linked_selection("me", vec![scalar_selection("id")]),
            ],
        ))
        .unwrap();
    let validated = validate_schema(schema).unwrap();
    assert_eq!(validated.fields[0].field_type, TypeId::Scalar(1));
    assert_eq!(validated.fields[1].field_type, TypeId::Object(1));
    let sels = validated.resolvers[0].selection_set.as_ref().unwrap();
    match &sels[0] {
        ValidatedSelection::ScalarField(f) => {
            assert_eq!(f.field, ValidatedFieldRef::Server(1));
        }
        _ => panic!("expected a scalar selection"),
    }
    match &sels[1] {
        ValidatedSelection::LinkedField(f) => {
            assert_eq!(f.object_id, 1);
            assert_eq!(f.selections.len(), 1);
        }
        _ => panic!("expected a linked selection"),
    }
}

#[test]
fn validation_marks_sibling_resolver_selections() {
    let mut schema = demo_schema();
    schema
        .process_resolver_declaration(ResolverDeclaration {
            parent_type: "User".to_owned(),
            resolver_field_name: "avatar".to_owned(),
            resolver_definition_path: "src/avatar.ts".to_owned(),
            selection_set: Some(vec![scalar_selection("id")]),
            variable_definitions: vec![],
            directives: vec![],
            has_associated_js_function: true,
        })
        .unwrap();
    schema
        .process_resolver_declaration(declaration_with_selections(
            "Profile",
            vec![linked_selection("me", vec![scalar_selection("avatar")])],
        ))
        .unwrap();
    let validated = validate_schema(schema).unwrap();
    let sels = validated.resolvers[1].selection_set.as_ref().unwrap();
    match &sels[0] {
        ValidatedSelection::LinkedField(f) => match &f.selections[0] {
            ValidatedSelection::ScalarField(s) => {
                assert_eq!(s.field, ValidatedFieldRef::Resolver);
            }
            _ => panic!("expected a scalar selection"),
        },
        _ => panic!("expected a linked selection"),
    }
}

#[test]
fn validation_rejects_undefined_field_type() {
    let mut schema = UnvalidatedSchema::new();
    schema
        .process_object_type_definition(&object("Query", vec![field("thing", "Missing")]))
        .unwrap();
    let err = expect_err(validate_schema(schema));
    assert_eq!(
        err,
        ValidationError::UnresolvedTypeReference {
            type_reference: "Missing".to_owned(),
        }
    );
}

#[test]
fn validation_rejects_selection_of_unknown_field() {
    let mut schema = demo_schema();
    schema
        .process_resolver_declaration(declaration_with_selections(
            "Profile",
            vec![scalar_selection("nonexistent")],
        ))
        .unwrap();
    let err = expect_err(validate_schema(schema));
    assert_eq!(
        err,
        ValidationError::FieldNotFoundOnParent {
            field_name: "nonexistent".to_owned(),
            parent_type_name: "Query".to_owned(),
        }
    );
}

#[test]
fn validation_rejects_scalar_selection_of_object_field() {
    let mut schema = demo_schema();
    schema
        .process_resolver_declaration(declaration_with_selections(
            "Profile",
            vec![scalar_selection("me")],
        ))
        .unwrap();
    let err = expect_err(validate_schema(schema));
    assert_eq!(
        err,
        ValidationError::SelectionKindMismatch {
            field_name: "me".to_owned(),
            parent_type_name: "Query".to_owned(),
        }
    );
}

#[test]
fn validation_rejects_linked_selection_of_scalar_field() {
    let mut schema = demo_schema();
    schema
        .process_resolver_declaration(declaration_with_selections(
            "Profile",
            vec![linked_selection("greeting", vec![])],
        ))
        .unwrap();
    let err = expect_err(validate_schema(schema));
    assert!(matches!(err, ValidationError::SelectionKindMismatch { .. }));
}

#[test]
fn validation_rejects_object_typed_variable() {
    let mut schema = demo_schema();
    let mut declaration = declaration_with_selections("Profile", vec![]);
    declaration.variable_definitions = vec![boulton::schema_types::VariableDefinition {
        name: "who".to_owned(),
        type_: TypeAnnotation::Named("User".to_owned()),
    }];
    schema.process_resolver_declaration(declaration).unwrap();
    let err = expect_err(validate_schema(schema));
    assert_eq!(
        err,
        ValidationError::InvalidInputType {
            type_reference: "User".to_owned(),
        }
    );
}

// --- merging ---

fn vscalar(name: &str, sid: usize) -> ValidatedSelection {
    ValidatedSelection::ScalarField(ValidatedScalarFieldSelection {
        name: name.to_owned(),
        alias: None,
        arguments: vec![],
        field: ValidatedFieldRef::Server(sid),
    })
}

fn vlinked(name: &str, oid: usize, selections: Vec<ValidatedSelection>) -> ValidatedSelection {
    ValidatedSelection::LinkedField(ValidatedLinkedFieldSelection {
        name: name.to_owned(),
        alias: None,
        arguments: vec![],
        object_id: oid,
        selections,
    })
}

fn selection_eq(a: &ValidatedSelection, b: &ValidatedSelection) -> bool {
    match (a, b) {
        (ValidatedSelection::ScalarField(x), ValidatedSelection::ScalarField(y)) => x == y,
        (ValidatedSelection::LinkedField(x), ValidatedSelection::LinkedField(y)) => {
            x.name == y.name
                && x.alias == y.alias
                && x.arguments == y.arguments
                && x.object_id == y.object_id
                && x.selections.len() == y.selections.len()
                && x.selections
                    .iter()
                    .zip(y.selections.iter())
                    .all(|(p, q)| selection_eq(p, q))
        }
        _ => false,
    }
}

#[test]
fn merge_collapses_selections_sharing_a_response_key() {
    let input = vec![
        vlinked("user", 1, vec![vscalar("id", 0)]),
        vlinked("user", 1, vec![vscalar("name", 1)]),
    ];
    let merged = merge_selection_set(input).unwrap();
    assert_eq!(merged.0.len(), 1);
    match &merged.0[0] {
        ValidatedSelection::LinkedField(f) => {
            assert_eq!(f.name, "user");
            assert_eq!(f.selections.len(), 2);
            assert!(selection_eq(&f.selections[0], &vscalar("id", 0)));
            assert!(selection_eq(&f.selections[1], &vscalar("name", 1)));
        }
        _ => panic!("expected a linked selection"),
    }
}

#[test]
fn merge_keeps_first_occurrence_order() {
    let input = vec![vscalar("b", 0), vscalar("a", 1), vscalar("b", 0)];
    let merged = merge_selection_set(input).unwrap();
    assert_eq!(merged.0.len(), 2);
    assert!(selection_eq(&merged.0[0], &vscalar("b", 0)));
    assert!(selection_eq(&merged.0[1], &vscalar("a", 1)));
}

#[test]
fn merge_is_idempotent() {
    let input = vec![
        vscalar("b", 0),
        vlinked(
            "user",
            1,
            vec![vscalar("id", 0), vscalar("id", 0), vscalar("name", 1)],
        ),
        vscalar("a", 1),
        vscalar("b", 0),
        vlinked("user", 1, vec![vscalar("name", 1)]),
    ];
    let once = merge_selection_set(input).unwrap();
    let twice = merge_selection_set(clone_validated_selections(&once.0)).unwrap();
    assert_eq!(once.0.len(), twice.0.len());
    for (x, y) in once.0.iter().zip(twice.0.iter()) {
        assert!(selection_eq(x, y));
    }
}

#[test]
fn merge_drops_resolver_field_selections() {
    let resolver_sel = ValidatedSelection::ScalarField(ValidatedScalarFieldSelection {
        name: "avatar".to_owned(),
        alias: None,
        arguments: vec![],
        field: ValidatedFieldRef::Resolver,
    });
    let merged = merge_selection_set(vec![resolver_sel, vscalar("id", 0)]).unwrap();
    assert_eq!(merged.0.len(), 1);
    assert!(selection_eq(&merged.0[0], &vscalar("id", 0)));
}

#[test]
fn merge_rejects_conflicting_kinds() {
    let err =
        expect_err(merge_selection_set(vec![vscalar("user", 0), vlinked("user", 1, vec![])]));
    assert_eq!(
        err,
        MergeError::ConflictingSelectionKinds {
            response_key: "user".to_owned(),
        }
    );
}

#[test]
fn merge_rejects_conflicting_arguments() {
    let with_arg = |var: &str| {
        ValidatedSelection::ScalarField(ValidatedScalarFieldSelection {
            name: "greeting".to_owned(),
            alias: None,
            arguments: vec![SelectionFieldArgument {
                name: "lang".to_owned(),
                value: NonConstantValue::Variable(var.to_owned()),
            }],
            field: ValidatedFieldRef::Server(1),
        })
    };
    let err = expect_err(merge_selection_set(vec![with_arg("a"), with_arg("b")]));
    assert_eq!(
        err,
        MergeError::ConflictingArguments {
            response_key: "greeting".to_owned(),
        }
    );
}

#[test]
fn merge_rejects_aliased_fields_naming_different_servers() {
    let one = ValidatedSelection::ScalarField(ValidatedScalarFieldSelection {
        name: "greeting".to_owned(),
        alias: Some("x".to_owned()),
        arguments: vec![],
        field: ValidatedFieldRef::Server(1),
    });
    let other = ValidatedSelection::ScalarField(ValidatedScalarFieldSelection {
        name: "x".to_owned(),
        alias: None,
        arguments: vec![],
        field: ValidatedFieldRef::Server(0),
    });
    let err = expect_err(merge_selection_set(vec![one, other]));
    assert_eq!(
        err,
        MergeError::ConflictingFields {
            response_key: "x".to_owned(),
        }
    );
}
