//! End-to-end artifact generation.

use boulton::control_flow::{from_control_flow, to_control_flow};
use boulton::generate_artifacts::{
    generate_artifacts, generate_query_type_declaration, generated_file_path, get_all_artifacts,
    nested_resolver_names_to_import_statement, Artifact, GenerateArtifactsError,
    NestedResolverName,
};
use boulton::merge_selection_set::MergeError;
use boulton::process_resolver_declaration::{FragmentDirectiveUsage, ResolverDeclaration};
use boulton::process_type_definition::{ObjectTypeDefinition, OutputFieldDefinition};
use boulton::schema_types::{
    NonNullTypeAnnotation, SchemaInputType, SchemaOutputType, SchemaType, SchemaTypeWithFields,
    SchemaTypeWithoutFields, TypeAnnotation, TypeId, UnvalidatedSchema, ValidatedSchema,
    VariableDefinition,
};
use boulton::selection_types::{
    LinkedFieldSelection, NonConstantValue, ScalarFieldSelection, Selection,
    SelectionFieldArgument, ValidatedFieldRef, ValidatedScalarFieldSelection, ValidatedSelection,
};
use boulton::validate_schema::validate_schema;
use core::ops::ControlFlow;

fn field(name: &str, target: &str) -> OutputFieldDefinition {
    OutputFieldDefinition {
        name: name.to_owned(),
        type_: TypeAnnotation::Named(target.to_owned()),
    }
}

fn object(name: &str, fields: Vec<OutputFieldDefinition>) -> ObjectTypeDefinition {
    ObjectTypeDefinition { name: name.to_owned(), fields }
}

fn scalar_selection(name: &str) -> Selection {
    Selection::ScalarField(ScalarFieldSelection {
        name: name.to_owned(),
        alias: None,
        arguments: vec![],
    })
}

fn linked_selection(name: &str, selections: Vec<Selection>) -> Selection {
    Selection::LinkedField(LinkedFieldSelection {
        name: name.to_owned(),
        alias: None,
        arguments: vec![],
        selections,
    })
}

fn fetchable_declaration(name: &str, selections: Vec<Selection>) -> ResolverDeclaration {
    ResolverDeclaration {
        parent_type: "Query".to_owned(),
        resolver_field_name: name.to_owned(),
        resolver_definition_path: "src/demo.ts".to_owned(),
        selection_set: Some(selections),
        variable_definitions: vec![],
        directives: vec![FragmentDirectiveUsage {
            name: "fetchable".to_owned(),
        }],
        has_associated_js_function: true,
    }
}

/// `type Query { greeting: String, me: User }`, `type User { id: ID, name: String }`.
fn demo_schema() -> UnvalidatedSchema {
    let mut schema = UnvalidatedSchema::new();
    schema
        .process_object_type_definition(&object(
            "Query",
            vec![field("greeting", "String"), field("me", "User")],
        ))
        .unwrap();
    schema
        .process_object_type_definition(&object(
            "User",
            vec![field("id", "ID"), field("name", "String")],
        ))
        .unwrap();
    schema
}

fn validated_with(declarations: Vec<ResolverDeclaration>) -> ValidatedSchema {
    let mut schema = demo_schema();
    for declaration in declarations {
        schema.process_resolver_declaration(declaration).unwrap();
    }
    validate_schema(schema).unwrap()
}

#[test]
fn empty_fetchable_resolver_renders_empty_query_and_reader_ast() {
    let validated = validated_with(vec![fetchable_declaration("Greeting", vec![])]);
    let artifacts = get_all_artifacts(&validated).unwrap();
    assert_eq!(artifacts.len(), 1);
    match &artifacts[0] {
        Artifact::FetchableResolver(f) => {
            assert!(f.query_text.0.contains("query Greeting {\n}"));
            assert_eq!(f.query_text.0, "query Greeting {\n}");
            assert_eq!(f.reader_ast.0, "[\n]");
            assert_eq!(f.query_name, "Greeting");
            assert_eq!(f.parent_type_name, "Query");
        }
        _ => panic!("expected a fetchable resolver artifact"),
    }
    let files = generate_artifacts(&validated).unwrap();
    assert_eq!(files.len(), 1);
    assert_eq!(files[0].file_name, "Query__Greeting.boulton.ts");
}

#[test]
fn query_text_renders_fields_linked_blocks_and_aliases() {
    let aliased = Selection::ScalarField(ScalarFieldSelection {
        name: "greeting".to_owned(),
        alias: Some("hello".to_owned()),
        arguments: vec![],
    });
    let validated = validated_with(vec![fetchable_declaration(
        "Profile",
        vec![
            aliased,
            linked_selection("me", vec![scalar_selection("id"), scalar_selection("name")]),
        ],
    )]);
    let artifacts = get_all_artifacts(&validated).unwrap();
    match &artifacts[0] {
        Artifact::FetchableResolver(f) => {
            assert_eq!(
                f.query_text.0,
                "query Profile {\n  hello: greeting,\n  me {\n    id,\n    name,\n  },\n}"
            );
            assert_eq!(
                f.query_type_declaration.0,
                "  hello: string,\n  me: {\n    id: string,\n    name: string,\n  },\n"
            );
        }
        _ => panic!("expected a fetchable resolver artifact"),
    }
}

#[test]
fn query_variables_render_with_resolved_scalar_names() {
    let mut declaration = fetchable_declaration("Greeting", vec![]);
    declaration.variable_definitions = vec![
        VariableDefinition {
            name: "id".to_owned(),
            type_: TypeAnnotation::NonNull(Box::new(NonNullTypeAnnotation::Named(
                "ID".to_owned(),
            ))),
        },
        VariableDefinition {
            name: "names".to_owned(),
            type_: TypeAnnotation::List(Box::new(TypeAnnotation::Named("String".to_owned()))),
        },
    ];
    let validated = validated_with(vec![declaration]);
    let artifacts = get_all_artifacts(&validated).unwrap();
    match &artifacts[0] {
        Artifact::FetchableResolver(f) => {
            assert_eq!(f.query_text.0, "query Greeting($id: ID!, $names: [String]) {\n}");
        }
        _ => panic!("expected a fetchable resolver artifact"),
    }
}

#[test]
fn duplicate_selections_merge_into_the_query_text_only() {
    let validated = validated_with(vec![fetchable_declaration(
        "Profile",
        vec![
            linked_selection("me", vec![scalar_selection("id")]),
            linked_selection("me", vec![scalar_selection("name")]),
        ],
    )]);
    let artifacts = get_all_artifacts(&validated).unwrap();
    match &artifacts[0] {
        Artifact::FetchableResolver(f) => {
            // merged: one `me` block with both fields
            assert_eq!(
                f.query_text.0,
                "query Profile {\n  me {\n    id,\n    name,\n  },\n}"
            );
            // unmerged: the reader AST keeps both blocks
            assert_eq!(f.reader_ast.0.matches("kind: \"Linked\"").count(), 2);
        }
        _ => panic!("expected a fetchable resolver artifact"),
    }
}

#[test]
fn non_fetchable_resolver_gets_reader_ast_and_import_only() {
    let validated = validated_with(vec![ResolverDeclaration {
        parent_type: "User".to_owned(),
        resolver_field_name: "avatar".to_owned(),
        resolver_definition_path: "src/avatar.ts".to_owned(),
        selection_set: Some(vec![scalar_selection("id")]),
        variable_definitions: vec![],
        directives: vec![],
        has_associated_js_function: true,
    }]);
    let artifacts = get_all_artifacts(&validated).unwrap();
    assert_eq!(artifacts.len(), 1);
    match &artifacts[0] {
        Artifact::NonFetchableResolver(n) => {
            assert_eq!(n.parent_type_name, "User");
            assert_eq!(n.resolver_field_name, "avatar");
            assert_eq!(
                n.resolver_import_statement.0,
                "import { avatar as resolver } from '../src/avatar.ts';"
            );
            assert_eq!(
                n.reader_ast.0,
                "[\n  {\n    kind: \"Scalar\",\n    response_name: \"id\",\n    alias: null,\n  },\n]"
            );
            let contents = n.file_contents();
            assert!(contents.starts_with(
                "import type {BoultonNonFetchableResolver, ReaderAst} from '@boulton/react';\n"
            ));
            assert!(contents.contains("kind: 'NonFetchableResolver',\n"));
        }
        _ => panic!("expected a non-fetchable resolver artifact"),
    }
    let files = generate_artifacts(&validated).unwrap();
    assert_eq!(files[0].file_name, "User__avatar.boulton.ts");
}

#[test]
fn selecting_a_sibling_resolver_emits_a_resolver_step_and_import() {
    let avatar = ResolverDeclaration {
        parent_type: "User".to_owned(),
        resolver_field_name: "avatar".to_owned(),
        resolver_definition_path: "src/avatar.ts".to_owned(),
        selection_set: Some(vec![scalar_selection("id")]),
        variable_definitions: vec![],
        directives: vec![FragmentDirectiveUsage {
            name: "component".to_owned(),
        }],
        has_associated_js_function: true,
    };
    let profile = fetchable_declaration(
        "Profile",
        vec![linked_selection(
            "me",
            vec![scalar_selection("avatar"), scalar_selection("avatar")],
        )],
    );
    let validated = validated_with(vec![avatar, profile]);
    let artifacts = get_all_artifacts(&validated).unwrap();
    match &artifacts[1] {
        Artifact::FetchableResolver(f) => {
            assert!(f.reader_ast.0.contains("kind: \"Resolver\","));
            assert!(f.reader_ast.0.contains("resolver: User__avatar,"));
            assert!(f.reader_ast.0.contains("variant: \"Component\","));
            // recorded once, despite two references
            assert_eq!(f.nested_resolver_artifact_imports.len(), 1);
            assert_eq!(f.nested_resolver_artifact_imports[0].0, "User__avatar");
            // the resolver's own selections never reach the query text
            assert_eq!(f.query_text.0, "query Profile {\n  me {\n  },\n}");
            let contents = f.file_contents();
            assert!(contents.contains("import User__avatar from './User__avatar.boulton';\n"));
            // the embedded query text carries a line-continuation marker
            assert!(contents.contains("const queryText = 'query Profile {\\\n"));
        }
        _ => panic!("expected a fetchable resolver artifact"),
    }
}

#[test]
fn regenerating_without_a_resolver_leaves_no_file_for_it() {
    let keep = fetchable_declaration("Greeting", vec![]);
    let drop = fetchable_declaration("Farewell", vec![]);
    let with_both = validated_with(vec![keep, drop]);
    let first_run: Vec<String> = generate_artifacts(&with_both)
        .unwrap()
        .into_iter()
        .map(|f| f.file_name)
        .collect();
    assert!(first_run.contains(&"Query__Greeting.boulton.ts".to_owned()));
    assert!(first_run.contains(&"Query__Farewell.boulton.ts".to_owned()));

    let without = validated_with(vec![fetchable_declaration("Greeting", vec![])]);
    let second_run: Vec<String> = generate_artifacts(&without)
        .unwrap()
        .into_iter()
        .map(|f| f.file_name)
        .collect();
    assert!(second_run.contains(&"Query__Greeting.boulton.ts".to_owned()));
    assert!(!second_run.contains(&"Query__Farewell.boulton.ts".to_owned()));
}

#[test]
fn generating_twice_is_byte_for_byte_identical() {
    let build = || {
        validated_with(vec![fetchable_declaration(
            "Profile",
            vec![
                scalar_selection("greeting"),
                linked_selection("me", vec![scalar_selection("id")]),
            ],
        )])
    };
    let a = generate_artifacts(&build()).unwrap();
    let b = generate_artifacts(&build()).unwrap();
    assert_eq!(a.len(), b.len());
    for (x, y) in a.iter().zip(b.iter()) {
        assert_eq!(x.file_name, y.file_name);
        assert_eq!(x.contents, y.contents);
    }
}

#[test]
fn type_declaration_and_paths_render_directly() {
    let validated = validated_with(vec![]);
    let merged = vec![ValidatedSelection::ScalarField(ValidatedScalarFieldSelection {
        name: "greeting".to_owned(),
        alias: None,
        arguments: vec![],
        field: ValidatedFieldRef::Server(1),
    })];
    let declaration = generate_query_type_declaration(&validated, &merged, 1);
    assert_eq!(declaration.0, "  greeting: string,\n");
    assert_eq!(
        generated_file_path(&"project/__boulton".to_owned(), &"Query__X.boulton.ts".to_owned()),
        "project/__boulton/Query__X.boulton.ts"
    );
    let imports = vec![
        NestedResolverName("User__avatar".to_owned()),
        NestedResolverName("User__bio".to_owned()),
    ];
    assert_eq!(
        nested_resolver_names_to_import_statement(&imports),
        "import User__avatar from './User__avatar.boulton';\nimport User__bio from './User__bio.boulton';\n"
    );
}

#[test]
fn control_flow_helpers_invert_each_other() {
    let broke = to_control_flow::<u32, String, _>(|| Ok(7));
    assert!(matches!(broke, ControlFlow::Break(7)));
    let continued = to_control_flow::<u32, String, _>(|| Err("no".to_owned()));
    assert!(matches!(continued, ControlFlow::Continue(_)));
    let ok = from_control_flow::<u32, String, _>(|| ControlFlow::Break(7));
    assert_eq!(ok, Ok(7));
    let err = from_control_flow::<u32, String, _>(|| ControlFlow::Continue("no".to_owned()));
    assert_eq!(err, Err("no".to_owned()));
}

#[test]
fn conflicting_selections_fail_generation_with_a_merge_error() {
    let with_arg = |var: &str| {
        Selection::ScalarField(ScalarFieldSelection {
            name: "greeting".to_owned(),
            alias: None,
            arguments: vec![SelectionFieldArgument {
                name: "lang".to_owned(),
                value: NonConstantValue::Variable(var.to_owned()),
            }],
        })
    };
    let validated = validated_with(vec![fetchable_declaration(
        "Profile",
        vec![with_arg("a"), with_arg("b")],
    )]);
    let err = match generate_artifacts(&validated) {
        Err(e) => e,
        Ok(_) => panic!("expected generation to fail"),
    };
    assert_eq!(
        err,
        GenerateArtifactsError::UnableToMergeSelections {
            error: MergeError::ConflictingArguments {
                response_key: "greeting".to_owned(),
            },
        }
    );
}

#[test]
fn arguments_render_into_the_query_text() {
    let with_args = Selection::ScalarField(ScalarFieldSelection {
        name: "greeting".to_owned(),
        alias: None,
        arguments: vec![
            SelectionFieldArgument {
                name: "lang".to_owned(),
                value: NonConstantValue::Variable("l".to_owned()),
            },
            SelectionFieldArgument {
                name: "tone".to_owned(),
                value: NonConstantValue::Variable("t".to_owned()),
            },
        ],
    });
    let validated = validated_with(vec![fetchable_declaration("Greeting", vec![with_args])]);
    let artifacts = get_all_artifacts(&validated).unwrap();
    match &artifacts[0] {
        Artifact::FetchableResolver(f) => {
            assert_eq!(
                f.query_text.0,
                "query Greeting {\n  greeting(lang: $l, tone: $t),\n}"
            );
        }
        _ => panic!("expected a fetchable resolver artifact"),
    }
}

#[test]
fn borrowed_type_views_expose_names_and_tables() {
    let validated = validated_with(vec![]);
    let data = &validated.schema_data;
    let query = data.lookup_type_with_fields(0);
    assert_eq!(query.name(), "Query");
    assert_eq!(query.fields(), &vec![0, 1]);
    assert_eq!(query.encountered_field_names().len(), 2);
    let id_scalar = data.lookup_type_without_fields(0);
    assert_eq!(id_scalar.name(), "ID");
    assert_eq!(id_scalar.javascript_name(), "string");
    match data.lookup_unvalidated_type(TypeId::Object(1)) {
        SchemaType::Object(o) => assert_eq!(o.name, "User"),
        _ => panic!("expected an object"),
    }
    match data.lookup_output_type(TypeId::Scalar(1)) {
        SchemaOutputType::Scalar(s) => assert_eq!(s.name, "String"),
        _ => panic!("expected a scalar"),
    }
    let SchemaInputType::Scalar(s) = data.lookup_input_type(1);
    assert_eq!(s.name, "String");
    let SchemaTypeWithoutFields::Scalar(_) = data.lookup_type_without_fields(1);
    let SchemaTypeWithFields::Object(o) = data.lookup_type_with_fields(1);
    assert_eq!(o.name, "User");
}
