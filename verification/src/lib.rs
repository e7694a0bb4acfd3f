//! A compiler core for a GraphQL-flavored schema language with "resolver"
//! declarations: it builds a typed schema from parsed definitions, registers
//! resolvers as synthetic fields, validates all textual type references into
//! arena handles, merges selection sets by response key, and renders one
//! source artifact (query text, type declaration, reader AST, imports) per
//! resolver. Parsing, string interning and file I/O are outside collaborators:
//! the library consumes structured syntax trees of plain values and returns
//! the artifact files as named strings.

pub mod control_flow;
pub mod generate_artifacts;
pub mod merge_selection_set;
pub mod process_resolver_declaration;
pub mod process_type_definition;
pub mod schema_types;
pub mod selection_types;
pub mod validate_schema;

use vstd::prelude::*;

verus! {

/// Determinism of the whole pipeline: compiling the same ordered set of
/// documents and resolver declarations twice yields identical handle
/// assignments and identical generated text, byte for byte. Every phase is
/// pinned by its contract to a function of its input's view, so equal inputs
/// give equal schemas, equal validated schemas, and equal artifact files.
pub proof fn lemma_pipeline_deterministic(
    s1: schema_types::UnvalidatedSchemaView,
    s2: schema_types::UnvalidatedSchemaView,
    docs1: Seq<process_type_definition::ObjectTypeDefinitionView>,
    docs2: Seq<process_type_definition::ObjectTypeDefinitionView>,
    decl1: process_resolver_declaration::ResolverDeclarationView,
    decl2: process_resolver_declaration::ResolverDeclarationView,
    v1: schema_types::ValidatedSchemaView,
    v2: schema_types::ValidatedSchemaView,
)
    requires
        s1 == s2,
        docs1 == docs2,
        decl1 == decl2,
        v1 == v2,
    ensures
        process_type_definition::spec_process_type_system_definitions(s1, docs1)
            == process_type_definition::spec_process_type_system_definitions(s2, docs2),
        process_resolver_declaration::spec_process_resolver_declaration(s1, decl1)
            == process_resolver_declaration::spec_process_resolver_declaration(s2, decl2),
        validate_schema::spec_validate_schema(s1) == validate_schema::spec_validate_schema(s2),
        generate_artifacts::spec_generate_artifacts(v1)
            == generate_artifacts::spec_generate_artifacts(v2),
{
}

} // verus!
