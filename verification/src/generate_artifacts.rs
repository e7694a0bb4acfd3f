//! Artifact generation: rendering one source artifact per resolver from the
//! validated schema.
//!
//! A fetchable resolver (attached to the query root and marked fetchable)
//! gets query text rendered from its merged selection set, a parameter type
//! declaration, a reader AST rendered from its unmerged selection set, and
//! import statements; any other resolver gets only the reader AST and the
//! imports, since it is never an independent network round trip. Every
//! artifact renders to exactly one file named
//! `<ParentTypeName>__<FieldName>.boulton.ts`.

use vstd::prelude::*;

use crate::merge_selection_set::{
    merge_selection_set, spec_merge, MergeError, MergedSelectionSet,
};
use crate::schema_types::{
    NonNullTypeAnnotation, SchemaObject, SchemaObjectView, SchemaResolverDefinitionInfo,
    SchemaResolverView, SchemaScalarView, TypeAnnotation, ValidatedSchema, ValidatedSchemaView,
    VariableDefinition, VariableDefinitionView, spec_variant_name,
};
use crate::selection_types::{
    response_key, spec_response_key, SelectionFieldArgument, SelectionFieldArgumentView,
    NonConstantValue, NonConstantValueView, ValidatedFieldRef, ValidatedSelection,
    ValidatedSelectionView,
};
use crate::validate_schema::{wf_validated_schema, wf_validated_selections};

verus! {

broadcast use vstd::seq::group_seq_axioms, vstd::std_specs::vec::group_vec_axioms;

// ---------------------------------------------------------------------------
// Text helpers
// ---------------------------------------------------------------------------

/// Two spaces per nesting level.
pub open spec fn spec_indent(level: nat) -> Seq<char>
    decreases level,
{
    if level == 0 {
        Seq::empty()
    } else {
        spec_indent((level - 1) as nat) + "  "@
    }
}

/// Renders `level` levels of two-space indentation.
fn indent(level: usize) -> (r: String)
    ensures
        r@ == spec_indent(level as nat),
{
    let mut out = String::new();
    let mut i: usize = 0;
    while i < level
        invariant
            i <= level,
            out@ == spec_indent(i as nat),
        decreases level - i,
    {
        out.append("  ");
        i = i + 1;
    }
    out
}

/// A copy of `s` with a line-continuation marker before every newline, for
/// embedding in a single-quoted string literal.
pub open spec fn spec_escape_newlines(s: Seq<char>) -> Seq<char>
    decreases s,
{
    if s.len() == 0 {
        Seq::empty()
    } else {
        (if s[0] == '\n' {
            seq!['\\', '\n']
        } else {
            seq![s[0]]
        }) + spec_escape_newlines(s.drop_first())
    }
}

/// Escapes newlines with a line-continuation marker.
fn escape_newlines(s: &str) -> (r: String)
    ensures
        r@ == spec_escape_newlines(s@),
{
    let mut out = String::new();
    let n = s.unicode_len();
    let mut i: usize = 0;
    proof {
        assert(s@.subrange(0, s@.len() as int) =~= s@);
    }
    while i < n
        invariant
            i <= n,
            n == s@.len(),
            spec_escape_newlines(s@) =~= out@ + spec_escape_newlines(
                s@.subrange(i as int, s@.len() as int),
            ),
        decreases n - i,
    {
        let ghost suffix = s@.subrange(i as int, s@.len() as int);
        proof {
            assert(suffix[0] == s@[i as int]);
            assert(suffix.drop_first() =~= s@.subrange(i as int + 1, s@.len() as int));
        }
        let c = s.get_char(i);
        let ghost pre = out@;
        if c == '\n' {
            out.append("\\\n");
            proof {
                reveal_strlit("\\\n");
                assert(("\\\n")@ =~= seq!['\\', '\n']);
                assert(out@ =~= pre + seq!['\\', '\n']);
            }
        } else {
            out.append(s.substring_char(i, i + 1));
            proof {
                assert(s@.subrange(i as int, i as int + 1) =~= seq![s@[i as int]]);
                assert(out@ =~= pre + seq![s@[i as int]]);
            }
        }
        proof {
            assert(pre + (if suffix[0] == '\n' {
                seq!['\\', '\n']
            } else {
                seq![suffix[0]]
            }) + spec_escape_newlines(suffix.drop_first()) =~= pre + ((if suffix[0] == '\n' {
                seq!['\\', '\n']
            } else {
                seq![suffix[0]]
            }) + spec_escape_newlines(suffix.drop_first())));
        }
        i = i + 1;
    }
    proof {
        assert(s@.subrange(i as int, s@.len() as int).len() == 0);
        assert(out@ + Seq::<char>::empty() =~= out@);
    }
    out
}

// ---------------------------------------------------------------------------
// Arguments
// ---------------------------------------------------------------------------

/// One argument, rendered `name: $variable`.
pub open spec fn spec_argument_text(a: SelectionFieldArgumentView) -> Seq<char> {
    match a.value {
        NonConstantValueView::Variable(v) => a.name + ": $"@ + v,
    }
}

pub open spec fn spec_arguments_rest(args: Seq<SelectionFieldArgumentView>) -> Seq<char>
    decreases args,
{
    if args.len() == 0 {
        Seq::empty()
    } else {
        ", "@ + spec_argument_text(args[0]) + spec_arguments_rest(args.drop_first())
    }
}

/// An argument list, rendered `(a: $x, b: $y)`, or nothing when empty.
pub open spec fn spec_serialized_arguments(args: Seq<SelectionFieldArgumentView>) -> Seq<char> {
    if args.len() == 0 {
        Seq::empty()
    } else {
        "("@ + spec_argument_text(args[0]) + spec_arguments_rest(args.drop_first()) + ")"@
    }
}

/// Renders a selection's argument list.
fn get_serialized_arguments(arguments: &Vec<SelectionFieldArgument>) -> (r: String)
    ensures
        r@ == spec_serialized_arguments(arguments.deep_view()),
{
    let ghost all = arguments.deep_view();
    if arguments.len() == 0 {
        let out = String::new();
        return out;
    }
    let mut out = "(".to_owned();
    out.append(serialize_argument(&arguments[0]).as_str());
    proof {
        assert(all[0] == arguments@[0].deep_view());
        assert(out@ =~= "("@ + spec_argument_text(all[0]));
        assert(all.subrange(1, all.len() as int) =~= all.drop_first());
    }
    let mut i: usize = 1;
    while i < arguments.len()
        invariant
            1 <= i <= arguments@.len(),
            all == arguments.deep_view(),
            all.len() == arguments@.len(),
            out@ + spec_arguments_rest(all.subrange(i as int, all.len() as int)) =~= "("@
                + spec_argument_text(all[0]) + spec_arguments_rest(all.drop_first()),
        decreases arguments@.len() - i,
    {
        let ghost suffix = all.subrange(i as int, all.len() as int);
        let ghost pre = out@;
        proof {
            assert(suffix[0] == all[i as int]);
            assert(all[i as int] == arguments@[i as int].deep_view());
            assert(suffix.drop_first() =~= all.subrange(i as int + 1, all.len() as int));
        }
        out.append(", ");
        out.append(serialize_argument(&arguments[i]).as_str());
        proof {
            assert(out@ =~= pre + (", "@ + spec_argument_text(suffix[0])));
        }
        i = i + 1;
    }
    proof {
        assert(all.subrange(i as int, all.len() as int).len() == 0);
    }
    out.append(")");
    proof {
        assert(out@ =~= ("("@ + spec_argument_text(all[0]) + spec_arguments_rest(all.drop_first()))
            + ")"@);
    }
    out
}

/// Renders one argument as `name: $variable`.
fn serialize_argument(argument: &SelectionFieldArgument) -> (r: String)
    ensures
        r@ == spec_argument_text(argument.deep_view()),
{
    let mut out = argument.name.clone();
    out.append(": ");
    out.append(serialize_non_constant_value(&argument.value).as_str());
    proof {
        reveal_strlit(": ");
        reveal_strlit("$");
        reveal_strlit(": $");
        assert((": ")@ + ("$")@ =~= (": $")@);
        match argument.deep_view().value {
            NonConstantValueView::Variable(v) => {
                assert(out@ =~= argument.deep_view().name + ": $"@ + v);
            },
        }
    }
    out
}

/// Renders a non-constant value; a variable renders as `$name`.
fn serialize_non_constant_value(value: &NonConstantValue) -> (r: String)
    ensures
        (match value.deep_view() {
            NonConstantValueView::Variable(v) => r@ == "$"@ + v,
        }),
{
    match value {
        NonConstantValue::Variable(variable_name) => {
            let mut out = "$".to_owned();
            out.append(variable_name.as_str());
            out
        },
    }
}

// ---------------------------------------------------------------------------
// Variables
// ---------------------------------------------------------------------------

/// A resolved type annotation, rendered with the scalar's name, `[..]` for a
/// list, and a trailing `!` for non-null.
pub open spec fn spec_annotation_text(
    scalars: Seq<SchemaScalarView>,
    t: TypeAnnotation<usize>,
) -> Seq<char>
    decreases t,
{
    match t {
        TypeAnnotation::Named(sid) => scalars[sid as int].name,
        TypeAnnotation::List(inner) => "["@ + spec_annotation_text(scalars, *inner) + "]"@,
        TypeAnnotation::NonNull(inner) => (match *inner {
            NonNullTypeAnnotation::Named(sid) => scalars[sid as int].name,
            NonNullTypeAnnotation::List(i2) => "["@ + spec_annotation_text(scalars, *i2) + "]"@,
        }) + "!"@,
    }
}

/// Renders a resolved type annotation.
fn annotation_text(schema: &ValidatedSchema, t: &TypeAnnotation<usize>) -> (r: String)
    requires
        crate::validate_schema::wf_input_annotation(
            schema.schema_data.scalars@.len() as int,
            t.deep_view(),
        ),
    ensures
        r@ == spec_annotation_text(schema.schema_data.scalars.deep_view(), t.deep_view()),
    decreases t,
{
    proof {
        assert(schema.schema_data.scalars.deep_view().len() == schema.schema_data.scalars@.len());
    }
    match t {
        TypeAnnotation::Named(sid) => {
            proof {
                assert(schema.schema_data.scalars.deep_view()[*sid as int]
                    == schema.schema_data.scalars@[*sid as int].deep_view());
            }
            schema.schema_data.scalars[*sid].name.clone()
        },
        TypeAnnotation::List(inner) => {
            let mut out = "[".to_owned();
            out.append(annotation_text(schema, inner).as_str());
            out.append("]");
            out
        },
        TypeAnnotation::NonNull(inner) => {
            let mut out = match &**inner {
                NonNullTypeAnnotation::Named(sid) => {
                    proof {
                        assert(schema.schema_data.scalars.deep_view()[*sid as int]
                            == schema.schema_data.scalars@[*sid as int].deep_view());
                    }
                    schema.schema_data.scalars[*sid].name.clone()
                },
                NonNullTypeAnnotation::List(i2) => {
                    let mut out = "[".to_owned();
                    out.append(annotation_text(schema, i2).as_str());
                    out.append("]");
                    out
                },
            };
            out.append("!");
            out
        },
    }
}

/// One variable, rendered `$name: Type`.
pub open spec fn spec_variable_text(
    scalars: Seq<SchemaScalarView>,
    v: VariableDefinitionView<usize>,
) -> Seq<char> {
    "$"@ + v.name + ": "@ + spec_annotation_text(scalars, v.type_)
}

pub open spec fn spec_variables_rest(
    scalars: Seq<SchemaScalarView>,
    vars: Seq<VariableDefinitionView<usize>>,
) -> Seq<char>
    decreases vars,
{
    if vars.len() == 0 {
        Seq::empty()
    } else {
        ", "@ + spec_variable_text(scalars, vars[0]) + spec_variables_rest(
            scalars,
            vars.drop_first(),
        )
    }
}

/// The query's variable list, rendered `($a: A, $b: B)`, or nothing.
pub open spec fn spec_variables_text(
    scalars: Seq<SchemaScalarView>,
    vars: Seq<VariableDefinitionView<usize>>,
) -> Seq<char> {
    if vars.len() == 0 {
        Seq::empty()
    } else {
        "("@ + spec_variable_text(scalars, vars[0]) + spec_variables_rest(
            scalars,
            vars.drop_first(),
        ) + ")"@
    }
}

/// Renders a resolver's declared variables for the query header.
fn write_variables_to_string(
    schema: &ValidatedSchema,
    variables: &Vec<VariableDefinition<usize>>,
) -> (r: String)
    requires
        forall|v: int|
            0 <= v < variables@.len() ==> crate::validate_schema::wf_input_annotation(
                schema.schema_data.scalars@.len() as int,
                #[trigger] variables.deep_view()[v].type_,
            ),
    ensures
        r@ == spec_variables_text(schema.schema_data.scalars.deep_view(), variables.deep_view()),
{
    let ghost all = variables.deep_view();
    let ghost scalars = schema.schema_data.scalars.deep_view();
    if variables.len() == 0 {
        let out = String::new();
        return out;
    }
    proof {
        assert(all[0] == variables@[0].deep_view());
    }
    let mut out = "(".to_owned();
    out.append(variable_text(schema, &variables[0]).as_str());
    proof {
        assert(out@ =~= "("@ + spec_variable_text(scalars, all[0]));
        assert(all.subrange(1, all.len() as int) =~= all.drop_first());
    }
    let mut i: usize = 1;
    while i < variables.len()
        invariant
            1 <= i <= variables@.len(),
            all == variables.deep_view(),
            scalars == schema.schema_data.scalars.deep_view(),
            all.len() == variables@.len(),
            forall|v: int|
                0 <= v < variables@.len() ==> crate::validate_schema::wf_input_annotation(
                    schema.schema_data.scalars@.len() as int,
                    #[trigger] variables.deep_view()[v].type_,
                ),
            out@ + spec_variables_rest(scalars, all.subrange(i as int, all.len() as int)) =~= "("@
                + spec_variable_text(scalars, all[0]) + spec_variables_rest(
                scalars,
                all.drop_first(),
            ),
        decreases variables@.len() - i,
    {
        let ghost suffix = all.subrange(i as int, all.len() as int);
        let ghost pre = out@;
        proof {
            assert(suffix[0] == all[i as int]);
            assert(all[i as int] == variables@[i as int].deep_view());
            assert(suffix.drop_first() =~= all.subrange(i as int + 1, all.len() as int));
        }
        out.append(", ");
        out.append(variable_text(schema, &variables[i]).as_str());
        proof {
            assert(out@ =~= pre + (", "@ + spec_variable_text(scalars, suffix[0])));
        }
        i = i + 1;
    }
    proof {
        assert(all.subrange(i as int, all.len() as int).len() == 0);
    }
    out.append(")");
    proof {
        assert(out@ =~= ("("@ + spec_variable_text(scalars, all[0]) + spec_variables_rest(
            scalars,
            all.drop_first(),
        )) + ")"@);
    }
    out
}

/// Renders one variable as `$name: Type`.
fn variable_text(schema: &ValidatedSchema, v: &VariableDefinition<usize>) -> (r: String)
    requires
        crate::validate_schema::wf_input_annotation(
            schema.schema_data.scalars@.len() as int,
            v.deep_view().type_,
        ),
    ensures
        r@ == spec_variable_text(schema.schema_data.scalars.deep_view(), v.deep_view()),
{
    let mut out = "$".to_owned();
    out.append(v.name.as_str());
    out.append(": ");
    out.append(annotation_text(schema, &v.type_).as_str());
    proof {
        assert(out@ =~= "$"@ + v.name@ + ": "@ + spec_annotation_text(
            schema.schema_data.scalars.deep_view(),
            v.deep_view().type_,
        ));
    }
    out
}

// ---------------------------------------------------------------------------
// Query text
// ---------------------------------------------------------------------------

/// `alias: ` when an alias was declared, nothing otherwise.
pub open spec fn spec_alias_prefix(alias: Option<Seq<char>>) -> Seq<char> {
    match alias {
        Some(a) => a + ": "@,
        None => Seq::empty(),
    }
}

/// One selection of the query body: one line per field, a brace-wrapped block
/// for a linked field, two spaces of indentation per nesting level.
pub open spec fn spec_write_selection(sel: ValidatedSelectionView, level: nat) -> Seq<char>
    decreases sel,
{
    match sel {
        ValidatedSelectionView::ScalarField { name, alias, arguments, .. } => spec_indent(level)
            + spec_alias_prefix(alias) + name + spec_serialized_arguments(arguments) + ",\n"@,
        ValidatedSelectionView::LinkedField { name, alias, arguments, selections, .. } =>
            spec_indent(level) + spec_alias_prefix(alias) + name + spec_serialized_arguments(
            arguments,
        ) + " {\n"@ + spec_write_selections(selections, level + 1) + spec_indent(level) + "},\n"@,
    }
}

pub open spec fn spec_write_selections(sels: Seq<ValidatedSelectionView>, level: nat) -> Seq<char>
    decreases sels,
{
    if sels.len() == 0 {
        Seq::empty()
    } else {
        spec_write_selection(sels[0], level) + spec_write_selections(sels.drop_first(), level)
    }
}

/// Appends the query-body rendering of a selection set.
fn write_selections(
    query_text: &mut String,
    items: &Vec<ValidatedSelection>,
    indentation_level: usize,
)
    requires
        indentation_level + crate::merge_selection_set::sels_size(items.deep_view())
            <= usize::MAX,
    ensures
        final(query_text)@ == old(query_text)@ + spec_write_selections(
            items.deep_view(),
            indentation_level as nat,
        ),
    decreases items.deep_view(), 1int, 0int,
{
    write_selections_from(query_text, items, 0, indentation_level);
    proof {
        assert(items.deep_view().subrange(0, items.deep_view().len() as int)
            =~= items.deep_view());
    }
}

fn write_selections_from(
    query_text: &mut String,
    items: &Vec<ValidatedSelection>,
    i: usize,
    indentation_level: usize,
)
    requires
        i <= items@.len(),
        indentation_level + crate::merge_selection_set::sels_size(items.deep_view())
            <= usize::MAX,
    ensures
        final(query_text)@ == old(query_text)@ + spec_write_selections(
            items.deep_view().subrange(i as int, items.deep_view().len() as int),
            indentation_level as nat,
        ),
    decreases items.deep_view(), 0int, items@.len() - i,
{
    let ghost all = items.deep_view();
    let ghost suffix = all.subrange(i as int, all.len() as int);
    if i == items.len() {
        proof {
            assert(suffix.len() == 0);
            assert(old(query_text)@ + Seq::<char>::empty() =~= old(query_text)@);
        }
        return ;
    }
    proof {
        assert(suffix[0] == all[i as int]);
        assert(all[i as int] == items@[i as int].deep_view());
        assert(suffix.drop_first() =~= all.subrange(i as int + 1, all.len() as int));
        crate::merge_selection_set::lemma_merge_size_facts(all);
    }
    write_one_selection(query_text, items, i, indentation_level);
    write_selections_from(query_text, items, i + 1, indentation_level);
    proof {
        assert(old(query_text)@ + (spec_write_selection(suffix[0], indentation_level as nat)
            + spec_write_selections(suffix.drop_first(), indentation_level as nat)) =~= (old(
            query_text,
        )@ + spec_write_selection(suffix[0], indentation_level as nat)) + spec_write_selections(
            suffix.drop_first(),
            indentation_level as nat,
        ));
    }
}

fn write_one_selection(
    query_text: &mut String,
    items: &Vec<ValidatedSelection>,
    i: usize,
    indentation_level: usize,
)
    requires
        i < items@.len(),
        indentation_level + crate::merge_selection_set::sels_size(items.deep_view())
            <= usize::MAX,
    ensures
        final(query_text)@ == old(query_text)@ + spec_write_selection(
            items.deep_view()[i as int],
            indentation_level as nat,
        ),
    decreases items.deep_view(), 0int, 0int,
{
    let ghost sv = items.deep_view()[i as int];
    proof {
        assert(sv == items@[i as int].deep_view());
    }
    let ghost base = query_text@;
    match &items[i] {
        ValidatedSelection::ScalarField(f) => {
            query_text.append(indent(indentation_level).as_str());
            match &f.alias {
                Some(a) => {
                    query_text.append(a.as_str());
                    query_text.append(": ");
                },
                None => {},
            }
            proof {
                assert(query_text@ =~= base + spec_indent(indentation_level as nat)
                    + spec_alias_prefix(f.alias.deep_view()));
            }
            query_text.append(f.name.as_str());
            query_text.append(get_serialized_arguments(&f.arguments).as_str());
            query_text.append(",\n");
            proof {
                assert(query_text@ =~= base + (spec_indent(indentation_level as nat)
                    + spec_alias_prefix(f.alias.deep_view()) + f.name@ + spec_serialized_arguments(
                    f.arguments.deep_view(),
                ) + ",\n"@));
            }
        },
        ValidatedSelection::LinkedField(f) => {
            proof {
                crate::selection_types::lemma_validated_selections_view(f.selections@);
                assert(f.selections.deep_view() =~= crate::selection_types::validated_selections_view(
                    f.selections@,
                ));
                crate::merge_selection_set::lemma_merge_size_facts(items.deep_view());
                lemma_sel_size_member(items.deep_view(), i as int);
                assert(crate::merge_selection_set::sel_size(sv)
                    == 1 + crate::merge_selection_set::sels_size(f.selections.deep_view()));
            }
            query_text.append(indent(indentation_level).as_str());
            match &f.alias {
                Some(a) => {
                    query_text.append(a.as_str());
                    query_text.append(": ");
                },
                None => {},
            }
            query_text.append(f.name.as_str());
            query_text.append(get_serialized_arguments(&f.arguments).as_str());
            query_text.append(" {\n");
            proof {
                assert(query_text@ =~= base + (spec_indent(indentation_level as nat)
                    + spec_alias_prefix(f.alias.deep_view()) + f.name@ + spec_serialized_arguments(
                    f.arguments.deep_view(),
                ) + " {\n"@));
            }
            write_selections(query_text, &f.selections, indentation_level + 1);
            query_text.append(indent(indentation_level).as_str());
            query_text.append("},\n");
            proof {
                assert(query_text@ =~= base + (spec_indent(indentation_level as nat)
                    + spec_alias_prefix(f.alias.deep_view()) + f.name@ + spec_serialized_arguments(
                    f.arguments.deep_view(),
                ) + " {\n"@ + spec_write_selections(
                    f.selections.deep_view(),
                    (indentation_level + 1) as nat,
                ) + spec_indent(indentation_level as nat) + "},\n"@));
            }
        },
    }
}

/// A selection set's total size bounds each member's size.
pub proof fn lemma_sel_size_member(ss: Seq<ValidatedSelectionView>, i: int)
    requires
        0 <= i < ss.len(),
    ensures
        crate::merge_selection_set::sel_size(ss[i]) <= crate::merge_selection_set::sels_size(ss),
    decreases ss,
{
    if i > 0 {
        lemma_sel_size_member(ss.drop_first(), i - 1);
    }
}

/// The query text of one fetchable resolver: header with name and variables,
/// then the merged selection set, one field per line.
pub open spec fn spec_query_text(
    scalars: Seq<SchemaScalarView>,
    query_name: Seq<char>,
    vars: Seq<VariableDefinitionView<usize>>,
    merged: Seq<ValidatedSelectionView>,
) -> Seq<char> {
    "query "@ + query_name + spec_variables_text(scalars, vars) + " {\n"@ + spec_write_selections(
        merged,
        1,
    ) + "}"@
}

/// The executable query document sent over the wire for one fetchable
/// resolver.
pub struct QueryText(pub String);

/// Renders the query document for a fetchable resolver.
fn generate_query_text(
    query_name: &String,
    schema: &ValidatedSchema,
    merged_selection_set: &MergedSelectionSet,
    query_variables: &Vec<VariableDefinition<usize>>,
) -> (r: QueryText)
    requires
        1 + crate::merge_selection_set::sels_size(merged_selection_set.0.deep_view())
            <= usize::MAX,
        forall|v: int|
            0 <= v < query_variables@.len() ==> crate::validate_schema::wf_input_annotation(
                schema.schema_data.scalars@.len() as int,
                #[trigger] query_variables.deep_view()[v].type_,
            ),
    ensures
        r.0@ == spec_query_text(
            schema.schema_data.scalars.deep_view(),
            query_name@,
            query_variables.deep_view(),
            merged_selection_set.0.deep_view(),
        ),
{
    let mut query_text = "query ".to_owned();
    query_text.append(query_name.as_str());
    query_text.append(write_variables_to_string(schema, query_variables).as_str());
    query_text.append(" {\n");
    write_selections(&mut query_text, &merged_selection_set.0, 1);
    query_text.append("}");
    proof {
        assert(query_text@ =~= spec_query_text(
            schema.schema_data.scalars.deep_view(),
            query_name@,
            query_variables.deep_view(),
            merged_selection_set.0.deep_view(),
        ));
    }
    QueryText(query_text)
}

// ---------------------------------------------------------------------------
// The parameter type declaration
// ---------------------------------------------------------------------------

/// A merged selection set can be rendered as a type: no resolver fields are
/// left and every scalar handle is in range.
pub open spec fn spec_type_decl_renderable(
    scalars_len: int,
    sels: Seq<ValidatedSelectionView>,
) -> bool
    decreases sels,
{
    if sels.len() == 0 {
        true
    } else {
        (match sels[0] {
            ValidatedSelectionView::ScalarField { field, .. } => match field {
                ValidatedFieldRef::Server(sid) => sid < scalars_len,
                ValidatedFieldRef::Resolver => false,
            },
            ValidatedSelectionView::LinkedField { selections, .. } => spec_type_decl_renderable(
                scalars_len,
                selections,
            ),
        }) && spec_type_decl_renderable(scalars_len, sels.drop_first())
    }
}

/// The nested mapping from response key to primitive or nested object type,
/// mirroring the merged selection set, one entry per line.
pub open spec fn spec_type_decl_entry(
    scalars: Seq<SchemaScalarView>,
    sel: ValidatedSelectionView,
    level: nat,
) -> Seq<char>
    decreases sel,
{
    match sel {
        ValidatedSelectionView::ScalarField { field, .. } => match field {
            ValidatedFieldRef::Server(sid) => spec_indent(level) + spec_response_key(sel) + ": "@
                + scalars[sid as int].javascript_name + ",\n"@,
            ValidatedFieldRef::Resolver => Seq::empty(),
        },
        ValidatedSelectionView::LinkedField { selections, .. } => spec_indent(level)
            + spec_response_key(sel) + ": {\n"@ + spec_type_declaration(
            scalars,
            selections,
            level + 1,
        ) + spec_indent(level) + "},\n"@,
    }
}

pub open spec fn spec_type_declaration(
    scalars: Seq<SchemaScalarView>,
    sels: Seq<ValidatedSelectionView>,
    level: nat,
) -> Seq<char>
    decreases sels,
{
    if sels.len() == 0 {
        Seq::empty()
    } else {
        spec_type_decl_entry(scalars, sels[0], level) + spec_type_declaration(
            scalars,
            sels.drop_first(),
            level,
        )
    }
}

/// The body of the `ResolverParameterType` declaration of one artifact.
pub struct QueryTypeDeclaration(pub String);

/// Renders the parameter type declaration from a merged selection set.
pub fn generate_query_type_declaration(
    schema: &ValidatedSchema,
    selection_set: &Vec<ValidatedSelection>,
    indentation_level: usize,
) -> (r: QueryTypeDeclaration)
    requires
        spec_type_decl_renderable(
            schema.schema_data.scalars@.len() as int,
            selection_set.deep_view(),
        ),
        indentation_level + crate::merge_selection_set::sels_size(selection_set.deep_view())
            <= usize::MAX,
    ensures
        r.0@ == spec_type_declaration(
            schema.schema_data.scalars.deep_view(),
            selection_set.deep_view(),
            indentation_level as nat,
        ),
{
    let mut out = String::new();
    proof {
        assert(selection_set.deep_view().subrange(0, selection_set.deep_view().len() as int)
            =~= selection_set.deep_view());
    }
    write_query_types_from_selection(&mut out, schema, selection_set, 0, indentation_level);
    QueryTypeDeclaration(out)
}

/// Appends the type-declaration lines for `selection_set[i..]`.
fn write_query_types_from_selection(
    query_type_declaration: &mut String,
    schema: &ValidatedSchema,
    selection_set: &Vec<ValidatedSelection>,
    i: usize,
    indentation_level: usize,
)
    requires
        i <= selection_set@.len(),
        spec_type_decl_renderable(
            schema.schema_data.scalars@.len() as int,
            selection_set.deep_view().subrange(i as int, selection_set.deep_view().len() as int),
        ),
        indentation_level + crate::merge_selection_set::sels_size(selection_set.deep_view())
            <= usize::MAX,
    ensures
        final(query_type_declaration)@ == old(query_type_declaration)@ + spec_type_declaration(
            schema.schema_data.scalars.deep_view(),
            selection_set.deep_view().subrange(i as int, selection_set.deep_view().len() as int),
            indentation_level as nat,
        ),
    decreases selection_set.deep_view(), 0int, selection_set@.len() - i,
{
    let ghost all = selection_set.deep_view();
    let ghost scalars = schema.schema_data.scalars.deep_view();
    let ghost suffix = all.subrange(i as int, all.len() as int);
    if i == selection_set.len() {
        proof {
            assert(suffix.len() == 0);
            assert(old(query_type_declaration)@ + Seq::<char>::empty() =~= old(
                query_type_declaration,
            )@);
        }
        return ;
    }
    proof {
        assert(suffix[0] == all[i as int]);
        assert(all[i as int] == selection_set@[i as int].deep_view());
        assert(suffix.drop_first() =~= all.subrange(i as int + 1, all.len() as int));
        lemma_sel_size_member(all, i as int);
    }
    let ghost base = query_type_declaration@;
    match &selection_set[i] {
        ValidatedSelection::ScalarField(f) => {
            match f.field {
                ValidatedFieldRef::Server(sid) => {
                    proof {
                        assert(scalars[sid as int]
                            == schema.schema_data.scalars@[sid as int].deep_view());
                    }
                    query_type_declaration.append(indent(indentation_level).as_str());
                    query_type_declaration.append(response_key(&selection_set[i]).as_str());
                    query_type_declaration.append(": ");
                    query_type_declaration.append(
                        schema.schema_data.scalars[sid].javascript_name.as_str(),
                    );
                    query_type_declaration.append(",\n");
                    proof {
                        assert(query_type_declaration@ =~= base + (spec_indent(
                            indentation_level as nat,
                        ) + spec_response_key(suffix[0]) + ": "@ + scalars[sid as int].javascript_name
                            + ",\n"@));
                    }
                },
                ValidatedFieldRef::Resolver => {
                    proof {
                        assert(false);
                    }
                },
            }
        },
        ValidatedSelection::LinkedField(f) => {
            proof {
                crate::selection_types::lemma_validated_selections_view(f.selections@);
                assert(f.selections.deep_view() =~= crate::selection_types::validated_selections_view(
                    f.selections@,
                ));
                assert(crate::merge_selection_set::sel_size(suffix[0])
                    == 1 + crate::merge_selection_set::sels_size(f.selections.deep_view()));
                assert(f.selections.deep_view().subrange(
                    0,
                    f.selections.deep_view().len() as int,
                ) =~= f.selections.deep_view());
            }
            query_type_declaration.append(indent(indentation_level).as_str());
            query_type_declaration.append(response_key(&selection_set[i]).as_str());
            query_type_declaration.append(": {\n");
            proof {
                assert(query_type_declaration@ =~= base + spec_indent(indentation_level as nat)
                    + spec_response_key(suffix[0]) + ": {\n"@);
            }
            write_query_types_from_selection(
                query_type_declaration,
                schema,
                &f.selections,
                0,
                indentation_level + 1,
            );
            query_type_declaration.append(indent(indentation_level).as_str());
            query_type_declaration.append("},\n");
            proof {
                assert(query_type_declaration@ =~= base + (spec_indent(indentation_level as nat)
                    + spec_response_key(suffix[0]) + ": {\n"@ + spec_type_declaration(
                    scalars,
                    f.selections.deep_view(),
                    (indentation_level + 1) as nat,
                ) + spec_indent(indentation_level as nat) + "},\n"@));
            }
        },
    }
    write_query_types_from_selection(
        query_type_declaration,
        schema,
        selection_set,
        i + 1,
        indentation_level,
    );
    proof {
        assert(query_type_declaration@ =~= base + (spec_type_decl_entry(
            scalars,
            suffix[0],
            indentation_level as nat,
        ) + spec_type_declaration(scalars, suffix.drop_first(), indentation_level as nat)));
    }
}

// ---------------------------------------------------------------------------
// The reader AST
// ---------------------------------------------------------------------------

/// The runtime step list describing how to read a resolver's data out of a
/// response, rendered as a nested literal.
pub struct ReaderAst(pub String);

/// The identity string `Parent__field` of a nested resolver whose artifact
/// must be imported.
#[derive(Clone, Debug, PartialEq, Eq, Hash)]
pub struct NestedResolverName(pub String);

impl DeepView for NestedResolverName {
    type V = Seq<char>;

    open spec fn deep_view(&self) -> Seq<char> {
        self.0@
    }
}

pub open spec fn spec_imports_contain_from(imports: Seq<Seq<char>>, x: Seq<char>, i: int) -> bool
    decreases imports.len() - i,
{
    if i < 0 || i >= imports.len() {
        false
    } else {
        imports[i] == x || spec_imports_contain_from(imports, x, i + 1)
    }
}

pub open spec fn spec_imports_contain(imports: Seq<Seq<char>>, x: Seq<char>) -> bool {
    spec_imports_contain_from(imports, x, 0)
}

/// Records a nested resolver import once, in first-use order.
fn record_import(imports: &mut Vec<NestedResolverName>, name: String)
    ensures
        final(imports).deep_view() == spec_record_import(old(imports).deep_view(), name@),
{
    let ghost all = old(imports).deep_view();
    let mut i: usize = 0;
    while i < imports.len()
        invariant
            i <= imports@.len(),
            imports == old(imports),
            all == imports.deep_view(),
            spec_imports_contain_from(all, name@, 0) == spec_imports_contain_from(
                all,
                name@,
                i as int,
            ),
        decreases imports@.len() - i,
    {
        proof {
            assert(all[i as int] == imports@[i as int].deep_view());
        }
        if imports[i].0.eq(&name) {
            return ;
        }
        i = i + 1;
    }
    let ghost pre = imports.deep_view();
    let ghost nv = name@;
    imports.push(NestedResolverName(name));
    proof {
        assert(imports.deep_view() =~= pre.push(nv));
    }
}

/// What recording an import does: nothing when it is already present, else
/// appending it.
pub open spec fn spec_record_import(imports: Seq<Seq<char>>, x: Seq<char>) -> Seq<Seq<char>> {
    if spec_imports_contain(imports, x) {
        imports
    } else {
        imports.push(x)
    }
}

/// The first resolver on the parent's resolver list with the given field
/// name.
pub open spec fn spec_find_sibling_resolver(
    s: ValidatedSchemaView,
    rids: Seq<usize>,
    name: Seq<char>,
) -> Option<SchemaResolverView<ValidatedSelectionView, usize>>
    decreases rids,
{
    if rids.len() == 0 {
        None
    } else if rids[0] < s.resolvers.len() && s.resolvers[rids[0] as int].name == name {
        Some(s.resolvers[rids[0] as int])
    } else {
        spec_find_sibling_resolver(s, rids.drop_first(), name)
    }
}

/// `"alias"` when an alias was declared, `null` otherwise.
pub open spec fn spec_quoted_or_null(alias: Option<Seq<char>>) -> Seq<char> {
    match alias {
        Some(a) => "\""@ + a + "\""@,
        None => "null"@,
    }
}

/// The rendered variant of a sibling resolver: `"Component"`, `"Eager"`, or
/// `null` when the resolver declared none.
pub open spec fn spec_variant_text(
    found: Option<SchemaResolverView<ValidatedSelectionView, usize>>,
) -> Seq<char> {
    match found {
        Some(r) => match r.variant {
            Some(v) => "\""@ + spec_variant_name(v) + "\""@,
            None => "null"@,
        },
        None => "null"@,
    }
}

/// One reader step and the imports recorded so far afterwards. A scalar
/// server field is a `Scalar` step; a scalar selection of a sibling resolver
/// is a `Resolver` step that records that resolver's artifact as an import;
/// a linked field is a `Linked` step with a nested step list.
pub open spec fn spec_reader_ast_node(
    s: ValidatedSchemaView,
    parent: SchemaObjectView,
    sel: ValidatedSelectionView,
    level: nat,
    imports: Seq<Seq<char>>,
) -> (Seq<char>, Seq<Seq<char>>)
    decreases sel, 0nat,
{
    match sel {
        ValidatedSelectionView::ScalarField { name, alias, field, .. } => match field {
            ValidatedFieldRef::Server(_) => (
                spec_indent(level) + "{\n"@ + spec_indent(level + 1) + "kind: \"Scalar\",\n"@
                    + spec_indent(level + 1) + "response_name: \""@ + name + "\",\n"@ + spec_indent(
                    level + 1,
                ) + "alias: "@ + spec_quoted_or_null(alias) + ",\n"@ + spec_indent(level) + "},\n"@,
                imports,
            ),
            ValidatedFieldRef::Resolver => {
                let resolver_name = parent.name + "__"@ + name;
                let found = spec_find_sibling_resolver(s, parent.resolvers, name);
                (
                    spec_indent(level) + "{\n"@ + spec_indent(level + 1) + "kind: \"Resolver\",\n"@
                        + spec_indent(level + 1) + "alias: \""@ + spec_response_key(sel) + "\",\n"@
                        + spec_indent(level + 1) + "resolver: "@ + resolver_name + ",\n"@
                        + spec_indent(level + 1) + "variant: "@ + spec_variant_text(found) + ",\n"@
                        + spec_indent(level) + "},\n"@,
                    spec_record_import(imports, resolver_name),
                )
            },
        },
        ValidatedSelectionView::LinkedField { name, alias, object_id, selections, .. } => {
            let (inner, imports2) = spec_reader_ast(
                s,
                s.schema_data.objects[object_id as int],
                selections,
                level + 1,
                imports,
            );
            (
                spec_indent(level) + "{\n"@ + spec_indent(level + 1) + "kind: \"Linked\",\n"@
                    + spec_indent(level + 1) + "response_name: \""@ + name + "\",\n"@ + spec_indent(
                    level + 1,
                ) + "alias: "@ + spec_quoted_or_null(alias) + ",\n"@ + spec_indent(level + 1)
                    + "selections: "@ + inner + ",\n"@ + spec_indent(level) + "},\n"@,
                imports2,
            )
        },
    }
}

pub open spec fn spec_reader_ast_nodes(
    s: ValidatedSchemaView,
    parent: SchemaObjectView,
    sels: Seq<ValidatedSelectionView>,
    level: nat,
    imports: Seq<Seq<char>>,
) -> (Seq<char>, Seq<Seq<char>>)
    decreases sels, 1nat,
{
    if sels.len() == 0 {
        (Seq::empty(), imports)
    } else {
        let (t0, imports1) = spec_reader_ast_node(s, parent, sels[0], level, imports);
        let (t1, imports2) = spec_reader_ast_nodes(s, parent, sels.drop_first(), level, imports1);
        (t0 + t1, imports2)
    }
}

/// The step list for a selection set: `[`, one step per selection, `]`.
pub open spec fn spec_reader_ast(
    s: ValidatedSchemaView,
    parent: SchemaObjectView,
    sels: Seq<ValidatedSelectionView>,
    level: nat,
    imports: Seq<Seq<char>>,
) -> (Seq<char>, Seq<Seq<char>>)
    decreases sels, 2nat,
{
    let (t, imports1) = spec_reader_ast_nodes(s, parent, sels, level + 1, imports);
    ("[\n"@ + t + spec_indent(level) + "]"@, imports1)
}

/// Finds the first resolver of `parent` whose field name is `name`.
fn find_sibling_resolver<'a>(
    schema: &'a ValidatedSchema,
    parent: &SchemaObject,
    name: &String,
) -> (r: Option<&'a SchemaResolverDefinitionInfo<ValidatedSelection, usize>>)
    requires
        forall|k: int|
            0 <= k < parent.resolvers@.len() ==> #[trigger] parent.resolvers@[k]
                < schema.resolvers@.len(),
    ensures
        match r {
            Some(res) => spec_find_sibling_resolver(
                schema.deep_view(),
                parent.deep_view().resolvers,
                name@,
            ) == Some(res.deep_view()),
            None => spec_find_sibling_resolver(
                schema.deep_view(),
                parent.deep_view().resolvers,
                name@,
            ) is None,
        },
{
    let ghost sdv = schema.deep_view();
    let ghost rids = parent.deep_view().resolvers;
    proof {
        assert(rids =~= parent.resolvers@);
        assert(rids.subrange(0, rids.len() as int) =~= rids);
    }
    let mut k: usize = 0;
    while k < parent.resolvers.len()
        invariant
            k <= parent.resolvers@.len(),
            sdv == schema.deep_view(),
            rids == parent.deep_view().resolvers,
            rids =~= parent.resolvers@,
            forall|j: int|
                0 <= j < parent.resolvers@.len() ==> #[trigger] parent.resolvers@[j]
                    < schema.resolvers@.len(),
            spec_find_sibling_resolver(sdv, rids, name@) == spec_find_sibling_resolver(
                sdv,
                rids.subrange(k as int, rids.len() as int),
                name@,
            ),
        decreases parent.resolvers@.len() - k,
    {
        let ghost suffix = rids.subrange(k as int, rids.len() as int);
        proof {
            assert(suffix[0] == rids[k as int]);
            assert(suffix.drop_first() =~= rids.subrange(k as int + 1, rids.len() as int));
        }
        let rid = parent.resolvers[k];
        proof {
            assert(schema.resolvers.deep_view()[rid as int]
                == schema.resolvers@[rid as int].deep_view());
        }
        if schema.resolvers[rid].name.eq(name) {
            return Some(&schema.resolvers[rid]);
        }
        k = k + 1;
    }
    proof {
        assert(rids.subrange(k as int, rids.len() as int).len() == 0);
    }
    None
}

/// Renders one reader step, recording the artifact imports of any nested
/// resolver it references.
#[verifier::rlimit(50)]
fn generate_reader_ast_node(
    item: &ValidatedSelection,
    parent_type: &SchemaObject,
    schema: &ValidatedSchema,
    indentation_level: usize,
    nested_resolver_imports: &mut Vec<NestedResolverName>,
) -> (r: String)
    requires
        wf_validated_schema(schema.deep_view()),
        crate::validate_schema::wf_validated_selection(
            schema.deep_view(),
            parent_type.deep_view(),
            item.deep_view(),
        ),
        forall|k: int|
            0 <= k < parent_type.resolvers@.len() ==> #[trigger] parent_type.resolvers@[k]
                < schema.resolvers@.len(),
        indentation_level + 2 * crate::merge_selection_set::sel_size(item.deep_view()) + 4
            <= usize::MAX,
    ensures
        ({
            let (t, imp) = spec_reader_ast_node(
                schema.deep_view(),
                parent_type.deep_view(),
                item.deep_view(),
                indentation_level as nat,
                old(nested_resolver_imports).deep_view(),
            );
            r@ == t && final(nested_resolver_imports).deep_view() == imp
        }),
    decreases item.deep_view(), 0int,
{
    let ghost sdv = schema.deep_view();
    let ghost pdv = parent_type.deep_view();
    let ghost idv = item.deep_view();
    match item {
        ValidatedSelection::ScalarField(f) => match f.field {
            ValidatedFieldRef::Server(_) => {
                let mut out = indent(indentation_level);
                out.append("{\n");
                out.append(indent(indentation_level + 1).as_str());
                out.append("kind: \"Scalar\",\n");
                out.append(indent(indentation_level + 1).as_str());
                out.append("response_name: \"");
                out.append(f.name.as_str());
                out.append("\",\n");
                out.append(indent(indentation_level + 1).as_str());
                out.append("alias: ");
                match &f.alias {
                    Some(a) => {
                        out.append("\"");
                        out.append(a.as_str());
                        out.append("\"");
                    },
                    None => {
                        out.append("null");
                    },
                }
                out.append(",\n");
                out.append(indent(indentation_level).as_str());
                out.append("},\n");
                proof {
                    assert(out@ =~= spec_reader_ast_node(
                        sdv,
                        pdv,
                        idv,
                        indentation_level as nat,
                        old(nested_resolver_imports).deep_view(),
                    ).0);
                }
                out
            },
            ValidatedFieldRef::Resolver => {
                let mut resolver_name = parent_type.name.clone();
                resolver_name.append("__");
                resolver_name.append(f.name.as_str());
                let ghost rn = pdv.name + "__"@ + f.name@;
                proof {
                    assert(resolver_name@ =~= rn);
                }
                let found = find_sibling_resolver(schema, parent_type, &f.name);

                let mut out = indent(indentation_level);
                out.append("{\n");
                out.append(indent(indentation_level + 1).as_str());
                out.append("kind: \"Resolver\",\n");
                out.append(indent(indentation_level + 1).as_str());
                out.append("alias: \"");
                out.append(response_key(item).as_str());
                out.append("\",\n");
                out.append(indent(indentation_level + 1).as_str());
                out.append("resolver: ");
                out.append(resolver_name.as_str());
                out.append(",\n");
                out.append(indent(indentation_level + 1).as_str());
                out.append("variant: ");
                match found {
                    Some(res) => match res.variant {
                        Some(v) => {
                            out.append("\"");
                            out.append(v.variant_name().as_str());
                            out.append("\"");
                        },
                        None => {
                            out.append("null");
                        },
                    },
                    None => {
                        out.append("null");
                    },
                }
                out.append(",\n");
                out.append(indent(indentation_level).as_str());
                out.append("},\n");
                record_import(nested_resolver_imports, resolver_name);
                proof {
                    assert(out@ =~= spec_reader_ast_node(
                        sdv,
                        pdv,
                        idv,
                        indentation_level as nat,
                        old(nested_resolver_imports).deep_view(),
                    ).0);
                }
                out
            },
        },
        ValidatedSelection::LinkedField(f) => {
            proof {
                crate::selection_types::lemma_validated_selections_view(f.selections@);
                assert(f.selections.deep_view() =~= crate::selection_types::validated_selections_view(
                    f.selections@,
                ));
                assert(crate::merge_selection_set::sel_size(idv)
                    == 1 + crate::merge_selection_set::sels_size(f.selections.deep_view()));
                assert(sdv.schema_data.objects[f.object_id as int]
                    == schema.schema_data.objects@[f.object_id as int].deep_view());
            }
            let linked_parent = schema.schema_data.object(f.object_id);
            proof {
                assert(linked_parent.deep_view() == sdv.schema_data.objects[f.object_id as int]);
                assert(wf_validated_selections(
                    sdv,
                    linked_parent.deep_view(),
                    f.selections.deep_view(),
                ));
                assert(forall|k: int|
                    0 <= k < linked_parent.resolvers@.len()
                        ==> #[trigger] linked_parent.resolvers@[k] < schema.resolvers@.len()) by {
                    assert(forall|k: int|
                        0 <= k < linked_parent.resolvers@.len()
                            ==> sdv.schema_data.objects[f.object_id as int].resolvers[k]
                            == #[trigger] linked_parent.resolvers@[k]);
                }
            }
            let inner = generate_reader_ast(
                schema,
                &f.selections,
                linked_parent,
                indentation_level + 1,
                nested_resolver_imports,
            );
            let mut out = indent(indentation_level);
            out.append("{\n");
            out.append(indent(indentation_level + 1).as_str());
            out.append("kind: \"Linked\",\n");
            out.append(indent(indentation_level + 1).as_str());
            out.append("response_name: \"");
            out.append(f.name.as_str());
            out.append("\",\n");
            out.append(indent(indentation_level + 1).as_str());
            out.append("alias: ");
            match &f.alias {
                Some(a) => {
                    out.append("\"");
                    out.append(a.as_str());
                    out.append("\"");
                },
                None => {
                    out.append("null");
                },
            }
            out.append(",\n");
            out.append(indent(indentation_level + 1).as_str());
            out.append("selections: ");
            out.append(inner.0.as_str());
            out.append(",\n");
            out.append(indent(indentation_level).as_str());
            out.append("},\n");
            proof {
                assert(out@ =~= spec_reader_ast_node(
                    sdv,
                    pdv,
                    idv,
                    indentation_level as nat,
                    old(nested_resolver_imports).deep_view(),
                ).0);
            }
            out
        },
    }
}

/// Renders the reader AST for a selection set, recording nested resolver
/// imports in first-use order.
fn generate_reader_ast(
    schema: &ValidatedSchema,
    selection_set: &Vec<ValidatedSelection>,
    parent_type: &SchemaObject,
    indentation_level: usize,
    nested_resolver_imports: &mut Vec<NestedResolverName>,
) -> (r: ReaderAst)
    requires
        wf_validated_schema(schema.deep_view()),
        wf_validated_selections(
            schema.deep_view(),
            parent_type.deep_view(),
            selection_set.deep_view(),
        ),
        forall|k: int|
            0 <= k < parent_type.resolvers@.len() ==> #[trigger] parent_type.resolvers@[k]
                < schema.resolvers@.len(),
        indentation_level + 2 * crate::merge_selection_set::sels_size(selection_set.deep_view())
            + 5 <= usize::MAX,
    ensures
        ({
            let (t, imp) = spec_reader_ast(
                schema.deep_view(),
                parent_type.deep_view(),
                selection_set.deep_view(),
                indentation_level as nat,
                old(nested_resolver_imports).deep_view(),
            );
            r.0@ == t && final(nested_resolver_imports).deep_view() == imp
        }),
    decreases selection_set.deep_view(), 2int,
{
    let ghost sdv = schema.deep_view();
    let ghost pdv = parent_type.deep_view();
    let ghost all = selection_set.deep_view();
    let ghost imports0 = nested_resolver_imports.deep_view();
    let mut reader_ast = "[\n".to_owned();
    let node_level = indentation_level + 1;
    proof {
        assert(all.subrange(0, all.len() as int) =~= all);
        reveal_strlit("[\n");
        assert(reader_ast@.len() == 2);
        assert(reader_ast@.subrange(0, 2) =~= "[\n"@);
        assert(reader_ast@.subrange(2, reader_ast@.len() as int) =~= Seq::<char>::empty());
        let (t, imp) = spec_reader_ast_nodes(sdv, pdv, all, node_level as nat, imports0);
        assert(Seq::<char>::empty() + t =~= t);
    }
    let mut i: usize = 0;
    while i < selection_set.len()
        invariant
            i <= selection_set@.len(),
            node_level == indentation_level + 1,
            sdv == schema.deep_view(),
            pdv == parent_type.deep_view(),
            all == selection_set.deep_view(),
            wf_validated_schema(sdv),
            wf_validated_selections(sdv, pdv, all),
            forall|k: int|
                0 <= k < parent_type.resolvers@.len() ==> #[trigger] parent_type.resolvers@[k]
                    < schema.resolvers@.len(),
            indentation_level + 2 * crate::merge_selection_set::sels_size(all) + 5 <= usize::MAX,
            ({
                let (t, imp) = spec_reader_ast_nodes(
                    sdv,
                    pdv,
                    all.subrange(i as int, all.len() as int),
                    node_level as nat,
                    nested_resolver_imports.deep_view(),
                );
                spec_reader_ast_nodes(sdv, pdv, all, node_level as nat, imports0) == (
                    reader_ast@.subrange(2, reader_ast@.len() as int) + t,
                    imp,
                ) && reader_ast@.subrange(0, 2) =~= "[\n"@ && reader_ast@.len() >= 2
            }),
        decreases selection_set@.len() - i,
    {
        let ghost suffix = all.subrange(i as int, all.len() as int);
        proof {
            assert(suffix[0] == all[i as int]);
            assert(all[i as int] == selection_set@[i as int].deep_view());
            assert(suffix.drop_first() =~= all.subrange(i as int + 1, all.len() as int));
            lemma_wf_selections_member(sdv, pdv, all, i as int);
            lemma_sel_size_member(all, i as int);
        }
        let ghost pre = reader_ast@;
        let ghost imp_pre = nested_resolver_imports.deep_view();
        let s = generate_reader_ast_node(
            &selection_set[i],
            parent_type,
            schema,
            node_level,
            nested_resolver_imports,
        );
        reader_ast.append(s.as_str());
        proof {
            assert(reader_ast@.subrange(0, 2) =~= "[\n"@);
            assert(reader_ast@.subrange(2, reader_ast@.len() as int) =~= pre.subrange(
                2,
                pre.len() as int,
            ) + s@);
            let (tn, impn) = spec_reader_ast_node(sdv, pdv, suffix[0], node_level as nat, imp_pre);
            let (t2, imp2) = spec_reader_ast_nodes(
                sdv,
                pdv,
                suffix.drop_first(),
                node_level as nat,
                impn,
            );
            assert(pre.subrange(2, pre.len() as int) + (tn + t2) =~= (pre.subrange(
                2,
                pre.len() as int,
            ) + tn) + t2);
        }
        i = i + 1;
    }
    proof {
        assert(all.subrange(i as int, all.len() as int).len() == 0);
        assert(reader_ast@.subrange(2, reader_ast@.len() as int) + Seq::<char>::empty()
            =~= reader_ast@.subrange(2, reader_ast@.len() as int));
    }
    let ghost body = reader_ast@.subrange(2, reader_ast@.len() as int);
    proof {
        assert(reader_ast@ =~= reader_ast@.subrange(0, 2) + body);
    }
    reader_ast.append(indent(indentation_level).as_str());
    reader_ast.append("]");
    proof {
        assert(reader_ast@ =~= ("[\n"@ + body) + spec_indent(indentation_level as nat) + "]"@);
        assert("[\n"@ + body + spec_indent(indentation_level as nat) + "]"@ =~= ("[\n"@ + body)
            + spec_indent(indentation_level as nat) + "]"@);
    }
    ReaderAst(reader_ast)
}

/// A well-formed selection set has well-formed members.
pub proof fn lemma_wf_selections_member(
    s: ValidatedSchemaView,
    parent: SchemaObjectView,
    sels: Seq<ValidatedSelectionView>,
    i: int,
)
    requires
        wf_validated_selections(s, parent, sels),
        0 <= i < sels.len(),
    ensures
        crate::validate_schema::wf_validated_selection(s, parent, sels[i]),
    decreases sels,
{
    if i > 0 {
        lemma_wf_selections_member(s, parent, sels.drop_first(), i - 1);
    }
}

/// Well-formed selections carry only scalar handles in range.
pub proof fn lemma_wf_selections_refs_bounded(
    s: ValidatedSchemaView,
    parent: SchemaObjectView,
    sels: Seq<ValidatedSelectionView>,
)
    requires
        wf_validated_selections(s, parent, sels),
    ensures
        crate::merge_selection_set::sels_scalar_refs_bounded(
            s.schema_data.scalars.len() as int,
            sels,
        ),
    decreases sels,
{
    if sels.len() > 0 {
        lemma_wf_selections_refs_bounded(s, parent, sels.drop_first());
        assert(crate::validate_schema::wf_validated_selection(s, parent, sels[0]));
        match sels[0] {
            ValidatedSelectionView::LinkedField { object_id, selections, .. } => {
                assert(wf_validated_selections(
                    s,
                    s.schema_data.objects[object_id as int],
                    selections,
                ));
                lemma_wf_selections_refs_bounded(
                    s,
                    s.schema_data.objects[object_id as int],
                    selections,
                );
            },
            ValidatedSelectionView::ScalarField { .. } => {},
        }
    }
}

/// A merged selection set with scalar handles in range renders as a type
/// declaration.
pub proof fn lemma_merged_renderable(scalars_len: int, ss: Seq<ValidatedSelectionView>)
    requires
        crate::merge_selection_set::sels_scalar_refs_bounded(scalars_len, ss),
        crate::merge_selection_set::is_merged_seq(ss),
    ensures
        spec_type_decl_renderable(scalars_len, ss),
    decreases ss,
{
    if ss.len() > 0 {
        lemma_merged_renderable(scalars_len, ss.drop_first());
        assert(crate::merge_selection_set::is_merged_sel(ss[0]));
        match ss[0] {
            ValidatedSelectionView::LinkedField { selections, .. } => {
                assert(crate::merge_selection_set::is_merged_seq(selections));
                lemma_merged_renderable(scalars_len, selections);
            },
            ValidatedSelectionView::ScalarField { .. } => {},
        }
    }
}

// ---------------------------------------------------------------------------
// Artifacts
// ---------------------------------------------------------------------------

/// The import of the bound function that implements a resolver.
pub struct ResolverImportStatement(pub String);

/// The declared response type of the bound function.
pub struct ResolverResponseTypeDeclaration(pub String);

/// The type of the value read out for the user.
pub struct UserResponseTypeDeclaration(pub String);

/// Why artifact generation failed. The path-carrying cases report I/O
/// failures of the caller that persists the files; selections that cannot be
/// merged are rejected here.
#[derive(Clone, Debug, PartialEq, Eq)]
pub enum GenerateArtifactsError {
    UnableToWriteToArtifactFile { path: String, message: String },
    UnableToCreateDirectory { path: String, message: String },
    UnableToDeleteDirectory { path: String, message: String },
    UnableToCanonicalizePath { path: String, message: String },
    UnableToMergeSelections { error: MergeError },
}

impl GenerateArtifactsError {
    /// A human-readable description of the error.
    pub fn message(&self) -> String {
        match self {
            GenerateArtifactsError::UnableToWriteToArtifactFile { path, message } => {
                let mut m = "Unable to write to artifact file at path ".to_owned();
                m.append(path.as_str());
                m.append(". Message: ");
                m.append(message.as_str());
                m
            },
            GenerateArtifactsError::UnableToCreateDirectory { path, message } => {
                let mut m = "Unable to create directory at path ".to_owned();
                m.append(path.as_str());
                m.append(". Message: ");
                m.append(message.as_str());
                m
            },
            GenerateArtifactsError::UnableToDeleteDirectory { path, message } => {
                let mut m = "Unable to delete directory at path ".to_owned();
                m.append(path.as_str());
                m.append(". Message: ");
                m.append(message.as_str());
                m
            },
            GenerateArtifactsError::UnableToCanonicalizePath { path, message } => {
                let mut m = "Unable to canonicalize path: ".to_owned();
                m.append(path.as_str());
                m.append(". Message: ");
                m.append(message.as_str());
                m
            },
            GenerateArtifactsError::UnableToMergeSelections { error } => error.message(),
        }
    }
}

/// One generated artifact before it is written out.
pub enum Artifact {
    FetchableResolver(FetchableResolver),
    NonFetchableResolver(NonFetchableResolver),
}

/// The artifact of a fetchable resolver: an independent query document plus
/// its types, reader AST and imports.
pub struct FetchableResolver {
    pub query_text: QueryText,
    pub query_name: String,
    pub parent_type_name: String,
    pub query_type_declaration: QueryTypeDeclaration,
    pub resolver_import_statement: ResolverImportStatement,
    pub resolver_response_type_declaration: ResolverResponseTypeDeclaration,
    pub user_response_type_declaration: UserResponseTypeDeclaration,
    pub reader_ast: ReaderAst,
    pub nested_resolver_artifact_imports: Vec<NestedResolverName>,
}

/// The artifact of a non-fetchable resolver: only the reader AST and the
/// imports, never its own query.
pub struct NonFetchableResolver {
    pub parent_type_name: String,
    pub resolver_field_name: String,
    pub nested_resolver_artifact_imports: Vec<NestedResolverName>,
    pub reader_ast: ReaderAst,
    pub resolver_import_statement: ResolverImportStatement,
}

/// One generated file: its name inside the output directory and its text.
pub struct ArtifactFile {
    pub file_name: String,
    pub contents: String,
}

#[verifier::ext_equal]
pub struct FetchableResolverView {
    pub query_text: Seq<char>,
    pub query_name: Seq<char>,
    pub parent_type_name: Seq<char>,
    pub query_type_declaration: Seq<char>,
    pub resolver_import_statement: Seq<char>,
    pub resolver_response_type_declaration: Seq<char>,
    pub user_response_type_declaration: Seq<char>,
    pub reader_ast: Seq<char>,
    pub nested_resolver_artifact_imports: Seq<Seq<char>>,
}

#[verifier::ext_equal]
pub struct NonFetchableResolverView {
    pub parent_type_name: Seq<char>,
    pub resolver_field_name: Seq<char>,
    pub nested_resolver_artifact_imports: Seq<Seq<char>>,
    pub reader_ast: Seq<char>,
    pub resolver_import_statement: Seq<char>,
}

#[verifier::ext_equal]
pub enum ArtifactView {
    FetchableResolver(FetchableResolverView),
    NonFetchableResolver(NonFetchableResolverView),
}

#[verifier::ext_equal]
pub struct ArtifactFileView {
    pub file_name: Seq<char>,
    pub contents: Seq<char>,
}

impl DeepView for FetchableResolver {
    type V = FetchableResolverView;

    open spec fn deep_view(&self) -> FetchableResolverView {
        FetchableResolverView {
            query_text: self.query_text.0@,
            query_name: self.query_name@,
            parent_type_name: self.parent_type_name@,
            query_type_declaration: self.query_type_declaration.0@,
            resolver_import_statement: self.resolver_import_statement.0@,
            resolver_response_type_declaration: self.resolver_response_type_declaration.0@,
            user_response_type_declaration: self.user_response_type_declaration.0@,
            reader_ast: self.reader_ast.0@,
            nested_resolver_artifact_imports: self.nested_resolver_artifact_imports.deep_view(),
        }
    }
}

impl DeepView for NonFetchableResolver {
    type V = NonFetchableResolverView;

    open spec fn deep_view(&self) -> NonFetchableResolverView {
        NonFetchableResolverView {
            parent_type_name: self.parent_type_name@,
            resolver_field_name: self.resolver_field_name@,
            nested_resolver_artifact_imports: self.nested_resolver_artifact_imports.deep_view(),
            reader_ast: self.reader_ast.0@,
            resolver_import_statement: self.resolver_import_statement.0@,
        }
    }
}

impl DeepView for Artifact {
    type V = ArtifactView;

    open spec fn deep_view(&self) -> ArtifactView {
        match self {
            Artifact::FetchableResolver(f) => ArtifactView::FetchableResolver(f.deep_view()),
            Artifact::NonFetchableResolver(n) => ArtifactView::NonFetchableResolver(n.deep_view()),
        }
    }
}

impl DeepView for ArtifactFile {
    type V = ArtifactFileView;

    open spec fn deep_view(&self) -> ArtifactFileView {
        ArtifactFileView { file_name: self.file_name@, contents: self.contents@ }
    }
}

// ---------------------------------------------------------------------------
// Imports and file names
// ---------------------------------------------------------------------------

/// `import { field as resolver } from '../path';`.
pub open spec fn spec_resolver_import_statement(
    resolver_name: Seq<char>,
    resolver_path: Seq<char>,
) -> Seq<char> {
    "import { "@ + resolver_name + " as resolver } from '../"@ + resolver_path + "';"@
}

fn generate_resolver_import_statement(
    resolver_name: &String,
    resolver_path: &String,
) -> (r: ResolverImportStatement)
    ensures
        r.0@ == spec_resolver_import_statement(resolver_name@, resolver_path@),
{
    let mut out = "import { ".to_owned();
    out.append(resolver_name.as_str());
    out.append(" as resolver } from '../");
    out.append(resolver_path.as_str());
    out.append("';");
    ResolverImportStatement(out)
}

/// One import line per nested resolver artifact, in first-use order.
pub open spec fn spec_nested_imports_text(imports: Seq<Seq<char>>) -> Seq<char>
    decreases imports,
{
    if imports.len() == 0 {
        Seq::empty()
    } else {
        "import "@ + imports[0] + " from './"@ + imports[0] + ".boulton';\n"@
            + spec_nested_imports_text(imports.drop_first())
    }
}

/// Renders the import statements for every nested resolver referenced.
pub fn nested_resolver_names_to_import_statement(
    nested_resolver_imports: &Vec<NestedResolverName>,
) -> (r: String)
    ensures
        r@ == spec_nested_imports_text(nested_resolver_imports.deep_view()),
{
    let ghost all = nested_resolver_imports.deep_view();
    let mut out = String::new();
    proof {
        assert(all.subrange(0, all.len() as int) =~= all);
        assert(out@ + spec_nested_imports_text(all) =~= spec_nested_imports_text(all));
    }
    let mut i: usize = 0;
    while i < nested_resolver_imports.len()
        invariant
            i <= nested_resolver_imports@.len(),
            all == nested_resolver_imports.deep_view(),
            spec_nested_imports_text(all) =~= out@ + spec_nested_imports_text(
                all.subrange(i as int, all.len() as int),
            ),
        decreases nested_resolver_imports@.len() - i,
    {
        let ghost suffix = all.subrange(i as int, all.len() as int);
        let ghost pre = out@;
        proof {
            assert(suffix[0] == all[i as int]);
            assert(all[i as int] == nested_resolver_imports@[i as int].deep_view());
            assert(suffix.drop_first() =~= all.subrange(i as int + 1, all.len() as int));
        }
        out.append("import ");
        out.append(nested_resolver_imports[i].0.as_str());
        out.append(" from './");
        out.append(nested_resolver_imports[i].0.as_str());
        out.append(".boulton';\n");
        proof {
            assert(out@ =~= pre + ("import "@ + suffix[0] + " from './"@ + suffix[0]
                + ".boulton';\n"@));
            assert(pre + ("import "@ + suffix[0] + " from './"@ + suffix[0] + ".boulton';\n"@)
                + spec_nested_imports_text(suffix.drop_first()) =~= pre + (("import "@ + suffix[0]
                + " from './"@ + suffix[0] + ".boulton';\n"@) + spec_nested_imports_text(
                suffix.drop_first(),
            )));
        }
        i = i + 1;
    }
    proof {
        assert(all.subrange(i as int, all.len() as int).len() == 0);
        assert(out@ + Seq::<char>::empty() =~= out@);
    }
    out
}

/// `<ParentTypeName>__<FieldName>.boulton.ts`.
pub open spec fn spec_generated_file_name(
    parent_type_name: Seq<char>,
    field_name: Seq<char>,
) -> Seq<char> {
    parent_type_name + "__"@ + field_name + ".boulton.ts"@
}

fn generated_file_name(parent_type_name: &String, field_name: &String) -> (r: String)
    ensures
        r@ == spec_generated_file_name(parent_type_name@, field_name@),
{
    let mut out = parent_type_name.clone();
    out.append("__");
    out.append(field_name.as_str());
    out.append(".boulton.ts");
    out
}

/// The path of a generated file inside the output directory.
pub open spec fn spec_generated_file_path(project_root: Seq<char>, file_name: Seq<char>) -> Seq<
    char,
> {
    project_root + "/"@ + file_name
}

/// Joins the output directory and a generated file's name.
pub fn generated_file_path(project_root: &String, file_name: &String) -> (r: String)
    ensures
        r@ == spec_generated_file_path(project_root@, file_name@),
{
    let mut out = project_root.clone();
    out.append("/");
    out.append(file_name.as_str());
    out
}

// ---------------------------------------------------------------------------
// File contents
// ---------------------------------------------------------------------------

/// The file text of a fetchable resolver's artifact, with the query text
/// embedded as a single-quoted string literal with line-continuation markers.
pub open spec fn spec_fetchable_file_contents(f: FetchableResolverView) -> Seq<char> {
    "import type {BoultonFetchableResolver, ReaderAst} from '@boulton/react';\n"@
        + f.resolver_import_statement + "\n"@ + spec_nested_imports_text(
        f.nested_resolver_artifact_imports,
    ) + "\n"@ + "const queryText = '"@ + spec_escape_newlines(f.query_text) + "';\n\n"@
        + "const normalizationAst = {notNeededForDemo: true};\n"@ + "const readerAst: ReaderAst = "@
        + f.reader_ast + ";\n\n"@
        + "// The type, when passed to the resolver (currently this is the raw response type, it should be the response type)\n"@
        + "export type ResolverParameterType = {\n"@ + f.query_type_declaration + "};\n\n"@
        + "// The type, when returned from the resolver\n"@ + "type ResolverResponse = {\n  "@
        + f.resolver_response_type_declaration + "\n};\n\n"@ + "// The type, when read out\n"@
        + "type UserResponse = {\n  "@ + f.user_response_type_declaration + "\n};\n\n"@
        + "const artifact: BoultonFetchableResolver<ResolverParamaterType, ResolverResponse, UserResponse> = {\n"@
        + "  kind: 'FetchableResolver',\n"@ + "  queryText,\n"@ + "  normalizationAst,\n"@
        + "  readerAst,\n"@ + "  resolver,\n"@ + "};\n\n"@ + "export default artifact;\n"@
}

/// The file text of a non-fetchable resolver's artifact.
pub open spec fn spec_non_fetchable_file_contents(n: NonFetchableResolverView) -> Seq<char> {
    "import type {BoultonNonFetchableResolver, ReaderAst} from '@boulton/react';\n"@
        + n.resolver_import_statement + "\n"@ + spec_nested_imports_text(
        n.nested_resolver_artifact_imports,
    ) + "\n"@ + "const readerAst: ReaderAst = "@ + n.reader_ast + ";\n\n"@
        + "const artifact: BoultonNonFetchableResolver = {\n"@
        + "  kind: 'NonFetchableResolver',\n"@ + "  resolver,\n"@ + "  readerAst,\n"@ + "};\n\n"@
        + "export default artifact;\n"@
}

impl FetchableResolver {
    /// Renders the whole artifact file for this fetchable resolver.
    #[verifier::rlimit(50)]
    pub fn file_contents(&self) -> (r: String)
        ensures
            r@ == spec_fetchable_file_contents(self.deep_view()),
    {
        let mut out =
            "import type {BoultonFetchableResolver, ReaderAst} from '@boulton/react';\n".to_owned();
        out.append(self.resolver_import_statement.0.as_str());
        out.append("\n");
        out.append(
            nested_resolver_names_to_import_statement(
                &self.nested_resolver_artifact_imports,
            ).as_str(),
        );
        out.append("\n");
        out.append("const queryText = '");
        out.append(escape_newlines(self.query_text.0.as_str()).as_str());
        out.append("';\n\n");
        out.append("const normalizationAst = {notNeededForDemo: true};\n");
        out.append("const readerAst: ReaderAst = ");
        out.append(self.reader_ast.0.as_str());
        out.append(";\n\n");
        out.append(
            "// The type, when passed to the resolver (currently this is the raw response type, it should be the response type)\n",
        );
        out.append("export type ResolverParameterType = {\n");
        out.append(self.query_type_declaration.0.as_str());
        out.append("};\n\n");
        out.append("// The type, when returned from the resolver\n");
        out.append("type ResolverResponse = {\n  ");
        out.append(self.resolver_response_type_declaration.0.as_str());
        out.append("\n};\n\n");
        out.append("// The type, when read out\n");
        out.append("type UserResponse = {\n  ");
        out.append(self.user_response_type_declaration.0.as_str());
        out.append("\n};\n\n");
        out.append(
            "const artifact: BoultonFetchableResolver<ResolverParamaterType, ResolverResponse, UserResponse> = {\n",
        );
        out.append("  kind: 'FetchableResolver',\n");
        out.append("  queryText,\n");
        out.append("  normalizationAst,\n");
        out.append("  readerAst,\n");
        out.append("  resolver,\n");
        out.append("};\n\n");
        out.append("export default artifact;\n");
        proof {
            assert(out@ =~= spec_fetchable_file_contents(self.deep_view()));
        }
        out
    }
}

impl NonFetchableResolver {
    /// Renders the whole artifact file for this non-fetchable resolver.
    #[verifier::rlimit(50)]
    pub fn file_contents(&self) -> (r: String)
        ensures
            r@ == spec_non_fetchable_file_contents(self.deep_view()),
    {
        let mut out =
            "import type {BoultonNonFetchableResolver, ReaderAst} from '@boulton/react';\n".to_owned();
        out.append(self.resolver_import_statement.0.as_str());
        out.append("\n");
        out.append(
            nested_resolver_names_to_import_statement(
                &self.nested_resolver_artifact_imports,
            ).as_str(),
        );
        out.append("\n");
        out.append("const readerAst: ReaderAst = ");
        out.append(self.reader_ast.0.as_str());
        out.append(";\n\n");
        out.append("const artifact: BoultonNonFetchableResolver = {\n");
        out.append("  kind: 'NonFetchableResolver',\n");
        out.append("  resolver,\n");
        out.append("  readerAst,\n");
        out.append("};\n\n");
        out.append("export default artifact;\n");
        proof {
            assert(out@ =~= spec_non_fetchable_file_contents(self.deep_view()));
        }
        out
    }
}

// ---------------------------------------------------------------------------
// Per-resolver artifacts
// ---------------------------------------------------------------------------

/// What the fetchable-resolver artifact holds: query text from the merged
/// selection set, the type declaration, the reader AST from the unmerged
/// tree, and the import statements.
pub open spec fn spec_generate_fetchable_resolver_artifact(
    s: ValidatedSchemaView,
    r: SchemaResolverView<ValidatedSelectionView, usize>,
) -> Result<FetchableResolverView, crate::merge_selection_set::MergeErrorView> {
    let query_object = s.schema_data.objects[s.query_type->0 as int];
    let sels = r.selection_set->0;
    match spec_merge(sels) {
        Err(e) => Err(e),
        Ok(merged) => Ok(
            FetchableResolverView {
                query_text: spec_query_text(
                    s.schema_data.scalars,
                    r.name,
                    r.variable_definitions,
                    merged,
                ),
                query_name: r.name,
                parent_type_name: query_object.name,
                query_type_declaration: spec_type_declaration(s.schema_data.scalars, merged, 1),
                resolver_import_statement: spec_resolver_import_statement(
                    r.name,
                    r.resolver_definition_path,
                ),
                resolver_response_type_declaration: "foo: string"@,
                user_response_type_declaration: "foo: string"@,
                reader_ast: spec_reader_ast(s, query_object, sels, 0, Seq::empty()).0,
                nested_resolver_artifact_imports: spec_reader_ast(
                    s,
                    query_object,
                    sels,
                    0,
                    Seq::empty(),
                ).1,
            },
        ),
    }
}

/// What the non-fetchable-resolver artifact holds: only the reader AST and
/// the import statements.
pub open spec fn spec_generate_non_fetchable_resolver_artifact(
    s: ValidatedSchemaView,
    r: SchemaResolverView<ValidatedSelectionView, usize>,
) -> NonFetchableResolverView {
    let parent = s.schema_data.objects[r.parent_object_id as int];
    let sels = r.selection_set->0;
    NonFetchableResolverView {
        parent_type_name: parent.name,
        resolver_field_name: r.name,
        nested_resolver_artifact_imports: spec_reader_ast(s, parent, sels, 0, Seq::empty()).1,
        reader_ast: spec_reader_ast(s, parent, sels, 0, Seq::empty()).0,
        resolver_import_statement: spec_resolver_import_statement(
            r.name,
            r.resolver_definition_path,
        ),
    }
}

/// The machine-limit bound under which a resolver's artifact can be
/// rendered.
pub open spec fn spec_resolver_renderable_size(
    r: SchemaResolverView<ValidatedSelectionView, usize>,
) -> bool {
    2 * crate::merge_selection_set::sels_size(r.selection_set->0) + 5 <= usize::MAX
}

/// Renders the artifact of one fetchable resolver, rejecting a selection set
/// whose entries cannot be merged.
fn generate_fetchable_resolver_artifact(
    schema: &ValidatedSchema,
    resolver_definition: &SchemaResolverDefinitionInfo<ValidatedSelection, usize>,
) -> (r: Result<FetchableResolver, GenerateArtifactsError>)
    requires
        wf_validated_schema(schema.deep_view()),
        schema.query_type matches Some(q) && q == resolver_definition.parent_object_id,
        resolver_definition.selection_set is Some,
        wf_validated_selections(
            schema.deep_view(),
            schema.deep_view().schema_data.objects[resolver_definition.parent_object_id as int],
            resolver_definition.deep_view().selection_set->0,
        ),
        forall|v: int|
            0 <= v < resolver_definition.variable_definitions@.len()
                ==> crate::validate_schema::wf_input_annotation(
                schema.schema_data.scalars@.len() as int,
                #[trigger] resolver_definition.variable_definitions.deep_view()[v].type_,
            ),
        spec_resolver_renderable_size(resolver_definition.deep_view()),
    ensures
        match r {
            Ok(f) => spec_generate_fetchable_resolver_artifact(
                schema.deep_view(),
                resolver_definition.deep_view(),
            ) == Ok::<_, crate::merge_selection_set::MergeErrorView>(f.deep_view()),
            Err(e) => e matches GenerateArtifactsError::UnableToMergeSelections { error }
                && spec_generate_fetchable_resolver_artifact(
                schema.deep_view(),
                resolver_definition.deep_view(),
            ) == Err::<FetchableResolverView, _>(error.deep_view()),
        },
{
    let ghost sdv = schema.deep_view();
    let ghost rdv = resolver_definition.deep_view();
    match &resolver_definition.selection_set {
        None => {
            proof {
                assert(false);
            }
            Err(
                GenerateArtifactsError::UnableToMergeSelections {
                    error: MergeError::ConflictingFields { response_key: String::new() },
                },
            )
        },
        Some(selection_set) => {
            let ghost sels = selection_set.deep_view();
            proof {
                assert(rdv.selection_set->0 == sels);
            }
            let query_object_id = resolver_definition.parent_object_id;
            proof {
                assert(sdv.schema_data.objects[query_object_id as int]
                    == schema.schema_data.objects@[query_object_id as int].deep_view());
            }
            let query_object = schema.schema_data.object(query_object_id);
            proof {
                lemma_wf_selections_refs_bounded(sdv, query_object.deep_view(), sels);
                crate::merge_selection_set::lemma_merge_bounds(
                    sdv.schema_data.scalars.len() as int,
                    sels,
                );
                crate::merge_selection_set::lemma_merge_output_merged(sels);
            }
            let cloned = crate::selection_types::clone_validated_selections(selection_set);
            let merged = match merge_selection_set(cloned) {
                Err(e) => {
                    return Err(GenerateArtifactsError::UnableToMergeSelections { error: e });
                },
                Ok(m) => m,
            };
            proof {
                lemma_merged_renderable(
                    sdv.schema_data.scalars.len() as int,
                    merged.0.deep_view(),
                );
            }
            let query_text = generate_query_text(
                &resolver_definition.name,
                schema,
                &merged,
                &resolver_definition.variable_definitions,
            );
            let query_type_declaration = generate_query_type_declaration(schema, &merged.0, 1);
            let resolver_import_statement = generate_resolver_import_statement(
                &resolver_definition.name,
                &resolver_definition.resolver_definition_path,
            );
            let mut nested_resolver_artifact_imports: Vec<NestedResolverName> = Vec::new();
            proof {
                assert(nested_resolver_artifact_imports.deep_view() =~= Seq::<Seq<char>>::empty());
                assert(forall|k: int|
                    0 <= k < query_object.resolvers@.len()
                        ==> sdv.schema_data.objects[query_object_id as int].resolvers[k]
                        == #[trigger] query_object.resolvers@[k]);
            }
            let reader_ast = generate_reader_ast(
                schema,
                selection_set,
                query_object,
                0,
                &mut nested_resolver_artifact_imports,
            );
            let out = FetchableResolver {
                query_text,
                query_name: resolver_definition.name.clone(),
                parent_type_name: query_object.name.clone(),
                query_type_declaration,
                resolver_import_statement,
                resolver_response_type_declaration: ResolverResponseTypeDeclaration(
                    "foo: string".to_owned(),
                ),
                user_response_type_declaration: UserResponseTypeDeclaration(
                    "foo: string".to_owned(),
                ),
                reader_ast,
                nested_resolver_artifact_imports,
            };
            proof {
                assert(out.deep_view() =~~= spec_generate_fetchable_resolver_artifact(
                    sdv,
                    rdv,
                )->Ok_0);
            }
            Ok(out)
        },
    }
}

/// Renders the artifact of one non-fetchable resolver.
fn generate_non_fetchable_resolver_artifact(
    schema: &ValidatedSchema,
    resolver_definition: &SchemaResolverDefinitionInfo<ValidatedSelection, usize>,
) -> (r: NonFetchableResolver)
    requires
        wf_validated_schema(schema.deep_view()),
        resolver_definition.parent_object_id < schema.schema_data.objects@.len(),
        resolver_definition.selection_set is Some,
        wf_validated_selections(
            schema.deep_view(),
            schema.deep_view().schema_data.objects[resolver_definition.parent_object_id as int],
            resolver_definition.deep_view().selection_set->0,
        ),
        spec_resolver_renderable_size(resolver_definition.deep_view()),
    ensures
        r.deep_view() == spec_generate_non_fetchable_resolver_artifact(
            schema.deep_view(),
            resolver_definition.deep_view(),
        ),
{
    let ghost sdv = schema.deep_view();
    let ghost rdv = resolver_definition.deep_view();
    match &resolver_definition.selection_set {
        None => {
            proof {
                assert(false);
            }
            NonFetchableResolver {
                parent_type_name: String::new(),
                resolver_field_name: String::new(),
                nested_resolver_artifact_imports: Vec::new(),
                reader_ast: ReaderAst(String::new()),
                resolver_import_statement: ResolverImportStatement(String::new()),
            }
        },
        Some(selection_set) => {
            let ghost sels = selection_set.deep_view();
            proof {
                assert(rdv.selection_set->0 == sels);
                assert(sdv.schema_data.objects[resolver_definition.parent_object_id as int]
                    == schema.schema_data.objects@[
                    resolver_definition.parent_object_id as int
                ].deep_view());
            }
            let parent_type = schema.schema_data.object(resolver_definition.parent_object_id);
            let mut nested_resolver_artifact_imports: Vec<NestedResolverName> = Vec::new();
            proof {
                assert(nested_resolver_artifact_imports.deep_view() =~= Seq::<Seq<char>>::empty());
                assert(forall|k: int|
                    0 <= k < parent_type.resolvers@.len()
                        ==> sdv.schema_data.objects[
                        resolver_definition.parent_object_id as int
                    ].resolvers[k] == #[trigger] parent_type.resolvers@[k]);
            }
            let reader_ast = generate_reader_ast(
                schema,
                selection_set,
                parent_type,
                0,
                &mut nested_resolver_artifact_imports,
            );
            let resolver_import_statement = generate_resolver_import_statement(
                &resolver_definition.name,
                &resolver_definition.resolver_definition_path,
            );
            let out = NonFetchableResolver {
                parent_type_name: parent_type.name.clone(),
                resolver_field_name: resolver_definition.name.clone(),
                nested_resolver_artifact_imports,
                reader_ast,
                resolver_import_statement,
            };
            proof {
                assert(out.deep_view() =~~= spec_generate_non_fetchable_resolver_artifact(
                    sdv,
                    rdv,
                ));
            }
            out
        },
    }
}

// ---------------------------------------------------------------------------
// The whole generation run
// ---------------------------------------------------------------------------

/// A resolver forms an independent query document exactly when it is
/// attached to the query root and marked fetchable.
pub open spec fn spec_is_fetchable_artifact(
    s: ValidatedSchemaView,
    r: SchemaResolverView<ValidatedSelectionView, usize>,
) -> bool {
    s.query_type == Some(r.parent_object_id) && r.is_fetchable
}

/// One artifact per resolver, in resolver-handle order, stopping at the
/// first selection set that cannot be merged.
pub open spec fn spec_get_all_artifacts_from(s: ValidatedSchemaView, i: int) -> Result<
    Seq<ArtifactView>,
    crate::merge_selection_set::MergeErrorView,
>
    decreases s.resolvers.len() - i,
{
    if i < 0 || i >= s.resolvers.len() {
        Ok(Seq::empty())
    } else {
        let r = s.resolvers[i];
        if spec_is_fetchable_artifact(s, r) {
            match spec_generate_fetchable_resolver_artifact(s, r) {
                Err(e) => Err(e),
                Ok(f) => match spec_get_all_artifacts_from(s, i + 1) {
                    Err(e) => Err(e),
                    Ok(rest) => Ok(seq![ArtifactView::FetchableResolver(f)] + rest),
                },
            }
        } else {
            match spec_get_all_artifacts_from(s, i + 1) {
                Err(e) => Err(e),
                Ok(rest) => Ok(
                    seq![
                        ArtifactView::NonFetchableResolver(
                            spec_generate_non_fetchable_resolver_artifact(s, r),
                        ),
                    ] + rest,
                ),
            }
        }
    }
}

/// The file one artifact renders to: `<ParentTypeName>__<FieldName>.boulton.ts`
/// holding the artifact's whole text.
pub open spec fn spec_artifact_file(a: ArtifactView) -> ArtifactFileView {
    match a {
        ArtifactView::FetchableResolver(f) => ArtifactFileView {
            file_name: spec_generated_file_name(f.parent_type_name, f.query_name),
            contents: spec_fetchable_file_contents(f),
        },
        ArtifactView::NonFetchableResolver(n) => ArtifactFileView {
            file_name: spec_generated_file_name(n.parent_type_name, n.resolver_field_name),
            contents: spec_non_fetchable_file_contents(n),
        },
    }
}

pub open spec fn spec_artifact_files(arts: Seq<ArtifactView>) -> Seq<ArtifactFileView>
    decreases arts,
{
    if arts.len() == 0 {
        Seq::empty()
    } else {
        seq![spec_artifact_file(arts[0])] + spec_artifact_files(arts.drop_first())
    }
}

/// What a whole generation run produces: one file per resolver, or the first
/// merge conflict.
pub open spec fn spec_generate_artifacts(s: ValidatedSchemaView) -> Result<
    Seq<ArtifactFileView>,
    crate::merge_selection_set::MergeErrorView,
> {
    match spec_get_all_artifacts_from(s, 0) {
        Err(e) => Err(e),
        Ok(arts) => Ok(spec_artifact_files(arts)),
    }
}

/// The preconditions under which a validated schema can be rendered: it is
/// well formed, the query root exists, every resolver declared a selection
/// set, and every selection set fits the machine.
pub open spec fn spec_generatable(s: ValidatedSchemaView) -> bool {
    &&& wf_validated_schema(s)
    &&& s.query_type is Some
    &&& forall|i: int|
        0 <= i < s.resolvers.len() ==> (#[trigger] s.resolvers[i].selection_set) is Some
    &&& forall|i: int|
        0 <= i < s.resolvers.len() ==> spec_resolver_renderable_size(#[trigger] s.resolvers[i])
}

/// Renders one artifact per resolver of the schema, in handle order.
#[verifier::loop_isolation(false)]
pub fn get_all_artifacts(schema: &ValidatedSchema) -> (r: Result<Vec<Artifact>, GenerateArtifactsError>)
    requires
        spec_generatable(schema.deep_view()),
    ensures
        match r {
            Ok(arts) => spec_get_all_artifacts_from(schema.deep_view(), 0) == Ok::<
                _,
                crate::merge_selection_set::MergeErrorView,
            >(arts.deep_view()),
            Err(e) => e matches GenerateArtifactsError::UnableToMergeSelections { error }
                && spec_get_all_artifacts_from(schema.deep_view(), 0) == Err::<
                Seq<ArtifactView>,
                _,
            >(error.deep_view()),
        },
{
    let ghost sdv = schema.deep_view();
    let mut out: Vec<Artifact> = Vec::new();
    proof {
        assert(out.deep_view() =~= Seq::<ArtifactView>::empty());
    }
    let mut i: usize = 0;
    while i < schema.resolvers.len()
        invariant
            i <= schema.resolvers@.len(),
            match spec_get_all_artifacts_from(sdv, i as int) {
                Ok(rest) => spec_get_all_artifacts_from(sdv, 0) == Ok::<
                    _,
                    crate::merge_selection_set::MergeErrorView,
                >(out.deep_view() + rest),
                Err(e) => spec_get_all_artifacts_from(sdv, 0) == Err::<Seq<ArtifactView>, _>(e),
            },
        decreases schema.resolvers@.len() - i,
    {
        proof {
            assert(sdv.resolvers[i as int] == schema.resolvers@[i as int].deep_view());
        }
        let resolver = &schema.resolvers[i];
        let ghost rdv = resolver.deep_view();
        let query_id = match schema.query_type {
            Some(q) => q,
            None => {
                proof {
                    assert(false);
                }
                0
            },
        };
        let fetchable = resolver.parent_object_id == query_id && resolver.is_fetchable;
        proof {
            assert(fetchable == spec_is_fetchable_artifact(sdv, rdv));
        }
        let ghost pre = out.deep_view();
        if fetchable {
            match generate_fetchable_resolver_artifact(schema, resolver) {
                Err(e) => {
                    return Err(e);
                },
                Ok(f) => {
                    let ghost fv = f.deep_view();
                    out.push(Artifact::FetchableResolver(f));
                    proof {
                        assert(out.deep_view() =~= pre.push(ArtifactView::FetchableResolver(fv)));
                        match spec_get_all_artifacts_from(sdv, i + 1) {
                            Ok(rest) => {
                                assert(out.deep_view() + rest =~= pre + (seq![
                                    ArtifactView::FetchableResolver(fv),
                                ] + rest));
                            },
                            Err(_) => {},
                        }
                    }
                },
            }
        } else {
            let n = generate_non_fetchable_resolver_artifact(schema, resolver);
            let ghost nv = n.deep_view();
            out.push(Artifact::NonFetchableResolver(n));
            proof {
                assert(out.deep_view() =~= pre.push(ArtifactView::NonFetchableResolver(nv)));
                match spec_get_all_artifacts_from(sdv, i + 1) {
                    Ok(rest) => {
                        assert(out.deep_view() + rest =~= pre + (seq![
                            ArtifactView::NonFetchableResolver(nv),
                        ] + rest));
                    },
                    Err(_) => {},
                }
            }
        }
        i = i + 1;
    }
    proof {
        assert(out.deep_view() + Seq::<ArtifactView>::empty() =~= out.deep_view());
    }
    Ok(out)
}

/// Renders every artifact of the schema to its named file: one file per
/// resolver, `<ParentTypeName>__<FieldName>.boulton.ts`, in handle order.
/// The caller persists the files; a removed resolver yields no file, so a
/// wipe-and-recreate of the output directory leaves no stale artifact.
#[verifier::loop_isolation(false)]
pub fn generate_artifacts(schema: &ValidatedSchema) -> (r: Result<
    Vec<ArtifactFile>,
    GenerateArtifactsError,
>)
    requires
        spec_generatable(schema.deep_view()),
    ensures
        match r {
            Ok(files) => spec_generate_artifacts(schema.deep_view()) == Ok::<
                _,
                crate::merge_selection_set::MergeErrorView,
            >(files.deep_view()),
            Err(e) => e matches GenerateArtifactsError::UnableToMergeSelections { error }
                && spec_generate_artifacts(schema.deep_view()) == Err::<Seq<ArtifactFileView>, _>(
                error.deep_view(),
            ),
        },
{
    let ghost sdv = schema.deep_view();
    let artifacts = match get_all_artifacts(schema) {
        Err(e) => {
            return Err(e);
        },
        Ok(a) => a,
    };
    let ghost arts = artifacts.deep_view();
    let mut files: Vec<ArtifactFile> = Vec::new();
    proof {
        assert(files.deep_view() =~= Seq::<ArtifactFileView>::empty());
        assert(arts.subrange(0, arts.len() as int) =~= arts);
    }
    let mut i: usize = 0;
    while i < artifacts.len()
        invariant
            i <= artifacts@.len(),
            arts == artifacts.deep_view(),
            spec_artifact_files(arts) =~= files.deep_view() + spec_artifact_files(
                arts.subrange(i as int, arts.len() as int),
            ),
        decreases artifacts@.len() - i,
    {
        let ghost suffix = arts.subrange(i as int, arts.len() as int);
        proof {
            assert(suffix[0] == arts[i as int]);
            assert(arts[i as int] == artifacts@[i as int].deep_view());
            assert(suffix.drop_first() =~= arts.subrange(i as int + 1, arts.len() as int));
        }
        let ghost pre = files.deep_view();
        let file = match &artifacts[i] {
            Artifact::FetchableResolver(f) => ArtifactFile {
                file_name: generated_file_name(&f.parent_type_name, &f.query_name),
                contents: f.file_contents(),
            },
            Artifact::NonFetchableResolver(n) => ArtifactFile {
                file_name: generated_file_name(&n.parent_type_name, &n.resolver_field_name),
                contents: n.file_contents(),
            },
        };
        proof {
            assert(file.deep_view() =~~= spec_artifact_file(suffix[0]));
        }
        files.push(file);
        proof {
            assert(files.deep_view() =~= pre.push(spec_artifact_file(suffix[0])));
            assert(pre.push(spec_artifact_file(suffix[0])) + spec_artifact_files(
                suffix.drop_first(),
            ) =~= pre + (seq![spec_artifact_file(suffix[0])] + spec_artifact_files(
                suffix.drop_first(),
            )));
        }
        i = i + 1;
    }
    proof {
        assert(arts.subrange(i as int, arts.len() as int).len() == 0);
        assert(files.deep_view() + Seq::<ArtifactFileView>::empty() =~= files.deep_view());
    }
    Ok(files)
}

} // verus!
