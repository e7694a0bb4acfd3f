//! Selection trees: the query sub-language's field selections, before and
//! after validation, together with their mathematical views.
//!
//! A selection is either a scalar field (a leaf) or a linked field (with a
//! nested selection set). The response key of a selection — its alias if one
//! was declared, else its field name — is the property name under which the
//! selected value appears in a response object.

use vstd::prelude::*;

verus! {

broadcast use vstd::seq::group_seq_axioms, vstd::std_specs::vec::group_vec_axioms;

/// An argument passed to a selected field, e.g. `id: $someVariable`.
#[derive(Clone, Debug, PartialEq, Eq)]
pub struct SelectionFieldArgument {
    pub name: String,
    pub value: NonConstantValue,
}

/// A non-constant value usable as a selection argument. The query
/// sub-language only supports variable references here.
#[derive(Clone, Debug, PartialEq, Eq)]
pub enum NonConstantValue {
    Variable(String),
}

/// A field selection as declared, before validation: field references are
/// plain names.
pub enum Selection {
    ScalarField(ScalarFieldSelection),
    LinkedField(LinkedFieldSelection),
}

#[derive(Clone, Debug, PartialEq, Eq)]
pub struct ScalarFieldSelection {
    pub name: String,
    pub alias: Option<String>,
    pub arguments: Vec<SelectionFieldArgument>,
}

pub struct LinkedFieldSelection {
    pub name: String,
    pub alias: Option<String>,
    pub arguments: Vec<SelectionFieldArgument>,
    pub selections: Vec<Selection>,
}

/// What a validated scalar selection resolves to: a server-defined field of
/// some scalar type, or a sibling resolver (a client-computed field).
#[derive(Clone, Copy, Debug, PartialEq, Eq, Structural)]
pub enum ValidatedFieldRef {
    Server(usize),
    Resolver,
}

/// A field selection after validation: scalar selections carry the handle of
/// their scalar output type (or a resolver marker), linked selections carry
/// the handle of their object type.
pub enum ValidatedSelection {
    ScalarField(ValidatedScalarFieldSelection),
    LinkedField(ValidatedLinkedFieldSelection),
}

#[derive(Clone, Debug, PartialEq, Eq)]
pub struct ValidatedScalarFieldSelection {
    pub name: String,
    pub alias: Option<String>,
    pub arguments: Vec<SelectionFieldArgument>,
    pub field: ValidatedFieldRef,
}

pub struct ValidatedLinkedFieldSelection {
    pub name: String,
    pub alias: Option<String>,
    pub arguments: Vec<SelectionFieldArgument>,
    pub object_id: usize,
    pub selections: Vec<ValidatedSelection>,
}

// ---------------------------------------------------------------------------
// Views
// ---------------------------------------------------------------------------

#[verifier::ext_equal]
pub enum NonConstantValueView {
    Variable(Seq<char>),
}

#[verifier::ext_equal]
pub struct SelectionFieldArgumentView {
    pub name: Seq<char>,
    pub value: NonConstantValueView,
}

#[verifier::ext_equal]
pub enum SelectionView {
    ScalarField {
        name: Seq<char>,
        alias: Option<Seq<char>>,
        arguments: Seq<SelectionFieldArgumentView>,
    },
    LinkedField {
        name: Seq<char>,
        alias: Option<Seq<char>>,
        arguments: Seq<SelectionFieldArgumentView>,
        selections: Seq<SelectionView>,
    },
}

#[verifier::ext_equal]
pub enum ValidatedSelectionView {
    ScalarField {
        name: Seq<char>,
        alias: Option<Seq<char>>,
        arguments: Seq<SelectionFieldArgumentView>,
        field: ValidatedFieldRef,
    },
    LinkedField {
        name: Seq<char>,
        alias: Option<Seq<char>>,
        arguments: Seq<SelectionFieldArgumentView>,
        object_id: usize,
        selections: Seq<ValidatedSelectionView>,
    },
}

impl DeepView for ValidatedFieldRef {
    type V = ValidatedFieldRef;

    open spec fn deep_view(&self) -> ValidatedFieldRef {
        *self
    }
}

impl DeepView for NonConstantValue {
    type V = NonConstantValueView;

    open spec fn deep_view(&self) -> NonConstantValueView {
        match self {
            NonConstantValue::Variable(v) => NonConstantValueView::Variable(v@),
        }
    }
}

impl DeepView for SelectionFieldArgument {
    type V = SelectionFieldArgumentView;

    open spec fn deep_view(&self) -> SelectionFieldArgumentView {
        SelectionFieldArgumentView { name: self.name@, value: self.value.deep_view() }
    }
}

impl DeepView for Selection {
    type V = SelectionView;

    open spec fn deep_view(&self) -> SelectionView {
        selection_view(*self)
    }
}

pub open spec fn selection_view(s: Selection) -> SelectionView
    decreases s,
{
    match s {
        Selection::ScalarField(f) => SelectionView::ScalarField {
            name: f.name@,
            alias: f.alias.deep_view(),
            arguments: f.arguments.deep_view(),
        },
        Selection::LinkedField(f) => SelectionView::LinkedField {
            name: f.name@,
            alias: f.alias.deep_view(),
            arguments: f.arguments.deep_view(),
            selections: selections_view(f.selections@),
        },
    }
}

pub open spec fn selections_view(ss: Seq<Selection>) -> Seq<SelectionView>
    decreases ss,
{
    if ss.len() == 0 {
        Seq::empty()
    } else {
        selections_view(ss.drop_last()).push(selection_view(ss.last()))
    }
}

impl DeepView for ValidatedSelection {
    type V = ValidatedSelectionView;

    open spec fn deep_view(&self) -> ValidatedSelectionView {
        validated_selection_view(*self)
    }
}

pub open spec fn validated_selection_view(s: ValidatedSelection) -> ValidatedSelectionView
    decreases s,
{
    match s {
        ValidatedSelection::ScalarField(f) => ValidatedSelectionView::ScalarField {
            name: f.name@,
            alias: f.alias.deep_view(),
            arguments: f.arguments.deep_view(),
            field: f.field,
        },
        ValidatedSelection::LinkedField(f) => ValidatedSelectionView::LinkedField {
            name: f.name@,
            alias: f.alias.deep_view(),
            arguments: f.arguments.deep_view(),
            object_id: f.object_id,
            selections: validated_selections_view(f.selections@),
        },
    }
}

pub open spec fn validated_selections_view(ss: Seq<ValidatedSelection>) -> Seq<ValidatedSelectionView>
    decreases ss,
{
    if ss.len() == 0 {
        Seq::empty()
    } else {
        validated_selections_view(ss.drop_last()).push(validated_selection_view(ss.last()))
    }
}

/// A sequence of selections and its view have the same length, and the view
/// is taken entry by entry.
pub proof fn lemma_selections_view(ss: Seq<Selection>)
    ensures
        selections_view(ss).len() == ss.len(),
        forall|i: int|
            0 <= i < ss.len() ==> #[trigger] selections_view(ss)[i] == selection_view(ss[i]),
    decreases ss,
{
    if ss.len() > 0 {
        lemma_selections_view(ss.drop_last());
    }
}

/// A sequence of validated selections and its view have the same length, and
/// the view is taken entry by entry.
pub proof fn lemma_validated_selections_view(ss: Seq<ValidatedSelection>)
    ensures
        validated_selections_view(ss).len() == ss.len(),
        forall|i: int|
            0 <= i < ss.len() ==> #[trigger] validated_selections_view(ss)[i]
                == validated_selection_view(ss[i]),
    decreases ss,
{
    if ss.len() > 0 {
        lemma_validated_selections_view(ss.drop_last());
    }
}

// ---------------------------------------------------------------------------
// Response keys
// ---------------------------------------------------------------------------

/// The response key of a declared selection: the alias if present, else the
/// field name.
pub open spec fn spec_response_key(s: ValidatedSelectionView) -> Seq<char> {
    match s {
        ValidatedSelectionView::ScalarField { name, alias, .. } => match alias {
            Some(a) => a,
            None => name,
        },
        ValidatedSelectionView::LinkedField { name, alias, .. } => match alias {
            Some(a) => a,
            None => name,
        },
    }
}

/// Copies an argument list.
pub fn clone_arguments(arguments: &Vec<SelectionFieldArgument>) -> (r: Vec<SelectionFieldArgument>)
    ensures
        r.deep_view() == arguments.deep_view(),
{
    let mut out: Vec<SelectionFieldArgument> = Vec::new();
    let mut i: usize = 0;
    while i < arguments.len()
        invariant
            i <= arguments@.len(),
            out.deep_view() =~= arguments.deep_view().subrange(0, i as int),
        decreases arguments@.len() - i,
    {
        let a = &arguments[i];
        let value = match &a.value {
            NonConstantValue::Variable(v) => NonConstantValue::Variable(v.clone()),
        };
        let cloned = SelectionFieldArgument { name: a.name.clone(), value };
        proof {
            assert(cloned.deep_view() =~~= arguments.deep_view()[i as int]);
        }
        let ghost pre = out.deep_view();
        out.push(cloned);
        proof {
            assert(out.deep_view() =~= pre.push(cloned.deep_view()));
            assert(pre.push(cloned.deep_view()) =~= arguments.deep_view().subrange(
                0,
                i as int + 1,
            ));
        }
        i = i + 1;
    }
    proof {
        assert(arguments.deep_view().subrange(0, arguments.deep_view().len() as int)
            =~= arguments.deep_view());
    }
    out
}

/// Copies an optional alias.
pub fn clone_alias(alias: &Option<String>) -> (r: Option<String>)
    ensures
        r.deep_view() == alias.deep_view(),
{
    match alias {
        Some(a) => Some(a.clone()),
        None => None,
    }
}

/// Copies one validated selection.
pub fn clone_validated_selection(sel: &ValidatedSelection) -> (r: ValidatedSelection)
    ensures
        r.deep_view() == sel.deep_view(),
    decreases sel, 0int,
{
    match sel {
        ValidatedSelection::ScalarField(f) => ValidatedSelection::ScalarField(
            ValidatedScalarFieldSelection {
                name: f.name.clone(),
                alias: clone_alias(&f.alias),
                arguments: clone_arguments(&f.arguments),
                field: f.field,
            },
        ),
        ValidatedSelection::LinkedField(f) => {
            let selections = clone_validated_selections(&f.selections);
            let r = ValidatedSelection::LinkedField(
                ValidatedLinkedFieldSelection {
                    name: f.name.clone(),
                    alias: clone_alias(&f.alias),
                    arguments: clone_arguments(&f.arguments),
                    object_id: f.object_id,
                    selections,
                },
            );
            proof {
                match &r {
                    ValidatedSelection::LinkedField(x) => {
                        lemma_validated_selections_view(x.selections@);
                        lemma_validated_selections_view(f.selections@);
                        assert(x.selections.deep_view() =~= validated_selections_view(
                            x.selections@,
                        ));
                        assert(f.selections.deep_view() =~= validated_selections_view(
                            f.selections@,
                        ));
                    },
                    ValidatedSelection::ScalarField(_) => {},
                }
                assert(r.deep_view() =~~= sel.deep_view());
            }
            r
        },
    }
}

/// Copies a validated selection set.
pub fn clone_validated_selections(sels: &Vec<ValidatedSelection>) -> (r: Vec<ValidatedSelection>)
    ensures
        r.deep_view() == sels.deep_view(),
    decreases sels@, 1int,
{
    let mut out: Vec<ValidatedSelection> = Vec::new();
    let mut i: usize = 0;
    while i < sels.len()
        invariant
            i <= sels@.len(),
            out.deep_view() =~= sels.deep_view().subrange(0, i as int),
        decreases sels@.len() - i,
    {
        let cloned = clone_validated_selection(&sels[i]);
        let ghost pre = out.deep_view();
        out.push(cloned);
        proof {
            assert(out.deep_view() =~= pre.push(sels.deep_view()[i as int]));
            assert(pre.push(sels.deep_view()[i as int]) =~= sels.deep_view().subrange(
                0,
                i as int + 1,
            ));
        }
        i = i + 1;
    }
    proof {
        assert(sels.deep_view().subrange(0, sels.deep_view().len() as int) =~= sels.deep_view());
    }
    out
}

/// The response key of a validated selection, as executable code.
pub fn response_key(s: &ValidatedSelection) -> (r: &String)
    ensures
        r@ == spec_response_key(s.deep_view()),
{
    match s {
        ValidatedSelection::ScalarField(f) => match &f.alias {
            Some(a) => a,
            None => &f.name,
        },
        ValidatedSelection::LinkedField(f) => match &f.alias {
            Some(a) => a,
            None => &f.name,
        },
    }
}

} // verus!
