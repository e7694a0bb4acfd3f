//! Selection merging: combining sibling selections that share a response key
//! into one entry each, recursively, in first-occurrence order.
//!
//! The merged selection set is used only to render the query text sent over
//! the wire. Selections of resolver fields are client-computed and contribute
//! no server data, so they are dropped here; the unmerged tree, which keeps
//! them, is what reader-AST generation walks. Two scalar selections sharing a
//! key must agree exactly (a mismatch is rejected, never silently resolved);
//! two linked selections sharing a key have their nested sets merged into one.

use vstd::prelude::*;

use crate::selection_types::{
    response_key, spec_response_key, validated_selection_view, validated_selections_view,
    ValidatedFieldRef, ValidatedLinkedFieldSelection, ValidatedSelection, ValidatedSelectionView,
};

verus! {

broadcast use vstd::seq::group_seq_axioms, vstd::std_specs::vec::group_vec_axioms;

/// A selection set in which no two entries share a response key.
pub struct MergedSelectionSet(pub Vec<ValidatedSelection>);

/// Why two selections sharing a response key could not be combined.
#[derive(Clone, Debug, PartialEq, Eq)]
pub enum MergeError {
    /// A scalar and a linked selection share the key.
    ConflictingSelectionKinds { response_key: String },
    /// The two selections name different fields or aliases.
    ConflictingFields { response_key: String },
    /// The two selections pass different arguments.
    ConflictingArguments { response_key: String },
}

#[verifier::ext_equal]
pub enum MergeErrorView {
    ConflictingSelectionKinds { response_key: Seq<char> },
    ConflictingFields { response_key: Seq<char> },
    ConflictingArguments { response_key: Seq<char> },
}

impl DeepView for MergeError {
    type V = MergeErrorView;

    open spec fn deep_view(&self) -> MergeErrorView {
        match self {
            MergeError::ConflictingSelectionKinds { response_key } =>
                MergeErrorView::ConflictingSelectionKinds { response_key: response_key@ },
            MergeError::ConflictingFields { response_key } =>
                MergeErrorView::ConflictingFields { response_key: response_key@ },
            MergeError::ConflictingArguments { response_key } =>
                MergeErrorView::ConflictingArguments { response_key: response_key@ },
        }
    }
}

impl MergeError {
    /// A human-readable description of the error.
    pub fn message(&self) -> String {
        match self {
            MergeError::ConflictingSelectionKinds { response_key } => {
                let mut m = "Selections with response key `".to_owned();
                m.append(response_key.as_str());
                m.append("` have conflicting kinds");
                m
            },
            MergeError::ConflictingFields { response_key } => {
                let mut m = "Selections with response key `".to_owned();
                m.append(response_key.as_str());
                m.append("` name conflicting fields");
                m
            },
            MergeError::ConflictingArguments { response_key } => {
                let mut m = "Selections with response key `".to_owned();
                m.append(response_key.as_str());
                m.append("` have conflicting arguments");
                m
            },
        }
    }
}

// ---------------------------------------------------------------------------
// Sizes (the termination measure)
// ---------------------------------------------------------------------------

pub open spec fn sel_size(s: ValidatedSelectionView) -> nat
    decreases s,
{
    match s {
        ValidatedSelectionView::ScalarField { .. } => 1,
        ValidatedSelectionView::LinkedField { selections, .. } => 1 + sels_size(selections),
    }
}

pub open spec fn sels_size(ss: Seq<ValidatedSelectionView>) -> nat
    decreases ss,
{
    if ss.len() == 0 {
        0
    } else {
        sel_size(ss[0]) + sels_size(ss.drop_first())
    }
}

// ---------------------------------------------------------------------------
// Keys, duplicates, conflicts
// ---------------------------------------------------------------------------

/// Whether a selection reads a sibling resolver (a client-computed field).
pub open spec fn is_resolver_scalar(s: ValidatedSelectionView) -> bool {
    s matches ValidatedSelectionView::ScalarField { field: ValidatedFieldRef::Resolver, .. }
}

/// Whether some entry has the response key `k`.
pub open spec fn has_key(ss: Seq<ValidatedSelectionView>, k: Seq<char>) -> bool
    decreases ss,
{
    if ss.len() == 0 {
        false
    } else {
        spec_response_key(ss[0]) == k || has_key(ss.drop_first(), k)
    }
}

/// The entries whose response key is not `k`, in order.
pub open spec fn remove_key(ss: Seq<ValidatedSelectionView>, k: Seq<char>) -> Seq<
    ValidatedSelectionView,
>
    decreases ss,
{
    if ss.len() == 0 {
        Seq::empty()
    } else if spec_response_key(ss[0]) == k {
        remove_key(ss.drop_first(), k)
    } else {
        seq![ss[0]] + remove_key(ss.drop_first(), k)
    }
}

/// The entries whose response key is `k`, in order.
pub open spec fn same_key_entries(ss: Seq<ValidatedSelectionView>, k: Seq<char>) -> Seq<
    ValidatedSelectionView,
>
    decreases ss,
{
    if ss.len() == 0 {
        Seq::empty()
    } else if spec_response_key(ss[0]) == k {
        seq![ss[0]] + same_key_entries(ss.drop_first(), k)
    } else {
        same_key_entries(ss.drop_first(), k)
    }
}

/// The nested selections of a run of linked entries, concatenated in order.
/// A non-linked entry contributes nothing (it can only arise from an entry
/// that a conflict check rejects anyway).
pub open spec fn concat_nested(ss: Seq<ValidatedSelectionView>) -> Seq<ValidatedSelectionView>
    decreases ss,
{
    if ss.len() == 0 {
        Seq::empty()
    } else {
        (match ss[0] {
            ValidatedSelectionView::LinkedField { selections, .. } => selections,
            ValidatedSelectionView::ScalarField { .. } => Seq::empty(),
        }) + concat_nested(ss.drop_first())
    }
}

/// Why `first` and `other`, which share a response key, cannot be combined —
/// or nothing, when they can.
pub open spec fn combine_conflict(
    first: ValidatedSelectionView,
    other: ValidatedSelectionView,
) -> Option<MergeErrorView> {
    let k = spec_response_key(first);
    match (first, other) {
        (
            ValidatedSelectionView::ScalarField { name: n1, alias: a1, arguments: g1, field: f1 },
            ValidatedSelectionView::ScalarField { name: n2, alias: a2, arguments: g2, field: f2 },
        ) => if n1 != n2 || a1 != a2 || f1 != f2 {
            Some(MergeErrorView::ConflictingFields { response_key: k })
        } else if g1 != g2 {
            Some(MergeErrorView::ConflictingArguments { response_key: k })
        } else {
            None
        },
        (
            ValidatedSelectionView::LinkedField {
                name: n1,
                alias: a1,
                arguments: g1,
                object_id: o1,
                ..
            },
            ValidatedSelectionView::LinkedField {
                name: n2,
                alias: a2,
                arguments: g2,
                object_id: o2,
                ..
            },
        ) => if n1 != n2 || a1 != a2 || o1 != o2 {
            Some(MergeErrorView::ConflictingFields { response_key: k })
        } else if g1 != g2 {
            Some(MergeErrorView::ConflictingArguments { response_key: k })
        } else {
            None
        },
        _ => Some(MergeErrorView::ConflictingSelectionKinds { response_key: k }),
    }
}

/// The first conflict between `first` and one of its duplicates, if any.
pub open spec fn first_conflict(
    first: ValidatedSelectionView,
    dups: Seq<ValidatedSelectionView>,
) -> Option<MergeErrorView>
    decreases dups,
{
    if dups.len() == 0 {
        None
    } else {
        match combine_conflict(first, dups[0]) {
            Some(e) => Some(e),
            None => first_conflict(first, dups.drop_first()),
        }
    }
}

// ---------------------------------------------------------------------------
// The merge
// ---------------------------------------------------------------------------

/// What merging a selection set yields: resolver-field selections are
/// dropped; the first entry of each response key stands for all of them, in
/// first-occurrence order; duplicate scalars must agree exactly; duplicate
/// linked selections have their nested sets concatenated and merged,
/// recursively.
pub open spec fn spec_merge(ss: Seq<ValidatedSelectionView>) -> Result<
    Seq<ValidatedSelectionView>,
    MergeErrorView,
>
    decreases sels_size(ss),
    when true
    via spec_merge_decreases
{
    if ss.len() == 0 {
        Ok(Seq::empty())
    } else {
        let first = ss[0];
        let rest = ss.drop_first();
        if is_resolver_scalar(first) {
            spec_merge(rest)
        } else {
            let k = spec_response_key(first);
            let dups = same_key_entries(rest, k);
            let others = remove_key(rest, k);
            match first_conflict(first, dups) {
                Some(e) => Err(e),
                None => match first {
                    ValidatedSelectionView::ScalarField { .. } => match spec_merge(others) {
                        Err(e) => Err(e),
                        Ok(tail) => Ok(seq![first] + tail),
                    },
                    ValidatedSelectionView::LinkedField {
                        name,
                        alias,
                        arguments,
                        object_id,
                        selections,
                    } => match spec_merge(selections + concat_nested(dups)) {
                        Err(e) => Err(e),
                        Ok(nested) => match spec_merge(others) {
                            Err(e) => Err(e),
                            Ok(tail) => Ok(
                                seq![
                                    ValidatedSelectionView::LinkedField {
                                        name,
                                        alias,
                                        arguments,
                                        object_id,
                                        selections: nested,
                                    },
                                ] + tail,
                            ),
                        },
                    },
                },
            }
        }
    }
}

#[via_fn]
proof fn spec_merge_decreases(ss: Seq<ValidatedSelectionView>) {
    lemma_merge_size_facts(ss);
}

/// The size facts that justify the recursion pattern of `spec_merge`.
pub proof fn lemma_merge_size_facts(ss: Seq<ValidatedSelectionView>)
    ensures
        ss.len() > 0 ==> sels_size(ss.drop_first()) < sels_size(ss),
        ss.len() > 0 ==> sels_size(
            remove_key(ss.drop_first(), spec_response_key(ss[0])),
        ) < sels_size(ss),
        ss.len() > 0 ==> match ss[0] {
            ValidatedSelectionView::LinkedField { selections, .. } => sels_size(
                selections + concat_nested(
                    same_key_entries(ss.drop_first(), spec_response_key(ss[0])),
                ),
            ) < sels_size(ss),
            ValidatedSelectionView::ScalarField { .. } => true,
        },
{
    if ss.len() > 0 {
        let first = ss[0];
        let rest = ss.drop_first();
        lemma_sel_size_pos(first);
        lemma_sels_size_remove_key(rest, spec_response_key(first));
        lemma_sels_size_concat_nested(rest, spec_response_key(first));
        match first {
            ValidatedSelectionView::LinkedField { selections, .. } => {
                lemma_sels_size_concat(
                    selections,
                    concat_nested(same_key_entries(rest, spec_response_key(first))),
                );
            },
            ValidatedSelectionView::ScalarField { .. } => {},
        }
    }
}

pub proof fn lemma_sel_size_pos(s: ValidatedSelectionView)
    ensures
        sel_size(s) >= 1,
{
}

pub proof fn lemma_sels_size_singleton(s: ValidatedSelectionView)
    ensures
        sels_size(seq![s]) == sel_size(s),
{
    assert(seq![s].drop_first() =~= Seq::<ValidatedSelectionView>::empty());
    assert(sels_size(Seq::<ValidatedSelectionView>::empty()) == 0);
}

/// Concatenation adds sizes.
pub proof fn lemma_sels_size_concat(a: Seq<ValidatedSelectionView>, b: Seq<ValidatedSelectionView>)
    ensures
        sels_size(a + b) == sels_size(a) + sels_size(b),
    decreases a,
{
    if a.len() == 0 {
        assert(a + b =~= b);
    } else {
        assert((a + b).drop_first() =~= a.drop_first() + b);
        lemma_sels_size_concat(a.drop_first(), b);
    }
}

/// Dropping entries cannot grow the total size.
pub proof fn lemma_sels_size_remove_key(ss: Seq<ValidatedSelectionView>, k: Seq<char>)
    ensures
        sels_size(remove_key(ss, k)) <= sels_size(ss),
    decreases ss,
{
    if ss.len() > 0 {
        lemma_sels_size_remove_key(ss.drop_first(), k);
        if spec_response_key(ss[0]) != k {
            lemma_sels_size_concat(seq![ss[0]], remove_key(ss.drop_first(), k));
            lemma_sels_size_singleton(ss[0]);
        }
    }
}

/// The nested selections gathered from one key's duplicates are strictly
/// inside those duplicates, so they amount to less than the whole.
pub proof fn lemma_sels_size_concat_nested(ss: Seq<ValidatedSelectionView>, k: Seq<char>)
    ensures
        sels_size(concat_nested(same_key_entries(ss, k))) <= sels_size(ss),
    decreases ss,
{
    if ss.len() > 0 {
        lemma_sels_size_concat_nested(ss.drop_first(), k);
        if spec_response_key(ss[0]) == k {
            let gathered = same_key_entries(ss, k);
            let rest_gathered = concat_nested(same_key_entries(ss.drop_first(), k));
            assert(gathered =~= seq![ss[0]] + same_key_entries(ss.drop_first(), k));
            assert(gathered.drop_first() =~= same_key_entries(ss.drop_first(), k));
            assert(gathered[0] == ss[0]);
            match ss[0] {
                ValidatedSelectionView::LinkedField { selections, .. } => {
                    assert(concat_nested(gathered) == selections + rest_gathered);
                    lemma_sels_size_concat(selections, rest_gathered);
                    assert(sel_size(ss[0]) == 1 + sels_size(selections));
                },
                ValidatedSelectionView::ScalarField { .. } => {
                    assert(concat_nested(gathered) == Seq::<ValidatedSelectionView>::empty()
                        + rest_gathered);
                    assert(Seq::<ValidatedSelectionView>::empty() + rest_gathered
                        =~= rest_gathered);
                },
            }
        }
    }
}

// ---------------------------------------------------------------------------
// Idempotence
// ---------------------------------------------------------------------------

/// A selection is in merged form: it does not read a resolver, and a linked
/// selection's nested set is itself merged.
pub open spec fn is_merged_sel(s: ValidatedSelectionView) -> bool
    decreases s,
{
    match s {
        ValidatedSelectionView::ScalarField { field, .. } => field != ValidatedFieldRef::Resolver,
        ValidatedSelectionView::LinkedField { selections, .. } => is_merged_seq(selections),
    }
}

/// A selection set is in merged form: every entry is, and no two entries
/// share a response key.
pub open spec fn is_merged_seq(ss: Seq<ValidatedSelectionView>) -> bool
    decreases ss,
{
    if ss.len() == 0 {
        true
    } else {
        &&& is_merged_sel(ss[0])
        &&& !has_key(ss.drop_first(), spec_response_key(ss[0]))
        &&& is_merged_seq(ss.drop_first())
    }
}

/// An absent key means nothing is removed and nothing is gathered.
pub proof fn lemma_remove_key_absent(ss: Seq<ValidatedSelectionView>, k: Seq<char>)
    requires
        !has_key(ss, k),
    ensures
        remove_key(ss, k) == ss,
        same_key_entries(ss, k) == Seq::<ValidatedSelectionView>::empty(),
    decreases ss,
{
    if ss.len() == 0 {
        assert(remove_key(ss, k) =~= ss);
    } else {
        lemma_remove_key_absent(ss.drop_first(), k);
        assert(remove_key(ss, k) =~= seq![ss[0]] + ss.drop_first());
        assert(seq![ss[0]] + ss.drop_first() =~= ss);
    }
}

/// Removing one key removes every entry with that key.
pub proof fn lemma_remove_key_removes(ss: Seq<ValidatedSelectionView>, k: Seq<char>)
    ensures
        !has_key(remove_key(ss, k), k),
    decreases ss,
{
    if ss.len() > 0 {
        lemma_remove_key_removes(ss.drop_first(), k);
        if spec_response_key(ss[0]) != k {
            let r = seq![ss[0]] + remove_key(ss.drop_first(), k);
            assert(r[0] == ss[0]);
            assert(r.drop_first() =~= remove_key(ss.drop_first(), k));
        }
    }
}

/// Removing a key keeps no key that was absent.
pub proof fn lemma_remove_key_subset(ss: Seq<ValidatedSelectionView>, k0: Seq<char>, k: Seq<char>)
    ensures
        has_key(remove_key(ss, k0), k) ==> has_key(ss, k),
    decreases ss,
{
    if ss.len() > 0 {
        lemma_remove_key_subset(ss.drop_first(), k0, k);
        if spec_response_key(ss[0]) != k0 {
            let r = seq![ss[0]] + remove_key(ss.drop_first(), k0);
            assert(r[0] == ss[0]);
            assert(r.drop_first() =~= remove_key(ss.drop_first(), k0));
        }
    }
}

/// Every response key of a merged output is a response key of the input.
pub proof fn lemma_merge_keys(ss: Seq<ValidatedSelectionView>, k: Seq<char>)
    ensures
        spec_merge(ss) matches Ok(m) && has_key(m, k) ==> has_key(ss, k),
    decreases sels_size(ss),
{
    lemma_merge_size_facts(ss);
    if ss.len() > 0 && spec_merge(ss) is Ok {
        let first = ss[0];
        let rest = ss.drop_first();
        if is_resolver_scalar(first) {
            lemma_merge_keys(rest, k);
        } else {
            let k0 = spec_response_key(first);
            let others = remove_key(rest, k0);
            lemma_merge_keys(others, k);
            lemma_remove_key_subset(rest, k0, k);
            let m = spec_merge(ss)->Ok_0;
            let tail = spec_merge(others)->Ok_0;
            assert(m.drop_first() =~= tail);
            assert(spec_response_key(m[0]) == k0);
        }
    }
}

/// The output of a successful merge is in merged form.
pub proof fn lemma_merge_output_merged(ss: Seq<ValidatedSelectionView>)
    ensures
        spec_merge(ss) matches Ok(m) ==> is_merged_seq(m),
    decreases sels_size(ss),
{
    lemma_merge_size_facts(ss);
    if ss.len() > 0 && spec_merge(ss) is Ok {
        let first = ss[0];
        let rest = ss.drop_first();
        if is_resolver_scalar(first) {
            lemma_merge_output_merged(rest);
        } else {
            let k0 = spec_response_key(first);
            let others = remove_key(rest, k0);
            let dups = same_key_entries(rest, k0);
            lemma_merge_output_merged(others);
            let m = spec_merge(ss)->Ok_0;
            let tail = spec_merge(others)->Ok_0;
            assert(m.drop_first() =~= tail);
            lemma_merge_keys(others, k0);
            lemma_remove_key_removes(rest, k0);
            assert(!has_key(tail, k0));
            match first {
                ValidatedSelectionView::ScalarField { .. } => {
                    assert(m[0] == first);
                    assert(spec_response_key(m[0]) == k0);
                    assert(is_merged_sel(m[0]));
                },
                ValidatedSelectionView::LinkedField { selections, .. } => {
                    lemma_merge_output_merged(selections + concat_nested(dups));
                    let nested = spec_merge(selections + concat_nested(dups))->Ok_0;
                    assert(m[0] matches ValidatedSelectionView::LinkedField {
                        selections: s2,
                        ..
                    } && s2 == nested);
                    assert(spec_response_key(m[0]) == k0);
                    assert(is_merged_sel(m[0]));
                },
            }
            assert(is_merged_seq(m));
        }
    }
}

/// Merging a selection set already in merged form returns it unchanged.
pub proof fn lemma_merge_of_merged(ss: Seq<ValidatedSelectionView>)
    requires
        is_merged_seq(ss),
    ensures
        spec_merge(ss) == Ok::<_, MergeErrorView>(ss),
    decreases sels_size(ss),
{
    lemma_merge_size_facts(ss);
    if ss.len() == 0 {
        assert(ss =~= Seq::<ValidatedSelectionView>::empty());
    } else {
        let first = ss[0];
        let rest = ss.drop_first();
        let k0 = spec_response_key(first);
        assert(is_merged_sel(first) && !has_key(rest, k0) && is_merged_seq(rest));
        lemma_remove_key_absent(rest, k0);
        lemma_merge_of_merged(rest);
        assert(first_conflict(first, same_key_entries(rest, k0)) is None);
        match first {
            ValidatedSelectionView::ScalarField { field, .. } => {
                assert(field != ValidatedFieldRef::Resolver);
                assert(!is_resolver_scalar(first));
                assert(seq![first] + rest =~= ss);
            },
            ValidatedSelectionView::LinkedField {
                name,
                alias,
                arguments,
                object_id,
                selections,
            } => {
                assert(!is_resolver_scalar(first));
                assert(is_merged_seq(selections));
                assert(selections + concat_nested(same_key_entries(rest, k0)) =~= selections);
                lemma_merge_of_merged(selections);
                assert(ValidatedSelectionView::LinkedField {
                    name,
                    alias,
                    arguments,
                    object_id,
                    selections: spec_merge(selections)->Ok_0,
                } == first);
                assert(seq![first] + rest =~= ss);
            },
        }
    }
}

/// Every scalar handle carried by a selection (at any depth) is below
/// `scalars_len`.
pub open spec fn sels_scalar_refs_bounded(
    scalars_len: int,
    ss: Seq<ValidatedSelectionView>,
) -> bool
    decreases ss,
{
    if ss.len() == 0 {
        true
    } else {
        (match ss[0] {
            ValidatedSelectionView::ScalarField { field, .. } => match field {
                ValidatedFieldRef::Server(sid) => sid < scalars_len,
                ValidatedFieldRef::Resolver => true,
            },
            ValidatedSelectionView::LinkedField { selections, .. } => sels_scalar_refs_bounded(
                scalars_len,
                selections,
            ),
        }) && sels_scalar_refs_bounded(scalars_len, ss.drop_first())
    }
}

pub proof fn lemma_refs_bounded_concat(
    scalars_len: int,
    a: Seq<ValidatedSelectionView>,
    b: Seq<ValidatedSelectionView>,
)
    requires
        sels_scalar_refs_bounded(scalars_len, a),
        sels_scalar_refs_bounded(scalars_len, b),
    ensures
        sels_scalar_refs_bounded(scalars_len, a + b),
    decreases a,
{
    if a.len() == 0 {
        assert(a + b =~= b);
    } else {
        lemma_refs_bounded_concat(scalars_len, a.drop_first(), b);
        assert((a + b)[0] == a[0]);
        assert((a + b).drop_first() =~= a.drop_first() + b);
    }
}

pub proof fn lemma_refs_bounded_partition(
    scalars_len: int,
    ss: Seq<ValidatedSelectionView>,
    k: Seq<char>,
)
    requires
        sels_scalar_refs_bounded(scalars_len, ss),
    ensures
        sels_scalar_refs_bounded(scalars_len, remove_key(ss, k)),
        sels_scalar_refs_bounded(scalars_len, concat_nested(same_key_entries(ss, k))),
    decreases ss,
{
    if ss.len() > 0 {
        lemma_refs_bounded_partition(scalars_len, ss.drop_first(), k);
        if spec_response_key(ss[0]) == k {
            let gathered = same_key_entries(ss, k);
            assert(gathered =~= seq![ss[0]] + same_key_entries(ss.drop_first(), k));
            assert(gathered[0] == ss[0]);
            assert(gathered.drop_first() =~= same_key_entries(ss.drop_first(), k));
            match ss[0] {
                ValidatedSelectionView::LinkedField { selections, .. } => {
                    lemma_refs_bounded_concat(
                        scalars_len,
                        selections,
                        concat_nested(same_key_entries(ss.drop_first(), k)),
                    );
                },
                ValidatedSelectionView::ScalarField { .. } => {
                    assert(Seq::<ValidatedSelectionView>::empty() + concat_nested(
                        same_key_entries(ss.drop_first(), k),
                    ) =~= concat_nested(same_key_entries(ss.drop_first(), k)));
                },
            }
        } else {
            let r = seq![ss[0]] + remove_key(ss.drop_first(), k);
            assert(r[0] == ss[0]);
            assert(r.drop_first() =~= remove_key(ss.drop_first(), k));
        }
    }
}

/// Splitting one key off a selection set accounts for all of its size: the
/// gathered nested selections and the remaining entries together amount to at
/// most the whole.
pub proof fn lemma_sels_size_partition(ss: Seq<ValidatedSelectionView>, k: Seq<char>)
    ensures
        sels_size(concat_nested(same_key_entries(ss, k))) + sels_size(remove_key(ss, k))
            <= sels_size(ss),
    decreases ss,
{
    if ss.len() > 0 {
        lemma_sels_size_partition(ss.drop_first(), k);
        assert(sels_size(ss) == sel_size(ss[0]) + sels_size(ss.drop_first()));
        if spec_response_key(ss[0]) == k {
            let gathered = same_key_entries(ss, k);
            assert(gathered =~= seq![ss[0]] + same_key_entries(ss.drop_first(), k));
            assert(gathered[0] == ss[0]);
            assert(gathered.drop_first() =~= same_key_entries(ss.drop_first(), k));
            let rest_gathered = concat_nested(same_key_entries(ss.drop_first(), k));
            match ss[0] {
                ValidatedSelectionView::LinkedField { selections, .. } => {
                    lemma_sels_size_concat(selections, rest_gathered);
                    assert(sel_size(ss[0]) == 1 + sels_size(selections));
                    assert(concat_nested(gathered) == selections + rest_gathered);
                },
                ValidatedSelectionView::ScalarField { .. } => {
                    assert(Seq::<ValidatedSelectionView>::empty() + rest_gathered
                        =~= rest_gathered);
                    assert(sel_size(ss[0]) == 1);
                    assert(concat_nested(gathered) == Seq::<ValidatedSelectionView>::empty()
                        + rest_gathered);
                },
            }
            assert(remove_key(ss, k) == remove_key(ss.drop_first(), k));
        } else {
            let r = seq![ss[0]] + remove_key(ss.drop_first(), k);
            assert(r[0] == ss[0]);
            assert(r.drop_first() =~= remove_key(ss.drop_first(), k));
            lemma_sels_size_singleton(ss[0]);
            lemma_sels_size_concat(seq![ss[0]], remove_key(ss.drop_first(), k));
            assert(same_key_entries(ss, k) == same_key_entries(ss.drop_first(), k));
        }
    }
}

/// Merging keeps every scalar handle in range and never grows the total
/// size.
pub proof fn lemma_merge_bounds(scalars_len: int, ss: Seq<ValidatedSelectionView>)
    requires
        sels_scalar_refs_bounded(scalars_len, ss),
    ensures
        spec_merge(ss) matches Ok(m) ==> sels_scalar_refs_bounded(scalars_len, m) && sels_size(m)
            <= sels_size(ss),
    decreases sels_size(ss),
{
    lemma_merge_size_facts(ss);
    if ss.len() > 0 && spec_merge(ss) is Ok {
        let first = ss[0];
        let rest = ss.drop_first();
        if is_resolver_scalar(first) {
            lemma_merge_bounds(scalars_len, rest);
        } else {
            let k0 = spec_response_key(first);
            let others = remove_key(rest, k0);
            let dups = same_key_entries(rest, k0);
            lemma_refs_bounded_partition(scalars_len, rest, k0);
            lemma_merge_bounds(scalars_len, others);
            lemma_sels_size_remove_key(rest, k0);
            lemma_sels_size_concat_nested(rest, k0);
            lemma_sels_size_partition(rest, k0);
            let m = spec_merge(ss)->Ok_0;
            let tail = spec_merge(others)->Ok_0;
            assert(m.drop_first() =~= tail);
            assert(sels_size(ss) == sel_size(first) + sels_size(rest));
            match first {
                ValidatedSelectionView::ScalarField { .. } => {
                    assert(m[0] == first);
                    lemma_sels_size_singleton(first);
                    lemma_sels_size_concat(seq![first], tail);
                    assert(m =~= seq![first] + tail);
                    assert(sels_size(m) == sel_size(first) + sels_size(tail));
                    assert(sel_size(first) == 1);
                    assert(sels_size(m) <= sels_size(ss));
                    assert(sels_scalar_refs_bounded(scalars_len, m));
                },
                ValidatedSelectionView::LinkedField { selections, .. } => {
                    lemma_refs_bounded_concat(scalars_len, selections, concat_nested(dups));
                    lemma_merge_bounds(scalars_len, selections + concat_nested(dups));
                    lemma_sels_size_concat(selections, concat_nested(dups));
                    let nested = spec_merge(selections + concat_nested(dups))->Ok_0;
                    assert(m[0] matches ValidatedSelectionView::LinkedField {
                        selections: s2,
                        ..
                    } && s2 == nested);
                    lemma_sels_size_singleton(m[0]);
                    lemma_sels_size_concat(seq![m[0]], tail);
                    assert(m =~= seq![m[0]] + tail);
                    assert(sels_size(m) == sel_size(m[0]) + sels_size(tail));
                    assert(sel_size(m[0]) == 1 + sels_size(nested));
                    assert(sel_size(first) == 1 + sels_size(selections));
                    assert(sels_size(nested) <= sels_size(selections) + sels_size(
                        concat_nested(dups),
                    ));
                    assert(sels_size(m) <= sels_size(ss));
                    assert(sels_scalar_refs_bounded(scalars_len, nested));
                    assert(sels_scalar_refs_bounded(scalars_len, m));
                },
            }
        }
    }
}

/// Merge idempotence: merging the output of a successful merge yields that
/// output again, for any selection set.
pub proof fn lemma_merge_idempotent(ss: Seq<ValidatedSelectionView>)
    ensures
        spec_merge(ss) matches Ok(m) ==> spec_merge(m) == Ok::<_, MergeErrorView>(m),
{
    if spec_merge(ss) is Ok {
        lemma_merge_output_merged(ss);
        lemma_merge_of_merged(spec_merge(ss)->Ok_0);
    }
}

// ---------------------------------------------------------------------------
// Executable code
// ---------------------------------------------------------------------------

/// Whether two argument lists are the same arguments in the same order.
fn arguments_equal(
    a: &Vec<crate::selection_types::SelectionFieldArgument>,
    b: &Vec<crate::selection_types::SelectionFieldArgument>,
) -> (r: bool)
    ensures
        r == (a.deep_view() == b.deep_view()),
{
    if a.len() != b.len() {
        proof {
            assert(a.deep_view().len() != b.deep_view().len());
        }
        return false;
    }
    let mut i: usize = 0;
    while i < a.len()
        invariant
            i <= a@.len(),
            a@.len() == b@.len(),
            forall|j: int| 0 <= j < i ==> a.deep_view()[j] == b.deep_view()[j],
        decreases a@.len() - i,
    {
        proof {
            assert(a.deep_view()[i as int] == a@[i as int].deep_view());
            assert(b.deep_view()[i as int] == b@[i as int].deep_view());
        }
        let same = match (&a[i].value, &b[i].value) {
            (
                crate::selection_types::NonConstantValue::Variable(v1),
                crate::selection_types::NonConstantValue::Variable(v2),
            ) => a[i].name.eq(&b[i].name) && v1.eq(v2),
        };
        if !same {
            proof {
                assert(a.deep_view()[i as int] != b.deep_view()[i as int]);
            }
            return false;
        }
        proof {
            assert(a.deep_view()[i as int] =~~= b.deep_view()[i as int]);
        }
        i = i + 1;
    }
    proof {
        assert(a.deep_view() =~= b.deep_view());
    }
    true
}

/// Whether two optional aliases agree.
fn alias_equal(a: &Option<String>, b: &Option<String>) -> (r: bool)
    ensures
        r == (a.deep_view() == b.deep_view()),
{
    match (a, b) {
        (Some(x), Some(y)) => x.eq(y),
        (None, None) => true,
        _ => false,
    }
}

/// Checks whether `other` can be combined with `first`, which shares its
/// response key, and names the conflict when it cannot.
fn check_combine(
    first: &ValidatedSelection,
    other: &ValidatedSelection,
    key: &String,
) -> (r: Option<MergeError>)
    requires
        key@ == spec_response_key(first.deep_view()),
    ensures
        match r {
            Some(e) => combine_conflict(first.deep_view(), other.deep_view()) == Some(
                e.deep_view(),
            ),
            None => combine_conflict(first.deep_view(), other.deep_view()) is None,
        },
{
    match (first, other) {
        (ValidatedSelection::ScalarField(f1), ValidatedSelection::ScalarField(f2)) => {
            if !(f1.name.eq(&f2.name) && alias_equal(&f1.alias, &f2.alias) && f1.field
                == f2.field) {
                Some(MergeError::ConflictingFields { response_key: key.clone() })
            } else if !arguments_equal(&f1.arguments, &f2.arguments) {
                Some(MergeError::ConflictingArguments { response_key: key.clone() })
            } else {
                None
            }
        },
        (ValidatedSelection::LinkedField(f1), ValidatedSelection::LinkedField(f2)) => {
            if !(f1.name.eq(&f2.name) && alias_equal(&f1.alias, &f2.alias) && f1.object_id
                == f2.object_id) {
                Some(MergeError::ConflictingFields { response_key: key.clone() })
            } else if !arguments_equal(&f1.arguments, &f2.arguments) {
                Some(MergeError::ConflictingArguments { response_key: key.clone() })
            } else {
                None
            }
        },
        _ => Some(MergeError::ConflictingSelectionKinds { response_key: key.clone() }),
    }
}

/// Merges a selection set: drops resolver-field selections, keeps the first
/// entry of each response key, and recursively merges the nested sets of
/// linked entries sharing a key.
#[verifier::loop_isolation(false)]
pub fn merge_selections(sels: Vec<ValidatedSelection>) -> (r: Result<
    Vec<ValidatedSelection>,
    MergeError,
>)
    ensures
        match r {
            Ok(m) => spec_merge(sels.deep_view()) == Ok::<_, MergeErrorView>(m.deep_view()),
            Err(e) => spec_merge(sels.deep_view()) == Err::<Seq<ValidatedSelectionView>, _>(
                e.deep_view(),
            ),
        },
    decreases sels_size(sels.deep_view()),
{
    let ghost all = sels.deep_view();
    proof {
        lemma_merge_size_facts(all);
    }
    if sels.len() == 0 {
        let out: Vec<ValidatedSelection> = Vec::new();
        proof {
            assert(out.deep_view() =~= Seq::<ValidatedSelectionView>::empty());
        }
        return Ok(out);
    }
    let mut rest = sels;
    let first = rest.remove(0);
    proof {
        assert(first.deep_view() == all[0]);
        assert(rest.deep_view() =~= all.drop_first());
    }
    let skip = match &first {
        ValidatedSelection::ScalarField(f) => matches!(f.field, ValidatedFieldRef::Resolver),
        ValidatedSelection::LinkedField(_) => false,
    };
    if skip {
        return merge_selections(rest);
    }
    let key = response_key(&first).clone();
    let ghost k = key@;
    let ghost rest_all = rest.deep_view();

    let mut others: Vec<ValidatedSelection> = Vec::new();
    let mut gathered_nested: Vec<ValidatedSelection> = Vec::new();
    proof {
        assert(others.deep_view() =~= Seq::<ValidatedSelectionView>::empty());
        assert(gathered_nested.deep_view() =~= Seq::<ValidatedSelectionView>::empty());
        assert(rest_all.subrange(0, rest_all.len() as int) =~= rest_all);
    }
    let ghost mut done: int = 0;
    while rest.len() > 0
        invariant
            0 <= done,
            done + rest@.len() == rest_all.len(),
            rest.deep_view() =~= rest_all.subrange(done, rest_all.len() as int),
            remove_key(rest_all, k) =~= others.deep_view() + remove_key(
                rest_all.subrange(done, rest_all.len() as int),
                k,
            ),
            concat_nested(same_key_entries(rest_all, k)) =~= gathered_nested.deep_view()
                + concat_nested(same_key_entries(rest_all.subrange(done, rest_all.len() as int), k)),
            first_conflict(first.deep_view(), same_key_entries(rest_all, k)) == first_conflict(
                first.deep_view(),
                same_key_entries(rest_all.subrange(done, rest_all.len() as int), k),
            ),
        decreases rest@.len(),
    {
        let ghost suffix = rest_all.subrange(done, rest_all.len() as int);
        proof {
            assert(suffix[0] == rest_all[done]);
            assert(suffix.drop_first() =~= rest_all.subrange(done + 1, rest_all.len() as int));
        }
        let entry = rest.remove(0);
        proof {
            assert(entry.deep_view() == rest_all[done]);
            assert(rest.deep_view() =~= rest_all.subrange(done + 1, rest_all.len() as int));
        }
        if response_key(&entry).eq(&key) {
            proof {
                let skn = same_key_entries(suffix, k);
                assert(skn == seq![suffix[0]] + same_key_entries(suffix.drop_first(), k));
                assert(skn[0] == suffix[0]);
                assert(skn.drop_first() =~= same_key_entries(suffix.drop_first(), k));
            }
            match check_combine(&first, &entry, &key) {
                Some(e) => {
                    return Err(e);
                },
                None => {},
            }
            match entry {
                ValidatedSelection::LinkedField(lf) => {
                    let mut nested = lf.selections;
                    let ghost gpre = gathered_nested.deep_view();
                    let ghost ndv = nested.deep_view();
                    proof {
                        crate::selection_types::lemma_validated_selections_view(
                            lf.selections@,
                        );
                    }
                    gathered_nested.append(&mut nested);
                    proof {
                        assert(gathered_nested.deep_view() =~= gpre + ndv);
                        assert(entry.deep_view() matches ValidatedSelectionView::LinkedField {
                            selections: s2,
                            ..
                        } && s2 == ndv);
                    }
                },
                ValidatedSelection::ScalarField(_) => {
                    proof {
                        assert(gathered_nested.deep_view() =~= gathered_nested.deep_view()
                            + Seq::<ValidatedSelectionView>::empty());
                    }
                },
            }
        } else {
            let ghost opre = others.deep_view();
            others.push(entry);
            proof {
                assert(others.deep_view() =~= opre.push(rest_all[done]));
                assert(opre.push(rest_all[done]) =~= opre + seq![rest_all[done]]);
            }
        }
        proof {
            done = done + 1;
        }
    }
    proof {
        assert(rest_all.subrange(done, rest_all.len() as int).len() == 0);
        assert(others.deep_view() + Seq::<ValidatedSelectionView>::empty() =~= others.deep_view());
        assert(gathered_nested.deep_view() + Seq::<ValidatedSelectionView>::empty()
            =~= gathered_nested.deep_view());
        assert(others.deep_view() =~= remove_key(rest_all, k));
        assert(gathered_nested.deep_view() =~= concat_nested(same_key_entries(rest_all, k)));
        lemma_sels_size_remove_key(rest_all, k);
        lemma_sels_size_concat_nested(rest_all, k);
    }

    match first {
        ValidatedSelection::ScalarField(f) => {
            let tail = match merge_selections(others) {
                Err(e) => {
                    return Err(e);
                },
                Ok(t) => t,
            };
            let mut out: Vec<ValidatedSelection> = Vec::new();
            let ghost fdv = ValidatedSelection::ScalarField(f).deep_view();
            let ghost tdv = tail.deep_view();
            out.push(ValidatedSelection::ScalarField(f));
            let mut tail = tail;
            out.append(&mut tail);
            proof {
                assert(out.deep_view() =~= seq![fdv] + tdv);
            }
            Ok(out)
        },
        ValidatedSelection::LinkedField(lf) => {
            let ValidatedLinkedFieldSelection { name, alias, arguments, object_id, selections } =
                lf;
            let ghost own_nested = selections.deep_view();
            proof {
                crate::selection_types::lemma_validated_selections_view(selections@);
                lemma_sels_size_concat(own_nested, gathered_nested.deep_view());
            }
            let mut nested_all = selections;
            nested_all.append(&mut gathered_nested);
            proof {
                assert(nested_all.deep_view() =~= own_nested + concat_nested(
                    same_key_entries(rest_all, k),
                ));
                assert(all[0] matches ValidatedSelectionView::LinkedField {
                    selections: s0,
                    ..
                } && s0 =~= own_nested);
                assert(sel_size(all[0]) == 1 + sels_size(own_nested));
                assert(sels_size(all) == sel_size(all[0]) + sels_size(rest_all));
                assert(sels_size(nested_all.deep_view()) < sels_size(all));
            }
            let merged_nested = match merge_selections(nested_all) {
                Err(e) => {
                    return Err(e);
                },
                Ok(n) => n,
            };
            let tail = match merge_selections(others) {
                Err(e) => {
                    return Err(e);
                },
                Ok(t) => t,
            };
            let merged_first = ValidatedSelection::LinkedField(
                ValidatedLinkedFieldSelection {
                    name,
                    alias,
                    arguments,
                    object_id,
                    selections: merged_nested,
                },
            );
            proof {
                match &merged_first {
                    ValidatedSelection::LinkedField(x) => {
                        crate::selection_types::lemma_validated_selections_view(x.selections@);
                        assert(x.selections.deep_view() =~= validated_selections_view(
                            x.selections@,
                        ));
                    },
                    ValidatedSelection::ScalarField(_) => {},
                }
            }
            let ghost fdv = merged_first.deep_view();
            let mut out: Vec<ValidatedSelection> = Vec::new();
            let ghost tdv = tail.deep_view();
            out.push(merged_first);
            let mut tail = tail;
            out.append(&mut tail);
            proof {
                assert(out.deep_view() =~= seq![fdv] + tdv);
            }
            Ok(out)
        },
    }
}

/// Merges a declared selection set into the form used for query-text
/// generation: one entry per response key, in first-occurrence order.
pub fn merge_selection_set(selection_set: Vec<ValidatedSelection>) -> (r: Result<
    MergedSelectionSet,
    MergeError,
>)
    ensures
        match r {
            Ok(m) => spec_merge(selection_set.deep_view()) == Ok::<_, MergeErrorView>(
                m.0.deep_view(),
            ),
            Err(e) => spec_merge(selection_set.deep_view()) == Err::<
                Seq<ValidatedSelectionView>,
                _,
            >(e.deep_view()),
        },
{
    match merge_selections(selection_set) {
        Ok(m) => Ok(MergedSelectionSet(m)),
        Err(e) => Err(e),
    }
}

} // verus!
