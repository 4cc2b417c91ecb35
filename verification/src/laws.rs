//! Laws of the store, stated over the models that its contracts use.

use crate::item::ProcessDefinition;
use crate::search::Criteria;
use crate::store::{admitted_by, named_in, not_named_in};
use crate::text::intersects;
use vstd::prelude::*;

verus! {

/// Filtering by a predicate that holds of every element keeps the sequence
/// as it is.
pub proof fn lemma_filter_keeps_all(
    defs: Seq<ProcessDefinition>,
    pred: spec_fn(ProcessDefinition) -> bool,
)
    requires
        forall|i: int| 0 <= i < defs.len() ==> pred(#[trigger] defs[i]),
    ensures
        defs.filter(pred) == defs,
    decreases defs.len(),
{
    reveal(Seq::filter);
    if defs.len() > 0 {
        lemma_filter_keeps_all(defs.drop_last(), pred);
        assert(defs.drop_last().push(defs.last()) =~= defs);
    }
}

/// Filtering by a predicate that holds of no element leaves nothing.
pub proof fn lemma_filter_drops_all(
    defs: Seq<ProcessDefinition>,
    pred: spec_fn(ProcessDefinition) -> bool,
)
    requires
        forall|i: int| 0 <= i < defs.len() ==> !pred(#[trigger] defs[i]),
    ensures
        defs.filter(pred) == Seq::<ProcessDefinition>::empty(),
    decreases defs.len(),
{
    reveal(Seq::filter);
    if defs.len() > 0 {
        lemma_filter_drops_all(defs.drop_last(), pred);
    }
}

/// Listing with no criteria returns every definition, in file order.
pub proof fn lemma_list_without_criteria(defs: Seq<ProcessDefinition>)
    ensures
        defs.filter(admitted_by(Criteria::none())) == defs,
{
    lemma_filter_keeps_all(defs, admitted_by(Criteria::none()));
}

/// Criteria on the name alone admit exactly the definitions whose name is
/// one of those given.
pub proof fn lemma_name_criterion(names: Seq<Seq<char>>, d: ProcessDefinition)
    ensures
        Criteria::by_name(names).admits(d) <==> names.contains(d.name),
{
}

/// Listing with a name criterion returns exactly the definitions whose name
/// is one of those given, in file order.
pub proof fn lemma_list_by_name(defs: Seq<ProcessDefinition>, names: Seq<Seq<char>>)
    ensures
        defs.filter(admitted_by(Criteria::by_name(names))) == defs.filter(named_in(names)),
        forall|i: int|
            0 <= i < defs.filter(named_in(names)).len() ==> names.contains(
                (#[trigger] defs.filter(named_in(names))[i]).name,
            ),
        forall|i: int|
            0 <= i < defs.len() && names.contains(defs[i].name) ==> defs.filter(
                named_in(names),
            ).contains(#[trigger] defs[i]),
{
    assert(admitted_by(Criteria::by_name(names)) =~= named_in(names));
    let found = defs.filter(named_in(names));
    assert forall|i: int| 0 <= i < found.len() implies names.contains(
        (#[trigger] found[i]).name,
    ) by {
        defs.lemma_filter_pred(named_in(names), i);
    }
    assert forall|i: int| 0 <= i < defs.len() && names.contains(defs[i].name) implies found.contains(
        #[trigger] defs[i],
    ) by {
        defs.lemma_filter_contains(named_in(names), i);
    }
}

/// The tag criterion asks for any overlap: criteria on the tags alone admit
/// exactly the definitions that bear at least one of the tags given.
pub proof fn lemma_tag_criterion(tags: Seq<Seq<char>>, d: ProcessDefinition)
    ensures
        Criteria::by_tags(tags).admits(d) <==> intersects(tags, d.tags),
        Criteria::by_tags(tags).admits(d) <==> exists|t: Seq<char>|
            tags.contains(t) && d.tags.contains(t),
{
    if intersects(tags, d.tags) {
        let (i, j) = choose|i: int, j: int|
            0 <= i < tags.len() && 0 <= j < d.tags.len() && tags[i] == d.tags[j];
        assert(tags.contains(tags[i]) && d.tags.contains(tags[i]));
    }
    if exists|t: Seq<char>| tags.contains(t) && d.tags.contains(t) {
        let t = choose|t: Seq<char>| tags.contains(t) && d.tags.contains(t);
        let i = choose|i: int| 0 <= i < tags.len() && tags[i] == t;
        let j = choose|j: int| 0 <= j < d.tags.len() && d.tags[j] == t;
        assert(0 <= i < tags.len() && 0 <= j < d.tags.len() && tags[i] == d.tags[j]);
    }
}

/// After a definition is added, listing with no criteria returns what it
/// returned before, followed by the new definition: the new entry comes
/// once, and last.
pub proof fn lemma_add_then_list(defs: Seq<ProcessDefinition>, added: ProcessDefinition)
    ensures
        defs.push(added).filter(admitted_by(Criteria::none())) == defs.filter(
            admitted_by(Criteria::none()),
        ).push(added),
        defs.push(added).filter(admitted_by(Criteria::none())).len() == defs.len() + 1,
        defs.push(added).filter(admitted_by(Criteria::none())).last() == added,
{
    lemma_list_without_criteria(defs);
    lemma_list_without_criteria(defs.push(added));
}

/// After a definition is added, a listing returns what it returned before,
/// followed by the new definition if it meets the criteria.
pub proof fn lemma_add_then_list_filtered(
    defs: Seq<ProcessDefinition>,
    added: ProcessDefinition,
    c: Criteria,
)
    ensures
        defs.push(added).filter(admitted_by(c)) == if c.admits(added) {
            defs.filter(admitted_by(c)).push(added)
        } else {
            defs.filter(admitted_by(c))
        },
{
    reveal(Seq::filter);
    assert(defs.push(added).drop_last() =~= defs);
}

/// After the names are removed, no definition that is left bears one of
/// them, and a definition that bore none of them is still there.
pub proof fn lemma_remove_leaves_others(defs: Seq<ProcessDefinition>, names: Seq<Seq<char>>)
    ensures
        forall|i: int|
            0 <= i < defs.filter(not_named_in(names)).len() ==> !names.contains(
                (#[trigger] defs.filter(not_named_in(names))[i]).name,
            ),
        forall|i: int|
            0 <= i < defs.len() && !names.contains(defs[i].name) ==> defs.filter(
                not_named_in(names),
            ).contains(#[trigger] defs[i]),
        defs.filter(not_named_in(names)).filter(named_in(names)) == Seq::<
            ProcessDefinition,
        >::empty(),
{
    let left = defs.filter(not_named_in(names));
    assert forall|i: int| 0 <= i < left.len() implies !names.contains(
        (#[trigger] left[i]).name,
    ) by {
        defs.lemma_filter_pred(not_named_in(names), i);
    }
    assert forall|i: int| 0 <= i < defs.len() && !names.contains(defs[i].name) implies left.contains(
        #[trigger] defs[i],
    ) by {
        defs.lemma_filter_contains(not_named_in(names), i);
    }
    lemma_filter_drops_all(left, named_in(names));
}

/// Removing names that no definition bears changes nothing.
pub proof fn lemma_remove_absent(defs: Seq<ProcessDefinition>, names: Seq<Seq<char>>)
    requires
        forall|i: int| 0 <= i < defs.len() ==> !names.contains((#[trigger] defs[i]).name),
    ensures
        defs.filter(not_named_in(names)) == defs,
{
    lemma_filter_keeps_all(defs, not_named_in(names));
}

} // verus!
