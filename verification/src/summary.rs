//! Summarizing a parsed document: the first workflow name wins, then the
//! first task name, then a fixed marker.

use vstd::prelude::*;
use crate::model::{AstSpec, ItemKind, ItemSpec, TopItem, view_items};

verus! {

/// The name of the first item of the given kind, in source order, if any.
pub open spec fn first_name_of(items: Seq<ItemSpec>, kind: ItemKind) -> Option<Seq<char>>
    decreases items.len(),
{
    if items.len() == 0 {
        None
    } else if items.first().kind == kind {
        Some(items.first().name)
    } else {
        first_name_of(items.drop_first(), kind)
    }
}

/// The summary of an unsupported-version document.
pub open spec fn unsupported_text() -> Seq<char> {
    "<WdlDocument unsupported version>"@
}

/// The summary of a supported document with no workflow and no task.
pub open spec fn nameless_text() -> Seq<char> {
    "<WdlDocument parsed successfully>"@
}

/// The summary of a document whose first workflow bears the given name.
pub open spec fn workflow_text(name: Seq<char>) -> Seq<char> {
    "<WdlDocument workflow="@ + name + ">"@
}

/// The summary of a workflow-free document whose first task bears the given
/// name.
pub open spec fn task_text(name: Seq<char>) -> Seq<char> {
    "<WdlDocument task="@ + name + ">"@
}

/// The summary of a parsed document: the unsupported marker for an
/// unsupported version; otherwise the first workflow name, else the first
/// task name, else the nameless marker.
pub open spec fn describe_spec(ast: AstSpec) -> Seq<char> {
    match ast {
        AstSpec::Unsupported => unsupported_text(),
        AstSpec::V1 { items } => match first_name_of(items, ItemKind::Workflow) {
            Some(name) => workflow_text(name),
            None => match first_name_of(items, ItemKind::Task) {
                Some(name) => task_text(name),
                None => nameless_text(),
            },
        },
    }
}

/// `first_name_of` returns exactly the name of the first item of the given
/// kind: some name is found if and only if an item of that kind exists, and
/// the name found is that of an item of that kind preceded by no other.
pub proof fn lemma_first_name_of(items: Seq<ItemSpec>, kind: ItemKind)
    ensures
        (first_name_of(items, kind) is Some) <==> (exists|i: int|
            0 <= i < items.len() && #[trigger] items[i].kind == kind),
        first_name_of(items, kind) matches Some(name) ==> (exists|i: int|
            0 <= i < items.len() && items[i].kind == kind && items[i].name == name
                && (forall|j: int| 0 <= j < i ==> #[trigger] items[j].kind != kind)),
    decreases items.len(),
{
    if items.len() == 0 {
    } else if items.first().kind == kind {
        assert(items[0].kind == kind);
    } else {
        lemma_first_name_of(items.drop_first(), kind);
        let rest = items.drop_first();
        if first_name_of(items, kind) is Some {
            let name = first_name_of(items, kind)->Some_0;
            let i = choose|i: int|
                0 <= i < rest.len() && rest[i].kind == kind && rest[i].name == name && (forall|
                    j: int,
                |
                    0 <= j < i ==> #[trigger] rest[j].kind != kind);
            assert(items[i + 1] == rest[i]);
            assert(forall|j: int| 1 <= j < i + 1 ==> items[j] == rest[j - 1]);
        } else {
            assert(forall|i: int|
                0 <= i < items.len() ==> #[trigger] items[i].kind != kind) by {
                assert(forall|i: int| 1 <= i < items.len() ==> items[i] == rest[i - 1]);
            }
        }
        if exists|i: int| 0 <= i < items.len() && #[trigger] items[i].kind == kind {
            let i = choose|i: int| 0 <= i < items.len() && #[trigger] items[i].kind == kind;
            assert(rest[i - 1] == items[i]);
        }
    }
}

/// A workflow always wins: whenever any top-level workflow exists, the
/// summary is the workflow-shaped string for the first workflow's name,
/// however many tasks stand before or after it.
pub proof fn lemma_workflow_precedence(items: Seq<ItemSpec>)
    requires
        exists|i: int| 0 <= i < items.len() && #[trigger] items[i].kind == ItemKind::Workflow,
    ensures
        first_name_of(items, ItemKind::Workflow) matches Some(name) && describe_spec(
            AstSpec::V1 { items },
        ) == workflow_text(name),
{
    lemma_first_name_of(items, ItemKind::Workflow);
}

/// With no workflow at all but some task, the summary is the task-shaped
/// string for the first task's name.
pub proof fn lemma_task_fallback(items: Seq<ItemSpec>)
    requires
        forall|i: int| 0 <= i < items.len() ==> #[trigger] items[i].kind != ItemKind::Workflow,
        exists|i: int| 0 <= i < items.len() && #[trigger] items[i].kind == ItemKind::Task,
    ensures
        first_name_of(items, ItemKind::Task) matches Some(name) && describe_spec(
            AstSpec::V1 { items },
        ) == task_text(name),
{
    lemma_first_name_of(items, ItemKind::Workflow);
    lemma_first_name_of(items, ItemKind::Task);
}

/// An unsupported-version document always yields the unsupported marker,
/// whatever the document may otherwise hold.
pub proof fn lemma_unsupported_wins()
    ensures
        describe_spec(AstSpec::Unsupported) == unsupported_text(),
{
}

/// A supported document with no workflow and no task yields the nameless
/// marker.
pub proof fn lemma_nameless(items: Seq<ItemSpec>)
    requires
        forall|i: int|
            0 <= i < items.len() ==> #[trigger] items[i].kind != ItemKind::Workflow && items[
                i
            ].kind != ItemKind::Task,
    ensures
        describe_spec(AstSpec::V1 { items }) == nameless_text(),
{
    lemma_first_name_of(items, ItemKind::Workflow);
    lemma_first_name_of(items, ItemKind::Task);
}

/// Find the name of the first item of the given kind, scanning in order.
pub fn find_first_name(items: &Vec<TopItem>, kind: ItemKind) -> (r: Option<String>)
    ensures
        r matches Some(name) ==> first_name_of(view_items(items@), kind) == Some(name@),
        r is None ==> first_name_of(view_items(items@), kind) is None,
{
    let ghost all = view_items(items@);
    let mut idx: usize = 0;
    proof {
        assert(all.skip(0) =~= all);
    }
    while idx < items.len()
        invariant
            idx <= items.len(),
            all == view_items(items@),
            first_name_of(all, kind) == first_name_of(all.skip(idx as int), kind),
        decreases items.len() - idx,
    {
        proof {
            assert(all.skip(idx as int).first() == all[idx as int]);
        }
        if items[idx].kind == kind {
            return Some(items[idx].name.clone());
        }
        proof {
            assert(all.skip(idx as int).drop_first() =~= all.skip(idx + 1));
        }
        idx += 1;
    }
    proof {
        assert(all.skip(items@.len() as int) =~= Seq::<ItemSpec>::empty());
    }
    None
}

} // verus!
