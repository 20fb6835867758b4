//! The stash list: the generic engine instantiated for stashes, and the
//! completions of its background operations. A finished apply or drop
//! refetches the list; a finished pop refetches and filters the popped value
//! out; a bulk delete removes exactly the staged stashes whose drop
//! succeeded; a failed operation reports its error with the items untouched.
//! Every completion leaves the loading marker cleared.

use vstd::prelude::*;

use crate::action::Action;
use crate::error::error_text;
use crate::error::Error;
use crate::generic_list::clamp_index;
use crate::generic_list::drop_marked;
use crate::generic_list::first_marked;
use crate::generic_list::wrap_items;
use crate::generic_list::GenericListComponent;
use crate::generic_list::LoadingOperation;
use crate::generic_list::SharedListState;
use crate::git_types::GitStash;
use crate::git_types::GitStashV;
use crate::list_traits::ListItemWrapper;
use crate::stash_action_handler::StashActionHandler;
use crate::stash_input_handler::StashInputHandler;
use crate::stash_item::StashItem;
use crate::strutil::str_eq;
use crate::strutil::text_in_list;
use crate::strutil::text_listed;

verus! {

/// The stash list component: the generic engine with the stash handlers.
pub type StashList = GenericListComponent<
    StashItem,
    GitStash,
    StashActionHandler,
    StashInputHandler,
>;

/// Reports a failed background operation: the items are untouched, the
/// loading marker is cleared, and the error plus a redraw are queued.
pub fn fail_operation<W>(state: &mut SharedListState<W>, e: &Error) -> (actions: Vec<Action>)
    ensures
        final(state).items@ == old(state).items@,
        final(state).selected_index == old(state).selected_index,
        final(state).loading is Idle,
        actions@.len() == 2,
        actions@[0] matches Action::Error(m) && m@ == error_text(*e),
        actions@[1] == Action::Render,
{
    state.set_loading(LoadingOperation::Idle);
    let mut actions: Vec<Action> = Vec::new();
    actions.push(Action::Error(e.message()));
    actions.push(Action::Render);
    actions
}

/// Which wrappers a finished bulk delete removes: staged and identified among
/// the successfully dropped stash ids.
pub open spec fn stash_bulk_mask(items: Seq<StashItem>, dropped_ids: Seq<String>) -> Seq<bool> {
    Seq::new(
        items.len(),
        |i: int|
            items[i].staged_for_deletion && text_listed(dropped_ids, items[i].stash.stash_id@),
    )
}

/// Applies a finished bulk delete, given the stash ids whose drop succeeded:
/// exactly the staged items among them leave the list, so stashes whose drop
/// failed remain present and still staged. The selection moves to the first
/// removed position, forced into bounds; with no removal the items are
/// untouched. The loading marker is cleared.
pub fn complete_bulk_delete_stashes(
    state: &mut SharedListState<StashItem>,
    dropped_ids: &Vec<String>,
) -> (actions: Vec<Action>)
    requires
        old(state).inv(),
    ensures
        final(state).inv(),
        final(state).loading is Idle,
        ({
            let mask = stash_bulk_mask(old(state).items@, dropped_ids@);
            &&& ((exists|i: int| 0 <= i < mask.len() && mask[i]) ==> final(state).items@
                == drop_marked(old(state).items@, mask) && final(state).selected_index as int
                == clamp_index(
                first_marked(mask),
                drop_marked(old(state).items@, mask).len() as int,
            ))
            &&& (!(exists|i: int| 0 <= i < mask.len() && mask[i]) ==> final(state).items@ == old(state).items@ && final(state).selected_index == old(state).selected_index)
        }),
        actions@.len() == 1,
        actions@[0] == Action::Render,
{
    let n = state.items.len();
    let mut mask: Vec<bool> = Vec::new();
    let mut i: usize = 0;
    while i < n
        invariant
            n == state.items@.len(),
            0 <= i <= n,
            mask@.len() == i,
            forall|j: int|
                0 <= j < i ==> #[trigger] mask@[j] == (state.items@[j].staged_for_deletion
                    && text_listed(dropped_ids@, state.items@[j].stash.stash_id@)),
        decreases n - i,
    {
        let item = vstd::std_specs::vec::vec_index(&state.items, i);
        let listed = text_in_list(dropped_ids, item.stash.stash_id.as_str());
        mask.push(item.staged_for_deletion && listed);
        i = i + 1;
    }
    proof {
        assert(mask@ =~= stash_bulk_mask(state.items@, dropped_ids@));
    }
    state.complete_bulk_delete(&mask);
    state.set_loading(LoadingOperation::Idle);
    let mut actions: Vec<Action> = Vec::new();
    actions.push(Action::Render);
    actions
}

/// The list without every stash whose value equals `v`, in order.
pub open spec fn without_stash(list: Seq<GitStash>, v: GitStashV) -> Seq<GitStash>
    decreases list.len(),
{
    if list.len() == 0 {
        Seq::empty()
    } else {
        let rest = without_stash(list.drop_first(), v);
        if list[0]@ == v {
            rest
        } else {
            seq![list[0]] + rest
        }
    }
}

/// Nothing in the reduced list carries the removed value.
pub proof fn lemma_without_stash_excludes(list: Seq<GitStash>, v: GitStashV)
    ensures
        forall|i: int|
            0 <= i < without_stash(list, v).len() ==> (#[trigger] without_stash(list, v)[i])@
                != v,
    decreases list.len(),
{
    if list.len() > 0 {
        lemma_without_stash_excludes(list.drop_first(), v);
        let rest = without_stash(list.drop_first(), v);
        if list[0]@ != v {
            assert forall|i: int| 0 <= i < without_stash(list, v).len() implies (
            #[trigger] without_stash(list, v)[i])@ != v by {
                if i == 0 {
                    assert(without_stash(list, v)[0] == list[0]);
                } else {
                    assert(without_stash(list, v)[i] == rest[i - 1]);
                }
            }
        }
    }
}

proof fn lemma_without_stash_skip(list: Seq<GitStash>, v: GitStashV, i: int)
    requires
        0 <= i < list.len(),
    ensures
        without_stash(list.skip(i), v) == if list[i]@ == v {
            without_stash(list.skip(i + 1), v)
        } else {
            seq![list[i]] + without_stash(list.skip(i + 1), v)
        },
{
    let t = list.skip(i);
    assert(t.len() > 0);
    assert(t[0] == list[i]);
    assert(t.drop_first() =~= list.skip(i + 1));
}

fn stash_eq(a: &GitStash, b: &GitStash) -> (r: bool)
    ensures
        r == (a@ == b@),
{
    let same = a.index == b.index && str_eq(a.message.as_str(), b.message.as_str()) && str_eq(
        a.stash_id.as_str(),
        b.stash_id.as_str(),
    ) && str_eq(a.branch_name.as_str(), b.branch_name.as_str());
    proof {
        if same {
            assert(a@ =~= b@);
        }
    }
    same
}

/// The fetched stashes without every entry equal to the removed one.
fn remove_stash_value(list: Vec<GitStash>, v: &GitStash) -> (r: Vec<GitStash>)
    ensures
        r@ == without_stash(list@, v@),
{
    let ghost orig = list@;
    let mut list = list;
    let mut kept: Vec<GitStash> = Vec::new();
    let n = list.len();
    let mut i: usize = 0;
    proof {
        assert(orig.skip(0) =~= orig);
        assert(kept@ + without_stash(orig.skip(0), v@) =~= without_stash(orig, v@));
    }
    while i < n
        invariant
            n == orig.len(),
            0 <= i <= n,
            list@ == orig.skip(i as int),
            without_stash(orig, v@) == kept@ + without_stash(orig.skip(i as int), v@),
        decreases n - i,
    {
        let s = list.remove(0);
        proof {
            lemma_without_stash_skip(orig, v@, i as int);
            assert(orig.skip(i as int)[0] == orig[i as int]);
            assert(orig.skip(i as int).remove(0) =~= orig.skip(i + 1));
        }
        if !stash_eq(&s, v) {
            kept.push(s);
            proof {
                assert(kept@ + without_stash(orig.skip(i + 1), v@) =~= kept@.drop_last() + (seq![
                    orig[i as int],
                ] + without_stash(orig.skip(i + 1), v@)));
            }
        }
        i = i + 1;
    }
    proof {
        assert(orig.skip(n as int) =~= Seq::<GitStash>::empty());
        assert(without_stash(orig.skip(n as int), v@) =~= Seq::<GitStash>::empty());
        assert(kept@ + Seq::<GitStash>::empty() =~= kept@);
    }
    kept
}

/// Applies the refetch that follows a successful pop: the fetched list
/// replaces the items, with every entry equal to the popped stash filtered
/// out — the popped value is never on display afterwards. A failed refetch
/// keeps the previous items. The loading marker is cleared.
pub fn complete_pop_stash(
    state: &mut SharedListState<StashItem>,
    popped: &GitStash,
    refreshed: Result<Vec<GitStash>, Error>,
) -> (actions: Vec<Action>)
    requires
        old(state).inv(),
    ensures
        final(state).inv(),
        final(state).loading is Idle,
        match refreshed {
            Ok(list) => {
                &&& final(state).items@.len() == without_stash(list@, popped@).len()
                &&& (forall|i: int|
                    0 <= i < final(state).items@.len() ==> (#[trigger] final(state).items@[i]).inner_view() == without_stash(list@, popped@)[i]@)
                &&& (forall|i: int|
                    0 <= i < final(state).items@.len() ==> (#[trigger] final(state).items@[i]).inner_view() != popped@)
                &&& (forall|i: int|
                    0 <= i < final(state).items@.len() ==> !(#[trigger] final(state).items@[i]).staged_spec())
            },
            Err(_) => {
                &&& final(state).items@ == old(state).items@
                &&& final(state).selected_index == old(state).selected_index
            },
        },
        actions@.len() == 1,
        actions@[0] == Action::Render,
{
    match refreshed {
        Ok(list) => {
            let ghost fetched = list@;
            let kept = remove_stash_value(list, popped);
            let wrapped: Vec<StashItem> = wrap_items(kept);
            proof {
                lemma_without_stash_excludes(fetched, popped@);
            }
            state.update_items(wrapped);
        },
        Err(_) => {},
    }
    state.set_loading(LoadingOperation::Idle);
    let mut actions: Vec<Action> = Vec::new();
    actions.push(Action::Render);
    actions
}

/// Applies the outcome of a finished stash creation and says whether a
/// refetch is owed. A failure or the nothing-to-stash outcome is reported
/// with the items untouched and the loading marker cleared; a successful
/// stash leaves the state to the refetch that must follow.
pub fn apply_stash_creation_outcome(
    state: &mut SharedListState<StashItem>,
    outcome: Result<bool, Error>,
) -> (r: (bool, Vec<Action>))
    ensures
        final(state).items@ == old(state).items@,
        final(state).selected_index == old(state).selected_index,
        r.0 == (outcome matches Ok(true)),
        match outcome {
            Ok(did_stash) => {
                if did_stash {
                    &&& *final(state) == *old(state)
                    &&& r.1@.len() == 0
                } else {
                    &&& final(state).loading is Idle
                    &&& r.1@.len() == 2
                    &&& (r.1@[0] matches Action::Error(m) && m@ == "No local changes to stash"@)
                    &&& r.1@[1] == Action::Render
                }
            },
            Err(e) => {
                &&& final(state).loading is Idle
                &&& r.1@.len() == 2
                &&& (r.1@[0] matches Action::Error(m) && m@ == error_text(e))
                &&& r.1@[1] == Action::Render
            },
        },
{
    match outcome {
        Ok(true) => (true, Vec::new()),
        Ok(false) => {
            state.set_loading(LoadingOperation::Idle);
            let mut actions: Vec<Action> = Vec::new();
            actions.push(Action::Error("No local changes to stash".to_owned()));
            actions.push(Action::Render);
            (false, actions)
        },
        Err(e) => {
            state.set_loading(LoadingOperation::Idle);
            let mut actions: Vec<Action> = Vec::new();
            actions.push(Action::Error(e.message()));
            actions.push(Action::Render);
            (false, actions)
        },
    }
}

/// Applies the refetch that follows a successful stash operation. A fetched
/// list replaces the items (freshly wrapped, selection forced into bounds); a
/// failed refetch keeps the previous items on display. Either way
/// the loading marker is cleared and a redraw is queued.
pub fn complete_stash_refresh(
    state: &mut SharedListState<StashItem>,
    refreshed: Result<Vec<GitStash>, Error>,
) -> (actions: Vec<Action>)
    requires
        old(state).inv(),
    ensures
        final(state).inv(),
        final(state).loading is Idle,
        match refreshed {
            Ok(list) => {
                &&& final(state).items@.len() == list@.len()
                &&& (forall|i: int|
                    0 <= i < list@.len() ==> (#[trigger] final(state).items@[i]).inner_view()
                        == list@[i]@)
                &&& (forall|i: int|
                    0 <= i < list@.len() ==> !(#[trigger] final(state).items@[i]).staged_spec())
                &&& final(state).selected_index as int == clamp_index(
                    old(state).selected_index as int,
                    list@.len() as int,
                )
            },
            Err(_) => {
                &&& final(state).items@ == old(state).items@
                &&& final(state).selected_index == old(state).selected_index
            },
        },
        actions@.len() == 1,
        actions@[0] == Action::Render,
{
    match refreshed {
        Ok(list) => {
            let wrapped: Vec<StashItem> = wrap_items(list);
            state.update_items(wrapped);
        },
        Err(_) => {},
    }
    state.set_loading(LoadingOperation::Idle);
    let mut actions: Vec<Action> = Vec::new();
    actions.push(Action::Render);
    actions
}

} // verus!
