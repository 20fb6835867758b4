//! The branch list: the generic engine instantiated for branches, and the
//! completions of its background operations — checkout (re-marks the
//! checked-out branch), create (splices the new branch in, re-sorts by name,
//! selects it) and delete (removes the item). Every completion leaves the
//! loading marker cleared.

use vstd::multiset::Multiset;
use vstd::prelude::*;

use crate::action::Action;
use crate::branch_action_handler::BranchActionHandler;
use crate::branch_input_handler::BranchInputHandler;
use crate::branch_item::BranchItem;
use crate::branch_item::BranchItemV;
use crate::error::error_text;
use crate::error::Error;
use crate::generic_list::clamp_index;
use crate::generic_list::drop_marked;
use crate::generic_list::first_marked;
use crate::generic_list::GenericListComponent;
use crate::generic_list::LoadingOperation;
use crate::generic_list::SharedListState;
use crate::git_types::GitBranch;
use crate::git_types::GitBranchV;
use crate::list_traits::views_of;
use crate::strutil::lemma_lex_total;
use crate::strutil::lemma_lex_trans;
use crate::strutil::lex_le;
use crate::strutil::str_eq;
use crate::strutil::str_le;

verus! {

/// The branch list component: the generic engine with the branch handlers.
pub type BranchList = GenericListComponent<
    BranchItem,
    GitBranch,
    BranchActionHandler,
    BranchInputHandler,
>;

/// The same wrapper with only the checked-out mark changed.
pub open spec fn branch_with_head(w: BranchItem, h: bool) -> BranchItem {
    BranchItem { branch: GitBranch { is_head: h, ..w.branch }, ..w }
}

/// Every wrapper re-marked: exactly the branches called `name` carry the
/// checked-out mark.
pub open spec fn with_head_flags(items: Seq<BranchItem>, name: Seq<char>) -> Seq<BranchItem> {
    items.map_values(|w: BranchItem| branch_with_head(w, w.branch.name@ == name))
}

/// The items stand in name order.
pub open spec fn sorted_by_name(s: Seq<BranchItem>) -> bool {
    forall|i: int, j: int|
        0 <= i < j < s.len() ==> lex_le(
            (#[trigger] s[i]).branch.name@,
            (#[trigger] s[j]).branch.name@,
        )
}

/// The abstract value of a branch wrapper fresh from creation: checked out,
/// with no upstream, staged for nothing.
pub open spec fn created_item_view(name: Seq<char>) -> BranchItemV {
    BranchItemV {
        branch: GitBranchV { name, is_head: true, upstream: None },
        staged_for_creation: false,
        staged_for_deletion: false,
        is_valid_name: true,
    }
}

/// Sorts the wrappers by branch name (code-point order). The collection of
/// item values is unchanged.
pub fn sort_branch_items_by_name(v: &mut Vec<BranchItem>)
    ensures
        final(v)@.len() == old(v)@.len(),
        sorted_by_name(final(v)@),
        views_of(final(v)@).to_multiset() == views_of(old(v)@).to_multiset(),
{
    broadcast use vstd::seq_lib::group_to_multiset_ensures;
    broadcast use vstd::multiset::group_multiset_axioms;

    let ghost orig_views = views_of(old(v)@).to_multiset();
    let mut out: Vec<BranchItem> = Vec::new();
    proof {
        assert(views_of(out@).to_multiset() =~= Multiset::<BranchItemV>::empty());
        assert(views_of(out@).to_multiset().add(views_of(v@).to_multiset()) =~= orig_views);
    }
    while v.len() > 0
        invariant
            sorted_by_name(out@),
            views_of(out@).to_multiset().add(views_of(v@).to_multiset()) == orig_views,
            out@.len() + v@.len() == views_of(old(v)@).to_multiset().len(),
            forall|a: int, b: int|
                0 <= a < out@.len() && 0 <= b < v@.len() ==> lex_le(
                    (#[trigger] out@[a]).branch.name@,
                    (#[trigger] v@[b]).branch.name@,
                ),
        decreases v@.len(),
    {
        let n = v.len();
        let mut m: usize = 0;
        let mut k: usize = 1;
        proof {
            crate::strutil::lemma_lex_refl(v@[0].branch.name@);
        }
        while k < n
            invariant
                n == v@.len(),
                0 <= m < k <= n,
                forall|j: int|
                    0 <= j < k ==> lex_le(v@[m as int].branch.name@, (#[trigger] v@[j]).branch.name@),
            decreases n - k,
        {
            let le = str_le(
                vstd::std_specs::vec::vec_index(v, m).branch.name.as_str(),
                vstd::std_specs::vec::vec_index(v, k).branch.name.as_str(),
            );
            if !le {
                proof {
                    lemma_lex_total(v@[m as int].branch.name@, v@[k as int].branch.name@);
                    crate::strutil::lemma_lex_refl(v@[k as int].branch.name@);
                    assert forall|j: int| 0 <= j < k implies lex_le(
                        v@[k as int].branch.name@,
                        (#[trigger] v@[j]).branch.name@,
                    ) by {
                        lemma_lex_trans(
                            v@[k as int].branch.name@,
                            v@[m as int].branch.name@,
                            v@[j].branch.name@,
                        );
                    }
                }
                m = k;
            }
            k = k + 1;
        }
        let ghost pre = v@;
        let w = v.remove(m);
        proof {
            assert(views_of(pre.remove(m as int)) =~= views_of(pre).remove(m as int));
            assert(views_of(pre)[m as int] == w@);
            vstd::seq_lib::to_multiset_remove::<BranchItemV>(views_of(pre), m as int);
            assert(views_of(v@).to_multiset() == views_of(pre).to_multiset().remove(w@));
            assert(views_of(out@.push(w)) =~= views_of(out@).push(w@));
            vstd::seq_lib::to_multiset_build::<BranchItemV>(views_of(out@), w@);
            assert(views_of(out@.push(w)).to_multiset() == views_of(out@).to_multiset().insert(
                w@,
            ));
            assert(views_of(pre).contains(w@));
            vstd::seq_lib::to_multiset_contains::<BranchItemV>(views_of(pre), w@);
            assert(views_of(pre).to_multiset().count(w@) > 0);
            assert(views_of(out@).to_multiset().insert(w@).add(
                views_of(pre).to_multiset().remove(w@),
            ) =~= views_of(out@).to_multiset().add(views_of(pre).to_multiset()));
            assert forall|a: int, b: int|
                0 <= a < out@.len() + 1 && 0 <= b < v@.len() implies lex_le(
                (#[trigger] out@.push(w)[a]).branch.name@,
                (#[trigger] v@[b]).branch.name@,
            ) by {
                if a < out@.len() {
                    assert(v@[b] == if b < m { pre[b] } else { pre[b + 1] });
                } else {
                    assert(out@.push(w)[a] == w);
                    assert(v@[b] == if b < m { pre[b] } else { pre[b + 1] });
                }
            }
            assert(sorted_by_name(out@.push(w))) by {
                assert(forall|a: int|
                    0 <= a < out@.len() ==> lex_le(
                        (#[trigger] out@[a]).branch.name@,
                        pre[m as int].branch.name@,
                    ));
            }
        }
        out.push(w);
    }
    proof {
        assert(views_of(v@).to_multiset() =~= Multiset::<BranchItemV>::empty());
        assert(views_of(out@).to_multiset() =~= orig_views);
    }
    *v = out;
}

/// Applies a finished checkout. On success every wrapper is re-marked so that
/// exactly the branches called `branch_name` carry the checked-out mark; on
/// failure the items are untouched and the error is reported. Either way the
/// loading marker is cleared and a redraw is requested.
pub fn complete_checkout(
    state: &mut SharedListState<BranchItem>,
    branch_name: &String,
    result: Result<(), Error>,
) -> (actions: Vec<Action>)
    requires
        old(state).inv(),
    ensures
        final(state).inv(),
        final(state).loading is Idle,
        final(state).selected_index == old(state).selected_index,
        match result {
            Ok(_) => {
                &&& final(state).items@ == with_head_flags(old(state).items@, branch_name@)
                &&& actions@.len() == 1
                &&& actions@[0] == Action::Render
            },
            Err(e) => {
                &&& final(state).items@ == old(state).items@
                &&& actions@.len() == 2
                &&& actions@[0] matches Action::Error(m) && m@ == error_text(e)
                &&& actions@[1] == Action::Render
            },
        },
{
    match result {
        Ok(_) => {
            let ghost orig = state.items@;
            let n = state.items.len();
            let mut i: usize = 0;
            while i < n
                invariant
                    n == state.items@.len(),
                    n == orig.len(),
                    0 <= i <= n,
                    state.selected_index == old(state).selected_index,
                    state.loading == old(state).loading,
                    old(state).inv(),
                    forall|j: int|
                        0 <= j < i ==> #[trigger] state.items@[j] == branch_with_head(
                            orig[j],
                            orig[j].branch.name@ == branch_name@,
                        ),
                    forall|j: int| i <= j < n ==> #[trigger] state.items@[j] == orig[j],
                decreases n - i,
            {
                let item = vstd::std_specs::vec::vec_index_mut(&mut state.items, i);
                let is_head = str_eq(item.branch.name.as_str(), branch_name.as_str());
                item.branch.is_head = is_head;
                i = i + 1;
            }
            state.loading = LoadingOperation::Idle;
            proof {
                assert(state.items@ =~= with_head_flags(orig, branch_name@));
            }
            let mut actions: Vec<Action> = Vec::new();
            actions.push(Action::Render);
            actions
        },
        Err(e) => {
            state.loading = LoadingOperation::Idle;
            let mut actions: Vec<Action> = Vec::new();
            actions.push(Action::Error(e.message()));
            actions.push(Action::Render);
            actions
        },
    }
}

/// Applies a finished branch creation (the operation also checked the new
/// branch out). On success the new branch joins the list as its checked-out
/// entry, the list is re-sorted by name, and the first entry with the new
/// name is selected; on failure the items are untouched and the error is
/// reported. Either way the loading marker is cleared.
pub fn complete_create_branch(
    state: &mut SharedListState<BranchItem>,
    name: &String,
    result: Result<(), Error>,
) -> (actions: Vec<Action>)
    requires
        old(state).inv(),
    ensures
        final(state).inv(),
        final(state).loading is Idle,
        match result {
            Ok(_) => {
                &&& final(state).items@.len() == old(state).items@.len() + 1
                &&& sorted_by_name(final(state).items@)
                &&& views_of(final(state).items@).to_multiset() == views_of(
                    with_head_flags(old(state).items@, name@),
                ).to_multiset().insert(created_item_view(name@))
                &&& (final(state).selected_index as int) < final(state).items@.len()
                &&& final(state).items@[final(state).selected_index as int].branch.name@ == name@
                &&& (forall|j: int|
                    0 <= j < final(state).selected_index ==> (
                    #[trigger] final(state).items@[j]).branch.name@ != name@)
                &&& actions@.len() == 1
                &&& actions@[0] == Action::Render
            },
            Err(e) => {
                &&& final(state).items@ == old(state).items@
                &&& final(state).selected_index == old(state).selected_index
                &&& actions@.len() == 2
                &&& actions@[0] matches Action::Error(m) && m@ == error_text(e)
                &&& actions@[1] == Action::Render
            },
        },
{
    broadcast use vstd::seq_lib::group_to_multiset_ensures;

    match result {
        Ok(_) => {
            let ghost orig = state.items@;
            let branch = GitBranch { name: name.clone(), is_head: false, upstream: None };
            let fresh = BranchItem::new(branch, true);
            state.items.push(fresh);
            let ghost pushed = state.items@;
            // re-mark the checked-out branch: the new one matches its own name
            let n = state.items.len();
            let mut i: usize = 0;
            while i < n
                invariant
                    n == state.items@.len(),
                    n == pushed.len(),
                    0 <= i <= n,
                    forall|j: int|
                        0 <= j < i ==> #[trigger] state.items@[j] == branch_with_head(
                            pushed[j],
                            pushed[j].branch.name@ == name@,
                        ),
                    forall|j: int| i <= j < n ==> #[trigger] state.items@[j] == pushed[j],
                decreases n - i,
            {
                let item = vstd::std_specs::vec::vec_index_mut(&mut state.items, i);
                let is_head = str_eq(item.branch.name.as_str(), name.as_str());
                item.branch.is_head = is_head;
                i = i + 1;
            }
            proof {
                assert(state.items@ =~= with_head_flags(pushed, name@));
                let flagged = with_head_flags(pushed, name@);
                assert(views_of(flagged) =~= views_of(with_head_flags(orig, name@)).push(
                    created_item_view(name@),
                ));
                assert(views_of(flagged).to_multiset() == views_of(
                    with_head_flags(orig, name@),
                ).to_multiset().insert(created_item_view(name@)));
            }
            sort_branch_items_by_name(&mut state.items);
            // select the first entry carrying the new name; one exists, since
            // the created wrapper's value is in the collection
            proof {
                let vs = views_of(state.items@);
                assert(vs.to_multiset().count(created_item_view(name@)) > 0);
                assert(vs.contains(created_item_view(name@)));
                let j = choose|j: int| 0 <= j < vs.len() && vs[j] == created_item_view(name@);
                assert(state.items@[j]@ == created_item_view(name@));
                assert(state.items@[j].branch.name@ == name@);
            }
            let count = state.items.len();
            let mut pos: usize = 0;
            let mut found = false;
            let mut i2: usize = 0;
            while i2 < count
                invariant
                    count == state.items@.len(),
                    0 <= i2 <= count,
                    !found ==> forall|j: int|
                        0 <= j < i2 ==> (#[trigger] state.items@[j]).branch.name@ != name@,
                    found ==> {
                        &&& (pos as int) < count
                        &&& state.items@[pos as int].branch.name@ == name@
                        &&& forall|j: int|
                            0 <= j < pos ==> (#[trigger] state.items@[j]).branch.name@ != name@
                    },
                decreases count - i2,
            {
                if !found {
                    let item = vstd::std_specs::vec::vec_index(&state.items, i2);
                    if str_eq(item.branch.name.as_str(), name.as_str()) {
                        pos = i2;
                        found = true;
                    }
                }
                i2 = i2 + 1;
            }
            proof {
                if !found {
                    let vs = views_of(state.items@);
                    assert(vs.to_multiset().count(created_item_view(name@)) > 0);
                    assert(vs.contains(created_item_view(name@)));
                    let j = choose|j: int| 0 <= j < vs.len() && vs[j] == created_item_view(name@);
                    assert(state.items@[j].branch.name@ == name@);
                    assert(false);
                }
            }
            state.selected_index = pos;
            state.loading = LoadingOperation::Idle;
            let mut actions: Vec<Action> = Vec::new();
            actions.push(Action::Render);
            actions
        },
        Err(e) => {
            state.loading = LoadingOperation::Idle;
            let mut actions: Vec<Action> = Vec::new();
            actions.push(Action::Error(e.message()));
            actions.push(Action::Render);
            actions
        },
    }
}

/// Which wrappers a finished bulk delete removes: staged, not the checked-out
/// branch, and named among the successfully deleted ones.
pub open spec fn branch_bulk_mask(items: Seq<BranchItem>, deleted_names: Seq<String>) -> Seq<
    bool,
> {
    Seq::new(
        items.len(),
        |i: int|
            items[i].staged_for_deletion && !items[i].branch.is_head && crate::strutil::text_listed(
                deleted_names,
                items[i].branch.name@,
            ),
    )
}

/// Applies a finished bulk delete, given the names whose deletion succeeded:
/// exactly the staged, non-checked-out branches among them leave the list, so
/// branches whose deletion failed remain present and still staged. The
/// selection moves to the first removed position, forced into bounds; with no
/// removal the items are untouched. The loading marker is cleared.
pub fn complete_bulk_delete_branches(
    state: &mut SharedListState<BranchItem>,
    deleted_names: &Vec<String>,
) -> (actions: Vec<Action>)
    requires
        old(state).inv(),
    ensures
        final(state).inv(),
        final(state).loading is Idle,
        ({
            let mask = branch_bulk_mask(old(state).items@, deleted_names@);
            &&& ((exists|i: int| 0 <= i < mask.len() && mask[i]) ==> final(state).items@
                == drop_marked(old(state).items@, mask) && final(state).selected_index as int
                == clamp_index(
                first_marked(mask),
                drop_marked(old(state).items@, mask).len() as int,
            ))
            &&& (!(exists|i: int| 0 <= i < mask.len() && mask[i]) ==> final(state).items@ == old(
                state,
            ).items@ && final(state).selected_index == old(state).selected_index)
        }),
        actions@.len() == 1,
        actions@[0] == Action::Render,
{
    let n = state.items.len();
    let mut mask: Vec<bool> = Vec::new();
    let mut i: usize = 0;
    while i < n
        invariant
            n == state.items@.len(),
            0 <= i <= n,
            mask@.len() == i,
            forall|j: int|
                0 <= j < i ==> #[trigger] mask@[j] == (state.items@[j].staged_for_deletion
                    && !state.items@[j].branch.is_head && crate::strutil::text_listed(
                    deleted_names@,
                    state.items@[j].branch.name@,
                )),
        decreases n - i,
    {
        let item = vstd::std_specs::vec::vec_index(&state.items, i);
        let listed = crate::strutil::text_in_list(deleted_names, item.branch.name.as_str());
        mask.push(item.staged_for_deletion && !item.branch.is_head && listed);
        i = i + 1;
    }
    proof {
        assert(mask@ =~= branch_bulk_mask(state.items@, deleted_names@));
    }
    state.complete_bulk_delete(&mask);
    state.set_loading(LoadingOperation::Idle);
    let mut actions: Vec<Action> = Vec::new();
    actions.push(Action::Render);
    actions
}

/// Applies a finished single-branch delete. On success the item that stood at
/// `index` when the operation was launched leaves the list and the selection
/// is pulled back into bounds; on failure the items are untouched and the
/// error is reported. Either way the loading marker is cleared.
pub fn complete_delete_branch(
    state: &mut SharedListState<BranchItem>,
    index: usize,
    result: Result<(), Error>,
) -> (actions: Vec<Action>)
    requires
        old(state).inv(),
        index < old(state).items@.len(),
    ensures
        final(state).inv(),
        final(state).loading is Idle,
        match result {
            Ok(_) => {
                &&& final(state).items@ == old(state).items@.remove(index as int)
                &&& final(state).selected_index as int == clamp_index(
                    old(state).selected_index as int,
                    old(state).items@.len() - 1,
                )
                &&& actions@.len() == 1
                &&& actions@[0] == Action::Render
            },
            Err(e) => {
                &&& final(state).items@ == old(state).items@
                &&& final(state).selected_index == old(state).selected_index
                &&& actions@.len() == 2
                &&& actions@[0] matches Action::Error(m) && m@ == error_text(e)
                &&& actions@[1] == Action::Render
            },
        },
{
    match result {
        Ok(_) => {
            let _ = state.remove_item_at_index(index);
            state.set_loading(LoadingOperation::Idle);
            let mut actions: Vec<Action> = Vec::new();
            actions.push(Action::Render);
            actions
        },
        Err(e) => {
            state.set_loading(LoadingOperation::Idle);
            let mut actions: Vec<Action> = Vec::new();
            actions.push(Action::Error(e.message()));
            actions.push(Action::Render);
            actions
        },
    }
}

} // verus!
