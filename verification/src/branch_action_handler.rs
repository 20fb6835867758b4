//! The branch list's action handler: key-to-action mapping and the deferred
//! repository operations of the branch domain. The checked-out branch can
//! never be deleted, staged, or part of a bulk delete.

use vstd::prelude::*;

use crate::action::Action;
use crate::branch_item::BranchItem;
use crate::git_types::GitBranch;
use crate::git_types::GitBranchV;
use crate::keys::KeyCode;
use crate::keys::KeyEvent;
use crate::keys::KeyModifiers;
use crate::list_traits::views_of;
use crate::list_traits::ListActionHandler;
use crate::list_traits::ListOperation;

verus! {

/// The branches a bulk delete goes for: staged and not the checked-out one,
/// in list order.
pub open spec fn bulk_branch_targets(items: Seq<BranchItem>) -> Seq<GitBranchV>
    decreases items.len(),
{
    if items.len() == 0 {
        Seq::empty()
    } else {
        let rest = bulk_branch_targets(items.drop_last());
        let w = items.last();
        if w.staged_for_deletion && !w.branch.is_head {
            rest.push(w.branch@)
        } else {
            rest
        }
    }
}

proof fn lemma_bulk_branch_targets_take(items: Seq<BranchItem>, i: int)
    requires
        0 <= i < items.len(),
    ensures
        bulk_branch_targets(items.take(i + 1)) == if items[i].staged_for_deletion
            && !items[i].branch.is_head {
            bulk_branch_targets(items.take(i)).push(items[i].branch@)
        } else {
            bulk_branch_targets(items.take(i))
        },
{
    let t = items.take(i + 1);
    assert(t.len() == i + 1);
    assert(t.last() == items[i]);
    assert(t.drop_last() =~= items.take(i));
}

pub struct BranchActionHandler;

impl ListActionHandler<BranchItem, GitBranch> for BranchActionHandler {
    open spec fn create_action_spec(&self) -> Action {
        Action::InitNewBranch
    }

    /// The primary action checks the branch out; it applies to any item.
    open spec fn primary_op_matches(
        &self,
        item: BranchItem,
        op: Option<ListOperation<GitBranch>>,
    ) -> bool {
        op matches Some(ListOperation::Primary(t)) && t@ == item.branch@
    }

    /// Branches have no pop action.
    open spec fn pop_op_matches(&self, item: BranchItem, op: Option<ListOperation<GitBranch>>) -> bool {
        op is None
    }

    /// Deleting is refused on the checked-out branch.
    open spec fn delete_op_matches(
        &self,
        item: BranchItem,
        op: Option<ListOperation<GitBranch>>,
    ) -> bool {
        if item.branch.is_head {
            op is None
        } else {
            op matches Some(ListOperation::Delete(t)) && t@ == item.branch@
        }
    }

    /// A bulk delete goes for exactly the staged, not checked-out branches;
    /// with none of those there is no operation.
    open spec fn bulk_op_matches(
        &self,
        items: Seq<BranchItem>,
        op: Option<ListOperation<GitBranch>>,
    ) -> bool {
        if bulk_branch_targets(items).len() == 0 {
            op is None
        } else {
            op matches Some(ListOperation::BulkDelete(v)) && views_of(v@) == bulk_branch_targets(
                items,
            )
        }
    }

    open spec fn key_action_spec(&self, key: KeyEvent, selected: Option<BranchItem>) -> Option<
        Action,
    > {
        match key.code {
            KeyCode::Char(c) => if (c == 'c' || c == 'C') && key.modifiers is Shift {
                Some(Action::InitNewBranch)
            } else if (c == 'c' || c == 'C') && key.modifiers is Plain {
                if selected is Some {
                    Some(Action::CheckoutSelectedBranch)
                } else {
                    None
                }
            } else if (c == 'd' || c == 'D') && key.modifiers is Shift {
                if selected matches Some(w) && w.staged_for_deletion {
                    Some(Action::UnstageBranchForDeletion)
                } else {
                    None
                }
            } else if (c == 'd' || c == 'D') && key.modifiers is Control {
                Some(Action::DeleteStagedBranches)
            } else if (c == 'd' || c == 'D') && key.modifiers is Plain {
                match selected {
                    Some(w) => if w.branch.is_head {
                        None
                    } else if w.staged_for_deletion {
                        Some(Action::DeleteBranch)
                    } else {
                        Some(Action::StageBranchForDeletion)
                    },
                    None => None,
                }
            } else {
                None
            },
            _ => None,
        }
    }

    open spec fn post_create_matches(&self, name: Seq<char>, a: Action) -> bool {
        a matches Action::CreateBranch(s) && s@ == name
    }

    /// The footer hints: delete/unstage shown exactly when the selected item
    /// is staged, checkout/stage exactly when it is an unstaged non-head,
    /// the bulk hint exactly when anything is staged.
    open spec fn instructions_spec(&self, selected: Option<BranchItem>, has_staged: bool) -> Seq<
        Seq<char>,
    > {
        let base = seq!["esc: Exit"@, "shift+c: Create New"@];
        let with_sel = match selected {
            Some(s) => if s.staged_for_deletion {
                base + seq!["d: Delete"@, "shift+d: Unstage"@]
            } else if s.branch.is_head {
                base
            } else {
                base + seq!["c: Checkout"@, "d: Stage for Deletion"@]
            },
            None => base,
        };
        let with_bulk = if has_staged {
            with_sel + seq!["ctrl+d: Delete All Staged"@]
        } else {
            with_sel
        };
        with_bulk + seq!["tab: Switch View"@]
    }

    fn handle_primary_action(&self, item: &BranchItem) -> (op: Option<ListOperation<GitBranch>>) {
        Some(ListOperation::Primary(item.branch.duplicate()))
    }

    fn handle_pop_action(&self, item: &BranchItem) -> (op: Option<ListOperation<GitBranch>>) {
        None
    }

    fn handle_delete_action(&self, item: &BranchItem) -> (op: Option<ListOperation<GitBranch>>) {
        if item.branch.is_head {
            None
        } else {
            Some(ListOperation::Delete(item.branch.duplicate()))
        }
    }

    fn handle_bulk_delete_action(&self, items: &Vec<BranchItem>) -> (op: Option<
        ListOperation<GitBranch>,
    >) {
        let n = items.len();
        let mut targets: Vec<GitBranch> = Vec::new();
        let mut i: usize = 0;
        proof {
            assert(items@.take(0) =~= Seq::<BranchItem>::empty());
            assert(views_of(targets@) =~= bulk_branch_targets(items@.take(0)));
        }
        while i < n
            invariant
                n == items@.len(),
                0 <= i <= n,
                views_of(targets@) == bulk_branch_targets(items@.take(i as int)),
            decreases n - i,
        {
            let item = vstd::std_specs::vec::vec_index(items, i);
            proof {
                lemma_bulk_branch_targets_take(items@, i as int);
            }
            if item.staged_for_deletion && !item.branch.is_head {
                targets.push(item.branch.duplicate());
                proof {
                    assert(views_of(targets@) =~= views_of(targets@.drop_last()).push(
                        targets@.last()@,
                    ));
                }
            }
            i = i + 1;
        }
        proof {
            assert(items@.take(n as int) =~= items@);
        }
        if targets.len() == 0 {
            proof {
                assert(bulk_branch_targets(items@).len() == views_of(targets@).len());
            }
            None
        } else {
            Some(ListOperation::BulkDelete(targets))
        }
    }

    fn get_create_action(&self) -> (a: Action) {
        Action::InitNewBranch
    }

    fn get_post_create_action(&self, name: String) -> (a: Action) {
        Action::CreateBranch(name)
    }

    fn handle_key_event(&self, key: KeyEvent, selected_item: Option<&BranchItem>) -> (r: Option<
        Action,
    >) {
        match key.code {
            KeyCode::Char(c) => {
                if (c == 'c' || c == 'C') && matches!(key.modifiers, KeyModifiers::Shift) {
                    Some(Action::InitNewBranch)
                } else if (c == 'c' || c == 'C') && matches!(key.modifiers, KeyModifiers::Plain) {
                    if selected_item.is_some() {
                        Some(Action::CheckoutSelectedBranch)
                    } else {
                        None
                    }
                } else if (c == 'd' || c == 'D') && matches!(key.modifiers, KeyModifiers::Shift) {
                    match selected_item {
                        Some(w) => if w.staged_for_deletion {
                            Some(Action::UnstageBranchForDeletion)
                        } else {
                            None
                        },
                        None => None,
                    }
                } else if (c == 'd' || c == 'D') && matches!(key.modifiers, KeyModifiers::Control) {
                    Some(Action::DeleteStagedBranches)
                } else if (c == 'd' || c == 'D') && matches!(key.modifiers, KeyModifiers::Plain) {
                    match selected_item {
                        Some(w) => if w.branch.is_head {
                            None
                        } else if w.staged_for_deletion {
                            Some(Action::DeleteBranch)
                        } else {
                            Some(Action::StageBranchForDeletion)
                        },
                        None => None,
                    }
                } else {
                    None
                }
            },
            _ => None,
        }
    }

    fn get_instructions(&self, selected_item: Option<&BranchItem>, has_staged_items: bool) -> (r:
        Vec<&'static str>) {
        let mut instructions: Vec<&'static str> = Vec::new();
        instructions.push("esc: Exit");
        instructions.push("shift+c: Create New");
        match selected_item {
            Some(selected) => {
                if selected.staged_for_deletion {
                    instructions.push("d: Delete");
                    instructions.push("shift+d: Unstage");
                } else if selected.branch.is_head {
                } else {
                    instructions.push("c: Checkout");
                    instructions.push("d: Stage for Deletion");
                }
            },
            None => {},
        }
        if has_staged_items {
            instructions.push("ctrl+d: Delete All Staged");
        }
        instructions.push("tab: Switch View");
        proof {
            assert(crate::list_traits::texts_of(instructions@) =~= self.instructions_spec(
                crate::list_traits::opt_value(selected_item),
                has_staged_items,
            ));
        }
        instructions
    }
}

} // verus!
