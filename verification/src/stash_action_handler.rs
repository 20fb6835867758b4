//! The stash list's action handler: key-to-action mapping and the deferred
//! repository operations of the stash domain. Apply is the primary action,
//! pop has its own, and any stash may be staged and dropped.

use vstd::prelude::*;

use crate::action::Action;
use crate::git_types::GitStash;
use crate::git_types::GitStashV;
use crate::keys::KeyCode;
use crate::keys::KeyEvent;
use crate::keys::KeyModifiers;
use crate::list_traits::views_of;
use crate::list_traits::ListActionHandler;
use crate::list_traits::ListOperation;
use crate::stash_item::StashItem;

verus! {

/// The stashes a bulk delete goes for: exactly the staged ones, in list
/// order.
pub open spec fn bulk_stash_targets(items: Seq<StashItem>) -> Seq<GitStashV>
    decreases items.len(),
{
    if items.len() == 0 {
        Seq::empty()
    } else {
        let rest = bulk_stash_targets(items.drop_last());
        let w = items.last();
        if w.staged_for_deletion {
            rest.push(w.stash@)
        } else {
            rest
        }
    }
}

proof fn lemma_bulk_stash_targets_take(items: Seq<StashItem>, i: int)
    requires
        0 <= i < items.len(),
    ensures
        bulk_stash_targets(items.take(i + 1)) == if items[i].staged_for_deletion {
            bulk_stash_targets(items.take(i)).push(items[i].stash@)
        } else {
            bulk_stash_targets(items.take(i))
        },
{
    let t = items.take(i + 1);
    assert(t.last() == items[i]);
    assert(t.drop_last() =~= items.take(i));
}

pub struct StashActionHandler;

impl ListActionHandler<StashItem, GitStash> for StashActionHandler {
    open spec fn create_action_spec(&self) -> Action {
        Action::InitNewStash
    }

    /// The primary action applies the stash; it applies to any item.
    open spec fn primary_op_matches(&self, item: StashItem, op: Option<ListOperation<GitStash>>) -> bool {
        op matches Some(ListOperation::Primary(t)) && t@ == item.stash@
    }

    /// Pop is a stash operation of its own.
    open spec fn pop_op_matches(&self, item: StashItem, op: Option<ListOperation<GitStash>>) -> bool {
        op matches Some(ListOperation::Pop(t)) && t@ == item.stash@
    }

    /// Any stash may be dropped.
    open spec fn delete_op_matches(&self, item: StashItem, op: Option<ListOperation<GitStash>>) -> bool {
        op matches Some(ListOperation::Delete(t)) && t@ == item.stash@
    }

    /// A bulk delete goes for exactly the staged stashes; with none staged
    /// there is no operation.
    open spec fn bulk_op_matches(
        &self,
        items: Seq<StashItem>,
        op: Option<ListOperation<GitStash>>,
    ) -> bool {
        if bulk_stash_targets(items).len() == 0 {
            op is None
        } else {
            op matches Some(ListOperation::BulkDelete(v)) && views_of(v@) == bulk_stash_targets(
                items,
            )
        }
    }

    open spec fn key_action_spec(&self, key: KeyEvent, selected: Option<StashItem>) -> Option<
        Action,
    > {
        match key.code {
            KeyCode::Char(c) => if (c == 's' || c == 'S') && key.modifiers is Plain {
                Some(Action::InitNewStash)
            } else if (c == 'a' || c == 'A') && key.modifiers is Plain {
                if selected is Some {
                    Some(Action::ApplySelectedStash)
                } else {
                    None
                }
            } else if (c == 'p' || c == 'P') && key.modifiers is Plain {
                if selected is Some {
                    Some(Action::PopSelectedStash)
                } else {
                    None
                }
            } else if (c == 'd' || c == 'D') && key.modifiers is Shift {
                Some(Action::UnstageStashForDeletion)
            } else if (c == 'd' || c == 'D') && key.modifiers is Control {
                Some(Action::DeleteStagedStashes)
            } else if (c == 'd' || c == 'D') && key.modifiers is Plain {
                match selected {
                    Some(w) => if w.staged_for_deletion {
                        Some(Action::DropSelectedStash)
                    } else {
                        Some(Action::StageStashForDeletion)
                    },
                    None => None,
                }
            } else {
                None
            },
            _ => None,
        }
    }

    open spec fn post_create_matches(&self, name: Seq<char>, a: Action) -> bool {
        a matches Action::CreateStash(s) && s@ == name
    }

    /// The footer hints: apply/pop shown exactly when something is selected,
    /// drop/unstage exactly when the selected item is staged, the bulk hint
    /// exactly when anything is staged.
    open spec fn instructions_spec(&self, selected: Option<StashItem>, has_staged: bool) -> Seq<
        Seq<char>,
    > {
        let base = seq!["esc: Exit"@, "s: New Stash"@];
        let with_sel = match selected {
            Some(s) => {
                let more = base + seq!["a: Apply"@, "p: Pop"@];
                if s.staged_for_deletion {
                    more + seq!["d: Drop"@, "shift+d: Unstage"@]
                } else {
                    more + seq!["d: Stage for Deletion"@]
                }
            },
            None => base,
        };
        let with_bulk = if has_staged {
            with_sel + seq!["ctrl+d: Drop All Staged"@]
        } else {
            with_sel
        };
        with_bulk + seq!["tab: Switch View"@]
    }

    fn handle_primary_action(&self, item: &StashItem) -> (op: Option<ListOperation<GitStash>>) {
        Some(ListOperation::Primary(item.stash.duplicate()))
    }

    fn handle_pop_action(&self, item: &StashItem) -> (op: Option<ListOperation<GitStash>>) {
        Some(ListOperation::Pop(item.stash.duplicate()))
    }

    fn handle_delete_action(&self, item: &StashItem) -> (op: Option<ListOperation<GitStash>>) {
        Some(ListOperation::Delete(item.stash.duplicate()))
    }

    fn handle_bulk_delete_action(&self, items: &Vec<StashItem>) -> (op: Option<
        ListOperation<GitStash>,
    >) {
        let n = items.len();
        let mut targets: Vec<GitStash> = Vec::new();
        let mut i: usize = 0;
        proof {
            assert(items@.take(0) =~= Seq::<StashItem>::empty());
            assert(views_of(targets@) =~= bulk_stash_targets(items@.take(0)));
        }
        while i < n
            invariant
                n == items@.len(),
                0 <= i <= n,
                views_of(targets@) == bulk_stash_targets(items@.take(i as int)),
            decreases n - i,
        {
            let item = vstd::std_specs::vec::vec_index(items, i);
            proof {
                lemma_bulk_stash_targets_take(items@, i as int);
            }
            if item.staged_for_deletion {
                targets.push(item.stash.duplicate());
                proof {
                    assert(views_of(targets@) =~= views_of(targets@.drop_last()).push(
                        targets@.last()@,
                    ));
                }
            }
            i = i + 1;
        }
        proof {
            assert(items@.take(n as int) =~= items@);
        }
        if targets.len() == 0 {
            proof {
                assert(bulk_stash_targets(items@).len() == views_of(targets@).len());
            }
            None
        } else {
            Some(ListOperation::BulkDelete(targets))
        }
    }

    fn get_create_action(&self) -> (a: Action) {
        Action::InitNewStash
    }

    fn get_post_create_action(&self, name: String) -> (a: Action) {
        Action::CreateStash(name)
    }

    fn handle_key_event(&self, key: KeyEvent, selected_item: Option<&StashItem>) -> (r: Option<
        Action,
    >) {
        match key.code {
            KeyCode::Char(c) => {
                if (c == 's' || c == 'S') && matches!(key.modifiers, KeyModifiers::Plain) {
                    Some(Action::InitNewStash)
                } else if (c == 'a' || c == 'A') && matches!(key.modifiers, KeyModifiers::Plain) {
                    if selected_item.is_some() {
                        Some(Action::ApplySelectedStash)
                    } else {
                        None
                    }
                } else if (c == 'p' || c == 'P') && matches!(key.modifiers, KeyModifiers::Plain) {
                    if selected_item.is_some() {
                        Some(Action::PopSelectedStash)
                    } else {
                        None
                    }
                } else if (c == 'd' || c == 'D') && matches!(key.modifiers, KeyModifiers::Shift) {
                    Some(Action::UnstageStashForDeletion)
                } else if (c == 'd' || c == 'D') && matches!(key.modifiers, KeyModifiers::Control) {
                    Some(Action::DeleteStagedStashes)
                } else if (c == 'd' || c == 'D') && matches!(key.modifiers, KeyModifiers::Plain) {
                    match selected_item {
                        Some(w) => if w.staged_for_deletion {
                            Some(Action::DropSelectedStash)
                        } else {
                            Some(Action::StageStashForDeletion)
                        },
                        None => None,
                    }
                } else {
                    None
                }
            },
            _ => None,
        }
    }

    fn get_instructions(&self, selected_item: Option<&StashItem>, has_staged_items: bool) -> (r:
        Vec<&'static str>) {
        let mut instructions: Vec<&'static str> = Vec::new();
        instructions.push("esc: Exit");
        instructions.push("s: New Stash");
        match selected_item {
            Some(selected) => {
                instructions.push("a: Apply");
                instructions.push("p: Pop");
                if selected.staged_for_deletion {
                    instructions.push("d: Drop");
                    instructions.push("shift+d: Unstage");
                } else {
                    instructions.push("d: Stage for Deletion");
                }
            },
            None => {},
        }
        if has_staged_items {
            instructions.push("ctrl+d: Drop All Staged");
        }
        instructions.push("tab: Switch View");
        proof {
            assert(crate::list_traits::texts_of(instructions@) =~= self.instructions_spec(
                crate::list_traits::opt_value(selected_item),
                has_staged_items,
            ));
        }
        instructions
    }
}

} // verus!
