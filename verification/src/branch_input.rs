//! The branch-creation input: a text field whose content is accepted only
//! when the repository approves the name and no current branch carries it.
//! A submission becomes `Action::CreateBranch`.

use vstd::prelude::*;

use crate::action::Action;
use crate::git_types::GitBranch;
use crate::git_types::GitRepo;
use crate::keys::KeyEvent;
use crate::strutil::trimmed;
use crate::text_input::edited_buffer;
use crate::text_input::key_edits;
use crate::text_input::InputState;
use crate::text_input::TextInput;

verus! {

/// Some current branch already carries this name.
pub open spec fn branch_name_taken(branches: Seq<&GitBranch>, name: Seq<char>) -> bool {
    exists|i: int| 0 <= i < branches.len() && #[trigger] branches[i]@.name == name
}

#[derive(Debug)]
pub struct BranchInput {
    pub text_input: TextInput,
}

impl BranchInput {
    pub fn new() -> (r: Self)
        ensures
            r.text_input.buffer@.len() == 0,
            r.text_input.input_state.value is None,
            r.text_input.input_state.is_valid is None,
    {
        BranchInput { text_input: TextInput::new() }
    }

    pub fn get_state(&self) -> (r: InputState)
        ensures
            r.is_valid == self.text_input.input_state.is_valid,
            match (r.value, self.text_input.input_state.value) {
                (Some(a), Some(b)) => a@ == b@,
                (None, None) => true,
                _ => false,
            },
    {
        let value = match &self.text_input.input_state.value {
            Some(v) => Some(v.clone()),
            None => None,
        };
        InputState { value, is_valid: self.text_input.input_state.is_valid }
    }

    /// No current branch carries exactly this name.
    pub fn name_is_free(proposed_name: &str, current_branches: &Vec<&GitBranch>) -> (r: bool)
        ensures
            r == !branch_name_taken(current_branches@, proposed_name@),
    {
        let n = current_branches.len();
        let mut unique = true;
        let mut i: usize = 0;
        while i < n
            invariant
                n == current_branches@.len(),
                0 <= i <= n,
                unique ==> forall|j: int|
                    0 <= j < i ==> #[trigger] current_branches@[j]@.name != proposed_name@,
                !unique ==> exists|j: int|
                    0 <= j < i && #[trigger] current_branches@[j]@.name == proposed_name@,
            decreases n - i,
        {
            let b = *vstd::std_specs::vec::vec_index(current_branches, i);
            if crate::strutil::str_eq(b.name.as_str(), proposed_name) {
                proof {
                    assert(current_branches@[i as int]@.name == proposed_name@);
                }
                unique = false;
            }
            i = i + 1;
        }
        unique
    }

    /// The submission decision with the repository's verdict handed in: the
    /// name is acceptable exactly when the repository approved it and no
    /// current branch carries it. Only the `approved` bit comes from outside.
    pub fn branch_submit_acceptable(
        approved: bool,
        current_branches: &Vec<&GitBranch>,
        proposed_name: &str,
    ) -> (b: bool)
        ensures
            b == (approved && !branch_name_taken(current_branches@, proposed_name@)),
    {
        let unique = Self::name_is_free(proposed_name, current_branches);
        approved && unique
    }

    /// Asks the repository for its verdict on the name and applies
    /// `branch_submit_acceptable` to it. What the repository answers is not
    /// this library's to promise — a repository error counts as rejection —
    /// so only the accepted-implies-free direction is stated here; the exact
    /// decision is pinned in `branch_submit_acceptable`.
    fn validate_branch_name<R: GitRepo>(
        proposed_name: &str,
        repo: &R,
        current_branches: &Vec<&GitBranch>,
    ) -> (r: bool)
        ensures
            r ==> !branch_name_taken(current_branches@, proposed_name@),
    {
        let approved = match repo.validate_branch_name(proposed_name) {
            Ok(v) => v,
            Err(_) => false,
        };
        Self::branch_submit_acceptable(approved, current_branches, proposed_name)
    }

    /// Handles one key of the branch-creation field. Escape cancels; editing
    /// keys re-validate. On Enter with a non-empty trimmed buffer the outcome
    /// is a function of the repository's verdict alone: with approval and a
    /// free name, `CreateBranch` is submitted and the field cleared; without
    /// either, the field is marked invalid and nothing is emitted. A submitted
    /// name is never one of the current branches.
    pub fn handle_key_event<R: GitRepo>(
        &mut self,
        key_event: KeyEvent,
        repo: &R,
        current_branches: Vec<&GitBranch>,
    ) -> (r: Option<Action>)
        ensures
            key_event.code is Esc ==> {
                &&& r == Some(Action::EndInputMode)
                &&& final(self).text_input.buffer@.len() == 0
                &&& final(self).text_input.input_state.value is None
                &&& final(self).text_input.input_state.is_valid is None
            },
            key_event.code is Enter && trimmed(old(self).text_input.buffer@).len() == 0 ==> r
                is None && *final(self) == *old(self),
            key_event.code is Enter && trimmed(old(self).text_input.buffer@).len() > 0 ==> match r {
                Some(a) => {
                    &&& (a matches Action::CreateBranch(txt) && txt@ == trimmed(
                        old(self).text_input.buffer@,
                    ))
                    &&& !branch_name_taken(
                        current_branches@,
                        trimmed(old(self).text_input.buffer@),
                    )
                    &&& final(self).text_input.buffer@.len() == 0
                    &&& final(self).text_input.input_state.is_valid == Some(true)
                },
                None => {
                    &&& final(self).text_input.buffer@ == old(self).text_input.buffer@
                    &&& final(self).text_input.input_state.is_valid == Some(false)
                },
            },
            !(key_event.code is Esc) && !(key_event.code is Enter) ==> {
                &&& r is None
                &&& final(self).text_input.buffer@ == edited_buffer(
                    old(self).text_input.buffer@,
                    key_event,
                )
                &&& (final(self).text_input.input_state.is_valid == Some(true) && key_edits(
                    old(self).text_input.buffer@,
                    key_event,
                ) && trimmed(edited_buffer(old(self).text_input.buffer@, key_event)).len() > 0
                    ==> !branch_name_taken(
                    current_branches@,
                    trimmed(edited_buffer(old(self).text_input.buffer@, key_event)),
                ))
            },
    {
        let validate_fn = |proposed: &str| -> (b: bool)
            ensures
                b ==> !branch_name_taken(current_branches@, proposed@),
            { Self::validate_branch_name(proposed, repo, &current_branches) };
        let action = self.text_input.handle_key_event(key_event, validate_fn);
        match action {
            Some(a) => {
                match a {
                    Action::InputSubmitted(text) => Some(Action::CreateBranch(text)),
                    other => Some(other),
                }
            },
            None => None,
        }
    }
}

} // verus!
