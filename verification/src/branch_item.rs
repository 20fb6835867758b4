//! The branch list's display wrapper: a branch plus the flags the list view
//! reads (staged for creation or deletion, name validity of a preview entry).

use vstd::prelude::*;

use crate::git_types::GitBranch;
use crate::git_types::GitBranchV;
use crate::list_traits::ListItemWrapper;

verus! {

/// The abstract value of a `BranchItem`.
pub struct BranchItemV {
    pub branch: GitBranchV,
    pub staged_for_creation: bool,
    pub staged_for_deletion: bool,
    pub is_valid_name: bool,
}

#[derive(Debug, Clone, PartialEq, Eq)]
pub struct BranchItem {
    pub branch: GitBranch,
    pub staged_for_creation: bool,
    pub staged_for_deletion: bool,
    pub is_valid_name: bool,
}

impl View for BranchItem {
    type V = BranchItemV;

    open spec fn view(&self) -> BranchItemV {
        BranchItemV {
            branch: self.branch@,
            staged_for_creation: self.staged_for_creation,
            staged_for_deletion: self.staged_for_deletion,
            is_valid_name: self.is_valid_name,
        }
    }
}

impl BranchItem {
    pub fn new(branch: GitBranch, is_valid_name: bool) -> (r: Self)
        ensures
            r.branch == branch,
            !r.staged_for_creation,
            !r.staged_for_deletion,
            r.is_valid_name == is_valid_name,
    {
        BranchItem { branch, staged_for_creation: false, staged_for_deletion: false, is_valid_name }
    }

    /// Sets the staged-for-deletion flag and changes nothing else.
    pub fn stage_for_deletion(&mut self, stage: bool)
        ensures
            *final(self) == (BranchItem { staged_for_deletion: stage, ..*old(self) }),
    {
        self.staged_for_deletion = stage;
    }
}

impl ListItemWrapper<GitBranch> for BranchItem {
    open spec fn inner_view(&self) -> GitBranchV {
        self.branch@
    }

    open spec fn staged_spec(&self) -> bool {
        self.staged_for_deletion
    }

    open spec fn protected_spec(&self) -> bool {
        self.branch.is_head
    }

    open spec fn staged_as(&self, stage: bool) -> Self {
        BranchItem { staged_for_deletion: stage, ..*self }
    }

    fn new(item: GitBranch) -> (w: Self) {
        BranchItem::new(item, true)
    }

    fn stage_for_deletion(&mut self, stage: bool) {
        BranchItem::stage_for_deletion(self, stage);
    }

    fn is_staged_for_deletion(&self) -> (b: bool) {
        self.staged_for_deletion
    }

    fn is_protected(&self) -> (b: bool) {
        self.branch.is_head
    }

    fn inner_item(&self) -> (t: &GitBranch) {
        &self.branch
    }

    fn inner_cloned(&self) -> (t: GitBranch) {
        self.branch.duplicate()
    }
}

/// Staging round trip: staging a wrapper for deletion and unstaging it again
/// restores exactly the original wrapper.
pub proof fn lemma_branch_stage_round_trip(w: BranchItem)
    requires
        !w.staged_spec(),
    ensures
        w.staged_as(true).staged_as(false) == w,
{
}

} // verus!
