//! The stash list's display wrapper: a stash plus its staged-for-deletion
//! flag. A stash is never protected — any of them may be staged.

use vstd::prelude::*;

use crate::git_types::GitStash;
use crate::git_types::GitStashV;
use crate::list_traits::ListItemWrapper;

verus! {

/// The abstract value of a `StashItem`.
pub struct StashItemV {
    pub stash: GitStashV,
    pub staged_for_deletion: bool,
}

#[derive(Debug, Clone, PartialEq, Eq)]
pub struct StashItem {
    pub stash: GitStash,
    pub staged_for_deletion: bool,
}

impl View for StashItem {
    type V = StashItemV;

    open spec fn view(&self) -> StashItemV {
        StashItemV { stash: self.stash@, staged_for_deletion: self.staged_for_deletion }
    }
}

impl StashItem {
    pub fn new(stash: GitStash) -> (r: Self)
        ensures
            r.stash == stash,
            !r.staged_for_deletion,
    {
        StashItem { stash, staged_for_deletion: false }
    }

    /// Sets the staged-for-deletion flag and changes nothing else.
    pub fn stage_for_deletion(&mut self, stage: bool)
        ensures
            *final(self) == (StashItem { staged_for_deletion: stage, ..*old(self) }),
    {
        self.staged_for_deletion = stage;
    }
}

impl ListItemWrapper<GitStash> for StashItem {
    open spec fn inner_view(&self) -> GitStashV {
        self.stash@
    }

    open spec fn staged_spec(&self) -> bool {
        self.staged_for_deletion
    }

    open spec fn protected_spec(&self) -> bool {
        false
    }

    open spec fn staged_as(&self, stage: bool) -> Self {
        StashItem { staged_for_deletion: stage, ..*self }
    }

    fn new(item: GitStash) -> (w: Self) {
        StashItem::new(item)
    }

    fn stage_for_deletion(&mut self, stage: bool) {
        StashItem::stage_for_deletion(self, stage);
    }

    fn is_staged_for_deletion(&self) -> (b: bool) {
        self.staged_for_deletion
    }

    fn is_protected(&self) -> (b: bool) {
        false
    }

    fn inner_item(&self) -> (t: &GitStash) {
        &self.stash
    }

    fn inner_cloned(&self) -> (t: GitStash) {
        self.stash.duplicate()
    }
}

/// Staging round trip: staging a wrapper for deletion and unstaging it again
/// restores exactly the original wrapper.
pub proof fn lemma_stash_stage_round_trip(w: StashItem)
    requires
        !w.staged_spec(),
    ensures
        w.staged_as(true).staged_as(false) == w,
{
}

} // verus!
