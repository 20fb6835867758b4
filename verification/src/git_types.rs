//! Domain values: local branches, their upstreams, and stashes.

use vstd::prelude::*;

use crate::error::Error;

verus! {

/// The abstract value of a `GitRemoteBranch`.
pub struct GitRemoteBranchV {
    pub name: Seq<char>,
    pub gone: bool,
}

/// The abstract value of a `GitBranch`.
pub struct GitBranchV {
    pub name: Seq<char>,
    pub is_head: bool,
    pub upstream: Option<GitRemoteBranchV>,
}

/// The abstract value of a `GitStash`.
pub struct GitStashV {
    pub index: usize,
    pub message: Seq<char>,
    pub stash_id: Seq<char>,
    pub branch_name: Seq<char>,
}

/// The upstream (remote-tracking) branch of a local branch. `gone` records
/// that the remote branch no longer exists.
#[derive(Debug, Clone, PartialEq, Eq)]
pub struct GitRemoteBranch {
    pub name: String,
    pub gone: bool,
}

impl View for GitRemoteBranch {
    type V = GitRemoteBranchV;

    open spec fn view(&self) -> GitRemoteBranchV {
        GitRemoteBranchV { name: self.name@, gone: self.gone }
    }
}

impl GitRemoteBranch {
    pub fn new(name: String) -> (r: Self)
        ensures
            r.name@ == name@,
            !r.gone,
    {
        GitRemoteBranch { name, gone: false }
    }
}

/// A local branch; `is_head` marks the currently checked-out branch.
#[derive(Debug, Clone, PartialEq, Eq)]
pub struct GitBranch {
    pub name: String,
    pub is_head: bool,
    pub upstream: Option<GitRemoteBranch>,
}

impl View for GitBranch {
    type V = GitBranchV;

    open spec fn view(&self) -> GitBranchV {
        GitBranchV {
            name: self.name@,
            is_head: self.is_head,
            upstream: match self.upstream {
                Some(u) => Some(u@),
                None => None,
            },
        }
    }
}

impl GitBranch {
    pub fn new(name: String) -> (r: Self)
        ensures
            r@.name == name@,
            !r@.is_head,
            r@.upstream is None,
    {
        GitBranch { name, is_head: false, upstream: None }
    }

    /// A copy with the same abstract value (the derived clone carries no
    /// contract, so copying is spelled out).
    pub fn duplicate(&self) -> (r: Self)
        ensures
            r@ == self@,
    {
        let upstream = match &self.upstream {
            Some(u) => Some(GitRemoteBranch { name: u.name.clone(), gone: u.gone }),
            None => None,
        };
        GitBranch { name: self.name.clone(), is_head: self.is_head, upstream }
    }
}

/// One entry of the stash list, as `git stash list` reports it.
#[derive(Debug, Clone, PartialEq, Eq)]
pub struct GitStash {
    pub index: usize,
    pub message: String,
    pub stash_id: String,
    pub branch_name: String,
}

impl View for GitStash {
    type V = GitStashV;

    open spec fn view(&self) -> GitStashV {
        GitStashV {
            index: self.index,
            message: self.message@,
            stash_id: self.stash_id@,
            branch_name: self.branch_name@,
        }
    }
}

impl GitStash {
    pub fn new(index: usize, message: String, stash_id: String, branch_name: String) -> (r: Self)
        ensures
            r@.index == index,
            r@.message == message@,
            r@.stash_id == stash_id@,
            r@.branch_name == branch_name@,
    {
        GitStash { index, message, stash_id, branch_name }
    }

    /// A copy with the same abstract value.
    pub fn duplicate(&self) -> (r: Self)
        ensures
            r@ == self@,
    {
        GitStash {
            index: self.index,
            message: self.message.clone(),
            stash_id: self.stash_id.clone(),
            branch_name: self.branch_name.clone(),
        }
    }
}

impl crate::list_traits::ManagedItem for GitBranch {
    fn duplicate(&self) -> (t: Self) {
        GitBranch::duplicate(self)
    }
}

impl crate::list_traits::ManagedItem for GitStash {
    fn duplicate(&self) -> (t: Self) {
        GitStash::duplicate(self)
    }
}

/// The repository gateway. What each call returns depends on the state of the
/// repository behind it, so the methods carry no contracts: callers treat
/// every outcome as possible. Adapters (a subprocess-backed one outside this
/// library, and [`crate::MockGitRepo`] here) implement it.
pub trait GitRepo: Sized {
    fn local_branches(&self) -> Result<Vec<GitBranch>, Error>;

    fn stashes(&self) -> Result<Vec<GitStash>, Error>;

    fn checkout_branch_from_name(&self, branch_name: &str) -> Result<(), Error>;

    fn checkout_branch(&self, branch: &GitBranch) -> Result<(), Error>;

    fn validate_branch_name(&self, name: &str) -> Result<bool, Error>;

    fn create_branch(&self, to_create: &GitBranch) -> Result<(), Error>;

    fn delete_branch(&self, to_delete: &GitBranch) -> Result<(), Error>;

    fn apply_stash(&self, stash: &GitStash) -> Result<(), Error>;

    fn pop_stash(&self, stash: &GitStash) -> Result<(), Error>;

    fn drop_stash(&self, stash: &GitStash) -> Result<(), Error>;

    /// `Ok(false)` means there was nothing to stash.
    fn stash_with_message(&self, message: &str) -> Result<bool, Error>;
}

} // verus!
