//! The branch list's data source: fetching asks the repository for its local
//! branches.

use vstd::prelude::*;

use crate::error::Error;
use crate::git_types::GitBranch;
use crate::git_types::GitRepo;
use crate::list_traits::ListDataSource;

verus! {

pub struct BranchDataSource;

impl<R: GitRepo> ListDataSource<GitBranch, R> for BranchDataSource {
    fn fetch_items(&self, repo: &R) -> Result<Vec<GitBranch>, Error> {
        repo.local_branches()
    }
}

} // verus!
