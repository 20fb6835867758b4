//! The stash list's data source: fetching asks the repository for its
//! stashes.

use vstd::prelude::*;

use crate::error::Error;
use crate::git_types::GitRepo;
use crate::git_types::GitStash;
use crate::list_traits::ListDataSource;

verus! {

pub struct StashDataSource;

impl<R: GitRepo> ListDataSource<GitStash, R> for StashDataSource {
    fn fetch_items(&self, repo: &R) -> Result<Vec<GitStash>, Error> {
        repo.stashes()
    }
}

} // verus!
