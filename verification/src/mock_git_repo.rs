//! A repository stub for tests and examples: fixed branch and stash lists,
//! and stash operations that fail exactly when the stash message mentions
//! "fail" (in any letter case).

use vstd::prelude::*;

use crate::error::Error;
use crate::git_types::GitBranch;
use crate::git_types::GitRepo;
use crate::git_types::GitStash;
use crate::strutil::str_chars;
use crate::strutil::str_eq;

verus! {

/// The letters `f a i l` stand consecutively in `s` starting at `i`,
/// in either letter case.
pub open spec fn fail_at(s: Seq<char>, i: int) -> bool {
    &&& 0 <= i
    &&& i + 4 <= s.len()
    &&& (s[i] == 'f' || s[i] == 'F')
    &&& (s[i + 1] == 'a' || s[i + 1] == 'A')
    &&& (s[i + 2] == 'i' || s[i + 2] == 'I')
    &&& (s[i + 3] == 'l' || s[i + 3] == 'L')
}

/// The text mentions "fail", compared without regard to letter case.
pub open spec fn mentions_fail(s: Seq<char>) -> bool {
    exists|i: int| fail_at(s, i)
}

/// Whether the message mentions "fail" (in any letter case).
pub fn message_mentions_fail(message: &str) -> (b: bool)
    ensures
        b == mentions_fail(message@),
{
    let v = str_chars(message);
    if v.len() < 4 {
        proof {
            assert(forall|i: int| !fail_at(message@, i));
        }
        return false;
    }
    let n = v.len();
    let last = n - 4;
    let mut i: usize = 0;
    loop
        invariant
            v@ == message@,
            n == v@.len(),
            4 <= n,
            last == n - 4,
            0 <= i <= last,
            forall|k: int| 0 <= k < i ==> !fail_at(message@, k),
        decreases last - i,
    {
        let hit = (v[i] == 'f' || v[i] == 'F') && (v[i + 1] == 'a' || v[i + 1] == 'A') && (v[i + 2]
            == 'i' || v[i + 2] == 'I') && (v[i + 3] == 'l' || v[i + 3] == 'L');
        if hit {
            proof {
                assert(fail_at(message@, i as int));
            }
            return true;
        }
        if i == last {
            proof {
                assert(forall|k: int| fail_at(message@, k) ==> 0 <= k <= last);
            }
            return false;
        }
        i = i + 1;
    }
}

/// The fixed repository the stub serves.
#[derive(Debug, Clone)]
pub struct MockGitRepo;

impl GitRepo for MockGitRepo {
    fn local_branches(&self) -> Result<Vec<GitBranch>, Error> {
        let mut v: Vec<GitBranch> = Vec::new();
        v.push(GitBranch::new("main".to_owned()));
        v.push(GitBranch::new("test".to_owned()));
        Ok(v)
    }

    fn stashes(&self) -> Result<Vec<GitStash>, Error> {
        let mut v: Vec<GitStash> = Vec::new();
        v.push(
            GitStash::new(
                0,
                "message1".to_owned(),
                "stash@{0}".to_owned(),
                "branch_name".to_owned(),
            ),
        );
        Ok(v)
    }

    fn checkout_branch_from_name(&self, _branch_name: &str) -> Result<(), Error> {
        Ok(())
    }

    fn checkout_branch(&self, _branch: &GitBranch) -> Result<(), Error> {
        Ok(())
    }

    fn validate_branch_name(&self, _name: &str) -> Result<bool, Error> {
        Ok(true)
    }

    fn create_branch(&self, _to_create: &GitBranch) -> Result<(), Error> {
        Ok(())
    }

    fn delete_branch(&self, _to_delete: &GitBranch) -> Result<(), Error> {
        Ok(())
    }

    fn apply_stash(&self, stash: &GitStash) -> Result<(), Error> {
        if message_mentions_fail(stash.message.as_str()) {
            Err(Error::Git("Apply stash failed".to_owned()))
        } else {
            Ok(())
        }
    }

    fn pop_stash(&self, stash: &GitStash) -> Result<(), Error> {
        if message_mentions_fail(stash.message.as_str()) {
            Err(Error::Git("Pop stash failed".to_owned()))
        } else {
            Ok(())
        }
    }

    fn drop_stash(&self, stash: &GitStash) -> Result<(), Error> {
        if message_mentions_fail(stash.message.as_str()) {
            Err(Error::Git("Drop stash failed".to_owned()))
        } else {
            Ok(())
        }
    }

    fn stash_with_message(&self, message: &str) -> Result<bool, Error> {
        if str_eq(message, "should fail") {
            Err(Error::Git("Stash with message failed".to_owned()))
        } else {
            Ok(true)
        }
    }
}

} // verus!
