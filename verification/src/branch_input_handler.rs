//! Validation and submission for the branch-creation input: a name is
//! accepted only if it is non-empty after trimming, no current branch carries
//! it, and the repository approves it.

use vstd::prelude::*;

use crate::action::Action;
use crate::git_types::GitBranch;
use crate::git_types::GitBranchV;
use crate::git_types::GitRepo;
use crate::list_traits::views_of;
use crate::list_traits::InputHandler;
use crate::strutil::chars_to_string;
use crate::strutil::str_chars;
use crate::strutil::str_eq;
use crate::strutil::trim_chars;
use crate::strutil::trimmed;

verus! {

/// No current branch carries the name.
pub open spec fn name_unique(items: Seq<GitBranchV>, name: Seq<char>) -> bool {
    forall|i: int| 0 <= i < items.len() ==> (#[trigger] items[i]).name != name
}

/// The branch-name decision, with the repository's verdict handed in: the
/// name is acceptable exactly when the repository approved it, it is
/// non-empty after trimming, and no current branch carries it. This pins the
/// whole truth table; only the `approved` bit comes from outside.
pub fn branch_name_acceptable(approved: bool, current_items: &Vec<GitBranch>, input: &str) -> (b:
    bool)
    ensures
        b == (approved && trimmed(input@).len() > 0 && name_unique(
            views_of(current_items@),
            trimmed(input@),
        )),
{
    let chars = str_chars(input);
    let t = trim_chars(&chars);
    if t.len() == 0 {
        return false;
    }
    let proposed = chars_to_string(&t);
    let unique = no_current_branch_named(current_items, proposed.as_str());
    approved && unique
}

/// Whether no current branch carries exactly this name.
fn no_current_branch_named(current_items: &Vec<GitBranch>, name: &str) -> (b: bool)
    ensures
        b == name_unique(views_of(current_items@), name@),
{
    let n = current_items.len();
    let mut unique = true;
    let mut i: usize = 0;
    while i < n
        invariant
            n == current_items@.len(),
            0 <= i <= n,
            unique ==> forall|j: int|
                0 <= j < i ==> (#[trigger] current_items@[j])@.name != name@,
            !unique ==> exists|j: int|
                0 <= j < i && (#[trigger] current_items@[j])@.name == name@,
        decreases n - i,
    {
        let item = vstd::std_specs::vec::vec_index(current_items, i);
        if str_eq(item.name.as_str(), name) {
            proof {
                assert(current_items@[i as int]@.name == name@);
            }
            unique = false;
        }
        i = i + 1;
    }
    proof {
        assert(forall|i: int|
            0 <= i < current_items@.len() ==> #[trigger] views_of(current_items@)[i]
                == current_items@[i]@);
        if !unique {
            let j = choose|j: int|
                0 <= j < current_items@.len() && (#[trigger] current_items@[j])@.name == name@;
            assert(views_of(current_items@)[j].name == name@);
        }
    }
    unique
}

pub struct BranchInputHandler;

impl<R: GitRepo> InputHandler<GitBranch, R> for BranchInputHandler {
    /// Accepted names are non-empty after trimming and not already taken.
    open spec fn valid_requirement(&self, items: Seq<GitBranchV>, input: Seq<char>) -> bool {
        trimmed(input).len() > 0 && name_unique(items, trimmed(input))
    }

    /// The verdict also asks the repository to approve the name, so it is not
    /// a pure function of the items and the text.
    open spec fn repo_independent(&self) -> bool {
        false
    }

    open spec fn pure_verdict(&self, items: Seq<GitBranchV>, input: Seq<char>) -> bool {
        false
    }

    open spec fn submit_matches(&self, input: Seq<char>, a: Action) -> bool {
        a matches Action::CreateBranch(s) && s@ == trimmed(input)
    }

    fn validate_input(&self, repo: &R, current_items: &Vec<GitBranch>, input: &String) -> (b: bool)
    {
        // the repository is asked only for a non-empty name nobody carries;
        // a repository error counts as rejection
        let chars = str_chars(input.as_str());
        let t = trim_chars(&chars);
        let approved = if t.len() == 0 {
            false
        } else {
            let proposed = chars_to_string(&t);
            if !no_current_branch_named(current_items, proposed.as_str()) {
                false
            } else {
                match repo.validate_branch_name(proposed.as_str()) {
                    Ok(v) => v,
                    Err(_) => false,
                }
            }
        };
        branch_name_acceptable(approved, current_items, input.as_str())
    }

    fn create_submit_action(&self, input: String) -> (a: Action) {
        let chars = str_chars(input.as_str());
        let t = trim_chars(&chars);
        Action::CreateBranch(chars_to_string(&t))
    }

    fn get_input_prompt(&self) -> Option<String> {
        Some("Enter new branch name:".to_owned())
    }
}

} // verus!
