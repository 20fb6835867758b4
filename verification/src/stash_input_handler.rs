//! Validation and submission for the stash-message input: any message that is
//! non-empty after trimming is accepted.

use vstd::prelude::*;

use crate::action::Action;
use crate::git_types::GitRepo;
use crate::git_types::GitStash;
use crate::git_types::GitStashV;
use crate::list_traits::InputHandler;
use crate::strutil::chars_to_string;
use crate::strutil::str_chars;
use crate::strutil::trim_chars;
use crate::strutil::trimmed;

verus! {

pub struct StashInputHandler;

impl<R: GitRepo> InputHandler<GitStash, R> for StashInputHandler {
    /// Accepted messages are non-empty after trimming.
    open spec fn valid_requirement(&self, items: Seq<GitStashV>, input: Seq<char>) -> bool {
        trimmed(input).len() > 0
    }

    /// The verdict never asks the repository, so it is pinned exactly:
    /// a message is accepted precisely when it is non-empty after trimming.
    open spec fn repo_independent(&self) -> bool {
        true
    }

    open spec fn pure_verdict(&self, items: Seq<GitStashV>, input: Seq<char>) -> bool {
        trimmed(input).len() > 0
    }

    open spec fn submit_matches(&self, input: Seq<char>, a: Action) -> bool {
        a matches Action::CreateStash(s) && s@ == trimmed(input)
    }

    fn validate_input(&self, _repo: &R, _current_items: &Vec<GitStash>, input: &String) -> (b:
        bool) {
        let chars = str_chars(input.as_str());
        let t = trim_chars(&chars);
        t.len() > 0
    }

    fn create_submit_action(&self, input: String) -> (a: Action) {
        let chars = str_chars(input.as_str());
        let t = trim_chars(&chars);
        Action::CreateStash(chars_to_string(&t))
    }

    fn get_input_prompt(&self) -> Option<String> {
        Some("Enter stash message:".to_owned())
    }
}

} // verus!
