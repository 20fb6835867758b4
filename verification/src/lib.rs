//! Core logic of an interactive terminal manager for local git branches and
//! stashes: the action-dispatch engine, the generic list state machine, input
//! validation, and the parsers for the output of the git command line.
//!
//! Terminal handling, subprocess execution and rendering live outside this
//! library; they drive it through plain values and apply the completions it
//! computes.

use vstd::prelude::*;

mod action;
mod action_bus;
mod app_core;
mod branch_action_handler;
mod branch_data_source;
mod branch_input;
mod branch_input_handler;
mod branch_item;
pub mod branch_list;
pub mod cli_parse;
mod error;
pub mod error_component;
pub mod generic_input;
pub mod generic_list;
mod git_types;
mod instruction_footer;
mod keys;
mod list_traits;
mod mock_git_repo;
mod mode;
mod stash_action_handler;
mod stash_data_source;
mod stash_input;
mod stash_input_handler;
mod stash_item;
pub mod stash_list;
pub mod strutil;
pub mod text_input;
pub mod time_format;

pub use action::Action;
pub use action_bus::ActionBus;
pub use app_core::App;
pub use app_core::TerminalDirective;
pub use app_core::View;
pub use branch_action_handler::bulk_branch_targets;
pub use branch_action_handler::BranchActionHandler;
pub use branch_data_source::BranchDataSource;
pub use branch_input::branch_name_taken;
pub use branch_input::BranchInput;
pub use branch_input_handler::branch_name_acceptable;
pub use branch_input_handler::name_unique;
pub use branch_input_handler::BranchInputHandler;
pub use branch_item::lemma_branch_stage_round_trip;
pub use branch_item::BranchItem;
pub use branch_item::BranchItemV;
pub use branch_list::BranchList;
pub use error::Error;
pub use error_component::ErrorComponent;
pub use generic_input::GenericInputComponent;
pub use generic_list::GenericListComponent;
pub use generic_list::LoadingOperation;
pub use generic_list::SharedListState;
pub use git_types::GitBranch;
pub use git_types::GitBranchV;
pub use git_types::GitRemoteBranch;
pub use git_types::GitRemoteBranchV;
pub use git_types::GitRepo;
pub use git_types::GitStash;
pub use git_types::GitStashV;
pub use instruction_footer::InstructionFooter;
pub use keys::KeyCode;
pub use keys::KeyEvent;
pub use keys::KeyModifiers;
pub use list_traits::InputHandler;
pub use list_traits::ListActionHandler;
pub use list_traits::ListDataSource;
pub use list_traits::ListItemWrapper;
pub use list_traits::ListOperation;
pub use list_traits::ManagedItem;
pub use mock_git_repo::MockGitRepo;
pub use mode::Mode;
pub use stash_action_handler::bulk_stash_targets;
pub use stash_action_handler::StashActionHandler;
pub use stash_data_source::StashDataSource;
pub use stash_input::StashInput;
pub use stash_input_handler::StashInputHandler;
pub use stash_item::lemma_stash_stage_round_trip;
pub use stash_item::StashItem;
pub use stash_item::StashItemV;
pub use stash_list::StashList;
pub use text_input::InputState;
pub use text_input::TextInput;

verus! {

} // verus!
