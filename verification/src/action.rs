//! The closed union of every state-transition request that travels over the
//! action bus: navigation, mode changes, item lifecycle, loading markers,
//! render/resize/tick, and error signals.

use vstd::prelude::*;

verus! {

#[derive(Debug, Clone, PartialEq, Eq)]
pub enum Action {
    CheckoutSelectedBranch,
    CreateBranch(String),
    DeleteBranch,
    DeleteStagedBranches,
    EndInputMod,
    EndInputMode,
    Error(String),
    ItemsLoaded,
    LoadingComplete,
    ExitError,
    InitNewBranch,
    InitNewStash,
    InputSubmitted(String),
    Quit,
    Refresh,
    Render,
    Resize(u16, u16),
    Resume,
    SelectNext,
    SelectPrevious,
    SelectNextBranch,
    SelectPreviousBranch,
    SelectNextStash,
    SelectPreviousStash,
    StageBranchForDeletion,
    StartInputMode,
    SetLoading(bool),
    Suspend,
    Tick,
    ToggleView,
    UnstageBranchForDeletion,
    ApplySelectedStash,
    PopSelectedStash,
    DropSelectedStash,
    StageStashForDeletion,
    UnstageStashForDeletion,
    DeleteStagedStashes,
    CreateStash(String),
}

} // verus!
