//! The application-wide mode: which part of the UI receives key events.

use vstd::prelude::*;

verus! {

#[derive(Default, Debug, Copy, Clone, PartialEq, Eq, Hash)]
pub enum Mode {
    #[default]
    Default,
    Input,
    Error,
}

} // verus!
