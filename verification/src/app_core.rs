//! The application's top level: which view is active, whether the process
//! should quit or suspend, and the loop-level transition for each action. The
//! terminal loop applies the directive this module returns — it owns the
//! terminal, while every decision is taken here.

use vstd::prelude::*;
use vstd::view::View as _;

use crate::action::Action;
use crate::error_component::ErrorComponent;
use crate::keys::KeyCode;
use crate::keys::KeyEvent;
use crate::keys::KeyModifiers;
use crate::mode::Mode;

verus! {

/// Which list view is active.
#[derive(Debug, Clone, Copy, PartialEq, Eq)]
pub enum View {
    Branches,
    Stashes,
}

/// What the terminal loop must do after a loop-level transition.
#[derive(Debug, Clone, Copy, PartialEq, Eq)]
pub enum TerminalDirective {
    /// Nothing terminal-side; go on dispatching.
    Proceed,
    /// Clear the screen (a modal view changed).
    Clear,
    /// Resize the backing buffer, clear, and queue a redraw.
    ResizeThenRender(u16, u16),
    /// Draw the active view.
    Draw,
    /// Clear and queue a redraw (a refresh was dispatched).
    ClearThenRender,
}

/// The other list view.
pub open spec fn toggled(v: View) -> View {
    match v {
        View::Branches => View::Stashes,
        View::Stashes => View::Branches,
    }
}

/// The loop-level application state.
pub struct App {
    pub mode: Mode,
    pub view: View,
    pub should_quit: bool,
    pub should_suspend: bool,
    pub error_component: ErrorComponent,
}

impl App {
    pub fn new() -> (r: Self)
        ensures
            r.mode is Default,
            r.view is Branches,
            !r.should_quit,
            !r.should_suspend,
            r.error_component.message is None,
    {
        App {
            mode: Mode::Default,
            view: View::Branches,
            should_quit: false,
            should_suspend: false,
            error_component: ErrorComponent::new(),
        }
    }

    /// The key bindings the loop applies before any view sees the key:
    /// Ctrl+C always quits; in the default mode Escape quits and Tab switches
    /// the active list view. In input and error modes those keys belong to
    /// the active view.
    pub fn global_key_action(&self, key: KeyEvent) -> (r: Option<Action>)
        ensures
            r == self.global_key_action_spec(key),
    {
        match key.code {
            KeyCode::Char(c) => {
                if (c == 'c' || c == 'C') && matches!(key.modifiers, KeyModifiers::Control) {
                    Some(Action::Quit)
                } else {
                    None
                }
            },
            KeyCode::Esc => {
                if matches!(self.mode, Mode::Default) {
                    Some(Action::Quit)
                } else {
                    None
                }
            },
            KeyCode::Tab => {
                if matches!(self.mode, Mode::Default) {
                    Some(Action::ToggleView)
                } else {
                    None
                }
            },
            _ => None,
        }
    }

    /// What `global_key_action` returns.
    pub open spec fn global_key_action_spec(&self, key: KeyEvent) -> Option<Action> {
        match key.code {
            KeyCode::Char(c) => if (c == 'c' || c == 'C') && key.modifiers is Control {
                Some(Action::Quit)
            } else {
                None
            },
            KeyCode::Esc => if self.mode is Default {
                Some(Action::Quit)
            } else {
                None
            },
            KeyCode::Tab => if self.mode is Default {
                Some(Action::ToggleView)
            } else {
                None
            },
            _ => None,
        }
    }

    /// Applies one action at the loop level: mode and flag changes, the
    /// modal error view, and view switching. Returns what the terminal side
    /// must do. Actions the loop does not own leave the state untouched.
    pub fn apply_action(&mut self, action: &Action) -> (d: TerminalDirective)
        ensures
            final(self).view == if *action is ToggleView {
                toggled(old(self).view)
            } else {
                old(self).view
            },
            ({
                match *action {
                    Action::StartInputMode => {
                        &&& final(self).mode is Input
                        &&& final(self).should_quit == old(self).should_quit
                        &&& final(self).should_suspend == old(self).should_suspend
                        &&& final(self).error_component == old(self).error_component
                        &&& d == TerminalDirective::Proceed
                    },
                    Action::EndInputMod => {
                        &&& final(self).mode is Default
                        &&& final(self).should_quit == old(self).should_quit
                        &&& final(self).should_suspend == old(self).should_suspend
                        &&& final(self).error_component == old(self).error_component
                        &&& d == TerminalDirective::Proceed
                    },
                    Action::Quit => {
                        &&& final(self).should_quit
                        &&& final(self).mode == old(self).mode
                        &&& final(self).should_suspend == old(self).should_suspend
                        &&& final(self).error_component == old(self).error_component
                        &&& d == TerminalDirective::Proceed
                    },
                    Action::Suspend => {
                        &&& final(self).should_suspend
                        &&& final(self).mode == old(self).mode
                        &&& final(self).should_quit == old(self).should_quit
                        &&& final(self).error_component == old(self).error_component
                        &&& d == TerminalDirective::Proceed
                    },
                    Action::Resume => {
                        &&& !final(self).should_suspend
                        &&& final(self).mode == old(self).mode
                        &&& final(self).should_quit == old(self).should_quit
                        &&& final(self).error_component == old(self).error_component
                        &&& d == TerminalDirective::Proceed
                    },
                    Action::Error(message) => {
                        &&& final(self).mode is Error
                        &&& (final(self).error_component.message matches Some(m) && m@ == message@)
                        &&& final(self).should_quit == old(self).should_quit
                        &&& final(self).should_suspend == old(self).should_suspend
                        &&& d == TerminalDirective::Clear
                    },
                    Action::ExitError => {
                        &&& final(self).mode is Default
                        &&& final(self).error_component == old(self).error_component
                        &&& final(self).should_quit == old(self).should_quit
                        &&& final(self).should_suspend == old(self).should_suspend
                        &&& d == TerminalDirective::Clear
                    },
                    Action::Resize(w, h) => {
                        &&& *final(self) == *old(self)
                        &&& d == TerminalDirective::ResizeThenRender(w, h)
                    },
                    Action::Render => {
                        &&& *final(self) == *old(self)
                        &&& d == TerminalDirective::Draw
                    },
                    Action::Refresh => {
                        &&& *final(self) == *old(self)
                        &&& d == TerminalDirective::ClearThenRender
                    },
                    Action::ToggleView => {
                        &&& final(self).mode == old(self).mode
                        &&& final(self).should_quit == old(self).should_quit
                        &&& final(self).should_suspend == old(self).should_suspend
                        &&& final(self).error_component == old(self).error_component
                        &&& d == TerminalDirective::ClearThenRender
                    },
                    _ => {
                        &&& *final(self) == *old(self)
                        &&& d == TerminalDirective::Proceed
                    },
                }
            }),
    {
        match action {
            Action::StartInputMode => {
                self.mode = Mode::Input;
                TerminalDirective::Proceed
            },
            Action::EndInputMod => {
                self.mode = Mode::Default;
                TerminalDirective::Proceed
            },
            Action::Quit => {
                self.should_quit = true;
                TerminalDirective::Proceed
            },
            Action::Suspend => {
                self.should_suspend = true;
                TerminalDirective::Proceed
            },
            Action::Resume => {
                self.should_suspend = false;
                TerminalDirective::Proceed
            },
            Action::Error(message) => {
                self.mode = Mode::Error;
                self.error_component.set_message(message.clone());
                TerminalDirective::Clear
            },
            Action::ExitError => {
                self.mode = Mode::Default;
                TerminalDirective::Clear
            },
            Action::Resize(w, h) => TerminalDirective::ResizeThenRender(*w, *h),
            Action::Render => TerminalDirective::Draw,
            Action::Refresh => TerminalDirective::ClearThenRender,
            Action::ToggleView => {
                self.view = match self.view {
                    View::Branches => View::Stashes,
                    View::Stashes => View::Branches,
                };
                TerminalDirective::ClearThenRender
            },
            _ => TerminalDirective::Proceed,
        }
    }
}

} // verus!
