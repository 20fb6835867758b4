//! The generic input sub-component of a list view: a text buffer validated by
//! a pluggable handler against the repository and the currently loaded items.
//! Enter submits the handler's action when the content was accepted; Escape
//! cancels; editing keys re-validate.

use vstd::prelude::*;

use crate::action::Action;
use crate::git_types::GitRepo;
use crate::keys::KeyCode;
use crate::keys::KeyEvent;
use crate::keys::KeyModifiers;
use crate::list_traits::views_of;
use crate::list_traits::InputHandler;
use crate::list_traits::ManagedItem;
use crate::strutil::chars_to_string;
use crate::strutil::trim_chars;
use crate::strutil::trimmed;
use crate::text_input::edited_buffer;
use crate::text_input::key_edits;
use crate::text_input::InputState;

verus! {

pub struct GenericInputComponent<IH, T> {
    pub handler: IH,
    pub buffer: Vec<char>,
    pub input_state: InputState,
    pub current_items: Vec<T>,
}

impl<IH, T: ManagedItem> GenericInputComponent<IH, T> {
    pub fn new(handler: IH, current_items: Vec<T>) -> (r: Self)
        ensures
            r.buffer@.len() == 0,
            r.input_state.value is None,
            r.input_state.is_valid is None,
            r.current_items@ == current_items@,
            r.handler == handler,
    {
        GenericInputComponent {
            handler,
            buffer: Vec::new(),
            input_state: InputState::default(),
            current_items,
        }
    }

    /// The trimmed buffer content; `None` when nothing but whitespace is in it.
    pub fn get_text(&self) -> (r: Option<String>)
        ensures
            match r {
                Some(s) => s@ == trimmed(self.buffer@) && s@.len() > 0,
                None => trimmed(self.buffer@).len() == 0,
            },
    {
        let t = trim_chars(&self.buffer);
        if t.len() == 0 {
            None
        } else {
            Some(chars_to_string(&t))
        }
    }

    /// Clears the field, as entering input mode does.
    pub fn reset(&mut self)
        ensures
            final(self).buffer@.len() == 0,
            final(self).input_state.value is None,
            final(self).input_state.is_valid is None,
            final(self).current_items@ == old(self).current_items@,
            final(self).handler == old(self).handler,
    {
        self.input_state = InputState::default();
        self.buffer = Vec::new();
    }

    /// Replaces the component's view of the loaded items (after a refresh).
    pub fn update_current_items(&mut self, current_items: Vec<T>)
        ensures
            final(self).current_items@ == current_items@,
            final(self).buffer@ == old(self).buffer@,
            final(self).input_state == old(self).input_state,
            final(self).handler == old(self).handler,
    {
        self.current_items = current_items;
    }

    /// Re-validates the current buffer content against the handler: a
    /// non-empty trimmed text gets the handler's verdict (`true` only if the
    /// handler's requirement holds of it); an empty one is invalid.
    fn validate<R: GitRepo>(&mut self, repo: &R) where IH: InputHandler<T, R>
        ensures
            final(self).buffer@ == old(self).buffer@,
            final(self).current_items@ == old(self).current_items@,
            final(self).handler == old(self).handler,
            trimmed(old(self).buffer@).len() == 0 ==> final(self).input_state.value is None
                && final(self).input_state.is_valid == Some(false),
            trimmed(old(self).buffer@).len() > 0 ==> {
                &&& (final(self).input_state.value matches Some(v) && v@ == trimmed(
                    old(self).buffer@,
                ))
                &&& (final(self).input_state.is_valid matches Some(b) && (b
                    ==> old(self).handler.valid_requirement(
                    views_of(old(self).current_items@),
                    trimmed(old(self).buffer@),
                )))
                &&& (old(self).handler.repo_independent() ==> final(self).input_state.is_valid
                    == Some(
                    old(self).handler.pure_verdict(
                        views_of(old(self).current_items@),
                        trimmed(old(self).buffer@),
                    ),
                ))
            },
    {
        let text_opt = self.get_text();
        match text_opt {
            Some(text) => {
                let is_valid = self.handler.validate_input(repo, &self.current_items, &text);
                self.input_state.is_valid = Some(is_valid);
                self.input_state.value = Some(text);
            },
            None => {
                self.input_state.is_valid = Some(false);
                self.input_state.value = None;
            },
        }
    }

    /// Handles one key while the view is in input mode. Escape clears and
    /// leaves input mode; Enter submits the handler's action exactly when the
    /// field was marked valid and holds text; editing keys update the buffer
    /// and re-validate it.
    pub fn handle_input_event<R: GitRepo>(&mut self, key_event: KeyEvent, repo: &R) -> (r: Option<
        Action,
    >) where IH: InputHandler<T, R>
        ensures
            final(self).current_items@ == old(self).current_items@,
            final(self).handler == old(self).handler,
            key_event.code is Esc ==> {
                &&& r == Some(Action::EndInputMod)
                &&& final(self).buffer@.len() == 0
                &&& final(self).input_state.value is None
                &&& final(self).input_state.is_valid is None
            },
            key_event.code is Enter ==> {
                &&& (old(self).input_state.is_valid == Some(true) && trimmed(
                    old(self).buffer@,
                ).len() > 0 ==> {
                    &&& (r matches Some(a) && old(self).handler.submit_matches(
                        trimmed(old(self).buffer@),
                        a,
                    ))
                    &&& final(self).buffer@.len() == 0
                    &&& final(self).input_state.value is None
                    &&& final(self).input_state.is_valid is None
                })
                &&& (!(old(self).input_state.is_valid == Some(true)) || trimmed(
                    old(self).buffer@,
                ).len() == 0 ==> r is None && *final(self) == *old(self))
            },
            !(key_event.code is Esc) && !(key_event.code is Enter) ==> {
                &&& r is None
                &&& final(self).buffer@ == edited_buffer(old(self).buffer@, key_event)
                &&& (!key_edits(old(self).buffer@, key_event) ==> *final(self) == *old(self))
                &&& (key_edits(old(self).buffer@, key_event) && trimmed(
                    edited_buffer(old(self).buffer@, key_event),
                ).len() > 0 ==> {
                    &&& (final(self).input_state.is_valid matches Some(b) && (b ==> old(self).handler.valid_requirement(
                        views_of(old(self).current_items@),
                        trimmed(edited_buffer(old(self).buffer@, key_event)),
                    )))
                    &&& (final(self).input_state.value matches Some(v) && v@ == trimmed(
                        edited_buffer(old(self).buffer@, key_event),
                    ))
                    &&& (old(self).handler.repo_independent() ==> final(self).input_state.is_valid == Some(
                        old(self).handler.pure_verdict(
                            views_of(old(self).current_items@),
                            trimmed(edited_buffer(old(self).buffer@, key_event)),
                        ),
                    ))
                })
                &&& (key_edits(old(self).buffer@, key_event) && trimmed(
                    edited_buffer(old(self).buffer@, key_event),
                ).len() == 0 ==> final(self).input_state.value is None && final(self).input_state.is_valid == Some(false))
            },
    {
        match key_event.code {
            KeyCode::Esc => {
                self.input_state.value = None;
                self.input_state.is_valid = None;
                self.buffer = Vec::new();
                Some(Action::EndInputMod)
            },
            KeyCode::Enter => {
                let valid = match self.input_state.is_valid {
                    Some(v) => v,
                    None => false,
                };
                if valid {
                    let text_opt = self.get_text();
                    match text_opt {
                        Some(text) => {
                            let action = self.handler.create_submit_action(text);
                            self.buffer = Vec::new();
                            self.input_state = InputState::default();
                            Some(action)
                        },
                        None => None,
                    }
                } else {
                    None
                }
            },
            _ => {
                let mut changed = false;
                match key_event.code {
                    KeyCode::Char(c) => {
                        if let KeyModifiers::Control = key_event.modifiers {
                        } else {
                            self.buffer.push(c);
                            changed = true;
                        }
                    },
                    KeyCode::Backspace => {
                        if self.buffer.len() > 0 {
                            let _ = self.buffer.pop();
                            changed = true;
                        }
                    },
                    _ => {},
                }
                if changed {
                    self.validate(repo);
                }
                None
            },
        }
    }
}

} // verus!
