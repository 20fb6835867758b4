//! The stash-message input: any non-empty message is accepted, and a
//! submission becomes `Action::CreateStash`.

use vstd::prelude::*;

use crate::action::Action;
use crate::keys::KeyEvent;
use crate::strutil::trimmed;
use crate::text_input::edited_buffer;
use crate::text_input::TextInput;

verus! {

#[derive(Debug)]
pub struct StashInput {
    pub text_input: TextInput,
}

impl StashInput {
    pub fn new() -> (r: Self)
        ensures
            r.text_input.buffer@.len() == 0,
            r.text_input.input_state.value is None,
            r.text_input.input_state.is_valid is None,
    {
        StashInput { text_input: TextInput::new() }
    }

    /// Handles one key of the stash-message field. Escape cancels; Enter on a
    /// non-empty message submits `CreateStash` carrying the trimmed text.
    pub fn handle_key_event(&mut self, key_event: KeyEvent) -> (r: Option<Action>)
        ensures
            key_event.code is Esc ==> {
                &&& r == Some(Action::EndInputMode)
                &&& final(self).text_input.buffer@.len() == 0
                &&& final(self).text_input.input_state.value is None
                &&& final(self).text_input.input_state.is_valid is None
            },
            key_event.code is Enter && trimmed(old(self).text_input.buffer@).len() == 0 ==> r
                is None && *final(self) == *old(self),
            key_event.code is Enter && trimmed(old(self).text_input.buffer@).len() > 0 ==> {
                &&& (r matches Some(a) && a matches Action::CreateStash(txt) && txt@ == trimmed(
                    old(self).text_input.buffer@,
                ))
                &&& final(self).text_input.buffer@.len() == 0
                &&& final(self).text_input.input_state.is_valid == Some(true)
            },
            !(key_event.code is Esc) && !(key_event.code is Enter) ==> {
                &&& r is None
                &&& final(self).text_input.buffer@ == edited_buffer(
                    old(self).text_input.buffer@,
                    key_event,
                )
            },
    {
        let validate_fn = |_message: &str| -> (b: bool)
            ensures
                b,
            { true };
        let action = self.text_input.handle_key_event(key_event, validate_fn);
        match action {
            Some(a) => {
                match a {
                    Action::InputSubmitted(text) => Some(Action::CreateStash(text)),
                    other => Some(other),
                }
            },
            None => None,
        }
    }
}

} // verus!
