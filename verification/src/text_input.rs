//! The single-line text input: a character buffer plus the value/validity
//! pair the views read. Escape clears and cancels; Enter submits when the
//! trimmed buffer is accepted by the validation callback; any editing key
//! re-validates the new content.

use vstd::prelude::*;

use crate::action::Action;
use crate::keys::KeyCode;
use crate::keys::KeyEvent;
use crate::keys::KeyModifiers;
use crate::strutil::chars_to_string;
use crate::strutil::trim_chars;
use crate::strutil::trimmed;

verus! {

/// What the rendering reads of an input field: the last accepted text and
/// whether it was valid.
#[derive(Debug, Clone)]
pub struct InputState {
    pub value: Option<String>,
    pub is_valid: Option<bool>,
}

impl Default for InputState {
    fn default() -> (r: Self)
        ensures
            r.value is None,
            r.is_valid is None,
    {
        InputState { value: None, is_valid: None }
    }
}

/// The buffer after one key: characters append, Backspace removes the last
/// one, control chords and other keys leave it unchanged.
pub open spec fn edited_buffer(s: Seq<char>, key: KeyEvent) -> Seq<char> {
    match key.code {
        KeyCode::Char(c) => if key.modifiers is Control {
            s
        } else {
            s.push(c)
        },
        KeyCode::Backspace => if s.len() > 0 {
            s.drop_last()
        } else {
            s
        },
        _ => s,
    }
}

/// Whether the key changes the buffer.
pub open spec fn key_edits(s: Seq<char>, key: KeyEvent) -> bool {
    match key.code {
        KeyCode::Char(c) => !(key.modifiers is Control),
        KeyCode::Backspace => s.len() > 0,
        _ => false,
    }
}

#[derive(Debug)]
pub struct TextInput {
    pub buffer: Vec<char>,
    pub input_state: InputState,
}

impl Default for TextInput {
    fn default() -> (r: Self)
        ensures
            r.buffer@.len() == 0,
            r.input_state.value is None,
            r.input_state.is_valid is None,
    {
        TextInput { buffer: Vec::new(), input_state: InputState::default() }
    }
}

impl TextInput {
    pub fn new() -> (r: Self)
        ensures
            r.buffer@.len() == 0,
            r.input_state.value is None,
            r.input_state.is_valid is None,
    {
        TextInput::default()
    }

    /// Appends the characters of `s` to the buffer (the way prepared text is
    /// typed into the field).
    pub fn insert_str(&mut self, s: &str)
        ensures
            final(self).buffer@ == old(self).buffer@ + s@,
            final(self).input_state == old(self).input_state,
    {
        let chars = crate::strutil::str_chars(s);
        let n = chars.len();
        let mut i: usize = 0;
        while i < n
            invariant
                n == chars@.len(),
                chars@ == s@,
                0 <= i <= n,
                self.buffer@ == old(self).buffer@ + s@.subrange(0, i as int),
                self.input_state == old(self).input_state,
            decreases n - i,
        {
            self.buffer.push(chars[i]);
            proof {
                assert(old(self).buffer@ + s@.subrange(0, i + 1) =~= (old(self).buffer@
                    + s@.subrange(0, i as int)).push(s@[i as int]));
            }
            i = i + 1;
        }
        proof {
            assert(s@.subrange(0, s@.len() as int) == s@);
        }
    }

    /// The trimmed buffer content; `None` when nothing but whitespace is in
    /// it.
    pub fn get_text(&self) -> (r: Option<String>)
        ensures
            match r {
                Some(s) => s@ == trimmed(self.buffer@) && s@.len() > 0,
                None => trimmed(self.buffer@).len() == 0,
            },
    {
        let t = trim_chars(&self.buffer);
        if t.len() == 0 {
            None
        } else {
            Some(chars_to_string(&t))
        }
    }

    /// Handles one key. Escape clears everything and cancels; Enter submits
    /// the trimmed buffer if the callback accepts it and marks it invalid
    /// otherwise; an editing key updates the buffer and re-validates.
    pub fn handle_key_event<F: Fn(&str) -> bool>(&mut self, key_event: KeyEvent, validate_fn: F) -> (r:
        Option<Action>)
        requires
            forall|s: &str| #[trigger] call_requires(validate_fn, (s,)),
        ensures
            key_event.code is Esc ==> {
                &&& r == Some(Action::EndInputMode)
                &&& final(self).buffer@.len() == 0
                &&& final(self).input_state.value is None
                &&& final(self).input_state.is_valid is None
            },
            key_event.code is Enter && trimmed(old(self).buffer@).len() == 0 ==> r is None
                && *final(self) == *old(self),
            key_event.code is Enter && trimmed(old(self).buffer@).len() > 0 ==> (exists|
                s: &str,
                b: bool,
            |
                {
                    &&& s@ == trimmed(old(self).buffer@)
                    &&& #[trigger] call_ensures(validate_fn, (s,), b)
                    &&& if b {
                        &&& (r matches Some(Action::InputSubmitted(txt)) && txt@ == trimmed(
                            old(self).buffer@,
                        ))
                        &&& final(self).buffer@.len() == 0
                        &&& (final(self).input_state.value matches Some(v) && v@ == trimmed(
                            old(self).buffer@,
                        ))
                        &&& final(self).input_state.is_valid == Some(true)
                    } else {
                        &&& r is None
                        &&& final(self).buffer@ == old(self).buffer@
                        &&& final(self).input_state.value == old(self).input_state.value
                        &&& final(self).input_state.is_valid == Some(false)
                    }
                }),
            !(key_event.code is Esc) && !(key_event.code is Enter) ==> {
                &&& r is None
                &&& final(self).buffer@ == edited_buffer(old(self).buffer@, key_event)
                &&& (!key_edits(old(self).buffer@, key_event) ==> *final(self) == *old(self))
                &&& (key_edits(old(self).buffer@, key_event) && trimmed(
                    edited_buffer(old(self).buffer@, key_event),
                ).len() == 0 ==> final(self).input_state == old(self).input_state)
                &&& (key_edits(old(self).buffer@, key_event) && trimmed(
                    edited_buffer(old(self).buffer@, key_event),
                ).len() > 0 ==> (exists|s: &str, b: bool|
                    {
                        &&& s@ == trimmed(edited_buffer(old(self).buffer@, key_event))
                        &&& #[trigger] call_ensures(validate_fn, (s,), b)
                        &&& (final(self).input_state.value matches Some(v) && v@ == trimmed(
                            edited_buffer(old(self).buffer@, key_event),
                        ))
                        &&& final(self).input_state.is_valid == Some(b)
                    }))
            },
    {
        match key_event.code {
            KeyCode::Esc => {
                self.input_state.value = None;
                self.input_state.is_valid = None;
                self.buffer = Vec::new();
                Some(Action::EndInputMode)
            },
            KeyCode::Enter => {
                let text_opt = self.get_text();
                match text_opt {
                    Some(text) => {
                        if validate_fn(text.as_str()) {
                            self.input_state.value = Some(text.clone());
                            self.input_state.is_valid = Some(true);
                            self.buffer = Vec::new();
                            Some(Action::InputSubmitted(text))
                        } else {
                            self.input_state.is_valid = Some(false);
                            None
                        }
                    },
                    None => None,
                }
            },
            _ => {
                let mut changed = false;
                match key_event.code {
                    KeyCode::Char(c) => {
                        if let KeyModifiers::Control = key_event.modifiers {
                        } else {
                            self.buffer.push(c);
                            changed = true;
                        }
                    },
                    KeyCode::Backspace => {
                        if self.buffer.len() > 0 {
                            let _ = self.buffer.pop();
                            changed = true;
                        }
                    },
                    _ => {},
                }
                if changed {
                    let text_opt = self.get_text();
                    if let Some(new_text) = text_opt {
                        let ok = validate_fn(new_text.as_str());
                        self.input_state.value = Some(new_text);
                        self.input_state.is_valid = Some(ok);
                    }
                }
                None
            },
        }
    }
}

} // verus!
