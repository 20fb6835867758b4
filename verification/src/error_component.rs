//! The modal error view's state: the message and the scroll position. Up and
//! Down scroll within the message's lines; Escape dismisses the view and
//! returns to the list that was active before the error.

use vstd::prelude::*;

use crate::action::Action;
use crate::keys::KeyCode;
use crate::keys::KeyEvent;
use crate::strutil::str_chars;

verus! {

/// The number of line breaks in the text.
pub open spec fn newline_count(s: Seq<char>) -> nat
    decreases s.len(),
{
    if s.len() == 0 {
        0
    } else {
        newline_count(s.drop_last()) + if s.last() == '\n' {
            1nat
        } else {
            0nat
        }
    }
}

/// The number of lines of the text, the way line iteration counts them: a
/// trailing line break opens no further line, and the empty text has none.
pub open spec fn line_count(s: Seq<char>) -> nat {
    if s.len() == 0 {
        0
    } else if s.last() == '\n' {
        newline_count(s)
    } else {
        newline_count(s) + 1
    }
}

proof fn lemma_newline_count_bound(s: Seq<char>)
    ensures
        newline_count(s) <= s.len(),
    decreases s.len(),
{
    if s.len() > 0 {
        lemma_newline_count_bound(s.drop_last());
    }
}

proof fn lemma_newline_count_take(s: Seq<char>, i: int)
    requires
        0 <= i < s.len(),
    ensures
        newline_count(s.take(i + 1)) == newline_count(s.take(i)) + if s[i] == '\n' {
            1nat
        } else {
            0nat
        },
{
    let t = s.take(i + 1);
    assert(t.drop_last() =~= s.take(i));
    assert(t.last() == s[i]);
}

/// Counts the lines of the text.
pub fn count_lines(s: &str) -> (n: usize)
    ensures
        n as nat == line_count(s@),
{
    let chars = str_chars(s);
    let len = chars.len();
    if len == 0 {
        return 0;
    }
    let mut breaks: usize = 0;
    let mut i: usize = 0;
    proof {
        assert(chars@.take(0) =~= Seq::<char>::empty());
    }
    while i < len
        invariant
            chars@ == s@,
            len == chars@.len(),
            0 <= i <= len,
            breaks as nat == newline_count(chars@.take(i as int)),
            breaks <= i,
        decreases len - i,
    {
        proof {
            lemma_newline_count_take(chars@, i as int);
        }
        if chars[i] == '\n' {
            breaks = breaks + 1;
        }
        i = i + 1;
    }
    proof {
        assert(chars@.take(len as int) =~= chars@);
    }
    if chars[len - 1] == '\n' {
        breaks
    } else {
        proof {
            assert(newline_count(chars@) == newline_count(chars@.drop_last()));
            lemma_newline_count_bound(chars@.drop_last());
        }
        breaks + 1
    }
}

/// The scrollable error display: the message shown, the scroll offset, and
/// the height of the last drawn area (maintained by the rendering side).
pub struct ErrorComponent {
    pub message: Option<String>,
    pub scroll: u16,
    pub last_height: u16,
}

impl Default for ErrorComponent {
    fn default() -> (r: Self)
        ensures
            r.message is None,
            r.scroll == 0,
            r.last_height == 0,
    {
        ErrorComponent { message: None, scroll: 0, last_height: 0 }
    }
}

impl ErrorComponent {
    /// The bottom line of the message is already visible, so scrolling down
    /// is refused. Without a message nothing scrolls.
    pub open spec fn scrolled_to_bottom(&self) -> bool {
        match self.message {
            Some(m) => self.scroll + self.last_height >= line_count(m@),
            None => false,
        }
    }

    pub fn new() -> (r: Self)
        ensures
            r.message is None,
            r.scroll == 0,
            r.last_height == 0,
    {
        ErrorComponent::default()
    }

    pub fn set_message(&mut self, message: String)
        ensures
            final(self).message matches Some(m) && m@ == message@,
            final(self).scroll == old(self).scroll,
            final(self).last_height == old(self).last_height,
    {
        self.message = Some(message);
    }

    /// Records the height of the drawn area, which bounds the scrolling.
    pub fn set_last_height(&mut self, height: u16)
        ensures
            final(self).last_height == height,
            final(self).message == old(self).message,
            final(self).scroll == old(self).scroll,
    {
        self.last_height = height;
    }

    fn has_scrolled_to_bottom(&self) -> (b: bool)
        ensures
            b == self.scrolled_to_bottom(),
    {
        match &self.message {
            Some(message) => {
                let total_lines = count_lines(message.as_str());
                let visible = (self.scroll as usize) + (self.last_height as usize);
                visible >= total_lines
            },
            None => false,
        }
    }

    /// Handles one key of the error view: Up and Down scroll within the
    /// message (never past its ends), Escape clears the view and dismisses
    /// the error, anything else is ignored.
    pub fn handle_key_events(&mut self, key: KeyEvent) -> (r: Option<Action>)
        ensures
            key.code is Up ==> {
                &&& r is None
                &&& final(self).message == old(self).message
                &&& final(self).scroll == if old(self).scroll > 0 {
                    (old(self).scroll - 1) as u16
                } else {
                    0u16
                }
            },
            key.code is Down ==> {
                &&& r is None
                &&& final(self).message == old(self).message
                &&& final(self).scroll == if !old(self).scrolled_to_bottom() && old(self).scroll
                    < u16::MAX {
                    (old(self).scroll + 1) as u16
                } else {
                    old(self).scroll
                }
            },
            key.code is Esc ==> {
                &&& r == Some(Action::ExitError)
                &&& final(self).message is None
                &&& final(self).scroll == 0
                &&& final(self).last_height == 0
            },
            !(key.code is Up) && !(key.code is Down) && !(key.code is Esc) ==> {
                &&& r is None
                &&& *final(self) == *old(self)
            },
    {
        match key.code {
            KeyCode::Up => {
                if self.scroll > 0 {
                    self.scroll = self.scroll - 1;
                }
                None
            },
            KeyCode::Down => {
                if !self.has_scrolled_to_bottom() && self.scroll < u16::MAX {
                    self.scroll = self.scroll + 1;
                }
                None
            },
            KeyCode::Esc => {
                self.scroll = 0;
                self.message = None;
                self.last_height = 0;
                Some(Action::ExitError)
            },
            _ => None,
        }
    }
}

} // verus!
