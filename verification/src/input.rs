//! A single-line text field with a blinking cursor, driven entirely by
//! key presses.

use vstd::prelude::*;
use crate::keys::{KeyCode, KeyInput};
use crate::strutil::chars_to_string;

verus! {

/// The most characters an input field holds.
pub const INPUT_LIMIT: usize = 65536;

/// An editable line of text: the buffer, the cursor position inside it,
/// focus, and the blink phase.
#[derive(Debug)]
pub struct AnimatedInput {
    pub buffer: Vec<char>,
    pub placeholder: Vec<char>,
    pub title: String,
    pub focused: bool,
    pub cursor_position: usize,
    pub cursor_blink: u64,
}

impl AnimatedInput {
    /// The cursor always sits inside or just past the buffer.
    pub open spec fn wf(self) -> bool {
        &&& self.cursor_position <= self.buffer@.len()
        &&& self.buffer@.len() <= INPUT_LIMIT
        &&& self.cursor_blink < crate::menu::PULSE_WRAP
    }

    pub fn new(title: &str) -> (r: AnimatedInput)
        ensures
            r.wf(),
            r.buffer@.len() == 0,
            r.placeholder@.len() == 0,
            r.title@ == title@,
            !r.focused,
            r.cursor_position == 0,
            r.cursor_blink == 0,
    {
        AnimatedInput {
            buffer: Vec::new(),
            placeholder: Vec::new(),
            title: title.to_owned(),
            focused: false,
            cursor_position: 0,
            cursor_blink: 0,
        }
    }

    pub fn set_placeholder(&mut self, placeholder: Vec<char>)
        ensures
            *final(self) == (AnimatedInput { placeholder, ..*old(self) }),
    {
        self.placeholder = placeholder;
    }

    pub fn focus(&mut self)
        ensures
            *final(self) == (AnimatedInput { focused: true, ..*old(self) }),
    {
        self.focused = true;
    }

    pub fn unfocus(&mut self)
        ensures
            *final(self) == (AnimatedInput { focused: false, ..*old(self) }),
    {
        self.focused = false;
    }

    /// The text as typed so far.
    pub fn value(&self) -> (r: String)
        ensures
            r@ == self.buffer@,
    {
        chars_to_string(&self.buffer)
    }

    /// The characters typed so far.
    pub fn chars(&self) -> (r: &Vec<char>)
        ensures
            r == &self.buffer,
    {
        &self.buffer
    }

    pub fn is_focused(&self) -> (r: bool)
        ensures
            r == self.focused,
    {
        self.focused
    }

    pub fn cursor_position(&self) -> (r: usize)
        ensures
            r == self.cursor_position,
    {
        self.cursor_position
    }

    /// Replace the whole text; the cursor moves to its end.
    pub fn set_value(&mut self, value: Vec<char>)
        requires
            old(self).wf(),
            value@.len() <= INPUT_LIMIT,
        ensures
            final(self).wf(),
            final(self).buffer == value,
            final(self).cursor_position == value@.len(),
            final(self).placeholder == old(self).placeholder,
            final(self).title == old(self).title,
            final(self).focused == old(self).focused,
            final(self).cursor_blink == old(self).cursor_blink,
    {
        let n = value.len();
        self.buffer = value;
        self.cursor_position = n;
    }

    /// Edit the buffer by one key press: characters insert at the cursor,
    /// backspace deletes before it, delete at it, and the arrows, home
    /// and end move it. A full buffer swallows further characters.
    pub fn handle_key_event(&mut self, key: KeyInput)
        requires
            old(self).wf(),
        ensures
            final(self).wf(),
            final(self).placeholder == old(self).placeholder,
            final(self).title == old(self).title,
            final(self).focused == old(self).focused,
            final(self).cursor_blink == old(self).cursor_blink,
            key.code matches KeyCode::Char(c) ==> (old(self).buffer@.len() < INPUT_LIMIT ==> {
                &&& final(self).buffer@ == old(self).buffer@.subrange(
                    0,
                    old(self).cursor_position as int,
                ) + seq![c] + old(self).buffer@.subrange(
                    old(self).cursor_position as int,
                    old(self).buffer@.len() as int,
                )
                &&& final(self).cursor_position == old(self).cursor_position + 1
            }),
            key.code is Backspace ==> {
                &&& (old(self).cursor_position > 0 ==> final(self).buffer@ == old(self).buffer@.remove(old(self).cursor_position - 1) && final(self).cursor_position
                    == old(self).cursor_position - 1)
                &&& (old(self).cursor_position == 0 ==> *final(self) == *old(self))
            },
            key.code is Delete ==> {
                &&& (old(self).cursor_position < old(self).buffer@.len() ==> final(self).buffer@
                    == old(self).buffer@.remove(old(self).cursor_position as int) && final(self).cursor_position == old(self).cursor_position)
                &&& (old(self).cursor_position >= old(self).buffer@.len() ==> *final(self) == *old(self))
            },
            key.code is Left ==> final(self).buffer == old(self).buffer && final(self).cursor_position == (if old(self).cursor_position > 0 {
                old(self).cursor_position - 1
            } else {
                0int
            }),
            key.code is Right ==> final(self).buffer == old(self).buffer && final(self).cursor_position == (if old(self).cursor_position < old(self).buffer@.len() {
                old(self).cursor_position + 1
            } else {
                old(self).cursor_position as int
            }),
            key.code is Home ==> final(self).buffer == old(self).buffer && final(self).cursor_position == 0,
            key.code is End ==> final(self).buffer == old(self).buffer && final(self).cursor_position == old(self).buffer@.len(),
            (key.code is Up || key.code is Down || key.code is Enter || key.code is Esc
                || key.code is Other) ==> *final(self) == *old(self),
    {
        match key.code {
            KeyCode::Char(c) => {
                if self.buffer.len() < INPUT_LIMIT {
                    self.buffer.insert(self.cursor_position, c);
                    self.cursor_position = self.cursor_position + 1;
                }
            },
            KeyCode::Backspace => {
                if self.cursor_position > 0 {
                    self.cursor_position = self.cursor_position - 1;
                    self.buffer.remove(self.cursor_position);
                }
            },
            KeyCode::Delete => {
                if self.cursor_position < self.buffer.len() {
                    self.buffer.remove(self.cursor_position);
                }
            },
            KeyCode::Left => {
                if self.cursor_position > 0 {
                    self.cursor_position = self.cursor_position - 1;
                }
            },
            KeyCode::Right => {
                if self.cursor_position < self.buffer.len() {
                    self.cursor_position = self.cursor_position + 1;
                }
            },
            KeyCode::Home => {
                self.cursor_position = 0;
            },
            KeyCode::End => {
                self.cursor_position = self.buffer.len();
            },
            _ => {},
        }
    }

    /// How the field steps over one frame delta: the cursor blink turns
    /// while the field has focus, and nothing else moves.
    /// [`Self::update`] ensures exactly this relation.
    pub open spec fn updated(pre: AnimatedInput, post: AnimatedInput, delta_ms: u64) -> bool {
        &&& post.buffer == pre.buffer
        &&& post.placeholder == pre.placeholder
        &&& post.title == pre.title
        &&& post.cursor_position == pre.cursor_position
        &&& post.focused == pre.focused
        &&& (pre.focused ==> post.cursor_blink == (pre.cursor_blink + 2 * delta_ms) % (
        crate::menu::PULSE_WRAP as int))
        &&& (!pre.focused ==> post.cursor_blink == pre.cursor_blink)
    }

    /// Advance the cursor blink while the field has focus.
    pub fn update(&mut self, delta_ms: u64)
        requires
            old(self).wf(),
            delta_ms <= crate::animation::TIME_LIMIT,
        ensures
            final(self).wf(),
            AnimatedInput::updated(*old(self), *final(self), delta_ms),
    {
        if self.focused {
            self.cursor_blink = (self.cursor_blink + 2 * delta_ms) % crate::menu::PULSE_WRAP;
        }
    }
}

} // verus!
