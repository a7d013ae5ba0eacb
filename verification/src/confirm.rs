//! A reusable yes/no confirmation dialog.

use vstd::prelude::*;
use crate::keys::{KeyCode, KeyInput};

verus! {

/// A modal question with two answers. It only reacts to keys while
/// visible, and hides itself once answered or cancelled.
#[derive(Debug)]
pub struct ConfirmationDialog {
    pub title: String,
    pub message: String,
    pub yes_text: String,
    pub no_text: String,
    pub is_visible: bool,
}

impl ConfirmationDialog {
    pub fn new(title: &str, message: &str) -> (r: ConfirmationDialog)
        ensures
            r.title@ == title@,
            r.message@ == message@,
            r.yes_text@ == "Yes"@,
            r.no_text@ == "No"@,
            !r.is_visible,
    {
        ConfirmationDialog {
            title: title.to_owned(),
            message: message.to_owned(),
            yes_text: "Yes".to_owned(),
            no_text: "No".to_owned(),
            is_visible: false,
        }
    }

    pub fn with_yes_text(self, text: &str) -> (r: ConfirmationDialog)
        ensures
            r.title == self.title,
            r.message == self.message,
            r.yes_text@ == text@,
            r.no_text == self.no_text,
            r.is_visible == self.is_visible,
    {
        ConfirmationDialog { yes_text: text.to_owned(), ..self }
    }

    pub fn with_no_text(self, text: &str) -> (r: ConfirmationDialog)
        ensures
            r.title == self.title,
            r.message == self.message,
            r.yes_text == self.yes_text,
            r.no_text@ == text@,
            r.is_visible == self.is_visible,
    {
        ConfirmationDialog { no_text: text.to_owned(), ..self }
    }

    pub fn show(&mut self)
        ensures
            *final(self) == (ConfirmationDialog { is_visible: true, ..*old(self) }),
    {
        self.is_visible = true;
    }

    pub fn dismiss(&mut self)
        ensures
            *final(self) == (ConfirmationDialog { is_visible: false, ..*old(self) }),
    {
        self.is_visible = false;
    }

    pub fn is_visible(&self) -> (r: bool)
        ensures
            r == self.is_visible,
    {
        self.is_visible
    }

    /// Answer the dialog: `y` confirms, `n` or escape declines, either
    /// hides it; other keys, or a hidden dialog, change nothing and
    /// answer nothing.
    pub fn handle_key_event(&mut self, key: KeyInput) -> (r: Option<bool>)
        ensures
            !old(self).is_visible ==> r is None && *final(self) == *old(self),
            old(self).is_visible ==> {
                &&& (key.code == KeyCode::Char('y') || key.code == KeyCode::Char('Y')) ==> r
                    == Some(true) && !final(self).is_visible
                &&& (key.code == KeyCode::Char('n') || key.code == KeyCode::Char('N')
                    || key.code is Esc) ==> r == Some(false) && !final(self).is_visible
                &&& !(key.code == KeyCode::Char('y') || key.code == KeyCode::Char('Y') || key.code
                    == KeyCode::Char('n') || key.code == KeyCode::Char('N') || key.code is Esc)
                    ==> r is None && *final(self) == *old(self)
            },
            final(self).title == old(self).title,
            final(self).message == old(self).message,
            final(self).yes_text == old(self).yes_text,
            final(self).no_text == old(self).no_text,
    {
        if !self.is_visible {
            return None;
        }
        match key.code {
            KeyCode::Char(c) => {
                if c == 'y' || c == 'Y' {
                    self.is_visible = false;
                    Some(true)
                } else if c == 'n' || c == 'N' {
                    self.is_visible = false;
                    Some(false)
                } else {
                    None
                }
            },
            KeyCode::Esc => {
                self.is_visible = false;
                Some(false)
            },
            _ => None,
        }
    }
}

} // verus!
