//! A text field whose edits wait until they are entered. A field that is left without
//! that gives its name back as it was; what was typed is dropped.
use vstd::prelude::*;

use crate::strings::{same_text, trim, trimmed};

verus! {

/// What such a field remembers between two frames.
#[derive(Debug)]
pub struct NameField {
    pub draft: String,
    pub was_focused: bool,
    pub error: Option<String>,
}

/// What a frame of the field leads to.
#[derive(Debug)]
pub struct NameFrame {
    /// What the field shows.
    pub shown: String,
    /// What is to be committed; the reply goes to `committed`.
    pub commit: Option<String>,
}

impl NameField {
    pub fn new() -> (r: NameField)
        ensures
            r.draft@ == ""@,
            !r.was_focused,
            r.error is None,
    {
        NameField { draft: "".to_owned(), was_focused: false, error: None }
    }

    /// One frame of the field over the model's `value`: while it is not edited the
    /// draft follows the value, and when it was just left the value is committed
    /// once more, without its margins.
    pub fn frame(&mut self, value: &str, focused: bool) -> (r: NameFrame)
        ensures
            final(self).draft@ == (if focused {
                old(self).draft@
            } else {
                value@
            }),
            final(self).error == (if !focused && old(self).draft@ != value@ {
                None
            } else {
                old(self).error
            }),
            final(self).was_focused == focused,
            r.shown@ == final(self).draft@,
            match r.commit {
                Some(text) => old(self).was_focused && !focused && text@ == trimmed(value@),
                None => !old(self).was_focused || focused,
            },
    {
        if !focused && !same_text(&self.draft, value) {
            self.draft = value.to_owned();
            self.error = None;
        }
        let commit = if self.was_focused && !focused {
            Some(trim(&self.draft).to_owned())
        } else {
            None
        };
        self.was_focused = focused;
        let shown = if focused {
            self.draft.clone()
        } else {
            value.to_owned()
        };
        NameFrame { shown, commit }
    }

    /// The text was edited.
    pub fn edited(&mut self, text: String)
        ensures
            *final(self) == (NameField { draft: text, ..*old(self) }),
    {
        self.draft = text;
    }

    /// Enter was pressed: what is to be committed. The reply goes to `committed`,
    /// with this same text.
    pub fn submitted(text: &str) -> (r: String)
        ensures
            r@ == trimmed(text@),
    {
        trim(text).to_owned()
    }

    /// Takes the reply to a commit: the draft becomes `kept`, or the refusal is
    /// shown and the draft stays.
    pub fn committed(&mut self, kept: String, reply: Result<(), String>)
        ensures
            match reply {
                Ok(_) => *final(self) == (NameField {
                    draft: kept,
                    error: None,
                    was_focused: old(self).was_focused,
                }),
                Err(e) => *final(self) == (NameField { error: Some(e), ..*old(self) }),
            },
    {
        match reply {
            Ok(_) => {
                self.error = None;
                self.draft = kept;
            },
            Err(e) => {
                self.error = Some(e);
            },
        }
    }
}

} // verus!
