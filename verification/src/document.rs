//! The workflow with the stage held as a value: one document type on which
//! every operation can be called at every stage.

use crate::workflow::{DocumentView, State};
use vstd::prelude::*;
use vstd::string::StringExecFns;

verus! {

/// A document that knows its own stage.
///
/// No operation fails. One that the current stage does not allow leaves the
/// document as it was, and the caller is not told.
pub struct Document {
    state: State,
    content: String,
}

impl View for Document {
    type V = DocumentView;

    closed spec fn view(&self) -> DocumentView {
        DocumentView { state: self.state, text: self.content@ }
    }
}

impl Document {
    /// Creates a draft without text.
    pub fn new() -> (doc: Document)
        ensures
            doc@ == DocumentView::fresh(),
    {
        Document { state: State::Draft, content: String::new() }
    }

    /// Appends `text` to a draft. At any other stage `text` is dropped and
    /// the document stays as it was.
    pub fn add_text(&mut self, text: &str)
        ensures
            final(self)@ == old(self)@.add_text(text@),
    {
        match self.state {
            State::Draft => self.content.append(text),
            _ => {},
        }
    }

    /// Sends a draft to its first review. At any other stage the document
    /// stays as it was.
    pub fn request_review(&mut self)
        ensures
            final(self)@ == old(self)@.request_review(),
    {
        self.state = self.state.request_review();
    }

    /// Approves a document under review: the first approval moves it to the
    /// second review, the second one publishes it. At any other stage the
    /// document stays as it was.
    pub fn approve(&mut self)
        ensures
            final(self)@ == old(self)@.approve(),
    {
        self.state = self.state.approve();
    }

    /// Sends a document under review back to the draft stage, with its text.
    /// At any other stage the document stays as it was.
    pub fn reject(&mut self)
        ensures
            final(self)@ == old(self)@.reject(),
    {
        self.state = self.state.reject();
    }

    /// The text of a published document; the empty string at any other stage.
    pub fn content(&self) -> (visible: &str)
        ensures
            visible@ == self@.content(),
    {
        match self.state {
            State::Published => self.content.as_str(),
            _ => {
                proof {
                    reveal_strlit("");
                }
                ""
            },
        }
    }
}

} // verus!
