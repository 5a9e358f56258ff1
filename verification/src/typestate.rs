//! The workflow with one type for each stage: an operation exists only on
//! the types of the stages that allow it, and each transition consumes the
//! document and returns it at the type of the next stage.
//!
//! Each type is viewed as a document of the model whose stage is the one
//! that the type stands for, so the contracts here read as those of
//! [`crate::document::Document`] do.

use crate::workflow::{DocumentView, State};
use vstd::prelude::*;
use vstd::string::StringExecFns;

verus! {

/// A published document: the only stage whose content can be read.
pub struct Post {
    content: String,
}

/// A document that is being written: the only stage that takes text.
pub struct DraftPost {
    content: String,
}

/// A document in its first review, not approved yet.
pub struct PendingReviewPost0 {
    content: String,
}

/// A document in its second review, approved once.
pub struct PendingReviewPost1 {
    content: String,
}

impl View for Post {
    type V = DocumentView;

    open spec fn view(&self) -> DocumentView {
        DocumentView { state: State::Published, text: self.text() }
    }
}

impl View for DraftPost {
    type V = DocumentView;

    open spec fn view(&self) -> DocumentView {
        DocumentView { state: State::Draft, text: self.text() }
    }
}

impl View for PendingReviewPost0 {
    type V = DocumentView;

    open spec fn view(&self) -> DocumentView {
        DocumentView { state: State::FirstReview, text: self.text() }
    }
}

impl View for PendingReviewPost1 {
    type V = DocumentView;

    open spec fn view(&self) -> DocumentView {
        DocumentView { state: State::SecondReview, text: self.text() }
    }
}

impl Post {
    /// The text that the document holds.
    pub closed spec fn text(&self) -> Seq<char> {
        self.content@
    }

    /// Starts a document: a draft without text.
    pub fn new() -> (draft: DraftPost)
        ensures
            draft@ == DocumentView::fresh(),
    {
        DraftPost { content: String::new() }
    }

    /// The text of the published document.
    pub fn content(&self) -> (visible: &str)
        ensures
            visible@ == self@.content(),
    {
        self.content.as_str()
    }
}

impl DraftPost {
    /// The text that the document holds.
    pub closed spec fn text(&self) -> Seq<char> {
        self.content@
    }

    /// Appends `text` to the draft.
    pub fn add_text(&mut self, text: &str)
        ensures
            final(self)@ == old(self)@.add_text(text@),
    {
        self.content.append(text);
    }

    /// Sends the draft to its first review, with its text.
    pub fn request_review(self) -> (pending: PendingReviewPost0)
        ensures
            pending@ == self@.request_review(),
    {
        PendingReviewPost0 { content: self.content }
    }
}

/// The two ways out of a review, for a document in either of the two
/// reviews.
trait Review: View<V = DocumentView> + Sized {
    /// The type of the stage that an approval leads to.
    type T: View<V = DocumentView>;

    /// Moves the document to the stage that follows an approval, with its text.
    fn approve_draft(self) -> (approved: Self::T)
        ensures
            approved@ == self@.approve(),
    ;

    /// Moves the document back to the draft stage, with its text.
    fn reject_draft(self) -> (draft: DraftPost)
        ensures
            draft@ == self@.reject(),
    ;
}

impl PendingReviewPost0 {
    /// The text that the document holds.
    pub closed spec fn text(&self) -> Seq<char> {
        self.content@
    }

    /// Gives the first approval: the document moves to its second review,
    /// with its text.
    pub fn approve(self) -> (pending: PendingReviewPost1)
        ensures
            pending@ == self@.approve(),
    {
        self.approve_draft()
    }

    /// Sends the document back to the draft stage, with its text.
    pub fn reject(self) -> (draft: DraftPost)
        ensures
            draft@ == self@.reject(),
    {
        self.reject_draft()
    }
}

impl Review for PendingReviewPost0 {
    type T = PendingReviewPost1;

    fn approve_draft(self) -> (approved: PendingReviewPost1) {
        PendingReviewPost1 { content: self.content }
    }

    fn reject_draft(self) -> (draft: DraftPost) {
        DraftPost { content: self.content }
    }
}

impl PendingReviewPost1 {
    /// The text that the document holds.
    pub closed spec fn text(&self) -> Seq<char> {
        self.content@
    }

    /// Gives the second approval: the document is published, with its text.
    pub fn approve(self) -> (post: Post)
        ensures
            post@ == self@.approve(),
    {
        self.approve_draft()
    }

    /// Sends the document back to the draft stage, with its text.
    pub fn reject(self) -> (draft: DraftPost)
        ensures
            draft@ == self@.reject(),
    {
        self.reject_draft()
    }
}

impl Review for PendingReviewPost1 {
    type T = Post;

    fn approve_draft(self) -> (approved: Post) {
        Post { content: self.content }
    }

    fn reject_draft(self) -> (draft: DraftPost) {
        DraftPost { content: self.content }
    }
}

} // verus!
