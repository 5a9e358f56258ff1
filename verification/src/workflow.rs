//! The workflow as a mathematical model: its stages, the operations on a
//! document, and what each operation does to a document at each stage.

use vstd::prelude::*;

verus! {

/// The stage of the workflow that a document is in.
#[derive(Clone, Copy, Debug, PartialEq, Eq, Structural)]
pub enum State {
    /// Being written; the only stage that takes text.
    Draft,
    /// Sent to review, not approved yet.
    FirstReview,
    /// Approved once, waiting for the second approval.
    SecondReview,
    /// Approved twice; the only stage that shows the content, and the last one.
    Published,
}

impl State {
    /// The stage after a request for review: a draft enters the first
    /// review, every other stage stays.
    pub open spec fn spec_request_review(self) -> State {
        match self {
            State::Draft => State::FirstReview,
            other => other,
        }
    }

    /// The stage after an approval: each review stage moves one step towards
    /// publication, every other stage stays.
    pub open spec fn spec_approve(self) -> State {
        match self {
            State::FirstReview => State::SecondReview,
            State::SecondReview => State::Published,
            other => other,
        }
    }

    /// The stage after a rejection: each review stage falls back to the
    /// draft, every other stage stays.
    pub open spec fn spec_reject(self) -> State {
        match self {
            State::FirstReview | State::SecondReview => State::Draft,
            other => other,
        }
    }

    /// Gives up the current stage for the one that follows a request for review.
    #[verifier::when_used_as_spec(spec_request_review)]
    pub fn request_review(self) -> (next: State)
        ensures
            next == self.spec_request_review(),
    {
        match self {
            State::Draft => State::FirstReview,
            other => other,
        }
    }

    /// Gives up the current stage for the one that follows an approval.
    #[verifier::when_used_as_spec(spec_approve)]
    pub fn approve(self) -> (next: State)
        ensures
            next == self.spec_approve(),
    {
        match self {
            State::FirstReview => State::SecondReview,
            State::SecondReview => State::Published,
            other => other,
        }
    }

    /// Gives up the current stage for the one that follows a rejection.
    #[verifier::when_used_as_spec(spec_reject)]
    pub fn reject(self) -> (next: State)
        ensures
            next == self.spec_reject(),
    {
        match self {
            State::FirstReview | State::SecondReview => State::Draft,
            other => other,
        }
    }
}

/// One call on a document, as the model sees it.
pub enum Operation {
    /// `add_text` with the given text.
    AddText(Seq<char>),
    /// `request_review`.
    RequestReview,
    /// `approve`.
    Approve,
    /// `reject`.
    Reject,
}

impl Operation {
    /// Whether the workflow allows this operation at `state`: writing and
    /// the request for review belong to the draft, approval and rejection to
    /// the two review stages, and nothing to a published document.
    pub open spec fn allowed_in(self, state: State) -> bool {
        match self {
            Operation::AddText(_) | Operation::RequestReview => state is Draft,
            Operation::Approve | Operation::Reject => state is FirstReview || state is SecondReview,
        }
    }
}

/// What a document is to its callers: the stage it is in and the text it
/// has taken so far.
pub struct DocumentView {
    pub state: State,
    pub text: Seq<char>,
}

impl DocumentView {
    /// A new document: a draft without text.
    pub open spec fn fresh() -> DocumentView {
        DocumentView { state: State::Draft, text: Seq::empty() }
    }

    /// A draft takes `text` at its end; at any other stage `text` is dropped.
    pub open spec fn add_text(self, text: Seq<char>) -> DocumentView {
        if self.state is Draft {
            DocumentView { state: self.state, text: self.text + text }
        } else {
            self
        }
    }

    /// The stage moves as [`State::request_review`] says; the text stays.
    pub open spec fn request_review(self) -> DocumentView {
        DocumentView { state: self.state.spec_request_review(), text: self.text }
    }

    /// The stage moves as [`State::approve`] says; the text stays.
    pub open spec fn approve(self) -> DocumentView {
        DocumentView { state: self.state.spec_approve(), text: self.text }
    }

    /// The stage moves as [`State::reject`] says; the text stays.
    pub open spec fn reject(self) -> DocumentView {
        DocumentView { state: self.state.spec_reject(), text: self.text }
    }

    /// What a reader gets: the text once the document is published, and
    /// nothing before.
    pub open spec fn content(self) -> Seq<char> {
        if self.state is Published {
            self.text
        } else {
            Seq::empty()
        }
    }

    /// The document after one operation.
    pub open spec fn apply(self, op: Operation) -> DocumentView {
        match op {
            Operation::AddText(text) => self.add_text(text),
            Operation::RequestReview => self.request_review(),
            Operation::Approve => self.approve(),
            Operation::Reject => self.reject(),
        }
    }

    /// The document after the operations `ops`, applied in order.
    pub open spec fn run(self, ops: Seq<Operation>) -> DocumentView
        decreases ops.len(),
    {
        if ops.len() == 0 {
            self
        } else {
            self.run(ops.drop_last()).apply(ops.last())
        }
    }

    /// What the operation at index `i` of `ops` adds to the text of a
    /// document that starts as `self`: the text of an `add_text` that finds
    /// the document in the draft stage, and nothing otherwise.
    pub open spec fn accepted_fragment(self, ops: Seq<Operation>, i: int) -> Seq<char> {
        match ops[i] {
            Operation::AddText(text) => if self.run(ops.take(i)).state is Draft {
                text
            } else {
                Seq::empty()
            },
            _ => Seq::empty(),
        }
    }

    /// The fragments that `ops` add to a document that starts as `self`,
    /// one for each operation, in call order.
    pub open spec fn accepted_fragments(self, ops: Seq<Operation>) -> Seq<Seq<char>> {
        Seq::new(ops.len(), |i: int| self.accepted_fragment(ops, i))
    }
}

} // verus!
