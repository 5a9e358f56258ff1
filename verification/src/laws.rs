//! Theorems about the workflow, proved of the model in [`crate::workflow`]
//! that the contracts of [`crate::document::Document`] are stated over.

use crate::workflow::{DocumentView, Operation, State};
use vstd::prelude::*;

verus! {

/// An operation that the workflow does not allow at the document's stage
/// leaves the document at that stage, with the text it had.
pub proof fn disallowed_operation_changes_nothing(doc: DocumentView, op: Operation)
    requires
        !op.allowed_in(doc.state),
    ensures
        doc.apply(op) == doc,
{
}

/// Running `first` and then `second` is running the two as one sequence.
pub proof fn run_in_two_parts(doc: DocumentView, first: Seq<Operation>, second: Seq<Operation>)
    ensures
        doc.run(first + second) == doc.run(first).run(second),
    decreases second.len(),
{
    if second.len() > 0 {
        run_in_two_parts(doc, first, second.drop_last());
        assert((first + second).drop_last() =~= first + second.drop_last());
    }
}

/// The text of a document is the text it started with, followed by the
/// fragments handed to `add_text` while the document was a draft, in call
/// order. A published document shows exactly that; any other shows nothing.
pub proof fn text_is_what_drafts_accepted(doc: DocumentView, ops: Seq<Operation>)
    ensures
        doc.run(ops).text == doc.text + doc.accepted_fragments(ops).flatten(),
        doc.run(ops).content() == if doc.run(ops).state is Published {
            doc.text + doc.accepted_fragments(ops).flatten()
        } else {
            Seq::empty()
        },
    decreases ops.len(),
{
    if ops.len() > 0 {
        let before = ops.drop_last();
        let fragment = doc.accepted_fragment(ops, ops.len() - 1);
        text_is_what_drafts_accepted(doc, before);
        assert forall|i: int| 0 <= i < before.len() implies doc.accepted_fragment(ops, i)
            == doc.accepted_fragment(before, i) by {
            assert(ops.take(i) =~= before.take(i));
        }
        assert(doc.accepted_fragments(ops) =~= doc.accepted_fragments(before).push(fragment));
        doc.accepted_fragments(before).lemma_flatten_push(fragment);
    }
}

/// A new document that is published shows the fragments handed to
/// `add_text` while it was a draft, joined in call order, and nothing else.
pub proof fn new_document_shows_what_drafts_accepted(ops: Seq<Operation>)
    ensures
        DocumentView::fresh().run(ops).content() == if DocumentView::fresh().run(
            ops,
        ).state is Published {
            DocumentView::fresh().accepted_fragments(ops).flatten()
        } else {
            Seq::empty()
        },
{
    let accepted = DocumentView::fresh().accepted_fragments(ops).flatten();
    text_is_what_drafts_accepted(DocumentView::fresh(), ops);
    assert(Seq::<char>::empty() + accepted =~= accepted);
}

/// Text handed to `add_text` while the document is not a draft is dropped
/// for good: the document stays as it was, and whatever is done afterwards,
/// it ends as if that call had never been made.
pub proof fn dropped_text_never_reappears(
    doc: DocumentView,
    text: Seq<char>,
    later: Seq<Operation>,
)
    requires
        !(doc.state is Draft),
    ensures
        doc.add_text(text) == doc,
        doc.run(seq![Operation::AddText(text)] + later) == doc.run(later),
{
    let call = seq![Operation::AddText(text)];
    assert(doc.run(call) == doc) by {
        assert(doc.run(call.drop_last()) == doc);
    }
    run_in_two_parts(doc, call, later);
}

/// From a draft, a request for review and two approvals publish the
/// document with its text. After the request alone, and after one approval,
/// the document is still short of publication and shows nothing.
pub proof fn two_approvals_publish(doc: DocumentView)
    requires
        doc.state is Draft,
    ensures
        doc.request_review() == (DocumentView { state: State::FirstReview, text: doc.text }),
        doc.request_review().content() == Seq::<char>::empty(),
        doc.request_review().approve() == (DocumentView {
            state: State::SecondReview,
            text: doc.text,
        }),
        doc.request_review().approve().content() == Seq::<char>::empty(),
        doc.request_review().approve().approve() == (DocumentView {
            state: State::Published,
            text: doc.text,
        }),
        doc.request_review().approve().approve().content() == doc.text,
{
}

/// `ops` holds a request for review.
pub open spec fn holds_request(ops: Seq<Operation>) -> bool {
    exists|i: int| 0 <= i < ops.len() && ops[i] is RequestReview
}

/// `ops` holds a request for review and, after it, an approval.
pub open spec fn holds_request_and_approval(ops: Seq<Operation>) -> bool {
    exists|i: int, j: int|
        0 <= i < j < ops.len() && ops[i] is RequestReview && ops[j] is Approve
}

/// `ops` holds a request for review and, after it, two approvals.
pub open spec fn holds_request_and_two_approvals(ops: Seq<Operation>) -> bool {
    exists|i: int, j: int, k: int|
        0 <= i < j < k < ops.len() && ops[i] is RequestReview && ops[j] is Approve
            && ops[k] is Approve
}

/// No stage is reached from a draft with less than the workflow asks for:
/// the first review takes a request for review, the second review an
/// approval after the request, and publication two approvals after it.
pub proof fn progress_takes_request_and_approvals(doc: DocumentView, ops: Seq<Operation>)
    requires
        doc.state is Draft,
    ensures
        doc.run(ops).state is FirstReview ==> holds_request(ops),
        doc.run(ops).state is SecondReview ==> holds_request_and_approval(ops),
        doc.run(ops).state is Published ==> holds_request_and_two_approvals(ops),
    decreases ops.len(),
{
    if ops.len() > 0 {
        let before = ops.drop_last();
        let last = ops.len() - 1;
        let reached = doc.run(before).state;
        progress_takes_request_and_approvals(doc, before);
        if doc.run(ops).state is FirstReview {
            if reached is FirstReview {
                let i = choose|i: int| 0 <= i < before.len() && before[i] is RequestReview;
                assert(ops[i] is RequestReview);
            } else {
                assert(ops[last] is RequestReview);
            }
        } else if doc.run(ops).state is SecondReview {
            if reached is SecondReview {
                let (i, j) = choose|i: int, j: int|
                    0 <= i < j < before.len() && before[i] is RequestReview
                        && before[j] is Approve;
                assert(ops[i] is RequestReview && ops[j] is Approve);
            } else {
                let i = choose|i: int| 0 <= i < before.len() && before[i] is RequestReview;
                assert(ops[i] is RequestReview && ops[last] is Approve);
            }
        } else if doc.run(ops).state is Published {
            if reached is Published {
                let (i, j, k) = choose|i: int, j: int, k: int|
                    0 <= i < j < k < before.len() && before[i] is RequestReview
                        && before[j] is Approve && before[k] is Approve;
                assert(ops[i] is RequestReview && ops[j] is Approve && ops[k] is Approve);
            } else {
                let (i, j) = choose|i: int, j: int|
                    0 <= i < j < before.len() && before[i] is RequestReview
                        && before[j] is Approve;
                assert(ops[i] is RequestReview && ops[j] is Approve && ops[last] is Approve);
            }
        }
    }
}

/// A rejection at either review stage returns the document to the draft
/// stage with the text it had. More text, a new request for review and two
/// approvals then publish the old text followed by the new one.
pub proof fn reject_keeps_text_for_the_next_round(doc: DocumentView, text: Seq<char>)
    requires
        doc.state is FirstReview || doc.state is SecondReview,
    ensures
        doc.reject() == (DocumentView { state: State::Draft, text: doc.text }),
        doc.reject().add_text(text).request_review().approve().approve() == (DocumentView {
            state: State::Published,
            text: doc.text + text,
        }),
        doc.reject().add_text(text).request_review().approve().approve().content() == doc.text
            + text,
{
}

/// A published document stays published, with its text, whatever is done
/// to it.
pub proof fn published_is_final(doc: DocumentView, ops: Seq<Operation>)
    requires
        doc.state is Published,
    ensures
        doc.run(ops) == doc,
    decreases ops.len(),
{
    if ops.len() > 0 {
        published_is_final(doc, ops.drop_last());
    }
}

} // verus!
