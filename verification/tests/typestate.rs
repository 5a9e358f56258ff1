use blog::{DraftPost, PendingReviewPost0, PendingReviewPost1, Post};

#[test]
fn new_post_is_an_empty_draft() {
    let draft: DraftPost = Post::new();
    let post: Post = draft.request_review().approve().approve();
    assert_eq!(post.content(), "");
}

#[test]
fn each_transition_leads_to_the_type_of_the_next_stage() {
    let mut draft: DraftPost = Post::new();
    draft.add_text("typed");
    let first: PendingReviewPost0 = draft.request_review();
    let second: PendingReviewPost1 = first.approve();
    let post: Post = second.approve();
    assert_eq!(post.content(), "typed");
}

#[test]
fn post_rejected_in_second_review_is_published_in_the_next_round() {
    let mut post = Post::new();
    post.add_text("I ate salad for lunch today");
    let post = post.request_review();
    let post = post.approve();
    let post = post.reject();
    let post = post.request_review();
    let post = post.approve();
    let post = post.approve();
    assert_eq!("I ate salad for lunch today", post.content());
}

#[test]
fn draft_joins_fragments_in_call_order() {
    let mut draft = Post::new();
    draft.add_text("one");
    draft.add_text("");
    draft.add_text(" two");
    draft.add_text(" \u{2713}");
    let post = draft.request_review().approve().approve();
    assert_eq!(post.content(), "one two \u{2713}");
}

#[test]
fn rejection_in_first_review_returns_a_draft_with_the_text() {
    let mut draft = Post::new();
    draft.add_text("A");
    let mut draft: DraftPost = draft.request_review().reject();
    draft.add_text("C");
    let post = draft.request_review().approve().approve();
    assert_eq!(post.content(), "AC");
}

#[test]
fn rejection_in_second_review_returns_a_draft_with_the_text() {
    let mut draft = Post::new();
    draft.add_text("before");
    let mut draft: DraftPost = draft.request_review().approve().reject();
    draft.add_text(" after");
    let post = draft.request_review().approve().approve();
    assert_eq!(post.content(), "before after");
}

#[test]
fn text_survives_repeated_rejections() {
    let mut draft = Post::new();
    draft.add_text("1");
    let mut draft = draft.request_review().reject();
    draft.add_text("2");
    let mut draft = draft.request_review().approve().reject();
    draft.add_text("3");
    let post = draft.request_review().approve().approve();
    assert_eq!(post.content(), "123");
}

#[test]
fn reading_a_post_does_not_consume_it() {
    let mut draft = Post::new();
    draft.add_text("again");
    let post = draft.request_review().approve().approve();
    assert_eq!(post.content(), "again");
    assert_eq!(post.content(), "again");
}

#[test]
fn typed_and_dynamic_documents_publish_the_same_text() {
    let mut draft = Post::new();
    let mut doc = blog::Document::new();
    for fragment in ["A", "bc", "", "d"] {
        draft.add_text(fragment);
        doc.add_text(fragment);
    }
    let mut draft = draft.request_review().approve().reject();
    doc.request_review();
    doc.approve();
    doc.reject();
    draft.add_text("E");
    doc.add_text("E");
    let post = draft.request_review().approve().approve();
    doc.request_review();
    doc.approve();
    doc.approve();
    assert_eq!(post.content(), "AbcdE");
    assert_eq!(doc.content(), post.content());
}
