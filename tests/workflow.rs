use oop_state_pattern::{Post, State};

#[test]
fn new_post_is_empty_draft() {
    let post = Post::new();
    assert_eq!("", post.content());
    assert_eq!(State::Draft, post.state());
}

#[test]
fn salad_post_is_published_after_review_and_approval() {
    let mut post = Post::new();
    post.add_text("I ate a salad for lunch today");
    assert_eq!("", post.content());
    post.request_review();
    assert_eq!("", post.content());
    post.approve();
    assert_eq!("I ate a salad for lunch today", post.content());
}

#[test]
fn approving_a_draft_skips_nothing() {
    let mut post = Post::new();
    post.add_text("I ate a salad for lunch today");
    post.approve();
    assert_eq!("", post.content());
    assert_eq!(State::Draft, post.state());
    post.request_review();
    post.approve();
    assert_eq!("I ate a salad for lunch today", post.content());
    assert_eq!(State::Published, post.state());
}

#[test]
fn text_accumulates_across_review_steps() {
    let mut post = Post::new();
    post.add_text("one");
    post.request_review();
    post.add_text(", two");
    post.approve();
    post.add_text(", three");
    assert_eq!("one, two, three", post.content());
    post.add_text("");
    post.approve();
    post.request_review();
    assert_eq!("one, two, three", post.content());
}

#[test]
fn hidden_while_pending_review() {
    let mut post = Post::new();
    post.add_text("draft text");
    post.request_review();
    assert_eq!(State::PendingReview, post.state());
    assert_eq!("", post.content());
}

#[test]
fn repeated_review_requests_settle() {
    let mut post = Post::new();
    post.request_review();
    post.request_review();
    post.request_review();
    assert_eq!(State::PendingReview, post.state());
}

#[test]
fn repeated_approvals_settle_on_published() {
    let mut post = Post::new();
    post.add_text("x");
    post.request_review();
    post.approve();
    post.approve();
    post.approve();
    assert_eq!(State::Published, post.state());
    post.request_review();
    assert_eq!(State::Published, post.state());
    assert_eq!("x", post.content());
}

#[test]
fn published_reveals_non_ascii_text() {
    let mut post = Post::new();
    post.add_text("café ");
    post.add_text("日本");
    post.request_review();
    post.approve();
    assert_eq!("café 日本", post.content());
}

#[test]
fn state_transitions_follow_the_table() {
    assert_eq!(State::PendingReview, State::Draft.request_review());
    assert_eq!(State::PendingReview, State::PendingReview.request_review());
    assert_eq!(State::Published, State::Published.request_review());
    assert_eq!(State::Draft, State::Draft.approve());
    assert_eq!(State::Published, State::PendingReview.approve());
    assert_eq!(State::Published, State::Published.approve());
    assert_eq!("", State::Draft.content("abc"));
    assert_eq!("", State::PendingReview.content("abc"));
    assert_eq!("abc", State::Published.content("abc"));
}
