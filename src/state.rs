use vstd::prelude::*;

verus! {

/// The stage of a post's review workflow.
#[derive(Clone, Copy, Debug, PartialEq, Eq, Structural)]
pub enum State {
    Draft,
    PendingReview,
    Published,
}

/// The stage reached from `s` when a review is requested.
pub open spec fn after_review(s: State) -> State {
    match s {
        State::Draft => State::PendingReview,
        State::PendingReview => State::PendingReview,
        State::Published => State::Published,
    }
}

/// The stage reached from `s` when the post is approved.
pub open spec fn after_approval(s: State) -> State {
    match s {
        State::Draft => State::Draft,
        State::PendingReview => State::Published,
        State::Published => State::Published,
    }
}

/// The stage reached from `s` after `n` review requests in a row.
pub open spec fn after_reviews(s: State, n: nat) -> State
    decreases n,
{
    if n == 0 {
        s
    } else {
        after_review(after_reviews(s, (n - 1) as nat))
    }
}

/// The stage reached from `s` after `n` approvals in a row.
pub open spec fn after_approvals(s: State, n: nat) -> State
    decreases n,
{
    if n == 0 {
        s
    } else {
        after_approval(after_approvals(s, (n - 1) as nat))
    }
}

/// Requesting review any number of times, from any stage, settles after the
/// first request: later requests change nothing.
pub proof fn lemma_reviews_settle(s: State, n: nat)
    requires
        n >= 1,
    ensures
        after_reviews(s, n) == after_review(s),
        after_review(after_review(s)) == after_review(s),
    decreases n,
{
    assert(after_reviews(s, 0) == s);
    if n > 1 {
        lemma_reviews_settle(s, (n - 1) as nat);
    }
}

/// Approving any number of times, from any stage, settles after at most two
/// approvals: later approvals change nothing.
pub proof fn lemma_approvals_settle(s: State, n: nat)
    requires
        n >= 2,
    ensures
        after_approvals(s, n) == after_approvals(s, 2),
        after_approval(after_approvals(s, 2)) == after_approvals(s, 2),
    decreases n,
{
    assert(after_approvals(s, 0) == s);
    assert(after_approvals(s, 1) == after_approval(s));
    if n > 2 {
        lemma_approvals_settle(s, (n - 1) as nat);
    }
}

/// After one review request, from any stage, one or more approvals publish.
pub proof fn lemma_review_then_approvals_publish(s: State, n: nat)
    requires
        n >= 1,
    ensures
        after_approvals(after_review(s), n) == State::Published,
    decreases n,
{
    assert(after_approvals(after_review(s), 0) == after_review(s));
    if n > 1 {
        lemma_review_then_approvals_publish(s, (n - 1) as nat);
    }
}

/// Once published, a post stays published whatever is requested.
pub proof fn lemma_published_is_terminal()
    ensures
        after_review(State::Published) == State::Published,
        after_approval(State::Published) == State::Published,
{
}

/// Approving a draft leaves it a draft.
pub proof fn lemma_approving_draft_keeps_draft()
    ensures
        after_approval(State::Draft) == State::Draft,
{
}

impl State {
    /// Whether readers may see the post's text in this stage.
    pub open spec fn reveals(self) -> bool {
        self == State::Published
    }

    pub fn request_review(self) -> (r: State)
        ensures
            r == after_review(self),
    {
        match self {
            State::Draft => State::PendingReview,
            State::PendingReview => self,
            State::Published => self,
        }
    }

    pub fn approve(self) -> (r: State)
        ensures
            r == after_approval(self),
    {
        match self {
            State::Draft => self,
            State::PendingReview => State::Published,
            State::Published => self,
        }
    }

    /// The part of `text` that readers may see in this stage: all of it once
    /// published, nothing before.
    pub fn content<'a>(&self, text: &'a str) -> (r: &'a str)
        ensures
            self.reveals() ==> r@ == text@,
            !self.reveals() ==> r@ == Seq::<char>::empty(),
    {
        match self {
            State::Published => text,
            _ => {
                proof {
                    reveal_strlit("");
                }
                ""
            },
        }
    }
}

} // verus!
