use vstd::prelude::*;
use vstd::string::StringExecFns;
use crate::state::{State, after_review, after_approval};

verus! {

/// What a post is, abstractly: its stage and all the text added to it.
pub struct PostView {
    pub state: State,
    pub content: Seq<char>,
}

/// A blog post. Text can be added at any time; readers see it only once the
/// post has been reviewed and approved.
pub struct Post {
    state: State,
    content: String,
}

impl View for Post {
    type V = PostView;

    closed spec fn view(&self) -> PostView {
        PostView { state: self.state, content: self.content@ }
    }
}

/// What readers see of a post in the abstract state `v`.
pub open spec fn visible(v: PostView) -> Seq<char> {
    if v.state.reveals() {
        v.content
    } else {
        Seq::empty()
    }
}

/// One operation on a post, as its abstract effect sees it.
pub enum Action {
    AddText(Seq<char>),
    RequestReview,
    Approve,
}

/// The abstract state after applying `a` to `v`.
pub open spec fn step(v: PostView, a: Action) -> PostView {
    match a {
        Action::AddText(t) => PostView { state: v.state, content: v.content + t },
        Action::RequestReview => PostView { state: after_review(v.state), content: v.content },
        Action::Approve => PostView { state: after_approval(v.state), content: v.content },
    }
}

/// The abstract state after applying `acts` to `v`, first to last.
pub open spec fn run(v: PostView, acts: Seq<Action>) -> PostView
    decreases acts.len(),
{
    if acts.len() == 0 {
        v
    } else {
        step(run(v, acts.drop_last()), acts.last())
    }
}

/// All the text that `acts` add, in order.
pub open spec fn added_text(acts: Seq<Action>) -> Seq<char>
    decreases acts.len(),
{
    if acts.len() == 0 {
        Seq::empty()
    } else {
        let rest = added_text(acts.drop_last());
        match acts.last() {
            Action::AddText(t) => rest + t,
            _ => rest,
        }
    }
}

/// The abstract state of a new post.
pub open spec fn fresh() -> PostView {
    PostView { state: State::Draft, content: Seq::empty() }
}

/// Whatever operations are applied, and in whatever order the review steps
/// come between them, the text of the post is its text before followed by
/// every added text in the order it was added.
pub proof fn lemma_content_is_concatenation(v: PostView, acts: Seq<Action>)
    ensures
        run(v, acts).content == v.content + added_text(acts),
    decreases acts.len(),
{
    if acts.len() == 0 {
        assert(v.content + Seq::<char>::empty() =~= v.content);
    } else {
        lemma_content_is_concatenation(v, acts.drop_last());
        let rest = added_text(acts.drop_last());
        match acts.last() {
            Action::AddText(t) => {
                assert(v.content + rest + t =~= v.content + (rest + t));
            },
            _ => {},
        }
    }
}

/// The text of a post made new is exactly the concatenation of the texts
/// added to it, in order.
pub proof fn lemma_new_post_content(acts: Seq<Action>)
    ensures
        run(fresh(), acts).content == added_text(acts),
{
    lemma_content_is_concatenation(fresh(), acts);
    assert(Seq::<char>::empty() + added_text(acts) =~= added_text(acts));
}

/// Approving a draft changes nothing: it stays a draft with the same text,
/// and readers still see nothing.
pub proof fn lemma_approving_draft_changes_nothing(v: PostView)
    requires
        v.state == State::Draft,
    ensures
        step(v, Action::Approve) == v,
        visible(step(v, Action::Approve)) == Seq::<char>::empty(),
{
}

/// Readers see nothing unless the post is published, and all of its text
/// when it is.
pub proof fn lemma_visibility(v: PostView)
    ensures
        v.state != State::Published ==> visible(v) == Seq::<char>::empty(),
        v.state == State::Published ==> visible(v) == v.content,
{
}

impl Post {
    /// A new post: a draft with no text.
    pub fn new() -> (r: Post)
        ensures
            r@.state == State::Draft,
            r@.content == Seq::<char>::empty(),
            r@ == fresh(),
            visible(r@) == Seq::<char>::empty(),
    {
        Post { state: State::Draft, content: String::new() }
    }

    /// Adds `text` at the end of the post's text, whatever its stage.
    pub fn add_text(&mut self, text: &str)
        ensures
            final(self)@.content == old(self)@.content + text@,
            final(self)@.state == old(self)@.state,
            final(self)@ == step(old(self)@, Action::AddText(text@)),
    {
        self.content.append(text);
    }

    /// What readers see: the whole text once published, the empty string before.
    pub fn content(&self) -> (r: &str)
        ensures
            r@ == visible(self@),
            self@.state != State::Published ==> r@ == Seq::<char>::empty(),
            self@.state == State::Published ==> r@ == self@.content,
    {
        self.state.content(self.content.as_str())
    }

    /// The post's current stage.
    pub fn state(&self) -> (r: State)
        ensures
            r == self@.state,
    {
        self.state
    }

    /// Asks for a review: a draft becomes pending review; other stages stay.
    pub fn request_review(&mut self)
        ensures
            final(self)@.state == after_review(old(self)@.state),
            final(self)@.content == old(self)@.content,
            final(self)@ == step(old(self)@, Action::RequestReview),
    {
        self.state = self.state.request_review();
    }

    /// Approves the post: a post pending review is published; a draft stays a
    /// draft, and a published post stays published.
    pub fn approve(&mut self)
        ensures
            final(self)@.state == after_approval(old(self)@.state),
            final(self)@.content == old(self)@.content,
            final(self)@ == step(old(self)@, Action::Approve),
    {
        self.state = self.state.approve();
    }
}

} // verus!
