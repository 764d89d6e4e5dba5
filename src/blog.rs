use vstd::prelude::*;
use vstd::string::*;

verus! {

/// Where a post stands in its review workflow.
#[derive(Debug, PartialEq, Eq, Structural, Clone, Copy)]
pub enum PostState {
    Draft,
    PendingReview,
    Published,
}

/// State after a review is requested: a draft goes to review; otherwise
/// nothing changes.
pub open spec fn after_review_request(s: PostState) -> PostState {
    match s {
        PostState::Draft => PostState::PendingReview,
        _ => s,
    }
}

/// State after an approval: a draft goes to review, a post under review is
/// published, a published post stays published.
pub open spec fn after_approval(s: PostState) -> PostState {
    match s {
        PostState::Draft => PostState::PendingReview,
        PostState::PendingReview => PostState::Published,
        PostState::Published => PostState::Published,
    }
}

/// A blog post whose text shows only once it is published.
pub struct Post {
    state: PostState,
    content: String,
}

impl Post {
    /// The post's workflow state.
    pub closed spec fn state(&self) -> PostState {
        self.state
    }

    /// The text written so far, shown or not.
    pub closed spec fn text(&self) -> Seq<char> {
        self.content@
    }

    /// An empty draft.
    pub fn new() -> (r: Post)
        ensures
            r.state() == PostState::Draft,
            r.text() == Seq::<char>::empty(),
    {
        Post { state: PostState::Draft, content: String::new() }
    }

    /// Appends `text` to the post.
    pub fn add_text(&mut self, text: &str)
        ensures
            final(self).text() == old(self).text() + text@,
            final(self).state() == old(self).state(),
    {
        self.content.append(text);
    }

    /// The text if the post is published, else the empty string.
    pub fn content(&self) -> (r: &str)
        ensures
            r@ == (if self.state() == PostState::Published {
                self.text()
            } else {
                Seq::<char>::empty()
            }),
    {
        match self.state {
            PostState::Published => self.content.as_str(),
            _ => {
                proof {
                    reveal_strlit("");
                }
                ""
            },
        }
    }

    /// Asks for a review.
    pub fn request_review(&mut self)
        ensures
            final(self).state() == after_review_request(old(self).state()),
            final(self).text() == old(self).text(),
    {
        self.state = match self.state {
            PostState::Draft => PostState::PendingReview,
            s => s,
        };
    }

    /// Approves the post.
    pub fn approve(&mut self)
        ensures
            final(self).state() == after_approval(old(self).state()),
            final(self).text() == old(self).text(),
    {
        self.state = match self.state {
            PostState::Draft => PostState::PendingReview,
            PostState::PendingReview => PostState::Published,
            PostState::Published => PostState::Published,
        };
    }
}

/// A published post; only a reviewed draft becomes one.
pub struct PostV2 {
    content: String,
}

/// A post being written.
pub struct DraftPost {
    content: String,
}

/// A post waiting for approval.
pub struct PendingReviewPost {
    content: String,
}

impl View for PostV2 {
    type V = Seq<char>;

    closed spec fn view(&self) -> Seq<char> {
        self.content@
    }
}

impl View for DraftPost {
    type V = Seq<char>;

    closed spec fn view(&self) -> Seq<char> {
        self.content@
    }
}

impl View for PendingReviewPost {
    type V = Seq<char>;

    closed spec fn view(&self) -> Seq<char> {
        self.content@
    }
}

impl PostV2 {
    /// Starts an empty draft.
    pub fn new() -> (r: DraftPost)
        ensures
            r@ == Seq::<char>::empty(),
    {
        DraftPost { content: String::new() }
    }

    /// The published text.
    pub fn content(&self) -> (r: &str)
        ensures
            r@ == self@,
    {
        self.content.as_str()
    }
}

impl DraftPost {
    /// Appends `text` to the draft.
    pub fn add_text(&mut self, text: &str)
        ensures
            final(self)@ == old(self)@ + text@,
    {
        self.content.append(text);
    }

    /// Sends the draft for review, text unchanged.
    pub fn request_review(self) -> (r: PendingReviewPost)
        ensures
            r@ == self@,
    {
        PendingReviewPost { content: self.content }
    }
}

impl PendingReviewPost {
    /// Publishes the post, text unchanged.
    pub fn approve(self) -> (r: PostV2)
        ensures
            r@ == self@,
    {
        PostV2 { content: self.content }
    }
}

} // verus!
