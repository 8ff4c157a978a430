//! Rows of the two tables, the forms a client sends and the payloads it gets back.

use vstd::prelude::*;

verus! {

/// An article row. The store assigns `id`; it never changes afterwards.
#[derive(Debug, PartialEq, Eq)]
pub struct Article {
    pub id: i32,
    pub title: String,
    pub body: String,
}

/// What an article row holds, as plain values.
pub struct ArticleView {
    pub id: i32,
    pub title: Seq<char>,
    pub body: Seq<char>,
}

impl View for Article {
    type V = ArticleView;

    open spec fn view(&self) -> ArticleView {
        ArticleView { id: self.id, title: self.title@, body: self.body@ }
    }
}

impl DeepView for Article {
    type V = ArticleView;

    open spec fn deep_view(&self) -> ArticleView {
        self@
    }
}

impl Clone for Article {
    fn clone(&self) -> (copy: Self)
        ensures
            copy == *self,
    {
        Article { id: self.id, title: self.title.clone(), body: self.body.clone() }
    }
}

/// A comment row. The store assigns `id`; `article_id` names the article it
/// was created under and is never reassigned.
#[derive(Debug, PartialEq, Eq)]
pub struct Comment {
    pub id: i32,
    pub article_id: i32,
    pub body: String,
}

/// What a comment row holds, as plain values.
pub struct CommentView {
    pub id: i32,
    pub article_id: i32,
    pub body: Seq<char>,
}

impl View for Comment {
    type V = CommentView;

    open spec fn view(&self) -> CommentView {
        CommentView { id: self.id, article_id: self.article_id, body: self.body@ }
    }
}

impl DeepView for Comment {
    type V = CommentView;

    open spec fn deep_view(&self) -> CommentView {
        self@
    }
}

impl Clone for Comment {
    fn clone(&self) -> (copy: Self)
        ensures
            copy == *self,
    {
        Comment { id: self.id, article_id: self.article_id, body: self.body.clone() }
    }
}

/// The fields a client supplies to create or update an article.
#[derive(Debug, PartialEq, Eq)]
pub struct ArticleForm {
    pub title: String,
    pub body: String,
}

impl Clone for ArticleForm {
    fn clone(&self) -> (copy: Self)
        ensures
            copy == *self,
    {
        ArticleForm { title: self.title.clone(), body: self.body.clone() }
    }
}

/// The field a client supplies to create or update a comment.
#[derive(Debug, PartialEq, Eq)]
pub struct CommentForm {
    pub body: String,
}

impl Clone for CommentForm {
    fn clone(&self) -> (copy: Self)
        ensures
            copy == *self,
    {
        CommentForm { body: self.body.clone() }
    }
}

/// An article as it is shown to a client.
#[derive(Debug, PartialEq, Eq)]
pub struct ArticleResponse {
    pub id: i32,
    pub title: String,
    pub body: String,
}

impl View for ArticleResponse {
    type V = ArticleView;

    open spec fn view(&self) -> ArticleView {
        ArticleView { id: self.id, title: self.title@, body: self.body@ }
    }
}

impl DeepView for ArticleResponse {
    type V = ArticleView;

    open spec fn deep_view(&self) -> ArticleView {
        self@
    }
}

impl ArticleResponse {
    /// The payload that shows `article`: all three fields, unchanged.
    pub fn of(article: Article) -> (shown: Self)
        ensures
            shown@ == article@,
    {
        ArticleResponse { id: article.id, title: article.title, body: article.body }
    }
}

/// A comment as it is shown to a client: the parent article is not repeated.
#[derive(Debug, PartialEq, Eq)]
pub struct CommentResponse {
    pub id: i32,
    pub body: String,
}

/// What a shown comment holds, as plain values.
pub struct CommentResponseView {
    pub id: i32,
    pub body: Seq<char>,
}

impl View for CommentResponse {
    type V = CommentResponseView;

    open spec fn view(&self) -> CommentResponseView {
        CommentResponseView { id: self.id, body: self.body@ }
    }
}

impl DeepView for CommentResponse {
    type V = CommentResponseView;

    open spec fn deep_view(&self) -> CommentResponseView {
        self@
    }
}

impl CommentView {
    /// The payload that shows this comment.
    pub open spec fn shown(self) -> CommentResponseView {
        CommentResponseView { id: self.id, body: self.body }
    }
}

impl CommentResponse {
    /// The payload that shows `comment`: its id and body.
    pub fn of(comment: Comment) -> (shown: Self)
        ensures
            shown@ == comment@.shown(),
    {
        CommentResponse { id: comment.id, body: comment.body }
    }
}

/// The payloads that show `comments`, in the same order.
pub open spec fn shown_comments(comments: Seq<CommentView>) -> Seq<CommentResponseView> {
    comments.map_values(|c: CommentView| c.shown())
}

/// Shows every article of a listing, in the order the store returned them.
pub fn show_articles(articles: Vec<Article>) -> (shown: Vec<ArticleResponse>)
    ensures
        shown.deep_view() == articles.deep_view(),
{
    let mut shown: Vec<ArticleResponse> = Vec::new();
    let mut i: usize = 0;
    while i < articles.len()
        invariant
            i <= articles.len(),
            shown.len() == i,
            forall|j: int| 0 <= j < i ==> (#[trigger] shown[j])@ == articles[j]@,
        decreases articles.len() - i,
    {
        shown.push(ArticleResponse::of(articles[i].clone()));
        i += 1;
    }
    assert(shown.deep_view() =~= articles.deep_view());
    shown
}

/// Shows every comment of a listing, in the order the store returned them.
pub fn show_comments(comments: Vec<Comment>) -> (shown: Vec<CommentResponse>)
    ensures
        shown.deep_view() == shown_comments(comments.deep_view()),
{
    let mut shown: Vec<CommentResponse> = Vec::new();
    let mut i: usize = 0;
    while i < comments.len()
        invariant
            i <= comments.len(),
            shown.len() == i,
            forall|j: int| 0 <= j < i ==> (#[trigger] shown[j])@ == comments[j]@.shown(),
        decreases comments.len() - i,
    {
        shown.push(CommentResponse::of(comments[i].clone()));
        i += 1;
    }
    assert(shown.deep_view() =~= shown_comments(comments.deep_view()));
    shown
}

} // verus!
