//! What a handler asks of the data store, and what the store answers.
//!
//! A handler never touches the store itself. It names one operation at a time
//! as a `Query`; whoever runs the handler carries it out and hands back the
//! `Reply`.

use crate::model::{Article, ArticleView, Comment, CommentView};
use crate::repository::DbErr;
use vstd::prelude::*;

verus! {

/// One operation on the data store.
#[derive(Debug, PartialEq, Eq)]
pub enum Query {
    /// Every article.
    ListArticles,
    /// The article with this id.
    GetArticle { id: i32 },
    /// Store a new article; the store assigns its id.
    InsertArticle { title: String, body: String },
    /// Give the article with this id a new title and body.
    UpdateArticle { id: i32, title: String, body: String },
    /// Remove the article with this id.
    DeleteArticle { id: i32 },
    /// Every comment under this article.
    ListComments { article_id: i32 },
    /// The comment with this id under this article.
    GetComment { article_id: i32, id: i32 },
    /// Store a new comment under this article; the store assigns its id.
    InsertComment { article_id: i32, body: String },
    /// Give the comment with this id under this article a new body.
    UpdateComment { article_id: i32, id: i32, body: String },
    /// Remove the comment with this id under this article.
    DeleteComment { article_id: i32, id: i32 },
}

/// A `Query` as plain values.
pub enum QueryView {
    ListArticles,
    GetArticle { id: i32 },
    InsertArticle { title: Seq<char>, body: Seq<char> },
    UpdateArticle { id: i32, title: Seq<char>, body: Seq<char> },
    DeleteArticle { id: i32 },
    ListComments { article_id: i32 },
    GetComment { article_id: i32, id: i32 },
    InsertComment { article_id: i32, body: Seq<char> },
    UpdateComment { article_id: i32, id: i32, body: Seq<char> },
    DeleteComment { article_id: i32, id: i32 },
}

impl View for Query {
    type V = QueryView;

    open spec fn view(&self) -> QueryView {
        match *self {
            Query::ListArticles => QueryView::ListArticles,
            Query::GetArticle { id } => QueryView::GetArticle { id },
            Query::InsertArticle { title, body } => QueryView::InsertArticle {
                title: title@,
                body: body@,
            },
            Query::UpdateArticle { id, title, body } => QueryView::UpdateArticle {
                id,
                title: title@,
                body: body@,
            },
            Query::DeleteArticle { id } => QueryView::DeleteArticle { id },
            Query::ListComments { article_id } => QueryView::ListComments { article_id },
            Query::GetComment { article_id, id } => QueryView::GetComment { article_id, id },
            Query::InsertComment { article_id, body } => QueryView::InsertComment {
                article_id,
                body: body@,
            },
            Query::UpdateComment { article_id, id, body } => QueryView::UpdateComment {
                article_id,
                id,
                body: body@,
            },
            Query::DeleteComment { article_id, id } => QueryView::DeleteComment { article_id, id },
        }
    }
}

/// What the data store answered.
#[derive(Debug, PartialEq, Eq)]
pub enum Reply {
    /// The articles a listing found, in the store's order.
    Articles(Vec<Article>),
    /// The article a lookup found, or `None` where no row matched.
    Article(Option<Article>),
    /// The article as stored by an insert or an update.
    ArticleSaved(Article),
    /// The comments a listing found, in the store's order.
    Comments(Vec<Comment>),
    /// The comment a lookup found, or `None` where no row matched.
    Comment(Option<Comment>),
    /// The comment as stored by an insert or an update.
    CommentSaved(Comment),
    /// A delete went through; so many rows went.
    Deleted(u64),
    /// The store could not carry the operation out.
    Failed(DbErr),
}

/// A `Reply` as plain values.
pub enum ReplyView {
    Articles(Seq<ArticleView>),
    Article(Option<ArticleView>),
    ArticleSaved(ArticleView),
    Comments(Seq<CommentView>),
    Comment(Option<CommentView>),
    CommentSaved(CommentView),
    Deleted(u64),
    Failed(Seq<char>),
}

impl View for Reply {
    type V = ReplyView;

    open spec fn view(&self) -> ReplyView {
        match *self {
            Reply::Articles(articles) => ReplyView::Articles(articles.deep_view()),
            Reply::Article(article) => ReplyView::Article(article.deep_view()),
            Reply::ArticleSaved(article) => ReplyView::ArticleSaved(article@),
            Reply::Comments(comments) => ReplyView::Comments(comments.deep_view()),
            Reply::Comment(comment) => ReplyView::Comment(comment.deep_view()),
            Reply::CommentSaved(comment) => ReplyView::CommentSaved(comment@),
            Reply::Deleted(rows_affected) => ReplyView::Deleted(rows_affected),
            Reply::Failed(err) => ReplyView::Failed(err@),
        }
    }
}

} // verus!
