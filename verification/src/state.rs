//! The state every request works on: the two tables together.

use crate::model::{Article, ArticleView, Comment, CommentView};
use crate::query::{Query, QueryView, Reply, ReplyView};
use crate::repository::{ArticleTable, ArticlesRepository, CommentTable, CommentsRepository, DbErr};
use vstd::prelude::*;

verus! {

/// What the store holds: the article table and the comment table.
///
/// Nothing ties a comment to an existing article here. Removing an article
/// leaves its comments in the comment table.
pub struct Database {
    pub articles: ArticleTable,
    pub comments: CommentTable,
}

impl Database {
    /// The store before anything was stored.
    pub open spec fn empty() -> Self {
        Database { articles: ArticleTable::empty(), comments: CommentTable::empty() }
    }

    /// Both tables are well formed.
    pub open spec fn wf(self) -> bool {
        self.articles.wf() && self.comments.wf()
    }

    /// What the store answers to `query`.
    pub open spec fn answer(self, query: QueryView) -> ReplyView {
        match query {
            QueryView::ListArticles => ReplyView::Articles(self.articles.rows),
            QueryView::GetArticle { id } => ReplyView::Article(self.articles.get(id)),
            QueryView::InsertArticle { title, body } => if self.articles.can_insert() {
                ReplyView::ArticleSaved(self.articles.next_row(title, body))
            } else {
                ReplyView::Failed(DbErr::out_of_ids())
            },
            QueryView::UpdateArticle { id, title, body } => if self.articles.contains(id) {
                ReplyView::ArticleSaved(ArticleView { id, title, body })
            } else {
                ReplyView::Failed(DbErr::record_not_found())
            },
            QueryView::DeleteArticle { id } => if self.articles.contains(id) {
                ReplyView::Deleted(1)
            } else {
                ReplyView::Failed(DbErr::record_not_found())
            },
            QueryView::ListComments { article_id } => ReplyView::Comments(
                self.comments.under(article_id),
            ),
            QueryView::GetComment { article_id, id } => ReplyView::Comment(
                self.comments.get(article_id, id),
            ),
            QueryView::InsertComment { article_id, body } => if self.comments.can_insert() {
                ReplyView::CommentSaved(self.comments.next_row(article_id, body))
            } else {
                ReplyView::Failed(DbErr::out_of_ids())
            },
            QueryView::UpdateComment { article_id, id, body } => if self.comments.get(
                article_id,
                id,
            ) is Some {
                ReplyView::CommentSaved(CommentView { id, article_id, body })
            } else {
                ReplyView::Failed(DbErr::record_not_found())
            },
            QueryView::DeleteComment { article_id, id } => if self.comments.get(article_id, id) is Some {
                ReplyView::Deleted(1)
            } else {
                ReplyView::Failed(DbErr::record_not_found())
            },
        }
    }

    /// What the store holds once it has carried `query` out. A query that
    /// fails, and one that only reads, leaves the store as it was.
    pub open spec fn after(self, query: QueryView) -> Database {
        match query {
            QueryView::InsertArticle { title, body } => if self.articles.can_insert() {
                Database { articles: self.articles.insert(title, body), ..self }
            } else {
                self
            },
            QueryView::UpdateArticle { id, title, body } => if self.articles.contains(id) {
                Database { articles: self.articles.update(id, title, body), ..self }
            } else {
                self
            },
            QueryView::DeleteArticle { id } => if self.articles.contains(id) {
                Database { articles: self.articles.remove(id), ..self }
            } else {
                self
            },
            QueryView::InsertComment { article_id, body } => if self.comments.can_insert() {
                Database { comments: self.comments.insert(article_id, body), ..self }
            } else {
                self
            },
            QueryView::UpdateComment { article_id, id, body } => if self.comments.get(
                article_id,
                id,
            ) is Some {
                Database { comments: self.comments.update(id, body), ..self }
            } else {
                self
            },
            QueryView::DeleteComment { article_id, id } => if self.comments.get(article_id, id) is Some {
                Database { comments: self.comments.remove(id), ..self }
            } else {
                self
            },
            _ => self,
        }
    }
}

/// The state shared by all requests: an article repository and a comment
/// repository.
pub struct AppState {
    pub articles: ArticlesRepository,
    pub comments: CommentsRepository,
}

impl View for AppState {
    type V = Database;

    open spec fn view(&self) -> Database {
        Database { articles: self.articles@, comments: self.comments@ }
    }
}

impl AppState {
    /// Both repositories are well formed.
    pub open spec fn wf(&self) -> bool {
        self@.wf()
    }

    /// A state with nothing stored.
    pub fn new() -> (state: Self)
        ensures
            state@ == Database::empty(),
            state.wf(),
    {
        AppState { articles: ArticlesRepository::new(), comments: CommentsRepository::new() }
    }

    /// Carries `query` out on the repositories and gives the store's answer.
    pub fn answer(&mut self, query: Query) -> (reply: Reply)
        requires
            old(self).wf(),
        ensures
            final(self).wf(),
            reply@ == old(self)@.answer(query@),
            final(self)@ == old(self)@.after(query@),
    {
        match query {
            Query::ListArticles => match self.articles.find_all() {
                Ok(articles) => Reply::Articles(articles),
                Err(err) => Reply::Failed(err),
            },
            Query::GetArticle { id } => match self.articles.find_by_id(id) {
                Ok(article) => Reply::Article(article),
                Err(err) => Reply::Failed(err),
            },
            Query::InsertArticle { title, body } => match self.articles.create(
                Article { id: 0, title, body },
            ) {
                Ok(article) => Reply::ArticleSaved(article),
                Err(err) => Reply::Failed(err),
            },
            Query::UpdateArticle { id, title, body } => match self.articles.update(
                Article { id, title, body },
            ) {
                Ok(article) => Reply::ArticleSaved(article),
                Err(err) => Reply::Failed(err),
            },
            Query::DeleteArticle { id } => match self.articles.delete(id) {
                Ok(rows_affected) => Reply::Deleted(rows_affected),
                Err(err) => Reply::Failed(err),
            },
            Query::ListComments { article_id } => match self.comments.find_all_by_article_id(
                article_id,
            ) {
                Ok(comments) => Reply::Comments(comments),
                Err(err) => Reply::Failed(err),
            },
            Query::GetComment { article_id, id } => match self.comments.find_by_article_id_and_id(
                article_id,
                id,
            ) {
                Ok(comment) => Reply::Comment(comment),
                Err(err) => Reply::Failed(err),
            },
            Query::InsertComment { article_id, body } => match self.comments.create(
                Comment { id: 0, article_id, body },
            ) {
                Ok(comment) => Reply::CommentSaved(comment),
                Err(err) => Reply::Failed(err),
            },
            Query::UpdateComment { article_id, id, body } => match self.comments.update(
                Comment { id, article_id, body },
            ) {
                Ok(comment) => Reply::CommentSaved(comment),
                Err(err) => Reply::Failed(err),
            },
            Query::DeleteComment { article_id, id } => match self.comments.delete(article_id, id) {
                Ok(rows_affected) => Reply::Deleted(rows_affected),
                Err(err) => Reply::Failed(err),
            },
        }
    }
}

} // verus!
