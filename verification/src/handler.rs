//! The resource handlers, one per route.
//!
//! A handler decides; it performs no data access of its own. `begin` names the
//! first query of a request. Each time the store has answered, `resume` says
//! what comes next: another query, or the response that ends the request.
//! `next` is the whole table of those decisions.
//!
//! Every request runs through at most four stages, in this order:
//! the parent article is looked up (comment routes), the addressed row is
//! checked to exist (update and delete), it is read again as the first half of
//! the read-modify-write, and the final query is made whose answer becomes the
//! response.

use crate::error::{AppError, AppErrorKind, AppErrorView};
use crate::model::{
    shown_comments, show_articles, show_comments, ArticleForm, ArticleResponse, ArticleView,
    CommentForm, CommentResponse, CommentResponseView,
};
use crate::query::{Query, QueryView, Reply, ReplyView};
use crate::repository::DbErr;
use vstd::prelude::*;

verus! {

/// A request, after its path and body have been read.
#[derive(Debug, PartialEq, Eq)]
pub enum Request {
    /// `GET /articles`
    ArticlesIndex,
    /// `POST /articles`
    ArticlesCreate { article_form: ArticleForm },
    /// `GET /articles/{id}`
    ArticlesShow { id: i32 },
    /// `PATCH /articles/{id}`
    ArticlesUpdate { id: i32, article_form: ArticleForm },
    /// `DELETE /articles/{id}`
    ArticlesDelete { id: i32 },
    /// `GET /articles/{article_id}/comments`
    CommentsIndex { article_id: i32 },
    /// `POST /articles/{article_id}/comments`
    CommentsCreate { article_id: i32, comment_form: CommentForm },
    /// `GET /articles/{article_id}/comments/{id}`
    CommentsShow { article_id: i32, id: i32 },
    /// `PATCH /articles/{article_id}/comments/{id}`
    CommentsUpdate { article_id: i32, id: i32, comment_form: CommentForm },
    /// `DELETE /articles/{article_id}/comments/{id}`
    CommentsDelete { article_id: i32, id: i32 },
}

/// A `Request` as plain values.
pub enum RequestView {
    ArticlesIndex,
    ArticlesCreate { title: Seq<char>, body: Seq<char> },
    ArticlesShow { id: i32 },
    ArticlesUpdate { id: i32, title: Seq<char>, body: Seq<char> },
    ArticlesDelete { id: i32 },
    CommentsIndex { article_id: i32 },
    CommentsCreate { article_id: i32, body: Seq<char> },
    CommentsShow { article_id: i32, id: i32 },
    CommentsUpdate { article_id: i32, id: i32, body: Seq<char> },
    CommentsDelete { article_id: i32, id: i32 },
}

impl View for Request {
    type V = RequestView;

    open spec fn view(&self) -> RequestView {
        match *self {
            Request::ArticlesIndex => RequestView::ArticlesIndex,
            Request::ArticlesCreate { article_form } => RequestView::ArticlesCreate {
                title: article_form.title@,
                body: article_form.body@,
            },
            Request::ArticlesShow { id } => RequestView::ArticlesShow { id },
            Request::ArticlesUpdate { id, article_form } => RequestView::ArticlesUpdate {
                id,
                title: article_form.title@,
                body: article_form.body@,
            },
            Request::ArticlesDelete { id } => RequestView::ArticlesDelete { id },
            Request::CommentsIndex { article_id } => RequestView::CommentsIndex { article_id },
            Request::CommentsCreate { article_id, comment_form } => RequestView::CommentsCreate {
                article_id,
                body: comment_form.body@,
            },
            Request::CommentsShow { article_id, id } => RequestView::CommentsShow { article_id, id },
            Request::CommentsUpdate { article_id, id, comment_form } => RequestView::CommentsUpdate {
                article_id,
                id,
                body: comment_form.body@,
            },
            Request::CommentsDelete { article_id, id } => RequestView::CommentsDelete {
                article_id,
                id,
            },
        }
    }
}

/// A successful response.
#[derive(Debug, PartialEq, Eq)]
pub enum Response {
    /// `200` with every article, in the store's order.
    Articles(Vec<ArticleResponse>),
    /// `200` with one article.
    Article(ArticleResponse),
    /// `201` with the article as created.
    ArticleCreated(ArticleResponse),
    /// `200` with the comments of one article, in the store's order.
    Comments(Vec<CommentResponse>),
    /// `200` with one comment.
    Comment(CommentResponse),
    /// `201` with the comment as created.
    CommentCreated(CommentResponse),
    /// `204` with an empty body.
    NoContent,
}

/// A `Response` as plain values.
pub enum ResponseView {
    Articles(Seq<ArticleView>),
    Article(ArticleView),
    ArticleCreated(ArticleView),
    Comments(Seq<CommentResponseView>),
    Comment(CommentResponseView),
    CommentCreated(CommentResponseView),
    NoContent,
}

impl View for Response {
    type V = ResponseView;

    open spec fn view(&self) -> ResponseView {
        match *self {
            Response::Articles(articles) => ResponseView::Articles(articles.deep_view()),
            Response::Article(article) => ResponseView::Article(article@),
            Response::ArticleCreated(article) => ResponseView::ArticleCreated(article@),
            Response::Comments(comments) => ResponseView::Comments(comments.deep_view()),
            Response::Comment(comment) => ResponseView::Comment(comment@),
            Response::CommentCreated(comment) => ResponseView::CommentCreated(comment@),
            Response::NoContent => ResponseView::NoContent,
        }
    }
}

impl ResponseView {
    /// The HTTP status of the response: created, no content, or plain success.
    pub open spec fn status(self) -> u16 {
        match self {
            ResponseView::ArticleCreated(_) | ResponseView::CommentCreated(_) => 201,
            ResponseView::NoContent => 204,
            _ => 200,
        }
    }
}

impl Response {
    /// The HTTP status of the response.
    pub fn status_code(&self) -> (code: u16)
        ensures
            code == self@.status(),
    {
        match self {
            Response::ArticleCreated(_) | Response::CommentCreated(_) => 201,
            Response::NoContent => 204,
            _ => 200,
        }
    }
}

/// How a request ended, as plain values.
pub open spec fn result_view(result: Result<Response, AppError>) -> Result<ResponseView, AppErrorView> {
    match result {
        Ok(response) => Ok(response@),
        Err(error) => Err(error@),
    }
}

/// Which answer a request is waiting for.
#[derive(Debug, Clone, Copy, PartialEq, Eq, Structural)]
pub enum Stage {
    /// The lookup of the article a comment route hangs under.
    Parent,
    /// The lookup that checks that the row to update or delete exists.
    Check,
    /// The read that opens the read-modify-write of an update or delete.
    Read,
    /// The insert, update or delete itself.
    Write,
    /// The listing or lookup whose rows are shown.
    Fetch,
}

impl Stage {
    /// How many answers a request at this stage may still wait for.
    pub open spec fn rank(self) -> nat {
        match self {
            Stage::Parent => 4,
            Stage::Check => 3,
            Stage::Read => 2,
            Stage::Write => 1,
            Stage::Fetch => 1,
        }
    }
}

/// What a handler wants next.
#[derive(Debug, PartialEq, Eq)]
pub enum Step {
    /// Carry this query out and come back with the answer, at this stage.
    Ask(Query, Stage),
    /// The request is over: this is its response, or its failure.
    Done(Result<Response, AppError>),
}

/// A `Step` as plain values.
pub enum StepView {
    Ask(QueryView, Stage),
    Done(Result<ResponseView, AppErrorView>),
}

impl View for Step {
    type V = StepView;

    open spec fn view(&self) -> StepView {
        match *self {
            Step::Ask(query, stage) => StepView::Ask(query@, stage),
            Step::Done(result) => StepView::Done(result_view(result)),
        }
    }
}

/// The failure for an answer that does not fit the query it answers, or a
/// stage that the request never reaches.
pub open spec fn unexpected_reply() -> AppErrorView {
    AppErrorView::internal_server_error("unexpected reply from the data store"@)
}

/// The failure for a row that was there when checked and gone when read for
/// the mutation: an internal failure, not a missing resource.
pub open spec fn row_vanished() -> AppErrorView {
    AppErrorView::internal_server_error(DbErr::record_not_found())
}

impl RequestView {
    /// Whether the request is for a comment, and so hangs under an article.
    pub open spec fn is_nested(self) -> bool {
        match self {
            RequestView::CommentsIndex { .. }
            | RequestView::CommentsCreate { .. }
            | RequestView::CommentsShow { .. }
            | RequestView::CommentsUpdate { .. }
            | RequestView::CommentsDelete { .. } => true,
            _ => false,
        }
    }

    /// Whether the request changes or removes a row that must exist already.
    pub open spec fn is_mutation_in_place(self) -> bool {
        match self {
            RequestView::ArticlesUpdate { .. }
            | RequestView::ArticlesDelete { .. }
            | RequestView::CommentsUpdate { .. }
            | RequestView::CommentsDelete { .. } => true,
            _ => false,
        }
    }

    /// Whether the request ends in a write.
    pub open spec fn is_write(self) -> bool {
        match self {
            RequestView::ArticlesCreate { .. } | RequestView::CommentsCreate { .. } => true,
            _ => self.is_mutation_in_place(),
        }
    }

    /// The article that the request is about or hangs under.
    pub open spec fn article_id(self) -> i32 {
        match self {
            RequestView::ArticlesIndex => 0,
            RequestView::ArticlesCreate { .. } => 0,
            RequestView::ArticlesShow { id } => id,
            RequestView::ArticlesUpdate { id, .. } => id,
            RequestView::ArticlesDelete { id } => id,
            RequestView::CommentsIndex { article_id } => article_id,
            RequestView::CommentsCreate { article_id, .. } => article_id,
            RequestView::CommentsShow { article_id, .. } => article_id,
            RequestView::CommentsUpdate { article_id, .. } => article_id,
            RequestView::CommentsDelete { article_id, .. } => article_id,
        }
    }

    /// The lookup of the row the request addresses.
    pub open spec fn lookup(self) -> QueryView {
        match self {
            RequestView::CommentsShow { article_id, id } => QueryView::GetComment { article_id, id },
            RequestView::CommentsUpdate { article_id, id, .. } => QueryView::GetComment {
                article_id,
                id,
            },
            RequestView::CommentsDelete { article_id, id } => QueryView::GetComment {
                article_id,
                id,
            },
            _ => QueryView::GetArticle { id: self.article_id() },
        }
    }

    /// The query whose answer becomes the response.
    pub open spec fn last_query(self) -> QueryView {
        match self {
            RequestView::ArticlesIndex => QueryView::ListArticles,
            RequestView::ArticlesCreate { title, body } => QueryView::InsertArticle { title, body },
            RequestView::ArticlesShow { id } => QueryView::GetArticle { id },
            RequestView::ArticlesUpdate { id, title, body } => QueryView::UpdateArticle {
                id,
                title,
                body,
            },
            RequestView::ArticlesDelete { id } => QueryView::DeleteArticle { id },
            RequestView::CommentsIndex { article_id } => QueryView::ListComments { article_id },
            RequestView::CommentsCreate { article_id, body } => QueryView::InsertComment {
                article_id,
                body,
            },
            RequestView::CommentsShow { article_id, id } => QueryView::GetComment { article_id, id },
            RequestView::CommentsUpdate { article_id, id, body } => QueryView::UpdateComment {
                article_id,
                id,
                body,
            },
            RequestView::CommentsDelete { article_id, id } => QueryView::DeleteComment {
                article_id,
                id,
            },
        }
    }

    /// The last stage of the request.
    pub open spec fn last_stage(self) -> Stage {
        if self.is_write() {
            Stage::Write
        } else {
            Stage::Fetch
        }
    }

    /// The stage the request starts at.
    pub open spec fn first_stage(self) -> Stage {
        if self.is_nested() {
            Stage::Parent
        } else if self.is_mutation_in_place() {
            Stage::Check
        } else {
            self.last_stage()
        }
    }

    /// The stage that follows `stage`, once `stage` has found what it looked
    /// for.
    pub open spec fn stage_after(self, stage: Stage) -> Stage {
        match stage {
            Stage::Parent if self.is_mutation_in_place() => Stage::Check,
            Stage::Check => Stage::Read,
            _ => self.last_stage(),
        }
    }

    /// Whether the request ever waits at `stage`.
    pub open spec fn reaches(self, stage: Stage) -> bool {
        match stage {
            Stage::Parent => self.is_nested(),
            Stage::Check | Stage::Read => self.is_mutation_in_place(),
            Stage::Write => self.is_write(),
            Stage::Fetch => !self.is_write(),
        }
    }

    /// The query the request makes on entering `stage`.
    pub open spec fn query(self, stage: Stage) -> QueryView {
        match stage {
            Stage::Parent => QueryView::GetArticle { id: self.article_id() },
            Stage::Check | Stage::Read => self.lookup(),
            Stage::Write | Stage::Fetch => self.last_query(),
        }
    }

    /// Whether a lookup of the addressed row found it; `None` where `reply`
    /// is not the answer to such a lookup.
    pub open spec fn found(self, reply: ReplyView) -> Option<bool> {
        match reply {
            ReplyView::Article(article) if !self.is_nested() => Some(article is Some),
            ReplyView::Comment(comment) if self.is_nested() => Some(comment is Some),
            _ => None,
        }
    }

    /// The response that the answer to the last query is mapped to.
    pub open spec fn respond(self, reply: ReplyView) -> Result<ResponseView, AppErrorView> {
        match (self, reply) {
            (RequestView::ArticlesIndex, ReplyView::Articles(articles)) => Ok(
                ResponseView::Articles(articles),
            ),
            (RequestView::ArticlesCreate { .. }, ReplyView::ArticleSaved(article)) => Ok(
                ResponseView::ArticleCreated(article),
            ),
            (RequestView::ArticlesShow { .. }, ReplyView::Article(Some(article))) => Ok(
                ResponseView::Article(article),
            ),
            (RequestView::ArticlesShow { .. }, ReplyView::Article(None)) => Err(
                AppErrorView::not_found(),
            ),
            (RequestView::ArticlesUpdate { .. }, ReplyView::ArticleSaved(_)) => Ok(
                ResponseView::NoContent,
            ),
            (RequestView::ArticlesDelete { .. }, ReplyView::Deleted(_)) => Ok(
                ResponseView::NoContent,
            ),
            (RequestView::CommentsIndex { .. }, ReplyView::Comments(comments)) => Ok(
                ResponseView::Comments(shown_comments(comments)),
            ),
            (RequestView::CommentsCreate { .. }, ReplyView::CommentSaved(comment)) => Ok(
                ResponseView::CommentCreated(comment.shown()),
            ),
            (RequestView::CommentsShow { .. }, ReplyView::Comment(Some(comment))) => Ok(
                ResponseView::Comment(comment.shown()),
            ),
            (RequestView::CommentsShow { .. }, ReplyView::Comment(None)) => Err(
                AppErrorView::not_found(),
            ),
            (RequestView::CommentsUpdate { .. }, ReplyView::CommentSaved(_)) => Ok(
                ResponseView::NoContent,
            ),
            (RequestView::CommentsDelete { .. }, ReplyView::Deleted(_)) => Ok(
                ResponseView::NoContent,
            ),
            _ => Err(unexpected_reply()),
        }
    }

    /// The status the request is answered with when it succeeds: created for
    /// a create, no content for an update or delete, plain success otherwise.
    pub open spec fn success_status(self) -> u16 {
        match self {
            RequestView::ArticlesCreate { .. } | RequestView::CommentsCreate { .. } => 201,
            _ => if self.is_mutation_in_place() {
                204
            } else {
                200
            },
        }
    }

    /// Whether the request names anything that can be missing. Listing all
    /// articles and creating one do not.
    pub open spec fn can_be_not_found(self) -> bool {
        !(self is ArticlesIndex || self is ArticlesCreate)
    }

    /// The step that leads from `stage` to the stage after it.
    pub open spec fn proceed(self, stage: Stage) -> StepView {
        StepView::Ask(self.query(self.stage_after(stage)), self.stage_after(stage))
    }
}

/// What a request at `stage` does with the store's answer.
///
/// A failure of the store ends the request as an internal failure that
/// carries the store's account. A missing parent article, or a missing row at
/// the check, ends it as not found. A row missing at the read that follows a
/// successful check ends it as an internal failure. An answer of the wrong
/// shape, or a stage the request never reaches, ends it as an internal
/// failure. No request waits at a stage twice, and none retries a query that
/// failed.
pub open spec fn next(request: RequestView, stage: Stage, reply: ReplyView) -> StepView {
    if !request.reaches(stage) {
        StepView::Done(Err(unexpected_reply()))
    } else {
        match reply {
            ReplyView::Failed(err) => StepView::Done(Err(AppErrorView::internal_server_error(err))),
            _ => match stage {
                Stage::Parent => match reply {
                    ReplyView::Article(Some(_)) => request.proceed(stage),
                    ReplyView::Article(None) => StepView::Done(Err(AppErrorView::not_found())),
                    _ => StepView::Done(Err(unexpected_reply())),
                },
                Stage::Check => match request.found(reply) {
                    Some(true) => request.proceed(stage),
                    Some(false) => StepView::Done(Err(AppErrorView::not_found())),
                    None => StepView::Done(Err(unexpected_reply())),
                },
                Stage::Read => match request.found(reply) {
                    Some(true) => request.proceed(stage),
                    Some(false) => StepView::Done(Err(row_vanished())),
                    None => StepView::Done(Err(unexpected_reply())),
                },
                Stage::Write | Stage::Fetch => StepView::Done(request.respond(reply)),
            },
        }
    }
}

/// A request that goes on does so at a stage of lower rank: no request makes
/// more than four queries.
pub proof fn lemma_next_advances(request: RequestView, stage: Stage, reply: ReplyView)
    ensures
        next(request, stage, reply) matches StepView::Ask(query, after) ==> {
            &&& after.rank() < stage.rank()
            &&& request.reaches(after)
            &&& query == request.query(after)
        },
{
}

/// Whatever the store answers, a request ends with the one success status of
/// its route or as one of the two kinds of failure, and as not found only on
/// a route that names something that can be missing.
pub proof fn law_statuses_of_route(request: RequestView, stage: Stage, reply: ReplyView)
    ensures
        match next(request, stage, reply) {
            StepView::Done(Ok(response)) => response.status() == request.success_status(),
            StepView::Done(Err(error)) => error.kind.status() == 500 || (error.kind.status() == 404
                && request.can_be_not_found()),
            StepView::Ask(_, _) => true,
        },
{
}

/// A row that was there at the check and is gone when the mutation reads it
/// ends the request as an internal failure, never as not found: the race
/// between check and mutation is reported, not hidden.
pub proof fn law_vanished_row_is_internal_failure(request: RequestView, reply: ReplyView)
    requires
        request.is_mutation_in_place(),
        request.found(reply) == Some(false),
    ensures
        next(request, Stage::Check, reply) == StepView::Done(Err(AppErrorView::not_found())),
        next(request, Stage::Read, reply) == StepView::Done(Err(row_vanished())),
        row_vanished().kind == AppErrorKind::InternalServerError,
{
}

/// A comment route whose article is missing ends as not found at once: no
/// query on the comment table is made.
pub proof fn law_missing_parent_ends_request(request: RequestView)
    requires
        request.is_nested(),
    ensures
        request.first_stage() == Stage::Parent,
        request.query(Stage::Parent) == (QueryView::GetArticle { id: request.article_id() }),
        next(request, Stage::Parent, ReplyView::Article(None)) == StepView::Done(
            Err(AppErrorView::not_found()),
        ),
{
}

/// The step that ends a request because the store failed.
fn failed(err: DbErr) -> (step: Step)
    ensures
        step@ == StepView::Done(Err(AppErrorView::internal_server_error(err@))),
{
    Step::Done(Err(AppError::from(err)))
}

/// The step that ends a request because an answer did not fit.
fn unexpected() -> (step: Step)
    ensures
        step@ == StepView::Done(Err(unexpected_reply())),
{
    Step::Done(
        Err(AppError::internal_server_error("unexpected reply from the data store".to_owned())),
    )
}

/// The step that ends a request because what it names does not exist.
fn not_found() -> (step: Step)
    ensures
        step@ == StepView::Done(Err(AppErrorView::not_found())),
{
    Step::Done(Err(AppError::not_found()))
}

/// The step that ends a request because the row went missing after the check.
fn vanished() -> (step: Step)
    ensures
        step@ == StepView::Done(Err(row_vanished())),
{
    Step::Done(Err(AppError::internal_server_error("record not found".to_owned())))
}

/// `GET /articles`: lists every article.
pub fn articles_index(stage: Stage, reply: Reply) -> (step: Step)
    ensures
        step@ == next(RequestView::ArticlesIndex, stage, reply@),
{
    match stage {
        Stage::Fetch => match reply {
            Reply::Articles(articles) => Step::Done(Ok(Response::Articles(show_articles(articles)))),
            Reply::Failed(err) => failed(err),
            _ => unexpected(),
        },
        _ => unexpected(),
    }
}

/// `POST /articles`: creates an article and shows it as stored.
pub fn articles_create(article_form: &ArticleForm, stage: Stage, reply: Reply) -> (step: Step)
    ensures
        step@ == next(
            RequestView::ArticlesCreate { title: article_form.title@, body: article_form.body@ },
            stage,
            reply@,
        ),
{
    match stage {
        Stage::Write => match reply {
            Reply::ArticleSaved(article) => Step::Done(
                Ok(Response::ArticleCreated(ArticleResponse::of(article))),
            ),
            Reply::Failed(err) => failed(err),
            _ => unexpected(),
        },
        _ => unexpected(),
    }
}

/// `GET /articles/{id}`: shows one article, or fails as not found.
pub fn articles_show(id: i32, stage: Stage, reply: Reply) -> (step: Step)
    ensures
        step@ == next(RequestView::ArticlesShow { id }, stage, reply@),
{
    match stage {
        Stage::Fetch => match reply {
            Reply::Article(Some(article)) => Step::Done(
                Ok(Response::Article(ArticleResponse::of(article))),
            ),
            Reply::Article(None) => not_found(),
            Reply::Failed(err) => failed(err),
            _ => unexpected(),
        },
        _ => unexpected(),
    }
}

/// `PATCH /articles/{id}`: checks that the article exists, then updates it.
pub fn articles_update(id: i32, article_form: &ArticleForm, stage: Stage, reply: Reply) -> (step:
    Step)
    ensures
        step@ == next(
            RequestView::ArticlesUpdate { id, title: article_form.title@, body: article_form.body@ },
            stage,
            reply@,
        ),
{
    match stage {
        Stage::Check => match reply {
            Reply::Article(Some(_)) => Step::Ask(Query::GetArticle { id }, Stage::Read),
            Reply::Article(None) => not_found(),
            Reply::Failed(err) => failed(err),
            _ => unexpected(),
        },
        Stage::Read => match reply {
            Reply::Article(Some(_)) => Step::Ask(
                Query::UpdateArticle {
                    id,
                    title: article_form.title.clone(),
                    body: article_form.body.clone(),
                },
                Stage::Write,
            ),
            Reply::Article(None) => vanished(),
            Reply::Failed(err) => failed(err),
            _ => unexpected(),
        },
        Stage::Write => match reply {
            Reply::ArticleSaved(_) => Step::Done(Ok(Response::NoContent)),
            Reply::Failed(err) => failed(err),
            _ => unexpected(),
        },
        _ => unexpected(),
    }
}

/// `DELETE /articles/{id}`: checks that the article exists, then removes it.
pub fn articles_delete(id: i32, stage: Stage, reply: Reply) -> (step: Step)
    ensures
        step@ == next(RequestView::ArticlesDelete { id }, stage, reply@),
{
    match stage {
        Stage::Check => match reply {
            Reply::Article(Some(_)) => Step::Ask(Query::GetArticle { id }, Stage::Read),
            Reply::Article(None) => not_found(),
            Reply::Failed(err) => failed(err),
            _ => unexpected(),
        },
        Stage::Read => match reply {
            Reply::Article(Some(_)) => Step::Ask(Query::DeleteArticle { id }, Stage::Write),
            Reply::Article(None) => vanished(),
            Reply::Failed(err) => failed(err),
            _ => unexpected(),
        },
        Stage::Write => match reply {
            Reply::Deleted(_) => Step::Done(Ok(Response::NoContent)),
            Reply::Failed(err) => failed(err),
            _ => unexpected(),
        },
        _ => unexpected(),
    }
}

/// `GET /articles/{article_id}/comments`: lists the comments of an article
/// that exists.
pub fn comments_index(article_id: i32, stage: Stage, reply: Reply) -> (step: Step)
    ensures
        step@ == next(RequestView::CommentsIndex { article_id }, stage, reply@),
{
    match stage {
        Stage::Parent => match reply {
            Reply::Article(Some(_)) => Step::Ask(Query::ListComments { article_id }, Stage::Fetch),
            Reply::Article(None) => not_found(),
            Reply::Failed(err) => failed(err),
            _ => unexpected(),
        },
        Stage::Fetch => match reply {
            Reply::Comments(comments) => Step::Done(Ok(Response::Comments(show_comments(comments)))),
            Reply::Failed(err) => failed(err),
            _ => unexpected(),
        },
        _ => unexpected(),
    }
}

/// `POST /articles/{article_id}/comments`: creates a comment under an article
/// that exists.
pub fn comments_create(
    article_id: i32,
    comment_form: &CommentForm,
    stage: Stage,
    reply: Reply,
) -> (step: Step)
    ensures
        step@ == next(
            RequestView::CommentsCreate { article_id, body: comment_form.body@ },
            stage,
            reply@,
        ),
{
    match stage {
        Stage::Parent => match reply {
            Reply::Article(Some(_)) => Step::Ask(
                Query::InsertComment { article_id, body: comment_form.body.clone() },
                Stage::Write,
            ),
            Reply::Article(None) => not_found(),
            Reply::Failed(err) => failed(err),
            _ => unexpected(),
        },
        Stage::Write => match reply {
            Reply::CommentSaved(comment) => Step::Done(
                Ok(Response::CommentCreated(CommentResponse::of(comment))),
            ),
            Reply::Failed(err) => failed(err),
            _ => unexpected(),
        },
        _ => unexpected(),
    }
}

/// `GET /articles/{article_id}/comments/{id}`: shows one comment of an
/// article that exists.
pub fn comments_show(article_id: i32, id: i32, stage: Stage, reply: Reply) -> (step: Step)
    ensures
        step@ == next(RequestView::CommentsShow { article_id, id }, stage, reply@),
{
    match stage {
        Stage::Parent => match reply {
            Reply::Article(Some(_)) => Step::Ask(Query::GetComment { article_id, id }, Stage::Fetch),
            Reply::Article(None) => not_found(),
            Reply::Failed(err) => failed(err),
            _ => unexpected(),
        },
        Stage::Fetch => match reply {
            Reply::Comment(Some(comment)) => Step::Done(
                Ok(Response::Comment(CommentResponse::of(comment))),
            ),
            Reply::Comment(None) => not_found(),
            Reply::Failed(err) => failed(err),
            _ => unexpected(),
        },
        _ => unexpected(),
    }
}

/// `PATCH /articles/{article_id}/comments/{id}`: checks that the article and
/// the comment under it exist, then updates the comment.
pub fn comments_update(
    article_id: i32,
    id: i32,
    comment_form: &CommentForm,
    stage: Stage,
    reply: Reply,
) -> (step: Step)
    ensures
        step@ == next(
            RequestView::CommentsUpdate { article_id, id, body: comment_form.body@ },
            stage,
            reply@,
        ),
{
    match stage {
        Stage::Parent => match reply {
            Reply::Article(Some(_)) => Step::Ask(Query::GetComment { article_id, id }, Stage::Check),
            Reply::Article(None) => not_found(),
            Reply::Failed(err) => failed(err),
            _ => unexpected(),
        },
        Stage::Check => match reply {
            Reply::Comment(Some(_)) => Step::Ask(Query::GetComment { article_id, id }, Stage::Read),
            Reply::Comment(None) => not_found(),
            Reply::Failed(err) => failed(err),
            _ => unexpected(),
        },
        Stage::Read => match reply {
            Reply::Comment(Some(_)) => Step::Ask(
                Query::UpdateComment { article_id, id, body: comment_form.body.clone() },
                Stage::Write,
            ),
            Reply::Comment(None) => vanished(),
            Reply::Failed(err) => failed(err),
            _ => unexpected(),
        },
        Stage::Write => match reply {
            Reply::CommentSaved(_) => Step::Done(Ok(Response::NoContent)),
            Reply::Failed(err) => failed(err),
            _ => unexpected(),
        },
        _ => unexpected(),
    }
}

/// `DELETE /articles/{article_id}/comments/{id}`: checks that the article and
/// the comment under it exist, then removes the comment.
pub fn comments_delete(article_id: i32, id: i32, stage: Stage, reply: Reply) -> (step: Step)
    ensures
        step@ == next(RequestView::CommentsDelete { article_id, id }, stage, reply@),
{
    match stage {
        Stage::Parent => match reply {
            Reply::Article(Some(_)) => Step::Ask(Query::GetComment { article_id, id }, Stage::Check),
            Reply::Article(None) => not_found(),
            Reply::Failed(err) => failed(err),
            _ => unexpected(),
        },
        Stage::Check => match reply {
            Reply::Comment(Some(_)) => Step::Ask(Query::GetComment { article_id, id }, Stage::Read),
            Reply::Comment(None) => not_found(),
            Reply::Failed(err) => failed(err),
            _ => unexpected(),
        },
        Stage::Read => match reply {
            Reply::Comment(Some(_)) => Step::Ask(
                Query::DeleteComment { article_id, id },
                Stage::Write,
            ),
            Reply::Comment(None) => vanished(),
            Reply::Failed(err) => failed(err),
            _ => unexpected(),
        },
        Stage::Write => match reply {
            Reply::Deleted(_) => Step::Done(Ok(Response::NoContent)),
            Reply::Failed(err) => failed(err),
            _ => unexpected(),
        },
        _ => unexpected(),
    }
}

/// The first query of a request, and the stage it is asked at.
pub fn begin(request: &Request) -> (first: (Query, Stage))
    ensures
        first.1 == request@.first_stage(),
        first.0@ == request@.query(request@.first_stage()),
{
    match request {
        Request::ArticlesIndex => (Query::ListArticles, Stage::Fetch),
        Request::ArticlesCreate { article_form } => (
            Query::InsertArticle {
                title: article_form.title.clone(),
                body: article_form.body.clone(),
            },
            Stage::Write,
        ),
        Request::ArticlesShow { id } => (Query::GetArticle { id: *id }, Stage::Fetch),
        Request::ArticlesUpdate { id, .. } => (Query::GetArticle { id: *id }, Stage::Check),
        Request::ArticlesDelete { id } => (Query::GetArticle { id: *id }, Stage::Check),
        Request::CommentsIndex { article_id } => (
            Query::GetArticle { id: *article_id },
            Stage::Parent,
        ),
        Request::CommentsCreate { article_id, .. } => (
            Query::GetArticle { id: *article_id },
            Stage::Parent,
        ),
        Request::CommentsShow { article_id, .. } => (
            Query::GetArticle { id: *article_id },
            Stage::Parent,
        ),
        Request::CommentsUpdate { article_id, .. } => (
            Query::GetArticle { id: *article_id },
            Stage::Parent,
        ),
        Request::CommentsDelete { article_id, .. } => (
            Query::GetArticle { id: *article_id },
            Stage::Parent,
        ),
    }
}

/// What `request`, waiting at `stage`, does with the store's `reply`: the
/// handler of its route decides.
pub fn resume(request: &Request, stage: Stage, reply: Reply) -> (step: Step)
    ensures
        step@ == next(request@, stage, reply@),
{
    match request {
        Request::ArticlesIndex => articles_index(stage, reply),
        Request::ArticlesCreate { article_form } => articles_create(article_form, stage, reply),
        Request::ArticlesShow { id } => articles_show(*id, stage, reply),
        Request::ArticlesUpdate { id, article_form } => articles_update(
            *id,
            article_form,
            stage,
            reply,
        ),
        Request::ArticlesDelete { id } => articles_delete(*id, stage, reply),
        Request::CommentsIndex { article_id } => comments_index(*article_id, stage, reply),
        Request::CommentsCreate { article_id, comment_form } => comments_create(
            *article_id,
            comment_form,
            stage,
            reply,
        ),
        Request::CommentsShow { article_id, id } => comments_show(*article_id, *id, stage, reply),
        Request::CommentsUpdate { article_id, id, comment_form } => comments_update(
            *article_id,
            *id,
            comment_form,
            stage,
            reply,
        ),
        Request::CommentsDelete { article_id, id } => comments_delete(
            *article_id,
            *id,
            stage,
            reply,
        ),
    }
}

} // verus!
