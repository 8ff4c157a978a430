//! A request from start to finish.
//!
//! `outcome` says what each request returns and what it leaves in the store,
//! when nothing else touches the store meanwhile. `serve` runs the handlers
//! against the repositories and is proved to do exactly that.

use crate::error::{AppError, AppErrorView};
use crate::handler::{
    begin, lemma_next_advances, next, result_view, resume, unexpected_reply, Request, RequestView,
    Response, ResponseView, Stage, Step, StepView,
};
use crate::model::shown_comments;
use crate::repository::DbErr;
use crate::state::{AppState, Database};
use vstd::prelude::*;

verus! {

/// What `request` returns on the store `db`, and the store it leaves.
///
/// A comment route answers not found unless its article exists, whatever the
/// comment table holds. Update and delete answer not found unless the
/// addressed row exists, and a comment is addressed by its article and its id
/// together. Only an insert can fail otherwise: when no id is left.
pub open spec fn outcome(request: RequestView, db: Database) -> (
    Result<ResponseView, AppErrorView>,
    Database,
) {
    match request {
        RequestView::ArticlesIndex => (Ok(ResponseView::Articles(db.articles.rows)), db),
        RequestView::ArticlesCreate { title, body } => if db.articles.can_insert() {
            (
                Ok(ResponseView::ArticleCreated(db.articles.next_row(title, body))),
                Database { articles: db.articles.insert(title, body), ..db },
            )
        } else {
            (Err(AppErrorView::internal_server_error(DbErr::out_of_ids())), db)
        },
        RequestView::ArticlesShow { id } => match db.articles.get(id) {
            Some(article) => (Ok(ResponseView::Article(article)), db),
            None => (Err(AppErrorView::not_found()), db),
        },
        RequestView::ArticlesUpdate { id, title, body } => if db.articles.contains(id) {
            (
                Ok(ResponseView::NoContent),
                Database { articles: db.articles.update(id, title, body), ..db },
            )
        } else {
            (Err(AppErrorView::not_found()), db)
        },
        RequestView::ArticlesDelete { id } => if db.articles.contains(id) {
            (Ok(ResponseView::NoContent), Database { articles: db.articles.remove(id), ..db })
        } else {
            (Err(AppErrorView::not_found()), db)
        },
        RequestView::CommentsIndex { article_id } => if db.articles.contains(article_id) {
            (Ok(ResponseView::Comments(shown_comments(db.comments.under(article_id)))), db)
        } else {
            (Err(AppErrorView::not_found()), db)
        },
        RequestView::CommentsCreate { article_id, body } => if !db.articles.contains(article_id) {
            (Err(AppErrorView::not_found()), db)
        } else if db.comments.can_insert() {
            (
                Ok(ResponseView::CommentCreated(db.comments.next_row(article_id, body).shown())),
                Database { comments: db.comments.insert(article_id, body), ..db },
            )
        } else {
            (Err(AppErrorView::internal_server_error(DbErr::out_of_ids())), db)
        },
        RequestView::CommentsShow { article_id, id } => if !db.articles.contains(article_id) {
            (Err(AppErrorView::not_found()), db)
        } else {
            match db.comments.get(article_id, id) {
                Some(comment) => (Ok(ResponseView::Comment(comment.shown())), db),
                None => (Err(AppErrorView::not_found()), db),
            }
        },
        RequestView::CommentsUpdate { article_id, id, body } => if db.articles.contains(article_id)
            && db.comments.get(article_id, id) is Some {
            (Ok(ResponseView::NoContent), Database { comments: db.comments.update(id, body), ..db })
        } else {
            (Err(AppErrorView::not_found()), db)
        },
        RequestView::CommentsDelete { article_id, id } => if db.articles.contains(article_id)
            && db.comments.get(article_id, id) is Some {
            (Ok(ResponseView::NoContent), Database { comments: db.comments.remove(id), ..db })
        } else {
            (Err(AppErrorView::not_found()), db)
        },
    }
}

/// Where the handlers take `request` from `stage` on, when each query goes to
/// the store `db` and its answer comes straight back.
pub open spec fn run(request: RequestView, stage: Stage, db: Database) -> (
    Result<ResponseView, AppErrorView>,
    Database,
)
    decreases stage.rank(),
{
    let query = request.query(stage);
    match next(request, stage, db.answer(query)) {
        StepView::Ask(_, after) => if after.rank() < stage.rank() {
            run(request, after, db.after(query))
        } else {
            (Err(unexpected_reply()), db.after(query))
        },
        StepView::Done(result) => (result, db.after(query)),
    }
}

/// The handlers, run against a store that nothing else touches, do what
/// `outcome` says: the checks that precede a mutation never let it fail for a
/// missing row.
pub proof fn lemma_run_is_outcome(request: RequestView, db: Database)
    requires
        db.wf(),
    ensures
        run(request, request.first_stage(), db) == outcome(request, db),
{
    reveal_with_fuel(run, 5);
}

/// Serves `request` on the repositories of `state`: asks the handlers what to
/// do, carries each query out, and returns how the request ended.
pub fn serve(state: &mut AppState, request: &Request) -> (result: Result<Response, AppError>)
    requires
        old(state).wf(),
    ensures
        final(state).wf(),
        result_view(result) == outcome(request@, old(state)@).0,
        final(state)@ == outcome(request@, old(state)@).1,
{
    let (first, first_stage) = begin(request);
    let mut query = first;
    let mut stage = first_stage;
    proof {
        lemma_run_is_outcome(request@, state@);
    }
    loop
        invariant
            state.wf(),
            request@.reaches(stage),
            query@ == request@.query(stage),
            run(request@, stage, state@) == outcome(request@, old(state)@),
        decreases stage.rank(),
    {
        let reply = state.answer(query);
        proof {
            lemma_next_advances(request@, stage, reply@);
        }
        match resume(request, stage, reply) {
            Step::Ask(more, after) => {
                query = more;
                stage = after;
            },
            Step::Done(result) => {
                return result;
            },
        }
    }
}

} // verus!
