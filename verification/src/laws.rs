//! What holds of every request on every well-formed store, when nothing else
//! touches the store between the queries of a request.

use crate::error::AppErrorView;
use crate::handler::{RequestView, ResponseView};
use crate::model::CommentView;
use crate::service::outcome;
use crate::state::Database;
use vstd::prelude::*;

verus! {

/// Whether the row that an update or delete addresses is missing: the article
/// itself, or for a comment route the article it hangs under or the comment
/// under that article.
pub open spec fn addresses_nothing(request: RequestView, db: Database) -> bool {
    match request {
        RequestView::ArticlesUpdate { id, .. } | RequestView::ArticlesDelete { id } => {
            !db.articles.contains(id)
        },
        RequestView::CommentsUpdate { article_id, id, .. }
        | RequestView::CommentsDelete { article_id, id } => !db.articles.contains(article_id)
            || db.comments.get(article_id, id) is None,
        _ => false,
    }
}

/// Whether `request` removes a row.
pub open spec fn is_delete(request: RequestView) -> bool {
    request is ArticlesDelete || request is CommentsDelete
}

/// Every request leaves a well-formed store well formed.
pub proof fn law_store_stays_well_formed(db: Database, request: RequestView)
    requires
        db.wf(),
    ensures
        outcome(request, db).1.wf(),
{
    match request {
        RequestView::ArticlesCreate { title, body } => {
            if db.articles.can_insert() {
                db.articles.lemma_insert(title, body);
            }
        },
        RequestView::ArticlesUpdate { id, title, body } => {
            if db.articles.contains(id) {
                db.articles.lemma_update(id, title, body);
            }
        },
        RequestView::ArticlesDelete { id } => {
            if db.articles.contains(id) {
                db.articles.lemma_remove(id);
            }
        },
        RequestView::CommentsCreate { article_id, body } => {
            if db.comments.can_insert() {
                db.comments.lemma_insert(article_id, body);
            }
        },
        RequestView::CommentsUpdate { article_id, id, body } => {
            if db.comments.contains(id) {
                db.comments.lemma_update(id, body);
            }
        },
        RequestView::CommentsDelete { article_id, id } => {
            if db.comments.contains(id) {
                db.comments.lemma_remove(id);
            }
        },
        _ => {},
    }
}

/// An article that was created got an id that no article had and that the
/// store had never handed out, and is then shown under that id with the title
/// and body it was created with.
pub proof fn law_created_article_is_shown(db: Database, title: Seq<char>, body: Seq<char>)
    requires
        db.wf(),
        outcome(RequestView::ArticlesCreate { title, body }, db).0 is Ok,
    ensures
        ({
            let (created, after) = outcome(RequestView::ArticlesCreate { title, body }, db);
            &&& created matches Ok(ResponseView::ArticleCreated(article))
            &&& !db.articles.contains(article.id)
            &&& article.id > db.articles.last_id
            &&& article.title == title
            &&& article.body == body
            &&& outcome(RequestView::ArticlesShow { id: article.id }, after) == (
                Ok::<ResponseView, AppErrorView>(ResponseView::Article(article)),
                after,
            )
        }),
{
    db.articles.lemma_insert(title, body);
}

/// A comment that was created under an article is then shown under that
/// article and its id, and is not found under any other article, though the
/// other article exists and the comment's id does too.
pub proof fn law_created_comment_is_scoped(
    db: Database,
    article_id: i32,
    body: Seq<char>,
    other: i32,
)
    requires
        db.wf(),
        outcome(RequestView::CommentsCreate { article_id, body }, db).0 is Ok,
        other != article_id,
        db.articles.contains(other),
    ensures
        ({
            let (created, after) = outcome(RequestView::CommentsCreate { article_id, body }, db);
            &&& created matches Ok(ResponseView::CommentCreated(comment))
            &&& comment.body == body
            &&& after.comments.contains(comment.id)
            &&& outcome(RequestView::CommentsShow { article_id, id: comment.id }, after).0 == Ok::<
                ResponseView,
                AppErrorView,
            >(ResponseView::Comment(comment))
            &&& outcome(RequestView::CommentsShow { article_id: other, id: comment.id }, after).0
                == Err::<ResponseView, AppErrorView>(AppErrorView::not_found())
        }),
{
    db.comments.lemma_insert(article_id, body);
}

/// A stored comment is shown under its own article and found under no other:
/// at every time, not only after its creation.
pub proof fn law_comment_is_addressed_by_pair(db: Database, comment: CommentView, other: i32)
    requires
        db.wf(),
        db.comments.rows.contains(comment),
        db.articles.contains(comment.article_id),
        db.articles.contains(other),
        other != comment.article_id,
    ensures
        outcome(RequestView::CommentsShow { article_id: comment.article_id, id: comment.id }, db).0
            == Ok::<ResponseView, AppErrorView>(ResponseView::Comment(comment.shown())),
        outcome(RequestView::CommentsShow { article_id: other, id: comment.id }, db).0 == Err::<
            ResponseView,
            AppErrorView,
        >(AppErrorView::not_found()),
{
    let at = choose|i: int| 0 <= i < db.comments.rows.len() && db.comments.rows[i] == comment;
    db.comments.lemma_position(at);
}

/// No request moves a comment to another article: a comment that is there
/// before and after a request hangs under the same article.
pub proof fn law_comment_keeps_its_article(
    db: Database,
    request: RequestView,
    article_id: i32,
    id: i32,
)
    requires
        db.wf(),
        db.comments.get(article_id, id) is Some,
        outcome(request, db).1.comments.contains(id),
    ensures
        outcome(request, db).1.comments.get(article_id, id) is Some,
{
    match request {
        RequestView::CommentsCreate { article_id: under, body } => {
            if db.articles.contains(under) && db.comments.can_insert() {
                db.comments.lemma_insert(under, body);
            }
        },
        RequestView::CommentsUpdate { article_id: under, id: target, body } => {
            if db.articles.contains(under) && db.comments.get(under, target) is Some {
                db.comments.lemma_update(target, body);
            }
        },
        RequestView::CommentsDelete { article_id: under, id: target } => {
            if db.articles.contains(under) && db.comments.get(under, target) is Some {
                db.comments.lemma_remove(target);
            }
        },
        _ => {},
    }
}

/// Once an article has been deleted, every comment route under it answers not
/// found and changes nothing, whether or not its comments are still stored.
/// The delete itself leaves the comment table as it was.
pub proof fn law_deleted_article_hides_its_comments(db: Database, id: i32, nested: RequestView)
    requires
        db.wf(),
        outcome(RequestView::ArticlesDelete { id }, db).0 is Ok,
        nested.is_nested(),
        nested.article_id() == id,
    ensures
        ({
            let after = outcome(RequestView::ArticlesDelete { id }, db).1;
            &&& after.comments == db.comments
            &&& outcome(nested, after) == (
                Err::<ResponseView, AppErrorView>(AppErrorView::not_found()),
                after,
            )
        }),
{
    db.articles.lemma_remove(id);
}

/// An update or delete of a row that is not there answers not found, never an
/// internal failure, and changes nothing.
pub proof fn law_missing_row_is_not_found(db: Database, request: RequestView)
    requires
        db.wf(),
        request.is_mutation_in_place(),
        addresses_nothing(request, db),
    ensures
        outcome(request, db) == (Err::<ResponseView, AppErrorView>(AppErrorView::not_found()), db),
{
}

/// A delete that went through answers no content; the same delete again
/// answers not found.
pub proof fn law_second_delete_is_not_found(db: Database, request: RequestView)
    requires
        db.wf(),
        is_delete(request),
        outcome(request, db).0 is Ok,
    ensures
        ({
            let (first, after) = outcome(request, db);
            &&& first == Ok::<ResponseView, AppErrorView>(ResponseView::NoContent)
            &&& outcome(request, after) == (
                Err::<ResponseView, AppErrorView>(AppErrorView::not_found()),
                after,
            )
        }),
{
    match request {
        RequestView::ArticlesDelete { id } => {
            db.articles.lemma_remove(id);
        },
        RequestView::CommentsDelete { article_id, id } => {
            db.comments.lemma_remove(id);
        },
        _ => {},
    }
}

/// No request makes a table hand out an id again: the highest id handed out
/// never goes down, so an id stays unused after its row was deleted.
pub proof fn law_ids_are_never_reused(db: Database, request: RequestView)
    requires
        db.wf(),
    ensures
        outcome(request, db).1.articles.last_id >= db.articles.last_id,
        outcome(request, db).1.comments.last_id >= db.comments.last_id,
{
}

/// A request that fails changes nothing, and neither does one that only
/// reads.
pub proof fn law_failure_changes_nothing(db: Database, request: RequestView)
    requires
        db.wf(),
        outcome(request, db).0 is Err || !request.is_write(),
    ensures
        outcome(request, db).1 == db,
{
}

} // verus!
