use articles_api::error::{AppError, AppErrorKind};
use articles_api::handler::{
    articles_create, articles_delete, articles_index, articles_show, articles_update, begin,
    comments_create, comments_delete, comments_index, comments_show, comments_update, resume,
    Request, Response, Stage, Step,
};
use articles_api::model::{
    Article, ArticleForm, ArticleResponse, Comment, CommentForm, CommentResponse,
};
use articles_api::query::{Query, Reply};
use articles_api::repository::DbErr;

fn article_row(id: i32, title: &str, body: &str) -> Article {
    Article { id, title: title.to_string(), body: body.to_string() }
}

fn comment_row(id: i32, article_id: i32, body: &str) -> Comment {
    Comment { id, article_id, body: body.to_string() }
}

fn article_form() -> ArticleForm {
    ArticleForm { title: "T".to_string(), body: "B".to_string() }
}

fn comment_form() -> CommentForm {
    CommentForm { body: "C".to_string() }
}

fn store_failure() -> Reply {
    Reply::Failed(DbErr { message: "connection reset".to_string() })
}

fn internal(detail: &str) -> Step {
    Step::Done(Err(AppError::internal_server_error(detail.to_string())))
}

fn not_found() -> Step {
    Step::Done(Err(AppError::not_found()))
}

fn all_requests() -> Vec<Request> {
    vec![
        Request::ArticlesIndex,
        Request::ArticlesCreate { article_form: article_form() },
        Request::ArticlesShow { id: 3 },
        Request::ArticlesUpdate { id: 3, article_form: article_form() },
        Request::ArticlesDelete { id: 3 },
        Request::CommentsIndex { article_id: 3 },
        Request::CommentsCreate { article_id: 3, comment_form: comment_form() },
        Request::CommentsShow { article_id: 3, id: 5 },
        Request::CommentsUpdate { article_id: 3, id: 5, comment_form: comment_form() },
        Request::CommentsDelete { article_id: 3, id: 5 },
    ]
}

#[test]
fn first_query_of_each_route() {
    let first: Vec<(Query, Stage)> = all_requests().iter().map(begin).collect();
    assert_eq!(
        first,
        vec![
            (Query::ListArticles, Stage::Fetch),
            (Query::InsertArticle { title: "T".to_string(), body: "B".to_string() }, Stage::Write),
            (Query::GetArticle { id: 3 }, Stage::Fetch),
            (Query::GetArticle { id: 3 }, Stage::Check),
            (Query::GetArticle { id: 3 }, Stage::Check),
            (Query::GetArticle { id: 3 }, Stage::Parent),
            (Query::GetArticle { id: 3 }, Stage::Parent),
            (Query::GetArticle { id: 3 }, Stage::Parent),
            (Query::GetArticle { id: 3 }, Stage::Parent),
            (Query::GetArticle { id: 3 }, Stage::Parent),
        ]
    );
}

#[test]
fn store_failure_is_an_internal_failure_at_every_stage() {
    for request in all_requests() {
        let (_, first) = begin(&request);
        for stage in [Stage::Parent, Stage::Check, Stage::Read, Stage::Write, Stage::Fetch] {
            let step = resume(&request, stage, store_failure());
            let error = match step {
                Step::Done(Err(error)) => error,
                other => panic!("unexpected step {:?}", other),
            };
            assert_eq!(error.kind(), AppErrorKind::InternalServerError);
            assert_eq!(error.status_code(), 500);
            if stage == first {
                assert_eq!(error.detail(), "connection reset");
            }
        }
    }
}

#[test]
fn missing_parent_article_ends_every_comment_route() {
    for request in all_requests().into_iter().skip(5) {
        assert_eq!(resume(&request, Stage::Parent, Reply::Article(None)), not_found());
    }
}

#[test]
fn articles_index_shows_rows_in_order() {
    let rows = vec![article_row(2, "b", "2"), article_row(1, "a", "1")];
    assert_eq!(
        articles_index(Stage::Fetch, Reply::Articles(rows)),
        Step::Done(Ok(Response::Articles(vec![
            ArticleResponse { id: 2, title: "b".to_string(), body: "2".to_string() },
            ArticleResponse { id: 1, title: "a".to_string(), body: "1".to_string() },
        ])))
    );
    assert_eq!(
        articles_index(Stage::Fetch, Reply::Deleted(1)),
        internal("unexpected reply from the data store")
    );
    assert_eq!(
        articles_index(Stage::Check, Reply::Articles(vec![])),
        internal("unexpected reply from the data store")
    );
}

#[test]
fn articles_create_shows_the_stored_row() {
    assert_eq!(
        articles_create(&article_form(), Stage::Write, Reply::ArticleSaved(article_row(9, "T", "B"))),
        Step::Done(Ok(Response::ArticleCreated(ArticleResponse {
            id: 9,
            title: "T".to_string(),
            body: "B".to_string()
        })))
    );
}

#[test]
fn articles_show_maps_absent_to_not_found() {
    assert_eq!(
        articles_show(4, Stage::Fetch, Reply::Article(Some(article_row(4, "t", "b")))),
        Step::Done(Ok(Response::Article(ArticleResponse {
            id: 4,
            title: "t".to_string(),
            body: "b".to_string()
        })))
    );
    assert_eq!(articles_show(4, Stage::Fetch, Reply::Article(None)), not_found());
}

#[test]
fn articles_update_checks_reads_then_writes() {
    let form = article_form();
    let found = || Reply::Article(Some(article_row(3, "old", "old")));
    assert_eq!(
        articles_update(3, &form, Stage::Check, found()),
        Step::Ask(Query::GetArticle { id: 3 }, Stage::Read)
    );
    assert_eq!(articles_update(3, &form, Stage::Check, Reply::Article(None)), not_found());
    assert_eq!(
        articles_update(3, &form, Stage::Read, found()),
        Step::Ask(
            Query::UpdateArticle { id: 3, title: "T".to_string(), body: "B".to_string() },
            Stage::Write
        )
    );
    assert_eq!(
        articles_update(3, &form, Stage::Write, Reply::ArticleSaved(article_row(3, "T", "B"))),
        Step::Done(Ok(Response::NoContent))
    );
}

#[test]
fn row_that_vanished_after_the_check_is_an_internal_failure() {
    let form = article_form();
    assert_eq!(
        articles_update(3, &form, Stage::Read, Reply::Article(None)),
        internal("record not found")
    );
    assert_eq!(articles_delete(3, Stage::Read, Reply::Article(None)), internal("record not found"));
    assert_eq!(
        comments_update(3, 5, &comment_form(), Stage::Read, Reply::Comment(None)),
        internal("record not found")
    );
    assert_eq!(
        comments_delete(3, 5, Stage::Read, Reply::Comment(None)),
        internal("record not found")
    );
}

#[test]
fn articles_delete_checks_reads_then_writes() {
    let found = || Reply::Article(Some(article_row(3, "t", "b")));
    assert_eq!(
        articles_delete(3, Stage::Check, found()),
        Step::Ask(Query::GetArticle { id: 3 }, Stage::Read)
    );
    assert_eq!(articles_delete(3, Stage::Check, Reply::Article(None)), not_found());
    assert_eq!(
        articles_delete(3, Stage::Read, found()),
        Step::Ask(Query::DeleteArticle { id: 3 }, Stage::Write)
    );
    assert_eq!(
        articles_delete(3, Stage::Write, Reply::Deleted(1)),
        Step::Done(Ok(Response::NoContent))
    );
    assert_eq!(
        articles_delete(3, Stage::Write, Reply::Deleted(0)),
        Step::Done(Ok(Response::NoContent))
    );
}

#[test]
fn comments_index_looks_up_the_article_first() {
    assert_eq!(
        comments_index(3, Stage::Parent, Reply::Article(Some(article_row(3, "t", "b")))),
        Step::Ask(Query::ListComments { article_id: 3 }, Stage::Fetch)
    );
    assert_eq!(
        comments_index(
            3,
            Stage::Fetch,
            Reply::Comments(vec![comment_row(8, 3, "x"), comment_row(2, 3, "y")])
        ),
        Step::Done(Ok(Response::Comments(vec![
            CommentResponse { id: 8, body: "x".to_string() },
            CommentResponse { id: 2, body: "y".to_string() },
        ])))
    );
}

#[test]
fn comments_create_inserts_under_the_article() {
    let form = comment_form();
    assert_eq!(
        comments_create(3, &form, Stage::Parent, Reply::Article(Some(article_row(3, "t", "b")))),
        Step::Ask(Query::InsertComment { article_id: 3, body: "C".to_string() }, Stage::Write)
    );
    assert_eq!(
        comments_create(3, &form, Stage::Write, Reply::CommentSaved(comment_row(11, 3, "C"))),
        Step::Done(Ok(Response::CommentCreated(CommentResponse { id: 11, body: "C".to_string() })))
    );
}

#[test]
fn comments_show_is_scoped_by_article_and_id() {
    assert_eq!(
        comments_show(3, 5, Stage::Parent, Reply::Article(Some(article_row(3, "t", "b")))),
        Step::Ask(Query::GetComment { article_id: 3, id: 5 }, Stage::Fetch)
    );
    assert_eq!(
        comments_show(3, 5, Stage::Fetch, Reply::Comment(Some(comment_row(5, 3, "c")))),
        Step::Done(Ok(Response::Comment(CommentResponse { id: 5, body: "c".to_string() })))
    );
    assert_eq!(comments_show(3, 5, Stage::Fetch, Reply::Comment(None)), not_found());
}

#[test]
fn comments_update_runs_all_four_stages() {
    let form = comment_form();
    let lookup = || Query::GetComment { article_id: 3, id: 5 };
    assert_eq!(
        comments_update(3, 5, &form, Stage::Parent, Reply::Article(Some(article_row(3, "t", "b")))),
        Step::Ask(lookup(), Stage::Check)
    );
    assert_eq!(
        comments_update(3, 5, &form, Stage::Check, Reply::Comment(Some(comment_row(5, 3, "c")))),
        Step::Ask(lookup(), Stage::Read)
    );
    assert_eq!(comments_update(3, 5, &form, Stage::Check, Reply::Comment(None)), not_found());
    assert_eq!(
        comments_update(3, 5, &form, Stage::Read, Reply::Comment(Some(comment_row(5, 3, "c")))),
        Step::Ask(
            Query::UpdateComment { article_id: 3, id: 5, body: "C".to_string() },
            Stage::Write
        )
    );
    assert_eq!(
        comments_update(3, 5, &form, Stage::Write, Reply::CommentSaved(comment_row(5, 3, "C"))),
        Step::Done(Ok(Response::NoContent))
    );
}

#[test]
fn comments_delete_runs_all_four_stages() {
    let lookup = || Query::GetComment { article_id: 3, id: 5 };
    assert_eq!(
        comments_delete(3, 5, Stage::Parent, Reply::Article(Some(article_row(3, "t", "b")))),
        Step::Ask(lookup(), Stage::Check)
    );
    assert_eq!(
        comments_delete(3, 5, Stage::Check, Reply::Comment(Some(comment_row(5, 3, "c")))),
        Step::Ask(lookup(), Stage::Read)
    );
    assert_eq!(comments_delete(3, 5, Stage::Check, Reply::Comment(None)), not_found());
    assert_eq!(
        comments_delete(3, 5, Stage::Read, Reply::Comment(Some(comment_row(5, 3, "c")))),
        Step::Ask(Query::DeleteComment { article_id: 3, id: 5 }, Stage::Write)
    );
    assert_eq!(
        comments_delete(3, 5, Stage::Write, Reply::Deleted(1)),
        Step::Done(Ok(Response::NoContent))
    );
}

#[test]
fn answer_of_the_wrong_shape_is_an_internal_failure() {
    let unexpected = || internal("unexpected reply from the data store");
    assert_eq!(articles_show(1, Stage::Fetch, Reply::Comment(None)), unexpected());
    assert_eq!(articles_delete(1, Stage::Check, Reply::Comment(None)), unexpected());
    assert_eq!(articles_delete(1, Stage::Write, Reply::Article(None)), unexpected());
    assert_eq!(comments_show(1, 2, Stage::Parent, Reply::Comment(None)), unexpected());
    assert_eq!(comments_delete(1, 2, Stage::Check, Reply::Article(None)), unexpected());
    assert_eq!(comments_index(1, Stage::Fetch, Reply::Articles(vec![])), unexpected());
    assert_eq!(
        comments_create(1, &comment_form(), Stage::Write, Reply::ArticleSaved(article_row(1, "", ""))),
        unexpected()
    );
}

#[test]
fn stage_outside_the_route_is_an_internal_failure() {
    let unexpected = || internal("unexpected reply from the data store");
    assert_eq!(articles_show(1, Stage::Parent, Reply::Article(None)), unexpected());
    assert_eq!(articles_show(1, Stage::Write, store_failure()), unexpected());
    assert_eq!(articles_index(Stage::Read, Reply::Articles(vec![])), unexpected());
    assert_eq!(comments_index(1, Stage::Check, Reply::Comment(None)), unexpected());
    assert_eq!(articles_delete(1, Stage::Fetch, Reply::Article(None)), unexpected());
}

#[test]
fn resume_lets_the_handler_of_the_route_decide() {
    let request = Request::CommentsShow { article_id: 3, id: 5 };
    assert_eq!(
        resume(&request, Stage::Parent, Reply::Article(Some(article_row(3, "t", "b")))),
        comments_show(3, 5, Stage::Parent, Reply::Article(Some(article_row(3, "t", "b"))))
    );
    let request = Request::ArticlesUpdate { id: 3, article_form: article_form() };
    assert_eq!(
        resume(&request, Stage::Read, Reply::Article(Some(article_row(3, "t", "b")))),
        articles_update(3, &article_form(), Stage::Read, Reply::Article(Some(article_row(3, "t", "b"))))
    );
}

#[test]
fn response_statuses() {
    let shown = || ArticleResponse { id: 1, title: String::new(), body: String::new() };
    let comment = || CommentResponse { id: 1, body: String::new() };
    assert_eq!(Response::Articles(vec![]).status_code(), 200);
    assert_eq!(Response::Article(shown()).status_code(), 200);
    assert_eq!(Response::ArticleCreated(shown()).status_code(), 201);
    assert_eq!(Response::Comments(vec![]).status_code(), 200);
    assert_eq!(Response::Comment(comment()).status_code(), 200);
    assert_eq!(Response::CommentCreated(comment()).status_code(), 201);
    assert_eq!(Response::NoContent.status_code(), 204);
}

fn all_replies() -> Vec<Reply> {
    vec![
        Reply::Articles(vec![article_row(1, "a", "b")]),
        Reply::Article(Some(article_row(3, "a", "b"))),
        Reply::Article(None),
        Reply::ArticleSaved(article_row(3, "a", "b")),
        Reply::Comments(vec![comment_row(5, 3, "c")]),
        Reply::Comment(Some(comment_row(5, 3, "c"))),
        Reply::Comment(None),
        Reply::CommentSaved(comment_row(5, 3, "c")),
        Reply::Deleted(1),
        store_failure(),
    ]
}

#[test]
fn every_route_answers_with_its_own_statuses() {
    let expected_success = [200, 201, 200, 204, 204, 200, 201, 200, 204, 204];
    for (request, success) in all_requests().into_iter().zip(expected_success) {
        let can_be_not_found =
            !matches!(request, Request::ArticlesIndex | Request::ArticlesCreate { .. });
        let mut succeeded = false;
        for stage in [Stage::Parent, Stage::Check, Stage::Read, Stage::Write, Stage::Fetch] {
            for reply in all_replies() {
                match resume(&request, stage, reply) {
                    Step::Ask(_, _) => {}
                    Step::Done(Ok(response)) => {
                        assert_eq!(response.status_code(), success);
                        succeeded = true;
                    }
                    Step::Done(Err(error)) => {
                        let status = error.status_code();
                        assert!(status == 500 || (status == 404 && can_be_not_found));
                    }
                }
            }
        }
        assert!(succeeded, "{:?} never succeeded", request);
    }
}

#[test]
fn no_request_asks_more_than_four_queries() {
    for request in all_requests() {
        let (_, mut stage) = begin(&request);
        let mut asked = 1;
        loop {
            // Answer every lookup with a row, so that the request goes on as long as it can.
            let reply = match stage {
                Stage::Parent => Reply::Article(Some(article_row(3, "a", "b"))),
                Stage::Check | Stage::Read => match request {
                    Request::ArticlesUpdate { .. } | Request::ArticlesDelete { .. } => {
                        Reply::Article(Some(article_row(3, "a", "b")))
                    }
                    _ => Reply::Comment(Some(comment_row(5, 3, "c"))),
                },
                _ => store_failure(),
            };
            match resume(&request, stage, reply) {
                Step::Ask(_, after) => {
                    stage = after;
                    asked += 1;
                }
                Step::Done(_) => break,
            }
        }
        assert!(asked <= 4, "{:?} asked {} queries", request, asked);
    }
}
