use articles_api::error::{AppError, AppErrorKind, HttpErrorResponse};
use articles_api::handler::{Request, Response};
use articles_api::model::{ArticleForm, ArticleResponse, CommentForm, CommentResponse};
use articles_api::repository::{ArticlesRepository, CommentsRepository};
use articles_api::service::serve;
use articles_api::state::AppState;

fn article_form(title: &str, body: &str) -> ArticleForm {
    ArticleForm { title: title.to_string(), body: body.to_string() }
}

fn comment_form(body: &str) -> CommentForm {
    CommentForm { body: body.to_string() }
}

fn article(id: i32, title: &str, body: &str) -> ArticleResponse {
    ArticleResponse { id, title: title.to_string(), body: body.to_string() }
}

fn comment(id: i32, body: &str) -> CommentResponse {
    CommentResponse { id, body: body.to_string() }
}

fn status(result: &Result<Response, AppError>) -> u16 {
    match result {
        Ok(response) => response.status_code(),
        Err(error) => error.status_code(),
    }
}

fn assert_not_found(result: Result<Response, AppError>) {
    let error = result.expect_err("the request should fail");
    assert_eq!(error.kind(), AppErrorKind::NotFound);
    assert_eq!(error.status_code(), 404);
    let (code, body) = error.error_response();
    assert_eq!(code, 404);
    assert_eq!(
        body,
        HttpErrorResponse { code: "NOT_FOUND".to_string(), message: "Not Found".to_string() }
    );
}

#[test]
fn create_show_comment_and_delete() {
    let mut state = AppState::new();

    let created = serve(&mut state, &Request::ArticlesCreate { article_form: article_form("A", "B") });
    assert_eq!(status(&created), 201);
    assert_eq!(created, Ok(Response::ArticleCreated(article(1, "A", "B"))));

    let shown = serve(&mut state, &Request::ArticlesShow { id: 1 });
    assert_eq!(status(&shown), 200);
    assert_eq!(shown, Ok(Response::Article(article(1, "A", "B"))));

    let commented = serve(
        &mut state,
        &Request::CommentsCreate { article_id: 1, comment_form: comment_form("hi") },
    );
    assert_eq!(status(&commented), 201);
    assert_eq!(commented, Ok(Response::CommentCreated(comment(1, "hi"))));

    let comment_shown = serve(&mut state, &Request::CommentsShow { article_id: 1, id: 1 });
    assert_eq!(status(&comment_shown), 200);
    assert_eq!(comment_shown, Ok(Response::Comment(comment(1, "hi"))));

    assert_not_found(serve(&mut state, &Request::CommentsShow { article_id: 1, id: 2 }));

    let deleted = serve(&mut state, &Request::ArticlesDelete { id: 1 });
    assert_eq!(status(&deleted), 204);
    assert_eq!(deleted, Ok(Response::NoContent));

    assert_not_found(serve(&mut state, &Request::ArticlesShow { id: 1 }));
}

#[test]
fn created_article_gets_an_unused_id_and_is_shown() {
    let mut state = AppState::new();
    let mut seen = Vec::new();
    for (title, body) in [("one", "first"), ("two", ""), ("three", "third")] {
        let created = serve(&mut state, &Request::ArticlesCreate { article_form: article_form(title, body) });
        let id = match created {
            Ok(Response::ArticleCreated(article)) => {
                assert_eq!(article.title, title);
                assert_eq!(article.body, body);
                article.id
            },
            other => panic!("unexpected result {:?}", other),
        };
        assert!(!seen.contains(&id));
        seen.push(id);
        assert_eq!(
            serve(&mut state, &Request::ArticlesShow { id }),
            Ok(Response::Article(article(id, title, body)))
        );
    }
    assert_eq!(seen, vec![1, 2, 3]);
}

#[test]
fn ids_are_not_handed_out_again_after_a_delete() {
    let mut state = AppState::new();
    serve(&mut state, &Request::ArticlesCreate { article_form: article_form("a", "1") }).unwrap();
    serve(&mut state, &Request::ArticlesCreate { article_form: article_form("b", "2") }).unwrap();
    serve(&mut state, &Request::ArticlesDelete { id: 2 }).unwrap();
    assert_eq!(
        serve(&mut state, &Request::ArticlesCreate { article_form: article_form("c", "3") }),
        Ok(Response::ArticleCreated(article(3, "c", "3")))
    );
}

#[test]
fn articles_are_listed_in_store_order() {
    let mut state = AppState::new();
    assert_eq!(serve(&mut state, &Request::ArticlesIndex), Ok(Response::Articles(vec![])));
    serve(&mut state, &Request::ArticlesCreate { article_form: article_form("a", "1") }).unwrap();
    serve(&mut state, &Request::ArticlesCreate { article_form: article_form("b", "2") }).unwrap();
    serve(&mut state, &Request::ArticlesCreate { article_form: article_form("c", "3") }).unwrap();
    serve(&mut state, &Request::ArticlesDelete { id: 2 }).unwrap();
    let listed = serve(&mut state, &Request::ArticlesIndex);
    assert_eq!(status(&listed), 200);
    assert_eq!(listed, Ok(Response::Articles(vec![article(1, "a", "1"), article(3, "c", "3")])));
}

#[test]
fn update_changes_title_and_body_in_place() {
    let mut state = AppState::new();
    serve(&mut state, &Request::ArticlesCreate { article_form: article_form("a", "1") }).unwrap();
    serve(&mut state, &Request::ArticlesCreate { article_form: article_form("b", "2") }).unwrap();
    let updated = serve(&mut state, &Request::ArticlesUpdate { id: 1, article_form: article_form("A", "one") });
    assert_eq!(status(&updated), 204);
    assert_eq!(updated, Ok(Response::NoContent));
    assert_eq!(
        serve(&mut state, &Request::ArticlesIndex),
        Ok(Response::Articles(vec![article(1, "A", "one"), article(2, "b", "2")]))
    );
}

#[test]
fn comment_is_found_under_its_article_only() {
    let mut state = AppState::new();
    serve(&mut state, &Request::ArticlesCreate { article_form: article_form("a", "1") }).unwrap();
    serve(&mut state, &Request::ArticlesCreate { article_form: article_form("b", "2") }).unwrap();
    assert_eq!(
        serve(&mut state, &Request::CommentsCreate { article_id: 1, comment_form: comment_form("on a") }),
        Ok(Response::CommentCreated(comment(1, "on a")))
    );
    assert_eq!(
        serve(&mut state, &Request::CommentsCreate { article_id: 2, comment_form: comment_form("on b") }),
        Ok(Response::CommentCreated(comment(2, "on b")))
    );
    assert_eq!(
        serve(&mut state, &Request::CommentsShow { article_id: 1, id: 1 }),
        Ok(Response::Comment(comment(1, "on a")))
    );
    assert_not_found(serve(&mut state, &Request::CommentsShow { article_id: 2, id: 1 }));
    assert_not_found(serve(&mut state, &Request::CommentsShow { article_id: 1, id: 2 }));
    assert_not_found(serve(
        &mut state,
        &Request::CommentsUpdate { article_id: 2, id: 1, comment_form: comment_form("moved") },
    ));
    assert_not_found(serve(&mut state, &Request::CommentsDelete { article_id: 2, id: 1 }));
    assert_eq!(
        serve(&mut state, &Request::CommentsIndex { article_id: 1 }),
        Ok(Response::Comments(vec![comment(1, "on a")]))
    );
    assert_eq!(
        serve(&mut state, &Request::CommentsIndex { article_id: 2 }),
        Ok(Response::Comments(vec![comment(2, "on b")]))
    );
}

#[test]
fn comment_update_keeps_the_article() {
    let mut state = AppState::new();
    serve(&mut state, &Request::ArticlesCreate { article_form: article_form("a", "1") }).unwrap();
    serve(&mut state, &Request::ArticlesCreate { article_form: article_form("b", "2") }).unwrap();
    serve(&mut state, &Request::CommentsCreate { article_id: 1, comment_form: comment_form("old") }).unwrap();
    let updated = serve(
        &mut state,
        &Request::CommentsUpdate { article_id: 1, id: 1, comment_form: comment_form("new") },
    );
    assert_eq!(updated, Ok(Response::NoContent));
    assert_eq!(
        serve(&mut state, &Request::CommentsShow { article_id: 1, id: 1 }),
        Ok(Response::Comment(comment(1, "new")))
    );
    assert_not_found(serve(&mut state, &Request::CommentsShow { article_id: 2, id: 1 }));
}

#[test]
fn deleted_article_hides_its_comments() {
    let mut state = AppState::new();
    serve(&mut state, &Request::ArticlesCreate { article_form: article_form("a", "1") }).unwrap();
    serve(&mut state, &Request::CommentsCreate { article_id: 1, comment_form: comment_form("c") }).unwrap();
    serve(&mut state, &Request::ArticlesDelete { id: 1 }).unwrap();
    assert_not_found(serve(&mut state, &Request::CommentsIndex { article_id: 1 }));
    assert_not_found(serve(&mut state, &Request::CommentsShow { article_id: 1, id: 1 }));
    assert_not_found(serve(
        &mut state,
        &Request::CommentsCreate { article_id: 1, comment_form: comment_form("late") },
    ));
    assert_not_found(serve(
        &mut state,
        &Request::CommentsUpdate { article_id: 1, id: 1, comment_form: comment_form("late") },
    ));
    assert_not_found(serve(&mut state, &Request::CommentsDelete { article_id: 1, id: 1 }));
    // The comment row is still stored: the delete did not cascade.
    assert_eq!(
        state.comments.find_by_article_id_and_id(1, 1).unwrap().map(|c| c.body),
        Some("c".to_string())
    );
}

#[test]
fn update_and_delete_of_missing_rows_are_not_found() {
    let mut state = AppState::new();
    assert_not_found(serve(&mut state, &Request::ArticlesUpdate { id: 7, article_form: article_form("t", "b") }));
    assert_not_found(serve(&mut state, &Request::ArticlesDelete { id: 7 }));
    assert_not_found(serve(
        &mut state,
        &Request::CommentsUpdate { article_id: 7, id: 1, comment_form: comment_form("b") },
    ));
    assert_not_found(serve(&mut state, &Request::CommentsDelete { article_id: 7, id: 1 }));
    serve(&mut state, &Request::ArticlesCreate { article_form: article_form("a", "1") }).unwrap();
    assert_not_found(serve(
        &mut state,
        &Request::CommentsUpdate { article_id: 1, id: 1, comment_form: comment_form("b") },
    ));
    assert_not_found(serve(&mut state, &Request::CommentsDelete { article_id: 1, id: 1 }));
    assert_not_found(serve(&mut state, &Request::ArticlesShow { id: -1 }));
    assert_not_found(serve(&mut state, &Request::ArticlesShow { id: 0 }));
}

#[test]
fn second_delete_is_not_found() {
    let mut state = AppState::new();
    serve(&mut state, &Request::ArticlesCreate { article_form: article_form("a", "1") }).unwrap();
    serve(&mut state, &Request::CommentsCreate { article_id: 1, comment_form: comment_form("c") }).unwrap();

    let first = serve(&mut state, &Request::CommentsDelete { article_id: 1, id: 1 });
    assert_eq!(status(&first), 204);
    let second = serve(&mut state, &Request::CommentsDelete { article_id: 1, id: 1 });
    assert_eq!(status(&second), 404);
    assert_not_found(second);

    let first = serve(&mut state, &Request::ArticlesDelete { id: 1 });
    assert_eq!(status(&first), 204);
    let second = serve(&mut state, &Request::ArticlesDelete { id: 1 });
    assert_eq!(status(&second), 404);
    assert_not_found(second);
}

#[test]
fn empty_body_is_accepted() {
    let mut state = AppState::new();
    assert_eq!(
        serve(&mut state, &Request::ArticlesCreate { article_form: article_form("t", "") }),
        Ok(Response::ArticleCreated(article(1, "t", "")))
    );
    assert_eq!(
        serve(&mut state, &Request::CommentsCreate { article_id: 1, comment_form: comment_form("") }),
        Ok(Response::CommentCreated(comment(1, "")))
    );
}

#[test]
fn create_fails_as_internal_failure_when_no_id_is_left() {
    let mut state = AppState {
        articles: ArticlesRepository::starting_after(i32::MAX - 1),
        comments: CommentsRepository::starting_after(i32::MAX),
    };
    assert_eq!(
        serve(&mut state, &Request::ArticlesCreate { article_form: article_form("last", "one") }),
        Ok(Response::ArticleCreated(article(i32::MAX, "last", "one")))
    );
    let failed = serve(&mut state, &Request::ArticlesCreate { article_form: article_form("a", "b") });
    assert_eq!(status(&failed), 500);
    assert_eq!(failed, Err(AppError::internal_server_error("no id left to assign".to_string())));
    let (code, body) = failed.unwrap_err().error_response();
    assert_eq!(code, 500);
    assert_eq!(
        body,
        HttpErrorResponse {
            code: "INTERNAL_SERVER_ERROR".to_string(),
            message: "Internal Server Error".to_string()
        }
    );
    // Nothing was stored by the failed request.
    assert_eq!(
        serve(&mut state, &Request::ArticlesIndex),
        Ok(Response::Articles(vec![article(i32::MAX, "last", "one")]))
    );
    let failed = serve(
        &mut state,
        &Request::CommentsCreate { article_id: i32::MAX, comment_form: comment_form("c") },
    );
    assert_eq!(failed, Err(AppError::internal_server_error("no id left to assign".to_string())));
    assert_eq!(
        serve(&mut state, &Request::CommentsIndex { article_id: i32::MAX }),
        Ok(Response::Comments(vec![]))
    );
}
