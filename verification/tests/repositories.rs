use articles_api::model::{Article, Comment};
use articles_api::query::{Query, Reply};
use articles_api::repository::{ArticlesRepository, CommentsRepository, DbErr};
use articles_api::state::AppState;

fn article(id: i32, title: &str, body: &str) -> Article {
    Article { id, title: title.to_string(), body: body.to_string() }
}

fn comment(id: i32, article_id: i32, body: &str) -> Comment {
    Comment { id, article_id, body: body.to_string() }
}

fn record_not_found() -> DbErr {
    DbErr { message: "record not found".to_string() }
}

#[test]
fn article_repository_starts_empty() {
    let repository = ArticlesRepository::new();
    assert_eq!(repository.find_all(), Ok(vec![]));
    assert_eq!(repository.find_by_id(1), Ok(None));
}

#[test]
fn article_create_ignores_the_given_id() {
    let mut repository = ArticlesRepository::new();
    assert_eq!(repository.create(article(42, "a", "1")), Ok(article(1, "a", "1")));
    assert_eq!(repository.create(article(0, "b", "2")), Ok(article(2, "b", "2")));
    assert_eq!(repository.find_by_id(42), Ok(None));
    assert_eq!(repository.find_by_id(2), Ok(Some(article(2, "b", "2"))));
    assert_eq!(repository.find_all(), Ok(vec![article(1, "a", "1"), article(2, "b", "2")]));
}

#[test]
fn article_update_needs_the_row() {
    let mut repository = ArticlesRepository::new();
    repository.create(article(0, "a", "1")).unwrap();
    assert_eq!(repository.update(article(1, "A", "one")), Ok(article(1, "A", "one")));
    assert_eq!(repository.find_by_id(1), Ok(Some(article(1, "A", "one"))));
    assert_eq!(repository.update(article(2, "x", "y")), Err(record_not_found()));
    assert_eq!(repository.find_all(), Ok(vec![article(1, "A", "one")]));
}

#[test]
fn article_delete_needs_the_row() {
    let mut repository = ArticlesRepository::new();
    repository.create(article(0, "a", "1")).unwrap();
    repository.create(article(0, "b", "2")).unwrap();
    assert_eq!(repository.delete(1), Ok(1));
    assert_eq!(repository.delete(1), Err(record_not_found()));
    assert_eq!(repository.find_all(), Ok(vec![article(2, "b", "2")]));
}

#[test]
fn comment_repository_is_scoped_by_article() {
    let mut repository = CommentsRepository::new();
    assert_eq!(repository.create(comment(9, 7, "x")), Ok(comment(1, 7, "x")));
    assert_eq!(repository.create(comment(9, 8, "y")), Ok(comment(2, 8, "y")));
    assert_eq!(repository.create(comment(9, 7, "z")), Ok(comment(3, 7, "z")));
    assert_eq!(
        repository.find_all_by_article_id(7),
        Ok(vec![comment(1, 7, "x"), comment(3, 7, "z")])
    );
    assert_eq!(repository.find_all_by_article_id(8), Ok(vec![comment(2, 8, "y")]));
    assert_eq!(repository.find_all_by_article_id(9), Ok(vec![]));
    assert_eq!(repository.find_by_article_id_and_id(7, 1), Ok(Some(comment(1, 7, "x"))));
    assert_eq!(repository.find_by_article_id_and_id(8, 1), Ok(None));
    assert_eq!(repository.find_by_article_id_and_id(7, 2), Ok(None));
    assert_eq!(repository.find_by_article_id_and_id(7, 4), Ok(None));
}

#[test]
fn comment_update_and_delete_are_scoped_by_article() {
    let mut repository = CommentsRepository::new();
    repository.create(comment(0, 7, "x")).unwrap();
    assert_eq!(repository.update(comment(1, 8, "moved")), Err(record_not_found()));
    assert_eq!(repository.delete(8, 1), Err(record_not_found()));
    assert_eq!(repository.find_by_article_id_and_id(7, 1), Ok(Some(comment(1, 7, "x"))));
    assert_eq!(repository.update(comment(1, 7, "new")), Ok(comment(1, 7, "new")));
    assert_eq!(repository.find_by_article_id_and_id(7, 1), Ok(Some(comment(1, 7, "new"))));
    assert_eq!(repository.delete(7, 1), Ok(1));
    assert_eq!(repository.delete(7, 1), Err(record_not_found()));
    assert_eq!(repository.find_all_by_article_id(7), Ok(vec![]));
}

#[test]
fn comment_create_does_not_look_at_articles() {
    let mut state = AppState::new();
    assert_eq!(
        state.answer(Query::InsertComment { article_id: 5, body: "orphan".to_string() }),
        Reply::CommentSaved(comment(1, 5, "orphan"))
    );
    assert_eq!(state.answer(Query::GetArticle { id: 5 }), Reply::Article(None));
    assert_eq!(
        state.answer(Query::ListComments { article_id: 5 }),
        Reply::Comments(vec![comment(1, 5, "orphan")])
    );
}

#[test]
fn state_answers_each_query() {
    let mut state = AppState::new();
    assert_eq!(state.answer(Query::ListArticles), Reply::Articles(vec![]));
    assert_eq!(
        state.answer(Query::InsertArticle { title: "a".to_string(), body: "1".to_string() }),
        Reply::ArticleSaved(article(1, "a", "1"))
    );
    assert_eq!(state.answer(Query::GetArticle { id: 1 }), Reply::Article(Some(article(1, "a", "1"))));
    assert_eq!(
        state.answer(Query::UpdateArticle { id: 1, title: "A".to_string(), body: "2".to_string() }),
        Reply::ArticleSaved(article(1, "A", "2"))
    );
    assert_eq!(
        state.answer(Query::UpdateArticle { id: 2, title: "A".to_string(), body: "2".to_string() }),
        Reply::Failed(record_not_found())
    );
    assert_eq!(
        state.answer(Query::InsertComment { article_id: 1, body: "c".to_string() }),
        Reply::CommentSaved(comment(1, 1, "c"))
    );
    assert_eq!(
        state.answer(Query::GetComment { article_id: 1, id: 1 }),
        Reply::Comment(Some(comment(1, 1, "c")))
    );
    assert_eq!(state.answer(Query::GetComment { article_id: 2, id: 1 }), Reply::Comment(None));
    assert_eq!(
        state.answer(Query::UpdateComment { article_id: 1, id: 1, body: "d".to_string() }),
        Reply::CommentSaved(comment(1, 1, "d"))
    );
    assert_eq!(
        state.answer(Query::DeleteComment { article_id: 2, id: 1 }),
        Reply::Failed(record_not_found())
    );
    assert_eq!(state.answer(Query::DeleteComment { article_id: 1, id: 1 }), Reply::Deleted(1));
    assert_eq!(state.answer(Query::DeleteArticle { id: 1 }), Reply::Deleted(1));
    assert_eq!(state.answer(Query::DeleteArticle { id: 1 }), Reply::Failed(record_not_found()));
    assert_eq!(state.answer(Query::ListArticles), Reply::Articles(vec![]));
}

#[test]
fn repository_can_start_after_a_given_id() {
    let mut repository = ArticlesRepository::starting_after(41);
    assert_eq!(repository.find_all(), Ok(vec![]));
    assert_eq!(repository.create(article(0, "a", "1")), Ok(article(42, "a", "1")));
    let mut repository = ArticlesRepository::starting_after(-5);
    assert_eq!(repository.create(article(0, "a", "1")), Ok(article(1, "a", "1")));
    let mut repository = CommentsRepository::starting_after(i32::MAX);
    assert_eq!(
        repository.create(comment(0, 1, "x")),
        Err(DbErr { message: "no id left to assign".to_string() })
    );
    assert_eq!(repository.find_all_by_article_id(1), Ok(vec![]));
}
