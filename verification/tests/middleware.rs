use articles_api::middleware::Sentry;

#[test]
fn tracer_wraps_the_service() {
    let middleware = Sentry.new_transform(41);
    assert_eq!(*middleware.service(), 41);
}

#[test]
fn tracer_reports_start_answer_and_failure() {
    let middleware = Sentry.new_transform(());
    assert_eq!(middleware.started("/articles/1"), "Hi from start. You requested: /articles/1");
    assert_eq!(middleware.started(""), "Hi from start. You requested: ");
    assert_eq!(middleware.finished(true), "Hi from response");
    assert_eq!(middleware.finished(false), "Hi from error");
}
