//! The request tracer.
//!
//! The tracer wraps a service and reports three moments of every request: it
//! came in, it was answered, it failed. It decides what is reported; running
//! the wrapped service and writing the lines out is the caller's part. It
//! takes no part in what the service answers.

use vstd::prelude::*;
use vstd::string::*;

verus! {

/// The factory of the tracer: wraps a service into a `SentryMiddleware`.
#[derive(Debug, Clone, Copy, PartialEq, Eq, Structural)]
pub struct Sentry;

/// A service with the tracer around it.
#[derive(Debug)]
pub struct SentryMiddleware<S> {
    service: S,
}

/// What is reported when a request for `path` comes in.
pub open spec fn start_line(path: Seq<char>) -> Seq<char> {
    "Hi from start. You requested: "@ + path
}

/// What is reported when the wrapped service has finished: one line for an
/// answer, another for a failure.
pub open spec fn finish_line(answered: bool) -> Seq<char> {
    if answered {
        "Hi from response"@
    } else {
        "Hi from error"@
    }
}

impl Sentry {
    /// Puts the tracer around `service`.
    pub fn new_transform<S>(&self, service: S) -> (middleware: SentryMiddleware<S>)
        ensures
            middleware.wrapped() == service,
    {
        SentryMiddleware { service }
    }
}

impl<S> SentryMiddleware<S> {
    /// The service inside the tracer.
    pub closed spec fn wrapped(self) -> S {
        self.service
    }

    /// The service inside the tracer, to hand the request on to.
    pub fn service(&self) -> (service: &S)
        ensures
            *service == self.wrapped(),
    {
        &self.service
    }

    /// The line for a request that came in.
    pub fn started(&self, path: &str) -> (line: String)
        ensures
            line@ == start_line(path@),
    {
        let mut line = "Hi from start. You requested: ".to_owned();
        line.append(path);
        line
    }

    /// The line for a request that the wrapped service has finished with:
    /// `answered` says whether it gave a response or failed.
    pub fn finished(&self, answered: bool) -> (line: String)
        ensures
            line@ == finish_line(answered),
    {
        if answered {
            "Hi from response".to_owned()
        } else {
            "Hi from error".to_owned()
        }
    }
}

} // verus!
