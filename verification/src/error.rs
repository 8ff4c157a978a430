//! The two kinds of failure a request can end in, and how each is rendered.
//!
//! A failure keeps the detail of what went wrong for the monitoring side, but
//! what a client sees depends on the kind alone: a fixed status and a fixed
//! body, whichever resource or check produced it.

use crate::repository::DbErr;
use vstd::prelude::*;
use vstd::std_specs::convert::FromSpecImpl;
use vstd::string::*;

verus! {

/// Why a request failed.
#[derive(Debug, Clone, Copy, PartialEq, Eq, Structural)]
pub enum AppErrorKind {
    /// Any failure that is not the client's: a data-store fault, or a row that
    /// vanished between a check and its use.
    InternalServerError,
    /// The named resource, or the parent it hangs under, does not exist.
    NotFound,
}

/// The body of an error response: a machine-readable code and a short text.
#[derive(Debug, PartialEq, Eq)]
pub struct HttpErrorResponse {
    pub code: String,
    pub message: String,
}

/// What an error body holds, as plain values.
pub struct HttpErrorResponseView {
    pub code: Seq<char>,
    pub message: Seq<char>,
}

impl View for HttpErrorResponse {
    type V = HttpErrorResponseView;

    open spec fn view(&self) -> HttpErrorResponseView {
        HttpErrorResponseView { code: self.code@, message: self.message@ }
    }
}

impl HttpErrorResponseView {
    /// The body every not-found failure is answered with.
    pub open spec fn not_found() -> Self {
        HttpErrorResponseView { code: "NOT_FOUND"@, message: "Not Found"@ }
    }

    /// The body every internal failure is answered with.
    pub open spec fn internal_server_error() -> Self {
        HttpErrorResponseView { code: "INTERNAL_SERVER_ERROR"@, message: "Internal Server Error"@ }
    }
}

impl HttpErrorResponse {
    /// An error body with the given code and text.
    pub fn new(code: &str, message: &str) -> (body: Self)
        ensures
            body@ == (HttpErrorResponseView { code: code@, message: message@ }),
    {
        Self { code: code.to_owned(), message: message.to_owned() }
    }

    /// The body of a not-found response.
    pub fn not_found() -> (body: Self)
        ensures
            body@ == HttpErrorResponseView::not_found(),
    {
        Self::new("NOT_FOUND", "Not Found")
    }

    /// The body of an internal-failure response.
    pub fn internal_server_error() -> (body: Self)
        ensures
            body@ == HttpErrorResponseView::internal_server_error(),
    {
        Self::new("INTERNAL_SERVER_ERROR", "Internal Server Error")
    }
}

impl AppErrorKind {
    /// The HTTP status a failure of this kind is answered with.
    pub open spec fn status(self) -> u16 {
        match self {
            AppErrorKind::InternalServerError => 500,
            AppErrorKind::NotFound => 404,
        }
    }

    /// The body a failure of this kind is answered with.
    pub open spec fn body(self) -> HttpErrorResponseView {
        match self {
            AppErrorKind::InternalServerError => HttpErrorResponseView::internal_server_error(),
            AppErrorKind::NotFound => HttpErrorResponseView::not_found(),
        }
    }

    /// The kind in words, as it opens the text of a failure.
    pub open spec fn text(self) -> Seq<char> {
        match self {
            AppErrorKind::InternalServerError => "internal server error"@,
            AppErrorKind::NotFound => "not found"@,
        }
    }

    /// The HTTP status a failure of this kind is answered with.
    pub fn status_code(self) -> (code: u16)
        ensures
            code == self.status(),
    {
        match self {
            AppErrorKind::InternalServerError => 500,
            AppErrorKind::NotFound => 404,
        }
    }

    /// The kind in words.
    pub fn to_text(self) -> (text: String)
        ensures
            text@ == self.text(),
    {
        match self {
            AppErrorKind::InternalServerError => "internal server error".to_owned(),
            AppErrorKind::NotFound => "not found".to_owned(),
        }
    }
}

/// A failed request: its kind, and the detail of what went wrong.
///
/// The detail never reaches the client; it is what the monitoring event
/// reports.
#[derive(Debug, PartialEq, Eq)]
pub struct AppError {
    kind: AppErrorKind,
    err: String,
}

/// What a failure holds, as plain values.
pub struct AppErrorView {
    pub kind: AppErrorKind,
    pub err: Seq<char>,
}

impl View for AppError {
    type V = AppErrorView;

    closed spec fn view(&self) -> AppErrorView {
        AppErrorView { kind: self.kind, err: self.err@ }
    }
}

impl AppErrorView {
    /// An internal failure caused by `err`.
    pub open spec fn internal_server_error(err: Seq<char>) -> Self {
        AppErrorView { kind: AppErrorKind::InternalServerError, err }
    }

    /// The failure that stands for a missing resource.
    pub open spec fn not_found() -> Self {
        AppErrorView { kind: AppErrorKind::NotFound, err: "Not Found"@ }
    }

    /// The failure in one line: the kind in words, a space, the detail.
    pub open spec fn text(self) -> Seq<char> {
        self.kind.text() + " "@ + self.err
    }
}

impl AppError {
    /// An internal failure that wraps the detail `err`.
    pub fn internal_server_error(err: String) -> (error: Self)
        ensures
            error@ == AppErrorView::internal_server_error(err@),
    {
        Self { kind: AppErrorKind::InternalServerError, err }
    }

    /// The failure that stands for a missing resource, whichever resource it is.
    pub fn not_found() -> (error: Self)
        ensures
            error@ == AppErrorView::not_found(),
    {
        Self { kind: AppErrorKind::NotFound, err: "Not Found".to_owned() }
    }

    /// The kind of this failure.
    pub fn kind(&self) -> (kind: AppErrorKind)
        ensures
            kind == self@.kind,
    {
        self.kind
    }

    /// The detail of what went wrong.
    pub fn detail(&self) -> (err: &str)
        ensures
            err@ == self@.err,
    {
        self.err.as_str()
    }

    /// The HTTP status this failure is answered with.
    pub fn status_code(&self) -> (code: u16)
        ensures
            code == self@.kind.status(),
    {
        self.kind.status_code()
    }

    /// The response this failure is answered with: the status and body of its
    /// kind. The detail is left out.
    pub fn error_response(&self) -> (response: (u16, HttpErrorResponse))
        ensures
            response.0 == self@.kind.status(),
            response.1@ == self@.kind.body(),
    {
        let body = match self.kind {
            AppErrorKind::InternalServerError => HttpErrorResponse::internal_server_error(),
            AppErrorKind::NotFound => HttpErrorResponse::not_found(),
        };
        (self.status_code(), body)
    }

    /// The failure in one line: the kind in words, a space, the detail.
    pub fn to_text(&self) -> (text: String)
        ensures
            text@ == self@.text(),
    {
        let mut text = self.kind.to_text();
        text.append(" ");
        text.append(self.err.as_str());
        text
    }
}

/// A failure of the data store becomes an internal failure that carries the
/// store's account.
impl From<DbErr> for AppError {
    fn from(err: DbErr) -> (error: AppError)
        ensures
            error@ == AppErrorView::internal_server_error(err@),
    {
        AppError { kind: AppErrorKind::InternalServerError, err: err.message }
    }
}

impl FromSpecImpl<DbErr> for AppError {
    open spec fn obeys_from_spec() -> bool {
        true
    }

    closed spec fn from_spec(err: DbErr) -> AppError {
        AppError { kind: AppErrorKind::InternalServerError, err: err.message }
    }
}

} // verus!
