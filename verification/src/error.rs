//! The service's errors, and what each is answered with.

use vstd::prelude::*;
use vstd::string::*;
use crate::text::join2;

verus! {

/// An error that ends a request. Each variant carries the text shown to the
/// caller; `DatabaseError` carries the text of the failed database call.
#[derive(Debug)]
pub enum AppError {
    Unauthorized(String),
    Forbidden(String),
    ValidationError(String),
    DatabaseError(String),
    TokenError(String),
    NotFound(String),
}

/// The mathematical value of an `AppError`: the variant and its text.
pub enum AppErrorView {
    Unauthorized(Seq<char>),
    Forbidden(Seq<char>),
    ValidationError(Seq<char>),
    DatabaseError(Seq<char>),
    TokenError(Seq<char>),
    NotFound(Seq<char>),
}

impl View for AppError {
    type V = AppErrorView;

    open spec fn view(&self) -> AppErrorView {
        match self {
            AppError::Unauthorized(s) => AppErrorView::Unauthorized(s@),
            AppError::Forbidden(s) => AppErrorView::Forbidden(s@),
            AppError::ValidationError(s) => AppErrorView::ValidationError(s@),
            AppError::DatabaseError(s) => AppErrorView::DatabaseError(s@),
            AppError::TokenError(s) => AppErrorView::TokenError(s@),
            AppError::NotFound(s) => AppErrorView::NotFound(s@),
        }
    }
}

impl AppErrorView {
    /// The text the variant carries.
    pub open spec fn detail(self) -> Seq<char> {
        match self {
            AppErrorView::Unauthorized(s) => s,
            AppErrorView::Forbidden(s) => s,
            AppErrorView::ValidationError(s) => s,
            AppErrorView::DatabaseError(s) => s,
            AppErrorView::TokenError(s) => s,
            AppErrorView::NotFound(s) => s,
        }
    }

    /// The label that the error's text starts with.
    pub open spec fn label(self) -> Seq<char> {
        match self {
            AppErrorView::Unauthorized(_) => "Unauthorized: "@,
            AppErrorView::Forbidden(_) => "Forbidden: "@,
            AppErrorView::ValidationError(_) => "Validation error: "@,
            AppErrorView::DatabaseError(_) => "Database error: "@,
            AppErrorView::TokenError(_) => "Token error: "@,
            AppErrorView::NotFound(_) => "Not found: "@,
        }
    }

    /// The full text of the error: its label, then its detail.
    pub open spec fn text(self) -> Seq<char> {
        self.label() + self.detail()
    }

    /// The HTTP status code the error is answered with.
    pub open spec fn status(self) -> u16 {
        match self {
            AppErrorView::Unauthorized(_) => 401,
            AppErrorView::Forbidden(_) => 403,
            AppErrorView::ValidationError(_) => 422,
            AppErrorView::DatabaseError(_) => 500,
            AppErrorView::TokenError(_) => 500,
            AppErrorView::NotFound(_) => 404,
        }
    }
}

/// Whether a result is the given error.
pub open spec fn fails_with<T>(r: Result<T, AppError>, v: AppErrorView) -> bool {
    match r {
        Err(e) => e@ == v,
        Ok(_) => false,
    }
}

/// The status code of an error depends on its variant alone, never on its
/// text: unauthorized 401, forbidden 403, validation 422, database and token
/// errors 500, not found 404.
pub proof fn lemma_status_follows_variant(e: AppErrorView, t: Seq<char>)
    ensures
        e is Unauthorized ==> e.status() == 401 && e.status() == AppErrorView::Unauthorized(t).status(),
        e is Forbidden ==> e.status() == 403 && e.status() == AppErrorView::Forbidden(t).status(),
        e is ValidationError ==> e.status() == 422 && e.status() == AppErrorView::ValidationError(
            t,
        ).status(),
        e is DatabaseError ==> e.status() == 500 && e.status() == AppErrorView::DatabaseError(
            t,
        ).status(),
        e is TokenError ==> e.status() == 500 && e.status() == AppErrorView::TokenError(t).status(),
        e is NotFound ==> e.status() == 404 && e.status() == AppErrorView::NotFound(t).status(),
{
}

/// The text of an error is its variant's label followed by the error's own
/// text, whatever that text is.
pub proof fn lemma_text_is_label_and_detail(t: Seq<char>)
    ensures
        AppErrorView::Unauthorized(t).text() == "Unauthorized: "@ + t,
        AppErrorView::Forbidden(t).text() == "Forbidden: "@ + t,
        AppErrorView::ValidationError(t).text() == "Validation error: "@ + t,
        AppErrorView::DatabaseError(t).text() == "Database error: "@ + t,
        AppErrorView::TokenError(t).text() == "Token error: "@ + t,
        AppErrorView::NotFound(t).text() == "Not found: "@ + t,
{
}

impl AppError {
    /// The HTTP status code of the response to this error.
    pub fn status_code(&self) -> (code: u16)
        ensures
            code == self@.status(),
            self is Unauthorized ==> code == 401,
            self is Forbidden ==> code == 403,
            self is ValidationError ==> code == 422,
            self is DatabaseError ==> code == 500,
            self is TokenError ==> code == 500,
            self is NotFound ==> code == 404,
    {
        match self {
            AppError::Unauthorized(_) => 401,
            AppError::Forbidden(_) => 403,
            AppError::ValidationError(_) => 422,
            AppError::DatabaseError(_) => 500,
            AppError::TokenError(_) => 500,
            AppError::NotFound(_) => 404,
        }
    }

    /// The text of the error, as the response's `error` field carries it.
    pub fn message(&self) -> (text: String)
        ensures
            text@ == self@.text(),
            self is Unauthorized ==> text@ == "Unauthorized: "@ + self->Unauthorized_0@,
            self is Forbidden ==> text@ == "Forbidden: "@ + self->Forbidden_0@,
            self is ValidationError ==> text@ == "Validation error: "@ + self->ValidationError_0@,
            self is DatabaseError ==> text@ == "Database error: "@ + self->DatabaseError_0@,
            self is TokenError ==> text@ == "Token error: "@ + self->TokenError_0@,
            self is NotFound ==> text@ == "Not found: "@ + self->NotFound_0@,
    {
        match self {
            AppError::Unauthorized(s) => join2("Unauthorized: ", s.as_str()),
            AppError::Forbidden(s) => join2("Forbidden: ", s.as_str()),
            AppError::ValidationError(s) => join2("Validation error: ", s.as_str()),
            AppError::DatabaseError(s) => join2("Database error: ", s.as_str()),
            AppError::TokenError(s) => join2("Token error: ", s.as_str()),
            AppError::NotFound(s) => join2("Not found: ", s.as_str()),
        }
    }

    /// The status code and text of the response to this error.
    pub fn into_response(self) -> (resp: (u16, String))
        ensures
            resp.0 == self@.status(),
            resp.1@ == self@.text(),
    {
        let code = self.status_code();
        let text = self.message();
        (code, text)
    }
}

} // verus!
