//! How things fail.

use vstd::prelude::*;

verus! {

/// Why a cache operation did not succeed. Nothing is retried here: the caller
/// decides what a failure means.
#[derive(Debug, Clone, PartialEq, Eq)]
pub enum CacheError {
    /// The configuration cannot be used as it stands; holds the reason.
    Configuration(String),
    /// A connection could not be made or broke, a wait ran out, or the
    /// exchange left its protocol; holds the reason.
    Transport(String),
    /// The backend refused the operation; holds the body of its answer,
    /// unchanged.
    Backend(String),
    /// The answer arrived and was not of the expected shape; holds the reason.
    Encoding(String),
}

pub enum CacheErrorView {
    Configuration(Seq<char>),
    Transport(Seq<char>),
    Backend(Seq<char>),
    Encoding(Seq<char>),
}

impl View for CacheError {
    type V = CacheErrorView;

    open spec fn view(&self) -> CacheErrorView {
        match self {
            CacheError::Configuration(reason) => CacheErrorView::Configuration(reason@),
            CacheError::Transport(reason) => CacheErrorView::Transport(reason@),
            CacheError::Backend(body) => CacheErrorView::Backend(body@),
            CacheError::Encoding(reason) => CacheErrorView::Encoding(reason@),
        }
    }
}

/// What precedes the backend's own words in the text of a refusal.
pub open spec fn refusal_prefix() -> Seq<char> {
    "Upstash error: "@
}

impl CacheErrorView {
    /// The text that describes the failure.
    pub open spec fn message(self) -> Seq<char> {
        match self {
            CacheErrorView::Configuration(reason) => reason,
            CacheErrorView::Transport(reason) => reason,
            CacheErrorView::Backend(body) => refusal_prefix() + body,
            CacheErrorView::Encoding(reason) => reason,
        }
    }
}

impl CacheError {
    /// The text that describes the failure. For a refusal by the backend it
    /// is `Upstash error: ` followed by the backend's answer.
    pub fn message(&self) -> (text: String)
        ensures
            text@ == self@.message(),
    {
        match self {
            CacheError::Configuration(reason) => reason.clone(),
            CacheError::Transport(reason) => reason.clone(),
            CacheError::Backend(body) => {
                let mut text = String::from_str("Upstash error: ");
                text.append(body.as_str());
                text
            },
            CacheError::Encoding(reason) => reason.clone(),
        }
    }
}

/// Why a request could not be served.
#[derive(Debug, Clone, PartialEq, Eq)]
pub enum AppError {
    /// Something failed that the caller has no part in; holds what, for the
    /// service's own records.
    UnexpectedError(String),
    /// The request does not hold up; holds what is wrong with it.
    ValidationError(String),
    /// What was asked for is not there.
    NotFoundError,
    /// The relational store failed; holds how, for the service's own records.
    DatabaseError(String),
}

pub enum AppErrorView {
    UnexpectedError(Seq<char>),
    ValidationError(Seq<char>),
    NotFoundError,
    DatabaseError(Seq<char>),
}

impl View for AppError {
    type V = AppErrorView;

    open spec fn view(&self) -> AppErrorView {
        match self {
            AppError::UnexpectedError(source) => AppErrorView::UnexpectedError(source@),
            AppError::ValidationError(reason) => AppErrorView::ValidationError(reason@),
            AppError::NotFoundError => AppErrorView::NotFoundError,
            AppError::DatabaseError(source) => AppErrorView::DatabaseError(source@),
        }
    }
}

/// What is sent back for a failed request: the status, and the members
/// `error` and, where there is one, `message` of the JSON body.
#[derive(Debug, Clone, PartialEq, Eq)]
pub struct ErrorResponse {
    pub status: u16,
    pub error: String,
    pub message: Option<String>,
}

pub struct ErrorResponseView {
    pub status: u16,
    pub error: Seq<char>,
    pub message: Option<Seq<char>>,
}

impl View for ErrorResponse {
    type V = ErrorResponseView;

    open spec fn view(&self) -> ErrorResponseView {
        ErrorResponseView {
            status: self.status,
            error: self.error@,
            message: self.message.deep_view(),
        }
    }
}

impl AppErrorView {
    /// The HTTP status that answers the failure.
    pub open spec fn status_code(self) -> u16 {
        match self {
            AppErrorView::UnexpectedError(_) => 500,
            AppErrorView::ValidationError(_) => 400,
            AppErrorView::NotFoundError => 404,
            AppErrorView::DatabaseError(_) => 500,
        }
    }

    /// The failure in words, for the service's own records.
    pub open spec fn message(self) -> Seq<char> {
        match self {
            AppErrorView::UnexpectedError(_) => "Error Interno del Servidor"@,
            AppErrorView::ValidationError(reason) => "Error de Validación: "@ + reason,
            AppErrorView::NotFoundError => "Recurso No Encontrado"@,
            AppErrorView::DatabaseError(_) => "Error de Base de Datos"@,
        }
    }

    /// What is sent back. A failure inside the service is answered in the
    /// same words whatever its cause.
    pub open spec fn error_response(self) -> ErrorResponseView {
        match self {
            AppErrorView::UnexpectedError(_) => ErrorResponseView {
                status: 500,
                error: "Error Interno del Servidor"@,
                message: None,
            },
            AppErrorView::ValidationError(reason) => ErrorResponseView {
                status: 400,
                error: "Error de Validación"@,
                message: Some(reason),
            },
            AppErrorView::NotFoundError => ErrorResponseView {
                status: 404,
                error: "No Encontrado"@,
                message: None,
            },
            AppErrorView::DatabaseError(_) => ErrorResponseView {
                status: 500,
                error: "Error Interno del Servidor"@,
                message: None,
            },
        }
    }
}

impl AppError {
    /// The HTTP status that answers the failure: 400 for a request that does
    /// not hold up, 404 for what is not there, 500 for the rest.
    pub fn status_code(&self) -> (status: u16)
        ensures
            status == self@.status_code(),
    {
        match self {
            AppError::UnexpectedError(_) => 500,
            AppError::ValidationError(_) => 400,
            AppError::NotFoundError => 404,
            AppError::DatabaseError(_) => 500,
        }
    }

    /// The failure in words, for the service's own records.
    pub fn message(&self) -> (text: String)
        ensures
            text@ == self@.message(),
    {
        match self {
            AppError::UnexpectedError(_) => String::from_str("Error Interno del Servidor"),
            AppError::ValidationError(reason) => {
                let mut text = String::from_str("Error de Validación: ");
                text.append(reason.as_str());
                text
            },
            AppError::NotFoundError => String::from_str("Recurso No Encontrado"),
            AppError::DatabaseError(_) => String::from_str("Error de Base de Datos"),
        }
    }

    /// What is sent back for the failure.
    pub fn error_response(&self) -> (response: ErrorResponse)
        ensures
            response@ == self@.error_response(),
    {
        match self {
            AppError::UnexpectedError(_) => ErrorResponse {
                status: 500,
                error: String::from_str("Error Interno del Servidor"),
                message: None,
            },
            AppError::ValidationError(reason) => ErrorResponse {
                status: 400,
                error: String::from_str("Error de Validación"),
                message: Some(reason.clone()),
            },
            AppError::NotFoundError => ErrorResponse {
                status: 404,
                error: String::from_str("No Encontrado"),
                message: None,
            },
            AppError::DatabaseError(_) => ErrorResponse {
                status: 500,
                error: String::from_str("Error Interno del Servidor"),
                message: None,
            },
        }
    }
}

/// The answer to a failure carries the status of the failure, and tells the
/// caller nothing of what went wrong inside the service: only a request that
/// does not hold up is answered with a message, and that message is the
/// reason given.
pub proof fn response_shows_no_internals(error: AppErrorView)
    ensures
        error.error_response().status == error.status_code(),
        error.error_response().message is Some <==> error is ValidationError,
        error is ValidationError ==> error.error_response().message == Some(
            error->ValidationError_0,
        ),
        error is UnexpectedError || error is DatabaseError ==> error.error_response()
            == AppErrorView::UnexpectedError(Seq::empty()).error_response(),
{
}

} // verus!
