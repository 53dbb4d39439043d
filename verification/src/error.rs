use vstd::prelude::*;

verus! {

/// The errors that a request handler answers with.
#[derive(Debug, PartialEq)]
pub enum ApiError {
    BadRequest(String),
    Unauthorized(String),
    Forbidden(String),
    NotFound(String),
    Conflict(String),
    InternalServerError,
    InternalServerErrorWithMessage(String),
}

/// The mathematical model of an [`ApiError`]: the variant and its message.
pub enum ApiErrorView {
    BadRequest(Seq<char>),
    Unauthorized(Seq<char>),
    Forbidden(Seq<char>),
    NotFound(Seq<char>),
    Conflict(Seq<char>),
    InternalServerError,
    InternalServerErrorWithMessage(Seq<char>),
}

impl View for ApiError {
    type V = ApiErrorView;

    open spec fn view(&self) -> ApiErrorView {
        match self {
            ApiError::BadRequest(m) => ApiErrorView::BadRequest(m@),
            ApiError::Unauthorized(m) => ApiErrorView::Unauthorized(m@),
            ApiError::Forbidden(m) => ApiErrorView::Forbidden(m@),
            ApiError::NotFound(m) => ApiErrorView::NotFound(m@),
            ApiError::Conflict(m) => ApiErrorView::Conflict(m@),
            ApiError::InternalServerError => ApiErrorView::InternalServerError,
            ApiError::InternalServerErrorWithMessage(m) => ApiErrorView::InternalServerErrorWithMessage(m@),
        }
    }
}

/// The model of a handler's result: the value, or the model of the error.
pub open spec fn result_view<T>(r: Result<T, ApiError>) -> Result<T, ApiErrorView> {
    match r {
        Ok(v) => Ok(v),
        Err(e) => Err(e@),
    }
}

/// The HTTP status that answers an error.
pub open spec fn status_of(e: ApiErrorView) -> u16 {
    match e {
        ApiErrorView::BadRequest(_) => 400,
        ApiErrorView::Unauthorized(_) => 401,
        ApiErrorView::Forbidden(_) => 403,
        ApiErrorView::NotFound(_) => 404,
        ApiErrorView::Conflict(_) => 409,
        ApiErrorView::InternalServerError => 500,
        ApiErrorView::InternalServerErrorWithMessage(_) => 500,
    }
}

/// The message carried in the JSON body of the answer; the bare internal
/// error is answered with an empty body.
pub open spec fn body_of(e: ApiErrorView) -> Option<Seq<char>> {
    match e {
        ApiErrorView::BadRequest(m) => Some(m),
        ApiErrorView::Unauthorized(m) => Some(m),
        ApiErrorView::Forbidden(m) => Some(m),
        ApiErrorView::NotFound(m) => Some(m),
        ApiErrorView::Conflict(m) => Some(m),
        ApiErrorView::InternalServerError => None,
        ApiErrorView::InternalServerErrorWithMessage(m) => Some(m),
    }
}

/// The textual form of an error: the message of a variant that carries one,
/// the variant's name otherwise.
pub open spec fn text_of(e: ApiErrorView) -> Seq<char> {
    match e {
        ApiErrorView::InternalServerError => "InternalServerError"@,
        _ => body_of(e)->0,
    }
}

/// The JSON body `{ "msg": .. }` of an error answer.
pub struct ErrorResponse<T> {
    pub msg: T,
}

/// Where a failure that a handler turns into an [`ApiError`] came from.
#[derive(Debug, Clone, Copy, PartialEq, Eq)]
pub enum FailureKind {
    /// A variable of the process environment could not be read.
    Environment,
    /// A value could not be used as an HTTP header.
    InvalidHeader,
    /// A web token could not be made or read.
    Token,
    /// The database refused or failed a query.
    Database,
    /// A password could not be hashed or checked.
    Hashing,
    /// An e-mail message could not be built.
    MailContent,
    /// An e-mail message could not be handed to the mail server.
    MailTransport,
}

/// How a failure of the given kind, with the given description, is answered:
/// database and hashing failures pass their description on, all others give
/// the bare internal error.
pub open spec fn failure_error(kind: FailureKind, detail: Seq<char>) -> ApiErrorView {
    match kind {
        FailureKind::Database => ApiErrorView::InternalServerErrorWithMessage(detail),
        FailureKind::Hashing => ApiErrorView::InternalServerErrorWithMessage(detail),
        _ => ApiErrorView::InternalServerError,
    }
}

impl FailureKind {
    /// Whether the description of a failure of this kind is written to the
    /// log: exactly when the answer drops it.
    pub fn logs_detail(&self) -> (r: bool)
        ensures
            r == (failure_error(*self, Seq::empty()) is InternalServerError),
    {
        match self {
            FailureKind::Database => false,
            FailureKind::Hashing => false,
            _ => true,
        }
    }
}

impl ApiError {
    /// The HTTP status code of the answer to this error.
    pub fn status_code(&self) -> (r: u16)
        ensures
            r == status_of(self@),
    {
        match self {
            ApiError::BadRequest(_) => 400,
            ApiError::Unauthorized(_) => 401,
            ApiError::Forbidden(_) => 403,
            ApiError::NotFound(_) => 404,
            ApiError::Conflict(_) => 409,
            ApiError::InternalServerError => 500,
            ApiError::InternalServerErrorWithMessage(_) => 500,
        }
    }

    /// The JSON body of the answer to this error, `None` for an empty body.
    pub fn response_body(&self) -> (r: Option<ErrorResponse<String>>)
        ensures
            r is Some <==> body_of(self@) is Some,
            r matches Some(b) ==> Some(b.msg@) == body_of(self@),
    {
        match self {
            ApiError::BadRequest(m) => Some(ErrorResponse { msg: m.clone() }),
            ApiError::Unauthorized(m) => Some(ErrorResponse { msg: m.clone() }),
            ApiError::Forbidden(m) => Some(ErrorResponse { msg: m.clone() }),
            ApiError::NotFound(m) => Some(ErrorResponse { msg: m.clone() }),
            ApiError::Conflict(m) => Some(ErrorResponse { msg: m.clone() }),
            ApiError::InternalServerError => None,
            ApiError::InternalServerErrorWithMessage(m) => Some(ErrorResponse { msg: m.clone() }),
        }
    }

    /// The textual form of this error.
    pub fn to_text(&self) -> (r: String)
        ensures
            r@ == text_of(self@),
    {
        match self {
            ApiError::BadRequest(m) => m.clone(),
            ApiError::Unauthorized(m) => m.clone(),
            ApiError::Forbidden(m) => m.clone(),
            ApiError::NotFound(m) => m.clone(),
            ApiError::Conflict(m) => m.clone(),
            ApiError::InternalServerError => String::from_str("InternalServerError"),
            ApiError::InternalServerErrorWithMessage(m) => m.clone(),
        }
    }

    /// The error that answers a failure of the given kind.
    pub fn from_failure(kind: FailureKind, detail: String) -> (r: ApiError)
        ensures
            r@ == failure_error(kind, detail@),
    {
        match kind {
            FailureKind::Database => ApiError::InternalServerErrorWithMessage(detail),
            FailureKind::Hashing => ApiError::InternalServerErrorWithMessage(detail),
            _ => ApiError::InternalServerError,
        }
    }
}

/// Each error is answered with the status of its kind, whatever its
/// message: 400 bad request, 401 unauthorized, 403 forbidden, 404 not found,
/// 409 conflict, 500 for both internal errors; and the body carries the
/// message exactly when there is one.
pub proof fn lemma_answer_depends_on_kind(m: Seq<char>)
    ensures
        status_of(ApiErrorView::BadRequest(m)) == 400,
        status_of(ApiErrorView::Unauthorized(m)) == 401,
        status_of(ApiErrorView::Forbidden(m)) == 403,
        status_of(ApiErrorView::NotFound(m)) == 404,
        status_of(ApiErrorView::Conflict(m)) == 409,
        status_of(ApiErrorView::InternalServerError) == 500,
        status_of(ApiErrorView::InternalServerErrorWithMessage(m)) == 500,
        body_of(ApiErrorView::BadRequest(m)) == Some(m),
        body_of(ApiErrorView::Unauthorized(m)) == Some(m),
        body_of(ApiErrorView::Forbidden(m)) == Some(m),
        body_of(ApiErrorView::NotFound(m)) == Some(m),
        body_of(ApiErrorView::Conflict(m)) == Some(m),
        body_of(ApiErrorView::InternalServerError) is None,
        body_of(ApiErrorView::InternalServerErrorWithMessage(m)) == Some(m),
{
}

} // verus!
