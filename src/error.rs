use vstd::prelude::*;

use crate::text::{joined, owned};

verus! {

/// Every way in which handling a request can fail.
#[derive(Debug, PartialEq, Eq)]
pub enum AppError {
    /// The store or the transport failed in a way the client did not cause.
    Io,
    /// The body is not valid for the format that the request declares.
    BadInput,
    /// The body could not be read.
    BadPayload,
    /// No URL can be built from the request's scheme, host and path.
    BadUrl,
    /// A graph identifier is not an absolute IRI.
    InvalidIri(String),
    /// Both `graph` and `default` address the store.
    ConflictingParameters,
    /// A store parameter occurs twice.
    DuplicateParameter(String),
    /// A query or update form holds a key that the protocol does not define.
    UnexpectedParameter(String),
    MultipleQueries,
    MultipleUpdates,
    MissingQuery,
    MissingUpdate,
    /// Dataset parameters were given for an update that scopes itself with `USING`.
    UsingConflict,
    MissingContentType,
    MalformedMediaType,
    /// A header value is not visible ASCII text.
    InvalidHeader,
    UnsupportedMediaType(String),
    /// No representation that the server writes is acceptable to the client.
    NotAcceptable,
    QueryParse,
    QueryEvaluation,
    /// The addressed graph does not exist.
    NotFound(String),
    /// A `PUT` that addresses the whole store rather than one graph.
    WholeStorePut,
    MethodNotAllowed,
}

/// The mathematical value of an [`AppError`].
pub enum ErrorView {
    Io,
    BadInput,
    BadPayload,
    BadUrl,
    InvalidIri(Seq<char>),
    ConflictingParameters,
    DuplicateParameter(Seq<char>),
    UnexpectedParameter(Seq<char>),
    MultipleQueries,
    MultipleUpdates,
    MissingQuery,
    MissingUpdate,
    UsingConflict,
    MissingContentType,
    MalformedMediaType,
    InvalidHeader,
    UnsupportedMediaType(Seq<char>),
    NotAcceptable,
    QueryParse,
    QueryEvaluation,
    NotFound(Seq<char>),
    WholeStorePut,
    MethodNotAllowed,
}

impl View for AppError {
    type V = ErrorView;

    open spec fn view(&self) -> ErrorView {
        match self {
            AppError::Io => ErrorView::Io,
            AppError::BadInput => ErrorView::BadInput,
            AppError::BadPayload => ErrorView::BadPayload,
            AppError::BadUrl => ErrorView::BadUrl,
            AppError::InvalidIri(s) => ErrorView::InvalidIri(s@),
            AppError::ConflictingParameters => ErrorView::ConflictingParameters,
            AppError::DuplicateParameter(s) => ErrorView::DuplicateParameter(s@),
            AppError::UnexpectedParameter(s) => ErrorView::UnexpectedParameter(s@),
            AppError::MultipleQueries => ErrorView::MultipleQueries,
            AppError::MultipleUpdates => ErrorView::MultipleUpdates,
            AppError::MissingQuery => ErrorView::MissingQuery,
            AppError::MissingUpdate => ErrorView::MissingUpdate,
            AppError::UsingConflict => ErrorView::UsingConflict,
            AppError::MissingContentType => ErrorView::MissingContentType,
            AppError::MalformedMediaType => ErrorView::MalformedMediaType,
            AppError::InvalidHeader => ErrorView::InvalidHeader,
            AppError::UnsupportedMediaType(s) => ErrorView::UnsupportedMediaType(s@),
            AppError::NotAcceptable => ErrorView::NotAcceptable,
            AppError::QueryParse => ErrorView::QueryParse,
            AppError::QueryEvaluation => ErrorView::QueryEvaluation,
            AppError::NotFound(s) => ErrorView::NotFound(s@),
            AppError::WholeStorePut => ErrorView::WholeStorePut,
            AppError::MethodNotAllowed => ErrorView::MethodNotAllowed,
        }
    }
}

/// The HTTP status that answers a failure: what the client caused is a 4xx,
/// the rest a 500.
pub open spec fn status_of(e: ErrorView) -> u16 {
    match e {
        ErrorView::Io => 500,
        ErrorView::NotAcceptable => 406,
        ErrorView::UnsupportedMediaType(_) => 415,
        ErrorView::NotFound(_) => 404,
        ErrorView::MethodNotAllowed => 405,
        _ => 400,
    }
}

/// The text of a failure's response body.
pub open spec fn message_of(e: ErrorView) -> Seq<char> {
    match e {
        ErrorView::Io => "io error"@,
        ErrorView::BadInput => "bad input: the body does not match its content type"@,
        ErrorView::BadPayload => "bad request: the body could not be read"@,
        ErrorView::BadUrl => "bad url"@,
        ErrorView::InvalidIri(s) => "invalid IRI: "@ + s,
        ErrorView::ConflictingParameters =>
            "bad request: Both graph and default parameters should not be set at the same time"@,
        ErrorView::DuplicateParameter(s) => "bad request: Duplicate parameter: "@ + s,
        ErrorView::UnexpectedParameter(s) => "bad request: Unexpected parameter: "@ + s,
        ErrorView::MultipleQueries => "bad request: Multiple query parameters provided"@,
        ErrorView::MultipleUpdates => "bad request: Multiple update parameters provided"@,
        ErrorView::MissingQuery => "bad request: You should set the 'query' parameter"@,
        ErrorView::MissingUpdate => "bad request: You should set the 'update' parameter"@,
        ErrorView::UsingConflict =>
            "bad request: using-graph-uri and using-named-graph-uri must not be used with a SPARQL UPDATE containing USING"@,
        ErrorView::MissingContentType => "bad request: No Content-Type given"@,
        ErrorView::MalformedMediaType => "bad request: malformed media type"@,
        ErrorView::InvalidHeader => "bad request: a header is not visible ASCII"@,
        ErrorView::UnsupportedMediaType(s) => "No supported Content-Type given: "@ + s,
        ErrorView::NotAcceptable => "no acceptable representation"@,
        ErrorView::QueryParse => "query parse error"@,
        ErrorView::QueryEvaluation => "query evaluation error"@,
        ErrorView::NotFound(s) => "The graph "@ + s + " does not exist"@,
        ErrorView::WholeStorePut => "bad request: PUT must address a single graph"@,
        ErrorView::MethodNotAllowed => "method not allowed"@,
    }
}

impl AppError {
    /// The HTTP status code of this failure.
    pub fn status_code(&self) -> (r: u16)
        ensures
            r == status_of(self@),
    {
        match self {
            AppError::Io => 500,
            AppError::NotAcceptable => 406,
            AppError::UnsupportedMediaType(_) => 415,
            AppError::NotFound(_) => 404,
            AppError::MethodNotAllowed => 405,
            _ => 400,
        }
    }

    /// The body text of the response to this failure.
    pub fn message(&self) -> (r: String)
        ensures
            r@ == message_of(self@),
    {
        match self {
            AppError::Io => owned("io error"),
            AppError::BadInput => owned("bad input: the body does not match its content type"),
            AppError::BadPayload => owned("bad request: the body could not be read"),
            AppError::BadUrl => owned("bad url"),
            AppError::InvalidIri(s) => joined("invalid IRI: ", s.as_str()),
            AppError::ConflictingParameters => owned(
                "bad request: Both graph and default parameters should not be set at the same time",
            ),
            AppError::DuplicateParameter(s) => joined(
                "bad request: Duplicate parameter: ",
                s.as_str(),
            ),
            AppError::UnexpectedParameter(s) => joined(
                "bad request: Unexpected parameter: ",
                s.as_str(),
            ),
            AppError::MultipleQueries => owned("bad request: Multiple query parameters provided"),
            AppError::MultipleUpdates => owned("bad request: Multiple update parameters provided"),
            AppError::MissingQuery => owned("bad request: You should set the 'query' parameter"),
            AppError::MissingUpdate => owned("bad request: You should set the 'update' parameter"),
            AppError::UsingConflict => owned(
                "bad request: using-graph-uri and using-named-graph-uri must not be used with a SPARQL UPDATE containing USING",
            ),
            AppError::MissingContentType => owned("bad request: No Content-Type given"),
            AppError::MalformedMediaType => owned("bad request: malformed media type"),
            AppError::InvalidHeader => owned("bad request: a header is not visible ASCII"),
            AppError::UnsupportedMediaType(s) => joined(
                "No supported Content-Type given: ",
                s.as_str(),
            ),
            AppError::NotAcceptable => owned("no acceptable representation"),
            AppError::QueryParse => owned("query parse error"),
            AppError::QueryEvaluation => owned("query evaluation error"),
            AppError::NotFound(s) => {
                let head = joined("The graph ", s.as_str());
                joined(head.as_str(), " does not exist")
            },
            AppError::WholeStorePut => owned("bad request: PUT must address a single graph"),
            AppError::MethodNotAllowed => owned("method not allowed"),
        }
    }
}

/// How an I/O operation failed, as far as the status of the answer depends on it.
#[derive(Debug, Clone, Copy, PartialEq, Eq, Structural)]
pub enum IoFailure {
    /// The input ended before it was complete.
    UnexpectedEnd,
    /// The input is not valid for its format.
    InvalidData,
    Other,
}

impl AppError {
    /// The failure that an I/O error becomes: input that ended early or that
    /// does not parse is the client's fault; anything else is the server's.
    pub fn from_io(f: IoFailure) -> (r: AppError)
        ensures
            r@ == (match f {
                IoFailure::Other => ErrorView::Io,
                _ => ErrorView::BadInput,
            }),
    {
        match f {
            IoFailure::Other => AppError::Io,
            _ => AppError::BadInput,
        }
    }
}

} // verus!
