use vstd::prelude::*;
use crate::codec::{decode_spec, FileMetadata, WireRecord};

verus! {

#[derive(Clone, Copy, Debug, PartialEq, Eq, Structural)]
pub enum Method {
    Get,
    Patch,
}

/// How the body of a response is to be read: as plain text, or as a
/// metadata record.
#[derive(Clone, Copy, Debug, PartialEq, Eq, Structural)]
pub enum BodyKind {
    Text,
    Record,
}

/// One request to the remote metadata service.
#[derive(Clone, Debug, PartialEq, Eq)]
pub struct HttpRequest {
    pub method: Method,
    pub url: String,
    pub body: Option<String>,
    pub read_as: BodyKind,
}

pub struct RequestView {
    pub method: Method,
    pub url: Seq<char>,
    pub body: Option<Seq<char>>,
    pub read_as: BodyKind,
}

pub open spec fn opt_text_view(s: Option<String>) -> Option<Seq<char>> {
    match s {
        Some(t) => Some(t@),
        None => None,
    }
}

impl View for HttpRequest {
    type V = RequestView;

    open spec fn view(&self) -> RequestView {
        RequestView {
            method: self.method,
            url: self.url@,
            body: opt_text_view(self.body),
            read_as: self.read_as,
        }
    }
}

/// The body of a response, read as the request asked.
#[derive(Clone, Debug, PartialEq, Eq)]
pub enum Payload {
    Text(String),
    Record(WireRecord),
    /// The body could not be read, or did not have the expected shape.
    Unreadable,
}

pub enum PayloadView {
    Text(Seq<char>),
    Record(WireRecord),
    Unreadable,
}

impl View for Payload {
    type V = PayloadView;

    open spec fn view(&self) -> PayloadView {
        match self {
            Payload::Text(t) => PayloadView::Text(t@),
            Payload::Record(r) => PayloadView::Record(*r),
            Payload::Unreadable => PayloadView::Unreadable,
        }
    }
}

/// What came of one request.
#[derive(Clone, Debug, PartialEq, Eq)]
pub enum HttpOutcome {
    /// The service answered with this status.
    Answered { status: u16, payload: Payload },
    /// No answer: the name did not resolve, the connection failed or timed out.
    Unreachable,
}

pub enum OutcomeView {
    Answered { status: u16, payload: PayloadView },
    Unreachable,
}

impl View for HttpOutcome {
    type V = OutcomeView;

    open spec fn view(&self) -> OutcomeView {
        match self {
            HttpOutcome::Answered { status, payload } => OutcomeView::Answered {
                status: *status,
                payload: payload@,
            },
            HttpOutcome::Unreachable => OutcomeView::Unreachable,
        }
    }
}

/// Why a call to the remote service gave no result.
#[derive(Clone, Copy, Debug, PartialEq, Eq, Structural)]
pub enum GatewayError {
    /// The service does not know the entry.
    NotFound,
    /// The service answered with this status and no usable result.
    Server(u16),
    /// The service could not be reached, or its answer could not be read.
    Network,
}

pub const STATUS_NOT_FOUND: u16 = 404;

pub open spec fn is_success(status: u16) -> bool {
    200 <= status <= 299
}

pub fn status_is_success(status: u16) -> (r: bool)
    ensures
        r == is_success(status),
{
    200 <= status && status <= 299
}

/// An inode resolution: a success carries the path as the body's text,
/// unchanged.
pub open spec fn resolve_result(o: OutcomeView) -> Result<Seq<char>, GatewayError> {
    match o {
        OutcomeView::Answered { status, payload } => if is_success(status) {
            match payload {
                PayloadView::Text(t) => Ok(t),
                _ => Err(GatewayError::Network),
            }
        } else if status == STATUS_NOT_FOUND {
            Err(GatewayError::NotFound)
        } else {
            Err(GatewayError::Server(status))
        },
        OutcomeView::Unreachable => Err(GatewayError::Network),
    }
}

/// A successful answer that carries metadata: the decoded record, or a
/// server error with the status when it does not decode.
pub open spec fn record_result(status: u16, payload: PayloadView) -> Result<FileMetadata, GatewayError> {
    match payload {
        PayloadView::Record(r) => match decode_spec(r) {
            Ok(m) => Ok(m),
            Err(_) => Err(GatewayError::Server(status)),
        },
        _ => Err(GatewayError::Server(status)),
    }
}

/// A metadata fetch: "not found" is told apart from other failures.
pub open spec fn metadata_result(o: OutcomeView) -> Result<FileMetadata, GatewayError> {
    match o {
        OutcomeView::Answered { status, payload } => if is_success(status) {
            record_result(status, payload)
        } else if status == STATUS_NOT_FOUND {
            Err(GatewayError::NotFound)
        } else {
            Err(GatewayError::Server(status))
        },
        OutcomeView::Unreachable => Err(GatewayError::Network),
    }
}

/// An attribute update: every failing status, "not found" included, is a
/// server error.
pub open spec fn update_result(o: OutcomeView) -> Result<FileMetadata, GatewayError> {
    match o {
        OutcomeView::Answered { status, payload } => if is_success(status) {
            record_result(status, payload)
        } else {
            Err(GatewayError::Server(status))
        },
        OutcomeView::Unreachable => Err(GatewayError::Network),
    }
}

fn read_record(status: u16, payload: &Payload) -> (r: Result<FileMetadata, GatewayError>)
    ensures
        r == record_result(status, payload@),
{
    match payload {
        Payload::Record(raw) => match FileMetadata::decode(raw) {
            Ok(m) => Ok(m),
            Err(_) => Err(GatewayError::Server(status)),
        },
        _ => Err(GatewayError::Server(status)),
    }
}

/// Classifies the answer to an inode resolution.
pub fn resolve_reply(o: HttpOutcome) -> (r: Result<String, GatewayError>)
    ensures
        match r {
            Ok(p) => resolve_result(o@) == Ok::<Seq<char>, GatewayError>(p@),
            Err(e) => resolve_result(o@) == Err::<Seq<char>, GatewayError>(e),
        },
{
    match o {
        HttpOutcome::Answered { status, payload } => {
            if status_is_success(status) {
                match payload {
                    Payload::Text(t) => Ok(t),
                    _ => Err(GatewayError::Network),
                }
            } else if status == STATUS_NOT_FOUND {
                Err(GatewayError::NotFound)
            } else {
                Err(GatewayError::Server(status))
            }
        },
        HttpOutcome::Unreachable => Err(GatewayError::Network),
    }
}

/// Classifies the answer to a metadata fetch.
pub fn metadata_reply(o: &HttpOutcome) -> (r: Result<FileMetadata, GatewayError>)
    ensures
        r == metadata_result(o@),
{
    match o {
        HttpOutcome::Answered { status, payload } => {
            if status_is_success(*status) {
                read_record(*status, payload)
            } else if *status == STATUS_NOT_FOUND {
                Err(GatewayError::NotFound)
            } else {
                Err(GatewayError::Server(*status))
            }
        },
        HttpOutcome::Unreachable => Err(GatewayError::Network),
    }
}

/// Classifies the answer to an attribute update.
pub fn update_reply(o: &HttpOutcome) -> (r: Result<FileMetadata, GatewayError>)
    ensures
        r == update_result(o@),
{
    match o {
        HttpOutcome::Answered { status, payload } => {
            if status_is_success(*status) {
                read_record(*status, payload)
            } else {
                Err(GatewayError::Server(*status))
            }
        },
        HttpOutcome::Unreachable => Err(GatewayError::Network),
    }
}

} // verus!
