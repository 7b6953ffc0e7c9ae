//! Errors of a model driver: how an invocation of a model failed.
use vstd::prelude::*;

verus! {

/// How an invocation of a model failed, with a description.
#[derive(Clone, Debug, PartialEq, Eq)]
pub enum ModelDriverError {
    Authentication(String),
    RateLimited(String),
    InvalidRequest(String),
    Provider(String),
    Transport(String),
    InvalidResponse(String),
}

/// The kinds of `ModelDriverError`.
#[derive(Clone, Copy, Debug, PartialEq, Eq, Structural)]
pub enum DriverErrorKind {
    Authentication,
    RateLimited,
    InvalidRequest,
    Provider,
    Transport,
    InvalidResponse,
}

impl View for ModelDriverError {
    type V = (DriverErrorKind, Seq<char>);

    open spec fn view(&self) -> (DriverErrorKind, Seq<char>) {
        match self {
            ModelDriverError::Authentication(message) => (DriverErrorKind::Authentication, message@),
            ModelDriverError::RateLimited(message) => (DriverErrorKind::RateLimited, message@),
            ModelDriverError::InvalidRequest(message) => (DriverErrorKind::InvalidRequest, message@),
            ModelDriverError::Provider(message) => (DriverErrorKind::Provider, message@),
            ModelDriverError::Transport(message) => (DriverErrorKind::Transport, message@),
            ModelDriverError::InvalidResponse(message) => (DriverErrorKind::InvalidResponse, message@),
        }
    }
}

impl ModelDriverError {
    /// The error's kind.
    pub fn kind(&self) -> (kind: DriverErrorKind)
        ensures
            kind == self@.0,
    {
        match self {
            ModelDriverError::Authentication(_) => DriverErrorKind::Authentication,
            ModelDriverError::RateLimited(_) => DriverErrorKind::RateLimited,
            ModelDriverError::InvalidRequest(_) => DriverErrorKind::InvalidRequest,
            ModelDriverError::Provider(_) => DriverErrorKind::Provider,
            ModelDriverError::Transport(_) => DriverErrorKind::Transport,
            ModelDriverError::InvalidResponse(_) => DriverErrorKind::InvalidResponse,
        }
    }

    /// The error's description.
    pub fn message(&self) -> (message: &str)
        ensures
            message@ == self@.1,
    {
        match self {
            ModelDriverError::Authentication(message) => message.as_str(),
            ModelDriverError::RateLimited(message) => message.as_str(),
            ModelDriverError::InvalidRequest(message) => message.as_str(),
            ModelDriverError::Provider(message) => message.as_str(),
            ModelDriverError::Transport(message) => message.as_str(),
            ModelDriverError::InvalidResponse(message) => message.as_str(),
        }
    }
}

} // verus!
