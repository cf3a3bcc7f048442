//! The ways a call to the service can fail.

use vstd::prelude::*;

verus! {

/// Why a call failed.
#[derive(Debug, PartialEq, Eq)]
pub enum OllamaError {
    /// The service answered with a non-success status. Holds the text of its
    /// answer, or, where that could not be read, a description of why.
    RemoteError(String),
    /// The request could not be sent, or the answer could not be read.
    TransportError(String),
    /// The answer did not have the shape of a response.
    DecodeError(String),
}

/// What an error is, as a mathematical value.
pub enum OllamaErrorView {
    RemoteError(Seq<char>),
    TransportError(Seq<char>),
    DecodeError(Seq<char>),
}

impl View for OllamaError {
    type V = OllamaErrorView;

    open spec fn view(&self) -> OllamaErrorView {
        match self {
            OllamaError::RemoteError(text) => OllamaErrorView::RemoteError(text@),
            OllamaError::TransportError(text) => OllamaErrorView::TransportError(text@),
            OllamaError::DecodeError(text) => OllamaErrorView::DecodeError(text@),
        }
    }
}

impl DeepView for OllamaError {
    type V = OllamaErrorView;

    open spec fn deep_view(&self) -> OllamaErrorView {
        self@
    }
}

impl OllamaErrorView {
    /// The text an error carries.
    pub open spec fn message(self) -> Seq<char> {
        match self {
            OllamaErrorView::RemoteError(text) => text,
            OllamaErrorView::TransportError(text) => text,
            OllamaErrorView::DecodeError(text) => text,
        }
    }
}

impl Clone for OllamaError {
    fn clone(&self) -> (r: Self)
        ensures
            r@ == self@,
    {
        match self {
            OllamaError::RemoteError(text) => OllamaError::RemoteError(text.clone()),
            OllamaError::TransportError(text) => OllamaError::TransportError(text.clone()),
            OllamaError::DecodeError(text) => OllamaError::DecodeError(text.clone()),
        }
    }
}

impl OllamaError {
    /// The text the error carries: the service's answer or a description.
    pub fn message(&self) -> (r: &str)
        ensures
            r@ == self@.message(),
    {
        match self {
            OllamaError::RemoteError(text) => text.as_str(),
            OllamaError::TransportError(text) => text.as_str(),
            OllamaError::DecodeError(text) => text.as_str(),
        }
    }
}

} // verus!
