//! Why a quote could not be retrieved.

use vstd::prelude::*;
use vstd::string::*;

verus! {

/// The two ways in which the retrieval of a quote fails.
#[derive(Debug)]
pub enum QuoteError {
    /// No response body was obtained. The text is the transport's own account
    /// of what went wrong.
    TransportFailure(String),
    /// A body was obtained, and it is not a quote record.
    DecodeFailure,
}

/// An error with its text as a sequence of characters.
pub enum QuoteErrorView {
    TransportFailure(Seq<char>),
    DecodeFailure,
}

impl View for QuoteError {
    type V = QuoteErrorView;

    open spec fn view(&self) -> QuoteErrorView {
        match self {
            QuoteError::TransportFailure(reason) => QuoteErrorView::TransportFailure(reason@),
            QuoteError::DecodeFailure => QuoteErrorView::DecodeFailure,
        }
    }
}

impl QuoteErrorView {
    /// The message of an error: the transport's account of a transport
    /// failure, and a fixed sentence for a decode failure.
    pub open spec fn message(self) -> Seq<char> {
        match self {
            QuoteErrorView::TransportFailure(reason) => reason,
            QuoteErrorView::DecodeFailure => "the response body is not a quote record"@,
        }
    }
}

impl QuoteError {
    /// The error's message, for a reader.
    pub fn message(&self) -> (text: String)
        ensures
            text@ == self@.message(),
    {
        match self {
            QuoteError::TransportFailure(reason) => reason.clone(),
            QuoteError::DecodeFailure => String::from_str("the response body is not a quote record"),
        }
    }
}

} // verus!
