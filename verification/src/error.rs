//! The ways in which a translation can fail, and the text each failure is
//! reported with.

use crate::text::{decimal, decimal_string};
use vstd::prelude::*;

verus! {

/// A failed translation.
#[derive(Debug, PartialEq, Eq)]
pub enum TranslateError {
    /// The address of the endpoint could not be built.
    InvalidUrl,
    /// No response arrived (connection refused, timeout, name resolution, ...).
    /// `detail` holds the transport's own account of it.
    TransportFailure { detail: String },
    /// A response arrived whose status is not a success status.
    HttpStatusFailure { status: u16, body: String },
    /// A success response arrived whose body is not the expected JSON shape.
    /// `detail` holds the decoder's own account of it.
    ResponseParseFailure { detail: String },
    /// A well-formed success response arrived that holds no translation.
    EmptyTranslationList,
}

/// Mathematical model of a [`TranslateError`].
pub enum TranslateErrorView {
    InvalidUrl,
    TransportFailure { detail: Seq<char> },
    HttpStatusFailure { status: u16, body: Seq<char> },
    ResponseParseFailure { detail: Seq<char> },
    EmptyTranslationList,
}

impl View for TranslateError {
    type V = TranslateErrorView;

    open spec fn view(&self) -> TranslateErrorView {
        match self {
            TranslateError::InvalidUrl => TranslateErrorView::InvalidUrl,
            TranslateError::TransportFailure { detail } => TranslateErrorView::TransportFailure {
                detail: detail@,
            },
            TranslateError::HttpStatusFailure { status, body } => {
                TranslateErrorView::HttpStatusFailure { status: *status, body: body@ }
            },
            TranslateError::ResponseParseFailure { detail } => {
                TranslateErrorView::ResponseParseFailure { detail: detail@ }
            },
            TranslateError::EmptyTranslationList => TranslateErrorView::EmptyTranslationList,
        }
    }
}

impl TranslateErrorView {
    /// The text that the failure is reported with. Only an HTTP status failure
    /// carries outside data into it: its status, in base ten, and its body.
    pub open spec fn message(self) -> Seq<char> {
        match self {
            TranslateErrorView::InvalidUrl => "Failed to parse API URL"@,
            TranslateErrorView::TransportFailure { .. } => "Failed to send translation request"@,
            TranslateErrorView::HttpStatusFailure { status, body } => {
                "Translation API request failed with status "@ + decimal(status as nat) + ": "@
                    + body
            },
            TranslateErrorView::ResponseParseFailure { .. } => {
                "Failed to parse translation response"@
            },
            TranslateErrorView::EmptyTranslationList => "No translation returned from API"@,
        }
    }
}

impl TranslateError {
    /// The text that the failure is reported with.
    pub fn message(&self) -> (text: String)
        ensures
            text@ == self@.message(),
    {
        match self {
            TranslateError::InvalidUrl => String::from_str("Failed to parse API URL"),
            TranslateError::TransportFailure { .. } => {
                String::from_str("Failed to send translation request")
            },
            TranslateError::HttpStatusFailure { status, body } => {
                let mut text = String::from_str("Translation API request failed with status ");
                text.append(decimal_string(*status).as_str());
                text.append(": ");
                text.append(body.as_str());
                text
            },
            TranslateError::ResponseParseFailure { .. } => {
                String::from_str("Failed to parse translation response")
            },
            TranslateError::EmptyTranslationList => {
                String::from_str("No translation returned from API")
            },
        }
    }
}

} // verus!
