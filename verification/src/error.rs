//! What can go wrong while a URL is fetched, read or written out.

use crate::status::{status_text, StatusCode};
use vstd::prelude::*;

verus! {

/// A failure, with the URL or path it concerns and the report of the
/// underlying cause where there is one.
#[derive(Debug)]
pub enum Error {
    CantCreateDir { path: String, error: String },
    CantCanonicalizePath { path: String, error: String },
    CantCreateHttpClient(String),
    FailedToGetData { url: String, error: String },
    FailedWritingFile { path: String, error: String },
    FailedWritingJson { path: String, error: String },
    ScrapeError { url: String, error: String },
    RequestReturnedError { url: String, status_code: StatusCode },
    Unknown(String),
}

/// What an [`Error`] holds, as mathematical values.
pub enum ErrorView {
    CantCreateDir { path: Seq<char>, error: Seq<char> },
    CantCanonicalizePath { path: Seq<char>, error: Seq<char> },
    CantCreateHttpClient(Seq<char>),
    FailedToGetData { url: Seq<char>, error: Seq<char> },
    FailedWritingFile { path: Seq<char>, error: Seq<char> },
    FailedWritingJson { path: Seq<char>, error: Seq<char> },
    ScrapeError { url: Seq<char>, error: Seq<char> },
    RequestReturnedError { url: Seq<char>, status_code: u16 },
    Unknown(Seq<char>),
}

impl View for Error {
    type V = ErrorView;

    open spec fn view(&self) -> ErrorView {
        match self {
            Error::CantCreateDir { path, error } => ErrorView::CantCreateDir {
                path: path@,
                error: error@,
            },
            Error::CantCanonicalizePath { path, error } => ErrorView::CantCanonicalizePath {
                path: path@,
                error: error@,
            },
            Error::CantCreateHttpClient(error) => ErrorView::CantCreateHttpClient(error@),
            Error::FailedToGetData { url, error } => ErrorView::FailedToGetData {
                url: url@,
                error: error@,
            },
            Error::FailedWritingFile { path, error } => ErrorView::FailedWritingFile {
                path: path@,
                error: error@,
            },
            Error::FailedWritingJson { path, error } => ErrorView::FailedWritingJson {
                path: path@,
                error: error@,
            },
            Error::ScrapeError { url, error } => ErrorView::ScrapeError { url: url@, error: error@ },
            Error::RequestReturnedError { url, status_code } => ErrorView::RequestReturnedError {
                url: url@,
                status_code: status_code@,
            },
            Error::Unknown(msg) => ErrorView::Unknown(msg@),
        }
    }
}

/// `head`, `subject`, `middle` and `tail`, one after the other.
pub open spec fn framed(
    head: Seq<char>,
    subject: Seq<char>,
    middle: Seq<char>,
    tail: Seq<char>,
) -> Seq<char> {
    head + subject + middle + tail
}

fn frame(head: &str, subject: &str, middle: &str, tail: &str) -> (r: String)
    ensures
        r@ == framed(head@, subject@, middle@, tail@),
{
    String::from_str(head).concat(subject).concat(middle).concat(tail)
}

impl ErrorView {
    /// The text of the message that describes this failure.
    pub open spec fn message(self) -> Seq<char> {
        match self {
            ErrorView::CantCanonicalizePath { path, error } => framed(
                "Can't canonicalize '"@,
                path,
                "': "@,
                error,
            ),
            ErrorView::CantCreateDir { path, error } => framed(
                "Can't create dir '"@,
                path,
                "': "@,
                error,
            ),
            ErrorView::CantCreateHttpClient(error) => "Can't create http client: "@ + error,
            ErrorView::FailedToGetData { url, error } => framed(
                "Failed getting data from '"@,
                url,
                "': "@,
                error,
            ),
            ErrorView::FailedWritingFile { path, error } => framed(
                "Failed to write file '"@,
                path,
                "': "@,
                error,
            ),
            ErrorView::FailedWritingJson { path, error } => framed(
                "Failed to write JSON to '"@,
                path,
                "': "@,
                error,
            ),
            ErrorView::RequestReturnedError { url, status_code } => framed(
                "The request to '"@,
                url,
                "' returned "@,
                status_text(status_code),
            ),
            ErrorView::ScrapeError { url, error } => framed(
                "Failed fetching '"@,
                url,
                "': "@,
                error,
            ),
            ErrorView::Unknown(msg) => "Unknown error: "@ + msg,
        }
    }
}

impl Error {

    /// The message that describes this failure.
    pub fn message(&self) -> (r: String)
        ensures
            r@ == self@.message(),
    {
        match self {
            Error::CantCanonicalizePath { path, error } => frame(
                "Can't canonicalize '",
                path.as_str(),
                "': ",
                error.as_str(),
            ),
            Error::CantCreateDir { path, error } => frame(
                "Can't create dir '",
                path.as_str(),
                "': ",
                error.as_str(),
            ),
            Error::CantCreateHttpClient(error) => String::from_str(
                "Can't create http client: ",
            ).concat(error.as_str()),
            Error::FailedToGetData { url, error } => frame(
                "Failed getting data from '",
                url.as_str(),
                "': ",
                error.as_str(),
            ),
            Error::FailedWritingFile { path, error } => frame(
                "Failed to write file '",
                path.as_str(),
                "': ",
                error.as_str(),
            ),
            Error::FailedWritingJson { path, error } => frame(
                "Failed to write JSON to '",
                path.as_str(),
                "': ",
                error.as_str(),
            ),
            Error::RequestReturnedError { url, status_code } => {
                let status = status_code.text();
                frame("The request to '", url.as_str(), "' returned ", status.as_str())
            },
            Error::ScrapeError { url, error } => frame(
                "Failed fetching '",
                url.as_str(),
                "': ",
                error.as_str(),
            ),
            Error::Unknown(msg) => String::from_str("Unknown error: ").concat(msg.as_str()),
        }
    }
}

} // verus!
