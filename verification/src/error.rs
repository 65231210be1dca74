//! The error taxonomy: every failure the core can report is one of five
//! classified values, each with a fixed user-facing message and an
//! HTTP-status severity.

use vstd::prelude::*;

verus! {

/// A classified failure: a fixed user-facing message and an HTTP status code.
#[derive(Debug, PartialEq, Eq)]
pub struct AppError {
    pub message: String,
    pub status_code: u16,
}

/// Mathematical image of an [`AppError`]: the message characters and the status.
pub struct ErrorView {
    pub message: Seq<char>,
    pub status_code: u16,
}

impl View for AppError {
    type V = ErrorView;

    open spec fn view(&self) -> ErrorView {
        ErrorView { message: self.message@, status_code: self.status_code }
    }
}

impl AppError {
    pub fn new(message: &str, status_code: u16) -> (r: Self)
        ensures
            r@ == (ErrorView { message: message@, status_code: status_code }),
    {
        AppError { message: message.to_owned(), status_code }
    }
}

/// A server-side failure; the message leaks nothing of the cause.
pub open spec fn spec_internal_server_error() -> ErrorView {
    ErrorView { message: "Internal server error. Try again later."@, status_code: 500 }
}

pub fn internal_server_error() -> (r: AppError)
    ensures
        r@ == spec_internal_server_error(),
{
    AppError::new("Internal server error. Try again later.", 500)
}

/// The remote host answered with a non-success status, or could not be reached.
pub open spec fn spec_avatar_download_error() -> ErrorView {
    ErrorView { message: "Failed to download avatar."@, status_code: 400 }
}

pub fn avatar_download_error() -> (r: AppError)
    ensures
        r@ == spec_avatar_download_error(),
{
    AppError::new("Failed to download avatar.", 400)
}

/// The multipart body was malformed: a part without a name, or unreadable content.
pub open spec fn spec_form_error() -> ErrorView {
    ErrorView { message: "Invalid form data."@, status_code: 400 }
}

pub fn form_error() -> (r: AppError)
    ensures
        r@ == spec_form_error(),
{
    AppError::new("Invalid form data.", 400)
}

/// The declared or sniffed content is not the one accepted raster format.
pub open spec fn spec_invalid_image_format_error() -> ErrorView {
    ErrorView { message: "Invalid image format. Accepting only PNG."@, status_code: 400 }
}

pub fn invalid_image_format_error() -> (r: AppError)
    ensures
        r@ == spec_invalid_image_format_error(),
{
    AppError::new("Invalid image format. Accepting only PNG.", 400)
}

/// The submitted avatar URL does not parse as a URL.
pub open spec fn spec_invalid_avatar_url_error() -> ErrorView {
    ErrorView { message: "Invalid avatar URL."@, status_code: 400 }
}

pub fn invalid_avatar_url_error() -> (r: AppError)
    ensures
        r@ == spec_invalid_avatar_url_error(),
{
    AppError::new("Invalid avatar URL.", 400)
}

} // verus!
