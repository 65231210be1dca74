//! Avatar acquisition: deciding whether a remote fetch is owed, and
//! classifying what the remote host answered.  The transport itself (one
//! bounded GET per submission) is the caller's business; every decision
//! about its outcome is made here.

use vstd::prelude::*;
use crate::encoding::{base64_encode, base64_of};
use crate::error::{avatar_download_error, invalid_avatar_url_error, invalid_image_format_error,
    spec_avatar_download_error, spec_invalid_avatar_url_error, spec_invalid_image_format_error,
    AppError, ErrorView};
use crate::image_format::{is_png_signature, validate_bytes_as_png};
use crate::multipart::{MultipartData, MultipartDataView};

verus! {

/// What the remote host answered: the HTTP status, the declared
/// Content-Type header if one was present and readable, and the body bytes.
#[derive(Debug, PartialEq, Eq)]
pub struct AvatarResponse {
    pub status: u16,
    pub content_type: Option<String>,
    pub body: Vec<u8>,
}

/// Mathematical image of an [`AvatarResponse`].
pub struct AvatarResponseView {
    pub status: u16,
    pub content_type: Option<Seq<char>>,
    pub body: Seq<u8>,
}

impl View for AvatarResponse {
    type V = AvatarResponseView;

    open spec fn view(&self) -> AvatarResponseView {
        AvatarResponseView {
            status: self.status,
            content_type: self.content_type.deep_view(),
            body: self.body@,
        }
    }
}

/// One attempt to reach the avatar's host: either the transport failed
/// outright, or a response came back.
#[derive(Debug, PartialEq, Eq)]
pub enum FetchOutcome {
    Unreachable,
    Response(AvatarResponse),
}

/// Mathematical image of a [`FetchOutcome`].
pub enum FetchOutcomeView {
    Unreachable,
    Response(AvatarResponseView),
}

impl View for FetchOutcome {
    type V = FetchOutcomeView;

    open spec fn view(&self) -> FetchOutcomeView {
        match self {
            FetchOutcome::Unreachable => FetchOutcomeView::Unreachable,
            FetchOutcome::Response(resp) => FetchOutcomeView::Response(resp@),
        }
    }
}

/// Whether a string parses as a URL.  The grammar behind this is left
/// unstated; only its determinism is relied upon.
pub uninterp spec fn url_parses(s: Seq<char>) -> bool;

/// Relies on `url::Url::parse`: whether it succeeds depends on the
/// characters of the input alone.
#[verifier::external_body]
fn parse_url_ok(s: &String) -> (r: bool)
    ensures
        r == url_parses(s@),
{
    url::Url::parse(s.as_str()).is_ok()
}

/// The 2xx range, as HTTP counts success.
pub open spec fn spec_is_success_status(status: u16) -> bool {
    200 <= status < 300
}

/// The declared header is acceptable exactly when it is present and equal to
/// the accepted media-type string.
pub open spec fn spec_content_type_is_png(content_type: Option<Seq<char>>) -> bool {
    content_type matches Some(ct) && ct == "image/png"@
}

/// The declared Content-Type must equal the accepted image media type;
/// a missing or different header is an invalid-image-format failure, since
/// the server itself declared what it was sending.
pub fn validate_png_header(content_type: &Option<String>) -> (r: Result<(), AppError>)
    ensures
        r is Ok <==> spec_content_type_is_png(content_type.deep_view()),
        r matches Err(e) ==> e@ == spec_invalid_image_format_error(),
{
    match content_type {
        Some(ct) => {
            if *ct == "image/png".to_owned() {
                Ok(())
            } else {
                Err(invalid_image_format_error())
            }
        },
        None => Err(invalid_image_format_error()),
    }
}

/// How a complete response is classified, in order: a non-success status is
/// a download failure; a missing or mismatched declared content type, or a
/// body that does not sniff as PNG, is an invalid image; otherwise the body
/// is returned base64-encoded.
pub open spec fn spec_handle_avatar_response(resp: AvatarResponseView) -> Result<
    Option<Seq<char>>,
    ErrorView,
> {
    if !spec_is_success_status(resp.status) {
        Err(spec_avatar_download_error())
    } else if !spec_content_type_is_png(resp.content_type) {
        Err(spec_invalid_image_format_error())
    } else if !is_png_signature(resp.body) {
        Err(spec_invalid_image_format_error())
    } else {
        Ok(Some(base64_of(resp.body)))
    }
}

/// Classify the remote host's response and, on success, hand back the body
/// base64-encoded.
pub fn handle_avatar_response(response: AvatarResponse) -> (r: Result<Option<String>, AppError>)
    ensures
        spec_handle_avatar_response(response@) matches Ok(av) ==> (r matches Ok(a)
            && a.deep_view() == av),
        spec_handle_avatar_response(response@) matches Err(e) ==> (r matches Err(err) && err@
            == e),
{
    if !(200 <= response.status && response.status < 300) {
        return Err(avatar_download_error());
    }
    match validate_png_header(&response.content_type) {
        Ok(()) => {},
        Err(e) => {
            return Err(e);
        },
    }
    match validate_bytes_as_png(&response.body) {
        Ok(()) => {},
        Err(e) => {
            return Err(e);
        },
    }
    Ok(Some(base64_encode(&response.body)))
}

/// What avatar a submission ends with, given what the network would answer
/// if asked: no URL means no avatar and no fetch; an unparsable URL stops
/// the submission; otherwise the fetch outcome is classified.
pub open spec fn spec_resolve_avatar(
    sub: MultipartDataView,
    remote: FetchOutcomeView,
) -> Result<Option<Seq<char>>, ErrorView> {
    match sub.avatar_url {
        None => Ok(None),
        Some(u) => if !url_parses(u) {
            Err(spec_invalid_avatar_url_error())
        } else {
            match remote {
                FetchOutcomeView::Unreachable => Err(spec_avatar_download_error()),
                FetchOutcomeView::Response(resp) => spec_handle_avatar_response(resp),
            }
        },
    }
}

/// Decide whether a remote fetch is owed: `Ok(None)` when the submission
/// carries no avatar URL, `Ok(Some(url))` when it carries one that parses,
/// and the invalid-avatar-URL failure otherwise.
pub fn resolve_avatar_request(data: &MultipartData) -> (r: Result<Option<String>, AppError>)
    ensures
        match data@.avatar_url {
            None => r matches Ok(opt) && opt is None,
            Some(u) => if url_parses(u) {
                r matches Ok(opt) && opt matches Some(t) && t@ == u
            } else {
                r matches Err(e) && e@ == spec_invalid_avatar_url_error()
            },
        },
{
    match &data.avatar_url {
        None => Ok(None),
        Some(u) => {
            if parse_url_ok(u) {
                Ok(Some(u.clone()))
            } else {
                Err(invalid_avatar_url_error())
            }
        },
    }
}

} // verus!
