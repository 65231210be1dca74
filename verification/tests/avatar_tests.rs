//! Tests for avatar response classification and image-format validation.

use base64::Engine;
use blog_core::avatar::{handle_avatar_response, resolve_avatar_request, validate_png_header,
    AvatarResponse};
use blog_core::error::{avatar_download_error, invalid_avatar_url_error,
    invalid_image_format_error};
use blog_core::image_format::validate_bytes_as_png;
use blog_core::multipart::MultipartData;

// Smallest possible valid PNG image
const MINIMAL_PNG_DATA: [u8; 45] = [
    0x89, 0x50, 0x4E, 0x47, 0x0D, 0x0A, 0x1A, 0x0A, // PNG Signature
    0x00, 0x00, 0x00, 0x0D, // IHDR Length
    0x49, 0x48, 0x44, 0x52, // IHDR Chunk Type
    0x00, 0x00, 0x00, 0x01, // Width: 1 pixel
    0x00, 0x00, 0x00, 0x01, // Height: 1 pixel
    0x08, // Bit depth: 8
    0x02, // Color type: Truecolor
    0x00, // Compression method: default
    0x00, // Filter method: default
    0x00, // Interlace method: no interlace
    0x90, 0x77, 0x53, 0xDE, // CRC for IHDR
    0x00, 0x00, 0x00, 0x00, // IEND Length
    0x49, 0x45, 0x4E, 0x44, // IEND Chunk Type
    0xAE, 0x42, 0x60, 0x82, // CRC for IEND
];

// Smallest possible valid WebP image
const MINIMAL_WEBP_DATA: [u8; 12] = [
    0x52, 0x49, 0x46, 0x46, 0x0A, 0x00, 0x00, 0x00, // RIFF Header
    0x57, 0x45, 0x42, 0x50, // "WEBP" Signature
];

fn response(status: u16, content_type: Option<&str>, body: &[u8]) -> AvatarResponse {
    AvatarResponse {
        status,
        content_type: content_type.map(|s| s.to_string()),
        body: body.to_vec(),
    }
}

#[test]
fn test_download_avatar_success() {
    let result = handle_avatar_response(response(200, Some("image/png"), &MINIMAL_PNG_DATA));
    assert!(result.is_ok());
}

#[test]
fn test_download_avatar_invalid_response_headers() {
    let result_wrong = handle_avatar_response(response(200, Some("image/jpeg"), &[]));
    let result_none = handle_avatar_response(response(200, None, &[]));

    assert_eq!(result_wrong, Err(invalid_image_format_error()));
    assert_eq!(result_none, Err(invalid_image_format_error()));
}

#[test]
fn test_download_avatar_dead_url() {
    let result = handle_avatar_response(response(404, None, &[]));
    assert_eq!(result, Err(avatar_download_error()));
}

#[test]
fn test_download_avatar_invalid_payload() {
    let result = handle_avatar_response(response(200, Some("image/png"), b"not an image"));
    assert_eq!(result, Err(invalid_image_format_error()));
}

#[test]
fn test_download_avatar_invalid_image_type_png_header() {
    let result = handle_avatar_response(response(200, Some("image/png"), &MINIMAL_WEBP_DATA));
    assert_eq!(result, Err(invalid_image_format_error()));
}

#[test]
fn avatar_success_encodes_body_as_base64() {
    let result = handle_avatar_response(response(200, Some("image/png"), &MINIMAL_PNG_DATA));
    let expected = base64::prelude::BASE64_STANDARD.encode(MINIMAL_PNG_DATA);
    assert_eq!(result, Ok(Some(expected)));
}

#[test]
fn validator_accepts_well_formed_png() {
    assert!(validate_bytes_as_png(&MINIMAL_PNG_DATA.to_vec()).is_ok());
}

#[test]
fn validator_rejects_empty_bytes() {
    assert_eq!(validate_bytes_as_png(&Vec::new()), Err(invalid_image_format_error()));
}

#[test]
fn validator_rejects_non_image_bytes() {
    assert_eq!(
        validate_bytes_as_png(&b"not an image".to_vec()),
        Err(invalid_image_format_error())
    );
}

#[test]
fn validator_rejects_well_formed_foreign_format() {
    assert_eq!(
        validate_bytes_as_png(&MINIMAL_WEBP_DATA.to_vec()),
        Err(invalid_image_format_error())
    );
}

#[test]
fn header_check_accepts_only_the_exact_media_type() {
    assert!(validate_png_header(&Some("image/png".to_string())).is_ok());
    assert_eq!(
        validate_png_header(&Some("image/jpeg".to_string())),
        Err(invalid_image_format_error())
    );
    assert_eq!(validate_png_header(&None), Err(invalid_image_format_error()));
}

fn submission(avatar_url: Option<&str>) -> MultipartData {
    MultipartData {
        author_username: "alice".to_string(),
        text: "hello".to_string(),
        avatar_url: avatar_url.map(|s| s.to_string()),
        image_base64: None,
    }
}

#[test]
fn resolve_without_avatar_url_requests_no_fetch() {
    assert_eq!(resolve_avatar_request(&submission(None)), Ok(None));
}

#[test]
fn resolve_with_valid_avatar_url_requests_fetch() {
    let url = "https://example.com/avatar.png";
    assert_eq!(resolve_avatar_request(&submission(Some(url))), Ok(Some(url.to_string())));
}

#[test]
fn resolve_with_unparsable_avatar_url_fails() {
    assert_eq!(
        resolve_avatar_request(&submission(Some("not a url"))),
        Err(invalid_avatar_url_error())
    );
}
