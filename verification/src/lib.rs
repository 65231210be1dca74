//! Verified core of a minimal blog posting service.
//!
//! Users submit a text post, an optional inline image and an optional avatar
//! URL through a multipart form.  The core parses the form, decides whether a
//! remote avatar has to be fetched, classifies the fetched response, validates
//! image payloads by their magic bytes, and appends the finished post to a
//! store whose full-table reads come back newest-first.  Network and database
//! plumbing live outside this crate; the decisions they feed are all here.

pub mod avatar;
pub mod backend;
pub mod blogpost;
pub mod encoding;
pub mod error;
pub mod image_format;
pub mod multipart;
pub mod store;
