//! The attachment upload flow's decisions.
//!
//! An upload runs presign, binary PUT, commit. The driver performs the three
//! calls; here stand the typed decode of the presign response, the judgment
//! of the PUT status, and the tolerant mapping of the commit response with
//! its enumerated fallbacks.

use vstd::prelude::*;
use vstd::string::*;
use crate::errors::{ApiError, ApiErrorView};
use crate::{is_success_status, status_is_success};

verus! {

/// What a presign response must carry.
#[derive(Debug, PartialEq, Eq)]
pub struct AttachmentPresignResponse {
    pub upload_id: String,
    pub upload_url: String,
    pub key: Option<String>,
}

/// The committed attachment as the frontend sees it.
#[derive(Debug, PartialEq, Eq)]
pub struct AttachmentDto {
    pub id: String,
    pub name: String,
    pub size_bytes: i64,
    pub content_type: Option<String>,
    pub storage_key: Option<String>,
    pub download_url: Option<String>,
}

/// The fields a commit response may carry, each independently optional: the
/// decode is tolerant and the mapping below applies an enumerated precedence
/// of alternate names and fallback values.
#[derive(Debug, PartialEq, Eq)]
pub struct CommitFields {
    /// The `id` string field.
    pub id: Option<String>,
    /// The `filename` string field.
    pub filename: Option<String>,
    /// The `name` string field, `filename`'s fallback.
    pub name: Option<String>,
    /// The `size_bytes` integer field.
    pub size_bytes: Option<i64>,
    /// The `size` integer field, `size_bytes`'s fallback.
    pub size: Option<i64>,
    /// The `content_type` string field.
    pub content_type: Option<String>,
    /// The `storage_key` string field.
    pub storage_key: Option<String>,
    /// The `key` string field, `storage_key`'s fallback.
    pub key: Option<String>,
    /// The `download_url` string field.
    pub download_url: Option<String>,
}

/// Decode a presign response from its two required fields and the optional
/// storage key; a missing required field is an invalid response.
pub fn presign_from_fields(
    upload_id: Option<String>,
    upload_url: Option<String>,
    key: Option<String>,
) -> (r: Result<AttachmentPresignResponse, ApiError>)
    ensures
        match (upload_id, upload_url) {
            (Some(id), Some(url)) => r == Ok::<AttachmentPresignResponse, ApiError>(
                AttachmentPresignResponse { upload_id: id, upload_url: url, key },
            ),
            _ => r is Err && r->Err_0@ == ApiErrorView::InvalidResponse(
                "presign response invalid"@,
            ),
        },
{
    match (upload_id, upload_url) {
        (Some(id), Some(url)) => Ok(
            AttachmentPresignResponse { upload_id: id, upload_url: url, key },
        ),
        _ => Err(ApiError::InvalidResponse(String::from_str("presign response invalid"))),
    }
}

/// Judge the binary PUT to the presigned URL: any non-2xx fails the upload.
pub fn upload_put_outcome(status: u16) -> (r: Result<(), ApiError>)
    ensures
        is_success_status(status) ==> r == Ok::<(), ApiError>(()),
        !is_success_status(status) ==> r is Err && r->Err_0@ == (ApiErrorView::Http {
            status,
            error: "upload_failed"@,
            message: "binary upload failed"@,
        }),
{
    if status_is_success(status) {
        Ok(())
    } else {
        Err(
            ApiError::Http {
                status,
                error: String::from_str("upload_failed"),
                message: String::from_str("binary upload failed"),
            },
        )
    }
}

/// Map the commit response to the typed attachment: `id` defaults to
/// `attachment`; the name prefers `filename`, then `name`, then the upload's
/// own filename; the size prefers `size_bytes`, then `size`, then the
/// upload's size; the content type and storage key fall back to the upload's
/// type and the presign's key; the download URL is taken as-is.
pub fn map_attachment_commit_response(
    commit: CommitFields,
    fallback_name: String,
    fallback_size: i64,
    fallback_type: String,
    fallback_key: Option<String>,
) -> (r: AttachmentDto)
    ensures
        r.id@ == match commit.id {
            Some(v) => v@,
            None => "attachment"@,
        },
        r.name == match commit.filename {
            Some(v) => v,
            None => match commit.name {
                Some(v) => v,
                None => fallback_name,
            },
        },
        r.size_bytes == match commit.size_bytes {
            Some(v) => v,
            None => match commit.size {
                Some(v) => v,
                None => fallback_size,
            },
        },
        r.content_type == match commit.content_type {
            Some(v) => Some(v),
            None => Some(fallback_type),
        },
        r.storage_key == match commit.storage_key {
            Some(v) => Some(v),
            None => match commit.key {
                Some(v) => Some(v),
                None => fallback_key,
            },
        },
        r.download_url == commit.download_url,
{
    let id = match commit.id {
        Some(v) => v,
        None => String::from_str("attachment"),
    };
    let name = match commit.filename {
        Some(v) => v,
        None => match commit.name {
            Some(v) => v,
            None => fallback_name,
        },
    };
    let size_bytes = match commit.size_bytes {
        Some(v) => v,
        None => match commit.size {
            Some(v) => v,
            None => fallback_size,
        },
    };
    let content_type = match commit.content_type {
        Some(v) => Some(v),
        None => Some(fallback_type),
    };
    let storage_key = match commit.storage_key {
        Some(v) => Some(v),
        None => match commit.key {
            Some(v) => Some(v),
            None => fallback_key,
        },
    };
    AttachmentDto {
        id,
        name,
        size_bytes,
        content_type,
        storage_key,
        download_url: commit.download_url,
    }
}

} // verus!
