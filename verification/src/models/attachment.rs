//! Attachment metadata returned alongside tasks.

use vstd::prelude::*;

verus! {

/// File attachment associated with a task or comment.
#[derive(Debug, Clone, PartialEq, Eq)]
pub struct Attachment {
    /// Globally unique identifier.
    pub gid: String,
    /// Display name for the attachment.
    pub name: String,
    /// Resource type marker.
    pub resource_type: Option<String>,
    /// Additional subtype information.
    pub resource_subtype: Option<String>,
    /// Creation timestamp.
    pub created_at: Option<String>,
    /// Host provider identifier.
    pub host: Option<String>,
    /// Attachment size in bytes when available.
    pub size: Option<u64>,
    /// Direct download URL (expires).
    pub download_url: Option<String>,
    /// Permanent permalink URL.
    pub permanent_url: Option<String>,
}

/// Parameters for listing attachments.
#[derive(Debug, Clone)]
pub struct AttachmentListParams {
    /// Task identifier.
    pub task_gid: String,
    /// Maximum number to fetch.
    pub limit: Option<usize>,
}

/// Parameters for uploading attachments.
#[derive(Debug, Clone)]
pub struct AttachmentUploadParams {
    /// Task identifier.
    pub task_gid: String,
    /// Local file path.
    pub file_path: String,
    /// Optional filename override.
    pub name: Option<String>,
}

} // verus!
