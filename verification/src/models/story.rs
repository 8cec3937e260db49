//! Story (comment) data structures for task activity.

use vstd::prelude::*;

verus! {

use crate::models::user::UserReference;

/// Story type classification.
#[derive(Debug, Clone, Copy, PartialEq, Eq, Structural)]
pub enum StoryType {
    /// User-created comment.
    Comment,
    /// System-generated activity (not supported for creation).
    System,
}

/// Compact story reference.
#[derive(Debug, Clone, PartialEq, Eq)]
pub struct StoryCompact {
    /// Globally unique identifier.
    pub gid: String,
    /// Resource type marker.
    pub resource_type: Option<String>,
    /// Story type.
    pub story_type: StoryType,
}

/// Full story payload.
#[derive(Debug, Clone, PartialEq, Eq)]
pub struct Story {
    /// Globally unique identifier.
    pub gid: String,
    /// Resource type marker.
    pub resource_type: Option<String>,
    /// Story type.
    pub story_type: StoryType,
    /// Plain text content.
    pub text: Option<String>,
    /// HTML formatted content.
    pub html_text: Option<String>,
    /// Whether the story is pinned.
    pub is_pinned: bool,
    /// Whether the story can be edited by the current user.
    pub is_editable: bool,
    /// Whether the story has been edited.
    pub is_edited: bool,
    /// Story author.
    pub created_by: Option<UserReference>,
    /// Creation timestamp.
    pub created_at: Option<String>,
}

/// Parameters for listing stories.
#[derive(Debug, Clone)]
pub struct StoryListParams {
    /// Task identifier.
    pub task_gid: String,
    /// Maximum number to fetch.
    pub limit: Option<usize>,
}

/// Payload for creating stories: exactly one of the two text forms.
#[derive(Debug, Clone, PartialEq, Eq)]
pub struct StoryCreateData {
    /// Plain text content (mutually exclusive with `html_text`).
    pub text: Option<String>,
    /// HTML formatted content (mutually exclusive with `text`).
    pub html_text: Option<String>,
    /// Whether to pin the comment.
    pub is_pinned: Option<bool>,
}

/// API envelope for create requests.
#[derive(Debug, Clone, PartialEq, Eq)]
pub struct StoryCreateRequest {
    /// Story data payload.
    pub data: StoryCreateData,
}

/// Builder for story create payloads.
#[derive(Debug, Clone)]
pub struct StoryCreateBuilder {
    /// The payload being accumulated.
    pub data: StoryCreateData,
}

impl StoryCreateBuilder {
    /// Create a builder with plain text.
    pub fn new(text: String) -> (r: StoryCreateBuilder)
        ensures
            r.data == (StoryCreateData {
                text: Some(text),
                html_text: None::<String>,
                is_pinned: None::<bool>,
            }),
    {
        StoryCreateBuilder {
            data: StoryCreateData { text: Some(text), html_text: None, is_pinned: None },
        }
    }

    /// Create a builder with HTML text.
    pub fn with_html(html_text: String) -> (r: StoryCreateBuilder)
        ensures
            r.data == (StoryCreateData {
                text: None::<String>,
                html_text: Some(html_text),
                is_pinned: None::<bool>,
            }),
    {
        StoryCreateBuilder {
            data: StoryCreateData { text: None, html_text: Some(html_text), is_pinned: None },
        }
    }

    /// Set whether the comment should be pinned.
    pub fn pinned(self, pinned: bool) -> (r: StoryCreateBuilder)
        ensures
            r.data == (StoryCreateData { is_pinned: Some(pinned), ..self.data }),
    {
        StoryCreateBuilder { data: StoryCreateData { is_pinned: Some(pinned), ..self.data } }
    }

    /// Build the request: some text form is required, and the two forms
    /// are mutually exclusive.
    pub fn build(self) -> (r: Result<StoryCreateRequest, StoryValidationError>)
        ensures
            self.data.text is None && self.data.html_text is None ==> r == Err::<
                StoryCreateRequest,
                StoryValidationError,
            >(StoryValidationError::MissingText),
            self.data.text is Some && self.data.html_text is Some ==> r == Err::<
                StoryCreateRequest,
                StoryValidationError,
            >(StoryValidationError::BothTextFormats),
            (self.data.text is Some) != (self.data.html_text is Some) ==> (r matches Ok(req)
                && req.data == self.data),
    {
        if self.data.text.is_none() && self.data.html_text.is_none() {
            return Err(StoryValidationError::MissingText);
        }
        if self.data.text.is_some() && self.data.html_text.is_some() {
            return Err(StoryValidationError::BothTextFormats);
        }
        Ok(StoryCreateRequest { data: self.data })
    }
}

/// Payload for updating stories.
#[derive(Debug, Clone, PartialEq, Eq)]
pub struct StoryUpdateData {
    /// Updated plain text.
    pub text: Option<String>,
    /// Updated HTML text.
    pub html_text: Option<String>,
    /// Updated pin status.
    pub is_pinned: Option<bool>,
}

/// API envelope for update requests.
#[derive(Debug, Clone, PartialEq, Eq)]
pub struct StoryUpdateRequest {
    /// Story update data payload.
    pub data: StoryUpdateData,
}

/// Builder for story update payloads.
#[derive(Debug, Clone)]
pub struct StoryUpdateBuilder {
    /// The payload being accumulated.
    pub data: StoryUpdateData,
}

impl StoryUpdateBuilder {
    /// Create a new empty update builder.
    pub fn new() -> (r: StoryUpdateBuilder)
        ensures
            r.data.text is None,
            r.data.html_text is None,
            r.data.is_pinned is None,
    {
        StoryUpdateBuilder {
            data: StoryUpdateData { text: None, html_text: None, is_pinned: None },
        }
    }

    /// Set the plain text content.
    pub fn text(self, text: String) -> (r: StoryUpdateBuilder)
        ensures
            r.data == (StoryUpdateData { text: Some(text), ..self.data }),
    {
        StoryUpdateBuilder { data: StoryUpdateData { text: Some(text), ..self.data } }
    }

    /// Set the HTML formatted content.
    pub fn html_text(self, html: String) -> (r: StoryUpdateBuilder)
        ensures
            r.data == (StoryUpdateData { html_text: Some(html), ..self.data }),
    {
        StoryUpdateBuilder { data: StoryUpdateData { html_text: Some(html), ..self.data } }
    }

    /// Set whether the comment is pinned.
    pub fn pinned(self, pinned: bool) -> (r: StoryUpdateBuilder)
        ensures
            r.data == (StoryUpdateData { is_pinned: Some(pinned), ..self.data }),
    {
        StoryUpdateBuilder { data: StoryUpdateData { is_pinned: Some(pinned), ..self.data } }
    }

    /// Build the update request: at least one field must change.
    pub fn build(self) -> (r: Result<StoryUpdateRequest, StoryValidationError>)
        ensures
            self.data.text is None && self.data.html_text is None && self.data.is_pinned is None
                ==> r == Err::<StoryUpdateRequest, StoryValidationError>(
                StoryValidationError::EmptyUpdate,
            ),
            !(self.data.text is None && self.data.html_text is None
                && self.data.is_pinned is None) ==> (r matches Ok(req) && req.data == self.data),
    {
        if self.data.text.is_none() && self.data.html_text.is_none()
            && self.data.is_pinned.is_none() {
            return Err(StoryValidationError::EmptyUpdate);
        }
        Ok(StoryUpdateRequest { data: self.data })
    }
}

/// Validation errors for story payloads.
#[derive(Debug, Clone, Copy, PartialEq, Eq, Structural)]
pub enum StoryValidationError {
    /// A story must have either text or HTML text.
    MissingText,
    /// A story cannot have both text and HTML text.
    BothTextFormats,
    /// A story update must change at least one field.
    EmptyUpdate,
}

} // verus!
