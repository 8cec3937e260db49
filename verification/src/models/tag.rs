//! Tag-oriented data structures, builders, and request payloads.

use vstd::prelude::*;

verus! {

use crate::models::user::UserReference;
use crate::models::workspace::WorkspaceReference;
use crate::text::spec_is_blank;
use crate::cachekey::pairs_view;

/// Compact tag reference used in listings.
#[derive(Debug, Clone, PartialEq, Eq)]
pub struct TagCompact {
    /// Globally unique identifier.
    pub gid: String,
    /// Tag name.
    pub name: String,
    /// Resource type marker.
    pub resource_type: Option<String>,
}

impl TagCompact {
    /// Human readable label.
    pub fn label(&self) -> (r: &str)
        ensures
            r@ == self.name@,
    {
        self.name.as_str()
    }
}

/// Supported tag colors.
#[derive(Debug, Clone, Copy, PartialEq, Eq, Structural)]
pub enum TagColor {
    /// Dark blue color.
    DarkBlue,
    /// Dark brown color.
    DarkBrown,
    /// Dark green color.
    DarkGreen,
    /// Dark orange color.
    DarkOrange,
    /// Dark pink color.
    DarkPink,
    /// Dark purple color.
    DarkPurple,
    /// Dark red color.
    DarkRed,
    /// Dark teal color.
    DarkTeal,
    /// Dark warm gray color.
    DarkWarmGray,
    /// Light blue color.
    LightBlue,
    /// Light brown color.
    LightBrown,
    /// Light green color.
    LightGreen,
    /// Light orange color.
    LightOrange,
    /// Light pink color.
    LightPink,
    /// Light purple color.
    LightPurple,
    /// Light red color.
    LightRed,
    /// Light teal color.
    LightTeal,
    /// Light warm gray color.
    LightWarmGray,
    /// Fallback for unsupported values.
    Unknown,
}

/// Full tag payload returned by the API.
#[derive(Debug, Clone, PartialEq, Eq)]
pub struct Tag {
    /// Globally unique identifier.
    pub gid: String,
    /// Tag name.
    pub name: String,
    /// Resource type marker.
    pub resource_type: Option<String>,
    /// Tag color.
    pub color: Option<TagColor>,
    /// Notes or description.
    pub notes: Option<String>,
    /// Creation timestamp.
    pub created_at: Option<String>,
    /// Followers for notifications.
    pub followers: Vec<UserReference>,
    /// Workspace reference.
    pub workspace: Option<WorkspaceReference>,
    /// Public permalink.
    pub permalink_url: Option<String>,
}

/// Parameters for listing tags via the API.
#[derive(Debug, Clone)]
pub struct TagListParams {
    /// Workspace filter (required for listing tags).
    pub workspace: String,
    /// Maximum number of items to fetch (client side).
    pub limit: Option<usize>,
}

impl TagListParams {
    /// Convert the structure into query string pairs.
    pub fn to_query(&self) -> (r: Vec<(String, String)>)
        ensures
            pairs_view(r@) =~= seq![("workspace"@, self.workspace@)],
    {
        let mut pairs: Vec<(String, String)> = Vec::new();
        crate::strlist::push_pair(
            &mut pairs,
            "workspace",
            crate::strlist::copy_string(self.workspace.as_str()),
        );
        pairs
    }
}

/// Payload for creating tags.
#[derive(Debug, Clone, PartialEq, Eq)]
pub struct TagCreateData {
    /// Tag name (required).
    pub name: String,
    /// Workspace or organization identifier (required).
    pub workspace: String,
    /// Optional color.
    pub color: Option<TagColor>,
    /// Optional notes.
    pub notes: Option<String>,
    /// Followers to notify.
    pub followers: Vec<String>,
}

/// API envelope for create requests.
#[derive(Debug, Clone, PartialEq, Eq)]
pub struct TagCreateRequest {
    /// Wrapped data payload.
    pub data: TagCreateData,
}

/// Builder for constructing validated tag create payloads.
#[derive(Debug, Clone)]
pub struct TagCreateBuilder {
    /// The payload being accumulated.
    pub data: TagCreateData,
}

impl TagCreateBuilder {
    /// Start building a new tag payload with the required name and
    /// workspace.
    pub fn new(name: String, workspace: String) -> (r: TagCreateBuilder)
        ensures
            r.data.name == name,
            r.data.workspace == workspace,
            r.data.color is None,
            r.data.notes is None,
            r.data.followers@.len() == 0,
    {
        TagCreateBuilder {
            data: TagCreateData {
                name,
                workspace,
                color: None,
                notes: None,
                followers: Vec::new(),
            },
        }
    }

    /// Override the tag name.
    pub fn name(self, name: String) -> (r: TagCreateBuilder)
        ensures
            r.data == (TagCreateData { name, ..self.data }),
    {
        TagCreateBuilder { data: TagCreateData { name, ..self.data } }
    }

    /// Set the tag color.
    pub fn color(self, color: TagColor) -> (r: TagCreateBuilder)
        ensures
            r.data == (TagCreateData { color: Some(color), ..self.data }),
    {
        TagCreateBuilder { data: TagCreateData { color: Some(color), ..self.data } }
    }

    /// Provide notes or description.
    pub fn notes(self, notes: String) -> (r: TagCreateBuilder)
        ensures
            r.data == (TagCreateData { notes: Some(notes), ..self.data }),
    {
        TagCreateBuilder { data: TagCreateData { notes: Some(notes), ..self.data } }
    }

    /// Add a follower identifier, once.
    pub fn follower(self, follower: String) -> (r: TagCreateBuilder)
        ensures
            crate::strlist::spec_contains_str(self.data.followers.deep_view(), follower@)
                ==> r.data.followers.deep_view() == self.data.followers.deep_view(),
            !crate::strlist::spec_contains_str(self.data.followers.deep_view(), follower@)
                ==> r.data.followers.deep_view() == self.data.followers.deep_view().push(
                follower@,
            ),
            r.data.name == self.data.name,
            r.data.workspace == self.data.workspace,
            r.data.color == self.data.color,
            r.data.notes == self.data.notes,
    {
        let mut data = self.data;
        crate::strlist::push_unique(&mut data.followers, follower);
        TagCreateBuilder { data }
    }

    /// Finalise the builder into a request payload, validating it: the
    /// name must not be blank, and a workspace is required.
    pub fn build(self) -> (r: Result<TagCreateRequest, TagValidationError>)
        ensures
            spec_is_blank(self.data.name@) ==> r == Err::<TagCreateRequest, TagValidationError>(
                TagValidationError::MissingName,
            ),
            !spec_is_blank(self.data.name@) && spec_is_blank(self.data.workspace@) ==> r == Err::<
                TagCreateRequest,
                TagValidationError,
            >(TagValidationError::MissingWorkspace),
            !spec_is_blank(self.data.name@) && !spec_is_blank(self.data.workspace@) ==> (r matches
            Ok(req) && req.data == self.data),
    {
        if crate::text::is_blank(self.data.name.as_str()) {
            return Err(TagValidationError::MissingName);
        }
        if crate::text::is_blank(self.data.workspace.as_str()) {
            return Err(TagValidationError::MissingWorkspace);
        }
        Ok(TagCreateRequest { data: self.data })
    }
}

/// Payload for updating existing tags.
///
/// The doubled `Option` on `notes` distinguishes three states: absent
/// (leave unchanged), `Some(None)` (clear), and `Some(Some(v))` (set).
#[derive(Debug, Clone, PartialEq, Eq)]
pub struct TagUpdateData {
    /// Tag name update.
    pub name: Option<String>,
    /// Color update.
    pub color: Option<TagColor>,
    /// Notes update, or an explicit clearing.
    pub notes: Option<Option<String>>,
    /// Replace followers with the provided identifiers.
    pub followers: Option<Vec<String>>,
}

impl TagUpdateData {
    /// Determine whether any fields have been set.
    pub fn is_empty(&self) -> (r: bool)
        ensures
            r == (self.name is None && self.color is None && self.notes is None
                && self.followers is None),
    {
        self.name.is_none() && self.color.is_none() && self.notes.is_none()
            && self.followers.is_none()
    }
}

/// API envelope for update requests.
#[derive(Debug, Clone, PartialEq, Eq)]
pub struct TagUpdateRequest {
    /// Wrapped data payload.
    pub data: TagUpdateData,
}

/// Builder for constructing validated tag update payloads.
#[derive(Debug, Clone)]
pub struct TagUpdateBuilder {
    /// The payload being accumulated.
    pub data: TagUpdateData,
}

impl TagUpdateBuilder {
    /// Create a new empty builder.
    pub fn new() -> (r: TagUpdateBuilder)
        ensures
            r.data.name is None,
            r.data.color is None,
            r.data.notes is None,
            r.data.followers is None,
    {
        TagUpdateBuilder {
            data: TagUpdateData { name: None, color: None, notes: None, followers: None },
        }
    }

    /// Set the tag name.
    pub fn name(self, name: String) -> (r: TagUpdateBuilder)
        ensures
            r.data == (TagUpdateData { name: Some(name), ..self.data }),
    {
        TagUpdateBuilder { data: TagUpdateData { name: Some(name), ..self.data } }
    }

    /// Set the tag color.
    pub fn color(self, color: TagColor) -> (r: TagUpdateBuilder)
        ensures
            r.data == (TagUpdateData { color: Some(color), ..self.data }),
    {
        TagUpdateBuilder { data: TagUpdateData { color: Some(color), ..self.data } }
    }

    /// Set or update notes.
    pub fn notes(self, notes: String) -> (r: TagUpdateBuilder)
        ensures
            r.data == (TagUpdateData { notes: Some(Some(notes)), ..self.data }),
    {
        TagUpdateBuilder { data: TagUpdateData { notes: Some(Some(notes)), ..self.data } }
    }

    /// Clear notes.
    pub fn clear_notes(self) -> (r: TagUpdateBuilder)
        ensures
            r.data == (TagUpdateData { notes: Some(None::<String>), ..self.data }),
    {
        TagUpdateBuilder { data: TagUpdateData { notes: Some(None), ..self.data } }
    }

    /// Replace followers with the provided identifiers, sorted and
    /// deduplicated.
    pub fn followers(self, followers: Vec<String>) -> (r: TagUpdateBuilder)
        ensures
            r.data.followers matches Some(v) && v.deep_view()
                == crate::strlist::spec_dedup_adjacent(
                followers.deep_view().sort_by(crate::strlist::str_leq()),
            ),
            r.data.name == self.data.name,
            r.data.color == self.data.color,
            r.data.notes == self.data.notes,
    {
        let values = crate::strlist::sort_dedup_strings(followers);
        TagUpdateBuilder { data: TagUpdateData { followers: Some(values), ..self.data } }
    }

    /// Finalise the builder: at least one field must have been set.
    pub fn build(self) -> (r: Result<TagUpdateRequest, TagValidationError>)
        ensures
            (self.data.name is None && self.data.color is None && self.data.notes is None
                && self.data.followers is None) ==> r == Err::<
                TagUpdateRequest,
                TagValidationError,
            >(TagValidationError::EmptyUpdate),
            !(self.data.name is None && self.data.color is None && self.data.notes is None
                && self.data.followers is None) ==> (r matches Ok(req) && req.data == self.data),
    {
        if self.data.is_empty() {
            return Err(TagValidationError::EmptyUpdate);
        }
        Ok(TagUpdateRequest { data: self.data })
    }
}

/// Errors emitted during tag payload validation.
#[derive(Debug, Clone, Copy, PartialEq, Eq, Structural)]
pub enum TagValidationError {
    /// Tag name was missing or blank.
    MissingName,
    /// Workspace identifier missing when creating a tag.
    MissingWorkspace,
    /// Update payload did not contain any fields.
    EmptyUpdate,
}

} // verus!
