//! User-centric data structures.

use vstd::prelude::*;

verus! {

use crate::models::project::MemberPermission;
use crate::models::workspace::WorkspaceReference;

/// Lightweight user reference returned by the API.
#[derive(Debug, Clone, PartialEq, Eq)]
pub struct UserReference {
    /// Globally unique identifier.
    pub gid: String,
    /// Human friendly display name.
    pub name: Option<String>,
    /// Resource type reported by the API.
    pub resource_type: Option<String>,
    /// Optional primary email address when included in the response.
    pub email: Option<String>,
}

/// A user's label: the name, else the email, else the gid.
pub open spec fn spec_user_label(u: UserReference) -> Seq<char> {
    match u.name {
        Some(n) => n@,
        None => match u.email {
            Some(e) => e@,
            None => u.gid@,
        },
    }
}

impl UserReference {
    /// Convenience helper displaying the name, email or gid.
    pub fn label(&self) -> (r: String)
        ensures
            r@ == spec_user_label(*self),
    {
        match &self.name {
            Some(n) => crate::strlist::copy_string(n.as_str()),
            None => match &self.email {
                Some(e) => crate::strlist::copy_string(e.as_str()),
                None => crate::strlist::copy_string(self.gid.as_str()),
            },
        }
    }
}

/// Identity payload used when specifying members in API requests.
#[derive(Debug, Clone, PartialEq, Eq)]
pub struct UserIdentity {
    /// Email address or gid, per the API contract.
    pub resource: String,
    /// Optional role/permission hint.
    pub role: Option<MemberPermission>,
}

/// User photo URLs at different sizes.
#[derive(Debug, Clone, PartialEq, Eq)]
pub struct UserPhoto {
    /// 21x21 pixel image URL.
    pub image_21x21: Option<String>,
    /// 27x27 pixel image URL.
    pub image_27x27: Option<String>,
    /// 36x36 pixel image URL.
    pub image_36x36: Option<String>,
    /// 60x60 pixel image URL.
    pub image_60x60: Option<String>,
    /// 128x128 pixel image URL.
    pub image_128x128: Option<String>,
}

/// Full user payload.
#[derive(Debug, Clone, PartialEq, Eq)]
pub struct User {
    /// Globally unique identifier.
    pub gid: String,
    /// User's name.
    pub name: String,
    /// Email address.
    pub email: Option<String>,
    /// Resource type marker.
    pub resource_type: Option<String>,
    /// Photo URLs.
    pub photo: Option<UserPhoto>,
    /// Workspaces the user is a member of.
    pub workspaces: Vec<WorkspaceReference>,
}

/// Parameters for listing users in a workspace.
#[derive(Debug, Clone)]
pub struct UserListParams {
    /// Workspace identifier.
    pub workspace_gid: String,
    /// Maximum number to fetch.
    pub limit: Option<usize>,
}

} // verus!
