//! Workspace and team references.

use vstd::prelude::*;

verus! {

/// Lightweight workspace reference.
#[derive(Debug, Clone, PartialEq, Eq)]
pub struct WorkspaceReference {
    /// Globally unique identifier.
    pub gid: String,
    /// Optional display name.
    pub name: Option<String>,
    /// Optional resource type marker.
    pub resource_type: Option<String>,
}

/// The label of a named reference: its name when present, else its gid.
pub open spec fn spec_label(name: Option<String>, gid: String) -> Seq<char> {
    match name {
        Some(n) => n@,
        None => gid@,
    }
}

impl WorkspaceReference {
    /// Display helper returning a human readable label.
    pub fn label(&self) -> (r: String)
        ensures
            r@ == spec_label(self.name, self.gid),
    {
        match &self.name {
            Some(n) => crate::strlist::copy_string(n.as_str()),
            None => crate::strlist::copy_string(self.gid.as_str()),
        }
    }
}

/// Full workspace payload.
#[derive(Debug, Clone, PartialEq, Eq)]
pub struct Workspace {
    /// Globally unique identifier.
    pub gid: String,
    /// Workspace name.
    pub name: String,
    /// Resource type marker.
    pub resource_type: Option<String>,
    /// Email domains for the organization, if applicable.
    pub email_domains: Vec<String>,
    /// Whether the workspace is an organization.
    pub is_organization: bool,
}

/// Parameters for listing workspaces.
#[derive(Debug, Clone)]
pub struct WorkspaceListParams {
    /// Maximum number to fetch.
    pub limit: Option<usize>,
}

} // verus!
