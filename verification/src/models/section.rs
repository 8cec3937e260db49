//! Section domain models and request payload helpers.

use vstd::prelude::*;

verus! {

use crate::models::workspace::spec_label;

/// Compact section reference used in task memberships.
#[derive(Debug, Clone, PartialEq, Eq)]
pub struct SectionReference {
    /// Globally unique identifier.
    pub gid: String,
    /// Section display name.
    pub name: Option<String>,
    /// Resource type marker.
    pub resource_type: Option<String>,
}

impl SectionReference {
    /// Human readable label.
    pub fn label(&self) -> (r: String)
        ensures
            r@ == spec_label(self.name, self.gid),
    {
        match &self.name {
            Some(n) => crate::strlist::copy_string(n.as_str()),
            None => crate::strlist::copy_string(self.gid.as_str()),
        }
    }
}

/// Full section payload.
#[derive(Debug, Clone, PartialEq, Eq)]
pub struct Section {
    /// Section identifier.
    pub gid: String,
    /// Display name (the text shown as the section header).
    pub name: String,
    /// Resource type marker.
    pub resource_type: Option<String>,
    /// Creation timestamp.
    pub created_at: Option<String>,
    /// Parent project reference.
    pub project: Option<SectionProjectReference>,
    /// Older multi-project form of the parent reference.
    pub projects: Vec<SectionProjectReference>,
}

/// Compact project reference used within section payloads.
#[derive(Debug, Clone, PartialEq, Eq)]
pub struct SectionProjectReference {
    /// Globally unique identifier.
    pub gid: String,
    /// Project name.
    pub name: Option<String>,
    /// Resource type marker.
    pub resource_type: Option<String>,
}

impl SectionProjectReference {
    /// Human readable label.
    pub fn label(&self) -> (r: String)
        ensures
            r@ == spec_label(self.name, self.gid),
    {
        match &self.name {
            Some(n) => crate::strlist::copy_string(n.as_str()),
            None => crate::strlist::copy_string(self.gid.as_str()),
        }
    }
}

/// Payload for creating a section in a project.
#[derive(Debug, Clone, PartialEq, Eq)]
pub struct SectionCreateData {
    /// Section name (required).
    pub name: String,
    /// Optional positioning: insert before this section gid.
    pub insert_before: Option<String>,
    /// Optional positioning: insert after this section gid.
    pub insert_after: Option<String>,
}

/// API envelope for section create requests.
#[derive(Debug, Clone, PartialEq, Eq)]
pub struct SectionCreateRequest {
    /// Wrapped data payload.
    pub data: SectionCreateData,
}

/// Payload for adding a task to a section.
#[derive(Debug, Clone, PartialEq, Eq)]
pub struct AddTaskToSectionData {
    /// Task gid to add to the section.
    pub task: String,
    /// Optional positioning: the gid to insert before.
    pub insert_before: Option<String>,
    /// Optional positioning: the gid to insert after.
    pub insert_after: Option<String>,
}

/// API envelope for add-task-to-section requests.
#[derive(Debug, Clone, PartialEq, Eq)]
pub struct AddTaskToSectionRequest {
    /// Wrapped data payload.
    pub data: AddTaskToSectionData,
}

} // verus!
