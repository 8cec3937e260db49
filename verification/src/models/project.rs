//! Project domain models, filters, and request payload helpers.
//!
//! Custom fields on the project model are carried as string-valued pairs —
//! the only form the filter language reads.

use vstd::prelude::*;

verus! {

use crate::cachekey::pairs_view;
use crate::models::user::UserReference;
use crate::models::user::spec_user_label;
use crate::models::workspace::WorkspaceReference;
use crate::models::workspace::spec_label;
use crate::strlist::spec_opt_pair;
use crate::strlist::spec_opt_bool_pair;
use crate::strlist::spec_fields_pair;
use crate::strlist::opt_view;
use crate::text::spec_lower;
use crate::text::spec_contains_seq;

/// Permission levels exposed for project members.
#[derive(Debug, Clone, Copy, PartialEq, Eq, Structural)]
pub enum MemberPermission {
    /// Full access.
    Member,
    /// Read/write limited to comments.
    Commenter,
    /// View only.
    Viewer,
}

/// Full project payload.
#[derive(Debug, Clone, PartialEq, Eq)]
pub struct Project {
    /// Project identifier.
    pub gid: String,
    /// Display name.
    pub name: String,
    /// Resource type marker.
    pub resource_type: Option<String>,
    /// Optional description/notes.
    pub notes: Option<String>,
    /// Color slug when assigned.
    pub color: Option<String>,
    /// Whether the project has been archived.
    pub archived: bool,
    /// Visibility flag (public/private).
    pub public: Option<bool>,
    /// ISO 8601 due date.
    pub due_on: Option<String>,
    /// ISO 8601 start date.
    pub start_on: Option<String>,
    /// Creation timestamp.
    pub created_at: Option<String>,
    /// Last modification timestamp.
    pub modified_at: Option<String>,
    /// Owning workspace.
    pub workspace: Option<WorkspaceReference>,
    /// Owning team.
    pub team: Option<WorkspaceReference>,
    /// Project owner.
    pub owner: Option<UserReference>,
    /// Members when requested.
    pub members: Vec<ProjectMember>,
    /// Recent status updates when requested separately.
    pub statuses: Vec<ProjectStatus>,
    /// String-valued custom fields.
    pub custom_fields: Vec<(String, String)>,
}

/// Response payload for project members endpoints.
#[derive(Debug, Clone, PartialEq, Eq)]
pub struct ProjectMembers {
    /// Project identifier.
    pub project_gid: String,
    /// Member collection.
    pub members: Vec<ProjectMember>,
}

/// Simplified project member representation.
#[derive(Debug, Clone, PartialEq, Eq)]
pub struct ProjectMember {
    /// Member identifier.
    pub gid: String,
    /// Linked user reference.
    pub user: UserReference,
    /// Optional role.
    pub role: Option<MemberPermission>,
}

/// Summary of a project status update.
#[derive(Debug, Clone, PartialEq, Eq)]
pub struct ProjectStatus {
    /// Status identifier.
    pub gid: String,
    /// Status headline.
    pub title: Option<String>,
    /// Status color (green, yellow, red).
    pub color: Option<String>,
    /// Rich text body when provided.
    pub text: Option<String>,
    /// Creation timestamp.
    pub created_at: Option<String>,
    /// Author metadata.
    pub created_by: Option<UserReference>,
}

/// Parameters accepted by the project listing endpoint.
#[derive(Debug, Clone)]
pub struct ProjectListParams {
    /// Optional workspace filter.
    pub workspace: Option<String>,
    /// Optional team filter.
    pub team: Option<String>,
    /// Filter archived flag.
    pub archived: Option<bool>,
    /// Additional fields to request.
    pub fields: Vec<String>,
    /// Maximum number of items to fetch (client side constraint).
    pub limit: Option<usize>,
    /// Optional saved filter expressions.
    pub filters: Vec<ProjectFilter>,
    /// Sort field.
    pub sort: Option<ProjectSort>,
}

/// The query a project listing sends.
pub open spec fn spec_project_list_query(p: ProjectListParams) -> Seq<(Seq<char>, Seq<char>)> {
    spec_opt_pair("workspace"@, opt_view(p.workspace)) + spec_opt_pair("team"@, opt_view(p.team))
        + spec_opt_bool_pair("archived"@, p.archived) + spec_fields_pair(p.fields.deep_view())
}

impl ProjectListParams {
    /// Transform parameters into query pairs for the API.
    pub fn to_query(&self) -> (r: Vec<(String, String)>)
        ensures
            pairs_view(r@) == spec_project_list_query(*self),
    {
        let mut pairs: Vec<(String, String)> = Vec::new();
        crate::strlist::push_opt_pair(&mut pairs, "workspace", &self.workspace);
        crate::strlist::push_opt_pair(&mut pairs, "team", &self.team);
        crate::strlist::push_opt_bool_pair(&mut pairs, "archived", &self.archived);
        crate::strlist::push_fields_pair(&mut pairs, &self.fields);
        proof {
            assert(pairs_view(pairs@) =~= spec_project_list_query(*self));
        }
        pairs
    }
}

/// Sort options for project listings.
#[derive(Debug, Clone, Copy, PartialEq, Eq, Structural)]
pub enum ProjectSort {
    /// Sort by project name (case insensitive).
    Name,
    /// Sort by creation timestamp.
    CreatedAt,
    /// Sort by modification timestamp.
    ModifiedAt,
}

/// Statement describing a single filter operation. The regular-expression
/// form carries its pattern as text, compiled at matching time.
#[derive(Debug, Clone, PartialEq, Eq)]
pub enum ProjectFilter {
    /// Field equality.
    Equals(String, String),
    /// Field inequality.
    NotEquals(String, String),
    /// Regular expression match, by pattern text.
    Regex(String, String),
    /// Case-insensitive substring match.
    Contains(String, String),
}

/// Mathematical image of a [`ProjectFilter`].
pub enum SpecProjectFilter {
    /// Image of `ProjectFilter::Equals`.
    Equals(Seq<char>, Seq<char>),
    /// Image of `ProjectFilter::NotEquals`.
    NotEquals(Seq<char>, Seq<char>),
    /// Image of `ProjectFilter::Regex`.
    Regex(Seq<char>, Seq<char>),
    /// Image of `ProjectFilter::Contains`.
    Contains(Seq<char>, Seq<char>),
}

impl View for ProjectFilter {
    type V = SpecProjectFilter;

    open spec fn view(&self) -> SpecProjectFilter {
        match self {
            ProjectFilter::Equals(f, v) => SpecProjectFilter::Equals(f@, v@),
            ProjectFilter::NotEquals(f, v) => SpecProjectFilter::NotEquals(f@, v@),
            ProjectFilter::Regex(f, p) => SpecProjectFilter::Regex(f@, p@),
            ProjectFilter::Contains(f, n) => SpecProjectFilter::Contains(f@, n@),
        }
    }
}

/// Whether the regular expression pattern compiles.
pub uninterp spec fn regex_valid(pattern: Seq<char>) -> bool;

/// Whether the regular expression matches the text; meaningful only for
/// valid patterns.
pub uninterp spec fn regex_match_of(pattern: Seq<char>, text: Seq<char>) -> bool;

/// Relies on `regex::Regex::new` and `regex::Regex::is_match`: whether the
/// pattern compiles, and whether it matches the text — a function of
/// pattern and text alone.
#[verifier::external_body]
fn regex_is_match(pattern: &str, text: &str) -> (r: Option<bool>)
    ensures
        match r {
            Some(b) => regex_valid(pattern@) && b == regex_match_of(pattern@, text@),
            None => !regex_valid(pattern@),
        },
{
    match regex::Regex::new(pattern) {
        Ok(re) => Some(re.is_match(text)),
        Err(_) => None,
    }
}

/// Relies on `regex::Regex::new`: whether the pattern compiles.
#[verifier::external_body]
pub(crate) fn regex_compiles(pattern: &str) -> (r: bool)
    ensures
        r == regex_valid(pattern@),
{
    regex::Regex::new(pattern).is_ok()
}

/// The value a filter field name designates on a project, if any.
pub open spec fn spec_field_value(p: Project, field: Seq<char>) -> Option<Seq<char>> {
    if field == "name"@ {
        Some(p.name@)
    } else if field == "gid"@ {
        Some(p.gid@)
    } else if field == "notes"@ {
        opt_view(p.notes)
    } else if field == "color"@ {
        opt_view(p.color)
    } else if field == "archived"@ {
        Some(if p.archived { "true"@ } else { "false"@ })
    } else if field == "public"@ {
        match p.public {
            Some(b) => Some(if b { "true"@ } else { "false"@ }),
            None => None,
        }
    } else if field == "due_on"@ {
        opt_view(p.due_on)
    } else if field == "start_on"@ {
        opt_view(p.start_on)
    } else if field == "created_at"@ {
        opt_view(p.created_at)
    } else if field == "modified_at"@ {
        opt_view(p.modified_at)
    } else if field == "workspace"@ {
        match p.workspace {
            Some(w) => Some(spec_label(w.name, w.gid)),
            None => None,
        }
    } else if field == "team"@ {
        match p.team {
            Some(w) => Some(spec_label(w.name, w.gid)),
            None => None,
        }
    } else if field == "owner"@ {
        match p.owner {
            Some(u) => Some(spec_user_label(u)),
            None => None,
        }
    } else if field == "owner.name"@ || field == "owner_name"@ {
        match p.owner {
            Some(u) => opt_view(u.name),
            None => None,
        }
    } else if field == "owner.email"@ || field == "owner_email"@ {
        match p.owner {
            Some(u) => opt_view(u.email),
            None => None,
        }
    } else {
        spec_custom_lookup(p.custom_fields.deep_view(), field)
    }
}

/// The first custom field under a name, if any.
pub open spec fn spec_custom_lookup(
    fields: Seq<(Seq<char>, Seq<char>)>,
    name: Seq<char>,
) -> Option<Seq<char>>
    decreases fields.len(),
{
    if fields.len() == 0 {
        None
    } else if fields.first().0 == name {
        Some(fields.first().1)
    } else {
        spec_custom_lookup(fields.drop_first(), name)
    }
}

/// Evaluate a filter field name on a project.
#[verifier::loop_isolation(false)]
pub fn field_value(project: &Project, field: &str) -> (r: Option<String>)
    ensures
        match r {
            Some(v) => spec_field_value(*project, field@) == Some(v@),
            None => spec_field_value(*project, field@) is None,
        },
{
    if crate::text::str_eq(field, "name") {
        Some(crate::strlist::copy_string(project.name.as_str()))
    } else if crate::text::str_eq(field, "gid") {
        Some(crate::strlist::copy_string(project.gid.as_str()))
    } else if crate::text::str_eq(field, "notes") {
        copy_opt(&project.notes)
    } else if crate::text::str_eq(field, "color") {
        copy_opt(&project.color)
    } else if crate::text::str_eq(field, "archived") {
        Some(crate::strlist::bool_string(project.archived))
    } else if crate::text::str_eq(field, "public") {
        match &project.public {
            Some(b) => Some(crate::strlist::bool_string(*b)),
            None => None,
        }
    } else if crate::text::str_eq(field, "due_on") {
        copy_opt(&project.due_on)
    } else if crate::text::str_eq(field, "start_on") {
        copy_opt(&project.start_on)
    } else if crate::text::str_eq(field, "created_at") {
        copy_opt(&project.created_at)
    } else if crate::text::str_eq(field, "modified_at") {
        copy_opt(&project.modified_at)
    } else if crate::text::str_eq(field, "workspace") {
        match &project.workspace {
            Some(w) => Some(w.label()),
            None => None,
        }
    } else if crate::text::str_eq(field, "team") {
        match &project.team {
            Some(w) => Some(w.label()),
            None => None,
        }
    } else if crate::text::str_eq(field, "owner") {
        match &project.owner {
            Some(u) => Some(u.label()),
            None => None,
        }
    } else if crate::text::str_eq(field, "owner.name") || crate::text::str_eq(
        field,
        "owner_name",
    ) {
        match &project.owner {
            Some(u) => copy_opt(&u.name),
            None => None,
        }
    } else if crate::text::str_eq(field, "owner.email") || crate::text::str_eq(
        field,
        "owner_email",
    ) {
        match &project.owner {
            Some(u) => copy_opt(&u.email),
            None => None,
        }
    } else {
        proof {
            assert(project.custom_fields.deep_view().skip(0) =~= project.custom_fields.deep_view());
        }
        let mut i: usize = 0;
        while i < project.custom_fields.len()
            invariant
                0 <= i <= project.custom_fields@.len(),
                spec_custom_lookup(project.custom_fields.deep_view(), field@)
                    == spec_custom_lookup(
                    project.custom_fields.deep_view().skip(i as int),
                    field@,
                ),
            decreases project.custom_fields@.len() - i,
        {
            proof {
                let dv = project.custom_fields.deep_view();
                assert(dv.skip(i as int)[0] == dv[i as int]);
                assert(dv.skip(i as int).drop_first() =~= dv.skip(i + 1));
                assert(dv[i as int] == (project.custom_fields@[i as int].0@, project.custom_fields@[i as int].1@));
            }
            if crate::text::str_eq(project.custom_fields[i].0.as_str(), field) {
                proof {
                    let dv = project.custom_fields.deep_view();
                    assert(spec_custom_lookup(dv.skip(i as int), field@) == Some(
                        dv[i as int].1,
                    ));
                }
                return Some(
                    crate::strlist::copy_string(project.custom_fields[i].1.as_str()),
                );
            }
            i = i + 1;
        }
        proof {
            assert(project.custom_fields.deep_view().skip(i as int).len() == 0);
        }
        None
    }
}

fn copy_opt(o: &Option<String>) -> (r: Option<String>)
    ensures
        match r {
            Some(v) => opt_view(*o) == Some(v@),
            None => opt_view(*o) is None,
        },
{
    match o {
        Some(s) => Some(crate::strlist::copy_string(s.as_str())),
        None => None,
    }
}

/// Whether a filter accepts a project.
pub open spec fn spec_filter_matches(f: ProjectFilter, p: Project) -> bool {
    match f {
        ProjectFilter::Equals(field, expected) => spec_field_value(p, field@) == Some(expected@),
        ProjectFilter::NotEquals(field, forbidden) => match spec_field_value(p, field@) {
            Some(v) => v != forbidden@,
            None => true,
        },
        ProjectFilter::Regex(field, pattern) => match spec_field_value(p, field@) {
            Some(v) => regex_valid(pattern@) && regex_match_of(pattern@, v),
            None => false,
        },
        ProjectFilter::Contains(field, needle) => match spec_field_value(p, field@) {
            Some(v) => spec_contains_seq(spec_lower(v), spec_lower(needle@)),
            None => false,
        },
    }
}

impl ProjectFilter {
    /// Evaluate this filter against a project. A regular-expression filter
    /// whose pattern does not compile matches nothing.
    pub fn matches(&self, project: &Project) -> (r: bool)
        ensures
            r == spec_filter_matches(*self, *project),
    {
        match self {
            ProjectFilter::Equals(field, expected) => match field_value(project, field.as_str()) {
                Some(v) => crate::text::str_eq(v.as_str(), expected.as_str()),
                None => false,
            },
            ProjectFilter::NotEquals(field, forbidden) => match field_value(
                project,
                field.as_str(),
            ) {
                Some(v) => !crate::text::str_eq(v.as_str(), forbidden.as_str()),
                None => true,
            },
            ProjectFilter::Regex(field, pattern) => match field_value(project, field.as_str()) {
                Some(v) => match regex_is_match(pattern.as_str(), v.as_str()) {
                    Some(b) => b,
                    None => false,
                },
                None => false,
            },
            ProjectFilter::Contains(field, needle) => match field_value(project, field.as_str()) {
                Some(v) => {
                    let hay = crate::text::str_to_chars(v.as_str());
                    let hay_low = crate::text::lower_chars(&hay);
                    let nd = crate::text::str_to_chars(needle.as_str());
                    let nd_low = crate::text::lower_chars(&nd);
                    crate::text::contains_sub(&hay_low, &nd_low)
                },
                None => false,
            },
        }
    }
}

impl Project {
    /// Determine whether the project matches every filter of a set.
    pub fn matches(&self, filters: &[ProjectFilter]) -> (r: bool)
        ensures
            r == (forall|i: int|
                0 <= i < filters@.len() ==> spec_filter_matches(#[trigger] filters@[i], *self)),
    {
        let mut i: usize = 0;
        while i < filters.len()
            invariant
                0 <= i <= filters@.len(),
                forall|j: int|
                    0 <= j < i ==> spec_filter_matches(#[trigger] filters@[j], *self),
            decreases filters@.len() - i,
        {
            if !filters[i].matches(self) {
                return false;
            }
            i = i + 1;
        }
        true
    }
}

/// Request payload for creating a project.
#[derive(Debug, Clone, PartialEq, Eq)]
pub struct ProjectCreateData {
    /// Name of the new project.
    pub name: String,
    /// Workspace or organization identifier.
    pub workspace: Option<String>,
    /// Team identifier when applicable.
    pub team: Option<String>,
    /// Notes/description.
    pub notes: Option<String>,
    /// Color slug.
    pub color: Option<String>,
    /// Start date.
    pub start_on: Option<String>,
    /// Due date.
    pub due_on: Option<String>,
    /// Whether the project is public.
    pub public: Option<bool>,
    /// Owner identifier.
    pub owner: Option<String>,
    /// List of member identifiers.
    pub members: Vec<String>,
    /// String-valued custom field assignments.
    pub custom_fields: Vec<(String, String)>,
}

/// Envelope for create requests.
#[derive(Debug, Clone, PartialEq, Eq)]
pub struct ProjectCreateRequest {
    /// Wrapped data payload.
    pub data: ProjectCreateData,
}

/// Request payload for updating existing projects.
#[derive(Debug, Clone, PartialEq, Eq)]
pub struct ProjectUpdateData {
    /// New project name.
    pub name: Option<String>,
    /// Notes/description.
    pub notes: Option<String>,
    /// Color slug.
    pub color: Option<String>,
    /// Start date.
    pub start_on: Option<String>,
    /// Due date.
    pub due_on: Option<String>,
    /// Archive toggle.
    pub archived: Option<bool>,
    /// Privacy flag.
    pub public: Option<bool>,
    /// Owner change.
    pub owner: Option<String>,
}

impl ProjectUpdateData {
    /// Determine whether any fields have been populated.
    pub fn is_empty(&self) -> (r: bool)
        ensures
            r == (self.name is None && self.notes is None && self.color is None
                && self.start_on is None && self.due_on is None && self.archived is None
                && self.public is None && self.owner is None),
    {
        self.name.is_none() && self.notes.is_none() && self.color.is_none()
            && self.start_on.is_none() && self.due_on.is_none() && self.archived.is_none()
            && self.public.is_none() && self.owner.is_none()
    }
}

/// Envelope for update requests.
#[derive(Debug, Clone, PartialEq, Eq)]
pub struct ProjectUpdateRequest {
    /// Wrapped data payload.
    pub data: ProjectUpdateData,
}

} // verus!
