//! Task-oriented data structures, builders, and request payloads.
//!
//! Custom field assignments are carried as pairs of field gid and raw
//! value text; the serializer around the library renders them into the
//! wire payload.

use vstd::prelude::*;

verus! {

use crate::cachekey::pairs_view;
use crate::cachekey::spec_lex_le;
use crate::models::attachment::Attachment;
use crate::models::custom_field::CustomField;
use crate::models::user::UserReference;
use crate::models::workspace::WorkspaceReference;
use crate::models::workspace::spec_label;
use crate::strlist::spec_opt_pair;
use crate::strlist::spec_opt_bool_pair;
use crate::strlist::spec_each_pair;
use crate::strlist::spec_fields_pair;
use crate::strlist::opt_view;
use crate::text::spec_is_blank;

/// Lightweight reference to a task or subtask.
#[derive(Debug, Clone, PartialEq, Eq)]
pub struct TaskReference {
    /// Globally unique identifier.
    pub gid: String,
    /// Optional display name.
    pub name: Option<String>,
    /// Resource type marker.
    pub resource_type: Option<String>,
}

impl TaskReference {
    /// Produce a human readable label for the reference.
    pub fn label(&self) -> (r: String)
        ensures
            r@ == spec_label(self.name, self.gid),
    {
        match &self.name {
            Some(n) => crate::strlist::copy_string(n.as_str()),
            None => crate::strlist::copy_string(self.gid.as_str()),
        }
    }
}

/// Task membership metadata linking it to projects and sections.
#[derive(Debug, Clone, PartialEq, Eq)]
pub struct TaskMembership {
    /// Parent project reference.
    pub project: Option<TaskProjectReference>,
    /// Section reference when available.
    pub section: Option<TaskSectionReference>,
}

/// Compact project reference used within task payloads.
#[derive(Debug, Clone, PartialEq, Eq)]
pub struct TaskProjectReference {
    /// Globally unique identifier.
    pub gid: String,
    /// Optional project name.
    pub name: Option<String>,
    /// Resource type marker.
    pub resource_type: Option<String>,
}

impl TaskProjectReference {
    /// Human readable label.
    pub fn label(&self) -> (r: String)
        ensures
            r@ == spec_label(self.name, self.gid),
    {
        match &self.name {
            Some(n) => crate::strlist::copy_string(n.as_str()),
            None => crate::strlist::copy_string(self.gid.as_str()),
        }
    }
}

/// Compact section reference.
#[derive(Debug, Clone, PartialEq, Eq)]
pub struct TaskSectionReference {
    /// Globally unique identifier.
    pub gid: String,
    /// Section name.
    pub name: Option<String>,
    /// Resource type marker.
    pub resource_type: Option<String>,
}

impl TaskSectionReference {
    /// Human readable label.
    pub fn label(&self) -> (r: String)
        ensures
            r@ == spec_label(self.name, self.gid),
    {
        match &self.name {
            Some(n) => crate::strlist::copy_string(n.as_str()),
            None => crate::strlist::copy_string(self.gid.as_str()),
        }
    }
}

/// Compact tag reference used within tasks.
#[derive(Debug, Clone, PartialEq, Eq)]
pub struct TaskTagReference {
    /// Globally unique identifier.
    pub gid: String,
    /// Tag name.
    pub name: Option<String>,
    /// Resource type marker.
    pub resource_type: Option<String>,
}

impl TaskTagReference {
    /// Human readable label.
    pub fn label(&self) -> (r: String)
        ensures
            r@ == spec_label(self.name, self.gid),
    {
        match &self.name {
            Some(n) => crate::strlist::copy_string(n.as_str()),
            None => crate::strlist::copy_string(self.gid.as_str()),
        }
    }
}

/// Status of a task relative to the assignee's prioritisation buckets.
#[derive(Debug, Clone, Copy, PartialEq, Eq, Structural)]
pub enum TaskAssigneeStatus {
    /// Task recently assigned.
    Inbox,
    /// Deferred for later.
    Later,
    /// Scheduled for upcoming work.
    Upcoming,
    /// Due today.
    Today,
    /// Waiting on someone/something else.
    Waiting,
    /// Fallback for unsupported values.
    Unknown,
}

impl Default for TaskAssigneeStatus {
    /// Newly assigned tasks land in the inbox.
    fn default() -> (r: TaskAssigneeStatus)
        ensures
            r == TaskAssigneeStatus::Inbox,
    {
        TaskAssigneeStatus::Inbox
    }
}

/// Full task payload returned by the API.
#[derive(Debug, Clone, PartialEq, Eq)]
pub struct Task {
    /// Globally unique identifier.
    pub gid: String,
    /// Display name.
    pub name: String,
    /// Resource type marker.
    pub resource_type: Option<String>,
    /// Resource subtype marker.
    pub resource_subtype: Option<String>,
    /// Optional notes in plain text.
    pub notes: Option<String>,
    /// Optional notes in HTML.
    pub html_notes: Option<String>,
    /// Completion flag.
    pub completed: bool,
    /// Time the task was completed.
    pub completed_at: Option<String>,
    /// User who completed the task.
    pub completed_by: Option<UserReference>,
    /// Creation timestamp.
    pub created_at: Option<String>,
    /// Last modification timestamp.
    pub modified_at: Option<String>,
    /// Due date (all day).
    pub due_on: Option<String>,
    /// Due timestamp (specific time).
    pub due_at: Option<String>,
    /// Start date (all day).
    pub start_on: Option<String>,
    /// Start timestamp (specific time).
    pub start_at: Option<String>,
    /// Assigned user.
    pub assignee: Option<UserReference>,
    /// Assignee status bucket.
    pub assignee_status: Option<TaskAssigneeStatus>,
    /// Workspace reference.
    pub workspace: Option<WorkspaceReference>,
    /// Parent task reference when this is a subtask.
    pub parent: Option<TaskReference>,
    /// Project/section memberships.
    pub memberships: Vec<TaskMembership>,
    /// Projects referenced directly.
    pub projects: Vec<TaskProjectReference>,
    /// Tag references.
    pub tags: Vec<TaskTagReference>,
    /// Followers for notifications.
    pub followers: Vec<UserReference>,
    /// Dependencies: the tasks it waits on.
    pub dependencies: Vec<TaskReference>,
    /// Dependents: the tasks waiting on it.
    pub dependents: Vec<TaskReference>,
    /// Custom field payloads.
    pub custom_fields: Vec<CustomField>,
    /// Attachment metadata when requested.
    pub attachments: Vec<Attachment>,
    /// Public permalink.
    pub permalink_url: Option<String>,
    /// How many subtasks it contains.
    pub num_subtasks: Option<i64>,
}

impl Task {
    /// Determines whether the task is currently incomplete.
    pub fn is_open(&self) -> (r: bool)
        ensures
            r == !self.completed,
    {
        !self.completed
    }
}

/// Parameters for listing tasks via the API.
#[derive(Debug, Clone)]
pub struct TaskListParams {
    /// Workspace filter.
    pub workspace: Option<String>,
    /// Project filter.
    pub project: Option<String>,
    /// Section filter.
    pub section: Option<String>,
    /// Assignee filter.
    pub assignee: Option<String>,
    /// Completed since timestamp.
    pub completed_since: Option<String>,
    /// Modified since timestamp.
    pub modified_since: Option<String>,
    /// Exact due date filter.
    pub due_on: Option<String>,
    /// Include subtasks in listing.
    pub include_subtasks: bool,
    /// Maximum number of items to fetch (client side).
    pub limit: Option<usize>,
    /// Additional fields to request.
    pub fields: Vec<String>,
    /// Sort order applied post-fetch.
    pub sort: Option<TaskSort>,
    /// Post-fetch completion filter.
    pub completed: Option<bool>,
    /// Post-fetch due date upper bound (inclusive, YYYY-MM-DD).
    pub due_before: Option<String>,
    /// Post-fetch due date lower bound (inclusive, YYYY-MM-DD).
    pub due_after: Option<String>,
}

/// The query a task listing sends. The `include_subtasks` flag drives a
/// separate subtask fetch and contributes no parameter.
pub open spec fn spec_task_list_query(p: TaskListParams) -> Seq<(Seq<char>, Seq<char>)> {
    spec_opt_pair("workspace"@, opt_view(p.workspace)) + spec_opt_pair(
        "project"@,
        opt_view(p.project),
    ) + spec_opt_pair("section"@, opt_view(p.section)) + spec_opt_pair(
        "assignee"@,
        opt_view(p.assignee),
    ) + spec_opt_pair("completed_since"@, opt_view(p.completed_since)) + spec_opt_pair(
        "modified_since"@,
        opt_view(p.modified_since),
    ) + spec_opt_pair("due_on"@, opt_view(p.due_on)) + spec_fields_pair(p.fields.deep_view())
}

impl TaskListParams {
    /// Convert the structure into query string pairs.
    pub fn to_query(&self) -> (r: Vec<(String, String)>)
        ensures
            pairs_view(r@) == spec_task_list_query(*self),
    {
        let mut pairs: Vec<(String, String)> = Vec::new();
        crate::strlist::push_opt_pair(&mut pairs, "workspace", &self.workspace);
        crate::strlist::push_opt_pair(&mut pairs, "project", &self.project);
        crate::strlist::push_opt_pair(&mut pairs, "section", &self.section);
        crate::strlist::push_opt_pair(&mut pairs, "assignee", &self.assignee);
        crate::strlist::push_opt_pair(&mut pairs, "completed_since", &self.completed_since);
        crate::strlist::push_opt_pair(&mut pairs, "modified_since", &self.modified_since);
        crate::strlist::push_opt_pair(&mut pairs, "due_on", &self.due_on);
        crate::strlist::push_fields_pair(&mut pairs, &self.fields);
        proof {
            assert(pairs_view(pairs@) =~= spec_task_list_query(*self));
        }
        pairs
    }

    /// Whether a task survives the post-fetch filters.
    pub open spec fn spec_keeps(&self, t: Task) -> bool {
        &&& (match self.completed {
            Some(expected) => t.completed == expected,
            None => true,
        })
        &&& (match self.due_before {
            Some(before) => t.due_on matches Some(due) && spec_lex_le(due@, before@),
            None => true,
        })
        &&& (match self.due_after {
            Some(after) => t.due_on matches Some(due) && spec_lex_le(after@, due@),
            None => true,
        })
    }

    /// Apply local filters after API pagination.
    pub fn apply_post_filters(&self, tasks: &mut Vec<Task>)
        ensures
            final(tasks)@ == spec_post_filter(*self, old(tasks)@),
    {
        let mut out: Vec<Task> = Vec::new();
        let ghost whole = old(tasks)@;
        proof {
            assert(whole.skip(0) =~= whole);
        }
        let total = tasks.len();
        assert(whole.len() <= usize::MAX);
        let mut i: usize = 0;
        loop
            invariant
                whole == old(tasks)@,
                whole.len() <= usize::MAX,
                0 <= i,
                i + tasks@.len() == whole.len(),
                tasks@ == whole.skip(i as int),
                spec_post_filter(*self, whole) == out@ + spec_post_filter(
                    *self,
                    whole.skip(i as int),
                ),
            ensures
                tasks@.len() == 0,
                out@ == spec_post_filter(*self, whole),
            decreases tasks@.len(),
        {
            if tasks.len() == 0 {
                proof {
                    assert(whole.skip(i as int).len() == 0);
                    assert(out@ =~= spec_post_filter(*self, whole));
                }
                break ;
            }
            let t = tasks.remove(0);
            proof {
                assert(t == whole.skip(i as int)[0]);
                assert(t == whole[i as int]);
                assert(tasks@ =~= whole.skip(i as int + 1));
            }
            let keep = self.keeps(&t);
            if keep {
                out.push(t);
                proof {
                    assert(out@ + spec_post_filter(*self, whole.skip(i as int + 1))
                        =~= spec_post_filter(*self, whole));
                }
            }
            i = i + 1;
        }
        *tasks = out;
    }

    /// Decide the post-fetch filters for one task.
    pub fn keeps(&self, t: &Task) -> (r: bool)
        ensures
            r == self.spec_keeps(*t),
    {
        let completed_ok = match &self.completed {
            Some(expected) => t.completed == *expected,
            None => true,
        };
        if !completed_ok {
            return false;
        }
        let before_ok = match &self.due_before {
            Some(before) => match &t.due_on {
                Some(due) => crate::cachekey::lex_le(due.as_str(), before.as_str()),
                None => false,
            },
            None => true,
        };
        if !before_ok {
            return false;
        }
        match &self.due_after {
            Some(after) => match &t.due_on {
                Some(due) => crate::cachekey::lex_le(after.as_str(), due.as_str()),
                None => false,
            },
            None => true,
        }
    }
}

/// The tasks surviving the post-fetch filters, in order.
pub open spec fn spec_post_filter(p: TaskListParams, tasks: Seq<Task>) -> Seq<Task>
    decreases tasks.len(),
{
    if tasks.len() == 0 {
        Seq::empty()
    } else if p.spec_keeps(tasks[0]) {
        seq![tasks[0]] + spec_post_filter(p, tasks.drop_first())
    } else {
        spec_post_filter(p, tasks.drop_first())
    }
}

/// Supported sort orders for task listings.
#[derive(Debug, Clone, Copy, PartialEq, Eq, Structural)]
pub enum TaskSort {
    /// Alphabetical by task name.
    Name,
    /// Due date ascending.
    DueOn,
    /// Creation timestamp ascending.
    CreatedAt,
    /// Modification timestamp ascending.
    ModifiedAt,
    /// Assignee display name.
    Assignee,
}

/// Parameters for searching tasks.
#[derive(Debug, Clone)]
pub struct TaskSearchParams {
    /// Workspace to search in (required).
    pub workspace: String,
    /// Full-text search query.
    pub text: Option<String>,
    /// Resource subtype filter.
    pub resource_subtype: Option<String>,
    /// Completion status filter.
    pub completed: Option<bool>,
    /// Include subtasks.
    pub is_subtask: Option<bool>,
    /// Filter blocked tasks.
    pub is_blocked: Option<bool>,
    /// Filter tasks with attachments.
    pub has_attachment: Option<bool>,
    /// Assignee filter (gid or "me").
    pub assignee: Option<String>,
    /// Project filter (gids).
    pub projects: Vec<String>,
    /// Section filter (gids).
    pub sections: Vec<String>,
    /// Tag filter (gids).
    pub tags: Vec<String>,
    /// Created after date (YYYY-MM-DD).
    pub created_after: Option<String>,
    /// Created before date (YYYY-MM-DD).
    pub created_before: Option<String>,
    /// Modified after date (YYYY-MM-DD).
    pub modified_after: Option<String>,
    /// Modified before date (YYYY-MM-DD).
    pub modified_before: Option<String>,
    /// Due after date (YYYY-MM-DD).
    pub due_after: Option<String>,
    /// Due before date (YYYY-MM-DD).
    pub due_before: Option<String>,
    /// Sort field.
    pub sort_by: Option<String>,
    /// Sort ascending.
    pub sort_ascending: bool,
    /// Maximum number of items to fetch.
    pub limit: Option<usize>,
    /// Additional fields to request.
    pub fields: Vec<String>,
}

/// The sort segment of a search query: present only with a sort field,
/// and then accompanied by the direction.
pub open spec fn spec_sort_pairs(
    sort_by: Option<String>,
    ascending: bool,
) -> Seq<(Seq<char>, Seq<char>)> {
    match sort_by {
        Some(s) => seq![
            ("sort_by"@, s@),
            ("sort_ascending"@, if ascending { "true"@ } else { "false"@ }),
        ],
        None => Seq::empty(),
    }
}

/// The query a task search sends.
pub open spec fn spec_task_search_query(p: TaskSearchParams) -> Seq<(Seq<char>, Seq<char>)> {
    spec_opt_pair("text"@, opt_view(p.text)) + spec_opt_pair(
        "resource_subtype"@,
        opt_view(p.resource_subtype),
    ) + spec_opt_bool_pair("completed"@, p.completed) + spec_opt_bool_pair(
        "is_subtask"@,
        p.is_subtask,
    ) + spec_opt_bool_pair("is_blocked"@, p.is_blocked) + spec_opt_bool_pair(
        "has_attachment"@,
        p.has_attachment,
    ) + spec_opt_pair("assignee.any"@, opt_view(p.assignee)) + spec_each_pair(
        "projects.any"@,
        p.projects.deep_view(),
    ) + spec_each_pair("sections.any"@, p.sections.deep_view()) + spec_each_pair(
        "tags.any"@,
        p.tags.deep_view(),
    ) + spec_opt_pair("created_at.after"@, opt_view(p.created_after)) + spec_opt_pair(
        "created_at.before"@,
        opt_view(p.created_before),
    ) + spec_opt_pair("modified_at.after"@, opt_view(p.modified_after)) + spec_opt_pair(
        "modified_at.before"@,
        opt_view(p.modified_before),
    ) + spec_opt_pair("due_on.after"@, opt_view(p.due_after)) + spec_opt_pair(
        "due_on.before"@,
        opt_view(p.due_before),
    ) + spec_sort_pairs(p.sort_by, p.sort_ascending) + spec_fields_pair(p.fields.deep_view())
}

impl TaskSearchParams {
    /// Convert to query parameters.
    pub fn to_query(&self) -> (r: Vec<(String, String)>)
        ensures
            pairs_view(r@) == spec_task_search_query(*self),
    {
        let mut pairs: Vec<(String, String)> = Vec::new();
        crate::strlist::push_opt_pair(&mut pairs, "text", &self.text);
        crate::strlist::push_opt_pair(&mut pairs, "resource_subtype", &self.resource_subtype);
        crate::strlist::push_opt_bool_pair(&mut pairs, "completed", &self.completed);
        crate::strlist::push_opt_bool_pair(&mut pairs, "is_subtask", &self.is_subtask);
        crate::strlist::push_opt_bool_pair(&mut pairs, "is_blocked", &self.is_blocked);
        crate::strlist::push_opt_bool_pair(&mut pairs, "has_attachment", &self.has_attachment);
        crate::strlist::push_opt_pair(&mut pairs, "assignee.any", &self.assignee);
        crate::strlist::push_each_pair(&mut pairs, "projects.any", &self.projects);
        crate::strlist::push_each_pair(&mut pairs, "sections.any", &self.sections);
        crate::strlist::push_each_pair(&mut pairs, "tags.any", &self.tags);
        crate::strlist::push_opt_pair(&mut pairs, "created_at.after", &self.created_after);
        crate::strlist::push_opt_pair(&mut pairs, "created_at.before", &self.created_before);
        crate::strlist::push_opt_pair(&mut pairs, "modified_at.after", &self.modified_after);
        crate::strlist::push_opt_pair(&mut pairs, "modified_at.before", &self.modified_before);
        crate::strlist::push_opt_pair(&mut pairs, "due_on.after", &self.due_after);
        crate::strlist::push_opt_pair(&mut pairs, "due_on.before", &self.due_before);
        match &self.sort_by {
            Some(s) => {
                crate::strlist::push_pair(
                    &mut pairs,
                    "sort_by",
                    crate::strlist::copy_string(s.as_str()),
                );
                crate::strlist::push_pair(
                    &mut pairs,
                    "sort_ascending",
                    crate::strlist::bool_string(self.sort_ascending),
                );
            },
            None => {},
        }
        crate::strlist::push_fields_pair(&mut pairs, &self.fields);
        proof {
            assert(pairs_view(pairs@) =~= spec_task_search_query(*self));
        }
        pairs
    }
}

/// Payload for creating tasks.
#[derive(Debug, Clone, PartialEq, Eq)]
pub struct TaskCreateData {
    /// Task name (required).
    pub name: String,
    /// Optional notes (plain text).
    pub notes: Option<String>,
    /// Optional notes in HTML format.
    pub html_notes: Option<String>,
    /// Workspace or organization identifier.
    pub workspace: Option<String>,
    /// Associated project identifiers.
    pub projects: Vec<String>,
    /// Section identifier when provided.
    pub section: Option<String>,
    /// Parent task identifier for creating subtasks.
    pub parent: Option<String>,
    /// Assigned user (gid or email).
    pub assignee: Option<String>,
    /// Due date (all day).
    pub due_on: Option<String>,
    /// Due timestamp.
    pub due_at: Option<String>,
    /// Start date (all day).
    pub start_on: Option<String>,
    /// Start timestamp.
    pub start_at: Option<String>,
    /// Tags to apply.
    pub tags: Vec<String>,
    /// Followers to notify.
    pub followers: Vec<String>,
    /// Custom field assignments: field gid and raw value text.
    pub custom_fields: Vec<(String, String)>,
}

/// API envelope for create requests.
#[derive(Debug, Clone, PartialEq, Eq)]
pub struct TaskCreateRequest {
    /// Wrapped data payload.
    pub data: TaskCreateData,
}

/// Builder for constructing validated task create payloads.
#[derive(Debug, Clone)]
pub struct TaskCreateBuilder {
    /// The payload being accumulated.
    pub data: TaskCreateData,
}

impl TaskCreateBuilder {
    /// Start building a new task payload with the required name.
    pub fn new(name: String) -> (r: TaskCreateBuilder)
        ensures
            r.data.name == name,
            r.data.notes is None,
            r.data.html_notes is None,
            r.data.workspace is None,
            r.data.projects@.len() == 0,
            r.data.section is None,
            r.data.parent is None,
            r.data.assignee is None,
            r.data.due_on is None,
            r.data.due_at is None,
            r.data.start_on is None,
            r.data.start_at is None,
            r.data.tags@.len() == 0,
            r.data.followers@.len() == 0,
            r.data.custom_fields@.len() == 0,
    {
        TaskCreateBuilder {
            data: TaskCreateData {
                name,
                notes: None,
                html_notes: None,
                workspace: None,
                projects: Vec::new(),
                section: None,
                parent: None,
                assignee: None,
                due_on: None,
                due_at: None,
                start_on: None,
                start_at: None,
                tags: Vec::new(),
                followers: Vec::new(),
                custom_fields: Vec::new(),
            },
        }
    }

    /// Override the task name.
    pub fn name(self, name: String) -> (r: TaskCreateBuilder)
        ensures
            r.data == (TaskCreateData { name, ..self.data }),
    {
        TaskCreateBuilder { data: TaskCreateData { name, ..self.data } }
    }

    /// Provide plain text notes.
    pub fn notes(self, notes: String) -> (r: TaskCreateBuilder)
        ensures
            r.data == (TaskCreateData { notes: Some(notes), ..self.data }),
    {
        TaskCreateBuilder { data: TaskCreateData { notes: Some(notes), ..self.data } }
    }

    /// Provide HTML formatted notes.
    pub fn html_notes(self, notes: String) -> (r: TaskCreateBuilder)
        ensures
            r.data == (TaskCreateData { html_notes: Some(notes), ..self.data }),
    {
        TaskCreateBuilder { data: TaskCreateData { html_notes: Some(notes), ..self.data } }
    }

    /// Set the workspace gid.
    pub fn workspace(self, workspace: String) -> (r: TaskCreateBuilder)
        ensures
            r.data == (TaskCreateData { workspace: Some(workspace), ..self.data }),
    {
        TaskCreateBuilder { data: TaskCreateData { workspace: Some(workspace), ..self.data } }
    }

    /// Add a project gid association, once.
    pub fn project(self, project: String) -> (r: TaskCreateBuilder)
        ensures
            crate::strlist::spec_contains_str(self.data.projects.deep_view(), project@)
                ==> r.data.projects.deep_view() == self.data.projects.deep_view(),
            !crate::strlist::spec_contains_str(self.data.projects.deep_view(), project@)
                ==> r.data.projects.deep_view() == self.data.projects.deep_view().push(project@),
            r.data.name == self.data.name && r.data.workspace == self.data.workspace
                && r.data.parent == self.data.parent,
    {
        let mut data = self.data;
        crate::strlist::push_unique(&mut data.projects, project);
        TaskCreateBuilder { data }
    }

    /// Target a specific section gid when creating within a project.
    pub fn section(self, section: String) -> (r: TaskCreateBuilder)
        ensures
            r.data == (TaskCreateData { section: Some(section), ..self.data }),
    {
        TaskCreateBuilder { data: TaskCreateData { section: Some(section), ..self.data } }
    }

    /// Set the parent task gid to create a subtask.
    pub fn parent(self, parent: String) -> (r: TaskCreateBuilder)
        ensures
            r.data == (TaskCreateData { parent: Some(parent), ..self.data }),
    {
        TaskCreateBuilder { data: TaskCreateData { parent: Some(parent), ..self.data } }
    }

    /// Assign the task to a user (gid or email).
    pub fn assignee(self, assignee: String) -> (r: TaskCreateBuilder)
        ensures
            r.data == (TaskCreateData { assignee: Some(assignee), ..self.data }),
    {
        TaskCreateBuilder { data: TaskCreateData { assignee: Some(assignee), ..self.data } }
    }

    /// Set the due date (all day).
    pub fn due_on(self, due_on: String) -> (r: TaskCreateBuilder)
        ensures
            r.data == (TaskCreateData { due_on: Some(due_on), ..self.data }),
    {
        TaskCreateBuilder { data: TaskCreateData { due_on: Some(due_on), ..self.data } }
    }

    /// Set the due timestamp.
    pub fn due_at(self, due_at: String) -> (r: TaskCreateBuilder)
        ensures
            r.data == (TaskCreateData { due_at: Some(due_at), ..self.data }),
    {
        TaskCreateBuilder { data: TaskCreateData { due_at: Some(due_at), ..self.data } }
    }

    /// Set the start date (all day).
    pub fn start_on(self, start_on: String) -> (r: TaskCreateBuilder)
        ensures
            r.data == (TaskCreateData { start_on: Some(start_on), ..self.data }),
    {
        TaskCreateBuilder { data: TaskCreateData { start_on: Some(start_on), ..self.data } }
    }

    /// Set the start timestamp.
    pub fn start_at(self, start_at: String) -> (r: TaskCreateBuilder)
        ensures
            r.data == (TaskCreateData { start_at: Some(start_at), ..self.data }),
    {
        TaskCreateBuilder { data: TaskCreateData { start_at: Some(start_at), ..self.data } }
    }

    /// Add a tag identifier, once.
    pub fn tag(self, tag: String) -> (r: TaskCreateBuilder)
        ensures
            crate::strlist::spec_contains_str(self.data.tags.deep_view(), tag@)
                ==> r.data.tags.deep_view() == self.data.tags.deep_view(),
            !crate::strlist::spec_contains_str(self.data.tags.deep_view(), tag@)
                ==> r.data.tags.deep_view() == self.data.tags.deep_view().push(tag@),
            r.data.name == self.data.name && r.data.workspace == self.data.workspace
                && r.data.projects == self.data.projects && r.data.parent == self.data.parent,
    {
        let mut data = self.data;
        crate::strlist::push_unique(&mut data.tags, tag);
        TaskCreateBuilder { data }
    }

    /// Add a follower identifier, once.
    pub fn follower(self, follower: String) -> (r: TaskCreateBuilder)
        ensures
            crate::strlist::spec_contains_str(self.data.followers.deep_view(), follower@)
                ==> r.data.followers.deep_view() == self.data.followers.deep_view(),
            !crate::strlist::spec_contains_str(self.data.followers.deep_view(), follower@)
                ==> r.data.followers.deep_view() == self.data.followers.deep_view().push(
                follower@,
            ),
            r.data.name == self.data.name && r.data.workspace == self.data.workspace
                && r.data.projects == self.data.projects && r.data.parent == self.data.parent,
    {
        let mut data = self.data;
        crate::strlist::push_unique(&mut data.followers, follower);
        TaskCreateBuilder { data }
    }

    /// Assign a custom field value, given as raw value text.
    pub fn custom_field(self, field_gid: String, value: String) -> (r: TaskCreateBuilder)
        ensures
            r.data.custom_fields@ == self.data.custom_fields@.push((field_gid, value)),
            r.data.name == self.data.name && r.data.workspace == self.data.workspace
                && r.data.projects == self.data.projects && r.data.parent == self.data.parent,
    {
        let mut data = self.data;
        data.custom_fields.push((field_gid, value));
        TaskCreateBuilder { data }
    }

    /// Finalise the builder: the name must not be blank, and the task
    /// needs a scope — a workspace, a project, or a parent.
    pub fn build(self) -> (r: Result<TaskCreateRequest, TaskValidationError>)
        ensures
            spec_is_blank(self.data.name@) ==> r == Err::<TaskCreateRequest, TaskValidationError>(
                TaskValidationError::MissingName,
            ),
            !spec_is_blank(self.data.name@) && self.data.workspace is None
                && self.data.projects@.len() == 0 && self.data.parent is None ==> r == Err::<
                TaskCreateRequest,
                TaskValidationError,
            >(TaskValidationError::MissingScope),
            !spec_is_blank(self.data.name@) && !(self.data.workspace is None
                && self.data.projects@.len() == 0 && self.data.parent is None) ==> (r matches Ok(
                req,
            ) && req.data == self.data),
    {
        if crate::text::is_blank(self.data.name.as_str()) {
            return Err(TaskValidationError::MissingName);
        }
        if self.data.workspace.is_none() && self.data.projects.len() == 0
            && self.data.parent.is_none() {
            return Err(TaskValidationError::MissingScope);
        }
        Ok(TaskCreateRequest { data: self.data })
    }
}

/// Payload for updating existing tasks.
///
/// The doubled `Option` on clearable fields distinguishes three states:
/// absent (leave unchanged), `Some(None)` (clear), `Some(Some(v))` (set).
#[derive(Debug, Clone, PartialEq, Eq)]
pub struct TaskUpdateData {
    /// Task name update.
    pub name: Option<String>,
    /// Plain text notes update.
    pub notes: Option<Option<String>>,
    /// HTML notes update.
    pub html_notes: Option<Option<String>>,
    /// Completion flag change.
    pub completed: Option<bool>,
    /// Assignee change (gid/email) or explicit clearing.
    pub assignee: Option<Option<String>>,
    /// Due date change (all day) or explicit clearing.
    pub due_on: Option<Option<String>>,
    /// Due timestamp change or explicit clearing.
    pub due_at: Option<Option<String>>,
    /// Start date change or explicit clearing.
    pub start_on: Option<Option<String>>,
    /// Start timestamp change or explicit clearing.
    pub start_at: Option<Option<String>>,
    /// Parent assignment or removal.
    pub parent: Option<Option<String>>,
    /// Replace tags with the provided identifiers.
    pub tags: Option<Vec<String>>,
    /// Replace followers with the provided identifiers.
    pub followers: Option<Vec<String>>,
    /// Replace project associations with the provided identifiers.
    pub projects: Option<Vec<String>>,
    /// Custom field updates: field gid and raw value text.
    pub custom_fields: Option<Vec<(String, String)>>,
}

/// Whether a task update payload changes nothing.
pub open spec fn spec_task_update_empty(d: TaskUpdateData) -> bool {
    d.name is None && d.notes is None && d.html_notes is None && d.completed is None
        && d.assignee is None && d.due_on is None && d.due_at is None && d.start_on is None
        && d.start_at is None && d.parent is None && d.tags is None && d.followers is None
        && d.projects is None && d.custom_fields is None
}

impl TaskUpdateData {
    /// Determine whether any fields have been set.
    pub fn is_empty(&self) -> (r: bool)
        ensures
            r == spec_task_update_empty(*self),
    {
        self.name.is_none() && self.notes.is_none() && self.html_notes.is_none()
            && self.completed.is_none() && self.assignee.is_none() && self.due_on.is_none()
            && self.due_at.is_none() && self.start_on.is_none() && self.start_at.is_none()
            && self.parent.is_none() && self.tags.is_none() && self.followers.is_none()
            && self.projects.is_none() && self.custom_fields.is_none()
    }
}

/// API envelope for update requests.
#[derive(Debug, Clone, PartialEq, Eq)]
pub struct TaskUpdateRequest {
    /// Wrapped data payload.
    pub data: TaskUpdateData,
}

/// Builder for constructing validated task update payloads.
#[derive(Debug, Clone)]
pub struct TaskUpdateBuilder {
    /// The payload being accumulated.
    pub data: TaskUpdateData,
}

impl TaskUpdateBuilder {
    /// Create a new empty builder.
    pub fn new() -> (r: TaskUpdateBuilder)
        ensures
            spec_task_update_empty(r.data),
    {
        TaskUpdateBuilder {
            data: TaskUpdateData {
                name: None,
                notes: None,
                html_notes: None,
                completed: None,
                assignee: None,
                due_on: None,
                due_at: None,
                start_on: None,
                start_at: None,
                parent: None,
                tags: None,
                followers: None,
                projects: None,
                custom_fields: None,
            },
        }
    }

    /// Set the task name.
    pub fn name(self, name: String) -> (r: TaskUpdateBuilder)
        ensures
            r.data == (TaskUpdateData { name: Some(name), ..self.data }),
    {
        TaskUpdateBuilder { data: TaskUpdateData { name: Some(name), ..self.data } }
    }

    /// Replace notes with the provided plain text.
    pub fn notes(self, notes: String) -> (r: TaskUpdateBuilder)
        ensures
            r.data == (TaskUpdateData { notes: Some(Some(notes)), ..self.data }),
    {
        TaskUpdateBuilder { data: TaskUpdateData { notes: Some(Some(notes)), ..self.data } }
    }

    /// Clear the plain text notes.
    pub fn clear_notes(self) -> (r: TaskUpdateBuilder)
        ensures
            r.data == (TaskUpdateData { notes: Some(None::<String>), ..self.data }),
    {
        TaskUpdateBuilder { data: TaskUpdateData { notes: Some(None), ..self.data } }
    }

    /// Set HTML formatted notes.
    pub fn html_notes(self, notes: String) -> (r: TaskUpdateBuilder)
        ensures
            r.data == (TaskUpdateData { html_notes: Some(Some(notes)), ..self.data }),
    {
        TaskUpdateBuilder { data: TaskUpdateData { html_notes: Some(Some(notes)), ..self.data } }
    }

    /// Clear HTML notes.
    pub fn clear_html_notes(self) -> (r: TaskUpdateBuilder)
        ensures
            r.data == (TaskUpdateData { html_notes: Some(None::<String>), ..self.data }),
    {
        TaskUpdateBuilder { data: TaskUpdateData { html_notes: Some(None), ..self.data } }
    }

    /// Mark the task completed or incomplete.
    pub fn completed(self, completed: bool) -> (r: TaskUpdateBuilder)
        ensures
            r.data == (TaskUpdateData { completed: Some(completed), ..self.data }),
    {
        TaskUpdateBuilder { data: TaskUpdateData { completed: Some(completed), ..self.data } }
    }

    /// Assign the task.
    pub fn assignee(self, assignee: String) -> (r: TaskUpdateBuilder)
        ensures
            r.data == (TaskUpdateData { assignee: Some(Some(assignee)), ..self.data }),
    {
        TaskUpdateBuilder { data: TaskUpdateData { assignee: Some(Some(assignee)), ..self.data } }
    }

    /// Remove the current assignee.
    pub fn clear_assignee(self) -> (r: TaskUpdateBuilder)
        ensures
            r.data == (TaskUpdateData { assignee: Some(None::<String>), ..self.data }),
    {
        TaskUpdateBuilder { data: TaskUpdateData { assignee: Some(None), ..self.data } }
    }

    /// Set the due date (all day).
    pub fn due_on(self, due_on: String) -> (r: TaskUpdateBuilder)
        ensures
            r.data == (TaskUpdateData { due_on: Some(Some(due_on)), ..self.data }),
    {
        TaskUpdateBuilder { data: TaskUpdateData { due_on: Some(Some(due_on)), ..self.data } }
    }

    /// Clear the due date.
    pub fn clear_due_on(self) -> (r: TaskUpdateBuilder)
        ensures
            r.data == (TaskUpdateData { due_on: Some(None::<String>), ..self.data }),
    {
        TaskUpdateBuilder { data: TaskUpdateData { due_on: Some(None), ..self.data } }
    }

    /// Set the due timestamp.
    pub fn due_at(self, due_at: String) -> (r: TaskUpdateBuilder)
        ensures
            r.data == (TaskUpdateData { due_at: Some(Some(due_at)), ..self.data }),
    {
        TaskUpdateBuilder { data: TaskUpdateData { due_at: Some(Some(due_at)), ..self.data } }
    }

    /// Clear the due timestamp.
    pub fn clear_due_at(self) -> (r: TaskUpdateBuilder)
        ensures
            r.data == (TaskUpdateData { due_at: Some(None::<String>), ..self.data }),
    {
        TaskUpdateBuilder { data: TaskUpdateData { due_at: Some(None), ..self.data } }
    }

    /// Set the start date.
    pub fn start_on(self, start_on: String) -> (r: TaskUpdateBuilder)
        ensures
            r.data == (TaskUpdateData { start_on: Some(Some(start_on)), ..self.data }),
    {
        TaskUpdateBuilder { data: TaskUpdateData { start_on: Some(Some(start_on)), ..self.data } }
    }

    /// Clear the start date.
    pub fn clear_start_on(self) -> (r: TaskUpdateBuilder)
        ensures
            r.data == (TaskUpdateData { start_on: Some(None::<String>), ..self.data }),
    {
        TaskUpdateBuilder { data: TaskUpdateData { start_on: Some(None), ..self.data } }
    }

    /// Set the start timestamp.
    pub fn start_at(self, start_at: String) -> (r: TaskUpdateBuilder)
        ensures
            r.data == (TaskUpdateData { start_at: Some(Some(start_at)), ..self.data }),
    {
        TaskUpdateBuilder { data: TaskUpdateData { start_at: Some(Some(start_at)), ..self.data } }
    }

    /// Clear the start timestamp.
    pub fn clear_start_at(self) -> (r: TaskUpdateBuilder)
        ensures
            r.data == (TaskUpdateData { start_at: Some(None::<String>), ..self.data }),
    {
        TaskUpdateBuilder { data: TaskUpdateData { start_at: Some(None), ..self.data } }
    }

    /// Set the parent task.
    pub fn parent(self, parent: String) -> (r: TaskUpdateBuilder)
        ensures
            r.data == (TaskUpdateData { parent: Some(Some(parent)), ..self.data }),
    {
        TaskUpdateBuilder { data: TaskUpdateData { parent: Some(Some(parent)), ..self.data } }
    }

    /// Remove the parent task.
    pub fn clear_parent(self) -> (r: TaskUpdateBuilder)
        ensures
            r.data == (TaskUpdateData { parent: Some(None::<String>), ..self.data }),
    {
        TaskUpdateBuilder { data: TaskUpdateData { parent: Some(None), ..self.data } }
    }

    /// Replace tags with the provided identifiers, sorted and deduplicated.
    pub fn tags(self, tags: Vec<String>) -> (r: TaskUpdateBuilder)
        ensures
            r.data.tags matches Some(v) && v.deep_view() == crate::strlist::spec_dedup_adjacent(
                tags.deep_view().sort_by(crate::strlist::str_leq()),
            ),
            r.data.name == self.data.name && r.data.followers == self.data.followers
                && r.data.projects == self.data.projects && r.data.custom_fields
                == self.data.custom_fields,
    {
        let values = crate::strlist::sort_dedup_strings(tags);
        TaskUpdateBuilder { data: TaskUpdateData { tags: Some(values), ..self.data } }
    }

    /// Replace followers with the provided identifiers, sorted and
    /// deduplicated.
    pub fn followers(self, followers: Vec<String>) -> (r: TaskUpdateBuilder)
        ensures
            r.data.followers matches Some(v) && v.deep_view()
                == crate::strlist::spec_dedup_adjacent(
                followers.deep_view().sort_by(crate::strlist::str_leq()),
            ),
            r.data.name == self.data.name && r.data.tags == self.data.tags && r.data.projects
                == self.data.projects && r.data.custom_fields == self.data.custom_fields,
    {
        let values = crate::strlist::sort_dedup_strings(followers);
        TaskUpdateBuilder { data: TaskUpdateData { followers: Some(values), ..self.data } }
    }

    /// Replace project associations, sorted and deduplicated.
    pub fn projects(self, projects: Vec<String>) -> (r: TaskUpdateBuilder)
        ensures
            r.data.projects matches Some(v) && v.deep_view()
                == crate::strlist::spec_dedup_adjacent(
                projects.deep_view().sort_by(crate::strlist::str_leq()),
            ),
            r.data.name == self.data.name && r.data.tags == self.data.tags && r.data.followers
                == self.data.followers && r.data.custom_fields == self.data.custom_fields,
    {
        let values = crate::strlist::sort_dedup_strings(projects);
        TaskUpdateBuilder { data: TaskUpdateData { projects: Some(values), ..self.data } }
    }

    /// Set a custom field value, given as raw value text.
    pub fn custom_field(self, field_gid: String, value: String) -> (r: TaskUpdateBuilder)
        ensures
            match self.data.custom_fields {
                Some(cf) => r.data.custom_fields matches Some(v) && v@ == cf@.push(
                    (field_gid, value),
                ),
                None => r.data.custom_fields matches Some(v) && v@ == seq![(field_gid, value)],
            },
            r.data.name == self.data.name && r.data.tags == self.data.tags && r.data.followers
                == self.data.followers && r.data.projects == self.data.projects,
    {
        let mut data = self.data;
        match data.custom_fields {
            Some(mut cf) => {
                cf.push((field_gid, value));
                data.custom_fields = Some(cf);
            },
            None => {
                let mut cf: Vec<(String, String)> = Vec::new();
                cf.push((field_gid, value));
                proof {
                    assert(cf@ =~= seq![(field_gid, value)]);
                }
                data.custom_fields = Some(cf);
            },
        }
        TaskUpdateBuilder { data }
    }

    /// Finalise the builder: at least one field must have been set.
    pub fn build(self) -> (r: Result<TaskUpdateRequest, TaskValidationError>)
        ensures
            spec_task_update_empty(self.data) ==> r == Err::<
                TaskUpdateRequest,
                TaskValidationError,
            >(TaskValidationError::EmptyUpdate),
            !spec_task_update_empty(self.data) ==> (r matches Ok(req) && req.data == self.data),
    {
        if self.data.is_empty() {
            return Err(TaskValidationError::EmptyUpdate);
        }
        Ok(TaskUpdateRequest { data: self.data })
    }
}

/// Errors emitted during task payload validation.
#[derive(Debug, Clone, Copy, PartialEq, Eq, Structural)]
pub enum TaskValidationError {
    /// Task name was missing or blank.
    MissingName,
    /// Workspace or project context missing when creating a task.
    MissingScope,
    /// Update payload did not contain any fields.
    EmptyUpdate,
}

} // verus!

verus! {

/// A task skeleton holding only a gid and a name, as cached listings
/// rebuild entries before the full record is fetched.
pub fn blank_task(gid: String, name: String) -> (r: Task)
    ensures
        r.gid == gid,
        r.name == name,
        r.resource_type is None,
        r.resource_subtype is None,
        r.notes is None,
        r.html_notes is None,
        !r.completed,
        r.completed_at is None,
        r.completed_by is None,
        r.created_at is None,
        r.modified_at is None,
        r.due_on is None,
        r.due_at is None,
        r.start_on is None,
        r.start_at is None,
        r.assignee is None,
        r.assignee_status is None,
        r.workspace is None,
        r.parent is None,
        r.memberships@.len() == 0,
        r.projects@.len() == 0,
        r.tags@.len() == 0,
        r.followers@.len() == 0,
        r.dependencies@.len() == 0,
        r.dependents@.len() == 0,
        r.custom_fields@.len() == 0,
        r.attachments@.len() == 0,
        r.permalink_url is None,
        r.num_subtasks is None,
{
    Task {
        gid,
        name,
        resource_type: None,
        resource_subtype: None,
        notes: None,
        html_notes: None,
        completed: false,
        completed_at: None,
        completed_by: None,
        created_at: None,
        modified_at: None,
        due_on: None,
        due_at: None,
        start_on: None,
        start_at: None,
        assignee: None,
        assignee_status: None,
        workspace: None,
        parent: None,
        memberships: Vec::new(),
        projects: Vec::new(),
        tags: Vec::new(),
        followers: Vec::new(),
        dependencies: Vec::new(),
        dependents: Vec::new(),
        custom_fields: Vec::new(),
        attachments: Vec::new(),
        permalink_url: None,
        num_subtasks: None,
    }
}

} // verus!
