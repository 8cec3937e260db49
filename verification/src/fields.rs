//! Default `opt_fields` selections for task fetches.

use vstd::prelude::*;

verus! {

use crate::models::task::TaskListParams;
use crate::strlist::spec_contains_str;

/// The fields every task listing requests.
pub open spec fn spec_listing_defaults() -> Seq<Seq<char>> {
    seq![
        "gid"@,
        "name"@,
        "completed"@,
        "completed_at"@,
        "due_on"@,
        "due_at"@,
        "start_on"@,
        "start_at"@,
        "assignee.name"@,
        "assignee.gid"@,
        "assignee.email"@,
        "resource_type"@,
        "resource_subtype"@,
        "modified_at"@,
        "workspace.name"@,
        "workspace.gid"@,
        "projects.name"@,
        "projects.gid"@,
        "tags.name"@,
        "tags.gid"@,
        "memberships.project.name"@,
        "memberships.project.gid"@,
        "memberships.section.name"@,
        "memberships.section.gid"@,
        "permalink_url"@,
    ]
}

/// The fields every task listing requests.
pub fn listing_defaults() -> (r: Vec<&'static str>)
    ensures
        r.deep_view() =~= spec_listing_defaults(),
{
    let mut v: Vec<&'static str> = Vec::new();
    v.push("gid");
    v.push("name");
    v.push("completed");
    v.push("completed_at");
    v.push("due_on");
    v.push("due_at");
    v.push("start_on");
    v.push("start_at");
    v.push("assignee.name");
    v.push("assignee.gid");
    v.push("assignee.email");
    v.push("resource_type");
    v.push("resource_subtype");
    v.push("modified_at");
    v.push("workspace.name");
    v.push("workspace.gid");
    v.push("projects.name");
    v.push("projects.gid");
    v.push("tags.name");
    v.push("tags.gid");
    v.push("memberships.project.name");
    v.push("memberships.project.gid");
    v.push("memberships.section.name");
    v.push("memberships.section.gid");
    v.push("permalink_url");
    proof {
        assert(v.deep_view() =~= spec_listing_defaults());
    }
    v
}

/// The fields a task detail view requests.
pub open spec fn spec_detail_defaults() -> Seq<Seq<char>> {
    seq![
        "gid"@,
        "name"@,
        "completed"@,
        "completed_at"@,
        "due_on"@,
        "due_at"@,
        "start_on"@,
        "start_at"@,
        "notes"@,
        "html_notes"@,
        "assignee"@,
        "assignee_status"@,
        "assignee.name"@,
        "assignee.email"@,
        "completed_by"@,
        "created_at"@,
        "modified_at"@,
        "workspace"@,
        "workspace.name"@,
        "workspace.gid"@,
        "parent"@,
        "projects"@,
        "projects.name"@,
        "projects.gid"@,
        "memberships"@,
        "tags"@,
        "followers"@,
        "followers.name"@,
        "followers.email"@,
        "dependencies"@,
        "dependents"@,
        "custom_fields"@,
        "attachments"@,
        "permalink_url"@,
        "resource_subtype"@,
        "assignee.gid"@,
    ]
}

/// The fields a task detail view requests.
pub fn detail_defaults() -> (r: Vec<&'static str>)
    ensures
        r.deep_view() =~= spec_detail_defaults(),
{
    let mut v: Vec<&'static str> = Vec::new();
    v.push("gid");
    v.push("name");
    v.push("completed");
    v.push("completed_at");
    v.push("due_on");
    v.push("due_at");
    v.push("start_on");
    v.push("start_at");
    v.push("notes");
    v.push("html_notes");
    v.push("assignee");
    v.push("assignee_status");
    v.push("assignee.name");
    v.push("assignee.email");
    v.push("completed_by");
    v.push("created_at");
    v.push("modified_at");
    v.push("workspace");
    v.push("workspace.name");
    v.push("workspace.gid");
    v.push("parent");
    v.push("projects");
    v.push("projects.name");
    v.push("projects.gid");
    v.push("memberships");
    v.push("tags");
    v.push("followers");
    v.push("followers.name");
    v.push("followers.email");
    v.push("dependencies");
    v.push("dependents");
    v.push("custom_fields");
    v.push("attachments");
    v.push("permalink_url");
    v.push("resource_subtype");
    v.push("assignee.gid");
    proof {
        assert(v.deep_view() =~= spec_detail_defaults());
    }
    v
}

/// Add each listed field to a field set, once.
pub fn add_fields(fields: &mut Vec<String>, defaults: &Vec<&'static str>)
    ensures
        forall|i: int|
            0 <= i < defaults@.len() ==> spec_contains_str(
                final(fields).deep_view(),
                #[trigger] defaults@[i]@,
            ),
{
    let mut i: usize = 0;
    while i < defaults.len()
        invariant
            0 <= i <= defaults@.len(),
            forall|j: int|
                0 <= j < i ==> spec_contains_str(fields.deep_view(), #[trigger] defaults@[j]@),
        decreases defaults@.len() - i,
    {
        let ghost before = fields.deep_view();
        crate::strlist::push_unique(fields, crate::strlist::copy_string(defaults[i]));
        proof {
            if crate::strlist::spec_contains_str(before, defaults@[i as int]@) {
                assert(fields.deep_view() == before);
            } else {
                assert(fields.deep_view() == before.push(defaults@[i as int]@));
                assert(fields.deep_view()[before.len() as int] == defaults@[i as int]@);
            }
            assert(spec_contains_str(fields.deep_view(), defaults@[i as int]@));
            assert forall|j: int| 0 <= j < i implies spec_contains_str(
                fields.deep_view(),
                #[trigger] defaults@[j]@,
            ) by {
                lemma_contains_monotone(before, fields.deep_view(), defaults@[j]@);
            }
        }
        i = i + 1;
    }
}

proof fn lemma_contains_monotone(before: Seq<Seq<char>>, after: Seq<Seq<char>>, x: Seq<char>)
    requires
        after == before || exists|y: Seq<char>| after == before.push(y),
        spec_contains_str(before, x),
    ensures
        spec_contains_str(after, x),
{
    let i = choose|i: int| 0 <= i < before.len() && before[i] == x;
    if after != before {
        let y = choose|y: Seq<char>| after == before.push(y);
        assert(after[i] == x);
    } else {
        assert(after[i] == x);
    }
}

/// Ensure a task listing requests its default fields.
pub fn ensure_default_fields(params: &mut TaskListParams)
    ensures
        forall|i: int|
            0 <= i < spec_listing_defaults().len() ==> spec_contains_str(
                final(params).fields.deep_view(),
                #[trigger] spec_listing_defaults()[i],
            ),
        final(params).workspace == old(params).workspace,
        final(params).project == old(params).project,
        final(params).limit == old(params).limit,
        final(params).sort == old(params).sort,
        final(params).completed == old(params).completed,
        final(params).due_before == old(params).due_before,
        final(params).due_after == old(params).due_after,
{
    let defaults = listing_defaults();
    add_fields(&mut params.fields, &defaults);
    proof {
        assert forall|i: int| 0 <= i < spec_listing_defaults().len() implies spec_contains_str(
            params.fields.deep_view(),
            #[trigger] spec_listing_defaults()[i],
        ) by {
            assert(defaults.deep_view()[i] == spec_listing_defaults()[i]);
            assert(defaults@[i]@ == defaults.deep_view()[i]);
        }
    }
}

/// Give an empty subtask field set its defaults: gid, name, completion,
/// and the assignee's name.
pub fn ensure_subtask_fields(fields: &mut Vec<String>)
    ensures
        old(fields)@.len() > 0 ==> final(fields)@ == old(fields)@,
        old(fields)@.len() == 0 ==> final(fields).deep_view() =~= seq![
            "gid"@,
            "name"@,
            "completed"@,
            "assignee.name"@,
        ],
{
    if fields.len() == 0 {
        fields.push(crate::strlist::copy_string("gid"));
        fields.push(crate::strlist::copy_string("name"));
        fields.push(crate::strlist::copy_string("completed"));
        fields.push(crate::strlist::copy_string("assignee.name"));
        proof {
            assert(fields.deep_view() =~= seq!["gid"@, "name"@, "completed"@, "assignee.name"@]);
        }
    }
}

} // verus!

verus! {

use crate::models::project::ProjectListParams;

/// The fields every project listing requests.
pub open spec fn spec_project_listing_defaults() -> Seq<Seq<char>> {
    seq![
        "gid"@,
        "name"@,
        "archived"@,
        "color"@,
        "created_at"@,
        "modified_at"@,
        "workspace.name"@,
        "workspace.gid"@,
        "team.name"@,
        "team.gid"@,
        "owner.name"@,
        "owner.gid"@,
        "due_on"@,
        "start_on"@,
    ]
}

/// The fields every project listing requests.
pub fn project_listing_defaults() -> (r: Vec<&'static str>)
    ensures
        r.deep_view() =~= spec_project_listing_defaults(),
{
    let mut v: Vec<&'static str> = Vec::new();
    v.push("gid");
    v.push("name");
    v.push("archived");
    v.push("color");
    v.push("created_at");
    v.push("modified_at");
    v.push("workspace.name");
    v.push("workspace.gid");
    v.push("team.name");
    v.push("team.gid");
    v.push("owner.name");
    v.push("owner.gid");
    v.push("due_on");
    v.push("start_on");
    proof {
        assert(v.deep_view() =~= spec_project_listing_defaults());
    }
    v
}

/// Ensure a project listing requests its default fields.
pub fn ensure_project_default_fields(params: &mut ProjectListParams)
    ensures
        forall|i: int|
            0 <= i < spec_project_listing_defaults().len() ==> spec_contains_str(
                final(params).fields.deep_view(),
                #[trigger] spec_project_listing_defaults()[i],
            ),
        final(params).workspace == old(params).workspace,
        final(params).team == old(params).team,
        final(params).archived == old(params).archived,
        final(params).limit == old(params).limit,
        final(params).sort == old(params).sort,
{
    let defaults = project_listing_defaults();
    add_fields(&mut params.fields, &defaults);
    proof {
        assert forall|i: int|
            0 <= i < spec_project_listing_defaults().len() implies spec_contains_str(
            params.fields.deep_view(),
            #[trigger] spec_project_listing_defaults()[i],
        ) by {
            assert(defaults.deep_view()[i] == spec_project_listing_defaults()[i]);
            assert(defaults@[i]@ == defaults.deep_view()[i]);
        }
    }
}

} // verus!
