use asana_cli::models::project::{Project, ProjectFilter, ProjectUpdateData};
use asana_cli::models::user::UserReference;
use asana_cli::models::workspace::WorkspaceReference;

fn sample_project() -> Project {
    Project {
        gid: "P1".into(),
        name: "Demo Project".into(),
        resource_type: None,
        notes: Some("Demo".into()),
        color: None,
        archived: false,
        public: Some(true),
        due_on: None,
        start_on: None,
        created_at: None,
        modified_at: None,
        workspace: Some(WorkspaceReference {
            gid: "W1".into(),
            name: Some("Engineering".into()),
            resource_type: None,
        }),
        team: None,
        owner: Some(UserReference {
            gid: "U1".into(),
            name: Some("Owner".into()),
            resource_type: None,
            email: Some("owner@example.com".into()),
        }),
        members: Vec::new(),
        statuses: Vec::new(),
        custom_fields: Vec::new(),
    }
}

#[test]
fn update_data_is_empty_when_no_fields_set() {
    let mut data = ProjectUpdateData {
        name: None,
        notes: None,
        color: None,
        start_on: None,
        due_on: None,
        archived: None,
        public: None,
        owner: None,
    };
    assert!(data.is_empty());
    data.archived = Some(true);
    assert!(!data.is_empty());
}

#[test]
fn equals_filter_matches_project_name() {
    let project = sample_project();
    let filter = ProjectFilter::Equals("name".into(), "Demo Project".into());
    assert!(filter.matches(&project));
}

#[test]
fn regex_filter_matches_owner_email() {
    let project = sample_project();
    let filter = ProjectFilter::Regex("owner.email".into(), r"(?i)owner@example\.com".into());
    assert!(filter.matches(&project));
}

#[test]
fn contains_filter_is_case_insensitive() {
    let project = sample_project();
    let filter = ProjectFilter::Contains("name".into(), "demo".into());
    assert!(filter.matches(&project));
}

#[test]
fn invalid_regex_matches_nothing() {
    let project = sample_project();
    let filter = ProjectFilter::Regex("name".into(), "(".into());
    assert!(!filter.matches(&project));
}
