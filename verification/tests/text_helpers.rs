use asana_cli::config::{effective_api_base_url, FileConfig};
use asana_cli::filters::{parse_filter, parse_sort};
use asana_cli::models::project::{ProjectFilter, ProjectSort};
use asana_cli::models::tag::TagColor;
use asana_cli::models::task::{TaskListParams, TaskReference, TaskSearchParams, TaskSort};
use asana_cli::num::{parse_retry_after_millis, u64_to_decimal};
use asana_cli::output::{parse_task_output_format, TaskOutputFormat};
use asana_cli::templates::{apply_template_variables, is_template_file, normalize, substitute};
use asana_cli::models::task::{Task, TaskValidationError};
use asana_cli::sorting::sort_tasks;
use asana_cli::textutil::{
    detect_batch_format, format_color, format_task_refs, fuzzy_score, levenshtein,
    map_validation_error, resolve_assignee, split_list_string, BatchFormat,
};

#[test]
fn split_list_trims_and_drops_empties() {
    assert_eq!(
        split_list_string("a, b;; c ,"),
        vec!["a".to_string(), "b".to_string(), "c".to_string()]
    );
    assert_eq!(split_list_string("  "), Vec::<String>::new());
}

#[test]
fn batch_format_detection() {
    assert_eq!(detect_batch_format("tasks.json"), Ok(BatchFormat::Json));
    assert_eq!(detect_batch_format("tasks.CSV"), Ok(BatchFormat::Csv));
    assert!(detect_batch_format("tasks.txt").is_err());
    assert!(detect_batch_format("noextension").is_err());
}

#[test]
fn validation_errors_render_with_context() {
    assert_eq!(
        map_validation_error(&TaskValidationError::MissingName, "create batch"),
        "task name is required to create batch"
    );
    assert_eq!(
        map_validation_error(&TaskValidationError::EmptyUpdate, "update"),
        "no fields were updated"
    );
}

#[test]
fn assignee_resolution() {
    let configured = Some("user-42".to_string());
    // explicit values win
    assert_eq!(
        resolve_assignee(Some("u9".to_string()), &configured, false),
        Some("u9".to_string())
    );
    // "me" resolves to the configured default
    assert_eq!(
        resolve_assignee(Some("ME".to_string()), &configured, false),
        Some("user-42".to_string())
    );
    // blank input resolves to nothing
    assert_eq!(resolve_assignee(Some("   ".to_string()), &configured, false), None);
    // absent input falls back to the default, then to "me"
    assert_eq!(resolve_assignee(None, &configured, false), Some("user-42".to_string()));
    assert_eq!(resolve_assignee(None, &None, true), Some("me".to_string()));
    assert_eq!(resolve_assignee(None, &None, false), None);
}

#[test]
fn task_refs_render_as_lines() {
    let refs = vec![
        TaskReference {
            gid: "1".to_string(),
            name: Some("Write docs".to_string()),
            resource_type: None,
        },
        TaskReference { gid: "2".to_string(), name: None, resource_type: None },
    ];
    assert_eq!(format_task_refs(&refs), "- Write docs (1)\n- 2 (2)\n");
}

#[test]
fn tag_colors_have_slugs() {
    assert_eq!(format_color(TagColor::DarkWarmGray), "dark-warm-gray");
    assert_eq!(format_color(TagColor::Unknown), "unknown");
}

#[test]
fn sort_expressions_parse() {
    assert_eq!(parse_sort(None), Ok(None));
    assert_eq!(parse_sort(Some(" Name ")), Ok(Some(ProjectSort::Name)));
    assert_eq!(parse_sort(Some("created")), Ok(Some(ProjectSort::CreatedAt)));
    assert!(parse_sort(Some("height")).is_err());

    assert_eq!(asana_cli::textutil::parse_sort(Some("due_on")), Ok(Some(TaskSort::DueOn)));
    assert_eq!(
        asana_cli::textutil::parse_sort(Some("assignee")),
        Ok(Some(TaskSort::Assignee))
    );
    assert!(asana_cli::textutil::parse_sort(Some("Name")).is_err());
}

#[test]
fn filter_expressions_parse() {
    assert_eq!(
        parse_filter("name = Demo "),
        Ok(ProjectFilter::Equals("name".to_string(), "Demo".to_string()))
    );
    assert_eq!(
        parse_filter("color != red"),
        Ok(ProjectFilter::NotEquals("color".to_string(), "red".to_string()))
    );
    assert_eq!(
        parse_filter("name ~ ^Demo.*$"),
        Ok(ProjectFilter::Regex("name".to_string(), "^Demo.*$".to_string()))
    );
    assert_eq!(
        parse_filter("notes: urgent"),
        Ok(ProjectFilter::Contains("notes".to_string(), "urgent".to_string()))
    );
    assert!(parse_filter("").is_err());
    assert!(parse_filter("just words").is_err());
    assert!(parse_filter("name ~ (").is_err());
}

#[test]
fn template_names_normalize() {
    assert_eq!(normalize("  Standard Project!  "), "standardproject");
    assert_eq!(normalize("My_template-1"), "my_template-1");
}

#[test]
fn substitutes_placeholders() {
    let mut data = asana_cli::models::project::ProjectCreateData {
        name: "{{project_name}}".into(),
        workspace: None,
        team: None,
        notes: Some("Owned by {{owner}}".into()),
        color: None,
        start_on: None,
        due_on: None,
        public: None,
        owner: None,
        members: vec!["{{owner}}".into()],
        custom_fields: Vec::new(),
    };
    let vars = vec![
        ("project_name".to_string(), "Alpha".to_string()),
        ("owner".to_string(), "owner@example.com".to_string()),
    ];
    data = apply_template_variables(data, &vars);
    assert_eq!(data.name, "Alpha");
    assert_eq!(data.notes.as_deref(), Some("Owned by owner@example.com"));
    assert_eq!(data.members, vec!["owner@example.com"]);
}

#[test]
fn substitute_replaces_every_token() {
    let vars = vec![("k".to_string(), "v".to_string())];
    assert_eq!(substitute("{{k}} and {{k}}", &vars), "v and v");
    assert_eq!(substitute("no tokens", &vars), "no tokens");
}

#[test]
fn template_file_names() {
    assert!(is_template_file("standard_project.toml"));
    assert!(is_template_file("x.tpl"));
    assert!(is_template_file("x.template"));
    assert!(!is_template_file("readme.md"));
    assert!(!is_template_file("noext"));
    assert!(!is_template_file(".toml"));
}

#[test]
fn decimal_and_retry_after_parsing() {
    assert_eq!(u64_to_decimal(0), "0");
    assert_eq!(u64_to_decimal(1700000300), "1700000300");
    assert_eq!(parse_retry_after_millis("2"), Some(2000));
    assert_eq!(parse_retry_after_millis("0.1"), Some(100));
    assert_eq!(parse_retry_after_millis("1.2345"), Some(1234));
    assert_eq!(parse_retry_after_millis(".5"), Some(500));
    assert_eq!(parse_retry_after_millis("5."), Some(5000));
    assert_eq!(parse_retry_after_millis("-1"), None);
    assert_eq!(parse_retry_after_millis("abc"), None);
    assert_eq!(parse_retry_after_millis(""), None);
}

#[test]
fn output_formats_parse_and_name() {
    assert_eq!(parse_task_output_format("JSON"), Ok(TaskOutputFormat::Json));
    assert_eq!(parse_task_output_format("md"), Ok(TaskOutputFormat::Markdown));
    assert!(parse_task_output_format("yaml").is_err());
    assert_eq!(TaskOutputFormat::Csv.as_str(), "csv");
}

#[test]
fn effective_base_url_precedence() {
    let mut file = FileConfig::empty();
    assert_eq!(
        effective_api_base_url(&None, &file),
        "https://app.asana.com/api/1.0"
    );
    file.api_base_url = Some("https://file.test".to_string());
    assert_eq!(effective_api_base_url(&None, &file), "https://file.test");
    assert_eq!(
        effective_api_base_url(&Some("https://env.test".to_string()), &file),
        "https://env.test"
    );
}

#[test]
fn task_queries_render_expected_pairs() {
    let mut list = TaskListParams {
        workspace: Some("W1".to_string()),
        project: None,
        section: None,
        assignee: Some("me".to_string()),
        completed_since: None,
        modified_since: None,
        due_on: None,
        include_subtasks: false,
        limit: None,
        fields: vec!["name".to_string(), "gid".to_string(), "name".to_string()],
        sort: None,
        completed: None,
        due_before: None,
        due_after: None,
    };
    let q = list.to_query();
    assert_eq!(
        q,
        vec![
            ("workspace".to_string(), "W1".to_string()),
            ("assignee".to_string(), "me".to_string()),
            // fields are canonicalized: sorted and deduplicated
            ("opt_fields".to_string(), "gid,name".to_string()),
        ]
    );
    list.fields.clear();
    assert_eq!(
        list.to_query(),
        vec![
            ("workspace".to_string(), "W1".to_string()),
            ("assignee".to_string(), "me".to_string()),
        ]
    );

    let search = TaskSearchParams {
        workspace: "W1".to_string(),
        text: Some("roadmap".to_string()),
        resource_subtype: None,
        completed: Some(false),
        is_subtask: None,
        is_blocked: None,
        has_attachment: None,
        assignee: None,
        projects: vec!["P1".to_string(), "P2".to_string()],
        sections: Vec::new(),
        tags: Vec::new(),
        created_after: None,
        created_before: None,
        modified_after: None,
        modified_before: None,
        due_after: None,
        due_before: None,
        sort_by: Some("due_on".to_string()),
        sort_ascending: true,
        limit: None,
        fields: Vec::new(),
    };
    assert_eq!(
        search.to_query(),
        vec![
            ("text".to_string(), "roadmap".to_string()),
            ("completed".to_string(), "false".to_string()),
            ("projects.any".to_string(), "P1".to_string()),
            ("projects.any".to_string(), "P2".to_string()),
            ("sort_by".to_string(), "due_on".to_string()),
            ("sort_ascending".to_string(), "true".to_string()),
        ]
    );
}

#[test]
fn post_filters_apply_in_order() {
    fn blank(gid: &str, completed: bool, due_on: Option<&str>) -> Task {
        Task {
            gid: gid.to_string(),
            name: gid.to_string(),
            resource_type: None,
            resource_subtype: None,
            notes: None,
            html_notes: None,
            completed,
            completed_at: None,
            completed_by: None,
            created_at: None,
            modified_at: None,
            due_on: due_on.map(|d| d.to_string()),
            due_at: None,
            start_on: None,
            start_at: None,
            assignee: None,
            assignee_status: None,
            workspace: None,
            parent: None,
            memberships: Vec::new(),
            projects: Vec::new(),
            tags: Vec::new(),
            followers: Vec::new(),
            dependencies: Vec::new(),
            dependents: Vec::new(),
            custom_fields: Vec::new(),
            attachments: Vec::new(),
            permalink_url: None,
            num_subtasks: None,
        }
    }
    let params = TaskListParams {
        workspace: None,
        project: None,
        section: None,
        assignee: None,
        completed_since: None,
        modified_since: None,
        due_on: None,
        include_subtasks: false,
        limit: None,
        fields: Vec::new(),
        sort: None,
        completed: Some(false),
        due_before: Some("2024-06-30".to_string()),
        due_after: Some("2024-06-01".to_string()),
    };
    let mut tasks = vec![
        blank("keep", false, Some("2024-06-15")),
        blank("done", true, Some("2024-06-15")),
        blank("late", false, Some("2024-07-01")),
        blank("none", false, None),
    ];
    params.apply_post_filters(&mut tasks);
    assert_eq!(tasks.len(), 1);
    assert_eq!(tasks[0].gid, "keep");
}

#[test]
fn levenshtein_distances() {
    assert_eq!(levenshtein("kitten", "sitting"), 3);
    assert_eq!(levenshtein("", "abc"), 3);
    assert_eq!(levenshtein("abc", ""), 3);
    assert_eq!(levenshtein("same", "same"), 0);
    assert_eq!(levenshtein("flaw", "lawn"), 2);
}

#[test]
fn fuzzy_scores() {
    // a blank query matches everything at score zero
    assert_eq!(fuzzy_score("anything", "   "), Some(0));
    // a case-insensitive substring match scores by position
    assert_eq!(fuzzy_score("Fix Deployment", "deploy"), Some(500 - 4));
    assert_eq!(fuzzy_score("deployment", "deploy"), Some(500));
    // close misses score by edit distance
    assert_eq!(fuzzy_score("kitten", "sittin"), Some(4));
    // hopeless queries give no score
    assert_eq!(fuzzy_score("ab", "xy"), None);
}

#[test]
fn task_sorting_orders_by_key() {
    fn named(gid: &str, name: &str, due_on: Option<&str>, due_at: Option<&str>) -> Task {
        let mut t = asana_cli::models::task::blank_task(gid.to_string(), name.to_string());
        t.due_on = due_on.map(|d| d.to_string());
        t.due_at = due_at.map(|d| d.to_string());
        t
    }
    let tasks = vec![
        named("1", "zeta", Some("2024-06-02"), None),
        named("2", "Alpha", Some("2024-06-01"), Some("T10")),
        named("3", "beta", None, None),
        named("4", "alpha2", Some("2024-06-01"), Some("T09")),
    ];
    let by_name = sort_tasks(tasks.clone(), TaskSort::Name);
    let names: Vec<&str> = by_name.iter().map(|t| t.name.as_str()).collect();
    assert_eq!(names, vec!["Alpha", "alpha2", "beta", "zeta"]);

    let by_due = sort_tasks(tasks, TaskSort::DueOn);
    let gids: Vec<&str> = by_due.iter().map(|t| t.gid.as_str()).collect();
    // no due date first, then by date, ties broken by the timestamp
    assert_eq!(gids, vec!["3", "4", "2", "1"]);
}
