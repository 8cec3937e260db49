use asana_cli::models::task::{TaskCreateBuilder, TaskUpdateBuilder, TaskValidationError};

#[test]
fn create_builder_requires_name() {
    let builder = TaskCreateBuilder::new("  ".to_string());
    let result = builder.build();
    assert_eq!(result.unwrap_err(), TaskValidationError::MissingName);
}

#[test]
fn create_builder_requires_scope() {
    let builder = TaskCreateBuilder::new("Sample task".to_string()).notes("demo".to_string());
    let result = builder.build();
    assert_eq!(result.unwrap_err(), TaskValidationError::MissingScope);
}

#[test]
fn create_builder_success() {
    let builder = TaskCreateBuilder::new("Sample task".to_string())
        .workspace("123".to_string())
        .assignee("me".to_string());
    let request = builder.build().expect("builder should succeed");
    assert_eq!(request.data.name, "Sample task");
    assert_eq!(request.data.workspace.as_deref(), Some("123"));
}

#[test]
fn create_builder_accepts_parent_scope() {
    let request = TaskCreateBuilder::new("Child".to_string())
        .parent("T1".to_string())
        .build()
        .expect("builder should succeed");
    assert_eq!(request.data.parent.as_deref(), Some("T1"));
}

#[test]
fn update_builder_requires_changes() {
    let builder = TaskUpdateBuilder::new();
    let result = builder.build();
    assert_eq!(result.unwrap_err(), TaskValidationError::EmptyUpdate);
}

#[test]
fn update_builder_accepts_changes() {
    let request = TaskUpdateBuilder::new()
        .name("Updated".to_string())
        .completed(true)
        .build()
        .expect("builder should succeed");
    assert_eq!(request.data.name.as_deref(), Some("Updated"));
    assert_eq!(request.data.completed, Some(true));
}

#[test]
fn update_builder_clears_assignee() {
    let request = TaskUpdateBuilder::new()
        .clear_assignee()
        .build()
        .expect("builder should succeed");
    assert_eq!(request.data.assignee, Some(None));
}
