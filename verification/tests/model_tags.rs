use asana_cli::models::tag::{TagColor, TagCreateBuilder, TagUpdateBuilder, TagValidationError};

#[test]
fn tag_create_builder_requires_name() {
    let builder = TagCreateBuilder::new("  ".to_string(), "ws-123".to_string());
    let result = builder.build();
    assert_eq!(result.unwrap_err(), TagValidationError::MissingName);
}

#[test]
fn create_builder_requires_workspace() {
    let builder = TagCreateBuilder::new("Important".to_string(), "  ".to_string());
    let result = builder.build();
    assert_eq!(result.unwrap_err(), TagValidationError::MissingWorkspace);
}

#[test]
fn tag_create_builder_success() {
    let builder = TagCreateBuilder::new("Important".to_string(), "ws-123".to_string())
        .color(TagColor::DarkRed)
        .notes("High priority items".to_string());
    let request = builder.build().expect("builder should succeed");
    assert_eq!(request.data.name, "Important");
    assert_eq!(request.data.workspace, "ws-123");
    assert_eq!(request.data.color, Some(TagColor::DarkRed));
}

#[test]
fn tag_update_builder_requires_changes() {
    let builder = TagUpdateBuilder::new();
    let result = builder.build();
    assert_eq!(result.unwrap_err(), TagValidationError::EmptyUpdate);
}

#[test]
fn tag_update_builder_accepts_changes() {
    let request = TagUpdateBuilder::new()
        .name("Updated".to_string())
        .color(TagColor::LightGreen)
        .build()
        .expect("builder should succeed");
    assert_eq!(request.data.name.as_deref(), Some("Updated"));
    assert_eq!(request.data.color, Some(TagColor::LightGreen));
}

#[test]
fn update_builder_clears_notes() {
    let request = TagUpdateBuilder::new()
        .clear_notes()
        .build()
        .expect("builder should succeed");
    assert_eq!(request.data.notes, Some(None));
}

#[test]
fn tag_create_builder_deduplicates_followers() {
    let builder = TagCreateBuilder::new("Important".to_string(), "ws-123".to_string())
        .follower("u1".to_string())
        .follower("u2".to_string())
        .follower("u1".to_string());
    let request = builder.build().expect("builder should succeed");
    assert_eq!(request.data.followers, vec!["u1".to_string(), "u2".to_string()]);
}

#[test]
fn tag_update_builder_sorts_followers() {
    let request = TagUpdateBuilder::new()
        .followers(vec!["z".to_string(), "a".to_string(), "z".to_string()])
        .build()
        .expect("builder should succeed");
    assert_eq!(
        request.data.followers,
        Some(vec!["a".to_string(), "z".to_string()])
    );
}
