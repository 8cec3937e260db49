use asana_cli::models::story::{
    StoryCreateBuilder, StoryCreateData, StoryUpdateBuilder, StoryValidationError,
};

#[test]
fn create_builder_requires_text() {
    let builder = StoryCreateBuilder {
        data: StoryCreateData {
            text: None,
            html_text: None,
            is_pinned: None,
        },
    };
    assert_eq!(
        builder.build().unwrap_err(),
        StoryValidationError::MissingText
    );
}

#[test]
fn create_builder_rejects_both_formats() {
    let builder = StoryCreateBuilder {
        data: StoryCreateData {
            text: Some("plain".into()),
            html_text: Some("<b>html</b>".into()),
            is_pinned: None,
        },
    };
    assert_eq!(
        builder.build().unwrap_err(),
        StoryValidationError::BothTextFormats
    );
}

#[test]
fn story_create_builder_success() {
    let request = StoryCreateBuilder::new("This is a comment".to_string())
        .pinned(true)
        .build()
        .unwrap();
    assert_eq!(request.data.text.as_deref(), Some("This is a comment"));
    assert_eq!(request.data.is_pinned, Some(true));
}

#[test]
fn story_update_builder_requires_changes() {
    let builder = StoryUpdateBuilder::new();
    assert_eq!(
        builder.build().unwrap_err(),
        StoryValidationError::EmptyUpdate
    );
}

#[test]
fn story_update_builder_accepts_html() {
    let request = StoryUpdateBuilder::new()
        .html_text("<b>edited</b>".to_string())
        .build()
        .unwrap();
    assert_eq!(request.data.html_text.as_deref(), Some("<b>edited</b>"));
}
