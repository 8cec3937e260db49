use asana_cli::models::section::SectionReference;

#[test]
fn section_reference_label_uses_name() {
    let section = SectionReference {
        gid: "123".to_string(),
        name: Some("In Progress".to_string()),
        resource_type: Some("section".to_string()),
    };
    assert_eq!(section.label(), "In Progress");
}

#[test]
fn section_reference_label_fallback_to_gid() {
    let section = SectionReference {
        gid: "456".to_string(),
        name: None,
        resource_type: Some("section".to_string()),
    };
    assert_eq!(section.label(), "456");
}
