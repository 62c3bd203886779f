use docgen::documents::{Basics, Profile, Resume};
use docgen::transform::{transform_resume, ToJson};

fn test_resume(name: &str, section_order: Option<Vec<String>>) -> Resume {
    Resume {
        basics: Basics {
            name: name.to_string(),
            email: "test@example.com".to_string(),
            phone: None,
            location: None,
            summary: None,
            profiles: vec![],
        },
        work: vec![],
        education: vec![],
        skills: vec![],
        projects: vec![],
        certifications: vec![],
        awards: vec![],
        languages: vec![],
        publications: None,
        section_order,
    }
}

#[test]
fn test_transform_resume() {
    let source = transform_resume(&test_resume("Test User", None));
    assert!(source.contains("#let resume(data) = {"));
    assert!(source.contains("Test User"));
    assert!(source.contains("test@example.com"));
    assert!(source.contains("#resume(json-data)"));
}

#[test]
fn test_transform_with_section_order() {
    let order = vec!["experience".to_string(), "education".to_string(), "skills".to_string()];
    let source = transform_resume(&test_resume("Test User", Some(order)));
    assert!(source.contains("sectionOrder"));
    assert!(source.contains("experience"));
}

#[test]
fn resume_json_is_compact_and_skips_absent_fields() {
    let json = test_resume("Test User", None).to_json();
    assert_eq!(json, r#"{"basics":{"name":"Test User","email":"test@example.com"},"work":[]}"#);
}

#[test]
fn strings_are_escaped() {
    let p = Profile { network: "Git\"Hub".to_string(), url: "a\\b".to_string() };
    assert_eq!(p.to_json(), r#"{"network":"Git\"Hub","url":"a\\b"}"#);
}

#[test]
fn fence_is_five_backticks_by_default() {
    let source = transform_resume(&test_resume("Test User", None));
    assert!(source.contains("#let json-string = `````\n{"));
    assert!(!source.contains("``````"));
}

#[test]
fn fence_grows_past_backticks_in_content() {
    let source = transform_resume(&test_resume("a``````b", None));
    assert!(source.contains("#let json-string = ```````\n{"));
    assert!(source.contains("\n```````.text"));
}

#[test]
fn control_characters_are_escaped() {
    let p = Profile { network: "a\tb\u{1}".to_string(), url: "\u{8}\u{1f}é".to_string() };
    assert_eq!(p.to_json(), "{\"network\":\"a\\tb\\u0001\",\"url\":\"\\b\\u001fé\"}");
}
