use docgen::generation::{prepare_generation, GenerationResult, GenerationStep};
use docgen::json::JsonValue;
use docgen::validation::{validate_resume, ValidationError, ValidationResult};

fn s(text: &str) -> JsonValue {
    JsonValue::Str(text.to_string())
}

fn obj(members: Vec<(&str, JsonValue)>) -> JsonValue {
    JsonValue::Object(members.into_iter().map(|(k, v)| (k.to_string(), v)).collect())
}

fn arr(items: Vec<JsonValue>) -> JsonValue {
    JsonValue::Array(items)
}

fn john_basics() -> JsonValue {
    obj(vec![("name", s("John Doe")), ("email", s("john@example.com"))])
}

fn errors_of(result: ValidationResult) -> Vec<ValidationError> {
    match result {
        ValidationResult::Invalid { errors } => errors,
        ValidationResult::Valid { .. } => panic!("Expected invalid result"),
    }
}

#[test]
fn test_validate_valid_resume() {
    let input = obj(vec![(
        "resume",
        obj(vec![
            ("basics", john_basics()),
            (
                "work",
                arr(vec![obj(vec![("company", s("Tech Corp")), ("position", s("Engineer"))])]),
            ),
        ]),
    )]);
    match validate_resume(input) {
        ValidationResult::Valid { resume } => {
            assert_eq!(resume.basics.name, "John Doe");
            assert_eq!(resume.basics.email, "john@example.com");
        }
        ValidationResult::Invalid { errors } => {
            panic!("Expected valid result, got errors: {:?}", errors);
        }
    }
}

#[test]
fn test_validate_missing_basics() {
    let input = obj(vec![("resume", obj(vec![("work", arr(vec![]))]))]);
    let errors = errors_of(validate_resume(input));
    assert!(!errors.is_empty());
    assert!(errors[0].message.contains("basics") || errors[0].path.contains("basics"));
}

#[test]
fn test_validate_missing_required_fields_in_basics() {
    let input = obj(vec![(
        "resume",
        obj(vec![("basics", obj(vec![("name", s("John Doe"))])), ("work", arr(vec![]))]),
    )]);
    let errors = errors_of(validate_resume(input));
    assert!(!errors.is_empty());
    let error_text = format!("{:?}", errors);
    assert!(error_text.contains("email"), "Expected error about missing email: {}", error_text);
}

#[test]
fn test_validate_missing_work() {
    // List sections default to empty: a document without `work` is valid.
    let input = obj(vec![("resume", obj(vec![("basics", john_basics())]))]);
    match validate_resume(input) {
        ValidationResult::Valid { resume } => assert!(resume.work.is_empty()),
        ValidationResult::Invalid { errors } => {
            panic!("Expected valid result, got errors: {:?}", errors);
        }
    }
}

#[test]
fn test_validate_wrong_type_for_work() {
    let input = obj(vec![(
        "resume",
        obj(vec![("basics", john_basics()), ("work", s("not an array"))]),
    )]);
    let errors = errors_of(validate_resume(input));
    assert!(!errors.is_empty());
    assert!(errors[0].message.contains("invalid type") || errors[0].message.contains("expected"));
}

#[test]
fn test_validate_missing_required_in_work_entry() {
    let input = obj(vec![(
        "resume",
        obj(vec![
            ("basics", john_basics()),
            ("work", arr(vec![obj(vec![("company", s("Tech Corp"))])])),
        ]),
    )]);
    let errors = errors_of(validate_resume(input));
    assert!(!errors.is_empty());
    let error_text = format!("{:?}", errors);
    assert!(error_text.contains("position"), "Expected error about missing position: {}", error_text);
}

#[test]
fn test_validate_empty_work_array_is_valid() {
    let input = obj(vec![(
        "resume",
        obj(vec![("basics", john_basics()), ("work", arr(vec![]))]),
    )]);
    match validate_resume(input) {
        ValidationResult::Valid { resume } => assert!(resume.work.is_empty()),
        ValidationResult::Invalid { errors } => {
            panic!("Expected valid result, got errors: {:?}", errors);
        }
    }
}

#[test]
fn test_validate_invalid_tool_input() {
    let input = obj(vec![("basics", john_basics()), ("work", arr(vec![]))]);
    let errors = errors_of(validate_resume(input));
    assert!(!errors.is_empty());
    assert!(errors[0].message.contains("resume"));
}

#[test]
fn test_generate_resume_invalid() {
    let input = obj(vec![(
        "resume",
        obj(vec![("basics", obj(vec![("name", s("John Doe"))])), ("work", arr(vec![]))]),
    )]);
    match prepare_generation(input, None) {
        GenerationStep::Done {
            result: GenerationResult::Error { message, validation_errors },
        } => {
            assert!(message.contains("Validation failed"));
            assert!(validation_errors.is_some());
        }
        _ => panic!("Expected error for invalid input"),
    }
}

#[test]
fn missing_email_is_located_under_basics() {
    let input = obj(vec![(
        "resume",
        obj(vec![("basics", obj(vec![("name", s("Jane"))])), ("work", arr(vec![]))]),
    )]);
    let errors = errors_of(validate_resume(input));
    assert_eq!(errors.len(), 1);
    assert_eq!(errors[0].path, "basics.email");
    assert_eq!(errors[0].message, "Missing required field: email");
}

#[test]
fn missing_basics_scenario_names_basics() {
    let input = obj(vec![("resume", obj(vec![("work", arr(vec![]))]))]);
    let errors = errors_of(validate_resume(input));
    assert_eq!(errors.len(), 1);
    assert_eq!(errors[0].path, "basics");
    assert_eq!(errors[0].message, "Missing required field: basics");
}

#[test]
fn work_as_string_is_a_type_mismatch() {
    let input = obj(vec![(
        "resume",
        obj(vec![("basics", john_basics()), ("work", s("not an array"))]),
    )]);
    let errors = errors_of(validate_resume(input));
    assert_eq!(errors[0].path, "work");
    assert_eq!(errors[0].message, "invalid type: string, expected a list");
}

#[test]
fn minimal_document_echoes_empty_sections() {
    let input = obj(vec![(
        "resume",
        obj(vec![("basics", john_basics()), ("work", arr(vec![]))]),
    )]);
    match validate_resume(input) {
        ValidationResult::Valid { resume } => {
            assert!(resume.work.is_empty());
            assert!(resume.education.is_empty());
            assert!(resume.skills.is_empty());
            assert!(resume.projects.is_empty());
            assert!(resume.certifications.is_empty());
            assert!(resume.awards.is_empty());
            assert!(resume.languages.is_empty());
            assert!(resume.basics.profiles.is_empty());
            assert!(resume.publications.is_none());
            assert!(resume.section_order.is_none());
        }
        ValidationResult::Invalid { errors } => panic!("unexpected errors: {:?}", errors),
    }
}

#[test]
fn nested_error_path_carries_the_index() {
    let input = obj(vec![(
        "resume",
        obj(vec![
            ("basics", john_basics()),
            (
                "work",
                arr(vec![
                    obj(vec![("company", s("A")), ("position", s("B"))]),
                    obj(vec![("company", s("C")), ("position", JsonValue::Number("7".to_string()))]),
                ]),
            ),
        ]),
    )]);
    let errors = errors_of(validate_resume(input));
    assert_eq!(errors[0].path, "work[1].position");
    assert_eq!(errors[0].message, "invalid type: number, expected a string");
}

#[test]
fn profile_errors_are_located_in_basics() {
    let basics = obj(vec![
        ("name", s("A")),
        ("email", s("a@b.c")),
        ("profiles", arr(vec![obj(vec![("network", s("GitHub"))])])),
    ]);
    let input = obj(vec![("resume", obj(vec![("basics", basics), ("work", arr(vec![]))]))]);
    let errors = errors_of(validate_resume(input));
    assert_eq!(errors[0].path, "basics.profiles[0].url");
}

#[test]
fn unknown_wrapper_key_is_rejected() {
    let input = obj(vec![
        ("resume", obj(vec![("basics", john_basics()), ("work", arr(vec![]))])),
        ("extra", JsonValue::Bool(true)),
    ]);
    let errors = errors_of(validate_resume(input));
    assert_eq!(errors[0].path, "");
    assert_eq!(
        errors[0].message,
        "Invalid tool input: expected object with 'resume' field. unknown field `extra`, expected `resume`"
    );
}

#[test]
fn non_object_input_is_rejected() {
    let errors = errors_of(validate_resume(JsonValue::Null));
    assert_eq!(
        errors[0].message,
        "Invalid tool input: expected object with 'resume' field. invalid type: null, expected an object"
    );
}

#[test]
fn null_optional_text_is_absent_and_lists_decode() {
    let basics = obj(vec![("name", s("A")), ("email", s("a@b.c")), ("phone", JsonValue::Null)]);
    let resume = obj(vec![
        ("basics", basics),
        ("work", arr(vec![])),
        ("skills", arr(vec![obj(vec![("name", s("Lang")), ("keywords", arr(vec![s("Rust"), s("Go")]))])])),
        ("sectionOrder", arr(vec![s("skills")])),
    ]);
    match validate_resume(obj(vec![("resume", resume)])) {
        ValidationResult::Valid { resume } => {
            assert!(resume.basics.phone.is_none());
            assert_eq!(resume.skills[0].keywords, vec!["Rust".to_string(), "Go".to_string()]);
            assert_eq!(resume.section_order, Some(vec!["skills".to_string()]));
        }
        ValidationResult::Invalid { errors } => panic!("unexpected errors: {:?}", errors),
    }
}

#[test]
fn validation_error_new_keeps_fields() {
    let e = ValidationError::new("basics.email", "Missing required field: email");
    assert_eq!(e.path, "basics.email");
    assert_eq!(e.message, "Missing required field: email");
}

#[test]
fn test_module_exports() {
    let _ = ValidationError::new("", "");
}
