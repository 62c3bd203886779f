use docgen::generation::{
    compile_outcome, deliver_direct, deliver_to_storage_at, derive_filename, download_path,
    lookup_file_at, prepare_generation, sanitize_name, Diagnostic, FileLookup, GenerationResult,
    GenerationStep, Severity,
};
use docgen::json::JsonValue;
use docgen::storage::FileStorage;

fn s(text: &str) -> JsonValue {
    JsonValue::Str(text.to_string())
}

fn minimal(name: &str) -> JsonValue {
    let basics = JsonValue::Object(vec![
        ("name".to_string(), s(name)),
        ("email".to_string(), s("jane@example.com")),
    ]);
    let resume = JsonValue::Object(vec![
        ("basics".to_string(), basics),
        ("work".to_string(), JsonValue::Array(vec![])),
    ]);
    JsonValue::Object(vec![("resume".to_string(), resume)])
}

#[test]
fn sanitizes_contact_names() {
    assert_eq!(sanitize_name("Jane Q. Doe"), "jane-q-doe");
    assert_eq!(sanitize_name("José García"), "jos-garca");
    assert_eq!(sanitize_name("A-1 b"), "a-1-b");
}

#[test]
fn derives_filename_from_name_or_keeps_callers() {
    assert_eq!(derive_filename(None, "Jane Q. Doe"), "jane-q-doe-resume.pdf");
    assert_eq!(derive_filename(Some("x.pdf".to_string()), "Jane Q. Doe"), "x.pdf");
}

#[test]
fn explicit_filename_in_direct_mode_is_the_location() {
    match prepare_generation(minimal("Jane"), Some("x.pdf".to_string())) {
        GenerationStep::Compile { source, filename } => {
            assert!(source.contains("#resume(json-data)"));
            assert_eq!(filename, "x.pdf");
            match deliver_direct(filename, Ok(())) {
                GenerationResult::Success { location, .. } => assert_eq!(location, "x.pdf"),
                GenerationResult::Error { message, .. } => panic!("unexpected error: {}", message),
            }
        }
        GenerationStep::Done { .. } => panic!("expected the compile step"),
    }
}

#[test]
fn derived_filename_when_none_given() {
    match prepare_generation(minimal("Jane Q. Doe"), None) {
        GenerationStep::Compile { filename, .. } => assert_eq!(filename, "jane-q-doe-resume.pdf"),
        GenerationStep::Done { .. } => panic!("expected the compile step"),
    }
}

#[test]
fn failed_write_reports_its_cause() {
    match deliver_direct("out.pdf".to_string(), Err("disk full".to_string())) {
        GenerationResult::Error { message, validation_errors } => {
            assert_eq!(message, "Failed to write out.pdf: disk full");
            assert!(validation_errors.is_none());
        }
        _ => panic!("expected an error"),
    }
}

#[test]
fn warnings_alone_do_not_fail_compilation() {
    let diags = vec![Diagnostic { severity: Severity::Warning, message: "w".to_string() }];
    let r = compile_outcome(Some(vec![b'%', b'P', b'D', b'F']), &diags);
    assert_eq!(r.ok().unwrap(), b"%PDF".to_vec());
}

#[test]
fn error_diagnostics_fail_compilation() {
    let diags = vec![
        Diagnostic { severity: Severity::Error, message: "boom".to_string() },
        Diagnostic { severity: Severity::Warning, message: "w".to_string() },
    ];
    match compile_outcome(Some(vec![1]), &diags) {
        Err(GenerationResult::Error { message, validation_errors }) => {
            assert_eq!(message, "Typst compilation failed:\nError: boom\nWarning: w");
            assert!(validation_errors.is_none());
        }
        _ => panic!("expected a compile failure"),
    }
    match compile_outcome(None, &vec![]) {
        Err(GenerationResult::Error { message, .. }) => {
            assert_eq!(message, "Typst compilation failed:\n")
        }
        _ => panic!("expected a compile failure"),
    }
}

#[test]
fn download_path_names_the_uuid() {
    assert_eq!(download_path(0), "/files/00000000-0000-0000-0000-000000000000");
    assert_eq!(download_path(1), "/files/00000000-0000-0000-0000-000000000001");
}

#[test]
fn stored_delivery_can_be_looked_up() {
    let mut storage = FileStorage::new();
    let result = deliver_to_storage_at(&mut storage, vec![1, 2], "r.pdf".to_string(), 50, 9);
    let location = match result {
        GenerationResult::Success { location, message } => {
            assert!(message.contains(&location));
            location
        }
        _ => panic!("expected success"),
    };
    assert_eq!(location, "/files/00000000-0000-0000-0000-000000000009");
    let id_text = location.trim_start_matches("/files/");
    match lookup_file_at(&mut storage, id_text, 60) {
        FileLookup::Found(f) => {
            assert_eq!(f.data, vec![1, 2]);
            assert_eq!(f.filename, "r.pdf");
        }
        _ => panic!("expected the file"),
    }
    assert!(matches!(lookup_file_at(&mut storage, id_text, 50 + 3600), FileLookup::NotFound));
    assert!(matches!(lookup_file_at(&mut storage, "not-a-uuid", 60), FileLookup::Malformed));
    assert!(matches!(
        lookup_file_at(&mut storage, "00000000-0000-0000-0000-000000000001", 60),
        FileLookup::NotFound
    ));
}
