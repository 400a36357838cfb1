use caudex::library::{
    contains_str, is_unique_constraint_error, normalize_create_input, store_failure_message,
    CreateLibraryAction, CreateLibraryFlow, CreateLibraryInput,
};

/// Runs a create request, answering the existence check with `library_exists` and the
/// directory step with `directory_ok`; counts the directory creations asked for.
fn run_create(input: CreateLibraryInput, library_exists: bool, directory_ok: bool) -> (Result<(String, String), String>, usize) {
    let mut create_calls = 0;
    let (mut flow, mut action) = CreateLibraryFlow::start(input);
    loop {
        match action {
            CreateLibraryAction::CheckExisting => action = flow.on_existing_checked(library_exists),
            CreateLibraryAction::PrepareDirectory { .. } => {
                create_calls += 1;
                action = flow.on_directory_prepared(directory_ok);
            }
            CreateLibraryAction::Store { name, path } => return (Ok((name, path)), create_calls),
            CreateLibraryAction::Reject { message } => return (Err(message), create_calls),
        }
    }
}

#[test]
fn rejected_create_does_not_call_directory_creation_when_library_exists() {
    let (result, create_calls) = run_create(
        CreateLibraryInput {
            name: "Second Library".to_string(),
            path: "/tmp/another-library".to_string(),
        },
        true,
        true,
    );

    assert!(
        result.is_err(),
        "create should fail when library already exists"
    );
    assert_eq!(
        create_calls,
        0,
        "directory creation must not be attempted when singleton guard rejects create"
    );
}

#[test]
fn create_returns_sanitized_message_for_filesystem_failures() {
    let (result, _) = run_create(
        CreateLibraryInput {
            name: "Main Library".to_string(),
            path: "/forbidden/library".to_string(),
        },
        false,
        false,
    );

    assert_eq!(
        result,
        Err("Unable to prepare the selected library location.".to_string())
    );
}

#[test]
fn create_stores_trimmed_name_and_path() {
    let (result, create_calls) = run_create(
        CreateLibraryInput { name: "  Main Library ".to_string(), path: " /tmp/lib\n".to_string() },
        false,
        true,
    );
    assert_eq!(result, Ok(("Main Library".to_string(), "/tmp/lib".to_string())));
    assert_eq!(create_calls, 1);
}

#[test]
fn create_input_needs_name_then_path() {
    assert_eq!(
        normalize_create_input(CreateLibraryInput { name: " ".to_string(), path: "".to_string() }),
        Err("Library name is required.".to_string())
    );
    assert_eq!(
        normalize_create_input(CreateLibraryInput { name: "x".to_string(), path: "\t".to_string() }),
        Err("Library path is required.".to_string())
    );
    let (result, create_calls) = run_create(
        CreateLibraryInput { name: "".to_string(), path: "/tmp".to_string() },
        false,
        true,
    );
    assert_eq!(result, Err("Library name is required.".to_string()));
    assert_eq!(create_calls, 0);
}

#[test]
fn existing_library_message() {
    let (result, _) = run_create(
        CreateLibraryInput { name: "A".to_string(), path: "/a".to_string() },
        true,
        true,
    );
    assert_eq!(
        result,
        Err("A library is already configured for this installation.".to_string())
    );
}

#[test]
fn unique_violations_are_recognised_by_code_or_message() {
    assert!(is_unique_constraint_error(Some("2067"), "anything"));
    assert!(is_unique_constraint_error(Some("1555"), ""));
    assert!(is_unique_constraint_error(None, "UNIQUE constraint failed: libraries.singleton"));
    assert!(is_unique_constraint_error(Some("19"), "error: UNIQUE constraint failed"));
    assert!(!is_unique_constraint_error(Some("19"), "NOT NULL constraint failed"));
    assert!(!is_unique_constraint_error(None, "unique constraint failed"));
    assert_eq!(
        store_failure_message(true),
        "A library is already configured for this installation."
    );
    assert_eq!(store_failure_message(false), "Unable to save library configuration.");
}

#[test]
fn substring_search() {
    assert!(contains_str("abc", ""));
    assert!(contains_str("abc", "abc"));
    assert!(contains_str("xxabcxx", "bcx"));
    assert!(!contains_str("ab", "abc"));
    assert!(!contains_str("", "a"));
}
