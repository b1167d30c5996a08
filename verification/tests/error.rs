use nana::error::CliError;

#[test]
fn a_clone_failure_names_its_cause() {
    let error = CliError::CloneFailed("remote hung up".to_string());
    assert_eq!(error.message(), "Failed to clone repository: remote hung up");
}

#[test]
fn an_init_failure_names_its_cause() {
    let error = CliError::InitFailed("permission denied".to_string());
    assert_eq!(error.message(), "Failed to init repository: permission denied");
}

#[test]
fn a_manifest_error_names_its_cause() {
    let error = CliError::ManifestError("no such file".to_string());
    assert_eq!(error.message(), "Failed to update manifest: no such file");
}

#[test]
fn errors_without_a_cause_have_a_fixed_message() {
    assert_eq!(CliError::InvalidProjectName.message(), "Invalid project name");
    assert_eq!(CliError::UnknownTemplate.message(), "Unknown template");
}

#[test]
fn an_empty_cause_leaves_the_prefix() {
    assert_eq!(CliError::CloneFailed(String::new()).message(), "Failed to clone repository: ");
}
