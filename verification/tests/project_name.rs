use nana::error::CliError;
use nana::project_name::{first_problem, name_problem, starts_numeric, validate_project_name, NameProblem};

#[test]
fn an_empty_name_is_invalid() {
    assert_eq!(validate_project_name("", false), Err(CliError::InvalidProjectName));
}

#[test]
fn a_name_that_starts_with_a_digit_is_invalid() {
    assert_eq!(validate_project_name("123proj", false), Err(CliError::InvalidProjectName));
    assert_eq!(validate_project_name("0", false), Err(CliError::InvalidProjectName));
}

#[test]
fn a_name_that_exists_as_a_path_is_invalid() {
    assert_eq!(validate_project_name("demo", true), Err(CliError::InvalidProjectName));
}

#[test]
fn a_fresh_well_shaped_name_is_accepted() {
    assert_eq!(validate_project_name("my_app", false), Ok(()));
    assert_eq!(validate_project_name("demo", false), Ok(()));
    assert_eq!(validate_project_name("a1", false), Ok(()));
    assert_eq!(validate_project_name("_9", false), Ok(()));
}

#[test]
fn numeric_characters_beyond_ascii_count_as_numeric() {
    assert_eq!(validate_project_name("\u{0663}abc", false), Err(CliError::InvalidProjectName));
    assert_eq!(validate_project_name("\u{00be}", false), Err(CliError::InvalidProjectName));
    assert_eq!(validate_project_name("\u{2460}x", false), Err(CliError::InvalidProjectName));
}

#[test]
fn ideographs_do_not_count_as_numeric() {
    assert_eq!(validate_project_name("\u{4e09}", false), Ok(()));
    assert_eq!(validate_project_name("\u{85cf}x", false), Ok(()));
}

#[test]
fn only_the_first_character_is_looked_at() {
    assert!(!starts_numeric("a123"));
    assert!(starts_numeric("1abc"));
    assert!(!starts_numeric(""));
    assert!(starts_numeric("\u{0663}"));
    assert!(!starts_numeric("K"));
}

#[test]
fn the_first_finding_is_the_problem() {
    assert_eq!(first_problem(false, false, false), None);
    assert_eq!(first_problem(true, false, false), Some(NameProblem::Empty));
    assert_eq!(first_problem(false, true, false), Some(NameProblem::NumericStart));
    assert_eq!(first_problem(false, false, true), Some(NameProblem::PathExists));
    assert_eq!(first_problem(true, true, true), Some(NameProblem::Empty));
    assert_eq!(first_problem(true, false, true), Some(NameProblem::Empty));
    assert_eq!(first_problem(false, true, true), Some(NameProblem::NumericStart));
}

#[test]
fn a_name_has_the_first_problem_found() {
    assert_eq!(name_problem("", false), Some(NameProblem::Empty));
    assert_eq!(name_problem("", true), Some(NameProblem::Empty));
    assert_eq!(name_problem("123proj", false), Some(NameProblem::NumericStart));
    assert_eq!(name_problem("123proj", true), Some(NameProblem::NumericStart));
    assert_eq!(name_problem("demo", true), Some(NameProblem::PathExists));
    assert_eq!(name_problem("my_app", false), None);
}
