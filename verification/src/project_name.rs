//! Which project names are acceptable.

use vstd::prelude::*;
use vstd::string::*;
use crate::error::CliError;

verus! {

/// Whether [`char::is_numeric`] holds of `c`: whether Unicode puts the
/// character in one of its general categories for numbers.
pub uninterp spec fn is_numeric(c: char) -> bool;

/// Calls [`char::is_numeric`], which tells whether the character has one of
/// Unicode's general categories for numbers. The contract only gives that
/// answer its name.
#[verifier::external_body]
fn char_is_numeric(c: char) -> (numeric: bool)
    ensures
        numeric == is_numeric(c),
{
    c.is_numeric()
}

/// What is wrong with a project name.
#[derive(Debug, Clone, Copy, PartialEq, Eq, Structural)]
pub enum NameProblem {
    /// The name is empty.
    Empty,
    /// The name starts with a numeric character.
    NumericStart,
    /// Something already exists at the path that the name stands for.
    PathExists,
}

/// Whether `name` is not empty and does not start with a numeric character.
pub open spec fn well_shaped(name: Seq<char>) -> bool {
    name.len() > 0 && !is_numeric(name[0])
}

/// Whether a project may be created under `name`: the name is well shaped
/// and nothing exists at that path yet.
pub open spec fn acceptable(name: Seq<char>, path_exists: bool) -> bool {
    well_shaped(name) && !path_exists
}

/// The first of the three findings that holds, in the order in which a name
/// is checked: emptiness, a numeric start, an existing path.
pub open spec fn first_finding(empty: bool, numeric_start: bool, path_exists: bool) -> Option<
    NameProblem,
> {
    if empty {
        Some(NameProblem::Empty)
    } else if numeric_start {
        Some(NameProblem::NumericStart)
    } else if path_exists {
        Some(NameProblem::PathExists)
    } else {
        None
    }
}

/// What is wrong with `name`, if anything.
pub open spec fn problem_of(name: Seq<char>, path_exists: bool) -> Option<NameProblem> {
    first_finding(name.len() == 0, name.len() > 0 && is_numeric(name[0]), path_exists)
}

/// The problem of a name of which the three findings are known.
pub fn first_problem(empty: bool, numeric_start: bool, path_exists: bool) -> (problem: Option<
    NameProblem,
>)
    ensures
        problem == first_finding(empty, numeric_start, path_exists),
{
    if empty {
        Some(NameProblem::Empty)
    } else if numeric_start {
        Some(NameProblem::NumericStart)
    } else if path_exists {
        Some(NameProblem::PathExists)
    } else {
        None
    }
}

/// Whether `name` starts with a numeric character.
pub fn starts_numeric(name: &str) -> (numeric: bool)
    ensures
        numeric <==> name@.len() > 0 && is_numeric(name@[0]),
{
    if name.is_empty() {
        false
    } else {
        char_is_numeric(name.get_char(0))
    }
}

/// What is wrong with `name`, if anything. `path_exists` tells whether
/// something already exists at the path that the name stands for.
pub fn name_problem(name: &str, path_exists: bool) -> (problem: Option<NameProblem>)
    ensures
        problem == problem_of(name@, path_exists),
        problem.is_none() <==> acceptable(name@, path_exists),
{
    first_problem(name.is_empty(), starts_numeric(name), path_exists)
}

/// Checks a project name: it is accepted where nothing is wrong with it.
pub fn validate_project_name(name: &str, path_exists: bool) -> (verdict: Result<(), CliError>)
    ensures
        verdict.is_ok() <==> acceptable(name@, path_exists),
        verdict matches Err(e) ==> e == CliError::InvalidProjectName,
{
    match name_problem(name, path_exists) {
        None => Ok(()),
        Some(_) => Err(CliError::InvalidProjectName),
    }
}

} // verus!
