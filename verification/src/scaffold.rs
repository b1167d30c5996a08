//! The order of a scaffold run.
//!
//! A run is a walk through the states of [`ScaffoldState`]. In each state
//! [`ScaffoldState::next_action`] says what the caller has to do, and
//! [`ScaffoldState::advance`] takes the outcome and gives the next state. The
//! caller prompts, clones and touches files; every decision is made here.

use vstd::prelude::*;
use vstd::string::*;
use crate::catalog::{ComponentCatalog, ComponentView};
use crate::cli::{Cli, Commands};
use crate::error::CliError;
use crate::manifest::{add_components, is_update_of};
use crate::project_name::{acceptable, validate_project_name, well_shaped};
use crate::registry::TemplateRegistry;

verus! {

/// The stage at which a run failed.
#[derive(Debug, Clone, Copy, PartialEq, Eq, Structural)]
pub enum Stage {
    /// Resolving the project name.
    Name,
    /// Resolving the template.
    Template,
    /// Cloning the template repository.
    Clone,
    /// Replacing the template's history by a fresh repository.
    Detach,
    /// Merging the component dependencies into the manifest.
    Manifest,
}

/// The three decisions of the user that a run works on.
#[derive(Debug, Clone, PartialEq, Eq)]
pub struct ScaffoldRequest {
    /// The name of the project and of its directory.
    pub project_name: String,
    /// The id of the template.
    pub template_id: String,
    /// The ids of the chosen components, in the order in which they are
    /// merged.
    pub component_ids: Vec<String>,
}

/// Where a run stands.
#[derive(Debug, Clone, PartialEq, Eq)]
pub enum ScaffoldState {
    /// Nothing is decided yet; `given` is the name from the command line.
    Idle { given: Option<String> },
    /// The project name is accepted.
    NameResolved { project: String },
    /// The template's repository is known.
    TemplateResolved { project: String, template_id: String, repository_url: String },
    /// The components are chosen, and with them the request is complete.
    ComponentsResolved { request: ScaffoldRequest, repository_url: String },
    /// The template repository is cloned into the project directory.
    /// `cleared` tells whether the template's history is already out of the
    /// way.
    Cloned { request: ScaffoldRequest, cleared: bool },
    /// The project directory holds a fresh repository. `pending` is the
    /// merged manifest text once it is computed and not yet written.
    Detached { request: ScaffoldRequest, pending: Option<String> },
    /// The manifest holds the component dependencies.
    ManifestMerged { request: ScaffoldRequest },
    /// The run succeeded.
    Done { request: ScaffoldRequest },
    /// The run failed at `stage` with `error`.
    Failed { stage: Stage, error: CliError },
}

/// What the caller reports back.
#[derive(Debug, PartialEq, Eq)]
pub enum ScaffoldEvent {
    /// The user entered `name`; `path_exists` tells whether that path exists.
    NameEntered { name: String, path_exists: bool },
    /// Whether the path of the name given on the command line exists.
    PathChecked { path_exists: bool },
    /// The user chose a template.
    TemplateChosen { template_id: String },
    /// The user chose components.
    ComponentsChosen { ids: Vec<String> },
    /// The clone ended, with the cause where it failed.
    CloneFinished { outcome: Result<(), String> },
    /// The template's history is out of the way: `Ok(found)` tells whether
    /// there was one to remove. Or it could not be removed, with the cause.
    HistoryCleared { outcome: Result<bool, String> },
    /// The fresh repository is initialised, or could not be, with the cause.
    RepositoryInitialised { outcome: Result<(), String> },
    /// The manifest file was read, or could not be, with the cause.
    ManifestRead { outcome: Result<Vec<u8>, String> },
    /// The manifest file was written, or could not be, with the cause.
    ManifestWritten { outcome: Result<(), String> },
    /// The success was reported.
    Acknowledged,
}

/// What the caller has to do next.
#[derive(Debug, PartialEq, Eq)]
pub enum ScaffoldAction<'a> {
    /// Ask the user for a project name and check whether its path exists.
    AskProjectName,
    /// Check whether the path of `name` exists.
    CheckProjectPath { name: &'a String },
    /// Ask the user for a template.
    AskTemplate,
    /// Ask the user for components.
    AskComponents,
    /// Clone `repository_url` into `destination`, with a history of depth 1.
    CloneRepository { repository_url: &'a String, destination: &'a String },
    /// Remove the version-control directory under `project`, if there is
    /// one.
    ClearHistory { project: &'a String },
    /// Initialise a fresh, empty repository in `project`.
    InitRepository { project: &'a String },
    /// Read the manifest file of `project`.
    ReadManifest { project: &'a String },
    /// Replace the manifest file of `project` by `text`.
    WriteManifest { project: &'a String, text: &'a String },
    /// Tell the user that `project` was created.
    ReportSuccess { project: &'a String },
    /// Tell the user that the run failed at `stage` with `error`, and stop.
    ReportFailure { stage: Stage, error: &'a CliError },
    /// Nothing is left to do.
    Stop,
}

impl Stage {
    /// The error with which a run fails at this stage for `cause`. The first
    /// two stages fail for one reason each and carry no cause.
    pub open spec fn error_for(self, cause: String) -> CliError {
        match self {
            Stage::Name => CliError::InvalidProjectName,
            Stage::Template => CliError::UnknownTemplate,
            Stage::Clone => CliError::CloneFailed(cause),
            Stage::Detach => CliError::InitFailed(cause),
            Stage::Manifest => CliError::ManifestError(cause),
        }
    }

    /// Whether `error` is one with which a run can fail at this stage.
    pub open spec fn fails_with(self, error: CliError) -> bool {
        match self {
            Stage::Name => error is InvalidProjectName,
            Stage::Template => error is UnknownTemplate,
            Stage::Clone => error is CloneFailed,
            Stage::Detach => error is InitFailed,
            Stage::Manifest => error is ManifestError,
        }
    }

    /// The error with which a run fails at this stage for `cause`.
    pub fn error(self, cause: String) -> (error: CliError)
        ensures
            error == self.error_for(cause),
            self.fails_with(error),
    {
        match self {
            Stage::Name => CliError::InvalidProjectName,
            Stage::Template => CliError::UnknownTemplate,
            Stage::Clone => CliError::CloneFailed(cause),
            Stage::Detach => CliError::InitFailed(cause),
            Stage::Manifest => CliError::ManifestError(cause),
        }
    }
}

/// The state that a failed outcome with `cause` leads to at `stage`.
pub open spec fn failure(stage: Stage, cause: String) -> ScaffoldState {
    ScaffoldState::Failed { stage, error: stage.error_for(cause) }
}

/// The state after an outside step at `stage` that ended with `outcome`:
/// `reached` where it succeeded, the failure with its cause where it did not.
pub open spec fn settled<T>(
    stage: Stage,
    outcome: Result<T, String>,
    reached: ScaffoldState,
) -> ScaffoldState {
    match outcome {
        Ok(_) => reached,
        Err(cause) => failure(stage, cause),
    }
}

/// The state that follows the check of `name`.
pub open spec fn after_name(name: String, path_exists: bool) -> ScaffoldState {
    if acceptable(name@, path_exists) {
        ScaffoldState::NameResolved { project: name }
    } else {
        ScaffoldState::Failed { stage: Stage::Name, error: CliError::InvalidProjectName }
    }
}

/// The state that follows the update of the manifest with outcome
/// `updated`: the text waits to be written, or the run has failed.
pub open spec fn after_update(
    request: ScaffoldRequest,
    updated: Result<String, CliError>,
) -> ScaffoldState {
    match updated {
        Ok(text) => ScaffoldState::Detached { request, pending: Some(text) },
        Err(error) => ScaffoldState::Failed { stage: Stage::Manifest, error },
    }
}

impl ScaffoldState {
    /// How far the run has come.
    pub open spec fn progress(self) -> int {
        match self {
            ScaffoldState::Idle { .. } => 0,
            ScaffoldState::NameResolved { .. } => 1,
            ScaffoldState::TemplateResolved { .. } => 2,
            ScaffoldState::ComponentsResolved { .. } => 3,
            ScaffoldState::Cloned { cleared: false, .. } => 4,
            ScaffoldState::Cloned { cleared: true, .. } => 5,
            ScaffoldState::Detached { pending: None, .. } => 6,
            ScaffoldState::Detached { pending: Some(_), .. } => 7,
            ScaffoldState::ManifestMerged { .. } => 8,
            ScaffoldState::Done { .. } => 9,
            ScaffoldState::Failed { .. } => 10,
        }
    }

    /// Whether the run is over.
    pub open spec fn is_terminal(self) -> bool {
        self is Done || self is Failed
    }

    /// What holds of every state that a run reaches from its start: the
    /// project name, once resolved, is well shaped, and a failure carries an
    /// error of its stage.
    pub open spec fn well_formed(self) -> bool {
        match self {
            ScaffoldState::Idle { .. } => true,
            ScaffoldState::NameResolved { project } => well_shaped(project@),
            ScaffoldState::TemplateResolved { project, .. } => well_shaped(project@),
            ScaffoldState::ComponentsResolved { request, .. } => well_shaped(
                request.project_name@,
            ),
            ScaffoldState::Cloned { request, .. } => well_shaped(request.project_name@),
            ScaffoldState::Detached { request, .. } => well_shaped(request.project_name@),
            ScaffoldState::ManifestMerged { request } => well_shaped(request.project_name@),
            ScaffoldState::Done { request } => well_shaped(request.project_name@),
            ScaffoldState::Failed { stage, error } => stage.fails_with(error),
        }
    }

    /// Whether `next` is a state that may follow `self` on `event`, with the
    /// templates `registry` and the components `catalog`. An event that the
    /// state does not wait for leaves the state as it is.
    pub open spec fn follows(
        self,
        event: ScaffoldEvent,
        registry: Map<Seq<char>, Seq<char>>,
        catalog: Seq<ComponentView>,
        next: ScaffoldState,
    ) -> bool {
        match (self, event) {
            (
                ScaffoldState::Idle { given: None },
                ScaffoldEvent::NameEntered { name, path_exists },
            ) => next == after_name(name, path_exists),
            (
                ScaffoldState::Idle { given: Some(name) },
                ScaffoldEvent::PathChecked { path_exists },
            ) => next == after_name(name, path_exists),
            (
                ScaffoldState::NameResolved { project },
                ScaffoldEvent::TemplateChosen { template_id },
            ) => if registry.contains_key(template_id@) {
                &&& next matches ScaffoldState::TemplateResolved {
                    project: p,
                    template_id: t,
                    repository_url,
                }
                &&& p == project
                &&& t == template_id
                &&& repository_url@ == registry[template_id@]
            } else {
                next == ScaffoldState::Failed {
                    stage: Stage::Template,
                    error: CliError::UnknownTemplate,
                }
            },
            (
                ScaffoldState::TemplateResolved { project, template_id, repository_url },
                ScaffoldEvent::ComponentsChosen { ids },
            ) => next == (ScaffoldState::ComponentsResolved {
                request: ScaffoldRequest { project_name: project, template_id, component_ids: ids },
                repository_url,
            }),
            (
                ScaffoldState::ComponentsResolved { request, repository_url },
                ScaffoldEvent::CloneFinished { outcome },
            ) => next == settled(
                Stage::Clone,
                outcome,
                ScaffoldState::Cloned { request, cleared: false },
            ),
            (
                ScaffoldState::Cloned { request, cleared: false },
                ScaffoldEvent::HistoryCleared { outcome },
            ) => next == settled(
                Stage::Detach,
                outcome,
                ScaffoldState::Cloned { request, cleared: true },
            ),
            (
                ScaffoldState::Cloned { request, cleared: true },
                ScaffoldEvent::RepositoryInitialised { outcome },
            ) => next == settled(
                Stage::Detach,
                outcome,
                ScaffoldState::Detached { request, pending: None },
            ),
            (
                ScaffoldState::Detached { request, pending: None },
                ScaffoldEvent::ManifestRead { outcome },
            ) => match outcome {
                Ok(content) => exists|updated: Result<String, CliError>|
                    is_update_of(updated, content@, catalog, request.component_ids.deep_view())
                        && next == after_update(request, updated),
                Err(cause) => next == failure(Stage::Manifest, cause),
            },
            (
                ScaffoldState::Detached { request, pending: Some(_) },
                ScaffoldEvent::ManifestWritten { outcome },
            ) => next == settled(
                Stage::Manifest,
                outcome,
                ScaffoldState::ManifestMerged { request },
            ),
            (ScaffoldState::ManifestMerged { request }, ScaffoldEvent::Acknowledged) => next == (
            ScaffoldState::Done { request }),
            _ => next == self,
        }
    }

    /// The action that the state asks for.
    pub open spec fn action(&self) -> ScaffoldAction<'_> {
        match self {
            ScaffoldState::Idle { given: None } => ScaffoldAction::AskProjectName,
            ScaffoldState::Idle { given: Some(name) } => ScaffoldAction::CheckProjectPath { name },
            ScaffoldState::NameResolved { .. } => ScaffoldAction::AskTemplate,
            ScaffoldState::TemplateResolved { .. } => ScaffoldAction::AskComponents,
            ScaffoldState::ComponentsResolved {
                request,
                repository_url,
            } => ScaffoldAction::CloneRepository {
                repository_url,
                destination: &request.project_name,
            },
            ScaffoldState::Cloned { request, cleared: false } => ScaffoldAction::ClearHistory {
                project: &request.project_name,
            },
            ScaffoldState::Cloned { request, cleared: true } => ScaffoldAction::InitRepository {
                project: &request.project_name,
            },
            ScaffoldState::Detached { request, pending: None } => ScaffoldAction::ReadManifest {
                project: &request.project_name,
            },
            ScaffoldState::Detached {
                request,
                pending: Some(text),
            } => ScaffoldAction::WriteManifest { project: &request.project_name, text },
            ScaffoldState::ManifestMerged { request } => ScaffoldAction::ReportSuccess {
                project: &request.project_name,
            },
            ScaffoldState::Done { .. } => ScaffoldAction::Stop,
            ScaffoldState::Failed { stage, error } => ScaffoldAction::ReportFailure {
                stage: *stage,
                error,
            },
        }
    }

    /// The state in which a run starts, with the project name from the
    /// command line where one was given.
    pub fn start(given: Option<String>) -> (state: ScaffoldState)
        ensures
            state == (ScaffoldState::Idle { given }),
            state.well_formed(),
    {
        ScaffoldState::Idle { given }
    }

    /// What the caller has to do in this state.
    pub fn next_action(&self) -> (action: ScaffoldAction<'_>)
        ensures
            action == self.action(),
    {
        match self {
            ScaffoldState::Idle { given: None } => ScaffoldAction::AskProjectName,
            ScaffoldState::Idle { given: Some(name) } => ScaffoldAction::CheckProjectPath { name },
            ScaffoldState::NameResolved { .. } => ScaffoldAction::AskTemplate,
            ScaffoldState::TemplateResolved { .. } => ScaffoldAction::AskComponents,
            ScaffoldState::ComponentsResolved {
                request,
                repository_url,
            } => ScaffoldAction::CloneRepository {
                repository_url,
                destination: &request.project_name,
            },
            ScaffoldState::Cloned { request, cleared: false } => ScaffoldAction::ClearHistory {
                project: &request.project_name,
            },
            ScaffoldState::Cloned { request, cleared: true } => ScaffoldAction::InitRepository {
                project: &request.project_name,
            },
            ScaffoldState::Detached { request, pending: None } => ScaffoldAction::ReadManifest {
                project: &request.project_name,
            },
            ScaffoldState::Detached {
                request,
                pending: Some(text),
            } => ScaffoldAction::WriteManifest { project: &request.project_name, text },
            ScaffoldState::ManifestMerged { request } => ScaffoldAction::ReportSuccess {
                project: &request.project_name,
            },
            ScaffoldState::Done { .. } => ScaffoldAction::Stop,
            ScaffoldState::Failed { stage, error } => ScaffoldAction::ReportFailure {
                stage: *stage,
                error,
            },
        }
    }

    /// The state after the check of `name`: the name is kept where it is
    /// acceptable, and the run fails where it is not.
    pub fn resolve_name(name: String, path_exists: bool) -> (next: ScaffoldState)
        ensures
            next == after_name(name, path_exists),
    {
        match validate_project_name(name.as_str(), path_exists) {
            Ok(_) => ScaffoldState::NameResolved { project: name },
            Err(error) => ScaffoldState::Failed { stage: Stage::Name, error },
        }
    }

    /// The state after an outside step at `stage` that ended with `outcome`:
    /// `reached` where it succeeded, the failure with its cause where it did
    /// not.
    pub fn settle<T>(stage: Stage, outcome: Result<T, String>, reached: ScaffoldState) -> (next:
        ScaffoldState)
        ensures
            next == settled(stage, outcome, reached),
    {
        match outcome {
            Ok(_) => reached,
            Err(cause) => ScaffoldState::Failed { stage, error: stage.error(cause) },
        }
    }

    /// The state after the update of the manifest ended with `updated`: the
    /// new text waits to be written, or the run has failed with the error.
    pub fn settle_update(request: ScaffoldRequest, updated: Result<String, CliError>) -> (next:
        ScaffoldState)
        ensures
            next == after_update(request, updated),
    {
        match updated {
            Ok(text) => ScaffoldState::Detached { request, pending: Some(text) },
            Err(error) => ScaffoldState::Failed { stage: Stage::Manifest, error },
        }
    }

    /// The state that follows this one on `event`. The name is checked, the
    /// template is looked up in `registry` and the manifest is merged with
    /// the chosen components of `catalog` here; everything else is the
    /// caller's report of what happened outside.
    pub fn advance(
        self,
        event: ScaffoldEvent,
        registry: &TemplateRegistry,
        catalog: &ComponentCatalog,
    ) -> (next: ScaffoldState)
        ensures
            self.follows(event, registry@, catalog@, next),
            self.well_formed() ==> next.well_formed(),
    {
        match (self, event) {
            (
                ScaffoldState::Idle { given: None },
                ScaffoldEvent::NameEntered { name, path_exists },
            ) => ScaffoldState::resolve_name(name, path_exists),
            (
                ScaffoldState::Idle { given: Some(name) },
                ScaffoldEvent::PathChecked { path_exists },
            ) => ScaffoldState::resolve_name(name, path_exists),
            (
                ScaffoldState::NameResolved { project },
                ScaffoldEvent::TemplateChosen { template_id },
            ) => match registry.resolve(template_id.as_str()) {
                Ok(repository_url) => ScaffoldState::TemplateResolved {
                    project,
                    template_id,
                    repository_url,
                },
                Err(error) => ScaffoldState::Failed { stage: Stage::Template, error },
            },
            (
                ScaffoldState::TemplateResolved { project, template_id, repository_url },
                ScaffoldEvent::ComponentsChosen { ids },
            ) => ScaffoldState::ComponentsResolved {
                request: ScaffoldRequest { project_name: project, template_id, component_ids: ids },
                repository_url,
            },
            (
                ScaffoldState::ComponentsResolved { request, repository_url },
                ScaffoldEvent::CloneFinished { outcome },
            ) => ScaffoldState::settle(
                Stage::Clone,
                outcome,
                ScaffoldState::Cloned { request, cleared: false },
            ),
            (
                ScaffoldState::Cloned { request, cleared: false },
                ScaffoldEvent::HistoryCleared { outcome },
            ) => ScaffoldState::settle(
                Stage::Detach,
                outcome,
                ScaffoldState::Cloned { request, cleared: true },
            ),
            (
                ScaffoldState::Cloned { request, cleared: true },
                ScaffoldEvent::RepositoryInitialised { outcome },
            ) => ScaffoldState::settle(
                Stage::Detach,
                outcome,
                ScaffoldState::Detached { request, pending: None },
            ),
            (
                ScaffoldState::Detached { request, pending: None },
                ScaffoldEvent::ManifestRead { outcome },
            ) => match outcome {
                Ok(content) => {
                    let ids = request.component_ids.as_slice();
                    let updated = add_components(content.as_slice(), catalog, ids);
                    proof {
                        assert(ids.deep_view() =~= request.component_ids.deep_view());
                    }
                    ScaffoldState::settle_update(request, updated)
                },
                Err(cause) => ScaffoldState::Failed {
                    stage: Stage::Manifest,
                    error: Stage::Manifest.error(cause),
                },
            },
            (
                ScaffoldState::Detached { request, pending: Some(_) },
                ScaffoldEvent::ManifestWritten { outcome },
            ) => ScaffoldState::settle(
                Stage::Manifest,
                outcome,
                ScaffoldState::ManifestMerged { request },
            ),
            (ScaffoldState::ManifestMerged { request }, ScaffoldEvent::Acknowledged) => {
                ScaffoldState::Done { request }
            },
            (state, _) => state,
        }
    }
}

/// The run that the command line asks for: one that starts with the given
/// project name where the command is `Create`, none where no command was
/// given.
pub fn begin(cli: Cli) -> (run: Option<ScaffoldState>)
    ensures
        run == match cli.command {
            Some(Commands::Create { name }) => Some(ScaffoldState::Idle { given: name }),
            None => None,
        },
{
    match cli.command {
        Some(Commands::Create { name }) => Some(ScaffoldState::start(name)),
        None => None,
    }
}

/// A run that is over stays as it is, whatever is reported.
pub proof fn lemma_terminal_states_stay(
    state: ScaffoldState,
    event: ScaffoldEvent,
    registry: Map<Seq<char>, Seq<char>>,
    catalog: Seq<ComponentView>,
    next: ScaffoldState,
)
    requires
        state.is_terminal(),
        state.follows(event, registry, catalog, next),
    ensures
        next == state,
{
}

/// A run has no back edges: a step leaves the state as it is, fails, or
/// moves one step on.
pub proof fn lemma_steps_are_linear(
    state: ScaffoldState,
    event: ScaffoldEvent,
    registry: Map<Seq<char>, Seq<char>>,
    catalog: Seq<ComponentView>,
    next: ScaffoldState,
)
    requires
        state.follows(event, registry, catalog, next),
    ensures
        next == state || next is Failed || next.progress() == state.progress() + 1,
{
}

/// Every step keeps a run well formed: no state with a project in it is
/// reached under a name that is not well shaped, and every failure carries
/// an error of its stage.
pub proof fn lemma_steps_keep_well_formed(
    state: ScaffoldState,
    event: ScaffoldEvent,
    registry: Map<Seq<char>, Seq<char>>,
    catalog: Seq<ComponentView>,
    next: ScaffoldState,
)
    requires
        state.well_formed(),
        state.follows(event, registry, catalog, next),
    ensures
        next.well_formed(),
{
}

/// A name that is not acceptable ends the run before anything is cloned:
/// the run fails at the name stage, and all that is left is to report it.
pub proof fn lemma_rejected_name_ends_run(
    state: ScaffoldState,
    event: ScaffoldEvent,
    registry: Map<Seq<char>, Seq<char>>,
    catalog: Seq<ComponentView>,
    next: ScaffoldState,
)
    requires
        state.follows(event, registry, catalog, next),
        match (state, event) {
            (
                ScaffoldState::Idle { given: None },
                ScaffoldEvent::NameEntered { name, path_exists },
            ) => !acceptable(name@, path_exists),
            (
                ScaffoldState::Idle { given: Some(name) },
                ScaffoldEvent::PathChecked { path_exists },
            ) => !acceptable(name@, path_exists),
            _ => false,
        },
    ensures
        next == (ScaffoldState::Failed { stage: Stage::Name, error: CliError::InvalidProjectName }),
        next.action() is ReportFailure,
        next.is_terminal(),
{
}

/// Clearing the history does not fail for want of a history: whether or
/// not there was one to remove, the run goes on to initialise the fresh
/// repository.
pub proof fn lemma_absent_history_is_no_failure(
    request: ScaffoldRequest,
    found: bool,
    registry: Map<Seq<char>, Seq<char>>,
    catalog: Seq<ComponentView>,
    next: ScaffoldState,
)
    requires
        (ScaffoldState::Cloned { request, cleared: false }).follows(
            ScaffoldEvent::HistoryCleared { outcome: Ok(found) },
            registry,
            catalog,
            next,
        ),
    ensures
        next == (ScaffoldState::Cloned { request, cleared: true }),
        next.action() == (ScaffoldAction::InitRepository { project: &request.project_name }),
{
}

} // verus!
