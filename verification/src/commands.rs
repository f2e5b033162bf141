//! The subcommands on components, and how each of them begins.

use crate::deploy::{
    ApplicationComponentSelectMode, BuildArgs, DeployError, DeployProgress, ForceBuildArg,
    WorkerUpdateOrRedeployArgs,
};
use crate::handler::ComponentCommandHandler;
use crate::listing::{
    CollectProgress, CommandError, GetProgress, ListProgress, SelectingComponents,
};
use crate::model::{Component, ComponentName, Failure, ProjectNameAndId, WorkerUpdateMode};
use crate::workers::{
    redeploy_step, update_start, WorkerRedeployProgress, WorkerUpdateProgress,
};
use golem_templates::model::{GuestLanguage, PackageName};
use vstd::prelude::*;

verus! {

/// A language that components are written in, as the templates know it.
#[verifier::external_type_specification]
#[verifier::external_body]
pub struct ExGuestLanguage(GuestLanguage);

/// The language that a text names, if it names one: what
/// `GuestLanguage::from_string` gives for it.
pub uninterp spec fn guest_language_named(text: Seq<char>) -> Option<GuestLanguage>;

/// The name of a package: a namespace and a name within it.
#[verifier::external_type_specification]
#[verifier::external_body]
pub struct ExPackageName(PackageName);

/// A package name written out with a colon: what
/// `PackageName::to_string_with_colon` gives for it.
pub uninterp spec fn package_name_with_colon(package_name: PackageName) -> Seq<char>;

/// A subcommand on components. `P` is the subcommand on plugins, which is
/// handed on untouched.
#[derive(Debug, PartialEq, Eq)]
pub enum ComponentSubcommand<P> {
    /// Add a component to the application from a template.
    New { template: String, component_package_name: PackageName },
    /// List the templates.
    Templates { filter: Option<String> },
    /// Build components.
    Build { component_name: Vec<ComponentName>, build: BuildArgs },
    /// Build and deploy components.
    Deploy {
        component_name: Vec<ComponentName>,
        force_build: ForceBuildArg,
        update_or_redeploy: WorkerUpdateOrRedeployArgs,
    },
    /// Remove what the build has made.
    Clean { component_name: Vec<ComponentName> },
    /// List deployed components.
    List { component_name: Option<ComponentName> },
    /// Show deployed components.
    Get { component_name: Option<ComponentName>, version: Option<u64> },
    /// Update the workers of deployed components.
    UpdateWorkers { component_name: Option<ComponentName>, update_mode: WorkerUpdateMode },
    /// Start the workers of deployed components afresh.
    RedeployWorkers { component_name: Option<ComponentName> },
    /// Work on the plugins of a component.
    Plugin { subcommand: P },
    /// Check the tools that the build needs.
    Diagnose { component_name: Vec<ComponentName> },
}

/// Something that the application does on its own, for the components
/// named or else selected by `select_mode`.
#[derive(Debug, PartialEq, Eq)]
pub enum ApplicationCall {
    Build {
        component_names: Vec<ComponentName>,
        build: Option<BuildArgs>,
        select_mode: ApplicationComponentSelectMode,
    },
    Clean { component_names: Vec<ComponentName>, select_mode: ApplicationComponentSelectMode },
    Diagnose { component_names: Vec<ComponentName>, select_mode: ApplicationComponentSelectMode },
}

/// Which templates the help shows: those of a language, those that a text
/// matches, or all.
#[derive(Debug, PartialEq, Eq)]
pub struct TemplatesHelp {
    pub language: Option<GuestLanguage>,
    pub filter: Option<String>,
}

/// `golem_templates::model::GuestLanguage::from_string`: the language
/// that `text` names, or none. Of the outcome the contract claims only that
/// it depends on the text alone.
#[verifier::external_body]
fn guest_language_from_string(text: &str) -> (language: Option<GuestLanguage>)
    ensures
        language == guest_language_named(text@),
{
    GuestLanguage::from_string(text)
}

/// A filter that names a language selects by language; any other selects
/// by its text; without a filter all templates are shown.
pub open spec fn templates_help(
    filter: Option<String>,
    language: Option<GuestLanguage>,
) -> TemplatesHelp {
    match filter {
        None => TemplatesHelp { language: None, filter: None },
        Some(text) => match language {
            Some(language) => TemplatesHelp { language: Some(language), filter: None },
            None => TemplatesHelp { language: None, filter: Some(text) },
        },
    }
}

/// The help for `filter`, where `language` is the language that it names.
pub fn templates_help_for(filter: Option<String>, language: Option<GuestLanguage>) -> (help:
    TemplatesHelp)
    ensures
        help == templates_help(filter, language),
{
    match filter {
        None => TemplatesHelp { language: None, filter: None },
        Some(text) => match language {
            Some(language) => TemplatesHelp { language: Some(language), filter: None },
            None => TemplatesHelp { language: None, filter: Some(text) },
        },
    }
}

/// The language that the filter names, if there is a filter and it names one.
pub open spec fn filter_language(filter: Option<String>) -> Option<GuestLanguage> {
    match filter {
        Some(text) => guest_language_named(text@),
        None => None,
    }
}

impl ComponentCommandHandler {
    /// The help on templates for `filter`.
    pub fn cmd_templates(&self, filter: Option<String>) -> (help: TemplatesHelp)
        ensures
            help == templates_help(filter, filter_language(filter)),
    {
        let language = match &filter {
            Some(text) => guest_language_from_string(text.as_str()),
            None => None,
        };
        templates_help_for(filter, language)
    }
}

/// Why no component was added.
#[derive(Clone, Debug, PartialEq, Eq)]
pub enum NewError {
    /// There is no such template.
    Template(Failure),
    /// There is no application here, or it cannot be read.
    Application(Failure),
    /// The application has a component of that name already.
    AlreadyExists { component_name: ComponentName },
    /// The template could not be applied.
    Create(Failure),
}

/// Asks for the template named `template`.
#[derive(Debug, PartialEq, Eq)]
pub struct ResolvingTemplate {
    pub template: String,
    pub component_name: ComponentName,
}

/// Asks the application for the names of its components.
#[derive(Debug, PartialEq, Eq)]
pub struct ReadingComponentNames {
    pub component_name: ComponentName,
}

/// Asks for the template to be applied under the name `component_name`,
/// with the application unloaded.
#[derive(Debug, PartialEq, Eq)]
pub struct AddingComponent {
    pub component_name: ComponentName,
}

/// Asks for the application to be loaded again.
#[derive(Debug, PartialEq, Eq)]
pub struct ReloadingApplication {
    pub component_name: ComponentName,
}

/// Where the addition of a component stands.
#[derive(Debug, PartialEq, Eq)]
pub enum NewProgress {
    Template(ResolvingTemplate),
    Names(ReadingComponentNames),
    Add(AddingComponent),
    Reload(ReloadingApplication),
    Done(Result<(), NewError>),
}

/// Some component has the name `component_name`.
pub open spec fn name_taken(existing: Seq<ComponentName>, component_name: ComponentName) -> bool {
    exists|i: int| 0 <= i < existing.len() && (#[trigger] existing[i]).0@ == component_name.0@
}

/// Whether some component has the name `component_name`.
pub fn component_exists(existing: &Vec<ComponentName>, component_name: &ComponentName) -> (taken:
    bool)
    ensures
        taken == name_taken(existing@, *component_name),
{
    let n = existing.len();
    let mut i: usize = 0;
    while i < n
        invariant
            n == existing@.len(),
            i <= n,
            forall|j: int| 0 <= j < i ==> (#[trigger] existing@[j]).0@ != component_name.0@,
        decreases n - i,
    {
        if existing[i].0 == component_name.0 {
            return true;
        }
        i = i + 1;
    }
    false
}

/// `golem_templates::model::PackageName::to_string_with_colon`: the
/// namespace, a colon and the name. Of the text the contract claims only
/// that it depends on the package name alone.
#[verifier::external_body]
fn package_name_to_string_with_colon(package_name: &PackageName) -> (text: String)
    ensures
        text@ == package_name_with_colon(*package_name),
{
    package_name.to_string_with_colon()
}

/// Begins the addition of the component `component_name` from `template`.
pub fn new_component(template: String, component_name: ComponentName) -> (first: NewProgress)
    ensures
        first == NewProgress::Template(ResolvingTemplate { template, component_name }),
{
    NewProgress::Template(ResolvingTemplate { template, component_name })
}

/// `first` is the beginning of the addition of a component from
/// `template`: the request for the template, with the package name,
/// written with a colon, as the name of the component.
pub open spec fn new_begins(
    first: NewProgress,
    template: String,
    component_package_name: PackageName,
) -> bool {
    &&& first matches NewProgress::Template(state)
    &&& state.template == template
    &&& state.component_name.0@ == package_name_with_colon(component_package_name)
}

impl ComponentCommandHandler {
    /// Begins the addition of a component named as
    /// `component_package_name` from `template`.
    pub fn cmd_new(&mut self, template: String, component_package_name: PackageName) -> (first:
        NewProgress)
        ensures
            *final(self) == *old(self),
            new_begins(first, template, component_package_name),
    {
        let component_name = ComponentName(
            package_name_to_string_with_colon(&component_package_name),
        );
        new_component(template, component_name)
    }
}

impl ResolvingTemplate {
    /// Takes the answer on the template: without the template nothing else
    /// is looked at.
    pub fn resolved(self, reply: Result<(), Failure>) -> (next: NewProgress)
        ensures
            next == match reply {
                Err(failure) => NewProgress::Done(Err(NewError::Template(failure))),
                Ok(()) => NewProgress::Names(
                    ReadingComponentNames { component_name: self.component_name },
                ),
            },
    {
        match reply {
            Err(failure) => NewProgress::Done(Err(NewError::Template(failure))),
            Ok(()) => NewProgress::Names(
                ReadingComponentNames { component_name: self.component_name },
            ),
        }
    }
}

impl ReadingComponentNames {
    /// Takes the names of the application's components: a name that is
    /// taken is refused before anything is written.
    pub fn read(self, reply: Result<Vec<ComponentName>, Failure>) -> (next: NewProgress)
        ensures
            next == match reply {
                Err(failure) => NewProgress::Done(Err(NewError::Application(failure))),
                Ok(existing) => if name_taken(existing@, self.component_name) {
                    NewProgress::Done(
                        Err(NewError::AlreadyExists { component_name: self.component_name }),
                    )
                } else {
                    NewProgress::Add(AddingComponent { component_name: self.component_name })
                },
            },
    {
        match reply {
            Err(failure) => NewProgress::Done(Err(NewError::Application(failure))),
            Ok(existing) => if component_exists(&existing, &self.component_name) {
                NewProgress::Done(
                    Err(NewError::AlreadyExists { component_name: self.component_name }),
                )
            } else {
                NewProgress::Add(AddingComponent { component_name: self.component_name })
            },
        }
    }
}

impl AddingComponent {
    /// Takes the result of applying the template.
    pub fn added(self, reply: Result<(), Failure>) -> (next: NewProgress)
        ensures
            next == match reply {
                Err(failure) => NewProgress::Done(Err(NewError::Create(failure))),
                Ok(()) => NewProgress::Reload(
                    ReloadingApplication { component_name: self.component_name },
                ),
            },
    {
        match reply {
            Err(failure) => NewProgress::Done(Err(NewError::Create(failure))),
            Ok(()) => NewProgress::Reload(
                ReloadingApplication { component_name: self.component_name },
            ),
        }
    }
}

impl ReloadingApplication {
    /// Takes the result of loading the application with its new component.
    pub fn reloaded(self, reply: Result<(), Failure>) -> (next: NewProgress)
        ensures
            next == match reply {
                Err(failure) => NewProgress::Done(Err(NewError::Application(failure))),
                Ok(()) => NewProgress::Done(Ok(())),
            },
    {
        match reply {
            Err(failure) => NewProgress::Done(Err(NewError::Application(failure))),
            Ok(()) => NewProgress::Done(Ok(())),
        }
    }
}

/// Asks for the project that commands work in by default, if there is one.
#[derive(Debug, PartialEq, Eq)]
pub struct SelectingDefaultProject {
    pub component_names: Vec<ComponentName>,
    pub force_build: ForceBuildArg,
    pub update_or_redeploy: WorkerUpdateOrRedeployArgs,
}

impl SelectingDefaultProject {
    /// Takes the project and begins the deployment in it, with the
    /// components of the current directory where none is named.
    pub fn selected(
        self,
        handler: &mut ComponentCommandHandler,
        reply: Result<Option<ProjectNameAndId>, Failure>,
    ) -> (next: DeployProgress)
        ensures
            *final(handler) == *old(handler),
            reply matches Err(failure) ==> next == DeployProgress::Done(
                Err(DeployError::Project(failure)),
            ),
            reply matches Ok(project) ==> old(handler).deploy_begins(
                next,
                project,
                self.component_names@,
                Some(self.force_build),
                ApplicationComponentSelectMode::CurrentDir,
                self.update_or_redeploy,
            ),
    {
        match reply {
            Err(failure) => DeployProgress::Done(Err(DeployError::Project(failure))),
            Ok(project) => handler.deploy(
                project.as_ref(),
                self.component_names,
                Some(self.force_build),
                ApplicationComponentSelectMode::CurrentDir,
                self.update_or_redeploy,
            ),
        }
    }
}

/// Collects the deployed components whose workers are to be updated; with
/// them, `update_collected` begins the update.
#[derive(Debug, PartialEq, Eq)]
pub struct CollectingForUpdate {
    pub collect: CollectProgress,
    pub update_mode: WorkerUpdateMode,
}

/// Takes the components that were collected and begins the update of their
/// workers.
pub fn update_collected(
    handler: &ComponentCommandHandler,
    update_mode: WorkerUpdateMode,
    outcome: Result<Vec<Component>, CommandError>,
) -> (next: Result<WorkerUpdateProgress, CommandError>)
    ensures
        outcome matches Err(e) ==> next == Err::<WorkerUpdateProgress, CommandError>(e),
        outcome matches Ok(components) ==> next is Ok && next->Ok_0@ == update_start(
            components@,
            update_mode,
        ),
{
    match outcome {
        Err(e) => Err(e),
        Ok(components) => Ok(handler.update_workers_by_components(components, update_mode)),
    }
}

/// Collects the deployed components whose workers are to be started
/// afresh; with them, `redeploy_collected` begins the redeployment.
#[derive(Debug, PartialEq, Eq)]
pub struct CollectingForRedeploy {
    pub collect: CollectProgress,
}

/// Takes the components that were collected and begins the redeployment of
/// their workers.
pub fn redeploy_collected(
    handler: &ComponentCommandHandler,
    outcome: Result<Vec<Component>, CommandError>,
) -> (next: Result<WorkerRedeployProgress, CommandError>)
    ensures
        outcome matches Err(e) ==> next == Err::<WorkerRedeployProgress, CommandError>(e),
        outcome matches Ok(components) ==> next is Ok && next->Ok_0@ == redeploy_step(components@),
{
    match outcome {
        Err(e) => Err(e),
        Ok(components) => Ok(handler.redeploy_workers_by_components(components)),
    }
}

/// How a subcommand begins.
#[derive(Debug, PartialEq, Eq)]
pub enum CommandProgress<P> {
    New(NewProgress),
    /// The help is ready to be shown.
    Templates(TemplatesHelp),
    /// The application does the rest.
    Application(ApplicationCall),
    Deploy(SelectingDefaultProject),
    List(ListProgress),
    Get(GetProgress),
    UpdateWorkers(CollectingForUpdate),
    RedeployWorkers(CollectingForRedeploy),
    /// The handler of plugins does the rest.
    Plugin { subcommand: P },
}

impl ComponentCommandHandler {
    /// Begins the build of the components named, or of those of the
    /// current directory.
    pub fn cmd_build(&self, component_name: Vec<ComponentName>, build_args: BuildArgs) -> (call:
        ApplicationCall)
        ensures
            call == (ApplicationCall::Build {
                component_names: component_name,
                build: Some(build_args),
                select_mode: ApplicationComponentSelectMode::CurrentDir,
            }),
    {
        ApplicationCall::Build {
            component_names: component_name,
            build: Some(build_args),
            select_mode: ApplicationComponentSelectMode::CurrentDir,
        }
    }

    /// Begins the removal of what the build has made.
    pub fn cmd_clean(&self, component_name: Vec<ComponentName>) -> (call: ApplicationCall)
        ensures
            call == (ApplicationCall::Clean {
                component_names: component_name,
                select_mode: ApplicationComponentSelectMode::CurrentDir,
            }),
    {
        ApplicationCall::Clean {
            component_names: component_name,
            select_mode: ApplicationComponentSelectMode::CurrentDir,
        }
    }

    /// Begins the check of the tools that the build needs.
    pub fn cmd_diagnose(&self, component_names: Vec<ComponentName>) -> (call: ApplicationCall)
        ensures
            call == (ApplicationCall::Diagnose {
                component_names,
                select_mode: ApplicationComponentSelectMode::CurrentDir,
            }),
    {
        ApplicationCall::Diagnose {
            component_names,
            select_mode: ApplicationComponentSelectMode::CurrentDir,
        }
    }

    /// Begins a deployment: the default project is chosen first.
    pub fn cmd_deploy(
        &self,
        component_name: Vec<ComponentName>,
        force_build: ForceBuildArg,
        update_or_redeploy: WorkerUpdateOrRedeployArgs,
    ) -> (first: SelectingDefaultProject)
        ensures
            first == (SelectingDefaultProject {
                component_names: component_name,
                force_build,
                update_or_redeploy,
            }),
    {
        SelectingDefaultProject { component_names: component_name, force_build, update_or_redeploy }
    }

    /// Begins the update of the workers of the deployed components among
    /// those selected.
    pub fn cmd_update_workers(
        &self,
        component_name: Option<ComponentName>,
        update_mode: WorkerUpdateMode,
    ) -> (first: CollectingForUpdate)
        ensures
            first.update_mode == update_mode,
            first.collect == CollectProgress::Select(
                SelectingComponents { component_name, must_match: false },
            ),
    {
        CollectingForUpdate {
            collect: self.components_for_update_or_redeploy(component_name),
            update_mode,
        }
    }

    /// Begins the redeployment of the workers of the deployed components
    /// among those selected.
    pub fn cmd_redeploy_workers(&self, component_name: Option<ComponentName>) -> (first:
        CollectingForRedeploy)
        ensures
            first.collect == CollectProgress::Select(
                SelectingComponents { component_name, must_match: false },
            ),
    {
        CollectingForRedeploy { collect: self.components_for_update_or_redeploy(component_name) }
    }

    /// `first` is how `subcommand` begins.
    pub open spec fn command_begins<P>(
        &self,
        subcommand: ComponentSubcommand<P>,
        first: CommandProgress<P>,
    ) -> bool {
        match subcommand {
            ComponentSubcommand::New { template, component_package_name } => {
                &&& first matches CommandProgress::New(begun)
                &&& new_begins(begun, template, component_package_name)
            },
            ComponentSubcommand::Templates { filter } => first == CommandProgress::<
                P,
            >::Templates(templates_help(filter, filter_language(filter))),
            ComponentSubcommand::Build { component_name, build } => first == CommandProgress::<
                P,
            >::Application(
                ApplicationCall::Build {
                    component_names: component_name,
                    build: Some(build),
                    select_mode: ApplicationComponentSelectMode::CurrentDir,
                },
            ),
            ComponentSubcommand::Deploy { component_name, force_build, update_or_redeploy } => first
                == CommandProgress::<P>::Deploy(
                SelectingDefaultProject {
                    component_names: component_name,
                    force_build,
                    update_or_redeploy,
                },
            ),
            ComponentSubcommand::Clean { component_name } => first == CommandProgress::<
                P,
            >::Application(
                ApplicationCall::Clean {
                    component_names: component_name,
                    select_mode: ApplicationComponentSelectMode::CurrentDir,
                },
            ),
            ComponentSubcommand::List { component_name } => first == CommandProgress::<P>::List(
                ListProgress::Select(
                    SelectingComponents { component_name, must_match: false },
                ),
            ),
            ComponentSubcommand::Get { component_name, version } => first == CommandProgress::<
                P,
            >::Get(
                GetProgress::Select {
                    state: SelectingComponents { component_name, must_match: true },
                    version,
                },
            ),
            ComponentSubcommand::UpdateWorkers { component_name, update_mode } => first
                == CommandProgress::<P>::UpdateWorkers(
                CollectingForUpdate {
                    collect: CollectProgress::Select(
                        SelectingComponents { component_name, must_match: false },
                    ),
                    update_mode,
                },
            ),
            ComponentSubcommand::RedeployWorkers { component_name } => first == CommandProgress::<
                P,
            >::RedeployWorkers(
                CollectingForRedeploy {
                    collect: CollectProgress::Select(
                        SelectingComponents { component_name, must_match: false },
                    ),
                },
            ),
            ComponentSubcommand::Plugin { subcommand } => first == (CommandProgress::Plugin {
                subcommand,
            }),
            ComponentSubcommand::Diagnose { component_name } => first == CommandProgress::<
                P,
            >::Application(
                ApplicationCall::Diagnose {
                    component_names: component_name,
                    select_mode: ApplicationComponentSelectMode::CurrentDir,
                },
            ),
        }
    }

    /// Begins `subcommand`.
    pub fn handle_command<P>(&mut self, subcommand: ComponentSubcommand<P>) -> (first:
        CommandProgress<P>)
        ensures
            old(self).command_begins(subcommand, first),
            *final(self) == *old(self),
    {
        match subcommand {
            ComponentSubcommand::New { template, component_package_name } => CommandProgress::New(
                self.cmd_new(template, component_package_name),
            ),
            ComponentSubcommand::Templates { filter } => CommandProgress::Templates(
                self.cmd_templates(filter),
            ),
            ComponentSubcommand::Build { component_name, build } => CommandProgress::Application(
                self.cmd_build(component_name, build),
            ),
            ComponentSubcommand::Deploy {
                component_name,
                force_build,
                update_or_redeploy,
            } => CommandProgress::Deploy(
                self.cmd_deploy(component_name, force_build, update_or_redeploy),
            ),
            ComponentSubcommand::Clean { component_name } => CommandProgress::Application(
                self.cmd_clean(component_name),
            ),
            ComponentSubcommand::List { component_name } => CommandProgress::List(
                self.cmd_list(component_name),
            ),
            ComponentSubcommand::Get { component_name, version } => CommandProgress::Get(
                self.cmd_get(component_name, version),
            ),
            ComponentSubcommand::UpdateWorkers {
                component_name,
                update_mode,
            } => CommandProgress::UpdateWorkers(
                self.cmd_update_workers(component_name, update_mode),
            ),
            ComponentSubcommand::RedeployWorkers {
                component_name,
            } => CommandProgress::RedeployWorkers(self.cmd_redeploy_workers(component_name)),
            ComponentSubcommand::Plugin { subcommand } => CommandProgress::Plugin { subcommand },
            ComponentSubcommand::Diagnose { component_name } => CommandProgress::Application(
                self.cmd_diagnose(component_name),
            ),
        }
    }
}

} // verus!
