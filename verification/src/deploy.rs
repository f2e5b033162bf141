//! Deploying components: what is uploaded for each, whether it is created
//! or updated, and what happens to its workers afterwards.

use crate::handler::ComponentCommandHandler;
use crate::linking::{
    app_component_dynamic_linking, DynamicLinking, LinkingProgress, LinkingView,
};
use crate::lookup::{lookup_start, LookupProgress};
use crate::model::{
    BuildProfileName, Component, ComponentId, ComponentName, ComponentSelection, ComponentType,
    Failure, ProjectId, ProjectNameAndId, RemoteError, VersionedComponentId, WorkerUpdateMode,
};
use vstd::prelude::*;

verus! {

/// The type that the application declares for a component.
#[derive(Clone, Copy, Debug, PartialEq, Eq, Hash)]
pub enum AppComponentType {
    Durable,
    Ephemeral,
    /// Linked into other components, never deployed by itself.
    Library,
}

impl AppComponentType {
    /// The type under which a component of this declared type is deployed.
    pub open spec fn deployable_type(self) -> Option<ComponentType> {
        match self {
            AppComponentType::Durable => Some(ComponentType::Durable),
            AppComponentType::Ephemeral => Some(ComponentType::Ephemeral),
            AppComponentType::Library => None,
        }
    }

    /// The type under which a component of this declared type is deployed;
    /// none for a library.
    pub fn as_deployable_component_type(&self) -> (component_type: Option<ComponentType>)
        ensures
            component_type == self.deployable_type(),
    {
        match self {
            AppComponentType::Durable => Some(ComponentType::Durable),
            AppComponentType::Ephemeral => Some(ComponentType::Ephemeral),
            AppComponentType::Library => None,
        }
    }

    /// Whether a component of this declared type can be deployed.
    pub fn is_deployable(&self) -> (deployable: bool)
        ensures
            deployable == self.deployable_type() is Some,
    {
        match self {
            AppComponentType::Library => false,
            _ => true,
        }
    }
}

/// What workers may do with an initial file.
#[derive(Clone, Copy, Debug, PartialEq, Eq, Hash)]
pub enum ComponentFilePermissions {
    ReadOnly,
    ReadWrite,
}

/// A file that the workers of a component find when they start.
#[derive(Clone, Debug, PartialEq, Eq, Hash)]
pub struct InitialComponentFile {
    pub source_path: String,
    pub target_path: String,
    pub permissions: ComponentFilePermissions,
}

/// What the application says of a component under one build profile.
#[derive(Clone, Debug, PartialEq, Eq, Hash)]
pub struct ComponentProperties {
    pub component_type: AppComponentType,
    pub linked_wasm_path: String,
    pub files: Vec<InitialComponentFile>,
}

/// What is uploaded for one component.
#[derive(Debug, PartialEq, Eq)]
pub struct ComponentDeployProperties {
    pub component_type: ComponentType,
    pub linked_wasm_path: String,
    pub files: Vec<InitialComponentFile>,
    /// Absent, not empty, where the component has no dynamic dependency.
    pub dynamic_linking: Option<DynamicLinking>,
}

/// Where one initial file sits in the archive, and what workers may do with it.
#[derive(Clone, Debug, PartialEq, Eq, Hash)]
pub struct ComponentFilePathWithPermissions {
    pub path: String,
    pub permissions: ComponentFilePermissions,
}

/// The archive of the initial files of a component.
#[derive(Clone, Debug, PartialEq, Eq, Hash)]
pub struct IfsArchive {
    pub archive_path: String,
    pub properties: Vec<ComponentFilePathWithPermissions>,
}

/// Why a deployment failed.
#[derive(Clone, Debug, PartialEq, Eq)]
pub enum DeployError {
    /// The project to deploy in could not be chosen.
    Project(Failure),
    /// The build failed.
    Build(Failure),
    /// The application could not be read.
    Application(Failure),
    /// The component's declared type cannot be deployed.
    NotDeployable { component_name: ComponentName },
    /// The stubs of a dependency could not be resolved.
    Linking(Failure),
    /// The archive of the initial files could not be built.
    Archive(Failure),
    /// A file to upload could not be opened.
    File(Failure),
    /// The remote store failed or refused.
    Remote(RemoteError),
    /// The workers could not be redeployed.
    Workers(Failure),
}

/// Asks the application for the properties of `component_name`.
#[derive(Debug, PartialEq, Eq)]
pub struct ReadingProperties {
    pub component_name: ComponentName,
    pub build_profile: Option<BuildProfileName>,
}

/// Asks for the dynamic linking of `component_name`.
#[derive(Debug, PartialEq, Eq)]
pub struct ComputingLinking {
    pub component_name: ComponentName,
    pub component_type: ComponentType,
    pub linked_wasm_path: String,
    pub files: Vec<InitialComponentFile>,
}

/// Where the computation of what to upload for a component stands.
#[derive(Debug, PartialEq, Eq)]
pub enum PropertiesProgress {
    Properties(ReadingProperties),
    Linking(ComputingLinking),
    Done(Result<ComponentDeployProperties, DeployError>),
}

/// Begins the computation of what to upload for `component_name`.
pub fn component_deploy_properties(
    component_name: &ComponentName,
    build_profile: Option<&BuildProfileName>,
) -> (first: PropertiesProgress)
    ensures
        first == PropertiesProgress::Properties(
            ReadingProperties {
                component_name: *component_name,
                build_profile: match build_profile {
                    Some(profile) => Some(*profile),
                    None => None,
                },
            },
        ),
{
    PropertiesProgress::Properties(
        ReadingProperties {
            component_name: component_name.duplicate(),
            build_profile: match build_profile {
                Some(profile) => Some(profile.duplicate()),
                None => None,
            },
        },
    )
}

impl ReadingProperties {
    /// A library is refused; for any other component the linking is next.
    /// Properties that cannot be read end the computation.
    pub open spec fn after_read(
        self,
        reply: Result<ComponentProperties, Failure>,
    ) -> PropertiesProgress {
        match reply {
            Err(failure) => PropertiesProgress::Done(Err(DeployError::Application(failure))),
            Ok(properties) => match properties.component_type.deployable_type() {
                None => PropertiesProgress::Done(
                    Err(DeployError::NotDeployable { component_name: self.component_name }),
                ),
                Some(component_type) => PropertiesProgress::Linking(
                    ComputingLinking {
                        component_name: self.component_name,
                        component_type,
                        linked_wasm_path: properties.linked_wasm_path,
                        files: properties.files,
                    },
                ),
            },
        }
    }

    /// Takes what the application says of the component.
    pub fn read(self, reply: Result<ComponentProperties, Failure>) -> (next: PropertiesProgress)
        ensures
            next == self.after_read(reply),
    {
        match reply {
            Err(failure) => PropertiesProgress::Done(Err(DeployError::Application(failure))),
            Ok(properties) => match properties.component_type.as_deployable_component_type() {
                None => PropertiesProgress::Done(
                    Err(DeployError::NotDeployable { component_name: self.component_name }),
                ),
                Some(component_type) => PropertiesProgress::Linking(
                    ComputingLinking {
                        component_name: self.component_name,
                        component_type,
                        linked_wasm_path: properties.linked_wasm_path,
                        files: properties.files,
                    },
                ),
            },
        }
    }
}

impl ComputingLinking {
    /// Begins the computation that this state asks for.
    pub fn begin(&self) -> (first: LinkingProgress)
        ensures
            first@ == (LinkingView::Dependencies { component_name: self.component_name }),
    {
        app_component_dynamic_linking(&self.component_name)
    }

    /// The properties are complete with the linking; a failure to compute
    /// it is handed on.
    pub open spec fn after_linked(
        self,
        reply: Result<Option<DynamicLinking>, Failure>,
    ) -> PropertiesProgress {
        match reply {
            Err(failure) => PropertiesProgress::Done(Err(DeployError::Linking(failure))),
            Ok(dynamic_linking) => PropertiesProgress::Done(
                Ok(
                    ComponentDeployProperties {
                        component_type: self.component_type,
                        linked_wasm_path: self.linked_wasm_path,
                        files: self.files,
                        dynamic_linking,
                    },
                ),
            ),
        }
    }

    /// Takes the dynamic linking of the component.
    pub fn linked(self, reply: Result<Option<DynamicLinking>, Failure>) -> (next:
        PropertiesProgress)
        ensures
            next == self.after_linked(reply),
    {
        match reply {
            Err(failure) => PropertiesProgress::Done(Err(DeployError::Linking(failure))),
            Ok(dynamic_linking) => PropertiesProgress::Done(
                Ok(
                    ComponentDeployProperties {
                        component_type: self.component_type,
                        linked_wasm_path: self.linked_wasm_path,
                        files: self.files,
                        dynamic_linking,
                    },
                ),
            ),
        }
    }
}

/// Whether a deployment makes a new component or a new version of one.
#[derive(Clone, Debug, PartialEq, Eq, Hash)]
pub enum DeployTarget {
    /// There is no component of that name yet.
    Create { component_name: ComponentName, project: Option<ProjectId> },
    /// The component exists: it keeps its id.
    Update { component_id: ComponentId },
}

/// Create where the lookup found nothing, update of what it found otherwise.
pub open spec fn deploy_target(
    existing: Option<ComponentId>,
    component_name: ComponentName,
    project: Option<ProjectNameAndId>,
) -> DeployTarget {
    match existing {
        Some(component_id) => DeployTarget::Update { component_id },
        None => DeployTarget::Create {
            component_name,
            project: match project {
                Some(p) => Some(p.project_id),
                None => None,
            },
        },
    }
}

/// Asks for the id of the component named `component_name`, if it exists.
#[derive(Debug, PartialEq, Eq)]
pub struct LookingUp {
    pub project: Option<ProjectNameAndId>,
    pub component_name: ComponentName,
    pub build_profile: Option<BuildProfileName>,
}

/// Asks for what is to be uploaded for `component_name`.
#[derive(Debug, PartialEq, Eq)]
pub struct ComputingProperties {
    pub component_name: ComponentName,
    pub build_profile: Option<BuildProfileName>,
    pub target: DeployTarget,
}

/// Asks for the archive of `files`.
#[derive(Debug, PartialEq, Eq)]
pub struct BuildingArchive {
    pub files: Vec<InitialComponentFile>,
    pub target: DeployTarget,
    pub component_type: ComponentType,
    pub linked_wasm_path: String,
    pub dynamic_linking: Option<DynamicLinking>,
}

/// Asks the store to create or update the component with the linked
/// artifact, and with the archive where there is one.
#[derive(Debug, PartialEq, Eq)]
pub struct Uploading {
    pub target: DeployTarget,
    pub component_type: ComponentType,
    pub linked_wasm_path: String,
    /// Absent, not empty, where the component has no initial file.
    pub archive: Option<IfsArchive>,
    pub dynamic_linking: Option<DynamicLinking>,
}

/// Where the deployment of one component stands.
#[derive(Debug, PartialEq, Eq)]
pub enum ComponentDeployProgress {
    Lookup(LookingUp),
    Properties(ComputingProperties),
    Archive(BuildingArchive),
    Upload(Uploading),
    Done(Result<Component, DeployError>),
}

impl LookingUp {
    /// Begins the lookup that this state asks for: that of the latest
    /// version of the component, by its name.
    pub fn begin(&self, handler: &ComponentCommandHandler) -> (first: LookupProgress)
        ensures
            first == lookup_start(
                self.project,
                ComponentSelection::Name(self.component_name),
                None,
            ),
    {
        handler.component_id_by_name(self.project.as_ref(), &self.component_name)
    }

    /// The target is settled by the lookup, before anything is computed. A
    /// failed lookup ends the deployment.
    pub open spec fn after_looked_up(
        self,
        reply: Result<Option<ComponentId>, RemoteError>,
    ) -> ComponentDeployProgress {
        match reply {
            Err(e) => ComponentDeployProgress::Done(Err(DeployError::Remote(e))),
            Ok(existing) => ComponentDeployProgress::Properties(
                ComputingProperties {
                    component_name: self.component_name,
                    build_profile: self.build_profile,
                    target: deploy_target(existing, self.component_name, self.project),
                },
            ),
        }
    }

    /// Takes the result of the lookup.
    pub fn looked_up(self, reply: Result<Option<ComponentId>, RemoteError>) -> (next:
        ComponentDeployProgress)
        ensures
            next == self.after_looked_up(reply),
    {
        match reply {
            Err(e) => ComponentDeployProgress::Done(Err(DeployError::Remote(e))),
            Ok(existing) => {
                let target = match existing {
                    Some(component_id) => DeployTarget::Update { component_id },
                    None => DeployTarget::Create {
                        component_name: self.component_name.duplicate(),
                        project: match &self.project {
                            Some(p) => Some(p.project_id),
                            None => None,
                        },
                    },
                };
                ComponentDeployProgress::Properties(
                    ComputingProperties {
                        component_name: self.component_name,
                        build_profile: self.build_profile,
                        target,
                    },
                )
            },
        }
    }
}

impl ComputingProperties {
    /// Begins the computation that this state asks for.
    pub fn begin(&self) -> (first: PropertiesProgress)
        ensures
            first == PropertiesProgress::Properties(
                ReadingProperties {
                    component_name: self.component_name,
                    build_profile: self.build_profile,
                },
            ),
    {
        component_deploy_properties(&self.component_name, self.build_profile.as_ref())
    }

    /// With initial files their archive is built first; without any the
    /// upload is next, and carries no archive.
    pub open spec fn after_computed(
        self,
        reply: Result<ComponentDeployProperties, DeployError>,
    ) -> ComponentDeployProgress {
        match reply {
            Err(e) => ComponentDeployProgress::Done(Err(e)),
            Ok(properties) => if properties.files@.len() > 0 {
                ComponentDeployProgress::Archive(
                    BuildingArchive {
                        files: properties.files,
                        target: self.target,
                        component_type: properties.component_type,
                        linked_wasm_path: properties.linked_wasm_path,
                        dynamic_linking: properties.dynamic_linking,
                    },
                )
            } else {
                ComponentDeployProgress::Upload(
                    Uploading {
                        target: self.target,
                        component_type: properties.component_type,
                        linked_wasm_path: properties.linked_wasm_path,
                        archive: None,
                        dynamic_linking: properties.dynamic_linking,
                    },
                )
            },
        }
    }

    /// Takes what is to be uploaded.
    pub fn computed(self, reply: Result<ComponentDeployProperties, DeployError>) -> (next:
        ComponentDeployProgress)
        ensures
            next == self.after_computed(reply),
    {
        match reply {
            Err(e) => ComponentDeployProgress::Done(Err(e)),
            Ok(properties) => if properties.files.len() > 0 {
                ComponentDeployProgress::Archive(
                    BuildingArchive {
                        files: properties.files,
                        target: self.target,
                        component_type: properties.component_type,
                        linked_wasm_path: properties.linked_wasm_path,
                        dynamic_linking: properties.dynamic_linking,
                    },
                )
            } else {
                ComponentDeployProgress::Upload(
                    Uploading {
                        target: self.target,
                        component_type: properties.component_type,
                        linked_wasm_path: properties.linked_wasm_path,
                        archive: None,
                        dynamic_linking: properties.dynamic_linking,
                    },
                )
            },
        }
    }
}

impl BuildingArchive {
    /// The upload carries the archive; a failure to build it ends the
    /// deployment.
    pub open spec fn after_archived(self, reply: Result<IfsArchive, Failure>) -> ComponentDeployProgress {
        match reply {
            Err(failure) => ComponentDeployProgress::Done(Err(DeployError::Archive(failure))),
            Ok(archive) => ComponentDeployProgress::Upload(
                Uploading {
                    target: self.target,
                    component_type: self.component_type,
                    linked_wasm_path: self.linked_wasm_path,
                    archive: Some(archive),
                    dynamic_linking: self.dynamic_linking,
                },
            ),
        }
    }

    /// Takes the archive of the initial files.
    pub fn archived(self, reply: Result<IfsArchive, Failure>) -> (next: ComponentDeployProgress)
        ensures
            next == self.after_archived(reply),
    {
        match reply {
            Err(failure) => ComponentDeployProgress::Done(Err(DeployError::Archive(failure))),
            Ok(archive) => ComponentDeployProgress::Upload(
                Uploading {
                    target: self.target,
                    component_type: self.component_type,
                    linked_wasm_path: self.linked_wasm_path,
                    archive: Some(archive),
                    dynamic_linking: self.dynamic_linking,
                },
            ),
        }
    }
}

impl Uploading {
    /// Takes the store's answer: the component as deployed, or the error,
    /// unchanged.
    pub fn uploaded(self, reply: Result<Component, DeployError>) -> (next: ComponentDeployProgress)
        ensures
            next == ComponentDeployProgress::Done(reply),
    {
        ComponentDeployProgress::Done(reply)
    }
}

impl ComponentCommandHandler {
    /// Begins the deployment of `component_name`.
    pub fn deploy_component(
        &mut self,
        build_profile: Option<&BuildProfileName>,
        project: Option<&ProjectNameAndId>,
        component_name: &ComponentName,
    ) -> (first: ComponentDeployProgress)
        ensures
            *final(self) == *old(self),
            first == ComponentDeployProgress::Lookup(
                LookingUp {
                    project: match project {
                        Some(p) => Some(*p),
                        None => None,
                    },
                    component_name: *component_name,
                    build_profile: match build_profile {
                        Some(profile) => Some(*profile),
                        None => None,
                    },
                },
            ),
    {
        ComponentDeployProgress::Lookup(
            LookingUp {
                project: match project {
                    Some(p) => Some(p.duplicate()),
                    None => None,
                },
                component_name: component_name.duplicate(),
                build_profile: match build_profile {
                    Some(profile) => Some(profile.duplicate()),
                    None => None,
                },
            },
        )
    }
}

/// What a deployment answers on its way to the upload, as far as the route
/// depends on it.
pub open spec fn upload_of(
    state: LookingUp,
    existing: Option<ComponentId>,
    properties: ComponentDeployProperties,
    archive: IfsArchive,
) -> ComponentDeployProgress {
    match state.after_looked_up(Ok(existing)) {
        ComponentDeployProgress::Properties(computing) => match computing.after_computed(
            Ok(properties),
        ) {
            ComponentDeployProgress::Archive(building) => building.after_archived(Ok(archive)),
            next => next,
        },
        next => next,
    }
}

/// What goes to the store for a component with these properties: the
/// archive only where there are initial files, everything else as the
/// properties have it.
pub open spec fn upload_for(
    target: DeployTarget,
    properties: ComponentDeployProperties,
    archive: IfsArchive,
) -> Uploading {
    Uploading {
        target,
        component_type: properties.component_type,
        linked_wasm_path: properties.linked_wasm_path,
        archive: if properties.files@.len() > 0 {
            Some(archive)
        } else {
            None
        },
        dynamic_linking: properties.dynamic_linking,
    }
}

/// A deployment creates the component where the lookup found none of its
/// name, and updates the component that the lookup found otherwise, under
/// the id that it was found with; files and linking do not change the
/// route, and what is uploaded is what the properties say.
pub proof fn law_deploy_routes_by_lookup(
    state: LookingUp,
    existing: Option<ComponentId>,
    properties: ComponentDeployProperties,
    archive: IfsArchive,
)
    ensures
        upload_of(state, existing, properties, archive) == ComponentDeployProgress::Upload(
            upload_for(
                deploy_target(existing, state.component_name, state.project),
                properties,
                archive,
            ),
        ),
        (existing is None) == (deploy_target(existing, state.component_name, state.project)
            is Create),
        existing is Some ==> deploy_target(existing, state.component_name, state.project) == (
        DeployTarget::Update { component_id: existing->Some_0 }),
{
}

/// A deployment ends without an upload exactly where the lookup fails, the
/// properties cannot be computed, or the archive cannot be built; the
/// error is that of the step that failed.
pub proof fn law_deploy_fails_before_upload(
    state: LookingUp,
    lookup: Result<Option<ComponentId>, RemoteError>,
    properties: Result<ComponentDeployProperties, DeployError>,
    archive: Result<IfsArchive, Failure>,
)
    ensures
        lookup matches Err(e) ==> state.after_looked_up(lookup) == ComponentDeployProgress::Done(
            Err(DeployError::Remote(e)),
        ),
        lookup is Ok ==> (state.after_looked_up(lookup) is Properties),
        lookup is Ok && properties is Err ==> state.after_looked_up(
            lookup,
        )->Properties_0.after_computed(properties) == ComponentDeployProgress::Done(
            Err(properties->Err_0),
        ),
        lookup is Ok && properties is Ok && properties->Ok_0.files@.len() > 0 && archive is Err
            ==> state.after_looked_up(lookup)->Properties_0.after_computed(
            properties,
        )->Archive_0.after_archived(archive) == ComponentDeployProgress::Done(
            Err(DeployError::Archive(archive->Err_0)),
        ),
{
}

/// The component that the store answers an upload with, as far as its id
/// and version go: a new component gets the id `fresh` and version 0, an
/// update keeps the id and has the version after `latest`.
pub open spec fn stored(target: DeployTarget, latest: u64, fresh: ComponentId) -> VersionedComponentId {
    match target {
        DeployTarget::Create { .. } => VersionedComponentId { component_id: fresh, version: 0 },
        DeployTarget::Update { component_id } => VersionedComponentId {
            component_id,
            version: (latest + 1) as u64,
        },
    }
}

/// Deploying a name again updates the same component: whether the first
/// deployment created the component or updated it, the second one, which
/// finds what the first one stored, updates under that same id, and the
/// store keeps the id.
pub proof fn law_component_id_stable_across_updates(
    component_name: ComponentName,
    project: Option<ProjectNameAndId>,
    existing: Option<VersionedComponentId>,
    fresh: ComponentId,
    other: ComponentId,
)
    ensures
        ({
            let first = deploy_target(
                match existing {
                    Some(found) => Some(found.component_id),
                    None => None,
                },
                component_name,
                project,
            );
            let latest = match existing {
                Some(found) => found.version,
                None => 0,
            };
            let deployed = stored(first, latest, fresh);
            let second = deploy_target(Some(deployed.component_id), component_name, project);
            &&& second == DeployTarget::Update { component_id: deployed.component_id }
            &&& stored(second, deployed.version, other).component_id == deployed.component_id
            &&& existing is Some ==> deployed.component_id == existing->Some_0.component_id
        }),
{
}

/// A step of the build.
#[derive(Clone, Copy, Debug, PartialEq, Eq, Hash)]
pub enum AppBuildStep {
    GenRpc,
    Componentize,
    Link,
}

/// Whether to build what is up to date.
#[derive(Clone, Copy, Debug, PartialEq, Eq, Hash)]
pub struct ForceBuildArg {
    pub force_build: bool,
}

/// What to build: the steps given, or all of them where none is given.
#[derive(Clone, Debug, PartialEq, Eq, Hash)]
pub struct BuildArgs {
    pub step: Vec<AppBuildStep>,
    pub force_build: ForceBuildArg,
}

/// Which components of the application a command selects where none is named.
#[derive(Clone, Debug, PartialEq, Eq, Hash)]
pub enum ApplicationComponentSelectMode {
    CurrentDir,
    All,
    Explicit(Vec<ComponentName>),
}

/// What to do to the workers of the components that were deployed.
#[derive(Clone, Copy, Debug, PartialEq, Eq, Hash)]
pub struct WorkerUpdateOrRedeployArgs {
    pub update_workers: Option<WorkerUpdateMode>,
    pub redeploy_workers: bool,
}

/// A component that the application has selected, with its declared type.
#[derive(Clone, Debug, PartialEq, Eq, Hash)]
pub struct SelectedAppComponent {
    pub name: ComponentName,
    pub component_type: AppComponentType,
}

/// Asks for the build of `component_names`; the answer is what the
/// application has selected after it.
#[derive(Debug, PartialEq, Eq)]
pub struct Building {
    pub component_names: Vec<ComponentName>,
    pub build: Option<BuildArgs>,
    pub select_mode: ApplicationComponentSelectMode,
    pub project: Option<ProjectNameAndId>,
    pub build_profile: Option<BuildProfileName>,
    pub update_or_redeploy: WorkerUpdateOrRedeployArgs,
}

/// Asks for the deployment of `component_name`.
#[derive(Debug, PartialEq, Eq)]
pub struct DeployingComponent {
    pub component_name: ComponentName,
    pub project: Option<ProjectNameAndId>,
    pub build_profile: Option<BuildProfileName>,
    /// The components whose turn comes after `component_name`.
    pub rest: Vec<ComponentName>,
    /// The components that were deployed before it.
    pub deployed: Vec<Component>,
    pub update_or_redeploy: WorkerUpdateOrRedeployArgs,
}

/// Where a deployment of several components stands.
#[derive(Debug, PartialEq, Eq)]
pub enum DeployProgress {
    Build(Building),
    Component(DeployingComponent),
    /// All are deployed; what is left is the update of their workers.
    UpdateWorkers { components: Vec<Component>, update: WorkerUpdateMode },
    /// All are deployed; what is left is the redeployment of their workers.
    RedeployWorkers { components: Vec<Component> },
    Done(Result<(), DeployError>),
}

/// What a `DeployProgress` stands for.
pub enum DeployView {
    Build(Building),
    Component {
        component_name: ComponentName,
        project: Option<ProjectNameAndId>,
        build_profile: Option<BuildProfileName>,
        rest: Seq<ComponentName>,
        deployed: Seq<Component>,
        update_or_redeploy: WorkerUpdateOrRedeployArgs,
    },
    UpdateWorkers { components: Seq<Component>, update: WorkerUpdateMode },
    RedeployWorkers { components: Seq<Component> },
    Done(Result<(), DeployError>),
}

impl View for DeployProgress {
    type V = DeployView;

    open spec fn view(&self) -> DeployView {
        match *self {
            DeployProgress::Build(state) => DeployView::Build(state),
            DeployProgress::Component(state) => DeployView::Component {
                component_name: state.component_name,
                project: state.project,
                build_profile: state.build_profile,
                rest: state.rest@,
                deployed: state.deployed@,
                update_or_redeploy: state.update_or_redeploy,
            },
            DeployProgress::UpdateWorkers { components, update } => DeployView::UpdateWorkers {
                components: components@,
                update,
            },
            DeployProgress::RedeployWorkers { components } => DeployView::RedeployWorkers {
                components: components@,
            },
            DeployProgress::Done(outcome) => DeployView::Done(outcome),
        }
    }
}

/// The names of the selected components that can be deployed, in the order
/// of the selection.
pub open spec fn deployable_names(selected: Seq<SelectedAppComponent>) -> Seq<ComponentName>
    decreases selected.len(),
{
    if selected.len() == 0 {
        Seq::empty()
    } else {
        let earlier = deployable_names(selected.drop_last());
        if selected.last().component_type.deployable_type() is Some {
            earlier.push(selected.last().name)
        } else {
            earlier
        }
    }
}

/// What is left to do once every component is deployed: the update of the
/// workers where one is asked for, else their redeployment where that is
/// asked for, else nothing.
pub open spec fn follow_up(
    deployed: Seq<Component>,
    update_or_redeploy: WorkerUpdateOrRedeployArgs,
) -> DeployView {
    match update_or_redeploy.update_workers {
        Some(update) => DeployView::UpdateWorkers { components: deployed, update },
        None => if update_or_redeploy.redeploy_workers {
            DeployView::RedeployWorkers { components: deployed }
        } else {
            DeployView::Done(Ok(()))
        },
    }
}

/// With `deployed` done and `rest` to go: the deployment of the first of
/// `rest`, or, with none left, what follows the deployments.
pub open spec fn deploy_step(
    rest: Seq<ComponentName>,
    deployed: Seq<Component>,
    project: Option<ProjectNameAndId>,
    build_profile: Option<BuildProfileName>,
    update_or_redeploy: WorkerUpdateOrRedeployArgs,
) -> DeployView {
    if rest.len() > 0 {
        DeployView::Component {
            component_name: rest[0],
            project,
            build_profile,
            rest: rest.drop_first(),
            deployed,
            update_or_redeploy,
        }
    } else {
        follow_up(deployed, update_or_redeploy)
    }
}

/// A deployment after `reply` came back for its current component: a
/// failure ends it, and the components in `rest` are left alone.
pub open spec fn deploy_resumed(
    rest: Seq<ComponentName>,
    deployed: Seq<Component>,
    project: Option<ProjectNameAndId>,
    build_profile: Option<BuildProfileName>,
    update_or_redeploy: WorkerUpdateOrRedeployArgs,
    reply: Result<Component, DeployError>,
) -> DeployView {
    match reply {
        Err(e) => DeployView::Done(Err(e)),
        Ok(component) => deploy_step(
            rest,
            deployed.push(component),
            project,
            build_profile,
            update_or_redeploy,
        ),
    }
}

/// Picks the names of the components that can be deployed.
pub fn deployable_component_names(selected: &Vec<SelectedAppComponent>) -> (names: Vec<
    ComponentName,
>)
    ensures
        names@ == deployable_names(selected@),
{
    let mut names: Vec<ComponentName> = Vec::new();
    let n = selected.len();
    let mut i: usize = 0;
    while i < n
        invariant
            n == selected@.len(),
            i <= n,
            names@ == deployable_names(selected@.take(i as int)),
        decreases n - i,
    {
        proof {
            assert(selected@.take(i + 1).drop_last() =~= selected@.take(i as int));
        }
        if selected[i].component_type.is_deployable() {
            names.push(selected[i].name.duplicate());
        }
        i = i + 1;
    }
    proof {
        assert(selected@.take(n as int) =~= selected@);
    }
    names
}

fn next_deployment(
    rest: Vec<ComponentName>,
    deployed: Vec<Component>,
    project: Option<ProjectNameAndId>,
    build_profile: Option<BuildProfileName>,
    update_or_redeploy: WorkerUpdateOrRedeployArgs,
) -> (next: DeployProgress)
    ensures
        next@ == deploy_step(rest@, deployed@, project, build_profile, update_or_redeploy),
{
    if rest.len() > 0 {
        let mut later = rest;
        let component_name = later.remove(0);
        DeployProgress::Component(
            DeployingComponent {
                component_name,
                project,
                build_profile,
                rest: later,
                deployed,
                update_or_redeploy,
            },
        )
    } else {
        match update_or_redeploy.update_workers {
            Some(update) => DeployProgress::UpdateWorkers { components: deployed, update },
            None => if update_or_redeploy.redeploy_workers {
                DeployProgress::RedeployWorkers { components: deployed }
            } else {
                DeployProgress::Done(Ok(()))
            },
        }
    }
}

impl Building {
    /// Takes what the application has selected after the build, or the
    /// failure of the build, which ends the deployment. Of the selection,
    /// the components that can be deployed are deployed, in their order;
    /// the others are passed over.
    pub fn built(self, reply: Result<Vec<SelectedAppComponent>, Failure>) -> (next: DeployProgress)
        ensures
            next@ == match reply {
                Err(failure) => DeployView::Done(Err(DeployError::Build(failure))),
                Ok(selected) => deploy_step(
                    deployable_names(selected@),
                    Seq::empty(),
                    self.project,
                    self.build_profile,
                    self.update_or_redeploy,
                ),
            },
    {
        match reply {
            Err(failure) => DeployProgress::Done(Err(DeployError::Build(failure))),
            Ok(selected) => {
                let names = deployable_component_names(&selected);
                next_deployment(
                    names,
                    Vec::new(),
                    self.project,
                    self.build_profile,
                    self.update_or_redeploy,
                )
            },
        }
    }
}

impl DeployingComponent {
    /// Begins the deployment that this state asks for.
    pub fn begin(&self, handler: &mut ComponentCommandHandler) -> (first: ComponentDeployProgress)
        ensures
            *final(handler) == *old(handler),
            first == ComponentDeployProgress::Lookup(
                LookingUp {
                    project: self.project,
                    component_name: self.component_name,
                    build_profile: self.build_profile,
                },
            ),
    {
        handler.deploy_component(
            self.build_profile.as_ref(),
            self.project.as_ref(),
            &self.component_name,
        )
    }

    /// Takes the component as deployed, or the failure, which ends the
    /// deployment.
    pub fn deployed(self, reply: Result<Component, DeployError>) -> (next: DeployProgress)
        ensures
            next@ == deploy_resumed(
                self.rest@,
                self.deployed@,
                self.project,
                self.build_profile,
                self.update_or_redeploy,
                reply,
            ),
    {
        match reply {
            Err(e) => DeployProgress::Done(Err(e)),
            Ok(component) => {
                let mut deployed = self.deployed;
                deployed.push(component);
                next_deployment(
                    self.rest,
                    deployed,
                    self.project,
                    self.build_profile,
                    self.update_or_redeploy,
                )
            },
        }
    }
}

/// The build that a deployment asks for: every step, forced or not as
/// `force_build` says; the build's own defaults where it says nothing.
pub open spec fn build_asked(build: Option<BuildArgs>, force_build: Option<ForceBuildArg>) -> bool {
    match force_build {
        None => build is None,
        Some(force) => build is Some && build->Some_0.step@.len() == 0 && build->Some_0.force_build
            == force,
    }
}

impl ComponentCommandHandler {
    /// `first` is the beginning of a deployment with these arguments: the
    /// request for the build, with everything else kept for later.
    pub open spec fn deploy_begins(
        &self,
        first: DeployProgress,
        project: Option<ProjectNameAndId>,
        component_names: Seq<ComponentName>,
        force_build: Option<ForceBuildArg>,
        default_component_select_mode: ApplicationComponentSelectMode,
        update_or_redeploy: WorkerUpdateOrRedeployArgs,
    ) -> bool {
        &&& first matches DeployProgress::Build(state)
        &&& state.component_names@ == component_names
        &&& build_asked(state.build, force_build)
        &&& state.select_mode == default_component_select_mode
        &&& state.project == project
        &&& state.build_profile == self.context().build_profile
        &&& state.update_or_redeploy == update_or_redeploy
    }

    /// Begins the deployment of `component_names`, or of what the
    /// application selects by `default_component_select_mode` where no name
    /// is given. The build comes first.
    pub fn deploy(
        &mut self,
        project: Option<&ProjectNameAndId>,
        component_names: Vec<ComponentName>,
        force_build: Option<ForceBuildArg>,
        default_component_select_mode: ApplicationComponentSelectMode,
        update_or_redeploy: WorkerUpdateOrRedeployArgs,
    ) -> (first: DeployProgress)
        ensures
            *final(self) == *old(self),
            old(self).deploy_begins(
                first,
                match project {
                    Some(p) => Some(*p),
                    None => None,
                },
                component_names@,
                force_build,
                default_component_select_mode,
                update_or_redeploy,
            ),
    {
        let build = match force_build {
            Some(force_build) => Some(BuildArgs { step: Vec::new(), force_build }),
            None => None,
        };
        DeployProgress::Build(
            Building {
                component_names,
                build,
                select_mode: default_component_select_mode,
                project: match project {
                    Some(p) => Some(p.duplicate()),
                    None => None,
                },
                build_profile: self.build_profile(),
                update_or_redeploy,
            },
        )
    }
}

/// What a deployment has asked to deploy and where it stands, after the
/// replies have come in, one for each request, for as long as a component
/// is to be deployed.
pub open spec fn deploy_run(
    progress: DeployView,
    replies: Seq<Result<Component, DeployError>>,
) -> (Seq<ComponentName>, DeployView)
    decreases replies.len(),
{
    match progress {
        DeployView::Component {
            component_name,
            project,
            build_profile,
            rest,
            deployed,
            update_or_redeploy,
        } => if replies.len() == 0 {
            (seq![component_name], progress)
        } else {
            let later = deploy_run(
                deploy_resumed(
                    rest,
                    deployed,
                    project,
                    build_profile,
                    update_or_redeploy,
                    replies[0],
                ),
                replies.drop_first(),
            );
            (seq![component_name] + later.0, later.1)
        },
        _ => (Seq::empty(), progress),
    }
}

/// The components that a sequence of successful replies holds.
pub open spec fn deployed_of(replies: Seq<Result<Component, DeployError>>) -> Seq<Component> {
    Seq::new(replies.len(), |i: int| replies[i]->Ok_0)
}

/// Where every deployment succeeds, every component is deployed, in order,
/// and what follows works on all of them, in that order.
pub proof fn law_deploy_visits_every_component(
    names: Seq<ComponentName>,
    deployed: Seq<Component>,
    project: Option<ProjectNameAndId>,
    build_profile: Option<BuildProfileName>,
    update_or_redeploy: WorkerUpdateOrRedeployArgs,
    replies: Seq<Result<Component, DeployError>>,
)
    requires
        replies.len() == names.len(),
        forall|i: int| 0 <= i < replies.len() ==> (#[trigger] replies[i]) is Ok,
    ensures
        deploy_run(deploy_step(names, deployed, project, build_profile, update_or_redeploy), replies)
            == (names, follow_up(deployed + deployed_of(replies), update_or_redeploy)),
    decreases names.len(),
{
    if names.len() > 0 {
        let later = replies.drop_first();
        let grown = deployed.push(replies[0]->Ok_0);
        law_deploy_visits_every_component(
            names.drop_first(),
            grown,
            project,
            build_profile,
            update_or_redeploy,
            later,
        );
        assert(grown + deployed_of(later) =~= deployed + deployed_of(replies));
        let run = deploy_run(
            deploy_step(names.drop_first(), grown, project, build_profile, update_or_redeploy),
            later,
        );
    }
}

/// The first deployment that fails ends the whole: no later component is
/// deployed, and nothing is done to any worker.
pub proof fn law_deploy_stops_at_first_failure(
    names: Seq<ComponentName>,
    deployed: Seq<Component>,
    project: Option<ProjectNameAndId>,
    build_profile: Option<BuildProfileName>,
    update_or_redeploy: WorkerUpdateOrRedeployArgs,
    replies: Seq<Result<Component, DeployError>>,
    failed: int,
)
    requires
        0 <= failed < replies.len() <= names.len(),
        replies[failed] is Err,
        forall|i: int| 0 <= i < failed ==> (#[trigger] replies[i]) is Ok,
    ensures
        deploy_run(deploy_step(names, deployed, project, build_profile, update_or_redeploy), replies)
            == (names.take(failed + 1), DeployView::Done(Err(replies[failed]->Err_0))),
    decreases failed,
{
    let later = replies.drop_first();
    if failed == 0 {
        let done = DeployView::Done(Err(replies[0]->Err_0));
        assert(deploy_run(done, later).0 =~= Seq::<ComponentName>::empty());
    } else {
        law_deploy_stops_at_first_failure(
            names.drop_first(),
            deployed.push(replies[0]->Ok_0),
            project,
            build_profile,
            update_or_redeploy,
            later,
            failed - 1,
        );
    }
}

} // verus!
