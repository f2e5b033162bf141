//! The values that the operations on components exchange.

use vstd::prelude::*;

verus! {

/// Identifies a component in the remote store.
#[derive(Clone, Copy, Debug, PartialEq, Eq, Hash)]
pub struct ComponentId(pub u128);

/// Identifies a project in the remote store.
#[derive(Clone, Copy, Debug, PartialEq, Eq, Hash)]
pub struct ProjectId(pub u128);

/// Names an account.
#[derive(Clone, Debug, PartialEq, Eq, Hash)]
pub struct AccountId(pub String);

/// Names a project.
#[derive(Clone, Debug, PartialEq, Eq, Hash)]
pub struct ProjectName(pub String);

/// Names a component.
#[derive(Clone, Debug, PartialEq, Eq, Hash)]
pub struct ComponentName(pub String);

/// Names a worker.
#[derive(Clone, Debug, PartialEq, Eq, Hash)]
pub struct WorkerName(pub String);

/// Names a build profile.
#[derive(Clone, Debug, PartialEq, Eq, Hash)]
pub struct BuildProfileName(pub String);

/// A project as the remote store knows it.
#[derive(Clone, Debug, PartialEq, Eq, Hash)]
pub struct ProjectNameAndId {
    pub project_name: ProjectName,
    pub project_id: ProjectId,
}

/// How the workers of a deployed component keep their state.
#[derive(Clone, Copy, Debug, PartialEq, Eq, Hash)]
pub enum ComponentType {
    Durable,
    Ephemeral,
}

/// One version of one component.
#[derive(Clone, Copy, Debug, PartialEq, Eq, Hash)]
pub struct VersionedComponentId {
    pub component_id: ComponentId,
    pub version: u64,
}

/// A snapshot of one version of a component, as the remote store returned it.
#[derive(Clone, Debug, PartialEq, Eq, Hash)]
pub struct Component {
    pub versioned_component_id: VersionedComponentId,
    pub component_name: ComponentName,
    pub component_type: ComponentType,
}

/// A component, by name or by id.
#[derive(Clone, Debug, PartialEq, Eq, Hash)]
pub enum ComponentSelection {
    Name(ComponentName),
    Id(ComponentId),
}

/// Which version of a component is wanted, where it is not the latest.
#[derive(Clone, Debug, PartialEq, Eq, Hash)]
pub enum ComponentVersionSelection {
    /// The version that the named worker runs.
    ByWorkerName(WorkerName),
    /// This version.
    ByExplicitVersion(u64),
}

/// How a component name was matched against the application.
#[derive(Clone, Copy, Debug, PartialEq, Eq, Hash)]
pub enum ComponentNameMatchKind {
    AppCurrentDir,
    App,
    Unknown,
}

/// How workers are brought to a new component version.
#[derive(Clone, Copy, Debug, PartialEq, Eq, Hash)]
pub enum WorkerUpdateMode {
    Automatic,
    Manual,
}

/// The components that one command works on.
#[derive(Clone, Debug, PartialEq, Eq, Hash)]
pub struct SelectedComponents {
    pub account_id: Option<AccountId>,
    pub project: Option<ProjectNameAndId>,
    pub component_names: Vec<ComponentName>,
}

/// A step outside this crate failed; the message is handed on unchanged.
#[derive(Clone, Debug, PartialEq, Eq, Hash)]
pub struct Failure {
    pub message: String,
}

/// How a call to the remote store failed.
#[derive(Clone, Debug, PartialEq, Eq, Hash)]
pub enum RemoteError {
    /// The store has no such component or version.
    NotFound,
    /// Anything else.
    Failed(Failure),
}

impl ComponentName {
    /// A copy of this name.
    pub fn duplicate(&self) -> (copy: Self)
        ensures
            copy == *self,
    {
        ComponentName(self.0.clone())
    }
}

impl ComponentVersionSelection {
    /// A copy of this selection.
    pub fn duplicate(&self) -> (copy: Self)
        ensures
            copy == *self,
    {
        match self {
            ComponentVersionSelection::ByWorkerName(worker_name) => {
                ComponentVersionSelection::ByWorkerName(WorkerName(worker_name.0.clone()))
            },
            ComponentVersionSelection::ByExplicitVersion(version) => {
                ComponentVersionSelection::ByExplicitVersion(*version)
            },
        }
    }
}

impl BuildProfileName {
    /// A copy of this name.
    pub fn duplicate(&self) -> (copy: Self)
        ensures
            copy == *self,
    {
        BuildProfileName(self.0.clone())
    }
}

impl ProjectNameAndId {
    /// A copy of this project.
    pub fn duplicate(&self) -> (copy: Self)
        ensures
            copy == *self,
    {
        ProjectNameAndId {
            project_name: ProjectName(self.project_name.0.clone()),
            project_id: self.project_id,
        }
    }
}

impl Component {
    /// The id under which the store keeps every version of this component.
    pub fn component_id(&self) -> (id: ComponentId)
        ensures
            id == self.versioned_component_id.component_id,
    {
        self.versioned_component_id.component_id
    }

    /// The version of this snapshot.
    pub fn version(&self) -> (version: u64)
        ensures
            version == self.versioned_component_id.version,
    {
        self.versioned_component_id.version
    }
}

} // verus!
