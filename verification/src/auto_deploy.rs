//! Finding a component by name and, where it is part of the application but
//! not deployed yet, deploying it on the way.

use crate::deploy::{
    ApplicationComponentSelectMode, DeployError, DeployProgress, WorkerUpdateOrRedeployArgs,
};
use crate::handler::ComponentCommandHandler;
use crate::lookup::{lookup_start, LookupProgress};
use crate::model::{
    Component, ComponentName, ComponentNameMatchKind, ComponentSelection,
    ComponentVersionSelection, Failure, ProjectNameAndId, RemoteError,
};
use vstd::prelude::*;

verus! {

/// Why a component could neither be found nor deployed.
#[derive(Clone, Debug, PartialEq, Eq)]
pub enum AutoDeployError {
    /// The remote store failed.
    Remote(RemoteError),
    /// The component does not exist and is not part of the application.
    NotInApplication { component_name: ComponentName },
    /// The user could not be asked.
    Interaction(Failure),
    /// The user declined the deployment.
    Declined,
    /// The deployment failed.
    Deploy(DeployError),
    /// The deployment went through and the component is still not there.
    NotFoundAfterDeployment { component_name: ComponentName },
}

/// Asks for the lookup of `component_name` at the version selected.
#[derive(Debug, PartialEq, Eq)]
pub struct FindingComponent {
    pub project: Option<ProjectNameAndId>,
    pub component_name: ComponentName,
    pub version: Option<ComponentVersionSelection>,
    pub match_kind: ComponentNameMatchKind,
}

/// Asks the user whether `component_name` is to be deployed now.
#[derive(Debug, PartialEq, Eq)]
pub struct ConfirmingDeploy {
    pub project: Option<ProjectNameAndId>,
    pub component_name: ComponentName,
}

/// Asks for the deployment of `component_name` alone, selected from the
/// current directory, with the build's defaults and nothing done to workers.
#[derive(Debug, PartialEq, Eq)]
pub struct DeployingMissing {
    pub project: Option<ProjectNameAndId>,
    pub component_name: ComponentName,
}

/// Asks for the lookup of the latest version of `component_name`.
#[derive(Debug, PartialEq, Eq)]
pub struct FindingDeployed {
    pub project: Option<ProjectNameAndId>,
    pub component_name: ComponentName,
}

/// Where a lookup with deployment on the way stands.
#[derive(Debug, PartialEq, Eq)]
pub enum AutoDeployProgress {
    Find(FindingComponent),
    Confirm(ConfirmingDeploy),
    Deploy(DeployingMissing),
    FindDeployed(FindingDeployed),
    Done(Result<Component, AutoDeployError>),
}

/// Whether a missing component of that kind of match is offered for
/// deployment: it is where the name matched a component of the application.
pub open spec fn should_deploy(match_kind: ComponentNameMatchKind) -> bool {
    match_kind != ComponentNameMatchKind::Unknown
}

impl FindingComponent {
    /// Begins the lookup that this state asks for.
    pub fn begin(&self, handler: &ComponentCommandHandler) -> (first: LookupProgress)
        ensures
            first == lookup_start(
                self.project,
                ComponentSelection::Name(self.component_name),
                self.version,
            ),
    {
        handler.component(
            self.project.as_ref(),
            ComponentSelection::Name(self.component_name.duplicate()),
            match &self.version {
                Some(version) => Some(version.duplicate()),
                None => None,
            },
        )
    }

    /// A component that was found is the result. One that does not exist is
    /// offered for deployment where it belongs to the application, and is
    /// an error where it does not.
    pub open spec fn after_found(self, reply: Result<Option<Component>, RemoteError>) -> AutoDeployProgress {
        match reply {
            Err(e) => AutoDeployProgress::Done(Err(AutoDeployError::Remote(e))),
            Ok(Some(component)) => AutoDeployProgress::Done(Ok(component)),
            Ok(None) => if should_deploy(self.match_kind) {
                AutoDeployProgress::Confirm(
                    ConfirmingDeploy { project: self.project, component_name: self.component_name },
                )
            } else {
                AutoDeployProgress::Done(
                    Err(AutoDeployError::NotInApplication { component_name: self.component_name }),
                )
            },
        }
    }

    /// Takes the result of the lookup.
    pub fn found(self, reply: Result<Option<Component>, RemoteError>) -> (next: AutoDeployProgress)
        ensures
            next == self.after_found(reply),
    {
        match reply {
            Err(e) => AutoDeployProgress::Done(Err(AutoDeployError::Remote(e))),
            Ok(Some(component)) => AutoDeployProgress::Done(Ok(component)),
            Ok(None) => {
                let deploy = match self.match_kind {
                    ComponentNameMatchKind::AppCurrentDir => true,
                    ComponentNameMatchKind::App => true,
                    ComponentNameMatchKind::Unknown => false,
                };
                if deploy {
                    AutoDeployProgress::Confirm(
                        ConfirmingDeploy {
                            project: self.project,
                            component_name: self.component_name,
                        },
                    )
                } else {
                    AutoDeployProgress::Done(
                        Err(
                            AutoDeployError::NotInApplication {
                                component_name: self.component_name,
                            },
                        ),
                    )
                }
            },
        }
    }
}

impl ConfirmingDeploy {
    /// With the user's consent the component is deployed; without it the
    /// lookup fails.
    pub open spec fn after_confirmed(self, reply: Result<bool, Failure>) -> AutoDeployProgress {
        match reply {
            Err(failure) => AutoDeployProgress::Done(Err(AutoDeployError::Interaction(failure))),
            Ok(false) => AutoDeployProgress::Done(Err(AutoDeployError::Declined)),
            Ok(true) => AutoDeployProgress::Deploy(
                DeployingMissing { project: self.project, component_name: self.component_name },
            ),
        }
    }

    /// Takes the user's answer.
    pub fn confirmed(self, reply: Result<bool, Failure>) -> (next: AutoDeployProgress)
        ensures
            next == self.after_confirmed(reply),
    {
        match reply {
            Err(failure) => AutoDeployProgress::Done(Err(AutoDeployError::Interaction(failure))),
            Ok(false) => AutoDeployProgress::Done(Err(AutoDeployError::Declined)),
            Ok(true) => AutoDeployProgress::Deploy(
                DeployingMissing { project: self.project, component_name: self.component_name },
            ),
        }
    }
}

impl DeployingMissing {
    /// Begins the deployment that this state asks for: of this component
    /// alone, selected from the current directory, built as the build
    /// sees fit, with nothing done to workers.
    pub fn begin(&self, handler: &mut ComponentCommandHandler) -> (first: DeployProgress)
        ensures
            *final(handler) == *old(handler),
            old(handler).deploy_begins(
                first,
                self.project,
                seq![self.component_name],
                None,
                ApplicationComponentSelectMode::CurrentDir,
                WorkerUpdateOrRedeployArgs { update_workers: None, redeploy_workers: false },
            ),
    {
        let mut component_names: Vec<ComponentName> = Vec::new();
        component_names.push(self.component_name.duplicate());
        handler.deploy(
            self.project.as_ref(),
            component_names,
            None,
            ApplicationComponentSelectMode::CurrentDir,
            WorkerUpdateOrRedeployArgs { update_workers: None, redeploy_workers: false },
        )
    }

    /// After the deployment the component is looked up again, at its latest
    /// version.
    pub open spec fn after_deployed(self, reply: Result<(), DeployError>) -> AutoDeployProgress {
        match reply {
            Err(e) => AutoDeployProgress::Done(Err(AutoDeployError::Deploy(e))),
            Ok(()) => AutoDeployProgress::FindDeployed(
                FindingDeployed { project: self.project, component_name: self.component_name },
            ),
        }
    }

    /// Takes the result of the deployment.
    pub fn deployed(self, reply: Result<(), DeployError>) -> (next: AutoDeployProgress)
        ensures
            next == self.after_deployed(reply),
    {
        match reply {
            Err(e) => AutoDeployProgress::Done(Err(AutoDeployError::Deploy(e))),
            Ok(()) => AutoDeployProgress::FindDeployed(
                FindingDeployed { project: self.project, component_name: self.component_name },
            ),
        }
    }
}

impl FindingDeployed {
    /// Begins the lookup that this state asks for.
    pub fn begin(&self, handler: &ComponentCommandHandler) -> (first: LookupProgress)
        ensures
            first == lookup_start(
                self.project,
                ComponentSelection::Name(self.component_name),
                None,
            ),
    {
        handler.component(
            self.project.as_ref(),
            ComponentSelection::Name(self.component_name.duplicate()),
            None,
        )
    }

    /// The component as deployed; that it is still missing is an error.
    pub open spec fn after_found(self, reply: Result<Option<Component>, RemoteError>) -> AutoDeployProgress {
        match reply {
            Err(e) => AutoDeployProgress::Done(Err(AutoDeployError::Remote(e))),
            Ok(Some(component)) => AutoDeployProgress::Done(Ok(component)),
            Ok(None) => AutoDeployProgress::Done(
                Err(
                    AutoDeployError::NotFoundAfterDeployment {
                        component_name: self.component_name,
                    },
                ),
            ),
        }
    }

    /// Takes the result of the second lookup.
    pub fn found(self, reply: Result<Option<Component>, RemoteError>) -> (next: AutoDeployProgress)
        ensures
            next == self.after_found(reply),
    {
        match reply {
            Err(e) => AutoDeployProgress::Done(Err(AutoDeployError::Remote(e))),
            Ok(Some(component)) => AutoDeployProgress::Done(Ok(component)),
            Ok(None) => AutoDeployProgress::Done(
                Err(
                    AutoDeployError::NotFoundAfterDeployment {
                        component_name: self.component_name,
                    },
                ),
            ),
        }
    }
}

impl ComponentCommandHandler {
    /// Begins the lookup of `component_name`, with its deployment on the
    /// way where it is missing and the user agrees.
    pub fn component_by_name_with_auto_deploy(
        &self,
        project: Option<&ProjectNameAndId>,
        component_match_kind: ComponentNameMatchKind,
        component_name: &ComponentName,
        component_version_selection: Option<ComponentVersionSelection>,
    ) -> (first: AutoDeployProgress)
        ensures
            first == AutoDeployProgress::Find(
                FindingComponent {
                    project: match project {
                        Some(p) => Some(*p),
                        None => None,
                    },
                    component_name: *component_name,
                    version: component_version_selection,
                    match_kind: component_match_kind,
                },
            ),
    {
        AutoDeployProgress::Find(
            FindingComponent {
                project: match project {
                    Some(p) => Some(p.duplicate()),
                    None => None,
                },
                component_name: component_name.duplicate(),
                version: component_version_selection,
                match_kind: component_match_kind,
            },
        )
    }
}

/// Nothing is deployed without the user's consent, nor for a name that the
/// application does not know.
pub proof fn law_deployment_needs_application_and_consent(
    state: FindingComponent,
    reply: Result<Option<Component>, RemoteError>,
    answer: Result<bool, Failure>,
)
    ensures
        state.after_found(reply) is Confirm ==> reply == Ok::<Option<Component>, RemoteError>(None)
            && state.match_kind != ComponentNameMatchKind::Unknown,
        !(state.after_found(reply) is Deploy),
        state.after_found(reply) is Confirm ==> (state.after_found(
            reply,
        )->Confirm_0.after_confirmed(answer) is Deploy <==> answer == Ok::<bool, Failure>(true)),
{
}

} // verus!
