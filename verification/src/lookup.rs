//! Finding one component in the remote store: by name or by id, at its latest
//! version, at the version a worker runs, or at a version given outright.

use crate::handler::ComponentCommandHandler;
use crate::model::{
    Component, ComponentId, ComponentName, ComponentSelection, ComponentVersionSelection, Failure,
    ProjectId, ProjectNameAndId, RemoteError, WorkerName,
};
use vstd::prelude::*;

verus! {

/// Asks the store for every version of the component named `name`.
#[derive(Clone, Debug, PartialEq, Eq)]
pub struct Listing {
    pub project: Option<ProjectId>,
    pub name: ComponentName,
    pub version: Option<ComponentVersionSelection>,
}

/// Asks the store for the latest version of the component `component_id`.
#[derive(Clone, Debug, PartialEq, Eq)]
pub struct FetchingLatest {
    pub component_id: ComponentId,
    pub version: Option<ComponentVersionSelection>,
}

/// Asks for the version that worker `worker_name` of `found` runs.
#[derive(Clone, Debug, PartialEq, Eq)]
pub struct ResolvingWorker {
    pub found: Component,
    pub worker_name: WorkerName,
}

/// Asks the store for version `version` of the component `component_id`.
#[derive(Clone, Debug, PartialEq, Eq)]
pub struct FetchingVersion {
    pub component_id: ComponentId,
    pub version: u64,
}

/// Where a lookup stands: the request to perform next, or the result.
#[derive(Debug, PartialEq, Eq)]
pub enum LookupProgress {
    List(Listing),
    Latest(FetchingLatest),
    Worker(ResolvingWorker),
    Version(FetchingVersion),
    /// `Ok(None)` says that the component does not exist.
    Done(Result<Option<Component>, RemoteError>),
}

/// How a lookup begins: by name with a listing, by id with the latest version.
pub open spec fn lookup_start(
    project: Option<ProjectNameAndId>,
    selection: ComponentSelection,
    version: Option<ComponentVersionSelection>,
) -> LookupProgress {
    match selection {
        ComponentSelection::Name(name) => LookupProgress::List(
            Listing {
                project: match project {
                    Some(p) => Some(p.project_id),
                    None => None,
                },
                name,
                version,
            },
        ),
        ComponentSelection::Id(component_id) => LookupProgress::Latest(
            FetchingLatest { component_id, version },
        ),
    }
}

/// How a lookup goes on once `found` is known: done where no version was
/// asked for, else on to the worker or to the version.
pub open spec fn pinned(
    found: Component,
    version: Option<ComponentVersionSelection>,
) -> LookupProgress {
    match version {
        None => LookupProgress::Done(Ok(Some(found))),
        Some(ComponentVersionSelection::ByWorkerName(worker_name)) => LookupProgress::Worker(
            ResolvingWorker { found, worker_name },
        ),
        Some(ComponentVersionSelection::ByExplicitVersion(version)) => LookupProgress::Version(
            FetchingVersion { component_id: found.versioned_component_id.component_id, version },
        ),
    }
}

/// Goes on with `found` as `pinned` says.
pub fn pin(found: Component, version: Option<ComponentVersionSelection>) -> (next: LookupProgress)
    ensures
        next == pinned(found, version),
{
    match version {
        None => LookupProgress::Done(Ok(Some(found))),
        Some(ComponentVersionSelection::ByWorkerName(worker_name)) => LookupProgress::Worker(
            ResolvingWorker { found, worker_name },
        ),
        Some(ComponentVersionSelection::ByExplicitVersion(version)) => {
            let component_id = found.component_id();
            LookupProgress::Version(FetchingVersion { component_id, version })
        },
    }
}

impl Listing {
    /// A failed listing fails the lookup; an empty one says that the
    /// component does not exist; of any other, the last entry is the
    /// component that was found.
    pub open spec fn after_listed(self, reply: Result<Vec<Component>, RemoteError>) -> LookupProgress {
        match reply {
            Err(e) => LookupProgress::Done(Err(e)),
            Ok(components) => if components@.len() == 0 {
                LookupProgress::Done(Ok(None))
            } else {
                pinned(components@.last(), self.version)
            },
        }
    }

    /// Takes the store's answer to the listing.
    pub fn listed(self, reply: Result<Vec<Component>, RemoteError>) -> (next: LookupProgress)
        ensures
            next == self.after_listed(reply),
    {
        match reply {
            Err(e) => LookupProgress::Done(Err(e)),
            Ok(mut components) => match components.pop() {
                None => LookupProgress::Done(Ok(None)),
                Some(found) => pin(found, self.version),
            },
        }
    }
}

impl FetchingLatest {
    /// "Not found" says that the component does not exist; any other failure
    /// fails the lookup.
    pub open spec fn after_fetched(self, reply: Result<Component, RemoteError>) -> LookupProgress {
        match reply {
            Ok(found) => pinned(found, self.version),
            Err(RemoteError::NotFound) => LookupProgress::Done(Ok(None)),
            Err(e) => LookupProgress::Done(Err(e)),
        }
    }

    /// Takes the store's answer to the request for the latest version.
    pub fn fetched(self, reply: Result<Component, RemoteError>) -> (next: LookupProgress)
        ensures
            next == self.after_fetched(reply),
    {
        match reply {
            Ok(found) => pin(found, self.version),
            Err(RemoteError::NotFound) => LookupProgress::Done(Ok(None)),
            Err(e) => LookupProgress::Done(Err(e)),
        }
    }
}

impl ResolvingWorker {
    /// A worker that cannot be found pins nothing: the component stays as it
    /// was found. Otherwise the worker's version is fetched.
    pub open spec fn after_resolved(self, reply: Result<u64, Failure>) -> LookupProgress {
        match reply {
            Ok(version) => LookupProgress::Version(
                FetchingVersion {
                    component_id: self.found.versioned_component_id.component_id,
                    version,
                },
            ),
            Err(_) => LookupProgress::Done(Ok(Some(self.found))),
        }
    }

    /// Takes the answer to the request for the worker's version.
    pub fn resolved(self, reply: Result<u64, Failure>) -> (next: LookupProgress)
        ensures
            next == self.after_resolved(reply),
    {
        match reply {
            Ok(version) => {
                let component_id = self.found.component_id();
                LookupProgress::Version(FetchingVersion { component_id, version })
            },
            Err(_) => LookupProgress::Done(Ok(Some(self.found))),
        }
    }
}

impl FetchingVersion {
    /// The version that was asked for, or the store's failure: a version that
    /// does not exist is a failure here.
    pub open spec fn after_fetched(self, reply: Result<Component, RemoteError>) -> LookupProgress {
        match reply {
            Ok(component) => LookupProgress::Done(Ok(Some(component))),
            Err(e) => LookupProgress::Done(Err(e)),
        }
    }

    /// Takes the store's answer to the request for one version.
    pub fn fetched(self, reply: Result<Component, RemoteError>) -> (next: LookupProgress)
        ensures
            next == self.after_fetched(reply),
    {
        match reply {
            Ok(component) => LookupProgress::Done(Ok(Some(component))),
            Err(e) => LookupProgress::Done(Err(e)),
        }
    }
}

/// The id of the component that a lookup found.
pub fn component_id_of(outcome: Result<Option<Component>, RemoteError>) -> (id: Result<
    Option<ComponentId>,
    RemoteError,
>)
    ensures
        id == match outcome {
            Ok(Some(component)) => Ok(Some(component.versioned_component_id.component_id)),
            Ok(None) => Ok(None),
            Err(e) => Err(e),
        },
{
    match outcome {
        Ok(Some(component)) => Ok(Some(component.component_id())),
        Ok(None) => Ok(None),
        Err(e) => Err(e),
    }
}

impl ComponentCommandHandler {
    /// Begins the lookup of one component. The project counts only for a
    /// lookup by name.
    pub fn component(
        &self,
        project: Option<&ProjectNameAndId>,
        component_name_or_id: ComponentSelection,
        component_version_selection: Option<ComponentVersionSelection>,
    ) -> (first: LookupProgress)
        ensures
            first == lookup_start(
                match project {
                    Some(p) => Some(*p),
                    None => None,
                },
                component_name_or_id,
                component_version_selection,
            ),
    {
        match component_name_or_id {
            ComponentSelection::Name(name) => LookupProgress::List(
                Listing {
                    project: match project {
                        Some(p) => Some(p.project_id),
                        None => None,
                    },
                    name,
                    version: component_version_selection,
                },
            ),
            ComponentSelection::Id(component_id) => LookupProgress::Latest(
                FetchingLatest { component_id, version: component_version_selection },
            ),
        }
    }

    /// Begins the lookup of the latest version of the component named
    /// `component_name`; `component_id_of` gives the id once it is done.
    pub fn component_id_by_name(
        &self,
        project: Option<&ProjectNameAndId>,
        component_name: &ComponentName,
    ) -> (first: LookupProgress)
        ensures
            first == lookup_start(
                match project {
                    Some(p) => Some(*p),
                    None => None,
                },
                ComponentSelection::Name(*component_name),
                None,
            ),
    {
        self.component(project, ComponentSelection::Name(component_name.duplicate()), None)
    }
}

/// What a remote side answers, as far as a lookup can tell.
pub struct Remote {
    /// Every version of the component of that name, in the store's order.
    pub list: spec_fn(Option<ProjectId>, ComponentName) -> Result<Vec<Component>, RemoteError>,
    /// The latest version of a component.
    pub latest: spec_fn(ComponentId) -> Result<Component, RemoteError>,
    /// One version of a component.
    pub version: spec_fn(ComponentId, u64) -> Result<Component, RemoteError>,
    /// The version that a worker of a component runs.
    pub worker_version: spec_fn(Component, WorkerName) -> Result<u64, Failure>,
}

impl Remote {
    /// The lookup after `remote` has answered the request that `progress` holds.
    pub open spec fn answer(self, progress: LookupProgress) -> LookupProgress {
        match progress {
            LookupProgress::List(state) => state.after_listed((self.list)(state.project, state.name)),
            LookupProgress::Latest(state) => state.after_fetched((self.latest)(state.component_id)),
            LookupProgress::Worker(state) => state.after_resolved(
                (self.worker_version)(state.found, state.worker_name),
            ),
            LookupProgress::Version(state) => state.after_fetched(
                (self.version)(state.component_id, state.version),
            ),
            LookupProgress::Done(outcome) => LookupProgress::Done(outcome),
        }
    }

    /// The component that the selection names, before any version is pinned.
    pub open spec fn found(
        self,
        project: Option<ProjectNameAndId>,
        selection: ComponentSelection,
    ) -> Result<Option<Component>, RemoteError> {
        match selection {
            ComponentSelection::Name(name) => match (self.list)(
                match project {
                    Some(p) => Some(p.project_id),
                    None => None,
                },
                name,
            ) {
                Err(e) => Err(e),
                Ok(components) => if components@.len() == 0 {
                    Ok(None)
                } else {
                    Ok(Some(components@.last()))
                },
            },
            ComponentSelection::Id(component_id) => match (self.latest)(component_id) {
                Ok(found) => Ok(Some(found)),
                Err(RemoteError::NotFound) => Ok(None),
                Err(e) => Err(e),
            },
        }
    }

    /// The version to fetch in place of `found`, if any.
    pub open spec fn version_to_fetch(
        self,
        found: Component,
        version: Option<ComponentVersionSelection>,
    ) -> Option<u64> {
        match version {
            None => None,
            Some(ComponentVersionSelection::ByExplicitVersion(version)) => Some(version),
            Some(ComponentVersionSelection::ByWorkerName(worker_name)) => match (
            self.worker_version)(found, worker_name) {
                Ok(version) => Some(version),
                Err(_) => None,
            },
        }
    }

    /// What a lookup against `remote` results in.
    pub open spec fn resolve(
        self,
        project: Option<ProjectNameAndId>,
        selection: ComponentSelection,
        version: Option<ComponentVersionSelection>,
    ) -> Result<Option<Component>, RemoteError> {
        match self.found(project, selection) {
            Err(e) => Err(e),
            Ok(None) => Ok(None),
            Ok(Some(found)) => match self.version_to_fetch(found, version) {
                None => Ok(Some(found)),
                Some(v) => match (self.version)(found.versioned_component_id.component_id, v) {
                    Ok(component) => Ok(Some(component)),
                    Err(e) => Err(e),
                },
            },
        }
    }
}

/// A lookup is done after at most three requests, with the result that
/// `Remote::resolve` states.
pub proof fn law_lookup_resolves(
    remote: Remote,
    project: Option<ProjectNameAndId>,
    selection: ComponentSelection,
    version: Option<ComponentVersionSelection>,
)
    ensures
        remote.answer(remote.answer(remote.answer(lookup_start(project, selection, version))))
            == LookupProgress::Done(remote.resolve(project, selection, version)),
{
}

/// Where the store lists the versions of a component in ascending order, as
/// it is expected to, the entry that a lookup by name takes, the last one,
/// has the highest version.
pub proof fn law_last_listed_is_latest(components: Seq<Component>)
    requires
        components.len() > 0,
        forall|i: int, j: int|
            0 <= i <= j < components.len() ==> (#[trigger] components[i]).versioned_component_id.version
                <= (#[trigger] components[j]).versioned_component_id.version,
    ensures
        forall|i: int|
            0 <= i < components.len() ==> (#[trigger] components[i]).versioned_component_id.version
                <= components.last().versioned_component_id.version,
{
    assert forall|i: int| 0 <= i < components.len() implies (
    #[trigger] components[i]).versioned_component_id.version
        <= components.last().versioned_component_id.version by {
        let last = components.len() - 1;
        assert(components[i].versioned_component_id.version
            <= components[last].versioned_component_id.version);
    }
}

/// A lookup by name for which the store lists nothing finds nothing, and
/// does not fail.
pub proof fn law_empty_listing_finds_nothing(
    remote: Remote,
    project: Option<ProjectNameAndId>,
    name: ComponentName,
    version: Option<ComponentVersionSelection>,
)
    requires
        remote.found(project, ComponentSelection::Name(name)) == Ok::<
            Option<Component>,
            RemoteError,
        >(None),
    ensures
        remote.resolve(project, ComponentSelection::Name(name), version) == Ok::<
            Option<Component>,
            RemoteError,
        >(None),
{
}

/// Where a component was found and the version asked for outright cannot be
/// fetched, the lookup fails with the store's error: it never finds nothing.
pub proof fn law_missing_explicit_version_fails(
    remote: Remote,
    project: Option<ProjectNameAndId>,
    selection: ComponentSelection,
    found: Component,
    version: u64,
    error: RemoteError,
)
    requires
        remote.found(project, selection) == Ok::<Option<Component>, RemoteError>(Some(found)),
        (remote.version)(found.versioned_component_id.component_id, version) == Err::<
            Component,
            RemoteError,
        >(error),
    ensures
        remote.resolve(
            project,
            selection,
            Some(ComponentVersionSelection::ByExplicitVersion(version)),
        ) == Err::<Option<Component>, RemoteError>(error),
{
}

/// Where the worker cannot be found, the lookup gives the component as it
/// was found, unpinned, and does not fail.
pub proof fn law_failed_worker_lookup_keeps_latest(
    remote: Remote,
    project: Option<ProjectNameAndId>,
    selection: ComponentSelection,
    found: Component,
    worker_name: WorkerName,
)
    requires
        remote.found(project, selection) == Ok::<Option<Component>, RemoteError>(Some(found)),
        (remote.worker_version)(found, worker_name) is Err,
    ensures
        remote.resolve(project, selection, Some(ComponentVersionSelection::ByWorkerName(worker_name)))
            == Ok::<Option<Component>, RemoteError>(Some(found)),
        remote.resolve(project, selection, Some(ComponentVersionSelection::ByWorkerName(worker_name)))
            == remote.resolve(project, selection, None),
{
}

} // verus!
