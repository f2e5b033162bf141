use golem_components::handler::{ComponentCommandHandler, Context};
use golem_components::lookup::{
    component_id_of, FetchingLatest, FetchingVersion, Listing, LookupProgress, ResolvingWorker,
};
use golem_components::model::{
    Component, ComponentId, ComponentName, ComponentSelection, ComponentType,
    ComponentVersionSelection, Failure, ProjectId, ProjectName, ProjectNameAndId, RemoteError,
    VersionedComponentId, WorkerName,
};
use std::sync::Arc;

fn handler() -> ComponentCommandHandler {
    ComponentCommandHandler::new(Arc::new(Context { build_profile: None }))
}

fn component(id: u128, version: u64, name: &str) -> Component {
    Component {
        versioned_component_id: VersionedComponentId { component_id: ComponentId(id), version },
        component_name: ComponentName(name.to_string()),
        component_type: ComponentType::Durable,
    }
}

fn failed(message: &str) -> RemoteError {
    RemoteError::Failed(Failure { message: message.to_string() })
}

/// A store with the versions of one component, and one worker.
struct Store {
    versions: Vec<Component>,
    worker: Option<(String, u64)>,
    asked: Vec<String>,
}

impl Store {
    fn run(&mut self, mut progress: LookupProgress) -> Result<Option<Component>, RemoteError> {
        loop {
            progress = match progress {
                LookupProgress::List(state) => {
                    self.asked.push(format!("list {}", state.name.0));
                    let listed = self
                        .versions
                        .iter()
                        .filter(|c| c.component_name == state.name)
                        .cloned()
                        .collect();
                    state.listed(Ok(listed))
                }
                LookupProgress::Latest(state) => {
                    self.asked.push("latest".to_string());
                    let latest = self
                        .versions
                        .iter()
                        .filter(|c| c.versioned_component_id.component_id == state.component_id)
                        .last()
                        .cloned();
                    state.fetched(latest.ok_or(RemoteError::NotFound))
                }
                LookupProgress::Worker(state) => {
                    self.asked.push(format!("worker {}", state.worker_name.0));
                    let reply = match &self.worker {
                        Some((name, version)) if *name == state.worker_name.0 => Ok(*version),
                        _ => Err(Failure { message: "no such worker".to_string() }),
                    };
                    state.resolved(reply)
                }
                LookupProgress::Version(state) => {
                    self.asked.push(format!("version {}", state.version));
                    let found = self
                        .versions
                        .iter()
                        .find(|c| {
                            c.versioned_component_id.component_id == state.component_id
                                && c.versioned_component_id.version == state.version
                        })
                        .cloned();
                    state.fetched(found.ok_or(RemoteError::NotFound))
                }
                LookupProgress::Done(outcome) => return outcome,
            }
        }
    }
}

fn store() -> Store {
    Store {
        versions: vec![component(7, 0, "shop"), component(7, 1, "shop"), component(7, 2, "shop")],
        worker: Some(("w1".to_string(), 1)),
        asked: vec![],
    }
}

fn by_name(name: &str) -> ComponentSelection {
    ComponentSelection::Name(ComponentName(name.to_string()))
}

#[test]
fn lookup_by_name_begins_with_a_listing_in_the_project() {
    let project = ProjectNameAndId {
        project_name: ProjectName("p".to_string()),
        project_id: ProjectId(99),
    };
    let first = handler().component(Some(&project), by_name("shop"), None);
    assert_eq!(
        first,
        LookupProgress::List(Listing {
            project: Some(ProjectId(99)),
            name: ComponentName("shop".to_string()),
            version: None,
        })
    );
}

#[test]
fn lookup_by_id_begins_with_the_latest_version() {
    let first = handler().component(None, ComponentSelection::Id(ComponentId(7)), None);
    assert_eq!(
        first,
        LookupProgress::Latest(FetchingLatest { component_id: ComponentId(7), version: None })
    );
}

#[test]
fn lookup_by_name_takes_the_last_entry_listed() {
    let mut store = store();
    let found = store.run(handler().component(None, by_name("shop"), None));
    assert_eq!(found, Ok(Some(component(7, 2, "shop"))));
    assert_eq!(store.asked, vec!["list shop".to_string()]);
}

#[test]
fn lookup_takes_the_last_entry_even_where_it_is_not_the_highest() {
    let state = Listing { project: None, name: ComponentName("shop".to_string()), version: None };
    let next = state.listed(Ok(vec![component(7, 5, "shop"), component(7, 3, "shop")]));
    assert_eq!(next, LookupProgress::Done(Ok(Some(component(7, 3, "shop")))));
}

#[test]
fn lookup_by_name_on_an_empty_listing_finds_nothing() {
    let mut store = store();
    let found = store.run(handler().component(None, by_name("absent"), None));
    assert_eq!(found, Ok(None));
    let pinned = store.run(handler().component(
        None,
        by_name("absent"),
        Some(ComponentVersionSelection::ByExplicitVersion(1)),
    ));
    assert_eq!(pinned, Ok(None));
}

#[test]
fn lookup_by_name_hands_on_the_failure_of_the_listing() {
    let state = Listing { project: None, name: ComponentName("shop".to_string()), version: None };
    assert_eq!(state.listed(Err(failed("boom"))), LookupProgress::Done(Err(failed("boom"))));
}

#[test]
fn lookup_by_id_treats_not_found_as_absence() {
    let mut store = store();
    let found = store.run(handler().component(None, ComponentSelection::Id(ComponentId(8)), None));
    assert_eq!(found, Ok(None));
}

#[test]
fn lookup_by_id_hands_on_any_other_failure() {
    let state = FetchingLatest { component_id: ComponentId(7), version: None };
    assert_eq!(state.fetched(Err(failed("timeout"))), LookupProgress::Done(Err(failed("timeout"))));
}

#[test]
fn lookup_with_explicit_version_fetches_that_version() {
    let mut store = store();
    let found = store.run(handler().component(
        None,
        by_name("shop"),
        Some(ComponentVersionSelection::ByExplicitVersion(1)),
    ));
    assert_eq!(found, Ok(Some(component(7, 1, "shop"))));
    assert_eq!(store.asked, vec!["list shop".to_string(), "version 1".to_string()]);
}

#[test]
fn lookup_with_missing_explicit_version_is_an_error() {
    let mut store = store();
    let found = store.run(handler().component(
        None,
        by_name("shop"),
        Some(ComponentVersionSelection::ByExplicitVersion(9)),
    ));
    assert_eq!(found, Err(RemoteError::NotFound));
}

#[test]
fn lookup_by_worker_fetches_the_version_of_the_worker() {
    let mut store = store();
    let found = store.run(handler().component(
        None,
        by_name("shop"),
        Some(ComponentVersionSelection::ByWorkerName(WorkerName("w1".to_string()))),
    ));
    assert_eq!(found, Ok(Some(component(7, 1, "shop"))));
    assert_eq!(
        store.asked,
        vec!["list shop".to_string(), "worker w1".to_string(), "version 1".to_string()]
    );
}

#[test]
fn lookup_by_unknown_worker_keeps_the_latest() {
    let mut store = store();
    let found = store.run(handler().component(
        None,
        by_name("shop"),
        Some(ComponentVersionSelection::ByWorkerName(WorkerName("nobody".to_string()))),
    ));
    assert_eq!(found, Ok(Some(component(7, 2, "shop"))));
    assert_eq!(store.asked, vec!["list shop".to_string(), "worker nobody".to_string()]);
}

#[test]
fn worker_stage_asks_for_the_version_under_the_found_id() {
    let state = ResolvingWorker {
        found: component(7, 2, "shop"),
        worker_name: WorkerName("w".to_string()),
    };
    assert_eq!(
        state.resolved(Ok(0)),
        LookupProgress::Version(FetchingVersion { component_id: ComponentId(7), version: 0 })
    );
}

#[test]
fn version_stage_hands_on_what_the_store_says() {
    let state = FetchingVersion { component_id: ComponentId(7), version: 4 };
    assert_eq!(
        state.fetched(Ok(component(7, 4, "shop"))),
        LookupProgress::Done(Ok(Some(component(7, 4, "shop"))))
    );
    let state = FetchingVersion { component_id: ComponentId(7), version: 4 };
    assert_eq!(state.fetched(Err(failed("x"))), LookupProgress::Done(Err(failed("x"))));
}

#[test]
fn component_id_by_name_looks_up_the_latest_version() {
    let name = ComponentName("shop".to_string());
    let first = handler().component_id_by_name(None, &name);
    assert_eq!(
        first,
        LookupProgress::List(Listing { project: None, name: name.clone(), version: None })
    );
    let mut store = store();
    assert_eq!(component_id_of(store.run(first)), Ok(Some(ComponentId(7))));
    assert_eq!(component_id_of(Ok(None)), Ok(None));
    assert_eq!(component_id_of(Err(RemoteError::NotFound)), Err(RemoteError::NotFound));
}
