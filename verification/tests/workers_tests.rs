use golem_components::handler::{ComponentCommandHandler, Context};
use golem_components::model::{
    Component, ComponentId, ComponentName, ComponentType, Failure, VersionedComponentId,
    WorkerName, WorkerUpdateMode,
};
use golem_components::workers::{
    RedeployingWorkers, TryUpdateAllWorkersResult, UpdatingWorkers, WorkerRedeployProgress,
    WorkerUpdateAttempt, WorkerUpdateProgress,
};
use std::sync::Arc;

fn handler() -> ComponentCommandHandler {
    ComponentCommandHandler::new(Arc::new(Context { build_profile: None }))
}

fn component(id: u128, version: u64, name: &str) -> Component {
    Component {
        versioned_component_id: VersionedComponentId { component_id: ComponentId(id), version },
        component_name: ComponentName(name.to_string()),
        component_type: ComponentType::Durable,
    }
}

fn attempt(component: &str, worker: &str, error: Option<&str>) -> WorkerUpdateAttempt {
    WorkerUpdateAttempt {
        component_name: ComponentName(component.to_string()),
        target_version: 1,
        worker_name: WorkerName(worker.to_string()),
        error: error.map(|e| e.to_string()),
    }
}

fn batch() -> Vec<Component> {
    vec![component(1, 1, "A"), component(2, 1, "B"), component(3, 1, "C")]
}

fn update_all(
    components: Vec<Component>,
    outcome_of: impl Fn(&Component) -> TryUpdateAllWorkersResult,
) -> (Vec<String>, Option<TryUpdateAllWorkersResult>) {
    let mut asked = vec![];
    let mut progress = handler().update_workers_by_components(components, WorkerUpdateMode::Automatic);
    loop {
        progress = match progress {
            WorkerUpdateProgress::Update(state) => {
                asked.push(state.component.component_name.0.clone());
                let outcome = outcome_of(&state.component);
                state.updated(outcome)
            }
            WorkerUpdateProgress::Done(results) => return (asked, results),
        }
    }
}

fn redeploy_all(
    components: Vec<Component>,
    reply_of: impl Fn(&Component) -> Result<(), Failure>,
) -> (Vec<String>, Result<(), Failure>) {
    let mut asked = vec![];
    let mut progress = handler().redeploy_workers_by_components(components);
    loop {
        progress = match progress {
            WorkerRedeployProgress::Redeploy(state) => {
                asked.push(state.component.component_name.0.clone());
                let reply = reply_of(&state.component);
                state.redeployed(reply)
            }
            WorkerRedeployProgress::Done(outcome) => return (asked, outcome),
        }
    }
}

#[test]
fn results_start_empty_and_extend_in_order() {
    let mut results = TryUpdateAllWorkersResult::default();
    assert_eq!(results, TryUpdateAllWorkersResult { triggered: vec![], failed: vec![] });
    results.extend(TryUpdateAllWorkersResult {
        triggered: vec![attempt("A", "w1", None)],
        failed: vec![attempt("A", "w2", Some("busy"))],
    });
    results.extend(TryUpdateAllWorkersResult {
        triggered: vec![attempt("B", "w3", None)],
        failed: vec![],
    });
    assert_eq!(
        results,
        TryUpdateAllWorkersResult {
            triggered: vec![attempt("A", "w1", None), attempt("B", "w3", None)],
            failed: vec![attempt("A", "w2", Some("busy"))],
        }
    );
}

#[test]
fn update_of_no_component_asks_nothing_and_reports_nothing() {
    let (asked, results) = update_all(vec![], |_| TryUpdateAllWorkersResult::default());
    assert!(asked.is_empty());
    assert_eq!(results, None);
}

#[test]
fn update_begins_with_the_first_component_at_its_version() {
    let first = handler().update_workers_by_components(
        vec![component(1, 4, "A"), component(2, 0, "B")],
        WorkerUpdateMode::Manual,
    );
    assert_eq!(
        first,
        WorkerUpdateProgress::Update(UpdatingWorkers {
            component: component(1, 4, "A"),
            update: WorkerUpdateMode::Manual,
            rest: vec![component(2, 0, "B")],
            results: TryUpdateAllWorkersResult { triggered: vec![], failed: vec![] },
        })
    );
}

#[test]
fn update_workers_goes_on_after_a_failing_component() {
    let (asked, results) = update_all(batch(), |c| {
        if c.component_name.0 == "B" {
            TryUpdateAllWorkersResult {
                triggered: vec![],
                failed: vec![attempt("B", "wb", Some("update refused"))],
            }
        } else {
            TryUpdateAllWorkersResult {
                triggered: vec![attempt(&c.component_name.0, "w", None)],
                failed: vec![],
            }
        }
    });
    assert_eq!(asked, vec!["A".to_string(), "B".to_string(), "C".to_string()]);
    assert_eq!(
        results,
        Some(TryUpdateAllWorkersResult {
            triggered: vec![attempt("A", "w", None), attempt("C", "w", None)],
            failed: vec![attempt("B", "wb", Some("update refused"))],
        })
    );
}

#[test]
fn update_of_components_without_workers_reports_an_empty_result() {
    let (asked, results) = update_all(batch(), |_| TryUpdateAllWorkersResult::default());
    assert_eq!(asked.len(), 3);
    assert_eq!(results, Some(TryUpdateAllWorkersResult { triggered: vec![], failed: vec![] }));
}

#[test]
fn redeploy_of_no_component_succeeds_at_once() {
    let (asked, outcome) = redeploy_all(vec![], |_| Ok(()));
    assert!(asked.is_empty());
    assert_eq!(outcome, Ok(()));
}

#[test]
fn redeploy_visits_every_component_where_none_fails() {
    let (asked, outcome) = redeploy_all(batch(), |_| Ok(()));
    assert_eq!(asked, vec!["A".to_string(), "B".to_string(), "C".to_string()]);
    assert_eq!(outcome, Ok(()));
}

#[test]
fn redeploy_workers_stops_after_the_first_failing_component() {
    let (asked, outcome) = redeploy_all(batch(), |c| {
        if c.component_name.0 == "B" {
            Err(Failure { message: "B cannot be redeployed".to_string() })
        } else {
            Ok(())
        }
    });
    assert_eq!(asked, vec!["A".to_string(), "B".to_string()]);
    assert_eq!(outcome, Err(Failure { message: "B cannot be redeployed".to_string() }));
}

#[test]
fn redeploy_stage_keeps_the_rest_in_order() {
    let first = handler().redeploy_workers_by_components(batch());
    assert_eq!(
        first,
        WorkerRedeployProgress::Redeploy(RedeployingWorkers {
            component: component(1, 1, "A"),
            rest: vec![component(2, 1, "B"), component(3, 1, "C")],
        })
    );
}
