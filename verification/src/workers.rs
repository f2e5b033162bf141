//! Bringing the workers of deployed components up to date, or starting
//! them afresh, one component after the other.

use crate::handler::ComponentCommandHandler;
use crate::model::{Component, ComponentName, Failure, WorkerName, WorkerUpdateMode};
use vstd::prelude::*;

verus! {

/// One attempt to update one worker.
#[derive(Clone, Debug, PartialEq, Eq, Hash)]
pub struct WorkerUpdateAttempt {
    pub component_name: ComponentName,
    pub target_version: u64,
    pub worker_name: WorkerName,
    /// Why the attempt failed, where it did.
    pub error: Option<String>,
}

/// The attempts to update workers, those that were triggered apart from
/// those that failed.
#[derive(Clone, Debug, PartialEq, Eq, Hash)]
pub struct TryUpdateAllWorkersResult {
    pub triggered: Vec<WorkerUpdateAttempt>,
    pub failed: Vec<WorkerUpdateAttempt>,
}

/// What a `TryUpdateAllWorkersResult` stands for.
pub struct UpdateResults {
    pub triggered: Seq<WorkerUpdateAttempt>,
    pub failed: Seq<WorkerUpdateAttempt>,
}

impl UpdateResults {
    /// No attempt at all.
    pub open spec fn empty() -> UpdateResults {
        UpdateResults { triggered: Seq::empty(), failed: Seq::empty() }
    }

    /// These attempts, then those of `other`.
    pub open spec fn extend(self, other: UpdateResults) -> UpdateResults {
        UpdateResults {
            triggered: self.triggered + other.triggered,
            failed: self.failed + other.failed,
        }
    }
}

impl View for TryUpdateAllWorkersResult {
    type V = UpdateResults;

    open spec fn view(&self) -> UpdateResults {
        UpdateResults { triggered: self.triggered@, failed: self.failed@ }
    }
}

impl Default for TryUpdateAllWorkersResult {
    fn default() -> (results: Self)
        ensures
            results@ == UpdateResults::empty(),
    {
        TryUpdateAllWorkersResult { triggered: Vec::new(), failed: Vec::new() }
    }
}

impl TryUpdateAllWorkersResult {
    /// Adds the attempts of `other` behind those that are here.
    pub fn extend(&mut self, other: TryUpdateAllWorkersResult)
        ensures
            final(self)@ == old(self)@.extend(other@),
    {
        let mut other = other;
        self.triggered.append(&mut other.triggered);
        self.failed.append(&mut other.failed);
    }
}

/// Asks for the workers of `component` to be updated to its version.
#[derive(Debug, PartialEq, Eq)]
pub struct UpdatingWorkers {
    pub component: Component,
    pub update: WorkerUpdateMode,
    /// The components whose turn comes after `component`.
    pub rest: Vec<Component>,
    /// What the components before `component` resulted in.
    pub results: TryUpdateAllWorkersResult,
}

/// Where an update of workers stands.
#[derive(Debug, PartialEq, Eq)]
pub enum WorkerUpdateProgress {
    Update(UpdatingWorkers),
    /// Every attempt that was made; `None` where there was no component.
    Done(Option<TryUpdateAllWorkersResult>),
}

/// What a `WorkerUpdateProgress` stands for.
pub enum WorkerUpdateView {
    Update { component: Component, update: WorkerUpdateMode, rest: Seq<Component>, results: UpdateResults },
    Done(Option<UpdateResults>),
}

impl View for WorkerUpdateProgress {
    type V = WorkerUpdateView;

    open spec fn view(&self) -> WorkerUpdateView {
        match *self {
            WorkerUpdateProgress::Update(state) => WorkerUpdateView::Update {
                component: state.component,
                update: state.update,
                rest: state.rest@,
                results: state.results@,
            },
            WorkerUpdateProgress::Done(Some(results)) => WorkerUpdateView::Done(Some(results@)),
            WorkerUpdateProgress::Done(None) => WorkerUpdateView::Done(None),
        }
    }
}

/// With `results` so far and `components` to go: the request for the first
/// of them, or, with none left, the results.
pub open spec fn update_step(
    components: Seq<Component>,
    update: WorkerUpdateMode,
    results: UpdateResults,
) -> WorkerUpdateView {
    if components.len() > 0 {
        WorkerUpdateView::Update {
            component: components[0],
            update,
            rest: components.drop_first(),
            results,
        }
    } else {
        WorkerUpdateView::Done(Some(results))
    }
}

/// How an update of the workers of `components` begins: with nothing to do
/// and nothing to report where there is no component.
pub open spec fn update_start(components: Seq<Component>, update: WorkerUpdateMode) -> WorkerUpdateView {
    if components.len() == 0 {
        WorkerUpdateView::Done(None)
    } else {
        update_step(components, update, UpdateResults::empty())
    }
}

fn next_update(
    components: Vec<Component>,
    update: WorkerUpdateMode,
    results: TryUpdateAllWorkersResult,
) -> (next: WorkerUpdateProgress)
    ensures
        next@ == update_step(components@, update, results@),
{
    if components.len() == 0 {
        WorkerUpdateProgress::Done(Some(results))
    } else {
        let mut rest = components;
        let component = rest.remove(0);
        WorkerUpdateProgress::Update(UpdatingWorkers { component, update, rest, results })
    }
}

impl UpdatingWorkers {
    /// Takes what the update of the workers of `component` resulted in, and
    /// goes on to the next component whatever that was.
    pub fn updated(self, outcome: TryUpdateAllWorkersResult) -> (next: WorkerUpdateProgress)
        ensures
            next@ == update_step(self.rest@, self.update, self.results@.extend(outcome@)),
    {
        let mut results = self.results;
        results.extend(outcome);
        next_update(self.rest, self.update, results)
    }
}

/// Asks for the workers of `component` to be started afresh.
#[derive(Debug, PartialEq, Eq)]
pub struct RedeployingWorkers {
    pub component: Component,
    /// The components whose turn comes after `component`.
    pub rest: Vec<Component>,
}

/// Where a redeployment of workers stands.
#[derive(Debug, PartialEq, Eq)]
pub enum WorkerRedeployProgress {
    Redeploy(RedeployingWorkers),
    Done(Result<(), Failure>),
}

/// What a `WorkerRedeployProgress` stands for.
pub enum WorkerRedeployView {
    Redeploy { component: Component, rest: Seq<Component> },
    Done(Result<(), Failure>),
}

impl View for WorkerRedeployProgress {
    type V = WorkerRedeployView;

    open spec fn view(&self) -> WorkerRedeployView {
        match *self {
            WorkerRedeployProgress::Redeploy(state) => WorkerRedeployView::Redeploy {
                component: state.component,
                rest: state.rest@,
            },
            WorkerRedeployProgress::Done(outcome) => WorkerRedeployView::Done(outcome),
        }
    }
}

/// With `components` to go: the request for the first of them, or, with
/// none left, success.
pub open spec fn redeploy_step(components: Seq<Component>) -> WorkerRedeployView {
    if components.len() > 0 {
        WorkerRedeployView::Redeploy { component: components[0], rest: components.drop_first() }
    } else {
        WorkerRedeployView::Done(Ok(()))
    }
}

/// A redeployment after `reply` came back for its current component: a
/// failure ends it, and the components in `rest` are left alone.
pub open spec fn redeploy_resumed(rest: Seq<Component>, reply: Result<(), Failure>) -> WorkerRedeployView {
    match reply {
        Ok(()) => redeploy_step(rest),
        Err(failure) => WorkerRedeployView::Done(Err(failure)),
    }
}

fn next_redeploy(components: Vec<Component>) -> (next: WorkerRedeployProgress)
    ensures
        next@ == redeploy_step(components@),
{
    if components.len() == 0 {
        WorkerRedeployProgress::Done(Ok(()))
    } else {
        let mut rest = components;
        let component = rest.remove(0);
        WorkerRedeployProgress::Redeploy(RedeployingWorkers { component, rest })
    }
}

impl RedeployingWorkers {
    /// Takes the answer to the redeployment of the workers of `component`.
    pub fn redeployed(self, reply: Result<(), Failure>) -> (next: WorkerRedeployProgress)
        ensures
            next@ == redeploy_resumed(self.rest@, reply),
    {
        match reply {
            Ok(()) => next_redeploy(self.rest),
            Err(failure) => WorkerRedeployProgress::Done(Err(failure)),
        }
    }
}

impl ComponentCommandHandler {
    /// Begins the update of the workers of `components`, in their order.
    pub fn update_workers_by_components(
        &self,
        components: Vec<Component>,
        update: WorkerUpdateMode,
    ) -> (first: WorkerUpdateProgress)
        ensures
            first@ == update_start(components@, update),
    {
        if components.len() == 0 {
            return WorkerUpdateProgress::Done(None);
        }
        next_update(components, update, TryUpdateAllWorkersResult::default())
    }

    /// Begins the redeployment of the workers of `components`, in their order.
    pub fn redeploy_workers_by_components(&self, components: Vec<Component>) -> (first:
        WorkerRedeployProgress)
        ensures
            first@ == redeploy_step(components@),
    {
        next_redeploy(components)
    }
}

/// What an update has asked for and where it stands, after the outcomes
/// have come in, one for each request, for as long as there is a request.
pub open spec fn update_run(
    progress: WorkerUpdateView,
    outcomes: Seq<TryUpdateAllWorkersResult>,
) -> (Seq<Component>, WorkerUpdateView)
    decreases outcomes.len(),
{
    match progress {
        WorkerUpdateView::Update { component, update, rest, results } => if outcomes.len() == 0 {
            (seq![component], progress)
        } else {
            let later = update_run(
                update_step(rest, update, results.extend(outcomes[0]@)),
                outcomes.drop_first(),
            );
            (seq![component] + later.0, later.1)
        },
        WorkerUpdateView::Done(_) => (Seq::empty(), progress),
    }
}

/// All the attempts of all the outcomes, behind those of `results`.
pub open spec fn aggregate(
    results: UpdateResults,
    outcomes: Seq<TryUpdateAllWorkersResult>,
) -> UpdateResults
    decreases outcomes.len(),
{
    if outcomes.len() == 0 {
        results
    } else {
        aggregate(results.extend(outcomes[0]@), outcomes.drop_first())
    }
}

/// An update asks for every component of the batch, in order, whatever the
/// outcomes hold, and ends with all their attempts.
pub proof fn law_update_visits_every_component(
    components: Seq<Component>,
    update: WorkerUpdateMode,
    results: UpdateResults,
    outcomes: Seq<TryUpdateAllWorkersResult>,
)
    requires
        outcomes.len() == components.len(),
    ensures
        update_run(update_step(components, update, results), outcomes) == (
            components,
            WorkerUpdateView::Done(Some(aggregate(results, outcomes))),
        ),
    decreases components.len(),
{
    if components.len() > 0 {
        law_update_visits_every_component(
            components.drop_first(),
            update,
            results.extend(outcomes[0]@),
            outcomes.drop_first(),
        );
        let later = update_run(
            update_step(components.drop_first(), update, results.extend(outcomes[0]@)),
            outcomes.drop_first(),
        );
    }
}

/// The aggregate holds every attempt of every outcome: none is lost because
/// another one failed.
pub proof fn law_aggregate_keeps_every_attempt(
    results: UpdateResults,
    outcomes: Seq<TryUpdateAllWorkersResult>,
    i: int,
)
    requires
        0 <= i < outcomes.len(),
    ensures
        forall|k: int|
            0 <= k < outcomes[i].triggered@.len() ==> aggregate(
                results,
                outcomes,
            ).triggered.contains(#[trigger] outcomes[i].triggered@[k]),
        forall|k: int|
            0 <= k < outcomes[i].failed@.len() ==> aggregate(results, outcomes).failed.contains(
                #[trigger] outcomes[i].failed@[k],
            ),
        forall|k: int|
            0 <= k < results.triggered.len() ==> aggregate(results, outcomes).triggered.contains(
                #[trigger] results.triggered[k],
            ),
        forall|k: int|
            0 <= k < results.failed.len() ==> aggregate(results, outcomes).failed.contains(
                #[trigger] results.failed[k],
            ),
    decreases outcomes.len(),
{
    let grown = results.extend(outcomes[0]@);
    let later = outcomes.drop_first();
    lemma_aggregate_keeps_results(grown, later);
    let all = aggregate(results, outcomes);
    assert forall|k: int| 0 <= k < results.triggered.len() implies all.triggered.contains(
        #[trigger] results.triggered[k],
    ) by {
        assert(grown.triggered[k] == results.triggered[k]);
    }
    assert forall|k: int| 0 <= k < results.failed.len() implies all.failed.contains(
        #[trigger] results.failed[k],
    ) by {
        assert(grown.failed[k] == results.failed[k]);
    }
    if i == 0 {
        assert forall|k: int| 0 <= k < outcomes[0].triggered@.len() implies all.triggered.contains(
            #[trigger] outcomes[0].triggered@[k],
        ) by {
            assert(grown.triggered[results.triggered.len() + k] == outcomes[0].triggered@[k]);
        }
        assert forall|k: int| 0 <= k < outcomes[0].failed@.len() implies all.failed.contains(
            #[trigger] outcomes[0].failed@[k],
        ) by {
            assert(grown.failed[results.failed.len() + k] == outcomes[0].failed@[k]);
        }
    } else {
        law_aggregate_keeps_every_attempt(grown, later, i - 1);
        assert(later[i - 1] == outcomes[i]);
    }
}

/// The aggregate holds what was there before any outcome came in.
proof fn lemma_aggregate_keeps_results(results: UpdateResults, outcomes: Seq<TryUpdateAllWorkersResult>)
    ensures
        forall|k: int|
            0 <= k < results.triggered.len() ==> aggregate(results, outcomes).triggered.contains(
                #[trigger] results.triggered[k],
            ),
        forall|k: int|
            0 <= k < results.failed.len() ==> aggregate(results, outcomes).failed.contains(
                #[trigger] results.failed[k],
            ),
    decreases outcomes.len(),
{
    if outcomes.len() > 0 {
        let grown = results.extend(outcomes[0]@);
        lemma_aggregate_keeps_results(grown, outcomes.drop_first());
        let all = aggregate(results, outcomes);
        assert forall|k: int| 0 <= k < results.triggered.len() implies all.triggered.contains(
            #[trigger] results.triggered[k],
        ) by {
            assert(grown.triggered[k] == results.triggered[k]);
        }
        assert forall|k: int| 0 <= k < results.failed.len() implies all.failed.contains(
            #[trigger] results.failed[k],
        ) by {
            assert(grown.failed[k] == results.failed[k]);
        }
    }
}

/// What a redeployment has asked for and where it stands, after the replies
/// have come in, one for each request, for as long as there is a request.
pub open spec fn redeploy_run(
    progress: WorkerRedeployView,
    replies: Seq<Result<(), Failure>>,
) -> (Seq<Component>, WorkerRedeployView)
    decreases replies.len(),
{
    match progress {
        WorkerRedeployView::Redeploy { component, rest } => if replies.len() == 0 {
            (seq![component], progress)
        } else {
            let later = redeploy_run(redeploy_resumed(rest, replies[0]), replies.drop_first());
            (seq![component] + later.0, later.1)
        },
        WorkerRedeployView::Done(_) => (Seq::empty(), progress),
    }
}

/// A redeployment in which nothing fails asks for every component of the
/// batch, in order, and succeeds.
pub proof fn law_redeploy_visits_every_component(
    components: Seq<Component>,
    replies: Seq<Result<(), Failure>>,
)
    requires
        replies.len() == components.len(),
        forall|i: int| 0 <= i < replies.len() ==> (#[trigger] replies[i]) is Ok,
    ensures
        redeploy_run(redeploy_step(components), replies) == (
            components,
            WorkerRedeployView::Done(Ok(())),
        ),
    decreases components.len(),
{
    if components.len() > 0 {
        let later = replies.drop_first();
        law_redeploy_visits_every_component(components.drop_first(), later);
    }
}

/// A redeployment ends with the first failure: it has asked for the
/// components up to the one that failed, and for none after it, whatever
/// replies would have come for those.
pub proof fn law_redeploy_stops_at_first_failure(
    components: Seq<Component>,
    replies: Seq<Result<(), Failure>>,
    failed: int,
)
    requires
        0 <= failed < replies.len() <= components.len(),
        replies[failed] is Err,
        forall|i: int| 0 <= i < failed ==> (#[trigger] replies[i]) is Ok,
    ensures
        redeploy_run(redeploy_step(components), replies) == (
            components.take(failed + 1),
            WorkerRedeployView::Done(Err(replies[failed]->Err_0)),
        ),
    decreases failed,
{
    let later = replies.drop_first();
    if failed == 0 {
        let done = WorkerRedeployView::Done(Err(replies[0]->Err_0));
        assert(redeploy_run(done, later).0 =~= Seq::<Component>::empty());
    } else {
        law_redeploy_stops_at_first_failure(components.drop_first(), later, failed - 1);
        assert(seq![components[0]] + components.drop_first().take(failed) =~= components.take(
            failed + 1,
        ));
    }
}

} // verus!
