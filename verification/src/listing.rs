//! Commands that report on deployed components, and the collection of the
//! deployed components that a worker command works on.

use crate::handler::ComponentCommandHandler;
use crate::lookup::{lookup_start, LookupProgress};
use crate::model::{
    Component, ComponentId, ComponentName, ComponentSelection, Failure, ProjectId,
    ProjectNameAndId, RemoteError, SelectedComponents,
};
use crate::select::{select_begins, SelectError, SelectProgress};
use vstd::prelude::*;

verus! {

/// Why a command on components failed.
#[derive(Clone, Debug, PartialEq, Eq)]
pub enum CommandError {
    /// No components could be chosen.
    Select(SelectError),
    /// The remote store failed.
    Remote(RemoteError),
    /// The application does not know the name that was asked for.
    Application(Failure),
    /// Nothing to list.
    NothingFound,
    /// A version was asked for, of more than one component.
    VersionWithMultipleComponents { selected: Vec<ComponentName> },
    /// No component that was selected exists.
    ComponentNotFound,
    /// The one component that was selected has no such version. With it
    /// come the versions that it has, where the store would list them.
    VersionNotFound { available: Option<Vec<Component>> },
}

/// Asks for the selection of `component_name`, or of the components of the
/// current directory; the selection may be empty, unless `must_match`.
#[derive(Debug, PartialEq, Eq)]
pub struct SelectingComponents {
    pub component_name: Option<ComponentName>,
    pub must_match: bool,
}

/// Asks for the lookup of the latest version of `component_name`.
#[derive(Debug, PartialEq, Eq)]
pub struct FindingEach {
    pub project: Option<ProjectNameAndId>,
    pub component_name: ComponentName,
    /// The names whose turn comes after `component_name`.
    pub rest: Vec<ComponentName>,
    /// The components that were found before it.
    pub found: Vec<Component>,
}

/// Where the collection of the deployed components stands.
#[derive(Debug, PartialEq, Eq)]
pub enum CollectProgress {
    Select(SelectingComponents),
    Find(FindingEach),
    Done(Result<Vec<Component>, CommandError>),
}

/// What a result of components stands for.
pub open spec fn outcome_view(outcome: Result<Vec<Component>, CommandError>) -> Result<
    Seq<Component>,
    CommandError,
> {
    match outcome {
        Ok(components) => Ok(components@),
        Err(e) => Err(e),
    }
}

/// What a `CollectProgress` stands for.
pub enum CollectView {
    Select(SelectingComponents),
    Find {
        project: Option<ProjectNameAndId>,
        component_name: ComponentName,
        rest: Seq<ComponentName>,
        found: Seq<Component>,
    },
    Done(Result<Seq<Component>, CommandError>),
}

impl View for CollectProgress {
    type V = CollectView;

    open spec fn view(&self) -> CollectView {
        match *self {
            CollectProgress::Select(state) => CollectView::Select(state),
            CollectProgress::Find(state) => CollectView::Find {
                project: state.project,
                component_name: state.component_name,
                rest: state.rest@,
                found: state.found@,
            },
            CollectProgress::Done(outcome) => CollectView::Done(outcome_view(outcome)),
        }
    }
}

/// With `found` in hand and the names `rest` to go: the lookup of the first
/// of `rest`, or, with none left, `found`.
pub open spec fn collect_step(
    project: Option<ProjectNameAndId>,
    rest: Seq<ComponentName>,
    found: Seq<Component>,
) -> CollectView {
    if rest.len() > 0 {
        CollectView::Find { project, component_name: rest[0], rest: rest.drop_first(), found }
    } else {
        CollectView::Done(Ok(found))
    }
}

/// A collection after `reply` came back for its current name: a component
/// that is not deployed is passed over, a failure of the store ends the
/// collection.
pub open spec fn collect_resumed(
    project: Option<ProjectNameAndId>,
    rest: Seq<ComponentName>,
    found: Seq<Component>,
    reply: Result<Option<Component>, RemoteError>,
) -> CollectView {
    match reply {
        Err(e) => CollectView::Done(Err(CommandError::Remote(e))),
        Ok(Some(component)) => collect_step(project, rest, found.push(component)),
        Ok(None) => collect_step(project, rest, found),
    }
}

fn next_lookup(
    project: Option<ProjectNameAndId>,
    rest: Vec<ComponentName>,
    found: Vec<Component>,
) -> (next: CollectProgress)
    ensures
        next@ == collect_step(project, rest@, found@),
{
    if rest.len() > 0 {
        let mut later = rest;
        let component_name = later.remove(0);
        CollectProgress::Find(FindingEach { project, component_name, rest: later, found })
    } else {
        CollectProgress::Done(Ok(found))
    }
}

impl SelectingComponents {
    /// Begins the selection that this state asks for.
    pub fn begin(&self, handler: &ComponentCommandHandler) -> (first: SelectProgress)
        ensures
            select_begins(self.component_name, !self.must_match, first),
    {
        if self.must_match {
            handler.must_select_components_by_app_or_name(self.component_name.as_ref())
        } else {
            handler.opt_select_components_by_app_or_name(self.component_name.as_ref())
        }
    }

    /// Takes the selection, or the failure to select, which ends the
    /// collection. Every selected name is looked up, in order.
    pub fn selected(self, reply: Result<SelectedComponents, SelectError>) -> (next: CollectProgress)
        ensures
            next@ == match reply {
                Err(e) => CollectView::Done(Err(CommandError::Select(e))),
                Ok(selected) => collect_step(
                    selected.project,
                    selected.component_names@,
                    Seq::empty(),
                ),
            },
    {
        match reply {
            Err(e) => CollectProgress::Done(Err(CommandError::Select(e))),
            Ok(selected) => next_lookup(selected.project, selected.component_names, Vec::new()),
        }
    }
}

impl FindingEach {
    /// Begins the lookup that this state asks for.
    pub fn begin(&self, handler: &ComponentCommandHandler) -> (first: LookupProgress)
        ensures
            first == lookup_start(
                self.project,
                ComponentSelection::Name(self.component_name),
                None,
            ),
    {
        handler.component(
            self.project.as_ref(),
            ComponentSelection::Name(self.component_name.duplicate()),
            None,
        )
    }

    /// Takes the result of the lookup.
    pub fn found(self, reply: Result<Option<Component>, RemoteError>) -> (next: CollectProgress)
        ensures
            next@ == collect_resumed(self.project, self.rest@, self.found@, reply),
    {
        match reply {
            Err(e) => CollectProgress::Done(Err(CommandError::Remote(e))),
            Ok(Some(component)) => {
                let mut found = self.found;
                found.push(component);
                next_lookup(self.project, self.rest, found)
            },
            Ok(None) => next_lookup(self.project, self.rest, self.found),
        }
    }
}

/// What a collection has looked up and where it stands, after the replies
/// have come in, one for each lookup, for as long as there is a lookup.
pub open spec fn collect_run(
    progress: CollectView,
    replies: Seq<Result<Option<Component>, RemoteError>>,
) -> (Seq<ComponentName>, CollectView)
    decreases replies.len(),
{
    match progress {
        CollectView::Find { project, component_name, rest, found } => if replies.len() == 0 {
            (seq![component_name], progress)
        } else {
            let later = collect_run(
                collect_resumed(project, rest, found, replies[0]),
                replies.drop_first(),
            );
            (seq![component_name] + later.0, later.1)
        },
        _ => (Seq::empty(), progress),
    }
}

/// The components that the replies hold, in their order.
pub open spec fn deployed_among(replies: Seq<Result<Option<Component>, RemoteError>>) -> Seq<
    Component,
>
    decreases replies.len(),
{
    if replies.len() == 0 {
        Seq::empty()
    } else {
        match replies[0] {
            Ok(Some(component)) => seq![component] + deployed_among(replies.drop_first()),
            _ => deployed_among(replies.drop_first()),
        }
    }
}

/// Where the store does not fail, every selected name is looked up, in
/// order, and the collection ends with the components that exist, in that
/// order: a name that is not deployed does not end it.
pub proof fn law_collect_passes_over_missing(
    project: Option<ProjectNameAndId>,
    names: Seq<ComponentName>,
    found: Seq<Component>,
    replies: Seq<Result<Option<Component>, RemoteError>>,
)
    requires
        replies.len() == names.len(),
        forall|i: int| 0 <= i < replies.len() ==> (#[trigger] replies[i]) is Ok,
    ensures
        collect_run(collect_step(project, names, found), replies) == (
            names,
            CollectView::Done(Ok(found + deployed_among(replies))),
        ),
    decreases names.len(),
{
    if names.len() > 0 {
        let later = replies.drop_first();
        let grown = match replies[0] {
            Ok(Some(component)) => found.push(component),
            _ => found,
        };
        law_collect_passes_over_missing(project, names.drop_first(), grown, later);
        assert(grown + deployed_among(later) =~= found + deployed_among(replies));
    }
}

/// The first lookup in which the store fails ends the collection with that
/// failure: no later name is looked up.
pub proof fn law_collect_stops_at_first_failure(
    project: Option<ProjectNameAndId>,
    names: Seq<ComponentName>,
    found: Seq<Component>,
    replies: Seq<Result<Option<Component>, RemoteError>>,
    failed: int,
)
    requires
        0 <= failed < replies.len() <= names.len(),
        replies[failed] is Err,
        forall|i: int| 0 <= i < failed ==> (#[trigger] replies[i]) is Ok,
    ensures
        collect_run(collect_step(project, names, found), replies) == (
            names.take(failed + 1),
            CollectView::Done(Err(CommandError::Remote(replies[failed]->Err_0))),
        ),
    decreases failed,
{
    let later = replies.drop_first();
    if failed == 0 {
        let done = CollectView::Done(Err(CommandError::Remote(replies[0]->Err_0)));
        assert(collect_run(done, later).0 =~= Seq::<ComponentName>::empty());
    } else {
        let grown = match replies[0] {
            Ok(Some(component)) => found.push(component),
            _ => found,
        };
        law_collect_stops_at_first_failure(project, names.drop_first(), grown, later, failed - 1);
    }
}

/// Asks the store for every version of every component of `project`.
#[derive(Debug, PartialEq, Eq)]
pub struct ListingAll {
    pub project: Option<ProjectId>,
    pub requested: Option<ComponentName>,
}

/// Asks the store for every version of the component named `component_name`.
#[derive(Debug, PartialEq, Eq)]
pub struct ListingVersions {
    pub project: Option<ProjectId>,
    pub component_name: ComponentName,
    /// The names whose turn comes after `component_name`.
    pub rest: Vec<ComponentName>,
    /// The versions that were listed before it.
    pub listed: Vec<Component>,
    pub requested: Option<ComponentName>,
}

/// Asks the application to select `component_name` once more, this time
/// failing where it does not know the name.
#[derive(Debug, PartialEq, Eq)]
pub struct Reselecting {
    pub component_name: ComponentName,
}

/// Where the listing of components stands.
#[derive(Debug, PartialEq, Eq)]
pub enum ListProgress {
    Select(SelectingComponents),
    All(ListingAll),
    Versions(ListingVersions),
    Reselect(Reselecting),
    Done(Result<Vec<Component>, CommandError>),
}

/// What a `ListProgress` stands for.
pub enum ListView {
    Select(SelectingComponents),
    All(ListingAll),
    Versions {
        project: Option<ProjectId>,
        component_name: ComponentName,
        rest: Seq<ComponentName>,
        listed: Seq<Component>,
        requested: Option<ComponentName>,
    },
    Reselect(Reselecting),
    Done(Result<Seq<Component>, CommandError>),
}

impl View for ListProgress {
    type V = ListView;

    open spec fn view(&self) -> ListView {
        match *self {
            ListProgress::Select(state) => ListView::Select(state),
            ListProgress::All(state) => ListView::All(state),
            ListProgress::Versions(state) => ListView::Versions {
                project: state.project,
                component_name: state.component_name,
                rest: state.rest@,
                listed: state.listed@,
                requested: state.requested,
            },
            ListProgress::Reselect(state) => ListView::Reselect(state),
            ListProgress::Done(outcome) => ListView::Done(outcome_view(outcome)),
        }
    }
}

/// How a listing ends: with what was listed, if anything. With nothing
/// listed for a name that was asked for, the application is asked about
/// that name first, so that it can say what is wrong with it.
pub open spec fn list_end(listed: Seq<Component>, requested: Option<ComponentName>) -> ListView {
    if listed.len() > 0 {
        ListView::Done(Ok(listed))
    } else {
        match requested {
            Some(component_name) => ListView::Reselect(Reselecting { component_name }),
            None => ListView::Done(Err(CommandError::NothingFound)),
        }
    }
}

/// With `listed` in hand and the names `rest` to go: the listing of the
/// first of `rest`, or, with none left, the end.
pub open spec fn list_step(
    project: Option<ProjectId>,
    rest: Seq<ComponentName>,
    listed: Seq<Component>,
    requested: Option<ComponentName>,
) -> ListView {
    if rest.len() > 0 {
        ListView::Versions {
            project,
            component_name: rest[0],
            rest: rest.drop_first(),
            listed,
            requested,
        }
    } else {
        list_end(listed, requested)
    }
}

/// How a listing goes on once the components are selected: with no name
/// selected, everything in the project is listed.
pub open spec fn list_selected(
    selected: SelectedComponents,
    requested: Option<ComponentName>,
) -> ListView {
    let project = match selected.project {
        Some(p) => Some(p.project_id),
        None => None,
    };
    if selected.component_names@.len() == 0 {
        ListView::All(ListingAll { project, requested })
    } else {
        list_step(project, selected.component_names@, Seq::empty(), requested)
    }
}

/// A listing after `reply` came back for its current name: the versions
/// listed are added, none of them where the name has none; a failure of
/// the store ends the listing.
pub open spec fn list_resumed(
    project: Option<ProjectId>,
    rest: Seq<ComponentName>,
    listed: Seq<Component>,
    requested: Option<ComponentName>,
    reply: Result<Vec<Component>, RemoteError>,
) -> ListView {
    match reply {
        Err(e) => ListView::Done(Err(CommandError::Remote(e))),
        Ok(components) => list_step(project, rest, listed + components@, requested),
    }
}

fn end_of_list(listed: Vec<Component>, requested: Option<ComponentName>) -> (next: ListProgress)
    ensures
        next@ == list_end(listed@, requested),
{
    if listed.len() > 0 {
        ListProgress::Done(Ok(listed))
    } else {
        match requested {
            Some(component_name) => ListProgress::Reselect(Reselecting { component_name }),
            None => ListProgress::Done(Err(CommandError::NothingFound)),
        }
    }
}

fn next_listing(
    project: Option<ProjectId>,
    rest: Vec<ComponentName>,
    listed: Vec<Component>,
    requested: Option<ComponentName>,
) -> (next: ListProgress)
    ensures
        next@ == list_step(project, rest@, listed@, requested),
{
    if rest.len() > 0 {
        let mut later = rest;
        let component_name = later.remove(0);
        ListProgress::Versions(
            ListingVersions { project, component_name, rest: later, listed, requested },
        )
    } else {
        end_of_list(listed, requested)
    }
}

impl ComponentCommandHandler {
    /// Begins the listing of the versions of `component_name`, or of the
    /// components that the application selects where no name is given.
    pub fn cmd_list(&self, component_name: Option<ComponentName>) -> (first: ListProgress)
        ensures
            first == ListProgress::Select(
                SelectingComponents { component_name, must_match: false },
            ),
    {
        ListProgress::Select(SelectingComponents { component_name, must_match: false })
    }
}

impl SelectingComponents {
    /// Takes the selection for a listing.
    pub fn selected_for_list(self, reply: Result<SelectedComponents, SelectError>) -> (next:
        ListProgress)
        ensures
            next@ == match reply {
                Err(e) => ListView::Done(Err(CommandError::Select(e))),
                Ok(selected) => list_selected(selected, self.component_name),
            },
    {
        match reply {
            Err(e) => ListProgress::Done(Err(CommandError::Select(e))),
            Ok(selected) => {
                let project = match &selected.project {
                    Some(p) => Some(p.project_id),
                    None => None,
                };
                if selected.component_names.len() == 0 {
                    ListProgress::All(ListingAll { project, requested: self.component_name })
                } else {
                    next_listing(
                        project,
                        selected.component_names,
                        Vec::new(),
                        self.component_name,
                    )
                }
            },
        }
    }
}

impl ListingAll {
    /// Takes everything that the store lists.
    pub fn listed(self, reply: Result<Vec<Component>, RemoteError>) -> (next: ListProgress)
        ensures
            next@ == match reply {
                Err(e) => ListView::Done(Err(CommandError::Remote(e))),
                Ok(components) => list_end(components@, self.requested),
            },
    {
        match reply {
            Err(e) => ListProgress::Done(Err(CommandError::Remote(e))),
            Ok(components) => end_of_list(components, self.requested),
        }
    }
}

impl ListingVersions {
    /// Takes the versions of `component_name`; a name without versions adds
    /// nothing, and the listing goes on.
    pub fn listed(self, reply: Result<Vec<Component>, RemoteError>) -> (next: ListProgress)
        ensures
            next@ == list_resumed(self.project, self.rest@, self.listed@, self.requested, reply),
    {
        match reply {
            Err(e) => ListProgress::Done(Err(CommandError::Remote(e))),
            Ok(components) => {
                let mut listed = self.listed;
                let mut components = components;
                listed.append(&mut components);
                next_listing(self.project, self.rest, listed, self.requested)
            },
        }
    }
}

impl Reselecting {
    /// Takes the application's answer after an empty listing: its failure
    /// says what is wrong with the name; without one, nothing was found.
    pub fn reselected_for_list(self, reply: Result<(), Failure>) -> (next: ListProgress)
        ensures
            next == ListProgress::Done(
                Err(
                    match reply {
                        Err(failure) => CommandError::Application(failure),
                        Ok(()) => CommandError::NothingFound,
                    },
                ),
            ),
    {
        match reply {
            Err(failure) => ListProgress::Done(Err(CommandError::Application(failure))),
            Ok(()) => ListProgress::Done(Err(CommandError::NothingFound)),
        }
    }
}

/// What a listing has asked for and where it stands, after the replies
/// have come in, one for each name, for as long as there is a name.
pub open spec fn list_run(
    progress: ListView,
    replies: Seq<Result<Vec<Component>, RemoteError>>,
) -> (Seq<ComponentName>, ListView)
    decreases replies.len(),
{
    match progress {
        ListView::Versions { project, component_name, rest, listed, requested } => if replies.len()
            == 0 {
            (seq![component_name], progress)
        } else {
            let later = list_run(
                list_resumed(project, rest, listed, requested, replies[0]),
                replies.drop_first(),
            );
            (seq![component_name] + later.0, later.1)
        },
        _ => (Seq::empty(), progress),
    }
}

/// All the versions that the replies list, in their order.
pub open spec fn versions_among(replies: Seq<Result<Vec<Component>, RemoteError>>) -> Seq<
    Component,
>
    decreases replies.len(),
{
    if replies.len() == 0 {
        Seq::empty()
    } else {
        match replies[0] {
            Ok(components) => components@ + versions_among(replies.drop_first()),
            Err(_) => versions_among(replies.drop_first()),
        }
    }
}

/// Where the store does not fail, the versions of every selected name are
/// asked for, in order, and the listing ends as `list_end` says for all of
/// them together: a name without versions does not end it.
pub proof fn law_list_visits_every_name(
    project: Option<ProjectId>,
    names: Seq<ComponentName>,
    listed: Seq<Component>,
    requested: Option<ComponentName>,
    replies: Seq<Result<Vec<Component>, RemoteError>>,
)
    requires
        replies.len() == names.len(),
        forall|i: int| 0 <= i < replies.len() ==> (#[trigger] replies[i]) is Ok,
    ensures
        list_run(list_step(project, names, listed, requested), replies) == (
            names,
            list_end(listed + versions_among(replies), requested),
        ),
    decreases names.len(),
{
    if names.len() > 0 {
        let later = replies.drop_first();
        let grown = listed + replies[0]->Ok_0@;
        law_list_visits_every_name(project, names.drop_first(), grown, requested, later);
        assert(grown + versions_among(later) =~= listed + versions_among(replies));
    }
}

/// What a `get` was asked for, and what it has selected.
#[derive(Clone, Debug, PartialEq, Eq)]
pub struct GetQuery {
    /// The version that was asked for; the latest where none was.
    pub version: Option<u64>,
    /// The name that was asked for, if any.
    pub requested: Option<ComponentName>,
    pub project: Option<ProjectNameAndId>,
    /// The selected name, where exactly one was selected.
    pub single: Option<ComponentName>,
}

/// Asks for the id of the component named `component_name`.
#[derive(Debug, PartialEq, Eq)]
pub struct FindingId {
    pub component_name: ComponentName,
    pub rest: Vec<ComponentName>,
    pub found: Vec<Component>,
    pub query: GetQuery,
}

/// Asks the store for version `version` of `component_id`, or for its
/// latest version.
#[derive(Debug, PartialEq, Eq)]
pub struct FetchingComponent {
    pub component_id: ComponentId,
    pub version: Option<u64>,
    pub rest: Vec<ComponentName>,
    pub found: Vec<Component>,
    pub query: GetQuery,
}

/// Asks the application to select `component_name` once more, this time
/// failing where it does not know the name.
#[derive(Debug, PartialEq, Eq)]
pub struct ReselectingForGet {
    pub component_name: ComponentName,
    pub query: GetQuery,
}

/// Asks the store for the versions that `component_name` has.
#[derive(Debug, PartialEq, Eq)]
pub struct ListingAvailable {
    pub project: Option<ProjectId>,
    pub component_name: ComponentName,
}

/// Where a `get` stands.
#[derive(Debug, PartialEq, Eq)]
pub enum GetProgress {
    Select { state: SelectingComponents, version: Option<u64> },
    FindId(FindingId),
    Fetch(FetchingComponent),
    Reselect(ReselectingForGet),
    Available(ListingAvailable),
    Done(Result<Vec<Component>, CommandError>),
}

/// What a `GetProgress` stands for.
pub enum GetView {
    Select { state: SelectingComponents, version: Option<u64> },
    FindId {
        component_name: ComponentName,
        rest: Seq<ComponentName>,
        found: Seq<Component>,
        query: GetQuery,
    },
    Fetch {
        component_id: ComponentId,
        version: Option<u64>,
        rest: Seq<ComponentName>,
        found: Seq<Component>,
        query: GetQuery,
    },
    Reselect(ReselectingForGet),
    Available(ListingAvailable),
    Done(Result<Seq<Component>, CommandError>),
}

impl View for GetProgress {
    type V = GetView;

    open spec fn view(&self) -> GetView {
        match *self {
            GetProgress::Select { state, version } => GetView::Select { state, version },
            GetProgress::FindId(state) => GetView::FindId {
                component_name: state.component_name,
                rest: state.rest@,
                found: state.found@,
                query: state.query,
            },
            GetProgress::Fetch(state) => GetView::Fetch {
                component_id: state.component_id,
                version: state.version,
                rest: state.rest@,
                found: state.found@,
                query: state.query,
            },
            GetProgress::Reselect(state) => GetView::Reselect(state),
            GetProgress::Available(state) => GetView::Available(state),
            GetProgress::Done(outcome) => GetView::Done(outcome_view(outcome)),
        }
    }
}

/// How a `get` that found nothing ends: where a version of exactly one
/// component was asked for, the versions that it has are listed first;
/// otherwise no component was found.
pub open spec fn get_nothing(query: GetQuery) -> GetView {
    match (query.version, query.single) {
        (Some(_), Some(component_name)) => GetView::Available(
            ListingAvailable {
                project: match query.project {
                    Some(p) => Some(p.project_id),
                    None => None,
                },
                component_name,
            },
        ),
        _ => GetView::Done(Err(CommandError::ComponentNotFound)),
    }
}

/// How a `get` ends once every name is looked up.
pub open spec fn get_end(found: Seq<Component>, query: GetQuery) -> GetView {
    if found.len() > 0 {
        GetView::Done(Ok(found))
    } else {
        match query.requested {
            Some(component_name) => GetView::Reselect(ReselectingForGet { component_name, query }),
            None => get_nothing(query),
        }
    }
}

/// With `found` in hand and the names `rest` to go: the lookup of the first
/// of `rest`, or, with none left, the end.
pub open spec fn get_step(rest: Seq<ComponentName>, found: Seq<Component>, query: GetQuery) -> GetView {
    if rest.len() > 0 {
        GetView::FindId { component_name: rest[0], rest: rest.drop_first(), found, query }
    } else {
        get_end(found, query)
    }
}

/// The query that a selection makes of what was asked for.
pub open spec fn get_query(
    selected: SelectedComponents,
    requested: Option<ComponentName>,
    version: Option<u64>,
) -> GetQuery {
    GetQuery {
        version,
        requested,
        project: selected.project,
        single: if selected.component_names@.len() == 1 {
            Some(selected.component_names@[0])
        } else {
            None
        },
    }
}

/// How a `get` goes on once the components are selected: a version makes
/// sense for one component only.
pub open spec fn get_selected(
    selected: SelectedComponents,
    requested: Option<ComponentName>,
    version: Option<u64>,
) -> GetView {
    if version is Some && selected.component_names@.len() > 1 {
        GetView::Done(
            Err(CommandError::VersionWithMultipleComponents { selected: selected.component_names }),
        )
    } else {
        get_step(
            selected.component_names@,
            Seq::empty(),
            get_query(selected, requested, version),
        )
    }
}

fn nothing_to_get(query: GetQuery) -> (next: GetProgress)
    ensures
        next@ == get_nothing(query),
{
    match (query.version, query.single) {
        (Some(_), Some(component_name)) => GetProgress::Available(
            ListingAvailable {
                project: match query.project {
                    Some(p) => Some(p.project_id),
                    None => None,
                },
                component_name,
            },
        ),
        _ => GetProgress::Done(Err(CommandError::ComponentNotFound)),
    }
}

fn end_of_get(found: Vec<Component>, query: GetQuery) -> (next: GetProgress)
    ensures
        next@ == get_end(found@, query),
{
    if found.len() > 0 {
        GetProgress::Done(Ok(found))
    } else {
        match &query.requested {
            Some(name) => {
                let component_name = name.duplicate();
                GetProgress::Reselect(ReselectingForGet { component_name, query })
            },
            None => nothing_to_get(query),
        }
    }
}

fn next_get(rest: Vec<ComponentName>, found: Vec<Component>, query: GetQuery) -> (next:
    GetProgress)
    ensures
        next@ == get_step(rest@, found@, query),
{
    if rest.len() > 0 {
        let mut later = rest;
        let component_name = later.remove(0);
        GetProgress::FindId(FindingId { component_name, rest: later, found, query })
    } else {
        end_of_get(found, query)
    }
}

impl ComponentCommandHandler {
    /// Begins the `get` of `component_name`, or of the components that the
    /// application selects where no name is given, at `version` or at the
    /// latest.
    pub fn cmd_get(&self, component_name: Option<ComponentName>, version: Option<u64>) -> (first:
        GetProgress)
        ensures
            first == (GetProgress::Select {
                state: SelectingComponents { component_name, must_match: true },
                version,
            }),
    {
        GetProgress::Select {
            state: SelectingComponents { component_name, must_match: true },
            version,
        }
    }
}

impl SelectingComponents {
    /// Takes the selection for a `get` at `version`.
    pub fn selected_for_get(
        self,
        version: Option<u64>,
        reply: Result<SelectedComponents, SelectError>,
    ) -> (next: GetProgress)
        ensures
            next@ == match reply {
                Err(e) => GetView::Done(Err(CommandError::Select(e))),
                Ok(selected) => get_selected(selected, self.component_name, version),
            },
    {
        match reply {
            Err(e) => GetProgress::Done(Err(CommandError::Select(e))),
            Ok(selected) => {
                let count = selected.component_names.len();
                if version.is_some() && count > 1 {
                    GetProgress::Done(
                        Err(
                            CommandError::VersionWithMultipleComponents {
                                selected: selected.component_names,
                            },
                        ),
                    )
                } else {
                    let single = if count == 1 {
                        Some(selected.component_names[0].duplicate())
                    } else {
                        None
                    };
                    let query = GetQuery {
                        version,
                        requested: self.component_name,
                        project: selected.project,
                        single,
                    };
                    next_get(selected.component_names, Vec::new(), query)
                }
            },
        }
    }
}

impl FindingId {
    /// Begins the lookup that this state asks for.
    pub fn begin(&self, handler: &ComponentCommandHandler) -> (first: LookupProgress)
        ensures
            first == lookup_start(
                self.query.project,
                ComponentSelection::Name(self.component_name),
                None,
            ),
    {
        handler.component_id_by_name(self.query.project.as_ref(), &self.component_name)
    }

    /// Takes the id of the component. One that does not exist is passed
    /// over; a failure of the store ends the command.
    pub fn found(self, reply: Result<Option<ComponentId>, RemoteError>) -> (next: GetProgress)
        ensures
            next@ == match reply {
                Err(e) => GetView::Done(Err(CommandError::Remote(e))),
                Ok(None) => get_step(self.rest@, self.found@, self.query),
                Ok(Some(component_id)) => GetView::Fetch {
                    component_id,
                    version: self.query.version,
                    rest: self.rest@,
                    found: self.found@,
                    query: self.query,
                },
            },
    {
        match reply {
            Err(e) => GetProgress::Done(Err(CommandError::Remote(e))),
            Ok(None) => next_get(self.rest, self.found, self.query),
            Ok(Some(component_id)) => GetProgress::Fetch(
                FetchingComponent {
                    component_id,
                    version: self.query.version,
                    rest: self.rest,
                    found: self.found,
                    query: self.query,
                },
            ),
        }
    }
}

impl FetchingComponent {
    /// Takes the store's answer. A version that the component does not
    /// have adds nothing and ends nothing; any other failure of the store
    /// ends the command.
    pub fn fetched(self, reply: Result<Component, RemoteError>) -> (next: GetProgress)
        ensures
            next@ == match reply {
                Ok(component) => get_step(self.rest@, self.found@.push(component), self.query),
                Err(RemoteError::NotFound) => get_step(self.rest@, self.found@, self.query),
                Err(e) => GetView::Done(Err(CommandError::Remote(e))),
            },
    {
        match reply {
            Ok(component) => {
                let mut found = self.found;
                found.push(component);
                next_get(self.rest, found, self.query)
            },
            Err(RemoteError::NotFound) => next_get(self.rest, self.found, self.query),
            Err(e) => GetProgress::Done(Err(CommandError::Remote(e))),
        }
    }
}

impl ReselectingForGet {
    /// Takes the application's answer after nothing was found: its failure
    /// says what is wrong with the name.
    pub fn reselected(self, reply: Result<(), Failure>) -> (next: GetProgress)
        ensures
            next@ == match reply {
                Err(failure) => GetView::Done(Err(CommandError::Application(failure))),
                Ok(()) => get_nothing(self.query),
            },
    {
        match reply {
            Err(failure) => GetProgress::Done(Err(CommandError::Application(failure))),
            Ok(()) => nothing_to_get(self.query),
        }
    }
}

impl ListingAvailable {
    /// Takes the versions that the component has; the command fails with
    /// them, or without them where the store would not list them.
    pub fn listed(self, reply: Result<Vec<Component>, RemoteError>) -> (next: GetProgress)
        ensures
            next == GetProgress::Done(
                Err(
                    CommandError::VersionNotFound {
                        available: match reply {
                            Ok(versions) => Some(versions),
                            Err(_) => None,
                        },
                    },
                ),
            ),
    {
        GetProgress::Done(
            Err(
                CommandError::VersionNotFound {
                    available: match reply {
                        Ok(versions) => Some(versions),
                        Err(_) => None,
                    },
                },
            ),
        )
    }
}

impl ComponentCommandHandler {
    /// Begins the collection of the deployed components among those that
    /// `component_name` or the application selects.
    pub fn components_for_update_or_redeploy(
        &self,
        component_name: Option<ComponentName>,
    ) -> (first: CollectProgress)
        ensures
            first == CollectProgress::Select(
                SelectingComponents { component_name, must_match: false },
            ),
    {
        CollectProgress::Select(SelectingComponents { component_name, must_match: false })
    }
}

} // verus!
