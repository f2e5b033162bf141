//! The dynamic linking of a component: which interface of which component
//! stands behind each resource of each stub interface that it imports.

use crate::model::{ComponentName, ComponentType, Failure};
use crate::string_map::{
    distinct_keys, lemma_map_of_last_wins, lemma_map_of_len, map_of, StringMap,
};
use vstd::prelude::*;

verus! {

/// How a component depends on another.
#[derive(Clone, Copy, Debug, PartialEq, Eq, Hash)]
pub enum DependencyType {
    /// Calls that are linked when the component is deployed.
    DynamicWasmRpc,
    /// Calls that are linked when the component is built.
    StaticWasmRpc,
    /// Plain composition of components.
    Wasm,
}

/// A declared dependency of a component.
#[derive(Clone, Debug, PartialEq, Eq, Hash)]
pub struct DependentComponent {
    pub name: ComponentName,
    pub dep_type: DependencyType,
}

/// What the build knows of the stub that a dependency exports.
#[derive(Clone, Debug, PartialEq, Eq, Hash)]
pub struct StubInterfaces {
    pub stub_interface_name: String,
    pub component_name: ComponentName,
    pub is_ephemeral: bool,
    /// Pairs of a stub resource and the interface that it exports.
    pub exported_interfaces_per_stub_resource: Vec<(String, String)>,
}

/// The target of the calls on one stub resource.
#[derive(Clone, Debug, PartialEq, Eq, Hash)]
pub struct WasmRpcTarget {
    pub interface_name: String,
    pub component_name: String,
    pub component_type: ComponentType,
}

/// The targets of one stub interface, by resource.
#[derive(Debug, PartialEq, Eq)]
pub struct DynamicLinkedWasmRpc {
    pub targets: StringMap<WasmRpcTarget>,
}

/// What one stub interface is linked to.
#[derive(Debug, PartialEq, Eq)]
pub enum DynamicLinkedInstance {
    WasmRpc(DynamicLinkedWasmRpc),
}

/// The dynamic linking of one component, by stub interface.
#[derive(Debug, PartialEq, Eq)]
pub struct DynamicLinking {
    pub dynamic_linking: StringMap<DynamicLinkedInstance>,
}

/// Ephemeral where the build says so, durable otherwise.
pub open spec fn target_type(is_ephemeral: bool) -> ComponentType {
    if is_ephemeral {
        ComponentType::Ephemeral
    } else {
        ComponentType::Durable
    }
}

/// One entry for every pair of resource and interface that the stub
/// exports, in their order.
pub open spec fn target_entries(stub: StubInterfaces) -> Seq<(String, WasmRpcTarget)> {
    Seq::new(
        stub.exported_interfaces_per_stub_resource@.len(),
        |i: int|
            (
                stub.exported_interfaces_per_stub_resource@[i].0,
                WasmRpcTarget {
                    interface_name: stub.exported_interfaces_per_stub_resource@[i].1,
                    component_name: stub.component_name.0,
                    component_type: target_type(stub.is_ephemeral),
                },
            ),
    )
}

/// The targets of one stub, by resource name.
pub open spec fn targets_of(stub: StubInterfaces) -> Map<Seq<char>, WasmRpcTarget> {
    map_of(target_entries(stub))
}

/// The linking that the stubs spell: each stub's targets under its stub
/// interface name, a later stub replacing an earlier one of the same name.
pub open spec fn linking_of(stubs: Seq<StubInterfaces>) -> Map<
    Seq<char>,
    Map<Seq<char>, WasmRpcTarget>,
>
    decreases stubs.len(),
{
    if stubs.len() == 0 {
        Map::empty()
    } else {
        linking_of(stubs.drop_last()).insert(
            stubs.last().stub_interface_name@,
            targets_of(stubs.last()),
        )
    }
}

impl DynamicLinkedInstance {
    /// The targets of this instance, by resource name.
    pub open spec fn targets(self) -> Map<Seq<char>, WasmRpcTarget> {
        match self {
            DynamicLinkedInstance::WasmRpc(rpc) => rpc.targets@,
        }
    }
}

impl View for DynamicLinking {
    type V = Map<Seq<char>, Map<Seq<char>, WasmRpcTarget>>;

    open spec fn view(&self) -> Map<Seq<char>, Map<Seq<char>, WasmRpcTarget>> {
        self.dynamic_linking@.map_values(|instance: DynamicLinkedInstance| instance.targets())
    }
}

/// The names of the dependencies that are linked dynamically, in the order
/// in which they are declared.
pub open spec fn dynamic_dependencies(dependencies: Seq<DependentComponent>) -> Seq<ComponentName>
    decreases dependencies.len(),
{
    if dependencies.len() == 0 {
        Seq::empty()
    } else {
        let earlier = dynamic_dependencies(dependencies.drop_last());
        if dependencies.last().dep_type == DependencyType::DynamicWasmRpc {
            earlier.push(dependencies.last().name)
        } else {
            earlier
        }
    }
}

/// Picks the dependencies that are linked dynamically.
pub fn wasm_rpc_dependencies(dependencies: &Vec<DependentComponent>) -> (names: Vec<ComponentName>)
    ensures
        names@ == dynamic_dependencies(dependencies@),
{
    let mut names: Vec<ComponentName> = Vec::new();
    let n = dependencies.len();
    let mut i: usize = 0;
    while i < n
        invariant
            n == dependencies@.len(),
            i <= n,
            names@ == dynamic_dependencies(dependencies@.take(i as int)),
        decreases n - i,
    {
        proof {
            assert(dependencies@.take(i + 1).drop_last() =~= dependencies@.take(i as int));
        }
        match dependencies[i].dep_type {
            DependencyType::DynamicWasmRpc => {
                names.push(dependencies[i].name.duplicate());
            },
            _ => {},
        }
        i = i + 1;
    }
    proof {
        assert(dependencies@.take(n as int) =~= dependencies@);
    }
    names
}

/// The targets of one stub.
pub fn wasm_rpc_targets(stub: &StubInterfaces) -> (rpc: DynamicLinkedWasmRpc)
    ensures
        rpc.targets@ == targets_of(*stub),
{
    let mut targets: StringMap<WasmRpcTarget> = StringMap::new();
    let n = stub.exported_interfaces_per_stub_resource.len();
    let mut i: usize = 0;
    while i < n
        invariant
            n == stub.exported_interfaces_per_stub_resource@.len(),
            i <= n,
            targets@ == map_of(target_entries(*stub).take(i as int)),
        decreases n - i,
    {
        proof {
            let entries = target_entries(*stub);
            assert(entries.take(i + 1).drop_last() =~= entries.take(i as int));
        }
        let component_type = if stub.is_ephemeral {
            ComponentType::Ephemeral
        } else {
            ComponentType::Durable
        };
        let pair = &stub.exported_interfaces_per_stub_resource[i];
        targets.insert(
            pair.0.clone(),
            WasmRpcTarget {
                interface_name: pair.1.clone(),
                component_name: stub.component_name.0.clone(),
                component_type,
            },
        );
        i = i + 1;
    }
    proof {
        assert(target_entries(*stub).take(n as int) =~= target_entries(*stub));
    }
    DynamicLinkedWasmRpc { targets }
}

/// The linking that the stubs of the dynamic dependencies spell; none where
/// there is no stub.
pub fn dynamic_linking_of(stubs: &Vec<StubInterfaces>) -> (linking: Option<DynamicLinking>)
    ensures
        stubs@.len() == 0 <==> linking is None,
        linking matches Some(l) ==> l@ == linking_of(stubs@),
{
    let n = stubs.len();
    if n == 0 {
        return None;
    }
    let mut linked: StringMap<DynamicLinkedInstance> = StringMap::new();
    let mut i: usize = 0;
    let ghost targets = |instance: DynamicLinkedInstance| instance.targets();
    while i < n
        invariant
            n == stubs@.len(),
            i <= n,
            targets == |instance: DynamicLinkedInstance| instance.targets(),
            linked@.map_values(targets) == linking_of(stubs@.take(i as int)),
        decreases n - i,
    {
        let ghost before = linked@;
        let rpc = wasm_rpc_targets(&stubs[i]);
        let instance = DynamicLinkedInstance::WasmRpc(rpc);
        let name = stubs[i].stub_interface_name.clone();
        linked.insert(name, instance);
        proof {
            assert(stubs@.take(i + 1).drop_last() =~= stubs@.take(i as int));
            assert(before.insert(name@, instance).map_values(targets) =~= before.map_values(
                targets,
            ).insert(name@, targets(instance)));
        }
        i = i + 1;
    }
    proof {
        assert(stubs@.take(n as int) =~= stubs@);
    }
    Some(DynamicLinking { dynamic_linking: linked })
}

/// A stub interface is linked exactly where some stub has its name.
pub proof fn law_linking_names_the_stubs(stubs: Seq<StubInterfaces>, name: Seq<char>)
    ensures
        linking_of(stubs).contains_key(name) <==> exists|i: int|
            0 <= i < stubs.len() && (#[trigger] stubs[i]).stub_interface_name@ == name,
    decreases stubs.len(),
{
    if stubs.len() > 0 {
        let init = stubs.drop_last();
        law_linking_names_the_stubs(init, name);
        if linking_of(stubs).contains_key(name) {
            if name != stubs.last().stub_interface_name@ {
                let i = choose|i: int|
                    0 <= i < init.len() && (#[trigger] init[i]).stub_interface_name@ == name;
            }
        }
        if exists|i: int| 0 <= i < stubs.len() && (#[trigger] stubs[i]).stub_interface_name@ == name {
            let i = choose|i: int|
                0 <= i < stubs.len() && (#[trigger] stubs[i]).stub_interface_name@ == name;
            if i < init.len() {
                assert(init[i].stub_interface_name@ == name);
            }
        }
    }
}

/// A stub interface is linked to the targets of the last stub of its name.
pub proof fn law_linking_takes_the_last_stub(stubs: Seq<StubInterfaces>, i: int)
    requires
        0 <= i < stubs.len(),
        forall|j: int|
            i < j < stubs.len() ==> (#[trigger] stubs[j]).stub_interface_name@
                != stubs[i].stub_interface_name@,
    ensures
        linking_of(stubs).contains_key(stubs[i].stub_interface_name@),
        linking_of(stubs)[stubs[i].stub_interface_name@] == targets_of(stubs[i]),
    decreases stubs.len(),
{
    let init = stubs.drop_last();
    if i < stubs.len() - 1 {
        law_linking_takes_the_last_stub(init, i);
    }
}

/// A linking that is there is never empty: it links at least the stub
/// interface of the last stub.
pub proof fn law_linking_present_is_not_empty(stubs: Seq<StubInterfaces>)
    requires
        stubs.len() > 0,
    ensures
        linking_of(stubs).contains_key(stubs.last().stub_interface_name@),
        linking_of(stubs) != Map::<Seq<char>, Map<Seq<char>, WasmRpcTarget>>::empty(),
{
    law_linking_takes_the_last_stub(stubs, stubs.len() - 1);
}

/// Every resource of a stub is linked to the interface that the stub
/// exports for it, in the stub's component, under the last pair of that
/// resource's name.
pub proof fn law_targets_take_the_last_pair(stub: StubInterfaces, i: int)
    requires
        0 <= i < stub.exported_interfaces_per_stub_resource@.len(),
        forall|j: int|
            i < j < stub.exported_interfaces_per_stub_resource@.len() ==> (
            #[trigger] stub.exported_interfaces_per_stub_resource@[j]).0@
                != stub.exported_interfaces_per_stub_resource@[i].0@,
    ensures
        targets_of(stub).contains_key(stub.exported_interfaces_per_stub_resource@[i].0@),
        targets_of(stub)[stub.exported_interfaces_per_stub_resource@[i].0@] == (WasmRpcTarget {
            interface_name: stub.exported_interfaces_per_stub_resource@[i].1,
            component_name: stub.component_name.0,
            component_type: target_type(stub.is_ephemeral),
        }),
{
    let entries = target_entries(stub);
    assert forall|j: int| i < j < entries.len() implies (#[trigger] entries[j]).0@
        != entries[i].0@ by {
        assert(stub.exported_interfaces_per_stub_resource@[j].0@
            != stub.exported_interfaces_per_stub_resource@[i].0@);
    }
    lemma_map_of_last_wins(entries, i);
}

/// One stub with two resources of different names links exactly one stub
/// interface, and that one to exactly two targets.
pub proof fn law_one_stub_with_two_resources(stub: StubInterfaces)
    requires
        stub.exported_interfaces_per_stub_resource@.len() == 2,
        stub.exported_interfaces_per_stub_resource@[0].0@
            != stub.exported_interfaces_per_stub_resource@[1].0@,
    ensures
        linking_of(seq![stub]).dom() == set![stub.stub_interface_name@],
        linking_of(seq![stub])[stub.stub_interface_name@] == targets_of(stub),
        targets_of(stub).dom() == set![
            stub.exported_interfaces_per_stub_resource@[0].0@,
            stub.exported_interfaces_per_stub_resource@[1].0@,
        ],
        targets_of(stub).len() == 2,
{
    let stubs = seq![stub];
    assert(linking_of(stubs.drop_last()) =~= Map::empty());
    let entries = target_entries(stub);
    let one = entries.drop_last();
    assert(map_of(one.drop_last()) =~= Map::empty());
    assert(map_of(one).dom() =~= set![entries[0].0@]);
}

/// Asks the application for the declared dependencies of `component_name`.
#[derive(Debug, PartialEq, Eq)]
pub struct ReadingDependencies {
    pub component_name: ComponentName,
}

/// Asks the application for the stub interfaces of `dependency`.
#[derive(Debug, PartialEq, Eq)]
pub struct ResolvingStubs {
    pub dependency: ComponentName,
    /// The dynamic dependencies that come after `dependency`.
    pub rest: Vec<ComponentName>,
    /// The stubs of those that came before it.
    pub resolved: Vec<StubInterfaces>,
}

/// Where the computation of a component's dynamic linking stands.
#[derive(Debug, PartialEq, Eq)]
pub enum LinkingProgress {
    Dependencies(ReadingDependencies),
    Stubs(ResolvingStubs),
    /// `Ok(None)` says that the component has no dynamic dependency.
    Done(Result<Option<DynamicLinking>, Failure>),
}

/// What a `LinkingProgress` stands for.
pub enum LinkingView {
    Dependencies { component_name: ComponentName },
    Stubs { dependency: ComponentName, rest: Seq<ComponentName>, resolved: Seq<StubInterfaces> },
    Done(Result<Option<Map<Seq<char>, Map<Seq<char>, WasmRpcTarget>>>, Failure>),
}

impl View for LinkingProgress {
    type V = LinkingView;

    open spec fn view(&self) -> LinkingView {
        match *self {
            LinkingProgress::Dependencies(state) => LinkingView::Dependencies {
                component_name: state.component_name,
            },
            LinkingProgress::Stubs(state) => LinkingView::Stubs {
                dependency: state.dependency,
                rest: state.rest@,
                resolved: state.resolved@,
            },
            LinkingProgress::Done(Ok(Some(linking))) => LinkingView::Done(Ok(Some(linking@))),
            LinkingProgress::Done(Ok(None)) => LinkingView::Done(Ok(None)),
            LinkingProgress::Done(Err(failure)) => LinkingView::Done(Err(failure)),
        }
    }
}

/// With the stubs `resolved` in hand and the dependencies `rest` to go: the
/// request for the first of `rest`, or, with none left, the linking that
/// `resolved` spells; no linking at all where there never was a dependency.
pub open spec fn linking_step(rest: Seq<ComponentName>, resolved: Seq<StubInterfaces>) -> LinkingView {
    if rest.len() > 0 {
        LinkingView::Stubs { dependency: rest[0], rest: rest.drop_first(), resolved }
    } else if resolved.len() == 0 {
        LinkingView::Done(Ok(None))
    } else {
        LinkingView::Done(Ok(Some(linking_of(resolved))))
    }
}

/// The computation after the stubs of its next dependency were asked for
/// and `reply` came back: a failure ends it.
pub open spec fn linking_resumed(
    rest: Seq<ComponentName>,
    resolved: Seq<StubInterfaces>,
    reply: Result<StubInterfaces, Failure>,
) -> LinkingView {
    match reply {
        Err(failure) => LinkingView::Done(Err(failure)),
        Ok(stub) => linking_step(rest, resolved.push(stub)),
    }
}

/// Begins the computation of the dynamic linking of `component_name`.
pub fn app_component_dynamic_linking(component_name: &ComponentName) -> (first: LinkingProgress)
    ensures
        first@ == (LinkingView::Dependencies { component_name: *component_name }),
{
    LinkingProgress::Dependencies(
        ReadingDependencies { component_name: component_name.duplicate() },
    )
}

fn next_stub(rest: Vec<ComponentName>, resolved: Vec<StubInterfaces>) -> (next: LinkingProgress)
    ensures
        next@ == linking_step(rest@, resolved@),
{
    if rest.len() == 0 {
        LinkingProgress::Done(Ok(dynamic_linking_of(&resolved)))
    } else {
        let mut later = rest;
        let dependency = later.remove(0);
        LinkingProgress::Stubs(ResolvingStubs { dependency, rest: later, resolved })
    }
}

impl ReadingDependencies {
    /// Takes the declared dependencies, or the failure to read them, which
    /// ends the computation. Without a dynamic dependency the component has
    /// no linking; otherwise the stubs of the dynamic ones are asked for,
    /// one after the other, in the order of their declaration.
    pub fn read(self, reply: Result<Vec<DependentComponent>, Failure>) -> (next: LinkingProgress)
        ensures
            next@ == match reply {
                Err(failure) => LinkingView::Done(Err(failure)),
                Ok(dependencies) => linking_step(
                    dynamic_dependencies(dependencies@),
                    Seq::empty(),
                ),
            },
    {
        match reply {
            Err(failure) => LinkingProgress::Done(Err(failure)),
            Ok(dependencies) => {
                let names = wasm_rpc_dependencies(&dependencies);
                next_stub(names, Vec::new())
            },
        }
    }
}

impl ResolvingStubs {
    /// Takes the stub interfaces of `dependency`, or the failure to resolve
    /// them, which ends the computation.
    pub fn resolved(self, reply: Result<StubInterfaces, Failure>) -> (next: LinkingProgress)
        ensures
            next@ == linking_resumed(self.rest@, self.resolved@, reply),
    {
        match reply {
            Err(failure) => LinkingProgress::Done(Err(failure)),
            Ok(stub) => {
                let mut resolved = self.resolved;
                resolved.push(stub);
                next_stub(self.rest, resolved)
            },
        }
    }
}

/// The computation after the replies have come in, one for each request,
/// for as long as there is a request.
pub open spec fn linking_run(
    progress: LinkingView,
    replies: Seq<Result<StubInterfaces, Failure>>,
) -> LinkingView
    decreases replies.len(),
{
    if replies.len() == 0 {
        progress
    } else {
        match progress {
            LinkingView::Stubs { dependency, rest, resolved } => linking_run(
                linking_resumed(rest, resolved, replies[0]),
                replies.drop_first(),
            ),
            _ => progress,
        }
    }
}

/// The stubs that a sequence of successful replies holds.
pub open spec fn stubs_of(replies: Seq<Result<StubInterfaces, Failure>>) -> Seq<StubInterfaces> {
    Seq::new(replies.len(), |i: int| replies[i]->Ok_0)
}

/// A component without a dynamic dependency has no linking at all, whatever
/// else it depends on.
pub proof fn law_no_dynamic_dependency_no_linking(dependencies: Seq<DependentComponent>)
    requires
        forall|i: int|
            0 <= i < dependencies.len() ==> (#[trigger] dependencies[i]).dep_type
                != DependencyType::DynamicWasmRpc,
    ensures
        linking_step(dynamic_dependencies(dependencies), Seq::empty()) == LinkingView::Done(
            Ok(None),
        ),
    decreases dependencies.len(),
{
    if dependencies.len() > 0 {
        let earlier = dependencies.drop_last();
        law_no_dynamic_dependency_no_linking(earlier);
    }
}

/// Where every dependency resolves, the stubs are asked for in the order of
/// the dependencies and the result is the linking that they spell together.
pub proof fn law_linking_of_resolved_stubs(
    names: Seq<ComponentName>,
    resolved: Seq<StubInterfaces>,
    replies: Seq<Result<StubInterfaces, Failure>>,
)
    requires
        names.len() > 0,
        replies.len() == names.len(),
        forall|i: int| 0 <= i < replies.len() ==> (#[trigger] replies[i]) is Ok,
    ensures
        linking_run(linking_step(names, resolved), replies) == LinkingView::Done(
            Ok(Some(linking_of(resolved + stubs_of(replies)))),
        ),
    decreases names.len(),
{
    let first = replies[0]->Ok_0;
    let later = replies.drop_first();
    let grown = resolved.push(first);
    assert(grown + stubs_of(later) =~= resolved + stubs_of(replies));
    if names.len() > 1 {
        law_linking_of_resolved_stubs(names.drop_first(), grown, later);
    }
}

/// The first dependency that does not resolve ends the computation with its
/// failure: no later dependency is asked for.
pub proof fn law_linking_stops_at_first_failure(
    names: Seq<ComponentName>,
    resolved: Seq<StubInterfaces>,
    replies: Seq<Result<StubInterfaces, Failure>>,
    failed: int,
)
    requires
        0 <= failed < replies.len() <= names.len(),
        replies[failed] is Err,
        forall|i: int| 0 <= i < failed ==> (#[trigger] replies[i]) is Ok,
    ensures
        linking_run(linking_step(names, resolved), replies) == LinkingView::Done(
            Err(replies[failed]->Err_0),
        ),
    decreases failed,
{
    let later = replies.drop_first();
    if failed == 0 {
        let done = LinkingView::Done(Err(replies[0]->Err_0));
        lemma_run_of_done(done, later);
    } else {
        law_linking_stops_at_first_failure(
            names.drop_first(),
            resolved.push(replies[0]->Ok_0),
            later,
            failed - 1,
        );
    }
}

/// Nothing moves a computation that is done.
proof fn lemma_run_of_done(done: LinkingView, replies: Seq<Result<StubInterfaces, Failure>>)
    requires
        done is Done,
    ensures
        linking_run(done, replies) == done,
{
}

} // verus!
