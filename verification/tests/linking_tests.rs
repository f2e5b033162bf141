use golem_components::linking::{
    app_component_dynamic_linking, dynamic_linking_of, wasm_rpc_dependencies, wasm_rpc_targets,
    DependencyType, DependentComponent, DynamicLinkedInstance, DynamicLinking, LinkingProgress,
    ReadingDependencies, ResolvingStubs, StubInterfaces, WasmRpcTarget,
};
use golem_components::model::{ComponentName, ComponentType, Failure};
use golem_components::string_map::StringMap;

fn name(s: &str) -> ComponentName {
    ComponentName(s.to_string())
}

fn dep(s: &str, dep_type: DependencyType) -> DependentComponent {
    DependentComponent { name: name(s), dep_type }
}

fn stub(interface: &str, component: &str, ephemeral: bool, exports: &[(&str, &str)]) -> StubInterfaces {
    StubInterfaces {
        stub_interface_name: interface.to_string(),
        component_name: name(component),
        is_ephemeral: ephemeral,
        exported_interfaces_per_stub_resource: exports
            .iter()
            .map(|(r, i)| (r.to_string(), i.to_string()))
            .collect(),
    }
}

fn target(interface: &str, component: &str, component_type: ComponentType) -> WasmRpcTarget {
    WasmRpcTarget {
        interface_name: interface.to_string(),
        component_name: component.to_string(),
        component_type,
    }
}

fn targets_of(linking: &DynamicLinking, key: &str) -> Vec<(String, WasmRpcTarget)> {
    match linking.dynamic_linking.get(&key.to_string()) {
        Some(DynamicLinkedInstance::WasmRpc(rpc)) => {
            let mut out = vec![];
            for resource in ["api", "cart", "counter", "a", "b"] {
                if let Some(t) = rpc.targets.get(&resource.to_string()) {
                    out.push((resource.to_string(), t.clone()));
                }
            }
            out
        }
        None => vec![],
    }
}

fn run(
    component: &str,
    dependencies: Vec<DependentComponent>,
    stubs: Vec<Result<StubInterfaces, Failure>>,
) -> (Vec<String>, Result<Option<DynamicLinking>, Failure>) {
    let mut asked = vec![];
    let mut replies = stubs.into_iter();
    let mut dependencies = Some(dependencies);
    let mut progress = app_component_dynamic_linking(&name(component));
    loop {
        progress = match progress {
            LinkingProgress::Dependencies(state) => {
                asked.push(format!("dependencies of {}", state.component_name.0));
                state.read(Ok(dependencies.take().unwrap()))
            }
            LinkingProgress::Stubs(state) => {
                asked.push(format!("stubs of {}", state.dependency.0));
                state.resolved(replies.next().unwrap())
            }
            LinkingProgress::Done(outcome) => return (asked, outcome),
        }
    }
}

#[test]
fn string_map_inserts_and_replaces() {
    let mut map: StringMap<u32> = StringMap::new();
    assert!(map.is_empty());
    assert_eq!(map.len(), 0);
    map.insert("a".to_string(), 1);
    map.insert("b".to_string(), 2);
    map.insert("a".to_string(), 3);
    assert!(!map.is_empty());
    assert_eq!(map.len(), 2);
    assert_eq!(map.get(&"a".to_string()), Some(&3));
    assert_eq!(map.get(&"b".to_string()), Some(&2));
    assert_eq!(map.get(&"c".to_string()), None);
    assert_eq!(map.entries(), &vec![("a".to_string(), 3), ("b".to_string(), 2)]);
    assert_eq!(map.into_entries(), vec![("a".to_string(), 3), ("b".to_string(), 2)]);
}

#[test]
fn only_dynamic_dependencies_are_linked() {
    let deps = vec![
        dep("static", DependencyType::StaticWasmRpc),
        dep("one", DependencyType::DynamicWasmRpc),
        dep("plain", DependencyType::Wasm),
        dep("two", DependencyType::DynamicWasmRpc),
    ];
    assert_eq!(wasm_rpc_dependencies(&deps), vec![name("one"), name("two")]);
    assert_eq!(wasm_rpc_dependencies(&vec![]), Vec::<ComponentName>::new());
}

#[test]
fn linking_is_absent_without_dynamic_dependencies() {
    let (asked, outcome) = run("shop", vec![], vec![]);
    assert_eq!(outcome, Ok(None));
    assert_eq!(asked, vec!["dependencies of shop".to_string()]);
    let (asked, outcome) = run(
        "shop",
        vec![dep("lib", DependencyType::StaticWasmRpc), dep("w", DependencyType::Wasm)],
        vec![],
    );
    assert_eq!(outcome, Ok(None));
    assert_eq!(asked, vec!["dependencies of shop".to_string()]);
    assert_eq!(dynamic_linking_of(&vec![]), None);
}

#[test]
fn one_dependency_with_two_resources_links_one_stub_to_two_targets() {
    let (asked, outcome) = run(
        "shop",
        vec![dep("cart", DependencyType::DynamicWasmRpc)],
        vec![Ok(stub(
            "shop:cart-client/cart-client",
            "shop:cart",
            false,
            &[("api", "shop:cart-exports/api"), ("cart", "shop:cart-exports/api")],
        ))],
    );
    assert_eq!(asked, vec!["dependencies of shop".to_string(), "stubs of cart".to_string()]);
    let linking = outcome.unwrap().unwrap();
    assert_eq!(linking.dynamic_linking.len(), 1);
    match linking.dynamic_linking.get(&"shop:cart-client/cart-client".to_string()) {
        Some(DynamicLinkedInstance::WasmRpc(rpc)) => assert_eq!(rpc.targets.len(), 2),
        None => panic!("the stub interface is not linked"),
    }
    assert_eq!(
        targets_of(&linking, "shop:cart-client/cart-client"),
        vec![
            ("api".to_string(), target("shop:cart-exports/api", "shop:cart", ComponentType::Durable)),
            ("cart".to_string(), target("shop:cart-exports/api", "shop:cart", ComponentType::Durable)),
        ]
    );
}

#[test]
fn targets_are_ephemeral_where_the_build_says_so() {
    let rpc = wasm_rpc_targets(&stub("s", "c", true, &[("a", "i")]));
    assert_eq!(
        rpc.targets.get(&"a".to_string()),
        Some(&target("i", "c", ComponentType::Ephemeral))
    );
    let rpc = wasm_rpc_targets(&stub("s", "c", false, &[("a", "i")]));
    assert_eq!(
        rpc.targets.get(&"a".to_string()),
        Some(&target("i", "c", ComponentType::Durable))
    );
}

#[test]
fn a_later_stub_of_the_same_name_replaces_the_earlier() {
    let linking = dynamic_linking_of(&vec![
        stub("s", "first", false, &[("a", "i1")]),
        stub("t", "other", false, &[("b", "i2")]),
        stub("s", "second", true, &[("b", "i3")]),
    ])
    .unwrap();
    assert_eq!(linking.dynamic_linking.len(), 2);
    assert_eq!(
        targets_of(&linking, "s"),
        vec![("b".to_string(), target("i3", "second", ComponentType::Ephemeral))]
    );
    assert_eq!(
        targets_of(&linking, "t"),
        vec![("b".to_string(), target("i2", "other", ComponentType::Durable))]
    );
}

#[test]
fn a_later_resource_of_the_same_name_replaces_the_earlier() {
    let rpc = wasm_rpc_targets(&stub("s", "c", false, &[("a", "i1"), ("a", "i2")]));
    assert_eq!(rpc.targets.len(), 1);
    assert_eq!(
        rpc.targets.get(&"a".to_string()),
        Some(&target("i2", "c", ComponentType::Durable))
    );
}

#[test]
fn a_stub_without_resources_is_linked_to_no_target() {
    let linking = dynamic_linking_of(&vec![stub("s", "c", false, &[])]).unwrap();
    assert_eq!(linking.dynamic_linking.len(), 1);
    match linking.dynamic_linking.get(&"s".to_string()) {
        Some(DynamicLinkedInstance::WasmRpc(rpc)) => assert!(rpc.targets.is_empty()),
        None => panic!("the stub interface is not linked"),
    }
}

#[test]
fn an_unresolved_dependency_ends_the_linking() {
    let failure = Failure { message: "cart was never built".to_string() };
    let (asked, outcome) = run(
        "shop",
        vec![
            dep("cart", DependencyType::DynamicWasmRpc),
            dep("stock", DependencyType::DynamicWasmRpc),
        ],
        vec![Err(failure.clone())],
    );
    assert_eq!(outcome, Err(failure));
    assert_eq!(asked, vec!["dependencies of shop".to_string(), "stubs of cart".to_string()]);
}

#[test]
fn unreadable_dependencies_end_the_linking() {
    let failure = Failure { message: "no application".to_string() };
    assert_eq!(
        ReadingDependencies { component_name: name("shop") }.read(Err(failure.clone())),
        LinkingProgress::Done(Err(failure))
    );
}

#[test]
fn stubs_are_asked_for_in_the_order_of_the_dependencies() {
    let first = ReadingDependencies { component_name: name("shop") }.read(Ok(vec![
        dep("b", DependencyType::DynamicWasmRpc),
        dep("x", DependencyType::Wasm),
        dep("a", DependencyType::DynamicWasmRpc),
    ]));
    assert_eq!(
        first,
        LinkingProgress::Stubs(ResolvingStubs {
            dependency: name("b"),
            rest: vec![name("a")],
            resolved: vec![],
        })
    );
    let second = match first {
        LinkingProgress::Stubs(state) => state.resolved(Ok(stub("sb", "b", false, &[]))),
        _ => unreachable!(),
    };
    assert_eq!(
        second,
        LinkingProgress::Stubs(ResolvingStubs {
            dependency: name("a"),
            rest: vec![],
            resolved: vec![stub("sb", "b", false, &[])],
        })
    );
}
