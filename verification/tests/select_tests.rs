use golem_components::handler::{ComponentCommandHandler, Context};
use golem_components::model::{
    AccountId, ComponentName, Failure, ProjectId, ProjectName, ProjectNameAndId,
    SelectedComponents,
};
use golem_components::name::{ParseError, SegmentKind};
use golem_components::select::{
    SelectError, SelectProgress, SelectingInApplication, SelectingProject,
};
use std::sync::Arc;

fn handler() -> ComponentCommandHandler {
    ComponentCommandHandler::new(Arc::new(Context { build_profile: None }))
}

fn name(s: &str) -> ComponentName {
    ComponentName(s.to_string())
}

fn project(s: &str, id: u128) -> ProjectNameAndId {
    ProjectNameAndId { project_name: ProjectName(s.to_string()), project_id: ProjectId(id) }
}

fn in_application(requested: Option<&str>, allow_no_matches: bool) -> SelectingInApplication {
    SelectingInApplication {
        requested: requested.map(name),
        account_id: None,
        project: None,
        allow_no_matches,
    }
}

#[test]
fn selection_without_a_name_asks_the_application() {
    assert_eq!(
        handler().opt_select_components_by_app_or_name(None),
        SelectProgress::Application(in_application(None, true))
    );
    assert_eq!(
        handler().must_select_components_by_app_or_name(None),
        SelectProgress::Application(in_application(None, false))
    );
}

#[test]
fn selection_of_a_bare_name_asks_the_application_for_it() {
    assert_eq!(
        handler().opt_select_components_by_app_or_name(Some(&name("shop"))),
        SelectProgress::Application(in_application(Some("shop"), true))
    );
}

#[test]
fn selection_with_a_project_chooses_the_project_first() {
    assert_eq!(
        handler().must_select_components_by_app_or_name(Some(&name("proj/shop"))),
        SelectProgress::Project(SelectingProject {
            account_id: None,
            project_name: ProjectName("proj".to_string()),
            component_name: name("shop"),
            allow_no_matches: false,
        })
    );
    assert_eq!(
        handler().opt_select_components_by_app_or_name(Some(&name("acct/proj/shop"))),
        SelectProgress::Project(SelectingProject {
            account_id: Some(AccountId("acct".to_string())),
            project_name: ProjectName("proj".to_string()),
            component_name: name("shop"),
            allow_no_matches: true,
        })
    );
}

#[test]
fn selection_of_what_does_not_parse_ends_at_once() {
    assert_eq!(
        handler().select_components_by_app_or_name_internal(Some(&name("a/b/c/d")), true),
        SelectProgress::Done(Err(SelectError::Parse(ParseError::MalformedIdentifier)))
    );
    assert_eq!(
        handler().select_components_by_app_or_name_internal(Some(&name("proj/")), true),
        SelectProgress::Done(Err(SelectError::Parse(ParseError::MissingSegment {
            kind: SegmentKind::Component
        })))
    );
    assert_eq!(
        handler().select_components_by_app_or_name_internal(Some(&name("/shop")), false),
        SelectProgress::Done(Err(SelectError::Parse(ParseError::MissingSegment {
            kind: SegmentKind::Project
        })))
    );
}

#[test]
fn chosen_project_goes_to_the_application_with_the_component() {
    let state = SelectingProject {
        account_id: Some(AccountId("acct".to_string())),
        project_name: ProjectName("proj".to_string()),
        component_name: name("shop"),
        allow_no_matches: false,
    };
    assert_eq!(
        state.selected(Ok(project("proj", 5))),
        SelectProgress::Application(SelectingInApplication {
            requested: Some(name("shop")),
            account_id: Some(AccountId("acct".to_string())),
            project: Some(project("proj", 5)),
            allow_no_matches: false,
        })
    );
}

#[test]
fn failure_to_choose_the_project_ends_the_selection() {
    let state = SelectingProject {
        account_id: None,
        project_name: ProjectName("proj".to_string()),
        component_name: name("shop"),
        allow_no_matches: true,
    };
    let failure = Failure { message: "no such project".to_string() };
    assert_eq!(
        state.selected(Err(failure.clone())),
        SelectProgress::Done(Err(SelectError::Project(failure)))
    );
}

#[test]
fn application_names_are_the_selection() {
    let state = SelectingInApplication {
        requested: Some(name("shop")),
        account_id: None,
        project: Some(project("proj", 5)),
        allow_no_matches: false,
    };
    assert_eq!(
        state.selected(Ok(Some(vec![name("shop:cart"), name("shop:stock")]))),
        SelectProgress::Done(Ok(SelectedComponents {
            account_id: None,
            project: Some(project("proj", 5)),
            component_names: vec![name("shop:cart"), name("shop:stock")],
        }))
    );
}

#[test]
fn a_name_unknown_to_the_application_selects_itself() {
    assert_eq!(
        in_application(Some("remote-only"), false).selected(Ok(None)),
        SelectProgress::Done(Ok(SelectedComponents {
            account_id: None,
            project: None,
            component_names: vec![name("remote-only")],
        }))
    );
}

#[test]
fn an_empty_selection_is_refused_only_where_one_is_needed_and_none_was_asked_for() {
    let nothing = SelectProgress::Done(Ok(SelectedComponents {
        account_id: None,
        project: None,
        component_names: vec![],
    }));
    let refused = SelectProgress::Done(Err(SelectError::NoComponentsSelected));
    assert_eq!(in_application(None, false).selected(Ok(Some(vec![]))), refused);
    assert_eq!(in_application(None, false).selected(Ok(None)), refused);
    assert_eq!(in_application(None, true).selected(Ok(Some(vec![]))), nothing);
    assert_eq!(in_application(None, true).selected(Ok(None)), nothing);
    assert_eq!(in_application(Some("x"), false).selected(Ok(Some(vec![]))), nothing);
}

#[test]
fn failure_of_the_application_ends_the_selection() {
    let failure = Failure { message: "manifest is broken".to_string() };
    assert_eq!(
        in_application(None, true).selected(Err(failure.clone())),
        SelectProgress::Done(Err(SelectError::Application(failure)))
    );
}

#[test]
fn selected_names_are_joined_with_comma_and_blank() {
    let selected = |names: &[&str]| SelectedComponents {
        account_id: None,
        project: None,
        component_names: names.iter().map(|n| name(n)).collect(),
    };
    assert_eq!(selected(&[]).names_in_line(), "");
    assert_eq!(selected(&["a"]).names_in_line(), "a");
    assert_eq!(selected(&["a", "b:c", "d"]).names_in_line(), "a, b:c, d");
}
