//! Choosing the components that a command works on: those that a qualified
//! name asks for, or those of the application in the current directory.

use crate::handler::ComponentCommandHandler;
use crate::model::{
    AccountId, ComponentName, Failure, ProjectName, ProjectNameAndId, SelectedComponents,
};
use crate::name::{join_with, parse_spec, ComponentIdentifier, IdentifierView, ParseError};
use vstd::prelude::*;
use vstd::string::*;

verus! {

/// Why no components could be chosen.
#[derive(Clone, Debug, PartialEq, Eq)]
pub enum SelectError {
    /// The name that was asked for is no identifier.
    Parse(ParseError),
    /// The project could not be chosen.
    Project(Failure),
    /// The application could not be asked.
    Application(Failure),
    /// No name was asked for, the application chose nothing, and the
    /// command needs at least one component.
    NoComponentsSelected,
}

/// Asks for the project named `project_name`, of account `account_id` where
/// one is given.
#[derive(Debug, PartialEq, Eq)]
pub struct SelectingProject {
    pub account_id: Option<AccountId>,
    pub project_name: ProjectName,
    pub component_name: ComponentName,
    pub allow_no_matches: bool,
}

/// Asks the application to select `requested`, or, where nothing is
/// requested, the components of the current directory.
///
/// The answer is `Some` with the names that the application has selected
/// (none where no application is in reach), or `None` where the application
/// does not know what was requested.
#[derive(Debug, PartialEq, Eq)]
pub struct SelectingInApplication {
    pub requested: Option<ComponentName>,
    pub account_id: Option<AccountId>,
    pub project: Option<ProjectNameAndId>,
    pub allow_no_matches: bool,
}

/// Where a selection stands.
#[derive(Debug, PartialEq, Eq)]
pub enum SelectProgress {
    Project(SelectingProject),
    Application(SelectingInApplication),
    Done(Result<SelectedComponents, SelectError>),
}

/// The account that an identifier names.
pub open spec fn account_view(account_id: Option<AccountId>) -> Option<Seq<char>> {
    match account_id {
        Some(account) => Some(account.0@),
        None => None,
    }
}

impl SelectProgress {
    /// This is the request for the project of the identifier `id`.
    pub open spec fn asks_project(self, id: IdentifierView, allow_no_matches: bool) -> bool {
        &&& self matches SelectProgress::Project(state)
        &&& account_view(state.account_id) == id.account
        &&& Some(state.project_name.0@) == id.project
        &&& state.component_name.0@ == id.name
        &&& state.allow_no_matches == allow_no_matches
    }

    /// This is the request to the application, for a component of that name
    /// where `requested` is `Some`.
    pub open spec fn asks_application(
        self,
        requested: Option<Seq<char>>,
        account_id: Option<AccountId>,
        project: Option<ProjectNameAndId>,
        allow_no_matches: bool,
    ) -> bool {
        &&& self matches SelectProgress::Application(state)
        &&& match state.requested {
            Some(name) => Some(name.0@),
            None => None,
        } == requested
        &&& state.account_id == account_id
        &&& state.project == project
        &&& state.allow_no_matches == allow_no_matches
    }

    /// This is the selection of `names`, with that account and project.
    pub open spec fn selects(
        self,
        account_id: Option<AccountId>,
        project: Option<ProjectNameAndId>,
        names: Seq<ComponentName>,
    ) -> bool {
        &&& self matches SelectProgress::Done(Ok(selected))
        &&& selected.account_id == account_id
        &&& selected.project == project
        &&& selected.component_names@ == names
    }
}

/// How a selection begins. Without a name the application is asked at
/// once. A name is parsed first: what does not parse ends the selection, a
/// bare component name goes to the application, and a name with a project
/// has the project chosen first.
pub open spec fn select_begins(
    component_name: Option<ComponentName>,
    allow_no_matches: bool,
    first: SelectProgress,
) -> bool {
    match component_name {
        None => first.asks_application(None, None, None, allow_no_matches),
        Some(name) => match parse_spec(name.0@) {
            Err(e) => first == SelectProgress::Done(Err(SelectError::Parse(e))),
            Ok(id) => if id.project is Some {
                first.asks_project(id, allow_no_matches)
            } else {
                first.asks_application(Some(id.name), None, None, allow_no_matches)
            },
        },
    }
}

/// The names that a selection ends with: those that the application has
/// selected, or, where it does not know the request, the request itself.
pub open spec fn selected_names(
    requested: Option<ComponentName>,
    found: Option<Vec<ComponentName>>,
) -> Seq<ComponentName> {
    match found {
        Some(names) => names@,
        None => match requested {
            Some(name) => seq![name],
            None => Seq::empty(),
        },
    }
}

impl ComponentCommandHandler {
    /// Begins a selection.
    pub fn select_components_by_app_or_name_internal(
        &self,
        component_name: Option<&ComponentName>,
        allow_no_matches: bool,
    ) -> (first: SelectProgress)
        ensures
            select_begins(
                match component_name {
                    Some(name) => Some(*name),
                    None => None,
                },
                allow_no_matches,
                first,
            ),
    {
        match component_name {
            None => SelectProgress::Application(
                SelectingInApplication {
                    requested: None,
                    account_id: None,
                    project: None,
                    allow_no_matches,
                },
            ),
            Some(name) => match ComponentIdentifier::parse(name.0.as_str()) {
                Err(e) => SelectProgress::Done(Err(SelectError::Parse(e))),
                Ok(id) => {
                    let (account, project, component) = id.into_parts();
                    match project {
                        Some(project) => SelectProgress::Project(
                            SelectingProject {
                                account_id: match account {
                                    Some(account) => Some(AccountId(account)),
                                    None => None,
                                },
                                project_name: ProjectName(project),
                                component_name: ComponentName(component),
                                allow_no_matches,
                            },
                        ),
                        None => SelectProgress::Application(
                            SelectingInApplication {
                                requested: Some(ComponentName(component)),
                                account_id: None,
                                project: None,
                                allow_no_matches,
                            },
                        ),
                    }
                },
            },
        }
    }
}

impl SelectingProject {
    /// Takes the project, or the failure to choose it, which ends the
    /// selection. With the project the application is asked for the
    /// component.
    pub fn selected(self, reply: Result<ProjectNameAndId, Failure>) -> (next: SelectProgress)
        ensures
            match reply {
                Err(failure) => next == SelectProgress::Done(Err(SelectError::Project(failure))),
                Ok(project) => next == SelectProgress::Application(
                    SelectingInApplication {
                        requested: Some(self.component_name),
                        account_id: self.account_id,
                        project: Some(project),
                        allow_no_matches: self.allow_no_matches,
                    },
                ),
            },
    {
        match reply {
            Err(failure) => SelectProgress::Done(Err(SelectError::Project(failure))),
            Ok(project) => SelectProgress::Application(
                SelectingInApplication {
                    requested: Some(self.component_name),
                    account_id: self.account_id,
                    project: Some(project),
                    allow_no_matches: self.allow_no_matches,
                },
            ),
        }
    }
}

impl SelectingInApplication {
    /// Whether a selection of `names` is refused: it is where it is empty,
    /// nothing was requested and the command needs a component.
    pub open spec fn refuses(self, names: Seq<ComponentName>) -> bool {
        names.len() == 0 && self.requested is None && !self.allow_no_matches
    }

    /// Takes the application's answer, or its failure, which ends the
    /// selection.
    pub fn selected(self, reply: Result<Option<Vec<ComponentName>>, Failure>) -> (next:
        SelectProgress)
        ensures
            match reply {
                Err(failure) => next == SelectProgress::Done(
                    Err(SelectError::Application(failure)),
                ),
                Ok(found) => if self.refuses(selected_names(self.requested, found)) {
                    next == SelectProgress::Done(Err(SelectError::NoComponentsSelected))
                } else {
                    next.selects(
                        self.account_id,
                        self.project,
                        selected_names(self.requested, found),
                    )
                },
            },
    {
        match reply {
            Err(failure) => SelectProgress::Done(Err(SelectError::Application(failure))),
            Ok(found) => {
                let nothing_requested = self.requested.is_none();
                let component_names = match found {
                    Some(names) => names,
                    None => {
                        let mut names: Vec<ComponentName> = Vec::new();
                        match self.requested {
                            Some(name) => {
                                names.push(name);
                            },
                            None => {},
                        }
                        names
                    },
                };
                if component_names.len() == 0 && nothing_requested && !self.allow_no_matches {
                    SelectProgress::Done(Err(SelectError::NoComponentsSelected))
                } else {
                    SelectProgress::Done(
                        Ok(
                            SelectedComponents {
                                account_id: self.account_id,
                                project: self.project,
                                component_names,
                            },
                        ),
                    )
                }
            },
        }
    }
}

impl ComponentCommandHandler {
    /// Begins a selection that may end with no component.
    pub fn opt_select_components_by_app_or_name(
        &self,
        component_name: Option<&ComponentName>,
    ) -> (first: SelectProgress)
        ensures
            select_begins(
                match component_name {
                    Some(name) => Some(*name),
                    None => None,
                },
                true,
                first,
            ),
    {
        self.select_components_by_app_or_name_internal(component_name, true)
    }

    /// Begins a selection that fails where nothing is requested and nothing
    /// is selected.
    pub fn must_select_components_by_app_or_name(
        &self,
        component_name: Option<&ComponentName>,
    ) -> (first: SelectProgress)
        ensures
            select_begins(
                match component_name {
                    Some(name) => Some(*name),
                    None => None,
                },
                false,
                first,
            ),
    {
        self.select_components_by_app_or_name_internal(component_name, false)
    }
}

/// The names of the components as character sequences.
pub open spec fn name_views(names: Seq<ComponentName>) -> Seq<Seq<char>> {
    names.map_values(|name: ComponentName| name.0@)
}

/// `itertools::Itertools::join` over the names: the first name, then, for
/// every further name, `sep` and that name; the empty string where there is
/// no name. The names are written as they are.
#[verifier::external_body]
fn join_names(names: &Vec<ComponentName>, sep: &str) -> (joined: String)
    ensures
        joined@ == join_with(name_views(names@), sep@),
{
    itertools::Itertools::join(&mut names.iter().map(|name| &name.0), sep)
}

impl SelectedComponents {
    /// The selected names in one line, with a comma and a blank between
    /// neighbours.
    pub fn names_in_line(&self) -> (line: String)
        ensures
            line@ == join_with(name_views(self.component_names@), seq![',', ' ']),
    {
        proof {
            reveal_strlit(", ");
            assert(", "@ =~= seq![',', ' ']);
        }
        join_names(&self.component_names, ", ")
    }
}

} // verus!
