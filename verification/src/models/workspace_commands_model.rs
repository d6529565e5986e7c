//! The commands of a workspace, listed with the workspace and commands as
//! the coordinator gives them. It behaves as the command list does, except
//! that pages hold the default number of commands and new listings ask
//! for no page in particular.
use vstd::prelude::*;
use crate::coordinator::{default_page_size, first_page, Positive, Workspace, WorkspaceView};
use crate::error::ModelError;
use crate::input::InputView;
use crate::message::Message;
use crate::models::command::Command;
use crate::models::commands::action::labels;
use crate::models::commands::list::{
    executed, selected_command, update, ListWorkspaceCommandsModel,
    ListWorkspaceCommandsModelParameters, ListWorkspaceCommandsModelView,
};
use crate::presenters::{CommandPresenter, CommandPresenterView, WorkspacePresenter};
use crate::routes::{route_view, Route};
use crate::smart_input::{command_of, search_of};
use crate::status_bar::{StatusBar, StatusBarView};
use crate::theme::Theme;

verus! {

/// The commands of a workspace.
pub struct WorkspaceCommandsModel {
    list: ListWorkspaceCommandsModel,
}

/// What the screen shows first.
pub struct WorkspaceCommandsModelParameters {
    pub commands: Vec<Command>,
    pub page_number: Option<Positive>,
    pub page_size: Option<Positive>,
    pub powershell_no_exit: bool,
    pub search_query: String,
    pub workspace: Workspace,
    pub theme: Theme,
}

impl View for WorkspaceCommandsModel {
    type V = ListWorkspaceCommandsModelView;

    closed spec fn view(&self) -> ListWorkspaceCommandsModelView {
        self.list@
    }
}

/// A command as the list shows it.
pub open spec fn command_view(c: Command) -> CommandPresenterView {
    CommandPresenterView { workspace_id: c.workspace_id, id: c.id, name: c.name@, program: c.program@ }
}

/// The status line: the screen, the page, the workspace, the selected
/// command and what is searched for, when there is something.
pub open spec fn status_bar_of(s: ListWorkspaceCommandsModelView) -> StatusBarView {
    StatusBarView {
        operation: Some("Commands"@),
        workspace: Some(s.workspace.name),
        command: None,
        page: Some(s.page_number),
        selector: match selected_command(s) {
            Some(c) => Some(c.name),
            None => None,
        },
        pwsh: None,
        search: match search_of(s.input) {
            Some(q) => if q.len() > 0 { Some(q) } else { None },
            None => None,
        },
    }
}

fn presenters(commands: Vec<Command>) -> (r: Vec<CommandPresenter>)
    ensures
        r@.map_values(|c: CommandPresenter| c@) == commands@.map_values(|c: Command| command_view(c)),
{
    let mut commands = commands;
    let ghost all = commands@;
    let n = commands.len();
    let mut r: Vec<CommandPresenter> = Vec::new();
    let mut i: usize = 0;
    while i < n
        invariant
            n == all.len(),
            i <= n,
            commands@.len() == n - i,
            forall|j: int| 0 <= j < commands@.len() ==> commands@[j] == all[j + i],
            r@.map_values(|c: CommandPresenter| c@) =~= all.map_values(|c: Command| command_view(c)).take(i as int),
        decreases n - i,
    {
        let Command { workspace_id, id, name, program } = commands.remove(0);
        r.push(CommandPresenter { workspace_id, id, name, program });
        proof {
            assert(all.map_values(|c: Command| command_view(c)).take(i as int + 1) =~= all.map_values(
                |c: Command| command_view(c),
            ).take(i as int).push(command_view(all[i as int])));
        }
        i = i + 1;
    }
    proof {
        assert(all.map_values(|c: Command| command_view(c)).take(n as int) =~= all.map_values(
            |c: Command| command_view(c),
        ));
    }
    r
}

impl WorkspaceCommandsModel {
    /// The list of `commands`, the first selected, the prompt holding the
    /// search the page was listed with.
    pub fn new(parameters: WorkspaceCommandsModelParameters) -> (r: WorkspaceCommandsModel)
        ensures
            r@.workspace.id == parameters.workspace.id,
            r@.workspace.name == parameters.workspace.name@,
            r@.workspace.location == parameters.workspace.location@,
            r@.commands == parameters.commands@.map_values(|c: Command| command_view(c)),
            r@.selected == (if parameters.commands@.len() > 0 { Some(0usize) } else { None }),
            r@.no_exit == parameters.powershell_no_exit,
            r@.page_number == (match parameters.page_number { Some(p) => p@, None => 1 }),
            r@.page_size == (match parameters.page_size { Some(p) => p@, None => 100 }),
            r@.input.input == InputView::with_text(parameters.search_query@),
            r@.input.commands == labels(),
            r@.search_query == parameters.search_query@,
            r@.redirect is None,
            r@.running,
            r@.theme == parameters.theme,
            r@.reload_page is None,
    {
        let WorkspaceCommandsModelParameters {
            commands,
            page_number,
            page_size,
            powershell_no_exit,
            search_query,
            workspace,
            theme,
        } = parameters;
        let Workspace { id, location, name } = workspace;
        let list = ListWorkspaceCommandsModel::with_paging(
            ListWorkspaceCommandsModelParameters {
                commands: presenters(commands),
                page_number,
                page_size,
                powershell_no_exit,
                search_query,
                workspace: WorkspacePresenter { id, location, name },
                theme,
            },
            first_page(),
            default_page_size(),
            None,
        );
        WorkspaceCommandsModel { list }
    }

    /// Whether the screen still runs.
    pub fn is_running(&self) -> (r: bool)
        ensures
            r == self@.running,
    {
        self.list.is_running()
    }

    /// The route the screen asks for, handed over once.
    pub fn redirect(&mut self) -> (r: Option<Route>)
        ensures
            route_view(r) == old(self)@.redirect,
            final(self)@ == (ListWorkspaceCommandsModelView { redirect: None, ..old(self)@ }),
    {
        self.list.redirect()
    }

    /// Handles a message, as the command list does.
    pub fn update(&mut self, message: Message) -> (r: Result<(), ModelError>)
        ensures
            match r {
                Ok(()) => update(old(self)@, message) == Some(final(self)@),
                Err(ModelError::UnknownAction(name)) => update(old(self)@, message) is None
                    && final(self)@ == old(self)@ && command_of(old(self)@.input) == Some(name@),
            },
    {
        self.list.update(message)
    }

    /// The status line of the screen.
    pub fn status_bar(&self) -> (r: StatusBar)
        ensures
            r@ == status_bar_of(self@),
    {
        let mut builder = StatusBar::builder().operation("Commands").page(
            self.list.page_number(),
        ).workspace(self.list.workspace_name().as_str());
        if let Some(name) = self.list.selected_command_name() {
            builder = builder.selector(name.as_str());
        }
        if let Some(search_query) = self.list.smart_input().search() {
            if !search_query.as_str().is_empty() {
                builder = builder.search(search_query.as_str());
            }
        }
        builder.build()
    }

    /// The list the screen shows.
    pub fn list(&self) -> (r: &ListWorkspaceCommandsModel)
        ensures
            r@ == self@,
    {
        &self.list
    }

    /// Takes back the selection as drawing left it.
    pub fn set_selected(&mut self, selected: Option<usize>)
        ensures
            final(self)@ == (ListWorkspaceCommandsModelView { selected, ..old(self)@ }),
    {
        self.list.set_selected(selected);
    }
}

} // verus!
